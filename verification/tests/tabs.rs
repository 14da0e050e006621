use pulsos::tabs::{level_abbrev, HealthGroup, Level, LogFilter, PlatformSubtab, Tab, UnifiedSort};

#[test]
fn tab_from_index_wraps() {
    assert_eq!(Tab::from_index(0), Tab::Unified);
    assert_eq!(Tab::from_index(1), Tab::Platform);
    assert_eq!(Tab::from_index(2), Tab::Health);
    assert_eq!(Tab::from_index(3), Tab::Settings);
    assert_eq!(Tab::from_index(4), Tab::Logs);
    assert_eq!(Tab::from_index(5), Tab::Unified);
}

#[test]
fn tab_next_prev_round_trip() {
    let tab = Tab::Unified;
    assert_eq!(tab.next(), Tab::Platform);
    assert_eq!(tab.next().next(), Tab::Health);
    assert_eq!(tab.next().next().next(), Tab::Settings);
    assert_eq!(tab.next().next().next().next(), Tab::Logs);
    assert_eq!(tab.next().next().next().next().next(), Tab::Unified);

    assert_eq!(tab.prev(), Tab::Logs);
    assert_eq!(tab.prev().prev(), Tab::Settings);
    assert_eq!(tab.prev().prev().prev(), Tab::Health);
    assert_eq!(tab.prev().prev().prev().prev(), Tab::Platform);
    assert_eq!(tab.prev().prev().prev().prev().prev(), Tab::Unified);
}

#[test]
fn tab_labels() {
    assert_eq!(Tab::Unified.label(), "Unified Overview");
    assert_eq!(Tab::Platform.label(), "Platform Details");
    assert_eq!(Tab::Health.label(), "Health & Metrics");
    assert_eq!(Tab::Settings.label(), "Settings");
    assert_eq!(Tab::Logs.label(), "Logs");
}

#[test]
fn tab_short_labels() {
    assert_eq!(Tab::Unified.short_label(), "Unified");
    assert_eq!(Tab::Platform.short_label(), "Platform");
    assert_eq!(Tab::Health.short_label(), "Health");
    assert_eq!(Tab::Settings.short_label(), "Settings");
    assert_eq!(Tab::Logs.short_label(), "Logs");
}

#[test]
fn level_abbrev_values() {
    assert_eq!(level_abbrev(&Level::ERROR), "ERR");
    assert_eq!(level_abbrev(&Level::WARN), "WRN");
    assert_eq!(level_abbrev(&Level::INFO), "INF");
    assert_eq!(level_abbrev(&Level::DEBUG), "DBG");
    assert_eq!(level_abbrev(&Level::TRACE), "TRC");
}

#[test]
fn subtabs_cycle_both_ways() {
    let s = PlatformSubtab::GitHub;
    assert_eq!(s.next(), PlatformSubtab::Railway);
    assert_eq!(s.next().next(), PlatformSubtab::Vercel);
    assert_eq!(s.next().next().next(), PlatformSubtab::GitHub);
    assert_eq!(s.prev(), PlatformSubtab::Vercel);
    assert_eq!(s.short_label(), "GH");
    assert_eq!(PlatformSubtab::Railway.short_label(), "RW");
    assert_eq!(PlatformSubtab::Vercel.short_label(), "VC");
}

#[test]
fn filter_and_sort_labels() {
    assert_eq!(LogFilter::All.label(), "ALL");
    assert_eq!(LogFilter::Error.label(), "ERR");
    assert_eq!(LogFilter::Warn.label(), "WARN");
    assert_eq!(LogFilter::Info.label(), "INFO");
    assert!(LogFilter::All.matches(&Level::DEBUG));
    assert!(LogFilter::Warn.matches(&Level::WARN));
    assert!(!LogFilter::Warn.matches(&Level::ERROR));
    assert_eq!(UnifiedSort::ByTime.next(), UnifiedSort::ByPlatform);
    assert_eq!(UnifiedSort::ByPlatform.label(), "platform");
    assert_eq!(UnifiedSort::default(), UnifiedSort::ByTime);
    assert_eq!(HealthGroup::GitHubOnly.label(), "GitHub-only Projects");
}
