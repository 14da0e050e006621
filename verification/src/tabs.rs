//! The dashboard's small closed vocabularies: tabs, provider subtabs, health
//! groups, sort orders, log levels and filters, and their cycling order.

use vstd::prelude::*;

verus! {

/// Provider subtab inside the Platform tab.
#[derive(Debug, Clone, Copy, PartialEq, Eq, Structural)]
pub enum PlatformSubtab {
    GitHub,
    Railway,
    Vercel,
}

impl PlatformSubtab {
    pub open spec fn spec_next(self) -> Self {
        match self {
            PlatformSubtab::GitHub => PlatformSubtab::Railway,
            PlatformSubtab::Railway => PlatformSubtab::Vercel,
            PlatformSubtab::Vercel => PlatformSubtab::GitHub,
        }
    }

    pub open spec fn spec_prev(self) -> Self {
        match self {
            PlatformSubtab::GitHub => PlatformSubtab::Vercel,
            PlatformSubtab::Railway => PlatformSubtab::GitHub,
            PlatformSubtab::Vercel => PlatformSubtab::Railway,
        }
    }

    pub fn next(self) -> (r: Self)
        ensures
            r == self.spec_next(),
    {
        match self {
            PlatformSubtab::GitHub => PlatformSubtab::Railway,
            PlatformSubtab::Railway => PlatformSubtab::Vercel,
            PlatformSubtab::Vercel => PlatformSubtab::GitHub,
        }
    }

    pub fn prev(self) -> (r: Self)
        ensures
            r == self.spec_prev(),
    {
        match self {
            PlatformSubtab::GitHub => PlatformSubtab::Vercel,
            PlatformSubtab::Railway => PlatformSubtab::GitHub,
            PlatformSubtab::Vercel => PlatformSubtab::Railway,
        }
    }

    pub fn short_label(self) -> (r: &'static str)
        ensures
            r@ == (match self {
                PlatformSubtab::GitHub => "GH"@,
                PlatformSubtab::Railway => "RW"@,
                PlatformSubtab::Vercel => "VC"@,
            }),
    {
        match self {
            PlatformSubtab::GitHub => "GH",
            PlatformSubtab::Railway => "RW",
            PlatformSubtab::Vercel => "VC",
        }
    }
}

/// Moving to the next subtab and back (or back and forward) returns to the
/// start, and three steps forward go all the way round.
pub proof fn subtab_cycle(s: PlatformSubtab)
    ensures
        s.spec_next().spec_prev() == s,
        s.spec_prev().spec_next() == s,
        s.spec_next().spec_next().spec_next() == s,
{
}

/// Grouping of projects on the Health tab.
#[derive(Debug, Clone, Copy, PartialEq, Eq, Structural)]
pub enum HealthGroup {
    Railway,
    Vercel,
    GitHubOnly,
}

impl HealthGroup {
    /// All groups, in display order.
    pub fn all() -> (r: [HealthGroup; 3])
        ensures
            r@ == seq![HealthGroup::Railway, HealthGroup::Vercel, HealthGroup::GitHubOnly],
    {
        [HealthGroup::Railway, HealthGroup::Vercel, HealthGroup::GitHubOnly]
    }

    pub fn label(self) -> (r: &'static str)
        ensures
            r@ == (match self {
                HealthGroup::Railway => "Railway Projects"@,
                HealthGroup::Vercel => "Vercel Projects"@,
                HealthGroup::GitHubOnly => "GitHub-only Projects"@,
            }),
    {
        match self {
            HealthGroup::Railway => "Railway Projects",
            HealthGroup::Vercel => "Vercel Projects",
            HealthGroup::GitHubOnly => "GitHub-only Projects",
        }
    }
}

/// The top-level tabs.
#[derive(Debug, Clone, Copy, PartialEq, Eq, Structural)]
pub enum Tab {
    Unified,
    Platform,
    Health,
    Settings,
    Logs,
}

impl Tab {
    pub open spec fn spec_index(self) -> nat {
        match self {
            Tab::Unified => 0,
            Tab::Platform => 1,
            Tab::Health => 2,
            Tab::Settings => 3,
            Tab::Logs => 4,
        }
    }

    pub open spec fn spec_from_index(i: nat) -> Tab {
        let r = i % 5;
        if r == 0 {
            Tab::Unified
        } else if r == 1 {
            Tab::Platform
        } else if r == 2 {
            Tab::Health
        } else if r == 3 {
            Tab::Settings
        } else {
            Tab::Logs
        }
    }

    pub open spec fn spec_next(self) -> Tab {
        Tab::spec_from_index(self.spec_index() + 1)
    }

    pub open spec fn spec_prev(self) -> Tab {
        Tab::spec_from_index(((self.spec_index() + 5 - 1) % 5) as nat)
    }

    /// All tabs, in display order.
    pub fn all() -> (r: [Tab; 5])
        ensures
            r@ == seq![Tab::Unified, Tab::Platform, Tab::Health, Tab::Settings, Tab::Logs],
    {
        [Tab::Unified, Tab::Platform, Tab::Health, Tab::Settings, Tab::Logs]
    }

    pub fn index(self) -> (r: usize)
        ensures
            r == self.spec_index(),
    {
        match self {
            Tab::Unified => 0,
            Tab::Platform => 1,
            Tab::Health => 2,
            Tab::Settings => 3,
            Tab::Logs => 4,
        }
    }

    pub fn from_index(i: usize) -> (r: Tab)
        ensures
            r == Tab::spec_from_index(i as nat),
    {
        let r = i % 5;
        if r == 0 {
            Tab::Unified
        } else if r == 1 {
            Tab::Platform
        } else if r == 2 {
            Tab::Health
        } else if r == 3 {
            Tab::Settings
        } else {
            Tab::Logs
        }
    }

    pub fn label(self) -> (r: &'static str)
        ensures
            r@ == (match self {
                Tab::Unified => "Unified Overview"@,
                Tab::Platform => "Platform Details"@,
                Tab::Health => "Health & Metrics"@,
                Tab::Settings => "Settings"@,
                Tab::Logs => "Logs"@,
            }),
    {
        match self {
            Tab::Unified => "Unified Overview",
            Tab::Platform => "Platform Details",
            Tab::Health => "Health & Metrics",
            Tab::Settings => "Settings",
            Tab::Logs => "Logs",
        }
    }

    pub fn short_label(self) -> (r: &'static str)
        ensures
            r@ == (match self {
                Tab::Unified => "Unified"@,
                Tab::Platform => "Platform"@,
                Tab::Health => "Health"@,
                Tab::Settings => "Settings"@,
                Tab::Logs => "Logs"@,
            }),
    {
        match self {
            Tab::Unified => "Unified",
            Tab::Platform => "Platform",
            Tab::Health => "Health",
            Tab::Settings => "Settings",
            Tab::Logs => "Logs",
        }
    }

    pub fn next(self) -> (r: Tab)
        ensures
            r == self.spec_next(),
    {
        Self::from_index(self.index() + 1)
    }

    pub fn prev(self) -> (r: Tab)
        ensures
            r == self.spec_prev(),
    {
        Self::from_index((self.index() + 5 - 1) % 5)
    }
}

/// A tab's index leads back to the tab, indices wrap modulo the number of
/// tabs, next and prev undo each other, and five steps go all the way round.
pub proof fn tab_cycle(t: Tab, i: nat)
    ensures
        Tab::spec_from_index(t.spec_index()) == t,
        Tab::spec_from_index(i).spec_index() == i % 5,
        t.spec_next().spec_prev() == t,
        t.spec_prev().spec_next() == t,
        t.spec_next().spec_next().spec_next().spec_next().spec_next() == t,
{
}

/// Whether the user is typing a search query or navigating normally.
#[derive(Debug, Clone, Copy, PartialEq, Eq, Structural)]
pub enum InputMode {
    Normal,
    Search,
}

/// Sort order for the Unified Overview table.
#[derive(Debug, Clone, Copy, PartialEq, Eq, Structural)]
pub enum UnifiedSort {
    /// Newest event first (default).
    ByTime,
    /// Group by CD platform present: Railway, Vercel, GitHub-only, unmatched.
    ByPlatform,
}

impl UnifiedSort {
    pub open spec fn spec_next(self) -> Self {
        match self {
            UnifiedSort::ByTime => UnifiedSort::ByPlatform,
            UnifiedSort::ByPlatform => UnifiedSort::ByTime,
        }
    }

    pub fn next(self) -> (r: Self)
        ensures
            r == self.spec_next(),
    {
        match self {
            UnifiedSort::ByTime => UnifiedSort::ByPlatform,
            UnifiedSort::ByPlatform => UnifiedSort::ByTime,
        }
    }

    pub fn label(self) -> (r: &'static str)
        ensures
            r@ == (match self {
                UnifiedSort::ByTime => "time"@,
                UnifiedSort::ByPlatform => "platform"@,
            }),
    {
        match self {
            UnifiedSort::ByTime => "time",
            UnifiedSort::ByPlatform => "platform",
        }
    }
}

impl Default for UnifiedSort {
    fn default() -> (r: Self)
        ensures
            r == UnifiedSort::ByTime,
    {
        UnifiedSort::ByTime
    }
}

/// Severity of a captured log record.
#[allow(non_camel_case_types)]
#[derive(Debug, Clone, Copy, PartialEq, Eq, Structural)]
pub enum Level {
    TRACE,
    DEBUG,
    INFO,
    WARN,
    ERROR,
}

/// Log level filter for the Logs tab.
#[derive(Debug, Clone, Copy, PartialEq, Eq, Structural)]
pub enum LogFilter {
    All,
    Error,
    Warn,
    Info,
}

impl LogFilter {
    pub open spec fn spec_next(self) -> Self {
        match self {
            LogFilter::All => LogFilter::Error,
            LogFilter::Error => LogFilter::Warn,
            LogFilter::Warn => LogFilter::Info,
            LogFilter::Info => LogFilter::All,
        }
    }

    /// Records of `level` pass this filter.
    pub open spec fn admits(self, level: Level) -> bool {
        match self {
            LogFilter::All => true,
            LogFilter::Error => level == Level::ERROR,
            LogFilter::Warn => level == Level::WARN,
            LogFilter::Info => level == Level::INFO,
        }
    }

    pub fn next(self) -> (r: Self)
        ensures
            r == self.spec_next(),
    {
        match self {
            LogFilter::All => LogFilter::Error,
            LogFilter::Error => LogFilter::Warn,
            LogFilter::Warn => LogFilter::Info,
            LogFilter::Info => LogFilter::All,
        }
    }

    pub fn label(self) -> (r: &'static str)
        ensures
            r@ == (match self {
                LogFilter::All => "ALL"@,
                LogFilter::Error => "ERR"@,
                LogFilter::Warn => "WARN"@,
                LogFilter::Info => "INFO"@,
            }),
    {
        match self {
            LogFilter::All => "ALL",
            LogFilter::Error => "ERR",
            LogFilter::Warn => "WARN",
            LogFilter::Info => "INFO",
        }
    }

    pub fn matches(self, level: &Level) -> (r: bool)
        ensures
            r == self.admits(*level),
    {
        match self {
            LogFilter::All => true,
            LogFilter::Error => *level == Level::ERROR,
            LogFilter::Warn => *level == Level::WARN,
            LogFilter::Info => *level == Level::INFO,
        }
    }
}

/// The log filter goes through its four settings and back to the first;
/// the sort order toggles between its two settings.
pub proof fn filter_and_sort_cycles(f: LogFilter, s: UnifiedSort)
    ensures
        f.spec_next().spec_next().spec_next().spec_next() == f,
        f.spec_next() != f,
        s.spec_next().spec_next() == s,
        s.spec_next() != s,
{
}

/// Short level abbreviation for footer display.
pub fn level_abbrev(level: &Level) -> (r: &'static str)
    ensures
        r@ == (match *level {
            Level::ERROR => "ERR"@,
            Level::WARN => "WRN"@,
            Level::INFO => "INF"@,
            Level::DEBUG => "DBG"@,
            Level::TRACE => "TRC"@,
        }),
{
    match *level {
        Level::ERROR => "ERR",
        Level::WARN => "WRN",
        Level::INFO => "INF",
        Level::DEBUG => "DBG",
        Level::TRACE => "TRC",
    }
}

/// The five-character level badge shown in the log table.
pub fn level_badge_text(level: &Level) -> (r: &'static str)
    ensures
        r@ == (match *level {
            Level::ERROR => "ERROR"@,
            Level::WARN => " WARN"@,
            Level::INFO => " INFO"@,
            Level::DEBUG => "DEBUG"@,
            Level::TRACE => "TRACE"@,
        }),
{
    match *level {
        Level::ERROR => "ERROR",
        Level::WARN => " WARN",
        Level::INFO => " INFO",
        Level::DEBUG => "DEBUG",
        Level::TRACE => "TRACE",
    }
}

/// Steps of the in-TUI settings and onboarding flow.
#[derive(Debug, Clone, Copy, PartialEq, Eq, Structural)]
pub enum SettingsFlowState {
    Idle,
    ProviderActions,
    TokenEntry,
    ValidatingToken,
    ValidationResult,
    DiscoveryScanning,
    ResourceSelection,
    CorrelationReview,
    Applying,
}

/// Which pane of the details view has the keyboard.
#[derive(Debug, Clone, Copy, PartialEq, Eq, Structural)]
pub enum DetailsFocus {
    LeftTree,
    RightPanel,
}

} // verus!
