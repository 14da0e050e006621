use pulsos::panels::{tab_underline, tree_window, weight_bar};

#[test]
fn header_underline_positions() {
    assert_eq!(tab_underline(0, 0), "═".repeat(7));
    assert_eq!(tab_underline(10, 1), format!("{}{}", " ".repeat(10 + 7 + 3), "═".repeat(8)));
    assert_eq!(tab_underline(2, 3), format!("{}{}", " ".repeat(2 + 10 + 11 + 9), "═".repeat(8)));
}

#[test]
fn tree_window_follows_the_cursor() {
    assert_eq!(tree_window(0, 0, 0, 5), (0, 0, 0));
    assert_eq!(tree_window(10, 2, 0, 5), (0, 5, 2));
    assert_eq!(tree_window(10, 7, 0, 5), (3, 8, 7));
    assert_eq!(tree_window(10, 1, 6, 5), (1, 6, 1));
    assert_eq!(tree_window(10, 99, 99, 0), (9, 10, 9));
    assert_eq!(tree_window(3, 1, 0, 10), (0, 3, 1));
}

#[test]
fn weight_bars() {
    assert_eq!(weight_bar("GH", 40, 70), format!(" GH 40% {}{} 70%", "█".repeat(8), "░".repeat(4)));
    assert_eq!(weight_bar("VC", 5, 100), format!(" VC {:>2}% {} 100%", 5, "█".repeat(12)));
    assert_eq!(weight_bar("RW", 100, 0), format!(" RW 100% {} 0%", "░".repeat(12)));
}
