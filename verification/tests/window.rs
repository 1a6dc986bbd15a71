use chrome_leap::window::is_chrome_title;

#[test]
fn browser_title_ends_in_its_name() {
    assert!(is_chrome_title("New Tab - Google Chrome"));
    assert!(is_chrome_title("Rust - Wikipedia - Google Chrome"));
    assert!(is_chrome_title("Google Chrome"));
}

#[test]
fn space_around_the_name_is_passed_over() {
    assert!(is_chrome_title("New Tab -Google Chrome"));
    assert!(is_chrome_title("New Tab -   Google Chrome \t\n"));
    assert!(is_chrome_title("  Google Chrome  "));
    assert!(is_chrome_title("x-\u{a0}Google Chrome\u{3000}"));
}

#[test]
fn other_titles_are_not_the_browser() {
    assert!(!is_chrome_title(""));
    assert!(!is_chrome_title("-"));
    assert!(!is_chrome_title("Google Chrome - "));
    assert!(!is_chrome_title("Google Chrome - Settings"));
    assert!(!is_chrome_title("New Tab - Mozilla Firefox"));
    assert!(!is_chrome_title("New Tab - google chrome"));
    assert!(!is_chrome_title("New Tab - Google  Chrome"));
    assert!(!is_chrome_title("New Tab - Google Chrome-"));
    assert!(!is_chrome_title("New Tab \u{2013} Google Chrome"));
}

#[test]
fn only_what_follows_the_last_dash_counts() {
    assert!(!is_chrome_title("Google Chrome - Google-Chrome"));
    assert!(is_chrome_title("a-b-c- Google Chrome"));
}
