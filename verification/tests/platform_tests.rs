use dylo_runtime::platform::{blue, colorize, colors_enabled, red, Extensions, Os};

#[test]
fn extensions_macos() {
    let e = Extensions::get(Os::MacOs).unwrap();
    assert_eq!(e.lib, "dylib");
    assert_eq!(e.dbg, "dSYM");
}

#[test]
fn extensions_linux() {
    let e = Extensions::get(Os::Linux).unwrap();
    assert_eq!(e.lib, "so");
    assert_eq!(e.dbg, "so.dwp");
}

#[test]
fn extensions_unsupported() {
    assert!(Extensions::get(Os::Unsupported).is_none());
}

#[test]
fn colors_default_on() {
    assert!(colors_enabled(None, None, None, None));
}

#[test]
fn colors_no_color_set() {
    let empty = String::new();
    let one = String::from("1");
    assert!(colors_enabled(Some(&empty), None, None, None));
    assert!(!colors_enabled(Some(&one), None, None, None));
}

#[test]
fn colors_force_color() {
    let zero = String::from("0");
    let one = String::from("1");
    assert!(!colors_enabled(None, Some(&zero), None, None));
    assert!(colors_enabled(None, Some(&one), None, None));
}

#[test]
fn colors_clicolor() {
    let zero = String::from("0");
    let one = String::from("1");
    assert!(!colors_enabled(None, None, Some(&zero), None));
    assert!(colors_enabled(None, None, Some(&one), None));
    assert!(!colors_enabled(None, None, None, Some(&zero)));
}

#[test]
fn colors_no_color_wins() {
    let empty = String::new();
    let zero = String::from("0");
    assert!(colors_enabled(Some(&empty), Some(&zero), None, None));
}

#[test]
fn colorize_enabled_wraps() {
    assert_eq!(colorize(34, "hello", true), "\u{1b}[34mhello\u{1b}[0m");
}

#[test]
fn colorize_disabled_is_identity() {
    assert_eq!(colorize(34, "hello", false), "hello");
}

#[test]
fn colorize_three_digit_code() {
    assert_eq!(colorize(255, "x", true), "\u{1b}[255mx\u{1b}[0m");
    assert_eq!(colorize(0, "x", true), "\u{1b}[0mx\u{1b}[0m");
    assert_eq!(colorize(107, "x", true), "\u{1b}[107mx\u{1b}[0m");
}

#[test]
fn blue_and_red_codes() {
    assert_eq!(blue("m", true), "\u{1b}[34mm\u{1b}[0m");
    assert_eq!(red("m", true), "\u{1b}[31mm\u{1b}[0m");
    assert_eq!(blue("m", false), "m");
    assert_eq!(red("m", false), "m");
}
