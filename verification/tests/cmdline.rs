use libcitadel::cmdline::CommandLine;

#[test]
fn foo() {
    let cline = CommandLine::parse("BOOT_IMAGE=/vmlinuz root=/dev/sda1 quiet citadel.channel=dev:abc123");
    println!("hello");
    println!("cline: {:?}", (cline.get_value("root"), cline.var_exists("quiet"), cline.channel()));
}

#[test]
fn cmdline_flags_and_values() {
    let cl = CommandLine::parse("quiet root=/dev/sda1 citadel.noverity citadel.sealed");
    assert!(cl.var_exists("quiet"));
    assert_eq!(cl.get_value("quiet"), None);
    assert_eq!(cl.get_value("root"), Some("/dev/sda1"));
    assert!(cl.noverity());
    assert!(cl.sealed());
    assert!(!cl.install_mode());
    assert!(!cl.live_mode());
    assert!(!cl.recovery_mode());
    assert!(!cl.overlay());
    assert!(!cl.verbose());
    assert!(!cl.debug());
    assert!(!cl.nosignatures());
    assert!(!cl.var_exists("absent"));
}

#[test]
fn cmdline_underscore_becomes_dash() {
    let cl = CommandLine::parse("my_flag some-opt=1");
    assert!(cl.var_exists("my-flag"));
    assert!(!cl.var_exists("my_flag"));
    assert_eq!(cl.get_value("some-opt"), Some("1"));
}

#[test]
fn cmdline_quoted_value() {
    let cl = CommandLine::parse("title=\"hello world\" next=1");
    assert_eq!(cl.get_value("title"), Some("hello world"));
    assert_eq!(cl.get_value("next"), Some("1"));
}

#[test]
fn cmdline_bad_options_are_skipped() {
    // a quote must be followed by whitespace; a leading dash is refused
    let cl = CommandLine::parse("a=\"x\"y b=2 --c d#e f=3");
    assert!(!cl.var_exists("a"));
    assert_eq!(cl.get_value("b"), Some("2"));
    assert!(!cl.var_exists("c"));
    assert!(!cl.var_exists("d"));
    assert_eq!(cl.get_value("f"), Some("3"));
}

#[test]
fn cmdline_later_value_wins() {
    let cl = CommandLine::parse("x=1 x=2");
    assert_eq!(cl.get_value("x"), Some("2"));
}

#[test]
fn cmdline_empty_line() {
    let cl = CommandLine::parse("");
    assert!(!cl.var_exists("quiet"));
    let cl = CommandLine::new();
    assert_eq!(cl.channel(), None);
}

#[test]
fn cmdline_channel_parts() {
    let cl = CommandLine::parse("citadel.channel=dev:abc123");
    assert_eq!(cl.channel(), Some("dev:abc123"));
    assert_eq!(cl.channel_name(), Some("dev".to_string()));
    assert_eq!(cl.channel_pubkey(), Some("abc123".to_string()));
    let cl = CommandLine::parse("citadel.channel=stable");
    assert_eq!(cl.channel_name(), Some("stable".to_string()));
    assert_eq!(cl.channel_pubkey(), None);
    let cl = CommandLine::parse("citadel.channel=a:b:c");
    assert_eq!(cl.channel_name(), Some("a".to_string()));
    assert_eq!(cl.channel_pubkey(), Some("b:c".to_string()));
}

#[test]
fn cmdline_appended_option_after_closed_quote() {
    let base = "a.b=\"x y\" flag";
    let cl = CommandLine::parse(&format!("{} key=val", base));
    assert_eq!(cl.get_value("key"), Some("val"));
    assert_eq!(cl.get_value("a.b"), Some("x y"));
    assert!(cl.var_exists("flag"));
    let cl = CommandLine::parse(&format!("{} extra", base));
    assert!(cl.var_exists("extra"));
    assert_eq!(cl.get_value("extra"), None);
}

#[test]
fn cmdline_appended_option_inside_open_quote_is_absorbed() {
    let cl = CommandLine::parse("a=\"open key=val");
    assert!(!cl.var_exists("key"));
    assert!(!cl.var_exists("a"));
}
