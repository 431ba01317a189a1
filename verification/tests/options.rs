use serena::options::{parse_port, Opts, DEFAULT_PORT};

#[test]
fn the_default_port_is_three_thousand() {
    assert_eq!(DEFAULT_PORT, 3000);
}

#[test]
fn a_decimal_port_is_taken() {
    assert_eq!(parse_port("8080"), 8080);
    assert_eq!(parse_port("1"), 1);
    assert_eq!(parse_port("65535"), 65535);
    assert_eq!(parse_port("007"), 7);
    assert_eq!(parse_port("+25"), 25);
}

#[test]
fn a_bad_port_falls_back_to_the_default() {
    assert_eq!(parse_port(""), DEFAULT_PORT);
    assert_eq!(parse_port("abc"), DEFAULT_PORT);
    assert_eq!(parse_port("80a"), DEFAULT_PORT);
    assert_eq!(parse_port("-1"), DEFAULT_PORT);
    assert_eq!(parse_port("65536"), DEFAULT_PORT);
    assert_eq!(parse_port("99999999999999999999"), DEFAULT_PORT);
    assert_eq!(parse_port("+"), DEFAULT_PORT);
    assert_eq!(parse_port("8 0"), DEFAULT_PORT);
}

#[test]
fn options_carry_the_raw_values_through() {
    let o = Opts::parse("public".to_string(), "4000", false);
    assert_eq!(o.directory, "public");
    assert_eq!(o.port, 4000);
    assert!(!o.no_auto_reload);

    let o = Opts::parse(".".to_string(), "oops", true);
    assert_eq!(o.directory, ".");
    assert_eq!(o.port, 3000);
    assert!(o.no_auto_reload);
}
