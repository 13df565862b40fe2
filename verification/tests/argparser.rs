use myip::argparser::{help_msg, Color, ParseColorError, COLORS};

#[test]
fn colour_words_are_read() {
    assert_eq!(Color::parse("auto"), Ok(Color::Auto));
    assert_eq!(Color::parse("always"), Ok(Color::Always));
    assert_eq!(Color::parse("never"), Ok(Color::Never));
    assert_eq!("never".parse::<Color>(), Ok(Color::Never));
}

#[test]
fn other_words_are_handed_back() {
    assert_eq!(Color::parse("Auto"), Err(ParseColorError("Auto".to_string())));
    assert_eq!(Color::parse(""), Err(ParseColorError(String::new())));
    assert_eq!("sometimes".parse::<Color>(), Err(ParseColorError("sometimes".to_string())));
}

#[test]
fn parse_error_names_the_word_and_the_choices() {
    assert_eq!(
        ParseColorError("blue".to_string()).message(),
        "unknown variant \"blue\", possible values: auto, always, never"
    );
}

#[test]
fn colours_follow_the_choice() {
    assert!(Color::Always.use_color(false));
    assert!(Color::Always.use_color(true));
    assert!(!Color::Never.use_color(false));
    assert!(!Color::Never.use_color(true));
    assert!(!Color::Auto.use_color(false));
    assert!(Color::Auto.use_color(true));
}

#[test]
fn help_names_the_options() {
    let help = help_msg();
    assert!(help.starts_with("Simple command-line tool to get your external IP address.\n\nUsage:\n    myip [options]\n"));
    assert!(help.contains(
        "    -l --lookup=[<path>]  Lookup MaxMind database [default path: /var/lib/GeoIP]\n"
    ));
    assert!(help.contains(
        "    -c --color <when>     When to colorize text output [possible values: auto, always, never]\n"
    ));
    assert!(help.ends_with("    -v --version          Prints version information"));
    assert_eq!(help.lines().count(), 14);
    assert_eq!(COLORS, ["auto", "always", "never"]);
}
