//! The choices of the command line that the renderers depend on, and the
//! help text.

use crate::geoip::MMDB_PATH;
use crate::text::{join_with, joined, slice_views};
use vstd::prelude::*;
use vstd::string::*;

verus! {

/// The words that the colour option takes.
pub const COLORS: [&'static str; 3] = ["auto", "always", "never"];

/// When the text output is painted.
#[derive(Clone, Copy, PartialEq, Eq, Structural, Debug)]
pub enum Color {
    /// Where the output goes to a terminal.
    Auto,
    Always,
    Never,
}

/// A word that names no colour choice; the field holds the word.
#[derive(Clone, Debug, PartialEq, Eq)]
pub struct ParseColorError(pub String);

/// What the command line asks for.
#[derive(Clone, Debug, PartialEq, Eq)]
pub struct Args {
    /// The address to look up in place of the caller's own.
    pub address: Option<String>,
    /// The database directory, where the databases are to be asked.
    pub lookup: Option<String>,
    pub color: Color,
    /// Whether the caller's IPv6 address is wanted.
    pub inet6: bool,
    /// Whether the output is a JSON document.
    pub json: bool,
}

/// The words of the colour option, separated by a comma and a space.
pub open spec fn colors_text() -> Seq<char> {
    joined(slice_views(COLORS@), ", "@)
}

/// The message for a word that names no colour choice.
pub open spec fn parse_error_text(word: Seq<char>) -> Seq<char> {
    "unknown variant \""@ + word + "\", possible values: "@ + colors_text()
}

impl ParseColorError {
    /// Says which word was not understood, and which words are.
    pub fn message(&self) -> (text: String)
        ensures
            text@ == parse_error_text(self.0@),
    {
        let mut text = String::from_str("unknown variant \"");
        text.append(self.0.as_str());
        text.append("\", possible values: ");
        text.append(join_with(COLORS.as_slice(), ", ").as_str());
        text
    }
}

/// The choice that a word of the colour option names.
pub open spec fn parsed_color(input: Seq<char>) -> Option<Color> {
    if input == "auto"@ {
        Some(Color::Auto)
    } else if input == "always"@ {
        Some(Color::Always)
    } else if input == "never"@ {
        Some(Color::Never)
    } else {
        None
    }
}

impl Color {
    /// Reads a word of the colour option. Any word but the three choices
    /// is handed back in the error.
    pub fn parse(input: &str) -> (result: Result<Color, ParseColorError>)
        ensures
            match result {
                Ok(color) => parsed_color(input@) == Some(color),
                Err(error) => parsed_color(input@) is None && error.0@ == input@,
            },
    {
        if *input == *"auto" {
            Ok(Color::Auto)
        } else if *input == *"always" {
            Ok(Color::Always)
        } else if *input == *"never" {
            Ok(Color::Never)
        } else {
            Err(ParseColorError(String::from_str(input)))
        }
    }

    /// Whether the text output is painted, given whether it goes to a
    /// terminal.
    pub fn use_color(&self, is_terminal: bool) -> (painted: bool)
        ensures
            painted == match self {
                Color::Always => true,
                Color::Never => false,
                Color::Auto => is_terminal,
            },
    {
        match self {
            Color::Always => true,
            Color::Never => false,
            Color::Auto => is_terminal,
        }
    }
}

impl std::str::FromStr for Color {
    type Err = ParseColorError;

    fn from_str(input: &str) -> (result: Result<Color, ParseColorError>)
        ensures
            match result {
                Ok(color) => parsed_color(input@) == Some(color),
                Err(error) => parsed_color(input@) is None && error.0@ == input@,
            },
    {
        Color::parse(input)
    }
}

/// The help text.
pub open spec fn help_text() -> Seq<char> {
    "Simple command-line tool to get your external IP address.

Usage:
    myip [options]

Options:
    -l --lookup=[<path>]  Lookup MaxMind database [default path: "@
        + MMDB_PATH@ + "]
    -a --address <ip>     Look for specified IP
    -c --color <when>     When to colorize text output [possible values: "@
        + colors_text() + "]
    -6 --inet6            Use inet6 protocol family (IPv6)
    -j --json             Output in JSON

    -h --help             Prints help information
    -v --version          Prints version information"@
}

/// Writes the help text.
pub fn help_msg() -> (text: String)
    ensures
        text@ == help_text(),
{
    let mut text = String::from_str(
        "Simple command-line tool to get your external IP address.

Usage:
    myip [options]

Options:
    -l --lookup=[<path>]  Lookup MaxMind database [default path: ",
    );
    text.append(MMDB_PATH);
    text.append(
        "]
    -a --address <ip>     Look for specified IP
    -c --color <when>     When to colorize text output [possible values: ",
    );
    text.append(join_with(COLORS.as_slice(), ", ").as_str());
    text.append(
        "]
    -6 --inet6            Use inet6 protocol family (IPv6)
    -j --json             Output in JSON

    -h --help             Prints help information
    -v --version          Prints version information",
    );
    text
}

} // verus!
