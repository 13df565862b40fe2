//! The course of one run: discover the address unless one is given, ask
//! the databases if that is wanted, and say what is to be printed. Each
//! function takes what the world answered and decides the next step.

use crate::argparser::{Args, Color};
use crate::db_error::{error_message, error_type, DbError};
use crate::fields::FieldMap;
use crate::formatter::{map_data, merged, Formatter};
use crate::ip::{failure_message, failure_message_text, failure_type, failure_type_text, DiscoveryError};
use crate::json::{json_object_text, to_json};
use crate::output::Format;
use crate::records::{Asn, City};
use crate::resolver::IpAddrKind;
use vstd::prelude::*;
use vstd::string::*;

verus! {

/// What a run ends in: the text to print and the exit code.
#[derive(Clone, Debug, PartialEq, Eq)]
pub struct Report {
    pub text: String,
    pub exit_code: u8,
}

/// What is to be done next.
#[derive(Clone, Debug, PartialEq, Eq)]
pub enum Step {
    /// Discover the caller's address of this family.
    Discover(IpAddrKind),
    /// Ask the databases in `directory` for the address `ip`.
    Lookup { directory: String, ip: String },
    /// Print and leave.
    Finish(Report),
}

/// The exit code of a run that found its address.
pub const EXIT_DONE: u8 = 0;

/// The exit code of a run whose discovery failed.
pub const EXIT_DISCOVERY_FAILED: u8 = 1;

/// The exit code of a run whose address is known and whose database
/// lookup failed.
pub const EXIT_LOOKUP_FAILED: u8 = 0;

/// The family that the command line asks for.
pub open spec fn wanted_kind(inet6: bool) -> IpAddrKind {
    if inet6 {
        IpAddrKind::V6
    } else {
        IpAddrKind::V4
    }
}

/// The renderer that the command line asks for. Colours in automatic mode
/// depend on whether the output is a terminal.
pub open spec fn wanted_format(args: &Args, is_terminal: bool) -> Format {
    if args.json {
        Format::Json
    } else {
        Format::Text(
            match args.color {
                Color::Always => true,
                Color::Never => false,
                Color::Auto => is_terminal,
            },
        )
    }
}

/// Chooses the renderer once, for the whole run.
pub fn format_for(args: &Args, is_terminal: bool) -> (format: Format)
    ensures
        format == wanted_format(args, is_terminal),
{
    if args.json {
        Format::Json
    } else {
        Format::Text(args.color.use_color(is_terminal))
    }
}

/// The output for an address of which nothing else is asked: the address
/// itself, or a JSON document that holds it.
pub open spec fn address_text(format: &Format, ip: Seq<char>) -> Seq<char> {
    match format {
        Format::Text(_) => ip,
        Format::Json => json_object_text(Map::<Seq<char>, Seq<char>>::empty().insert("ip"@, ip)),
    }
}

/// Collects the members of the JSON document of an address alone.
pub fn address_data(ip: &str) -> (data: FieldMap)
    ensures
        data.wf(),
        data@ == Map::<Seq<char>, Seq<char>>::empty().insert("ip"@, ip@),
{
    let mut data = FieldMap::new();
    data.insert(String::from_str("ip"), String::from_str(ip));
    data
}

/// Writes the output for an address of which nothing else is asked.
pub fn address_only(format: &Format, ip: &str) -> (text: String)
    ensures
        text@ == address_text(format, ip@),
{
    match format {
        Format::Text(_) => String::from_str(ip),
        Format::Json => to_json(&address_data(ip)),
    }
}

/// The message of a failure: its category, a colon and what went wrong.
pub open spec fn failure_text(category: Seq<char>, message: Seq<char>) -> Seq<char> {
    category + ": "@ + message
}

/// The message of a failed discovery, with its category in front.
pub open spec fn discovery_failure_text(error: DiscoveryError) -> Seq<char> {
    failure_text(failure_type_text(&error), failure_message_text(error))
}

/// Writes the message of a failed discovery.
pub fn discovery_failure_message(error: DiscoveryError) -> (text: String)
    ensures
        text@ == discovery_failure_text(error),
{
    let mut text = failure_type(&error);
    text.append(": ");
    text.append(failure_message(error).as_str());
    text
}

/// The message of a failed database lookup, with its category in front.
pub open spec fn lookup_failure_text(error: DbError) -> Seq<char> {
    failure_text(error.category(), error.message())
}

/// Writes the message of a failed database lookup.
pub fn lookup_failure_message(error: DbError) -> (text: String)
    ensures
        text@ == lookup_failure_text(error),
{
    let mut text = String::from_str(error_type(&error));
    text.append(": ");
    text.append(error_message(error).as_str());
    text
}

/// Decides what follows a discovery that ended in the address `Ok(ip)`,
/// given as text, or in a failure. A failure ends the run, before any
/// database is asked, with its message rendered as the output would have
/// been. An address is printed alone where no lookup is wanted; else the
/// databases are asked next.
pub fn after_discovery(
    args: &Args,
    format: &Format,
    outcome: Result<String, DiscoveryError>,
) -> (step: Step)
    ensures
        match (outcome, args.lookup) {
            (Err(error), _) => step matches Step::Finish(report) && report.text@
                == format.error_rendering(discovery_failure_text(error), None)
                && report.exit_code == EXIT_DISCOVERY_FAILED,
            (Ok(ip), None) => step matches Step::Finish(report) && report.text@ == address_text(
                format,
                ip@,
            ) && report.exit_code == EXIT_DONE,
            (Ok(ip), Some(wanted)) => step matches Step::Lookup { directory, ip: address }
                && directory@ == wanted@ && address@ == ip@,
        },
{
    match outcome {
        Err(error) => Step::Finish(
            Report {
                text: format.format_error(discovery_failure_message(error), None),
                exit_code: EXIT_DISCOVERY_FAILED,
            },
        ),
        Ok(ip) => match &args.lookup {
            None => Step::Finish(
                Report { text: address_only(format, ip.as_str()), exit_code: EXIT_DONE },
            ),
            Some(directory) => Step::Lookup { directory: directory.clone(), ip },
        },
    }
}

/// Decides the first step: with an address on the command line the
/// discovery is skipped.
pub fn start(args: &Args, format: &Format) -> (step: Step)
    ensures
        match (args.address, args.lookup) {
            (None, _) => step == Step::Discover(wanted_kind(args.inet6)),
            (Some(ip), None) => step matches Step::Finish(report) && report.text@ == address_text(
                format,
                ip@,
            ) && report.exit_code == EXIT_DONE,
            (Some(ip), Some(wanted)) => step matches Step::Lookup { directory, ip: address }
                && directory@ == wanted@ && address@ == ip@,
        },
{
    match &args.address {
        None => {
            if args.inet6 {
                Step::Discover(IpAddrKind::V6)
            } else {
                Step::Discover(IpAddrKind::V4)
            }
        },
        Some(ip) => after_discovery(args, format, Ok(ip.clone())),
    }
}

/// The failure of a lookup in the two databases, if there is one: that of
/// the city database goes first.
pub open spec fn first_failure(city: Result<City, DbError>, asn: Result<Asn, DbError>) -> Option<
    DbError,
> {
    match city {
        Err(error) => Some(error),
        Ok(_) => match asn {
            Err(error) => Some(error),
            Ok(_) => None,
        },
    }
}

/// Decides what is printed once the databases have answered for `ip`:
/// the rendered record where both answered, else the failure of the first
/// that failed, rendered in the same way and with the address beside it.
/// Nothing of the record is rendered where either database failed.
pub fn after_lookup(
    format: &Format,
    ip: &str,
    city: Result<City, DbError>,
    asn: Result<Asn, DbError>,
) -> (report: Report)
    ensures
        match first_failure(city, asn) {
            None => report.text@ == format.rendering(ip@, merged(city->Ok_0, asn->Ok_0))
                && report.exit_code == EXIT_DONE,
            Some(error) => report.text@ == format.error_rendering(
                lookup_failure_text(error),
                Some(ip@),
            ) && report.exit_code == EXIT_LOOKUP_FAILED,
        },
{
    match city {
        Err(error) => failed_lookup(format, ip, error),
        Ok(city_record) => match asn {
            Err(error) => failed_lookup(format, ip, error),
            Ok(asn_record) => Report {
                text: format.output(ip, &city_record, &asn_record),
                exit_code: EXIT_DONE,
            },
        },
    }
}

fn failed_lookup(format: &Format, ip: &str, error: DbError) -> (report: Report)
    ensures
        report.text@ == format.error_rendering(lookup_failure_text(error), Some(ip@)),
        report.exit_code == EXIT_LOOKUP_FAILED,
{
    let message = lookup_failure_message(error);
    Report {
        text: format.format_error(message, Some(String::from_str(ip))),
        exit_code: EXIT_LOOKUP_FAILED,
    }
}

/// Asks nothing itself: renders the records that the two databases gave
/// for `ip` with the given formatter, or passes on the failure of the
/// first database that failed.
pub fn lookup_mmdb<F: Formatter>(
    ip: &str,
    city: Result<City, DbError>,
    asn: Result<Asn, DbError>,
    formatter: F,
) -> (result: Result<String, DbError>)
    ensures
        match first_failure(city, asn) {
            None => result matches Ok(text) && text@ == formatter.rendering(
                ip@,
                merged(city->Ok_0, asn->Ok_0),
            ),
            Some(error) => result == Err::<String, DbError>(error),
        },
{
    match city {
        Err(error) => Err(error),
        Ok(city_record) => match asn {
            Err(error) => Err(error),
            Ok(asn_record) => {
                let data = map_data(city_record, asn_record);
                Ok(formatter.format(ip, data))
            },
        },
    }
}

} // verus!
