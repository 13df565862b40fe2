//! Rendering by way of a map of named fields: the lines of the text output
//! are taken out of the map one by one, the JSON document is the map itself.

use crate::fields::FieldMap;
use crate::formatter::{
    flag_text, format_name_and_code, get_flag, has_flag, label_width, lemma_label_lengths,
    merged, optional_line, optional_pair_line, pair_of, put_pair, put_text, text_line,
    text_lines, text_output, with_flag, with_pair, with_text, GeoIpView,
};
use crate::json::{json_object_text, to_json};
use crate::paint::{paint_colon, paint_label, paint_value};
use crate::records::{
    first_place, location_time_zone, place_name, place_pair, text_of, Asn, City, Location, Place,
};
use crate::text::{join, join_lines, push_spaces, views};
use vstd::prelude::*;
use vstd::string::*;
use vstd::utf8::*;

verus! {

/// The fields that the databases give, under their names.
pub open spec fn data_fields(data: GeoIpView) -> Map<Seq<char>, Seq<char>> {
    let fields = Map::<Seq<char>, Seq<char>>::empty();
    let fields = with_text(fields, "city"@, data.city);
    let fields = with_pair(fields, "country"@, "country_code"@, data.country);
    let fields = with_pair(fields, "region"@, "region_code"@, data.region);
    let fields = with_pair(fields, "registered"@, "registered_code"@, data.registered);
    let fields = with_text(fields, "time_zone"@, data.time_zone);
    with_text(fields, "isp"@, data.isp)
}

/// The members of the JSON document: the fields of the databases, the
/// address, and the flag where the country has one.
pub open spec fn output_fields(ip: Seq<char>, data: GeoIpView) -> Map<Seq<char>, Seq<char>> {
    with_flag(data_fields(data).insert("ip"@, ip), "flag"@, data.country)
}

/// The names of the fields differ from each other.
pub proof fn lemma_field_names_differ()
    ensures
        "ip"@.len() == 2,
        "isp"@.len() == 3,
        "city"@.len() == 4,
        "flag"@.len() == 4,
        "city"@[0] == 'c',
        "flag"@[0] == 'f',
        "error"@.len() == 5,
        "region"@.len() == 6,
        "country"@.len() == 7,
        "time_zone"@.len() == 9,
        "registered"@.len() == 10,
        "region_code"@.len() == 11,
        "country_code"@.len() == 12,
        "registered_code"@.len() == 15,
{
    reveal_strlit("ip");
    reveal_strlit("isp");
    reveal_strlit("city");
    reveal_strlit("flag");
    reveal_strlit("error");
    reveal_strlit("region");
    reveal_strlit("country");
    reveal_strlit("time_zone");
    reveal_strlit("registered");
    reveal_strlit("region_code");
    reveal_strlit("country_code");
    reveal_strlit("registered_code");
}

fn cloned_text(value: &Option<String>) -> (copy: Option<String>)
    ensures
        copy == *value,
{
    match value {
        Some(text) => Some(text.clone()),
        None => None,
    }
}

fn cloned_pair(place: &Option<Place>) -> (pair: Option<(String, String)>)
    ensures
        pair_of(pair) == place_pair(*place),
{
    match place {
        Some(Place { name: Some(name), iso_code: Some(code) }) => Some(
            (name.clone(), code.clone()),
        ),
        _ => None,
    }
}

fn cloned_name(place: &Option<Place>) -> (name: Option<String>)
    ensures
        text_of(name) == place_name(*place),
{
    match place {
        Some(Place { name: Some(name), .. }) => Some(name.clone()),
        _ => None,
    }
}

fn cloned_region(places: &Option<Vec<Place>>) -> (pair: Option<(String, String)>)
    ensures
        pair_of(pair) == place_pair(
            first_place(*places),
        ),
{
    match places {
        Some(list) => {
            if list.len() > 0 {
                match &list[0] {
                    Place { name: Some(name), iso_code: Some(code) } => Some(
                        (name.clone(), code.clone()),
                    ),
                    _ => None,
                }
            } else {
                None
            }
        },
        None => None,
    }
}

fn cloned_time_zone(location: &Option<Location>) -> (zone: Option<String>)
    ensures
        text_of(zone) == location_time_zone(*location),
{
    match location {
        Some(Location { time_zone: Some(zone) }) => Some(zone.clone()),
        _ => None,
    }
}

/// Collects the fields of the two database records under their names.
pub fn get_data(city: &City, asn: &Asn) -> (data: FieldMap)
    ensures
        data.wf(),
        data@ == data_fields(merged(*city, *asn)),
{
    let mut data = FieldMap::new();
    put_text(&mut data, "city", cloned_name(&city.city));
    put_pair(&mut data, "country", "country_code", cloned_pair(&city.country));
    put_pair(&mut data, "region", "region_code", cloned_region(&city.subdivisions));
    put_pair(&mut data, "registered", "registered_code", cloned_pair(&city.registered_country));
    put_text(&mut data, "time_zone", cloned_time_zone(&city.location));
    put_text(&mut data, "isp", cloned_text(&asn.autonomous_system_organization));
    data
}

/// The value of the field `name`, if the map has it.
pub open spec fn field(fields: Map<Seq<char>, Seq<char>>, name: Seq<char>) -> Option<Seq<char>> {
    if fields.contains_key(name) {
        Some(fields[name])
    } else {
        None
    }
}

/// The values of the fields `name` and `code_name`, if the map has the
/// first of them.
pub open spec fn field_pair(
    fields: Map<Seq<char>, Seq<char>>,
    name: Seq<char>,
    code_name: Seq<char>,
) -> Option<(Seq<char>, Seq<char>)> {
    if fields.contains_key(name) {
        Some((fields[name], fields[code_name]))
    } else {
        None
    }
}

/// The text output while it is being put together, line by line.
pub struct TextOutput {
    lines: Vec<String>,
    use_color: bool,
}

impl TextOutput {
    /// The lines added so far.
    pub closed spec fn lines(&self) -> Seq<Seq<char>> {
        views(self.lines@)
    }

    /// Whether the lines are painted.
    pub closed spec fn use_color(&self) -> bool {
        self.use_color
    }

    /// An output without lines.
    pub fn new(use_color: bool) -> (output: TextOutput)
        ensures
            output.lines() == Seq::<Seq<char>>::empty(),
            output.use_color() == use_color,
    {
        let output = TextOutput { lines: Vec::new(), use_color };
        assert(output.lines() =~= Seq::<Seq<char>>::empty());
        output
    }

    /// Adds the line of the label `name` and `value`.
    pub fn add(self, name: &str, value: String) -> (output: TextOutput)
        requires
            encode_utf8(name@).len() <= label_width(),
        ensures
            output.lines() == self.lines().push(text_line(self.use_color(), name@, value@)),
            output.use_color() == self.use_color(),
    {
        let indent: usize = 10 - name.len();
        let mut line = String::new();
        push_spaces(&mut line, indent);
        if self.use_color {
            line.append(paint_label(name).as_str());
            line.append(paint_colon().as_str());
            line.append(" ");
            line.append(paint_value(value.as_str()).as_str());
        } else {
            line.append(name);
            line.append(": ");
            line.append(value.as_str());
        }
        assert(line@ =~= text_line(self.use_color, name@, value@));
        let TextOutput { lines, use_color } = self;
        let mut lines = lines;
        lines.push(line);
        let output = TextOutput { lines, use_color };
        assert(output.lines() =~= self.lines().push(text_line(self.use_color(), name@, value@)));
        output
    }

    /// Takes the field `key` out of `data` and adds its line under the
    /// label `name`; adds nothing where `data` has no such field.
    pub fn add_some(self, data: &mut FieldMap, name: &str, key: &str) -> (output: TextOutput)
        requires
            old(data).wf(),
            encode_utf8(name@).len() <= label_width(),
        ensures
            final(data).wf(),
            final(data)@ == old(data)@.remove(key@),
            output.lines() == self.lines() + optional_line(
                self.use_color(),
                name@,
                field(old(data)@, key@),
            ),
            output.use_color() == self.use_color(),
    {
        match data.remove(key) {
            Some(value) => {
                let output = self.add(name, value);
                assert(output.lines() =~= self.lines() + optional_line(
                    self.use_color(),
                    name@,
                    field(old(data)@, key@),
                ));
                output
            },
            None => {
                assert(self.lines() =~= self.lines() + optional_line(
                    self.use_color(),
                    name@,
                    field(old(data)@, key@),
                ));
                self
            },
        }
    }

    /// Takes the fields `key1` and `key2` out of `data` and adds one line
    /// for both under the label `name`; adds nothing, and leaves `data` as
    /// it is, where `data` has no field `key1`.
    pub fn add_pair(self, data: &mut FieldMap, name: &str, key1: &str, key2: &str) -> (output:
        TextOutput)
        requires
            old(data).wf(),
            encode_utf8(name@).len() <= label_width(),
            old(data)@.contains_key(key1@) ==> key1@ != key2@ && old(data)@.contains_key(key2@),
        ensures
            final(data).wf(),
            final(data)@ == if old(data)@.contains_key(key1@) {
                old(data)@.remove(key1@).remove(key2@)
            } else {
                old(data)@
            },
            output.lines() == self.lines() + optional_pair_line(
                self.use_color(),
                name@,
                field_pair(old(data)@, key1@, key2@),
            ),
            output.use_color() == self.use_color(),
    {
        match data.remove(key1) {
            Some(value1) => {
                let value2 = data.remove(key2).unwrap();
                let value = format_name_and_code(value1.as_str(), value2.as_str());
                let output = self.add(name, value);
                assert(output.lines() =~= self.lines() + optional_pair_line(
                    self.use_color(),
                    name@,
                    field_pair(old(data)@, key1@, key2@),
                ));
                output
            },
            None => {
                assert(old(data)@.remove(key1@) =~= old(data)@);
                assert(self.lines() =~= self.lines() + optional_pair_line(
                    self.use_color(),
                    name@,
                    field_pair(old(data)@, key1@, key2@),
                ));
                self
            },
        }
    }

    /// The lines, joined by line feeds.
    pub fn to_string(self) -> (text: String)
        ensures
            text@ == join_lines(self.lines()),
    {
        join(&self.lines)
    }
}

/// Collects the members of the JSON document of an address: the fields of
/// the two database records, the address, and the flag of the country
/// where its code is long enough for one.
pub fn json_data(ip: &str, city: &City, asn: &Asn) -> (data: FieldMap)
    ensures
        data.wf(),
        data@ == output_fields(ip@, merged(*city, *asn)),
{
    let mut data = get_data(city, asn);
    data.insert(String::from_str("ip"), String::from_str(ip));
    let flag = match data.get("country_code") {
        Some(code) => if code.as_str().as_bytes().len() >= 2 {
            Some(get_flag(code.as_str()))
        } else {
            None
        },
        None => None,
    };
    put_text(&mut data, "flag", flag);
    proof {
        lemma_field_names_differ();
        assert(data@ =~= output_fields(ip@, merged(*city, *asn)));
    }
    data
}

/// Collects the members of the JSON document of a failure.
pub fn error_data(msg: String, ip: Option<String>) -> (data: FieldMap)
    ensures
        data.wf(),
        data@ == error_fields(msg@, text_of(ip)),
{
    let mut data = FieldMap::new();
    data.insert(String::from_str("error"), msg);
    put_text(&mut data, "ip", ip);
    data
}

/// The two ways to render: as text, with or without colours, or as JSON.
#[derive(Clone, Debug, PartialEq, Eq)]
pub enum Format {
    Text(bool),
    Json,
}

/// The members of the JSON document of a failure: the message, and the
/// address where it is known.
pub open spec fn error_fields(msg: Seq<char>, ip: Option<Seq<char>>) -> Map<Seq<char>, Seq<char>> {
    with_text(Map::<Seq<char>, Seq<char>>::empty().insert("error"@, msg), "ip"@, ip)
}

/// The text of a failure: the address, where it is known, on a line of its
/// own before the message.
pub open spec fn error_text(msg: Seq<char>, ip: Option<Seq<char>>) -> Seq<char> {
    match ip {
        Some(address) => address + seq!['\n'] + msg,
        None => msg,
    }
}

impl Format {
    /// What `output` gives for an address and its merged record.
    pub open spec fn rendering(&self, ip: Seq<char>, data: GeoIpView) -> Seq<char> {
        match self {
            Format::Text(use_colors) => text_output(*use_colors, ip, data),
            Format::Json => json_object_text(output_fields(ip, data)),
        }
    }

    /// What `format_error` gives for a message and an address.
    pub open spec fn error_rendering(&self, msg: Seq<char>, ip: Option<Seq<char>>) -> Seq<char> {
        match self {
            Format::Text(_) => error_text(msg, ip),
            Format::Json => json_object_text(error_fields(msg, ip)),
        }
    }

    /// Renders the address `ip` and the records that the two databases hold
    /// for it.
    pub fn output(&self, ip: &str, city: &City, asn: &Asn) -> (text: String)
        ensures
            text@ == self.rendering(ip@, merged(*city, *asn)),
    {
        match self {
            Format::Text(use_colors) => {
                let mut data = get_data(city, asn);
                data.insert(String::from_str("ip"), String::from_str(ip));
                let ghost record = merged(*city, *asn);
                let ghost all = data@;
                proof {
                    lemma_field_names_differ();
                    lemma_label_lengths();
                    assert(field(all, "ip"@) == Some(ip@));
                    assert(field(all, "city"@) == record.city);
                    assert(field_pair(all, "country"@, "country_code"@) == record.country);
                    assert(field_pair(all, "region"@, "region_code"@) == record.region);
                    assert(field_pair(all, "registered"@, "registered_code"@)
                        == record.registered);
                    assert(field(all, "isp"@) == record.isp);
                    assert(field(all, "time_zone"@) == record.time_zone);
                }
                let output = TextOutput::new(*use_colors);
                let output = output.add_some(&mut data, "IP", "ip");
                let output = output.add_some(&mut data, "City", "city");
                let output = output.add_pair(&mut data, "Country", "country", "country_code");
                let output = output.add_pair(&mut data, "Region", "region", "region_code");
                let output = output.add_pair(
                    &mut data,
                    "Registered",
                    "registered",
                    "registered_code",
                );
                let output = output.add_some(&mut data, "ISP", "isp");
                let output = output.add_some(&mut data, "Time zone", "time_zone");
                assert(output.lines() =~= text_lines(*use_colors, ip@, record));
                output.to_string()
            },
            Format::Json => to_json(&json_data(ip, city, asn)),
        }
    }

    /// Renders a failure with the message `msg`, and the address `ip` where
    /// it is known.
    pub fn format_error(&self, msg: String, ip: Option<String>) -> (text: String)
        ensures
            text@ == self.error_rendering(msg@, text_of(ip)),
    {
        match self {
            Format::Text(_) => {
                if let Some(ip) = ip {
                    let mut error = ip;
                    error.push('\n');
                    error.append(msg.as_str());
                    assert(error@ =~= error_text(msg@, Some(ip@)));
                    error
                } else {
                    msg
                }
            },
            Format::Json => to_json(&error_data(msg, ip)),
        }
    }
}

/// The record that a map of fields stands for.
pub open spec fn record_of_fields(fields: Map<Seq<char>, Seq<char>>) -> GeoIpView {
    GeoIpView {
        city: field(fields, "city"@),
        country: recovered_pair(fields, "country"@, "country_code"@),
        region: recovered_pair(fields, "region"@, "region_code"@),
        registered: recovered_pair(fields, "registered"@, "registered_code"@),
        isp: field(fields, "isp"@),
        time_zone: field(fields, "time_zone"@),
    }
}

/// A name and its code, if the map has both fields.
pub open spec fn recovered_pair(
    fields: Map<Seq<char>, Seq<char>>,
    name: Seq<char>,
    code_name: Seq<char>,
) -> Option<(Seq<char>, Seq<char>)> {
    if fields.contains_key(name) && fields.contains_key(code_name) {
        Some((fields[name], fields[code_name]))
    } else {
        None
    }
}

/// In the fields of any record, a code is present if and only if the name
/// that it belongs to is present.
pub proof fn law_code_fields_come_with_names(ip: Seq<char>, data: GeoIpView)
    ensures
        output_fields(ip, data).contains_key("country"@) <==> output_fields(
            ip,
            data,
        ).contains_key("country_code"@),
        output_fields(ip, data).contains_key("region"@) <==> output_fields(ip, data).contains_key(
            "region_code"@,
        ),
        output_fields(ip, data).contains_key("registered"@) <==> output_fields(
            ip,
            data,
        ).contains_key("registered_code"@),
        data_fields(data).contains_key("country"@) <==> data_fields(data).contains_key(
            "country_code"@,
        ),
        data_fields(data).contains_key("region"@) <==> data_fields(data).contains_key(
            "region_code"@,
        ),
        data_fields(data).contains_key("registered"@) <==> data_fields(data).contains_key(
            "registered_code"@,
        ),
        data_fields(data).contains_key("country"@) <==> data.country is Some,
        data_fields(data).contains_key("region"@) <==> data.region is Some,
        data_fields(data).contains_key("registered"@) <==> data.registered is Some,
{
    lemma_field_names_differ();
}

/// The fields of the JSON document of a record give the address and every
/// field of the record back, each name with its code; the flag is there
/// exactly where the country's code is long enough for one.
pub proof fn law_fields_keep_record(ip: Seq<char>, data: GeoIpView)
    ensures
        field(output_fields(ip, data), "ip"@) == Some(ip),
        record_of_fields(output_fields(ip, data)) == data,
        record_of_fields(data_fields(data)) == data,
        field(output_fields(ip, data), "flag"@) == (match data.country {
            Some(pair) => if has_flag(pair.1) {
                Some(flag_text(pair.1))
            } else {
                None
            },
            None => None,
        }),
{
    lemma_field_names_differ();
}

/// The JSON document of a failure has the message under `error`, and the
/// address under `ip` exactly where the address is known.
pub proof fn law_error_document(msg: Seq<char>, ip: Option<Seq<char>>)
    ensures
        field(error_fields(msg, ip), "error"@) == Some(msg),
        field(error_fields(msg, ip), "ip"@) == ip,
{
    lemma_field_names_differ();
}

} // verus!
