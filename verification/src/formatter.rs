//! The merged record of an address and its two renderings: aligned text
//! and a JSON document.

use crate::fields::FieldMap;
use crate::json::{json_object_text, to_json};
use crate::paint::{
    paint_colon, paint_label, paint_value, painted_colon, painted_label, painted_value,
};
use crate::records::{
    first_place, location_time_zone, place_name, place_pair, text_of, Asn, City, Location, Place,
};
use crate::text::{join, join_lines, push_spaces, spaces, views};
use vstd::prelude::*;
use vstd::string::*;
use vstd::utf8::*;

verus! {

/// `char::from_u32` gives the character with the code `i`, and nothing
/// where `i` is a surrogate or lies above the last code point.
pub assume_specification[ char::from_u32 ](i: u32) -> (c: Option<char>)
    ensures
        c == (if i <= 0xD7FF || 0xE000 <= i <= 0x10FFFF {
            Some(i as char)
        } else {
            None::<char>
        }),
;

/// What the databases say of an address. A name and its code are present
/// together or not at all.
#[derive(Clone, Debug, PartialEq, Eq)]
pub struct GeoIpData {
    pub city: Option<String>,
    pub country: Option<(String, String)>,
    pub region: Option<(String, String)>,
    pub registered: Option<(String, String)>,
    pub isp: Option<String>,
    pub time_zone: Option<String>,
}

/// The merged record as plain text values.
pub struct GeoIpView {
    pub city: Option<Seq<char>>,
    pub country: Option<(Seq<char>, Seq<char>)>,
    pub region: Option<(Seq<char>, Seq<char>)>,
    pub registered: Option<(Seq<char>, Seq<char>)>,
    pub isp: Option<Seq<char>>,
    pub time_zone: Option<Seq<char>>,
}

/// The characters of a name and its code.
pub open spec fn pair_of(value: Option<(String, String)>) -> Option<(Seq<char>, Seq<char>)> {
    match value {
        Some((name, code)) => Some((name@, code@)),
        None => None,
    }
}

impl View for GeoIpData {
    type V = GeoIpView;

    open spec fn view(&self) -> GeoIpView {
        GeoIpView {
            city: text_of(self.city),
            country: pair_of(self.country),
            region: pair_of(self.region),
            registered: pair_of(self.registered),
            isp: text_of(self.isp),
            time_zone: text_of(self.time_zone),
        }
    }
}

impl GeoIpData {
    /// A record without any field.
    pub fn new() -> (data: GeoIpData)
        ensures
            data@ == (GeoIpView {
                city: None,
                country: None,
                region: None,
                registered: None,
                isp: None,
                time_zone: None,
            }),
    {
        GeoIpData {
            city: None,
            country: None,
            region: None,
            registered: None,
            isp: None,
            time_zone: None,
        }
    }
}

/// The record that the two database records merge into. The region is the
/// first subdivision; a place without a name or without a code gives no
/// pair.
pub open spec fn merged(city: City, asn: Asn) -> GeoIpView {
    GeoIpView {
        city: place_name(city.city),
        country: place_pair(city.country),
        region: place_pair(first_place(city.subdivisions)),
        registered: place_pair(city.registered_country),
        isp: text_of(asn.autonomous_system_organization),
        time_zone: location_time_zone(city.location),
    }
}

fn name_of(place: Option<Place>) -> (name: Option<String>)
    ensures
        text_of(name) == place_name(place),
{
    match place {
        Some(Place { name: Some(name), .. }) => Some(name),
        _ => None,
    }
}

fn pair_from(place: Option<Place>) -> (pair: Option<(String, String)>)
    ensures
        pair_of(pair) == place_pair(place),
{
    match place {
        Some(Place { name: Some(name), iso_code: Some(code) }) => Some((name, code)),
        _ => None,
    }
}

fn first_of(places: Option<Vec<Place>>) -> (first: Option<Place>)
    ensures
        first == first_place(places),
{
    match places {
        Some(mut list) => {
            if list.len() > 0 {
                Some(list.swap_remove(0))
            } else {
                None
            }
        },
        None => None,
    }
}

fn time_zone_of(location: Option<Location>) -> (zone: Option<String>)
    ensures
        text_of(zone) == location_time_zone(location),
{
    match location {
        Some(Location { time_zone: Some(zone) }) => Some(zone),
        _ => None,
    }
}

/// Merges the records of the two databases into one flat record.
pub fn map_data(city: City, asn: Asn) -> (data: GeoIpData)
    ensures
        data@ == merged(city, asn),
{
    let City { city: place, country, subdivisions, registered_country, location } = city;
    GeoIpData {
        city: name_of(place),
        country: pair_from(country),
        region: pair_from(first_of(subdivisions)),
        registered: pair_from(registered_country),
        isp: asn.autonomous_system_organization,
        time_zone: time_zone_of(location),
    }
}

/// What is added to a byte of a country code to reach its regional
/// indicator symbol.
pub open spec fn flag_offset() -> int {
    0x1F1A5
}

/// The symbol that a byte of a country code stands for.
pub open spec fn regional_indicator(byte: u8) -> char {
    (byte + flag_offset()) as char
}

/// The flag of a country code: the symbols of its first two bytes.
pub open spec fn flag_text(iso_code: Seq<char>) -> Seq<char> {
    seq![
        regional_indicator(encode_utf8(iso_code)[0]),
        regional_indicator(encode_utf8(iso_code)[1]),
    ]
}

/// Whether a country code is long enough to have a flag.
pub open spec fn has_flag(iso_code: Seq<char>) -> bool {
    encode_utf8(iso_code).len() >= 2
}

fn indicator(byte: u8) -> (symbol: char)
    ensures
        symbol == regional_indicator(byte),
{
    let code: u32 = byte as u32 + 0x1F1A5;
    char::from_u32(code).unwrap()
}

/// The flag of the country with the code `iso_code`.
pub fn get_flag(iso_code: &str) -> (flag: String)
    requires
        has_flag(iso_code@),
    ensures
        flag@ == flag_text(iso_code@),
{
    let bytes = iso_code.as_bytes();
    let mut flag = String::new();
    flag.push(indicator(bytes[0]));
    flag.push(indicator(bytes[1]));
    assert(flag@ =~= flag_text(iso_code@));
    flag
}

/// The width of the column that the labels end in.
pub open spec fn label_width() -> int {
    10
}

/// One line of the text output: the label, moved right so that it ends
/// in the label column, a colon, a space and the value. With colours the
/// label, the colon and the value are painted each on its own.
pub open spec fn text_line(color: bool, name: Seq<char>, value: Seq<char>) -> Seq<char> {
    let indent = spaces((label_width() - encode_utf8(name).len()) as nat);
    if color {
        indent + painted_label(name) + painted_colon() + " "@ + painted_value(value)
    } else {
        indent + name + ": "@ + value
    }
}

/// A name with its code in round brackets behind it.
pub open spec fn pair_text(pair: (Seq<char>, Seq<char>)) -> Seq<char> {
    pair.0 + " ("@ + pair.1 + ")"@
}

/// The line of a field, or no line where the field is absent.
pub open spec fn optional_line(color: bool, name: Seq<char>, value: Option<Seq<char>>) -> Seq<
    Seq<char>,
> {
    match value {
        Some(v) => seq![text_line(color, name, v)],
        None => Seq::empty(),
    }
}

/// The line of a name and its code, or no line where they are absent.
pub open spec fn optional_pair_line(
    color: bool,
    name: Seq<char>,
    value: Option<(Seq<char>, Seq<char>)>,
) -> Seq<Seq<char>> {
    match value {
        Some(pair) => seq![text_line(color, name, pair_text(pair))],
        None => Seq::empty(),
    }
}

/// The lines of the text output, in their fixed order: the address, then
/// each field that is present.
pub open spec fn text_lines(color: bool, ip: Seq<char>, data: GeoIpView) -> Seq<Seq<char>> {
    seq![text_line(color, "IP"@, ip)] + optional_line(color, "City"@, data.city)
        + optional_pair_line(color, "Country"@, data.country) + optional_pair_line(
        color,
        "Region"@,
        data.region,
    ) + optional_pair_line(color, "Registered"@, data.registered) + optional_line(
        color,
        "ISP"@,
        data.isp,
    ) + optional_line(color, "Time zone"@, data.time_zone)
}

/// The text output of a record.
pub open spec fn text_output(color: bool, ip: Seq<char>, data: GeoIpView) -> Seq<char> {
    join_lines(text_lines(color, ip, data))
}

/// The labels of the text output fit into the label column.
pub proof fn lemma_label_lengths()
    ensures
        encode_utf8("IP"@).len() == 2,
        encode_utf8("City"@).len() == 4,
        encode_utf8("Country"@).len() == 7,
        encode_utf8("Region"@).len() == 6,
        encode_utf8("Registered"@).len() == 10,
        encode_utf8("ISP"@).len() == 3,
        encode_utf8("Time zone"@).len() == 9,
{
    reveal_strlit("IP");
    reveal_strlit("City");
    reveal_strlit("Country");
    reveal_strlit("Region");
    reveal_strlit("Registered");
    reveal_strlit("ISP");
    reveal_strlit("Time zone");
    is_ascii_chars_encode_utf8("IP"@);
    is_ascii_chars_encode_utf8("City"@);
    is_ascii_chars_encode_utf8("Country"@);
    is_ascii_chars_encode_utf8("Region"@);
    is_ascii_chars_encode_utf8("Registered"@);
    is_ascii_chars_encode_utf8("ISP"@);
    is_ascii_chars_encode_utf8("Time zone"@);
}

/// Writes a name and its code as one value.
pub(crate) fn format_name_and_code(name: &str, code: &str) -> (text: String)
    ensures
        text@ == pair_text((name@, code@)),
{
    let mut text = String::from_str(name);
    text.append(" (");
    text.append(code);
    text.append(")");
    text
}

/// Renders a record as aligned text; the field says whether with colours.
#[derive(Clone, Debug, PartialEq, Eq)]
pub struct TextFormatter(pub bool);

impl TextFormatter {
    /// Writes one line: `name`, a colon and `value`.
    pub fn format_pair(&self, name: &str, value: &str) -> (line: String)
        requires
            encode_utf8(name@).len() <= label_width(),
        ensures
            line@ == text_line(self.0, name@, value@),
    {
        let indent: usize = 10 - name.len();
        let mut line = String::new();
        push_spaces(&mut line, indent);
        if self.0 {
            line.append(paint_label(name).as_str());
            line.append(paint_colon().as_str());
            line.append(" ");
            line.append(paint_value(value).as_str());
        } else {
            line.append(name);
            line.append(": ");
            line.append(value);
        }
        assert(line@ =~= text_line(self.0, name@, value@));
        line
    }

    fn push_line(&self, lines: &mut Vec<String>, name: &str, value: Option<String>)
        requires
            encode_utf8(name@).len() <= label_width(),
        ensures
            views(final(lines)@) == views(old(lines)@) + optional_line(
                self.0,
                name@,
                text_of(value),
            ),
    {
        if let Some(v) = value {
            let line = self.format_pair(name, v.as_str());
            lines.push(line);
        }
        assert(views(lines@) =~= views(old(lines)@) + optional_line(
            self.0,
            name@,
            text_of(value),
        ));
    }

    fn push_pair_line(&self, lines: &mut Vec<String>, name: &str, value: Option<(String, String)>)
        requires
            encode_utf8(name@).len() <= label_width(),
        ensures
            views(final(lines)@) == views(old(lines)@) + optional_pair_line(
                self.0,
                name@,
                pair_of(value),
            ),
    {
        if let Some((first, second)) = value {
            let text = format_name_and_code(first.as_str(), second.as_str());
            let line = self.format_pair(name, text.as_str());
            lines.push(line);
        }
        assert(views(lines@) =~= views(old(lines)@) + optional_pair_line(
            self.0,
            name@,
            pair_of(value),
        ));
    }
}

/// A way to render a record.
pub trait Formatter {
    /// The text that `format` gives for an address and its record.
    spec fn rendering(&self, ip: Seq<char>, data: GeoIpView) -> Seq<char>;

    /// Renders the address `ip` and what is known of it.
    fn format(&self, ip: &str, data: GeoIpData) -> (text: String)
        ensures
            text@ == self.rendering(ip@, data@),
    ;
}

impl Formatter for TextFormatter {
    open spec fn rendering(&self, ip: Seq<char>, data: GeoIpView) -> Seq<char> {
        text_output(self.0, ip, data)
    }

    fn format(&self, ip: &str, data: GeoIpData) -> (text: String) {
        proof {
            lemma_label_lengths();
        }
        let mut lines: Vec<String> = Vec::new();
        lines.push(self.format_pair("IP", ip));
        assert(views(lines@) =~= seq![text_line(self.0, "IP"@, ip@)]);
        self.push_line(&mut lines, "City", data.city);
        self.push_pair_line(&mut lines, "Country", data.country);
        self.push_pair_line(&mut lines, "Region", data.region);
        self.push_pair_line(&mut lines, "Registered", data.registered);
        self.push_line(&mut lines, "ISP", data.isp);
        self.push_line(&mut lines, "Time zone", data.time_zone);
        join(&lines)
    }
}

/// A map with one more field where the value is present.
pub open spec fn with_text(
    fields: Map<Seq<char>, Seq<char>>,
    name: Seq<char>,
    value: Option<Seq<char>>,
) -> Map<Seq<char>, Seq<char>> {
    match value {
        Some(v) => fields.insert(name, v),
        None => fields,
    }
}

/// A map with two more fields, a name and its code, where they are present.
pub open spec fn with_pair(
    fields: Map<Seq<char>, Seq<char>>,
    name: Seq<char>,
    code_name: Seq<char>,
    value: Option<(Seq<char>, Seq<char>)>,
) -> Map<Seq<char>, Seq<char>> {
    match value {
        Some(pair) => fields.insert(name, pair.0).insert(code_name, pair.1),
        None => fields,
    }
}

/// A map with the flag of a country where the country is present and its
/// code is long enough for a flag.
pub open spec fn with_flag(
    fields: Map<Seq<char>, Seq<char>>,
    name: Seq<char>,
    country: Option<(Seq<char>, Seq<char>)>,
) -> Map<Seq<char>, Seq<char>> {
    match country {
        Some(pair) => if has_flag(pair.1) {
            fields.insert(name, flag_text(pair.1))
        } else {
            fields
        },
        None => fields,
    }
}

/// The members of the JSON document of a record.
pub open spec fn json_fields(ip: Seq<char>, data: GeoIpView) -> Map<Seq<char>, Seq<char>> {
    let fields = Map::<Seq<char>, Seq<char>>::empty().insert("IP"@, ip);
    let fields = with_text(fields, "City"@, data.city);
    let fields = with_pair(fields, "Country"@, "CountryCode"@, data.country);
    let fields = with_flag(fields, "Flag"@, data.country);
    let fields = with_pair(fields, "Region"@, "RegionCode"@, data.region);
    let fields = with_pair(fields, "Registered"@, "RegisteredCode"@, data.registered);
    let fields = with_text(fields, "ISP"@, data.isp);
    with_text(fields, "TimeZone"@, data.time_zone)
}

/// Sets the field `name` where `value` is present.
pub(crate) fn put_text(fields: &mut FieldMap, name: &str, value: Option<String>)
    requires
        old(fields).wf(),
    ensures
        final(fields).wf(),
        final(fields)@ == with_text(old(fields)@, name@, text_of(value)),
{
    if let Some(v) = value {
        fields.insert(String::from_str(name), v);
    }
}

/// Sets the flag where the country is present and its code long enough,
/// then the country's name and code.
pub(crate) fn put_country(
    fields: &mut FieldMap,
    name: &str,
    code_name: &str,
    flag_name: &str,
    value: Option<(String, String)>,
)
    requires
        old(fields).wf(),
    ensures
        final(fields).wf(),
        final(fields)@ == with_flag(
            with_pair(old(fields)@, name@, code_name@, pair_of(value)),
            flag_name@,
            pair_of(value),
        ),
{
    if let Some((first, second)) = value {
        let flag = if second.as_str().as_bytes().len() >= 2 {
            Some(get_flag(second.as_str()))
        } else {
            None
        };
        fields.insert(String::from_str(name), first);
        fields.insert(String::from_str(code_name), second);
        if let Some(symbols) = flag {
            fields.insert(String::from_str(flag_name), symbols);
        }
    }
}

/// Sets the fields `name` and `code_name` where `value` is present.
pub(crate) fn put_pair(
    fields: &mut FieldMap,
    name: &str,
    code_name: &str,
    value: Option<(String, String)>,
)
    requires
        old(fields).wf(),
    ensures
        final(fields).wf(),
        final(fields)@ == with_pair(old(fields)@, name@, code_name@, pair_of(value)),
{
    if let Some((first, second)) = value {
        fields.insert(String::from_str(name), first);
        fields.insert(String::from_str(code_name), second);
    }
}

/// Renders a record as a JSON document.
#[derive(Clone, Debug, PartialEq, Eq)]
pub struct JsonFormatter;

impl JsonFormatter {
    /// Collects the members of the document of `ip` and `data`.
    pub fn fields(ip: &str, data: GeoIpData) -> (fields: FieldMap)
        ensures
            fields.wf(),
            fields@ == json_fields(ip@, data@),
    {
        let mut fields = FieldMap::new();
        fields.insert(String::from_str("IP"), String::from_str(ip));
        put_text(&mut fields, "City", data.city);
        put_country(&mut fields, "Country", "CountryCode", "Flag", data.country);
        put_pair(&mut fields, "Region", "RegionCode", data.region);
        put_pair(&mut fields, "Registered", "RegisteredCode", data.registered);
        put_text(&mut fields, "ISP", data.isp);
        put_text(&mut fields, "TimeZone", data.time_zone);
        fields
    }
}

impl Formatter for JsonFormatter {
    open spec fn rendering(&self, ip: Seq<char>, data: GeoIpView) -> Seq<char> {
        json_object_text(json_fields(ip, data))
    }

    fn format(&self, ip: &str, data: GeoIpData) -> (text: String) {
        let fields = JsonFormatter::fields(ip, data);
        to_json(&fields)
    }
}

/// The names of the members of the JSON document differ from each other.
pub proof fn lemma_member_names_differ()
    ensures
        "IP"@.len() == 2,
        "ISP"@.len() == 3,
        "City"@.len() == 4,
        "Flag"@.len() == 4,
        "City"@[0] == 'C',
        "Flag"@[0] == 'F',
        "Region"@.len() == 6,
        "Country"@.len() == 7,
        "TimeZone"@.len() == 8,
        "Registered"@.len() == 10,
        "RegionCode"@.len() == 10,
        "Registered"@[2] == 'g',
        "RegionCode"@[2] == 'g',
        "Registered"@[3] == 'i',
        "RegionCode"@[3] == 'i',
        "Registered"@[4] == 's',
        "RegionCode"@[4] == 'o',
        "CountryCode"@.len() == 11,
        "RegisteredCode"@.len() == 14,
{
    reveal_strlit("IP");
    reveal_strlit("ISP");
    reveal_strlit("City");
    reveal_strlit("Flag");
    reveal_strlit("Region");
    reveal_strlit("Country");
    reveal_strlit("TimeZone");
    reveal_strlit("Registered");
    reveal_strlit("RegionCode");
    reveal_strlit("CountryCode");
    reveal_strlit("RegisteredCode");
}

/// The value of a member, if the document has it.
pub open spec fn member(fields: Map<Seq<char>, Seq<char>>, name: Seq<char>) -> Option<Seq<char>> {
    if fields.contains_key(name) {
        Some(fields[name])
    } else {
        None
    }
}

/// A name and its code, if the document has both members.
pub open spec fn member_pair(
    fields: Map<Seq<char>, Seq<char>>,
    name: Seq<char>,
    code_name: Seq<char>,
) -> Option<(Seq<char>, Seq<char>)> {
    if fields.contains_key(name) && fields.contains_key(code_name) {
        Some((fields[name], fields[code_name]))
    } else {
        None
    }
}

/// The record that the members of a JSON document stand for.
pub open spec fn record_of(fields: Map<Seq<char>, Seq<char>>) -> GeoIpView {
    GeoIpView {
        city: member(fields, "City"@),
        country: member_pair(fields, "Country"@, "CountryCode"@),
        region: member_pair(fields, "Region"@, "RegionCode"@),
        registered: member_pair(fields, "Registered"@, "RegisteredCode"@),
        isp: member(fields, "ISP"@),
        time_zone: member(fields, "TimeZone"@),
    }
}

/// In the JSON document of any record, a code is a member if and only if
/// the name that it belongs to is one.
pub proof fn law_codes_come_with_names(ip: Seq<char>, data: GeoIpView)
    ensures
        json_fields(ip, data).contains_key("Country"@) <==> json_fields(ip, data).contains_key(
            "CountryCode"@,
        ),
        json_fields(ip, data).contains_key("Region"@) <==> json_fields(ip, data).contains_key(
            "RegionCode"@,
        ),
        json_fields(ip, data).contains_key("Registered"@) <==> json_fields(
            ip,
            data,
        ).contains_key("RegisteredCode"@),
        json_fields(ip, data).contains_key("Country"@) <==> data.country is Some,
        json_fields(ip, data).contains_key("Region"@) <==> data.region is Some,
        json_fields(ip, data).contains_key("Registered"@) <==> data.registered is Some,
{
    lemma_member_names_differ();
}

/// The members of the JSON document of a record give the address and
/// every field of the record back, each name with its code.
pub proof fn law_document_keeps_record(ip: Seq<char>, data: GeoIpView)
    ensures
        member(json_fields(ip, data), "IP"@) == Some(ip),
        record_of(json_fields(ip, data)) == data,
{
    lemma_member_names_differ();
}

/// The JSON document has a flag exactly where the record has a country
/// whose code is long enough, and the flag is that of the code.
pub proof fn law_flag_follows_country(ip: Seq<char>, data: GeoIpView)
    ensures
        member(json_fields(ip, data), "Flag"@) == (match data.country {
            Some(pair) => if has_flag(pair.1) {
                Some(flag_text(pair.1))
            } else {
                None
            },
            None => None,
        }),
{
    lemma_member_names_differ();
}

/// One for a field that is present, nothing for one that is absent.
pub open spec fn count<T>(value: Option<T>) -> int {
    if value is Some {
        1
    } else {
        0
    }
}

/// The text output has one line for the address and one for each field
/// that is present, none for a field that is absent, and the lines stand
/// in the fixed order: each field's line comes behind the lines of the
/// fields before it that are present.
pub proof fn law_text_lines_in_order(color: bool, ip: Seq<char>, data: GeoIpView)
    ensures
        text_lines(color, ip, data).len() == 1 + count(data.city) + count(data.country) + count(
            data.region,
        ) + count(data.registered) + count(data.isp) + count(data.time_zone),
        text_lines(color, ip, data)[0] == text_line(color, "IP"@, ip),
        data.city matches Some(city) ==> text_lines(color, ip, data)[1] == text_line(
            color,
            "City"@,
            city,
        ),
        data.country matches Some(country) ==> text_lines(color, ip, data)[1 + count(data.city)]
            == text_line(color, "Country"@, pair_text(country)),
        data.region matches Some(region) ==> text_lines(color, ip, data)[1 + count(data.city)
            + count(data.country)] == text_line(color, "Region"@, pair_text(region)),
        data.registered matches Some(registered) ==> text_lines(color, ip, data)[1 + count(
            data.city,
        ) + count(data.country) + count(data.region)] == text_line(
            color,
            "Registered"@,
            pair_text(registered),
        ),
        data.isp matches Some(isp) ==> text_lines(color, ip, data)[1 + count(data.city) + count(
            data.country,
        ) + count(data.region) + count(data.registered)] == text_line(color, "ISP"@, isp),
        data.time_zone matches Some(zone) ==> text_lines(color, ip, data)[1 + count(data.city)
            + count(data.country) + count(data.region) + count(data.registered) + count(
            data.isp,
        )] == text_line(color, "Time zone"@, zone),
{
}

/// The flag of a country code of two ASCII characters has exactly two
/// symbols: each character's code moved up by the same offset. For two
/// capital letters these are regional indicator symbols.
pub proof fn law_flag_of_ascii_code(iso_code: Seq<char>)
    requires
        iso_code.len() == 2,
        is_ascii_chars(iso_code),
    ensures
        has_flag(iso_code),
        flag_text(iso_code).len() == 2,
        flag_text(iso_code)[0] as int == iso_code[0] as int + flag_offset(),
        flag_text(iso_code)[1] as int == iso_code[1] as int + flag_offset(),
        forall|i: int|
            0 <= i < 2 && 'A' <= iso_code[i] <= 'Z' ==> 0x1F1E6 <= (#[trigger] flag_text(
                iso_code,
            )[i]) as int <= 0x1F1FF,
{
    is_ascii_chars_encode_utf8(iso_code);
    let bytes = encode_utf8(iso_code);
    assert(bytes[0] == iso_code[0] as u8);
    assert(bytes[1] == iso_code[1] as u8);
}

} // verus!
