use myip::formatter::{get_flag, map_data, Formatter, GeoIpData, JsonFormatter, TextFormatter};
use myip::records::{Asn, City, Location, Place};
use std::collections::HashMap;

fn place(name: &str, code: &str) -> Place {
    Place { name: Some(name.to_string()), iso_code: Some(code.to_string()) }
}

fn full_city() -> City {
    City {
        city: Some(Place { name: Some("Mountain View".to_string()), iso_code: None }),
        country: Some(place("United States", "US")),
        subdivisions: Some(vec![place("California", "CA"), place("Santa Clara", "SC")]),
        registered_country: Some(place("Germany", "DE")),
        location: Some(Location { time_zone: Some("America/Los_Angeles".to_string()) }),
    }
}

fn full_asn() -> Asn {
    Asn { autonomous_system_organization: Some("Example Net".to_string()) }
}

fn empty_city() -> City {
    City { city: None, country: None, subdivisions: None, registered_country: None, location: None }
}

fn full_data() -> GeoIpData {
    GeoIpData {
        city: Some("Mountain View".to_string()),
        country: Some(("United States".to_string(), "US".to_string())),
        region: Some(("California".to_string(), "CA".to_string())),
        registered: Some(("Germany".to_string(), "DE".to_string())),
        isp: Some("Example Net".to_string()),
        time_zone: Some("America/Los_Angeles".to_string()),
    }
}

#[test]
fn flag_of_the_united_states() {
    assert_eq!(get_flag("US"), "\u{1F1FA}\u{1F1F8}");
}

#[test]
fn flag_has_two_symbols_for_two_letters() {
    for code in ["DE", "FR", "JP", "BR", "ZA"] {
        assert_eq!(get_flag(code).chars().count(), 2);
    }
}

#[test]
fn flag_is_the_same_for_the_same_code() {
    assert_eq!(get_flag("GB"), get_flag("GB"));
    assert_eq!(get_flag("us"), get_flag("us"));
}

#[test]
fn flag_of_small_letters_moves_by_the_same_offset() {
    let flag: Vec<char> = get_flag("us").chars().collect();
    assert_eq!(flag, vec![
        char::from_u32('u' as u32 + 0x1F1A5).unwrap(),
        char::from_u32('s' as u32 + 0x1F1A5).unwrap(),
    ]);
}

#[test]
fn flag_uses_the_first_two_bytes_only() {
    assert_eq!(get_flag("USA"), get_flag("US"));
}

#[test]
fn new_record_is_empty() {
    let data = GeoIpData::new();
    assert_eq!(data, GeoIpData {
        city: None,
        country: None,
        region: None,
        registered: None,
        isp: None,
        time_zone: None,
    });
}

#[test]
fn merge_of_a_full_match() {
    assert_eq!(map_data(full_city(), full_asn()), full_data());
}

#[test]
fn merge_takes_the_first_subdivision() {
    let data = map_data(full_city(), full_asn());
    assert_eq!(data.region, Some(("California".to_string(), "CA".to_string())));
}

#[test]
fn merge_of_nothing_is_empty() {
    let data = map_data(empty_city(), Asn { autonomous_system_organization: None });
    assert_eq!(data, GeoIpData::new());
}

#[test]
fn merge_without_subdivisions_has_no_region() {
    let mut city = full_city();
    city.subdivisions = None;
    assert_eq!(map_data(city, full_asn()).region, None);
    let mut city = full_city();
    city.subdivisions = Some(vec![]);
    assert_eq!(map_data(city, full_asn()).region, None);
}

#[test]
fn merge_keeps_registered_country_apart_from_country() {
    let data = map_data(full_city(), full_asn());
    assert_eq!(data.country, Some(("United States".to_string(), "US".to_string())));
    assert_eq!(data.registered, Some(("Germany".to_string(), "DE".to_string())));
}

#[test]
fn merge_gives_name_and_code_together_or_neither() {
    // every subset of the sub-records, and places that lack a name or a code
    for mask in 0u32..64 {
        let pick = |bit: u32, with: Option<Place>| if mask & (1 << bit) != 0 { with } else { None };
        let city = City {
            city: pick(0, Some(Place { name: Some("Town".to_string()), iso_code: None })),
            country: pick(1, Some(place("Land", "LA"))),
            subdivisions: pick(2, Some(place("Shire", "SH"))).map(|p| vec![p]),
            registered_country: pick(3, Some(place("Home", "HO"))),
            location: if mask & 16 != 0 {
                Some(Location { time_zone: Some("UTC".to_string()) })
            } else {
                None
            },
        };
        let asn = Asn {
            autonomous_system_organization: if mask & 32 != 0 {
                Some("Net".to_string())
            } else {
                None
            },
        };
        let data = map_data(city, asn);
        assert_eq!(data.city.is_some(), mask & 1 != 0);
        assert_eq!(data.country.is_some(), mask & 2 != 0);
        assert_eq!(data.region.is_some(), mask & 4 != 0);
        assert_eq!(data.registered.is_some(), mask & 8 != 0);
        assert_eq!(data.time_zone.is_some(), mask & 16 != 0);
        assert_eq!(data.isp.is_some(), mask & 32 != 0);
        let text = JsonFormatter.format("192.0.2.1", data);
        let parsed: HashMap<String, String> = serde_json::from_str(&text).unwrap();
        for (name, code) in
            [("Country", "CountryCode"), ("Region", "RegionCode"), ("Registered", "RegisteredCode")]
        {
            assert_eq!(parsed.contains_key(name), parsed.contains_key(code));
        }
    }
}

#[test]
fn merge_drops_a_place_without_a_code() {
    let mut city = full_city();
    city.country = Some(Place { name: Some("United States".to_string()), iso_code: None });
    city.registered_country = Some(Place { name: None, iso_code: Some("DE".to_string()) });
    let data = map_data(city, full_asn());
    assert_eq!(data.country, None);
    assert_eq!(data.registered, None);
}

#[test]
fn merge_drops_a_location_without_a_time_zone() {
    let mut city = full_city();
    city.location = Some(Location { time_zone: None });
    assert_eq!(map_data(city, full_asn()).time_zone, None);
}

#[test]
fn plain_line_is_moved_right_to_the_label_column() {
    let formatter = TextFormatter(false);
    assert_eq!(formatter.format_pair("IP", "192.0.2.1"), "        IP: 192.0.2.1");
    assert_eq!(formatter.format_pair("Registered", "x"), "Registered: x");
    assert_eq!(formatter.format_pair("Time zone", "UTC"), " Time zone: UTC");
    assert_eq!(formatter.format_pair("", ""), "          : ");
}

#[test]
fn painted_line_has_the_escape_codes() {
    let formatter = TextFormatter(true);
    assert_eq!(
        formatter.format_pair("City", "Oslo"),
        "      \u{1b}[1;34mCity\u{1b}[0m\u{1b}[1m:\u{1b}[0m \u{1b}[32mOslo\u{1b}[0m"
    );
}

#[test]
fn text_of_a_full_match_has_seven_lines_in_order() {
    let text = TextFormatter(false).format("192.0.2.1", full_data());
    assert_eq!(
        text,
        "        IP: 192.0.2.1\n\
         \x20     City: Mountain View\n\
         \x20  Country: United States (US)\n\
         \x20   Region: California (CA)\n\
         Registered: Germany (DE)\n\
         \x20      ISP: Example Net\n\
         \x20Time zone: America/Los_Angeles"
    );
}

#[test]
fn text_of_an_empty_record_is_the_address_line() {
    assert_eq!(TextFormatter(false).format("192.0.2.1", GeoIpData::new()), "        IP: 192.0.2.1");
}

#[test]
fn text_omits_absent_fields_and_keeps_the_order() {
    let mut data = full_data();
    data.city = None;
    data.region = None;
    data.isp = None;
    let text = TextFormatter(false).format("2001:db8::1", data);
    let lines: Vec<&str> = text.lines().collect();
    assert_eq!(lines, vec![
        "        IP: 2001:db8::1",
        "   Country: United States (US)",
        "Registered: Germany (DE)",
        " Time zone: America/Los_Angeles",
    ]);
}

#[test]
fn text_without_region_has_no_region_line() {
    let mut data = full_data();
    data.region = None;
    let text = TextFormatter(false).format("192.0.2.1", data);
    assert!(!text.contains("Region"));
    assert_eq!(text.lines().count(), 6);
}

#[test]
fn painted_text_paints_every_line() {
    let text = TextFormatter(true).format("192.0.2.1", full_data());
    assert_eq!(text.lines().count(), 7);
    for line in text.lines() {
        assert!(line.contains("\u{1b}[1;34m"));
        assert!(line.ends_with("\u{1b}[0m"));
    }
    assert!(text.contains("\u{1b}[32mUnited States (US)\u{1b}[0m"));
}

#[test]
fn json_of_a_full_match() {
    let text = JsonFormatter.format("192.0.2.1", full_data());
    assert_eq!(
        text,
        "{\"City\":\"Mountain View\",\"Country\":\"United States\",\"CountryCode\":\"US\",\
         \"Flag\":\"\u{1F1FA}\u{1F1F8}\",\"IP\":\"192.0.2.1\",\"ISP\":\"Example Net\",\
         \"Region\":\"California\",\"RegionCode\":\"CA\",\"Registered\":\"Germany\",\
         \"RegisteredCode\":\"DE\",\"TimeZone\":\"America/Los_Angeles\"}"
    );
}

#[test]
fn json_of_an_empty_record_holds_the_address_only() {
    assert_eq!(JsonFormatter.format("192.0.2.1", GeoIpData::new()), "{\"IP\":\"192.0.2.1\"}");
}

#[test]
fn json_escapes_what_json_requires() {
    let mut data = GeoIpData::new();
    data.isp = Some("A \"quoted\" net\\work".to_string());
    assert_eq!(
        JsonFormatter.format("192.0.2.1", data),
        "{\"IP\":\"192.0.2.1\",\"ISP\":\"A \\\"quoted\\\" net\\\\work\"}"
    );
}

#[test]
fn json_without_region_has_no_region_members() {
    let mut data = full_data();
    data.region = None;
    let text = JsonFormatter.format("192.0.2.1", data);
    let parsed: HashMap<String, String> = serde_json::from_str(&text).unwrap();
    assert!(!parsed.contains_key("Region"));
    assert!(!parsed.contains_key("RegionCode"));
    assert_eq!(parsed.len(), 9);
}

#[test]
fn json_has_no_flag_without_a_country() {
    let mut data = full_data();
    data.country = None;
    let text = JsonFormatter.format("192.0.2.1", data);
    let parsed: HashMap<String, String> = serde_json::from_str(&text).unwrap();
    assert!(!parsed.contains_key("Flag"));
    assert!(!parsed.contains_key("Country"));
    assert!(!parsed.contains_key("CountryCode"));
}

#[test]
fn json_has_no_flag_for_a_code_of_one_letter() {
    let mut data = GeoIpData::new();
    data.country = Some(("Nowhere".to_string(), "N".to_string()));
    let text = JsonFormatter.format("192.0.2.1", data);
    assert_eq!(text, "{\"Country\":\"Nowhere\",\"CountryCode\":\"N\",\"IP\":\"192.0.2.1\"}");
}

#[test]
fn json_round_trip_gives_every_field_back() {
    let data = full_data();
    let text = JsonFormatter.format("192.0.2.1", data.clone());
    let parsed: HashMap<String, String> = serde_json::from_str(&text).unwrap();
    let pair = |name: &str, code: &str| match (parsed.get(name), parsed.get(code)) {
        (Some(n), Some(c)) => Some((n.clone(), c.clone())),
        _ => None,
    };
    let back = GeoIpData {
        city: parsed.get("City").cloned(),
        country: pair("Country", "CountryCode"),
        region: pair("Region", "RegionCode"),
        registered: pair("Registered", "RegisteredCode"),
        isp: parsed.get("ISP").cloned(),
        time_zone: parsed.get("TimeZone").cloned(),
    };
    assert_eq!(back, data);
    assert_eq!(parsed.get("IP").map(String::as_str), Some("192.0.2.1"));
}

#[test]
fn json_round_trip_of_sparse_records() {
    for mask in 0u32..64 {
        let on = |bit: u32| mask & (1 << bit) != 0;
        let data = GeoIpData {
            city: on(0).then_some("Town \u{e9}".to_string()),
            country: on(1).then_some(("Land".to_string(), "LA".to_string())),
            region: on(2).then_some(("Shire".to_string(), "SH".to_string())),
            registered: on(3).then_some(("Home".to_string(), "HO".to_string())),
            isp: on(4).then_some("Net \"1\"".to_string()),
            time_zone: on(5).then_some("Etc/UTC".to_string()),
        };
        let text = JsonFormatter.format("198.51.100.7", data.clone());
        let parsed: HashMap<String, String> = serde_json::from_str(&text).unwrap();
        let pair = |name: &str, code: &str| match (parsed.get(name), parsed.get(code)) {
            (Some(n), Some(c)) => Some((n.clone(), c.clone())),
            _ => None,
        };
        let back = GeoIpData {
            city: parsed.get("City").cloned(),
            country: pair("Country", "CountryCode"),
            region: pair("Region", "RegionCode"),
            registered: pair("Registered", "RegisteredCode"),
            isp: parsed.get("ISP").cloned(),
            time_zone: parsed.get("TimeZone").cloned(),
        };
        assert_eq!(back, data);
        assert_eq!(parsed.contains_key("Flag"), on(1));
    }
}
