//! The records that the two GeoIP databases hold for an address, reduced
//! to the entries that the merged record is made from.

use vstd::prelude::*;

verus! {

/// A named place: a city, a country or a subdivision of a country.
#[derive(Clone, Debug, PartialEq, Eq)]
pub struct Place {
    /// The English name, where the database has one.
    pub name: Option<String>,
    /// The ISO code, where the database has one.
    pub iso_code: Option<String>,
}

/// Where the address is located.
#[derive(Clone, Debug, PartialEq, Eq)]
pub struct Location {
    pub time_zone: Option<String>,
}

/// The record of the city database.
#[derive(Clone, Debug, PartialEq, Eq)]
pub struct City {
    pub city: Option<Place>,
    pub country: Option<Place>,
    pub subdivisions: Option<Vec<Place>>,
    pub registered_country: Option<Place>,
    pub location: Option<Location>,
}

/// The record of the database of autonomous systems.
#[derive(Clone, Debug, PartialEq, Eq)]
pub struct Asn {
    pub autonomous_system_organization: Option<String>,
}

/// The name of a place, if the place and its name are there.
pub open spec fn place_name(place: Option<Place>) -> Option<Seq<char>> {
    match place {
        Some(Place { name: Some(name), .. }) => Some(name@),
        _ => None,
    }
}

/// The name and the code of a place, if the place is there and has both.
pub open spec fn place_pair(place: Option<Place>) -> Option<(Seq<char>, Seq<char>)> {
    match place {
        Some(Place { name: Some(name), iso_code: Some(code) }) => Some((name@, code@)),
        _ => None,
    }
}

/// The first of a list of subdivisions, if the list is there and not empty.
pub open spec fn first_place(places: Option<Vec<Place>>) -> Option<Place> {
    match places {
        Some(list) => if list@.len() > 0 {
            Some(list@[0])
        } else {
            None
        },
        None => None,
    }
}

/// The time zone of a location, if the location is there and has one.
pub open spec fn location_time_zone(location: Option<Location>) -> Option<Seq<char>> {
    match location {
        Some(Location { time_zone: Some(zone) }) => Some(zone@),
        _ => None,
    }
}

/// The characters of a string that may be absent.
pub open spec fn text_of(value: Option<String>) -> Option<Seq<char>> {
    match value {
        Some(text) => Some(text@),
        None => None,
    }
}

} // verus!
