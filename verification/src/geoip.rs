//! The lookup of an address in the two databases, as one map of fields.

use crate::db_error::DbError;
use crate::fields::FieldMap;
use crate::formatter::{merged, GeoIpView};
use crate::output::{data_fields, get_data};
use crate::records::{Asn, City};
use vstd::prelude::*;
use vstd::string::*;

verus! {

/// The file of the city database within the database directory.
pub const MMDB_CITY_FILENAME: &'static str = "GeoLite2-City.mmdb";

/// The file of the database of autonomous systems within the database
/// directory.
pub const MMDB_ASN_FILENAME: &'static str = "GeoLite2-ASN.mmdb";

/// The database directory that is used where none is given.
pub const MMDB_PATH: &'static str = "/var/lib/GeoIP";

/// The fields of an address: what the databases give, and the address.
pub open spec fn lookup_fields(ip: Seq<char>, data: GeoIpView) -> Map<Seq<char>, Seq<char>> {
    data_fields(data).insert("ip"@, ip)
}

/// What `lookup` gives for the outcomes of the two database queries. The
/// failure of the city database goes first; with either failure there are
/// no fields at all.
pub open spec fn lookup_outcome(
    ip: Seq<char>,
    city: Result<City, DbError>,
    asn: Result<Asn, DbError>,
) -> Result<Map<Seq<char>, Seq<char>>, DbError> {
    match city {
        Err(error) => Err(error),
        Ok(city_record) => match asn {
            Err(error) => Err(error),
            Ok(asn_record) => Ok(lookup_fields(ip, merged(city_record, asn_record))),
        },
    }
}

/// Puts the outcomes of the two database queries for the address `ip`
/// together.
pub fn lookup(ip: &str, city: Result<City, DbError>, asn: Result<Asn, DbError>) -> (result:
    Result<FieldMap, DbError>)
    ensures
        match result {
            Ok(data) => data.wf() && lookup_outcome(ip@, city, asn) == Ok::<
                Map<Seq<char>, Seq<char>>,
                DbError,
            >(data@),
            Err(error) => lookup_outcome(ip@, city, asn) == Err::<
                Map<Seq<char>, Seq<char>>,
                DbError,
            >(error),
        },
{
    match city {
        Err(error) => Err(error),
        Ok(city_record) => match asn {
            Err(error) => Err(error),
            Ok(asn_record) => {
                let mut data = get_data(&city_record, &asn_record);
                data.insert(String::from_str("ip"), String::from_str(ip));
                Ok(data)
            },
        },
    }
}

} // verus!
