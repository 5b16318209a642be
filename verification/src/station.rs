//! Decoding of a station from a JSON document.

use vstd::prelude::*;
use crate::fields::{field_of, is_record};
use crate::json::{Json, JsonView};
use crate::responses::{Station, StationView};

verus! {

/// The station that a document describes: an object with the members
/// `name`, `code`, `tz`, `lat`, `lon`, `address1`, `address2`, `city`,
/// `state`, `zip` and `trains`, or an array of their values in that order.
/// `name` and `tz` may be missing and are then empty; members of other
/// names are passed over.
pub open spec fn station_of(doc: JsonView) -> Option<StationView> {
    let name = field_of(doc, "name"@, 0).text_or_empty();
    let code = field_of(doc, "code"@, 1).text();
    let tz = field_of(doc, "tz"@, 2).text_or_empty();
    let lat = field_of(doc, "lat"@, 3).number();
    let lon = field_of(doc, "lon"@, 4).number();
    let address1 = field_of(doc, "address1"@, 5).text();
    let address2 = field_of(doc, "address2"@, 6).text();
    let city = field_of(doc, "city"@, 7).text();
    let state = field_of(doc, "state"@, 8).text();
    let zip = field_of(doc, "zip"@, 9).text();
    let trains = field_of(doc, "trains"@, 10).texts();
    if is_record(doc, 11) && name is Some && code is Some && tz is Some && lat is Some && lon is Some
        && address1 is Some && address2 is Some && city is Some && state is Some && zip is Some
        && trains is Some {
        Some(
            StationView {
                name: name->0,
                code: code->0,
                tz: tz->0,
                lat: lat->0,
                lon: lon->0,
                address1: address1->0,
                address2: address2->0,
                city: city->0,
                state: state->0,
                zip: zip->0,
                trains: trains->0,
            },
        )
    } else {
        None
    }
}

impl Station {
    /// Decodes a station.
    pub fn from_json(doc: &Json) -> (r: Option<Station>)
        ensures
            r.deep_view() == station_of(doc@),
    {
        if !doc.has_record_shape(11) {
            return None;
        }
        let name = doc.field("name", 0).text_or_empty()?;
        let code = doc.field("code", 1).text()?;
        let tz = doc.field("tz", 2).text_or_empty()?;
        let lat = doc.field("lat", 3).number()?;
        let lon = doc.field("lon", 4).number()?;
        let address1 = doc.field("address1", 5).text()?;
        let address2 = doc.field("address2", 6).text()?;
        let city = doc.field("city", 7).text()?;
        let state = doc.field("state", 8).text()?;
        let zip = doc.field("zip", 9).text()?;
        let trains = doc.field("trains", 10).texts()?;
        Some(Station { name, code, tz, lat, lon, address1, address2, city, state, zip, trains })
    }
}

} // verus!
