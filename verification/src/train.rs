//! Decoding of a train, and of the stations of its route, from a JSON
//! document.

use vstd::prelude::*;
use crate::fields::{field_of, is_named, is_record};
use crate::json::{items_view, lemma_array_view, Json, JsonView};
use crate::names::{heading_of, train_state_of, train_status_of};
use crate::responses::{
    Heading, Train, TrainState, TrainStation, TrainStationView, TrainStatus, TrainView,
};
use crate::time::Timestamp;

verus! {

/// The readings of the four instants that a station of a route is
/// written with. A reading is `None` where the field is no string, or a
/// string that does not read as an instant.
#[derive(Debug, Clone, Copy, PartialEq, Eq, Structural)]
pub struct StationTimes {
    /// Reading of `schArr`.
    pub schedule_arrival: Option<Timestamp>,
    /// Reading of `schDep`.
    pub schedule_departure: Option<Timestamp>,
    /// Reading of `arr`.
    pub arrival: Option<Timestamp>,
    /// Reading of `dep`.
    pub departure: Option<Timestamp>,
}

/// The readings of the instants that `doc` is written with.
pub open spec fn station_times_of(doc: JsonView) -> StationTimes {
    StationTimes {
        schedule_arrival: field_of(doc, "schArr"@, 4).time_reading(),
        schedule_departure: field_of(doc, "schDep"@, 5).time_reading(),
        arrival: field_of(doc, "arr"@, 6).time_reading(),
        departure: field_of(doc, "dep"@, 7).time_reading(),
    }
}

/// The station of a route that a document describes, where `times` are the
/// readings of its instants: an object with the members `name`, `code`,
/// `tz`, `bus`, `schArr`, `schDep`, `arr`, `dep`, `arrCmnt`, `depCmnt` and
/// `status`, or an array of their values in that order. `arr` and `dep`
/// may be missing or `null`, and the record then has no such time; members
/// of other names are passed over.
pub open spec fn train_station_given(doc: JsonView, times: StationTimes) -> Option<
    TrainStationView,
> {
    let name = field_of(doc, "name"@, 0).text();
    let code = field_of(doc, "code"@, 1).text();
    let tz = field_of(doc, "tz"@, 2).text();
    let bus = field_of(doc, "bus"@, 3).flag();
    let schedule_arrival = field_of(doc, "schArr"@, 4).time(times.schedule_arrival);
    let schedule_departure = field_of(doc, "schDep"@, 5).time(times.schedule_departure);
    let arrival = field_of(doc, "arr"@, 6).optional_time(times.arrival);
    let departure = field_of(doc, "dep"@, 7).optional_time(times.departure);
    let arrival_comment = field_of(doc, "arrCmnt"@, 8).text();
    let departure_comment = field_of(doc, "depCmnt"@, 9).text();
    let status = match field_of(doc, "status"@, 10).value() {
        Some(v) => train_status_of(v),
        None => None,
    };
    if is_record(doc, 11) && name is Some && code is Some && tz is Some && bus is Some
        && schedule_arrival is Some && schedule_departure is Some && arrival is Some
        && departure is Some && arrival_comment is Some && departure_comment is Some
        && status is Some {
        Some(
            TrainStationView {
                name: name->0,
                code: code->0,
                tz: tz->0,
                bus: bus->0,
                schedule_arrival: schedule_arrival->0,
                schedule_departure: schedule_departure->0,
                arrival: arrival->0,
                departure: departure->0,
                arrival_comment: arrival_comment->0,
                departure_comment: departure_comment->0,
                status: status->0,
            },
        )
    } else {
        None
    }
}

/// The station of a route that a document describes.
pub open spec fn train_station_of(doc: JsonView) -> Option<TrainStationView> {
    train_station_given(doc, station_times_of(doc))
}

/// The stations of a route that a document lists: an array of which every
/// element describes one.
pub open spec fn train_stations_of(doc: JsonView) -> Option<Seq<TrainStationView>> {
    match doc {
        JsonView::Array(items) => if forall|i: int|
            0 <= i < items.len() ==> train_station_of(#[trigger] items[i]) is Some {
            Some(Seq::new(items.len(), |i: int| train_station_of(items[i])->0))
        } else {
            None
        },
        _ => None,
    }
}

impl TrainStation {
    /// Reads the instants that `doc` is written with.
    pub fn read_times(doc: &Json) -> (times: StationTimes)
        ensures
            times == station_times_of(doc@),
    {
        StationTimes {
            schedule_arrival: doc.field("schArr", 4).read_time(),
            schedule_departure: doc.field("schDep", 5).read_time(),
            arrival: doc.field("arr", 6).read_time(),
            departure: doc.field("dep", 7).read_time(),
        }
    }

    /// Decodes a station of a route, taking `times` as the readings of its
    /// instants.
    pub fn assemble(doc: &Json, times: StationTimes) -> (r: Option<TrainStation>)
        ensures
            r.deep_view() == train_station_given(doc@, times),
    {
        if !doc.has_record_shape(11) {
            return None;
        }
        let name = doc.field("name", 0).text()?;
        let code = doc.field("code", 1).text()?;
        let tz = doc.field("tz", 2).text()?;
        let bus = doc.field("bus", 3).flag()?;
        let schedule_arrival = doc.field("schArr", 4).time(times.schedule_arrival)?;
        let schedule_departure = doc.field("schDep", 5).time(times.schedule_departure)?;
        let arrival = doc.field("arr", 6).optional_time(times.arrival)?;
        let departure = doc.field("dep", 7).optional_time(times.departure)?;
        let arrival_comment = doc.field("arrCmnt", 8).text()?;
        let departure_comment = doc.field("depCmnt", 9).text()?;
        let status = TrainStatus::from_json(doc.field("status", 10).value()?)?;
        Some(
            TrainStation {
                name,
                code,
                tz,
                bus,
                schedule_arrival,
                schedule_departure,
                arrival,
                departure,
                arrival_comment,
                departure_comment,
                status,
            },
        )
    }

    /// Decodes a station of a route.
    pub fn from_json(doc: &Json) -> (r: Option<TrainStation>)
        ensures
            r.deep_view() == train_station_of(doc@),
    {
        let times = TrainStation::read_times(doc);
        TrainStation::assemble(doc, times)
    }

    /// Decodes the stations of a route.
    pub fn list_from_json(doc: &Json) -> (r: Option<Vec<TrainStation>>)
        ensures
            r.deep_view() == train_stations_of(doc@),
    {
        match doc {
            Json::Array(items) => {
                proof {
                    lemma_array_view(*items);
                }
                let mut out: Vec<TrainStation> = Vec::new();
                let mut i: usize = 0;
                while i < items.len()
                    invariant
                        i <= items.len(),
                        out@.len() == i,
                        doc@ == JsonView::Array(items_view(items@)),
                        forall|k: int|
                            0 <= k < i ==> train_station_of(#[trigger] items_view(items@)[k])
                                == Some(out@[k].deep_view()),
                    decreases items.len() - i,
                {
                    match TrainStation::from_json(&items[i]) {
                        Some(station) => {
                            out.push(station);
                        },
                        None => {
                            assert(train_station_of(items_view(items@)[i as int]) is None);
                            return None;
                        },
                    }
                    i += 1;
                }
                assert(out.deep_view() =~= train_stations_of(doc@)->0);
                Some(out)
            },
            _ => None,
        }
    }
}

/// The readings of the three instants that a train is written with.
#[derive(Debug, Clone, Copy, PartialEq, Eq, Structural)]
pub struct TrainTimes {
    /// Reading of `createdAt`.
    pub created_at: Option<Timestamp>,
    /// Reading of `updatedAt`.
    pub updated_at: Option<Timestamp>,
    /// Reading of `lastValTS`.
    pub last_value: Option<Timestamp>,
}

/// The readings of the instants that `doc` is written with.
pub open spec fn train_times_of(doc: JsonView) -> TrainTimes {
    TrainTimes {
        created_at: field_of(doc, "createdAt"@, 20).time_reading(),
        updated_at: field_of(doc, "updatedAt"@, 21).time_reading(),
        last_value: field_of(doc, "lastValTS"@, 22).time_reading(),
    }
}

/// The stations that the `stations` member of `doc` lists.
pub open spec fn route_of(doc: JsonView) -> Option<Seq<TrainStationView>> {
    match field_of(doc, "stations"@, 6).value() {
        Some(list) => train_stations_of(list),
        None => None,
    }
}

/// The train that a document describes, where `route` is the decoding of
/// its `stations` member and `times` are the readings of its instants: an
/// object with the members `routeName`, `trainNum`, `trainID`, `lat`,
/// `lon`, `trainTimely`, `stations`, `heading`, `eventCode`, `eventTZ`,
/// `eventName`, `origCode`, `originTZ`, `origName`, `destCode`, `destTZ`,
/// `destName`, `trainState`, `velocity`, `statusMsg`, `createdAt`,
/// `updatedAt`, `lastValTS` and `objectID`, or an array of their values in
/// that order. `eventTZ` and `eventName` may be `null`, and an object may
/// leave them out; members of other names are passed over.
pub open spec fn train_given(
    doc: JsonView,
    route: Option<Seq<TrainStationView>>,
    times: TrainTimes,
) -> Option<TrainView> {
    let route_name = field_of(doc, "routeName"@, 0).text();
    let train_num = field_of(doc, "trainNum"@, 1).count();
    let train_id = field_of(doc, "trainID"@, 2).text();
    let lat = field_of(doc, "lat"@, 3).number();
    let lon = field_of(doc, "lon"@, 4).number();
    let train_timely = field_of(doc, "trainTimely"@, 5).text();
    let stations = match field_of(doc, "stations"@, 6).value() {
        Some(_) => route,
        None => None,
    };
    let heading = match field_of(doc, "heading"@, 7).value() {
        Some(v) => heading_of(v),
        None => None,
    };
    let event_code = field_of(doc, "eventCode"@, 8).text();
    let event_tz = field_of(doc, "eventTZ"@, 9).optional_text(is_named(doc));
    let event_name = field_of(doc, "eventName"@, 10).optional_text(is_named(doc));
    let origin_code = field_of(doc, "origCode"@, 11).text();
    let origin_tz = field_of(doc, "originTZ"@, 12).text();
    let origin_name = field_of(doc, "origName"@, 13).text();
    let destination_code = field_of(doc, "destCode"@, 14).text();
    let destination_tz = field_of(doc, "destTZ"@, 15).text();
    let destination_name = field_of(doc, "destName"@, 16).text();
    let train_state = match field_of(doc, "trainState"@, 17).value() {
        Some(v) => train_state_of(v),
        None => None,
    };
    let velocity = field_of(doc, "velocity"@, 18).number();
    let status_message = field_of(doc, "statusMsg"@, 19).text();
    let created_at = field_of(doc, "createdAt"@, 20).time(times.created_at);
    let updated_at = field_of(doc, "updatedAt"@, 21).time(times.updated_at);
    let last_value = field_of(doc, "lastValTS"@, 22).time(times.last_value);
    let object_id = field_of(doc, "objectID"@, 23).count();
    if is_record(doc, 24) && route_name is Some && train_num is Some && train_id is Some
        && lat is Some && lon is Some && train_timely is Some && stations is Some
        && heading is Some && event_code is Some && event_tz is Some && event_name is Some
        && origin_code is Some && origin_tz is Some && origin_name is Some
        && destination_code is Some && destination_tz is Some && destination_name is Some
        && train_state is Some && velocity is Some && status_message is Some
        && created_at is Some && updated_at is Some && last_value is Some && object_id is Some {
        Some(
            TrainView {
                route_name: route_name->0,
                train_num: train_num->0,
                train_id: train_id->0,
                lat: lat->0,
                lon: lon->0,
                train_timely: train_timely->0,
                stations: stations->0,
                heading: heading->0,
                event_code: event_code->0,
                event_tz: event_tz->0,
                event_name: event_name->0,
                origin_code: origin_code->0,
                origin_tz: origin_tz->0,
                origin_name: origin_name->0,
                destination_code: destination_code->0,
                destination_tz: destination_tz->0,
                destination_name: destination_name->0,
                train_state: train_state->0,
                velocity: velocity->0,
                status_message: status_message->0,
                created_at: created_at->0,
                updated_at: updated_at->0,
                last_value: last_value->0,
                object_id: object_id->0,
            },
        )
    } else {
        None
    }
}

/// The train that a document describes.
pub open spec fn train_of(doc: JsonView) -> Option<TrainView> {
    train_given(doc, route_of(doc), train_times_of(doc))
}

/// The trains that a document lists: an array of which every element
/// describes one.
pub open spec fn trains_of(doc: JsonView) -> Option<Seq<TrainView>> {
    match doc {
        JsonView::Array(items) => if forall|i: int|
            0 <= i < items.len() ==> train_of(#[trigger] items[i]) is Some {
            Some(Seq::new(items.len(), |i: int| train_of(items[i])->0))
        } else {
            None
        },
        _ => None,
    }
}

impl Train {
    /// Reads the instants that `doc` is written with.
    pub fn read_times(doc: &Json) -> (times: TrainTimes)
        ensures
            times == train_times_of(doc@),
    {
        TrainTimes {
            created_at: doc.field("createdAt", 20).read_time(),
            updated_at: doc.field("updatedAt", 21).read_time(),
            last_value: doc.field("lastValTS", 22).read_time(),
        }
    }

    /// Decodes the `stations` member of `doc`.
    pub fn read_route(doc: &Json) -> (route: Option<Vec<TrainStation>>)
        ensures
            route.deep_view() == route_of(doc@),
    {
        match doc.field("stations", 6).value() {
            Some(list) => TrainStation::list_from_json(list),
            None => None,
        }
    }

    /// Decodes a train, taking `route` as the decoding of its `stations`
    /// member and `times` as the readings of its instants.
    pub fn assemble(doc: &Json, route: Option<Vec<TrainStation>>, times: TrainTimes) -> (r: Option<
        Train,
    >)
        ensures
            r.deep_view() == train_given(doc@, route.deep_view(), times),
    {
        if !doc.has_record_shape(24) {
            return None;
        }
        let named = doc.names_fields();
        let route_name = doc.field("routeName", 0).text()?;
        let train_num = doc.field("trainNum", 1).count()?;
        let train_id = doc.field("trainID", 2).text()?;
        let lat = doc.field("lat", 3).number()?;
        let lon = doc.field("lon", 4).number()?;
        let train_timely = doc.field("trainTimely", 5).text()?;
        doc.field("stations", 6).value()?;
        let stations = route?;
        let heading = Heading::from_json(doc.field("heading", 7).value()?)?;
        let event_code = doc.field("eventCode", 8).text()?;
        let event_tz = doc.field("eventTZ", 9).optional_text(named)?;
        let event_name = doc.field("eventName", 10).optional_text(named)?;
        let origin_code = doc.field("origCode", 11).text()?;
        let origin_tz = doc.field("originTZ", 12).text()?;
        let origin_name = doc.field("origName", 13).text()?;
        let destination_code = doc.field("destCode", 14).text()?;
        let destination_tz = doc.field("destTZ", 15).text()?;
        let destination_name = doc.field("destName", 16).text()?;
        let train_state = TrainState::from_json(doc.field("trainState", 17).value()?)?;
        let velocity = doc.field("velocity", 18).number()?;
        let status_message = doc.field("statusMsg", 19).text()?;
        let created_at = doc.field("createdAt", 20).time(times.created_at)?;
        let updated_at = doc.field("updatedAt", 21).time(times.updated_at)?;
        let last_value = doc.field("lastValTS", 22).time(times.last_value)?;
        let object_id = doc.field("objectID", 23).count()?;
        Some(
            Train {
                route_name,
                train_num,
                train_id,
                lat,
                lon,
                train_timely,
                stations,
                heading,
                event_code,
                event_tz,
                event_name,
                origin_code,
                origin_tz,
                origin_name,
                destination_code,
                destination_tz,
                destination_name,
                train_state,
                velocity,
                status_message,
                created_at,
                updated_at,
                last_value,
                object_id,
            },
        )
    }

    /// Decodes a train.
    pub fn from_json(doc: &Json) -> (r: Option<Train>)
        ensures
            r.deep_view() == train_of(doc@),
    {
        let route = Train::read_route(doc);
        let times = Train::read_times(doc);
        Train::assemble(doc, route, times)
    }

    /// Decodes a list of trains.
    pub fn list_from_json(doc: &Json) -> (r: Option<Vec<Train>>)
        ensures
            r.deep_view() == trains_of(doc@),
    {
        match doc {
            Json::Array(items) => {
                proof {
                    lemma_array_view(*items);
                }
                let mut out: Vec<Train> = Vec::new();
                let mut i: usize = 0;
                while i < items.len()
                    invariant
                        i <= items.len(),
                        out@.len() == i,
                        doc@ == JsonView::Array(items_view(items@)),
                        forall|k: int|
                            0 <= k < i ==> train_of(#[trigger] items_view(items@)[k]) == Some(
                                out@[k].deep_view(),
                            ),
                    decreases items.len() - i,
                {
                    match Train::from_json(&items[i]) {
                        Some(train) => {
                            out.push(train);
                        },
                        None => {
                            assert(train_of(items_view(items@)[i as int]) is None);
                            return None;
                        },
                    }
                    i += 1;
                }
                assert(out.deep_view() =~= trains_of(doc@)->0);
                Some(out)
            },
            _ => None,
        }
    }
}

} // verus!
