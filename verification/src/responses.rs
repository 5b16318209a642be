//! The records that the service returns, and their mathematical views.

use vstd::prelude::*;
use crate::json::JsonNumber;
use crate::text_map::TextMap;
use crate::time::Timestamp;

verus! {

/// The direction in which a train is moving, as a point of the compass.
#[derive(Debug, Copy, Clone, PartialEq, Eq, Structural)]
pub enum Heading {
    /// North.
    N,
    /// Northeast.
    NE,
    /// East.
    E,
    /// Southeast.
    SE,
    /// South.
    S,
    /// Southwest.
    SW,
    /// West.
    W,
    /// Northwest.
    NW,
}

/// Where a train stands with respect to one station of its route.
#[derive(Debug, Copy, Clone, PartialEq, Eq, Structural)]
pub enum TrainStatus {
    /// The train has not reached the station yet.
    Enroute,
    /// The train is at the station.
    Station,
    /// The train has called at the station and left it.
    Departed,
    /// The service does not know.
    Unknown,
}

/// Where a train stands with respect to its whole journey.
#[derive(Debug, Copy, Clone, PartialEq, Eq, Structural)]
pub enum TrainState {
    /// The train waits to leave its first station.
    Predeparture,
    /// The train is on its way.
    Active,
    /// The train has reached its last station.
    Completed,
}

/// The reply of the endpoints `/trains` and `/trains/{identifier}`: for each
/// train number, written as a string, the trains that run under it. Mostly
/// that is one train, but nothing keeps the service from listing several.
#[derive(Debug, Clone)]
pub struct TrainResponse(pub TextMap<Vec<Train>>);

impl DeepView for TrainResponse {
    type V = Map<Seq<char>, Seq<TrainView>>;

    open spec fn deep_view(&self) -> Map<Seq<char>, Seq<TrainView>> {
        self.0.deep_view()
    }
}

impl View for TrainResponse {
    type V = Map<Seq<char>, Seq<TrainView>>;

    open spec fn view(&self) -> Map<Seq<char>, Seq<TrainView>> {
        self.deep_view()
    }
}

/// The reply of the endpoints `/stations` and `/stations/{code}`: for each
/// station code, the station of that code.
#[derive(Debug, Clone)]
pub struct StationResponse(pub TextMap<Station>);

impl DeepView for StationResponse {
    type V = Map<Seq<char>, StationView>;

    open spec fn deep_view(&self) -> Map<Seq<char>, StationView> {
        self.0.deep_view()
    }
}

impl View for StationResponse {
    type V = Map<Seq<char>, StationView>;

    open spec fn view(&self) -> Map<Seq<char>, StationView> {
        self.deep_view()
    }
}

/// One station on the route of a train, with the times at which the train
/// calls there.
#[derive(Debug, Clone)]
pub struct TrainStation {
    /// Full name of the station, such as `New York Penn`.
    pub name: String,
    /// Code of the station, such as `NYP`.
    pub code: String,
    /// Time zone of the station, such as `America/New_York`.
    pub tz: String,
    /// Whether the stop is served by a bus.
    pub bus: bool,
    /// Arrival according to the timetable.
    pub schedule_arrival: Timestamp,
    /// Departure according to the timetable.
    pub schedule_departure: Timestamp,
    /// Arrival as it happened, or as it is foreseen while the train is on
    /// its way there; `None` while the service has no such time.
    pub arrival: Option<Timestamp>,
    /// Departure as it happened, or as it is foreseen; `None` while the
    /// service has no such time.
    pub departure: Option<Timestamp>,
    /// Remark on the arrival, such as `19 Minutes Late` or `On Time`.
    pub arrival_comment: String,
    /// Remark on the departure, in the same form.
    pub departure_comment: String,
    /// Where the train stands with respect to this station.
    pub status: TrainStatus,
}

/// The mathematical value of a [`TrainStation`].
pub ghost struct TrainStationView {
    pub name: Seq<char>,
    pub code: Seq<char>,
    pub tz: Seq<char>,
    pub bus: bool,
    pub schedule_arrival: Timestamp,
    pub schedule_departure: Timestamp,
    pub arrival: Option<Timestamp>,
    pub departure: Option<Timestamp>,
    pub arrival_comment: Seq<char>,
    pub departure_comment: Seq<char>,
    pub status: TrainStatus,
}

impl DeepView for TrainStation {
    type V = TrainStationView;

    open spec fn deep_view(&self) -> TrainStationView {
        TrainStationView {
            name: self.name@,
            code: self.code@,
            tz: self.tz@,
            bus: self.bus,
            schedule_arrival: self.schedule_arrival,
            schedule_departure: self.schedule_departure,
            arrival: self.arrival,
            departure: self.departure,
            arrival_comment: self.arrival_comment@,
            departure_comment: self.departure_comment@,
            status: self.status,
        }
    }
}

impl View for TrainStation {
    type V = TrainStationView;

    open spec fn view(&self) -> TrainStationView {
        self.deep_view()
    }
}

/// A train as the service tracks it.
#[derive(Debug, Clone)]
pub struct Train {
    /// Name of the route, such as `Keystone`.
    pub route_name: String,
    /// Number of the train; several trains may run under one number.
    pub train_num: u32,
    /// The number of the train, a hyphen and a further number, such as
    /// `657-30`.
    pub train_id: String,
    /// Latitude of the train, as the service wrote it.
    pub lat: JsonNumber,
    /// Longitude of the train, as the service wrote it.
    pub lon: JsonNumber,
    /// Remark on how the train keeps its timetable, such as
    /// `5 Minutes Late`, `On Time` or `NaN Minutes Early`.
    pub train_timely: String,
    /// The stations of the route, in the order in which the train calls at
    /// them.
    pub stations: Vec<TrainStation>,
    /// Direction in which the train is moving.
    pub heading: Heading,
    /// Code of the station of the latest event.
    pub event_code: String,
    /// Time zone of that station, where the service gives one.
    pub event_tz: Option<String>,
    /// Name of that station, where the service gives one.
    pub event_name: Option<String>,
    /// Code of the first station of the route.
    pub origin_code: String,
    /// Time zone of the first station.
    pub origin_tz: String,
    /// Name of the first station.
    pub origin_name: String,
    /// Code of the last station of the route.
    pub destination_code: String,
    /// Time zone of the last station.
    pub destination_tz: String,
    /// Name of the last station.
    pub destination_name: String,
    /// Where the train stands with respect to its journey.
    pub train_state: TrainState,
    /// Speed of the train in miles per hour, as the service wrote it.
    pub velocity: JsonNumber,
    /// A message on the state of the service, such as `SERVICE DISRUPTION`;
    /// often a single space.
    pub status_message: String,
    /// When the service first recorded the train.
    pub created_at: Timestamp,
    /// When the service last changed the record.
    pub updated_at: Timestamp,
    /// When the service last had a position for the train.
    pub last_value: Timestamp,
    /// Number of the record within the service.
    pub object_id: u32,
}

/// The mathematical value of a [`Train`].
pub ghost struct TrainView {
    pub route_name: Seq<char>,
    pub train_num: u32,
    pub train_id: Seq<char>,
    pub lat: JsonNumber,
    pub lon: JsonNumber,
    pub train_timely: Seq<char>,
    pub stations: Seq<TrainStationView>,
    pub heading: Heading,
    pub event_code: Seq<char>,
    pub event_tz: Option<Seq<char>>,
    pub event_name: Option<Seq<char>>,
    pub origin_code: Seq<char>,
    pub origin_tz: Seq<char>,
    pub origin_name: Seq<char>,
    pub destination_code: Seq<char>,
    pub destination_tz: Seq<char>,
    pub destination_name: Seq<char>,
    pub train_state: TrainState,
    pub velocity: JsonNumber,
    pub status_message: Seq<char>,
    pub created_at: Timestamp,
    pub updated_at: Timestamp,
    pub last_value: Timestamp,
    pub object_id: u32,
}

impl DeepView for Train {
    type V = TrainView;

    open spec fn deep_view(&self) -> TrainView {
        TrainView {
            route_name: self.route_name@,
            train_num: self.train_num,
            train_id: self.train_id@,
            lat: self.lat,
            lon: self.lon,
            train_timely: self.train_timely@,
            stations: self.stations.deep_view(),
            heading: self.heading,
            event_code: self.event_code@,
            event_tz: self.event_tz.deep_view(),
            event_name: self.event_name.deep_view(),
            origin_code: self.origin_code@,
            origin_tz: self.origin_tz@,
            origin_name: self.origin_name@,
            destination_code: self.destination_code@,
            destination_tz: self.destination_tz@,
            destination_name: self.destination_name@,
            train_state: self.train_state,
            velocity: self.velocity,
            status_message: self.status_message@,
            created_at: self.created_at,
            updated_at: self.updated_at,
            last_value: self.last_value,
            object_id: self.object_id,
        }
    }
}

impl View for Train {
    type V = TrainView;

    open spec fn view(&self) -> TrainView {
        self.deep_view()
    }
}

/// A station that the service knows.
#[derive(Debug, Clone)]
pub struct Station {
    /// Full name of the station; empty where the service gives none.
    pub name: String,
    /// Code of the station, such as `PHL`.
    pub code: String,
    /// Time zone of the station; empty where the service gives none.
    pub tz: String,
    /// Latitude of the station, as the service wrote it.
    pub lat: JsonNumber,
    /// Longitude of the station, as the service wrote it.
    pub lon: JsonNumber,
    /// First line of the address.
    pub address1: String,
    /// Second line of the address.
    pub address2: String,
    /// City of the station.
    pub city: String,
    /// State of the station, in two letters.
    pub state: String,
    /// Postal code of the station.
    pub zip: String,
    /// Identifiers of the trains that have left the station or are on their
    /// way to it.
    pub trains: Vec<String>,
}

/// The mathematical value of a [`Station`].
pub ghost struct StationView {
    pub name: Seq<char>,
    pub code: Seq<char>,
    pub tz: Seq<char>,
    pub lat: JsonNumber,
    pub lon: JsonNumber,
    pub address1: Seq<char>,
    pub address2: Seq<char>,
    pub city: Seq<char>,
    pub state: Seq<char>,
    pub zip: Seq<char>,
    pub trains: Seq<Seq<char>>,
}

impl DeepView for Station {
    type V = StationView;

    open spec fn deep_view(&self) -> StationView {
        StationView {
            name: self.name@,
            code: self.code@,
            tz: self.tz@,
            lat: self.lat,
            lon: self.lon,
            address1: self.address1@,
            address2: self.address2@,
            city: self.city@,
            state: self.state@,
            zip: self.zip@,
            trains: self.trains.deep_view(),
        }
    }
}

impl View for Station {
    type V = StationView;

    open spec fn view(&self) -> StationView {
        self.deep_view()
    }
}

} // verus!
