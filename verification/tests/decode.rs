use amtrak_api::train::{StationTimes, TrainTimes};
use amtrak_api::json::{Json, JsonNumber};
use amtrak_api::reader::parse;
use amtrak_api::responses::{Heading, Station, Train, TrainState, TrainStation, TrainStatus};
use amtrak_api::time::Timestamp;

fn doc(text: &str) -> Json {
    parse(text.as_bytes()).unwrap()
}

fn text(s: &str) -> Json {
    Json::Text(s.to_string())
}

fn at(seconds: i64) -> Timestamp {
    Timestamp { seconds, nanoseconds: 0, offset: 0 }
}

const STOP: &str = r#"{
    "name": "Harrisburg",
    "code": "HAR",
    "tz": "America/New_York",
    "bus": false,
    "schArr": "2023-08-29T23:56:00-04:00",
    "schDep": "2023-08-29T23:56:30-04:00",
    "arr": null,
    "arrCmnt": "NaN Minutes Early",
    "depCmnt": "On Time",
    "status": "Station"
}"#;

const TRAIN: &str = r#"{
    "routeName": "Keystone",
    "trainNum": 657,
    "trainID": "657-30",
    "lat": 40,
    "lon": -76.5,
    "trainTimely": "On Time",
    "stations": [],
    "heading": "W",
    "eventCode": "MID",
    "eventTZ": "America/New_York",
    "eventName": null,
    "origCode": "NYP",
    "originTZ": "America/New_York",
    "origName": "New York Penn",
    "destCode": "HAR",
    "destTZ": "America/Chicago",
    "destName": "Harrisburg",
    "trainState": "Active",
    "velocity": 51.25,
    "statusMsg": " ",
    "createdAt": "2023-08-29T23:39:50-04:00",
    "updatedAt": "2023-08-29T23:39:51-04:00",
    "lastValTS": "2023-08-29T23:39:34-04:00",
    "objectID": 847
}"#;

#[test]
fn heading_is_decoded_from_its_name() {
    assert_eq!(Heading::from_json(&text("N")), Some(Heading::N));
    assert_eq!(Heading::from_json(&text("NE")), Some(Heading::NE));
    assert_eq!(Heading::from_json(&text("E")), Some(Heading::E));
    assert_eq!(Heading::from_json(&text("SE")), Some(Heading::SE));
    assert_eq!(Heading::from_json(&text("S")), Some(Heading::S));
    assert_eq!(Heading::from_json(&text("SW")), Some(Heading::SW));
    assert_eq!(Heading::from_json(&text("W")), Some(Heading::W));
    assert_eq!(Heading::from_json(&text("NW")), Some(Heading::NW));
    assert_eq!(Heading::from_json(&text("n")), None);
    assert_eq!(Heading::from_json(&text("North")), None);
    assert_eq!(Heading::from_json(&text("")), None);
    assert_eq!(Heading::from_json(&Json::Null), None);
    assert_eq!(Heading::from_name("SW"), Some(Heading::SW));
    assert_eq!(Heading::from_name("WS"), None);
}

#[test]
fn heading_is_decoded_from_an_object_of_one_null_member() {
    assert_eq!(Heading::from_json(&doc(r#"{"SE": null}"#)), Some(Heading::SE));
    assert_eq!(Heading::from_json(&doc(r#"{"SE": 1}"#)), None);
    assert_eq!(Heading::from_json(&doc(r#"{"SE": null, "N": null}"#)), None);
    assert_eq!(Heading::from_json(&doc(r#"{"Up": null}"#)), None);
}

#[test]
fn train_status_is_decoded_from_its_name() {
    assert_eq!(TrainStatus::from_json(&text("Enroute")), Some(TrainStatus::Enroute));
    assert_eq!(TrainStatus::from_json(&text("Station")), Some(TrainStatus::Station));
    assert_eq!(TrainStatus::from_json(&text("Departed")), Some(TrainStatus::Departed));
    assert_eq!(TrainStatus::from_json(&text("Unknown")), Some(TrainStatus::Unknown));
    assert_eq!(TrainStatus::from_json(&text("departed")), None);
    assert_eq!(TrainStatus::from_json(&Json::Bool(true)), None);
    assert_eq!(TrainStatus::from_name("Unknown"), Some(TrainStatus::Unknown));
    assert_eq!(TrainStatus::from_name("Active"), None);
}

#[test]
fn train_state_is_decoded_from_its_name() {
    assert_eq!(TrainState::from_json(&text("Predeparture")), Some(TrainState::Predeparture));
    assert_eq!(TrainState::from_json(&text("Active")), Some(TrainState::Active));
    assert_eq!(TrainState::from_json(&text("Completed")), Some(TrainState::Completed));
    assert_eq!(TrainState::from_json(&text("Enroute")), None);
    assert_eq!(TrainState::from_json(&Json::Array(Vec::new())), None);
    assert_eq!(TrainState::from_name("Completed"), Some(TrainState::Completed));
    assert_eq!(TrainState::from_name(""), None);
}

#[test]
fn station_takes_each_member_into_its_field() {
    let station = Station::from_json(&doc(
        r#"{"name": "Philadelphia 30th Street", "code": "PHL", "tz": "America/New_York",
            "lat": 39.955, "lon": -75, "address1": "2955 Market Street", "address2": "x",
            "city": "Philadelphia", "state": "PA", "zip": "19104",
            "trains": ["657-30", "612-5"], "extra": {"passed": "over"}}"#,
    ))
    .unwrap();
    assert_eq!(station.name, "Philadelphia 30th Street");
    assert_eq!(station.code, "PHL");
    assert_eq!(station.tz, "America/New_York");
    assert_eq!(station.lat, JsonNumber::Real(39.955f64.to_bits()));
    assert_eq!(station.lon, JsonNumber::Negative(-75));
    assert_eq!(station.address1, "2955 Market Street");
    assert_eq!(station.address2, "x");
    assert_eq!(station.city, "Philadelphia");
    assert_eq!(station.state, "PA");
    assert_eq!(station.zip, "19104");
    assert_eq!(station.trains, vec!["657-30".to_string(), "612-5".to_string()]);
}

#[test]
fn station_without_name_and_time_zone_has_them_empty() {
    let station = Station::from_json(&doc(
        r#"{"code": "PHL", "lat": 1, "lon": 2, "address1": "", "address2": "",
            "city": "", "state": "", "zip": "", "trains": []}"#,
    ))
    .unwrap();
    assert_eq!(station.name, "");
    assert_eq!(station.tz, "");
    assert_eq!(station.code, "PHL");
    assert_eq!(station.lat, JsonNumber::Unsigned(1));
}

#[test]
fn station_needs_every_other_member() {
    let members = [
        r#""code": "PHL""#,
        r#""lat": 1"#,
        r#""lon": 2"#,
        r#""address1": "a""#,
        r#""address2": "b""#,
        r#""city": "c""#,
        r#""state": "d""#,
        r#""zip": "e""#,
        r#""trains": []"#,
    ];
    let whole = format!("{{{}}}", members.join(", "));
    assert!(Station::from_json(&doc(&whole)).is_some());
    for left_out in 0..members.len() {
        let rest: Vec<&str> = members
            .iter()
            .enumerate()
            .filter(|(i, _)| *i != left_out)
            .map(|(_, m)| *m)
            .collect();
        let partial = format!("{{{}}}", rest.join(", "));
        assert!(Station::from_json(&doc(&partial)).is_none(), "without {}", members[left_out]);
    }
}

#[test]
fn station_members_must_be_of_their_kind() {
    let good = r#"{"name": "n", "code": "PHL", "tz": "t", "lat": 1, "lon": 2, "address1": "a",
        "address2": "b", "city": "c", "state": "d", "zip": "e", "trains": []}"#;
    assert!(Station::from_json(&doc(good)).is_some());
    let wrong = [
        (r#""name": "n""#, r#""name": null"#),
        (r#""code": "PHL""#, r#""code": 5"#),
        (r#""tz": "t""#, r#""tz": null"#),
        (r#""lat": 1"#, r#""lat": "1""#),
        (r#""lon": 2"#, r#""lon": null"#),
        (r#""zip": "e""#, r#""zip": 19104"#),
        (r#""trains": []"#, r#""trains": [1]"#),
        (r#""trains": []"#, r#""trains": "657-30""#),
    ];
    for (from, to) in wrong {
        let changed = good.replace(from, to);
        assert!(changed != good);
        assert!(Station::from_json(&doc(&changed)).is_none(), "with {}", to);
    }
}

#[test]
fn station_is_also_read_from_an_array_of_its_fields() {
    let station = Station::from_json(&doc(
        r#"["Aberdeen", "ABE", "America/New_York", 39.5, -76, "18 East Bel Air Avenue", " ",
            "Aberdeen", "MD", "21001", ["91-4"]]"#,
    ))
    .unwrap();
    assert_eq!(station.name, "Aberdeen");
    assert_eq!(station.code, "ABE");
    assert_eq!(station.tz, "America/New_York");
    assert_eq!(station.lat, JsonNumber::Real(39.5f64.to_bits()));
    assert_eq!(station.lon, JsonNumber::Negative(-76));
    assert_eq!(station.address1, "18 East Bel Air Avenue");
    assert_eq!(station.address2, " ");
    assert_eq!(station.city, "Aberdeen");
    assert_eq!(station.state, "MD");
    assert_eq!(station.zip, "21001");
    assert_eq!(station.trains, vec!["91-4".to_string()]);
    // one element too few, one too many
    assert!(Station::from_json(&doc(
        r#"["Aberdeen", "ABE", "America/New_York", 39.5, -76, "a", "b", "c", "MD", "21001"]"#
    ))
    .is_none());
    assert!(Station::from_json(&doc(
        r#"["Aberdeen", "ABE", "America/New_York", 39.5, -76, "a", "b", "c", "MD", "21001",
            [], null]"#
    ))
    .is_none());
}

#[test]
fn station_is_no_scalar() {
    assert!(Station::from_json(&Json::Null).is_none());
    assert!(Station::from_json(&text("PHL")).is_none());
    assert!(Station::from_json(&Json::Number(JsonNumber::Unsigned(1))).is_none());
}

#[test]
fn station_with_a_member_given_twice_is_refused() {
    let mut members = match doc(
        r#"{"code": "PHL", "lat": 1, "lon": 2, "address1": "", "address2": "", "city": "",
            "state": "", "zip": "", "trains": []}"#,
    ) {
        Json::Object(members) => members,
        other => panic!("unexpected {:?}", other),
    };
    members.push(("code".to_string(), text("NYP")));
    assert!(Station::from_json(&Json::Object(members)).is_none());
}

#[test]
fn train_station_takes_each_member_into_its_field() {
    let stop = TrainStation::from_json(&doc(STOP)).unwrap();
    assert_eq!(stop.name, "Harrisburg");
    assert_eq!(stop.code, "HAR");
    assert_eq!(stop.tz, "America/New_York");
    assert!(!stop.bus);
    assert_eq!(
        stop.schedule_arrival,
        Timestamp { seconds: 1693367760, nanoseconds: 0, offset: -14400 }
    );
    assert_eq!(
        stop.schedule_departure,
        Timestamp { seconds: 1693367790, nanoseconds: 0, offset: -14400 }
    );
    assert_eq!(stop.arrival, None);
    assert_eq!(stop.departure, None);
    assert_eq!(stop.arrival_comment, "NaN Minutes Early");
    assert_eq!(stop.departure_comment, "On Time");
    assert_eq!(stop.status, TrainStatus::Station);
}

#[test]
fn train_station_keeps_the_actual_times_where_they_are_given() {
    let with_times = STOP.replace(
        r#""arr": null,"#,
        r#""arr": "2023-08-29T23:57:00-04:00", "dep": "2023-08-30T00:00:00-04:00","#,
    );
    let stop = TrainStation::from_json(&doc(&with_times)).unwrap();
    assert_eq!(
        stop.arrival,
        Some(Timestamp { seconds: 1693367820, nanoseconds: 0, offset: -14400 })
    );
    assert_eq!(
        stop.departure,
        Some(Timestamp { seconds: 1693368000, nanoseconds: 0, offset: -14400 })
    );
}

#[test]
fn train_station_must_have_instants_that_read() {
    for (from, to) in [
        (r#""schArr": "2023-08-29T23:56:00-04:00""#, r#""schArr": "soon""#),
        (r#""schArr": "2023-08-29T23:56:00-04:00""#, r#""schArr": null"#),
        (r#""schArr": "2023-08-29T23:56:00-04:00""#, r#""schArr": 1693367760"#),
        (r#""schDep": "2023-08-29T23:56:30-04:00""#, r#""schDep": "2023-08-29""#),
        (r#""arr": null"#, r#""arr": "later""#),
        (r#""arr": null"#, r#""arr": null, "dep": false"#),
        (r#""status": "Station""#, r#""status": "Stationary""#),
        (r#""bus": false"#, r#""bus": "no""#),
    ] {
        let changed = STOP.replace(from, to);
        assert!(changed != STOP);
        assert!(TrainStation::from_json(&doc(&changed)).is_none(), "with {}", to);
    }
}

#[test]
fn train_station_is_assembled_from_the_readings_it_is_given() {
    let given = StationTimes {
        schedule_arrival: Some(at(10)),
        schedule_departure: Some(at(20)),
        arrival: Some(at(30)),
        departure: Some(at(40)),
    };
    let stop = TrainStation::assemble(&doc(STOP), given).unwrap();
    assert_eq!(stop.schedule_arrival, at(10));
    assert_eq!(stop.schedule_departure, at(20));
    // `arr` is null and `dep` is missing: their readings are not looked at
    assert_eq!(stop.arrival, None);
    assert_eq!(stop.departure, None);
    assert_eq!(stop.name, "Harrisburg");

    let unread = StationTimes { schedule_departure: None, ..given };
    assert!(TrainStation::assemble(&doc(STOP), unread).is_none());

    let with_dep = STOP.replace(r#""arr": null,"#, r#""dep": "whatever","#);
    let stop = TrainStation::assemble(&doc(&with_dep), given).unwrap();
    assert_eq!(stop.arrival, None);
    assert_eq!(stop.departure, Some(at(40)));
    let unread = StationTimes { departure: None, ..given };
    assert!(TrainStation::assemble(&doc(&with_dep), unread).is_none());
}

#[test]
fn train_station_read_times_reads_the_four_instants() {
    let times = TrainStation::read_times(&doc(STOP));
    assert_eq!(
        times,
        StationTimes {
            schedule_arrival: Some(Timestamp {
                seconds: 1693367760,
                nanoseconds: 0,
                offset: -14400
            }),
            schedule_departure: Some(Timestamp {
                seconds: 1693367790,
                nanoseconds: 0,
                offset: -14400
            }),
            arrival: None,
            departure: None,
        }
    );
}

#[test]
fn train_station_is_also_read_from_an_array_of_its_fields() {
    let stop = TrainStation::from_json(&doc(
        r#"["Trenton", "TRE", "America/New_York", true, "1970-01-01T00:00:10Z",
            "1970-01-01T00:00:20Z", "1970-01-01T00:00:30Z", null, "a", "d", "Enroute"]"#,
    ))
    .unwrap();
    assert_eq!(stop.name, "Trenton");
    assert!(stop.bus);
    assert_eq!(stop.schedule_arrival, at(10));
    assert_eq!(stop.schedule_departure, at(20));
    assert_eq!(stop.arrival, Some(at(30)));
    assert_eq!(stop.departure, None);
    assert_eq!(stop.arrival_comment, "a");
    assert_eq!(stop.departure_comment, "d");
    assert_eq!(stop.status, TrainStatus::Enroute);
}

#[test]
fn train_station_list_is_an_array_of_stations() {
    let list = format!("[{}, {}]", STOP, STOP.replace("Harrisburg", "Middletown"));
    let stops = TrainStation::list_from_json(&doc(&list)).unwrap();
    assert_eq!(stops.len(), 2);
    assert_eq!(stops[0].name, "Harrisburg");
    assert_eq!(stops[1].name, "Middletown");
    assert_eq!(TrainStation::list_from_json(&doc("[]")).unwrap().len(), 0);
    assert!(TrainStation::list_from_json(&doc(&format!("[{}, null]", STOP))).is_none());
    // a single station is a record, not a list of one
    assert!(TrainStation::list_from_json(&doc(STOP)).is_none());
    assert!(TrainStation::list_from_json(&Json::Null).is_none());
}

#[test]
fn train_takes_each_member_into_its_field() {
    let with_stop = TRAIN.replace(r#""stations": []"#, &format!(r#""stations": [{}]"#, STOP));
    let train = Train::from_json(&doc(&with_stop)).unwrap();
    assert_eq!(train.route_name, "Keystone");
    assert_eq!(train.train_num, 657);
    assert_eq!(train.train_id, "657-30");
    assert_eq!(train.lat, JsonNumber::Unsigned(40));
    assert_eq!(train.lon, JsonNumber::Real((-76.5f64).to_bits()));
    assert_eq!(train.train_timely, "On Time");
    assert_eq!(train.stations.len(), 1);
    assert_eq!(train.stations[0].code, "HAR");
    assert_eq!(train.heading, Heading::W);
    assert_eq!(train.event_code, "MID");
    assert_eq!(train.event_tz, Some("America/New_York".to_string()));
    assert_eq!(train.event_name, None);
    assert_eq!(train.origin_code, "NYP");
    assert_eq!(train.origin_tz, "America/New_York");
    assert_eq!(train.origin_name, "New York Penn");
    assert_eq!(train.destination_code, "HAR");
    assert_eq!(train.destination_tz, "America/Chicago");
    assert_eq!(train.destination_name, "Harrisburg");
    assert_eq!(train.train_state, TrainState::Active);
    assert_eq!(train.velocity, JsonNumber::Real(51.25f64.to_bits()));
    assert_eq!(train.status_message, " ");
    assert_eq!(
        train.created_at,
        Timestamp { seconds: 1693366790, nanoseconds: 0, offset: -14400 }
    );
    assert_eq!(
        train.updated_at,
        Timestamp { seconds: 1693366791, nanoseconds: 0, offset: -14400 }
    );
    assert_eq!(
        train.last_value,
        Timestamp { seconds: 1693366774, nanoseconds: 0, offset: -14400 }
    );
    assert_eq!(train.object_id, 847);
}

#[test]
fn train_may_leave_out_the_event_members() {
    let without = TRAIN
        .replace(r#""eventTZ": "America/New_York","#, "")
        .replace(r#""eventName": null,"#, "");
    let train = Train::from_json(&doc(&without)).unwrap();
    assert_eq!(train.event_tz, None);
    assert_eq!(train.event_name, None);
    let named = TRAIN.replace(r#""eventName": null"#, r#""eventName": "Middletown""#);
    let train = Train::from_json(&doc(&named)).unwrap();
    assert_eq!(train.event_name, Some("Middletown".to_string()));
}

#[test]
fn train_numbers_must_fit_in_32_bits() {
    let largest = TRAIN.replace(r#""trainNum": 657"#, r#""trainNum": 4294967295"#);
    assert_eq!(Train::from_json(&doc(&largest)).unwrap().train_num, u32::MAX);
    for bad in ["4294967296", "-1", "657.0", "6.57e2", "\"657\"", "null"] {
        let changed = TRAIN.replace(r#""trainNum": 657"#, &format!(r#""trainNum": {}"#, bad));
        assert!(Train::from_json(&doc(&changed)).is_none(), "with {}", bad);
        let changed = TRAIN.replace(r#""objectID": 847"#, &format!(r#""objectID": {}"#, bad));
        assert!(Train::from_json(&doc(&changed)).is_none(), "with {}", bad);
    }
}

#[test]
fn train_needs_its_members_in_their_kind() {
    for (from, to) in [
        (r#""routeName": "Keystone","#, ""),
        (r#""stations": [],"#, ""),
        (r#""stations": []"#, r#""stations": {}"#),
        (r#""stations": []"#, r#""stations": [1]"#),
        (r#""heading": "W""#, r#""heading": "West""#),
        (r#""eventCode": "MID""#, r#""eventCode": null"#),
        (r#""eventTZ": "America/New_York""#, r#""eventTZ": 5"#),
        (r#""trainState": "Active""#, r#""trainState": "Departed""#),
        (r#""velocity": 51.25"#, r#""velocity": "fast""#),
        (r#""lat": 40"#, r#""lat": null"#),
        (r#""createdAt": "2023-08-29T23:39:50-04:00""#, r#""createdAt": "yesterday""#),
        (r#""updatedAt": "2023-08-29T23:39:51-04:00","#, ""),
        (r#""lastValTS": "2023-08-29T23:39:34-04:00""#, r#""lastValTS": null"#),
    ] {
        let changed = TRAIN.replace(from, to);
        assert!(changed != TRAIN);
        assert!(Train::from_json(&doc(&changed)).is_none(), "with {:?} for {:?}", to, from);
    }
}

#[test]
fn train_is_assembled_from_what_it_is_given() {
    let times = TrainTimes {
        created_at: Some(at(1)),
        updated_at: Some(at(2)),
        last_value: Some(at(3)),
    };
    let stop = TrainStation::from_json(&doc(STOP)).unwrap();
    let train = Train::assemble(&doc(TRAIN), Some(vec![stop]), times).unwrap();
    assert_eq!(train.created_at, at(1));
    assert_eq!(train.updated_at, at(2));
    assert_eq!(train.last_value, at(3));
    assert_eq!(train.stations.len(), 1);
    assert_eq!(train.stations[0].name, "Harrisburg");
    assert_eq!(train.train_num, 657);

    assert!(Train::assemble(&doc(TRAIN), None, times).is_none());
    let unread = TrainTimes { last_value: None, ..times };
    assert!(Train::assemble(&doc(TRAIN), Some(Vec::new()), unread).is_none());
    let without = TRAIN.replace(r#""stations": [],"#, "");
    assert!(Train::assemble(&doc(&without), Some(Vec::new()), times).is_none());
}

#[test]
fn train_read_times_and_route_read_the_document() {
    let times = Train::read_times(&doc(TRAIN));
    assert_eq!(
        times,
        TrainTimes {
            created_at: Some(Timestamp { seconds: 1693366790, nanoseconds: 0, offset: -14400 }),
            updated_at: Some(Timestamp { seconds: 1693366791, nanoseconds: 0, offset: -14400 }),
            last_value: Some(Timestamp { seconds: 1693366774, nanoseconds: 0, offset: -14400 }),
        }
    );
    assert_eq!(Train::read_route(&doc(TRAIN)).unwrap().len(), 0);
    assert!(Train::read_route(&doc("{}")).is_none());
    assert_eq!(
        Train::read_times(&doc("{}")),
        TrainTimes { created_at: None, updated_at: None, last_value: None }
    );
}

#[test]
fn train_in_an_array_must_give_the_event_members() {
    let positional = r#"["Keystone", 657, "657-30", 40, -76.5, "On Time", [], "W", "MID",
        null, "Middletown", "NYP", "America/New_York", "New York Penn", "HAR",
        "America/New_York", "Harrisburg", "Active", 51.25, " ", "1970-01-01T00:00:01Z",
        "1970-01-01T00:00:02Z", "1970-01-01T00:00:03Z", 847]"#;
    let train = Train::from_json(&doc(positional)).unwrap();
    assert_eq!(train.route_name, "Keystone");
    assert_eq!(train.event_tz, None);
    assert_eq!(train.event_name, Some("Middletown".to_string()));
    assert_eq!(train.created_at, at(1));
    assert_eq!(train.updated_at, at(2));
    assert_eq!(train.last_value, at(3));
    assert_eq!(train.object_id, 847);
    // nine elements: the array ends before `eventTZ`
    let short = r#"["Keystone", 657, "657-30", 40, -76.5, "On Time", [], "W", "MID"]"#;
    assert!(Train::from_json(&doc(short)).is_none());
    let long = positional.replace("847]", "847, null]");
    assert!(Train::from_json(&doc(&long)).is_none());
}

#[test]
fn train_list_is_an_array_of_trains() {
    let list = format!("[{}, {}]", TRAIN, TRAIN.replace("657-30", "657-31"));
    let trains = Train::list_from_json(&doc(&list)).unwrap();
    assert_eq!(trains.len(), 2);
    assert_eq!(trains[0].train_id, "657-30");
    assert_eq!(trains[1].train_id, "657-31");
    assert_eq!(Train::list_from_json(&doc("[]")).unwrap().len(), 0);
    assert!(Train::list_from_json(&doc(&format!("[{}, 5]", TRAIN))).is_none());
    assert!(Train::list_from_json(&doc(TRAIN)).is_none());
}
