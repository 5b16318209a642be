//! The names by which the service writes headings, statuses and states.

use vstd::prelude::*;
use crate::json::{same_text, Json, JsonView};
use crate::responses::{Heading, TrainState, TrainStatus};

verus! {

/// The heading that a name stands for.
pub open spec fn heading_named(name: Seq<char>) -> Option<Heading> {
    if name == "N"@ {
        Some(Heading::N)
    } else if name == "NE"@ {
        Some(Heading::NE)
    } else if name == "E"@ {
        Some(Heading::E)
    } else if name == "SE"@ {
        Some(Heading::SE)
    } else if name == "S"@ {
        Some(Heading::S)
    } else if name == "SW"@ {
        Some(Heading::SW)
    } else if name == "W"@ {
        Some(Heading::W)
    } else if name == "NW"@ {
        Some(Heading::NW)
    } else {
        None
    }
}

/// The heading that a document gives.
pub open spec fn heading_of(doc: JsonView) -> Option<Heading> {
    match doc.variant() {
        Some(name) => heading_named(name),
        None => None,
    }
}

/// The status that a name stands for.
pub open spec fn train_status_named(name: Seq<char>) -> Option<TrainStatus> {
    if name == "Enroute"@ {
        Some(TrainStatus::Enroute)
    } else if name == "Station"@ {
        Some(TrainStatus::Station)
    } else if name == "Departed"@ {
        Some(TrainStatus::Departed)
    } else if name == "Unknown"@ {
        Some(TrainStatus::Unknown)
    } else {
        None
    }
}

/// The status that a document gives.
pub open spec fn train_status_of(doc: JsonView) -> Option<TrainStatus> {
    match doc.variant() {
        Some(name) => train_status_named(name),
        None => None,
    }
}

/// The state that a name stands for.
pub open spec fn train_state_named(name: Seq<char>) -> Option<TrainState> {
    if name == "Predeparture"@ {
        Some(TrainState::Predeparture)
    } else if name == "Active"@ {
        Some(TrainState::Active)
    } else if name == "Completed"@ {
        Some(TrainState::Completed)
    } else {
        None
    }
}

/// The state that a document gives.
pub open spec fn train_state_of(doc: JsonView) -> Option<TrainState> {
    match doc.variant() {
        Some(name) => train_state_named(name),
        None => None,
    }
}

impl Heading {
    /// The heading called `name`.
    pub fn from_name(name: &str) -> (r: Option<Heading>)
        ensures
            r == heading_named(name@),
    {
        if same_text(name, "N") {
            Some(Heading::N)
        } else if same_text(name, "NE") {
            Some(Heading::NE)
        } else if same_text(name, "E") {
            Some(Heading::E)
        } else if same_text(name, "SE") {
            Some(Heading::SE)
        } else if same_text(name, "S") {
            Some(Heading::S)
        } else if same_text(name, "SW") {
            Some(Heading::SW)
        } else if same_text(name, "W") {
            Some(Heading::W)
        } else if same_text(name, "NW") {
            Some(Heading::NW)
        } else {
            None
        }
    }

    /// Decodes a heading.
    pub fn from_json(doc: &Json) -> (r: Option<Heading>)
        ensures
            r == heading_of(doc@),
    {
        match doc.variant() {
            Some(name) => Heading::from_name(name.as_str()),
            None => None,
        }
    }
}

impl TrainStatus {
    /// The status called `name`.
    pub fn from_name(name: &str) -> (r: Option<TrainStatus>)
        ensures
            r == train_status_named(name@),
    {
        if same_text(name, "Enroute") {
            Some(TrainStatus::Enroute)
        } else if same_text(name, "Station") {
            Some(TrainStatus::Station)
        } else if same_text(name, "Departed") {
            Some(TrainStatus::Departed)
        } else if same_text(name, "Unknown") {
            Some(TrainStatus::Unknown)
        } else {
            None
        }
    }

    /// Decodes a status.
    pub fn from_json(doc: &Json) -> (r: Option<TrainStatus>)
        ensures
            r == train_status_of(doc@),
    {
        match doc.variant() {
            Some(name) => TrainStatus::from_name(name.as_str()),
            None => None,
        }
    }
}

impl TrainState {
    /// The state called `name`.
    pub fn from_name(name: &str) -> (r: Option<TrainState>)
        ensures
            r == train_state_named(name@),
    {
        if same_text(name, "Predeparture") {
            Some(TrainState::Predeparture)
        } else if same_text(name, "Active") {
            Some(TrainState::Active)
        } else if same_text(name, "Completed") {
            Some(TrainState::Completed)
        } else {
            None
        }
    }

    /// Decodes a state.
    pub fn from_json(doc: &Json) -> (r: Option<TrainState>)
        ensures
            r == train_state_of(doc@),
    {
        match doc.variant() {
            Some(name) => TrainState::from_name(name.as_str()),
            None => None,
        }
    }
}

} // verus!
