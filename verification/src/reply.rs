//! Decoding of whole replies: a map from keys to records, or the empty
//! array that the service sends when it has nothing to list.

use vstd::prelude::*;
use crate::errors::ClientError;
use crate::json::{lemma_array_view, lemma_object_view, members_view, Json, JsonView};
use crate::reader::{decode_fault, parse, parsed_document};
use crate::responses::{
    Station, StationResponse, StationView, Train, TrainResponse, TrainView,
};
use crate::station::station_of;
use crate::text_map::TextMap;
use crate::train::trains_of;

verus! {

/// The map that the members of an object stand for, where `decode` says
/// what a member's value stands for: each member binds its name to what its
/// value stands for, a later member replacing an earlier one of the same
/// name. There is no map where one of the values stands for nothing.
pub open spec fn map_of<T>(
    members: Seq<(Seq<char>, JsonView)>,
    decode: spec_fn(JsonView) -> Option<T>,
) -> Option<Map<Seq<char>, T>>
    decreases members.len(),
{
    if members.len() == 0 {
        Some(Map::empty())
    } else {
        match (map_of(members.drop_last(), decode), decode(members.last().1)) {
            (Some(map), Some(value)) => Some(map.insert(members.last().0, value)),
            _ => None,
        }
    }
}

/// The map that a reply stands for: that of its members where it is an
/// object, the empty map where it is an empty array, which the service
/// sends when it has nothing to list. No other document is a reply.
pub open spec fn response_of<T>(doc: JsonView, decode: spec_fn(JsonView) -> Option<T>) -> Option<
    Map<Seq<char>, T>,
> {
    match doc {
        JsonView::Object(members) => map_of(members, decode),
        JsonView::Array(items) => if items.len() == 0 {
            Some(Map::empty())
        } else {
            None
        },
        _ => None,
    }
}

/// The trains that a reply lists under each train number.
pub open spec fn train_response_of(doc: JsonView) -> Option<Map<Seq<char>, Seq<TrainView>>> {
    response_of(doc, |value: JsonView| trains_of(value))
}

/// The station that a reply gives for each station code.
pub open spec fn station_response_of(doc: JsonView) -> Option<Map<Seq<char>, StationView>> {
    response_of(doc, |value: JsonView| station_of(value))
}

/// Members that stand for no map do not come to stand for one when more
/// members follow them.
pub proof fn lemma_map_of_prefix<T>(
    members: Seq<(Seq<char>, JsonView)>,
    decode: spec_fn(JsonView) -> Option<T>,
    n: int,
)
    requires
        0 <= n <= members.len(),
        map_of(members.take(n), decode) is None,
    ensures
        map_of(members, decode) is None,
    decreases members.len() - n,
{
    if n < members.len() {
        assert(members.take(n + 1).drop_last() =~= members.take(n));
        lemma_map_of_prefix(members, decode, n + 1);
    } else {
        assert(members.take(n) =~= members);
    }
}

/// Whether the member at `at` is the last of its name among `members`.
pub open spec fn is_last_of_name(members: Seq<(Seq<char>, JsonView)>, at: int) -> bool {
    &&& 0 <= at < members.len()
    &&& forall|j: int| at < j < members.len() ==> (#[trigger] members[j]).0 != members[at].0
}

/// The members of an object stand for a map exactly if each of their
/// values stands for something. The keys of the map are then the names of
/// the members, and each name is bound to what the value of the last member
/// of that name stands for.
pub proof fn lemma_map_of_members<T>(
    members: Seq<(Seq<char>, JsonView)>,
    decode: spec_fn(JsonView) -> Option<T>,
)
    ensures
        map_of(members, decode) is Some <==> (forall|i: int|
            0 <= i < members.len() ==> decode((#[trigger] members[i]).1) is Some),
        map_of(members, decode) is Some ==> (forall|name: Seq<char>| #[trigger]
            map_of(members, decode)->0.contains_key(name) <==> (exists|i: int|
                0 <= i < members.len() && (#[trigger] members[i]).0 == name)),
        map_of(members, decode) is Some ==> (forall|i: int| #[trigger]
            is_last_of_name(members, i) ==> map_of(members, decode)->0[members[i].0] == decode(
                members[i].1,
            )->0),
    decreases members.len(),
{
    if members.len() > 0 {
        let front = members.drop_last();
        let n = members.len() - 1;
        lemma_map_of_members(front, decode);
        assert(members.last() == members[n]);
        assert forall|i: int| 0 <= i < front.len() implies #[trigger] front[i] == members[i] by {}
        if map_of(members, decode) is Some {
            assert forall|i: int| 0 <= i < members.len() implies decode(
                (#[trigger] members[i]).1,
            ) is Some by {
                if i < n {
                    assert(front[i] == members[i]);
                }
            }
            let map = map_of(members, decode)->0;
            let before = map_of(front, decode)->0;
            assert forall|name: Seq<char>| #[trigger]
                map.contains_key(name) <==> exists|i: int|
                    0 <= i < members.len() && (#[trigger] members[i]).0 == name by {
                if map.contains_key(name) {
                    if name == members[n].0 {
                        assert(0 <= n < members.len() && members[n].0 == name);
                    } else {
                        assert(before.contains_key(name));
                        let i = choose|i: int| 0 <= i < front.len() && (#[trigger] front[i]).0 == name;
                        assert(front[i] == members[i]);
                        assert(0 <= i < members.len() && members[i].0 == name);
                    }
                }
                if exists|i: int| 0 <= i < members.len() && (#[trigger] members[i]).0 == name {
                    let i = choose|i: int| 0 <= i < members.len() && (#[trigger] members[i]).0 == name;
                    if i < n {
                        assert(front[i] == members[i]);
                        assert(0 <= i < front.len() && front[i].0 == name);
                        assert(before.contains_key(name));
                    }
                }
            }
            assert forall|i: int| #[trigger] is_last_of_name(members, i) implies map[members[i].0]
                == decode(members[i].1)->0 by {
                if i < n {
                    assert(members[n].0 != members[i].0);
                    assert(front[i] == members[i]);
                    assert forall|j: int| i < j < front.len() implies (#[trigger] front[j]).0
                        != front[i].0 by {
                        assert(front[j] == members[j]);
                    }
                    assert(is_last_of_name(front, i));
                }
            }
        }
        if forall|i: int| 0 <= i < members.len() ==> decode((#[trigger] members[i]).1) is Some {
            assert forall|i: int| 0 <= i < front.len() implies decode((#[trigger] front[i]).1) is Some by {
                assert(front[i] == members[i]);
            }
            assert(decode(members[n].1) is Some);
        }
    }
}

/// The empty array and the empty object are both the reply that lists
/// nothing, whatever the endpoint.
pub proof fn lemma_empty_replies<T>(decode: spec_fn(JsonView) -> Option<T>)
    ensures
        response_of(JsonView::Array(Seq::empty()), decode) == Some(Map::<Seq<char>, T>::empty()),
        response_of(JsonView::Object(Seq::empty()), decode) == Some(Map::<Seq<char>, T>::empty()),
{
}

impl TrainResponse {
    /// Decodes a reply that lists trains.
    pub fn from_json(doc: &Json) -> (r: Option<TrainResponse>)
        ensures
            r.deep_view() == train_response_of(doc@),
    {
        match doc {
            Json::Object(members) => {
                proof {
                    lemma_object_view(*members);
                }
                let ghost all = members_view(members@);
                let ghost decode = |value: JsonView| trains_of(value);
                let mut map: TextMap<Vec<Train>> = TextMap::new();
                let mut i: usize = 0;
                while i < members.len()
                    invariant
                        i <= members.len(),
                        all == members_view(members@),
                        decode == |value: JsonView| trains_of(value),
                        doc@ == JsonView::Object(all),
                        map_of(all.take(i as int), decode) == Some(map.deep_view()),
                    decreases members.len() - i,
                {
                    proof {
                        assert(all.take(i + 1).drop_last() =~= all.take(i as int));
                        assert(all.take(i + 1).last() == all[i as int]);
                    }
                    match Train::list_from_json(&members[i].1) {
                        Some(trains) => {
                            map = map.with_entry(members[i].0.clone(), trains);
                        },
                        None => {
                            proof {
                                lemma_map_of_prefix(all, decode, i + 1);
                            }
                            return None;
                        },
                    }
                    i += 1;
                }
                assert(all.take(i as int) =~= all);
                Some(TrainResponse(map))
            },
            Json::Array(items) => {
                proof {
                    lemma_array_view(*items);
                }
                if items.len() == 0 {
                    Some(TrainResponse(TextMap::new()))
                } else {
                    None
                }
            },
            _ => None,
        }
    }

    /// Decodes the body of a reply that lists trains.
    pub fn from_slice(body: &[u8]) -> (r: Result<TrainResponse, ClientError>)
        ensures
            match r {
                Ok(reply) => parsed_document(body@) is Some && train_response_of(
                    parsed_document(body@)->0,
                ) == Some(reply@),
                Err(error) => error is DeserializeFailed && (parsed_document(body@) is None
                    || train_response_of(parsed_document(body@)->0) is None),
            },
    {
        match parse(body) {
            Ok(doc) => match TrainResponse::from_json(&doc) {
                Some(reply) => Ok(reply),
                None => Err(
                    ClientError::DeserializeFailed(
                        decode_fault("expected a map of train lists or an empty array"),
                    ),
                ),
            },
            Err(error) => Err(ClientError::DeserializeFailed(error)),
        }
    }
}

impl StationResponse {
    /// Decodes a reply that gives stations.
    pub fn from_json(doc: &Json) -> (r: Option<StationResponse>)
        ensures
            r.deep_view() == station_response_of(doc@),
    {
        match doc {
            Json::Object(members) => {
                proof {
                    lemma_object_view(*members);
                }
                let ghost all = members_view(members@);
                let ghost decode = |value: JsonView| station_of(value);
                let mut map: TextMap<Station> = TextMap::new();
                let mut i: usize = 0;
                while i < members.len()
                    invariant
                        i <= members.len(),
                        all == members_view(members@),
                        decode == |value: JsonView| station_of(value),
                        doc@ == JsonView::Object(all),
                        map_of(all.take(i as int), decode) == Some(map.deep_view()),
                    decreases members.len() - i,
                {
                    proof {
                        assert(all.take(i + 1).drop_last() =~= all.take(i as int));
                        assert(all.take(i + 1).last() == all[i as int]);
                    }
                    match Station::from_json(&members[i].1) {
                        Some(station) => {
                            map = map.with_entry(members[i].0.clone(), station);
                        },
                        None => {
                            proof {
                                lemma_map_of_prefix(all, decode, i + 1);
                            }
                            return None;
                        },
                    }
                    i += 1;
                }
                assert(all.take(i as int) =~= all);
                Some(StationResponse(map))
            },
            Json::Array(items) => {
                proof {
                    lemma_array_view(*items);
                }
                if items.len() == 0 {
                    Some(StationResponse(TextMap::new()))
                } else {
                    None
                }
            },
            _ => None,
        }
    }

    /// Decodes the body of a reply that gives stations.
    pub fn from_slice(body: &[u8]) -> (r: Result<StationResponse, ClientError>)
        ensures
            match r {
                Ok(reply) => parsed_document(body@) is Some && station_response_of(
                    parsed_document(body@)->0,
                ) == Some(reply@),
                Err(error) => error is DeserializeFailed && (parsed_document(body@) is None
                    || station_response_of(parsed_document(body@)->0) is None),
            },
    {
        match parse(body) {
            Ok(doc) => match StationResponse::from_json(&doc) {
                Some(reply) => Ok(reply),
                None => Err(
                    ClientError::DeserializeFailed(
                        decode_fault("expected a map of stations or an empty array"),
                    ),
                ),
            },
            Err(error) => Err(ClientError::DeserializeFailed(error)),
        }
    }
}

} // verus!
