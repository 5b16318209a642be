//! Records and their fields: how a field is found in a document, which
//! fields a record must give, which it may omit, and what stands for an
//! omitted one.

use vstd::prelude::*;
use crate::json::{
    lemma_array_view, lemma_object_view, members_view, same_text, Json, JsonNumber, JsonView,
};
use crate::time::{parsed_timestamp, Timestamp};

verus! {

/// What a record offers for one of its fields.
pub ghost enum Slot {
    /// The record does not mention the field.
    Absent,
    /// The record gives the field this value, once.
    Present(JsonView),
    /// The record gives the field more than once.
    Repeated,
}

/// What the members of an object offer under `name`.
pub open spec fn slot_of(members: Seq<(Seq<char>, JsonView)>, name: Seq<char>) -> Slot
    decreases members.len(),
{
    if members.len() == 0 {
        Slot::Absent
    } else if members.last().0 == name {
        match slot_of(members.drop_last(), name) {
            Slot::Absent => Slot::Present(members.last().1),
            _ => Slot::Repeated,
        }
    } else {
        slot_of(members.drop_last(), name)
    }
}

/// A name that no member has is absent.
pub proof fn lemma_slot_absent(members: Seq<(Seq<char>, JsonView)>, name: Seq<char>)
    requires
        forall|i: int| 0 <= i < members.len() ==> (#[trigger] members[i]).0 != name,
    ensures
        slot_of(members, name) == Slot::Absent,
    decreases members.len(),
{
    if members.len() > 0 {
        let front = members.drop_last();
        assert forall|i: int| 0 <= i < front.len() implies (#[trigger] front[i]).0 != name by {
            assert(front[i] == members[i]);
        }
        lemma_slot_absent(front, name);
        assert(members.last() == members[members.len() - 1]);
    }
}

/// A name that one member has, and no other, is present with the value of
/// that member.
pub proof fn lemma_slot_present(members: Seq<(Seq<char>, JsonView)>, name: Seq<char>, at: int)
    requires
        0 <= at < members.len(),
        members[at].0 == name,
        forall|i: int| 0 <= i < members.len() && i != at ==> (#[trigger] members[i]).0 != name,
    ensures
        slot_of(members, name) == Slot::Present(members[at].1),
    decreases members.len(),
{
    let front = members.drop_last();
    assert(members.last() == members[members.len() - 1]);
    if at == members.len() - 1 {
        assert forall|i: int| 0 <= i < front.len() implies (#[trigger] front[i]).0 != name by {
            assert(front[i] == members[i]);
        }
        lemma_slot_absent(front, name);
    } else {
        assert(front[at] == members[at]);
        assert forall|i: int| 0 <= i < front.len() && i != at implies (#[trigger] front[i]).0
            != name by {
            assert(front[i] == members[i]);
        }
        lemma_slot_present(front, name, at);
    }
}

/// A name that no member has is absent, one that a single member has is
/// present, and one that several members have is repeated.
pub proof fn lemma_slot_cases(members: Seq<(Seq<char>, JsonView)>, name: Seq<char>)
    ensures
        slot_of(members, name) is Absent <==> (forall|i: int|
            0 <= i < members.len() ==> (#[trigger] members[i]).0 != name),
        slot_of(members, name) is Repeated <==> (exists|i: int, j: int|
            0 <= i < j < members.len() && (#[trigger] members[i]).0 == name && (
            #[trigger] members[j]).0 == name),
        slot_of(members, name) matches Slot::Present(value) ==> (exists|i: int|
            0 <= i < members.len() && (#[trigger] members[i]) == (name, value)),
    decreases members.len(),
{
    if members.len() > 0 {
        let front = members.drop_last();
        let n = members.len() - 1;
        lemma_slot_cases(front, name);
        assert(members.last() == members[n]);
        assert forall|i: int| 0 <= i < front.len() implies #[trigger] front[i] == members[i] by {}
        if slot_of(members, name) is Absent {
            assert forall|i: int| 0 <= i < members.len() implies (#[trigger] members[i]).0
                != name by {
                if i < n {
                    assert(front[i] == members[i]);
                }
            }
        }
        if forall|i: int| 0 <= i < members.len() ==> (#[trigger] members[i]).0 != name {
            lemma_slot_absent(members, name);
        }
        if slot_of(members, name) is Repeated {
            if members[n].0 == name {
                assert(!(slot_of(front, name) is Absent));
                let i = choose|i: int| 0 <= i < front.len() && (#[trigger] front[i]).0 == name;
                assert(front[i] == members[i]);
                assert(0 <= i < n < members.len() && members[i].0 == name && members[n].0 == name);
            } else {
                let (i, j) = choose|i: int, j: int|
                    0 <= i < j < front.len() && (#[trigger] front[i]).0 == name && (
                    #[trigger] front[j]).0 == name;
                assert(front[i] == members[i]);
                assert(front[j] == members[j]);
                assert(0 <= i < j < members.len() && members[i].0 == name && members[j].0 == name);
            }
        }
        if exists|i: int, j: int|
            0 <= i < j < members.len() && (#[trigger] members[i]).0 == name && (
            #[trigger] members[j]).0 == name {
            let (i, j) = choose|i: int, j: int|
                0 <= i < j < members.len() && (#[trigger] members[i]).0 == name && (
                #[trigger] members[j]).0 == name;
            assert(front[i] == members[i]);
            if j < n {
                assert(front[j] == members[j]);
                assert(0 <= i < j < front.len() && front[i].0 == name && front[j].0 == name);
            } else {
                assert(0 <= i < front.len() && front[i].0 == name);
                assert(!(slot_of(front, name) is Absent));
            }
        }
        if slot_of(members, name) is Present {
            let value = slot_of(members, name)->Present_0;
            if members[n].0 == name {
                assert(members[n] == (name, value));
            } else {
                let i = choose|i: int| 0 <= i < front.len() && (#[trigger] front[i]) == (name, value);
                assert(front[i] == members[i]);
            }
        }
    }
}

/// What a record offers for the field called `name`, which is its field
/// number `index`, counted from zero. A record written as an object offers
/// its members by name; one written as an array offers its elements by
/// position.
pub open spec fn field_of(record: JsonView, name: Seq<char>, index: int) -> Slot {
    match record {
        JsonView::Object(members) => slot_of(members, name),
        JsonView::Array(items) => if 0 <= index < items.len() {
            Slot::Present(items[index])
        } else {
            Slot::Absent
        },
        _ => Slot::Absent,
    }
}

/// Whether `record` has the shape of a record of `width` fields: any object,
/// or an array of at most `width` elements.
pub open spec fn is_record(record: JsonView, width: int) -> bool {
    match record {
        JsonView::Object(_) => true,
        JsonView::Array(items) => items.len() <= width,
        _ => false,
    }
}

/// Whether `record` names its fields, as an object does.
pub open spec fn is_named(record: JsonView) -> bool {
    record is Object
}

/// The outcome of looking a field up in a record.
#[derive(Debug, Clone, Copy)]
pub enum Field<'a> {
    Absent,
    Present(&'a Json),
    Repeated,
}

impl<'a> View for Field<'a> {
    type V = Slot;

    open spec fn view(&self) -> Slot {
        match self {
            Field::Absent => Slot::Absent,
            Field::Present(value) => Slot::Present(value@),
            Field::Repeated => Slot::Repeated,
        }
    }
}

impl Json {
    /// Looks up the member called `name` among the members of an object.
    pub fn member<'a>(members: &'a Vec<(String, Json)>, name: &str) -> (found: Field<'a>)
        ensures
            found@ == slot_of(members_view(members@), name@),
    {
        let ghost all = members_view(members@);
        let mut found = Field::Absent;
        let mut i: usize = 0;
        while i < members.len()
            invariant
                i <= members.len(),
                all == members_view(members@),
                found@ == slot_of(all.take(i as int), name@),
            decreases members.len() - i,
        {
            proof {
                let upto = all.take(i + 1);
                assert(upto.drop_last() =~= all.take(i as int));
                assert(upto.last() == all[i as int]);
            }
            if same_text(members[i].0.as_str(), name) {
                found = match found {
                    Field::Absent => Field::Present(&members[i].1),
                    _ => Field::Repeated,
                };
            }
            i += 1;
        }
        assert(all.take(i as int) =~= all);
        found
    }

    /// Looks up, in a record, the field called `name`, which is its field
    /// number `index`.
    pub fn field<'a>(&'a self, name: &str, index: usize) -> (found: Field<'a>)
        ensures
            found@ == field_of(self@, name@, index as int),
    {
        match self {
            Json::Object(members) => {
                proof {
                    lemma_object_view(*members);
                }
                Json::member(members, name)
            },
            Json::Array(items) => {
                proof {
                    lemma_array_view(*items);
                }
                if index < items.len() {
                    Field::Present(&items[index])
                } else {
                    Field::Absent
                }
            },
            _ => Field::Absent,
        }
    }

    /// Whether the document names its fields, as an object does.
    pub fn names_fields(&self) -> (yes: bool)
        ensures
            yes == is_named(self@),
    {
        match self {
            Json::Object(_) => true,
            _ => false,
        }
    }

    /// Whether the document has the shape of a record of `width` fields.
    pub fn has_record_shape(&self, width: usize) -> (yes: bool)
        ensures
            yes == is_record(self@, width as int),
    {
        match self {
            Json::Object(_) => true,
            Json::Array(items) => {
                proof {
                    lemma_array_view(*items);
                }
                items.len() <= width
            },
            _ => false,
        }
    }
}

impl Slot {
    /// The value of a field that the record must give.
    pub open spec fn value(self) -> Option<JsonView> {
        match self {
            Slot::Present(v) => Some(v),
            _ => None,
        }
    }

    /// A string that the record must give.
    pub open spec fn text(self) -> Option<Seq<char>> {
        match self {
            Slot::Present(v) => v.text(),
            _ => None,
        }
    }

    /// A string that is empty where the record does not mention it.
    pub open spec fn text_or_empty(self) -> Option<Seq<char>> {
        match self {
            Slot::Absent => Some(Seq::empty()),
            Slot::Present(v) => v.text(),
            Slot::Repeated => None,
        }
    }

    /// A string that the record may give as `null`, and that a record
    /// which names its fields may leave out. The outer `None` is a field
    /// that cannot be read, the inner one a field without a value.
    pub open spec fn optional_text(self, named: bool) -> Option<Option<Seq<char>>> {
        match self {
            Slot::Absent => if named {
                Some(None)
            } else {
                None
            },
            Slot::Present(JsonView::Null) => Some(None),
            Slot::Present(JsonView::Text(s)) => Some(Some(s)),
            _ => None,
        }
    }

    /// A truth value that the record must give.
    pub open spec fn flag(self) -> Option<bool> {
        match self {
            Slot::Present(v) => v.flag(),
            _ => None,
        }
    }

    /// A `u32` that the record must give.
    pub open spec fn count(self) -> Option<u32> {
        match self {
            Slot::Present(v) => v.count(),
            _ => None,
        }
    }

    /// A number that the record must give.
    pub open spec fn number(self) -> Option<JsonNumber> {
        match self {
            Slot::Present(v) => v.number(),
            _ => None,
        }
    }

    /// A list of strings that the record must give.
    pub open spec fn texts(self) -> Option<Seq<Seq<char>>> {
        match self {
            Slot::Present(v) => v.texts(),
            _ => None,
        }
    }

    /// The instant that the field's string reads as; `None` where the field
    /// is no string or the string does not read as an instant.
    pub open spec fn time_reading(self) -> Option<Timestamp> {
        match self {
            Slot::Present(JsonView::Text(s)) => parsed_timestamp(s),
            _ => None,
        }
    }

    /// An instant that the record must give, as a string of which `reading`
    /// is the reading.
    pub open spec fn time(self, reading: Option<Timestamp>) -> Option<Timestamp> {
        match self {
            Slot::Present(JsonView::Text(_)) => reading,
            _ => None,
        }
    }

    /// An instant that the record may leave out or give as `null`, and
    /// else gives as a string of which `reading` is the reading.
    pub open spec fn optional_time(self, reading: Option<Timestamp>) -> Option<Option<Timestamp>> {
        match self {
            Slot::Absent => Some(None),
            Slot::Present(JsonView::Null) => Some(None),
            Slot::Present(JsonView::Text(_)) => match reading {
                Some(t) => Some(Some(t)),
                None => None,
            },
            _ => None,
        }
    }
}

impl<'a> Field<'a> {
    /// The value of a field that the record must give.
    pub fn value(self) -> (r: Option<&'a Json>)
        ensures
            r.deep_view() == self@.value(),
    {
        match self {
            Field::Present(v) => Some(v),
            _ => None,
        }
    }

    /// A string that the record must give.
    pub fn text(self) -> (r: Option<String>)
        ensures
            r.deep_view() == self@.text(),
    {
        match self {
            Field::Present(Json::Text(s)) => Some(s.clone()),
            _ => None,
        }
    }

    /// A string that is empty where the record does not mention it.
    pub fn text_or_empty(self) -> (r: Option<String>)
        ensures
            r.deep_view() == self@.text_or_empty(),
    {
        match self {
            Field::Absent => Some(String::new()),
            Field::Present(Json::Text(s)) => Some(s.clone()),
            _ => None,
        }
    }

    /// A string that the record may give as `null`, and that a record
    /// which names its fields may leave out.
    pub fn optional_text(self, named: bool) -> (r: Option<Option<String>>)
        ensures
            r.deep_view() == self@.optional_text(named),
    {
        match self {
            Field::Absent => if named {
                Some(None)
            } else {
                None
            },
            Field::Present(Json::Null) => Some(None),
            Field::Present(Json::Text(s)) => Some(Some(s.clone())),
            _ => None,
        }
    }

    /// A truth value that the record must give.
    pub fn flag(self) -> (r: Option<bool>)
        ensures
            r == self@.flag(),
    {
        match self {
            Field::Present(v) => v.flag(),
            _ => None,
        }
    }

    /// A `u32` that the record must give.
    pub fn count(self) -> (r: Option<u32>)
        ensures
            r == self@.count(),
    {
        match self {
            Field::Present(v) => v.count(),
            _ => None,
        }
    }

    /// A number that the record must give.
    pub fn number(self) -> (r: Option<JsonNumber>)
        ensures
            r == self@.number(),
    {
        match self {
            Field::Present(v) => v.number(),
            _ => None,
        }
    }

    /// A list of strings that the record must give.
    pub fn texts(self) -> (r: Option<Vec<String>>)
        ensures
            r.deep_view() == self@.texts(),
    {
        match self {
            Field::Present(v) => v.texts(),
            _ => None,
        }
    }

    /// Reads the field's string as an instant.
    pub fn read_time(self) -> (r: Option<Timestamp>)
        ensures
            r == self@.time_reading(),
    {
        match self {
            Field::Present(Json::Text(s)) => Timestamp::parse(s.as_str()),
            _ => None,
        }
    }

    /// An instant that the record must give, as a string of which `reading`
    /// is the reading.
    pub fn time(self, reading: Option<Timestamp>) -> (r: Option<Timestamp>)
        ensures
            r == self@.time(reading),
    {
        match self {
            Field::Present(Json::Text(_)) => reading,
            _ => None,
        }
    }

    /// An instant that the record may leave out or give as `null`, and
    /// else gives as a string of which `reading` is the reading.
    pub fn optional_time(self, reading: Option<Timestamp>) -> (r: Option<Option<Timestamp>>)
        ensures
            r == self@.optional_time(reading),
    {
        match self {
            Field::Absent => Some(None),
            Field::Present(Json::Null) => Some(None),
            Field::Present(Json::Text(_)) => match reading {
                Some(t) => Some(Some(t)),
                None => None,
            },
            _ => None,
        }
    }
}

} // verus!
