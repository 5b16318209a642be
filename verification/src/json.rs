//! JSON documents as plain data.

use vstd::prelude::*;

verus! {

/// A JSON number.
#[derive(Clone, Copy, Debug, PartialEq, Eq, Structural)]
pub enum JsonNumber {
    /// An integer that is not negative.
    Unsigned(u64),
    /// An integer below zero.
    Negative(i64),
    /// A number with a fraction or an exponent, held as the bits of its
    /// IEEE 754 double-precision encoding.
    Real(u64),
}

/// A JSON document.
#[derive(Debug)]
pub enum Json {
    /// `null`.
    Null,
    /// `true` or `false`.
    Bool(bool),
    /// A number.
    Number(JsonNumber),
    /// A string.
    Text(String),
    /// An array, with its elements in order.
    Array(Vec<Json>),
    /// An object, with the names and values of its members in order.
    /// Nothing keeps two members from having one name.
    Object(Vec<(String, Json)>),
}

/// The mathematical value of a [`Json`] document: the same tree, with
/// sequences in place of vectors and strings.
pub ghost enum JsonView {
    Null,
    Bool(bool),
    Number(JsonNumber),
    Text(Seq<char>),
    Array(Seq<JsonView>),
    Object(Seq<(Seq<char>, JsonView)>),
}

impl View for Json {
    type V = JsonView;

    /// The value of the document. [`lemma_array_view`] and
    /// [`lemma_object_view`] say the same of arrays and objects in a form
    /// that is easier to work with.
    open spec fn view(&self) -> JsonView
        decreases self,
    {
        match self {
            Json::Null => JsonView::Null,
            Json::Bool(b) => JsonView::Bool(*b),
            Json::Number(n) => JsonView::Number(*n),
            Json::Text(s) => JsonView::Text(s@),
            Json::Array(items) => JsonView::Array(
                Seq::new(
                    items@.len(),
                    |i: int|
                        if 0 <= i < items@.len() {
                            items@[i].view()
                        } else {
                            JsonView::Null
                        },
                ),
            ),
            Json::Object(members) => JsonView::Object(
                Seq::new(
                    members@.len(),
                    |i: int|
                        if 0 <= i < members@.len() {
                            (members@[i].0@, members@[i].1.view())
                        } else {
                            (Seq::empty(), JsonView::Null)
                        },
                ),
            ),
        }
    }
}

impl DeepView for Json {
    type V = JsonView;

    open spec fn deep_view(&self) -> JsonView {
        self.view()
    }
}

/// The values of the elements of an array, in order.
pub open spec fn items_view(items: Seq<Json>) -> Seq<JsonView> {
    Seq::new(items.len(), |i: int| items[i]@)
}

/// The names and values of the members of an object, in order.
pub open spec fn members_view(members: Seq<(String, Json)>) -> Seq<(Seq<char>, JsonView)> {
    Seq::new(members.len(), |i: int| (members[i].0@, members[i].1@))
}

/// An array is viewed element by element.
pub proof fn lemma_array_view(items: Vec<Json>)
    ensures
        Json::Array(items)@ == JsonView::Array(items_view(items@)),
{
    reveal_with_fuel(<Json as View>::view, 2);
    assert(Json::Array(items)@->Array_0 =~= items_view(items@));
}

/// An object is viewed member by member.
pub proof fn lemma_object_view(members: Vec<(String, Json)>)
    ensures
        Json::Object(members)@ == JsonView::Object(members_view(members@)),
{
    reveal_with_fuel(<Json as View>::view, 2);
    assert(Json::Object(members)@->Object_0 =~= members_view(members@));
}

impl JsonView {
    /// The characters of a JSON string; any other document has none.
    pub open spec fn text(self) -> Option<Seq<char>> {
        match self {
            JsonView::Text(s) => Some(s),
            _ => None,
        }
    }

    /// The truth value of a JSON boolean.
    pub open spec fn flag(self) -> Option<bool> {
        match self {
            JsonView::Bool(b) => Some(b),
            _ => None,
        }
    }

    /// The number that a JSON number stands for.
    pub open spec fn number(self) -> Option<JsonNumber> {
        match self {
            JsonView::Number(n) => Some(n),
            _ => None,
        }
    }

    /// A JSON number as a `u32`: an integer from 0 to `u32::MAX`, written
    /// without fraction or exponent.
    pub open spec fn count(self) -> Option<u32> {
        match self {
            JsonView::Number(JsonNumber::Unsigned(n)) => if n <= u32::MAX {
                Some(n as u32)
            } else {
                None
            },
            _ => None,
        }
    }

    /// The strings of a JSON array all of whose elements are strings.
    pub open spec fn texts(self) -> Option<Seq<Seq<char>>> {
        match self {
            JsonView::Array(items) => if forall|i: int|
                0 <= i < items.len() ==> (#[trigger] items[i]) is Text {
                Some(Seq::new(items.len(), |i: int| items[i]->Text_0))
            } else {
                None
            },
            _ => None,
        }
    }

    /// The name that a document gives where one of several names is
    /// expected: a string, or an object whose one member has that name and
    /// the value `null`.
    pub open spec fn variant(self) -> Option<Seq<char>> {
        match self {
            JsonView::Text(s) => Some(s),
            JsonView::Object(members) => if members.len() == 1 && members[0].1 is Null {
                Some(members[0].0)
            } else {
                None
            },
            _ => None,
        }
    }
}

/// Whether two strings hold the same characters.
pub fn same_text(a: &str, b: &str) -> (same: bool)
    ensures
        same == (a@ == b@),
{
    let x = a.as_bytes();
    let y = b.as_bytes();
    proof {
        vstd::utf8::encode_utf8_decode_utf8(a@);
        vstd::utf8::encode_utf8_decode_utf8(b@);
    }
    if x.len() != y.len() {
        return false;
    }
    let mut i: usize = 0;
    while i < x.len()
        invariant
            x@.len() == y@.len(),
            i <= x@.len(),
            forall|k: int| 0 <= k < i ==> x@[k] == y@[k],
            a@ == b@ ==> x@ == y@,
        decreases x@.len() - i,
    {
        if x[i] != y[i] {
            return false;
        }
        i += 1;
    }
    assert(x@ =~= y@);
    true
}

impl Json {
    /// The string that the document is, if it is one.
    pub fn text(&self) -> (r: Option<&String>)
        ensures
            r.deep_view() == self@.text(),
    {
        match self {
            Json::Text(s) => Some(s),
            _ => None,
        }
    }

    /// The truth value that the document is, if it is one.
    pub fn flag(&self) -> (r: Option<bool>)
        ensures
            r == self@.flag(),
    {
        match self {
            Json::Bool(b) => Some(*b),
            _ => None,
        }
    }

    /// The number that the document is, if it is one.
    pub fn number(&self) -> (r: Option<JsonNumber>)
        ensures
            r == self@.number(),
    {
        match self {
            Json::Number(n) => Some(*n),
            _ => None,
        }
    }

    /// The document as a `u32`, if it is an integer in that range.
    pub fn count(&self) -> (r: Option<u32>)
        ensures
            r == self@.count(),
    {
        match self {
            Json::Number(JsonNumber::Unsigned(n)) => {
                if *n <= 0xffff_ffff {
                    Some(*n as u32)
                } else {
                    None
                }
            },
            _ => None,
        }
    }

    /// The strings of the document, if it is an array of strings.
    pub fn texts(&self) -> (r: Option<Vec<String>>)
        ensures
            r.deep_view() == self@.texts(),
    {
        match self {
            Json::Array(items) => {
                proof {
                    lemma_array_view(*items);
                }
                let mut out: Vec<String> = Vec::new();
                let mut i: usize = 0;
                while i < items.len()
                    invariant
                        i <= items.len(),
                        out@.len() == i,
                        self@ == JsonView::Array(items_view(items@)),
                        forall|k: int| 0 <= k < i ==> (#[trigger] items@[k])@ == JsonView::Text(out@[k]@),
                    decreases items.len() - i,
                {
                    match &items[i] {
                        Json::Text(s) => {
                            out.push(s.clone());
                        },
                        _ => {
                            assert(!(items_view(items@)[i as int] is Text));
                            return None;
                        },
                    }
                    i += 1;
                }
                assert(forall|k: int| 0 <= k < items@.len() ==> (#[trigger] items_view(items@)[k]) is Text);
                assert(out.deep_view() =~= self@.texts()->0);
                Some(out)
            },
            _ => None,
        }
    }

    /// The name that the document gives where one of several names is
    /// expected.
    pub fn variant(&self) -> (r: Option<&String>)
        ensures
            r.deep_view() == self@.variant(),
    {
        match self {
            Json::Text(s) => Some(s),
            Json::Object(members) => {
                proof {
                    lemma_object_view(*members);
                }
                if members.len() == 1 {
                    match &members[0].1 {
                        Json::Null => Some(&members[0].0),
                        _ => None,
                    }
                } else {
                    None
                }
            },
            _ => None,
        }
    }
}

} // verus!
