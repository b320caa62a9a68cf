//! The JSON values that the endpoints answer with, as the decoders read them.

use vstd::prelude::*;
use crate::web_api::text::same_text;

verus! {

/// A JSON value.
#[derive(Debug, PartialEq)]
pub enum Json {
    Null,
    Bool(bool),
    /// A number that is an integer within the range of `i64`.
    Number(i64),
    /// Any other number, kept as its decimal text.
    Decimal(String),
    Str(String),
    Array(Vec<Json>),
    /// The members of an object, in the order in which the text had them.
    Object(Vec<(String, Json)>),
}

/// The mathematical value of a [`Json`].
pub enum JsonView {
    Null,
    Bool(bool),
    Number(int),
    Decimal(Seq<char>),
    Str(Seq<char>),
    Array(Seq<JsonView>),
    Object(Seq<(Seq<char>, JsonView)>),
}

impl View for Json {
    type V = JsonView;

    open spec fn view(&self) -> JsonView
        decreases self,
    {
        match self {
            Json::Null => JsonView::Null,
            Json::Bool(b) => JsonView::Bool(*b),
            Json::Number(n) => JsonView::Number(*n as int),
            Json::Decimal(text) => JsonView::Decimal(text@),
            Json::Str(text) => JsonView::Str(text@),
            Json::Array(items) => JsonView::Array(
                Seq::new(
                    items@.len(),
                    |i: int|
                        if 0 <= i < items@.len() {
                            items@[i]@
                        } else {
                            JsonView::Null
                        },
                ),
            ),
            Json::Object(members) => JsonView::Object(
                Seq::new(
                    members@.len(),
                    |i: int|
                        if 0 <= i < members@.len() {
                            (members@[i].0@, members@[i].1@)
                        } else {
                            (Seq::empty(), JsonView::Null)
                        },
                ),
            ),
        }
    }
}

impl DeepView for Json {
    type V = JsonView;

    open spec fn deep_view(&self) -> JsonView {
        self@
    }
}

/// The values of `items`, one for one.
pub open spec fn items_view(items: Seq<Json>) -> Seq<JsonView> {
    Seq::new(items.len(), |i: int| items[i]@)
}

/// The names and values of `members`, one for one.
pub open spec fn members_view(members: Seq<(String, Json)>) -> Seq<(Seq<char>, JsonView)> {
    Seq::new(members.len(), |i: int| (members[i].0@, members[i].1@))
}

/// An array's value holds the values of its items.
pub proof fn lemma_array_view(items: Vec<Json>)
    ensures
        Json::Array(items)@ == JsonView::Array(items_view(items@)),
{
    reveal_with_fuel(<Json as View>::view, 2);
    assert(Json::Array(items)@->Array_0 =~= items_view(items@));
}

/// An object's value holds the names and values of its members.
pub proof fn lemma_object_view(members: Vec<(String, Json)>)
    ensures
        Json::Object(members)@ == JsonView::Object(members_view(members@)),
{
    reveal_with_fuel(<Json as View>::view, 2);
    assert(Json::Object(members)@->Object_0 =~= members_view(members@));
}

/// The value of the first of `members` that is named `key`.
pub open spec fn first_named(members: Seq<(Seq<char>, JsonView)>, key: Seq<char>) -> Option<
    JsonView,
>
    decreases members.len(),
{
    if members.len() == 0 {
        None
    } else if members[0].0 == key {
        Some(members[0].1)
    } else {
        first_named(members.drop_first(), key)
    }
}

/// `first_named` finds the member at the least index that carries the name.
pub proof fn lemma_first_named(members: Seq<(Seq<char>, JsonView)>, key: Seq<char>)
    ensures
        first_named(members, key) is None <==> forall|i: int|
            0 <= i < members.len() ==> (#[trigger] members[i]).0 != key,
        first_named(members, key) matches Some(value) ==> exists|i: int|
            0 <= i < members.len() && #[trigger] members[i] == (key, value) && forall|k: int|
                0 <= k < i ==> (#[trigger] members[k]).0 != key,
    decreases members.len(),
{
    if members.len() > 0 {
        let rest = members.drop_first();
        lemma_first_named(rest, key);
        assert(forall|i: int| 0 <= i < rest.len() ==> rest[i] == members[i + 1]);
        if members[0].0 == key {
            assert(members[0] == (key, members[0].1));
        } else {
            if first_named(rest, key) is None {
                assert forall|i: int| 0 <= i < members.len() implies (#[trigger] members[i]).0
                    != key by {
                    if i > 0 {
                        assert(rest[i - 1] == members[i]);
                    }
                }
            } else {
                let value = first_named(rest, key)->Some_0;
                let at = choose|i: int|
                    0 <= i < rest.len() && #[trigger] rest[i] == (key, value) && forall|k: int|
                        0 <= k < i ==> (#[trigger] rest[k]).0 != key;
                assert(members[at + 1] == (key, value));
                assert forall|k: int| 0 <= k < at + 1 implies (#[trigger] members[k]).0 != key by {
                    if k > 0 {
                        assert(rest[k - 1] == members[k]);
                    }
                }
            }
        }
    }
}

impl JsonView {
    /// The member `key` of an object: the first, where several carry the name.
    pub open spec fn member(self, key: Seq<char>) -> Option<JsonView> {
        match self {
            JsonView::Object(members) => first_named(members, key),
            _ => None,
        }
    }
}

impl Json {
    /// The member `key` of an object: the first, where several carry the name.
    pub fn member(&self, key: &str) -> (found: Option<&Json>)
        ensures
            match found {
                Some(value) => self@.member(key@) == Some(value@),
                None => self@.member(key@) is None,
            },
    {
        match self {
            Json::Object(members) => {
                let ghost all = members_view(members@);
                proof {
                    lemma_object_view(*members);
                    assert(all.skip(0) =~= all);
                }
                let mut i: usize = 0;
                while i < members.len()
                    invariant
                        i <= members.len(),
                        all == members_view(members@),
                        self@ == JsonView::Object(all),
                        first_named(all, key@) == first_named(all.skip(i as int), key@),
                    decreases members.len() - i,
                {
                    proof {
                        assert(all.skip(i as int).drop_first() =~= all.skip(i as int + 1));
                        let here = members@[i as int];
                        assert(all.skip(i as int)[0] == (here.0@, here.1@));
                    }
                    if same_text(members[i].0.as_str(), key) {
                        return Some(&members[i].1);
                    }
                    i += 1;
                }
                None
            },
            _ => None,
        }
    }
}

impl Clone for Json {
    #[verifier::loop_isolation(false)]
    fn clone(&self) -> (copy: Json)
        ensures
            copy@ == self@,
        decreases self,
    {
        match self {
            Json::Null => Json::Null,
            Json::Bool(b) => Json::Bool(*b),
            Json::Number(n) => Json::Number(*n),
            Json::Decimal(text) => Json::Decimal(text.clone()),
            Json::Str(text) => Json::Str(text.clone()),
            Json::Array(items) => {
                let mut copies: Vec<Json> = Vec::new();
                let mut i: usize = 0;
                while i < items.len()
                    invariant
                        i <= items.len(),
                        copies@.len() == i,
                        forall|k: int| 0 <= k < i ==> copies@[k]@ == items@[k]@,
                    decreases items.len() - i,
                {
                    copies.push(items[i].clone());
                    i += 1;
                }
                proof {
                    lemma_array_view(*items);
                    lemma_array_view(copies);
                    assert(items_view(copies@) =~= items_view(items@));
                }
                Json::Array(copies)
            },
            Json::Object(members) => {
                let mut copies: Vec<(String, Json)> = Vec::new();
                let mut i: usize = 0;
                while i < members.len()
                    invariant
                        i <= members.len(),
                        copies@.len() == i,
                        forall|k: int|
                            0 <= k < i ==> copies@[k].0@ == members@[k].0@ && copies@[k].1@
                                == members@[k].1@,
                    decreases members.len() - i,
                {
                    copies.push((members[i].0.clone(), members[i].1.clone()));
                    i += 1;
                }
                proof {
                    lemma_object_view(*members);
                    lemma_object_view(copies);
                    assert(members_view(copies@) =~= members_view(members@));
                }
                Json::Object(copies)
            },
        }
    }
}

} // verus!
