//! Decoding of JSON values into typed records, with the place of each failure.

use vstd::prelude::*;
use crate::web_api::json::{items_view, lemma_array_view, Json, JsonView};

verus! {

/// Why a value could not be decoded.
#[derive(Debug, PartialEq, Eq, Structural, Clone, Copy)]
pub enum DecodeErrorKind {
    /// A required member is absent.
    MissingField,
    /// The value has another shape than the one asked for.
    WrongShape,
}

/// One step of the way from the decoded value down to the place of a failure.
#[derive(Debug, PartialEq, Eq)]
pub enum PathStep {
    /// Into the member of this name.
    Key(String),
    /// Into the item at this index.
    Index(usize),
}

/// The mathematical value of a [`PathStep`].
pub enum PathStepView {
    Key(Seq<char>),
    Index(int),
}

impl View for PathStep {
    type V = PathStepView;

    open spec fn view(&self) -> PathStepView {
        match self {
            PathStep::Key(name) => PathStepView::Key(name@),
            PathStep::Index(at) => PathStepView::Index(*at as int),
        }
    }
}

/// A decode failure and the place where it arose, from the decoded value down.
#[derive(Debug, PartialEq, Eq)]
pub struct DecodeError {
    pub path: Vec<PathStep>,
    pub kind: DecodeErrorKind,
}

/// The mathematical value of a [`DecodeError`].
pub struct Fault {
    pub path: Seq<PathStepView>,
    pub kind: DecodeErrorKind,
}

impl Fault {
    /// A failure of the decoded value itself.
    pub open spec fn here(kind: DecodeErrorKind) -> Fault {
        Fault { path: Seq::empty(), kind }
    }

    /// This failure, seen from one step further up.
    pub open spec fn under(self, step: PathStepView) -> Fault {
        Fault { path: seq![step] + self.path, kind: self.kind }
    }
}

impl View for DecodeError {
    type V = Fault;

    open spec fn view(&self) -> Fault {
        Fault { path: Seq::new(self.path@.len(), |i: int| self.path@[i]@), kind: self.kind }
    }
}

impl DecodeError {
    /// A failure of the decoded value itself.
    pub fn here(kind: DecodeErrorKind) -> (e: DecodeError)
        ensures
            e@ == Fault::here(kind),
    {
        let e = DecodeError { path: Vec::new(), kind };
        assert(e@.path =~= Seq::empty());
        e
    }

    /// This failure, seen from one step further up.
    pub fn under(self, step: PathStep) -> (e: DecodeError)
        ensures
            e@ == self@.under(step@),
    {
        let ghost before = self@;
        let ghost first = step@;
        let kind = self.kind;
        let mut path = self.path;
        path.insert(0, step);
        let e = DecodeError { path, kind };
        assert(e@.path =~= before.under(first).path);
        e
    }
}

/// What a decoding returned, as mathematical values.
pub open spec fn outcome<T: DeepView>(r: Result<T, DecodeError>) -> Result<T::V, Fault> {
    match r {
        Ok(value) => Ok(value.deep_view()),
        Err(e) => Err(e@),
    }
}

/// `r`, with a failure seen from one step further up.
pub open spec fn within<V>(r: Result<V, Fault>, step: PathStepView) -> Result<V, Fault> {
    match r {
        Ok(value) => Ok(value),
        Err(e) => Err(e.under(step)),
    }
}

/// A type that is read from a JSON value.
pub trait Decode: Sized + DeepView {
    /// What a JSON value decodes to: the record, or the first failure.
    spec fn parse(j: JsonView) -> Result<Self::V, Fault>;

    fn decode(j: &Json) -> (r: Result<Self, DecodeError>)
        ensures
            outcome(r) == Self::parse(j@),
    ;
}

/// What `j` decodes to as an integer between `low` and `high`.
pub open spec fn parse_integer(j: JsonView, low: int, high: int) -> Result<int, Fault> {
    match j {
        JsonView::Number(n) if low <= n <= high => Ok(n),
        _ => Err(Fault::here(DecodeErrorKind::WrongShape)),
    }
}

impl Decode for String {
    open spec fn parse(j: JsonView) -> Result<Seq<char>, Fault> {
        match j {
            JsonView::Str(text) => Ok(text),
            _ => Err(Fault::here(DecodeErrorKind::WrongShape)),
        }
    }

    fn decode(j: &Json) -> (r: Result<String, DecodeError>) {
        match j {
            Json::Str(text) => Ok(text.clone()),
            _ => Err(DecodeError::here(DecodeErrorKind::WrongShape)),
        }
    }
}

impl Decode for bool {
    open spec fn parse(j: JsonView) -> Result<bool, Fault> {
        match j {
            JsonView::Bool(b) => Ok(b),
            _ => Err(Fault::here(DecodeErrorKind::WrongShape)),
        }
    }

    fn decode(j: &Json) -> (r: Result<bool, DecodeError>) {
        match j {
            Json::Bool(b) => Ok(*b),
            _ => Err(DecodeError::here(DecodeErrorKind::WrongShape)),
        }
    }
}

impl Decode for i8 {
    open spec fn parse(j: JsonView) -> Result<i8, Fault> {
        match parse_integer(j, i8::MIN as int, i8::MAX as int) {
            Ok(n) => Ok(n as i8),
            Err(e) => Err(e),
        }
    }

    fn decode(j: &Json) -> (r: Result<i8, DecodeError>) {
        match j {
            Json::Number(n) if -128 <= *n && *n <= 127 => Ok(*n as i8),
            _ => Err(DecodeError::here(DecodeErrorKind::WrongShape)),
        }
    }
}

impl Decode for i32 {
    open spec fn parse(j: JsonView) -> Result<i32, Fault> {
        match parse_integer(j, i32::MIN as int, i32::MAX as int) {
            Ok(n) => Ok(n as i32),
            Err(e) => Err(e),
        }
    }

    fn decode(j: &Json) -> (r: Result<i32, DecodeError>) {
        match j {
            Json::Number(n) if -2147483648 <= *n && *n <= 2147483647 => Ok(*n as i32),
            _ => Err(DecodeError::here(DecodeErrorKind::WrongShape)),
        }
    }
}

impl Decode for i64 {
    open spec fn parse(j: JsonView) -> Result<i64, Fault> {
        match parse_integer(j, i64::MIN as int, i64::MAX as int) {
            Ok(n) => Ok(n as i64),
            Err(e) => Err(e),
        }
    }

    fn decode(j: &Json) -> (r: Result<i64, DecodeError>) {
        match j {
            Json::Number(n) => Ok(*n),
            _ => Err(DecodeError::here(DecodeErrorKind::WrongShape)),
        }
    }
}

/// The least index from `from` on at which an item of `items` does not decode as a `T`.
pub open spec fn first_failing<T: Decode>(items: Seq<JsonView>, from: int) -> Option<int>
    decreases items.len() - from,
{
    if from < 0 || from >= items.len() {
        None
    } else if T::parse(items[from]) is Err {
        Some(from)
    } else {
        first_failing::<T>(items, from + 1)
    }
}

/// `first_failing` finds the least failing index, and none where every item decodes.
pub proof fn lemma_first_failing<T: Decode>(items: Seq<JsonView>, from: int)
    requires
        0 <= from,
    ensures
        first_failing::<T>(items, from) is None <==> forall|i: int|
            from <= i < items.len() ==> #[trigger] T::parse(items[i]) is Ok,
        first_failing::<T>(items, from) matches Some(at) ==> from <= at < items.len() && T::parse(
            items[at],
        ) is Err && forall|i: int| from <= i < at ==> #[trigger] T::parse(items[i]) is Ok,
    decreases items.len() - from,
{
    if from < items.len() {
        lemma_first_failing::<T>(items, from + 1);
    }
}

/// An array decodes item by item, in order; the first item that fails decides the failure.
impl<T: Decode> Decode for Vec<T> {
    open spec fn parse(j: JsonView) -> Result<Seq<T::V>, Fault> {
        match j {
            JsonView::Array(items) => match first_failing::<T>(items, 0) {
                Some(at) => Err(T::parse(items[at])->Err_0.under(PathStepView::Index(at))),
                None => Ok(Seq::new(items.len(), |i: int| T::parse(items[i])->Ok_0)),
            },
            _ => Err(Fault::here(DecodeErrorKind::WrongShape)),
        }
    }

    fn decode(j: &Json) -> (r: Result<Vec<T>, DecodeError>) {
        match j {
            Json::Array(items) => {
                let ghost all = items_view(items@);
                proof {
                    lemma_array_view(*items);
                }
                let mut out: Vec<T> = Vec::new();
                let mut i: usize = 0;
                while i < items.len()
                    invariant
                        i <= items.len(),
                        all == items_view(items@),
                        j@ == JsonView::Array(all),
                        out@.len() == i,
                        forall|k: int|
                            0 <= k < i ==> T::parse(all[k]) == Ok::<T::V, Fault>(
                                (#[trigger] out@[k]).deep_view(),
                            ),
                        first_failing::<T>(all, 0) == first_failing::<T>(all, i as int),
                    decreases items.len() - i,
                {
                    match T::decode(&items[i]) {
                        Ok(value) => {
                            out.push(value);
                        },
                        Err(e) => {
                            return Err(e.under(PathStep::Index(i)));
                        },
                    }
                    i += 1;
                }
                assert(Self::parse(j@)->Ok_0 =~= out.deep_view());
                Ok(out)
            },
            _ => Err(DecodeError::here(DecodeErrorKind::WrongShape)),
        }
    }
}

impl JsonView {
    /// The member `key` that an object must have.
    pub open spec fn at(self, key: Seq<char>) -> Result<JsonView, Fault> {
        match self {
            JsonView::Object(_) => match self.member(key) {
                Some(value) => Ok(value),
                None => Err(
                    Fault::here(DecodeErrorKind::MissingField).under(PathStepView::Key(key)),
                ),
            },
            _ => Err(Fault::here(DecodeErrorKind::WrongShape)),
        }
    }

    /// The member `key` that an object must have, decoded as a `T`.
    pub open spec fn required<T: Decode>(self, key: Seq<char>) -> Result<T::V, Fault> {
        match self.at(key) {
            Ok(value) => within(T::parse(value), PathStepView::Key(key)),
            Err(e) => Err(e),
        }
    }

    /// The member `key` that an object may have, decoded as a `T`: nothing where
    /// the member is absent or null.
    pub open spec fn optional<T: Decode>(self, key: Seq<char>) -> Result<Option<T::V>, Fault> {
        match self {
            JsonView::Object(_) => match self.member(key) {
                None | Some(JsonView::Null) => Ok(None),
                Some(value) => match T::parse(value) {
                    Ok(v) => Ok(Some(v)),
                    Err(e) => Err(e.under(PathStepView::Key(key))),
                },
            },
            _ => Err(Fault::here(DecodeErrorKind::WrongShape)),
        }
    }
}

/// `r`, with a failure seen from under the member `key`.
pub fn keyed<T: DeepView>(r: Result<T, DecodeError>, key: &str) -> (out: Result<T, DecodeError>)
    ensures
        outcome(out) == within(outcome(r), PathStepView::Key(key@)),
{
    match r {
        Ok(value) => Ok(value),
        Err(e) => Err(e.under(PathStep::Key(key.to_owned()))),
    }
}

impl Json {
    /// The member `key` that an object must have.
    pub fn at(&self, key: &str) -> (r: Result<&Json, DecodeError>)
        ensures
            outcome(r) == self@.at(key@),
    {
        match self {
            Json::Object(_) => match self.member(key) {
                Some(value) => Ok(value),
                None => Err(
                    DecodeError::here(DecodeErrorKind::MissingField).under(
                        PathStep::Key(key.to_owned()),
                    ),
                ),
            },
            _ => Err(DecodeError::here(DecodeErrorKind::WrongShape)),
        }
    }

    /// The member `key` that an object must have, decoded as a `T`.
    pub fn required<T: Decode>(&self, key: &str) -> (r: Result<T, DecodeError>)
        ensures
            outcome(r) == self@.required::<T>(key@),
    {
        match self.at(key) {
            Ok(value) => keyed(T::decode(value), key),
            Err(e) => Err(e),
        }
    }

    /// The member `key` that an object may have, decoded as a `T`: nothing where
    /// the member is absent or null.
    pub fn optional<T: Decode>(&self, key: &str) -> (r: Result<Option<T>, DecodeError>)
        ensures
            outcome(r) == self@.optional::<T>(key@),
    {
        match self {
            Json::Object(_) => match self.member(key) {
                None | Some(Json::Null) => Ok(None),
                Some(value) => match T::decode(value) {
                    Ok(v) => Ok(Some(v)),
                    Err(e) => Err(e.under(PathStep::Key(key.to_owned()))),
                },
            },
            _ => Err(DecodeError::here(DecodeErrorKind::WrongShape)),
        }
    }
}

} // verus!
