//! The options of a feed request, and the text that carries them.

use vstd::prelude::*;
use vstd::string::StringExecFns;
use crate::web_api::text::{decimal, decimal_text};

verus! {

/// Which page of a feed is asked for.
#[derive(Debug, PartialEq, Clone, Copy)]
pub struct PaginationOptions<'a> {
    /// How many posts the page holds at most.
    pub count: i16,
    /// The cursor at which the page before ended; none for the first page.
    pub after: Option<&'a str>,
}

/// The mathematical value of a [`PaginationOptions`].
pub struct PaginationOptionsView {
    pub count: i16,
    pub after: Option<Seq<char>>,
}

impl<'a> View for PaginationOptions<'a> {
    type V = PaginationOptionsView;

    open spec fn view(&self) -> PaginationOptionsView {
        PaginationOptionsView { count: self.count, after: self.after.deep_view() }
    }
}

impl<'a> Default for PaginationOptions<'a> {
    /// The first page, of twelve posts.
    fn default() -> (options: Self)
        ensures
            options@ == (PaginationOptionsView { count: 12, after: None }),
    {
        Self { count: 12, after: None }
    }
}

/// The options of a feed request: whose feed, and which page of it.
#[derive(Debug, PartialEq, Clone, Copy)]
pub struct FetchUserFeedOptions<'a, 'b> {
    user_id: Option<&'a str>,
    pagination: PaginationOptions<'b>,
}

/// The mathematical value of a [`FetchUserFeedOptions`].
pub struct FetchUserFeedOptionsView {
    pub user_id: Option<Seq<char>>,
    pub pagination: PaginationOptionsView,
}

impl<'a, 'b> View for FetchUserFeedOptions<'a, 'b> {
    type V = FetchUserFeedOptionsView;

    closed spec fn view(&self) -> FetchUserFeedOptionsView {
        FetchUserFeedOptionsView { user_id: self.user_id.deep_view(), pagination: self.pagination@ }
    }
}

impl<'a, 'b> DeepView for FetchUserFeedOptions<'a, 'b> {
    type V = FetchUserFeedOptionsView;

    open spec fn deep_view(&self) -> FetchUserFeedOptionsView {
        self@
    }
}

/// What `serde_json::to_string` writes for a string: the JSON string literal
/// that stands for it.
pub uninterp spec fn json_string_literal(text: Seq<char>) -> Seq<char>;

/// The JSON string literal that stands for `text`, quotes included.
///
/// Calls `serde_json::to_string` on the string. That call has no failure for a
/// string: it writes into memory, and a string always has a literal.
#[verifier::external_body]
pub(crate) fn json_quote(text: &str) -> (literal: String)
    ensures
        literal@ == json_string_literal(text@),
{
    serde_json::to_string(text).unwrap_or_default()
}

/// The JSON text of a string that may be absent: its literal, or `null`.
pub open spec fn nullable_text(text: Option<Seq<char>>) -> Seq<char> {
    match text {
        Some(text) => json_string_literal(text),
        None => "null"@,
    }
}

impl FetchUserFeedOptionsView {
    /// The defaults: no user, and the first page of twelve posts.
    pub open spec fn initial() -> FetchUserFeedOptionsView {
        FetchUserFeedOptionsView {
            user_id: None,
            pagination: PaginationOptionsView { count: 12, after: None },
        }
    }

    /// The JSON object that carries the options: `id`, `first` and `after`, in
    /// this order and without spaces.
    pub open spec fn json_text(self) -> Seq<char> {
        "{\"id\":"@ + nullable_text(self.user_id) + ",\"first\":"@ + decimal(
            self.pagination.count as int,
        ) + ",\"after\":"@ + nullable_text(self.pagination.after) + "}"@
    }
}

/// The options without overrides are written as
/// `{"id":null,"first":12,"after":null}`.
pub proof fn lemma_default_options_text()
    ensures
        FetchUserFeedOptionsView::initial().json_text()
            == "{\"id\":null,\"first\":12,\"after\":null}"@,
{
    reveal_strlit("{\"id\":");
    reveal_strlit("null");
    reveal_strlit(",\"first\":");
    reveal_strlit(",\"after\":");
    reveal_strlit("}");
    reveal_strlit("{\"id\":null,\"first\":12,\"after\":null}");
    reveal_with_fuel(crate::web_api::text::digits, 3);
    assert(decimal(12) =~= seq!['1', '2']);
    assert(FetchUserFeedOptionsView::initial().json_text()
        =~= "{\"id\":null,\"first\":12,\"after\":null}"@);
}

/// Appends the JSON text of a string that may be absent.
fn push_nullable(out: &mut String, text: Option<&str>)
    ensures
        final(out)@ == old(out)@ + nullable_text(text.deep_view()),
{
    match text {
        Some(text) => {
            let literal = json_quote(text);
            out.append(literal.as_str());
        },
        None => {
            out.append("null");
        },
    }
}

impl<'a, 'b> FetchUserFeedOptions<'a, 'b> {
    /// These options, for the feed of the user `user_id`.
    #[must_use]
    pub fn set_user_id(self, user_id: &'a str) -> (options: Self)
        ensures
            options@ == (FetchUserFeedOptionsView {
                user_id: Some(user_id@),
                pagination: self@.pagination,
            }),
    {
        Self { user_id: Some(user_id), pagination: self.pagination }
    }

    /// These options, for the page that `pagination` names.
    #[must_use]
    pub fn set_pagination(self, pagination: PaginationOptions<'b>) -> (options: Self)
        ensures
            options@ == (FetchUserFeedOptionsView {
                user_id: self@.user_id,
                pagination: pagination@,
            }),
    {
        Self { user_id: self.user_id, pagination }
    }

    /// The JSON object that carries the options, as the feed query takes it.
    pub fn to_json(&self) -> (text: String)
        ensures
            text@ == self@.json_text(),
    {
        let mut text = String::new();
        text.append("{\"id\":");
        push_nullable(&mut text, self.user_id);
        text.append(",\"first\":");
        let count = decimal_text(self.pagination.count as i64);
        text.append(count.as_str());
        text.append(",\"after\":");
        push_nullable(&mut text, self.pagination.after);
        text.append("}");
        assert(text@ =~= self@.json_text());
        text
    }
}

impl<'a, 'b> Default for FetchUserFeedOptions<'a, 'b> {
    /// No user, and the first page of twelve posts.
    fn default() -> (options: Self)
        ensures
            options@ == FetchUserFeedOptionsView::initial(),
    {
        Self { pagination: PaginationOptions::default(), user_id: None }
    }
}

} // verus!
