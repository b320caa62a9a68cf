//! Scanning of the root page for the tokens that the login needs.
//!
//! A token stands in the page as a field: a marker such as `csrf_token":"`, and
//! behind it a run of letters and digits. The first field of the page counts,
//! and its token is the whole run.

use vstd::prelude::*;
use vstd::string::StrSliceExecFns;
use crate::web_api::text::chars_of;

verus! {

/// Whether `c` may stand in a token: an ASCII letter or digit.
pub open spec fn is_token_char(c: char) -> bool {
    ('A' <= c && c <= 'Z') || ('a' <= c && c <= 'z') || ('0' <= c && c <= '9')
}

/// The length of the run of token characters that begins at `from`.
pub open spec fn run_length(text: Seq<char>, from: int) -> int
    decreases text.len() - from,
{
    if 0 <= from < text.len() && is_token_char(text[from]) {
        1 + run_length(text, from + 1)
    } else {
        0
    }
}

/// Whether `marker` stands in `text` at `at`.
pub open spec fn stands_at(text: Seq<char>, marker: Seq<char>, at: int) -> bool {
    0 <= at && at + marker.len() <= text.len() && text.subrange(at, at + marker.len()) == marker
}

/// Whether a field begins at `at`: the marker, and a token character behind it.
pub open spec fn field_at(text: Seq<char>, marker: Seq<char>, at: int) -> bool {
    stands_at(text, marker, at) && at + marker.len() < text.len() && is_token_char(
        text[at + marker.len()],
    )
}

/// The least place from `from` on at which a field begins.
pub open spec fn first_field(text: Seq<char>, marker: Seq<char>, from: int) -> Option<int>
    decreases text.len() - from,
{
    if from < 0 || from >= text.len() {
        None
    } else if field_at(text, marker, from) {
        Some(from)
    } else {
        first_field(text, marker, from + 1)
    }
}

/// The token of the first field of `text`, where it has a field.
pub open spec fn scraped(text: Seq<char>, marker: Seq<char>) -> Option<Seq<char>> {
    match first_field(text, marker, 0) {
        Some(at) => {
            let start = at + marker.len();
            Some(text.subrange(start, start + run_length(text, start)))
        },
        None => None,
    }
}

/// The marker of the CSRF token.
pub open spec fn csrf_marker() -> Seq<char> {
    "csrf_token\":\""@
}

/// The marker of the rollout hash.
pub open spec fn rollout_marker() -> Seq<char> {
    "rollout_hash\":\""@
}

/// `first_field` finds the least place at which a field begins, and none where
/// the text has no field from `from` on.
pub proof fn lemma_first_field(text: Seq<char>, marker: Seq<char>, from: int)
    requires
        0 <= from,
    ensures
        first_field(text, marker, from) is None <==> forall|at: int|
            from <= at ==> !field_at(text, marker, at),
        first_field(text, marker, from) matches Some(found) ==> from <= found && field_at(
            text,
            marker,
            found,
        ) && forall|at: int| from <= at < found ==> !field_at(text, marker, at),
    decreases text.len() - from,
{
    if from < text.len() {
        lemma_first_field(text, marker, from + 1);
    }
}

/// A run ends within the text, holds token characters only, and no token
/// character follows it.
pub proof fn lemma_run_length(text: Seq<char>, from: int)
    requires
        0 <= from <= text.len(),
    ensures
        0 <= run_length(text, from) <= text.len() - from,
        forall|i: int| from <= i < from + run_length(text, from) ==> is_token_char(text[i]),
        from + run_length(text, from) < text.len() ==> !is_token_char(
            text[from + run_length(text, from)],
        ),
    decreases text.len() - from,
{
    if from < text.len() && is_token_char(text[from]) {
        lemma_run_length(text, from + 1);
    }
}

/// A run is as long as the token characters reach: `length` of them, and then
/// the end of the text or another character.
pub proof fn lemma_run_length_is(text: Seq<char>, from: int, length: int)
    requires
        0 <= from,
        0 <= length,
        from + length <= text.len(),
        forall|i: int| from <= i < from + length ==> is_token_char(text[i]),
        from + length < text.len() ==> !is_token_char(text[from + length]),
    ensures
        run_length(text, from) == length,
    decreases length,
{
    if length > 0 {
        lemma_run_length_is(text, from + 1, length - 1);
    }
}

/// A page yields a token exactly where it holds a field.
pub proof fn lemma_scraped_iff_field(text: Seq<char>, marker: Seq<char>)
    ensures
        scraped(text, marker) is Some <==> exists|at: int| field_at(text, marker, at),
{
    lemma_first_field(text, marker, 0);
    if scraped(text, marker) is Some {
        assert(field_at(text, marker, first_field(text, marker, 0)->Some_0));
    }
}

/// A page that holds the marker, then a token `token` of letters and digits that
/// ends there, yields `token`, whatever stands before and after, as long as no
/// field begins before that marker.
pub proof fn lemma_scraped_token(
    before: Seq<char>,
    marker: Seq<char>,
    token: Seq<char>,
    after: Seq<char>,
)
    requires
        token.len() > 0,
        forall|i: int| 0 <= i < token.len() ==> is_token_char(token[i]),
        after.len() > 0 ==> !is_token_char(after[0]),
        forall|at: int|
            0 <= at < before.len() ==> !field_at(before + marker + token + after, marker, at),
    ensures
        scraped(before + marker + token + after, marker) == Some(token),
{
    let text = before + marker + token + after;
    let at = before.len() as int;
    let start = at + marker.len();
    assert(text.subrange(at, at + marker.len()) =~= marker);
    assert(text[start] == token[0]);
    assert(field_at(text, marker, at));
    lemma_first_field(text, marker, 0);
    assert(first_field(text, marker, 0) == Some(at));
    assert forall|i: int| start <= i < start + token.len() implies is_token_char(text[i]) by {
        assert(text[i] == token[i - start]);
    }
    if start + token.len() < text.len() {
        assert(text[start + token.len()] == after[0]);
    }
    lemma_run_length_is(text, start, token.len() as int);
    assert(text.subrange(start, start + token.len()) =~= token);
}

/// Whether `text` is a token: one or more letters and digits.
pub open spec fn is_token(text: Seq<char>) -> bool {
    text.len() > 0 && forall|i: int| 0 <= i < text.len() ==> is_token_char(#[trigger] text[i])
}

/// What a page yields is a token.
pub proof fn lemma_scraped_is_token(text: Seq<char>, marker: Seq<char>)
    ensures
        scraped(text, marker) matches Some(token) ==> is_token(token),
{
    lemma_first_field(text, marker, 0);
    if first_field(text, marker, 0) is Some {
        let start = first_field(text, marker, 0)->Some_0 + marker.len();
        lemma_run_length(text, start);
    }
}

/// Whether `c` may stand in a token: an ASCII letter or digit.
pub fn token_char(c: char) -> (r: bool)
    ensures
        r == is_token_char(c),
{
    ('A' <= c && c <= 'Z') || ('a' <= c && c <= 'z') || ('0' <= c && c <= '9')
}

/// Whether a field begins at `at`.
fn begins_field(text: &Vec<char>, marker: &Vec<char>, at: usize) -> (r: bool)
    requires
        at <= text.len(),
    ensures
        r == field_at(text@, marker@, at as int),
{
    if marker.len() >= text.len() - at {
        return false;
    }
    let mut k: usize = 0;
    while k < marker.len()
        invariant
            k <= marker.len(),
            at + marker.len() < text.len(),
            forall|i: int| 0 <= i < k ==> text@[at + i] == marker@[i],
        decreases marker.len() - k,
    {
        if text[at + k] != marker[k] {
            assert(text@.subrange(at as int, at + marker.len())[k as int] != marker@[k as int]);
            return false;
        }
        k += 1;
    }
    assert(text@.subrange(at as int, at + marker.len()) =~= marker@);
    token_char(text[at + marker.len()])
}

/// The end of the run of token characters that begins at `from`.
fn run_end(text: &Vec<char>, from: usize) -> (end: usize)
    requires
        from <= text.len(),
    ensures
        end == from + run_length(text@, from as int),
        from <= end <= text.len(),
{
    let mut end: usize = from;
    while end < text.len() && token_char(text[end])
        invariant
            from <= end <= text.len(),
            run_length(text@, from as int) == (end - from) + run_length(text@, end as int),
        decreases text.len() - end,
    {
        end += 1;
    }
    end
}

/// The token of the first field of `body` that `marker` begins: the run of
/// letters and digits behind the marker. None where `body` has no such field.
pub fn scrape(body: &str, marker: &str) -> (token: Option<String>)
    ensures
        token.deep_view() == scraped(body@, marker@),
{
    let text = chars_of(body);
    let mark = chars_of(marker);
    let mut at: usize = 0;
    while at < text.len()
        invariant
            at <= text.len(),
            text@ == body@,
            mark@ == marker@,
            first_field(body@, marker@, 0) == first_field(body@, marker@, at as int),
        decreases text.len() - at,
    {
        if begins_field(&text, &mark, at) {
            let start = at + mark.len();
            let end = run_end(&text, start);
            let token = body.substring_char(start, end).to_owned();
            return Some(token);
        }
        at += 1;
    }
    None
}

/// The CSRF token of the root page: what stands behind the first
/// `csrf_token":"` that a letter or digit follows.
pub fn scrape_csrf_token(body: &str) -> (token: Option<String>)
    ensures
        token.deep_view() == scraped(body@, csrf_marker()),
{
    scrape(body, "csrf_token\":\"")
}

/// The rollout hash of the root page: what stands behind the first
/// `rollout_hash":"` that a letter or digit follows.
pub fn scrape_rollout_hash(body: &str) -> (hash: Option<String>)
    ensures
        hash.deep_view() == scraped(body@, rollout_marker()),
{
    scrape(body, "rollout_hash\":\"")
}

} // verus!
