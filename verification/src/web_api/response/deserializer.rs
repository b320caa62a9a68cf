//! The feed of a user, as the query answers with it under the user.

use vstd::prelude::*;
use crate::web_api::decode::{outcome, DecodeError, Fault};
use crate::web_api::domain::{UserFeed, UserFeedView};
use crate::web_api::json::{Json, JsonView};

verus! {

/// The feed that `{edge_owner_to_timeline_media: F}` carries.
pub open spec fn user_feed_of(j: JsonView) -> Result<UserFeedView, Fault> {
    j.required::<UserFeed>("edge_owner_to_timeline_media"@)
}

/// The feed of a user, from `{edge_owner_to_timeline_media: F}`.
pub fn nested_user_feed(j: &Json) -> (r: Result<UserFeed, DecodeError>)
    ensures
        outcome(r) == user_feed_of(j@),
{
    j.required::<UserFeed>("edge_owner_to_timeline_media")
}

} // verus!
