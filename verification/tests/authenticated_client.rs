use std::marker::PhantomData;

use instagram::web_api::behaviour::{
    CancelPostLike, CommentPost, DeleteComment, DeleteMedia, FetchHighlightReelMedia,
    FetchHighlightReels, FetchLocationFeed, FetchLocationStoryFeed, FetchMediaComments,
    FetchMediaInfos, FetchMediaLikers, FetchReelsFeed, FetchReelsTray, FetchStoryFeed,
    FetchTagFeed, FetchTagStoryFeed, FetchTaggedUserFeed, FetchTimelineFeed, FetchUserFeed,
    FetchUserFollowers, FetchUserFollowing, FetchUserInfos, Follow, LikePost, PostPhoto, Search,
    UnFollow,
};
use instagram::web_api::AuthenticatedClient as Client;

/// Tells whether `T` has a capability: the constant of the capability is `true`
/// on `Probe<T>` itself where `T` has it, and falls back to `false` otherwise.
struct Probe<T>(PhantomData<T>);

trait Lacks {
    const FETCH_USER_INFOS: bool = false;
    const FETCH_USER_FEED: bool = false;
    const FETCH_MEDIA_INFOS: bool = false;
    const FETCH_MEDIA_COMMENTS: bool = false;
    const SEARCH: bool = false;
    const FETCH_TAG_FEED: bool = false;
    const FETCH_LOCATION_FEED: bool = false;
    const FETCH_STORY_FEED: bool = false;
    const FETCH_HIGHLIGHT_REEL_MEDIA: bool = false;
    const FETCH_TAGGED_USER_FEED: bool = false;
    const FETCH_TAG_STORY_FEED: bool = false;
    const FETCH_LOCATION_STORY_FEED: bool = false;
    const FETCH_MEDIA_LIKERS: bool = false;
    const FETCH_USER_FOLLOWING: bool = false;
    const FETCH_USER_FOLLOWERS: bool = false;
    const LIKE_POST: bool = false;
    const CANCEL_POST_LIKE: bool = false;
    const DELETE_MEDIA: bool = false;
    const FOLLOW: bool = false;
    const UN_FOLLOW: bool = false;
    const COMMENT_POST: bool = false;
    const DELETE_COMMENT: bool = false;
    const POST_PHOTO: bool = false;
    const FETCH_TIMELINE_FEED: bool = false;
    const FETCH_REELS_TRAY: bool = false;
    const FETCH_REELS_FEED: bool = false;
    const FETCH_HIGHLIGHT_REELS: bool = false;
}

impl<T> Lacks for Probe<T> {}

impl<T: FetchUserInfos> Probe<T> {
    const FETCH_USER_INFOS: bool = true;
}

impl<T: FetchUserFeed> Probe<T> {
    const FETCH_USER_FEED: bool = true;
}

impl<T: FetchMediaInfos> Probe<T> {
    const FETCH_MEDIA_INFOS: bool = true;
}

impl<T: FetchMediaComments> Probe<T> {
    const FETCH_MEDIA_COMMENTS: bool = true;
}

impl<T: Search> Probe<T> {
    const SEARCH: bool = true;
}

impl<T: FetchTagFeed> Probe<T> {
    const FETCH_TAG_FEED: bool = true;
}

impl<T: FetchLocationFeed> Probe<T> {
    const FETCH_LOCATION_FEED: bool = true;
}

impl<T: FetchStoryFeed> Probe<T> {
    const FETCH_STORY_FEED: bool = true;
}

impl<T: FetchHighlightReelMedia> Probe<T> {
    const FETCH_HIGHLIGHT_REEL_MEDIA: bool = true;
}

impl<T: FetchTaggedUserFeed> Probe<T> {
    const FETCH_TAGGED_USER_FEED: bool = true;
}

impl<T: FetchTagStoryFeed> Probe<T> {
    const FETCH_TAG_STORY_FEED: bool = true;
}

impl<T: FetchLocationStoryFeed> Probe<T> {
    const FETCH_LOCATION_STORY_FEED: bool = true;
}

impl<T: FetchMediaLikers> Probe<T> {
    const FETCH_MEDIA_LIKERS: bool = true;
}

impl<T: FetchUserFollowing> Probe<T> {
    const FETCH_USER_FOLLOWING: bool = true;
}

impl<T: FetchUserFollowers> Probe<T> {
    const FETCH_USER_FOLLOWERS: bool = true;
}

impl<T: LikePost> Probe<T> {
    const LIKE_POST: bool = true;
}

impl<T: CancelPostLike> Probe<T> {
    const CANCEL_POST_LIKE: bool = true;
}

impl<T: DeleteMedia> Probe<T> {
    const DELETE_MEDIA: bool = true;
}

impl<T: Follow> Probe<T> {
    const FOLLOW: bool = true;
}

impl<T: UnFollow> Probe<T> {
    const UN_FOLLOW: bool = true;
}

impl<T: CommentPost> Probe<T> {
    const COMMENT_POST: bool = true;
}

impl<T: DeleteComment> Probe<T> {
    const DELETE_COMMENT: bool = true;
}

impl<T: PostPhoto> Probe<T> {
    const POST_PHOTO: bool = true;
}

impl<T: FetchTimelineFeed> Probe<T> {
    const FETCH_TIMELINE_FEED: bool = true;
}

impl<T: FetchReelsTray> Probe<T> {
    const FETCH_REELS_TRAY: bool = true;
}

impl<T: FetchReelsFeed> Probe<T> {
    const FETCH_REELS_FEED: bool = true;
}

impl<T: FetchHighlightReels> Probe<T> {
    const FETCH_HIGHLIGHT_REELS: bool = true;
}

#[test]
fn authenticated_client_behaviour() {
    assert!(Probe::<Client>::FETCH_USER_INFOS);
    // The authenticated client hands both fetches on to the client that it wraps.
    assert!(Probe::<Client>::FETCH_USER_FEED);
    // Nothing else is implemented yet.
    assert!(!Probe::<Client>::FETCH_MEDIA_INFOS);
    assert!(!Probe::<Client>::FETCH_MEDIA_COMMENTS);
    assert!(!Probe::<Client>::SEARCH);
    assert!(!Probe::<Client>::FETCH_TAG_FEED);
    assert!(!Probe::<Client>::FETCH_LOCATION_FEED);
    assert!(!Probe::<Client>::FETCH_STORY_FEED);
    assert!(!Probe::<Client>::FETCH_HIGHLIGHT_REEL_MEDIA);
    assert!(!Probe::<Client>::FETCH_TAGGED_USER_FEED);
    assert!(!Probe::<Client>::FETCH_TAG_STORY_FEED);
    assert!(!Probe::<Client>::FETCH_LOCATION_STORY_FEED);
    assert!(!Probe::<Client>::FETCH_MEDIA_LIKERS);
    assert!(!Probe::<Client>::FETCH_USER_FOLLOWING);
    assert!(!Probe::<Client>::FETCH_USER_FOLLOWERS);
    assert!(!Probe::<Client>::LIKE_POST);
    assert!(!Probe::<Client>::CANCEL_POST_LIKE);
    assert!(!Probe::<Client>::DELETE_MEDIA);
    assert!(!Probe::<Client>::FOLLOW);
    assert!(!Probe::<Client>::UN_FOLLOW);
    assert!(!Probe::<Client>::COMMENT_POST);
    assert!(!Probe::<Client>::DELETE_COMMENT);
    assert!(!Probe::<Client>::POST_PHOTO);
    assert!(!Probe::<Client>::FETCH_TIMELINE_FEED);
    assert!(!Probe::<Client>::FETCH_REELS_TRAY);
    assert!(!Probe::<Client>::FETCH_REELS_FEED);
    assert!(!Probe::<Client>::FETCH_HIGHLIGHT_REELS);
}
