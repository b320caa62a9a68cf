//! The flat records that the replies of the endpoints are decoded into.

use vstd::prelude::*;
use crate::web_api::decode::{keyed, Decode, DecodeError, Fault};
use crate::web_api::domain::deserializer::{
    caption_at, count_at, lemma_caption_is_last_edge, lemma_nodes_keep_order, nested_media,
    nested_media_comment, nodes_at, read_caption, read_count,
};
use crate::web_api::json::{Json, JsonView};
use crate::web_api::options::{PaginationOptions, PaginationOptionsView};

pub mod deserializer;
pub mod infos;

pub use infos::LoginInfos;
pub use infos::UserInfos;

verus! {

/// A page of the posts of one user.
///
/// `count` is the number of posts that the platform reports for the user, not
/// the number of `medias` on this page.
#[derive(Debug, PartialEq)]
pub struct UserFeed {
    pub count: i32,
    /// The posts of this page, in the order of the reply.
    pub medias: Vec<Media>,
    pub pagination_infos: PaginationInfos,
}

/// The mathematical value of a [`UserFeed`].
pub struct UserFeedView {
    pub count: i32,
    pub medias: Seq<MediaView>,
    pub pagination_infos: PaginationInfosView,
}

impl View for UserFeed {
    type V = UserFeedView;

    open spec fn view(&self) -> UserFeedView {
        UserFeedView {
            count: self.count,
            medias: self.medias.deep_view(),
            pagination_infos: self.pagination_infos.deep_view(),
        }
    }
}

impl DeepView for UserFeed {
    type V = UserFeedView;

    open spec fn deep_view(&self) -> UserFeedView {
        self@
    }
}

impl Decode for UserFeed {
    open spec fn parse(j: JsonView) -> Result<UserFeedView, Fault> {
        let count = j.required::<i32>("count"@);
        let medias = nodes_at::<Media>(j, "edges"@);
        let pagination_infos = j.required::<PaginationInfos>("page_info"@);
        if count is Err {
            Err(count->Err_0)
        } else if medias is Err {
            Err(medias->Err_0)
        } else if pagination_infos is Err {
            Err(pagination_infos->Err_0)
        } else {
            Ok(
                UserFeedView {
                    count: count->Ok_0,
                    medias: medias->Ok_0,
                    pagination_infos: pagination_infos->Ok_0,
                },
            )
        }
    }

    fn decode(j: &Json) -> (r: Result<UserFeed, DecodeError>) {
        let count = j.required::<i32>("count")?;
        let medias = match j.at("edges") {
            Ok(list) => keyed(nested_media(list), "edges"),
            Err(e) => Err(e),
        }?;
        let pagination_infos = j.required::<PaginationInfos>("page_info")?;
        Ok(UserFeed { count, medias, pagination_infos })
    }
}

/// Where a page ends. The cursor is opaque: to go on, it is handed back as it came.
#[derive(Debug, PartialEq)]
pub struct PaginationInfos {
    pub end_cursor: Option<String>,
    pub has_next_page: bool,
}

/// The mathematical value of a [`PaginationInfos`].
pub struct PaginationInfosView {
    pub end_cursor: Option<Seq<char>>,
    pub has_next_page: bool,
}

impl View for PaginationInfos {
    type V = PaginationInfosView;

    open spec fn view(&self) -> PaginationInfosView {
        PaginationInfosView {
            end_cursor: self.end_cursor.deep_view(),
            has_next_page: self.has_next_page,
        }
    }
}

impl DeepView for PaginationInfos {
    type V = PaginationInfosView;

    open spec fn deep_view(&self) -> PaginationInfosView {
        self@
    }
}

impl Decode for PaginationInfos {
    open spec fn parse(j: JsonView) -> Result<PaginationInfosView, Fault> {
        let end_cursor = j.optional::<String>("end_cursor"@);
        let has_next_page = j.required::<bool>("has_next_page"@);
        if end_cursor is Err {
            Err(end_cursor->Err_0)
        } else if has_next_page is Err {
            Err(has_next_page->Err_0)
        } else {
            Ok(
                PaginationInfosView {
                    end_cursor: end_cursor->Ok_0,
                    has_next_page: has_next_page->Ok_0,
                },
            )
        }
    }

    fn decode(j: &Json) -> (r: Result<PaginationInfos, DecodeError>) {
        let end_cursor = j.optional::<String>("end_cursor")?;
        let has_next_page = j.required::<bool>("has_next_page")?;
        Ok(PaginationInfos { end_cursor, has_next_page })
    }
}

/// The size of a media, in pixels.
#[derive(Debug, PartialEq)]
pub struct MediaDimensions {
    pub height: i32,
    pub width: i32,
}

/// The mathematical value of a [`MediaDimensions`].
pub struct MediaDimensionsView {
    pub height: i32,
    pub width: i32,
}

impl View for MediaDimensions {
    type V = MediaDimensionsView;

    open spec fn view(&self) -> MediaDimensionsView {
        MediaDimensionsView {
            height: self.height,
            width: self.width,
        }
    }
}

impl DeepView for MediaDimensions {
    type V = MediaDimensionsView;

    open spec fn deep_view(&self) -> MediaDimensionsView {
        self@
    }
}

impl Decode for MediaDimensions {
    open spec fn parse(j: JsonView) -> Result<MediaDimensionsView, Fault> {
        let height = j.required::<i32>("height"@);
        let width = j.required::<i32>("width"@);
        if height is Err {
            Err(height->Err_0)
        } else if width is Err {
            Err(width->Err_0)
        } else {
            Ok(
                MediaDimensionsView {
                    height: height->Ok_0,
                    width: width->Ok_0,
                },
            )
        }
    }

    fn decode(j: &Json) -> (r: Result<MediaDimensions, DecodeError>) {
        let height = j.required::<i32>("height")?;
        let width = j.required::<i32>("width")?;
        Ok(MediaDimensions { height, width })
    }
}

/// The comments of a media: their number, and one page of them.
#[derive(Debug, PartialEq)]
pub struct MediaComments {
    pub count: i32,
    pub data: Vec<MediaComment>,
    pub pagination_infos: PaginationInfos,
}

/// The mathematical value of a [`MediaComments`].
pub struct MediaCommentsView {
    pub count: i32,
    pub data: Seq<MediaCommentView>,
    pub pagination_infos: PaginationInfosView,
}

impl View for MediaComments {
    type V = MediaCommentsView;

    open spec fn view(&self) -> MediaCommentsView {
        MediaCommentsView {
            count: self.count,
            data: self.data.deep_view(),
            pagination_infos: self.pagination_infos.deep_view(),
        }
    }
}

impl DeepView for MediaComments {
    type V = MediaCommentsView;

    open spec fn deep_view(&self) -> MediaCommentsView {
        self@
    }
}

impl Decode for MediaComments {
    open spec fn parse(j: JsonView) -> Result<MediaCommentsView, Fault> {
        let count = j.required::<i32>("count"@);
        let data = nodes_at::<MediaComment>(j, "edges"@);
        let pagination_infos = j.required::<PaginationInfos>("page_info"@);
        if count is Err {
            Err(count->Err_0)
        } else if data is Err {
            Err(data->Err_0)
        } else if pagination_infos is Err {
            Err(pagination_infos->Err_0)
        } else {
            Ok(
                MediaCommentsView {
                    count: count->Ok_0,
                    data: data->Ok_0,
                    pagination_infos: pagination_infos->Ok_0,
                },
            )
        }
    }

    fn decode(j: &Json) -> (r: Result<MediaComments, DecodeError>) {
        let count = j.required::<i32>("count")?;
        let data = match j.at("edges") {
            Ok(list) => keyed(nested_media_comment(list), "edges"),
            Err(e) => Err(e),
        }?;
        let pagination_infos = j.required::<PaginationInfos>("page_info")?;
        Ok(MediaComments { count, data, pagination_infos })
    }
}

/// One comment.
#[derive(Debug, PartialEq)]
pub struct MediaComment {
    pub id: String,
    pub created_at: i32,
    pub did_report_as_spam: bool,
    pub text: String,
    pub viewer_has_liked: bool,
    pub owner: CommentUser,
}

/// The mathematical value of a [`MediaComment`].
pub struct MediaCommentView {
    pub id: Seq<char>,
    pub created_at: i32,
    pub did_report_as_spam: bool,
    pub text: Seq<char>,
    pub viewer_has_liked: bool,
    pub owner: CommentUserView,
}

impl View for MediaComment {
    type V = MediaCommentView;

    open spec fn view(&self) -> MediaCommentView {
        MediaCommentView {
            id: self.id@,
            created_at: self.created_at,
            did_report_as_spam: self.did_report_as_spam,
            text: self.text@,
            viewer_has_liked: self.viewer_has_liked,
            owner: self.owner.deep_view(),
        }
    }
}

impl DeepView for MediaComment {
    type V = MediaCommentView;

    open spec fn deep_view(&self) -> MediaCommentView {
        self@
    }
}

impl Decode for MediaComment {
    open spec fn parse(j: JsonView) -> Result<MediaCommentView, Fault> {
        let id = j.required::<String>("id"@);
        let created_at = j.required::<i32>("created_at"@);
        let did_report_as_spam = j.required::<bool>("did_report_as_spam"@);
        let text = j.required::<String>("text"@);
        let viewer_has_liked = j.required::<bool>("viewer_has_liked"@);
        let owner = j.required::<CommentUser>("owner"@);
        if id is Err {
            Err(id->Err_0)
        } else if created_at is Err {
            Err(created_at->Err_0)
        } else if did_report_as_spam is Err {
            Err(did_report_as_spam->Err_0)
        } else if text is Err {
            Err(text->Err_0)
        } else if viewer_has_liked is Err {
            Err(viewer_has_liked->Err_0)
        } else if owner is Err {
            Err(owner->Err_0)
        } else {
            Ok(
                MediaCommentView {
                    id: id->Ok_0,
                    created_at: created_at->Ok_0,
                    did_report_as_spam: did_report_as_spam->Ok_0,
                    text: text->Ok_0,
                    viewer_has_liked: viewer_has_liked->Ok_0,
                    owner: owner->Ok_0,
                },
            )
        }
    }

    fn decode(j: &Json) -> (r: Result<MediaComment, DecodeError>) {
        let id = j.required::<String>("id")?;
        let created_at = j.required::<i32>("created_at")?;
        let did_report_as_spam = j.required::<bool>("did_report_as_spam")?;
        let text = j.required::<String>("text")?;
        let viewer_has_liked = j.required::<bool>("viewer_has_liked")?;
        let owner = j.required::<CommentUser>("owner")?;
        Ok(MediaComment { id, created_at, did_report_as_spam, text, viewer_has_liked, owner })
    }
}

/// The author of a comment.
#[derive(Debug, PartialEq)]
pub struct CommentUser {
    pub id: String,
    pub is_verified: bool,
    pub profile_pic_url: String,
    pub username: String,
}

/// The mathematical value of a [`CommentUser`].
pub struct CommentUserView {
    pub id: Seq<char>,
    pub is_verified: bool,
    pub profile_pic_url: Seq<char>,
    pub username: Seq<char>,
}

impl View for CommentUser {
    type V = CommentUserView;

    open spec fn view(&self) -> CommentUserView {
        CommentUserView {
            id: self.id@,
            is_verified: self.is_verified,
            profile_pic_url: self.profile_pic_url@,
            username: self.username@,
        }
    }
}

impl DeepView for CommentUser {
    type V = CommentUserView;

    open spec fn deep_view(&self) -> CommentUserView {
        self@
    }
}

impl Decode for CommentUser {
    open spec fn parse(j: JsonView) -> Result<CommentUserView, Fault> {
        let id = j.required::<String>("id"@);
        let is_verified = j.required::<bool>("is_verified"@);
        let profile_pic_url = j.required::<String>("profile_pic_url"@);
        let username = j.required::<String>("username"@);
        if id is Err {
            Err(id->Err_0)
        } else if is_verified is Err {
            Err(is_verified->Err_0)
        } else if profile_pic_url is Err {
            Err(profile_pic_url->Err_0)
        } else if username is Err {
            Err(username->Err_0)
        } else {
            Ok(
                CommentUserView {
                    id: id->Ok_0,
                    is_verified: is_verified->Ok_0,
                    profile_pic_url: profile_pic_url->Ok_0,
                    username: username->Ok_0,
                },
            )
        }
    }

    fn decode(j: &Json) -> (r: Result<CommentUser, DecodeError>) {
        let id = j.required::<String>("id")?;
        let is_verified = j.required::<bool>("is_verified")?;
        let profile_pic_url = j.required::<String>("profile_pic_url")?;
        let username = j.required::<String>("username")?;
        Ok(CommentUser { id, is_verified, profile_pic_url, username })
    }
}

/// The user that a media belongs to.
#[derive(Debug, PartialEq)]
pub struct MediaOwner {
    pub id: String,
    pub username: String,
}

/// The mathematical value of a [`MediaOwner`].
pub struct MediaOwnerView {
    pub id: Seq<char>,
    pub username: Seq<char>,
}

impl View for MediaOwner {
    type V = MediaOwnerView;

    open spec fn view(&self) -> MediaOwnerView {
        MediaOwnerView {
            id: self.id@,
            username: self.username@,
        }
    }
}

impl DeepView for MediaOwner {
    type V = MediaOwnerView;

    open spec fn deep_view(&self) -> MediaOwnerView {
        self@
    }
}

impl Decode for MediaOwner {
    open spec fn parse(j: JsonView) -> Result<MediaOwnerView, Fault> {
        let id = j.required::<String>("id"@);
        let username = j.required::<String>("username"@);
        if id is Err {
            Err(id->Err_0)
        } else if username is Err {
            Err(username->Err_0)
        } else {
            Ok(
                MediaOwnerView {
                    id: id->Ok_0,
                    username: username->Ok_0,
                },
            )
        }
    }

    fn decode(j: &Json) -> (r: Result<MediaOwner, DecodeError>) {
        let id = j.required::<String>("id")?;
        let username = j.required::<String>("username")?;
        Ok(MediaOwner { id, username })
    }
}

/// One rendition of a thumbnail.
#[derive(Debug, PartialEq)]
pub struct ThumbnailResource {
    pub src: String,
    pub height: i32,
    pub width: i32,
}

/// The mathematical value of a [`ThumbnailResource`].
pub struct ThumbnailResourceView {
    pub src: Seq<char>,
    pub height: i32,
    pub width: i32,
}

impl View for ThumbnailResource {
    type V = ThumbnailResourceView;

    open spec fn view(&self) -> ThumbnailResourceView {
        ThumbnailResourceView {
            src: self.src@,
            height: self.height,
            width: self.width,
        }
    }
}

impl DeepView for ThumbnailResource {
    type V = ThumbnailResourceView;

    open spec fn deep_view(&self) -> ThumbnailResourceView {
        self@
    }
}

impl Decode for ThumbnailResource {
    open spec fn parse(j: JsonView) -> Result<ThumbnailResourceView, Fault> {
        let src = j.required::<String>("src"@);
        let height = j.required::<i32>("config_height"@);
        let width = j.required::<i32>("config_width"@);
        if src is Err {
            Err(src->Err_0)
        } else if height is Err {
            Err(height->Err_0)
        } else if width is Err {
            Err(width->Err_0)
        } else {
            Ok(
                ThumbnailResourceView {
                    src: src->Ok_0,
                    height: height->Ok_0,
                    width: width->Ok_0,
                },
            )
        }
    }

    fn decode(j: &Json) -> (r: Result<ThumbnailResource, DecodeError>) {
        let src = j.required::<String>("src")?;
        let height = j.required::<i32>("config_height")?;
        let width = j.required::<i32>("config_width")?;
        Ok(ThumbnailResource { src, height, width })
    }
}

/// A place that a media is tagged with.
#[derive(Debug, PartialEq)]
pub struct Location {
    pub id: String,
    pub has_public_page: bool,
    pub name: String,
    pub slug: String,
}

/// The mathematical value of a [`Location`].
pub struct LocationView {
    pub id: Seq<char>,
    pub has_public_page: bool,
    pub name: Seq<char>,
    pub slug: Seq<char>,
}

impl View for Location {
    type V = LocationView;

    open spec fn view(&self) -> LocationView {
        LocationView {
            id: self.id@,
            has_public_page: self.has_public_page,
            name: self.name@,
            slug: self.slug@,
        }
    }
}

impl DeepView for Location {
    type V = LocationView;

    open spec fn deep_view(&self) -> LocationView {
        self@
    }
}

impl Decode for Location {
    open spec fn parse(j: JsonView) -> Result<LocationView, Fault> {
        let id = j.required::<String>("id"@);
        let has_public_page = j.required::<bool>("has_public_page"@);
        let name = j.required::<String>("name"@);
        let slug = j.required::<String>("slug"@);
        if id is Err {
            Err(id->Err_0)
        } else if has_public_page is Err {
            Err(has_public_page->Err_0)
        } else if name is Err {
            Err(name->Err_0)
        } else if slug is Err {
            Err(slug->Err_0)
        } else {
            Ok(
                LocationView {
                    id: id->Ok_0,
                    has_public_page: has_public_page->Ok_0,
                    name: name->Ok_0,
                    slug: slug->Ok_0,
                },
            )
        }
    }

    fn decode(j: &Json) -> (r: Result<Location, DecodeError>) {
        let id = j.required::<String>("id")?;
        let has_public_page = j.required::<bool>("has_public_page")?;
        let name = j.required::<String>("name")?;
        let slug = j.required::<String>("slug")?;
        Ok(Location { id, has_public_page, name, slug })
    }
}

/// One post.
#[derive(Debug, PartialEq)]
pub struct Media {
    pub id: String,
    /// The caption, where the post has one.
    pub caption: Option<String>,
    pub comments: MediaComments,
    pub comments_disabled: bool,
    pub dimensions: MediaDimensions,
    pub display_url: String,
    /// The number of likes.
    pub like: i32,
    pub is_video: bool,
    pub media_preview: Option<String>,
    pub owner: MediaOwner,
    pub shortcode: String,
    pub taken_at_timestamp: i64,
    pub thumbnails: Vec<ThumbnailResource>,
    pub thumbnail_src: String,
    pub tracking_token: String,
    pub viewer_can_reshare: bool,
    pub viewer_has_liked: bool,
    pub viewer_has_saved: bool,
    pub viewer_has_saved_to_collection: bool,
    pub viewer_in_photo_of_you: bool,
}

/// The mathematical value of a [`Media`].
pub struct MediaView {
    pub id: Seq<char>,
    pub caption: Option<Seq<char>>,
    pub comments: MediaCommentsView,
    pub comments_disabled: bool,
    pub dimensions: MediaDimensionsView,
    pub display_url: Seq<char>,
    pub like: i32,
    pub is_video: bool,
    pub media_preview: Option<Seq<char>>,
    pub owner: MediaOwnerView,
    pub shortcode: Seq<char>,
    pub taken_at_timestamp: i64,
    pub thumbnails: Seq<ThumbnailResourceView>,
    pub thumbnail_src: Seq<char>,
    pub tracking_token: Seq<char>,
    pub viewer_can_reshare: bool,
    pub viewer_has_liked: bool,
    pub viewer_has_saved: bool,
    pub viewer_has_saved_to_collection: bool,
    pub viewer_in_photo_of_you: bool,
}

impl View for Media {
    type V = MediaView;

    open spec fn view(&self) -> MediaView {
        MediaView {
            id: self.id@,
            caption: self.caption.deep_view(),
            comments: self.comments.deep_view(),
            comments_disabled: self.comments_disabled,
            dimensions: self.dimensions.deep_view(),
            display_url: self.display_url@,
            like: self.like,
            is_video: self.is_video,
            media_preview: self.media_preview.deep_view(),
            owner: self.owner.deep_view(),
            shortcode: self.shortcode@,
            taken_at_timestamp: self.taken_at_timestamp,
            thumbnails: self.thumbnails.deep_view(),
            thumbnail_src: self.thumbnail_src@,
            tracking_token: self.tracking_token@,
            viewer_can_reshare: self.viewer_can_reshare,
            viewer_has_liked: self.viewer_has_liked,
            viewer_has_saved: self.viewer_has_saved,
            viewer_has_saved_to_collection: self.viewer_has_saved_to_collection,
            viewer_in_photo_of_you: self.viewer_in_photo_of_you,
        }
    }
}

impl DeepView for Media {
    type V = MediaView;

    open spec fn deep_view(&self) -> MediaView {
        self@
    }
}

impl Decode for Media {
    open spec fn parse(j: JsonView) -> Result<MediaView, Fault> {
        let id = j.required::<String>("id"@);
        let caption = caption_at(j, "edge_media_to_caption"@);
        let comments = j.required::<MediaComments>("edge_media_to_comment"@);
        let comments_disabled = j.required::<bool>("comments_disabled"@);
        let dimensions = j.required::<MediaDimensions>("dimensions"@);
        let display_url = j.required::<String>("display_url"@);
        let like = count_at(j, "edge_media_preview_like"@);
        let is_video = j.required::<bool>("is_video"@);
        let media_preview = j.optional::<String>("media_preview"@);
        let owner = j.required::<MediaOwner>("owner"@);
        let shortcode = j.required::<String>("shortcode"@);
        let taken_at_timestamp = j.required::<i64>("taken_at_timestamp"@);
        let thumbnails = j.required::<Vec<ThumbnailResource>>("thumbnail_resources"@);
        let thumbnail_src = j.required::<String>("thumbnail_src"@);
        let tracking_token = j.required::<String>("tracking_token"@);
        let viewer_can_reshare = j.required::<bool>("viewer_can_reshare"@);
        let viewer_has_liked = j.required::<bool>("viewer_has_liked"@);
        let viewer_has_saved = j.required::<bool>("viewer_has_saved"@);
        let viewer_has_saved_to_collection = j.required::<bool>("viewer_has_saved_to_collection"@);
        let viewer_in_photo_of_you = j.required::<bool>("viewer_in_photo_of_you"@);
        if id is Err {
            Err(id->Err_0)
        } else if caption is Err {
            Err(caption->Err_0)
        } else if comments is Err {
            Err(comments->Err_0)
        } else if comments_disabled is Err {
            Err(comments_disabled->Err_0)
        } else if dimensions is Err {
            Err(dimensions->Err_0)
        } else if display_url is Err {
            Err(display_url->Err_0)
        } else if like is Err {
            Err(like->Err_0)
        } else if is_video is Err {
            Err(is_video->Err_0)
        } else if media_preview is Err {
            Err(media_preview->Err_0)
        } else if owner is Err {
            Err(owner->Err_0)
        } else if shortcode is Err {
            Err(shortcode->Err_0)
        } else if taken_at_timestamp is Err {
            Err(taken_at_timestamp->Err_0)
        } else if thumbnails is Err {
            Err(thumbnails->Err_0)
        } else if thumbnail_src is Err {
            Err(thumbnail_src->Err_0)
        } else if tracking_token is Err {
            Err(tracking_token->Err_0)
        } else if viewer_can_reshare is Err {
            Err(viewer_can_reshare->Err_0)
        } else if viewer_has_liked is Err {
            Err(viewer_has_liked->Err_0)
        } else if viewer_has_saved is Err {
            Err(viewer_has_saved->Err_0)
        } else if viewer_has_saved_to_collection is Err {
            Err(viewer_has_saved_to_collection->Err_0)
        } else if viewer_in_photo_of_you is Err {
            Err(viewer_in_photo_of_you->Err_0)
        } else {
            Ok(
                MediaView {
                    id: id->Ok_0,
                    caption: caption->Ok_0,
                    comments: comments->Ok_0,
                    comments_disabled: comments_disabled->Ok_0,
                    dimensions: dimensions->Ok_0,
                    display_url: display_url->Ok_0,
                    like: like->Ok_0,
                    is_video: is_video->Ok_0,
                    media_preview: media_preview->Ok_0,
                    owner: owner->Ok_0,
                    shortcode: shortcode->Ok_0,
                    taken_at_timestamp: taken_at_timestamp->Ok_0,
                    thumbnails: thumbnails->Ok_0,
                    thumbnail_src: thumbnail_src->Ok_0,
                    tracking_token: tracking_token->Ok_0,
                    viewer_can_reshare: viewer_can_reshare->Ok_0,
                    viewer_has_liked: viewer_has_liked->Ok_0,
                    viewer_has_saved: viewer_has_saved->Ok_0,
                    viewer_has_saved_to_collection: viewer_has_saved_to_collection->Ok_0,
                    viewer_in_photo_of_you: viewer_in_photo_of_you->Ok_0,
                },
            )
        }
    }

    fn decode(j: &Json) -> (r: Result<Media, DecodeError>) {
        let id = j.required::<String>("id")?;
        let caption = read_caption(j, "edge_media_to_caption")?;
        let comments = j.required::<MediaComments>("edge_media_to_comment")?;
        let comments_disabled = j.required::<bool>("comments_disabled")?;
        let dimensions = j.required::<MediaDimensions>("dimensions")?;
        let display_url = j.required::<String>("display_url")?;
        let like = read_count(j, "edge_media_preview_like")?;
        let is_video = j.required::<bool>("is_video")?;
        let media_preview = j.optional::<String>("media_preview")?;
        let owner = j.required::<MediaOwner>("owner")?;
        let shortcode = j.required::<String>("shortcode")?;
        let taken_at_timestamp = j.required::<i64>("taken_at_timestamp")?;
        let thumbnails = j.required::<Vec<ThumbnailResource>>("thumbnail_resources")?;
        let thumbnail_src = j.required::<String>("thumbnail_src")?;
        let tracking_token = j.required::<String>("tracking_token")?;
        let viewer_can_reshare = j.required::<bool>("viewer_can_reshare")?;
        let viewer_has_liked = j.required::<bool>("viewer_has_liked")?;
        let viewer_has_saved = j.required::<bool>("viewer_has_saved")?;
        let viewer_has_saved_to_collection = j.required::<bool>("viewer_has_saved_to_collection")?;
        let viewer_in_photo_of_you = j.required::<bool>("viewer_in_photo_of_you")?;
        Ok(
            Media {
                id,
                caption,
                comments,
                comments_disabled,
                dimensions,
                display_url,
                like,
                is_video,
                media_preview,
                owner,
                shortcode,
                taken_at_timestamp,
                thumbnails,
                thumbnail_src,
                tracking_token,
                viewer_can_reshare,
                viewer_has_liked,
                viewer_has_saved,
                viewer_has_saved_to_collection,
                viewer_in_photo_of_you,
            },
        )
    }
}

impl PaginationInfos {
    /// The options for the page that follows this one, of `count` posts at
    /// most: they carry the cursor at which this page ended, as it came. None
    /// where no page follows, or where the reply gave no cursor.
    pub fn next_page(&self, count: i16) -> (next: Option<PaginationOptions<'_>>)
        ensures
            match next {
                Some(options) => self@.has_next_page && options@ == (PaginationOptionsView {
                    count,
                    after: self@.end_cursor,
                }) && self@.end_cursor is Some,
                None => !self@.has_next_page || self@.end_cursor is None,
            },
    {
        match &self.end_cursor {
            Some(cursor) if self.has_next_page => Some(
                PaginationOptions { count, after: Some(cursor.as_str()) },
            ),
            _ => None,
        }
    }
}

/// The medias of a decoded feed are the nodes of the wrappers under `edges`: as
/// many as there are wrappers, and in their order. Its count is the one that the
/// reply reports, however many medias the page holds.
pub proof fn lemma_feed_keeps_order(j: JsonView, edges: Seq<JsonView>)
    requires
        j.at("edges"@) == Ok::<JsonView, Fault>(JsonView::Array(edges)),
        UserFeed::parse(j) is Ok,
    ensures
        ({
            let feed = UserFeed::parse(j)->Ok_0;
            &&& feed.medias.len() == edges.len()
            &&& forall|i: int|
                0 <= i < edges.len() ==> #[trigger] edges[i].required::<Media>("node"@) == Ok::<
                    MediaView,
                    Fault,
                >(feed.medias[i])
            &&& j.required::<i32>("count"@) == Ok::<i32, Fault>(feed.count)
        }),
{
    lemma_nodes_keep_order::<Media>(edges);
}

/// The caption of a decoded media is absent where `edge_media_to_caption` has
/// no edge, and is the text of the node of its last edge where it has edges.
pub proof fn lemma_media_caption(j: JsonView, edges: Seq<JsonView>)
    requires
        j.at("edge_media_to_caption"@) matches Ok(connection) && connection.at("edges"@) == Ok::<
            JsonView,
            Fault,
        >(JsonView::Array(edges)),
        Media::parse(j) is Ok,
    ensures
        ({
            let caption = Media::parse(j)->Ok_0.caption;
            &&& edges.len() == 0 ==> caption is None
            &&& edges.len() > 0 ==> caption is Some && edges.last().at("node"@) is Ok
                && edges.last().at("node"@)->Ok_0.at("text"@) == Ok::<JsonView, Fault>(
                JsonView::Str(caption->Some_0),
            )
        }),
{
    let connection = j.at("edge_media_to_caption"@)->Ok_0;
    lemma_caption_is_last_edge(connection, edges);
}

} // verus!
