//! The profile of a user, and what a successful login reports.

use vstd::prelude::*;
use crate::web_api::decode::{Decode, DecodeError, Fault};
use crate::web_api::json::{lemma_object_view, members_view, Json, JsonView};
use crate::web_api::text::same_text;

verus! {

/// Whether `name` is the name of one of the members that a profile gives a field to.
pub open spec fn is_profile_key(name: Seq<char>) -> bool {
    ||| name == "biography"@
    ||| name == "blocked_by_viewer"@
    ||| name == "restricted_by_viewer"@
    ||| name == "country_block"@
    ||| name == "external_url"@
    ||| name == "external_url_linkshimmed"@
    ||| name == "followed_by_viewer"@
    ||| name == "follows_viewer"@
    ||| name == "full_name"@
    ||| name == "has_ar_effects"@
    ||| name == "has_channel"@
    ||| name == "has_blocked_viewer"@
    ||| name == "highlight_reel_count"@
    ||| name == "has_requested_viewer"@
    ||| name == "id"@
    ||| name == "is_business_account"@
    ||| name == "is_joined_recently"@
    ||| name == "business_category_name"@
    ||| name == "category_id"@
    ||| name == "overall_category_name"@
    ||| name == "is_private"@
    ||| name == "is_verified"@
    ||| name == "profile_pic_url"@
    ||| name == "profile_pic_url_hd"@
    ||| name == "requested_by_viewer"@
    ||| name == "username"@
    ||| name == "connected_fb_page"@
}

/// Whether `name` is the name of one of the members that a profile gives a field to.
pub fn profile_key(name: &str) -> (known: bool)
    ensures
        known == is_profile_key(name@),
{
    same_text(name, "biography")
        || same_text(name, "blocked_by_viewer")
        || same_text(name, "restricted_by_viewer")
        || same_text(name, "country_block")
        || same_text(name, "external_url")
        || same_text(name, "external_url_linkshimmed")
        || same_text(name, "followed_by_viewer")
        || same_text(name, "follows_viewer")
        || same_text(name, "full_name")
        || same_text(name, "has_ar_effects")
        || same_text(name, "has_channel")
        || same_text(name, "has_blocked_viewer")
        || same_text(name, "highlight_reel_count")
        || same_text(name, "has_requested_viewer")
        || same_text(name, "id")
        || same_text(name, "is_business_account")
        || same_text(name, "is_joined_recently")
        || same_text(name, "business_category_name")
        || same_text(name, "category_id")
        || same_text(name, "overall_category_name")
        || same_text(name, "is_private")
        || same_text(name, "is_verified")
        || same_text(name, "profile_pic_url")
        || same_text(name, "profile_pic_url_hd")
        || same_text(name, "requested_by_viewer")
        || same_text(name, "username")
        || same_text(name, "connected_fb_page")
}

/// The members of `j` that a profile gives no field to, in their order; none
/// where `j` is no object.
pub open spec fn unrecognized(j: JsonView) -> Seq<(Seq<char>, JsonView)> {
    match j {
        JsonView::Object(members) => members.filter(
            |m: (Seq<char>, JsonView)| !is_profile_key(m.0),
        ),
        _ => Seq::empty(),
    }
}

/// Whether no two of `members` carry the same name.
pub open spec fn distinct_names(members: Seq<(Seq<char>, JsonView)>) -> bool {
    forall|i: int, k: int|
        0 <= i < k < members.len() ==> (#[trigger] members[i]).0 != (#[trigger] members[k]).0
}

/// Members that are picked from members of distinct names have distinct names.
proof fn lemma_filter_keeps_distinct(
    members: Seq<(Seq<char>, JsonView)>,
    pick: spec_fn((Seq<char>, JsonView)) -> bool,
)
    requires
        distinct_names(members),
    ensures
        distinct_names(members.filter(pick)),
    decreases members.len(),
{
    reveal(Seq::filter);
    if members.len() > 0 {
        let rest = members.drop_last();
        let last = members.last();
        assert forall|i: int, k: int| 0 <= i < k < rest.len() implies (#[trigger] rest[i]).0
            != (#[trigger] rest[k]).0 by {
            assert(rest[i] == members[i] && rest[k] == members[k]);
        }
        lemma_filter_keeps_distinct(rest, pick);
        let picked = rest.filter(pick);
        if pick(last) {
            let all = picked.push(last);
            assert forall|i: int, k: int| 0 <= i < k < all.len() implies (#[trigger] all[i]).0
                != (#[trigger] all[k]).0 by {
                if k == picked.len() {
                    // What was picked before stands among the rest, away from the last.
                    assert(picked.contains(picked[i]));
                    rest.lemma_filter_contains_rev(pick, picked[i]);
                    let at = choose|at: int| 0 <= at < rest.len() && rest[at] == picked[i];
                    assert(members[at] == picked[i]);
                    assert(members[members.len() - 1] == last);
                } else {
                    assert(all[i] == picked[i]);
                    assert(all[k] == picked[k]);
                }
            }
        }
    }
}

/// What a profile keeps beside its fields are the members that it has no field
/// for: none of them carries the name of a field, each member of another name
/// is among them, and where the names of the members are distinct, so are
/// theirs.
pub proof fn lemma_unrecognized(j: JsonView)
    ensures
        forall|i: int|
            0 <= i < unrecognized(j).len() ==> !is_profile_key((#[trigger] unrecognized(j)[i]).0),
        j matches JsonView::Object(members) ==> forall|i: int|
            0 <= i < members.len() && !is_profile_key(members[i].0) ==> unrecognized(j).contains(
                #[trigger] members[i],
            ),
        j matches JsonView::Object(members) ==> (distinct_names(members) ==> distinct_names(
            unrecognized(j),
        )),
{
    if let JsonView::Object(members) = j {
        let unknown = |m: (Seq<char>, JsonView)| !is_profile_key(m.0);
        assert forall|i: int| 0 <= i < members.filter(unknown).len() implies !is_profile_key(
            (#[trigger] members.filter(unknown)[i]).0,
        ) by {
            members.lemma_filter_pred(unknown, i);
        }
        assert forall|i: int|
            0 <= i < members.len() && !is_profile_key(members[i].0) implies members.filter(
            unknown,
        ).contains(#[trigger] members[i]) by {
            members.lemma_filter_contains(unknown, i);
        }
        if distinct_names(members) {
            lemma_filter_keeps_distinct(members, unknown);
        }
    }
}

/// The members of `j` that a profile gives no field to, in their order.
pub fn collect_unrecognized(j: &Json) -> (extra: Vec<(String, Json)>)
    ensures
        extra.deep_view() == unrecognized(j@),
{
    let mut extra: Vec<(String, Json)> = Vec::new();
    match j {
        Json::Object(members) => {
            let ghost all = members_view(members@);
            let ghost unknown = |m: (Seq<char>, JsonView)| !is_profile_key(m.0);
            proof {
                lemma_object_view(*members);
                assert(all.take(0) =~= Seq::empty());
                assert(all.take(0).filter(unknown) =~= Seq::empty()) by {
                    reveal(Seq::filter);
                }
                assert(extra.deep_view() =~= Seq::empty());
            }
            let mut i: usize = 0;
            while i < members.len()
                invariant
                    i <= members.len(),
                    all == members_view(members@),
                    unknown == |m: (Seq<char>, JsonView)| !is_profile_key(m.0),
                    extra.deep_view() == all.take(i as int).filter(unknown),
                decreases members.len() - i,
            {
                let ghost before = extra.deep_view();
                proof {
                    assert(all.take(i as int + 1) =~= all.take(i as int).push(all[i as int]));
                    all.take(i as int).lemma_filter_push(all[i as int], unknown);
                }
                if !profile_key(members[i].0.as_str()) {
                    extra.push((members[i].0.clone(), members[i].1.clone()));
                    assert(extra.deep_view() =~= before.push(all[i as int]));
                }
                i += 1;
            }
            assert(all.take(members.len() as int) =~= all);
            extra
        },
        _ => {
            assert(extra.deep_view() =~= Seq::empty());
            extra
        },
    }
}

/// The public profile of a user, as the viewer sees it.
#[derive(Debug, PartialEq)]
pub struct UserInfos {
    pub biography: String,
    pub blocked_by_viewer: bool,
    pub restricted_by_viewer: Option<bool>,
    pub country_block: bool,
    pub external_url: Option<String>,
    pub external_url_linkshimmed: Option<String>,
    pub followed_by_viewer: bool,
    pub follows_viewer: bool,
    pub full_name: String,
    pub has_ar_effects: bool,
    pub has_channel: bool,
    pub has_blocked_viewer: bool,
    pub highlight_reel_count: i32,
    pub has_requested_viewer: bool,
    pub id: String,
    pub is_business_account: bool,
    pub is_joined_recently: bool,
    pub business_category_name: String,
    pub category_id: String,
    pub overall_category_name: Option<String>,
    pub is_private: bool,
    pub is_verified: bool,
    pub profile_pic_url: String,
    pub profile_pic_url_hd: String,
    pub requested_by_viewer: bool,
    pub username: String,
    pub connected_fb_page: Option<String>,
    /// The members of the reply that no field above takes, in their order.
    pub extra: Vec<(String, Json)>,
}

/// The mathematical value of a [`UserInfos`].
pub struct UserInfosView {
    pub biography: Seq<char>,
    pub blocked_by_viewer: bool,
    pub restricted_by_viewer: Option<bool>,
    pub country_block: bool,
    pub external_url: Option<Seq<char>>,
    pub external_url_linkshimmed: Option<Seq<char>>,
    pub followed_by_viewer: bool,
    pub follows_viewer: bool,
    pub full_name: Seq<char>,
    pub has_ar_effects: bool,
    pub has_channel: bool,
    pub has_blocked_viewer: bool,
    pub highlight_reel_count: i32,
    pub has_requested_viewer: bool,
    pub id: Seq<char>,
    pub is_business_account: bool,
    pub is_joined_recently: bool,
    pub business_category_name: Seq<char>,
    pub category_id: Seq<char>,
    pub overall_category_name: Option<Seq<char>>,
    pub is_private: bool,
    pub is_verified: bool,
    pub profile_pic_url: Seq<char>,
    pub profile_pic_url_hd: Seq<char>,
    pub requested_by_viewer: bool,
    pub username: Seq<char>,
    pub connected_fb_page: Option<Seq<char>>,
    pub extra: Seq<(Seq<char>, JsonView)>,
}

impl View for UserInfos {
    type V = UserInfosView;

    open spec fn view(&self) -> UserInfosView {
        UserInfosView {
            biography: self.biography@,
            blocked_by_viewer: self.blocked_by_viewer,
            restricted_by_viewer: self.restricted_by_viewer.deep_view(),
            country_block: self.country_block,
            external_url: self.external_url.deep_view(),
            external_url_linkshimmed: self.external_url_linkshimmed.deep_view(),
            followed_by_viewer: self.followed_by_viewer,
            follows_viewer: self.follows_viewer,
            full_name: self.full_name@,
            has_ar_effects: self.has_ar_effects,
            has_channel: self.has_channel,
            has_blocked_viewer: self.has_blocked_viewer,
            highlight_reel_count: self.highlight_reel_count,
            has_requested_viewer: self.has_requested_viewer,
            id: self.id@,
            is_business_account: self.is_business_account,
            is_joined_recently: self.is_joined_recently,
            business_category_name: self.business_category_name@,
            category_id: self.category_id@,
            overall_category_name: self.overall_category_name.deep_view(),
            is_private: self.is_private,
            is_verified: self.is_verified,
            profile_pic_url: self.profile_pic_url@,
            profile_pic_url_hd: self.profile_pic_url_hd@,
            requested_by_viewer: self.requested_by_viewer,
            username: self.username@,
            connected_fb_page: self.connected_fb_page.deep_view(),
            extra: self.extra.deep_view(),
        }
    }
}

impl DeepView for UserInfos {
    type V = UserInfosView;

    open spec fn deep_view(&self) -> UserInfosView {
        self@
    }
}

impl Decode for UserInfos {
    open spec fn parse(j: JsonView) -> Result<UserInfosView, Fault> {
        let biography = j.required::<String>("biography"@);
        let blocked_by_viewer = j.required::<bool>("blocked_by_viewer"@);
        let restricted_by_viewer = j.optional::<bool>("restricted_by_viewer"@);
        let country_block = j.required::<bool>("country_block"@);
        let external_url = j.optional::<String>("external_url"@);
        let external_url_linkshimmed = j.optional::<String>("external_url_linkshimmed"@);
        let followed_by_viewer = j.required::<bool>("followed_by_viewer"@);
        let follows_viewer = j.required::<bool>("follows_viewer"@);
        let full_name = j.required::<String>("full_name"@);
        let has_ar_effects = j.required::<bool>("has_ar_effects"@);
        let has_channel = j.required::<bool>("has_channel"@);
        let has_blocked_viewer = j.required::<bool>("has_blocked_viewer"@);
        let highlight_reel_count = j.required::<i32>("highlight_reel_count"@);
        let has_requested_viewer = j.required::<bool>("has_requested_viewer"@);
        let id = j.required::<String>("id"@);
        let is_business_account = j.required::<bool>("is_business_account"@);
        let is_joined_recently = j.required::<bool>("is_joined_recently"@);
        let business_category_name = j.required::<String>("business_category_name"@);
        let category_id = j.required::<String>("category_id"@);
        let overall_category_name = j.optional::<String>("overall_category_name"@);
        let is_private = j.required::<bool>("is_private"@);
        let is_verified = j.required::<bool>("is_verified"@);
        let profile_pic_url = j.required::<String>("profile_pic_url"@);
        let profile_pic_url_hd = j.required::<String>("profile_pic_url_hd"@);
        let requested_by_viewer = j.required::<bool>("requested_by_viewer"@);
        let username = j.required::<String>("username"@);
        let connected_fb_page = j.optional::<String>("connected_fb_page"@);
        if biography is Err {
            Err(biography->Err_0)
        } else if blocked_by_viewer is Err {
            Err(blocked_by_viewer->Err_0)
        } else if restricted_by_viewer is Err {
            Err(restricted_by_viewer->Err_0)
        } else if country_block is Err {
            Err(country_block->Err_0)
        } else if external_url is Err {
            Err(external_url->Err_0)
        } else if external_url_linkshimmed is Err {
            Err(external_url_linkshimmed->Err_0)
        } else if followed_by_viewer is Err {
            Err(followed_by_viewer->Err_0)
        } else if follows_viewer is Err {
            Err(follows_viewer->Err_0)
        } else if full_name is Err {
            Err(full_name->Err_0)
        } else if has_ar_effects is Err {
            Err(has_ar_effects->Err_0)
        } else if has_channel is Err {
            Err(has_channel->Err_0)
        } else if has_blocked_viewer is Err {
            Err(has_blocked_viewer->Err_0)
        } else if highlight_reel_count is Err {
            Err(highlight_reel_count->Err_0)
        } else if has_requested_viewer is Err {
            Err(has_requested_viewer->Err_0)
        } else if id is Err {
            Err(id->Err_0)
        } else if is_business_account is Err {
            Err(is_business_account->Err_0)
        } else if is_joined_recently is Err {
            Err(is_joined_recently->Err_0)
        } else if business_category_name is Err {
            Err(business_category_name->Err_0)
        } else if category_id is Err {
            Err(category_id->Err_0)
        } else if overall_category_name is Err {
            Err(overall_category_name->Err_0)
        } else if is_private is Err {
            Err(is_private->Err_0)
        } else if is_verified is Err {
            Err(is_verified->Err_0)
        } else if profile_pic_url is Err {
            Err(profile_pic_url->Err_0)
        } else if profile_pic_url_hd is Err {
            Err(profile_pic_url_hd->Err_0)
        } else if requested_by_viewer is Err {
            Err(requested_by_viewer->Err_0)
        } else if username is Err {
            Err(username->Err_0)
        } else if connected_fb_page is Err {
            Err(connected_fb_page->Err_0)
        } else {
            Ok(
                UserInfosView {
                    biography: biography->Ok_0,
                    blocked_by_viewer: blocked_by_viewer->Ok_0,
                    restricted_by_viewer: restricted_by_viewer->Ok_0,
                    country_block: country_block->Ok_0,
                    external_url: external_url->Ok_0,
                    external_url_linkshimmed: external_url_linkshimmed->Ok_0,
                    followed_by_viewer: followed_by_viewer->Ok_0,
                    follows_viewer: follows_viewer->Ok_0,
                    full_name: full_name->Ok_0,
                    has_ar_effects: has_ar_effects->Ok_0,
                    has_channel: has_channel->Ok_0,
                    has_blocked_viewer: has_blocked_viewer->Ok_0,
                    highlight_reel_count: highlight_reel_count->Ok_0,
                    has_requested_viewer: has_requested_viewer->Ok_0,
                    id: id->Ok_0,
                    is_business_account: is_business_account->Ok_0,
                    is_joined_recently: is_joined_recently->Ok_0,
                    business_category_name: business_category_name->Ok_0,
                    category_id: category_id->Ok_0,
                    overall_category_name: overall_category_name->Ok_0,
                    is_private: is_private->Ok_0,
                    is_verified: is_verified->Ok_0,
                    profile_pic_url: profile_pic_url->Ok_0,
                    profile_pic_url_hd: profile_pic_url_hd->Ok_0,
                    requested_by_viewer: requested_by_viewer->Ok_0,
                    username: username->Ok_0,
                    connected_fb_page: connected_fb_page->Ok_0,
                    extra: unrecognized(j),
                },
            )
        }
    }

    fn decode(j: &Json) -> (r: Result<UserInfos, DecodeError>) {
        let biography = j.required::<String>("biography")?;
        let blocked_by_viewer = j.required::<bool>("blocked_by_viewer")?;
        let restricted_by_viewer = j.optional::<bool>("restricted_by_viewer")?;
        let country_block = j.required::<bool>("country_block")?;
        let external_url = j.optional::<String>("external_url")?;
        let external_url_linkshimmed = j.optional::<String>("external_url_linkshimmed")?;
        let followed_by_viewer = j.required::<bool>("followed_by_viewer")?;
        let follows_viewer = j.required::<bool>("follows_viewer")?;
        let full_name = j.required::<String>("full_name")?;
        let has_ar_effects = j.required::<bool>("has_ar_effects")?;
        let has_channel = j.required::<bool>("has_channel")?;
        let has_blocked_viewer = j.required::<bool>("has_blocked_viewer")?;
        let highlight_reel_count = j.required::<i32>("highlight_reel_count")?;
        let has_requested_viewer = j.required::<bool>("has_requested_viewer")?;
        let id = j.required::<String>("id")?;
        let is_business_account = j.required::<bool>("is_business_account")?;
        let is_joined_recently = j.required::<bool>("is_joined_recently")?;
        let business_category_name = j.required::<String>("business_category_name")?;
        let category_id = j.required::<String>("category_id")?;
        let overall_category_name = j.optional::<String>("overall_category_name")?;
        let is_private = j.required::<bool>("is_private")?;
        let is_verified = j.required::<bool>("is_verified")?;
        let profile_pic_url = j.required::<String>("profile_pic_url")?;
        let profile_pic_url_hd = j.required::<String>("profile_pic_url_hd")?;
        let requested_by_viewer = j.required::<bool>("requested_by_viewer")?;
        let username = j.required::<String>("username")?;
        let connected_fb_page = j.optional::<String>("connected_fb_page")?;
        let extra = collect_unrecognized(j);
        Ok(
            UserInfos {
                biography,
                blocked_by_viewer,
                restricted_by_viewer,
                country_block,
                external_url,
                external_url_linkshimmed,
                followed_by_viewer,
                follows_viewer,
                full_name,
                has_ar_effects,
                has_channel,
                has_blocked_viewer,
                highlight_reel_count,
                has_requested_viewer,
                id,
                is_business_account,
                is_joined_recently,
                business_category_name,
                category_id,
                overall_category_name,
                is_private,
                is_verified,
                profile_pic_url,
                profile_pic_url_hd,
                requested_by_viewer,
                username,
                connected_fb_page,
                extra,
            },
        )
    }
}

/// What the login endpoint reports where it accepts the credentials.
#[derive(Debug, PartialEq)]
pub struct LoginInfos {
    pub authenticated: bool,
    pub user: bool,
    pub user_id: String,
    pub one_tap_prompt: bool,
    pub status: String,
}

/// The mathematical value of a [`LoginInfos`].
pub struct LoginInfosView {
    pub authenticated: bool,
    pub user: bool,
    pub user_id: Seq<char>,
    pub one_tap_prompt: bool,
    pub status: Seq<char>,
}

impl View for LoginInfos {
    type V = LoginInfosView;

    open spec fn view(&self) -> LoginInfosView {
        LoginInfosView {
            authenticated: self.authenticated,
            user: self.user,
            user_id: self.user_id@,
            one_tap_prompt: self.one_tap_prompt,
            status: self.status@,
        }
    }
}

impl DeepView for LoginInfos {
    type V = LoginInfosView;

    open spec fn deep_view(&self) -> LoginInfosView {
        self@
    }
}

impl Decode for LoginInfos {
    open spec fn parse(j: JsonView) -> Result<LoginInfosView, Fault> {
        let authenticated = j.required::<bool>("authenticated"@);
        let user = j.required::<bool>("user"@);
        let user_id = j.required::<String>("userId"@);
        let one_tap_prompt = j.required::<bool>("oneTapPrompt"@);
        let status = j.required::<String>("status"@);
        if authenticated is Err {
            Err(authenticated->Err_0)
        } else if user is Err {
            Err(user->Err_0)
        } else if user_id is Err {
            Err(user_id->Err_0)
        } else if one_tap_prompt is Err {
            Err(one_tap_prompt->Err_0)
        } else if status is Err {
            Err(status->Err_0)
        } else {
            Ok(
                LoginInfosView {
                    authenticated: authenticated->Ok_0,
                    user: user->Ok_0,
                    user_id: user_id->Ok_0,
                    one_tap_prompt: one_tap_prompt->Ok_0,
                    status: status->Ok_0,
                },
            )
        }
    }

    fn decode(j: &Json) -> (r: Result<LoginInfos, DecodeError>) {
        let authenticated = j.required::<bool>("authenticated")?;
        let user = j.required::<bool>("user")?;
        let user_id = j.required::<String>("userId")?;
        let one_tap_prompt = j.required::<bool>("oneTapPrompt")?;
        let status = j.required::<String>("status")?;
        Ok(LoginInfos { authenticated, user, user_id, one_tap_prompt, status })
    }
}
} // verus!
