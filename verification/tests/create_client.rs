use instagram::web_api::behaviour::{FetchUserFeed, FetchUserInfos};
use instagram::web_api::client::login::{LoginAction, LoginFlow, LoginState};
use instagram::web_api::http::{BodyKind, HttpBody, HttpOutcome, HttpRequest, Method};
use instagram::web_api::json::Json;
use instagram::web_api::response::UserInfosError;
use instagram::web_api::{AuthenticatedClient, Client, ClientError, Credentials};
use reqwest::header::{HeaderMap, HeaderName, HeaderValue};

const SERVER: &str = "http://127.0.0.1:1234";

/// The library's value for a JSON text.
fn json(text: &str) -> Json {
    convert(&serde_json::from_str::<serde_json::Value>(text).unwrap())
}

fn convert(value: &serde_json::Value) -> Json {
    match value {
        serde_json::Value::Null => Json::Null,
        serde_json::Value::Bool(b) => Json::Bool(*b),
        serde_json::Value::Number(n) => match n.as_i64() {
            Some(i) => Json::Number(i),
            None => Json::Decimal(n.to_string()),
        },
        serde_json::Value::String(s) => Json::Str(s.clone()),
        serde_json::Value::Array(items) => Json::Array(items.iter().map(convert).collect()),
        serde_json::Value::Object(members) => {
            Json::Object(members.iter().map(|(k, v)| (k.clone(), convert(v))).collect())
        }
    }
}

fn headers(pairs: &[(&str, &str)]) -> HeaderMap {
    let mut map = HeaderMap::new();
    for (name, value) in pairs {
        map.append(HeaderName::from_bytes(name.as_bytes()).unwrap(), HeaderValue::from_str(value).unwrap());
    }
    map
}

fn reply(status: u16, body: &str) -> HttpOutcome {
    match serde_json::from_str::<serde_json::Value>(body) {
        Ok(value) => HttpOutcome::Reply { status, body: HttpBody::Json(convert(&value)) },
        Err(_) => HttpOutcome::Reply { status, body: HttpBody::Unreadable },
    }
}

fn page(status: u16, body: &str) -> HttpOutcome {
    HttpOutcome::Reply { status, body: HttpBody::Text(body.to_string()) }
}

/// A server that answers each request with what a test has laid out for it,
/// and keeps what it was asked.
struct Server {
    root: Option<HttpOutcome>,
    login: Option<HttpOutcome>,
    asked: Vec<HttpRequest>,
}

impl Server {
    fn answer(&mut self, request: HttpRequest) -> HttpOutcome {
        let outcome = if request.method == Method::Get && request.url == format!("{}/", SERVER) {
            self.root.take()
        } else if request.method == Method::Post
            && request.url == format!("{}/accounts/login/ajax/", SERVER)
        {
            self.login.take()
        } else {
            None
        };
        self.asked.push(request);
        outcome.unwrap_or(HttpOutcome::TransportFailure)
    }
}

/// Runs the login protocol against `server` until it ends.
fn login(
    client: Client,
    credentials: &Credentials<'_>,
    server: &mut Server,
) -> Result<AuthenticatedClient, ClientError> {
    let mut flow: LoginFlow = client.login();
    let mut event = None;
    loop {
        let (next, action) = flow.step(credentials, event.take());
        flow = next;
        match action {
            LoginAction::Send(request) => event = Some(server.answer(request)),
            LoginAction::Proceed => {}
            LoginAction::Finish => break,
        }
    }
    flow.result().unwrap()
}

fn get_credentials() -> Credentials<'static> {
    Credentials { username: "some_user", password: "some_password" }
}

const ROOT_PAGE: &str = r#"<!DOCTYPE html><html lang="en"><head><meta charset="utf-8">
<script type="text/javascript">window._sharedData = {"config":{"csrf_token":"Xk3bD8vWq0TnA5zRpLmE7sYcU2hJgF1o","viewer":null},"country_code":"FR","language_code":"en","locale":"en_US","hostname":"www.instagram.com","platform":"web","rollout_hash":"b1c2d3e4f5a6","bundle_variant":"metro","is_canary":false};</script>
</head><body></body></html>"#;

const USER_INFO: &str = r#"{"logging_page_id":"profilePage_3656796254","graphql":{"user":{
"biography":"Rustacean","blocked_by_viewer":false,"restricted_by_viewer":null,"country_block":false,
"external_url":"https://example.org/","external_url_linkshimmed":"https://l.example.org/?u=1",
"edge_followed_by":{"count":21},"followed_by_viewer":false,"edge_follow":{"count":42},
"follows_viewer":false,"full_name":"FREYSKEYD","has_ar_effects":false,"has_channel":false,
"has_blocked_viewer":false,"highlight_reel_count":3,"has_requested_viewer":false,
"id":"3656796254","is_business_account":false,"is_joined_recently":false,
"business_category_name":"","category_id":"","overall_category_name":null,"is_private":false,
"is_verified":false,"profile_pic_url":"https://example.org/p.jpg",
"profile_pic_url_hd":"https://example.org/p_hd.jpg","requested_by_viewer":false,
"username":"freyskeyd","connected_fb_page":null}}}"#;

const LOGIN_2FA: &str = r#"{"message":"","two_factor_required":true,"two_factor_info":{
"username":"some_user","sms_two_factor_on":true,"totp_two_factor_on":false,
"obfuscated_phone_number":"1234","two_factor_identifier":"Xy12AbCd",
"show_messenger_code_option":false,"show_new_login_screen":true,
"show_trusted_device_option":true,"phone_verification_settings":{"max_sms_count":2,
"resend_sms_delay_sec":60,"robocall_count_down_time_sec":30,"robocall_after_max_sms":true}},
"phone_verification_settings":{"max_sms_count":2,"resend_sms_delay_sec":60,
"robocall_count_down_time_sec":30,"robocall_after_max_sms":true},"status":"fail"}"#;

fn media(id: &str, captions: &[&str]) -> String {
    let edges: Vec<String> =
        captions.iter().map(|c| format!(r#"{{"node":{{"text":"{}"}}}}"#, c)).collect();
    format!(
        r#"{{"node":{{"__typename":"GraphImage","id":"{id}",
"edge_media_to_caption":{{"edges":[{edges}]}},
"edge_media_to_comment":{{"count":1,"page_info":{{"has_next_page":false,"end_cursor":null}},
"edges":[{{"node":{{"id":"c1","created_at":1586000000,"did_report_as_spam":false,"text":"nice",
"viewer_has_liked":false,"owner":{{"id":"9","is_verified":false,
"profile_pic_url":"https://example.org/o.jpg","username":"someone"}}}}}}]}},
"comments_disabled":false,"dimensions":{{"height":1080,"width":1350}},
"display_url":"https://example.org/d.jpg","edge_media_preview_like":{{"count":17,"edges":[]}},
"is_video":false,"media_preview":null,"owner":{{"id":"1234","username":"freyskeyd"}},
"shortcode":"B-abc","taken_at_timestamp":1586012345,
"thumbnail_resources":[{{"src":"https://example.org/t150.jpg","config_width":150,"config_height":150}},
{{"src":"https://example.org/t240.jpg","config_width":240,"config_height":240}}],
"thumbnail_src":"https://example.org/t.jpg","tracking_token":"tok","viewer_can_reshare":true,
"viewer_has_liked":false,"viewer_has_saved":false,"viewer_has_saved_to_collection":false,
"viewer_in_photo_of_you":false}}}}"#,
        id = id,
        edges = edges.join(",")
    )
}

fn user_feed(medias: &[String]) -> String {
    format!(
        r#"{{"data":{{"feed":{{"count":147,"page_info":{{"has_next_page":true,
"end_cursor":"QVFEcursor=="}},"edges":[{}]}}}},"status":"ok"}}"#,
        medias.join(",")
    )
}

#[test]
fn test_get_user_info() {
    let client = Client::new_with_url(SERVER, "");
    let request = client.user_infos_request("Freyskeyd");

    assert_eq!(request.method, Method::Get);
    assert_eq!(request.url, format!("{}/Freyskeyd", SERVER));
    assert_eq!(request.query, vec![("__a".to_string(), "1".to_string())]);
    assert_eq!(request.expects, BodyKind::Json);

    let freyskeyd_infos = client.read_user_infos(&reply(200, USER_INFO)).unwrap();

    assert_eq!(freyskeyd_infos.username, "freyskeyd");
    assert_eq!(freyskeyd_infos.full_name, "FREYSKEYD");

    let client = Client::new_with_url(SERVER, "");
    let freyskeyd_infos = client.read_user_infos(&reply(404, ""));

    assert!(freyskeyd_infos.is_err());
}

#[test]
fn test_logged_in_2_fa() {
    let mut server =
        Server { root: Some(page(200, ROOT_PAGE)), login: Some(reply(400, LOGIN_2FA)), asked: vec![] };

    let x = login(Client::new_with_url(SERVER, ""), &get_credentials(), &mut server);

    assert_eq!(Err(ClientError::UnableToPerform2FA), x);

    assert!(server.root.is_none());
    assert!(server.login.is_none());
    assert_eq!(server.asked.len(), 2);
}

#[test]
fn test_logged_in() {
    let fixture = "{\"authenticated\": true, \"user\": true, \"userId\": \"8343444274\", \"oneTapPrompt\": false, \"status\": \"ok\"}";
    let mut server =
        Server { root: Some(page(200, ROOT_PAGE)), login: Some(reply(200, fixture)), asked: vec![] };

    let client = login(Client::new_with_url(SERVER, ""), &get_credentials(), &mut server).unwrap();
    let freyskeyd_infos = client.read_user_infos(&reply(200, USER_INFO)).unwrap();

    assert_eq!(freyskeyd_infos.username, "freyskeyd");
    assert_eq!(freyskeyd_infos.full_name, "FREYSKEYD");

    assert!(server.root.is_none());
    assert!(server.login.is_none());
    assert_eq!(client.user_infos_request("Freyskeyd").url, format!("{}/Freyskeyd", SERVER));
}

#[test]
fn test_user_feed() {
    let fixture = user_feed(&[media("1", &["first"]), media("2", &[])]);

    let client = Client::new_with_url("", SERVER);
    let request = client.user_feed_request("1234", None);

    assert_eq!(request.method, Method::Get);
    assert_eq!(request.url, SERVER);
    assert_eq!(request.query[0].0, "query_hash");
    assert_eq!(request.query[1].0, "variables");

    let user_feed = client.read_user_feed(&reply(200, &fixture)).unwrap();

    assert_eq!(user_feed.count, 147);
}

#[test]
fn logged_in_client_keeps_the_session() {
    let fixture = r#"{"authenticated":true,"user":true,"userId":"8343444274","oneTapPrompt":false,"status":"ok"}"#;
    let mut server =
        Server { root: Some(page(200, ROOT_PAGE)), login: Some(reply(200, fixture)), asked: vec![] };

    let client = login(Client::new_with_url(SERVER, ""), &get_credentials(), &mut server).unwrap();

    assert_eq!(client.base_client().get_api_url(), SERVER);
    assert_eq!(client.base_client().csrf_token(), Some("Xk3bD8vWq0TnA5zRpLmE7sYcU2hJgF1o"));
    assert_eq!(client.base_client().rollout_hash(), Some("b1c2d3e4f5a6"));
}

#[test]
fn login_submission_carries_the_session() {
    let fixture = r#"{"authenticated":true,"user":true,"userId":"1","oneTapPrompt":false,"status":"ok"}"#;
    let mut server =
        Server { root: Some(page(200, ROOT_PAGE)), login: Some(reply(200, fixture)), asked: vec![] };

    login(Client::new_with_url(SERVER, ""), &get_credentials(), &mut server).unwrap();

    let pair = |name: &str, value: &str| (name.to_string(), value.to_string());
    let root = &server.asked[0];
    assert_eq!(root.method, Method::Get);
    assert_eq!(root.expects, BodyKind::Text);
    assert_eq!(
        root.headers,
        headers(&[
            ("accept", "*/*"),
            ("accept-language", "en-US"),
            ("connection", "close"),
            ("content-type", "application/x-www-form-urlencoded"),
        ])
    );

    let submission = &server.asked[1];
    assert_eq!(submission.method, Method::Post);
    assert_eq!(submission.expects, BodyKind::Json);
    assert_eq!(
        submission.headers,
        headers(&[
            ("accept", "*/*"),
            ("accept-language", "en-US"),
            ("connection", "close"),
            ("content-type", "application/x-www-form-urlencoded"),
            ("cookie", "ig_cb=1; Path=/; Domain=www.instagram.com"),
            ("x-csrftoken", "Xk3bD8vWq0TnA5zRpLmE7sYcU2hJgF1o"),
            ("x-request-with", "XMLHttpRequest"),
            ("x-instagram-ajax", "b1c2d3e4f5a6"),
            ("referer", "https://www.instagram.com"),
            ("authority", "www.instagram.com"),
            ("origin", "https://www.instagram.com"),
        ])
    );
    assert_eq!(submission.headers.len(), 11);
    assert_eq!(submission.headers.get(reqwest::header::COOKIE).unwrap(), "ig_cb=1; Path=/; Domain=www.instagram.com");
    assert_eq!(submission.headers.get(reqwest::header::ACCEPT_LANGUAGE).unwrap(), "en-US");
    assert_eq!(
        submission.form,
        vec![pair("username", "some_user"), pair("password", "some_password")]
    );
    assert!(submission.query.is_empty());
}

#[test]
fn login_without_rollout_hash_sends_no_ajax_header() {
    let fixture = r#"{"authenticated":true,"user":true,"userId":"1","oneTapPrompt":false,"status":"ok"}"#;
    let root = r#"<script>{"config":{"csrf_token":"abc123"}}</script>"#;
    let mut server =
        Server { root: Some(page(200, root)), login: Some(reply(200, fixture)), asked: vec![] };

    let client = login(Client::new_with_url(SERVER, ""), &get_credentials(), &mut server).unwrap();

    assert_eq!(client.base_client().csrf_token(), Some("abc123"));
    assert_eq!(client.base_client().rollout_hash(), None);
    assert_eq!(server.asked[1].headers.get("x-csrftoken").unwrap(), "abc123");
    assert!(!server.asked[1].headers.contains_key("x-instagram-ajax"));
    assert_eq!(server.asked[1].headers.len(), 10);
}

#[test]
fn login_without_csrf_token_submits_nothing() {
    let fixture = r#"{"authenticated":true,"user":true,"userId":"1","oneTapPrompt":false,"status":"ok"}"#;
    let root = r#"<html><script>{"rollout_hash":"b1c2d3e4f5a6","csrf_token":""}</script></html>"#;
    let mut server =
        Server { root: Some(page(200, root)), login: Some(reply(200, fixture)), asked: vec![] };

    let x = login(Client::new_with_url(SERVER, ""), &get_credentials(), &mut server);

    assert_eq!(Err(ClientError::UnableToGetCsrfToken), x);
    assert_eq!(server.asked.len(), 1);
    assert_eq!(server.asked[0].method, Method::Get);
    assert!(server.login.is_some());
}

#[test]
fn login_fails_with_the_transport() {
    let mut server = Server { root: None, login: None, asked: vec![] };
    let x = login(Client::new_with_url(SERVER, ""), &get_credentials(), &mut server);
    assert_eq!(Err(ClientError::HttpRequest), x);
    assert_eq!(server.asked.len(), 1);

    let mut server = Server { root: Some(page(200, ROOT_PAGE)), login: None, asked: vec![] };
    let x = login(Client::new_with_url(SERVER, ""), &get_credentials(), &mut server);
    assert_eq!(Err(ClientError::HttpRequest), x);
    assert_eq!(server.asked.len(), 2);
}

#[test]
fn login_fails_on_a_body_of_no_known_shape() {
    let mut server = Server {
        root: Some(page(200, ROOT_PAGE)),
        login: Some(reply(200, r#"{"status":"ok"}"#)),
        asked: vec![],
    };
    let x = login(Client::new_with_url(SERVER, ""), &get_credentials(), &mut server);
    assert_eq!(Err(ClientError::HttpRequest), x);

    let mut server = Server {
        root: Some(page(200, ROOT_PAGE)),
        login: Some(reply(200, "<html>not json</html>")),
        asked: vec![],
    };
    let x = login(Client::new_with_url(SERVER, ""), &get_credentials(), &mut server);
    assert_eq!(Err(ClientError::HttpRequest), x);
}

#[test]
fn login_takes_a_body_of_both_shapes_as_a_success() {
    // Every member of a success, and every member of a challenge.
    let both = format!(
        r#"{{"authenticated":true,"user":true,"userId":"8343444274","oneTapPrompt":false,{}"#,
        &LOGIN_2FA[1..]
    );
    let mut server =
        Server { root: Some(page(200, ROOT_PAGE)), login: Some(reply(200, &both)), asked: vec![] };

    let x = login(Client::new_with_url(SERVER, ""), &get_credentials(), &mut server);

    assert!(x.is_ok());
}

#[test]
fn login_steps_through_the_states() {
    let credentials = get_credentials();
    let flow = Client::new_with_url(SERVER, "").login();
    assert!(matches!(flow.state(), LoginState::Unauthenticated(_)));

    let (flow, action) = flow.step(&credentials, None);
    assert!(matches!(flow.state(), LoginState::CsrfPending(_)));
    assert!(matches!(action, LoginAction::Send(_)));

    let (flow, action) = flow.step(&credentials, Some(page(200, ROOT_PAGE)));
    assert!(matches!(flow.state(), LoginState::CsrfAcquired(_)));
    assert_eq!(action, LoginAction::Proceed);

    let (flow, action) = flow.step(&credentials, None);
    assert!(matches!(flow.state(), LoginState::LoginSubmitted(_)));
    assert!(matches!(action, LoginAction::Send(_)));

    let (flow, action) = flow.step(&credentials, Some(reply(400, LOGIN_2FA)));
    assert_eq!(action, LoginAction::Finish);
    match flow.state() {
        LoginState::TwoFactorRequired(challenge) => {
            assert!(challenge.two_factor_required);
            assert_eq!(challenge.two_factor_info.two_factor_identifier, "Xy12AbCd");
            assert_eq!(challenge.phone_verification_settings.max_sms_count, 2);
            assert_eq!(challenge.status, "fail");
        }
        other => panic!("unexpected state {:?}", other),
    }

    // A login that has ended stays as it is.
    let (flow, action) = flow.step(&credentials, Some(reply(200, "{}")));
    assert!(matches!(flow.state(), LoginState::TwoFactorRequired(_)));
    assert_eq!(action, LoginAction::Finish);
    assert_eq!(flow.result(), Some(Err(ClientError::UnableToPerform2FA)));
}

#[test]
fn unfinished_login_has_no_result() {
    let flow = Client::new().login();
    assert_eq!(flow.result(), None);
}

#[test]
fn profile_keeps_what_it_has_no_field_for() {
    let client = Client::new_with_url(SERVER, "");
    let infos = client.read_user_infos(&reply(200, USER_INFO)).unwrap();

    assert_eq!(infos.id, "3656796254");
    assert_eq!(infos.biography, "Rustacean");
    assert_eq!(infos.restricted_by_viewer, None);
    assert_eq!(infos.external_url.as_deref(), Some("https://example.org/"));
    assert_eq!(infos.highlight_reel_count, 3);
    assert_eq!(infos.connected_fb_page, None);
    assert_eq!(
        infos.extra,
        vec![
            ("edge_followed_by".to_string(), json(r#"{"count":21}"#)),
            ("edge_follow".to_string(), json(r#"{"count":42}"#)),
        ]
    );
}

#[test]
fn profile_fails_the_same_way_whatever_went_wrong() {
    let client = Client::new_with_url(SERVER, "");

    // Not found, or any other status that is no success, even with a body that would do.
    assert_eq!(client.read_user_infos(&reply(404, USER_INFO)), Err(UserInfosError::Other));
    assert_eq!(client.read_user_infos(&reply(500, USER_INFO)), Err(UserInfosError::Other));
    assert_eq!(client.read_user_infos(&reply(199, USER_INFO)), Err(UserInfosError::Other));
    assert_eq!(client.read_user_infos(&reply(300, USER_INFO)), Err(UserInfosError::Other));
    assert!(client.read_user_infos(&reply(299, USER_INFO)).is_ok());
    assert!(client.read_user_infos(&reply(204, USER_INFO)).is_ok());
    // No response.
    assert_eq!(
        client.read_user_infos(&HttpOutcome::TransportFailure),
        Err(UserInfosError::Other)
    );
    // A body that is no JSON, or text where JSON is due.
    assert_eq!(client.read_user_infos(&reply(200, "<html>")), Err(UserInfosError::Other));
    assert_eq!(client.read_user_infos(&page(200, USER_INFO)), Err(UserInfosError::Other));
    // A body of another shape.
    assert_eq!(
        client.read_user_infos(&reply(200, r#"{"graphql":{"user":{"id":"1"}}}"#)),
        Err(UserInfosError::Other)
    );
    assert_eq!(client.read_user_infos(&reply(200, r#"{"graphql":{}}"#)), Err(UserInfosError::Other));
}

#[test]
fn feed_count_is_the_platforms_whatever_the_page_holds() {
    let client = Client::new_with_url("", SERVER);

    let empty = client.read_user_feed(&reply(200, &user_feed(&[]))).unwrap();
    assert_eq!(empty.count, 147);
    assert!(empty.medias.is_empty());

    let three = [media("10", &[]), media("11", &["a"]), media("12", &["a", "b"])];
    let feed = client.read_user_feed(&reply(200, &user_feed(&three))).unwrap();
    assert_eq!(feed.count, 147);
    assert_eq!(feed.medias.len(), 3);
    assert!(feed.pagination_infos.has_next_page);
    assert_eq!(feed.pagination_infos.end_cursor.as_deref(), Some("QVFEcursor=="));
}

#[test]
fn feed_keeps_the_order_of_the_reply() {
    let client = Client::new_with_url("", SERVER);
    let medias = [media("30", &[]), media("10", &[]), media("20", &[]), media("5", &[])];

    let feed = client.read_user_feed(&reply(200, &user_feed(&medias))).unwrap();

    let ids: Vec<&str> = feed.medias.iter().map(|m| m.id.as_str()).collect();
    assert_eq!(ids, vec!["30", "10", "20", "5"]);
}

#[test]
fn media_caption_is_that_of_the_last_edge() {
    let client = Client::new_with_url("", SERVER);
    let medias = [media("1", &[]), media("2", &["only"]), media("3", &["first", "second", "last"])];

    let feed = client.read_user_feed(&reply(200, &user_feed(&medias))).unwrap();

    assert_eq!(feed.medias[0].caption, None);
    assert_eq!(feed.medias[1].caption.as_deref(), Some("only"));
    assert_eq!(feed.medias[2].caption.as_deref(), Some("last"));
}

#[test]
fn media_is_flattened() {
    let client = Client::new_with_url("", SERVER);
    let feed = client.read_user_feed(&reply(200, &user_feed(&[media("77", &["hi"])]))).unwrap();
    let media = &feed.medias[0];

    assert_eq!(media.id, "77");
    assert_eq!(media.like, 17);
    assert_eq!(media.comments.count, 1);
    assert_eq!(media.comments.data.len(), 1);
    assert_eq!(media.comments.data[0].text, "nice");
    assert_eq!(media.comments.data[0].owner.username, "someone");
    assert_eq!(media.comments.data[0].created_at, 1586000000);
    assert!(!media.comments.pagination_infos.has_next_page);
    assert_eq!(media.dimensions.height, 1080);
    assert_eq!(media.dimensions.width, 1350);
    assert_eq!(media.owner.id, "1234");
    assert_eq!(media.shortcode, "B-abc");
    assert_eq!(media.taken_at_timestamp, 1586012345);
    assert_eq!(media.media_preview, None);
    assert_eq!(media.thumbnails.len(), 2);
    assert_eq!(media.thumbnails[0].src, "https://example.org/t150.jpg");
    assert_eq!(media.thumbnails[1].width, 240);
    assert_eq!(media.thumbnails[1].height, 240);
    assert!(media.viewer_can_reshare);
}

#[test]
fn feed_fails_as_a_failed_request() {
    let client = Client::new_with_url("", SERVER);

    assert_eq!(client.read_user_feed(&HttpOutcome::TransportFailure), Err(ClientError::HttpRequest));
    assert_eq!(
        client.read_user_feed(&reply(429, &user_feed(&[]))),
        Err(ClientError::HttpRequest)
    );
    assert!(client.read_user_feed(&reply(200, &user_feed(&[]))).is_ok());
    assert_eq!(client.read_user_feed(&reply(200, "")), Err(ClientError::HttpRequest));
    assert_eq!(client.read_user_feed(&reply(200, r#"{"data":{}}"#)), Err(ClientError::HttpRequest));
    // One wrapper without a node fails the whole feed.
    let broken = user_feed(&[media("1", &[]), r#"{"cursor":"x"}"#.to_string()]);
    assert_eq!(client.read_user_feed(&reply(200, &broken)), Err(ClientError::HttpRequest));
}

#[test]
fn authenticated_client_fetches_as_its_base_client_does() {
    let fixture = r#"{"authenticated":true,"user":true,"userId":"1","oneTapPrompt":false,"status":"ok"}"#;
    let mut server =
        Server { root: Some(page(200, ROOT_PAGE)), login: Some(reply(200, fixture)), asked: vec![] };
    let plain = Client::new_with_url(SERVER, "http://127.0.0.1:1234/graphql/query");
    let client = login(
        Client::new_with_url(SERVER, "http://127.0.0.1:1234/graphql/query"),
        &get_credentials(),
        &mut server,
    )
    .unwrap();

    assert_eq!(client.user_infos_request("Freyskeyd"), plain.user_infos_request("Freyskeyd"));
    assert_eq!(client.user_feed_request("1234", None), plain.user_feed_request("1234", None));
    let feed = user_feed(&[media("1", &["x"])]);
    assert_eq!(
        client.read_user_feed(&reply(200, &feed)),
        plain.read_user_feed(&reply(200, &feed))
    );
    assert_eq!(
        client.read_user_infos(&reply(200, USER_INFO)),
        plain.read_user_infos(&reply(200, USER_INFO))
    );
}
