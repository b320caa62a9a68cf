use instagram::web_api::decode::{Decode, DecodeError, DecodeErrorKind, PathStep};
use instagram::web_api::domain::deserializer::{
    nested_media_caption, nested_media_likes, unwrap_nodes,
};
use instagram::web_api::domain::infos::{profile_key, LoginInfos};
use instagram::web_api::domain::{
    Location, MediaDimensions, MediaOwner, PaginationInfos, ThumbnailResource,
};
use instagram::web_api::json::Json;
use instagram::web_api::response::deserializer::nested_user_feed;
use instagram::web_api::response::{
    ApiResponse, GraphQLResponse, LoginResponse, PhoneVerificationSettings,
};

fn json(text: &str) -> Json {
    convert(&serde_json::from_str::<serde_json::Value>(text).unwrap())
}

fn convert(value: &serde_json::Value) -> Json {
    match value {
        serde_json::Value::Null => Json::Null,
        serde_json::Value::Bool(b) => Json::Bool(*b),
        serde_json::Value::Number(n) => match n.as_i64() {
            Some(i) => Json::Number(i),
            None => Json::Decimal(n.to_string()),
        },
        serde_json::Value::String(s) => Json::Str(s.clone()),
        serde_json::Value::Array(items) => Json::Array(items.iter().map(convert).collect()),
        serde_json::Value::Object(members) => {
            Json::Object(members.iter().map(|(k, v)| (k.clone(), convert(v))).collect())
        }
    }
}

fn key(name: &str) -> PathStep {
    PathStep::Key(name.to_string())
}

fn missing(path: Vec<PathStep>) -> DecodeError {
    DecodeError { path, kind: DecodeErrorKind::MissingField }
}

fn wrong(path: Vec<PathStep>) -> DecodeError {
    DecodeError { path, kind: DecodeErrorKind::WrongShape }
}

#[test]
fn member_is_the_first_of_its_name() {
    let object = Json::Object(vec![
        ("a".to_string(), Json::Number(1)),
        ("b".to_string(), Json::Number(2)),
        ("a".to_string(), Json::Number(3)),
    ]);

    assert_eq!(object.member("a"), Some(&Json::Number(1)));
    assert_eq!(object.member("b"), Some(&Json::Number(2)));
    assert_eq!(object.member("c"), None);
    assert_eq!(object.member(""), None);
    assert_eq!(Json::Array(vec![Json::Number(1)]).member("a"), None);
    assert_eq!(Json::Null.member("a"), None);
}

#[test]
fn clone_is_equal() {
    let value = json(r#"{"a":[1,2.5,"x",null,true,{"b":{}}],"c":"d","e":-7}"#);
    assert_eq!(value.clone(), value);
    assert_eq!(
        json("[1, 2.5, 18446744073709551615]"),
        Json::Array(vec![
            Json::Number(1),
            Json::Decimal("2.5".to_string()),
            Json::Decimal("18446744073709551615".to_string()),
        ])
    );
}

#[test]
fn scalars_decode_from_their_own_shape_only() {
    assert_eq!(String::decode(&json(r#""text""#)), Ok("text".to_string()));
    assert_eq!(String::decode(&json("1")), Err(wrong(vec![])));
    assert_eq!(String::decode(&json("null")), Err(wrong(vec![])));
    assert_eq!(bool::decode(&json("true")), Ok(true));
    assert_eq!(bool::decode(&json("false")), Ok(false));
    assert_eq!(bool::decode(&json("0")), Err(wrong(vec![])));
    assert_eq!(bool::decode(&json(r#""true""#)), Err(wrong(vec![])));
    assert_eq!(i32::decode(&json("12")), Ok(12));
    assert_eq!(i32::decode(&json("-12")), Ok(-12));
    assert_eq!(i32::decode(&json("12.0")), Err(wrong(vec![])));
    assert_eq!(i32::decode(&json(r#""12""#)), Err(wrong(vec![])));
}

#[test]
fn integers_decode_within_their_range() {
    assert_eq!(i8::decode(&json("127")), Ok(127));
    assert_eq!(i8::decode(&json("-128")), Ok(-128));
    assert_eq!(i8::decode(&json("128")), Err(wrong(vec![])));
    assert_eq!(i8::decode(&json("-129")), Err(wrong(vec![])));
    assert_eq!(i32::decode(&json("2147483647")), Ok(i32::MAX));
    assert_eq!(i32::decode(&json("-2147483648")), Ok(i32::MIN));
    assert_eq!(i32::decode(&json("2147483648")), Err(wrong(vec![])));
    assert_eq!(i32::decode(&json("-2147483649")), Err(wrong(vec![])));
    assert_eq!(i64::decode(&json("9223372036854775807")), Ok(i64::MAX));
    assert_eq!(i64::decode(&json("-9223372036854775808")), Ok(i64::MIN));
    assert_eq!(i64::decode(&json("9223372036854775808")), Err(wrong(vec![])));
    assert_eq!(i64::decode(&json("1e3")), Err(wrong(vec![])));
}

#[test]
fn list_decodes_in_order_and_fails_at_the_first_bad_item() {
    assert_eq!(Vec::<i32>::decode(&json("[]")), Ok(vec![]));
    assert_eq!(Vec::<i32>::decode(&json("[3, 1, 2]")), Ok(vec![3, 1, 2]));
    assert_eq!(
        Vec::<i32>::decode(&json(r#"[3, "x", 2, true]"#)),
        Err(wrong(vec![PathStep::Index(1)]))
    );
    assert_eq!(Vec::<i32>::decode(&json(r#"{"0": 1}"#)), Err(wrong(vec![])));
    assert_eq!(
        Vec::<Vec<bool>>::decode(&json("[[true], [false, true], [true, 1]]")),
        Err(wrong(vec![PathStep::Index(2), PathStep::Index(1)]))
    );
}

#[test]
fn required_and_optional_members() {
    let object = json(r#"{"a":"x","b":null,"c":7}"#);

    assert_eq!(object.required::<String>("a"), Ok("x".to_string()));
    assert_eq!(object.required::<String>("b"), Err(wrong(vec![key("b")])));
    assert_eq!(object.required::<String>("z"), Err(missing(vec![key("z")])));
    assert_eq!(json("[]").required::<String>("a"), Err(wrong(vec![])));

    assert_eq!(object.optional::<String>("a"), Ok(Some("x".to_string())));
    assert_eq!(object.optional::<String>("b"), Ok(None));
    assert_eq!(object.optional::<String>("z"), Ok(None));
    assert_eq!(object.optional::<String>("c"), Err(wrong(vec![key("c")])));
    assert_eq!(json("7").optional::<String>("a"), Err(wrong(vec![])));

    assert_eq!(object.at("c"), Ok(&Json::Number(7)));
    assert_eq!(object.at("d"), Err(missing(vec![key("d")])));
    assert_eq!(json("null").at("d"), Err(wrong(vec![])));
}

#[test]
fn failure_names_the_path_from_the_value_down() {
    let e = DecodeError::here(DecodeErrorKind::MissingField)
        .under(key("id"))
        .under(PathStep::Index(3))
        .under(key("edges"));

    assert_eq!(e, missing(vec![key("edges"), PathStep::Index(3), key("id")]));
    assert_eq!(DecodeError::here(DecodeErrorKind::WrongShape), wrong(vec![]));
}

#[test]
fn records_decode_and_name_the_first_failing_field() {
    assert_eq!(
        MediaOwner::decode(&json(r#"{"id":"1","username":"u","more":[1]}"#)),
        Ok(MediaOwner { id: "1".to_string(), username: "u".to_string() })
    );
    assert_eq!(MediaOwner::decode(&json(r#"{"id":"1"}"#)), Err(missing(vec![key("username")])));
    assert_eq!(MediaOwner::decode(&json(r#"{"username":"u"}"#)), Err(missing(vec![key("id")])));
    assert_eq!(MediaOwner::decode(&json(r#"{}"#)), Err(missing(vec![key("id")])));
    assert_eq!(
        MediaOwner::decode(&json(r#"{"id":1,"username":2}"#)),
        Err(wrong(vec![key("id")]))
    );
    assert_eq!(MediaOwner::decode(&json(r#"["1","u"]"#)), Err(wrong(vec![])));

    assert_eq!(
        MediaDimensions::decode(&json(r#"{"height":10,"width":20}"#)),
        Ok(MediaDimensions { height: 10, width: 20 })
    );
    assert_eq!(
        ThumbnailResource::decode(&json(r#"{"src":"s","config_width":150,"config_height":100}"#)),
        Ok(ThumbnailResource { src: "s".to_string(), height: 100, width: 150 })
    );
    assert_eq!(
        ThumbnailResource::decode(&json(r#"{"src":"s","width":150,"height":100}"#)),
        Err(missing(vec![key("config_height")]))
    );
    assert_eq!(
        Location::decode(&json(r#"{"id":"7","has_public_page":true,"name":"n","slug":"s"}"#)),
        Ok(Location {
            id: "7".to_string(),
            has_public_page: true,
            name: "n".to_string(),
            slug: "s".to_string()
        })
    );
    assert_eq!(
        PaginationInfos::decode(&json(r#"{"has_next_page":false}"#)),
        Ok(PaginationInfos { end_cursor: None, has_next_page: false })
    );
    assert_eq!(
        PaginationInfos::decode(&json(r#"{"has_next_page":true,"end_cursor":"abc=="}"#)),
        Ok(PaginationInfos { end_cursor: Some("abc==".to_string()), has_next_page: true })
    );
    assert_eq!(
        PhoneVerificationSettings::decode(&json(
            r#"{"max_sms_count":200,"resend_sms_delay_sec":60,"robocall_count_down_time_sec":30,"robocall_after_max_sms":true}"#
        )),
        Err(wrong(vec![key("max_sms_count")]))
    );
}

#[test]
fn wrappers_unwrap_to_their_nodes_in_order() {
    assert_eq!(unwrap_nodes::<i32>(&json("[]")), Ok(vec![]));
    assert_eq!(
        unwrap_nodes::<i32>(&json(r#"[{"node":3},{"node":1,"cursor":"c"},{"node":2}]"#)),
        Ok(vec![3, 1, 2])
    );
    assert_eq!(
        unwrap_nodes::<MediaOwner>(&json(
            r#"[{"node":{"id":"b","username":"B"}},{"node":{"id":"a","username":"A"}}]"#
        )),
        Ok(vec![
            MediaOwner { id: "b".to_string(), username: "B".to_string() },
            MediaOwner { id: "a".to_string(), username: "A".to_string() },
        ])
    );
}

#[test]
fn wrapper_without_a_node_fails_the_list() {
    assert_eq!(
        unwrap_nodes::<i32>(&json(r#"[{"node":3},{"nod":1},{"node":2}]"#)),
        Err(missing(vec![PathStep::Index(1), key("node")]))
    );
    assert_eq!(
        unwrap_nodes::<i32>(&json(r#"[{"node":3},{"node":1},{"node":"2"}]"#)),
        Err(wrong(vec![PathStep::Index(2), key("node")]))
    );
    assert_eq!(unwrap_nodes::<i32>(&json(r#"[3]"#)), Err(wrong(vec![PathStep::Index(0)])));
    assert_eq!(unwrap_nodes::<i32>(&json(r#"{"node":3}"#)), Err(wrong(vec![])));
    assert_eq!(
        unwrap_nodes::<MediaOwner>(&json(r#"[{"node":{"id":"b"}}]"#)),
        Err(missing(vec![PathStep::Index(0), key("node"), key("username")]))
    );
}

#[test]
fn caption_is_absent_or_the_text_of_the_last_edge() {
    assert_eq!(nested_media_caption(&json(r#"{"edges":[]}"#)), Ok(None));
    assert_eq!(
        nested_media_caption(&json(r#"{"edges":[{"node":{"text":"one"}}]}"#)),
        Ok(Some("one".to_string()))
    );
    assert_eq!(
        nested_media_caption(&json(
            r#"{"edges":[{"node":{"text":"one"}},{"node":{"text":"two"}},{"node":{"text":"three"}}]}"#
        )),
        Ok(Some("three".to_string()))
    );
}

#[test]
fn caption_of_another_shape_fails() {
    assert_eq!(nested_media_caption(&json(r#"{}"#)), Err(missing(vec![key("edges")])));
    assert_eq!(nested_media_caption(&json(r#"{"edges":null}"#)), Err(wrong(vec![key("edges")])));
    assert_eq!(nested_media_caption(&json(r#"[]"#)), Err(wrong(vec![])));
    assert_eq!(
        nested_media_caption(&json(r#"{"edges":[{"node":{"text":"one"}},{"node":{}}]}"#)),
        Err(missing(vec![key("edges"), PathStep::Index(1), key("node"), key("text")]))
    );
    // An edge that is not the last is held to the shape too.
    assert_eq!(
        nested_media_caption(&json(r#"{"edges":[{"node":{"text":1}},{"node":{"text":"two"}}]}"#)),
        Err(wrong(vec![key("edges"), PathStep::Index(0), key("node"), key("text")]))
    );
}

#[test]
fn likes_are_the_count() {
    assert_eq!(nested_media_likes(&json(r#"{"count":17,"edges":[]}"#)), Ok(17));
    assert_eq!(nested_media_likes(&json(r#"{"count":0}"#)), Ok(0));
    assert_eq!(nested_media_likes(&json(r#"{"edges":[]}"#)), Err(missing(vec![key("count")])));
    assert_eq!(nested_media_likes(&json(r#"{"count":"17"}"#)), Err(wrong(vec![key("count")])));
    assert_eq!(nested_media_likes(&json(r#"17"#)), Err(wrong(vec![])));
}

#[test]
fn user_feed_is_nested_under_the_timeline() {
    let feed = nested_user_feed(&json(
        r#"{"edge_owner_to_timeline_media":{"count":3,"page_info":{"has_next_page":false,"end_cursor":null},"edges":[]}}"#,
    ))
    .unwrap();
    assert_eq!(feed.count, 3);
    assert!(feed.medias.is_empty());
    assert_eq!(feed.pagination_infos, PaginationInfos { end_cursor: None, has_next_page: false });

    assert_eq!(
        nested_user_feed(&json(r#"{"count":3}"#)),
        Err(missing(vec![key("edge_owner_to_timeline_media")]))
    );
    assert_eq!(
        nested_user_feed(&json(r#"{"edge_owner_to_timeline_media":{"count":3,"edges":[]}}"#)),
        Err(missing(vec![key("edge_owner_to_timeline_media"), key("page_info")]))
    );
}

#[test]
fn envelopes_unwrap() {
    assert_eq!(
        ApiResponse::<MediaOwner>::decode(&json(r#"{"graphql":{"id":"1","username":"u"}}"#)),
        Ok(ApiResponse { graphql: MediaOwner { id: "1".to_string(), username: "u".to_string() } })
    );
    assert_eq!(
        ApiResponse::<MediaOwner>::decode(&json(r#"{"data":{"id":"1","username":"u"}}"#)),
        Err(missing(vec![key("graphql")]))
    );
    assert_eq!(
        GraphQLResponse::<MediaOwner>::decode(&json(r#"{"data":{"id":"1"}}"#)),
        Err(missing(vec![key("data"), key("username")]))
    );
    assert_eq!(GraphQLResponse::<i32>::decode(&json(r#"{"data":5}"#)), Ok(GraphQLResponse { data: 5 }));
}

#[test]
fn login_reply_is_a_success_or_a_challenge() {
    let success = json(
        r#"{"authenticated":true,"user":true,"userId":"8343444274","oneTapPrompt":false,"status":"ok"}"#,
    );
    assert_eq!(
        LoginResponse::decode(&success),
        Ok(LoginResponse::Success(LoginInfos {
            authenticated: true,
            user: true,
            user_id: "8343444274".to_string(),
            one_tap_prompt: false,
            status: "ok".to_string(),
        }))
    );

    let settings = r#"{"max_sms_count":2,"resend_sms_delay_sec":60,"robocall_count_down_time_sec":30,"robocall_after_max_sms":true}"#;
    let challenge = json(&format!(
        r#"{{"message":"m","two_factor_required":true,"two_factor_info":{{"username":"u","sms_two_factor_on":true,"totp_two_factor_on":false,"obfuscated_phone_number":"12","two_factor_identifier":"id","show_messenger_code_option":false,"show_new_login_screen":true,"show_trusted_device_option":true,"phone_verification_settings":{s}}},"phone_verification_settings":{s},"status":"fail"}}"#,
        s = settings
    ));
    match LoginResponse::decode(&challenge) {
        Ok(LoginResponse::TwoFactorNeeded(c)) => {
            assert_eq!(c.message, "m");
            assert!(c.two_factor_required);
            assert_eq!(c.two_factor_info.username, "u");
            assert_eq!(c.two_factor_info.phone_verification_settings.resend_sms_delay_sec, 60);
            assert_eq!(c.phone_verification_settings.robocall_count_down_time_sec, 30);
        }
        other => panic!("unexpected {:?}", other),
    }

    assert_eq!(LoginResponse::decode(&json(r#"{"status":"ok"}"#)), Err(wrong(vec![])));
    assert_eq!(LoginResponse::decode(&json(r#"null"#)), Err(wrong(vec![])));
}

#[test]
fn login_infos_have_camel_case_members() {
    assert_eq!(
        LoginInfos::decode(&json(
            r#"{"authenticated":false,"user":true,"user_id":"1","one_tap_prompt":false,"status":"ok"}"#
        )),
        Err(missing(vec![key("userId")]))
    );
}

#[test]
fn profile_keys_are_the_fields_of_a_profile() {
    for name in ["biography", "id", "username", "full_name", "connected_fb_page", "is_private"] {
        assert!(profile_key(name), "{}", name);
    }
    for name in ["", "extra", "edge_follow", "Username", "user_name", "id "] {
        assert!(!profile_key(name), "{}", name);
    }
}
