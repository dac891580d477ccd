use pbr::command::channel::{ChannelCommands, CreateFilter};
use pbr::command::chat::ChatCommands;
use pbr::command::device::DeviceCommands;
use pbr::command::push::PushCommands;
use pbr::command::subscription::SubscriptionCommands;
use pbr::command::text::TextCommands;
use pbr::command::user::UserCommands;
use pbr::command::{upload, upload_request, Commands, PaginationArgs, UploadRequestResponse};
use pbr::json::JsonValue;
use pbr::request::{item_url, Body, BuildError, Method, RequestDescriptor};

fn s(text: &str) -> Option<String> {
    Some(text.to_string())
}

fn text(s: &str) -> JsonValue {
    JsonValue::String(s.to_string())
}

fn object(members: Vec<(&str, JsonValue)>) -> JsonValue {
    JsonValue::Object(members.into_iter().map(|(k, v)| (k.to_string(), v)).collect())
}

fn pairs(items: Vec<(&str, &str)>) -> Vec<(String, String)> {
    items.into_iter().map(|(k, v)| (k.to_string(), v.to_string())).collect()
}

fn to_serde(value: &JsonValue) -> serde_json::Value {
    match value {
        JsonValue::Null => serde_json::Value::Null,
        JsonValue::Bool(b) => serde_json::Value::Bool(*b),
        JsonValue::Number(n) => serde_json::Value::Number(n.parse().unwrap()),
        JsonValue::String(s) => serde_json::Value::String(s.clone()),
        JsonValue::Array(items) => serde_json::Value::Array(items.iter().map(to_serde).collect()),
        JsonValue::Object(members) => serde_json::Value::Object(
            members.iter().map(|(k, v)| (k.clone(), to_serde(v))).collect(),
        ),
    }
}

fn json_body(request: &RequestDescriptor) -> &JsonValue {
    match &request.body {
        Body::Json(document) => document,
        other => panic!("expected a JSON body, found {:?}", other),
    }
}

fn empty_push() -> PushCommands {
    PushCommands::Create {
        t: None,
        title: None,
        body: None,
        url: None,
        file_name: None,
        file_type: None,
        file_url: None,
        source_device_iden: None,
        device_iden: None,
        client_iden: None,
        channel_tag: None,
        email: None,
        guid: None,
        data_binary: None,
    }
}

fn device_create(nickname: Option<String>, model: Option<String>, raw: Option<String>) -> DeviceCommands {
    DeviceCommands::Create {
        nickname,
        model,
        manufacturer: None,
        push_token: None,
        app_version: None,
        icon: None,
        has_sms: None,
        data_binary: raw,
    }
}

#[test]
fn pagination_query_holds_what_is_set() {
    let both = PaginationArgs { cursor: s("abc=="), limit: Some(20) };
    assert_eq!(both.to_query(), pairs(vec![("cursor", "abc=="), ("limit", "20")]));
    let cursor_only = PaginationArgs { cursor: s("next page"), limit: None };
    assert_eq!(cursor_only.to_query(), pairs(vec![("cursor", "next page")]));
    let limit_only = PaginationArgs { cursor: None, limit: Some(-3) };
    assert_eq!(limit_only.to_query(), pairs(vec![("limit", "-3")]));
}

#[test]
fn pagination_query_is_empty_where_nothing_is_set() {
    let none = PaginationArgs { cursor: None, limit: None };
    assert_eq!(none.to_query(), pairs(vec![]));
}

#[test]
fn pagination_defaults_to_five_hundred() {
    let args = PaginationArgs::default();
    assert_eq!(args.cursor, None);
    assert_eq!(args.limit, Some(500));
    assert_eq!(args.to_query(), pairs(vec![("limit", "500")]));
    let push_args = pbr::command::push::PaginationArgs::default();
    assert_eq!(push_args.to_query(), pairs(vec![("limit", "500")]));
}

#[test]
fn push_pagination_query_holds_the_filters_too() {
    let args = pbr::command::push::PaginationArgs {
        modified_after: s("1400000000.5"),
        active: Some(true),
        cursor: s("c"),
        limit: Some(1),
    };
    assert_eq!(
        args.to_query(),
        pairs(vec![("modified_after", "1400000000.5"), ("active", "true"), ("cursor", "c"), ("limit", "1")])
    );
    let inactive = pbr::command::push::PaginationArgs {
        modified_after: None,
        active: Some(false),
        cursor: None,
        limit: None,
    };
    assert_eq!(inactive.to_query(), pairs(vec![("active", "false")]));
}

#[test]
fn list_commands_get_the_collection() {
    let args = PaginationArgs { cursor: s("k"), limit: Some(500) };
    let expected_query = pairs(vec![("cursor", "k"), ("limit", "500")]);
    let chats = ChatCommands::List(args.clone()).build_request().unwrap();
    assert_eq!(
        chats,
        RequestDescriptor {
            method: Method::Get,
            url: "https://api.pushbullet.com/v2/chats".to_string(),
            query: expected_query.clone(),
            body: Body::Absent,
        }
    );
    let devices = DeviceCommands::List(args.clone()).build_request().unwrap();
    assert_eq!(devices.url, "https://api.pushbullet.com/v2/devices");
    assert_eq!(devices.method, Method::Get);
    assert_eq!(devices.query, expected_query);
    assert_eq!(devices.body, Body::Absent);
    let subscriptions = SubscriptionCommands::List(args).build_request().unwrap();
    assert_eq!(subscriptions.url, "https://api.pushbullet.com/v2/subscriptions");
    assert_eq!(subscriptions.query, expected_query);
    let pushes = PushCommands::List(pbr::command::push::PaginationArgs {
        modified_after: None,
        active: Some(true),
        cursor: None,
        limit: Some(2),
    })
    .build_request(None)
    .unwrap();
    assert_eq!(pushes.url, "https://api.pushbullet.com/v2/pushes");
    assert_eq!(pushes.method, Method::Get);
    assert_eq!(pushes.query, pairs(vec![("active", "true"), ("limit", "2")]));
    assert_eq!(pushes.body, Body::Absent);
}

#[test]
fn device_create_body_holds_exactly_the_fields_that_are_set() {
    let request = device_create(s("Test"), s("X"), None).build_request().unwrap();
    assert_eq!(request.method, Method::Post);
    assert_eq!(request.url, "https://api.pushbullet.com/v2/devices");
    assert!(request.query.is_empty());
    assert_eq!(
        json_body(&request),
        &object(vec![("nickname", text("Test")), ("model", text("X"))])
    );
    let wire: serde_json::Value = serde_json::from_str("{\"nickname\":\"Test\",\"model\":\"X\"}").unwrap();
    assert_eq!(to_serde(json_body(&request)), wire);
}

#[test]
fn device_body_holds_numbers_and_flags() {
    let command = DeviceCommands::Update {
        iden: "dev1".to_string(),
        nickname: None,
        model: None,
        manufacturer: s("Acme"),
        push_token: s("tok"),
        app_version: Some(8623),
        icon: s("phone"),
        has_sms: Some(false),
        data_binary: None,
    };
    let request = command.build_request().unwrap();
    assert_eq!(request.method, Method::Post);
    assert_eq!(request.url, "https://api.pushbullet.com/v2/devices/dev1");
    assert_eq!(
        json_body(&request),
        &object(vec![
            ("manufacturer", text("Acme")),
            ("push_token", text("tok")),
            ("app_version", JsonValue::Number("8623".to_string())),
            ("icon", text("phone")),
            ("has_sms", JsonValue::Bool(false)),
        ])
    );
    let wire: serde_json::Value = serde_json::from_str(
        "{\"manufacturer\":\"Acme\",\"push_token\":\"tok\",\"app_version\":8623,\"icon\":\"phone\",\"has_sms\":false}",
    )
    .unwrap();
    assert_eq!(to_serde(json_body(&request)), wire);
}

#[test]
fn a_body_without_fields_is_an_empty_object() {
    let request = device_create(None, None, None).build_request().unwrap();
    assert_eq!(json_body(&request), &object(vec![]));
    let chat = ChatCommands::Create { email: None, data_binary: None }.build_request().unwrap();
    assert_eq!(json_body(&chat), &object(vec![]));
}

#[test]
fn chat_update_puts_the_identifier_in_the_path() {
    let command = ChatCommands::Update { iden: "abc123".to_string(), muted: Some(true), data_binary: None };
    let request = command.build_request().unwrap();
    assert_eq!(request.method, Method::Post);
    assert!(request.url.ends_with("/abc123"));
    assert_eq!(request.url, "https://api.pushbullet.com/v2/chats/abc123");
    assert_eq!(json_body(&request), &object(vec![("muted", JsonValue::Bool(true))]));
    assert_eq!(json_body(&request).get("iden"), None);
    let wire: serde_json::Value = serde_json::from_str("{\"muted\":true}").unwrap();
    assert_eq!(to_serde(json_body(&request)), wire);
}

#[test]
fn chat_create_sends_the_email() {
    let request = ChatCommands::Create { email: s("carmack@idsoftware.com"), data_binary: None }
        .build_request()
        .unwrap();
    assert_eq!(request.method, Method::Post);
    assert_eq!(request.url, "https://api.pushbullet.com/v2/chats");
    assert_eq!(json_body(&request), &object(vec![("email", text("carmack@idsoftware.com"))]));
}

#[test]
fn delete_commands_have_no_body() {
    let chat = ChatCommands::Delete { iden: "c1".to_string() }.build_request().unwrap();
    assert_eq!(
        chat,
        RequestDescriptor {
            method: Method::Delete,
            url: "https://api.pushbullet.com/v2/chats/c1".to_string(),
            query: vec![],
            body: Body::Absent,
        }
    );
    let device = DeviceCommands::Delete { iden: "d1".to_string() }.build_request().unwrap();
    assert_eq!(device.url, "https://api.pushbullet.com/v2/devices/d1");
    assert_eq!(device.method, Method::Delete);
    assert_eq!(device.body, Body::Absent);
    let push = PushCommands::Delete { iden: "p1".to_string() }.build_request(None).unwrap();
    assert_eq!(push.url, "https://api.pushbullet.com/v2/pushes/p1");
    assert_eq!(push.method, Method::Delete);
    assert_eq!(push.body, Body::Absent);
    let subscription = SubscriptionCommands::Delete { iden: "s1".to_string() }.build_request().unwrap();
    assert_eq!(subscription.url, "https://api.pushbullet.com/v2/subscriptions/s1");
    assert_eq!(subscription.method, Method::Delete);
    let text_delete = TextCommands::Delete { iden: "t1".to_string() }.build_request().unwrap();
    assert_eq!(text_delete.url, "https://api.pushbullet.com/v2/texts/t1");
    assert_eq!(text_delete.method, Method::Delete);
    assert_eq!(text_delete.body, Body::Absent);
}

#[test]
fn delete_all_pushes_deletes_the_collection() {
    let request = PushCommands::DeleteAll.build_request(None).unwrap();
    assert_eq!(
        request,
        RequestDescriptor {
            method: Method::Delete,
            url: "https://api.pushbullet.com/v2/pushes".to_string(),
            query: vec![],
            body: Body::Absent,
        }
    );
}

#[test]
fn item_url_joins_with_a_slash() {
    assert_eq!(item_url("https://h/v2/chats", "abc"), "https://h/v2/chats/abc");
    assert_eq!(item_url("c", ""), "c/");
}

#[test]
fn override_replaces_the_fields() {
    let raw = "{\"nickname\":\"Other\",\"extra\":[1,2],\"icon\":null}";
    let request = device_create(s("Test"), s("X"), s(raw)).build_request().unwrap();
    assert_eq!(request.method, Method::Post);
    assert_eq!(request.url, "https://api.pushbullet.com/v2/devices");
    let expected: serde_json::Value = serde_json::from_str(raw).unwrap();
    assert_eq!(to_serde(json_body(&request)), expected);
    assert_eq!(json_body(&request).get("model"), None);
}

#[test]
fn override_gives_the_same_body_whatever_the_fields() {
    let raw = "{\"muted\":false,\"note\":\"kept\"}";
    let with_flag = ChatCommands::Update { iden: "a".to_string(), muted: Some(true), data_binary: s(raw) }
        .build_request()
        .unwrap();
    let without_flag = ChatCommands::Update { iden: "a".to_string(), muted: None, data_binary: s(raw) }
        .build_request()
        .unwrap();
    assert_eq!(with_flag, without_flag);
    assert_eq!(
        json_body(&with_flag),
        &object(vec![("muted", JsonValue::Bool(false)), ("note", text("kept"))])
    );
    assert_eq!(with_flag.url, "https://api.pushbullet.com/v2/chats/a");
}

#[test]
fn override_works_for_every_resource() {
    let raw = "{\"zzz\":1}";
    let expected = object(vec![("zzz", JsonValue::Number("1".to_string()))]);
    let chat = ChatCommands::Create { email: s("e"), data_binary: s(raw) }.build_request().unwrap();
    assert_eq!(json_body(&chat), &expected);
    let mut push = empty_push();
    if let PushCommands::Create { t, data_binary, .. } = &mut push {
        *t = s("note");
        *data_binary = s(raw);
    }
    assert_eq!(json_body(&push.build_request(None).unwrap()), &expected);
    let push_update = PushCommands::Update { iden: "p".to_string(), dismissed: Some(true), data_binary: s(raw) }
        .build_request(None)
        .unwrap();
    assert_eq!(json_body(&push_update), &expected);
    assert_eq!(push_update.url, "https://api.pushbullet.com/v2/pushes/p");
    let subscription = SubscriptionCommands::Create { channel_tag: s("t"), data_binary: s(raw) }
        .build_request()
        .unwrap();
    assert_eq!(json_body(&subscription), &expected);
    let subscription_update =
        SubscriptionCommands::Update { iden: "s".to_string(), muted: Some(true), data_binary: s(raw) }
            .build_request()
            .unwrap();
    assert_eq!(json_body(&subscription_update), &expected);
    let channel = ChannelCommands::Create {
        tag: s("t"),
        name: None,
        description: None,
        image_url: None,
        website_url: None,
        feed_url: None,
        subscribe: None,
        data_binary: s(raw),
    }
    .build_request()
    .unwrap();
    assert_eq!(json_body(&channel), &expected);
    let text_create = TextCommands::Create {
        target_device_iden: s("d"),
        address: None,
        message: None,
        guid: None,
        status: None,
        file_type: None,
        file_url: None,
        skip_delete_file: None,
        data_binary: s(raw),
    }
    .build_request()
    .unwrap();
    assert_eq!(json_body(&text_create), &expected);
    let text_update = TextCommands::Update {
        iden: "t".to_string(),
        target_device_iden: s("d"),
        address: None,
        message: None,
        guid: None,
        status: None,
        file_type: None,
        skip_delete_file: None,
        data_binary: s(raw),
    }
    .build_request()
    .unwrap();
    assert_eq!(json_body(&text_update), &expected);
    let device_update = DeviceCommands::Update {
        iden: "d".to_string(),
        nickname: s("n"),
        model: None,
        manufacturer: None,
        push_token: None,
        app_version: None,
        icon: None,
        has_sms: None,
        data_binary: s(raw),
    }
    .build_request()
    .unwrap();
    assert_eq!(json_body(&device_update), &expected);
}

#[test]
fn override_that_is_no_json_is_malformed() {
    let outcome = device_create(s("Test"), None, s("{\"nickname\":")).build_request();
    match outcome {
        Err(BuildError::MalformedOverride(detail)) => assert!(!detail.is_empty()),
        other => panic!("expected a malformed override, found {:?}", other),
    }
    let outcome = ChatCommands::Update { iden: "a".to_string(), muted: None, data_binary: s("not json") }
        .build_request();
    assert!(matches!(outcome, Err(BuildError::MalformedOverride(_))));
}

#[test]
fn override_that_does_not_fit_the_fields_is_malformed() {
    let wrong_kind = ChatCommands::Update { iden: "a".to_string(), muted: None, data_binary: s("{\"muted\":\"yes\"}") }
        .build_request();
    assert!(matches!(wrong_kind, Err(BuildError::MalformedOverride(_))));
    let no_object = device_create(None, None, s("[1,2,3]")).build_request();
    assert!(matches!(no_object, Err(BuildError::MalformedOverride(_))));
    let wrong_number = device_create(None, None, s("{\"app_version\":\"12\"}")).build_request();
    assert!(matches!(wrong_number, Err(BuildError::MalformedOverride(_))));
}

#[test]
fn push_create_sends_the_fields_of_a_note() {
    let mut push = empty_push();
    if let PushCommands::Create { t, title, body, device_iden, guid, .. } = &mut push {
        *t = s("note");
        *title = s("Hello");
        *body = s("World");
        *device_iden = s("dev");
        *guid = s("g-1");
    }
    let request = push.build_request(None).unwrap();
    assert_eq!(request.method, Method::Post);
    assert_eq!(request.url, "https://api.pushbullet.com/v2/pushes");
    assert_eq!(
        json_body(&request),
        &object(vec![
            ("type", text("note")),
            ("title", text("Hello")),
            ("body", text("World")),
            ("device_iden", text("dev")),
            ("guid", text("g-1")),
        ])
    );
}

#[test]
fn push_of_an_unknown_type_passes_through() {
    let mut push = empty_push();
    if let PushCommands::Create { t, url, file_name, file_url, channel_tag, .. } = &mut push {
        *t = s("mirror");
        *url = s("https://example.com");
        *file_name = s("local.png");
        *file_url = s("https://files/x");
        *channel_tag = s("news");
    }
    assert!(!push.needs_upload());
    let request = push.build_request(None).unwrap();
    assert_eq!(
        json_body(&request),
        &object(vec![
            ("type", text("mirror")),
            ("url", text("https://example.com")),
            ("file_name", text("local.png")),
            ("file_url", text("https://files/x")),
            ("channel_tag", text("news")),
        ])
    );
}

#[test]
fn push_update_sends_dismissed() {
    let request = PushCommands::Update { iden: "p9".to_string(), dismissed: Some(true), data_binary: None }
        .build_request(None)
        .unwrap();
    assert_eq!(request.method, Method::Post);
    assert_eq!(request.url, "https://api.pushbullet.com/v2/pushes/p9");
    assert_eq!(json_body(&request), &object(vec![("dismissed", JsonValue::Bool(true))]));
}

fn ticket() -> UploadRequestResponse {
    UploadRequestResponse {
        file_name: "cat.png".to_string(),
        file_type: "image/png".to_string(),
        file_url: "https://dl.example/cat.png".to_string(),
        upload_url: "https://upload.example/slot".to_string(),
    }
}

#[test]
fn file_push_takes_its_file_fields_from_the_ticket() {
    let mut push = empty_push();
    if let PushCommands::Create { t, body, file_name, file_type, file_url, email, .. } = &mut push {
        *t = s("file");
        *body = s("look");
        *file_name = s("/home/me/pictures/cat.png");
        *file_type = s("application/octet-stream");
        *file_url = s("https://wrong.example/");
        *email = s("a@b.c");
    }
    assert!(push.needs_upload());
    assert_eq!(
        push.upload_plan(),
        Some(("/home/me/pictures/cat.png".to_string(), s("application/octet-stream")))
    );
    let granted = ticket();
    let request = push.build_request(Some(&granted)).unwrap();
    assert_eq!(request.method, Method::Post);
    assert_eq!(request.url, "https://api.pushbullet.com/v2/pushes");
    assert_eq!(
        json_body(&request),
        &object(vec![
            ("type", text("file")),
            ("body", text("look")),
            ("file_name", text("cat.png")),
            ("file_type", text("image/png")),
            ("file_url", text("https://dl.example/cat.png")),
            ("email", text("a@b.c")),
        ])
    );
}

#[test]
fn file_push_without_a_file_name_is_refused() {
    let mut push = empty_push();
    if let PushCommands::Create { t, file_type, .. } = &mut push {
        *t = s("file");
        *file_type = s("image/png");
    }
    assert!(push.needs_upload());
    assert_eq!(push.upload_plan(), None);
    assert_eq!(
        push.build_request(None),
        Err(BuildError::MissingRequiredField("file_name".to_string()))
    );
    let granted = ticket();
    assert_eq!(
        push.build_request(Some(&granted)),
        Err(BuildError::MissingRequiredField("file_name".to_string()))
    );
}

#[test]
fn file_push_with_an_override_needs_no_upload() {
    let mut push = empty_push();
    if let PushCommands::Create { t, data_binary, .. } = &mut push {
        *t = s("file");
        *data_binary = s("{\"type\":\"file\",\"file_url\":\"https://x\"}");
    }
    assert!(!push.needs_upload());
    assert_eq!(push.upload_plan(), None);
    let request = push.build_request(None).unwrap();
    assert_eq!(
        json_body(&request),
        &object(vec![("file_url", text("https://x")), ("type", text("file"))])
    );
}

#[test]
fn subscription_commands_build_their_requests() {
    let create = SubscriptionCommands::Create { channel_tag: s("jblow"), data_binary: None }
        .build_request()
        .unwrap();
    assert_eq!(create.method, Method::Post);
    assert_eq!(create.url, "https://api.pushbullet.com/v2/subscriptions");
    assert_eq!(json_body(&create), &object(vec![("channel_tag", text("jblow"))]));
    let update = SubscriptionCommands::Update { iden: "s7".to_string(), muted: Some(false), data_binary: None }
        .build_request()
        .unwrap();
    assert_eq!(update.url, "https://api.pushbullet.com/v2/subscriptions/s7");
    assert_eq!(json_body(&update), &object(vec![("muted", JsonValue::Bool(false))]));
}

#[test]
fn channel_info_asks_with_a_query() {
    let request = SubscriptionCommands::ChannelInfo { tag: s("jblow"), no_recent_pushed: Some(true) }
        .build_request()
        .unwrap();
    assert_eq!(
        request,
        RequestDescriptor {
            method: Method::Get,
            url: "https://api.pushbullet.com/v2/channel-info".to_string(),
            query: pairs(vec![("tag", "jblow"), ("no_recent_pushes", "true")]),
            body: Body::Absent,
        }
    );
    let bare = SubscriptionCommands::ChannelInfo { tag: None, no_recent_pushed: None }
        .build_request()
        .unwrap();
    assert!(bare.query.is_empty());
}

#[test]
fn channel_create_sends_its_fields_and_no_filter() {
    let request = ChannelCommands::Create {
        tag: s("elonmusknews"),
        name: s("Elon"),
        description: None,
        image_url: None,
        website_url: s("https://w"),
        feed_url: None,
        subscribe: Some(true),
        data_binary: None,
    }
    .build_request()
    .unwrap();
    assert_eq!(request.method, Method::Post);
    assert_eq!(request.url, "https://api.pushbullet.com/v2/channels");
    assert_eq!(
        json_body(&request),
        &object(vec![
            ("tag", text("elonmusknews")),
            ("name", text("Elon")),
            ("website_url", text("https://w")),
            ("subscribe", JsonValue::Bool(true)),
        ])
    );
}

#[test]
fn channel_body_lists_its_filters() {
    let request = pbr::command::channel::CreateRequest {
        tag: s("t"),
        name: None,
        description: None,
        image_url: None,
        website_url: None,
        feed_url: s("https://feed"),
        feed_filters: vec![
            CreateFilter { field: s("title"), operator: s("contains"), value: s("x"), not: None, ignore_case: Some(true) },
            CreateFilter { field: None, operator: None, value: None, not: Some(false), ignore_case: None },
        ],
        subscribe: None,
    };
    assert_eq!(
        request.to_json(),
        object(vec![
            ("tag", text("t")),
            ("feed_url", text("https://feed")),
            (
                "feed_filters",
                JsonValue::Array(vec![
                    object(vec![
                        ("field", text("title")),
                        ("operator", text("contains")),
                        ("value", text("x")),
                        ("ignore_case", JsonValue::Bool(true)),
                    ]),
                    object(vec![("not", JsonValue::Bool(false))]),
                ])
            ),
        ])
    );
}

#[test]
fn text_create_nests_the_message_in_data() {
    let request = TextCommands::Create {
        target_device_iden: s("dev"),
        address: s("+1 303 555 1212"),
        message: s("Hello!"),
        guid: None,
        status: None,
        file_type: s("image/jpeg"),
        file_url: s("https://f"),
        skip_delete_file: Some(true),
        data_binary: None,
    }
    .build_request()
    .unwrap();
    assert_eq!(request.method, Method::Post);
    assert_eq!(request.url, "https://api.pushbullet.com/v2/texts");
    assert_eq!(
        json_body(&request),
        &object(vec![
            (
                "data",
                object(vec![
                    ("target_device_iden", text("dev")),
                    ("address", text("+1 303 555 1212")),
                    ("message", text("Hello!")),
                    ("file_type", text("image/jpeg")),
                ])
            ),
            ("file_url", text("https://f")),
            ("skip_delete_file", JsonValue::Bool(true)),
        ])
    );
}

#[test]
fn text_update_keeps_an_empty_data_object() {
    let request = TextCommands::Update {
        iden: "t3".to_string(),
        target_device_iden: None,
        address: None,
        message: None,
        guid: None,
        status: None,
        file_type: None,
        skip_delete_file: None,
        data_binary: None,
    }
    .build_request()
    .unwrap();
    assert_eq!(request.url, "https://api.pushbullet.com/v2/texts/t3");
    assert_eq!(json_body(&request), &object(vec![("data", object(vec![]))]));
    let without_data = pbr::command::text::UpdateRequest { data: None, skip_delete_file: Some(true) };
    assert_eq!(without_data.to_json(), object(vec![("skip_delete_file", JsonValue::Bool(true))]));
}

#[test]
fn user_get_asks_for_the_current_user() {
    let request = UserCommands::Get.build_request().unwrap();
    assert_eq!(
        request,
        RequestDescriptor {
            method: Method::Get,
            url: "https://api.pushbullet.com/v2/users/me".to_string(),
            query: vec![],
            body: Body::Absent,
        }
    );
}

#[test]
fn commands_dispatch_to_their_resource() {
    let chat = Commands::Chat(ChatCommands::Delete { iden: "c".to_string() });
    assert_eq!(
        chat.build_request(None),
        Some(ChatCommands::Delete { iden: "c".to_string() }.build_request())
    );
    let user = Commands::User(UserCommands::Get);
    assert_eq!(user.build_request(None), Some(UserCommands::Get.build_request()));
    let token = Commands::AccessToken { access_token: "o.abc".to_string() };
    assert_eq!(token.build_request(None), None);
    assert_eq!(token.upload_plan(), None);
}

#[test]
fn upload_request_names_the_file_without_its_directories() {
    let request = upload_request("/home/me/pictures/cat.png", "image/png");
    assert_eq!(request.method, Method::Post);
    assert_eq!(request.url, "https://api.pushbullet.com/v2/upload-request");
    assert!(request.query.is_empty());
    assert_eq!(
        json_body(&request),
        &object(vec![("file_name", text("cat.png")), ("file_type", text("image/png"))])
    );
    let nameless = upload_request("..", "text/plain");
    assert_eq!(
        json_body(&nameless),
        &object(vec![("file_name", JsonValue::Null), ("file_type", text("text/plain"))])
    );
}

#[test]
fn upload_sends_the_file_as_a_form_part() {
    let request = upload("/home/me/pictures/cat.png", "https://upload.example/slot");
    assert_eq!(
        request,
        RequestDescriptor {
            method: Method::Post,
            url: "https://upload.example/slot".to_string(),
            query: vec![],
            body: Body::File { field: "file".to_string(), path: "/home/me/pictures/cat.png".to_string() },
        }
    );
}

#[test]
fn ticket_is_read_from_the_four_fields() {
    let document = object(vec![
        ("data", object(vec![("acl", text("public-read"))])),
        ("file_name", text("cat.png")),
        ("file_type", text("image/png")),
        ("file_url", text("https://dl.example/cat.png")),
        ("upload_url", text("https://upload.example/slot")),
    ]);
    assert_eq!(UploadRequestResponse::from_json(&document), Some(ticket()));
}

#[test]
fn ticket_is_missing_where_a_field_is() {
    let no_upload_url = object(vec![
        ("file_name", text("cat.png")),
        ("file_type", text("image/png")),
        ("file_url", text("https://dl.example/cat.png")),
    ]);
    assert_eq!(UploadRequestResponse::from_json(&no_upload_url), None);
    let wrong_kind = object(vec![
        ("file_name", text("cat.png")),
        ("file_type", JsonValue::Null),
        ("file_url", text("https://dl.example/cat.png")),
        ("upload_url", text("https://upload.example/slot")),
    ]);
    assert_eq!(UploadRequestResponse::from_json(&wrong_kind), None);
    assert_eq!(UploadRequestResponse::from_json(&JsonValue::Array(vec![])), None);
    assert_eq!(UploadRequestResponse::from_json(&object(vec![])), None);
}
