use pbr::command::chat::ChatCommands;
use pbr::command::push::PushCommands;
use pbr::command::user::UserCommands;
use pbr::command::{Commands, UploadRequestResponse};
use pbr::json::JsonValue;
use pbr::pipeline::{
    authorize, read_ticket, Action, Event, Failure, Outgoing, Pipeline, Reply, Stage,
    TransportError,
};
use pbr::request::{Body, BuildError, Method, RequestDescriptor};

fn s(text: &str) -> Option<String> {
    Some(text.to_string())
}

fn text(s: &str) -> JsonValue {
    JsonValue::String(s.to_string())
}

fn object(members: Vec<(&str, JsonValue)>) -> JsonValue {
    JsonValue::Object(members.into_iter().map(|(k, v)| (k.to_string(), v)).collect())
}

fn reply(status: u16, body: &str) -> Event {
    Event::Replied(Ok(Reply { status, body: body.to_string() }))
}

fn loaded(token: &str) -> Event {
    Event::TokenLoaded(Ok(token.to_string()))
}

fn header(token: &str) -> (String, String) {
    ("Access-Token".to_string(), token.to_string())
}

fn file_push(file_name: Option<String>, file_type: Option<String>) -> Commands {
    Commands::Push(PushCommands::Create {
        t: s("file"),
        title: None,
        body: s("look"),
        url: None,
        file_name,
        file_type,
        file_url: None,
        source_device_iden: None,
        device_iden: None,
        client_iden: None,
        channel_tag: None,
        email: None,
        guid: None,
        data_binary: None,
    })
}

const TICKET: &str = "{\"file_name\":\"cat.png\",\"file_type\":\"image/png\",\"file_url\":\"https://dl.example/cat.png\",\"upload_url\":\"https://upload.example/slot\",\"data\":{\"acl\":\"public-read\"}}";

fn sent(action: &Action) -> &Outgoing {
    match action {
        Action::Send { outgoing } => outgoing,
        other => panic!("expected a request to send, found {:?}", other),
    }
}

#[test]
fn authorize_attaches_the_access_token() {
    let request = UserCommands::Get.build_request().unwrap();
    let outgoing = authorize(request, "o.secret");
    assert_eq!(outgoing.header, header("o.secret"));
    assert_eq!(outgoing.request, UserCommands::Get.build_request().unwrap());
}

#[test]
fn a_plain_command_is_sent_once_and_its_response_printed() {
    let command = Commands::Chat(ChatCommands::Update {
        iden: "abc123".to_string(),
        muted: Some(true),
        data_binary: None,
    });
    let pipeline = Pipeline::new(command);
    assert_eq!(pipeline.stage, Stage::Idle);
    let (pipeline, action) = pipeline.advance(Event::Started);
    assert_eq!(action, Action::LoadToken);
    assert_eq!(pipeline.stage, Stage::LoadingToken);
    let (pipeline, action) = pipeline.advance(loaded("o.tok"));
    assert_eq!(pipeline.stage, Stage::Requesting);
    assert_eq!(pipeline.access_token, s("o.tok"));
    let outgoing = sent(&action);
    assert_eq!(outgoing.header, header("o.tok"));
    assert_eq!(
        outgoing.request,
        RequestDescriptor {
            method: Method::Post,
            url: "https://api.pushbullet.com/v2/chats/abc123".to_string(),
            query: vec![],
            body: Body::Json(object(vec![("muted", JsonValue::Bool(true))])),
        }
    );
    let (pipeline, action) = pipeline.advance(reply(200, "{\"iden\":\"abc123\"}"));
    assert_eq!(action, Action::Print { text: "{\"iden\":\"abc123\"}".to_string() });
    assert_eq!(pipeline.stage, Stage::Done);
}

#[test]
fn an_error_status_is_printed_like_any_response() {
    let pipeline = Pipeline::new(Commands::User(UserCommands::Get));
    let (pipeline, _) = pipeline.advance(Event::Started);
    let (pipeline, _) = pipeline.advance(loaded("t"));
    let (pipeline, action) = pipeline.advance(reply(401, "{\"error\":{\"code\":\"invalid_access_token\"}}"));
    assert_eq!(
        action,
        Action::Print { text: "{\"error\":{\"code\":\"invalid_access_token\"}}".to_string() }
    );
    assert_eq!(pipeline.stage, Stage::Done);
}

#[test]
fn a_failed_exchange_fails_the_invocation() {
    let pipeline = Pipeline::new(Commands::User(UserCommands::Get));
    let (pipeline, _) = pipeline.advance(Event::Started);
    let (pipeline, _) = pipeline.advance(loaded("t"));
    let (pipeline, action) = pipeline.advance(Event::Replied(Err(TransportError::Connection(
        "connection refused".to_string(),
    ))));
    assert_eq!(
        action,
        Action::Fail { error: Failure::TransportError("connection refused".to_string()) }
    );
    assert_eq!(pipeline.stage, Stage::Done);
}

#[test]
fn an_unreadable_response_fails_the_invocation() {
    let pipeline = Pipeline::new(Commands::User(UserCommands::Get));
    let (pipeline, _) = pipeline.advance(Event::Started);
    let (pipeline, _) = pipeline.advance(loaded("t"));
    let (_, action) = pipeline.advance(Event::Replied(Err(TransportError::ResponseRead(
        "invalid utf-8".to_string(),
    ))));
    assert_eq!(
        action,
        Action::Fail { error: Failure::ResponseReadError("invalid utf-8".to_string()) }
    );
}

#[test]
fn a_token_that_cannot_be_read_fails_the_invocation() {
    let pipeline = Pipeline::new(Commands::User(UserCommands::Get));
    let (pipeline, _) = pipeline.advance(Event::Started);
    let (pipeline, action) = pipeline.advance(Event::TokenLoaded(Err("no such file".to_string())));
    assert_eq!(
        action,
        Action::Fail { error: Failure::CredentialIoError("no such file".to_string()) }
    );
    assert_eq!(pipeline.stage, Stage::Done);
}

#[test]
fn a_malformed_override_fails_before_anything_is_sent() {
    let command = Commands::Chat(ChatCommands::Create { email: None, data_binary: s("{oops") });
    let pipeline = Pipeline::new(command);
    let (pipeline, _) = pipeline.advance(Event::Started);
    let (pipeline, action) = pipeline.advance(loaded("t"));
    assert!(matches!(action, Action::Fail { error: Failure::MalformedOverride(_) }));
    assert_eq!(pipeline.stage, Stage::Done);
}

#[test]
fn storing_the_token_sends_nothing() {
    let pipeline = Pipeline::new(Commands::AccessToken { access_token: "o.first".to_string() });
    let (pipeline, action) = pipeline.advance(Event::Started);
    assert_eq!(action, Action::StoreToken { access_token: "o.first".to_string() });
    assert_eq!(pipeline.stage, Stage::StoringToken);
    let (pipeline, action) = pipeline.advance(Event::TokenStored(Ok(())));
    assert_eq!(action, Action::Finish);
    assert_eq!(pipeline.stage, Stage::Done);
}

#[test]
fn a_token_that_cannot_be_written_fails_the_invocation() {
    let pipeline = Pipeline::new(Commands::AccessToken { access_token: "o.first".to_string() });
    let (pipeline, _) = pipeline.advance(Event::Started);
    let (_, action) = pipeline.advance(Event::TokenStored(Err("read-only".to_string())));
    assert_eq!(action, Action::Fail { error: Failure::CredentialIoError("read-only".to_string()) });
}

#[test]
fn a_file_push_uploads_before_it_is_created() {
    let pipeline = Pipeline::new(file_push(s("/home/me/cat.png"), s("image/x-caller")));
    let (pipeline, action) = pipeline.advance(Event::Started);
    assert_eq!(action, Action::LoadToken);
    let (pipeline, action) = pipeline.advance(loaded("o.tok"));
    assert_eq!(pipeline.stage, Stage::Negotiating);
    let first = sent(&action);
    assert_eq!(first.header, header("o.tok"));
    assert_eq!(first.request.method, Method::Post);
    assert_eq!(first.request.url, "https://api.pushbullet.com/v2/upload-request");
    assert_eq!(
        first.request.body,
        Body::Json(object(vec![("file_name", text("cat.png")), ("file_type", text("image/x-caller"))]))
    );
    let (pipeline, action) = pipeline.advance(reply(200, TICKET));
    assert_eq!(pipeline.stage, Stage::Transferring);
    assert_eq!(
        pipeline.ticket,
        Some(UploadRequestResponse {
            file_name: "cat.png".to_string(),
            file_type: "image/png".to_string(),
            file_url: "https://dl.example/cat.png".to_string(),
            upload_url: "https://upload.example/slot".to_string(),
        })
    );
    let second = sent(&action);
    assert_eq!(second.header, header("o.tok"));
    assert_eq!(
        second.request,
        RequestDescriptor {
            method: Method::Post,
            url: "https://upload.example/slot".to_string(),
            query: vec![],
            body: Body::File { field: "file".to_string(), path: "/home/me/cat.png".to_string() },
        }
    );
    let (pipeline, action) = pipeline.advance(reply(204, ""));
    assert_eq!(pipeline.stage, Stage::Requesting);
    let third = sent(&action);
    assert_eq!(third.header, header("o.tok"));
    assert_eq!(
        third.request,
        RequestDescriptor {
            method: Method::Post,
            url: "https://api.pushbullet.com/v2/pushes".to_string(),
            query: vec![],
            body: Body::Json(object(vec![
                ("type", text("file")),
                ("body", text("look")),
                ("file_name", text("cat.png")),
                ("file_type", text("image/png")),
                ("file_url", text("https://dl.example/cat.png")),
            ])),
        }
    );
    let (pipeline, action) = pipeline.advance(reply(200, "{\"active\":true}"));
    assert_eq!(action, Action::Print { text: "{\"active\":true}".to_string() });
    assert_eq!(pipeline.stage, Stage::Done);
}

#[test]
fn a_file_push_without_a_type_has_the_file_inspected() {
    let pipeline = Pipeline::new(file_push(s("notes/readme.txt"), None));
    let (pipeline, _) = pipeline.advance(Event::Started);
    let (pipeline, action) = pipeline.advance(loaded("o.tok"));
    assert_eq!(action, Action::InspectFile { path: "notes/readme.txt".to_string() });
    assert_eq!(pipeline.stage, Stage::InspectingFile);
    let (pipeline, action) = pipeline.advance(Event::FileTypeFound(Ok("text/plain".to_string())));
    assert_eq!(pipeline.stage, Stage::Negotiating);
    let outgoing = sent(&action);
    assert_eq!(outgoing.request.url, "https://api.pushbullet.com/v2/upload-request");
    assert_eq!(
        outgoing.request.body,
        Body::Json(object(vec![("file_name", text("readme.txt")), ("file_type", text("text/plain"))]))
    );
}

#[test]
fn a_file_whose_type_cannot_be_found_is_not_uploaded() {
    let pipeline = Pipeline::new(file_push(s("notes/readme.txt"), None));
    let (pipeline, _) = pipeline.advance(Event::Started);
    let (pipeline, _) = pipeline.advance(loaded("o.tok"));
    let (pipeline, action) = pipeline.advance(Event::FileTypeFound(Err("unreadable".to_string())));
    assert_eq!(
        action,
        Action::Fail { error: Failure::UploadNegotiationFailed("unreadable".to_string()) }
    );
    assert_eq!(pipeline.stage, Stage::Done);
}

#[test]
fn a_file_push_without_a_file_name_fails_before_anything_is_sent() {
    let pipeline = Pipeline::new(file_push(None, s("image/png")));
    let (pipeline, action) = pipeline.advance(Event::Started);
    assert_eq!(action, Action::LoadToken);
    let (pipeline, action) = pipeline.advance(loaded("o.tok"));
    assert_eq!(
        action,
        Action::Fail { error: Failure::MissingRequiredField("file_name".to_string()) }
    );
    assert_eq!(pipeline.stage, Stage::Done);
}

#[test]
fn a_refused_upload_request_ends_the_push() {
    let refusals = vec![
        reply(401, TICKET),
        reply(500, "oops"),
        reply(200, "not json"),
        reply(200, "{\"file_name\":\"cat.png\"}"),
        reply(200, "[]"),
        Event::Replied(Err(TransportError::Connection("timed out".to_string()))),
        Event::Replied(Err(TransportError::ResponseRead("bad bytes".to_string()))),
    ];
    for refusal in refusals {
        let pipeline = Pipeline::new(file_push(s("cat.png"), s("image/png")));
        let (pipeline, _) = pipeline.advance(Event::Started);
        let (pipeline, _) = pipeline.advance(loaded("o.tok"));
        let (pipeline, action) = pipeline.advance(refusal);
        assert!(matches!(action, Action::Fail { error: Failure::UploadNegotiationFailed(_) }));
        assert_eq!(pipeline.stage, Stage::Done);
        assert_eq!(pipeline.ticket, None);
    }
}

#[test]
fn a_failed_transfer_ends_the_push() {
    let pipeline = Pipeline::new(file_push(s("cat.png"), s("image/png")));
    let (pipeline, _) = pipeline.advance(Event::Started);
    let (pipeline, _) = pipeline.advance(loaded("o.tok"));
    let (pipeline, _) = pipeline.advance(reply(200, TICKET));
    let (pipeline, action) = pipeline.advance(Event::Replied(Err(TransportError::Connection(
        "no such file".to_string(),
    ))));
    assert_eq!(
        action,
        Action::Fail { error: Failure::UploadTransferFailed("no such file".to_string()) }
    );
    assert_eq!(pipeline.stage, Stage::Done);
}

#[test]
fn an_event_out_of_order_ends_the_invocation() {
    let pipeline = Pipeline::new(Commands::User(UserCommands::Get));
    let (pipeline, action) = pipeline.advance(reply(200, "{}"));
    assert!(matches!(action, Action::Fail { error: Failure::TransportError(_) }));
    assert_eq!(pipeline.stage, Stage::Done);
    let (pipeline, action) = pipeline.advance(Event::Started);
    assert!(matches!(action, Action::Fail { error: Failure::TransportError(_) }));
    assert_eq!(pipeline.stage, Stage::Done);
    let pipeline = Pipeline::new(Commands::User(UserCommands::Get));
    let (pipeline, _) = pipeline.advance(Event::Started);
    let (pipeline, action) = pipeline.advance(Event::TokenStored(Ok(())));
    assert!(matches!(action, Action::Fail { error: Failure::TransportError(_) }));
    assert_eq!(pipeline.stage, Stage::Done);
}

#[test]
fn read_ticket_wants_success_and_the_four_fields() {
    let good = Reply { status: 200, body: TICKET.to_string() };
    assert_eq!(read_ticket(&good).map(|t| t.upload_url), s("https://upload.example/slot"));
    let edge = Reply { status: 299, body: TICKET.to_string() };
    assert!(read_ticket(&edge).is_some());
    assert_eq!(read_ticket(&Reply { status: 199, body: TICKET.to_string() }), None);
    assert_eq!(read_ticket(&Reply { status: 300, body: TICKET.to_string() }), None);
    assert_eq!(read_ticket(&Reply { status: 200, body: "{}".to_string() }), None);
}

#[test]
fn failures_come_from_build_errors_unchanged() {
    assert_eq!(
        Failure::of_build(BuildError::MalformedOverride("at line 1".to_string())),
        Failure::MalformedOverride("at line 1".to_string())
    );
    assert_eq!(
        Failure::of_build(BuildError::MissingRequiredField("file_name".to_string())),
        Failure::MissingRequiredField("file_name".to_string())
    );
}

/// Runs one invocation against a token kept in memory and canned replies; returns the
/// requests that were sent and the action that ended the invocation.
fn drive(command: Commands, stored: &mut Option<String>, replies: Vec<Event>) -> (Vec<Outgoing>, Action) {
    let mut replies = replies.into_iter();
    let mut sent_requests = Vec::new();
    let mut pipeline = Pipeline::new(command);
    let mut event = Event::Started;
    loop {
        let (next, action) = pipeline.advance(event);
        pipeline = next;
        event = match action {
            Action::StoreToken { access_token } => {
                *stored = Some(access_token);
                Event::TokenStored(Ok(()))
            }
            Action::LoadToken => match stored.clone() {
                Some(token) => Event::TokenLoaded(Ok(token)),
                None => Event::TokenLoaded(Err("no token stored".to_string())),
            },
            Action::InspectFile { .. } => Event::FileTypeFound(Ok("text/plain".to_string())),
            Action::Send { outgoing } => {
                sent_requests.push(outgoing);
                replies.next().unwrap()
            }
            last => return (sent_requests, last),
        };
    }
}

#[test]
fn setting_the_token_twice_keeps_the_second() {
    let mut stored = None;
    let (sent_first, end_first) =
        drive(Commands::AccessToken { access_token: "o.first".to_string() }, &mut stored, vec![]);
    assert!(sent_first.is_empty());
    assert_eq!(end_first, Action::Finish);
    assert_eq!(stored, s("o.first"));
    let (sent_second, end_second) =
        drive(Commands::AccessToken { access_token: "o.second".to_string() }, &mut stored, vec![]);
    assert!(sent_second.is_empty());
    assert_eq!(end_second, Action::Finish);
    assert_eq!(stored, s("o.second"));
    let (sent_requests, end) = drive(Commands::User(UserCommands::Get), &mut stored, vec![reply(200, "{}")]);
    assert_eq!(sent_requests.len(), 1);
    assert_eq!(sent_requests[0].header, header("o.second"));
    assert_eq!(end, Action::Print { text: "{}".to_string() });
}

#[test]
fn a_command_without_a_stored_token_sends_nothing() {
    let mut stored = None;
    let (sent_requests, end) = drive(Commands::User(UserCommands::Get), &mut stored, vec![]);
    assert!(sent_requests.is_empty());
    assert_eq!(end, Action::Fail { error: Failure::CredentialIoError("no token stored".to_string()) });
}

#[test]
fn a_file_push_sends_three_requests_in_order() {
    let mut stored = s("o.tok");
    let (sent_requests, end) = drive(
        file_push(s("docs/report.txt"), None),
        &mut stored,
        vec![reply(200, TICKET), reply(200, ""), reply(200, "{\"ok\":true}")],
    );
    assert_eq!(sent_requests.len(), 3);
    assert_eq!(sent_requests[0].request.url, "https://api.pushbullet.com/v2/upload-request");
    assert_eq!(sent_requests[1].request.url, "https://upload.example/slot");
    assert_eq!(sent_requests[2].request.url, "https://api.pushbullet.com/v2/pushes");
    for outgoing in &sent_requests {
        assert_eq!(outgoing.header, header("o.tok"));
    }
    assert_eq!(end, Action::Print { text: "{\"ok\":true}".to_string() });
}

#[test]
fn a_file_push_without_a_file_name_sends_no_request_at_all() {
    let mut stored = s("o.tok");
    let (sent_requests, end) = drive(file_push(None, None), &mut stored, vec![]);
    assert!(sent_requests.is_empty());
    assert_eq!(end, Action::Fail { error: Failure::MissingRequiredField("file_name".to_string()) });
}
