use vstd::prelude::*;
use crate::command::channel::ChannelCommands;
use crate::command::chat::ChatCommands;
use crate::command::command::{
    named_file, ticket_of, upload_model, upload_request_address, Commands, PaginationArgs,
    TicketModel,
};
use crate::command::device::{device_members, DeviceCommands};
use crate::command::push::{create_members, pushes_address, PushCommands};
use crate::pipeline::{
    authorized, granted, ActionModel, Event, FailureKind, Pipeline, Reply, Stage,
};
use crate::command::subscription::SubscriptionCommands;
use crate::command::text::TextCommands;
use crate::decode::parsed_document;
use crate::json::{
    first_with_key, flag_member, lemma_first_with_key_none, number_of, text_member, text_of,
    JsonModel,
};
use crate::request::{
    flag_pair, item_address, number_pair, param, text_pair, BodyModel, BuildFault,
    DescriptorModel, Method,
};
use crate::schema::{meets_schema, Kind};
use crate::text::{decimal, truth_word};

verus! {

impl Commands {
    /// The raw JSON that a create or update command was given in place of its fields.
    pub open spec fn raw_override(&self) -> Option<Seq<char>> {
        match self {
            Commands::Chat(ChatCommands::Create { data_binary, .. }) => text_of(*data_binary),
            Commands::Chat(ChatCommands::Update { data_binary, .. }) => text_of(*data_binary),
            Commands::Device(DeviceCommands::Create { data_binary, .. }) => text_of(*data_binary),
            Commands::Device(DeviceCommands::Update { data_binary, .. }) => text_of(*data_binary),
            Commands::Push(PushCommands::Create { data_binary, .. }) => text_of(*data_binary),
            Commands::Push(PushCommands::Update { data_binary, .. }) => text_of(*data_binary),
            Commands::Channel(ChannelCommands::Create { data_binary, .. }) => text_of(
                *data_binary,
            ),
            Commands::Subscription(SubscriptionCommands::Create { data_binary, .. }) => text_of(
                *data_binary,
            ),
            Commands::Subscription(SubscriptionCommands::Update { data_binary, .. }) => text_of(
                *data_binary,
            ),
            Commands::Text(TextCommands::Create { data_binary, .. }) => text_of(*data_binary),
            Commands::Text(TextCommands::Update { data_binary, .. }) => text_of(*data_binary),
            _ => None,
        }
    }

    /// The fields that the body of a create or update command may hold.
    pub open spec fn body_schema(&self) -> Seq<(Seq<char>, Kind)> {
        match self {
            Commands::Chat(ChatCommands::Create { .. }) => crate::command::chat::create_schema_model(),
            Commands::Chat(ChatCommands::Update { .. }) => crate::command::chat::update_schema_model(),
            Commands::Device(_) => crate::command::device::device_schema_model(),
            Commands::Push(PushCommands::Create { .. }) => crate::command::push::create_schema_model(),
            Commands::Push(PushCommands::Update { .. }) => crate::command::push::update_schema_model(),
            Commands::Channel(_) => crate::command::channel::create_schema_model(),
            Commands::Subscription(SubscriptionCommands::Create { .. }) => crate::command::subscription::create_schema_model(),
            Commands::Subscription(SubscriptionCommands::Update { .. }) => crate::command::subscription::update_schema_model(),
            Commands::Text(TextCommands::Create { .. }) => crate::command::text::create_schema_model(),
            Commands::Text(TextCommands::Update { .. }) => crate::command::text::update_schema_model(),
            _ => Seq::empty(),
        }
    }

    /// The identifier of the object that an update or delete command is about.
    pub open spec fn iden(&self) -> Option<Seq<char>> {
        match self {
            Commands::Chat(ChatCommands::Update { iden, .. }) => Some(iden@),
            Commands::Chat(ChatCommands::Delete { iden }) => Some(iden@),
            Commands::Device(DeviceCommands::Update { iden, .. }) => Some(iden@),
            Commands::Device(DeviceCommands::Delete { iden }) => Some(iden@),
            Commands::Push(PushCommands::Update { iden, .. }) => Some(iden@),
            Commands::Push(PushCommands::Delete { iden }) => Some(iden@),
            Commands::Subscription(SubscriptionCommands::Update { iden, .. }) => Some(iden@),
            Commands::Subscription(SubscriptionCommands::Delete { iden }) => Some(iden@),
            Commands::Text(TextCommands::Update { iden, .. }) => Some(iden@),
            Commands::Text(TextCommands::Delete { iden }) => Some(iden@),
            _ => None,
        }
    }

    /// Whether the command deletes one object.
    pub open spec fn is_delete(&self) -> bool {
        match self {
            Commands::Chat(ChatCommands::Delete { .. }) => true,
            Commands::Device(DeviceCommands::Delete { .. }) => true,
            Commands::Push(PushCommands::Delete { .. }) => true,
            Commands::Subscription(SubscriptionCommands::Delete { .. }) => true,
            Commands::Text(TextCommands::Delete { .. }) => true,
            _ => false,
        }
    }

    /// The address of the collection that the command's resource is kept in.
    pub open spec fn collection(&self) -> Seq<char> {
        match self {
            Commands::Chat(_) => crate::command::chat::chats_address(),
            Commands::Device(_) => crate::command::device::devices_address(),
            Commands::Push(_) => crate::command::push::pushes_address(),
            Commands::Channel(_) => crate::command::channel::channels_address(),
            Commands::Subscription(_) => crate::command::subscription::subscriptions_address(),
            Commands::Text(_) => crate::command::text::texts_address(),
            _ => Seq::empty(),
        }
    }

    /// The query of a list command.
    pub open spec fn listing(&self) -> Option<Seq<(Seq<char>, Seq<char>)>> {
        match self {
            Commands::Chat(ChatCommands::List(args)) => Some(args.query_model()),
            Commands::Device(DeviceCommands::List(args)) => Some(args.query_model()),
            Commands::Push(PushCommands::List(args)) => Some(args.query_model()),
            Commands::Subscription(SubscriptionCommands::List(args)) => Some(args.query_model()),
            _ => None,
        }
    }
}

/// Raw JSON wins. Where a create or update command is given raw JSON, its request is
/// built exactly when that text can be read and the document meets the schema of the
/// resource, and the body is then the document read from it, whole: whatever the fields
/// of the command hold makes no difference. Otherwise the command fails with
/// `MalformedOverride`.
pub proof fn law_override_wins(command: Commands, ticket: Option<TicketModel>)
    requires
        command.raw_override() is Some,
    ensures
        match command.expected(ticket) {
            Some(Ok(request)) => {
                &&& parsed_document(command.raw_override()->0) is Some
                &&& meets_schema(
                    parsed_document(command.raw_override()->0)->0,
                    command.body_schema(),
                )
                &&& request.body == BodyModel::Json(parsed_document(command.raw_override()->0)->0)
                &&& request.method == Method::Post
                &&& request.query.len() == 0
            },
            Some(Err(fault)) => {
                &&& fault == BuildFault::MalformedOverride
                &&& !(parsed_document(command.raw_override()->0) matches Some(document)
                    && meets_schema(document, command.body_schema()))
            },
            None => false,
        },
{
}

/// Two commands on the same resource that are given the same raw JSON are sent with
/// the same body, however their fields differ.
pub proof fn law_override_ignores_fields(a: Commands, b: Commands, ticket: Option<TicketModel>)
    requires
        a.raw_override() is Some,
        a.raw_override() == b.raw_override(),
        a.body_schema() == b.body_schema(),
    ensures
        match (a.expected(ticket), b.expected(ticket)) {
            (Some(Ok(first)), Some(Ok(second))) => first.body == second.body,
            (Some(Err(first)), Some(Err(second))) => first == second,
            _ => false,
        },
{
    law_override_wins(a, ticket);
    law_override_wins(b, ticket);
}

/// A list command is a `GET` of the collection, without a body, whose query is that of
/// its pagination arguments.
pub proof fn law_list_requests(command: Commands, ticket: Option<TicketModel>)
    requires
        command.listing() is Some,
    ensures
        command.expected(ticket) matches Some(Ok(request)) && {
            &&& request.method == Method::Get
            &&& request.url == command.collection()
            &&& request.query == command.listing()->0
            &&& request.body == BodyModel::Absent
        },
{
}

/// In the query of a listing a field that is unset has no parameter, and a field that
/// is set has one, which holds the cursor as it was given and the limit in decimal.
pub proof fn law_pagination_query(args: PaginationArgs)
    ensures
        param(args.query_model(), "cursor"@) == text_of(args.cursor),
        param(args.query_model(), "limit"@) == match args.limit {
            Some(n) => Some(decimal(n as int)),
            None => None,
        },
        args.query_model().len() == (if args.cursor is Some { 1nat } else { 0nat }) + (if args.limit is Some { 1nat } else { 0nat }),
{
    reveal_strlit("cursor");
    reveal_strlit("limit");
    let q = args.query_model();
    let first = text_pair("cursor"@, text_of(args.cursor));
    let second = number_pair("limit"@, number_of(args.limit));
    assert("cursor"@.len() != "limit"@.len());
    if args.cursor is Some {
        assert(q[0] == first[0]);
        assert(q.drop_first() =~= second);
        if args.limit is Some {
            assert(second.drop_first() =~= Seq::empty());
            assert(param(second, "limit"@) == Some(second[0].1));
        }
        assert(param(q, "limit"@) == param(second, "limit"@));
    } else {
        assert(q =~= second);
        if args.limit is Some {
            assert(second.drop_first() =~= Seq::empty());
            assert(param(second.drop_first(), "cursor"@) is None);
            assert(param(second.drop_first(), "limit"@) is None);
        }
    }
}

/// The same for a listing of pushes, with its two filters: `modified_after` as it was
/// given, `active` as `true` or `false`.
pub proof fn law_push_pagination_query(args: crate::command::push::PaginationArgs)
    ensures
        param(args.query_model(), "modified_after"@) == text_of(args.modified_after),
        param(args.query_model(), "active"@) == match args.active {
            Some(b) => Some(truth_word(b)),
            None => None,
        },
        param(args.query_model(), "cursor"@) == text_of(args.cursor),
        param(args.query_model(), "limit"@) == match args.limit {
            Some(n) => Some(decimal(n as int)),
            None => None,
        },
{
    reveal_strlit("modified_after");
    reveal_strlit("active");
    reveal_strlit("cursor");
    reveal_strlit("limit");
    assert("cursor"@[0] != "active"@[0]);
    assert("modified_after"@.len() == 14);
    assert("active"@.len() == 6);
    assert("cursor"@.len() == 6);
    assert("limit"@.len() == 5);
    let a = text_pair("modified_after"@, text_of(args.modified_after));
    let b = flag_pair("active"@, args.active);
    let c = text_pair("cursor"@, text_of(args.cursor));
    let d = number_pair("limit"@, number_of(args.limit));
    lemma_param_of_one(a, "modified_after"@);
    lemma_param_of_one(a, "active"@);
    lemma_param_of_one(a, "cursor"@);
    lemma_param_of_one(a, "limit"@);
    lemma_param_of_one(b, "modified_after"@);
    lemma_param_of_one(b, "active"@);
    lemma_param_of_one(b, "cursor"@);
    lemma_param_of_one(b, "limit"@);
    lemma_param_of_one(c, "modified_after"@);
    lemma_param_of_one(c, "active"@);
    lemma_param_of_one(c, "cursor"@);
    lemma_param_of_one(c, "limit"@);
    lemma_param_of_one(d, "modified_after"@);
    lemma_param_of_one(d, "active"@);
    lemma_param_of_one(d, "cursor"@);
    lemma_param_of_one(d, "limit"@);
    lemma_param_of_joined(a, b, "modified_after"@);
    lemma_param_of_joined(a, b, "active"@);
    lemma_param_of_joined(a, b, "cursor"@);
    lemma_param_of_joined(a, b, "limit"@);
    lemma_param_of_joined(a + b, c, "modified_after"@);
    lemma_param_of_joined(a + b, c, "active"@);
    lemma_param_of_joined(a + b, c, "cursor"@);
    lemma_param_of_joined(a + b, c, "limit"@);
    lemma_param_of_joined(a + b + c, d, "modified_after"@);
    lemma_param_of_joined(a + b + c, d, "active"@);
    lemma_param_of_joined(a + b + c, d, "cursor"@);
    lemma_param_of_joined(a + b + c, d, "limit"@);
}

/// In a query of at most one pair, a key has the value of that pair or none.
pub proof fn lemma_param_of_one(query: Seq<(Seq<char>, Seq<char>)>, key: Seq<char>)
    requires
        query.len() <= 1,
    ensures
        param(query, key) == if query.len() == 1 && query[0].0 == key {
            Some(query[0].1)
        } else {
            None
        },
{
    if query.len() == 1 {
        assert(query.drop_first().len() == 0);
        assert(param(query.drop_first(), key) is None);
    }
}

/// In two queries joined, a key has the value that the first gives it, or else the
/// one that the second gives it.
pub proof fn lemma_param_of_joined(
    first: Seq<(Seq<char>, Seq<char>)>,
    second: Seq<(Seq<char>, Seq<char>)>,
    key: Seq<char>,
)
    ensures
        param(first + second, key) == if param(first, key) is Some {
            param(first, key)
        } else {
            param(second, key)
        },
    decreases first.len(),
{
    if first.len() == 0 {
        assert(first + second =~= second);
    } else {
        assert((first + second).drop_first() =~= first.drop_first() + second);
        lemma_param_of_joined(first.drop_first(), second, key);
    }
}

/// Whether no member has the key.
pub open spec fn lacks(members: Seq<(Seq<char>, JsonModel)>, key: Seq<char>) -> bool {
    forall|i: int| 0 <= i < members.len() ==> (#[trigger] members[i]).0 != key
}

/// The address of an item ends in a slash and the identifier.
pub proof fn lemma_item_address_ends(collection: Seq<char>, iden: Seq<char>)
    ensures
        item_address(collection, iden).len() == collection.len() + 1 + iden.len(),
        item_address(collection, iden).subrange(
            collection.len() as int,
            item_address(collection, iden).len() as int,
        ) == seq!['/'] + iden,
        item_address(collection, iden).subrange(0, collection.len() as int) == collection,
{
    let address = item_address(collection, iden);
    assert(address.subrange(collection.len() as int, address.len() as int) =~= seq!['/'] + iden);
    assert(address.subrange(0, collection.len() as int) =~= collection);
}

/// The body that describes a device has no member `iden`.
pub proof fn lemma_device_body_lacks_iden(
    nickname: Option<Seq<char>>,
    model: Option<Seq<char>>,
    manufacturer: Option<Seq<char>>,
    push_token: Option<Seq<char>>,
    app_version: Option<int>,
    icon: Option<Seq<char>>,
    has_sms: Option<bool>,
)
    ensures
        lacks(
            device_members(nickname, model, manufacturer, push_token, app_version, icon, has_sms),
            "iden"@,
        ),
        first_with_key(
            device_members(nickname, model, manufacturer, push_token, app_version, icon, has_sms),
            "iden"@,
        ) is None,
{
    reveal_strlit("iden");
    reveal_strlit("nickname");
    reveal_strlit("model");
    reveal_strlit("manufacturer");
    reveal_strlit("push_token");
    reveal_strlit("app_version");
    reveal_strlit("icon");
    reveal_strlit("has_sms");
    assert("icon"@[1] != "iden"@[1]);
    let members = device_members(
        nickname,
        model,
        manufacturer,
        push_token,
        app_version,
        icon,
        has_sms,
    );
    assert(lacks(members, "iden"@));
    lemma_first_with_key_none(members, "iden"@);
}

/// The identifier goes into the path, never into the body. An update or a delete is
/// sent to the address of the collection followed by a slash and the identifier. A
/// delete has no body; an update built from the fields is a `POST` whose body has no
/// member `iden`.
pub proof fn law_identifier_in_path(command: Commands, ticket: Option<TicketModel>)
    requires
        command.iden() is Some,
    ensures
        match command.expected(ticket) {
            Some(Ok(request)) => {
                &&& request.url == item_address(command.collection(), command.iden()->0)
                &&& request.url.subrange(
                    command.collection().len() as int,
                    request.url.len() as int,
                ) == seq!['/'] + command.iden()->0
                &&& request.query.len() == 0
                &&& command.is_delete() ==> request.method == Method::Delete && request.body
                    == BodyModel::Absent
                &&& !command.is_delete() ==> request.method == Method::Post
                &&& !command.is_delete() && command.raw_override() is None ==> (request.body
                    matches BodyModel::Json(JsonModel::Object(members)) && lacks(
                    members,
                    "iden"@,
                ) && first_with_key(members, "iden"@) is None)
            },
            Some(Err(fault)) => command.raw_override() is Some && fault
                == BuildFault::MalformedOverride,
            None => false,
        },
{
    lemma_item_address_ends(command.collection(), command.iden()->0);
    match command {
        Commands::Device(DeviceCommands::Update {
            nickname,
            model,
            manufacturer,
            push_token,
            app_version,
            icon,
            has_sms,
            data_binary,
            ..
        }) => {
            if data_binary is None {
                lemma_device_body_lacks_iden(
                    text_of(nickname),
                    text_of(model),
                    text_of(manufacturer),
                    text_of(push_token),
                    number_of(app_version),
                    text_of(icon),
                    has_sms,
                );
            }
        },
        Commands::Chat(ChatCommands::Update { muted, .. }) => {
            reveal_strlit("iden");
            reveal_strlit("muted");
            assert("muted"@.len() != "iden"@.len());
            assert(lacks(flag_member("muted"@, muted), "iden"@));
            lemma_first_with_key_none(flag_member("muted"@, muted), "iden"@);
        },
        Commands::Subscription(SubscriptionCommands::Update { muted, .. }) => {
            reveal_strlit("iden");
            reveal_strlit("muted");
            assert("muted"@.len() != "iden"@.len());
            assert(lacks(flag_member("muted"@, muted), "iden"@));
            lemma_first_with_key_none(flag_member("muted"@, muted), "iden"@);
        },
        Commands::Push(PushCommands::Update { dismissed, .. }) => {
            reveal_strlit("iden");
            reveal_strlit("dismissed");
            assert("dismissed"@.len() != "iden"@.len());
            assert(lacks(flag_member("dismissed"@, dismissed), "iden"@));
            lemma_first_with_key_none(flag_member("dismissed"@, dismissed), "iden"@);
        },
        Commands::Text(TextCommands::Update { data_binary, .. }) => {
            if data_binary is None {
                reveal_strlit("iden");
                reveal_strlit("data");
                reveal_strlit("skip_delete_file");
                assert("data"@[0] != "iden"@[0]);
                let members = command.expected(ticket)->0->Ok_0.body->Json_0->Object_0;
                assert(lacks(members, "iden"@));
                lemma_first_with_key_none(members, "iden"@);
            }
        },
        _ => {},
    }
}

/// How far a stage is along the way of an invocation.
pub open spec fn rank(stage: Stage) -> nat {
    match stage {
        Stage::Idle => 0,
        Stage::StoringToken => 1,
        Stage::LoadingToken => 1,
        Stage::InspectingFile => 2,
        Stage::Negotiating => 3,
        Stage::Transferring => 4,
        Stage::Requesting => 5,
        Stage::Done => 6,
    }
}

/// Every step moves forward, and nothing is tried twice: a step leads to a later stage
/// until the invocation has ended, and an ended invocation stays ended. The driver is
/// asked to send a request exactly when the step leads to one of the three stages that
/// wait for a reply, so that an invocation sends three requests at most; it is told to
/// print, finish or fail exactly when the step ends the invocation. The access token
/// is asked for or written only by the first step, and every request that is sent
/// carries it in the header `Access-Token`.
pub proof fn law_steps_move_forward(pipeline: Pipeline, event: Event)
    ensures
        pipeline.stage != Stage::Done ==> rank(pipeline.after(event).stage) > rank(pipeline.stage),
        pipeline.stage == Stage::Done ==> pipeline.after(event).stage == Stage::Done,
        pipeline.after(event).action is Send <==> (pipeline.after(event).stage
            == Stage::Negotiating || pipeline.after(event).stage == Stage::Transferring
            || pipeline.after(event).stage == Stage::Requesting),
        pipeline.after(event).stage == Stage::Done <==> (pipeline.after(event).action is Print
            || pipeline.after(event).action is Finish || pipeline.after(event).action is Fail),
        pipeline.after(event).action is LoadToken || pipeline.after(event).action is StoreToken
            ==> pipeline.stage == Stage::Idle,
        pipeline.after(event).action is Send ==> pipeline.after(event).action->Send_0.header.0
            == "Access-Token"@ && pipeline.after(event).access_token == Some(
            pipeline.after(event).action->Send_0.header.1,
        ),
{
}

/// In the body of a push whose three file fields are set, each of them is found under
/// its name.
pub proof fn lemma_push_body_file_fields(
    t: Option<Seq<char>>,
    title: Option<Seq<char>>,
    body: Option<Seq<char>>,
    url: Option<Seq<char>>,
    file_name: Seq<char>,
    file_type: Seq<char>,
    file_url: Seq<char>,
    source_device_iden: Option<Seq<char>>,
    device_iden: Option<Seq<char>>,
    client_iden: Option<Seq<char>>,
    channel_tag: Option<Seq<char>>,
    email: Option<Seq<char>>,
    guid: Option<Seq<char>>,
)
    ensures
        ({
            let document = JsonModel::Object(
                create_members(
                    t,
                    title,
                    body,
                    url,
                    Some(file_name),
                    Some(file_type),
                    Some(file_url),
                    source_device_iden,
                    device_iden,
                    client_iden,
                    channel_tag,
                    email,
                    guid,
                ),
            );
            &&& document.text_at("file_name"@) == Some(file_name)
            &&& document.text_at("file_type"@) == Some(file_type)
            &&& document.text_at("file_url"@) == Some(file_url)
        }),
{
    reveal_strlit("type");
    reveal_strlit("title");
    reveal_strlit("body");
    reveal_strlit("url");
    reveal_strlit("file_name");
    reveal_strlit("file_type");
    reveal_strlit("file_url");
    assert("file_name"@[5] != "file_type"@[5]);
    assert("file_name"@.len() == 9 && "file_type"@.len() == 9 && "file_url"@.len() == 8);
    assert("type"@.len() == 4 && "title"@.len() == 5 && "body"@.len() == 4 && "url"@.len() == 3);
    let part_0 = text_member("type"@, t);
    let part_1 = text_member("title"@, title);
    let part_2 = text_member("body"@, body);
    let part_3 = text_member("url"@, url);
    let part_4 = text_member("file_name"@, Some(file_name));
    let part_5 = text_member("file_type"@, Some(file_type));
    let part_6 = text_member("file_url"@, Some(file_url));
    let part_7 = text_member("source_device_iden"@, source_device_iden);
    let part_8 = text_member("device_iden"@, device_iden);
    let part_9 = text_member("client_iden"@, client_iden);
    let part_10 = text_member("channel_tag"@, channel_tag);
    let part_11 = text_member("email"@, email);
    let part_12 = text_member("guid"@, guid);
    let joined_0 = part_0;
    let joined_1 = joined_0 + part_1;
    let joined_2 = joined_1 + part_2;
    let joined_3 = joined_2 + part_3;
    let joined_4 = joined_3 + part_4;
    let joined_5 = joined_4 + part_5;
    let joined_6 = joined_5 + part_6;
    let joined_7 = joined_6 + part_7;
    let joined_8 = joined_7 + part_8;
    let joined_9 = joined_8 + part_9;
    let joined_10 = joined_9 + part_10;
    let joined_11 = joined_10 + part_11;
    let joined_12 = joined_11 + part_12;
    lemma_first_of_one(part_0, "file_name"@);
    lemma_first_of_one(part_1, "file_name"@);
    lemma_first_of_one(part_2, "file_name"@);
    lemma_first_of_one(part_3, "file_name"@);
    lemma_first_of_one(part_4, "file_name"@);
    lemma_first_of_one(part_5, "file_name"@);
    lemma_first_of_one(part_6, "file_name"@);
    lemma_first_of_joined(joined_0, part_1, "file_name"@);
    lemma_first_of_joined(joined_1, part_2, "file_name"@);
    lemma_first_of_joined(joined_2, part_3, "file_name"@);
    lemma_first_of_joined(joined_3, part_4, "file_name"@);
    lemma_first_of_joined(joined_4, part_5, "file_name"@);
    lemma_first_of_joined(joined_5, part_6, "file_name"@);
    lemma_first_of_joined(joined_6, part_7, "file_name"@);
    lemma_first_of_joined(joined_7, part_8, "file_name"@);
    lemma_first_of_joined(joined_8, part_9, "file_name"@);
    lemma_first_of_joined(joined_9, part_10, "file_name"@);
    lemma_first_of_joined(joined_10, part_11, "file_name"@);
    lemma_first_of_joined(joined_11, part_12, "file_name"@);
    lemma_first_of_one(part_0, "file_type"@);
    lemma_first_of_one(part_1, "file_type"@);
    lemma_first_of_one(part_2, "file_type"@);
    lemma_first_of_one(part_3, "file_type"@);
    lemma_first_of_one(part_4, "file_type"@);
    lemma_first_of_one(part_5, "file_type"@);
    lemma_first_of_one(part_6, "file_type"@);
    lemma_first_of_joined(joined_0, part_1, "file_type"@);
    lemma_first_of_joined(joined_1, part_2, "file_type"@);
    lemma_first_of_joined(joined_2, part_3, "file_type"@);
    lemma_first_of_joined(joined_3, part_4, "file_type"@);
    lemma_first_of_joined(joined_4, part_5, "file_type"@);
    lemma_first_of_joined(joined_5, part_6, "file_type"@);
    lemma_first_of_joined(joined_6, part_7, "file_type"@);
    lemma_first_of_joined(joined_7, part_8, "file_type"@);
    lemma_first_of_joined(joined_8, part_9, "file_type"@);
    lemma_first_of_joined(joined_9, part_10, "file_type"@);
    lemma_first_of_joined(joined_10, part_11, "file_type"@);
    lemma_first_of_joined(joined_11, part_12, "file_type"@);
    lemma_first_of_one(part_0, "file_url"@);
    lemma_first_of_one(part_1, "file_url"@);
    lemma_first_of_one(part_2, "file_url"@);
    lemma_first_of_one(part_3, "file_url"@);
    lemma_first_of_one(part_4, "file_url"@);
    lemma_first_of_one(part_5, "file_url"@);
    lemma_first_of_one(part_6, "file_url"@);
    lemma_first_of_joined(joined_0, part_1, "file_url"@);
    lemma_first_of_joined(joined_1, part_2, "file_url"@);
    lemma_first_of_joined(joined_2, part_3, "file_url"@);
    lemma_first_of_joined(joined_3, part_4, "file_url"@);
    lemma_first_of_joined(joined_4, part_5, "file_url"@);
    lemma_first_of_joined(joined_5, part_6, "file_url"@);
    lemma_first_of_joined(joined_6, part_7, "file_url"@);
    lemma_first_of_joined(joined_7, part_8, "file_url"@);
    lemma_first_of_joined(joined_8, part_9, "file_url"@);
    lemma_first_of_joined(joined_9, part_10, "file_url"@);
    lemma_first_of_joined(joined_10, part_11, "file_url"@);
    lemma_first_of_joined(joined_11, part_12, "file_url"@);
}

/// In at most one member, a key leads to the value of that member or to none.
pub proof fn lemma_first_of_one(members: Seq<(Seq<char>, JsonModel)>, key: Seq<char>)
    requires
        members.len() <= 1,
    ensures
        first_with_key(members, key) == if members.len() == 1 && members[0].0 == key {
            Some(members[0].1)
        } else {
            None
        },
{
    if members.len() == 1 {
        assert(members.drop_first().len() == 0);
        assert(first_with_key(members.drop_first(), key) is None);
    }
}

/// In two lists of members joined, a key leads to what it leads to in the first, or
/// else to what it leads to in the second.
pub proof fn lemma_first_of_joined(
    first: Seq<(Seq<char>, JsonModel)>,
    second: Seq<(Seq<char>, JsonModel)>,
    key: Seq<char>,
)
    ensures
        first_with_key(first + second, key) == if first_with_key(first, key) is Some {
            first_with_key(first, key)
        } else {
            first_with_key(second, key)
        },
    decreases first.len(),
{
    if first.len() == 0 {
        assert(first + second =~= second);
    } else {
        assert((first + second).drop_first() =~= first.drop_first() + second);
        lemma_first_of_joined(first.drop_first(), second, key);
    }
}

/// A file is uploaded before the push that holds it is created, in this order and no
/// other. For a command that has a file to upload: the request that asks where to
/// upload is the only one sent before a ticket is at hand; the file is sent only on a
/// reply that grants a ticket, and to the address on that ticket; and the push is
/// asked for only once the transfer has been answered, with the file name, type and
/// address of the ticket in its body, whatever the caller gave.
pub proof fn law_upload_precedes_push(pipeline: Pipeline, event: Event)
    requires
        pipeline.command.upload_source() is Some,
    ensures
        ({
            let step = pipeline.after(event);
            let path = pipeline.command.upload_source()->0;
            &&& step.stage == Stage::Negotiating ==> {
                &&& pipeline.stage == Stage::LoadingToken || pipeline.stage
                    == Stage::InspectingFile
                &&& step.ticket is None
                &&& step.action is Send
                &&& step.action->Send_0.request.url == upload_request_address()
                &&& step.action->Send_0.request.body is Json
                &&& step.action->Send_0.request.body->Json_0.member("file_name"@) == Some(
                    named_file(path),
                )
            }
            &&& step.stage == Stage::Transferring ==> {
                &&& pipeline.stage == Stage::Negotiating
                &&& (event matches Event::Replied(Ok(reply)) && granted(reply) == step.ticket)
                &&& step.ticket is Some
                &&& step.access_token is Some
                &&& step.action == ActionModel::Send(
                    authorized(
                        upload_model(path, step.ticket->0.upload_url),
                        step.access_token->0,
                    ),
                )
            }
            &&& step.stage == Stage::Requesting ==> {
                &&& pipeline.stage == Stage::Transferring
                &&& (event matches Event::Replied(Ok(_)))
                &&& step.ticket is Some
                &&& step.ticket == ticket_of(pipeline.ticket)
                &&& step.action is Send
                &&& step.action->Send_0.request.method == Method::Post
                &&& step.action->Send_0.request.url == pushes_address()
                &&& step.action->Send_0.request.body is Json
                &&& step.action->Send_0.request.body->Json_0.text_at("file_name"@) == Some(
                    step.ticket->0.file_name,
                )
                &&& step.action->Send_0.request.body->Json_0.text_at("file_type"@) == Some(
                    step.ticket->0.file_type,
                )
                &&& step.action->Send_0.request.body->Json_0.text_at("file_url"@) == Some(
                    step.ticket->0.file_url,
                )
            }
        }),
{
    let step = pipeline.after(event);
    let path = pipeline.command.upload_source()->0;
    match pipeline.command {
        Commands::Push(
            PushCommands::Create {
                t,
                title,
                body,
                url,
                source_device_iden,
                device_iden,
                client_iden,
                channel_tag,
                email,
                guid,
                ..
            },
        ) => {
            if step.stage == Stage::Requesting {
                let granted_ticket = ticket_of(pipeline.ticket)->0;
                lemma_push_body_file_fields(
                    text_of(t),
                    text_of(title),
                    text_of(body),
                    text_of(url),
                    granted_ticket.file_name,
                    granted_ticket.file_type,
                    granted_ticket.file_url,
                    text_of(source_device_iden),
                    text_of(device_iden),
                    text_of(client_iden),
                    text_of(channel_tag),
                    text_of(email),
                    text_of(guid),
                );
            }
            if step.stage == Stage::Negotiating {
                let members = step.action->Send_0.request.body->Json_0->Object_0;
                assert(members[0] == ("file_name"@, named_file(path)));
            }
        },
        _ => {},
    }
}

/// A push of type `file` without a file name fails before anything is sent. Its
/// request cannot be built: the command fails with `MissingRequiredField`, which names
/// `file_name`, as soon as the access token is at hand, and no step of its invocation,
/// whatever the stage and the event, asks for a request to be sent.
pub proof fn law_file_push_needs_file_name(pipeline: Pipeline, event: Event)
    requires
        pipeline.command matches Commands::Push(push) && push.is_file_push() && (push
            matches PushCommands::Create { file_name, .. } && file_name is None),
    ensures
        forall|ticket: Option<TicketModel>| #[trigger]
            pipeline.command.expected(ticket) == Some(
                Err::<DescriptorModel, BuildFault>(BuildFault::MissingRequiredField("file_name"@)),
            ),
        !(pipeline.after(event).action is Send),
        !(pipeline.after(event).action is InspectFile),
        pipeline.stage == Stage::LoadingToken && (event matches Event::TokenLoaded(Ok(_)))
            ==> pipeline.after(event).stage == Stage::Done && pipeline.after(event).action
            == ActionModel::Fail(FailureKind::MissingRequiredField),
{
}

/// Storing the access token sends nothing. The first step of that command asks for the
/// token to be written as it was given, the second ends the invocation, and no step
/// asks for a request to be sent or for the stored token to be read.
pub proof fn law_storing_token_sends_nothing(pipeline: Pipeline, event: Event)
    requires
        pipeline.command is AccessToken,
    ensures
        !(pipeline.after(event).action is Send),
        pipeline.stage == Stage::Idle && event is Started ==> pipeline.after(event).action
            == ActionModel::StoreToken(pipeline.command->access_token@),
        pipeline.stage == Stage::StoringToken && (event matches Event::TokenStored(Ok(_)))
            ==> pipeline.after(event).action == ActionModel::Finish,
        pipeline.stage == Stage::StoringToken && (event matches Event::TokenStored(Err(_)))
            ==> pipeline.after(event).action == ActionModel::Fail(FailureKind::CredentialIoError),
{
}

/// A response is passed on as it came. Once the request of the command itself has
/// been sent, whatever is answered is printed, whole and unchanged, whatever the
/// status says; only a failed exchange fails the invocation.
pub proof fn law_response_passes_through(pipeline: Pipeline, reply: Reply)
    requires
        pipeline.stage == Stage::Requesting,
    ensures
        pipeline.after(Event::Replied(Ok(reply))).action == ActionModel::Print(reply.body@),
        pipeline.after(Event::Replied(Ok(reply))).stage == Stage::Done,
{
}

} // verus!
