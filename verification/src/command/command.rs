use vstd::prelude::*;
use crate::command::channel::ChannelCommands;
use crate::command::chat::ChatCommands;
use crate::command::device::DeviceCommands;
use crate::command::push::PushCommands;
use crate::command::subscription::SubscriptionCommands;
use crate::command::text::TextCommands;
use crate::command::user::UserCommands;
use crate::json::{
    members_model, no_members, number_of, put_value, text_of, JsonModel, JsonValue,
};
use crate::request::{
    add_number_pair, add_text_pair, built, no_query, number_pair, pairs_model, request_with_body,
    text_pair, with_body, Body, BodyModel, BuildError, BuildFault, DescriptorModel, Method,
    RequestDescriptor,
};
use crate::text::{file_name, file_name_of};

verus! {

/// Where to resume a listing and how many objects to ask for.
#[derive(Debug, Clone, PartialEq)]
pub struct PaginationArgs {
    /// The cursor that the previous page of results came with.
    pub cursor: Option<String>,
    /// The largest number of objects wanted on a page.
    pub limit: Option<i32>,
}

impl PaginationArgs {
    /// The query parameters of a listing: `cursor`, then `limit`, each only where set.
    pub open spec fn query_model(&self) -> Seq<(Seq<char>, Seq<char>)> {
        text_pair("cursor"@, text_of(self.cursor)) + number_pair("limit"@, number_of(self.limit))
    }

    pub fn to_query(&self) -> (query: Vec<(String, String)>)
        ensures
            pairs_model(query@) == self.query_model(),
    {
        let query: Vec<(String, String)> = Vec::new();
        assert(pairs_model(query@) =~= Seq::empty());
        let query = add_text_pair(query, "cursor", &self.cursor);
        let query = add_number_pair(query, "limit", self.limit);
        assert(pairs_model(query@) =~= self.query_model());
        query
    }
}

impl Default for PaginationArgs {
    /// No cursor, and five hundred objects to a page.
    fn default() -> (r: PaginationArgs)
        ensures
            r.cursor is None,
            r.limit == Some(500i32),
    {
        PaginationArgs { cursor: None, limit: Some(500) }
    }
}

/// What the service answers to an upload request: the name, type and address that it
/// gives the file, to be put into the push, and the address to send the bytes to.
#[derive(Debug, PartialEq)]
pub struct UploadRequestResponse {
    pub file_name: String,
    pub file_type: String,
    pub file_url: String,
    pub upload_url: String,
}

/// Mathematical model of an `UploadRequestResponse`.
pub struct TicketModel {
    pub file_name: Seq<char>,
    pub file_type: Seq<char>,
    pub file_url: Seq<char>,
    pub upload_url: Seq<char>,
}

impl View for UploadRequestResponse {
    type V = TicketModel;

    open spec fn view(&self) -> TicketModel {
        TicketModel {
            file_name: self.file_name@,
            file_type: self.file_type@,
            file_url: self.file_url@,
            upload_url: self.upload_url@,
        }
    }
}

/// The ticket of an optional `UploadRequestResponse`.
pub open spec fn ticket_of(ticket: Option<UploadRequestResponse>) -> Option<TicketModel> {
    match ticket {
        Some(t) => Some(t@),
        None => None,
    }
}

/// The ticket that a document holds: its four fields, each of which must be there as
/// a string. Other members do not matter.
pub open spec fn ticket_in(document: JsonModel) -> Option<TicketModel> {
    if document.text_at("file_name"@) is Some && document.text_at("file_type"@) is Some
        && document.text_at("file_url"@) is Some && document.text_at("upload_url"@) is Some {
        Some(
            TicketModel {
                file_name: document.text_at("file_name"@)->0,
                file_type: document.text_at("file_type"@)->0,
                file_url: document.text_at("file_url"@)->0,
                upload_url: document.text_at("upload_url"@)->0,
            },
        )
    } else {
        None
    }
}

impl UploadRequestResponse {
    /// Reads the ticket out of the document that the service answered with.
    pub fn from_json(document: &JsonValue) -> (r: Option<UploadRequestResponse>)
        ensures
            ticket_of(r) == ticket_in(document@),
    {
        let file_name = match document.get_text("file_name") {
            Some(s) => s,
            None => {
                return None;
            },
        };
        let file_type = match document.get_text("file_type") {
            Some(s) => s,
            None => {
                return None;
            },
        };
        let file_url = match document.get_text("file_url") {
            Some(s) => s,
            None => {
                return None;
            },
        };
        let upload_url = match document.get_text("upload_url") {
            Some(s) => s,
            None => {
                return None;
            },
        };
        Some(UploadRequestResponse { file_name, file_type, file_url, upload_url })
    }
}

/// The address that an upload is asked for at.
pub open spec fn upload_request_address() -> Seq<char> {
    "https://api.pushbullet.com/v2/upload-request"@
}

/// The value that names a file in an upload request: the file name of its path, or
/// `null` where the path has none.
pub open spec fn named_file(path: Seq<char>) -> JsonModel {
    match file_name(path) {
        Some(name) => JsonModel::String(name),
        None => JsonModel::Null,
    }
}

/// The request that asks the service where to upload a file: the file's name without
/// its directories, and its type.
pub open spec fn upload_request_model(path: Seq<char>, file_type: Seq<char>) -> DescriptorModel {
    DescriptorModel {
        method: Method::Post,
        url: upload_request_address(),
        query: Seq::empty(),
        body: BodyModel::Json(
            JsonModel::Object(
                seq![
                    ("file_name"@, named_file(path)),
                    ("file_type"@, JsonModel::String(file_type)),
                ],
            ),
        ),
    }
}

/// Describes the request that asks the service where to upload a file.
pub fn upload_request(file_name: &str, file_type: &str) -> (r: RequestDescriptor)
    ensures
        r@ == upload_request_model(file_name@, file_type@),
{
    let name = match file_name_of(file_name) {
        Some(n) => JsonValue::String(n),
        None => JsonValue::Null,
    };
    let m = no_members();
    let m = put_value(m, "file_name", name);
    let m = put_value(m, "file_type", JsonValue::text(file_type));
    assert(members_model(m@) =~= seq![
        ("file_name"@, named_file(file_name@)),
        ("file_type"@, JsonModel::String(file_type@)),
    ]);
    RequestDescriptor {
        method: Method::Post,
        url: String::from_str("https://api.pushbullet.com/v2/upload-request"),
        query: no_query(),
        body: Body::Json(JsonValue::object(m)),
    }
}

/// The request that sends a file to the address on a ticket: the file goes as the
/// part named `file` of a multipart form.
pub open spec fn upload_model(path: Seq<char>, upload_url: Seq<char>) -> DescriptorModel {
    DescriptorModel {
        method: Method::Post,
        url: upload_url,
        query: Seq::empty(),
        body: BodyModel::File { field: "file"@, path },
    }
}

/// Describes the request that sends a file to the address on a ticket.
pub fn upload(file_name: &str, upload_url: &str) -> (r: RequestDescriptor)
    ensures
        r@ == upload_model(file_name@, upload_url@),
{
    RequestDescriptor {
        method: Method::Post,
        url: String::from_str(upload_url),
        query: no_query(),
        body: Body::File { field: String::from_str("file"), path: String::from_str(file_name) },
    }
}

/// Everything the client can be asked to do.
#[derive(Debug, Clone, PartialEq)]
pub enum Commands {
    /// Store the access token that the service knows the user by.
    AccessToken { access_token: String },
    Chat(ChatCommands),
    Device(DeviceCommands),
    Push(PushCommands),
    Channel(ChannelCommands),
    Subscription(SubscriptionCommands),
    Text(TextCommands),
    User(UserCommands),
}

/// What the command line was read into.
#[derive(Debug, Clone, PartialEq)]
pub struct Cli {
    pub command: Commands,
}

impl Commands {
    /// The local file that has to be uploaded before the request can be built: that
    /// of a push of type `file`.
    pub open spec fn upload_source(&self) -> Option<Seq<char>> {
        match self {
            Commands::Push(push) => push.upload_source(),
            _ => None,
        }
    }

    /// The type that the caller gave the file to upload, if any.
    pub open spec fn upload_type(&self) -> Option<Seq<char>> {
        match self {
            Commands::Push(push) => push.upload_type(),
            _ => None,
        }
    }

    /// The file to upload before the request can be built, and the type that the
    /// caller gave it, if any.
    pub fn upload_plan(&self) -> (r: Option<(String, Option<String>)>)
        ensures
            match r {
                Some(plan) => self.upload_source() == Some(plan.0@) && text_of(plan.1)
                    == self.upload_type(),
                None => self.upload_source() is None,
            },
    {
        match self {
            Commands::Push(push) => push.upload_plan(),
            _ => None,
        }
    }

    /// The request that the command stands for; storing the access token stands for
    /// none.
    pub open spec fn expected(&self, ticket: Option<TicketModel>) -> Option<Result<DescriptorModel, BuildFault>> {
        match self {
            Commands::AccessToken { .. } => None,
            Commands::Chat(chat) => Some(chat.expected()),
            Commands::Device(device) => Some(device.expected()),
            Commands::Push(push) => Some(push.expected(ticket)),
            Commands::Channel(channel) => Some(channel.expected()),
            Commands::Subscription(subscription) => Some(subscription.expected()),
            Commands::Text(text) => Some(text.expected()),
            Commands::User(user) => Some(user.expected()),
        }
    }

    /// Builds the request of whichever resource the command is about. For a push of
    /// type `file` with a file name the ticket of the upload must be at hand.
    pub fn build_request(&self, ticket: Option<&UploadRequestResponse>) -> (r: Option<
        Result<RequestDescriptor, BuildError>,
    >)
        requires
            self.upload_source() is Some ==> ticket is Some,
        ensures
            match r {
                Some(outcome) => Some(built(outcome)),
                None => None,
            } == self.expected(
                match ticket {
                    Some(t) => Some(t@),
                    None => None,
                },
            ),
    {
        match self {
            Commands::AccessToken { .. } => None,
            Commands::Chat(chat) => Some(chat.build_request()),
            Commands::Device(device) => Some(device.build_request()),
            Commands::Push(push) => Some(push.build_request(ticket)),
            Commands::Channel(channel) => Some(channel.build_request()),
            Commands::Subscription(subscription) => Some(subscription.build_request()),
            Commands::Text(text) => Some(text.build_request()),
            Commands::User(user) => Some(user.build_request()),
        }
    }
}

} // verus!
