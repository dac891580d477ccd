use vstd::prelude::*;
use crate::command::command::PaginationArgs;
use crate::json::{
    copy_text, flag_member, members_model, no_members, put_flag, put_text, text_member, text_of,
    JsonModel, JsonValue,
};
use crate::request::{
    body_of_override, built, item_address, item_url, no_query, override_body,
    request_with_body, request_without_body, with_body, without_body, Body, BodyModel,
    BuildError, BuildFault, DescriptorModel, Method, RequestDescriptor,
};
use crate::schema::{Kind, Schema};

verus! {

/// The address of the collection of chats.
pub open spec fn chats_address() -> Seq<char> {
    "https://api.pushbullet.com/v2/chats"@
}

/// What can be done with chats.
#[derive(Debug, Clone, PartialEq)]
pub enum ChatCommands {
    /// Get a list of chats belonging to the current user.
    List(PaginationArgs),
    /// Create a chat with another user or email address.
    Create {
        email: Option<String>,
        /// Raw JSON to send in place of the fields.
        data_binary: Option<String>,
    },
    /// Update an existing chat.
    Update {
        iden: String,
        muted: Option<bool>,
        /// Raw JSON to send in place of the fields.
        data_binary: Option<String>,
    },
    /// Delete a chat.
    Delete { iden: String },
}

/// The body that creates a chat.
#[derive(Debug, Clone, PartialEq)]
pub struct CreateRequest {
    /// Email of the person to create the chat with.
    pub email: Option<String>,
}

/// The fields that the body of a new chat may hold.
pub open spec fn create_schema_model() -> Seq<(Seq<char>, Kind)> {
    Seq::empty().push(("email"@, Kind::Text))
}

impl CreateRequest {
    /// The body as a document.
    pub open spec fn body_model(&self) -> JsonModel {
        JsonModel::Object(text_member("email"@, text_of(self.email)))
    }

    /// Writes the body: the field, where it is set.
    pub fn to_json(&self) -> (r: JsonValue)
        ensures
            r@ == self.body_model(),
    {
        let m = no_members();
        let m = put_text(m, "email", &self.email);
        assert(members_model(m@) =~= self.body_model()->Object_0);
        JsonValue::object(m)
    }

    /// The fields that the body may hold, each with its kind.
    pub fn schema() -> (r: Schema)
        ensures
            r@ == create_schema_model(),
    {
        Schema::new().with("email", Kind::Text)
    }
}

/// The body that updates a chat.
#[derive(Debug, Clone, PartialEq)]
pub struct UpdateRequest {
    /// Whether the chat is muted.
    pub muted: Option<bool>,
}

/// The fields that the body of an update of a chat may hold.
pub open spec fn update_schema_model() -> Seq<(Seq<char>, Kind)> {
    Seq::empty().push(("muted"@, Kind::Flag))
}

impl UpdateRequest {
    /// The body as a document.
    pub open spec fn body_model(&self) -> JsonModel {
        JsonModel::Object(flag_member("muted"@, self.muted))
    }

    /// Writes the body: the field, where it is set.
    pub fn to_json(&self) -> (r: JsonValue)
        ensures
            r@ == self.body_model(),
    {
        let m = no_members();
        let m = put_flag(m, "muted", self.muted);
        assert(members_model(m@) =~= self.body_model()->Object_0);
        JsonValue::object(m)
    }

    /// The fields that the body may hold, each with its kind.
    pub fn schema() -> (r: Schema)
        ensures
            r@ == update_schema_model(),
    {
        Schema::new().with("muted", Kind::Flag)
    }
}

impl ChatCommands {
    /// The request that the command stands for. Raw JSON, where given, is the whole
    /// body; otherwise the body holds the fields that are set.
    pub open spec fn expected(&self) -> Result<DescriptorModel, BuildFault> {
        match self {
            ChatCommands::List(args) => Ok(
                without_body(Method::Get, chats_address(), args.query_model()),
            ),
            ChatCommands::Create { email, data_binary } => with_body(
                Method::Post,
                chats_address(),
                match data_binary {
                    Some(raw) => override_body(raw@, create_schema_model()),
                    None => Ok(
                        BodyModel::Json(JsonModel::Object(text_member("email"@, text_of(*email)))),
                    ),
                },
            ),
            ChatCommands::Update { iden, muted, data_binary } => with_body(
                Method::Post,
                item_address(chats_address(), iden@),
                match data_binary {
                    Some(raw) => override_body(raw@, update_schema_model()),
                    None => Ok(BodyModel::Json(JsonModel::Object(flag_member("muted"@, *muted)))),
                },
            ),
            ChatCommands::Delete { iden } => Ok(
                without_body(Method::Delete, item_address(chats_address(), iden@), Seq::empty()),
            ),
        }
    }

    /// Builds the request.
    pub fn build_request(&self) -> (r: Result<RequestDescriptor, BuildError>)
        ensures
            built(r) == self.expected(),
    {
        match self {
            ChatCommands::List(args) => Ok(
                request_without_body(
                    Method::Get,
                    String::from_str("https://api.pushbullet.com/v2/chats"),
                    args.to_query(),
                ),
            ),
            ChatCommands::Create { email, data_binary } => {
                let body = match data_binary {
                    Some(raw) => body_of_override(raw.as_str(), &CreateRequest::schema()),
                    None => Ok(Body::Json(CreateRequest { email: copy_text(email) }.to_json())),
                };
                request_with_body(
                    Method::Post,
                    String::from_str("https://api.pushbullet.com/v2/chats"),
                    body,
                )
            },
            ChatCommands::Update { iden, muted, data_binary } => {
                let body = match data_binary {
                    Some(raw) => body_of_override(raw.as_str(), &UpdateRequest::schema()),
                    None => Ok(Body::Json(UpdateRequest { muted: *muted }.to_json())),
                };
                request_with_body(
                    Method::Post,
                    item_url("https://api.pushbullet.com/v2/chats", iden.as_str()),
                    body,
                )
            },
            ChatCommands::Delete { iden } => Ok(
                request_without_body(
                    Method::Delete,
                    item_url("https://api.pushbullet.com/v2/chats", iden.as_str()),
                    no_query(),
                ),
            ),
        }
    }
}

} // verus!
