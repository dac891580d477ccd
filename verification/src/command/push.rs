use vstd::prelude::*;
use crate::command::command::{ticket_of, TicketModel, UploadRequestResponse};
use crate::json::{
    copy_text, flag_member, members_model, no_members, number_of, put_flag, put_text, text_member,
    text_of, JsonModel, JsonValue,
};
use crate::request::{
    add_flag_pair, add_number_pair, add_text_pair, body_of_override, built, flag_pair, item_address,
    item_url, no_query, number_pair, override_body, pairs_model, request_with_body,
    request_without_body, text_pair, with_body, without_body, Body, BodyModel, BuildError,
    BuildFault, DescriptorModel, Method, RequestDescriptor,
};
use crate::schema::{Kind, Schema};
use crate::text::same_text;

verus! {

/// The address of the collection of pushes.
pub open spec fn pushes_address() -> Seq<char> {
    "https://api.pushbullet.com/v2/pushes"@
}

/// Which pushes to list, where to resume the listing and how many to ask for.
#[derive(Debug, Clone, PartialEq)]
pub struct PaginationArgs {
    /// Only pushes modified after this timestamp.
    pub modified_after: Option<String>,
    /// Whether to leave deleted pushes out.
    pub active: Option<bool>,
    /// The cursor that the previous page of results came with.
    pub cursor: Option<String>,
    /// The largest number of pushes wanted on a page.
    pub limit: Option<i32>,
}

impl PaginationArgs {
    /// The query parameters of a listing of pushes: `modified_after`, `active`,
    /// `cursor`, `limit`, each only where set.
    pub open spec fn query_model(&self) -> Seq<(Seq<char>, Seq<char>)> {
        text_pair("modified_after"@, text_of(self.modified_after)) + flag_pair(
            "active"@,
            self.active,
        ) + text_pair("cursor"@, text_of(self.cursor)) + number_pair(
            "limit"@,
            number_of(self.limit),
        )
    }

    pub fn to_query(&self) -> (query: Vec<(String, String)>)
        ensures
            pairs_model(query@) == self.query_model(),
    {
        let query = no_query();
        let query = add_text_pair(query, "modified_after", &self.modified_after);
        let query = add_flag_pair(query, "active", self.active);
        let query = add_text_pair(query, "cursor", &self.cursor);
        let query = add_number_pair(query, "limit", self.limit);
        assert(pairs_model(query@) =~= self.query_model());
        query
    }
}

impl Default for PaginationArgs {
    /// No filter, no cursor, and five hundred pushes to a page.
    fn default() -> (r: PaginationArgs)
        ensures
            r.modified_after is None,
            r.active is None,
            r.cursor is None,
            r.limit == Some(500i32),
    {
        PaginationArgs { modified_after: None, active: None, cursor: None, limit: Some(500) }
    }
}

/// The body that creates a push.
#[derive(Debug, Clone, PartialEq)]
pub struct CreateRequest {
    /// Type of the push: `note`, `file` or `link`.
    pub t: Option<String>,
    pub title: Option<String>,
    pub body: Option<String>,
    /// Used for pushes of type `link`.
    pub url: Option<String>,
    /// Used for pushes of type `file`.
    pub file_name: Option<String>,
    /// Used for pushes of type `file`.
    pub file_type: Option<String>,
    /// Used for pushes of type `file`.
    pub file_url: Option<String>,
    pub source_device_iden: Option<String>,
    pub device_iden: Option<String>,
    pub client_iden: Option<String>,
    pub channel_tag: Option<String>,
    pub email: Option<String>,
    pub guid: Option<String>,
}

/// The members of the body that creates a push: each field that is set, under its
/// name, in this order.
pub open spec fn create_members(
    t: Option<Seq<char>>,
    title: Option<Seq<char>>,
    body: Option<Seq<char>>,
    url: Option<Seq<char>>,
    file_name: Option<Seq<char>>,
    file_type: Option<Seq<char>>,
    file_url: Option<Seq<char>>,
    source_device_iden: Option<Seq<char>>,
    device_iden: Option<Seq<char>>,
    client_iden: Option<Seq<char>>,
    channel_tag: Option<Seq<char>>,
    email: Option<Seq<char>>,
    guid: Option<Seq<char>>,
) -> Seq<(Seq<char>, JsonModel)> {
    text_member("type"@, t) + text_member("title"@, title) + text_member("body"@, body)
        + text_member("url"@, url) + text_member("file_name"@, file_name) + text_member(
        "file_type"@,
        file_type,
    ) + text_member("file_url"@, file_url) + text_member(
        "source_device_iden"@,
        source_device_iden,
    ) + text_member("device_iden"@, device_iden) + text_member("client_iden"@, client_iden)
        + text_member("channel_tag"@, channel_tag) + text_member("email"@, email) + text_member(
        "guid"@,
        guid,
    )
}

/// The fields that the body of a new push may hold.
pub open spec fn create_schema_model() -> Seq<(Seq<char>, Kind)> {
    Seq::empty().push(("type"@, Kind::Text)).push(("title"@, Kind::Text)).push(
        ("body"@, Kind::Text),
    ).push(("url"@, Kind::Text)).push(("file_name"@, Kind::Text)).push(
        ("file_type"@, Kind::Text),
    ).push(("file_url"@, Kind::Text)).push(("source_device_iden"@, Kind::Text)).push(
        ("device_iden"@, Kind::Text),
    ).push(("client_iden"@, Kind::Text)).push(("channel_tag"@, Kind::Text)).push(
        ("email"@, Kind::Text),
    ).push(("guid"@, Kind::Text))
}

impl CreateRequest {
    /// The body as a document.
    pub open spec fn body_model(&self) -> JsonModel {
        JsonModel::Object(
            create_members(
                text_of(self.t),
                text_of(self.title),
                text_of(self.body),
                text_of(self.url),
                text_of(self.file_name),
                text_of(self.file_type),
                text_of(self.file_url),
                text_of(self.source_device_iden),
                text_of(self.device_iden),
                text_of(self.client_iden),
                text_of(self.channel_tag),
                text_of(self.email),
                text_of(self.guid),
            ),
        )
    }

    /// Writes the body: the fields that are set, and no others.
    pub fn to_json(&self) -> (r: JsonValue)
        ensures
            r@ == self.body_model(),
    {
        let m = no_members();
        let m = put_text(m, "type", &self.t);
        let m = put_text(m, "title", &self.title);
        let m = put_text(m, "body", &self.body);
        let m = put_text(m, "url", &self.url);
        let m = put_text(m, "file_name", &self.file_name);
        let m = put_text(m, "file_type", &self.file_type);
        let m = put_text(m, "file_url", &self.file_url);
        let m = put_text(m, "source_device_iden", &self.source_device_iden);
        let m = put_text(m, "device_iden", &self.device_iden);
        let m = put_text(m, "client_iden", &self.client_iden);
        let m = put_text(m, "channel_tag", &self.channel_tag);
        let m = put_text(m, "email", &self.email);
        let m = put_text(m, "guid", &self.guid);
        assert(members_model(m@) =~= self.body_model()->Object_0);
        JsonValue::object(m)
    }

    /// The fields that the body may hold, each with its kind.
    pub fn schema() -> (r: Schema)
        ensures
            r@ == create_schema_model(),
    {
        Schema::new().with("type", Kind::Text).with("title", Kind::Text).with(
            "body",
            Kind::Text,
        ).with("url", Kind::Text).with("file_name", Kind::Text).with("file_type", Kind::Text).with(
            "file_url",
            Kind::Text,
        ).with("source_device_iden", Kind::Text).with("device_iden", Kind::Text).with(
            "client_iden",
            Kind::Text,
        ).with("channel_tag", Kind::Text).with("email", Kind::Text).with("guid", Kind::Text)
    }
}

/// The body that updates a push.
#[derive(Debug, Clone, PartialEq)]
pub struct UpdateRequest {
    /// Whether the user has dismissed the push.
    pub dismissed: Option<bool>,
}

/// The fields that the body of an update of a push may hold.
pub open spec fn update_schema_model() -> Seq<(Seq<char>, Kind)> {
    Seq::empty().push(("dismissed"@, Kind::Flag))
}

impl UpdateRequest {
    /// The body as a document.
    pub open spec fn body_model(&self) -> JsonModel {
        JsonModel::Object(flag_member("dismissed"@, self.dismissed))
    }

    /// Writes the body: the field, where it is set.
    pub fn to_json(&self) -> (r: JsonValue)
        ensures
            r@ == self.body_model(),
    {
        let m = no_members();
        let m = put_flag(m, "dismissed", self.dismissed);
        assert(members_model(m@) =~= self.body_model()->Object_0);
        JsonValue::object(m)
    }

    /// The fields that the body may hold, each with its kind.
    pub fn schema() -> (r: Schema)
        ensures
            r@ == update_schema_model(),
    {
        Schema::new().with("dismissed", Kind::Flag)
    }
}

/// What can be done with pushes.
#[derive(Debug, Clone, PartialEq)]
pub enum PushCommands {
    /// Request push history.
    List(PaginationArgs),
    /// Send a push to a device or another person.
    Create {
        t: Option<String>,
        title: Option<String>,
        body: Option<String>,
        url: Option<String>,
        file_name: Option<String>,
        file_type: Option<String>,
        file_url: Option<String>,
        source_device_iden: Option<String>,
        device_iden: Option<String>,
        client_iden: Option<String>,
        channel_tag: Option<String>,
        email: Option<String>,
        guid: Option<String>,
        /// Raw JSON to send in place of the fields.
        data_binary: Option<String>,
    },
    /// Update a push.
    Update { iden: String, dismissed: Option<bool>, data_binary: Option<String> },
    /// Delete a push.
    Delete { iden: String },
    /// Delete all pushes of the current user.
    DeleteAll,
}

impl PushCommands {
    /// Whether the command creates a push of type `file` from its fields: the one
    /// request that a file has to be uploaded for.
    pub open spec fn is_file_push(&self) -> bool {
        match self {
            PushCommands::Create { t, data_binary, .. } => data_binary is None && text_of(*t)
                == Some("file"@),
            _ => false,
        }
    }

    /// The local file that has to be uploaded before the request can be built.
    pub open spec fn upload_source(&self) -> Option<Seq<char>> {
        match self {
            PushCommands::Create { file_name, .. } => if self.is_file_push() {
                text_of(*file_name)
            } else {
                None
            },
            _ => None,
        }
    }

    /// The type that the caller gave the file, if any.
    pub open spec fn upload_type(&self) -> Option<Seq<char>> {
        match self {
            PushCommands::Create { file_type, .. } => text_of(*file_type),
            _ => None,
        }
    }

    /// The request that the command stands for. A push of type `file` takes its file
    /// name, type and address from the ticket of the upload, whatever the caller gave;
    /// without a file name it is refused. Raw JSON, where given, is the whole body.
    pub open spec fn expected(&self, ticket: Option<TicketModel>) -> Result<DescriptorModel, BuildFault> {
        match self {
            PushCommands::List(args) => Ok(
                without_body(Method::Get, pushes_address(), args.query_model()),
            ),
            PushCommands::Create {
                t,
                title,
                body,
                url,
                file_name,
                file_type,
                file_url,
                source_device_iden,
                device_iden,
                client_iden,
                channel_tag,
                email,
                guid,
                data_binary,
            } => match data_binary {
                Some(raw) => with_body(
                    Method::Post,
                    pushes_address(),
                    override_body(raw@, create_schema_model()),
                ),
                None => if text_of(*t) == Some("file"@) {
                    if file_name is None {
                        Err(BuildFault::MissingRequiredField("file_name"@))
                    } else {
                        with_body(
                            Method::Post,
                            pushes_address(),
                            Ok(
                                BodyModel::Json(
                                    JsonModel::Object(
                                        create_members(
                                            text_of(*t),
                                            text_of(*title),
                                            text_of(*body),
                                            text_of(*url),
                                            Some(ticket->0.file_name),
                                            Some(ticket->0.file_type),
                                            Some(ticket->0.file_url),
                                            text_of(*source_device_iden),
                                            text_of(*device_iden),
                                            text_of(*client_iden),
                                            text_of(*channel_tag),
                                            text_of(*email),
                                            text_of(*guid),
                                        ),
                                    ),
                                ),
                            ),
                        )
                    }
                } else {
                    with_body(
                        Method::Post,
                        pushes_address(),
                        Ok(
                            BodyModel::Json(
                                JsonModel::Object(
                                    create_members(
                                        text_of(*t),
                                        text_of(*title),
                                        text_of(*body),
                                        text_of(*url),
                                        text_of(*file_name),
                                        text_of(*file_type),
                                        text_of(*file_url),
                                        text_of(*source_device_iden),
                                        text_of(*device_iden),
                                        text_of(*client_iden),
                                        text_of(*channel_tag),
                                        text_of(*email),
                                        text_of(*guid),
                                    ),
                                ),
                            ),
                        ),
                    )
                },
            },
            PushCommands::Update { iden, dismissed, data_binary } => with_body(
                Method::Post,
                item_address(pushes_address(), iden@),
                match data_binary {
                    Some(raw) => override_body(raw@, update_schema_model()),
                    None => Ok(BodyModel::Json(JsonModel::Object(flag_member("dismissed"@, *dismissed)))),
                },
            ),
            PushCommands::Delete { iden } => Ok(
                without_body(Method::Delete, item_address(pushes_address(), iden@), Seq::empty()),
            ),
            PushCommands::DeleteAll => Ok(
                without_body(Method::Delete, pushes_address(), Seq::empty()),
            ),
        }
    }

    /// The file to upload before the request can be built, and the type that the
    /// caller gave it, if any.
    pub fn upload_plan(&self) -> (r: Option<(String, Option<String>)>)
        ensures
            match r {
                Some(plan) => self.upload_source() == Some(plan.0@) && text_of(plan.1)
                    == self.upload_type(),
                None => self.upload_source() is None,
            },
    {
        if self.needs_upload() {
            match self {
                PushCommands::Create { file_name, file_type, .. } => match file_name {
                    Some(path) => Some((path.clone(), copy_text(file_type))),
                    None => None,
                },
                _ => None,
            }
        } else {
            None
        }
    }

    /// Tells whether the command creates a push of type `file` from its fields.
    pub fn needs_upload(&self) -> (r: bool)
        ensures
            r == self.is_file_push(),
    {
        match self {
            PushCommands::Create { t, data_binary, .. } => match (data_binary, t) {
                (None, Some(kind)) => same_text(kind, "file"),
                _ => false,
            },
            _ => false,
        }
    }

    /// Builds the request. For a push of type `file` with a file name the ticket of
    /// the upload must be at hand.
    pub fn build_request(&self, ticket: Option<&UploadRequestResponse>) -> (r: Result<
        RequestDescriptor,
        BuildError,
    >)
        requires
            self.upload_source() is Some ==> ticket is Some,
        ensures
            built(r) == self.expected(
                match ticket {
                    Some(t) => Some(t@),
                    None => None,
                },
            ),
    {
        match self {
            PushCommands::List(args) => Ok(
                request_without_body(
                    Method::Get,
                    String::from_str("https://api.pushbullet.com/v2/pushes"),
                    args.to_query(),
                ),
            ),
            PushCommands::Create {
                t,
                title,
                body,
                url,
                file_name,
                file_type,
                file_url,
                source_device_iden,
                device_iden,
                client_iden,
                channel_tag,
                email,
                guid,
                data_binary,
            } => {
                let address = String::from_str("https://api.pushbullet.com/v2/pushes");
                match data_binary {
                    Some(raw) => request_with_body(
                        Method::Post,
                        address,
                        body_of_override(raw.as_str(), &CreateRequest::schema()),
                    ),
                    None => {
                        let mut request = CreateRequest {
                            t: copy_text(t),
                            title: copy_text(title),
                            body: copy_text(body),
                            url: copy_text(url),
                            file_name: copy_text(file_name),
                            file_type: copy_text(file_type),
                            file_url: copy_text(file_url),
                            source_device_iden: copy_text(source_device_iden),
                            device_iden: copy_text(device_iden),
                            client_iden: copy_text(client_iden),
                            channel_tag: copy_text(channel_tag),
                            email: copy_text(email),
                            guid: copy_text(guid),
                        };
                        if self.needs_upload() {
                            if file_name.is_none() {
                                return Err(
                                    BuildError::MissingRequiredField(String::from_str("file_name")),
                                );
                            }
                            match ticket {
                                Some(granted) => {
                                    request.file_name = Some(granted.file_name.clone());
                                    request.file_type = Some(granted.file_type.clone());
                                    request.file_url = Some(granted.file_url.clone());
                                },
                                None => {},
                            }
                        }
                        request_with_body(Method::Post, address, Ok(Body::Json(request.to_json())))
                    },
                }
            },
            PushCommands::Update { iden, dismissed, data_binary } => {
                let address = item_url("https://api.pushbullet.com/v2/pushes", iden.as_str());
                let body = match data_binary {
                    Some(raw) => body_of_override(raw.as_str(), &UpdateRequest::schema()),
                    None => Ok(Body::Json(UpdateRequest { dismissed: *dismissed }.to_json())),
                };
                request_with_body(Method::Post, address, body)
            },
            PushCommands::Delete { iden } => Ok(
                request_without_body(
                    Method::Delete,
                    item_url("https://api.pushbullet.com/v2/pushes", iden.as_str()),
                    no_query(),
                ),
            ),
            PushCommands::DeleteAll => Ok(
                request_without_body(
                    Method::Delete,
                    String::from_str("https://api.pushbullet.com/v2/pushes"),
                    no_query(),
                ),
            ),
        }
    }
}

} // verus!
