use vstd::prelude::*;
use crate::json::{
    copy_text, flag_member, members_model, no_members, put_flag, put_text, put_value, text_member,
    text_of, value_member, JsonModel, JsonValue,
};
use crate::request::{
    body_of_override, built, item_address, item_url, no_query, override_body,
    request_with_body, request_without_body, with_body, without_body, Body, BodyModel,
    BuildError, BuildFault, DescriptorModel, Method, RequestDescriptor,
};
use crate::schema::{Kind, Schema};

verus! {

/// The address of the collection of text messages.
pub open spec fn texts_address() -> Seq<char> {
    "https://api.pushbullet.com/v2/texts"@
}

/// The values that specify a text message.
#[derive(Debug, Clone, PartialEq)]
pub struct Data {
    /// The device that is to send the message.
    pub target_device_iden: Option<String>,
    /// The phone numbers to send the message to.
    pub address: Option<String>,
    /// The text of the message.
    pub message: Option<String>,
    pub guid: Option<String>,
    pub status: Option<String>,
    /// The mime type of the file sent with the message.
    pub file_type: Option<String>,
}

/// The members of the object that specifies a text message: each field that is set,
/// under its name, in this order.
pub open spec fn data_members(
    target_device_iden: Option<Seq<char>>,
    address: Option<Seq<char>>,
    message: Option<Seq<char>>,
    guid: Option<Seq<char>>,
    status: Option<Seq<char>>,
    file_type: Option<Seq<char>>,
) -> Seq<(Seq<char>, JsonModel)> {
    text_member("target_device_iden"@, target_device_iden) + text_member("address"@, address)
        + text_member("message"@, message) + text_member("guid"@, guid) + text_member(
        "status"@,
        status,
    ) + text_member("file_type"@, file_type)
}

impl Data {
    /// The values as a document.
    pub open spec fn body_model(&self) -> JsonModel {
        JsonModel::Object(
            data_members(
                text_of(self.target_device_iden),
                text_of(self.address),
                text_of(self.message),
                text_of(self.guid),
                text_of(self.status),
                text_of(self.file_type),
            ),
        )
    }

    /// Writes the values: the fields that are set, and no others.
    pub fn to_json(&self) -> (r: JsonValue)
        ensures
            r@ == self.body_model(),
    {
        let m = no_members();
        let m = put_text(m, "target_device_iden", &self.target_device_iden);
        let m = put_text(m, "address", &self.address);
        let m = put_text(m, "message", &self.message);
        let m = put_text(m, "guid", &self.guid);
        let m = put_text(m, "status", &self.status);
        let m = put_text(m, "file_type", &self.file_type);
        assert(members_model(m@) =~= self.body_model()->Object_0);
        JsonValue::object(m)
    }
}

/// The document of an optional `Data`.
pub open spec fn data_model(data: Option<Data>) -> Option<JsonModel> {
    match data {
        Some(d) => Some(d.body_model()),
        None => None,
    }
}

/// The body that creates a text message.
#[derive(Debug, Clone, PartialEq)]
pub struct CreateRequest {
    /// The values that specify the message.
    pub data: Option<Data>,
    /// Where an image to send with the message can be fetched.
    pub file_url: Option<String>,
    /// Whether the attached file is kept when the text is deleted.
    pub skip_delete_file: Option<bool>,
}

/// The fields that the body of a new text message may hold.
pub open spec fn create_schema_model() -> Seq<(Seq<char>, Kind)> {
    Seq::empty().push(("data"@, Kind::Object)).push(("file_url"@, Kind::Text)).push(
        ("skip_delete_file"@, Kind::Flag),
    )
}

impl CreateRequest {
    /// The body as a document: `data`, `file_url`, `skip_delete_file`, each where set.
    pub open spec fn body_model(&self) -> JsonModel {
        JsonModel::Object(
            value_member("data"@, data_model(self.data)) + text_member(
                "file_url"@,
                text_of(self.file_url),
            ) + flag_member("skip_delete_file"@, self.skip_delete_file),
        )
    }

    /// Writes the body: the fields that are set, and no others.
    pub fn to_json(&self) -> (r: JsonValue)
        ensures
            r@ == self.body_model(),
    {
        let m = no_members();
        let m = match &self.data {
            Some(d) => put_value(m, "data", d.to_json()),
            None => m,
        };
        let m = put_text(m, "file_url", &self.file_url);
        let m = put_flag(m, "skip_delete_file", self.skip_delete_file);
        assert(members_model(m@) =~= self.body_model()->Object_0);
        JsonValue::object(m)
    }

    /// The fields that the body may hold, each with its kind.
    pub fn schema() -> (r: Schema)
        ensures
            r@ == create_schema_model(),
    {
        Schema::new().with("data", Kind::Object).with("file_url", Kind::Text).with(
            "skip_delete_file",
            Kind::Flag,
        )
    }
}

/// The body that updates a text message.
#[derive(Debug, Clone, PartialEq)]
pub struct UpdateRequest {
    /// The values that specify the message.
    pub data: Option<Data>,
    /// Whether the attached file is kept when the text is deleted.
    pub skip_delete_file: Option<bool>,
}

/// The fields that the body of an update of a text message may hold.
pub open spec fn update_schema_model() -> Seq<(Seq<char>, Kind)> {
    Seq::empty().push(("data"@, Kind::Object)).push(("skip_delete_file"@, Kind::Flag))
}

impl UpdateRequest {
    /// The body as a document: `data` and `skip_delete_file`, each where set.
    pub open spec fn body_model(&self) -> JsonModel {
        JsonModel::Object(
            value_member("data"@, data_model(self.data)) + flag_member(
                "skip_delete_file"@,
                self.skip_delete_file,
            ),
        )
    }

    /// Writes the body: the fields that are set, and no others.
    pub fn to_json(&self) -> (r: JsonValue)
        ensures
            r@ == self.body_model(),
    {
        let m = no_members();
        let m = match &self.data {
            Some(d) => put_value(m, "data", d.to_json()),
            None => m,
        };
        let m = put_flag(m, "skip_delete_file", self.skip_delete_file);
        assert(members_model(m@) =~= self.body_model()->Object_0);
        JsonValue::object(m)
    }

    /// The fields that the body may hold, each with its kind.
    pub fn schema() -> (r: Schema)
        ensures
            r@ == update_schema_model(),
    {
        Schema::new().with("data", Kind::Object).with("skip_delete_file", Kind::Flag)
    }
}

/// What can be done with text messages.
#[derive(Debug, Clone, PartialEq)]
pub enum TextCommands {
    /// Create a new text.
    Create {
        target_device_iden: Option<String>,
        address: Option<String>,
        message: Option<String>,
        guid: Option<String>,
        status: Option<String>,
        file_type: Option<String>,
        file_url: Option<String>,
        skip_delete_file: Option<bool>,
        /// Raw JSON to send in place of the fields.
        data_binary: Option<String>,
    },
    /// Update a text.
    Update {
        iden: String,
        target_device_iden: Option<String>,
        address: Option<String>,
        message: Option<String>,
        guid: Option<String>,
        status: Option<String>,
        file_type: Option<String>,
        skip_delete_file: Option<bool>,
        /// Raw JSON to send in place of the fields.
        data_binary: Option<String>,
    },
    /// Delete a text.
    Delete { iden: String },
}

impl TextCommands {
    /// The request that the command stands for. Raw JSON, where given, is the whole
    /// body; otherwise the body holds a `data` object with the message's fields that
    /// are set, and beside it the other fields that are set.
    pub open spec fn expected(&self) -> Result<DescriptorModel, BuildFault> {
        match self {
            TextCommands::Create {
                target_device_iden,
                address,
                message,
                guid,
                status,
                file_type,
                file_url,
                skip_delete_file,
                data_binary,
            } => with_body(
                Method::Post,
                texts_address(),
                match data_binary {
                    Some(raw) => override_body(raw@, create_schema_model()),
                    None => Ok(
                        BodyModel::Json(
                            JsonModel::Object(
                                seq![
                                    (
                                        "data"@,
                                        JsonModel::Object(
                                            data_members(
                                                text_of(*target_device_iden),
                                                text_of(*address),
                                                text_of(*message),
                                                text_of(*guid),
                                                text_of(*status),
                                                text_of(*file_type),
                                            ),
                                        ),
                                    ),
                                ] + text_member("file_url"@, text_of(*file_url)) + flag_member(
                                    "skip_delete_file"@,
                                    *skip_delete_file,
                                ),
                            ),
                        ),
                    ),
                },
            ),
            TextCommands::Update {
                iden,
                target_device_iden,
                address,
                message,
                guid,
                status,
                file_type,
                skip_delete_file,
                data_binary,
            } => with_body(
                Method::Post,
                item_address(texts_address(), iden@),
                match data_binary {
                    Some(raw) => override_body(raw@, update_schema_model()),
                    None => Ok(
                        BodyModel::Json(
                            JsonModel::Object(
                                seq![
                                    (
                                        "data"@,
                                        JsonModel::Object(
                                            data_members(
                                                text_of(*target_device_iden),
                                                text_of(*address),
                                                text_of(*message),
                                                text_of(*guid),
                                                text_of(*status),
                                                text_of(*file_type),
                                            ),
                                        ),
                                    ),
                                ] + flag_member("skip_delete_file"@, *skip_delete_file),
                            ),
                        ),
                    ),
                },
            ),
            TextCommands::Delete { iden } => Ok(
                without_body(Method::Delete, item_address(texts_address(), iden@), Seq::empty()),
            ),
        }
    }

    /// Builds the request.
    pub fn build_request(&self) -> (r: Result<RequestDescriptor, BuildError>)
        ensures
            built(r) == self.expected(),
    {
        match self {
            TextCommands::Create {
                target_device_iden,
                address,
                message,
                guid,
                status,
                file_type,
                file_url,
                skip_delete_file,
                data_binary,
            } => {
                let body = match data_binary {
                    Some(raw) => body_of_override(raw.as_str(), &CreateRequest::schema()),
                    None => {
                        let data = Data {
                            target_device_iden: copy_text(target_device_iden),
                            address: copy_text(address),
                            message: copy_text(message),
                            guid: copy_text(guid),
                            status: copy_text(status),
                            file_type: copy_text(file_type),
                        };
                        let request = CreateRequest {
                            data: Some(data),
                            file_url: copy_text(file_url),
                            skip_delete_file: *skip_delete_file,
                        };
                        Ok(Body::Json(request.to_json()))
                    },
                };
                request_with_body(
                    Method::Post,
                    String::from_str("https://api.pushbullet.com/v2/texts"),
                    body,
                )
            },
            TextCommands::Update {
                iden,
                target_device_iden,
                address,
                message,
                guid,
                status,
                file_type,
                skip_delete_file,
                data_binary,
            } => {
                let body = match data_binary {
                    Some(raw) => body_of_override(raw.as_str(), &UpdateRequest::schema()),
                    None => {
                        let data = Data {
                            target_device_iden: copy_text(target_device_iden),
                            address: copy_text(address),
                            message: copy_text(message),
                            guid: copy_text(guid),
                            status: copy_text(status),
                            file_type: copy_text(file_type),
                        };
                        let request = UpdateRequest {
                            data: Some(data),
                            skip_delete_file: *skip_delete_file,
                        };
                        Ok(Body::Json(request.to_json()))
                    },
                };
                request_with_body(
                    Method::Post,
                    item_url("https://api.pushbullet.com/v2/texts", iden.as_str()),
                    body,
                )
            },
            TextCommands::Delete { iden } => Ok(
                request_without_body(
                    Method::Delete,
                    item_url("https://api.pushbullet.com/v2/texts", iden.as_str()),
                    no_query(),
                ),
            ),
        }
    }
}

} // verus!
