use vstd::prelude::*;
use crate::command::command::PaginationArgs;
use crate::json::{
    copy_text, flag_member, members_model, no_members, number_member, number_of, put_flag,
    put_number, put_text, text_member, text_of, JsonModel, JsonValue,
};
use crate::request::{
    body_of_override, built, item_address, item_url, no_query, override_body,
    request_with_body, request_without_body, with_body, without_body, Body, BodyModel,
    BuildError, BuildFault, DescriptorModel, Method, RequestDescriptor,
};
use crate::schema::{Kind, Schema};

verus! {

/// The address of the collection of devices.
pub open spec fn devices_address() -> Seq<char> {
    "https://api.pushbullet.com/v2/devices"@
}

/// The members of the body that describes a device: each field that is set, under its
/// name, in this order.
pub open spec fn device_members(
    nickname: Option<Seq<char>>,
    model: Option<Seq<char>>,
    manufacturer: Option<Seq<char>>,
    push_token: Option<Seq<char>>,
    app_version: Option<int>,
    icon: Option<Seq<char>>,
    has_sms: Option<bool>,
) -> Seq<(Seq<char>, JsonModel)> {
    text_member("nickname"@, nickname) + text_member("model"@, model) + text_member(
        "manufacturer"@,
        manufacturer,
    ) + text_member("push_token"@, push_token) + number_member("app_version"@, app_version)
        + text_member("icon"@, icon) + flag_member("has_sms"@, has_sms)
}

/// The fields that the body of a device may hold.
pub open spec fn device_schema_model() -> Seq<(Seq<char>, Kind)> {
    Seq::empty().push(("nickname"@, Kind::Text)).push(("model"@, Kind::Text)).push(
        ("manufacturer"@, Kind::Text),
    ).push(("push_token"@, Kind::Text)).push(("app_version"@, Kind::Number)).push(
        ("icon"@, Kind::Text),
    ).push(("has_sms"@, Kind::Flag))
}

fn device_schema() -> (r: Schema)
    ensures
        r@ == device_schema_model(),
{
    Schema::new().with("nickname", Kind::Text).with("model", Kind::Text).with(
        "manufacturer",
        Kind::Text,
    ).with("push_token", Kind::Text).with("app_version", Kind::Number).with(
        "icon",
        Kind::Text,
    ).with("has_sms", Kind::Flag)
}

fn device_json(
    nickname: &Option<String>,
    model: &Option<String>,
    manufacturer: &Option<String>,
    push_token: &Option<String>,
    app_version: Option<i32>,
    icon: &Option<String>,
    has_sms: Option<bool>,
) -> (r: JsonValue)
    ensures
        r@ == JsonModel::Object(
            device_members(
                text_of(*nickname),
                text_of(*model),
                text_of(*manufacturer),
                text_of(*push_token),
                number_of(app_version),
                text_of(*icon),
                has_sms,
            ),
        ),
{
    let m = no_members();
    let m = put_text(m, "nickname", nickname);
    let m = put_text(m, "model", model);
    let m = put_text(m, "manufacturer", manufacturer);
    let m = put_text(m, "push_token", push_token);
    let m = put_number(m, "app_version", app_version);
    let m = put_text(m, "icon", icon);
    let m = put_flag(m, "has_sms", has_sms);
    assert(members_model(m@) =~= device_members(
        text_of(*nickname),
        text_of(*model),
        text_of(*manufacturer),
        text_of(*push_token),
        number_of(app_version),
        text_of(*icon),
        has_sms,
    ));
    JsonValue::object(m)
}

/// The body that creates a device.
#[derive(Debug, Clone, PartialEq)]
pub struct CreateRequest {
    /// Name to use when displaying the device.
    pub nickname: Option<String>,
    pub model: Option<String>,
    pub manufacturer: Option<String>,
    /// Platform-specific push token.
    pub push_token: Option<String>,
    /// Version of the application installed on the device.
    pub app_version: Option<i32>,
    pub icon: Option<String>,
    /// Whether the device can send text messages.
    pub has_sms: Option<bool>,
}

impl CreateRequest {
    /// The body as a document.
    pub open spec fn body_model(&self) -> JsonModel {
        JsonModel::Object(
            device_members(
                text_of(self.nickname),
                text_of(self.model),
                text_of(self.manufacturer),
                text_of(self.push_token),
                number_of(self.app_version),
                text_of(self.icon),
                self.has_sms,
            ),
        )
    }

    /// Writes the body: the fields that are set, and no others.
    pub fn to_json(&self) -> (r: JsonValue)
        ensures
            r@ == self.body_model(),
    {
        device_json(
            &self.nickname,
            &self.model,
            &self.manufacturer,
            &self.push_token,
            self.app_version,
            &self.icon,
            self.has_sms,
        )
    }

    /// The fields that the body may hold, each with its kind.
    pub fn schema() -> (r: Schema)
        ensures
            r@ == device_schema_model(),
    {
        device_schema()
    }
}

/// The body that updates a device.
#[derive(Debug, Clone, PartialEq)]
pub struct UpdateRequest {
    /// Name to use when displaying the device.
    pub nickname: Option<String>,
    pub model: Option<String>,
    pub manufacturer: Option<String>,
    /// Platform-specific push token.
    pub push_token: Option<String>,
    /// Version of the application installed on the device.
    pub app_version: Option<i32>,
    pub icon: Option<String>,
    /// Whether the device can send text messages.
    pub has_sms: Option<bool>,
}

impl UpdateRequest {
    /// The body as a document.
    pub open spec fn body_model(&self) -> JsonModel {
        JsonModel::Object(
            device_members(
                text_of(self.nickname),
                text_of(self.model),
                text_of(self.manufacturer),
                text_of(self.push_token),
                number_of(self.app_version),
                text_of(self.icon),
                self.has_sms,
            ),
        )
    }

    /// Writes the body: the fields that are set, and no others.
    pub fn to_json(&self) -> (r: JsonValue)
        ensures
            r@ == self.body_model(),
    {
        device_json(
            &self.nickname,
            &self.model,
            &self.manufacturer,
            &self.push_token,
            self.app_version,
            &self.icon,
            self.has_sms,
        )
    }

    /// The fields that the body may hold, each with its kind.
    pub fn schema() -> (r: Schema)
        ensures
            r@ == device_schema_model(),
    {
        device_schema()
    }
}

/// What can be done with devices.
#[derive(Debug, Clone, PartialEq)]
pub enum DeviceCommands {
    /// Get a list of devices belonging to the current user.
    List(PaginationArgs),
    /// Create a new device.
    Create {
        nickname: Option<String>,
        model: Option<String>,
        manufacturer: Option<String>,
        push_token: Option<String>,
        app_version: Option<i32>,
        icon: Option<String>,
        has_sms: Option<bool>,
        /// Raw JSON to send in place of the fields.
        data_binary: Option<String>,
    },
    /// Update an existing device.
    Update {
        iden: String,
        nickname: Option<String>,
        model: Option<String>,
        manufacturer: Option<String>,
        push_token: Option<String>,
        app_version: Option<i32>,
        icon: Option<String>,
        has_sms: Option<bool>,
        /// Raw JSON to send in place of the fields.
        data_binary: Option<String>,
    },
    /// Delete a device.
    Delete { iden: String },
}

impl DeviceCommands {
    /// The request that the command stands for. Raw JSON, where given, is the whole
    /// body; otherwise the body holds the fields that are set.
    pub open spec fn expected(&self) -> Result<DescriptorModel, BuildFault> {
        match self {
            DeviceCommands::List(args) => Ok(
                without_body(Method::Get, devices_address(), args.query_model()),
            ),
            DeviceCommands::Create {
                nickname,
                model,
                manufacturer,
                push_token,
                app_version,
                icon,
                has_sms,
                data_binary,
            } => with_body(
                Method::Post,
                devices_address(),
                match data_binary {
                    Some(raw) => override_body(raw@, device_schema_model()),
                    None => Ok(
                        BodyModel::Json(
                            JsonModel::Object(
                                device_members(
                                    text_of(*nickname),
                                    text_of(*model),
                                    text_of(*manufacturer),
                                    text_of(*push_token),
                                    number_of(*app_version),
                                    text_of(*icon),
                                    *has_sms,
                                ),
                            ),
                        ),
                    ),
                },
            ),
            DeviceCommands::Update {
                iden,
                nickname,
                model,
                manufacturer,
                push_token,
                app_version,
                icon,
                has_sms,
                data_binary,
            } => with_body(
                Method::Post,
                item_address(devices_address(), iden@),
                match data_binary {
                    Some(raw) => override_body(raw@, device_schema_model()),
                    None => Ok(
                        BodyModel::Json(
                            JsonModel::Object(
                                device_members(
                                    text_of(*nickname),
                                    text_of(*model),
                                    text_of(*manufacturer),
                                    text_of(*push_token),
                                    number_of(*app_version),
                                    text_of(*icon),
                                    *has_sms,
                                ),
                            ),
                        ),
                    ),
                },
            ),
            DeviceCommands::Delete { iden } => Ok(
                without_body(Method::Delete, item_address(devices_address(), iden@), Seq::empty()),
            ),
        }
    }

    /// Builds the request.
    pub fn build_request(&self) -> (r: Result<RequestDescriptor, BuildError>)
        ensures
            built(r) == self.expected(),
    {
        match self {
            DeviceCommands::List(args) => Ok(
                request_without_body(
                    Method::Get,
                    String::from_str("https://api.pushbullet.com/v2/devices"),
                    args.to_query(),
                ),
            ),
            DeviceCommands::Create {
                nickname,
                model,
                manufacturer,
                push_token,
                app_version,
                icon,
                has_sms,
                data_binary,
            } => {
                let body = match data_binary {
                    Some(raw) => body_of_override(raw.as_str(), &CreateRequest::schema()),
                    None => Ok(
                        Body::Json(
                            CreateRequest {
                                nickname: copy_text(nickname),
                                model: copy_text(model),
                                manufacturer: copy_text(manufacturer),
                                push_token: copy_text(push_token),
                                app_version: *app_version,
                                icon: copy_text(icon),
                                has_sms: *has_sms,
                            }.to_json(),
                        ),
                    ),
                };
                request_with_body(
                    Method::Post,
                    String::from_str("https://api.pushbullet.com/v2/devices"),
                    body,
                )
            },
            DeviceCommands::Update {
                iden,
                nickname,
                model,
                manufacturer,
                push_token,
                app_version,
                icon,
                has_sms,
                data_binary,
            } => {
                let body = match data_binary {
                    Some(raw) => body_of_override(raw.as_str(), &UpdateRequest::schema()),
                    None => Ok(
                        Body::Json(
                            UpdateRequest {
                                nickname: copy_text(nickname),
                                model: copy_text(model),
                                manufacturer: copy_text(manufacturer),
                                push_token: copy_text(push_token),
                                app_version: *app_version,
                                icon: copy_text(icon),
                                has_sms: *has_sms,
                            }.to_json(),
                        ),
                    ),
                };
                request_with_body(
                    Method::Post,
                    item_url("https://api.pushbullet.com/v2/devices", iden.as_str()),
                    body,
                )
            },
            DeviceCommands::Delete { iden } => Ok(
                request_without_body(
                    Method::Delete,
                    item_url("https://api.pushbullet.com/v2/devices", iden.as_str()),
                    no_query(),
                ),
            ),
        }
    }
}

} // verus!
