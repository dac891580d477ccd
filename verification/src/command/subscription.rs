use vstd::prelude::*;
use crate::command::command::PaginationArgs;
use crate::json::{
    copy_text, flag_member, members_model, no_members, put_flag, put_text, text_member, text_of,
    JsonModel, JsonValue,
};
use crate::request::{
    add_flag_pair, add_text_pair, flag_pair, pairs_model, text_pair, body_of_override, built, item_address, item_url, no_query, override_body,
    request_with_body, request_without_body, with_body, without_body, Body, BodyModel,
    BuildError, BuildFault, DescriptorModel, Method, RequestDescriptor,
};
use crate::schema::{Kind, Schema};

verus! {

/// The address of the collection of subscriptions.
pub open spec fn subscriptions_address() -> Seq<char> {
    "https://api.pushbullet.com/v2/subscriptions"@
}

/// What can be done with subscriptions.
#[derive(Debug, Clone, PartialEq)]
pub enum SubscriptionCommands {
    /// Get a list of subscriptions belonging to the current user.
    List(PaginationArgs),
    /// Subscribe to a channel.
    Create {
        channel_tag: Option<String>,
        /// Raw JSON to send in place of the fields.
        data_binary: Option<String>,
    },
    /// Update a subscription.
    Update {
        iden: String,
        muted: Option<bool>,
        /// Raw JSON to send in place of the fields.
        data_binary: Option<String>,
    },
    /// Unsubscribe from a channel.
    Delete { iden: String },
    /// Get information about a channel.
    ChannelInfo {
        /// Tag of the channel to get information for.
        tag: Option<String>,
        /// Whether to leave the recent pushes out.
        no_recent_pushed: Option<bool>,
    },
}

/// The address that information about a channel is had from.
pub open spec fn channel_info_address() -> Seq<char> {
    "https://api.pushbullet.com/v2/channel-info"@
}

/// The body that creates a subscription.
#[derive(Debug, Clone, PartialEq)]
pub struct CreateRequest {
    /// Tag of the channel to subscribe to.
    pub channel_tag: Option<String>,
}

/// The fields that the body of a new subscription may hold.
pub open spec fn create_schema_model() -> Seq<(Seq<char>, Kind)> {
    Seq::empty().push(("channel_tag"@, Kind::Text))
}

impl CreateRequest {
    /// The body as a document.
    pub open spec fn body_model(&self) -> JsonModel {
        JsonModel::Object(text_member("channel_tag"@, text_of(self.channel_tag)))
    }

    /// Writes the body: the field, where it is set.
    pub fn to_json(&self) -> (r: JsonValue)
        ensures
            r@ == self.body_model(),
    {
        let m = no_members();
        let m = put_text(m, "channel_tag", &self.channel_tag);
        assert(members_model(m@) =~= self.body_model()->Object_0);
        JsonValue::object(m)
    }

    /// The fields that the body may hold, each with its kind.
    pub fn schema() -> (r: Schema)
        ensures
            r@ == create_schema_model(),
    {
        Schema::new().with("channel_tag", Kind::Text)
    }
}

/// The body that updates a subscription.
#[derive(Debug, Clone, PartialEq)]
pub struct UpdateRequest {
    /// Whether the subscription is muted.
    pub muted: Option<bool>,
}

/// The fields that the body of an update of a subscription may hold.
pub open spec fn update_schema_model() -> Seq<(Seq<char>, Kind)> {
    Seq::empty().push(("muted"@, Kind::Flag))
}

impl UpdateRequest {
    /// The body as a document.
    pub open spec fn body_model(&self) -> JsonModel {
        JsonModel::Object(flag_member("muted"@, self.muted))
    }

    /// Writes the body: the field, where it is set.
    pub fn to_json(&self) -> (r: JsonValue)
        ensures
            r@ == self.body_model(),
    {
        let m = no_members();
        let m = put_flag(m, "muted", self.muted);
        assert(members_model(m@) =~= self.body_model()->Object_0);
        JsonValue::object(m)
    }

    /// The fields that the body may hold, each with its kind.
    pub fn schema() -> (r: Schema)
        ensures
            r@ == update_schema_model(),
    {
        Schema::new().with("muted", Kind::Flag)
    }
}

impl SubscriptionCommands {
    /// The request that the command stands for. Raw JSON, where given, is the whole
    /// body; otherwise the body holds the fields that are set. Information about a
    /// channel is asked for with `tag` and `no_recent_pushes`, each only where set.
    pub open spec fn expected(&self) -> Result<DescriptorModel, BuildFault> {
        match self {
            SubscriptionCommands::List(args) => Ok(
                without_body(Method::Get, subscriptions_address(), args.query_model()),
            ),
            SubscriptionCommands::Create { channel_tag, data_binary } => with_body(
                Method::Post,
                subscriptions_address(),
                match data_binary {
                    Some(raw) => override_body(raw@, create_schema_model()),
                    None => Ok(
                        BodyModel::Json(JsonModel::Object(text_member("channel_tag"@, text_of(*channel_tag)))),
                    ),
                },
            ),
            SubscriptionCommands::Update { iden, muted, data_binary } => with_body(
                Method::Post,
                item_address(subscriptions_address(), iden@),
                match data_binary {
                    Some(raw) => override_body(raw@, update_schema_model()),
                    None => Ok(BodyModel::Json(JsonModel::Object(flag_member("muted"@, *muted)))),
                },
            ),
            SubscriptionCommands::Delete { iden } => Ok(
                without_body(
                    Method::Delete,
                    item_address(subscriptions_address(), iden@),
                    Seq::empty(),
                ),
            ),
            SubscriptionCommands::ChannelInfo { tag, no_recent_pushed } => Ok(
                without_body(
                    Method::Get,
                    channel_info_address(),
                    text_pair("tag"@, text_of(*tag)) + flag_pair(
                        "no_recent_pushes"@,
                        *no_recent_pushed,
                    ),
                ),
            ),
        }
    }

    /// Builds the request.
    pub fn build_request(&self) -> (r: Result<RequestDescriptor, BuildError>)
        ensures
            built(r) == self.expected(),
    {
        match self {
            SubscriptionCommands::List(args) => Ok(
                request_without_body(
                    Method::Get,
                    String::from_str("https://api.pushbullet.com/v2/subscriptions"),
                    args.to_query(),
                ),
            ),
            SubscriptionCommands::Create { channel_tag, data_binary } => {
                let body = match data_binary {
                    Some(raw) => body_of_override(raw.as_str(), &CreateRequest::schema()),
                    None => Ok(Body::Json(CreateRequest { channel_tag: copy_text(channel_tag) }.to_json())),
                };
                request_with_body(
                    Method::Post,
                    String::from_str("https://api.pushbullet.com/v2/subscriptions"),
                    body,
                )
            },
            SubscriptionCommands::Update { iden, muted, data_binary } => {
                let body = match data_binary {
                    Some(raw) => body_of_override(raw.as_str(), &UpdateRequest::schema()),
                    None => Ok(Body::Json(UpdateRequest { muted: *muted }.to_json())),
                };
                request_with_body(
                    Method::Post,
                    item_url("https://api.pushbullet.com/v2/subscriptions", iden.as_str()),
                    body,
                )
            },
            SubscriptionCommands::Delete { iden } => Ok(
                request_without_body(
                    Method::Delete,
                    item_url("https://api.pushbullet.com/v2/subscriptions", iden.as_str()),
                    no_query(),
                ),
            ),
            SubscriptionCommands::ChannelInfo { tag, no_recent_pushed } => {
                let query = no_query();
                let query = add_text_pair(query, "tag", tag);
                let query = add_flag_pair(query, "no_recent_pushes", *no_recent_pushed);
                assert(pairs_model(query@) =~= text_pair("tag"@, text_of(*tag)) + flag_pair(
                    "no_recent_pushes"@,
                    *no_recent_pushed,
                ));
                Ok(
                    request_without_body(
                        Method::Get,
                        String::from_str("https://api.pushbullet.com/v2/channel-info"),
                        query,
                    ),
                )
            },
        }
    }
}

} // verus!
