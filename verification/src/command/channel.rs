use vstd::prelude::*;
use crate::json::{
    copy_text, flag_member, items_model, members_model, no_members, put_flag, put_text, put_value,
    text_member, text_of, JsonModel, JsonValue,
};
use crate::request::{
    body_of_override, built, override_body, request_with_body, with_body, Body, BodyModel,
    BuildError, BuildFault, DescriptorModel, Method, RequestDescriptor,
};
use crate::schema::{Kind, Schema};

verus! {

/// The address of the collection of channels.
pub open spec fn channels_address() -> Seq<char> {
    "https://api.pushbullet.com/v2/channels"@
}

/// A filter on the posts of a feed: only posts that match are sent on the channel.
#[derive(Debug, Clone, PartialEq)]
pub struct CreateFilter {
    /// Field to match the filter against.
    pub field: Option<String>,
    /// How the value is compared to the field.
    pub operator: Option<String>,
    /// Value to compare to the field.
    pub value: Option<String>,
    /// Whether the result of the filter is inverted.
    pub not: Option<bool>,
    /// Whether upper and lower case count as the same.
    pub ignore_case: Option<bool>,
}

impl CreateFilter {
    /// The filter as a document: each field that is set, under its name, in this order.
    pub open spec fn body_model(&self) -> JsonModel {
        JsonModel::Object(
            text_member("field"@, text_of(self.field)) + text_member(
                "operator"@,
                text_of(self.operator),
            ) + text_member("value"@, text_of(self.value)) + flag_member("not"@, self.not)
                + flag_member("ignore_case"@, self.ignore_case),
        )
    }

    /// Writes the filter: the fields that are set, and no others.
    pub fn to_json(&self) -> (r: JsonValue)
        ensures
            r@ == self.body_model(),
    {
        let m = no_members();
        let m = put_text(m, "field", &self.field);
        let m = put_text(m, "operator", &self.operator);
        let m = put_text(m, "value", &self.value);
        let m = put_flag(m, "not", self.not);
        let m = put_flag(m, "ignore_case", self.ignore_case);
        assert(members_model(m@) =~= self.body_model()->Object_0);
        JsonValue::object(m)
    }
}

/// The documents of a list of filters, in their order.
pub open spec fn filters_model(filters: Seq<CreateFilter>) -> Seq<JsonModel> {
    Seq::new(filters.len(), |i: int| filters[i].body_model())
}

/// The member that the filters contribute to a body: none where there is no filter.
pub open spec fn filters_member(filters: Seq<CreateFilter>) -> Seq<(Seq<char>, JsonModel)> {
    if filters.len() == 0 {
        seq![]
    } else {
        seq![("feed_filters"@, JsonModel::Array(filters_model(filters)))]
    }
}

/// The body that creates a channel.
#[derive(Debug, Clone, PartialEq)]
pub struct CreateRequest {
    /// Globally unique identifier for the channel, chosen by its creator.
    pub tag: Option<String>,
    pub name: Option<String>,
    pub description: Option<String>,
    pub image_url: Option<String>,
    pub website_url: Option<String>,
    /// Address of a feed whose posts are sent on the channel.
    pub feed_url: Option<String>,
    /// Filters on the posts of the feed.
    pub feed_filters: Vec<CreateFilter>,
    /// Whether the creator is subscribed at once.
    pub subscribe: Option<bool>,
}

/// The fields that the body of a new channel may hold.
pub open spec fn create_schema_model() -> Seq<(Seq<char>, Kind)> {
    Seq::empty().push(("tag"@, Kind::Text)).push(("name"@, Kind::Text)).push(
        ("description"@, Kind::Text),
    ).push(("image_url"@, Kind::Text)).push(("website_url"@, Kind::Text)).push(
        ("feed_url"@, Kind::Text),
    ).push(("feed_filters"@, Kind::List)).push(("subscribe"@, Kind::Flag))
}

/// The members of the body that creates a channel: each field that is set, under its
/// name, in this order; the filters only where there is one.
pub open spec fn channel_members(
    tag: Option<Seq<char>>,
    name: Option<Seq<char>>,
    description: Option<Seq<char>>,
    image_url: Option<Seq<char>>,
    website_url: Option<Seq<char>>,
    feed_url: Option<Seq<char>>,
    feed_filters: Seq<CreateFilter>,
    subscribe: Option<bool>,
) -> Seq<(Seq<char>, JsonModel)> {
    text_member("tag"@, tag) + text_member("name"@, name) + text_member(
        "description"@,
        description,
    ) + text_member("image_url"@, image_url) + text_member("website_url"@, website_url)
        + text_member("feed_url"@, feed_url) + filters_member(feed_filters) + flag_member(
        "subscribe"@,
        subscribe,
    )
}

impl CreateRequest {
    /// The body as a document.
    pub open spec fn body_model(&self) -> JsonModel {
        JsonModel::Object(
            channel_members(
                text_of(self.tag),
                text_of(self.name),
                text_of(self.description),
                text_of(self.image_url),
                text_of(self.website_url),
                text_of(self.feed_url),
                self.feed_filters@,
                self.subscribe,
            ),
        )
    }

    /// Writes the body: the fields that are set, and no others.
    pub fn to_json(&self) -> (r: JsonValue)
        ensures
            r@ == self.body_model(),
    {
        let m = no_members();
        let m = put_text(m, "tag", &self.tag);
        let m = put_text(m, "name", &self.name);
        let m = put_text(m, "description", &self.description);
        let m = put_text(m, "image_url", &self.image_url);
        let m = put_text(m, "website_url", &self.website_url);
        let m = put_text(m, "feed_url", &self.feed_url);
        let m = if self.feed_filters.len() > 0 {
            let mut items: Vec<JsonValue> = Vec::new();
            let mut i: usize = 0;
            while i < self.feed_filters.len()
                invariant
                    i <= self.feed_filters.len(),
                    items@.len() == i,
                    forall|j: int| 0 <= j < i ==> (#[trigger] items@[j])@ == self.feed_filters@[j].body_model(),
                decreases self.feed_filters.len() - i,
            {
                items.push(self.feed_filters[i].to_json());
                i += 1;
            }
            assert(items_model(items@) =~= filters_model(self.feed_filters@));
            put_value(m, "feed_filters", JsonValue::array(items))
        } else {
            m
        };
        let m = put_flag(m, "subscribe", self.subscribe);
        assert(members_model(m@) =~= self.body_model()->Object_0);
        JsonValue::object(m)
    }

    /// The fields that the body may hold, each with its kind.
    pub fn schema() -> (r: Schema)
        ensures
            r@ == create_schema_model(),
    {
        Schema::new().with("tag", Kind::Text).with("name", Kind::Text).with(
            "description",
            Kind::Text,
        ).with("image_url", Kind::Text).with("website_url", Kind::Text).with(
            "feed_url",
            Kind::Text,
        ).with("feed_filters", Kind::List).with("subscribe", Kind::Flag)
    }
}

/// What can be done with channels.
#[derive(Debug, Clone, PartialEq)]
pub enum ChannelCommands {
    /// Create a channel.
    Create {
        tag: Option<String>,
        name: Option<String>,
        description: Option<String>,
        image_url: Option<String>,
        website_url: Option<String>,
        feed_url: Option<String>,
        subscribe: Option<bool>,
        /// Raw JSON to send in place of the fields.
        data_binary: Option<String>,
    },
}

impl ChannelCommands {
    /// The request that the command stands for. Raw JSON, where given, is the whole
    /// body; otherwise the body holds the fields that are set, and no filter.
    pub open spec fn expected(&self) -> Result<DescriptorModel, BuildFault> {
        match self {
            ChannelCommands::Create {
                tag,
                name,
                description,
                image_url,
                website_url,
                feed_url,
                subscribe,
                data_binary,
            } => with_body(
                Method::Post,
                channels_address(),
                match data_binary {
                    Some(raw) => override_body(raw@, create_schema_model()),
                    None => Ok(
                        BodyModel::Json(
                            JsonModel::Object(
                                channel_members(
                                    text_of(*tag),
                                    text_of(*name),
                                    text_of(*description),
                                    text_of(*image_url),
                                    text_of(*website_url),
                                    text_of(*feed_url),
                                    Seq::empty(),
                                    *subscribe,
                                ),
                            ),
                        ),
                    ),
                },
            ),
        }
    }

    /// Builds the request.
    pub fn build_request(&self) -> (r: Result<RequestDescriptor, BuildError>)
        ensures
            built(r) == self.expected(),
    {
        match self {
            ChannelCommands::Create {
                tag,
                name,
                description,
                image_url,
                website_url,
                feed_url,
                subscribe,
                data_binary,
            } => {
                let body = match data_binary {
                    Some(raw) => body_of_override(raw.as_str(), &CreateRequest::schema()),
                    None => {
                        let request = CreateRequest {
                            tag: copy_text(tag),
                            name: copy_text(name),
                            description: copy_text(description),
                            image_url: copy_text(image_url),
                            website_url: copy_text(website_url),
                            feed_url: copy_text(feed_url),
                            feed_filters: Vec::new(),
                            subscribe: *subscribe,
                        };
                        assert(request.feed_filters@ =~= Seq::empty());
                        Ok(Body::Json(request.to_json()))
                    },
                };
                request_with_body(
                    Method::Post,
                    String::from_str("https://api.pushbullet.com/v2/channels"),
                    body,
                )
            },
        }
    }
}

} // verus!
