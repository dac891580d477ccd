use vstd::prelude::*;
use crate::decode::{parse_json, parsed_document};
use crate::json::{number_of, text_of, JsonModel, JsonValue};
use crate::schema::{meets_schema, Kind, Schema};
use crate::text::{decimal, decimal_text, truth_text, truth_word};

verus! {

/// The HTTP method of a request.
#[derive(Debug, Clone, Copy, PartialEq, Eq)]
pub enum Method {
    Get,
    Post,
    Delete,
}

/// What a request carries: nothing, a JSON document, or a file sent as one part of a
/// multipart form.
#[derive(Debug, PartialEq)]
pub enum Body {
    Absent,
    Json(JsonValue),
    File { field: String, path: String },
}

/// Mathematical model of a `Body`.
pub enum BodyModel {
    Absent,
    Json(JsonModel),
    File { field: Seq<char>, path: Seq<char> },
}

impl View for Body {
    type V = BodyModel;

    open spec fn view(&self) -> BodyModel {
        match self {
            Body::Absent => BodyModel::Absent,
            Body::Json(document) => BodyModel::Json(document@),
            Body::File { field, path } => BodyModel::File { field: field@, path: path@ },
        }
    }
}

/// One outbound HTTP request, fully described: nothing is left for the transport to
/// decide but the authentication header.
#[derive(Debug, PartialEq)]
pub struct RequestDescriptor {
    pub method: Method,
    pub url: String,
    pub query: Vec<(String, String)>,
    pub body: Body,
}

/// Mathematical model of a `RequestDescriptor`.
pub struct DescriptorModel {
    pub method: Method,
    pub url: Seq<char>,
    pub query: Seq<(Seq<char>, Seq<char>)>,
    pub body: BodyModel,
}

/// The pairs of a query, as texts.
pub open spec fn pairs_model(pairs: Seq<(String, String)>) -> Seq<(Seq<char>, Seq<char>)> {
    Seq::new(pairs.len(), |i: int| (pairs[i].0@, pairs[i].1@))
}

impl View for RequestDescriptor {
    type V = DescriptorModel;

    open spec fn view(&self) -> DescriptorModel {
        DescriptorModel {
            method: self.method,
            url: self.url@,
            query: pairs_model(self.query@),
            body: self.body@,
        }
    }
}

/// Why no request could be built.
#[derive(Debug, PartialEq)]
pub enum BuildError {
    /// The raw JSON given in place of the fields cannot serve as the body; the text
    /// says why.
    MalformedOverride(String),
    /// A field that the request cannot do without is unset; the text names it.
    MissingRequiredField(String),
}

/// Mathematical model of a `BuildError`: the kind, and the name of a missing field.
pub enum BuildFault {
    MalformedOverride,
    MissingRequiredField(Seq<char>),
}

impl View for BuildError {
    type V = BuildFault;

    open spec fn view(&self) -> BuildFault {
        match self {
            BuildError::MalformedOverride(_) => BuildFault::MalformedOverride,
            BuildError::MissingRequiredField(name) => BuildFault::MissingRequiredField(name@),
        }
    }
}

/// The outcome of building a request, as models.
pub open spec fn built(r: Result<RequestDescriptor, BuildError>) -> Result<DescriptorModel, BuildFault> {
    match r {
        Ok(descriptor) => Ok(descriptor@),
        Err(error) => Err(error@),
    }
}

/// The outcome of settling a body, as models.
pub open spec fn settled(r: Result<Body, BuildError>) -> Result<BodyModel, BuildFault> {
    match r {
        Ok(body) => Ok(body@),
        Err(error) => Err(error@),
    }
}

/// The body that a raw JSON text stands for under a schema: the document read from it,
/// whole and unchanged, where it can be read and meets the schema.
pub open spec fn override_body(text: Seq<char>, schema: Seq<(Seq<char>, Kind)>) -> Result<BodyModel, BuildFault> {
    match parsed_document(text) {
        Some(document) => if meets_schema(document, schema) {
            Ok(BodyModel::Json(document))
        } else {
            Err(BuildFault::MalformedOverride)
        },
        None => Err(BuildFault::MalformedOverride),
    }
}

/// The pair that a string field contributes to a query: none where the field is unset,
/// the text itself otherwise.
pub open spec fn text_pair(key: Seq<char>, value: Option<Seq<char>>) -> Seq<(Seq<char>, Seq<char>)> {
    match value {
        Some(s) => seq![(key, s)],
        None => seq![],
    }
}

/// The pair that an integer field contributes to a query: none where the field is
/// unset, the number in decimal otherwise.
pub open spec fn number_pair(key: Seq<char>, value: Option<int>) -> Seq<(Seq<char>, Seq<char>)> {
    match value {
        Some(n) => seq![(key, decimal(n))],
        None => seq![],
    }
}

/// The pair that a boolean field contributes to a query: none where the field is
/// unset, `true` or `false` otherwise.
pub open spec fn flag_pair(key: Seq<char>, value: Option<bool>) -> Seq<(Seq<char>, Seq<char>)> {
    match value {
        Some(b) => seq![(key, truth_word(b))],
        None => seq![],
    }
}

/// The value that a query gives to a key: that of its first pair with the key.
pub open spec fn param(query: Seq<(Seq<char>, Seq<char>)>, key: Seq<char>) -> Option<Seq<char>>
    decreases query.len(),
{
    if query.len() == 0 {
        None
    } else if query[0].0 == key {
        Some(query[0].1)
    } else {
        param(query.drop_first(), key)
    }
}

/// Adds a string field to a query: nothing where the field is unset.
pub fn add_text_pair(query: Vec<(String, String)>, key: &str, value: &Option<String>) -> (r: Vec<
    (String, String),
>)
    ensures
        pairs_model(r@) == pairs_model(query@) + text_pair(key@, text_of(*value)),
{
    let mut r = query;
    match value {
        Some(s) => {
            r.push((String::from_str(key), s.clone()));
        },
        None => {},
    }
    assert(pairs_model(r@) =~= pairs_model(query@) + text_pair(key@, text_of(*value)));
    r
}

/// Adds an integer field to a query: nothing where the field is unset.
pub fn add_number_pair(query: Vec<(String, String)>, key: &str, value: Option<i32>) -> (r: Vec<
    (String, String),
>)
    ensures
        pairs_model(r@) == pairs_model(query@) + number_pair(key@, number_of(value)),
{
    let mut r = query;
    match value {
        Some(n) => {
            r.push((String::from_str(key), decimal_text(n)));
        },
        None => {},
    }
    assert(pairs_model(r@) =~= pairs_model(query@) + number_pair(key@, number_of(value)));
    r
}

/// Adds a boolean field to a query: nothing where the field is unset.
pub fn add_flag_pair(query: Vec<(String, String)>, key: &str, value: Option<bool>) -> (r: Vec<
    (String, String),
>)
    ensures
        pairs_model(r@) == pairs_model(query@) + flag_pair(key@, value),
{
    let mut r = query;
    match value {
        Some(b) => {
            r.push((String::from_str(key), truth_text(b)));
        },
        None => {},
    }
    assert(pairs_model(r@) =~= pairs_model(query@) + flag_pair(key@, value));
    r
}

/// A request that carries the given body, or the reason why there is no body.
pub open spec fn with_body(method: Method, url: Seq<char>, body: Result<BodyModel, BuildFault>) -> Result<
    DescriptorModel,
    BuildFault,
> {
    match body {
        Ok(b) => Ok(DescriptorModel { method, url, query: Seq::empty(), body: b }),
        Err(fault) => Err(fault),
    }
}

/// A request without a body.
pub open spec fn without_body(method: Method, url: Seq<char>, query: Seq<(Seq<char>, Seq<char>)>) -> DescriptorModel {
    DescriptorModel { method, url, query, body: BodyModel::Absent }
}

/// Describes a request that carries a body, where one could be settled.
pub fn request_with_body(method: Method, url: String, body: Result<Body, BuildError>) -> (r: Result<
    RequestDescriptor,
    BuildError,
>)
    ensures
        built(r) == with_body(method, url@, settled(body)),
{
    match body {
        Ok(b) => {
            let query: Vec<(String, String)> = Vec::new();
            assert(pairs_model(query@) =~= Seq::empty());
            Ok(RequestDescriptor { method, url, query, body: b })
        },
        Err(error) => Err(error),
    }
}

/// Describes a request without a body.
pub fn request_without_body(method: Method, url: String, query: Vec<(String, String)>) -> (r:
    RequestDescriptor)
    ensures
        r@ == without_body(method, url@, pairs_model(query@)),
{
    RequestDescriptor { method, url, query, body: Body::Absent }
}

/// A query without parameters.
pub fn no_query() -> (r: Vec<(String, String)>)
    ensures
        pairs_model(r@) == Seq::<(Seq<char>, Seq<char>)>::empty(),
{
    let r: Vec<(String, String)> = Vec::new();
    assert(pairs_model(r@) =~= Seq::empty());
    r
}

/// The address of one item of a collection: the collection's, a slash, the identifier.
pub open spec fn item_address(collection: Seq<char>, iden: Seq<char>) -> Seq<char> {
    collection + seq!['/'] + iden
}

/// Builds the address of one item of a collection.
pub fn item_url(collection: &str, iden: &str) -> (r: String)
    ensures
        r@ == item_address(collection@, iden@),
{
    proof {
        reveal_strlit("/");
        assert("/"@ =~= seq!['/']);
    }
    String::from_str(collection).concat("/").concat(iden)
}

/// Turns what the parser made of a raw JSON text into a body: the document itself
/// where it meets the schema, an error otherwise, with the parser's diagnostic where
/// the parser failed.
pub fn body_of_parsed(parsed: Result<JsonValue, String>, schema: &Schema) -> (r: Result<
    Body,
    BuildError,
>)
    ensures
        match parsed {
            Ok(document) => if meets_schema(document@, schema@) {
                r matches Ok(body) && body@ == BodyModel::Json(document@)
            } else {
                r matches Err(BuildError::MalformedOverride(_))
            },
            Err(diagnostic) => r matches Err(BuildError::MalformedOverride(detail)) && detail@
                == diagnostic@,
        },
{
    match parsed {
        Ok(document) => {
            if schema.accepts(&document) {
                Ok(Body::Json(document))
            } else {
                Err(
                    BuildError::MalformedOverride(
                        String::from_str("the document does not fit the fields of this request"),
                    ),
                )
            }
        },
        Err(diagnostic) => Err(BuildError::MalformedOverride(diagnostic)),
    }
}

/// Reads a raw JSON text as a request body.
pub fn body_of_override(text: &str, schema: &Schema) -> (r: Result<Body, BuildError>)
    ensures
        settled(r) == override_body(text@, schema@),
{
    body_of_parsed(parse_json(text), schema)
}

} // verus!
