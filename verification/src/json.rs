use vstd::prelude::*;
use crate::text::{decimal, decimal_text};

verus! {

/// Mathematical model of a JSON document. A number is held as the text that
/// denotes it; the members of an object keep their order.
pub enum JsonModel {
    Null,
    Bool(bool),
    Number(Seq<char>),
    String(Seq<char>),
    Array(Seq<JsonModel>),
    Object(Seq<(Seq<char>, JsonModel)>),
}

/// A JSON document held as a tree of plain values.
#[derive(Debug, PartialEq)]
pub enum JsonValue {
    Null,
    Bool(bool),
    Number(String),
    String(String),
    Array(Vec<JsonValue>),
    Object(Vec<(String, JsonValue)>),
}

impl JsonValue {
    /// The document that the tree holds.
    pub open spec fn model(&self) -> JsonModel
        decreases self,
    {
        match self {
            JsonValue::Null => JsonModel::Null,
            JsonValue::Bool(b) => JsonModel::Bool(*b),
            JsonValue::Number(n) => JsonModel::Number(n@),
            JsonValue::String(s) => JsonModel::String(s@),
            JsonValue::Array(items) => JsonModel::Array(
                Seq::new(
                    items@.len(),
                    |i: int|
                        if 0 <= i < items@.len() {
                            items@[i].model()
                        } else {
                            JsonModel::Null
                        },
                ),
            ),
            JsonValue::Object(members) => JsonModel::Object(
                Seq::new(
                    members@.len(),
                    |i: int|
                        if 0 <= i < members@.len() {
                            (members@[i].0@, members@[i].1.model())
                        } else {
                            (Seq::empty(), JsonModel::Null)
                        },
                ),
            ),
        }
    }
}

impl View for JsonValue {
    type V = JsonModel;

    open spec fn view(&self) -> JsonModel {
        self.model()
    }
}

/// The members of an object under construction, as the model sees them.
pub open spec fn members_model(members: Seq<(String, JsonValue)>) -> Seq<(Seq<char>, JsonModel)> {
    Seq::new(members.len(), |i: int| (members[i].0@, members[i].1@))
}

/// The items of an array under construction, as the model sees them.
pub open spec fn items_model(items: Seq<JsonValue>) -> Seq<JsonModel> {
    Seq::new(items.len(), |i: int| items[i]@)
}

/// The text of an optional string.
pub open spec fn text_of(value: Option<String>) -> Option<Seq<char>> {
    match value {
        Some(s) => Some(s@),
        None => None,
    }
}

/// The whole number held by an optional `i32`.
pub open spec fn number_of(value: Option<i32>) -> Option<int> {
    match value {
        Some(n) => Some(n as int),
        None => None,
    }
}

/// The member that a string field contributes to a body: none where the field is unset.
pub open spec fn text_member(key: Seq<char>, value: Option<Seq<char>>) -> Seq<(Seq<char>, JsonModel)> {
    match value {
        Some(s) => seq![(key, JsonModel::String(s))],
        None => seq![],
    }
}

/// The member that a boolean field contributes to a body: none where the field is unset.
pub open spec fn flag_member(key: Seq<char>, value: Option<bool>) -> Seq<(Seq<char>, JsonModel)> {
    match value {
        Some(b) => seq![(key, JsonModel::Bool(b))],
        None => seq![],
    }
}

/// The member that an integer field contributes to a body: none where the field is unset.
pub open spec fn number_member(key: Seq<char>, value: Option<int>) -> Seq<(Seq<char>, JsonModel)> {
    match value {
        Some(n) => seq![(key, JsonModel::Number(decimal(n)))],
        None => seq![],
    }
}

/// The member that a nested value contributes to a body: none where there is no value.
pub open spec fn value_member(key: Seq<char>, value: Option<JsonModel>) -> Seq<(Seq<char>, JsonModel)> {
    match value {
        Some(v) => seq![(key, v)],
        None => seq![],
    }
}

/// The value of the first member that has the key.
pub open spec fn first_with_key(members: Seq<(Seq<char>, JsonModel)>, key: Seq<char>) -> Option<JsonModel>
    decreases members.len(),
{
    if members.len() == 0 {
        None
    } else if members[0].0 == key {
        Some(members[0].1)
    } else {
        first_with_key(members.drop_first(), key)
    }
}

impl JsonModel {
    /// The value found under a key: that of the first member with the key where the
    /// document is an object, nothing otherwise.
    pub open spec fn member(self, key: Seq<char>) -> Option<JsonModel> {
        match self {
            JsonModel::Object(members) => first_with_key(members, key),
            _ => None,
        }
    }

    /// The text found under a key, where that member is a string.
    pub open spec fn text_at(self, key: Seq<char>) -> Option<Seq<char>> {
        match self.member(key) {
            Some(JsonModel::String(s)) => Some(s),
            _ => None,
        }
    }
}

/// No member has the key exactly when the search for it finds nothing.
pub proof fn lemma_first_with_key_none(members: Seq<(Seq<char>, JsonModel)>, key: Seq<char>)
    ensures
        first_with_key(members, key) is None <==> forall|i: int|
            0 <= i < members.len() ==> (#[trigger] members[i]).0 != key,
    decreases members.len(),
{
    if members.len() > 0 {
        let rest = members.drop_first();
        lemma_first_with_key_none(rest, key);
        if members[0].0 != key {
            if first_with_key(rest, key) is None {
                assert forall|i: int| 0 <= i < members.len() implies (#[trigger] members[i]).0
                    != key by {
                    if i > 0 {
                        assert(members[i] == rest[i - 1]);
                    }
                }
            } else {
                let j = choose|j: int| 0 <= j < rest.len() && (#[trigger] rest[j]).0 == key;
                assert(members[j + 1] == rest[j]);
            }
        }
    }
}

/// The model of an object is made of the models of its members, in their order.
pub proof fn lemma_object_model(value: JsonValue)
    requires
        value is Object,
    ensures
        value@ == JsonModel::Object(members_model(value->Object_0@)),
{
    let members = value->Object_0;
    assert(value.model()->Object_0 =~= members_model(members@)) by {
        assert forall|i: int| 0 <= i < members@.len() implies value.model()->Object_0[i]
            == members_model(members@)[i] by {
            assert(members@[i].1@ == members@[i].1.model());
        }
    }
}

/// The model of an array is made of the models of its items, in their order.
pub proof fn lemma_array_model(value: JsonValue)
    requires
        value is Array,
    ensures
        value@ == JsonModel::Array(items_model(value->Array_0@)),
{
    let items = value->Array_0;
    assert(value.model()->Array_0 =~= items_model(items@)) by {
        assert forall|i: int| 0 <= i < items@.len() implies value.model()->Array_0[i]
            == items_model(items@)[i] by {
            assert(items@[i]@ == items@[i].model());
        }
    }
}

impl JsonValue {
    /// An object with the given members.
    pub fn object(members: Vec<(String, JsonValue)>) -> (r: JsonValue)
        ensures
            r@ == JsonModel::Object(members_model(members@)),
    {
        let r = JsonValue::Object(members);
        proof {
            lemma_object_model(r);
        }
        r
    }

    /// An array with the given items.
    pub fn array(items: Vec<JsonValue>) -> (r: JsonValue)
        ensures
            r@ == JsonModel::Array(items_model(items@)),
    {
        let r = JsonValue::Array(items);
        proof {
            lemma_array_model(r);
        }
        r
    }

    /// A string value.
    pub fn text(s: &str) -> (r: JsonValue)
        ensures
            r@ == JsonModel::String(s@),
    {
        JsonValue::String(String::from_str(s))
    }

    /// A whole number.
    pub fn number(n: i32) -> (r: JsonValue)
        ensures
            r@ == JsonModel::Number(decimal(n as int)),
    {
        JsonValue::Number(decimal_text(n))
    }

    /// Looks a key up in an object: the value of the first member with that key.
    pub fn get(&self, key: &str) -> (r: Option<&JsonValue>)
        ensures
            match r {
                Some(value) => self@.member(key@) == Some(value@),
                None => self@.member(key@) is None,
            },
    {
        match self {
            JsonValue::Object(members) => {
                let wanted = String::from_str(key);
                let ghost all = members_model(members@);
                proof {
                    lemma_object_model(*self);
                }
                assert(all.skip(0) =~= all);
                let mut i: usize = 0;
                while i < members.len()
                    invariant
                        i <= members.len(),
                        all == members_model(members@),
                        self@ == JsonModel::Object(all),
                        wanted@ == key@,
                        first_with_key(all, key@) == first_with_key(all.skip(i as int), key@),
                    decreases members.len() - i,
                {
                    let ghost rest = all.skip(i as int);
                    assert(rest[0] == all[i as int]);
                    assert(rest.drop_first() =~= all.skip(i + 1));
                    if members[i].0 == wanted {
                        return Some(&members[i].1);
                    }
                    i += 1;
                }
                assert(all.skip(i as int).len() == 0);
                None
            },
            _ => None,
        }
    }

    /// Reads the string found under a key.
    pub fn get_text(&self, key: &str) -> (r: Option<String>)
        ensures
            text_of(r) == self@.text_at(key@),
    {
        match self.get(key) {
            Some(JsonValue::String(s)) => Some(s.clone()),
            _ => None,
        }
    }
}

/// Copies an optional string.
pub fn copy_text(value: &Option<String>) -> (r: Option<String>)
    ensures
        r == *value,
{
    match value {
        Some(s) => Some(s.clone()),
        None => None,
    }
}

/// No members yet.
pub fn no_members() -> (r: Vec<(String, JsonValue)>)
    ensures
        members_model(r@) == Seq::<(Seq<char>, JsonModel)>::empty(),
{
    let r: Vec<(String, JsonValue)> = Vec::new();
    assert(members_model(r@) =~= Seq::empty());
    r
}

/// Adds a string field to the members of a body: nothing where the field is unset.
pub fn put_text(members: Vec<(String, JsonValue)>, key: &str, value: &Option<String>) -> (r: Vec<
    (String, JsonValue),
>)
    ensures
        members_model(r@) == members_model(members@) + text_member(key@, text_of(*value)),
{
    let mut r = members;
    match value {
        Some(s) => {
            r.push((String::from_str(key), JsonValue::String(s.clone())));
        },
        None => {},
    }
    assert(members_model(r@) =~= members_model(members@) + text_member(key@, text_of(*value)));
    r
}

/// Adds a boolean field to the members of a body: nothing where the field is unset.
pub fn put_flag(members: Vec<(String, JsonValue)>, key: &str, value: Option<bool>) -> (r: Vec<
    (String, JsonValue),
>)
    ensures
        members_model(r@) == members_model(members@) + flag_member(key@, value),
{
    let mut r = members;
    match value {
        Some(b) => {
            r.push((String::from_str(key), JsonValue::Bool(b)));
        },
        None => {},
    }
    assert(members_model(r@) =~= members_model(members@) + flag_member(key@, value));
    r
}

/// Adds an integer field to the members of a body: nothing where the field is unset.
pub fn put_number(members: Vec<(String, JsonValue)>, key: &str, value: Option<i32>) -> (r: Vec<
    (String, JsonValue),
>)
    ensures
        members_model(r@) == members_model(members@) + number_member(key@, number_of(value)),
{
    let mut r = members;
    match value {
        Some(n) => {
            r.push((String::from_str(key), JsonValue::number(n)));
        },
        None => {},
    }
    assert(members_model(r@) =~= members_model(members@) + number_member(key@, number_of(value)));
    r
}

/// Adds a member with a given value.
pub fn put_value(members: Vec<(String, JsonValue)>, key: &str, value: JsonValue) -> (r: Vec<
    (String, JsonValue),
>)
    ensures
        members_model(r@) == members_model(members@) + seq![(key@, value@)],
{
    let mut r = members;
    r.push((String::from_str(key), value));
    assert(members_model(r@) =~= members_model(members@) + seq![(key@, value@)]);
    r
}

} // verus!
