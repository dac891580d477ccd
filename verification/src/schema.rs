use vstd::prelude::*;
use crate::json::{lemma_object_model, members_model, JsonModel, JsonValue};

verus! {

/// The kind of value that a field of a request body takes.
#[derive(Debug, Clone, Copy, PartialEq, Eq)]
pub enum Kind {
    Text,
    Flag,
    Number,
    Object,
    List,
}

/// The fields that a resource accepts in a request body, each with its kind.
pub struct Schema {
    pub fields: Vec<(String, Kind)>,
}

impl View for Schema {
    type V = Seq<(Seq<char>, Kind)>;

    open spec fn view(&self) -> Seq<(Seq<char>, Kind)> {
        Seq::new(self.fields@.len(), |i: int| (self.fields@[i].0@, self.fields@[i].1))
    }
}

/// Whether a value may stand in a field of the given kind: `null` may stand in any.
pub open spec fn admits(kind: Kind, value: JsonModel) -> bool {
    value is Null || match kind {
        Kind::Text => value is String,
        Kind::Flag => value is Bool,
        Kind::Number => value is Number,
        Kind::Object => value is Object,
        Kind::List => value is Array,
    }
}

/// The kind that a schema gives to a key: that of its first field with the key.
pub open spec fn kind_of(schema: Seq<(Seq<char>, Kind)>, key: Seq<char>) -> Option<Kind>
    decreases schema.len(),
{
    if schema.len() == 0 {
        None
    } else if schema[0].0 == key {
        Some(schema[0].1)
    } else {
        kind_of(schema.drop_first(), key)
    }
}

/// Whether one member is acceptable: a key that the schema does not know passes.
pub open spec fn member_fits(schema: Seq<(Seq<char>, Kind)>, member: (Seq<char>, JsonModel)) -> bool {
    match kind_of(schema, member.0) {
        Some(kind) => admits(kind, member.1),
        None => true,
    }
}

/// Whether a document may serve as a request body under a schema: it is an object,
/// and each member that the schema knows holds a value of the field's kind.
pub open spec fn meets_schema(document: JsonModel, schema: Seq<(Seq<char>, Kind)>) -> bool {
    match document {
        JsonModel::Object(members) => forall|i: int|
            0 <= i < members.len() ==> member_fits(schema, #[trigger] members[i]),
        _ => false,
    }
}

fn value_admitted(kind: Kind, value: &JsonValue) -> (r: bool)
    ensures
        r == admits(kind, value@),
{
    match value {
        JsonValue::Null => true,
        JsonValue::Bool(_) => matches!(kind, Kind::Flag),
        JsonValue::Number(_) => matches!(kind, Kind::Number),
        JsonValue::String(_) => matches!(kind, Kind::Text),
        JsonValue::Array(_) => matches!(kind, Kind::List),
        JsonValue::Object(_) => matches!(kind, Kind::Object),
    }
}

impl Schema {
    /// A schema with no field.
    pub fn new() -> (r: Schema)
        ensures
            r@ == Seq::<(Seq<char>, Kind)>::empty(),
    {
        let r = Schema { fields: Vec::new() };
        assert(r@ =~= Seq::<(Seq<char>, Kind)>::empty());
        r
    }

    /// Adds a field after those already there.
    pub fn with(self, key: &str, kind: Kind) -> (r: Schema)
        ensures
            r@ == self@.push((key@, kind)),
    {
        let mut fields = self.fields;
        fields.push((String::from_str(key), kind));
        let r = Schema { fields };
        assert(r@ =~= self@.push((key@, kind)));
        r
    }

    /// The kind that the schema gives to a key.
    pub fn kind_for(&self, key: &String) -> (r: Option<Kind>)
        ensures
            r == kind_of(self@, key@),
    {
        let ghost all = self@;
        assert(all.skip(0) =~= all);
        let mut i: usize = 0;
        while i < self.fields.len()
            invariant
                i <= self.fields.len(),
                all == self@,
                kind_of(all, key@) == kind_of(all.skip(i as int), key@),
            decreases self.fields.len() - i,
        {
            let ghost rest = all.skip(i as int);
            assert(rest[0] == all[i as int]);
            assert(rest.drop_first() =~= all.skip(i + 1));
            if self.fields[i].0 == *key {
                return Some(self.fields[i].1);
            }
            i += 1;
        }
        assert(all.skip(i as int).len() == 0);
        None
    }

    /// Decides whether a document may serve as a request body under the schema.
    pub fn accepts(&self, document: &JsonValue) -> (r: bool)
        ensures
            r == meets_schema(document@, self@),
    {
        match document {
            JsonValue::Object(members) => {
                let ghost all = members_model(members@);
                proof {
                    lemma_object_model(*document);
                }
                let mut i: usize = 0;
                while i < members.len()
                    invariant
                        i <= members.len(),
                        all == members_model(members@),
                        document@ == JsonModel::Object(all),
                        forall|j: int| 0 <= j < i ==> member_fits(self@, #[trigger] all[j]),
                    decreases members.len() - i,
                {
                    let fits = match self.kind_for(&members[i].0) {
                        Some(kind) => value_admitted(kind, &members[i].1),
                        None => true,
                    };
                    assert(fits == member_fits(self@, all[i as int]));
                    if !fits {
                        assert(0 <= i < all.len());
                        assert(document@->Object_0 == all);
                        assert(!member_fits(self@, document@->Object_0[i as int]));
                        return false;
                    }
                    i += 1;
                }
                true
            },
            _ => false,
        }
    }
}

} // verus!
