//! Structured operator evidence.
use vstd::prelude::*;

use crate::amount::Amount;
use crate::text::same_text;
use crate::text_map::lookup;
use crate::text_map::lookup_at;
use crate::text_map::lookup_none;

verus! {

/// A JSON number.
#[derive(Clone, Copy, Debug, PartialEq, Eq, Structural)]
pub enum JsonNumber {
    /// A natural number.
    Natural(u64),
    /// A negative integer.
    Negative(i64),
    /// Any other number.
    Float(Amount),
}

/// A JSON value.
#[derive(Debug)]
pub enum Json {
    /// `null`.
    Null,
    /// A truth value.
    Bool(bool),
    /// A number.
    Number(JsonNumber),
    /// A string.
    Text(String),
    /// An array.
    List(Vec<Json>),
    /// An object, as its fields in order.
    Object(Vec<(String, Json)>),
}

/// The contents of a JSON value.
pub enum JsonTree {
    /// `null`.
    Null,
    /// A truth value.
    Bool(bool),
    /// A number.
    Number(JsonNumber),
    /// A string.
    Text(Seq<char>),
    /// An array.
    List(Seq<JsonTree>),
    /// An object, as its fields in order.
    Object(Seq<(Seq<char>, JsonTree)>),
}

/// What a JSON value holds.
pub open spec fn tree(value: Json) -> JsonTree
    decreases value,
{
    match value {
        Json::Null => JsonTree::Null,
        Json::Bool(flag) => JsonTree::Bool(flag),
        Json::Number(number) => JsonTree::Number(number),
        Json::Text(text) => JsonTree::Text(text@),
        Json::List(items) => JsonTree::List(
            Seq::new(
                items@.len(),
                |i: int|
                    if 0 <= i < items@.len() {
                        tree(items@[i])
                    } else {
                        JsonTree::Null
                    },
            ),
        ),
        Json::Object(fields) => JsonTree::Object(
            Seq::new(
                fields@.len(),
                |i: int|
                    if 0 <= i < fields@.len() {
                        (fields@[i].0@, tree(fields@[i].1))
                    } else {
                        (Seq::empty(), JsonTree::Null)
                    },
            ),
        ),
    }
}

impl View for Json {
    type V = JsonTree;

    open spec fn view(&self) -> JsonTree {
        tree(*self)
    }
}

impl Json {
    /// The value of a field.
    pub open spec fn field(self, name: Seq<char>) -> Option<Json> {
        match self {
            Json::Object(fields) => lookup(fields@, name),
            _ => None,
        }
    }

    /// The characters of a string.
    pub open spec fn text(self) -> Option<Seq<char>> {
        match self {
            Json::Text(text) => Some(text@),
            _ => None,
        }
    }

    /// The characters of a string field.
    pub open spec fn text_field(self, name: Seq<char>) -> Option<Seq<char>> {
        match self.field(name) {
            Some(value) => value.text(),
            None => None,
        }
    }

    /// The value of a natural-number field.
    pub open spec fn number_field(self, name: Seq<char>) -> Option<u64> {
        match self.field(name) {
            Some(Json::Number(JsonNumber::Natural(value))) => Some(value),
            _ => None,
        }
    }

    /// The items of an array field.
    pub open spec fn list_field(self, name: Seq<char>) -> Option<Seq<Json>> {
        match self.field(name) {
            Some(Json::List(items)) => Some(items@),
            _ => None,
        }
    }

    /// Returns the value of a field.
    pub fn get(&self, name: &str) -> (value: Option<&Json>)
        ensures
            match value {
                Some(found) => self.field(name@) == Some(*found),
                None => self.field(name@) is None,
            },
    {
        match self {
            Json::Object(fields) => {
                for i in 0..fields.len()
                    invariant
                        self.field(name@) == lookup(fields@, name@),
                        forall|k: int| 0 <= k < i ==> (#[trigger] fields@[k]).0@ != name@,
                {
                    if same_text(fields[i].0.as_str(), name) {
                        proof {
                            lookup_at(fields@, name@, i as int);
                        }
                        return Some(&fields[i].1);
                    }
                }
                proof {
                    lookup_none(fields@, name@);
                }
                None
            },
            _ => None,
        }
    }

    /// Returns the characters of a string.
    pub fn as_str(&self) -> (text: Option<&str>)
        ensures
            match text {
                Some(found) => self.text() == Some(found@),
                None => self.text() is None,
            },
    {
        match self {
            Json::Text(text) => Some(text.as_str()),
            _ => None,
        }
    }

    /// Returns the characters of a string field.
    pub fn get_str(&self, name: &str) -> (text: Option<&str>)
        ensures
            match text {
                Some(found) => self.text_field(name@) == Some(found@),
                None => self.text_field(name@) is None,
            },
    {
        match self.get(name) {
            Some(value) => value.as_str(),
            None => None,
        }
    }

    /// Returns the characters of a string field as an owned text.
    pub fn get_text(&self, name: &str) -> (text: Option<String>)
        ensures
            crate::text::opt_text(text) == self.text_field(name@),
    {
        match self.get_str(name) {
            Some(text) => Some(text.to_owned()),
            None => None,
        }
    }

    /// Returns whether a string field holds `expected`.
    pub fn field_is(&self, name: &str, expected: &str) -> (same: bool)
        ensures
            same == (self.text_field(name@) == Some(expected@)),
    {
        match self.get_str(name) {
            Some(text) => same_text(text, expected),
            None => false,
        }
    }

    /// Returns the value of a natural-number field.
    pub fn get_number(&self, name: &str) -> (value: Option<u64>)
        ensures
            value == self.number_field(name@),
    {
        match self.get(name) {
            Some(Json::Number(JsonNumber::Natural(value))) => Some(*value),
            _ => None,
        }
    }

    /// Returns the items of an array field.
    pub fn get_list(&self, name: &str) -> (items: Option<&Vec<Json>>)
        ensures
            match items {
                Some(found) => self.list_field(name@) == Some(found@),
                None => self.list_field(name@) is None,
            },
    {
        match self.get(name) {
            Some(Json::List(items)) => Some(items),
            _ => None,
        }
    }
}

impl Json {
    /// Returns a copy.
    pub fn copy(&self) -> (copy: Json)
        ensures
            copy@ == self@,
        decreases self,
    {
        match self {
            Json::Null => Json::Null,
            Json::Bool(flag) => Json::Bool(*flag),
            Json::Number(number) => Json::Number(*number),
            Json::Text(text) => Json::Text(text.clone()),
            Json::List(items) => {
                let mut copies: Vec<Json> = Vec::new();
                let n: usize = items.len();
                for i in 0..n
                    invariant
                        n == items@.len(),
                        *self == Json::List(*items),
                        copies@.len() == i,
                        forall|k: int| 0 <= k < i ==> tree(#[trigger] copies@[k]) == tree(items@[k]),
                {
                    assert(decreases_to!(*self => self->List_0));
                    assert(decreases_to!(*items => items[i as int]));
                    copies.push(items[i].copy());
                }
                let copy = Json::List(copies);
                assert(tree(copy)->List_0 =~= tree(*self)->List_0);
                copy
            },
            Json::Object(fields) => {
                let mut copies: Vec<(String, Json)> = Vec::new();
                let n: usize = fields.len();
                for i in 0..n
                    invariant
                        n == fields@.len(),
                        *self == Json::Object(*fields),
                        copies@.len() == i,
                        forall|k: int|
                            0 <= k < i ==> (#[trigger] copies@[k]).0@ == fields@[k].0@ && tree(
                                copies@[k].1,
                            ) == tree(fields@[k].1),
                {
                    assert(decreases_to!(*self => self->Object_0));
                    assert(decreases_to!(*fields => fields[i as int]));
                    assert(decreases_to!(fields[i as int] => fields[i as int].1));
                    copies.push((fields[i].0.clone(), fields[i].1.copy()));
                }
                let copy = Json::Object(copies);
                assert(tree(copy)->Object_0 =~= tree(*self)->Object_0);
                copy
            },
        }
    }

    /// Returns whether two values hold the same.
    pub fn same_as(&self, other: &Json) -> (same: bool)
        ensures
            same == (self@ == other@),
        decreases self,
    {
        match (self, other) {
            (Json::Null, Json::Null) => true,
            (Json::Bool(left), Json::Bool(right)) => *left == *right,
            (Json::Number(left), Json::Number(right)) => *left == *right,
            (Json::Text(left), Json::Text(right)) => same_text(left.as_str(), right.as_str()),
            (Json::List(left), Json::List(right)) => {
                let n: usize = left.len();
                if n != right.len() {
                    assert(tree(*self)->List_0.len() != tree(*other)->List_0.len());
                    return false;
                }
                for i in 0..n
                    invariant
                        n == left@.len() == right@.len(),
                        *self == Json::List(*left),
                        *other == Json::List(*right),
                        forall|k: int| 0 <= k < i ==> tree(#[trigger] left@[k]) == tree(right@[k]),
                {
                    if !left[i].same_as(&right[i]) {
                        assert(tree(*self)->List_0[i as int] != tree(*other)->List_0[i as int]);
                        return false;
                    }
                }
                assert(tree(*self)->List_0 =~= tree(*other)->List_0);
                true
            },
            (Json::Object(left), Json::Object(right)) => {
                let n: usize = left.len();
                if n != right.len() {
                    assert(tree(*self)->Object_0.len() != tree(*other)->Object_0.len());
                    return false;
                }
                for i in 0..n
                    invariant
                        n == left@.len() == right@.len(),
                        *self == Json::Object(*left),
                        *other == Json::Object(*right),
                        forall|k: int|
                            0 <= k < i ==> (#[trigger] left@[k]).0@ == right@[k].0@ && tree(
                                left@[k].1,
                            ) == tree(right@[k].1),
                {
                    if !same_text(left[i].0.as_str(), right[i].0.as_str()) || !left[i].1.same_as(
                        &right[i].1,
                    ) {
                        assert(tree(*self)->Object_0[i as int] != tree(*other)->Object_0[i as int]);
                        return false;
                    }
                }
                assert(tree(*self)->Object_0 =~= tree(*other)->Object_0);
                true
            },
            _ => false,
        }
    }
}

/// Where the keys agree, and the values under a key do, so do the lookups of that key.
proof fn lookups_agree(a: Seq<(String, Json)>, b: Seq<(String, Json)>, key: Seq<char>)
    requires
        a.len() == b.len(),
        forall|i: int|
            0 <= i < a.len() ==> (#[trigger] a[i]).0@ == b[i].0@ && (a[i].0@ == key ==> a[i].1
                == b[i].1),
    ensures
        lookup(a, key) == lookup(b, key),
    decreases a.len(),
{
    if a.len() > 0 {
        assert(a[0].0@ == b[0].0@);
        assert forall|i: int| 0 <= i < a.drop_first().len() implies (
        #[trigger] a.drop_first()[i]).0@ == b.drop_first()[i].0@ && (a.drop_first()[i].0@ == key
            ==> a.drop_first()[i].1 == b.drop_first()[i].1) by {
            assert(a[i + 1].0@ == b[i + 1].0@);
        }
        lookups_agree(a.drop_first(), b.drop_first(), key);
    }
}

/// A field at the end is found where no earlier one has its name.
proof fn lookup_push(fields: Seq<(String, Json)>, field: (String, Json), key: Seq<char>)
    ensures
        lookup(fields.push(field), key) == match lookup(fields, key) {
            Some(value) => Some(value),
            None => if field.0@ == key {
                Some(field.1)
            } else {
                None
            },
        },
    decreases fields.len(),
{
    let more = fields.push(field);
    if fields.len() == 0 {
        assert(more[0] == field);
        assert(more.drop_first() =~= Seq::<(String, Json)>::empty());
        assert(lookup(Seq::<(String, Json)>::empty(), key) is None);
    } else {
        assert(more[0] == fields[0]);
        assert(more.drop_first() =~= fields.drop_first().push(field));
        lookup_push(fields.drop_first(), field, key);
    }
}

/// Gives a field a value, in place of an earlier one.
pub fn set_field(fields: &mut Vec<(String, Json)>, name: &str, value: Json)
    ensures
        lookup(final(fields)@, name@) == Some(value),
        forall|key: Seq<char>|
            key != name@ ==> #[trigger] lookup(final(fields)@, key) == lookup(old(fields)@, key),
{
    let ghost before = fields@;
    let n: usize = fields.len();
    let mut i: usize = 0;
    while i < n
        invariant
            n == fields@.len(),
            i <= n,
            fields@ == before,
            before == old(fields)@,
            forall|k: int| 0 <= k < i ==> (#[trigger] before[k]).0@ != name@,
        decreases n - i,
    {
        if same_text(fields[i].0.as_str(), name) {
            fields.set(i, (name.to_owned(), value));
            proof {
                lookup_at(fields@, name@, i as int);
                assert forall|key: Seq<char>| key != name@ implies #[trigger] lookup(fields@, key)
                    == lookup(before, key) by {
                    lookups_agree(fields@, before, key);
                }
            }
            return ;
        }
        i += 1;
    }
    fields.push((name.to_owned(), value));
    proof {
        lookup_none(before, name@);
        let field = fields@.last();
        assert(fields@ =~= before.push(field));
        lookup_push(before, field, name@);
        assert forall|key: Seq<char>| key != name@ implies #[trigger] lookup(fields@, key)
            == lookup(before, key) by {
            lookup_push(before, field, key);
        }
    }
}

/// Whether a record is that of a candidate alert: the payload, or the payload as a field, with the
/// type, the severity and the key of the alert.
pub open spec fn is_alert_record(
    record: Json,
    payload: Json,
    alert_type: Seq<char>,
    severity: Seq<char>,
    alert_key: Seq<char>,
) -> bool {
    &&& record is Object
    &&& record.text_field("alert_type"@) == Some(alert_type)
    &&& record.text_field("severity"@) == Some(severity)
    &&& record.text_field("alert_key"@) == Some(alert_key)
    &&& forall|name: Seq<char>|
        name != "alert_type"@ && name != "severity"@ && name != "alert_key"@
            ==> #[trigger] record.field(name) == if payload is Object {
            payload.field(name)
        } else if name == "payload"@ {
            Some(payload)
        } else {
            None
        }
}

/// Returns the record of a candidate alert.
pub fn candidate_alert_record(payload: Json, alert_type: &str, severity: &str, alert_key: String) -> (record: Json)
    ensures
        is_alert_record(record, payload, alert_type@, severity@, alert_key@),
{
    let ghost shown = payload;
    let mut fields: Vec<(String, Json)> = match payload {
        Json::Object(fields) => fields,
        value => {
            let mut fields: Vec<(String, Json)> = Vec::new();
            let ghost none = fields@;
            fields.push(("payload".to_owned(), value));
            proof {
                assert(fields@ =~= none.push(fields@.last()));
                assert forall|name: Seq<char>| #[trigger] lookup(fields@, name) == if name
                    == "payload"@ {
                    Some(value)
                } else {
                    None
                } by {
                    lookup_push(none, fields@.last(), name);
                }
            }
            fields
        },
    };
    let ghost first = fields@;
    proof {
        reveal_strlit("alert_type");
        reveal_strlit("severity");
        reveal_strlit("alert_key");
        assert("alert_type"@.len() == 10 && "severity"@.len() == 8 && "alert_key"@.len() == 9);
    }
    set_field(&mut fields, "alert_type", Json::Text(alert_type.to_owned()));
    set_field(&mut fields, "severity", Json::Text(severity.to_owned()));
    set_field(&mut fields, "alert_key", Json::Text(alert_key));
    let record = Json::Object(fields);
    proof {
        assert(record.field("alert_type"@) == lookup(fields@, "alert_type"@));
        assert forall|name: Seq<char>|
            name != "alert_type"@ && name != "severity"@ && name
                != "alert_key"@ implies #[trigger] record.field(name) == if shown is Object {
            shown.field(name)
        } else if name == "payload"@ {
            Some(shown)
        } else {
            None
        } by {
            assert(lookup(fields@, name) == lookup(first, name));
        }
    }
    record
}

} // verus!
