//! Objects whose fields are set by name.
use vstd::prelude::*;

use crate::fields::natural;
use crate::fields::text_list;
use crate::fields::text_list_value;
use crate::json::set_field;
use crate::json::Json;
use crate::json::JsonNumber;
use crate::json::JsonTree;
use crate::text::texts;
use crate::text_map::lookup;

verus! {

/// What fields hold, by name; of two fields of one name the first counts.
pub open spec fn members_of(fields: Seq<(String, Json)>) -> Map<Seq<char>, JsonTree> {
    Map::new(|name: Seq<char>| lookup(fields, name) is Some, |name: Seq<char>| lookup(fields, name)->0@)
}

/// An object whose fields are set by name.
#[derive(Debug)]
pub struct Members {
    fields: Vec<(String, Json)>,
}

impl View for Members {
    type V = Map<Seq<char>, JsonTree>;

    closed spec fn view(&self) -> Map<Seq<char>, JsonTree> {
        members_of(self.fields@)
    }
}

impl Members {
    /// Starts from some fields.
    pub fn of(fields: Vec<(String, Json)>) -> (members: Members)
        ensures
            members@ == members_of(fields@),
    {
        Members { fields }
    }

    /// Sets a field, in place of an earlier one of that name.
    pub fn set(self, name: &str, value: Json) -> (after: Members)
        ensures
            after@ == self@.insert(name@, value@),
    {
        let mut after = self;
        set_field(&mut after.fields, name, value);
        proof {
            assert forall|key: Seq<char>| #[trigger]
                members_of(after.fields@).dom().contains(key) == self@.insert(
                    name@,
                    value@,
                ).dom().contains(key) by {
                if key != name@ {
                    assert(lookup(after.fields@, key) == lookup(self.fields@, key));
                }
            }
            assert forall|key: Seq<char>| #[trigger]
                members_of(after.fields@).dom().contains(key) implies members_of(
                after.fields@,
            )[key] == self@.insert(name@, value@)[key] by {
                if key != name@ {
                    assert(lookup(after.fields@, key) == lookup(self.fields@, key));
                }
            }
            assert(after@ =~= self@.insert(name@, value@));
        }
        after
    }

    /// Sets a string.
    pub fn text(self, name: &str, value: &str) -> (after: Members)
        ensures
            after@ == self@.insert(name@, JsonTree::Text(value@)),
    {
        self.set(name, Json::Text(value.to_owned()))
    }

    /// Sets a truth value.
    pub fn bool(self, name: &str, value: bool) -> (after: Members)
        ensures
            after@ == self@.insert(name@, JsonTree::Bool(value)),
    {
        self.set(name, Json::Bool(value))
    }

    /// Sets a count.
    pub fn count(self, name: &str, value: usize) -> (after: Members)
        ensures
            after@ == self@.insert(name@, natural(value as u64)),
    {
        self.set(name, Json::Number(JsonNumber::Natural(value as u64)))
    }

    /// Sets a list of strings.
    pub fn texts(self, name: &str, items: &Vec<String>) -> (after: Members)
        ensures
            after@ == self@.insert(name@, text_list(texts(items@))),
    {
        self.set(name, text_list_value(items))
    }

    /// Returns the object.
    pub fn into_json(self) -> (json: Json)
        ensures
            json matches Json::Object(fields) && members_of(fields@) == self@,
    {
        Json::Object(self.fields)
    }
}

} // verus!
