//! Assembly of JSON objects.
use vstd::prelude::*;

use crate::amount::Amount;
use crate::amount::INFINITY_BITS;
use crate::json::tree;
use crate::json::Json;
use crate::json::JsonNumber;
use crate::json::JsonTree;
use crate::text::opt_text;
use crate::text::slices;
use crate::text::texts;
use crate::text_map::TextMap;

verus! {

/// A field of an object.
pub type FieldTree = (Seq<char>, JsonTree);

/// A string, `null` where it is missing.
pub open spec fn text_or_null(value: Option<Seq<char>>) -> JsonTree {
    match value {
        Some(text) => JsonTree::Text(text),
        None => JsonTree::Null,
    }
}

/// A natural number.
pub open spec fn natural(value: u64) -> JsonTree {
    JsonTree::Number(JsonNumber::Natural(value))
}

/// An integer.
pub open spec fn integer(value: i64) -> JsonTree {
    if value >= 0 {
        JsonTree::Number(JsonNumber::Natural(value as u64))
    } else {
        JsonTree::Number(JsonNumber::Negative(value))
    }
}

/// A natural number, `null` where it is missing.
pub open spec fn natural_or_null(value: Option<u64>) -> JsonTree {
    match value {
        Some(number) => natural(number),
        None => JsonTree::Null,
    }
}

/// An integer, `null` where it is missing.
pub open spec fn integer_or_null(value: Option<i64>) -> JsonTree {
    match value {
        Some(number) => integer(number),
        None => JsonTree::Null,
    }
}

/// A number, `null` where JSON cannot hold it.
pub open spec fn float(value: Amount) -> JsonTree {
    if value.magnitude() < INFINITY_BITS {
        JsonTree::Number(JsonNumber::Float(value))
    } else {
        JsonTree::Null
    }
}

/// A number, `null` where it is missing or JSON cannot hold it.
pub open spec fn float_or_null(value: Option<Amount>) -> JsonTree {
    match value {
        Some(number) => float(number),
        None => JsonTree::Null,
    }
}

/// An array of strings.
pub open spec fn text_list(items: Seq<Seq<char>>) -> JsonTree {
    JsonTree::List(Seq::new(items.len(), |i: int| JsonTree::Text(items[i])))
}

/// Counts as an object.
pub open spec fn counts_tree(counts: Seq<(String, usize)>) -> JsonTree {
    JsonTree::Object(
        Seq::new(counts.len(), |i: int| (counts[i].0@, natural(counts[i].1 as u64))),
    )
}

/// Texts by name, as an object.
pub open spec fn named_texts_tree(items: Seq<(String, String)>) -> JsonTree {
    JsonTree::Object(Seq::new(items.len(), |i: int| (items[i].0@, JsonTree::Text(items[i].1@))))
}

/// A field where there is a value.
pub open spec fn field_if(name: Seq<char>, value: Option<JsonTree>) -> Seq<FieldTree> {
    match value {
        Some(tree) => seq![(name, tree)],
        None => Seq::empty(),
    }
}

/// What some values hold.
pub open spec fn trees(items: Seq<Json>) -> Seq<JsonTree> {
    Seq::new(items.len(), |i: int| items[i]@)
}

/// Returns a number as a value.
pub fn float_value(value: Amount) -> (json: Json)
    ensures
        json@ == float(value),
{
    if value.is_finite() {
        Json::Number(JsonNumber::Float(value))
    } else {
        Json::Null
    }
}

/// Returns an integer as a value.
pub fn integer_value(value: i64) -> (json: Json)
    ensures
        json@ == integer(value),
{
    if value >= 0 {
        Json::Number(JsonNumber::Natural(value as u64))
    } else {
        Json::Number(JsonNumber::Negative(value))
    }
}

/// Returns an array.
pub fn list_value(items: Vec<Json>) -> (json: Json)
    ensures
        json@ == JsonTree::List(trees(items@)),
{
    let json = Json::List(items);
    proof {
        reveal_with_fuel(tree, 2);
        let shown = json@->List_0;
        assert(shown.len() == items@.len());
        assert forall|i: int| 0 <= i < items@.len() implies shown[i] == trees(items@)[i] by {}
        assert(shown =~= trees(items@));
    }
    json
}

/// Returns an array of strings.
pub fn text_list_value(items: &Vec<String>) -> (json: Json)
    ensures
        json@ == text_list(texts(items@)),
{
    let mut values: Vec<Json> = Vec::new();
    let n: usize = items.len();
    for i in 0..n
        invariant
            n == items@.len(),
            values@.len() == i,
            forall|k: int| 0 <= k < i ==> (#[trigger] values@[k])@ == JsonTree::Text(items@[k]@),
    {
        values.push(Json::Text(items[i].clone()));
    }
    proof {
        assert(trees(values@) =~= Seq::new(
            texts(items@).len(),
            |i: int| JsonTree::Text(texts(items@)[i]),
        ));
    }
    list_value(values)
}

/// Returns an array of strings.
pub fn slice_list_value(items: &Vec<&str>) -> (json: Json)
    ensures
        json@ == text_list(slices(items@)),
{
    let mut values: Vec<Json> = Vec::new();
    let n: usize = items.len();
    for i in 0..n
        invariant
            n == items@.len(),
            values@.len() == i,
            forall|k: int| 0 <= k < i ==> (#[trigger] values@[k])@ == JsonTree::Text(items@[k]@),
    {
        values.push(Json::Text(items[i].to_owned()));
    }
    proof {
        assert(trees(values@) =~= Seq::new(
            slices(items@).len(),
            |i: int| JsonTree::Text(slices(items@)[i]),
        ));
    }
    list_value(values)
}

/// Returns counts as an object.
pub fn counts_value(counts: &TextMap<usize>) -> (json: Json)
    ensures
        json@ == counts_tree(counts@),
{
    let mut fields = Fields::new();
    let n: usize = counts.len();
    for i in 0..n
        invariant
            n == counts@.len(),
            fields@ == Seq::new(i as nat, |k: int| (counts@[k].0@, natural(counts@[k].1 as u64))),
    {
        fields = fields.count(counts.key(i), *counts.value(i));
        assert(fields@ =~= Seq::new(
            (i + 1) as nat,
            |k: int| (counts@[k].0@, natural(counts@[k].1 as u64)),
        ));
    }
    fields.into_json()
}

/// Returns texts by name as an object.
pub fn named_texts_value(items: &TextMap<String>) -> (json: Json)
    ensures
        json@ == named_texts_tree(items@),
{
    let mut fields = Fields::new();
    let n: usize = items.len();
    for i in 0..n
        invariant
            n == items@.len(),
            fields@ == Seq::new(i as nat, |k: int| (items@[k].0@, JsonTree::Text(items@[k].1@))),
    {
        fields = fields.text(items.key(i), items.value(i).as_str());
        assert(fields@ =~= Seq::new(
            (i + 1) as nat,
            |k: int| (items@[k].0@, JsonTree::Text(items@[k].1@)),
        ));
    }
    fields.into_json()
}

/// The fields of an object, in order.
#[derive(Debug)]
pub struct Fields {
    entries: Vec<(String, Json)>,
}

impl View for Fields {
    type V = Seq<FieldTree>;

    closed spec fn view(&self) -> Seq<FieldTree> {
        Seq::new(self.entries@.len(), |i: int| (self.entries@[i].0@, self.entries@[i].1@))
    }
}

impl Fields {
    /// No fields.
    pub fn new() -> (fields: Fields)
        ensures
            fields@ == Seq::<FieldTree>::empty(),
    {
        let fields = Fields { entries: Vec::new() };
        assert(fields@ =~= Seq::<FieldTree>::empty());
        fields
    }

    /// Adds a value.
    pub fn json(self, name: &str, value: Json) -> (after: Fields)
        ensures
            after@ == self@.push((name@, value@)),
    {
        let mut after = self;
        after.entries.push((name.to_owned(), value));
        assert(after@ =~= self@.push((name@, value@)));
        after
    }

    /// Adds a string.
    pub fn text(self, name: &str, value: &str) -> (after: Fields)
        ensures
            after@ == self@.push((name@, JsonTree::Text(value@))),
    {
        self.json(name, Json::Text(value.to_owned()))
    }

    /// Adds a string, or `null`.
    pub fn opt_text(self, name: &str, value: &Option<String>) -> (after: Fields)
        ensures
            after@ == self@.push((name@, text_or_null(opt_text(*value)))),
    {
        match value {
            Some(text) => self.json(name, Json::Text(text.clone())),
            None => self.json(name, Json::Null),
        }
    }

    /// Adds a truth value.
    pub fn bool(self, name: &str, value: bool) -> (after: Fields)
        ensures
            after@ == self@.push((name@, JsonTree::Bool(value))),
    {
        self.json(name, Json::Bool(value))
    }

    /// Adds a natural number.
    pub fn natural(self, name: &str, value: u64) -> (after: Fields)
        ensures
            after@ == self@.push((name@, natural(value))),
    {
        self.json(name, Json::Number(JsonNumber::Natural(value)))
    }

    /// Adds a count.
    pub fn count(self, name: &str, value: usize) -> (after: Fields)
        ensures
            after@ == self@.push((name@, natural(value as u64))),
    {
        self.json(name, Json::Number(JsonNumber::Natural(value as u64)))
    }

    /// Adds an integer.
    pub fn integer(self, name: &str, value: i64) -> (after: Fields)
        ensures
            after@ == self@.push((name@, integer(value))),
    {
        self.json(name, integer_value(value))
    }

    /// Adds an integer, or `null`.
    pub fn opt_integer(self, name: &str, value: Option<i64>) -> (after: Fields)
        ensures
            after@ == self@.push((name@, integer_or_null(value))),
    {
        match value {
            Some(number) => self.json(name, integer_value(number)),
            None => self.json(name, Json::Null),
        }
    }

    /// Adds a natural number, or `null`.
    pub fn opt_natural(self, name: &str, value: Option<u64>) -> (after: Fields)
        ensures
            after@ == self@.push((name@, natural_or_null(value))),
    {
        match value {
            Some(number) => self.natural(name, number),
            None => self.json(name, Json::Null),
        }
    }

    /// Adds a number.
    pub fn float(self, name: &str, value: Amount) -> (after: Fields)
        ensures
            after@ == self@.push((name@, float(value))),
    {
        self.json(name, float_value(value))
    }

    /// Adds a number, or `null`.
    pub fn opt_float(self, name: &str, value: Option<Amount>) -> (after: Fields)
        ensures
            after@ == self@.push((name@, float_or_null(value))),
    {
        match value {
            Some(number) => self.float(name, number),
            None => self.json(name, Json::Null),
        }
    }

    /// Adds a list of strings.
    pub fn texts(self, name: &str, items: &Vec<String>) -> (after: Fields)
        ensures
            after@ == self@.push((name@, text_list(texts(items@)))),
    {
        self.json(name, text_list_value(items))
    }

    /// Adds a number where there is one.
    pub fn float_if(self, name: &str, value: Option<Amount>) -> (after: Fields)
        ensures
            after@ == self@ + field_if(
                name@,
                match value {
                    Some(number) => Some(float(number)),
                    None => None,
                },
            ),
    {
        let ghost before = self@;
        match value {
            Some(number) => {
                let after = self.float(name, number);
                assert(after@ =~= before + seq![(name@, float(number))]);
                after
            },
            None => {
                assert(self@ =~= self@ + Seq::<FieldTree>::empty());
                self
            },
        }
    }

    /// Adds a natural number where there is one.
    pub fn natural_if(self, name: &str, value: Option<u64>) -> (after: Fields)
        ensures
            after@ == self@ + field_if(
                name@,
                match value {
                    Some(number) => Some(natural(number)),
                    None => None,
                },
            ),
    {
        let ghost before = self@;
        match value {
            Some(number) => {
                let after = self.natural(name, number);
                assert(after@ =~= before + seq![(name@, natural(number))]);
                after
            },
            None => {
                assert(self@ =~= self@ + Seq::<FieldTree>::empty());
                self
            },
        }
    }

    /// Adds a string where there is one.
    pub fn text_if(self, name: &str, value: Option<&str>) -> (after: Fields)
        ensures
            after@ == self@ + field_if(
                name@,
                match value {
                    Some(text) => Some(JsonTree::Text(text@)),
                    None => None,
                },
            ),
    {
        let ghost before = self@;
        match value {
            Some(text) => {
                let after = self.text(name, text);
                assert(after@ =~= before + seq![(name@, JsonTree::Text(text@))]);
                after
            },
            None => {
                assert(self@ =~= self@ + Seq::<FieldTree>::empty());
                self
            },
        }
    }

    /// Returns the object.
    pub fn into_json(self) -> (json: Json)
        ensures
            json@ == JsonTree::Object(self@),
    {
        let json = Json::Object(self.entries);
        proof {
            reveal_with_fuel(tree, 2);
            let shown = json@->Object_0;
            assert(shown.len() == self@.len());
            assert(shown =~= self@);
        }
        json
    }
}

} // verus!
