//! The JSON values that travel as payloads, keys and stored values.

use vstd::prelude::*;
use vstd::string::*;

verus! {

/// A JSON value.
///
/// Numbers are kept apart by kind: `UInt` for non-negative integers, `Int`
/// for negative ones, and `Float` for everything else, held as the IEEE-754
/// bit pattern so that the value passes through unchanged.
#[derive(Debug, PartialEq, Eq)]
pub enum Json {
    Null,
    Bool(bool),
    UInt(u64),
    Int(i64),
    Float(u64),
    Str(String),
    Array(Vec<Json>),
    Object(Vec<(String, Json)>),
}

/// The mathematical value of a [`Json`].
pub enum JsonView {
    Null,
    Bool(bool),
    UInt(u64),
    Int(i64),
    Float(u64),
    Str(Seq<char>),
    Array(Seq<JsonView>),
    Object(Seq<(Seq<char>, JsonView)>),
}

/// The mathematical value of `json`.
pub open spec fn json_view(json: Json) -> JsonView
    decreases json, 0nat,
{
    match json {
        Json::Null => JsonView::Null,
        Json::Bool(b) => JsonView::Bool(b),
        Json::UInt(n) => JsonView::UInt(n),
        Json::Int(n) => JsonView::Int(n),
        Json::Float(bits) => JsonView::Float(bits),
        Json::Str(s) => JsonView::Str(s@),
        Json::Array(items) => JsonView::Array(items_view(items@, items@.len())),
        Json::Object(fields) => JsonView::Object(fields_view(fields@, fields@.len())),
    }
}

/// The values of the first `n` of `items`.
pub open spec fn items_view(items: Seq<Json>, n: nat) -> Seq<JsonView>
    decreases items, n,
{
    if n == 0 || n > items.len() {
        Seq::empty()
    } else {
        items_view(items, (n - 1) as nat).push(json_view(items[n - 1]))
    }
}

/// The names and values of the first `n` of `fields`.
pub open spec fn fields_view(fields: Seq<(String, Json)>, n: nat) -> Seq<(Seq<char>, JsonView)>
    decreases fields, n,
{
    if n == 0 || n > fields.len() {
        Seq::empty()
    } else {
        fields_view(fields, (n - 1) as nat).push((fields[n - 1].0@, json_view(fields[n - 1].1)))
    }
}

impl View for Json {
    type V = JsonView;

    open spec fn view(&self) -> JsonView {
        json_view(*self)
    }
}

/// The values of a list of JSON values.
pub open spec fn item_views(items: Seq<Json>) -> Seq<JsonView> {
    Seq::new(items.len(), |i: int| items[i]@)
}

/// The names and values of a list of fields.
pub open spec fn field_views(fields: Seq<(String, Json)>) -> Seq<(Seq<char>, JsonView)> {
    Seq::new(fields.len(), |i: int| (fields[i].0@, fields[i].1@))
}

proof fn lemma_items_view(items: Seq<Json>, n: nat)
    requires
        n <= items.len(),
    ensures
        items_view(items, n) == item_views(items.take(n as int)),
    decreases n,
{
    if n > 0 {
        lemma_items_view(items, (n - 1) as nat);
        assert(items.take(n as int).drop_last() =~= items.take(n - 1));
    }
    assert(items_view(items, n) =~= item_views(items.take(n as int)));
}

proof fn lemma_fields_view(fields: Seq<(String, Json)>, n: nat)
    requires
        n <= fields.len(),
    ensures
        fields_view(fields, n) == field_views(fields.take(n as int)),
    decreases n,
{
    if n > 0 {
        lemma_fields_view(fields, (n - 1) as nat);
        assert(fields.take(n as int).drop_last() =~= fields.take(n - 1));
    }
    assert(fields_view(fields, n) =~= field_views(fields.take(n as int)));
}

/// The value of an array is the list of the values of its items.
pub proof fn lemma_array_view(items: Vec<Json>)
    ensures
        Json::Array(items)@ == JsonView::Array(item_views(items@)),
{
    lemma_items_view(items@, items@.len());
    assert(items@.take(items@.len() as int) =~= items@);
}

/// The value of an object is the list of its fields' names and values.
pub proof fn lemma_object_view(fields: Vec<(String, Json)>)
    ensures
        Json::Object(fields)@ == JsonView::Object(field_views(fields@)),
{
    lemma_fields_view(fields@, fields@.len());
    assert(fields@.take(fields@.len() as int) =~= fields@);
}

impl Clone for Json {
    #[verifier::loop_isolation(false)]
    fn clone(&self) -> (res: Json)
        ensures
            res@ == self@,
        decreases self,
    {
        match self {
            Json::Null => Json::Null,
            Json::Bool(b) => Json::Bool(*b),
            Json::UInt(n) => Json::UInt(*n),
            Json::Int(n) => Json::Int(*n),
            Json::Float(bits) => Json::Float(*bits),
            Json::Str(s) => Json::Str(s.clone()),
            Json::Array(items) => {
                let mut out: Vec<Json> = Vec::new();
                let mut i: usize = 0;
                while i < items.len()
                    invariant
                        i <= items.len(),
                        out.len() == i,
                        forall|j: int| 0 <= j < i ==> out[j]@ == items[j]@,
                    decreases items.len() - i,
                {
                    out.push(items[i].clone());
                    i += 1;
                }
                proof {
                    lemma_array_view(out);
                    lemma_array_view(*items);
                    assert(item_views(out@) =~= item_views(items@));
                }
                Json::Array(out)
            },
            Json::Object(fields) => {
                let mut out: Vec<(String, Json)> = Vec::new();
                let mut i: usize = 0;
                while i < fields.len()
                    invariant
                        i <= fields.len(),
                        out.len() == i,
                        forall|j: int|
                            0 <= j < i ==> out[j].0@ == fields[j].0@ && out[j].1@ == fields[j].1@,
                    decreases fields.len() - i,
                {
                    out.push((fields[i].0.clone(), fields[i].1.clone()));
                    i += 1;
                }
                proof {
                    lemma_object_view(out);
                    lemma_object_view(*fields);
                    assert(field_views(out@) =~= field_views(fields@));
                }
                Json::Object(out)
            },
        }
    }
}

/// The value of the first field called `name`, if there is one.
pub open spec fn field_of(fields: Seq<(Seq<char>, JsonView)>, name: Seq<char>) -> Option<
    JsonView,
>
    decreases fields.len(),
{
    if fields.len() == 0 {
        None
    } else if fields[0].0 == name {
        Some(fields[0].1)
    } else {
        field_of(fields.drop_first(), name)
    }
}

impl Json {
    /// The number held, if this is a non-negative integer.
    pub fn as_u64(&self) -> (r: Option<u64>)
        ensures
            r == (match self@ {
                JsonView::UInt(n) => Some(n),
                _ => None,
            }),
    {
        match self {
            Json::UInt(n) => Some(*n),
            _ => None,
        }
    }

    /// The items held, if this is an array.
    pub fn as_array(&self) -> (r: Option<&Vec<Json>>)
        ensures
            match self@ {
                JsonView::Array(items) => r matches Some(v) && item_views(v@) == items,
                _ => r is None,
            },
    {
        match self {
            Json::Array(items) => {
                proof {
                    lemma_array_view(*items);
                }
                Some(items)
            },
            _ => None,
        }
    }

    /// The value of the first field called `name`, if this is an object
    /// that has one.
    pub fn field(&self, name: &str) -> (r: Option<&Json>)
        ensures
            match self@ {
                JsonView::Object(fields) => match field_of(fields, name@) {
                    Some(value) => r matches Some(found) && found@ == value,
                    None => r is None,
                },
                _ => r is None,
            },
    {
        match self {
            Json::Object(fields) => {
                proof {
                    lemma_object_view(*fields);
                }
                let wanted = String::from_str(name);
                let ghost all = field_views(fields@);
                let mut i: usize = 0;
                assert(all.skip(0) =~= all);
                while i < fields.len()
                    invariant
                        i <= fields.len(),
                        all == field_views(fields@),
                        self@ == JsonView::Object(all),
                        wanted@ == name@,
                        field_of(all, name@) == field_of(all.skip(i as int), name@),
                    decreases fields.len() - i,
                {
                    assert(all.skip(i as int)[0] == all[i as int]);
                    if fields[i].0 == wanted {
                        return Some(&fields[i].1);
                    }
                    assert(all.skip(i as int).drop_first() =~= all.skip(i + 1));
                    i += 1;
                }
                None
            },
            _ => None,
        }
    }
}

} // verus!
