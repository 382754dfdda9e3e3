//! The JSON-shaped tree that the codec reads and writes.
//!
//! Every value object encodes to one [`Json`] value and decodes from one.
//! The mathematical model of a tree is [`JsonV`]: the same shape over
//! `Seq<char>` and `Seq` instead of `String` and `Vec`, so that contracts can
//! speak of a tree's exact contents.

use vstd::prelude::*;

use crate::decimal::Decimal;

verus! {

/// One member of a JSON object: a key and the value under it.
#[derive(Debug, PartialEq)]
pub struct JsonField {
    pub key: String,
    pub value: Json,
}

/// A JSON-shaped value: the wire representation that encode produces and
/// decode consumes. Objects keep their members in writing order; decode looks
/// a key up by first match and ignores members it does not know.
#[derive(Debug, PartialEq)]
pub enum Json {
    Null,
    Bool(bool),
    Num(Decimal),
    Str(String),
    Arr(Vec<Json>),
    Obj(Vec<JsonField>),
}

/// The mathematical model of a [`Json`] tree.
pub enum JsonV {
    Null,
    Bool(bool),
    Num(Decimal),
    Str(Seq<char>),
    Arr(Seq<JsonV>),
    Obj(Seq<(Seq<char>, JsonV)>),
}

/// The model of a tree: structurally the same tree over sequences.
pub open spec fn jview(j: Json) -> JsonV
    decreases j,
{
    match j {
        Json::Null => JsonV::Null,
        Json::Bool(b) => JsonV::Bool(b),
        Json::Num(d) => JsonV::Num(d),
        Json::Str(s) => JsonV::Str(s@),
        Json::Arr(items) => JsonV::Arr(elems_view(items@)),
        Json::Obj(fields) => JsonV::Obj(fields_view(fields@)),
    }
}

/// The models of the elements of an array, in order.
pub open spec fn elems_view(items: Seq<Json>) -> Seq<JsonV>
    decreases items,
{
    if items.len() == 0 {
        Seq::<JsonV>::empty()
    } else {
        seq![jview(items.first())] + elems_view(items.drop_first())
    }
}

/// The model of one object member: its key and its value's model.
pub open spec fn jfview(f: JsonField) -> (Seq<char>, JsonV)
    decreases f,
{
    (f.key@, jview(f.value))
}

/// The models of the members of an object, in order.
pub open spec fn fields_view(fields: Seq<JsonField>) -> Seq<(Seq<char>, JsonV)>
    decreases fields,
{
    if fields.len() == 0 {
        Seq::<(Seq<char>, JsonV)>::empty()
    } else {
        seq![jfview(fields.first())] + fields_view(fields.drop_first())
    }
}

/// An array's model has one element per array element, each the element's model.
pub broadcast proof fn lemma_elems_view(items: Seq<Json>)
    ensures
        (#[trigger] elems_view(items)).len() == items.len(),
        forall|i: int| 0 <= i < items.len() ==> elems_view(items)[i] == jview(items[i]),
    decreases items.len(),
{
    if items.len() > 0 {
        lemma_elems_view(items.drop_first());
    }
}

/// Appending an element appends its model.
pub proof fn lemma_elems_view_push(items: Seq<Json>, x: Json)
    ensures
        elems_view(items.push(x)) =~= elems_view(items).push(jview(x)),
{
    lemma_elems_view(items);
    lemma_elems_view(items.push(x));
}

/// An object's model has one member per object member, each the member's model.
pub broadcast proof fn lemma_fields_view(fields: Seq<JsonField>)
    ensures
        (#[trigger] fields_view(fields)).len() == fields.len(),
        forall|i: int| 0 <= i < fields.len() ==> fields_view(fields)[i] == jfview(fields[i]),
    decreases fields.len(),
{
    if fields.len() > 0 {
        lemma_fields_view(fields.drop_first());
    }
}

impl View for Json {
    type V = JsonV;

    open spec fn view(&self) -> JsonV {
        jview(*self)
    }
}

/// The value under the first member of `fields` whose key is `k`, if any.
pub open spec fn spec_get(fields: Seq<(Seq<char>, JsonV)>, k: Seq<char>) -> Option<JsonV>
    decreases fields.len(),
{
    if fields.len() == 0 {
        None
    } else if fields[0].0 == k {
        Some(fields[0].1)
    } else {
        spec_get(fields.drop_first(), k)
    }
}

/// The key `k` looked up in an object tree: `None` when the tree is not an
/// object or has no member named `k`.
pub open spec fn spec_get_obj(j: JsonV, k: Seq<char>) -> Option<JsonV> {
    match j {
        JsonV::Obj(fields) => spec_get(fields, k),
        _ => None,
    }
}

/// The name of a tree's shape, as it appears in type-mismatch errors.
pub open spec fn kind_of(j: JsonV) -> Seq<char> {
    match j {
        JsonV::Null => "null"@,
        JsonV::Bool(_) => "boolean"@,
        JsonV::Num(_) => "number"@,
        JsonV::Str(_) => "string"@,
        JsonV::Arr(_) => "array"@,
        JsonV::Obj(_) => "object"@,
    }
}

impl Json {
    /// The name of this tree's shape.
    pub fn kind(&self) -> (r: &'static str)
        ensures
            r@ == kind_of(self@),
    {
        match self {
            Json::Null => "null",
            Json::Bool(_) => "boolean",
            Json::Num(_) => "number",
            Json::Str(_) => "string",
            Json::Arr(_) => "array",
            Json::Obj(_) => "object",
        }
    }
}

/// Append one member to an object under construction.
pub fn push_field(fields: &mut Vec<JsonField>, key: &str, value: Json)
    ensures
        fields_view(final(fields)@) == fields_view(old(fields)@).push((key@, value@)),
        fields_view(final(fields)@) == fields_view(old(fields)@) + seq![(key@, value@)],
{
    let ghost old_fields = fields@;
    fields.push(JsonField { key: key.to_owned(), value });
    proof {
        lemma_fields_view(old_fields);
        lemma_fields_view(fields@);
        assert(fields_view(fields@) =~= fields_view(old_fields).push(
            (key@, jview(fields@[old_fields.len() as int].value)),
        ));
        assert(fields_view(fields@) =~= fields_view(old_fields) + seq![
            (key@, jview(fields@[old_fields.len() as int].value)),
        ]);
    }
}

impl Json {
    /// Look a key up in an object, first match wins; `None` on a non-object.
    pub fn get<'a>(&'a self, k: &str) -> (r: Option<&'a Json>)
        ensures
            match r {
                Some(v) => spec_get_obj(self@, k@) == Some(v@),
                None => spec_get_obj(self@, k@) is None,
            },
    {
        match self {
            Json::Obj(fields) => {
                let n = fields.len();
                let mut i: usize = 0;
                while i < n
                    invariant
                        n == fields@.len(),
                        i <= n,
                        jview(*self) == JsonV::Obj(fields_view(fields@)),
                        forall|m: int| 0 <= m < i ==> fields@[m].key@ != k@,
                    decreases n - i,
                {
                    if str_eq(fields[i].key.as_str(), k) {
                        proof {
                            lemma_fields_view(fields@);
                            lemma_spec_get_found(fields_view(fields@), k@, i as int);
                        }
                        return Some(&fields[i].value);
                    }
                    i = i + 1;
                }
                proof {
                    lemma_fields_view(fields@);
                    lemma_spec_get_absent(fields_view(fields@), k@);
                }
                None
            },
            _ => None,
        }
    }
}

/// When the first `i` keys differ from `k` and key `i` equals `k`, lookup
/// yields member `i`'s value.
pub proof fn lemma_spec_get_found(fields: Seq<(Seq<char>, JsonV)>, k: Seq<char>, i: int)
    requires
        0 <= i < fields.len(),
        fields[i].0 == k,
        forall|m: int| 0 <= m < i ==> fields[m].0 != k,
    ensures
        spec_get(fields, k) == Some(fields[i].1),
    decreases i,
{
    if i > 0 {
        lemma_spec_get_found(fields.drop_first(), k, i - 1);
    }
}

/// When no key equals `k`, lookup yields `None`.
pub proof fn lemma_spec_get_absent(fields: Seq<(Seq<char>, JsonV)>, k: Seq<char>)
    requires
        forall|m: int| 0 <= m < fields.len() ==> fields[m].0 != k,
    ensures
        spec_get(fields, k) is None,
    decreases fields.len(),
{
    if fields.len() > 0 {
        lemma_spec_get_absent(fields.drop_first(), k);
    }
}

/// Exact string comparison: true just when the two views agree.
pub fn str_eq(a: &str, b: &str) -> (r: bool)
    ensures
        r == (a@ == b@),
{
    let an = a.unicode_len();
    let bn = b.unicode_len();
    if an != bn {
        assert(a@.len() != b@.len());
        return false;
    }
    let mut i: usize = 0;
    while i < an
        invariant
            an == a@.len(),
            bn == b@.len(),
            an == bn,
            i <= an,
            forall|m: int| 0 <= m < i ==> a@[m] == b@[m],
        decreases an - i,
    {
        if a.get_char(i) != b.get_char(i) {
            assert(a@[i as int] != b@[i as int]);
            return false;
        }
        i = i + 1;
    }
    proof {
        assert(a@ =~= b@);
    }
    true
}

} // verus!
