//! The JSONC collaborator: a deserializer that turns raw text into a
//! loosely-typed tree of `serde_json::Value` nodes, plus the ghost model
//! through which the verified code reads that tree.
//!
//! The tree nodes themselves are opaque to the verifier; every fact the rest
//! of the crate knows about them flows through the contracts of the small
//! trusted wrappers below.
use vstd::prelude::*;

verus! {

/// The shape of a tree node as this library reads it: strings, numbers
/// (reduced to their `u64` reading, if they have one), objects with their
/// members in source order, and every other kind of value collapsed into
/// `Other` (the schema only ever rejects those).
pub enum JsonModel {
    Str(Seq<char>),
    Num(Option<u64>),
    Obj(Seq<(Seq<char>, JsonModel)>),
    Other,
}

/// The tree that the JSONC deserializer yields for a text, `None` where the
/// text has no well-formed root value. The deserializer is deterministic, so
/// this is a function of the text alone.
pub uninterp spec fn jsonc_tree_of(s: Seq<char>) -> Option<JsonModel>;

/// What a tree node holds, as far as this library reads it.
pub uninterp spec fn value_model(v: serde_json::Value) -> JsonModel;

/// Declares serde_json::Value so tree nodes can stand in signatures; the
/// verifier sees nothing inside one.
#[verifier::external_type_specification]
#[verifier::external_body]
pub struct ExValue(serde_json::Value);

/// The member of `es` named `key`, if any.
pub open spec fn obj_lookup(es: Seq<(Seq<char>, JsonModel)>, key: Seq<char>) -> Option<JsonModel>
    decreases es.len(),
{
    if es.len() == 0 {
        None
    } else if es[0].0 == key {
        Some(es[0].1)
    } else {
        obj_lookup(es.drop_first(), key)
    }
}

/// The models of a vector of members, in order.
pub open spec fn entries_model(vs: Seq<(String, serde_json::Value)>) -> Seq<
    (Seq<char>, JsonModel),
> {
    vs.map(|i: int, kv: (String, serde_json::Value)| (kv.0@, value_model(kv.1)))
}

/// Relies on biome_deserialize::json::deserialize_from_json_str, reading
/// the text into a loose `serde_json::Value` tree (comments allowed): the
/// result is a function of the text alone, `None` exactly where the root
/// value is malformed; `label` only names the source in diagnostics, which
/// are discarded here.
#[verifier::external_body]
pub(crate) fn parse_jsonc(text: &str, label: &str) -> (r: Option<serde_json::Value>)
    ensures
        r is Some <==> jsonc_tree_of(text@) is Some,
        r is Some ==> value_model(r->0) == jsonc_tree_of(text@)->0,
{
    let options = biome_json_parser::JsonParserOptions::default().with_allow_comments();
    let (value, _diagnostics) = biome_deserialize::json::deserialize_from_json_str::<
        serde_json::Value,
    >(text, options, label).consume();
    value
}

/// Relies on serde_json::Value::as_str: `Some` exactly for a JSON string,
/// handing back its text.
#[verifier::external_body]
pub(crate) fn json_as_str<'a>(v: &'a serde_json::Value) -> (r: Option<&'a str>)
    ensures
        r is Some <==> value_model(*v) is Str,
        r is Some ==> r->0@ == value_model(*v)->Str_0,
{
    v.as_str()
}

/// Relies on serde_json::Value::as_u64: the `u64` reading of a JSON number,
/// `None` for every other kind of value and for numbers outside `u64`.
#[verifier::external_body]
pub(crate) fn json_as_u64(v: &serde_json::Value) -> (r: Option<u64>)
    ensures
        value_model(*v) is Num ==> r == value_model(*v)->Num_0,
        !(value_model(*v) is Num) ==> r is None,
{
    v.as_u64()
}

/// Relies on serde_json::Value::as_object and serde_json::Map::iter: `Some`
/// exactly for a JSON object, handing back its members in source (insertion)
/// order, keys and values cloned unchanged.
#[verifier::external_body]
pub(crate) fn json_obj_entries(v: &serde_json::Value) -> (r: Option<
    Vec<(String, serde_json::Value)>,
>)
    ensures
        r is Some <==> value_model(*v) is Obj,
        r is Some ==> entries_model(r->0@) == value_model(*v)->Obj_0,
{
    v.as_object().map(|m| m.iter().map(|(k, val)| (k.clone(), val.clone())).collect())
}

/// The first member of `entries` named `key`, as `obj_lookup` reads it.
pub(crate) fn entries_lookup<'a>(
    entries: &'a Vec<(String, serde_json::Value)>,
    key: &str,
) -> (r: Option<&'a serde_json::Value>)
    ensures
        match r {
            Some(v) => obj_lookup(entries_model(entries@), key@) == Some(value_model(*v)),
            None => obj_lookup(entries_model(entries@), key@) is None,
        },
{
    let needle: String = key.to_owned();
    let ghost model = entries_model(entries@);
    proof {
        assert(model.skip(0) =~= model);
    }
    let mut i: usize = 0;
    while i < entries.len()
        invariant
            0 <= i <= entries.len(),
            model == entries_model(entries@),
            model.len() == entries@.len(),
            needle@ == key@,
            obj_lookup(model, key@) == obj_lookup(model.skip(i as int), key@),
        decreases entries.len() - i,
    {
        proof {
            assert(model.skip(i as int)[0] == model[i as int]);
            assert(model.skip(i as int).drop_first() =~= model.skip(i as int + 1));
        }
        if entries[i].0 == needle {
            return Some(&entries[i].1);
        }
        i = i + 1;
    }
    proof {
        assert(model.skip(entries@.len() as int) =~= Seq::<(Seq<char>, JsonModel)>::empty());
    }
    None
}

} // verus!
