//! YAML documents as plain values, and lookups on them.
use vstd::prelude::*;
use saphyr::LoadableYamlNode;

verus! {

/// A YAML node: a string scalar, a sequence, a mapping (keys and values side by
/// side, in document order), or anything else.
pub enum YamlValue {
    Text(String),
    List(Vec<YamlValue>),
    Mapping(Vec<YamlValue>, Vec<YamlValue>),
    Other,
}

#[verifier::external_type_specification]
#[verifier::external_body]
pub struct ExYamlOwned(saphyr::YamlOwned);

/// The documents that saphyr loads from `text`, or `None` where it reports a scan error.
pub uninterp spec fn yaml_docs_of(text: Seq<char>) -> Option<Seq<YamlValue>>;

/// Relies on saphyr's `LoadableYamlNode::load_from_str`, for `YamlOwned`: the
/// documents of `text` in order, or a scan error.
#[verifier::external_body]
pub(crate) fn load_yaml(text: &str) -> (r: Option<Vec<YamlValue>>)
    ensures
        match r {
            Some(docs) => yaml_docs_of(text@) == Some(docs@),
            None => yaml_docs_of(text@).is_none(),
        },
{
    match saphyr::YamlOwned::load_from_str(text) {
        Ok(docs) => Some(docs.iter().map(yaml_value_from).collect()),
        Err(_) => None,
    }
}

/// Converts a saphyr node, variant for variant, into a `YamlValue`.
#[verifier::external_body]
fn yaml_value_from(node: &saphyr::YamlOwned) -> YamlValue {
    match node {
        saphyr::YamlOwned::Value(saphyr::ScalarOwned::String(s)) => YamlValue::Text(s.clone()),
        saphyr::YamlOwned::Sequence(items) => YamlValue::List(items.iter().map(yaml_value_from).collect()),
        saphyr::YamlOwned::Mapping(m) => YamlValue::Mapping(
            m.keys().map(yaml_value_from).collect(),
            m.values().map(yaml_value_from).collect(),
        ),
        _ => YamlValue::Other,
    }
}

/// The string held by a scalar node.
pub open spec fn text_of(v: YamlValue) -> Option<Seq<char>> {
    match v {
        YamlValue::Text(s) => Some(s@),
        _ => None,
    }
}

/// The value under the first key that is the string `key`.
pub open spec fn lookup_in(keys: Seq<YamlValue>, values: Seq<YamlValue>, key: Seq<char>) -> Option<YamlValue>
    decreases keys.len(),
{
    if keys.len() == 0 || values.len() == 0 {
        None
    } else if text_of(keys[0]) == Some(key) {
        Some(values[0])
    } else {
        lookup_in(keys.drop_first(), values.drop_first(), key)
    }
}

/// The value under `key` in a mapping node; `None` for a node of another kind.
pub open spec fn lookup(v: YamlValue, key: Seq<char>) -> Option<YamlValue> {
    match v {
        YamlValue::Mapping(keys, values) => lookup_in(keys@, values@, key),
        _ => None,
    }
}

impl YamlValue {
    /// The string of a scalar node.
    pub fn as_text(&self) -> (r: Option<&String>)
        ensures
            match r {
                Some(s) => text_of(*self) == Some(s@),
                None => text_of(*self).is_none(),
            },
    {
        match self {
            YamlValue::Text(s) => Some(s),
            _ => None,
        }
    }

    /// The items of a sequence node.
    pub fn as_list(&self) -> (r: Option<&Vec<YamlValue>>)
        ensures
            match r {
                Some(items) => *self == YamlValue::List(*items),
                None => !(*self is List),
            },
    {
        match self {
            YamlValue::List(items) => Some(items),
            _ => None,
        }
    }

    /// The value under `key`, where this node is a mapping.
    pub fn get(&self, key: &str) -> (r: Option<&YamlValue>)
        ensures
            match r {
                Some(v) => lookup(*self, key@) == Some(*v),
                None => lookup(*self, key@).is_none(),
            },
    {
        match self {
            YamlValue::Mapping(keys, values) => {
                let wanted = String::from_str(key);
                let n = if keys.len() < values.len() { keys.len() } else { values.len() };
                let mut i: usize = 0;
                assert(keys@.subrange(0, keys@.len() as int) =~= keys@);
                assert(values@.subrange(0, values@.len() as int) =~= values@);
                while i < n
                    invariant
                        n <= keys.len(),
                        n <= values.len(),
                        n == keys.len() || n == values.len(),
                        i <= n,
                        wanted@ == key@,
                        *self == YamlValue::Mapping(*keys, *values),
                        lookup_in(keys@, values@, key@) == lookup_in(
                            keys@.subrange(i as int, keys@.len() as int),
                            values@.subrange(i as int, values@.len() as int),
                            key@,
                        ),
                    decreases n - i,
                {
                    let ghost ks = keys@.subrange(i as int, keys@.len() as int);
                    let ghost vs = values@.subrange(i as int, values@.len() as int);
                    assert(ks[0] == keys@[i as int]);
                    assert(vs[0] == values@[i as int]);
                    if let YamlValue::Text(s) = &keys[i] {
                        if s.eq(&wanted) {
                            assert(text_of(ks[0]) == Some(key@));
                            assert(ks.len() > 0 && vs.len() > 0);
                            assert(lookup_in(ks, vs, key@) == Some(vs[0]));
                            return Some(&values[i]);
                        }
                    }
                    assert(ks.drop_first() =~= keys@.subrange(i + 1, keys@.len() as int));
                    assert(vs.drop_first() =~= values@.subrange(i + 1, values@.len() as int));
                    i = i + 1;
                }
                None
            },
            _ => None,
        }
    }
}

} // verus!
