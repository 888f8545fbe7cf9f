use vstd::prelude::*;
use crate::text::str_eq;

verus! {

/// A node of a YAML document, as far as configuration checks read it.
/// Tags are dropped; numbers keep their written form.
#[derive(Debug)]
pub enum Yaml {
    Null,
    Bool(bool),
    Number(String),
    String(String),
    Sequence(Vec<Yaml>),
    Mapping(Vec<(Yaml, Yaml)>),
}

/// The text of a string node.
pub open spec fn yaml_str(y: Yaml) -> Option<Seq<char>> {
    match y {
        Yaml::String(s) => Some(s@),
        _ => None,
    }
}

/// The value of the first entry whose key is the string `key`.
pub open spec fn mapping_get(entries: Seq<(Yaml, Yaml)>, key: Seq<char>) -> Option<Yaml>
    decreases entries.len(),
{
    if entries.len() == 0 {
        None
    } else if yaml_str(entries[0].0) == Some(key) {
        Some(entries[0].1)
    } else {
        mapping_get(entries.skip(1), key)
    }
}

/// Looks up the value stored under the string key `key`.
pub fn mapping_lookup<'a>(entries: &'a Vec<(Yaml, Yaml)>, key: &str) -> (r: Option<&'a Yaml>)
    ensures
        match r {
            Some(v) => mapping_get(entries@, key@) == Some(*v),
            None => mapping_get(entries@, key@) is None,
        },
{
    let mut i: usize = 0;
    assert(entries@.skip(0) =~= entries@);
    while i < entries.len()
        invariant
            i <= entries@.len(),
            mapping_get(entries@.skip(i as int), key@) == mapping_get(entries@, key@),
        decreases entries@.len() - i,
    {
        let ghost rest = entries@.skip(i as int);
        assert(rest[0] == entries@[i as int]);
        assert(rest.skip(1) =~= entries@.skip(i + 1));
        let entry = &entries[i];
        match &entry.0 {
            Yaml::String(s) => {
                if str_eq(s.as_str(), key) {
                    return Some(&entry.1);
                }
            },
            _ => {},
        }
        i = i + 1;
    }
    None
}

} // verus!
