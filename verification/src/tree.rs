//! The library's own JSON tree.
//!
//! A response body is parsed (see `jsonv`) into this tree of plain values,
//! and the decoder walks it with the verified lookup below. An object's
//! entries are searched by key, first match wins; entries under keys nobody
//! asks for are simply never reached, which is what makes unknown fields
//! harmless to a decode.

use vstd::prelude::*;
use crate::text::str_eq;

verus! {

/// One JSON value. A number is kept exactly as received: a non-negative
/// integer, a negative integer, or any other number as its decimal text,
/// never interpreted.
#[derive(Debug, PartialEq, Eq)]
pub enum Json {
    Null,
    Bool(bool),
    UInt(u64),
    Int(i64),
    Num(String),
    Str(String),
    Arr(Vec<Json>),
    Obj(Vec<(String, Json)>),
}

/// The first value under `key` in an object's entry list.
pub open spec fn entries_get(entries: Seq<(String, Json)>, key: Seq<char>) -> Option<Json>
    decreases entries.len(),
{
    if entries.len() == 0 {
        None
    } else if entries[0].0@ == key {
        Some(entries[0].1)
    } else {
        entries_get(entries.drop_first(), key)
    }
}

/// The value under `key` where the node is an object holding that key;
/// nothing for any other node or any other key.
pub open spec fn doc_get(doc: Json, key: Seq<char>) -> Option<Json> {
    match doc {
        Json::Obj(entries) => entries_get(entries@, key),
        _ => None,
    }
}

impl Json {
    /// Looks `key` up where this node is an object.
    #[verifier::loop_isolation(false)]
    pub fn get<'a>(&'a self, key: &str) -> (r: Option<&'a Json>)
        ensures
            (match r {
                Some(v) => doc_get(*self, key@) == Some(*v),
                None => doc_get(*self, key@) is None,
            }),
    {
        match self {
            Json::Obj(entries) => {
                let mut i: usize = 0;
                proof {
                    assert(entries@.skip(0) =~= entries@);
                }
                while i < entries.len()
                    invariant
                        i <= entries@.len(),
                        entries_get(entries@, key@) == entries_get(
                            entries@.skip(i as int),
                            key@,
                        ),
                    decreases entries@.len() - i,
                {
                    proof {
                        assert(entries@.skip(i as int).len() == entries@.len() - i);
                        assert(entries@.skip(i as int)[0] == entries@[i as int]);
                    }
                    if str_eq(entries[i].0.as_str(), key) {
                        proof {
                            assert(entries_get(entries@.skip(i as int), key@) == Some(
                                entries@[i as int].1,
                            ));
                            assert(doc_get(*self, key@) == Some(entries@[i as int].1));
                        }
                        return Some(&entries[i].1);
                    }
                    proof {
                        assert(entries@.skip(i as int).drop_first() =~= entries@.skip(
                            i as int + 1,
                        ));
                    }
                    i += 1;
                }
                None
            },
            _ => None,
        }
    }
}

} // verus!
