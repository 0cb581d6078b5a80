//! Records: the nested key-value input a rule is evaluated against.
//!
//! The host's native structure is converted once, at the embedding boundary,
//! into this recursive tree; attribute resolution then traverses only these
//! nodes and never foreign objects.  The engine reads records and never
//! writes them.

use vstd::prelude::*;
use vstd::string::*;
use crate::ast::{SpecValue, Value};
use crate::errors::AttributeTypeError;
use crate::utils::{join_keys, keys_views};

verus! {

/// One node of a record: either a scalar leaf or a nested mapping.
#[derive(Debug)]
pub enum RecordNode {
    Leaf(Value),
    Nested(Record),
}

/// A record: named entries, looked up front-first so that the entry set most
/// recently written wins.
#[derive(Debug)]
pub struct Record {
    pub entries: Vec<(String, RecordNode)>,
}

/// Front-first lookup of a key among record entries.
pub open spec fn spec_lookup(entries: Seq<(String, RecordNode)>, key: Seq<char>) -> Option<
    RecordNode,
>
    decreases entries.len(),
{
    if entries.len() == 0 {
        None
    } else if entries[0].0@ == key {
        Some(entries[0].1)
    } else {
        spec_lookup(entries.drop_first(), key)
    }
}

/// The view of an optional scalar result.
pub open spec fn opt_value_view(o: Option<Value>) -> Option<SpecValue> {
    match o {
        Some(v) => Some(v@),
        None => None,
    }
}

/// Traversal of a record node along a key path.
///
/// * all keys consumed on a leaf: the scalar is found;
/// * all keys consumed on a nested mapping: `Err`, the node cannot convert
///   to a scalar;
/// * a key left over on a leaf, or a key absent from a mapping: the value is
///   simply missing (`Ok(None)`).
pub open spec fn spec_get_value(node: RecordNode, keys: Seq<Seq<char>>) -> Result<
    Option<Value>,
    (),
>
    decreases keys.len(),
{
    if keys.len() == 0 {
        match node {
            RecordNode::Leaf(v) => Ok(Some(v)),
            RecordNode::Nested(_) => Err(()),
        }
    } else {
        match node {
            RecordNode::Leaf(_) => Ok(None),
            RecordNode::Nested(r) => match spec_lookup(r.entries@, keys[0]) {
                None => Ok(None),
                Some(child) => spec_get_value(child, keys.drop_first()),
            },
        }
    }
}

impl Record {
    /// An empty record.
    pub fn new() -> (r: Record)
        ensures
            r.entries@ =~= Seq::<(String, RecordNode)>::empty(),
    {
        Record { entries: Vec::new() }
    }

    /// Binds a key to a node.  The new entry stands in front, so it shadows
    /// any earlier entry of the same name.
    pub fn set_item(&mut self, key: &str, node: RecordNode)
        ensures
            final(self).entries@.len() == old(self).entries@.len() + 1,
            final(self).entries@[0].0@ == key@,
            final(self).entries@[0].1 == node,
            final(self).entries@.drop_first() =~= old(self).entries@,
    {
        self.entries.insert(0, (String::from_str(key), node));
    }

    /// Finds the entry bound to `key`, if any.
    pub fn get_entry(&self, key: &str) -> (r: Option<&RecordNode>)
        ensures
            match spec_lookup(self.entries@, key@) {
                Some(n) => r matches Some(p) && *p == n,
                None => r is None,
            },
    {
        proof {
            assert(self.entries@.subrange(0, self.entries@.len() as int) =~= self.entries@);
        }
        let mut j: usize = 0;
        while j < self.entries.len()
            invariant
                j <= self.entries@.len(),
                spec_lookup(self.entries@, key@) == spec_lookup(
                    self.entries@.subrange(j as int, self.entries@.len() as int),
                    key@,
                ),
            decreases self.entries@.len() - j,
        {
            proof {
                let tail = self.entries@.subrange(j as int, self.entries@.len() as int);
                assert(tail[0] == self.entries@[j as int]);
                assert(tail.drop_first() =~= self.entries@.subrange(
                    j + 1 as int,
                    self.entries@.len() as int,
                ));
            }
            if crate::utils::str_equal(self.entries[j].0.as_str(), key) {
                return Some(&self.entries[j].1);
            }
            j = j + 1;
        }
        proof {
            assert(self.entries@.subrange(j as int, self.entries@.len() as int).len() == 0);
        }
        None
    }
}

/// The verified core of record traversal: walks the keys between positions
/// `i` and `end` down the node tree.
fn node_get(node: &RecordNode, keys: &Vec<String>, i: usize, end: usize) -> (r: Result<
    Option<Value>,
    (),
>)
    requires
        i <= end <= keys@.len(),
    ensures
        match spec_get_value(*node, keys_views(keys@).subrange(i as int, end as int)) {
            Ok(o) => r matches Ok(ro) && opt_value_view(ro) == opt_value_view(o),
            Err(()) => r is Err,
        },
    decreases end - i,
{
    let ghost kv = keys_views(keys@).subrange(i as int, end as int);
    if i == end {
        proof {
            assert(kv.len() == 0);
        }
        match node {
            RecordNode::Leaf(v) => Ok(Some(v.clone())),
            RecordNode::Nested(_) => Err(()),
        }
    } else {
        proof {
            assert(kv.len() > 0);
            assert(kv[0] == keys@[i as int]@);
            assert(kv.drop_first() =~= keys_views(keys@).subrange(i + 1 as int, end as int));
        }
        match node {
            RecordNode::Leaf(_) => Ok(None),
            RecordNode::Nested(rec) => {
                match rec.get_entry(keys[i].as_str()) {
                    None => Ok(None),
                    Some(child) => node_get(child, keys, i + 1, end),
                }
            },
        }
    }
}

/// Gets a possibly nested scalar out of a record, following the first `end`
/// keys of the path.
///
/// Returns the value when the key path leads to a leaf, `Ok(None)` when
/// some key is missing along the way, and an `AttributeTypeError` when the
/// path ends on a nested mapping that cannot convert to a scalar.
pub fn get_value_from_record_prefix(record: &Record, keys: &Vec<String>, end: usize) -> (r: Result<
    Option<Value>,
    AttributeTypeError,
>)
    requires
        end <= keys@.len(),
    ensures
        match spec_get_value(RecordNode::Nested(*record), keys_views(keys@).subrange(
            0,
            end as int,
        )) {
            Ok(o) => r matches Ok(ro) && opt_value_view(ro) == opt_value_view(o),
            Err(()) => r is Err,
        },
{
    let ghost kv = keys_views(keys@).subrange(0, end as int);
    if end == 0 {
        proof {
            assert(kv.len() == 0);
        }
        let path = join_keys(keys);
        return Err(
            AttributeTypeError::new(
                path.as_str(),
                "mapping",
                "mapping",
                "mapping",
                "scalar value",
            ),
        );
    }
    proof {
        assert(kv.len() > 0);
        assert(kv[0] == keys@[0]@);
        assert(kv.drop_first() =~= keys_views(keys@).subrange(1 as int, end as int));
    }
    match record.get_entry(keys[0].as_str()) {
        None => Ok(None),
        Some(child) => {
            match node_get(child, keys, 1, end) {
                Ok(o) => Ok(o),
                Err(()) => {
                    let path = join_keys(keys);
                    Err(
                        AttributeTypeError::new(
                            path.as_str(),
                            "mapping",
                            "mapping",
                            "mapping",
                            "scalar value",
                        ),
                    )
                },
            }
        },
    }
}

/// Gets a possibly nested scalar out of a record, following the whole key
/// path.
pub fn get_value_from_record(record: &Record, keys: &Vec<String>) -> (r: Result<
    Option<Value>,
    AttributeTypeError,
>)
    ensures
        match spec_get_value(RecordNode::Nested(*record), keys_views(keys@)) {
            Ok(o) => r matches Ok(ro) && opt_value_view(ro) == opt_value_view(o),
            Err(()) => r is Err,
        },
{
    let end = keys.len();
    proof {
        assert(keys_views(keys@).subrange(0, end as int) =~= keys_views(keys@));
    }
    get_value_from_record_prefix(record, keys, end)
}

} // verus!
