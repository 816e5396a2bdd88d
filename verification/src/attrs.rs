//! The attribute reader: key/value entries extracted from the annotation
//! lists on a type or a variant, and how a configuration value is chosen
//! among them.
//!
//! An annotated item carries zero or more annotation lists, each holding
//! entries in order. A value lookup scans the lists front to back and, inside
//! a list, lets the last entry that carries a value for the key win; the
//! first list that yields a value settles the lookup. A flag lookup asks
//! only whether some entry anywhere carries the key.

use vstd::prelude::*;
use crate::strutil::str_eq;

verus! {

/// One `key` or `key = "value"` entry of an annotation list.
#[derive(Clone, Debug)]
pub struct AttrEntry {
    pub key: String,
    pub value: Option<String>,
}

/// The view of an optional string.
pub open spec fn opt_view(o: Option<String>) -> Option<Seq<char>> {
    match o {
        Some(s) => Some(s@),
        None => None,
    }
}

/// The value a single annotation list gives for a key: the last entry whose
/// key matches and that carries a value.
pub open spec fn entry_value(entries: Seq<AttrEntry>, name: Seq<char>) -> Option<Seq<char>>
    decreases entries.len(),
{
    if entries.len() == 0 {
        None
    } else {
        let last = entries.last();
        if last.key@ == name && last.value is Some {
            Some(last.value->0@)
        } else {
            entry_value(entries.drop_last(), name)
        }
    }
}

/// The value a sequence of annotation lists gives for a key: the first list
/// that yields a value settles it.
pub open spec fn attrs_value(lists: Seq<Vec<AttrEntry>>, name: Seq<char>) -> Option<Seq<char>>
    decreases lists.len(),
{
    if lists.len() == 0 {
        None
    } else {
        match entry_value(lists.first()@, name) {
            Some(v) => Some(v),
            None => attrs_value(lists.drop_first(), name),
        }
    }
}

/// Whether some entry of some list carries the key.
pub open spec fn has_attr(lists: Seq<Vec<AttrEntry>>, name: Seq<char>) -> bool {
    exists|i: int, j: int|
        0 <= i < lists.len() && 0 <= j < lists[i]@.len() && (#[trigger] lists[i]@[j].key)@ == name
}

fn list_value(entries: &Vec<AttrEntry>, name: &str) -> (r: Option<String>)
    ensures
        opt_view(r) == entry_value(entries@, name@),
{
    let mut j: usize = entries.len();
    proof {
        assert(entries@.take(entries@.len() as int) =~= entries@);
    }
    while j > 0
        invariant
            j <= entries@.len(),
            entry_value(entries@, name@) == entry_value(entries@.take(j as int), name@),
        decreases j,
    {
        j = j - 1;
        proof {
            assert(entries@.take(j + 1).last() == entries@[j as int]);
            assert(entries@.take(j + 1).drop_last() =~= entries@.take(j as int));
        }
        let e = &entries[j];
        if str_eq(e.key.as_str(), name) {
            if let Some(v) = &e.value {
                return Some(v.clone());
            }
        }
    }
    None
}

/// Look a key up across the annotation lists of one item.
pub fn attr_value(lists: &Vec<Vec<AttrEntry>>, name: &str) -> (r: Option<String>)
    ensures
        opt_view(r) == attrs_value(lists@, name@),
{
    let mut i: usize = 0;
    proof {
        assert(lists@.skip(0) =~= lists@);
    }
    while i < lists.len()
        invariant
            i <= lists@.len(),
            attrs_value(lists@, name@) == attrs_value(lists@.skip(i as int), name@),
        decreases lists@.len() - i,
    {
        proof {
            assert(lists@.skip(i as int).first() == lists@[i as int]);
            assert(lists@.skip(i as int).drop_first() =~= lists@.skip(i + 1));
        }
        let r = list_value(&lists[i], name);
        if r.is_some() {
            return r;
        }
        i = i + 1;
    }
    None
}

/// Ask whether a flag key is present on one item.
pub fn attr_flag(lists: &Vec<Vec<AttrEntry>>, name: &str) -> (r: bool)
    ensures
        r == has_attr(lists@, name@),
{
    let mut i: usize = 0;
    while i < lists.len()
        invariant
            i <= lists@.len(),
            forall|a: int, b: int|
                0 <= a < i && 0 <= b < lists@[a]@.len() ==> (#[trigger] lists@[a]@[b].key)@
                    != name@,
        decreases lists@.len() - i,
    {
        let entries = &lists[i];
        let mut j: usize = 0;
        while j < entries.len()
            invariant
                j <= entries@.len(),
                entries@ == lists@[i as int]@,
                0 <= i < lists@.len(),
                forall|b: int| 0 <= b < j ==> (#[trigger] entries@[b].key)@ != name@,
            decreases entries@.len() - j,
        {
            if str_eq(entries[j].key.as_str(), name) {
                proof {
                    assert((lists@[i as int]@[j as int].key)@ == name@);
                }
                return true;
            }
            j = j + 1;
        }
        i = i + 1;
    }
    false
}

} // verus!
