//! The wire-name table of an enum: variant index to wire string, and the
//! reverse lookup a codec performs when it reads a column value back. The
//! emitted codec matches the stored value against the table front to back,
//! so the model pins the first match. Reading happens on raw bytes, so the
//! byte-level lookup is proved to agree with the string-level one.

use vstd::prelude::*;
use vstd::string::StringSliceAdditionalSpecFns;
use vstd::utf8::encode_utf8;
use vstd::utf8::encode_utf8_decode_utf8;
use crate::strutil::str_eq;

verus! {

/// The index of the first name equal to `value`, if any.
pub open spec fn wire_lookup<T>(names: Seq<T>, value: T) -> Option<int>
    decreases names.len(),
{
    if names.len() == 0 {
        None
    } else if names.first() == value {
        Some(0)
    } else {
        match wire_lookup(names.drop_first(), value) {
            Some(i) => Some(i + 1),
            None => None,
        }
    }
}

/// No two variants share a wire name.
pub open spec fn distinct_names<T>(names: Seq<T>) -> bool {
    forall|i: int, j: int| 0 <= i < j < names.len() ==> names[i] != names[j]
}

/// The byte encodings of the wire names, as the emitted matcher holds them.
pub open spec fn wire_bytes(names: Seq<Seq<char>>) -> Seq<Seq<u8>> {
    names.map_values(|s: Seq<char>| encode_utf8(s))
}

/// A lookup result points at a matching name, and at the first one; a
/// failed lookup means no name matches.
pub proof fn lemma_wire_lookup_sound<T>(names: Seq<T>, value: T)
    ensures
        wire_lookup(names, value) matches Some(i) ==> 0 <= i < names.len() && names[i] == value
            && (forall|k: int| 0 <= k < i ==> names[k] != value),
        wire_lookup(names, value) is None ==> forall|k: int|
            0 <= k < names.len() ==> names[k] != value,
    decreases names.len(),
{
    if names.len() > 0 {
        lemma_wire_lookup_sound(names.drop_first(), value);
        assert forall|k: int| 1 <= k < names.len() implies names.drop_first()[k - 1] == names[k] by {}
    }
}

/// The first matching index is what the lookup returns.
pub proof fn lemma_wire_lookup_finds<T>(names: Seq<T>, value: T, i: int)
    requires
        0 <= i < names.len(),
        names[i] == value,
        forall|k: int| 0 <= k < i ==> names[k] != value,
    ensures
        wire_lookup(names, value) == Some(i),
    decreases names.len(),
{
    if i > 0 {
        assert(names.first() != value);
        lemma_wire_lookup_finds(names.drop_first(), value, i - 1);
    }
}

/// Round trip: when the wire names are distinct, decoding the wire name of
/// a variant yields that variant back.
pub proof fn lemma_wire_round_trip(names: Seq<Seq<char>>, i: int)
    requires
        distinct_names(names),
        0 <= i < names.len(),
    ensures
        wire_lookup(names, names[i]) == Some(i),
{
    lemma_wire_lookup_finds(names, names[i], i);
}

/// Matching on the byte encodings picks the same entry as matching on the
/// strings themselves: the encoding loses nothing.
pub proof fn lemma_byte_lookup_agrees(names: Seq<Seq<char>>, value: Seq<char>)
    ensures
        wire_lookup(wire_bytes(names), encode_utf8(value)) == wire_lookup(names, value),
    decreases names.len(),
{
    if names.len() > 0 {
        encode_utf8_decode_utf8(names.first());
        encode_utf8_decode_utf8(value);
        lemma_byte_lookup_agrees(names.drop_first(), value);
        assert(wire_bytes(names).first() == encode_utf8(names.first()));
        assert(wire_bytes(names).drop_first() =~= wire_bytes(names.drop_first()));
    }
}

/// Round trip at the byte level: when the wire names are distinct, the
/// emitted matcher decodes the stored bytes of a variant to that variant.
pub proof fn lemma_wire_bytes_round_trip(names: Seq<Seq<char>>, i: int)
    requires
        distinct_names(names),
        0 <= i < names.len(),
    ensures
        wire_lookup(wire_bytes(names), encode_utf8(names[i])) == Some(i),
{
    lemma_byte_lookup_agrees(names, names[i]);
    lemma_wire_round_trip(names, i);
}

/// The wire string stored for variant `i` of the table.
pub fn encode_wire_name(names: &Vec<String>, i: usize) -> (r: &String)
    requires
        i < names@.len(),
    ensures
        r@ == names@[i as int]@,
{
    &names[i]
}

/// The variant a stored string decodes to: the first table entry equal to
/// it, or nothing when the string is not a known wire name.
pub fn decode_wire_name(names: &Vec<String>, value: &str) -> (r: Option<usize>)
    ensures
        match r {
            Some(i) => wire_lookup(names.deep_view(), value@) == Some(i as int),
            None => wire_lookup(names.deep_view(), value@) is None,
        },
{
    let mut i: usize = 0;
    while i < names.len()
        invariant
            i <= names@.len(),
            names.deep_view().len() == names@.len(),
            forall|k: int| 0 <= k < names@.len() ==> names.deep_view()[k] == names@[k]@,
            forall|k: int| 0 <= k < i ==> names.deep_view()[k] != value@,
        decreases names@.len() - i,
    {
        if str_eq(names[i].as_str(), value) {
            proof {
                lemma_wire_lookup_finds(names.deep_view(), value@, i as int);
            }
            return Some(i);
        }
        i = i + 1;
    }
    proof {
        lemma_wire_lookup_sound(names.deep_view(), value@);
        let lk = wire_lookup(names.deep_view(), value@);
        if lk is Some {
            assert(names.deep_view()[lk->0] == value@);
        }
    }
    None
}

fn bytes_eq(a: &[u8], b: &[u8]) -> (r: bool)
    ensures
        r == (a@ == b@),
{
    if a.len() != b.len() {
        return false;
    }
    let mut i: usize = 0;
    while i < a.len()
        invariant
            a@.len() == b@.len(),
            i <= a@.len(),
            forall|k: int| 0 <= k < i ==> a@[k] == b@[k],
        decreases a@.len() - i,
    {
        if a[i] != b[i] {
            return false;
        }
        i = i + 1;
    }
    proof {
        assert(a@ =~= b@);
    }
    true
}

/// The variant stored bytes decode to: the first table entry whose byte
/// encoding equals them, as the emitted byte matcher finds it.
pub fn decode_wire_bytes(names: &Vec<String>, bytes: &[u8]) -> (r: Option<usize>)
    ensures
        match r {
            Some(i) => wire_lookup(wire_bytes(names.deep_view()), bytes@) == Some(i as int),
            None => wire_lookup(wire_bytes(names.deep_view()), bytes@) is None,
        },
{
    let mut i: usize = 0;
    while i < names.len()
        invariant
            i <= names@.len(),
            names.deep_view().len() == names@.len(),
            forall|k: int| 0 <= k < names@.len() ==> names.deep_view()[k] == names@[k]@,
            forall|k: int|
                0 <= k < names@.len() ==> wire_bytes(names.deep_view())[k] == encode_utf8(
                    names@[k]@,
                ),
            forall|k: int| 0 <= k < i ==> wire_bytes(names.deep_view())[k] != bytes@,
        decreases names@.len() - i,
    {
        if bytes_eq(names[i].as_str().as_bytes(), bytes) {
            proof {
                lemma_wire_lookup_finds(wire_bytes(names.deep_view()), bytes@, i as int);
            }
            return Some(i);
        }
        i = i + 1;
    }
    proof {
        lemma_wire_lookup_sound(wire_bytes(names.deep_view()), bytes@);
        let lk = wire_lookup(wire_bytes(names.deep_view()), bytes@);
        if lk is Some {
            assert(wire_bytes(names.deep_view())[lk->0] == bytes@);
        }
    }
    None
}

} // verus!
