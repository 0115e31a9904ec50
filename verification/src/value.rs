//! The dynamic tagged value representation exchanged with the host runtime.

use vstd::prelude::*;

use crate::errors::BindingError;

verus! {

/// A key of a host sequence: sequences are ordered mappings whose keys are
/// either integers or byte strings.
#[derive(Debug, PartialEq, Eq)]
pub enum SeqKey {
    IntKey(i64),
    StrKey(Vec<u8>),
}

/// One entry of a host sequence: a key paired with its value cell.
#[derive(Debug, PartialEq, Eq)]
pub struct SeqEntry {
    pub key: SeqKey,
    pub val: ValueCell,
}

/// The host's dynamically tagged value unit.
///
/// Payloads for `Str`, `Sequence`, `Object` and `Resource` belong to the
/// host's reference-counted heap; here they are modelled as plain values,
/// with object and resource payloads carried as opaque handles plus their
/// identity tags. A `Reference` aliases another value slot and is followed
/// exactly one indirection before its tag is inspected.
#[derive(Debug, PartialEq, Eq)]
pub enum ValueCell {
    Null,
    Bool(bool),
    Int(i64),
    /// A host string: a byte sequence.
    Str(Vec<u8>),
    /// An ordered, possibly keyed, list of value cells.
    Sequence(Vec<SeqEntry>),
    /// An opaque handle into the host's object heap plus a class-identity tag.
    Object { handle: u64, class_id: u64 },
    /// An opaque handle with a resource type tag.
    Resource { handle: u64, type_tag: u64 },
    /// An alias to another value cell slot.
    Reference(Box<ValueCell>),
}

impl ValueCell {
    /// Host truthiness of a cell whose tag has already been inspected:
    /// null, numeric zero, the empty string and the empty sequence are
    /// false; everything else is true.
    pub open spec fn spec_truthy(self) -> bool {
        match self {
            ValueCell::Null => false,
            ValueCell::Bool(b) => b,
            ValueCell::Int(i) => i != 0,
            ValueCell::Str(b) => b@.len() != 0,
            ValueCell::Sequence(v) => v@.len() != 0,
            _ => true,
        }
    }

    /// The cell seen after following a `Reference` exactly once.
    pub open spec fn spec_deref(self) -> ValueCell {
        match self {
            ValueCell::Reference(inner) => *inner,
            _ => self,
        }
    }

    /// Follows a `Reference` one indirection; any other tag is returned as is.
    pub fn deref_once(&self) -> (r: &ValueCell)
        ensures
            *r == self.spec_deref(),
    {
        match self {
            ValueCell::Reference(inner) => &**inner,
            _ => self,
        }
    }

    /// Reads a cell as a boolean under host truthiness rules, following a
    /// reference one indirection first. This read never fails.
    pub fn truthy(&self) -> (r: bool)
        ensures
            r == self.spec_deref().spec_truthy(),
    {
        match self.deref_once() {
            ValueCell::Null => false,
            ValueCell::Bool(b) => *b,
            ValueCell::Int(i) => *i != 0,
            ValueCell::Str(b) => b.len() != 0,
            ValueCell::Sequence(v) => v.len() != 0,
            _ => true,
        }
    }
}

/// Copies a byte string, element for element.
pub fn copy_bytes(b: &Vec<u8>) -> (r: Vec<u8>)
    ensures
        r@ == b@,
{
    let mut r: Vec<u8> = Vec::new();
    let mut i: usize = 0;
    while i < b.len()
        invariant
            i <= b.len(),
            r@ == b@.subrange(0, i as int),
        decreases b.len() - i,
    {
        r.push(b[i]);
        i = i + 1;
    }
    proof {
        assert(r@ =~= b@);
    }
    r
}

/// Compares two byte strings for equal contents.
pub fn bytes_eq(a: &Vec<u8>, b: &Vec<u8>) -> (r: bool)
    ensures
        r == (a@ == b@),
{
    if a.len() != b.len() {
        proof {
            assert(a@ != b@);
        }
        return false;
    }
    let mut i: usize = 0;
    while i < a.len()
        invariant
            i <= a.len(),
            a@.len() == b@.len(),
            forall|j: int| 0 <= j < i ==> a@[j] == b@[j],
        decreases a.len() - i,
    {
        if a[i] != b[i] {
            return false;
        }
        i = i + 1;
    }
    proof {
        assert(a@ =~= b@);
    }
    true
}

/// Whether a byte string holds an embedded terminator byte.
pub open spec fn has_nul(s: Seq<u8>) -> bool {
    exists|i: int| 0 <= i < s.len() && s[i] == 0u8
}

/// Converts a declared name into the host's string form: the same bytes
/// followed by one terminator byte. A name with an embedded terminator is
/// rejected with `InvalidName`, never silently truncated.
pub fn to_host_str(b: &Vec<u8>) -> (r: Result<Vec<u8>, BindingError>)
    ensures
        match r {
            Ok(h) => !has_nul(b@) && h@ == b@.push(0u8),
            Err(e) => has_nul(b@) && e == BindingError::InvalidName,
        },
{
    let mut i: usize = 0;
    while i < b.len()
        invariant
            i <= b.len(),
            forall|j: int| 0 <= j < i ==> b@[j] != 0u8,
        decreases b.len() - i,
    {
        if b[i] == 0u8 {
            return Err(BindingError::InvalidName);
        }
        i = i + 1;
    }
    let mut h = copy_bytes(b);
    h.push(0u8);
    proof {
        assert(h@ =~= b@.push(0u8));
    }
    Ok(h)
}

} // verus!
