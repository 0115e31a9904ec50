//! The conversion engine: reads host value cells as statically typed native
//! values and writes native values back into cells.
//!
//! Numeric coercion: a string converts to an integer only by a full-string
//! parse; a parse with a non-numeric remainder fails with `TypeMismatch`,
//! and a numeral whose value does not fit the target width fails with
//! `OutOfRange`. Boolean reads follow host truthiness and never fail.
//! Nullable targets turn a null cell into the no-value state; every other
//! tag converts as the wrapped kind.

use vstd::prelude::*;

use crate::errors::ConversionError;
use crate::value::{SeqEntry, ValueCell};

verus! {

/// The primitive kinds a conversion can target. An object target carries
/// the expected class-identity tag.
#[derive(Debug, Clone, Copy, PartialEq, Eq, Structural)]
pub enum Kind {
    Bool,
    Int,
    Str,
    Sequence,
    Object(u64),
}

/// The expected type classification of a conversion or of an argument
/// descriptor: a primitive kind, "any", or a nullable-wrapped kind.
#[derive(Debug, Clone, Copy, PartialEq, Eq, Structural)]
pub enum TypeSpec {
    Any,
    Prim(Kind),
    Nullable(Kind),
}

/// A native typed value produced by the conversion engine. `Null` is the
/// no-value state of a nullable target; `Any` carries the cell through
/// unconverted.
#[derive(Debug, PartialEq, Eq)]
pub enum NativeValue {
    Null,
    Bool(bool),
    Int(i64),
    Str(Vec<u8>),
    Sequence(Vec<SeqEntry>),
    Object { handle: u64, class_id: u64 },
    Any(ValueCell),
}

/// Whether a byte is an ASCII decimal digit.
pub open spec fn is_digit(b: u8) -> bool {
    48 <= b && b <= 57
}

/// The value of a digit string read in base ten.
pub open spec fn digits_val(s: Seq<u8>) -> int
    decreases s.len(),
{
    if s.len() == 0 {
        0
    } else {
        digits_val(s.drop_last()) * 10 + (s.last() - 48)
    }
}

/// Whether the numeral begins with a minus sign.
pub open spec fn is_negative_text(s: Seq<u8>) -> bool {
    s.len() > 0 && s[0] == 45u8
}

/// The digits of the numeral, sign stripped.
pub open spec fn int_body(s: Seq<u8>) -> Seq<u8> {
    if is_negative_text(s) {
        s.skip(1)
    } else {
        s
    }
}

/// Whether the whole string is a numeral: an optional minus sign followed
/// by one or more decimal digits and nothing else.
pub open spec fn valid_int_text(s: Seq<u8>) -> bool {
    &&& int_body(s).len() > 0
    &&& forall|i: int| 0 <= i < int_body(s).len() ==> is_digit(#[trigger] int_body(s)[i])
}

/// The signed value of a numeral.
pub open spec fn int_text_value(s: Seq<u8>) -> int {
    if is_negative_text(s) {
        -digits_val(int_body(s))
    } else {
        digits_val(int_body(s))
    }
}

/// What a full-string integer parse returns: `TypeMismatch` unless the whole
/// string is a numeral, `OutOfRange` if its value does not fit a 64-bit
/// signed integer, and the value otherwise.
pub open spec fn spec_parse_i64(s: Seq<u8>) -> Result<i64, ConversionError> {
    if !valid_int_text(s) {
        Err(ConversionError::TypeMismatch)
    } else if int_text_value(s) < i64::MIN || int_text_value(s) > i64::MAX {
        Err(ConversionError::OutOfRange)
    } else {
        Ok(int_text_value(s) as i64)
    }
}

proof fn lemma_digits_nonneg(s: Seq<u8>)
    requires
        forall|i: int| 0 <= i < s.len() ==> is_digit(#[trigger] s[i]),
    ensures
        digits_val(s) >= 0,
    decreases s.len(),
{
    if s.len() > 0 {
        lemma_digits_nonneg(s.drop_last());
    }
}

/// The value of a digit string is at least the value of any of its prefixes.
proof fn lemma_digits_prefix_le(s: Seq<u8>, k: int)
    requires
        0 <= k <= s.len(),
        forall|i: int| 0 <= i < s.len() ==> is_digit(#[trigger] s[i]),
    ensures
        digits_val(s.take(k)) <= digits_val(s),
    decreases s.len() - k,
{
    if k < s.len() {
        assert(s.take(k + 1).drop_last() =~= s.take(k));
        assert(s.take(k + 1).last() == s[k]);
        lemma_digits_nonneg(s.take(k));
        assert(digits_val(s.take(k + 1)) == digits_val(s.take(k)) * 10 + (s[k] - 48));
        lemma_digits_prefix_le(s, k + 1);
    } else {
        assert(s.take(k) =~= s);
    }
}

/// Parses a byte string as a 64-bit signed integer, exactly as
/// [`spec_parse_i64`] describes.
pub fn parse_i64(b: &Vec<u8>) -> (r: Result<i64, ConversionError>)
    ensures
        r == spec_parse_i64(b@),
{
    let n = b.len();
    let neg = n > 0 && b[0] == 45u8;
    let start: usize = if neg { 1 } else { 0 };
    if n == start {
        proof {
            assert(int_body(b@).len() == 0);
        }
        return Err(ConversionError::TypeMismatch);
    }
    let mut i: usize = start;
    while i < n
        invariant
            start <= i <= n,
            n == b@.len(),
            n > start,
            neg == is_negative_text(b@),
            start == if neg { 1int } else { 0int },
            forall|j: int| start <= j < i ==> is_digit(#[trigger] b@[j]),
        decreases n - i,
    {
        let ch = b[i];
        if !(48 <= ch && ch <= 57) {
            proof {
                let body = int_body(b@);
                assert(body[i - start] == b@[i as int]);
                assert(!valid_int_text(b@));
            }
            return Err(ConversionError::TypeMismatch);
        }
        i = i + 1;
    }
    proof {
        let body = int_body(b@);
        assert forall|j: int| 0 <= j < body.len() implies is_digit(#[trigger] body[j]) by {
            assert(body[j] == b@[j + start]);
        }
        assert(valid_int_text(b@));
    }
    let ghost body = int_body(b@);
    let mut mag: u64 = 0;
    i = start;
    while i < n
        invariant
            start <= i <= n,
            n == b@.len(),
            n > start,
            neg == is_negative_text(b@),
            start == if neg { 1int } else { 0int },
            forall|j: int| start <= j < n ==> is_digit(#[trigger] b@[j]),
            valid_int_text(b@),
            body == int_body(b@),
            mag as int == digits_val(b@.subrange(start as int, i as int)),
            mag <= 9223372036854775808u64,
        decreases n - i,
    {
        let d = (b[i] - 48) as u64;
        let ghost pre = b@.subrange(start as int, i as int);
        let ghost pre1 = b@.subrange(start as int, i as int + 1);
        proof {
            assert(pre1.drop_last() =~= pre);
            assert(pre1.last() == b@[i as int]);
            assert(digits_val(pre1) == digits_val(pre) * 10 + (b@[i as int] - 48));
        }
        if mag > 922337203685477580u64 || (mag == 922337203685477580u64 && d > 8) {
            proof {
                assert(digits_val(pre1) > 9223372036854775808int);
                assert(body =~= b@.skip(start as int));
                assert(body.take(i as int + 1 - start) =~= pre1);
                lemma_digits_prefix_le(body, i as int + 1 - start);
                assert(digits_val(body) > 9223372036854775808int);
                assert(int_text_value(b@) < i64::MIN || int_text_value(b@) > i64::MAX);
            }
            return Err(ConversionError::OutOfRange);
        }
        mag = mag * 10 + d;
        i = i + 1;
    }
    proof {
        assert(b@.subrange(start as int, n as int) =~= body);
        assert(mag as int == digits_val(body));
    }
    if neg {
        if mag == 9223372036854775808u64 {
            proof {
                assert(int_text_value(b@) == i64::MIN);
            }
            Ok(i64::MIN)
        } else {
            Ok(-(mag as i64))
        }
    } else {
        if mag > 9223372036854775807u64 {
            proof {
                assert(int_text_value(b@) > i64::MAX);
            }
            Err(ConversionError::OutOfRange)
        } else {
            Ok(mag as i64)
        }
    }
}

/// What converting a cell (already dereferenced) to a primitive kind
/// returns.
pub open spec fn spec_prim_convert(c: ValueCell, k: Kind) -> Result<
    NativeValue,
    ConversionError,
> {
    match k {
        Kind::Bool => Ok(NativeValue::Bool(c.spec_truthy())),
        Kind::Int => match c {
            ValueCell::Int(i) => Ok(NativeValue::Int(i)),
            ValueCell::Str(b) => match spec_parse_i64(b@) {
                Ok(v) => Ok(NativeValue::Int(v)),
                Err(e) => Err(e),
            },
            ValueCell::Null => Err(ConversionError::NullNotAllowed),
            _ => Err(ConversionError::TypeMismatch),
        },
        Kind::Str => match c {
            ValueCell::Str(b) => Ok(NativeValue::Str(b)),
            ValueCell::Null => Err(ConversionError::NullNotAllowed),
            _ => Err(ConversionError::TypeMismatch),
        },
        Kind::Sequence => match c {
            ValueCell::Sequence(v) => Ok(NativeValue::Sequence(v)),
            ValueCell::Null => Err(ConversionError::NullNotAllowed),
            _ => Err(ConversionError::TypeMismatch),
        },
        Kind::Object(expected) => match c {
            ValueCell::Object { handle, class_id } => if class_id == expected {
                Ok(NativeValue::Object { handle, class_id })
            } else {
                Err(ConversionError::TypeMismatch)
            },
            ValueCell::Null => Err(ConversionError::NullNotAllowed),
            _ => Err(ConversionError::TypeMismatch),
        },
    }
}

/// What converting a cell against an expected type classification returns.
/// A reference is followed exactly one indirection first.
pub open spec fn spec_to_native(c: ValueCell, ts: TypeSpec) -> Result<
    NativeValue,
    ConversionError,
> {
    let c1 = c.spec_deref();
    match ts {
        TypeSpec::Any => Ok(NativeValue::Any(c1)),
        TypeSpec::Prim(k) => spec_prim_convert(c1, k),
        TypeSpec::Nullable(k) => match c1 {
            ValueCell::Null => Ok(NativeValue::Null),
            _ => spec_prim_convert(c1, k),
        },
    }
}

/// What writing a native value back into a cell produces: the no-value
/// state always produces a null cell; every other variant produces the
/// cell of its own tag.
pub open spec fn spec_to_cell(v: NativeValue) -> ValueCell {
    match v {
        NativeValue::Null => ValueCell::Null,
        NativeValue::Bool(b) => ValueCell::Bool(b),
        NativeValue::Int(i) => ValueCell::Int(i),
        NativeValue::Str(b) => ValueCell::Str(b),
        NativeValue::Sequence(s) => ValueCell::Sequence(s),
        NativeValue::Object { handle, class_id } => ValueCell::Object { handle, class_id },
        NativeValue::Any(c) => c,
    }
}

fn prim_convert(c: ValueCell, k: Kind) -> (r: Result<NativeValue, ConversionError>)
    ensures
        r == spec_prim_convert(c, k),
{
    match k {
        Kind::Bool => {
            let t = match &c {
                ValueCell::Null => false,
                ValueCell::Bool(b) => *b,
                ValueCell::Int(i) => *i != 0,
                ValueCell::Str(b) => b.len() != 0,
                ValueCell::Sequence(v) => v.len() != 0,
                _ => true,
            };
            Ok(NativeValue::Bool(t))
        },
        Kind::Int => match c {
            ValueCell::Int(i) => Ok(NativeValue::Int(i)),
            ValueCell::Str(b) => match parse_i64(&b) {
                Ok(v) => Ok(NativeValue::Int(v)),
                Err(e) => Err(e),
            },
            ValueCell::Null => Err(ConversionError::NullNotAllowed),
            _ => Err(ConversionError::TypeMismatch),
        },
        Kind::Str => match c {
            ValueCell::Str(b) => Ok(NativeValue::Str(b)),
            ValueCell::Null => Err(ConversionError::NullNotAllowed),
            _ => Err(ConversionError::TypeMismatch),
        },
        Kind::Sequence => match c {
            ValueCell::Sequence(v) => Ok(NativeValue::Sequence(v)),
            ValueCell::Null => Err(ConversionError::NullNotAllowed),
            _ => Err(ConversionError::TypeMismatch),
        },
        Kind::Object(expected) => match c {
            ValueCell::Object { handle, class_id } => if class_id == expected {
                Ok(NativeValue::Object { handle, class_id })
            } else {
                Err(ConversionError::TypeMismatch)
            },
            ValueCell::Null => Err(ConversionError::NullNotAllowed),
            _ => Err(ConversionError::TypeMismatch),
        },
    }
}

/// Converts a cell to the native value the expected type classification
/// asks for, consuming the cell.
pub fn to_native(c: ValueCell, ts: TypeSpec) -> (r: Result<NativeValue, ConversionError>)
    ensures
        r == spec_to_native(c, ts),
{
    let c1 = match c {
        ValueCell::Reference(inner) => *inner,
        other => other,
    };
    match ts {
        TypeSpec::Any => Ok(NativeValue::Any(c1)),
        TypeSpec::Prim(k) => prim_convert(c1, k),
        TypeSpec::Nullable(k) => match c1 {
            ValueCell::Null => Ok(NativeValue::Null),
            other => prim_convert(other, k),
        },
    }
}

/// Writes a native value into a fresh cell, consuming the value.
pub fn to_cell(v: NativeValue) -> (r: ValueCell)
    ensures
        r == spec_to_cell(v),
{
    match v {
        NativeValue::Null => ValueCell::Null,
        NativeValue::Bool(b) => ValueCell::Bool(b),
        NativeValue::Int(i) => ValueCell::Int(i),
        NativeValue::Str(b) => ValueCell::Str(b),
        NativeValue::Sequence(s) => ValueCell::Sequence(s),
        NativeValue::Object { handle, class_id } => ValueCell::Object { handle, class_id },
        NativeValue::Any(c) => c,
    }
}

/// What reading a cell as a 64-bit signed integer returns: the integer
/// itself, a full-string parse of a string, `NullNotAllowed` for null, and
/// `TypeMismatch` for every other tag.
pub open spec fn spec_to_i64(c: ValueCell) -> Result<i64, ConversionError> {
    match c.spec_deref() {
        ValueCell::Int(i) => Ok(i),
        ValueCell::Str(b) => spec_parse_i64(b@),
        ValueCell::Null => Err(ConversionError::NullNotAllowed),
        _ => Err(ConversionError::TypeMismatch),
    }
}

/// What reading a cell as a 32-bit signed integer returns: the 64-bit
/// read, narrowed, with `OutOfRange` when the value does not fit the
/// 32-bit width.
pub open spec fn spec_to_i32(c: ValueCell) -> Result<i32, ConversionError> {
    match spec_to_i64(c) {
        Ok(v) => if i32::MIN <= v && v <= i32::MAX {
            Ok(v as i32)
        } else {
            Err(ConversionError::OutOfRange)
        },
        Err(e) => Err(e),
    }
}

impl ValueCell {
    /// Reads the cell as a 64-bit signed integer, following a reference one
    /// indirection first, exactly as [`spec_to_i64`] describes.
    pub fn to_i64(&self) -> (r: Result<i64, ConversionError>)
        ensures
            r == spec_to_i64(*self),
    {
        match self.deref_once() {
            ValueCell::Int(i) => Ok(*i),
            ValueCell::Str(b) => parse_i64(b),
            ValueCell::Null => Err(ConversionError::NullNotAllowed),
            _ => Err(ConversionError::TypeMismatch),
        }
    }

    /// Reads the cell as a 32-bit signed integer, exactly as
    /// [`spec_to_i32`] describes.
    pub fn to_i32(&self) -> (r: Result<i32, ConversionError>)
        ensures
            r == spec_to_i32(*self),
    {
        match self.to_i64() {
            Ok(v) => if -2147483648i64 <= v && v <= 2147483647i64 {
                Ok(v as i32)
            } else {
                Err(ConversionError::OutOfRange)
            },
            Err(e) => Err(e),
        }
    }
}

/// Writes a handler's typed result into the call's return slot, consuming
/// the value: the write-back half of the call boundary.
pub fn write_result(slot: &mut ValueCell, v: NativeValue)
    ensures
        *final(slot) == spec_to_cell(v),
{
    *slot = to_cell(v);
}

/// The native values whose round trip through a cell is exact: each tagged
/// variant against its own kind (an object against its own class identity),
/// the no-value state against any nullable kind, and "any" carrying a cell
/// that is not a reference.
pub open spec fn round_trips(v: NativeValue, ts: TypeSpec) -> bool {
    match v {
        NativeValue::Null => ts matches TypeSpec::Nullable(_),
        NativeValue::Bool(_) => ts == TypeSpec::Prim(Kind::Bool) || ts == TypeSpec::Nullable(
            Kind::Bool,
        ),
        NativeValue::Int(_) => ts == TypeSpec::Prim(Kind::Int) || ts == TypeSpec::Nullable(
            Kind::Int,
        ),
        NativeValue::Str(_) => ts == TypeSpec::Prim(Kind::Str) || ts == TypeSpec::Nullable(
            Kind::Str,
        ),
        NativeValue::Sequence(_) => ts == TypeSpec::Prim(Kind::Sequence) || ts
            == TypeSpec::Nullable(Kind::Sequence),
        NativeValue::Object { handle, class_id } => ts == TypeSpec::Prim(Kind::Object(class_id))
            || ts == TypeSpec::Nullable(Kind::Object(class_id)),
        NativeValue::Any(c) => ts == TypeSpec::Any && !(c matches ValueCell::Reference(_)),
    }
}

/// Round trip: writing a supported native value into a cell and reading it
/// back under its own kind returns the value unchanged.
pub proof fn lemma_round_trip(v: NativeValue, ts: TypeSpec)
    requires
        round_trips(v, ts),
    ensures
        spec_to_native(spec_to_cell(v), ts) == Ok::<NativeValue, ConversionError>(v),
{
}

/// Cells equal up to the identity of their byte-string payload.
pub open spec fn cell_like(a: ValueCell, b: ValueCell) -> bool {
    match (a, b) {
        (ValueCell::Str(x), ValueCell::Str(y)) => x@ == y@,
        _ => a == b,
    }
}

/// Native values equal up to the identity of their byte-string payloads.
pub open spec fn nv_like(a: NativeValue, b: NativeValue) -> bool {
    match (a, b) {
        (NativeValue::Str(x), NativeValue::Str(y)) => x@ == y@,
        (NativeValue::Any(x), NativeValue::Any(y)) => cell_like(x, y),
        _ => a == b,
    }
}

/// Conversion results equal up to the identity of byte-string payloads.
pub open spec fn conv_result_like(
    a: Result<NativeValue, ConversionError>,
    b: Result<NativeValue, ConversionError>,
) -> bool {
    match (a, b) {
        (Ok(x), Ok(y)) => nv_like(x, y),
        (Err(x), Err(y)) => x == y,
        _ => false,
    }
}

pub proof fn lemma_nv_like_refl(v: NativeValue)
    ensures
        nv_like(v, v),
{
    match v {
        NativeValue::Any(c) => {
            match c {
                ValueCell::Str(_) => {},
                _ => {},
            }
        },
        _ => {},
    }
}

pub proof fn lemma_conv_result_like_refl(r: Result<NativeValue, ConversionError>)
    ensures
        conv_result_like(r, r),
{
    match r {
        Ok(v) => {
            lemma_nv_like_refl(v);
        },
        Err(_) => {},
    }
}

/// Conversion depends only on what a cell holds, not on the identity of its
/// byte-string payload.
pub proof fn lemma_to_native_like(c1: ValueCell, c2: ValueCell, ts: TypeSpec)
    requires
        cell_like(c1, c2),
    ensures
        conv_result_like(spec_to_native(c1, ts), spec_to_native(c2, ts)),
{
    if c1 == c2 {
        let r = spec_to_native(c1, ts);
        match r {
            Ok(x) => {
                assert(nv_like(x, x)) by {
                    match x {
                        NativeValue::Str(b) => {},
                        NativeValue::Any(c) => {
                            match c {
                                ValueCell::Str(b) => {},
                                _ => {},
                            }
                        },
                        _ => {},
                    }
                }
            },
            Err(_) => {},
        }
    } else {
        // both are byte strings with equal contents
        assert(c1 matches ValueCell::Str(_));
    }
}

} // verus!
