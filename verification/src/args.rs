//! The argument binder: parses a call's positional value cells into named,
//! typed native arguments using the function's argument descriptor list.
//!
//! A call whose count lies outside the declared arity range fails with
//! `ArityError`; a slot that fails conversion fails with `ArgumentError`
//! carrying the argument's name; an optional slot that is absent substitutes
//! its declared default. Once binding fails the native handler is never
//! invoked.

use vstd::prelude::*;

use crate::convert::{
    conv_result_like, nv_like, spec_to_native, to_native, NativeValue, TypeSpec,
};
use crate::errors::{BindError, ConversionError};
use crate::function::{lemma_required_iff, FunctionDescriptor};
use crate::value::{copy_bytes, ValueCell};

verus! {

/// A declared default for an optional argument: a constant scalar or byte
/// string, written into a fresh cell each time it is substituted.
#[derive(Debug, PartialEq, Eq)]
pub enum DefaultValue {
    Null,
    Bool(bool),
    Int(i64),
    Str(Vec<u8>),
}

/// The cell a declared default stands for.
pub open spec fn spec_default_cell(d: DefaultValue) -> ValueCell {
    match d {
        DefaultValue::Null => ValueCell::Null,
        DefaultValue::Bool(b) => ValueCell::Bool(b),
        DefaultValue::Int(i) => ValueCell::Int(i),
        DefaultValue::Str(b) => ValueCell::Str(b),
    }
}

/// Writes a declared default into a fresh cell.
pub fn default_cell(d: &DefaultValue) -> (r: ValueCell)
    ensures
        crate::convert::cell_like(r, spec_default_cell(*d)),
{
    match d {
        DefaultValue::Null => ValueCell::Null,
        DefaultValue::Bool(b) => ValueCell::Bool(*b),
        DefaultValue::Int(i) => ValueCell::Int(*i),
        DefaultValue::Str(b) => ValueCell::Str(copy_bytes(b)),
    }
}

/// One argument descriptor: a name unique within its function, the expected
/// type classification, the required flag, and a default carried exactly
/// when the argument is optional.
#[derive(Debug)]
pub struct ArgDescriptor {
    pub name: Vec<u8>,
    pub ty: TypeSpec,
    pub required: bool,
    pub default: Option<DefaultValue>,
}

impl ArgDescriptor {
    /// A descriptor carries a default exactly when it is optional.
    pub open spec fn wf(self) -> bool {
        self.required <==> self.default is None
    }

    /// Declares a required argument.
    pub fn required(name: Vec<u8>, ty: TypeSpec) -> (a: Self)
        ensures
            a.name == name,
            a.ty == ty,
            a.required,
            a.default is None,
            a.wf(),
    {
        ArgDescriptor { name, ty, required: true, default: None }
    }

    /// Declares an optional argument with its default.
    pub fn optional(name: Vec<u8>, ty: TypeSpec, default: DefaultValue) -> (a: Self)
        ensures
            a.name == name,
            a.ty == ty,
            !a.required,
            a.default == Some(default),
            a.wf(),
    {
        ArgDescriptor { name, ty, required: false, default: Some(default) }
    }
}

/// The cell slot `i` converts: the call's cell when one was provided, the
/// declared default otherwise.
pub open spec fn slot_cell(f: FunctionDescriptor, cells: Seq<ValueCell>, i: int) -> ValueCell {
    if 0 <= i < cells.len() {
        cells[i]
    } else {
        match f.args@[i].default {
            Some(d) => spec_default_cell(d),
            None => ValueCell::Null,
        }
    }
}

/// What binding slots `i..` returns: the first slot whose conversion fails
/// yields `ArgumentError` with that argument's name; otherwise the list of
/// converted values, an absent optional slot converting its declared
/// default.
pub open spec fn spec_bind_slots(
    f: FunctionDescriptor,
    cells: Seq<ValueCell>,
    i: int,
) -> Result<Seq<NativeValue>, BindError>
    decreases f.args@.len() - i,
{
    if i < 0 || i >= f.args@.len() {
        Ok(Seq::empty())
    } else {
        let a = f.args@[i];
        let c = slot_cell(f, cells, i);
        match spec_to_native(c, a.ty) {
            Err(e) => Err(BindError::Argument { name: a.name, reason: e }),
            Ok(v) => match spec_bind_slots(f, cells, i + 1) {
                Err(e2) => Err(e2),
                Ok(rest) => Ok(seq![v] + rest),
            },
        }
    }
}

/// What binding a call returns: an arity check against `[min, max]`, then
/// the slot-by-slot conversion of [`spec_bind_slots`].
pub open spec fn spec_bind(f: FunctionDescriptor, cells: Seq<ValueCell>) -> Result<
    Seq<NativeValue>,
    BindError,
> {
    if cells.len() < f.min || cells.len() > f.max {
        Err(BindError::Arity { got: cells.len() as usize, min: f.min, max: f.max })
    } else {
        spec_bind_slots(f, cells, 0)
    }
}

/// Bind errors equal up to the identity of the name's byte string.
pub open spec fn bind_err_like(a: BindError, b: BindError) -> bool {
    match (a, b) {
        (
            BindError::Argument { name: n1, reason: r1 },
            BindError::Argument { name: n2, reason: r2 },
        ) => n1@ == n2@ && r1 == r2,
        _ => a == b,
    }
}

/// Binding results equal up to the identity of byte-string payloads.
pub open spec fn bind_result_like(
    a: Result<Vec<NativeValue>, BindError>,
    b: Result<Seq<NativeValue>, BindError>,
) -> bool {
    match (a, b) {
        (Ok(v), Ok(s)) => v@.len() == s.len() && (forall|i: int|
            0 <= i < s.len() ==> nv_like(#[trigger] v@[i], s[i])),
        (Err(x), Err(y)) => bind_err_like(x, y),
        _ => false,
    }
}

/// Arity law, rejection half: a call whose count lies below `min` or above
/// `max` always binds to the arity error carrying the count and both
/// bounds, whatever the cells hold.
pub proof fn lemma_bind_arity_error(f: FunctionDescriptor, cells: Seq<ValueCell>)
    requires
        cells.len() < f.min || cells.len() > f.max,
    ensures
        spec_bind(f, cells) == Err::<Seq<NativeValue>, BindError>(
            BindError::Arity { got: cells.len() as usize, min: f.min, max: f.max },
        ),
{
}

proof fn lemma_bind_slots_ok(f: FunctionDescriptor, cells: Seq<ValueCell>, i: int)
    requires
        0 <= i <= f.args@.len(),
        forall|j: int|
            i <= j < f.args@.len() ==> spec_to_native(
                slot_cell(f, cells, j),
                (#[trigger] f.args@[j]).ty,
            ) is Ok,
    ensures
        spec_bind_slots(f, cells, i) is Ok,
    decreases f.args@.len() - i,
{
    if i < f.args@.len() {
        lemma_bind_slots_ok(f, cells, i + 1);
    }
}

/// Arity law, success half: a call with exactly `min` cells always binds
/// successfully, given otherwise-valid values: every provided cell, and
/// every default substituted for the absent optional slots, converts under
/// its descriptor's expected type.
pub proof fn lemma_bind_min_ok(f: FunctionDescriptor, cells: Seq<ValueCell>)
    requires
        f.wf(),
        cells.len() == f.min,
        forall|j: int|
            0 <= j < f.args@.len() ==> spec_to_native(
                slot_cell(f, cells, j),
                (#[trigger] f.args@[j]).ty,
            ) is Ok,
    ensures
        spec_bind(f, cells) is Ok,
{
    crate::function::lemma_count_required_bounds(f.args@);
    lemma_bind_slots_ok(f, cells, 0);
}

fn bind_slots(
    f: &FunctionDescriptor,
    rest: Vec<ValueCell>,
    i: usize,
    Ghost(cells): Ghost<Seq<ValueCell>>,
) -> (r: Result<Vec<NativeValue>, BindError>)
    requires
        f.wf(),
        i <= f.args@.len(),
        f.min <= cells.len() <= f.max,
        rest@ == if i as int <= cells.len() {
            cells.subrange(i as int, cells.len() as int)
        } else {
            Seq::<ValueCell>::empty()
        },
    ensures
        bind_result_like(r, spec_bind_slots(*f, cells, i as int)),
    decreases f.args@.len() - i,
{
    if i >= f.args.len() {
        return Ok(Vec::new());
    }
    let ghost a_spec = f.args@[i as int];
    let ghost c_spec: ValueCell = if (i as int) < cells.len() {
        cells[i as int]
    } else {
        match a_spec.default {
            Some(d) => spec_default_cell(d),
            None => ValueCell::Null,
        }
    };
    let mut rest = rest;
    let converted: Result<NativeValue, ConversionError> = if rest.len() > 0 {
        let c = rest.remove(0);
        proof {
            assert(c == cells[i as int]);
            assert(rest@ =~= cells.subrange(i as int + 1, cells.len() as int));
        }
        let conv = to_native(c, f.args[i].ty);
        proof {
            crate::convert::lemma_conv_result_like_refl(conv);
        }
        conv
    } else {
        proof {
            // the slot is absent, so it lies at or beyond the call's count;
            // with the count at least `min`, an ordered list makes it optional
            assert(i as int >= cells.len());
            lemma_required_iff(f.args@, i as int);
            assert(!a_spec.required);
            assert(a_spec.wf());
            assert(a_spec.default is Some);
        }
        let dc = match &f.args[i].default {
            Some(d) => default_cell(d),
            None => ValueCell::Null,
        };
        let conv = to_native(dc, f.args[i].ty);
        proof {
            crate::convert::lemma_to_native_like(dc, c_spec, a_spec.ty);
        }
        conv
    };
    proof {
        assert(conv_result_like(converted, spec_to_native(c_spec, a_spec.ty)));
    }
    match converted {
        Err(e) => {
            proof {
                assert(spec_to_native(c_spec, a_spec.ty) == Err::<NativeValue, _>(e));
            }
            Err(BindError::Argument { name: copy_bytes(&f.args[i].name), reason: e })
        },
        Ok(v) => {
            proof {
                if i as int >= cells.len() {
                    assert(rest@ =~= Seq::<ValueCell>::empty());
                }
            }
            let tail = bind_slots(f, rest, i + 1, Ghost(cells));
            match tail {
                Err(e2) => {
                    proof {
                        assert(spec_bind_slots(*f, cells, i as int + 1) is Err);
                    }
                    Err(e2)
                },
                Ok(mut out) => {
                    let ghost tout = out@;
                    out.insert(0, v);
                    proof {
                        let sc = spec_to_native(c_spec, a_spec.ty);
                        let stail = spec_bind_slots(*f, cells, i as int + 1);
                        match sc {
                            Ok(vs) => {
                                match stail {
                                    Ok(st) => {
                                        let full = seq![vs] + st;
                                        assert(out@ =~= seq![v] + tout);
                                        assert(out@.len() == full.len());
                                        assert forall|k: int|
                                            0 <= k < full.len() implies nv_like(
                                            out@[k],
                                            full[k],
                                        ) by {
                                            if k == 0 {
                                                assert(full[0] == vs);
                                                assert(out@[0] == v);
                                            } else {
                                                assert(full[k] == st[k - 1]);
                                                assert(out@[k] == tout[k - 1]);
                                            }
                                        }
                                        assert(spec_bind_slots(*f, cells, i as int) == Ok::<
                                            _,
                                            BindError,
                                        >(full));
                                    },
                                    Err(_) => {
                                        assert(false);
                                    },
                                }
                            },
                            Err(_) => {
                                assert(false);
                            },
                        }
                    }
                    Ok(out)
                },
            }
        },
    }
}

/// Binds a call's positional cells against a function descriptor, consuming
/// the cells. Returns the converted arguments in declaration order, or the
/// first binding error.
pub fn bind_args(f: &FunctionDescriptor, args: Vec<ValueCell>) -> (r: Result<
    Vec<NativeValue>,
    BindError,
>)
    requires
        f.wf(),
    ensures
        bind_result_like(r, spec_bind(*f, args@)),
{
    let got = args.len();
    if got < f.min || got > f.max {
        return Err(BindError::Arity { got, min: f.min, max: f.max });
    }
    proof {
        assert(args@ =~= args@.subrange(0, args@.len() as int));
    }
    bind_slots(f, args, 0, Ghost(args@))
}

} // verus!
