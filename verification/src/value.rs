//! The typed-value union that crosses between caller-supplied filters and
//! generated statements, and the deterministic mapping from each value to a
//! driver bind step.

use vstd::prelude::*;

verus! {

/// A typed value supplied for one positional placeholder.
///
/// Floating-point values are carried as their IEEE 754 bit patterns
/// (`F32Bits`, `F64Bits`); the execution layer reinterprets the bits when it
/// hands the value to the driver. The union is closed: every variant has a
/// bind step, so placeholder text and bound arguments cannot fall out of
/// step.
#[derive(Clone, Debug, PartialEq)]
pub enum Val {
    I8(i8),
    U8(u8),
    I16(i16),
    U16(u16),
    I32(i32),
    U32(u32),
    I64(i64),
    U64(u64),
    F32Bits(u32),
    F64Bits(u64),
    Text(String),
    Bool(bool),
}

/// The mathematical model of a [`Val`]: text is a sequence of characters.
pub enum ValV {
    I8(i8),
    U8(u8),
    I16(i16),
    U16(u16),
    I32(i32),
    U32(u32),
    I64(i64),
    U64(u64),
    F32Bits(u32),
    F64Bits(u64),
    Text(Seq<char>),
    Bool(bool),
}

impl View for Val {
    type V = ValV;

    open spec fn view(&self) -> ValV {
        match self {
            Val::I8(x) => ValV::I8(*x),
            Val::U8(x) => ValV::U8(*x),
            Val::I16(x) => ValV::I16(*x),
            Val::U16(x) => ValV::U16(*x),
            Val::I32(x) => ValV::I32(*x),
            Val::U32(x) => ValV::U32(*x),
            Val::I64(x) => ValV::I64(*x),
            Val::U64(x) => ValV::U64(*x),
            Val::F32Bits(b) => ValV::F32Bits(*b),
            Val::F64Bits(b) => ValV::F64Bits(*b),
            Val::Text(s) => ValV::Text(s@),
            Val::Bool(b) => ValV::Bool(*b),
        }
    }
}

impl Val {
    /// An exact copy of the value.
    pub fn duplicate(&self) -> (r: Val)
        ensures
            r@ == self@,
    {
        match self {
            Val::I8(x) => Val::I8(*x),
            Val::U8(x) => Val::U8(*x),
            Val::I16(x) => Val::I16(*x),
            Val::U16(x) => Val::U16(*x),
            Val::I32(x) => Val::I32(*x),
            Val::U32(x) => Val::U32(*x),
            Val::I64(x) => Val::I64(*x),
            Val::U64(x) => Val::U64(*x),
            Val::F32Bits(b) => Val::F32Bits(*b),
            Val::F64Bits(b) => Val::F64Bits(*b),
            Val::Text(s) => Val::Text(s.clone()),
            Val::Bool(b) => Val::Bool(*b),
        }
    }
}

/// The views of a list of values, in order.
pub open spec fn val_views(vs: Seq<Val>) -> Seq<ValV> {
    vs.map_values(|v: Val| v@)
}

/// An exact copy of a list of values.
pub fn dup_vals(vs: &Vec<Val>) -> (r: Vec<Val>)
    ensures
        val_views(r@) == val_views(vs@),
{
    let mut r: Vec<Val> = Vec::new();
    let mut i: usize = 0;
    while i < vs.len()
        invariant
            i <= vs.len(),
            r@.len() == i,
            forall|j: int| 0 <= j < i ==> r@[j]@ == vs@[j]@,
        decreases vs.len() - i,
    {
        r.push(vs[i].duplicate());
        i = i + 1;
    }
    proof {
        assert(val_views(r@) =~= val_views(vs@));
    }
    r
}

/// One driver bind call: the value at the exact width handed to the driver.
#[derive(Clone, Debug, PartialEq)]
pub enum BindStep {
    I8(i8),
    I16(i16),
    I32(i32),
    I64(i64),
    F32Bits(u32),
    F64Bits(u64),
    Text(String),
    Bool(bool),
}

/// The mathematical model of a [`BindStep`].
pub enum BindStepV {
    I8(i8),
    I16(i16),
    I32(i32),
    I64(i64),
    F32Bits(u32),
    F64Bits(u64),
    Text(Seq<char>),
    Bool(bool),
}

impl View for BindStep {
    type V = BindStepV;

    open spec fn view(&self) -> BindStepV {
        match self {
            BindStep::I8(x) => BindStepV::I8(*x),
            BindStep::I16(x) => BindStepV::I16(*x),
            BindStep::I32(x) => BindStepV::I32(*x),
            BindStep::I64(x) => BindStepV::I64(*x),
            BindStep::F32Bits(b) => BindStepV::F32Bits(*b),
            BindStep::F64Bits(b) => BindStepV::F64Bits(*b),
            BindStep::Text(s) => BindStepV::Text(s@),
            BindStep::Bool(b) => BindStepV::Bool(*b),
        }
    }
}

/// The two's-complement reinterpretation of a 64-bit unsigned value as
/// signed. Values above `i64::MAX` wrap to negatives: a known
/// representational limitation of binding unsigned 64-bit values through a
/// signed channel.
pub open spec fn wrap_u64_to_i64(x: u64) -> i64 {
    if x <= i64::MAX as u64 {
        x as i64
    } else {
        (x - 0x1_0000_0000_0000_0000) as i64
    }
}

/// The bind step for a value: signed integers and floats bind at native
/// width, unsigned 8/16/32-bit values widen losslessly to the next larger
/// signed width, and unsigned 64-bit values reinterpret as signed 64-bit.
pub open spec fn bind_step_of(v: ValV) -> BindStepV {
    match v {
        ValV::I8(x) => BindStepV::I8(x),
        ValV::U8(x) => BindStepV::I16(x as i16),
        ValV::I16(x) => BindStepV::I16(x),
        ValV::U16(x) => BindStepV::I32(x as i32),
        ValV::I32(x) => BindStepV::I32(x),
        ValV::U32(x) => BindStepV::I64(x as i64),
        ValV::I64(x) => BindStepV::I64(x),
        ValV::U64(x) => BindStepV::I64(wrap_u64_to_i64(x)),
        ValV::F32Bits(b) => BindStepV::F32Bits(b),
        ValV::F64Bits(b) => BindStepV::F64Bits(b),
        ValV::Text(s) => BindStepV::Text(s),
        ValV::Bool(b) => BindStepV::Bool(b),
    }
}

/// Maps one value to its driver bind step.
pub fn bind_step(v: &Val) -> (r: BindStep)
    ensures
        r@ == bind_step_of(v@),
{
    match v {
        Val::I8(x) => BindStep::I8(*x),
        Val::U8(x) => BindStep::I16(*x as i16),
        Val::I16(x) => BindStep::I16(*x),
        Val::U16(x) => BindStep::I32(*x as i32),
        Val::I32(x) => BindStep::I32(*x),
        Val::U32(x) => BindStep::I64(*x as i64),
        Val::I64(x) => BindStep::I64(*x),
        Val::U64(x) => {
            let w: i64 = if *x <= 9223372036854775807u64 {
                *x as i64
            } else {
                ((*x as i128) - 0x1_0000_0000_0000_0000i128) as i64
            };
            BindStep::I64(w)
        },
        Val::F32Bits(b) => BindStep::F32Bits(*b),
        Val::F64Bits(b) => BindStep::F64Bits(*b),
        Val::Text(s) => BindStep::Text(s.clone()),
        Val::Bool(b) => BindStep::Bool(*b),
    }
}

/// Maps a list of values to the matching list of bind steps, in order.
pub fn bind_steps(vs: &Vec<Val>) -> (r: Vec<BindStep>)
    ensures
        r@.len() == vs@.len(),
        forall|i: int| 0 <= i < vs@.len() ==> r@[i]@ == bind_step_of(vs@[i]@),
{
    let mut r: Vec<BindStep> = Vec::new();
    let mut i: usize = 0;
    while i < vs.len()
        invariant
            i <= vs.len(),
            r@.len() == i,
            forall|j: int| 0 <= j < i ==> r@[j]@ == bind_step_of(vs@[j]@),
        decreases vs.len() - i,
    {
        r.push(bind_step(&vs[i]));
        i = i + 1;
    }
    r
}

} // verus!
