//! The current-macro context: the decoded form of one matched macro, with
//! the inspection surface that handlers and callbacks use.

use vstd::prelude::*;
use crate::arg_type::ArgType;
use crate::ucode::MacroId;
use crate::ucode::macro_name_str;
use crate::ucode::spec_macro_name;

verus! {

/// The value of one decoded argument. `Raw` carries the whole 64-bit word
/// of the invalid sentinel macro; every other argument is a 32-bit value.
#[derive(Clone, Copy, PartialEq, Eq, Structural, Debug)]
pub enum ArgValue {
    I(i32),
    U(u32),
    Raw(u64),
}

/// The data format of an argument: signed or unsigned.
#[derive(Clone, Copy, PartialEq, Eq, Structural, Debug)]
pub enum ArgFmt {
    I,
    U,
}

/// One decoded argument: its semantic kind and its value.
#[derive(Clone, Copy, PartialEq, Eq, Structural, Debug)]
pub struct Arg {
    pub ty: ArgType,
    pub value: ArgValue,
}

impl ArgValue {
    /// The data format of this value.
    pub open spec fn spec_fmt(self) -> ArgFmt {
        match self {
            ArgValue::I(_) => ArgFmt::I,
            ArgValue::U(_) => ArgFmt::U,
            ArgValue::Raw(_) => ArgFmt::U,
        }
    }

    /// The value reinterpreted as an unsigned 32-bit word.
    pub open spec fn spec_as_u32(self) -> u32 {
        match self {
            ArgValue::I(i) => i as u32,
            ArgValue::U(u) => u,
            ArgValue::Raw(r) => r as u32,
        }
    }

    /// The value reinterpreted as a signed 32-bit word.
    pub open spec fn spec_as_i32(self) -> i32 {
        match self {
            ArgValue::I(i) => i,
            ArgValue::U(u) => u as i32,
            ArgValue::Raw(r) => r as i32,
        }
    }

    /// The value reinterpreted as an unsigned 32-bit word.
    pub fn as_u32(&self) -> (r: u32)
        ensures
            r == self.spec_as_u32(),
    {
        match self {
            ArgValue::I(i) => *i as u32,
            ArgValue::U(u) => *u,
            ArgValue::Raw(w) => *w as u32,
        }
    }

    /// The value reinterpreted as a signed 32-bit word.
    pub fn as_i32(&self) -> (r: i32)
        ensures
            r == self.spec_as_i32(),
    {
        match self {
            ArgValue::I(i) => *i,
            ArgValue::U(u) => *u as i32,
            ArgValue::Raw(w) => *w as i32,
        }
    }
}

/// The `idx`-th argument (in declaration order) whose kind is `ty`, if any.
pub open spec fn spec_value_by_type(args: Seq<Arg>, ty: ArgType, idx: int) -> Option<ArgValue>
    decreases args.len(),
{
    if args.len() == 0 {
        None
    } else if args[0].ty == ty {
        if idx == 0 {
            Some(args[0].value)
        } else {
            spec_value_by_type(args.skip(1), ty, idx - 1)
        }
    } else {
        spec_value_by_type(args.skip(1), ty, idx)
    }
}

/// One matched and decoded macro: the matched identity, where it stands in
/// the input, the raw (unswapped) input bytes it was decoded from, and its
/// decoded arguments.
#[derive(Clone, PartialEq, Eq, Debug)]
pub struct MacroRecord {
    /// Identity of the matched macro.
    pub id: MacroId,
    /// Byte offset in the input data of the macro's first packet.
    pub offset: usize,
    /// Number of `Gfx` packets the macro consumed.
    pub packets: usize,
    /// The input bytes of the macro, unswapped, as originally in the source:
    /// `8 * packets` bytes starting at `offset`.
    pub data: Vec<u8>,
    /// The decoded arguments, in declaration order.
    pub args: Vec<Arg>,
    /// Whether re-encoding the macro from its decoded argument values
    /// reproduces the original packets exactly.
    pub valid: bool,
}

impl MacroRecord {
    /// The offset in the input data of this macro; zero for the first macro
    /// of an execution.
    pub fn macro_offset(&self) -> (r: usize)
        ensures
            r == self.offset,
    {
        self.offset
    }

    /// The number of `Gfx` packets within this macro.
    pub fn macro_packets(&self) -> (r: usize)
        ensures
            r == self.packets,
    {
        self.packets
    }

    /// The input data for this macro, not byte-swapped, of length
    /// `8 * macro_packets()`.
    pub fn macro_data(&self) -> (r: &Vec<u8>)
        ensures
            r@ == self.data@,
    {
        &self.data
    }

    /// The identity of this macro.
    pub fn macro_id(&self) -> (r: MacroId)
        ensures
            r == self.id,
    {
        self.id
    }

    /// The printed name of this macro, or `None` for the invalid sentinel.
    /// With `dynamic` set, the dynamic `g…` form is returned instead of the
    /// static `gs…` form.
    pub fn macro_name(&self, dynamic: bool) -> (r: Option<&'static str>)
        ensures
            match r {
                Some(s) => self.id != MacroId::Invalid && s@ == spec_macro_name(self.id, dynamic),
                None => self.id == MacroId::Invalid,
            },
    {
        if self.id == MacroId::Invalid {
            None
        } else {
            Some(macro_name_str(self.id, dynamic))
        }
    }

    /// The number of arguments of this macro, not counting a configured
    /// dynamic display-list pointer.
    pub fn arg_count(&self) -> (r: usize)
        ensures
            r == self.args@.len(),
    {
        self.args.len()
    }

    /// The semantic kind of the argument with index `arg_num`.
    pub fn arg_type(&self, arg_num: usize) -> (r: ArgType)
        requires
            arg_num < self.args@.len(),
        ensures
            r == self.args@[arg_num as int].ty,
    {
        self.args[arg_num].ty
    }

    /// The data format of the argument with index `arg_num`.
    pub fn arg_fmt(&self, arg_num: usize) -> (r: ArgFmt)
        requires
            arg_num < self.args@.len(),
        ensures
            r == self.args@[arg_num as int].value.spec_fmt(),
    {
        match self.args[arg_num].value {
            ArgValue::I(_) => ArgFmt::I,
            ArgValue::U(_) => ArgFmt::U,
            ArgValue::Raw(_) => ArgFmt::U,
        }
    }

    /// The value of the argument with index `arg_num`.
    pub fn arg_value(&self, arg_num: usize) -> (r: ArgValue)
        requires
            arg_num < self.args@.len(),
        ensures
            r == self.args@[arg_num as int].value,
    {
        self.args[arg_num].value
    }

    /// Whether the argument with index `arg_num` is valid: whether
    /// re-encoding this macro from its decoded values reproduces the
    /// original bits. An invalid argument still carries a printable value.
    pub fn arg_valid(&self, arg_num: usize) -> (r: bool)
        requires
            arg_num < self.args@.len(),
        ensures
            r == self.valid,
    {
        self.valid
    }

    /// The value of the argument that is of kind `ty` and has order `idx`
    /// among the arguments of that kind, or `None` if there is no such
    /// argument.
    pub fn value_by_type(&self, ty: ArgType, idx: usize) -> (r: Option<ArgValue>)
        ensures
            r == spec_value_by_type(self.args@, ty, idx as int),
    {
        let mut k: usize = 0;
        let mut remaining: usize = idx;
        proof {
            assert(self.args@.skip(0) =~= self.args@);
        }
        while k < self.args.len()
            invariant
                k <= self.args@.len(),
                remaining <= idx,
                spec_value_by_type(self.args@, ty, idx as int) == spec_value_by_type(
                    self.args@.skip(k as int),
                    ty,
                    remaining as int,
                ),
            decreases self.args@.len() - k,
        {
            let a = self.args[k];
            proof {
                assert(self.args@.skip(k as int)[0] == self.args@[k as int]);
                assert(self.args@.skip(k as int).skip(1) =~= self.args@.skip(k as int + 1));
            }
            if a.ty == ty {
                if remaining == 0 {
                    return Some(a.value);
                }
                remaining = remaining - 1;
            }
            k = k + 1;
        }
        proof {
            assert(self.args@.skip(k as int).len() == 0);
        }
        None
    }

    /// The signed value of the `idx`-th argument of kind `ty`, or the
    /// substitution sentinel `-1` when that argument is absent.
    pub fn value_i(&self, ty: ArgType, idx: usize) -> (r: i32)
        ensures
            r == match spec_value_by_type(self.args@, ty, idx as int) {
                Some(v) => v.spec_as_i32(),
                None => -1i32,
            },
    {
        match self.value_by_type(ty, idx) {
            Some(v) => v.as_i32(),
            None => -1,
        }
    }

    /// The unsigned value of the `idx`-th argument of kind `ty`, or the
    /// substitution sentinel `0` when that argument is absent.
    pub fn value_u(&self, ty: ArgType, idx: usize) -> (r: u32)
        ensures
            r == match spec_value_by_type(self.args@, ty, idx as int) {
                Some(v) => v.spec_as_u32(),
                None => 0u32,
            },
    {
        match self.value_by_type(ty, idx) {
            Some(v) => v.as_u32(),
            None => 0,
        }
    }
}

} // verus!
