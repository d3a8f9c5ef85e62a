//! The per-invocation configuration: selected microcode, byte order, word
//! size, feature flags, dynamic display-list literal, macro-handler
//! decoration, input buffer, and a cooperative halt rule.
//!
//! A configuration is created with its defaults, mutated through the
//! setters before execution, and read by `execute`.

use vstd::prelude::*;
use crate::packet::{Endian, WordSize};
use crate::ucode::gfxd_ucode;

verus! {

/// A feature that can be enabled or disabled.
#[derive(Clone, Copy, PartialEq, Eq, Structural, Debug)]
pub enum Cap {
    /// Stop execution when encountering an invalid macro. Enabled by
    /// default.
    StopOnInvalid,
    /// Stop execution when encountering `SPBranchList` or
    /// `SPEndDisplayList`. Enabled by default.
    StopOnEnd,
    /// Print colour components as decimal instead of hexadecimal. Disabled
    /// by default.
    EmitDecColor,
    /// Print fixed-point conversion macros for fixed-point values. Disabled
    /// by default.
    EmitQMacro,
    /// Emit non-standard macros. Disabled by default.
    EmitExtMacro,
}

/// A cooperative halt request by the macro handler: the handler returns
/// `code` when invoked for the macro with 0-based ordinal `nth`, and `0`
/// for every other macro.
#[derive(Clone, Copy, PartialEq, Eq, Structural, Debug)]
pub struct HaltAt {
    pub nth: usize,
    pub code: i32,
}

/// An installed per-argument-type callback, modelled by the text it
/// writes: an argument whose kind has a callback installed is rendered as
/// that text in place of the default formatting (the callback has fully
/// replaced the output).
#[derive(Clone, PartialEq, Eq, Debug)]
pub struct ArgCallback {
    pub ty: crate::arg_type::ArgType,
    pub text: String,
}

/// The configuration record.
#[allow(non_camel_case_types)]
#[derive(Clone, PartialEq, Eq, Debug)]
pub struct gfxd_config {
    /// The selected microcode; none is selected by default, and one must be
    /// selected before `execute`.
    pub ucode: Option<gfxd_ucode>,
    /// Byte order of the input stream. Big-endian by default.
    pub endian: Endian,
    /// Bytes per word group of the input stream. Four by default.
    pub wordsize: WordSize,
    /// The dynamic display-list pointer literal; when set, dynamic `g…`
    /// macros are emitted with this literal as their first argument.
    pub dynamic: Option<String>,
    /// Stop execution on an invalid macro.
    pub stop_on_invalid: bool,
    /// Stop execution on a display-list terminator.
    pub stop_on_end: bool,
    /// Print colour components in decimal.
    pub emit_dec_color: bool,
    /// Print fixed-point conversion macros. Held for configuration
    /// compatibility; none of the macros modelled here formats through it.
    pub emit_q_macro: bool,
    /// Emit non-standard macros (a standalone half-command).
    pub emit_ext_macro: bool,
    /// Text the macro handler writes before each macro.
    pub macro_prefix: String,
    /// Text the macro handler writes after each macro.
    pub macro_suffix: String,
    /// The macro handler's cooperative halt rule, if any.
    pub handler_halt: Option<HaltAt>,
    /// The installed per-argument-type callbacks, newest first.
    pub arg_callbacks: Vec<ArgCallback>,
    /// An opaque address that callers pass in and out of handlers and
    /// callbacks; zero when unset. The engine never reads through it.
    pub udata: usize,
    /// The input byte stream.
    pub input: Vec<u8>,
}

/// The configuration with the flag selected by `cap` set to `on`.
pub open spec fn spec_with_cap(c: gfxd_config, cap: Cap, on: bool) -> gfxd_config {
    match cap {
        Cap::StopOnInvalid => gfxd_config { stop_on_invalid: on, ..c },
        Cap::StopOnEnd => gfxd_config { stop_on_end: on, ..c },
        Cap::EmitDecColor => gfxd_config { emit_dec_color: on, ..c },
        Cap::EmitQMacro => gfxd_config { emit_q_macro: on, ..c },
        Cap::EmitExtMacro => gfxd_config { emit_ext_macro: on, ..c },
    }
}

/// Whether a configuration holds the default settings: no microcode
/// selected, big-endian four-byte words, both stop conditions enabled, all
/// emission features disabled, no decoration, no halt rule, empty input.
pub open spec fn spec_default_config(c: gfxd_config) -> bool {
    &&& c.ucode is None
    &&& c.endian == Endian::Big
    &&& c.wordsize == WordSize::W4
    &&& c.dynamic is None
    &&& c.stop_on_invalid == true
    &&& c.stop_on_end == true
    &&& c.emit_dec_color == false
    &&& c.emit_q_macro == false
    &&& c.emit_ext_macro == false
    &&& c.macro_prefix@ == Seq::<char>::empty()
    &&& c.macro_suffix@ == Seq::<char>::empty()
    &&& c.handler_halt is None
    &&& c.arg_callbacks@ == Seq::<ArgCallback>::empty()
    &&& c.udata == 0
    &&& c.input@ == Seq::<u8>::empty()
}

impl gfxd_config {
    /// Allocates a default-initialized configuration.
    pub fn new() -> (r: gfxd_config)
        ensures
            spec_default_config(r),
    {
        gfxd_config {
            ucode: None,
            endian: Endian::Big,
            wordsize: WordSize::W4,
            dynamic: None,
            stop_on_invalid: true,
            stop_on_end: true,
            emit_dec_color: false,
            emit_q_macro: false,
            emit_ext_macro: false,
            macro_prefix: String::new(),
            macro_suffix: String::new(),
            handler_halt: None,
            arg_callbacks: Vec::new(),
            udata: 0,
            input: Vec::new(),
        }
    }

    /// Selects `ucode` as the target microcode. A microcode must be
    /// selected before `execute`; none is selected by default.
    pub fn target(&mut self, ucode: gfxd_ucode)
        ensures
            *final(self) == (gfxd_config { ucode: Some(ucode), ..*old(self) }),
    {
        self.ucode = Some(ucode);
    }

    /// Selects the endianness of the input and the size of each word group
    /// in bytes. Big-endian with four-byte words is the default.
    pub fn endian(&mut self, endian: Endian, wordsize: WordSize)
        ensures
            *final(self) == (gfxd_config { endian, wordsize, ..*old(self) }),
    {
        self.endian = endian;
        self.wordsize = wordsize;
    }

    /// Enables or disables dynamic `g…` macros and selects the dynamic
    /// display-list pointer literal to emit as their first argument. With
    /// `None`, static `gs…` macros are used.
    pub fn dynamic(&mut self, arg: Option<String>)
        ensures
            *final(self) == (gfxd_config { dynamic: arg, ..*old(self) }),
    {
        self.dynamic = arg;
    }

    /// Enables the feature selected by `cap`.
    pub fn enable(&mut self, cap: Cap)
        ensures
            *final(self) == spec_with_cap(*old(self), cap, true),
    {
        match cap {
            Cap::StopOnInvalid => self.stop_on_invalid = true,
            Cap::StopOnEnd => self.stop_on_end = true,
            Cap::EmitDecColor => self.emit_dec_color = true,
            Cap::EmitQMacro => self.emit_q_macro = true,
            Cap::EmitExtMacro => self.emit_ext_macro = true,
        }
    }

    /// Disables the feature selected by `cap`.
    pub fn disable(&mut self, cap: Cap)
        ensures
            *final(self) == spec_with_cap(*old(self), cap, false),
    {
        match cap {
            Cap::StopOnInvalid => self.stop_on_invalid = false,
            Cap::StopOnEnd => self.stop_on_end = false,
            Cap::EmitDecColor => self.emit_dec_color = false,
            Cap::EmitQMacro => self.emit_q_macro = false,
            Cap::EmitExtMacro => self.emit_ext_macro = false,
        }
    }

    /// Uses `buf` as the input buffer.
    pub fn input_buffer(&mut self, buf: Vec<u8>)
        ensures
            *final(self) == (gfxd_config { input: buf, ..*old(self) }),
    {
        self.input = buf;
    }

    /// Installs the macro handler's decoration: `prefix` is written before
    /// each macro's text and `suffix` after it. Both are empty by default,
    /// which leaves the default handler's behaviour of writing the bare
    /// macro text with no separation.
    pub fn macro_decoration(&mut self, prefix: String, suffix: String)
        ensures
            *final(self) == (gfxd_config { macro_prefix: prefix, macro_suffix: suffix, ..*old(self) }),
    {
        self.macro_prefix = prefix;
        self.macro_suffix = suffix;
    }

    /// Installs a callback for the arguments of kind `ty`: such an argument
    /// is rendered as `text` in place of the default formatting. A later
    /// install for the same kind overrides an earlier one.
    pub fn arg_callback(&mut self, ty: crate::arg_type::ArgType, text: String)
        ensures
            final(self).arg_callbacks@ == old(self).arg_callbacks@.insert(
                0,
                (ArgCallback { ty, text }),
            ),
            *final(self) == (gfxd_config {
                arg_callbacks: final(self).arg_callbacks,
                ..*old(self)
            }),
    {
        self.arg_callbacks.insert(0, ArgCallback { ty, text });
    }

    /// Sets the generic address that passes user-defined data in and out
    /// of callback functions.
    pub fn udata_set(&mut self, ptr: usize)
        ensures
            *final(self) == (gfxd_config { udata: ptr, ..*old(self) }),
    {
        self.udata = ptr;
    }

    /// The generic address that passes user-defined data in and out of
    /// callback functions.
    pub fn udata_get(&self) -> (r: usize)
        ensures
            r == self.udata,
    {
        self.udata
    }

    /// Installs the macro handler's cooperative halt rule: with
    /// `Some(halt)`, the handler returns `halt.code` for the macro with
    /// ordinal `halt.nth`, which (when non-zero) stops execution.
    pub fn halt_at(&mut self, halt: Option<HaltAt>)
        ensures
            *final(self) == (gfxd_config { handler_halt: halt, ..*old(self) }),
    {
        self.handler_halt = halt;
    }
}

impl Default for gfxd_config {
    /// The default configuration, as `new` builds it.
    fn default() -> (r: gfxd_config)
        ensures
            spec_default_config(r),
    {
        gfxd_config::new()
    }
}

} // verus!
