//! The output engine: renders one matched macro as text.
//!
//! The default formatter renders pointers as zero-padded hexadecimal, plain
//! words in unpadded hexadecimal, counts and indices in decimal, and a few
//! enumerated kinds as their symbolic constants. Colour components switch
//! from hexadecimal to decimal under the *emit-decimal-colors* feature.

use vstd::prelude::*;
use vstd::string::StringExecFns;
use crate::arg_type::ArgType;
use crate::fmt::{hex8_seq, hex_pref_seq, int_seq, push_dec, push_hex, push_hex8, push_i32};
use crate::config::ArgCallback;
use crate::macro_info::{Arg, ArgValue};
use crate::ucode::{MacroId, macro_name_str, spec_macro_name};

verus! {

/// The symbolic name of a move-word index, where one is defined.
pub open spec fn spec_mw_name(index: i32) -> Option<Seq<char>> {
    if index == 0 {
        Some("G_MW_MATRIX"@)
    } else if index == 2 {
        Some("G_MW_NUMLIGHT"@)
    } else if index == 4 {
        Some("G_MW_CLIP"@)
    } else if index == 6 {
        Some("G_MW_SEGMENT"@)
    } else if index == 8 {
        Some("G_MW_FOG"@)
    } else if index == 10 {
        Some("G_MW_LIGHTCOL"@)
    } else if index == 12 {
        Some("G_MW_FORCEMTX"@)
    } else if index == 14 {
        Some("G_MW_PERSPNORM"@)
    } else {
        None
    }
}

/// The symbolic name of a move-word index, where one is defined.
fn mw_name(index: i32) -> (r: Option<&'static str>)
    ensures
        match r {
            Some(s) => spec_mw_name(index) == Some(s@),
            None => (spec_mw_name(index) is None),
        },
{
    if index == 0 {
        Some("G_MW_MATRIX")
    } else if index == 2 {
        Some("G_MW_NUMLIGHT")
    } else if index == 4 {
        Some("G_MW_CLIP")
    } else if index == 6 {
        Some("G_MW_SEGMENT")
    } else if index == 8 {
        Some("G_MW_FOG")
    } else if index == 10 {
        Some("G_MW_LIGHTCOL")
    } else if index == 12 {
        Some("G_MW_FORCEMTX")
    } else if index == 14 {
        Some("G_MW_PERSPNORM")
    } else {
        None
    }
}

/// The default textual rendering of one argument.
pub open spec fn spec_arg_text(a: Arg, dec_color: bool) -> Seq<char> {
    match a.ty {
        ArgType::gfxd_Colorpart => if dec_color {
            int_seq(a.value.spec_as_i32())
        } else {
            hex_pref_seq(a.value.spec_as_u32() as int)
        },
        ArgType::gfxd_Num => int_seq(a.value.spec_as_i32()),
        ArgType::gfxd_Vtx => int_seq(a.value.spec_as_i32()),
        ArgType::gfxd_Vtxflag => int_seq(a.value.spec_as_i32()),
        ArgType::gfxd_Tile => int_seq(a.value.spec_as_i32()),
        ArgType::gfxd_Seg => int_seq(a.value.spec_as_i32()),
        ArgType::gfxd_Lodfrac => int_seq(a.value.spec_as_i32()),
        ArgType::gfxd_Coordi => int_seq(a.value.spec_as_i32()),
        ArgType::gfxd_Pal => int_seq(a.value.spec_as_i32()),
        ArgType::gfxd_Zi => int_seq(a.value.spec_as_i32()),
        ArgType::gfxd_Vtxptr => hex8_seq(a.value.spec_as_u32()),
        ArgType::gfxd_Dl => hex8_seq(a.value.spec_as_u32()),
        ArgType::gfxd_Segptr => hex8_seq(a.value.spec_as_u32()),
        ArgType::gfxd_Lightptr => hex8_seq(a.value.spec_as_u32()),
        ArgType::gfxd_Tlut => hex8_seq(a.value.spec_as_u32()),
        ArgType::gfxd_Timg => hex8_seq(a.value.spec_as_u32()),
        ArgType::gfxd_Cimg => hex8_seq(a.value.spec_as_u32()),
        ArgType::gfxd_Zimg => hex8_seq(a.value.spec_as_u32()),
        ArgType::gfxd_Mtxptr => hex8_seq(a.value.spec_as_u32()),
        ArgType::gfxd_Dram => hex8_seq(a.value.spec_as_u32()),
        ArgType::gfxd_Lightsn => "*(Lightsn *)"@ + hex8_seq(a.value.spec_as_u32()),
        ArgType::gfxd_Switch => if a.value.spec_as_u32() == 0 {
            "G_OFF"@
        } else if a.value.spec_as_u32() == 1 {
            "G_ON"@
        } else {
            int_seq(a.value.spec_as_i32())
        },
        ArgType::gfxd_Numlights => "NUMLIGHTS_"@ + int_seq(a.value.spec_as_i32()),
        ArgType::gfxd_Gm => gm_text(a.value.spec_as_u32()),
        ArgType::gfxd_Mw => match spec_mw_name(a.value.spec_as_i32()) {
            Some(n) => n,
            None => hex_pref_seq(a.value.spec_as_u32() as int),
        },
        ArgType::gfxd_Word => match a.value {
            ArgValue::Raw(r) => hex_pref_seq(r as int),
            _ => hex_pref_seq(a.value.spec_as_u32() as int),
        },
        _ => hex_pref_seq(a.value.spec_as_u32() as int),
    }
}

/// Appends the default textual rendering of one argument.
#[verifier::rlimit(50)]
pub fn push_arg(s: &mut String, a: Arg, dec_color: bool)
    ensures
        final(s)@ == old(s)@ + spec_arg_text(a, dec_color),
{
    match a.ty {
        ArgType::gfxd_Colorpart => {
            if dec_color {
                push_i32(s, a.value.as_i32());
            } else {
                push_hex(s, a.value.as_u32() as u64);
            }
        },
        ArgType::gfxd_Num => push_i32(s, a.value.as_i32()),
        ArgType::gfxd_Vtx => push_i32(s, a.value.as_i32()),
        ArgType::gfxd_Vtxflag => push_i32(s, a.value.as_i32()),
        ArgType::gfxd_Tile => push_i32(s, a.value.as_i32()),
        ArgType::gfxd_Seg => push_i32(s, a.value.as_i32()),
        ArgType::gfxd_Lodfrac => push_i32(s, a.value.as_i32()),
        ArgType::gfxd_Coordi => push_i32(s, a.value.as_i32()),
        ArgType::gfxd_Pal => push_i32(s, a.value.as_i32()),
        ArgType::gfxd_Zi => push_i32(s, a.value.as_i32()),
        ArgType::gfxd_Vtxptr => push_hex8(s, a.value.as_u32()),
        ArgType::gfxd_Dl => push_hex8(s, a.value.as_u32()),
        ArgType::gfxd_Segptr => push_hex8(s, a.value.as_u32()),
        ArgType::gfxd_Lightptr => push_hex8(s, a.value.as_u32()),
        ArgType::gfxd_Tlut => push_hex8(s, a.value.as_u32()),
        ArgType::gfxd_Timg => push_hex8(s, a.value.as_u32()),
        ArgType::gfxd_Cimg => push_hex8(s, a.value.as_u32()),
        ArgType::gfxd_Zimg => push_hex8(s, a.value.as_u32()),
        ArgType::gfxd_Mtxptr => push_hex8(s, a.value.as_u32()),
        ArgType::gfxd_Dram => push_hex8(s, a.value.as_u32()),
        ArgType::gfxd_Lightsn => {
            s.append("*(Lightsn *)");
            push_hex8(s, a.value.as_u32());
            proof {
                assert(final(s)@ =~= old(s)@ + spec_arg_text(a, dec_color));
            }
        },
        ArgType::gfxd_Switch => {
            let v = a.value.as_u32();
            if v == 0 {
                s.append("G_OFF");
            } else if v == 1 {
                s.append("G_ON");
            } else {
                push_i32(s, a.value.as_i32());
            }
        },
        ArgType::gfxd_Numlights => {
            s.append("NUMLIGHTS_");
            push_i32(s, a.value.as_i32());
            proof {
                assert(final(s)@ =~= old(s)@ + spec_arg_text(a, dec_color));
            }
        },
        ArgType::gfxd_Gm => {
            push_gm_from(s, a.value.as_u32(), 0, false);
        },
        ArgType::gfxd_Mw => {
            match mw_name(a.value.as_i32()) {
                Some(n) => s.append(n),
                None => push_hex(s, a.value.as_u32() as u64),
            }
        },
        ArgType::gfxd_Word => {
            match a.value {
                ArgValue::Raw(r) => push_hex(s, r),
                _ => push_hex(s, a.value.as_u32() as u64),
            }
        },
        _ => push_hex(s, a.value.as_u32() as u64),
    }
}


/// The replacement text installed for arguments of kind `ty`, if any; the
/// newest install wins.
pub open spec fn spec_override(cbs: Seq<ArgCallback>, ty: ArgType) -> Option<Seq<char>>
    decreases cbs.len(),
{
    if cbs.len() == 0 {
        None
    } else if cbs[0].ty == ty {
        Some(cbs[0].text@)
    } else {
        spec_override(cbs.skip(1), ty)
    }
}

/// The rendering of one argument through the argument handler: the
/// installed callback's text when one exists for the argument's kind, the
/// default formatting otherwise.
pub open spec fn spec_arg_render(a: Arg, cbs: Seq<ArgCallback>, dec_color: bool) -> Seq<char> {
    match spec_override(cbs, a.ty) {
        Some(t) => t,
        None => spec_arg_text(a, dec_color),
    }
}

/// Looks up the replacement text installed for arguments of kind `ty`.
fn find_override<'a>(cbs: &'a Vec<ArgCallback>, ty: ArgType) -> (r: Option<&'a String>)
    ensures
        match r {
            Some(t) => spec_override(cbs@, ty) == Some(t@),
            None => (spec_override(cbs@, ty) is None),
        },
{
    let mut k: usize = 0;
    proof {
        assert(cbs@.skip(0) =~= cbs@);
    }
    while k < cbs.len()
        invariant
            k <= cbs@.len(),
            spec_override(cbs@, ty) == spec_override(cbs@.skip(k as int), ty),
        decreases cbs@.len() - k,
    {
        proof {
            assert(cbs@.skip(k as int)[0] == cbs@[k as int]);
            assert(cbs@.skip(k as int).skip(1) =~= cbs@.skip(k as int + 1));
        }
        if cbs[k].ty == ty {
            return Some(&cbs[k].text);
        }
        k = k + 1;
    }
    proof {
        assert(cbs@.skip(k as int).len() == 0);
    }
    None
}

/// Appends the rendering of one argument through the argument handler.
fn push_arg_render(s: &mut String, a: Arg, cbs: &Vec<ArgCallback>, dec_color: bool)
    ensures
        final(s)@ == old(s)@ + spec_arg_render(a, cbs@, dec_color),
{
    match find_override(cbs, a.ty) {
        Some(t) => {
            let piece = t.clone();
            s.append(piece.as_str());
        },
        None => push_arg(s, a, dec_color),
    }
}

/// The comma-separated rendering of the arguments from index `k` on.
pub open spec fn spec_args_from(args: Seq<Arg>, k: int, cbs: Seq<ArgCallback>, dec_color: bool) -> Seq<char>
    decreases args.len() - k,
{
    if k < 0 || k >= args.len() {
        Seq::empty()
    } else if k == args.len() - 1 {
        spec_arg_render(args[k], cbs, dec_color)
    } else {
        spec_arg_render(args[k], cbs, dec_color) + ", "@ + spec_args_from(args, k + 1, cbs, dec_color)
    }
}

/// Appends the comma-separated rendering of the arguments from index `k`
/// on.
pub fn push_args_from(s: &mut String, args: &Vec<Arg>, k: usize, cbs: &Vec<ArgCallback>, dec_color: bool)
    requires
        k <= args@.len(),
    ensures
        final(s)@ == old(s)@ + spec_args_from(args@, k as int, cbs@, dec_color),
    decreases args@.len() - k,
{
    if k < args.len() {
        push_arg_render(s, args[k], cbs, dec_color);
        if k + 1 < args.len() {
            s.append(", ");
            push_args_from(s, args, k + 1, cbs, dec_color);
        }
        proof {
            assert(final(s)@ =~= old(s)@ + spec_args_from(args@, k as int, cbs@, dec_color));
        }
    }
}

/// The full rendering of one macro: its name (dynamic form when a dynamic
/// display-list literal is configured, which is then emitted as the first
/// argument), then the comma-separated arguments in parentheses.
pub open spec fn spec_macro_text(
    id: MacroId,
    args: Seq<Arg>,
    dynamic: Option<Seq<char>>,
    cbs: Seq<ArgCallback>,
    dec_color: bool,
) -> Seq<char> {
    spec_macro_name(id, dynamic is Some) + "("@ + (match dynamic {
        Some(d) => if args.len() > 0 {
            d + ", "@
        } else {
            d
        },
        None => Seq::empty(),
    }) + spec_args_from(args, 0, cbs, dec_color) + ")"@
}

/// The view of an optional dynamic display-list literal.
pub open spec fn spec_dyn_view(dynamic: Option<String>) -> Option<Seq<char>> {
    match dynamic {
        Some(d) => Some(d@),
        None => None,
    }
}

/// Appends the full rendering of one macro.
pub fn push_macro_text(
    s: &mut String,
    id: MacroId,
    args: &Vec<Arg>,
    dynamic: &Option<String>,
    cbs: &Vec<ArgCallback>,
    dec_color: bool,
)
    ensures
        final(s)@ == old(s)@ + spec_macro_text(id, args@, spec_dyn_view(*dynamic), cbs@, dec_color),
{
    let is_dyn = match dynamic {
        Some(_) => true,
        None => false,
    };
    s.append(macro_name_str(id, is_dyn));
    s.append("(");
    match dynamic {
        Some(d) => {
            s.append(d.as_str());
            if args.len() > 0 {
                s.append(", ");
            }
        },
        None => {},
    }
    push_args_from(s, args, 0, cbs, dec_color);
    s.append(")");
    proof {
        assert(final(s)@ =~= old(s)@ + spec_macro_text(
            id,
            args@,
            spec_dyn_view(*dynamic),
            cbs@,
            dec_color,
        ));
    }
}



/// Number of named geometry-mode flags.
pub open spec fn gm_flag_count() -> int {
    10
}

/// The mask of the `k`-th named geometry-mode flag.
pub open spec fn gm_flag_mask(k: int) -> u32 {
    if k == 0 {
        0x00000001
    } else if k == 1 {
        0x00000004
    } else if k == 2 {
        0x00000200
    } else if k == 3 {
        0x00000400
    } else if k == 4 {
        0x00010000
    } else if k == 5 {
        0x00020000
    } else if k == 6 {
        0x00040000
    } else if k == 7 {
        0x00080000
    } else if k == 8 {
        0x00200000
    } else if k == 9 {
        0x00800000
    } else {
        0
    }
}

/// The symbolic name of the `k`-th named geometry-mode flag.
pub open spec fn gm_flag_name(k: int) -> Seq<char> {
    if k == 0 {
        "G_ZBUFFER"@
    } else if k == 1 {
        "G_SHADE"@
    } else if k == 2 {
        "G_CULL_FRONT"@
    } else if k == 3 {
        "G_CULL_BACK"@
    } else if k == 4 {
        "G_FOG"@
    } else if k == 5 {
        "G_LIGHTING"@
    } else if k == 6 {
        "G_TEXTURE_GEN"@
    } else if k == 7 {
        "G_TEXTURE_GEN_LINEAR"@
    } else if k == 8 {
        "G_SHADING_SMOOTH"@
    } else if k == 9 {
        "G_CLIPPING"@
    } else {
        ""@
    }
}

/// The mask of all named geometry-mode flags.
pub open spec fn gm_known_mask() -> u32 {
    0x00af0605
}

/// The separator before a further term of an OR-expression.
pub open spec fn gm_sep(any: bool) -> Seq<char> {
    if any {
        " | "@
    } else {
        Seq::empty()
    }
}

/// The OR-expression for a geometry-mode word, from the `k`-th flag on:
/// the names of the set flags joined with `|`, the unknown set bits OR-ed
/// in as one hexadecimal residue, and `0` when no bit at all is set.
pub open spec fn gm_from(v: u32, k: int, any: bool) -> Seq<char>
    decreases gm_flag_count() - k + 1,
{
    if k < 0 || k >= gm_flag_count() {
        let residue = v & !gm_known_mask();
        if residue != 0 {
            gm_sep(any) + hex_pref_seq(residue as int)
        } else if !any {
            "0"@
        } else {
            Seq::empty()
        }
    } else if v & gm_flag_mask(k) != 0 {
        gm_sep(any) + gm_flag_name(k) + gm_from(v, k + 1, true)
    } else {
        gm_from(v, k + 1, any)
    }
}

/// The OR-expression for a geometry-mode word.
pub open spec fn gm_text(v: u32) -> Seq<char> {
    gm_from(v, 0, false)
}

/// The mask and symbolic name of the `k`-th named geometry-mode flag.
fn gm_flag(k: usize) -> (r: (u32, &'static str))
    requires
        k < gm_flag_count(),
    ensures
        r.0 == gm_flag_mask(k as int),
        r.1@ == gm_flag_name(k as int),
{
    if k == 0 {
        (0x00000001, "G_ZBUFFER")
    } else if k == 1 {
        (0x00000004, "G_SHADE")
    } else if k == 2 {
        (0x00000200, "G_CULL_FRONT")
    } else if k == 3 {
        (0x00000400, "G_CULL_BACK")
    } else if k == 4 {
        (0x00010000, "G_FOG")
    } else if k == 5 {
        (0x00020000, "G_LIGHTING")
    } else if k == 6 {
        (0x00040000, "G_TEXTURE_GEN")
    } else if k == 7 {
        (0x00080000, "G_TEXTURE_GEN_LINEAR")
    } else if k == 8 {
        (0x00200000, "G_SHADING_SMOOTH")
    } else if k == 9 {
        (0x00800000, "G_CLIPPING")
    } else {
        (0, "")
    }
}

/// Appends the OR-expression for a geometry-mode word, from the `k`-th
/// flag on.
fn push_gm_from(s: &mut String, v: u32, k: usize, any: bool)
    requires
        k <= gm_flag_count(),
    ensures
        final(s)@ == old(s)@ + gm_from(v, k as int, any),
    decreases gm_flag_count() - k,
{
    if k >= 10 {
        let residue = v & !0x00af0605u32;
        if residue != 0 {
            if any {
                s.append(" | ");
            }
            push_hex(s, residue as u64);
        } else if !any {
            s.append("0");
        }
        proof {
            assert(final(s)@ =~= old(s)@ + gm_from(v, k as int, any));
        }
    } else {
        let (mask, name) = gm_flag(k);
        if v & mask != 0 {
            if any {
                s.append(" | ");
            }
            s.append(name);
            push_gm_from(s, v, k + 1, true);
        } else {
            push_gm_from(s, v, k + 1, any);
        }
        proof {
            assert(final(s)@ =~= old(s)@ + gm_from(v, k as int, any));
        }
    }
}

/// Renders one type-formatted value, as the default formatter prints a
/// macro argument of kind `ty`.
pub fn print_value(ty: ArgType, value: ArgValue, dec_color: bool) -> (r: String)
    ensures
        r@ == spec_arg_text(Arg { ty, value }, dec_color),
{
    let mut s = String::new();
    push_arg(&mut s, Arg { ty, value }, dec_color);
    proof {
        assert(s@ =~= spec_arg_text(Arg { ty, value }, dec_color));
    }
    s
}

} // verus!
