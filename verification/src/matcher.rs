//! The matcher and argument decoder: identifies the macro encoded at the
//! packet cursor, consuming one packet or — for a multi-packet recognizer —
//! several consecutive packets, and extracts the typed argument values.
//!
//! Within an opcode bucket the candidates are tried from most specific to
//! least specific; a packet matching no candidate yields the invalid
//! sentinel. A matched macro is *valid* exactly when re-encoding it from its
//! decoded argument values reproduces the original packets bit for bit.

use vstd::prelude::*;
use crate::arg_type::ArgType;
use crate::macro_info::{Arg, ArgValue};
use crate::packet::{Packet, spec_opcode};
use crate::ucode::{MacroId, UcodeId};

verus! {

/// Result of matching at a packet cursor, at the specification level.
pub struct SpecMatch {
    pub id: MacroId,
    pub count: int,
    pub args: Seq<Arg>,
    pub valid: bool,
}

/// Result of matching at a packet cursor: the macro identity, the number of
/// packets consumed, the decoded arguments, and the validity flag.
pub struct MacroMatch {
    pub id: MacroId,
    pub count: usize,
    pub args: Vec<Arg>,
    pub valid: bool,
}

/// Whether an executable match result equals a specification-level one.
pub open spec fn m_matches(r: MacroMatch, s: SpecMatch) -> bool {
    r.id == s.id && r.count == s.count && r.args@ == s.args && r.valid == s.valid
}

/// An argument carrying an unsigned 32-bit value.
pub open spec fn arg_u(ty: ArgType, v: u32) -> Arg {
    Arg { ty, value: ArgValue::U(v) }
}

/// An argument carrying a signed 32-bit value.
pub open spec fn arg_i(ty: ArgType, v: i32) -> Arg {
    Arg { ty, value: ArgValue::I(v) }
}

/// The arguments of the invalid sentinel: the raw 64-bit word.
pub open spec fn invalid_args(p: Packet) -> Seq<Arg> {
    seq![Arg { ty: ArgType::gfxd_Word, value: ArgValue::Raw(((p.w0 as int) * 0x100000000 + (p.w1 as int)) as u64) }]
}

/// The invalid sentinel match for one packet.
pub open spec fn spec_invalid(p: Packet) -> SpecMatch {
    SpecMatch { id: MacroId::Invalid, count: 1, args: invalid_args(p), valid: false }
}

/// A single-packet match whose validity is decided by re-encoding.
pub open spec fn spec_single(u: UcodeId, id: MacroId, args: Seq<Arg>, p: Packet) -> SpecMatch {
    SpecMatch { id, count: 1, args, valid: spec_encode(u, id, args) == Some(seq![p]) }
}

/// Whether three consecutive packets form the `SPSetLights1` idiom: a
/// `NUMLIGHT` move-word announcing one light, a move-mem writing the light,
/// and a move-mem writing the ambient light 8 bytes below it.
pub open spec fn spec_is_setlights1(p0: Packet, p1: Packet, p2: Packet) -> bool {
    &&& p0.w0 == 0xdb020000u32
    &&& p0.w1 == 0x18u32
    &&& p1.w0 == 0xdc08060au32
    &&& p2.w0 == 0xdc08090au32
    &&& p1.w1 as int == p2.w1 as int + 8
}

/// Whether four consecutive packets form the `SPSetLights2` idiom: a
/// `NUMLIGHT` move-word announcing two lights, two move-mems writing the
/// lights, and a move-mem writing the ambient light below them.
pub open spec fn spec_is_setlights2(p0: Packet, p1: Packet, p2: Packet, p3: Packet) -> bool {
    &&& p0.w0 == 0xdb020000u32
    &&& p0.w1 == 0x30u32
    &&& p1.w0 == 0xdc08060au32
    &&& p2.w0 == 0xdc08090au32
    &&& p3.w0 == 0xdc080c0au32
    &&& p1.w1 as int == p3.w1 as int + 8
    &&& p2.w1 as int == p3.w1 as int + 24
}

/// Matching for the `F3DEX2` microcode at cursor `i`.
#[verifier::opaque]
pub open spec fn spec_match_f3dex2(ext: bool, pkts: Seq<Packet>, i: int) -> SpecMatch
    recommends
        0 <= i < pkts.len(),
{
    let p = pkts[i];
    let op = spec_opcode(p);
    let u = UcodeId::F3dex2;
    if op == 0x00 {
        if p.w0 == 0 {
            if p.w1 == 0 {
                spec_single(u, MacroId::DPNoOp, Seq::empty(), p)
            } else {
                spec_single(u, MacroId::DPNoOpTag, seq![arg_u(ArgType::gfxd_Tag, p.w1)], p)
            }
        } else {
            spec_invalid(p)
        }
    } else if op == 0x01 {
        if (p.w0 >> 20) & 0xf == 0 && (p.w0 >> 8) & 0xf == 0 && p.w0 & 1 == 0 {
            let n = (p.w0 >> 12) & 0xff;
            let vend = (p.w0 >> 1) & 0x7f;
            spec_single(
                u,
                MacroId::SPVertex,
                seq![
                    arg_u(ArgType::gfxd_Vtxptr, p.w1),
                    arg_i(ArgType::gfxd_Num, n as i32),
                    arg_i(ArgType::gfxd_Vtx, ((vend as int) - (n as int)) as i32),
                ],
                p,
            )
        } else {
            spec_invalid(p)
        }
    } else if op == 0x02 {
        spec_single(
            u,
            MacroId::SPModifyVertex,
            seq![
                arg_i(ArgType::gfxd_Vtx, ((p.w0 & 0xffff) / 2) as i32),
                arg_u(ArgType::gfxd_Mwo_point, (p.w0 >> 16) & 0xff),
                arg_u(ArgType::gfxd_Word, p.w1),
            ],
            p,
        )
    } else if op == 0x03 {
        if (p.w1 >> 16) & 0xffff == 0 {
            spec_single(
                u,
                MacroId::SPCullDisplayList,
                seq![
                    arg_i(ArgType::gfxd_Vtx, ((p.w0 & 0xffff) / 2) as i32),
                    arg_i(ArgType::gfxd_Vtx, ((p.w1 & 0xffff) / 2) as i32),
                ],
                p,
            )
        } else {
            spec_invalid(p)
        }
    } else if op == 0x05 {
        if p.w1 == 0 {
            spec_single(
                u,
                MacroId::SP1Triangle,
                seq![
                    arg_i(ArgType::gfxd_Vtx, (((p.w0 >> 16) & 0xff) / 2) as i32),
                    arg_i(ArgType::gfxd_Vtx, (((p.w0 >> 8) & 0xff) / 2) as i32),
                    arg_i(ArgType::gfxd_Vtx, ((p.w0 & 0xff) / 2) as i32),
                    arg_i(ArgType::gfxd_Vtxflag, 0),
                ],
                p,
            )
        } else {
            spec_invalid(p)
        }
    } else if op == 0x06 {
        if (p.w1 >> 24) & 0xff == 0 {
            spec_single(
                u,
                MacroId::SP2Triangles,
                seq![
                    arg_i(ArgType::gfxd_Vtx, (((p.w0 >> 16) & 0xff) / 2) as i32),
                    arg_i(ArgType::gfxd_Vtx, (((p.w0 >> 8) & 0xff) / 2) as i32),
                    arg_i(ArgType::gfxd_Vtx, ((p.w0 & 0xff) / 2) as i32),
                    arg_i(ArgType::gfxd_Vtxflag, 0),
                    arg_i(ArgType::gfxd_Vtx, (((p.w1 >> 16) & 0xff) / 2) as i32),
                    arg_i(ArgType::gfxd_Vtx, (((p.w1 >> 8) & 0xff) / 2) as i32),
                    arg_i(ArgType::gfxd_Vtx, ((p.w1 & 0xff) / 2) as i32),
                    arg_i(ArgType::gfxd_Vtxflag, 0),
                ],
                p,
            )
        } else {
            spec_invalid(p)
        }
    } else if op == 0x07 {
        if (p.w1 >> 24) & 0xff == 0 {
            spec_single(
                u,
                MacroId::SP1Quadrangle,
                seq![
                    arg_i(ArgType::gfxd_Vtx, (((p.w0 >> 16) & 0xff) / 2) as i32),
                    arg_i(ArgType::gfxd_Vtx, (((p.w0 >> 8) & 0xff) / 2) as i32),
                    arg_i(ArgType::gfxd_Vtx, ((p.w0 & 0xff) / 2) as i32),
                    arg_i(ArgType::gfxd_Vtx, ((p.w1 & 0xff) / 2) as i32),
                    arg_i(ArgType::gfxd_Vtxflag, 0),
                ],
                p,
            )
        } else {
            spec_invalid(p)
        }
    } else if op == 0xd9 {
        let low24 = p.w0 & 0xffffff;
        if low24 == 0xffffff {
            spec_single(u, MacroId::SPSetGeometryMode, seq![arg_u(ArgType::gfxd_Gm, p.w1)], p)
        } else if low24 == 0 {
            spec_single(u, MacroId::SPLoadGeometryMode, seq![arg_u(ArgType::gfxd_Gm, p.w1)], p)
        } else if p.w1 == 0 {
            spec_single(
                u,
                MacroId::SPClearGeometryMode,
                seq![arg_u(ArgType::gfxd_Gm, low24 ^ 0xffffff)],
                p,
            )
        } else {
            spec_single(
                u,
                MacroId::SPGeometryMode,
                seq![arg_u(ArgType::gfxd_Gm, low24 ^ 0xffffff), arg_u(ArgType::gfxd_Gm, p.w1)],
                p,
            )
        }
    } else if op == 0xd7 {
        if (p.w0 >> 14) & 0x3ff == 0 && p.w0 & 1 == 0 {
            spec_single(
                u,
                MacroId::SPTexture,
                seq![
                    arg_u(ArgType::gfxd_Tcscale, (p.w1 >> 16) & 0xffff),
                    arg_u(ArgType::gfxd_Tcscale, p.w1 & 0xffff),
                    arg_i(ArgType::gfxd_Num, ((p.w0 >> 11) & 0x7) as i32),
                    arg_i(ArgType::gfxd_Tile, ((p.w0 >> 8) & 0x7) as i32),
                    arg_u(ArgType::gfxd_Switch, (p.w0 >> 1) & 0x7f),
                ],
                p,
            )
        } else {
            spec_invalid(p)
        }
    } else if op == 0xdb {
        if i + 4 <= pkts.len() && spec_is_setlights2(p, pkts[i + 1], pkts[i + 2], pkts[i + 3]) {
            SpecMatch {
                id: MacroId::SPSetLights2,
                count: 4,
                args: seq![arg_u(ArgType::gfxd_Lightsn, pkts[i + 3].w1)],
                valid: spec_encode(u, MacroId::SPSetLights2, seq![arg_u(ArgType::gfxd_Lightsn, pkts[i + 3].w1)])
                    == Some(pkts.subrange(i, i + 4)),
            }
        } else if i + 3 <= pkts.len() && spec_is_setlights1(p, pkts[i + 1], pkts[i + 2]) {
            SpecMatch {
                id: MacroId::SPSetLights1,
                count: 3,
                args: seq![arg_u(ArgType::gfxd_Lightsn, pkts[i + 2].w1)],
                valid: spec_encode(u, MacroId::SPSetLights1, seq![arg_u(ArgType::gfxd_Lightsn, pkts[i + 2].w1)])
                    == Some(pkts.subrange(i, i + 3)),
            }
        } else {
            let index = (p.w0 >> 16) & 0xff;
            let offset = p.w0 & 0xffff;
            if index == 0x02 && offset == 0 && p.w1 % 24 == 0 && 1 <= p.w1 / 24 <= 7 {
                spec_single(
                    u,
                    MacroId::SPNumLights,
                    seq![arg_i(ArgType::gfxd_Numlights, (p.w1 / 24) as i32)],
                    p,
                )
            } else if index == 0x06 && offset % 4 == 0 && offset < 64 {
                spec_single(
                    u,
                    MacroId::SPSegment,
                    seq![
                        arg_i(ArgType::gfxd_Seg, (offset / 4) as i32),
                        arg_u(ArgType::gfxd_Segptr, p.w1),
                    ],
                    p,
                )
            } else {
                spec_single(
                    u,
                    MacroId::MoveWd,
                    seq![
                        arg_i(ArgType::gfxd_Mw, index as i32),
                        arg_u(ArgType::gfxd_Mwo, offset),
                        arg_u(ArgType::gfxd_Word, p.w1),
                    ],
                    p,
                )
            }
        }
    } else if op == 0xdc {
        let idx = p.w0 & 0xff;
        let size_field = (p.w0 >> 19) & 0x1f;
        let pad = (p.w0 >> 16) & 0x7;
        let ofs = ((p.w0 >> 8) & 0xff) * 8;
        if idx == 0x0a && size_field == 1 && pad == 0 && ofs % 24 == 0 && ofs >= 48 {
            spec_single(
                u,
                MacroId::SPLight,
                seq![
                    arg_u(ArgType::gfxd_Lightptr, p.w1),
                    arg_i(ArgType::gfxd_Num, (ofs / 24 - 1) as i32),
                ],
                p,
            )
        } else {
            spec_invalid(p)
        }
    } else if op == 0xde {
        if p.w0 & 0xffff == 0 && (p.w0 >> 16) & 0xff <= 1 {
            if (p.w0 >> 16) & 0xff == 0 {
                spec_single(u, MacroId::SPDisplayList, seq![arg_u(ArgType::gfxd_Dl, p.w1)], p)
            } else {
                spec_single(u, MacroId::SPBranchList, seq![arg_u(ArgType::gfxd_Dl, p.w1)], p)
            }
        } else {
            spec_invalid(p)
        }
    } else if op == 0xdf {
        if p.w0 == 0xdf000000 && p.w1 == 0 {
            spec_single(u, MacroId::SPEndDisplayList, Seq::empty(), p)
        } else {
            spec_invalid(p)
        }
    } else if op == 0xe0 {
        if p.w0 == 0xe0000000 && p.w1 == 0 {
            spec_single(u, MacroId::SPNoOp, Seq::empty(), p)
        } else {
            spec_invalid(p)
        }
    } else if op == 0xe1 && ext {
        if p.w0 == 0xe1000000 {
            spec_single(u, MacroId::DPHalf1, seq![arg_u(ArgType::gfxd_Word, p.w1)], p)
        } else {
            spec_invalid(p)
        }
    } else {
        spec_match_rdp(u, p)
    }
}

/// Matching for the RDP commands shared by all five microcodes.
#[verifier::opaque]
pub open spec fn spec_match_rdp(u: UcodeId, p: Packet) -> SpecMatch {
    let op = spec_opcode(p);
    if op == 0xe6 && p.w0 == 0xe6000000 && p.w1 == 0 {
        spec_single(u, MacroId::DPLoadSync, Seq::empty(), p)
    } else if op == 0xe7 && p.w0 == 0xe7000000 && p.w1 == 0 {
        spec_single(u, MacroId::DPPipeSync, Seq::empty(), p)
    } else if op == 0xe8 && p.w0 == 0xe8000000 && p.w1 == 0 {
        spec_single(u, MacroId::DPTileSync, Seq::empty(), p)
    } else if op == 0xe9 && p.w0 == 0xe9000000 && p.w1 == 0 {
        spec_single(u, MacroId::DPFullSync, Seq::empty(), p)
    } else if op == 0xf7 && p.w0 == 0xf7000000 {
        spec_single(u, MacroId::DPSetFillColor, seq![arg_u(ArgType::gfxd_Color, p.w1)], p)
    } else if op == 0xf8 && p.w0 == 0xf8000000 {
        spec_single(u, MacroId::DPSetFogColor, color_args(p.w1), p)
    } else if op == 0xf9 && p.w0 == 0xf9000000 {
        spec_single(u, MacroId::DPSetBlendColor, color_args(p.w1), p)
    } else if op == 0xfa && (p.w0 >> 16) & 0xff == 0 {
        spec_single(
            u,
            MacroId::DPSetPrimColor,
            seq![
                arg_i(ArgType::gfxd_Lodfrac, ((p.w0 >> 8) & 0xff) as i32),
                arg_i(ArgType::gfxd_Lodfrac, (p.w0 & 0xff) as i32),
            ] + color_args(p.w1),
            p,
        )
    } else if op == 0xee && p.w0 == 0xee000000 {
        spec_single(
            u,
            MacroId::DPSetPrimDepth,
            seq![arg_i(ArgType::gfxd_Zi, sign16((p.w1 >> 16) & 0xffff)), arg_i(ArgType::gfxd_Zi, sign16(p.w1 & 0xffff))],
            p,
        )
    } else if op == 0xf6 {
        if (p.w1 >> 24) & 0xff == 0 {
            spec_single(
                u,
                MacroId::DPFillRectangle,
                seq![
                    arg_i(ArgType::gfxd_Coordi, (((p.w1 >> 12) & 0xfff) / 4) as i32),
                    arg_i(ArgType::gfxd_Coordi, ((p.w1 & 0xfff) / 4) as i32),
                    arg_i(ArgType::gfxd_Coordi, (((p.w0 >> 12) & 0xfff) / 4) as i32),
                    arg_i(ArgType::gfxd_Coordi, ((p.w0 & 0xfff) / 4) as i32),
                ],
                p,
            )
        } else {
            spec_invalid(p)
        }
    } else if op == 0xfb && p.w0 == 0xfb000000 {
        spec_single(u, MacroId::DPSetEnvColor, color_args(p.w1), p)
    } else {
        spec_invalid(p)
    }
}

/// A 16-bit field read as a signed value.
pub open spec fn sign16(v: u32) -> i32 {
    if v >= 0x8000 {
        ((v as int) - 0x10000) as i32
    } else {
        v as i32
    }
}

/// The four 8-bit colour components of a word, red to alpha.
pub open spec fn color_args(w: u32) -> Seq<Arg> {
    seq![
        arg_i(ArgType::gfxd_Colorpart, ((w >> 24) & 0xff) as i32),
        arg_i(ArgType::gfxd_Colorpart, ((w >> 16) & 0xff) as i32),
        arg_i(ArgType::gfxd_Colorpart, ((w >> 8) & 0xff) as i32),
        arg_i(ArgType::gfxd_Colorpart, (w & 0xff) as i32),
    ]
}

/// Matching for the `F3D` family (`F3D`, `F3DB`, `F3DEX`, `F3DEXB`) at
/// cursor `i`: the RSP commands modelled here, and the shared RDP commands.
#[verifier::opaque]
pub open spec fn spec_match_f3d(u: UcodeId, pkts: Seq<Packet>, i: int) -> SpecMatch
    recommends
        0 <= i < pkts.len(),
{
    let p = pkts[i];
    let op = spec_opcode(p);
    if op == 0x00 {
        if p.w0 == 0 && p.w1 == 0 {
            spec_single(u, MacroId::SPNoOp, Seq::empty(), p)
        } else {
            spec_invalid(p)
        }
    } else if op == 0x06 {
        if p.w0 & 0xffff == 0 && (p.w0 >> 16) & 0xff <= 1 {
            if (p.w0 >> 16) & 0xff == 0 {
                spec_single(u, MacroId::SPDisplayList, seq![arg_u(ArgType::gfxd_Dl, p.w1)], p)
            } else {
                spec_single(u, MacroId::SPBranchList, seq![arg_u(ArgType::gfxd_Dl, p.w1)], p)
            }
        } else {
            spec_invalid(p)
        }
    } else if op == 0x04 {
        if u == UcodeId::F3dex || u == UcodeId::F3dexb {
            spec_single(
                u,
                MacroId::SPVertex,
                seq![
                    arg_u(ArgType::gfxd_Vtxptr, p.w1),
                    arg_i(ArgType::gfxd_Num, ((p.w0 >> 10) & 0x3f) as i32),
                    arg_i(ArgType::gfxd_Vtx, (((p.w0 >> 16) & 0xff) / 2) as i32),
                ],
                p,
            )
        } else {
            spec_single(
                u,
                MacroId::SPVertex,
                seq![
                    arg_u(ArgType::gfxd_Vtxptr, p.w1),
                    arg_i(ArgType::gfxd_Num, (((p.w0 >> 20) & 0xf) + 1) as i32),
                    arg_i(ArgType::gfxd_Vtx, ((p.w0 >> 16) & 0xf) as i32),
                ],
                p,
            )
        }
    } else if op == 0xbf {
        if p.w0 == 0xbf000000 {
            let f = if u == UcodeId::F3dex || u == UcodeId::F3dexb {
                2u32
            } else {
                10u32
            };
            spec_single(
                u,
                MacroId::SP1Triangle,
                seq![
                    arg_i(ArgType::gfxd_Vtx, (((p.w1 >> 16) & 0xff) / f) as i32),
                    arg_i(ArgType::gfxd_Vtx, (((p.w1 >> 8) & 0xff) / f) as i32),
                    arg_i(ArgType::gfxd_Vtx, ((p.w1 & 0xff) / f) as i32),
                    arg_i(ArgType::gfxd_Vtxflag, 0),
                ],
                p,
            )
        } else {
            spec_invalid(p)
        }
    } else if op == 0xb1 && (u == UcodeId::F3dex || u == UcodeId::F3dexb) {
        spec_single(
            u,
            MacroId::SP2Triangles,
            seq![
                arg_i(ArgType::gfxd_Vtx, (((p.w0 >> 16) & 0xff) / 2) as i32),
                arg_i(ArgType::gfxd_Vtx, (((p.w0 >> 8) & 0xff) / 2) as i32),
                arg_i(ArgType::gfxd_Vtx, ((p.w0 & 0xff) / 2) as i32),
                arg_i(ArgType::gfxd_Vtxflag, 0),
                arg_i(ArgType::gfxd_Vtx, (((p.w1 >> 16) & 0xff) / 2) as i32),
                arg_i(ArgType::gfxd_Vtx, (((p.w1 >> 8) & 0xff) / 2) as i32),
                arg_i(ArgType::gfxd_Vtx, ((p.w1 & 0xff) / 2) as i32),
                arg_i(ArgType::gfxd_Vtxflag, 0),
            ],
            p,
        )
    } else if op == 0xb8 {
        if p.w0 == 0xb8000000 && p.w1 == 0 {
            spec_single(u, MacroId::SPEndDisplayList, Seq::empty(), p)
        } else {
            spec_invalid(p)
        }
    } else if op == 0xc0 {
        if p.w0 == 0xc0000000 {
            if p.w1 == 0 {
                spec_single(u, MacroId::DPNoOp, Seq::empty(), p)
            } else {
                spec_single(u, MacroId::DPNoOpTag, seq![arg_u(ArgType::gfxd_Tag, p.w1)], p)
            }
        } else {
            spec_invalid(p)
        }
    } else {
        spec_match_rdp(u, p)
    }
}

/// Matching at cursor `i` under the selected microcode.
pub open spec fn spec_match(u: UcodeId, ext: bool, pkts: Seq<Packet>, i: int) -> SpecMatch
    recommends
        0 <= i < pkts.len(),
{
    match u {
        UcodeId::F3dex2 => spec_match_f3dex2(ext, pkts, i),
        _ => spec_match_f3d(u, pkts, i),
    }
}

/// Re-encodes a macro from its decoded argument values. `None` when the
/// identity is the invalid sentinel or the argument list cannot be the
/// decoding of any packet group of this macro.
pub open spec fn spec_encode(u: UcodeId, id: MacroId, args: Seq<Arg>) -> Option<Seq<Packet>> {
    let ex2 = u == UcodeId::F3dex2;
    match id {
        MacroId::Invalid => None,
        MacroId::DPNoOp => if args.len() == 0 {
            Some(seq![Packet { w0: if ex2 { 0 } else { 0xc0000000 }, w1: 0 }])
        } else {
            None
        },
        MacroId::DPNoOpTag => spec_encode_word1(
            args,
            ArgType::gfxd_Tag,
            if ex2 { 0 } else { 0xc0000000 },
        ),
        MacroId::SPNoOp => if args.len() == 0 {
            Some(seq![Packet { w0: if ex2 { 0xe0000000 } else { 0 }, w1: 0 }])
        } else {
            None
        },
        MacroId::SPVertex => match u {
            UcodeId::F3dex2 => spec_encode_vertex(args),
            UcodeId::F3dex | UcodeId::F3dexb => spec_encode_vertex_f3dex(args),
            _ => spec_encode_vertex_f3d(args),
        },
        MacroId::SPModifyVertex => spec_encode_modifyvtx(args),
        MacroId::SPCullDisplayList => spec_encode_culldl(args),
        MacroId::SP1Triangle => match u {
            UcodeId::F3dex2 => spec_encode_tri1(args),
            UcodeId::F3dex | UcodeId::F3dexb => spec_encode_tri1_w1(args, 2),
            _ => spec_encode_tri1_w1(args, 10),
        },
        MacroId::SP2Triangles => match u {
            UcodeId::F3dex2 => spec_encode_tri2(args),
            UcodeId::F3dex | UcodeId::F3dexb => spec_encode_tri2_f3dex(args),
            _ => None,
        },
        MacroId::SP1Quadrangle => spec_encode_quad(args),
        MacroId::SPSetGeometryMode => spec_encode_word1(args, ArgType::gfxd_Gm, 0xd9ffffff),
        MacroId::SPLoadGeometryMode => spec_encode_word1(args, ArgType::gfxd_Gm, 0xd9000000),
        MacroId::SPClearGeometryMode => spec_encode_cleargm(args),
        MacroId::SPGeometryMode => spec_encode_gm(args),
        MacroId::SPDisplayList => if ex2 {
            spec_encode_dl(args, 0xde000000)
        } else {
            spec_encode_dl(args, 0x06000000)
        },
        MacroId::SPBranchList => if ex2 {
            spec_encode_dl(args, 0xde010000)
        } else {
            spec_encode_dl(args, 0x06010000)
        },
        MacroId::SPEndDisplayList => if args.len() == 0 {
            Some(seq![Packet { w0: if ex2 { 0xdf000000 } else { 0xb8000000 }, w1: 0 }])
        } else {
            None
        },
        MacroId::SPTexture => spec_encode_texture(args),
        MacroId::SPNumLights => spec_encode_numlights(args),
        MacroId::SPSegment => spec_encode_segment(args),
        MacroId::SPLight => spec_encode_light(args),
        MacroId::SPSetLights1 => spec_encode_setlights1(args),
        MacroId::SPSetLights2 => spec_encode_setlights2(args),
        MacroId::MoveWd => spec_encode_movewd(args),
        MacroId::DPHalf1 => spec_encode_word1(args, ArgType::gfxd_Word, 0xe1000000),
        MacroId::DPLoadSync => if args.len() == 0 {
            Some(seq![Packet { w0: 0xe6000000, w1: 0 }])
        } else {
            None
        },
        MacroId::DPPipeSync => if args.len() == 0 {
            Some(seq![Packet { w0: 0xe7000000, w1: 0 }])
        } else {
            None
        },
        MacroId::DPTileSync => if args.len() == 0 {
            Some(seq![Packet { w0: 0xe8000000, w1: 0 }])
        } else {
            None
        },
        MacroId::DPFullSync => if args.len() == 0 {
            Some(seq![Packet { w0: 0xe9000000, w1: 0 }])
        } else {
            None
        },
        MacroId::DPSetFillColor => spec_encode_word1(args, ArgType::gfxd_Color, 0xf7000000),
        MacroId::DPSetFogColor => spec_encode_colors(args, 0xf8000000),
        MacroId::DPSetBlendColor => spec_encode_colors(args, 0xf9000000),
        MacroId::DPSetPrimColor => spec_encode_primcolor(args),
        MacroId::DPSetEnvColor => spec_encode_colors(args, 0xfb000000),
        MacroId::DPSetPrimDepth => spec_encode_primdepth(args),
        MacroId::DPFillRectangle => spec_encode_fillrect(args),
    }
}

/// Re-encoding of `SPVertex` for the `F3D`/`F3DB` layout.
pub open spec fn spec_encode_vertex_f3d(args: Seq<Arg>) -> Option<Seq<Packet>> {
    if args.len() == 3 {
        match (args[0], args[1], args[2]) {
            (
                Arg { ty: ArgType::gfxd_Vtxptr, value: ArgValue::U(v) },
                Arg { ty: ArgType::gfxd_Num, value: ArgValue::I(n) },
                Arg { ty: ArgType::gfxd_Vtx, value: ArgValue::I(v0) },
            ) => if 1 <= n <= 16 && 0 <= v0 <= 0xf {
                Some(
                    seq![
                        Packet {
                            w0: (0x04000000 + ((n as int) - 1) * 0x100000 + (v0 as int) * 0x10000
                                + (n as int) * 16) as u32,
                            w1: v,
                        },
                    ],
                )
            } else {
                None
            },
            _ => None,
        }
    } else {
        None
    }
}

/// Re-encoding of `SPVertex` for the `F3DEX`/`F3DEXB` layout.
pub open spec fn spec_encode_vertex_f3dex(args: Seq<Arg>) -> Option<Seq<Packet>> {
    if args.len() == 3 {
        match (args[0], args[1], args[2]) {
            (
                Arg { ty: ArgType::gfxd_Vtxptr, value: ArgValue::U(v) },
                Arg { ty: ArgType::gfxd_Num, value: ArgValue::I(n) },
                Arg { ty: ArgType::gfxd_Vtx, value: ArgValue::I(v0) },
            ) => if 1 <= n <= 63 && 0 <= v0 <= 0x7f {
                Some(
                    seq![
                        Packet {
                            w0: (0x04000000 + (v0 as int) * 2 * 0x10000 + (n as int) * 0x400 + (
                            n as int) * 16) as u32,
                            w1: v,
                        },
                    ],
                )
            } else {
                None
            },
            _ => None,
        }
    } else {
        None
    }
}

/// Re-encoding of `SP1Triangle` for the layouts that pack the scaled
/// vertex indices into the second word.
pub open spec fn spec_encode_tri1_w1(args: Seq<Arg>, f: int) -> Option<Seq<Packet>> {
    if args.len() == 4 {
        match (args[0], args[1], args[2], args[3]) {
            (
                Arg { ty: ArgType::gfxd_Vtx, value: ArgValue::I(v0) },
                Arg { ty: ArgType::gfxd_Vtx, value: ArgValue::I(v1) },
                Arg { ty: ArgType::gfxd_Vtx, value: ArgValue::I(v2) },
                Arg { ty: ArgType::gfxd_Vtxflag, value: ArgValue::I(flag) },
            ) => if flag == 0 && 0 <= v0 <= 0xff && 0 <= v1 <= 0xff && 0 <= v2 <= 0xff && (
            v0 as int) * f <= 0xff && (v1 as int) * f <= 0xff && (v2 as int) * f <= 0xff {
                Some(
                    seq![
                        Packet {
                            w0: 0xbf000000,
                            w1: ((v0 as int) * f * 0x10000 + (v1 as int) * f * 0x100 + (v2 as int)
                                * f) as u32,
                        },
                    ],
                )
            } else {
                None
            },
            _ => None,
        }
    } else {
        None
    }
}

/// Re-encoding of `SP2Triangles` for the `F3DEX`/`F3DEXB` layout.
pub open spec fn spec_encode_tri2_f3dex(args: Seq<Arg>) -> Option<Seq<Packet>> {
    if args.len() == 8 {
        match (args[0], args[1], args[2], args[3], args[4], args[5], args[6], args[7]) {
            (
                Arg { ty: ArgType::gfxd_Vtx, value: ArgValue::I(v00) },
                Arg { ty: ArgType::gfxd_Vtx, value: ArgValue::I(v01) },
                Arg { ty: ArgType::gfxd_Vtx, value: ArgValue::I(v02) },
                Arg { ty: ArgType::gfxd_Vtxflag, value: ArgValue::I(flag0) },
                Arg { ty: ArgType::gfxd_Vtx, value: ArgValue::I(v10) },
                Arg { ty: ArgType::gfxd_Vtx, value: ArgValue::I(v11) },
                Arg { ty: ArgType::gfxd_Vtx, value: ArgValue::I(v12) },
                Arg { ty: ArgType::gfxd_Vtxflag, value: ArgValue::I(flag1) },
            ) => if flag0 == 0 && flag1 == 0 && 0 <= v00 <= 0x7f && 0 <= v01 <= 0x7f && 0 <= v02
                <= 0x7f && 0 <= v10 <= 0x7f && 0 <= v11 <= 0x7f && 0 <= v12 <= 0x7f {
                Some(
                    seq![
                        Packet {
                            w0: (0xb1000000 + (v00 as int) * 2 * 0x10000 + (v01 as int) * 2 * 0x100
                                + (v02 as int) * 2) as u32,
                            w1: ((v10 as int) * 2 * 0x10000 + (v11 as int) * 2 * 0x100 + (
                            v12 as int) * 2) as u32,
                        },
                    ],
                )
            } else {
                None
            },
            _ => None,
        }
    } else {
        None
    }
}

/// Re-encoding of `SPModifyVertex`.
pub open spec fn spec_encode_modifyvtx(args: Seq<Arg>) -> Option<Seq<Packet>> {
    if args.len() == 3 {
        match (args[0], args[1], args[2]) {
            (
                Arg { ty: ArgType::gfxd_Vtx, value: ArgValue::I(vtx) },
                Arg { ty: ArgType::gfxd_Mwo_point, value: ArgValue::U(wh) },
                Arg { ty: ArgType::gfxd_Word, value: ArgValue::U(val) },
            ) => if 0 <= vtx <= 0x7fff && wh <= 0xff {
                Some(
                    seq![
                        Packet {
                            w0: (0x02000000 + (wh as int) * 0x10000 + (vtx as int) * 2) as u32,
                            w1: val,
                        },
                    ],
                )
            } else {
                None
            },
            _ => None,
        }
    } else {
        None
    }
}

/// Re-encoding of `SPCullDisplayList`.
pub open spec fn spec_encode_culldl(args: Seq<Arg>) -> Option<Seq<Packet>> {
    if args.len() == 2 {
        match (args[0], args[1]) {
            (
                Arg { ty: ArgType::gfxd_Vtx, value: ArgValue::I(vstart) },
                Arg { ty: ArgType::gfxd_Vtx, value: ArgValue::I(vend) },
            ) => if 0 <= vstart <= 0x7fff && 0 <= vend <= 0x7fff {
                Some(
                    seq![
                        Packet {
                            w0: (0x03000000 + (vstart as int) * 2) as u32,
                            w1: ((vend as int) * 2) as u32,
                        },
                    ],
                )
            } else {
                None
            },
            _ => None,
        }
    } else {
        None
    }
}

/// Re-encoding of `SP1Quadrangle`.
pub open spec fn spec_encode_quad(args: Seq<Arg>) -> Option<Seq<Packet>> {
    if args.len() == 5 {
        match (args[0], args[1], args[2], args[3], args[4]) {
            (
                Arg { ty: ArgType::gfxd_Vtx, value: ArgValue::I(v0) },
                Arg { ty: ArgType::gfxd_Vtx, value: ArgValue::I(v1) },
                Arg { ty: ArgType::gfxd_Vtx, value: ArgValue::I(v2) },
                Arg { ty: ArgType::gfxd_Vtx, value: ArgValue::I(v3) },
                Arg { ty: ArgType::gfxd_Vtxflag, value: ArgValue::I(flag) },
            ) => if flag == 0 && 0 <= v0 <= 0x7f && 0 <= v1 <= 0x7f && 0 <= v2 <= 0x7f && 0 <= v3
                <= 0x7f {
                Some(
                    seq![
                        Packet {
                            w0: (0x07000000 + (v0 as int) * 0x20000 + (v1 as int) * 0x200 + (
                            v2 as int) * 2) as u32,
                            w1: ((v0 as int) * 0x20000 + (v2 as int) * 0x200 + (v3 as int)
                                * 2) as u32,
                        },
                    ],
                )
            } else {
                None
            },
            _ => None,
        }
    } else {
        None
    }
}

/// Re-encoding of the four-packet `SPSetLights2` idiom.
pub open spec fn spec_encode_setlights2(args: Seq<Arg>) -> Option<Seq<Packet>> {
    if args.len() == 1 {
        match args[0] {
            Arg { ty: ArgType::gfxd_Lightsn, value: ArgValue::U(base) } => if base as int + 24
                <= 0xffffffff {
                Some(
                    seq![
                        Packet { w0: 0xdb020000, w1: 0x30 },
                        Packet { w0: 0xdc08060a, w1: (base as int + 8) as u32 },
                        Packet { w0: 0xdc08090a, w1: (base as int + 24) as u32 },
                        Packet { w0: 0xdc080c0a, w1: base },
                    ],
                )
            } else {
                None
            },
            _ => None,
        }
    } else {
        None
    }
}

/// Re-encoding of `DPSetPrimDepth`.
pub open spec fn spec_encode_primdepth(args: Seq<Arg>) -> Option<Seq<Packet>> {
    if args.len() == 2 {
        match (args[0], args[1]) {
            (
                Arg { ty: ArgType::gfxd_Zi, value: ArgValue::I(z) },
                Arg { ty: ArgType::gfxd_Zi, value: ArgValue::I(dz) },
            ) => if -0x8000 <= z <= 0x7fff && -0x8000 <= dz <= 0x7fff {
                Some(
                    seq![
                        Packet {
                            w0: 0xee000000,
                            w1: (unsign16(z) * 0x10000 + unsign16(dz)) as u32,
                        },
                    ],
                )
            } else {
                None
            },
            _ => None,
        }
    } else {
        None
    }
}

/// A signed value written back as a 16-bit field.
pub open spec fn unsign16(v: i32) -> int {
    if v < 0 {
        (v as int) + 0x10000
    } else {
        v as int
    }
}

/// Re-encoding of `DPFillRectangle`.
pub open spec fn spec_encode_fillrect(args: Seq<Arg>) -> Option<Seq<Packet>> {
    if args.len() == 4 {
        match (args[0], args[1], args[2], args[3]) {
            (
                Arg { ty: ArgType::gfxd_Coordi, value: ArgValue::I(ulx) },
                Arg { ty: ArgType::gfxd_Coordi, value: ArgValue::I(uly) },
                Arg { ty: ArgType::gfxd_Coordi, value: ArgValue::I(lrx) },
                Arg { ty: ArgType::gfxd_Coordi, value: ArgValue::I(lry) },
            ) => if 0 <= ulx <= 0x3ff && 0 <= uly <= 0x3ff && 0 <= lrx <= 0x3ff && 0 <= lry
                <= 0x3ff {
                Some(
                    seq![
                        Packet {
                            w0: (0xf6000000 + (lrx as int) * 4 * 0x1000 + (lry as int) * 4) as u32,
                            w1: ((ulx as int) * 4 * 0x1000 + (uly as int) * 4) as u32,
                        },
                    ],
                )
            } else {
                None
            },
            _ => None,
        }
    } else {
        None
    }
}

/// Re-encoding of `SPClearGeometryMode`.
pub open spec fn spec_encode_cleargm(args: Seq<Arg>) -> Option<Seq<Packet>> {
    if args.len() == 1 {
        match args[0] {
            Arg { ty: ArgType::gfxd_Gm, value: ArgValue::U(clear) } => if clear <= 0xffffff {
                Some(seq![Packet { w0: (0xd9000000 + ((clear ^ 0xffffff) as int)) as u32, w1: 0 }])
            } else {
                None
            },
            _ => None,
        }
    } else {
        None
    }
}

/// Re-encoding of the general `SPGeometryMode`.
pub open spec fn spec_encode_gm(args: Seq<Arg>) -> Option<Seq<Packet>> {
    if args.len() == 2 {
        match (args[0], args[1]) {
            (
                Arg { ty: ArgType::gfxd_Gm, value: ArgValue::U(clear) },
                Arg { ty: ArgType::gfxd_Gm, value: ArgValue::U(set) },
            ) => if clear <= 0xffffff {
                Some(seq![Packet { w0: (0xd9000000 + ((clear ^ 0xffffff) as int)) as u32, w1: set }])
            } else {
                None
            },
            _ => None,
        }
    } else {
        None
    }
}

/// Re-encoding of a macro with one unsigned word argument of kind `ty`,
/// given the encoded first word.
pub open spec fn spec_encode_word1(args: Seq<Arg>, ty: ArgType, w0: u32) -> Option<Seq<Packet>> {
    if args.len() == 1 && args[0].ty == ty {
        match args[0].value {
            ArgValue::U(v) => Some(seq![Packet { w0, w1: v }]),
            _ => None,
        }
    } else {
        None
    }
}

/// Re-encoding of `SPVertex`.
pub open spec fn spec_encode_vertex(args: Seq<Arg>) -> Option<Seq<Packet>> {
    if args.len() == 3 {
        match (args[0], args[1], args[2]) {
            (
                Arg { ty: ArgType::gfxd_Vtxptr, value: ArgValue::U(v) },
                Arg { ty: ArgType::gfxd_Num, value: ArgValue::I(n) },
                Arg { ty: ArgType::gfxd_Vtx, value: ArgValue::I(v0) },
            ) => if 0 <= n <= 0xff && 0 <= v0 && v0 + n <= 0x7f {
                Some(
                    seq![
                        Packet {
                            w0: (0x01000000 + (n as int) * 0x1000 + ((v0 + n) as int) * 2) as u32,
                            w1: v,
                        },
                    ],
                )
            } else {
                None
            },
            _ => None,
        }
    } else {
        None
    }
}

/// Re-encoding of `SP1Triangle`.
pub open spec fn spec_encode_tri1(args: Seq<Arg>) -> Option<Seq<Packet>> {
    if args.len() == 4 {
        match (args[0], args[1], args[2], args[3]) {
            (
                Arg { ty: ArgType::gfxd_Vtx, value: ArgValue::I(v0) },
                Arg { ty: ArgType::gfxd_Vtx, value: ArgValue::I(v1) },
                Arg { ty: ArgType::gfxd_Vtx, value: ArgValue::I(v2) },
                Arg { ty: ArgType::gfxd_Vtxflag, value: ArgValue::I(flag) },
            ) => if flag == 0 && 0 <= v0 <= 0x7f && 0 <= v1 <= 0x7f && 0 <= v2 <= 0x7f {
                Some(
                    seq![
                        Packet {
                            w0: (0x05000000 + (v0 as int) * 0x20000 + (v1 as int) * 0x200 + (
                            v2 as int) * 2) as u32,
                            w1: 0,
                        },
                    ],
                )
            } else {
                None
            },
            _ => None,
        }
    } else {
        None
    }
}

/// Re-encoding of `SP2Triangles`.
pub open spec fn spec_encode_tri2(args: Seq<Arg>) -> Option<Seq<Packet>> {
    if args.len() == 8 {
        match (args[0], args[1], args[2], args[3], args[4], args[5], args[6], args[7]) {
            (
                Arg { ty: ArgType::gfxd_Vtx, value: ArgValue::I(v00) },
                Arg { ty: ArgType::gfxd_Vtx, value: ArgValue::I(v01) },
                Arg { ty: ArgType::gfxd_Vtx, value: ArgValue::I(v02) },
                Arg { ty: ArgType::gfxd_Vtxflag, value: ArgValue::I(flag0) },
                Arg { ty: ArgType::gfxd_Vtx, value: ArgValue::I(v10) },
                Arg { ty: ArgType::gfxd_Vtx, value: ArgValue::I(v11) },
                Arg { ty: ArgType::gfxd_Vtx, value: ArgValue::I(v12) },
                Arg { ty: ArgType::gfxd_Vtxflag, value: ArgValue::I(flag1) },
            ) => if flag0 == 0 && flag1 == 0 && 0 <= v00 <= 0x7f && 0 <= v01 <= 0x7f && 0 <= v02
                <= 0x7f && 0 <= v10 <= 0x7f && 0 <= v11 <= 0x7f && 0 <= v12 <= 0x7f {
                Some(
                    seq![
                        Packet {
                            w0: (0x06000000 + (v00 as int) * 0x20000 + (v01 as int) * 0x200 + (
                            v02 as int) * 2) as u32,
                            w1: ((v10 as int) * 0x20000 + (v11 as int) * 0x200 + (v12 as int)
                                * 2) as u32,
                        },
                    ],
                )
            } else {
                None
            },
            _ => None,
        }
    } else {
        None
    }
}

/// Re-encoding of `SPDisplayList` and `SPBranchList`, given the encoded
/// first word.
pub open spec fn spec_encode_dl(args: Seq<Arg>, w0: u32) -> Option<Seq<Packet>> {
    spec_encode_word1(args, ArgType::gfxd_Dl, w0)
}

/// Re-encoding of `SPTexture`.
pub open spec fn spec_encode_texture(args: Seq<Arg>) -> Option<Seq<Packet>> {
    if args.len() == 5 {
        match (args[0], args[1], args[2], args[3], args[4]) {
            (
                Arg { ty: ArgType::gfxd_Tcscale, value: ArgValue::U(s) },
                Arg { ty: ArgType::gfxd_Tcscale, value: ArgValue::U(t) },
                Arg { ty: ArgType::gfxd_Num, value: ArgValue::I(level) },
                Arg { ty: ArgType::gfxd_Tile, value: ArgValue::I(tile) },
                Arg { ty: ArgType::gfxd_Switch, value: ArgValue::U(on) },
            ) => if s <= 0xffff && t <= 0xffff && 0 <= level <= 7 && 0 <= tile <= 7 && on <= 0x7f {
                Some(
                    seq![
                        Packet {
                            w0: (0xd7000000 + (level as int) * 0x800 + (tile as int) * 0x100 + (
                            on as int) * 2) as u32,
                            w1: ((s as int) * 0x10000 + (t as int)) as u32,
                        },
                    ],
                )
            } else {
                None
            },
            _ => None,
        }
    } else {
        None
    }
}

/// Re-encoding of `SPNumLights`.
pub open spec fn spec_encode_numlights(args: Seq<Arg>) -> Option<Seq<Packet>> {
    if args.len() == 1 {
        match args[0] {
            Arg { ty: ArgType::gfxd_Numlights, value: ArgValue::I(n) } => if 1 <= n <= 7 {
                Some(seq![Packet { w0: 0xdb020000, w1: (n * 24) as u32 }])
            } else {
                None
            },
            _ => None,
        }
    } else {
        None
    }
}

/// Re-encoding of `SPSegment`.
pub open spec fn spec_encode_segment(args: Seq<Arg>) -> Option<Seq<Packet>> {
    if args.len() == 2 {
        match (args[0], args[1]) {
            (
                Arg { ty: ArgType::gfxd_Seg, value: ArgValue::I(seg) },
                Arg { ty: ArgType::gfxd_Segptr, value: ArgValue::U(base) },
            ) => if 0 <= seg < 16 {
                Some(seq![Packet { w0: (0xdb060000 + seg * 4) as u32, w1: base }])
            } else {
                None
            },
            _ => None,
        }
    } else {
        None
    }
}

/// Re-encoding of `SPLight`.
pub open spec fn spec_encode_light(args: Seq<Arg>) -> Option<Seq<Packet>> {
    if args.len() == 2 {
        match (args[0], args[1]) {
            (
                Arg { ty: ArgType::gfxd_Lightptr, value: ArgValue::U(l) },
                Arg { ty: ArgType::gfxd_Num, value: ArgValue::I(n) },
            ) => if 1 <= n && 3 * (n as int + 1) <= 0xff {
                Some(seq![Packet { w0: (0xdc080000 + 3 * (n as int + 1) * 0x100 + 0x0a) as u32, w1: l }])
            } else {
                None
            },
            _ => None,
        }
    } else {
        None
    }
}

/// Re-encoding of the three-packet `SPSetLights1` idiom.
pub open spec fn spec_encode_setlights1(args: Seq<Arg>) -> Option<Seq<Packet>> {
    if args.len() == 1 {
        match args[0] {
            Arg { ty: ArgType::gfxd_Lightsn, value: ArgValue::U(base) } => if base as int + 8
                <= 0xffffffff {
                Some(
                    seq![
                        Packet { w0: 0xdb020000, w1: 0x18 },
                        Packet { w0: 0xdc08060a, w1: (base as int + 8) as u32 },
                        Packet { w0: 0xdc08090a, w1: base },
                    ],
                )
            } else {
                None
            },
            _ => None,
        }
    } else {
        None
    }
}

/// Re-encoding of the generic `MoveWd`.
pub open spec fn spec_encode_movewd(args: Seq<Arg>) -> Option<Seq<Packet>> {
    if args.len() == 3 {
        match (args[0], args[1], args[2]) {
            (
                Arg { ty: ArgType::gfxd_Mw, value: ArgValue::I(index) },
                Arg { ty: ArgType::gfxd_Mwo, value: ArgValue::U(offset) },
                Arg { ty: ArgType::gfxd_Word, value: ArgValue::U(data) },
            ) => if 0 <= index <= 0xff && offset <= 0xffff {
                Some(
                    seq![
                        Packet {
                            w0: (0xdb000000 + (index as int) * 0x10000 + (offset as int)) as u32,
                            w1: data,
                        },
                    ],
                )
            } else {
                None
            },
            _ => None,
        }
    } else {
        None
    }
}

/// Re-encoding of the four-component colour setters, given the encoded
/// first word.
pub open spec fn spec_encode_colors(args: Seq<Arg>, w0: u32) -> Option<Seq<Packet>> {
    if args.len() == 4 {
        match (args[0], args[1], args[2], args[3]) {
            (
                Arg { ty: ArgType::gfxd_Colorpart, value: ArgValue::I(r) },
                Arg { ty: ArgType::gfxd_Colorpart, value: ArgValue::I(g) },
                Arg { ty: ArgType::gfxd_Colorpart, value: ArgValue::I(b) },
                Arg { ty: ArgType::gfxd_Colorpart, value: ArgValue::I(a) },
            ) => if 0 <= r <= 0xff && 0 <= g <= 0xff && 0 <= b <= 0xff && 0 <= a <= 0xff {
                Some(
                    seq![
                        Packet {
                            w0,
                            w1: ((r as int) * 0x1000000 + (g as int) * 0x10000 + (b as int) * 0x100
                                + (a as int)) as u32,
                        },
                    ],
                )
            } else {
                None
            },
            _ => None,
        }
    } else {
        None
    }
}

/// Re-encoding of `DPSetPrimColor`.
pub open spec fn spec_encode_primcolor(args: Seq<Arg>) -> Option<Seq<Packet>> {
    if args.len() == 6 {
        match (args[0], args[1]) {
            (
                Arg { ty: ArgType::gfxd_Lodfrac, value: ArgValue::I(m) },
                Arg { ty: ArgType::gfxd_Lodfrac, value: ArgValue::I(l) },
            ) => if 0 <= m <= 0xff && 0 <= l <= 0xff {
                match spec_encode_colors(args.skip(2), 0) {
                    Some(c) => Some(
                        seq![
                            Packet {
                                w0: (0xfa000000 + (m as int) * 0x100 + (l as int)) as u32,
                                w1: c[0].w1,
                            },
                        ],
                    ),
                    None => None,
                }
            } else {
                None
            },
            _ => None,
        }
    } else {
        None
    }
}


/// Whether an executable re-encoding result equals a specification-level
/// one.
pub open spec fn encode_result_ok(s: Option<Seq<Packet>>, r: Option<Vec<Packet>>) -> bool {
    match r {
        Some(v) => s == Some(v@),
        None => s is None,
    }
}

/// An empty argument vector.
fn args0() -> (r: Vec<Arg>)
    ensures
        r@ =~= Seq::<Arg>::empty(),
{
    Vec::new()
}

/// A one-argument vector.
fn args1(a: Arg) -> (r: Vec<Arg>)
    ensures
        r@ =~= seq![a],
{
    let mut v: Vec<Arg> = Vec::new();
    v.push(a);
    v
}

/// A two-argument vector.
fn args2(a: Arg, b: Arg) -> (r: Vec<Arg>)
    ensures
        r@ =~= seq![a, b],
{
    let mut v: Vec<Arg> = Vec::new();
    v.push(a);
    v.push(b);
    v
}

/// A three-argument vector.
fn args3(a: Arg, b: Arg, c: Arg) -> (r: Vec<Arg>)
    ensures
        r@ =~= seq![a, b, c],
{
    let mut v: Vec<Arg> = Vec::new();
    v.push(a);
    v.push(b);
    v.push(c);
    v
}

/// A four-argument vector.
fn args4(a: Arg, b: Arg, c: Arg, d: Arg) -> (r: Vec<Arg>)
    ensures
        r@ =~= seq![a, b, c, d],
{
    let mut v: Vec<Arg> = Vec::new();
    v.push(a);
    v.push(b);
    v.push(c);
    v.push(d);
    v
}

/// A five-argument vector.
fn args5(a: Arg, b: Arg, c: Arg, d: Arg, e: Arg) -> (r: Vec<Arg>)
    ensures
        r@ =~= seq![a, b, c, d, e],
{
    let mut v: Vec<Arg> = Vec::new();
    v.push(a);
    v.push(b);
    v.push(c);
    v.push(d);
    v.push(e);
    v
}

/// A six-argument vector.
fn args6(a: Arg, b: Arg, c: Arg, d: Arg, e: Arg, f: Arg) -> (r: Vec<Arg>)
    ensures
        r@ =~= seq![a, b, c, d, e, f],
{
    let mut v: Vec<Arg> = Vec::new();
    v.push(a);
    v.push(b);
    v.push(c);
    v.push(d);
    v.push(e);
    v.push(f);
    v
}

/// An eight-argument vector.
fn args8(a: Arg, b: Arg, c: Arg, d: Arg, e: Arg, f: Arg, g: Arg, h: Arg) -> (r: Vec<Arg>)
    ensures
        r@ =~= seq![a, b, c, d, e, f, g, h],
{
    let mut v: Vec<Arg> = Vec::new();
    v.push(a);
    v.push(b);
    v.push(c);
    v.push(d);
    v.push(e);
    v.push(f);
    v.push(g);
    v.push(h);
    v
}

/// A one-packet vector.
fn pkts1(p: Packet) -> (r: Vec<Packet>)
    ensures
        r@ =~= seq![p],
{
    let mut v: Vec<Packet> = Vec::new();
    v.push(p);
    v
}

/// A three-packet vector.
fn pkts3(p0: Packet, p1: Packet, p2: Packet) -> (r: Vec<Packet>)
    ensures
        r@ =~= seq![p0, p1, p2],
{
    let mut v: Vec<Packet> = Vec::new();
    v.push(p0);
    v.push(p1);
    v.push(p2);
    v
}

/// An unsigned argument of kind `ty`.
fn mk_u(ty: ArgType, v: u32) -> (r: Arg)
    ensures
        r == arg_u(ty, v),
{
    Arg { ty, value: ArgValue::U(v) }
}

/// A signed argument of kind `ty`.
fn mk_i(ty: ArgType, v: i32) -> (r: Arg)
    ensures
        r == arg_i(ty, v),
{
    Arg { ty, value: ArgValue::I(v) }
}

/// Re-encodes a macro from its decoded argument values, or reports that the
/// argument list cannot be the decoding of any packet group of this macro.
pub fn encode_macro(u: UcodeId, id: MacroId, args: &Vec<Arg>) -> (r: Option<Vec<Packet>>)
    ensures
        encode_result_ok(spec_encode(u, id, args@), r),
{
    let ex2 = match u {
        UcodeId::F3dex2 => true,
        _ => false,
    };
    match id {
        MacroId::Invalid => None,
        MacroId::DPNoOp => {
            if args.len() == 0 {
                Some(pkts1(Packet { w0: if ex2 { 0 } else { 0xc0000000 }, w1: 0 }))
            } else {
                None
            }
        },
        MacroId::DPNoOpTag => encode_word1(args, ArgType::gfxd_Tag, if ex2 { 0 } else { 0xc0000000 }),
        MacroId::SPNoOp => {
            if args.len() == 0 {
                Some(pkts1(Packet { w0: if ex2 { 0xe0000000 } else { 0 }, w1: 0 }))
            } else {
                None
            }
        },
        MacroId::SPVertex => match u {
            UcodeId::F3dex2 => encode_vertex(args),
            UcodeId::F3dex | UcodeId::F3dexb => encode_vertex_f3dex(args),
            _ => encode_vertex_f3d(args),
        },
        MacroId::SPModifyVertex => encode_modifyvtx(args),
        MacroId::SPCullDisplayList => encode_culldl(args),
        MacroId::SP1Triangle => match u {
            UcodeId::F3dex2 => encode_tri1(args),
            UcodeId::F3dex | UcodeId::F3dexb => encode_tri1_w1(args, 2),
            _ => encode_tri1_w1(args, 10),
        },
        MacroId::SP2Triangles => match u {
            UcodeId::F3dex2 => encode_tri2(args),
            UcodeId::F3dex | UcodeId::F3dexb => encode_tri2_f3dex(args),
            _ => None,
        },
        MacroId::SP1Quadrangle => encode_quad(args),
        MacroId::SPSetGeometryMode => encode_word1(args, ArgType::gfxd_Gm, 0xd9ffffff),
        MacroId::SPLoadGeometryMode => encode_word1(args, ArgType::gfxd_Gm, 0xd9000000),
        MacroId::SPClearGeometryMode => encode_cleargm(args),
        MacroId::SPGeometryMode => encode_gm(args),
        MacroId::SPDisplayList => encode_word1(
            args,
            ArgType::gfxd_Dl,
            if ex2 { 0xde000000 } else { 0x06000000 },
        ),
        MacroId::SPBranchList => encode_word1(
            args,
            ArgType::gfxd_Dl,
            if ex2 { 0xde010000 } else { 0x06010000 },
        ),
        MacroId::SPEndDisplayList => {
            if args.len() == 0 {
                Some(pkts1(Packet { w0: if ex2 { 0xdf000000 } else { 0xb8000000 }, w1: 0 }))
            } else {
                None
            }
        },
        MacroId::SPTexture => encode_texture(args),
        MacroId::SPNumLights => encode_numlights(args),
        MacroId::SPSegment => encode_segment(args),
        MacroId::SPLight => encode_light(args),
        MacroId::SPSetLights1 => encode_setlights1(args),
        MacroId::SPSetLights2 => encode_setlights2(args),
        MacroId::MoveWd => encode_movewd(args),
        MacroId::DPHalf1 => encode_word1(args, ArgType::gfxd_Word, 0xe1000000),
        MacroId::DPLoadSync => {
            if args.len() == 0 {
                Some(pkts1(Packet { w0: 0xe6000000, w1: 0 }))
            } else {
                None
            }
        },
        MacroId::DPPipeSync => {
            if args.len() == 0 {
                Some(pkts1(Packet { w0: 0xe7000000, w1: 0 }))
            } else {
                None
            }
        },
        MacroId::DPTileSync => {
            if args.len() == 0 {
                Some(pkts1(Packet { w0: 0xe8000000, w1: 0 }))
            } else {
                None
            }
        },
        MacroId::DPFullSync => {
            if args.len() == 0 {
                Some(pkts1(Packet { w0: 0xe9000000, w1: 0 }))
            } else {
                None
            }
        },
        MacroId::DPSetFillColor => encode_word1(args, ArgType::gfxd_Color, 0xf7000000),
        MacroId::DPSetFogColor => encode_colors(args, 0xf8000000),
        MacroId::DPSetBlendColor => encode_colors(args, 0xf9000000),
        MacroId::DPSetPrimColor => encode_primcolor(args),
        MacroId::DPSetEnvColor => encode_colors(args, 0xfb000000),
        MacroId::DPSetPrimDepth => encode_primdepth(args),
        MacroId::DPFillRectangle => encode_fillrect(args),
    }
}


/// Re-encodes `SPVertex`.
fn encode_vertex(args: &Vec<Arg>) -> (r: Option<Vec<Packet>>)
    ensures
        encode_result_ok(spec_encode_vertex(args@), r),
{
            if args.len() == 3 {
                match (args[0], args[1], args[2]) {
                    (
                        Arg { ty: ArgType::gfxd_Vtxptr, value: ArgValue::U(v) },
                        Arg { ty: ArgType::gfxd_Num, value: ArgValue::I(n) },
                        Arg { ty: ArgType::gfxd_Vtx, value: ArgValue::I(v0) },
                    ) => {
                        if 0 <= n && n <= 0xff && 0 <= v0 && v0 <= 0x7f && v0 + n <= 0x7f {
                            Some(
                                pkts1(
                                    Packet {
                                        w0: 0x01000000 + (n as u32) * 0x1000 + ((v0 + n) as u32)
                                            * 2,
                                        w1: v,
                                    },
                                ),
                            )
                        } else {
                            None
                        }
                    },
                    _ => None,
                }
            } else {
                None
            }
        }


/// Re-encodes `SP1Triangle`.
fn encode_tri1(args: &Vec<Arg>) -> (r: Option<Vec<Packet>>)
    ensures
        encode_result_ok(spec_encode_tri1(args@), r),
{
            if args.len() == 4 {
                match (args[0], args[1], args[2], args[3]) {
                    (
                        Arg { ty: ArgType::gfxd_Vtx, value: ArgValue::I(v0) },
                        Arg { ty: ArgType::gfxd_Vtx, value: ArgValue::I(v1) },
                        Arg { ty: ArgType::gfxd_Vtx, value: ArgValue::I(v2) },
                        Arg { ty: ArgType::gfxd_Vtxflag, value: ArgValue::I(flag) },
                    ) => {
                        if flag == 0 && 0 <= v0 && v0 <= 0x7f && 0 <= v1 && v1 <= 0x7f && 0 <= v2
                            && v2 <= 0x7f {
                            Some(
                                pkts1(
                                    Packet {
                                        w0: 0x05000000 + (v0 as u32) * 0x20000 + (v1 as u32)
                                            * 0x200 + (v2 as u32) * 2,
                                        w1: 0,
                                    },
                                ),
                            )
                        } else {
                            None
                        }
                    },
                    _ => None,
                }
            } else {
                None
            }
        }


/// Re-encodes `SP2Triangles`.
fn encode_tri2(args: &Vec<Arg>) -> (r: Option<Vec<Packet>>)
    ensures
        encode_result_ok(spec_encode_tri2(args@), r),
{
            if args.len() == 8 {
                match (
                    args[0],
                    args[1],
                    args[2],
                    args[3],
                    args[4],
                    args[5],
                    args[6],
                    args[7],
                ) {
                    (
                        Arg { ty: ArgType::gfxd_Vtx, value: ArgValue::I(v00) },
                        Arg { ty: ArgType::gfxd_Vtx, value: ArgValue::I(v01) },
                        Arg { ty: ArgType::gfxd_Vtx, value: ArgValue::I(v02) },
                        Arg { ty: ArgType::gfxd_Vtxflag, value: ArgValue::I(flag0) },
                        Arg { ty: ArgType::gfxd_Vtx, value: ArgValue::I(v10) },
                        Arg { ty: ArgType::gfxd_Vtx, value: ArgValue::I(v11) },
                        Arg { ty: ArgType::gfxd_Vtx, value: ArgValue::I(v12) },
                        Arg { ty: ArgType::gfxd_Vtxflag, value: ArgValue::I(flag1) },
                    ) => {
                        if flag0 == 0 && flag1 == 0 && 0 <= v00 && v00 <= 0x7f && 0 <= v01 && v01
                            <= 0x7f && 0 <= v02 && v02 <= 0x7f && 0 <= v10 && v10 <= 0x7f && 0
                            <= v11 && v11 <= 0x7f && 0 <= v12 && v12 <= 0x7f {
                            Some(
                                pkts1(
                                    Packet {
                                        w0: 0x06000000 + (v00 as u32) * 0x20000 + (v01 as u32)
                                            * 0x200 + (v02 as u32) * 2,
                                        w1: (v10 as u32) * 0x20000 + (v11 as u32) * 0x200 + (
                                        v12 as u32) * 2,
                                    },
                                ),
                            )
                        } else {
                            None
                        }
                    },
                    _ => None,
                }
            } else {
                None
            }
        }


/// Re-encodes `SPTexture`.
fn encode_texture(args: &Vec<Arg>) -> (r: Option<Vec<Packet>>)
    ensures
        encode_result_ok(spec_encode_texture(args@), r),
{
            if args.len() == 5 {
                match (args[0], args[1], args[2], args[3], args[4]) {
                    (
                        Arg { ty: ArgType::gfxd_Tcscale, value: ArgValue::U(s) },
                        Arg { ty: ArgType::gfxd_Tcscale, value: ArgValue::U(t) },
                        Arg { ty: ArgType::gfxd_Num, value: ArgValue::I(level) },
                        Arg { ty: ArgType::gfxd_Tile, value: ArgValue::I(tile) },
                        Arg { ty: ArgType::gfxd_Switch, value: ArgValue::U(on) },
                    ) => {
                        if s <= 0xffff && t <= 0xffff && 0 <= level && level <= 7 && 0 <= tile
                            && tile <= 7 && on <= 0x7f {
                            Some(
                                pkts1(
                                    Packet {
                                        w0: 0xd7000000 + (level as u32) * 0x800 + (tile as u32)
                                            * 0x100 + on * 2,
                                        w1: s * 0x10000 + t,
                                    },
                                ),
                            )
                        } else {
                            None
                        }
                    },
                    _ => None,
                }
            } else {
                None
            }
        }


/// Re-encodes `SPNumLights`.
fn encode_numlights(args: &Vec<Arg>) -> (r: Option<Vec<Packet>>)
    ensures
        encode_result_ok(spec_encode_numlights(args@), r),
{
            if args.len() == 1 {
                match args[0] {
                    Arg { ty: ArgType::gfxd_Numlights, value: ArgValue::I(n) } => {
                        if 1 <= n && n <= 7 {
                            Some(pkts1(Packet { w0: 0xdb020000, w1: (n as u32) * 24 }))
                        } else {
                            None
                        }
                    },
                    _ => None,
                }
            } else {
                None
            }
        }


/// Re-encodes `SPSegment`.
fn encode_segment(args: &Vec<Arg>) -> (r: Option<Vec<Packet>>)
    ensures
        encode_result_ok(spec_encode_segment(args@), r),
{
            if args.len() == 2 {
                match (args[0], args[1]) {
                    (
                        Arg { ty: ArgType::gfxd_Seg, value: ArgValue::I(seg) },
                        Arg { ty: ArgType::gfxd_Segptr, value: ArgValue::U(base) },
                    ) => {
                        if 0 <= seg && seg < 16 {
                            Some(pkts1(Packet { w0: 0xdb060000 + (seg as u32) * 4, w1: base }))
                        } else {
                            None
                        }
                    },
                    _ => None,
                }
            } else {
                None
            }
        }


/// Re-encodes `SPLight`.
fn encode_light(args: &Vec<Arg>) -> (r: Option<Vec<Packet>>)
    ensures
        encode_result_ok(spec_encode_light(args@), r),
{
            if args.len() == 2 {
                match (args[0], args[1]) {
                    (
                        Arg { ty: ArgType::gfxd_Lightptr, value: ArgValue::U(l) },
                        Arg { ty: ArgType::gfxd_Num, value: ArgValue::I(n) },
                    ) => {
                        if 1 <= n && n <= 84 && 3 * (n + 1) <= 0xff {
                            Some(
                                pkts1(
                                    Packet {
                                        w0: 0xdc080000 + 3 * ((n as u32) + 1) * 0x100 + 0x0a,
                                        w1: l,
                                    },
                                ),
                            )
                        } else {
                            None
                        }
                    },
                    _ => None,
                }
            } else {
                None
            }
        }


/// Re-encodes `SPSetLights1`.
fn encode_setlights1(args: &Vec<Arg>) -> (r: Option<Vec<Packet>>)
    ensures
        encode_result_ok(spec_encode_setlights1(args@), r),
{
            if args.len() == 1 {
                match args[0] {
                    Arg { ty: ArgType::gfxd_Lightsn, value: ArgValue::U(base) } => {
                        if base <= 0xffffffff - 8 {
                            Some(
                                pkts3(
                                    Packet { w0: 0xdb020000, w1: 0x18 },
                                    Packet { w0: 0xdc08060a, w1: base + 8 },
                                    Packet { w0: 0xdc08090a, w1: base },
                                ),
                            )
                        } else {
                            None
                        }
                    },
                    _ => None,
                }
            } else {
                None
            }
        }


/// Re-encodes `MoveWd`.
fn encode_movewd(args: &Vec<Arg>) -> (r: Option<Vec<Packet>>)
    ensures
        encode_result_ok(spec_encode_movewd(args@), r),
{
            if args.len() == 3 {
                match (args[0], args[1], args[2]) {
                    (
                        Arg { ty: ArgType::gfxd_Mw, value: ArgValue::I(index) },
                        Arg { ty: ArgType::gfxd_Mwo, value: ArgValue::U(offset) },
                        Arg { ty: ArgType::gfxd_Word, value: ArgValue::U(data) },
                    ) => {
                        if 0 <= index && index <= 0xff && offset <= 0xffff {
                            Some(
                                pkts1(
                                    Packet {
                                        w0: 0xdb000000 + (index as u32) * 0x10000 + offset,
                                        w1: data,
                                    },
                                ),
                            )
                        } else {
                            None
                        }
                    },
                    _ => None,
                }
            } else {
                None
            }
        }


/// Re-encodes `DPSetPrimColor`.
fn encode_primcolor(args: &Vec<Arg>) -> (r: Option<Vec<Packet>>)
    ensures
        encode_result_ok(spec_encode_primcolor(args@), r),
{
            if args.len() == 6 {
                match (args[0], args[1], args[2], args[3], args[4], args[5]) {
                    (
                        Arg { ty: ArgType::gfxd_Lodfrac, value: ArgValue::I(m) },
                        Arg { ty: ArgType::gfxd_Lodfrac, value: ArgValue::I(l) },
                        Arg { ty: ArgType::gfxd_Colorpart, value: ArgValue::I(r) },
                        Arg { ty: ArgType::gfxd_Colorpart, value: ArgValue::I(g) },
                        Arg { ty: ArgType::gfxd_Colorpart, value: ArgValue::I(b) },
                        Arg { ty: ArgType::gfxd_Colorpart, value: ArgValue::I(a) },
                    ) => {
                        if 0 <= m && m <= 0xff && 0 <= l && l <= 0xff && 0 <= r && r <= 0xff && 0
                            <= g && g <= 0xff && 0 <= b && b <= 0xff && 0 <= a && a <= 0xff {
                            let res = Some(
                                pkts1(
                                    Packet {
                                        w0: 0xfa000000 + (m as u32) * 0x100 + (l as u32),
                                        w1: (r as u32) * 0x1000000 + (g as u32) * 0x10000 + (
                                        b as u32) * 0x100 + (a as u32),
                                    },
                                ),
                            );
                            proof {
                                assert(args@.skip(2) =~= seq![args@[2], args@[3], args@[4], args@[5]]);
                            }
                            res
                        } else {
                            None
                        }
                    },
                    _ => None,
                }
            } else {
                None
            }
        }



/// Re-encodes `SPVertex` for the `F3D`/`F3DB` layout.
fn encode_vertex_f3d(args: &Vec<Arg>) -> (r: Option<Vec<Packet>>)
    ensures
        encode_result_ok(spec_encode_vertex_f3d(args@), r),
{
    if args.len() == 3 {
        match (args[0], args[1], args[2]) {
            (
                Arg { ty: ArgType::gfxd_Vtxptr, value: ArgValue::U(v) },
                Arg { ty: ArgType::gfxd_Num, value: ArgValue::I(n) },
                Arg { ty: ArgType::gfxd_Vtx, value: ArgValue::I(v0) },
            ) => {
                if 1 <= n && n <= 16 && 0 <= v0 && v0 <= 0xf {
                    Some(
                        pkts1(
                            Packet {
                                w0: 0x04000000 + ((n as u32) - 1) * 0x100000 + (v0 as u32)
                                    * 0x10000 + (n as u32) * 16,
                                w1: v,
                            },
                        ),
                    )
                } else {
                    None
                }
            },
            _ => None,
        }
    } else {
        None
    }
}

/// Re-encodes `SPVertex` for the `F3DEX`/`F3DEXB` layout.
fn encode_vertex_f3dex(args: &Vec<Arg>) -> (r: Option<Vec<Packet>>)
    ensures
        encode_result_ok(spec_encode_vertex_f3dex(args@), r),
{
    if args.len() == 3 {
        match (args[0], args[1], args[2]) {
            (
                Arg { ty: ArgType::gfxd_Vtxptr, value: ArgValue::U(v) },
                Arg { ty: ArgType::gfxd_Num, value: ArgValue::I(n) },
                Arg { ty: ArgType::gfxd_Vtx, value: ArgValue::I(v0) },
            ) => {
                if 1 <= n && n <= 63 && 0 <= v0 && v0 <= 0x7f {
                    Some(
                        pkts1(
                            Packet {
                                w0: 0x04000000 + (v0 as u32) * 2 * 0x10000 + (n as u32) * 0x400 + (
                                n as u32) * 16,
                                w1: v,
                            },
                        ),
                    )
                } else {
                    None
                }
            },
            _ => None,
        }
    } else {
        None
    }
}

/// Re-encodes `SP1Triangle` for the layouts that pack the scaled vertex
/// indices into the second word.
fn encode_tri1_w1(args: &Vec<Arg>, f: u32) -> (r: Option<Vec<Packet>>)
    requires
        1 <= f <= 10,
    ensures
        encode_result_ok(spec_encode_tri1_w1(args@, f as int), r),
{
    if args.len() == 4 {
        match (args[0], args[1], args[2], args[3]) {
            (
                Arg { ty: ArgType::gfxd_Vtx, value: ArgValue::I(v0) },
                Arg { ty: ArgType::gfxd_Vtx, value: ArgValue::I(v1) },
                Arg { ty: ArgType::gfxd_Vtx, value: ArgValue::I(v2) },
                Arg { ty: ArgType::gfxd_Vtxflag, value: ArgValue::I(flag) },
            ) => {
                if flag == 0 && 0 <= v0 && v0 <= 0xff && 0 <= v1 && v1 <= 0xff && 0 <= v2 && v2
                    <= 0xff {
                    let a0: u32 = v0 as u32;
                    let a1: u32 = v1 as u32;
                    let a2: u32 = v2 as u32;
                    proof {
                        assert(a0 * f <= 2550 && a1 * f <= 2550 && a2 * f <= 2550)
                            by (nonlinear_arith)
                            requires
                                a0 <= 0xff,
                                a1 <= 0xff,
                                a2 <= 0xff,
                                f <= 10,
                        ;
                    }
                    if a0 * f <= 0xff && a1 * f <= 0xff && a2 * f <= 0xff {
                        Some(
                            pkts1(
                                Packet {
                                    w0: 0xbf000000,
                                    w1: a0 * f * 0x10000 + a1 * f * 0x100 + a2 * f,
                                },
                            ),
                        )
                    } else {
                        None
                    }
                } else {
                    None
                }
            },
            _ => None,
        }
    } else {
        None
    }
}

/// Re-encodes `SP2Triangles` for the `F3DEX`/`F3DEXB` layout.
fn encode_tri2_f3dex(args: &Vec<Arg>) -> (r: Option<Vec<Packet>>)
    ensures
        encode_result_ok(spec_encode_tri2_f3dex(args@), r),
{
    if args.len() == 8 {
        match (
            args[0],
            args[1],
            args[2],
            args[3],
            args[4],
            args[5],
            args[6],
            args[7],
        ) {
            (
                Arg { ty: ArgType::gfxd_Vtx, value: ArgValue::I(v00) },
                Arg { ty: ArgType::gfxd_Vtx, value: ArgValue::I(v01) },
                Arg { ty: ArgType::gfxd_Vtx, value: ArgValue::I(v02) },
                Arg { ty: ArgType::gfxd_Vtxflag, value: ArgValue::I(flag0) },
                Arg { ty: ArgType::gfxd_Vtx, value: ArgValue::I(v10) },
                Arg { ty: ArgType::gfxd_Vtx, value: ArgValue::I(v11) },
                Arg { ty: ArgType::gfxd_Vtx, value: ArgValue::I(v12) },
                Arg { ty: ArgType::gfxd_Vtxflag, value: ArgValue::I(flag1) },
            ) => {
                if flag0 == 0 && flag1 == 0 && 0 <= v00 && v00 <= 0x7f && 0 <= v01 && v01 <= 0x7f
                    && 0 <= v02 && v02 <= 0x7f && 0 <= v10 && v10 <= 0x7f && 0 <= v11 && v11
                    <= 0x7f && 0 <= v12 && v12 <= 0x7f {
                    Some(
                        pkts1(
                            Packet {
                                w0: 0xb1000000 + (v00 as u32) * 2 * 0x10000 + (v01 as u32) * 2
                                    * 0x100 + (v02 as u32) * 2,
                                w1: (v10 as u32) * 2 * 0x10000 + (v11 as u32) * 2 * 0x100 + (
                                v12 as u32) * 2,
                            },
                        ),
                    )
                } else {
                    None
                }
            },
            _ => None,
        }
    } else {
        None
    }
}

/// Re-encodes `SPModifyVertex`.
fn encode_modifyvtx(args: &Vec<Arg>) -> (r: Option<Vec<Packet>>)
    ensures
        encode_result_ok(spec_encode_modifyvtx(args@), r),
{
    if args.len() == 3 {
        match (args[0], args[1], args[2]) {
            (
                Arg { ty: ArgType::gfxd_Vtx, value: ArgValue::I(vtx) },
                Arg { ty: ArgType::gfxd_Mwo_point, value: ArgValue::U(wh) },
                Arg { ty: ArgType::gfxd_Word, value: ArgValue::U(val) },
            ) => {
                if 0 <= vtx && vtx <= 0x7fff && wh <= 0xff {
                    Some(
                        pkts1(
                            Packet {
                                w0: 0x02000000 + wh * 0x10000 + (vtx as u32) * 2,
                                w1: val,
                            },
                        ),
                    )
                } else {
                    None
                }
            },
            _ => None,
        }
    } else {
        None
    }
}

/// Re-encodes `SPCullDisplayList`.
fn encode_culldl(args: &Vec<Arg>) -> (r: Option<Vec<Packet>>)
    ensures
        encode_result_ok(spec_encode_culldl(args@), r),
{
    if args.len() == 2 {
        match (args[0], args[1]) {
            (
                Arg { ty: ArgType::gfxd_Vtx, value: ArgValue::I(vstart) },
                Arg { ty: ArgType::gfxd_Vtx, value: ArgValue::I(vend) },
            ) => {
                if 0 <= vstart && vstart <= 0x7fff && 0 <= vend && vend <= 0x7fff {
                    Some(
                        pkts1(
                            Packet {
                                w0: 0x03000000 + (vstart as u32) * 2,
                                w1: (vend as u32) * 2,
                            },
                        ),
                    )
                } else {
                    None
                }
            },
            _ => None,
        }
    } else {
        None
    }
}

/// Re-encodes `SP1Quadrangle`.
fn encode_quad(args: &Vec<Arg>) -> (r: Option<Vec<Packet>>)
    ensures
        encode_result_ok(spec_encode_quad(args@), r),
{
    if args.len() == 5 {
        match (args[0], args[1], args[2], args[3], args[4]) {
            (
                Arg { ty: ArgType::gfxd_Vtx, value: ArgValue::I(v0) },
                Arg { ty: ArgType::gfxd_Vtx, value: ArgValue::I(v1) },
                Arg { ty: ArgType::gfxd_Vtx, value: ArgValue::I(v2) },
                Arg { ty: ArgType::gfxd_Vtx, value: ArgValue::I(v3) },
                Arg { ty: ArgType::gfxd_Vtxflag, value: ArgValue::I(flag) },
            ) => {
                if flag == 0 && 0 <= v0 && v0 <= 0x7f && 0 <= v1 && v1 <= 0x7f && 0 <= v2 && v2
                    <= 0x7f && 0 <= v3 && v3 <= 0x7f {
                    Some(
                        pkts1(
                            Packet {
                                w0: 0x07000000 + (v0 as u32) * 0x20000 + (v1 as u32) * 0x200 + (
                                v2 as u32) * 2,
                                w1: (v0 as u32) * 0x20000 + (v2 as u32) * 0x200 + (v3 as u32) * 2,
                            },
                        ),
                    )
                } else {
                    None
                }
            },
            _ => None,
        }
    } else {
        None
    }
}

/// A four-packet vector.
fn pkts4(p0: Packet, p1: Packet, p2: Packet, p3: Packet) -> (r: Vec<Packet>)
    ensures
        r@ =~= seq![p0, p1, p2, p3],
{
    let mut v: Vec<Packet> = Vec::new();
    v.push(p0);
    v.push(p1);
    v.push(p2);
    v.push(p3);
    v
}

/// Re-encodes the four-packet `SPSetLights2` idiom.
fn encode_setlights2(args: &Vec<Arg>) -> (r: Option<Vec<Packet>>)
    ensures
        encode_result_ok(spec_encode_setlights2(args@), r),
{
    if args.len() == 1 {
        match args[0] {
            Arg { ty: ArgType::gfxd_Lightsn, value: ArgValue::U(base) } => {
                if base <= 0xffffffff - 24 {
                    Some(
                        pkts4(
                            Packet { w0: 0xdb020000, w1: 0x30 },
                            Packet { w0: 0xdc08060a, w1: base + 8 },
                            Packet { w0: 0xdc08090a, w1: base + 24 },
                            Packet { w0: 0xdc080c0a, w1: base },
                        ),
                    )
                } else {
                    None
                }
            },
            _ => None,
        }
    } else {
        None
    }
}

/// Re-encodes `DPSetPrimDepth`.
fn encode_primdepth(args: &Vec<Arg>) -> (r: Option<Vec<Packet>>)
    ensures
        encode_result_ok(spec_encode_primdepth(args@), r),
{
    if args.len() == 2 {
        match (args[0], args[1]) {
            (
                Arg { ty: ArgType::gfxd_Zi, value: ArgValue::I(z) },
                Arg { ty: ArgType::gfxd_Zi, value: ArgValue::I(dz) },
            ) => {
                if -0x8000 <= z && z <= 0x7fff && -0x8000 <= dz && dz <= 0x7fff {
                    let zf: u32 = if z >= 0 {
                        z as u32
                    } else {
                        (z + 0x10000) as u32
                    };
                    let dzf: u32 = if dz >= 0 {
                        dz as u32
                    } else {
                        (dz + 0x10000) as u32
                    };
                    Some(pkts1(Packet { w0: 0xee000000, w1: zf * 0x10000 + dzf }))
                } else {
                    None
                }
            },
            _ => None,
        }
    } else {
        None
    }
}

/// Re-encodes `DPFillRectangle`.
fn encode_fillrect(args: &Vec<Arg>) -> (r: Option<Vec<Packet>>)
    ensures
        encode_result_ok(spec_encode_fillrect(args@), r),
{
    if args.len() == 4 {
        match (args[0], args[1], args[2], args[3]) {
            (
                Arg { ty: ArgType::gfxd_Coordi, value: ArgValue::I(ulx) },
                Arg { ty: ArgType::gfxd_Coordi, value: ArgValue::I(uly) },
                Arg { ty: ArgType::gfxd_Coordi, value: ArgValue::I(lrx) },
                Arg { ty: ArgType::gfxd_Coordi, value: ArgValue::I(lry) },
            ) => {
                if 0 <= ulx && ulx <= 0x3ff && 0 <= uly && uly <= 0x3ff && 0 <= lrx && lrx
                    <= 0x3ff && 0 <= lry && lry <= 0x3ff {
                    Some(
                        pkts1(
                            Packet {
                                w0: 0xf6000000 + (lrx as u32) * 4 * 0x1000 + (lry as u32) * 4,
                                w1: (ulx as u32) * 4 * 0x1000 + (uly as u32) * 4,
                            },
                        ),
                    )
                } else {
                    None
                }
            },
            _ => None,
        }
    } else {
        None
    }
}


/// Re-encodes `SPClearGeometryMode`.
fn encode_cleargm(args: &Vec<Arg>) -> (r: Option<Vec<Packet>>)
    ensures
        encode_result_ok(spec_encode_cleargm(args@), r),
{
    if args.len() == 1 {
        match args[0] {
            Arg { ty: ArgType::gfxd_Gm, value: ArgValue::U(clear) } => {
                if clear <= 0xffffff {
                    proof {
                        assert(forall|c: u32| c <= 0xffffff ==> #[trigger] (c ^ 0xffffff)
                            <= 0xffffff) by (bit_vector);
                    }
                    Some(pkts1(Packet { w0: 0xd9000000 + (clear ^ 0xffffff), w1: 0 }))
                } else {
                    None
                }
            },
            _ => None,
        }
    } else {
        None
    }
}

/// Re-encodes the general `SPGeometryMode`.
fn encode_gm(args: &Vec<Arg>) -> (r: Option<Vec<Packet>>)
    ensures
        encode_result_ok(spec_encode_gm(args@), r),
{
    if args.len() == 2 {
        match (args[0], args[1]) {
            (
                Arg { ty: ArgType::gfxd_Gm, value: ArgValue::U(clear) },
                Arg { ty: ArgType::gfxd_Gm, value: ArgValue::U(set) },
            ) => {
                if clear <= 0xffffff {
                    proof {
                        assert(forall|c: u32| c <= 0xffffff ==> #[trigger] (c ^ 0xffffff)
                            <= 0xffffff) by (bit_vector);
                    }
                    Some(pkts1(Packet { w0: 0xd9000000 + (clear ^ 0xffffff), w1: set }))
                } else {
                    None
                }
            },
            _ => None,
        }
    } else {
        None
    }
}

/// Re-encodes a macro with one unsigned word argument of kind `ty`.
fn encode_word1(args: &Vec<Arg>, ty: ArgType, w0: u32) -> (r: Option<Vec<Packet>>)
    ensures
        encode_result_ok(spec_encode_word1(args@, ty, w0), r),
{
    if args.len() == 1 {
        let a = args[0];
        if a.ty == ty {
            match a.value {
                ArgValue::U(v) => Some(pkts1(Packet { w0, w1: v })),
                _ => None,
            }
        } else {
            None
        }
    } else {
        None
    }
}

/// Re-encodes a four-component colour setter.
fn encode_colors(args: &Vec<Arg>, w0: u32) -> (r: Option<Vec<Packet>>)
    ensures
        encode_result_ok(spec_encode_colors(args@, w0), r),
{
    if args.len() == 4 {
        match (args[0], args[1], args[2], args[3]) {
            (
                Arg { ty: ArgType::gfxd_Colorpart, value: ArgValue::I(r) },
                Arg { ty: ArgType::gfxd_Colorpart, value: ArgValue::I(g) },
                Arg { ty: ArgType::gfxd_Colorpart, value: ArgValue::I(b) },
                Arg { ty: ArgType::gfxd_Colorpart, value: ArgValue::I(a) },
            ) => {
                if 0 <= r && r <= 0xff && 0 <= g && g <= 0xff && 0 <= b && b <= 0xff && 0 <= a
                    && a <= 0xff {
                    Some(
                        pkts1(
                            Packet {
                                w0,
                                w1: (r as u32) * 0x1000000 + (g as u32) * 0x10000 + (b as u32)
                                    * 0x100 + (a as u32),
                            },
                        ),
                    )
                } else {
                    None
                }
            },
            _ => None,
        }
    } else {
        None
    }
}


/// Whether the re-encoding of a candidate match reproduces the packet
/// window it was decoded from.
fn check_valid(
    u: UcodeId,
    id: MacroId,
    args: &Vec<Arg>,
    pkts: &Vec<Packet>,
    i: usize,
    count: usize,
) -> (r: bool)
    requires
        i + count <= pkts@.len(),
    ensures
        r == (spec_encode(u, id, args@) == Some(
            pkts@.subrange(i as int, i as int + count as int),
        )),
{
    let ghost win = pkts@.subrange(i as int, i as int + count as int);
    let pn: usize = pkts.len();
    match encode_macro(u, id, args) {
        Some(v) => {
            if v.len() != count {
                proof {
                    assert(v@.len() != win.len());
                }
                return false;
            }
            let mut k: usize = 0;
            while k < count
                invariant
                    k <= count,
                    v@.len() == count,
                    spec_encode(u, id, args@) == Some(v@),
                    i + count <= pkts@.len(),
                    pn == pkts@.len(),
                    win == pkts@.subrange(i as int, i as int + count as int),
                    forall|j: int| 0 <= j < k ==> v@[j] == win[j],
                decreases count - k,
            {
                let same: bool = v[k] == pkts[i + k];
                if !same {
                    proof {
                        assert(win[k as int] == pkts@[i + k]);
                    }
                    return false;
                }
                k = k + 1;
            }
            proof {
                assert(v@ =~= win);
            }
            true
        },
        None => false,
    }
}

/// Builds a single-packet match, deciding validity by re-encoding.
fn finish_single(
    u: UcodeId,
    id: MacroId,
    args: Vec<Arg>,
    pkts: &Vec<Packet>,
    i: usize,
) -> (m: MacroMatch)
    requires
        i < pkts@.len(),
    ensures
        m_matches(m, spec_single(u, id, args@, pkts@[i as int])),
        m.count == 1,
{
    let valid = check_valid(u, id, &args, pkts, i, 1);
    proof {
        assert(pkts@.subrange(i as int, i as int + 1) =~= seq![pkts@[i as int]]);
    }
    MacroMatch { id, count: 1, args, valid }
}

/// Builds the invalid sentinel match for one packet.
fn finish_invalid(p: Packet) -> (m: MacroMatch)
    ensures
        m_matches(m, spec_invalid(p)),
        m.count == 1,
{
    let raw: u64 = (p.w0 as u64) * 0x100000000 + (p.w1 as u64);
    MacroMatch {
        id: MacroId::Invalid,
        count: 1,
        args: args1(Arg { ty: ArgType::gfxd_Word, value: ArgValue::Raw(raw) }),
        valid: false,
    }
}

/// Whether three consecutive packets form the `SPSetLights1` idiom.
fn is_setlights1(p0: Packet, p1: Packet, p2: Packet) -> (r: bool)
    ensures
        r == spec_is_setlights1(p0, p1, p2),
{
    p0.w0 == 0xdb020000 && p0.w1 == 0x18 && p1.w0 == 0xdc08060a && p2.w0 == 0xdc08090a && p2.w1
        <= 0xffffffff - 8 && p1.w1 == p2.w1 + 8
}

/// Whether four consecutive packets form the `SPSetLights2` idiom.
fn is_setlights2(p0: Packet, p1: Packet, p2: Packet, p3: Packet) -> (r: bool)
    ensures
        r == spec_is_setlights2(p0, p1, p2, p3),
{
    p0.w0 == 0xdb020000 && p0.w1 == 0x30 && p1.w0 == 0xdc08060a && p2.w0 == 0xdc08090a && p3.w0
        == 0xdc080c0a && p3.w1 <= 0xffffffff - 24 && p1.w1 == p3.w1 + 8 && p2.w1 == p3.w1 + 24
}

/// Matches the RDP commands shared by all five microcodes.
#[verifier::rlimit(50)]
fn match_rdp(u: UcodeId, pkts: &Vec<Packet>, i: usize) -> (m: MacroMatch)
    requires
        i < pkts@.len(),
    ensures
        m_matches(m, spec_match_rdp(u, pkts@[i as int])),
        m.count == 1,
{
    proof {
        reveal(spec_match_rdp);
    }
    let p = pkts[i];
    let op = p.opcode();
    if op == 0xe6 && p.w0 == 0xe6000000 && p.w1 == 0 {
        finish_single(u, MacroId::DPLoadSync, args0(), pkts, i)
    } else if op == 0xe7 && p.w0 == 0xe7000000 && p.w1 == 0 {
        finish_single(u, MacroId::DPPipeSync, args0(), pkts, i)
    } else if op == 0xe8 && p.w0 == 0xe8000000 && p.w1 == 0 {
        finish_single(u, MacroId::DPTileSync, args0(), pkts, i)
    } else if op == 0xe9 && p.w0 == 0xe9000000 && p.w1 == 0 {
        finish_single(u, MacroId::DPFullSync, args0(), pkts, i)
    } else if op == 0xf7 && p.w0 == 0xf7000000 {
        finish_single(u, MacroId::DPSetFillColor, args1(mk_u(ArgType::gfxd_Color, p.w1)), pkts, i)
    } else if op == 0xf8 && p.w0 == 0xf8000000 {
        finish_single(u, MacroId::DPSetFogColor, color_args_of(p.w1), pkts, i)
    } else if op == 0xf9 && p.w0 == 0xf9000000 {
        finish_single(u, MacroId::DPSetBlendColor, color_args_of(p.w1), pkts, i)
    } else if op == 0xfa && (p.w0 >> 16) & 0xff == 0 {
        let m = mk_i(ArgType::gfxd_Lodfrac, ((p.w0 >> 8) & 0xff) as i32);
        let l = mk_i(ArgType::gfxd_Lodfrac, (p.w0 & 0xff) as i32);
        let c = color_args_of(p.w1);
        let args = args6(m, l, c[0], c[1], c[2], c[3]);
        proof {
            assert(args@ =~= seq![m, l] + color_args(p.w1));
        }
        finish_single(u, MacroId::DPSetPrimColor, args, pkts, i)
    } else if op == 0xee && p.w0 == 0xee000000 {
        let ghost w1m: u32 = p.w1;
        proof {
            assert((w1m >> 16) & 0xffff < 0x10000 && w1m & 0xffff < 0x10000) by (bit_vector);
        }
        let args = args2(
            mk_i(ArgType::gfxd_Zi, sign16_of((p.w1 >> 16) & 0xffff)),
            mk_i(ArgType::gfxd_Zi, sign16_of(p.w1 & 0xffff)),
        );
        finish_single(u, MacroId::DPSetPrimDepth, args, pkts, i)
    } else if op == 0xf6 {
        if (p.w1 >> 24) & 0xff == 0 {
            let ghost w0m: u32 = p.w0;
            let ghost w1m: u32 = p.w1;
            proof {
                assert((w0m >> 12) & 0xfff < 0x1000 && w0m & 0xfff < 0x1000 && (w1m >> 12) & 0xfff
                    < 0x1000 && w1m & 0xfff < 0x1000) by (bit_vector);
            }
            let args = args4(
                mk_i(ArgType::gfxd_Coordi, (((p.w1 >> 12) & 0xfff) / 4) as i32),
                mk_i(ArgType::gfxd_Coordi, ((p.w1 & 0xfff) / 4) as i32),
                mk_i(ArgType::gfxd_Coordi, (((p.w0 >> 12) & 0xfff) / 4) as i32),
                mk_i(ArgType::gfxd_Coordi, ((p.w0 & 0xfff) / 4) as i32),
            );
            finish_single(u, MacroId::DPFillRectangle, args, pkts, i)
        } else {
            finish_invalid(p)
        }
    } else if op == 0xfb && p.w0 == 0xfb000000 {
        finish_single(u, MacroId::DPSetEnvColor, color_args_of(p.w1), pkts, i)
    } else {
        finish_invalid(p)
    }
}

/// A 16-bit field read as a signed value.
fn sign16_of(v: u32) -> (r: i32)
    requires
        v < 0x10000,
    ensures
        r == sign16(v),
{
    if v >= 0x8000 {
        (v as i64 - 0x10000) as i32
    } else {
        v as i32
    }
}

/// The four colour components of a word, red to alpha.
fn color_args_of(w: u32) -> (r: Vec<Arg>)
    ensures
        r@ == color_args(w),
        r@.len() == 4,
{
    let r = args4(
        mk_i(ArgType::gfxd_Colorpart, ((w >> 24) & 0xff) as i32),
        mk_i(ArgType::gfxd_Colorpart, ((w >> 16) & 0xff) as i32),
        mk_i(ArgType::gfxd_Colorpart, ((w >> 8) & 0xff) as i32),
        mk_i(ArgType::gfxd_Colorpart, (w & 0xff) as i32),
    );
    r
}

/// Matches the `F3DEX2` microcode at cursor `i`.
#[verifier::rlimit(60)]
fn match_f3dex2(ext: bool, pkts: &Vec<Packet>, i: usize) -> (m: MacroMatch)
    requires
        i < pkts@.len(),
    ensures
        m_matches(m, spec_match_f3dex2(ext, pkts@, i as int)),
        1 <= m.count,
        i + m.count <= pkts@.len(),
{
    proof {
        reveal(spec_match_f3dex2);
    }
    let p = pkts[i];
    let op = p.opcode();
    let u = UcodeId::F3dex2;
    if op == 0x00 {
        if p.w0 == 0 {
            if p.w1 == 0 {
                finish_single(u, MacroId::DPNoOp, args0(), pkts, i)
            } else {
                finish_single(u, MacroId::DPNoOpTag, args1(mk_u(ArgType::gfxd_Tag, p.w1)), pkts, i)
            }
        } else {
            finish_invalid(p)
        }
    } else if op == 0x01 {
        if (p.w0 >> 20) & 0xf == 0 && (p.w0 >> 8) & 0xf == 0 && p.w0 & 1 == 0 {
            let n = (p.w0 >> 12) & 0xff;
            let vend = (p.w0 >> 1) & 0x7f;
            let ghost w0: u32 = p.w0;
            proof {
                assert((w0 >> 12) & 0xff < 0x100 && (w0 >> 1) & 0x7f < 0x80) by (bit_vector);
            }
            let args = args3(
                mk_u(ArgType::gfxd_Vtxptr, p.w1),
                mk_i(ArgType::gfxd_Num, n as i32),
                mk_i(ArgType::gfxd_Vtx, (vend as i32) - (n as i32)),
            );
            finish_single(u, MacroId::SPVertex, args, pkts, i)
        } else {
            finish_invalid(p)
        }
    } else if op == 0x02 {
        let ghost w0m: u32 = p.w0;
        proof {
            assert(w0m & 0xffff < 0x10000 && (w0m >> 16) & 0xff < 0x100) by (bit_vector);
        }
        let args = args3(
            mk_i(ArgType::gfxd_Vtx, ((p.w0 & 0xffff) / 2) as i32),
            mk_u(ArgType::gfxd_Mwo_point, (p.w0 >> 16) & 0xff),
            mk_u(ArgType::gfxd_Word, p.w1),
        );
        finish_single(u, MacroId::SPModifyVertex, args, pkts, i)
    } else if op == 0x03 {
        if (p.w1 >> 16) & 0xffff == 0 {
            let ghost w0m: u32 = p.w0;
            let ghost w1m: u32 = p.w1;
            proof {
                assert(w0m & 0xffff < 0x10000 && w1m & 0xffff < 0x10000) by (bit_vector);
            }
            let args = args2(
                mk_i(ArgType::gfxd_Vtx, ((p.w0 & 0xffff) / 2) as i32),
                mk_i(ArgType::gfxd_Vtx, ((p.w1 & 0xffff) / 2) as i32),
            );
            finish_single(u, MacroId::SPCullDisplayList, args, pkts, i)
        } else {
            finish_invalid(p)
        }
    } else if op == 0x05 {
        if p.w1 == 0 {
            let ghost w0: u32 = p.w0;
            proof {
                assert((w0 >> 16) & 0xff < 0x100 && (w0 >> 8) & 0xff < 0x100 && w0 & 0xff < 0x100)
                    by (bit_vector);
            }
            let args = args4(
                mk_i(ArgType::gfxd_Vtx, (((p.w0 >> 16) & 0xff) / 2) as i32),
                mk_i(ArgType::gfxd_Vtx, (((p.w0 >> 8) & 0xff) / 2) as i32),
                mk_i(ArgType::gfxd_Vtx, ((p.w0 & 0xff) / 2) as i32),
                mk_i(ArgType::gfxd_Vtxflag, 0),
            );
            finish_single(u, MacroId::SP1Triangle, args, pkts, i)
        } else {
            finish_invalid(p)
        }
    } else if op == 0x06 {
        if (p.w1 >> 24) & 0xff == 0 {
            let ghost w0: u32 = p.w0;
            let ghost w1: u32 = p.w1;
            proof {
                assert((w0 >> 16) & 0xff < 0x100 && (w0 >> 8) & 0xff < 0x100 && w0 & 0xff < 0x100
                    && (w1 >> 16) & 0xff < 0x100 && (w1 >> 8) & 0xff < 0x100 && w1 & 0xff < 0x100)
                    by (bit_vector);
            }
            let args = args8(
                mk_i(ArgType::gfxd_Vtx, (((p.w0 >> 16) & 0xff) / 2) as i32),
                mk_i(ArgType::gfxd_Vtx, (((p.w0 >> 8) & 0xff) / 2) as i32),
                mk_i(ArgType::gfxd_Vtx, ((p.w0 & 0xff) / 2) as i32),
                mk_i(ArgType::gfxd_Vtxflag, 0),
                mk_i(ArgType::gfxd_Vtx, (((p.w1 >> 16) & 0xff) / 2) as i32),
                mk_i(ArgType::gfxd_Vtx, (((p.w1 >> 8) & 0xff) / 2) as i32),
                mk_i(ArgType::gfxd_Vtx, ((p.w1 & 0xff) / 2) as i32),
                mk_i(ArgType::gfxd_Vtxflag, 0),
            );
            finish_single(u, MacroId::SP2Triangles, args, pkts, i)
        } else {
            finish_invalid(p)
        }
    } else if op == 0x07 {
        if (p.w1 >> 24) & 0xff == 0 {
            let ghost w0m: u32 = p.w0;
            let ghost w1m: u32 = p.w1;
            proof {
                assert((w0m >> 16) & 0xff < 0x100 && (w0m >> 8) & 0xff < 0x100 && w0m & 0xff
                    < 0x100 && w1m & 0xff < 0x100) by (bit_vector);
            }
            let args = args5(
                mk_i(ArgType::gfxd_Vtx, (((p.w0 >> 16) & 0xff) / 2) as i32),
                mk_i(ArgType::gfxd_Vtx, (((p.w0 >> 8) & 0xff) / 2) as i32),
                mk_i(ArgType::gfxd_Vtx, ((p.w0 & 0xff) / 2) as i32),
                mk_i(ArgType::gfxd_Vtx, ((p.w1 & 0xff) / 2) as i32),
                mk_i(ArgType::gfxd_Vtxflag, 0),
            );
            finish_single(u, MacroId::SP1Quadrangle, args, pkts, i)
        } else {
            finish_invalid(p)
        }
    } else if op == 0xd9 {
        let ghost w0m: u32 = p.w0;
        proof {
            assert(w0m & 0xffffff <= 0xffffff && (w0m & 0xffffff) ^ 0xffffff <= 0xffffff)
                by (bit_vector);
        }
        let low24 = p.w0 & 0xffffff;
        if low24 == 0xffffff {
            finish_single(u, MacroId::SPSetGeometryMode, args1(mk_u(ArgType::gfxd_Gm, p.w1)), pkts, i)
        } else if low24 == 0 {
            finish_single(u, MacroId::SPLoadGeometryMode, args1(mk_u(ArgType::gfxd_Gm, p.w1)), pkts, i)
        } else if p.w1 == 0 {
            finish_single(
                u,
                MacroId::SPClearGeometryMode,
                args1(mk_u(ArgType::gfxd_Gm, low24 ^ 0xffffff)),
                pkts,
                i,
            )
        } else {
            finish_single(
                u,
                MacroId::SPGeometryMode,
                args2(mk_u(ArgType::gfxd_Gm, low24 ^ 0xffffff), mk_u(ArgType::gfxd_Gm, p.w1)),
                pkts,
                i,
            )
        }
    } else if op == 0xd7 {
        if (p.w0 >> 14) & 0x3ff == 0 && p.w0 & 1 == 0 {
            let ghost w0: u32 = p.w0;
            proof {
                assert((w0 >> 11) & 0x7 < 8 && (w0 >> 8) & 0x7 < 8) by (bit_vector);
            }
            let args = args5(
                mk_u(ArgType::gfxd_Tcscale, (p.w1 >> 16) & 0xffff),
                mk_u(ArgType::gfxd_Tcscale, p.w1 & 0xffff),
                mk_i(ArgType::gfxd_Num, ((p.w0 >> 11) & 0x7) as i32),
                mk_i(ArgType::gfxd_Tile, ((p.w0 >> 8) & 0x7) as i32),
                mk_u(ArgType::gfxd_Switch, (p.w0 >> 1) & 0x7f),
            );
            finish_single(u, MacroId::SPTexture, args, pkts, i)
        } else {
            finish_invalid(p)
        }
    } else if op == 0xdb {
        if pkts.len() - i >= 4 && is_setlights2(p, pkts[i + 1], pkts[i + 2], pkts[i + 3]) {
            let args = args1(mk_u(ArgType::gfxd_Lightsn, pkts[i + 3].w1));
            let valid = check_valid(u, MacroId::SPSetLights2, &args, pkts, i, 4);
            MacroMatch { id: MacroId::SPSetLights2, count: 4, args, valid }
        } else if pkts.len() - i >= 3 && is_setlights1(p, pkts[i + 1], pkts[i + 2]) {
            let args = args1(mk_u(ArgType::gfxd_Lightsn, pkts[i + 2].w1));
            let valid = check_valid(u, MacroId::SPSetLights1, &args, pkts, i, 3);
            MacroMatch { id: MacroId::SPSetLights1, count: 3, args, valid }
        } else {
            let index = (p.w0 >> 16) & 0xff;
            let offset = p.w0 & 0xffff;
            let ghost w0: u32 = p.w0;
            proof {
                assert((w0 >> 16) & 0xff < 0x100 && w0 & 0xffff < 0x10000) by (bit_vector);
            }
            if index == 0x02 && offset == 0 && p.w1 % 24 == 0 && 1 <= p.w1 / 24 && p.w1 / 24
                <= 7 {
                let args = args1(mk_i(ArgType::gfxd_Numlights, (p.w1 / 24) as i32));
                finish_single(u, MacroId::SPNumLights, args, pkts, i)
            } else if index == 0x06 && offset % 4 == 0 && offset < 64 {
                let args = args2(
                    mk_i(ArgType::gfxd_Seg, (offset / 4) as i32),
                    mk_u(ArgType::gfxd_Segptr, p.w1),
                );
                finish_single(u, MacroId::SPSegment, args, pkts, i)
            } else {
                let args = args3(
                    mk_i(ArgType::gfxd_Mw, index as i32),
                    mk_u(ArgType::gfxd_Mwo, offset),
                    mk_u(ArgType::gfxd_Word, p.w1),
                );
                finish_single(u, MacroId::MoveWd, args, pkts, i)
            }
        }
    } else if op == 0xdc {
        let ghost w0x: u32 = p.w0;
        proof {
            assert((w0x >> 8) & 0xff < 0x100) by (bit_vector);
        }
        let idx = p.w0 & 0xff;
        let size_field = (p.w0 >> 19) & 0x1f;
        let pad = (p.w0 >> 16) & 0x7;
        let ofs = ((p.w0 >> 8) & 0xff) * 8;
        if idx == 0x0a && size_field == 1 && pad == 0 && ofs % 24 == 0 && ofs >= 48 {
            let args = args2(
                mk_u(ArgType::gfxd_Lightptr, p.w1),
                mk_i(ArgType::gfxd_Num, (ofs / 24 - 1) as i32),
            );
            finish_single(u, MacroId::SPLight, args, pkts, i)
        } else {
            finish_invalid(p)
        }
    } else if op == 0xde {
        if p.w0 & 0xffff == 0 && (p.w0 >> 16) & 0xff <= 1 {
            if (p.w0 >> 16) & 0xff == 0 {
                finish_single(u, MacroId::SPDisplayList, args1(mk_u(ArgType::gfxd_Dl, p.w1)), pkts, i)
            } else {
                finish_single(u, MacroId::SPBranchList, args1(mk_u(ArgType::gfxd_Dl, p.w1)), pkts, i)
            }
        } else {
            finish_invalid(p)
        }
    } else if op == 0xdf {
        if p.w0 == 0xdf000000 && p.w1 == 0 {
            finish_single(u, MacroId::SPEndDisplayList, args0(), pkts, i)
        } else {
            finish_invalid(p)
        }
    } else if op == 0xe0 {
        if p.w0 == 0xe0000000 && p.w1 == 0 {
            finish_single(u, MacroId::SPNoOp, args0(), pkts, i)
        } else {
            finish_invalid(p)
        }
    } else if op == 0xe1 && ext {
        if p.w0 == 0xe1000000 {
            finish_single(u, MacroId::DPHalf1, args1(mk_u(ArgType::gfxd_Word, p.w1)), pkts, i)
        } else {
            finish_invalid(p)
        }
    } else {
        match_rdp(u, pkts, i)
    }
}

/// Matches the `F3D` family at cursor `i`.
#[verifier::rlimit(50)]
fn match_f3d(u: UcodeId, pkts: &Vec<Packet>, i: usize) -> (m: MacroMatch)
    requires
        i < pkts@.len(),
    ensures
        m_matches(m, spec_match_f3d(u, pkts@, i as int)),
        m.count == 1,
{
    proof {
        reveal(spec_match_f3d);
    }
    let p = pkts[i];
    let op = p.opcode();
    if op == 0x00 {
        if p.w0 == 0 && p.w1 == 0 {
            finish_single(u, MacroId::SPNoOp, args0(), pkts, i)
        } else {
            finish_invalid(p)
        }
    } else if op == 0x06 {
        if p.w0 & 0xffff == 0 && (p.w0 >> 16) & 0xff <= 1 {
            if (p.w0 >> 16) & 0xff == 0 {
                finish_single(u, MacroId::SPDisplayList, args1(mk_u(ArgType::gfxd_Dl, p.w1)), pkts, i)
            } else {
                finish_single(u, MacroId::SPBranchList, args1(mk_u(ArgType::gfxd_Dl, p.w1)), pkts, i)
            }
        } else {
            finish_invalid(p)
        }
    } else if op == 0x04 {
        let ghost w0m: u32 = p.w0;
        proof {
            assert((w0m >> 10) & 0x3f < 0x40 && (w0m >> 16) & 0xff < 0x100 && (w0m >> 20) & 0xf
                < 0x10 && (w0m >> 16) & 0xf < 0x10) by (bit_vector);
        }
        if matches!(u, UcodeId::F3dex | UcodeId::F3dexb) {
            let args = args3(
                mk_u(ArgType::gfxd_Vtxptr, p.w1),
                mk_i(ArgType::gfxd_Num, ((p.w0 >> 10) & 0x3f) as i32),
                mk_i(ArgType::gfxd_Vtx, (((p.w0 >> 16) & 0xff) / 2) as i32),
            );
            finish_single(u, MacroId::SPVertex, args, pkts, i)
        } else {
            let args = args3(
                mk_u(ArgType::gfxd_Vtxptr, p.w1),
                mk_i(ArgType::gfxd_Num, (((p.w0 >> 20) & 0xf) + 1) as i32),
                mk_i(ArgType::gfxd_Vtx, ((p.w0 >> 16) & 0xf) as i32),
            );
            finish_single(u, MacroId::SPVertex, args, pkts, i)
        }
    } else if op == 0xbf {
        if p.w0 == 0xbf000000 {
            let f: u32 = if matches!(u, UcodeId::F3dex | UcodeId::F3dexb) {
                2
            } else {
                10
            };
            let ghost w1m: u32 = p.w1;
            proof {
                assert((w1m >> 16) & 0xff < 0x100 && (w1m >> 8) & 0xff < 0x100 && w1m & 0xff
                    < 0x100) by (bit_vector);
            }
            let args = args4(
                mk_i(ArgType::gfxd_Vtx, (((p.w1 >> 16) & 0xff) / f) as i32),
                mk_i(ArgType::gfxd_Vtx, (((p.w1 >> 8) & 0xff) / f) as i32),
                mk_i(ArgType::gfxd_Vtx, ((p.w1 & 0xff) / f) as i32),
                mk_i(ArgType::gfxd_Vtxflag, 0),
            );
            finish_single(u, MacroId::SP1Triangle, args, pkts, i)
        } else {
            finish_invalid(p)
        }
    } else if op == 0xb1 && matches!(u, UcodeId::F3dex | UcodeId::F3dexb) {
        let ghost w0m: u32 = p.w0;
        let ghost w1m: u32 = p.w1;
        proof {
            assert((w0m >> 16) & 0xff < 0x100 && (w0m >> 8) & 0xff < 0x100 && w0m & 0xff < 0x100
                && (w1m >> 16) & 0xff < 0x100 && (w1m >> 8) & 0xff < 0x100 && w1m & 0xff < 0x100)
                by (bit_vector);
        }
        let args = args8(
            mk_i(ArgType::gfxd_Vtx, (((p.w0 >> 16) & 0xff) / 2) as i32),
            mk_i(ArgType::gfxd_Vtx, (((p.w0 >> 8) & 0xff) / 2) as i32),
            mk_i(ArgType::gfxd_Vtx, ((p.w0 & 0xff) / 2) as i32),
            mk_i(ArgType::gfxd_Vtxflag, 0),
            mk_i(ArgType::gfxd_Vtx, (((p.w1 >> 16) & 0xff) / 2) as i32),
            mk_i(ArgType::gfxd_Vtx, (((p.w1 >> 8) & 0xff) / 2) as i32),
            mk_i(ArgType::gfxd_Vtx, ((p.w1 & 0xff) / 2) as i32),
            mk_i(ArgType::gfxd_Vtxflag, 0),
        );
        finish_single(u, MacroId::SP2Triangles, args, pkts, i)
    } else if op == 0xb8 {
        if p.w0 == 0xb8000000 && p.w1 == 0 {
            finish_single(u, MacroId::SPEndDisplayList, args0(), pkts, i)
        } else {
            finish_invalid(p)
        }
    } else if op == 0xc0 {
        if p.w0 == 0xc0000000 {
            if p.w1 == 0 {
                finish_single(u, MacroId::DPNoOp, args0(), pkts, i)
            } else {
                finish_single(u, MacroId::DPNoOpTag, args1(mk_u(ArgType::gfxd_Tag, p.w1)), pkts, i)
            }
        } else {
            finish_invalid(p)
        }
    } else {
        match_rdp(u, pkts, i)
    }
}

/// Matches at cursor `i` under the selected microcode: the macro identity,
/// the packets consumed (at least one; several for a multi-packet
/// recognizer), the decoded arguments, and the validity flag.
pub fn match_at(u: UcodeId, ext: bool, pkts: &Vec<Packet>, i: usize) -> (m: MacroMatch)
    requires
        i < pkts@.len(),
    ensures
        m_matches(m, spec_match(u, ext, pkts@, i as int)),
        1 <= m.count,
        i + m.count <= pkts@.len(),
{
    match u {
        UcodeId::F3dex2 => match_f3dex2(ext, pkts, i),
        _ => match_f3d(u, pkts, i),
    }
}


/// The basic well-formedness of one match result at cursor `i`: at least
/// one packet is consumed and never more than remain; the invalid sentinel
/// consumes exactly one; and a match marked valid re-encodes to exactly the
/// packet window it was decoded from.
pub open spec fn match_ok(u: UcodeId, pkts: Seq<Packet>, i: int, m: SpecMatch) -> bool {
    &&& 1 <= m.count
    &&& i + m.count <= pkts.len()
    &&& (m.id == MacroId::Invalid ==> m.count == 1)
    &&& (m.valid ==> spec_encode(u, m.id, m.args) == Some(pkts.subrange(i, i + m.count)))
}

/// The shared RDP matching is basically well formed.
#[verifier::rlimit(100)]
proof fn lemma_match_basic_rdp(u: UcodeId, pkts: Seq<Packet>, i: int)
    requires
        0 <= i < pkts.len(),
    ensures
        ({
            let m = spec_match_rdp(u, pkts[i]);
            m.count == 1 && match_ok(u, pkts, i, m)
        }),
{
    reveal(spec_match_rdp);
    assert(pkts.subrange(i, i + 1) =~= seq![pkts[i]]);
}

/// `F3D`-family matching is basically well formed.
#[verifier::rlimit(100)]
proof fn lemma_match_basic_f3d(u: UcodeId, pkts: Seq<Packet>, i: int)
    requires
        0 <= i < pkts.len(),
    ensures
        match_ok(u, pkts, i, spec_match_f3d(u, pkts, i)),
{
    reveal(spec_match_f3d);
    lemma_match_basic_rdp(u, pkts, i);
    assert(pkts.subrange(i, i + 1) =~= seq![pkts[i]]);
}

/// `F3DEX2` matching is basically well formed.
#[verifier::rlimit(100)]
proof fn lemma_match_basic_f3dex2(ext: bool, pkts: Seq<Packet>, i: int)
    requires
        0 <= i < pkts.len(),
    ensures
        match_ok(UcodeId::F3dex2, pkts, i, spec_match_f3dex2(ext, pkts, i)),
{
    reveal(spec_match_f3dex2);
    lemma_match_basic_rdp(UcodeId::F3dex2, pkts, i);
    assert(pkts.subrange(i, i + 1) =~= seq![pkts[i]]);
}

/// Basic properties of matching: at least one packet is consumed and never
/// more than remain; the invalid sentinel consumes exactly one; and a match
/// marked valid re-encodes to exactly the packet window it was decoded
/// from.
pub proof fn lemma_match_basic(u: UcodeId, ext: bool, pkts: Seq<Packet>, i: int)
    requires
        0 <= i < pkts.len(),
    ensures
        ({
            let m = spec_match(u, ext, pkts, i);
            &&& 1 <= m.count
            &&& i + m.count <= pkts.len()
            &&& (m.id == MacroId::Invalid ==> m.count == 1)
            &&& (m.valid ==> spec_encode(u, m.id, m.args) == Some(
                pkts.subrange(i, i + m.count),
            ))
        }),
{
    match u {
        UcodeId::F3dex2 => lemma_match_basic_f3dex2(ext, pkts, i),
        _ => lemma_match_basic_f3d(u, pkts, i),
    }
}

} // verus!

