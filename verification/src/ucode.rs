//! Microcode selection and macro identities.
//!
//! Five related microcodes interpret `Gfx` command streams, each with its own
//! opcode numbering. A macro identity names the C-preprocessor macro that a
//! matched packet group decodes to; the sentinel `Invalid` stands for a
//! packet that no known macro encodes.

use vstd::prelude::*;

verus! {

/// The microcode variants.
#[derive(Clone, Copy, PartialEq, Eq, Structural, Debug)]
pub enum UcodeId {
    F3d,
    F3db,
    F3dex,
    F3dexb,
    F3dex2,
}

/// An opaque microcode token, as handed to `target`.
#[allow(non_camel_case_types)]
#[derive(Clone, Copy, PartialEq, Eq, Structural, Debug)]
pub struct gfxd_ucode {
    pub id: UcodeId,
}

impl gfxd_ucode {
    /// The `F3D` microcode.
    pub fn f3d() -> (r: gfxd_ucode)
        ensures
            r.id == UcodeId::F3d,
    {
        gfxd_ucode { id: UcodeId::F3d }
    }

    /// The `F3DB` (beta `F3D`) microcode.
    pub fn f3db() -> (r: gfxd_ucode)
        ensures
            r.id == UcodeId::F3db,
    {
        gfxd_ucode { id: UcodeId::F3db }
    }

    /// The `F3DEX` microcode.
    pub fn f3dex() -> (r: gfxd_ucode)
        ensures
            r.id == UcodeId::F3dex,
    {
        gfxd_ucode { id: UcodeId::F3dex }
    }

    /// The `F3DEXB` (beta `F3DEX`) microcode.
    pub fn f3dexb() -> (r: gfxd_ucode)
        ensures
            r.id == UcodeId::F3dexb,
    {
        gfxd_ucode { id: UcodeId::F3dexb }
    }

    /// The `F3DEX2` microcode.
    pub fn f3dex2() -> (r: gfxd_ucode)
        ensures
            r.id == UcodeId::F3dex2,
    {
        gfxd_ucode { id: UcodeId::F3dex2 }
    }
}

/// Identity of a decoded macro. `Invalid` is the sentinel for a packet that
/// no known macro of the selected microcode encodes.
#[derive(Clone, Copy, PartialEq, Eq, Structural, Debug)]
pub enum MacroId {
    Invalid,
    DPNoOp,
    DPNoOpTag,
    SPNoOp,
    SPVertex,
    SPModifyVertex,
    SPCullDisplayList,
    SP1Triangle,
    SP2Triangles,
    SP1Quadrangle,
    SPGeometryMode,
    SPSetGeometryMode,
    SPClearGeometryMode,
    SPLoadGeometryMode,
    SPDisplayList,
    SPBranchList,
    SPEndDisplayList,
    SPTexture,
    SPNumLights,
    SPSegment,
    SPLight,
    SPSetLights1,
    SPSetLights2,
    MoveWd,
    DPHalf1,
    DPLoadSync,
    DPPipeSync,
    DPTileSync,
    DPFullSync,
    DPSetFillColor,
    DPSetFogColor,
    DPSetBlendColor,
    DPSetPrimColor,
    DPSetEnvColor,
    DPSetPrimDepth,
    DPFillRectangle,
}

/// Whether a macro ends a display list.
pub open spec fn spec_is_terminator(id: MacroId) -> bool {
    id == MacroId::SPEndDisplayList || id == MacroId::SPBranchList
}

/// Whether a macro ends a display list: `SPBranchList` or
/// `SPEndDisplayList`.
pub fn is_terminator(id: MacroId) -> (r: bool)
    ensures
        r == spec_is_terminator(id),
{
    match id {
        MacroId::SPEndDisplayList => true,
        MacroId::SPBranchList => true,
        _ => false,
    }
}

/// The printed name of a macro: the static `gs…` form, or the dynamic `g…`
/// form when a dynamic display-list pointer is configured. The invalid
/// sentinel renders under the placeholder name `gsUnknown`.
pub open spec fn spec_macro_name(id: MacroId, dynamic: bool) -> Seq<char> {
    match id {
        MacroId::Invalid => if dynamic {
            "gUnknown"@
        } else {
            "gsUnknown"@
        },
        MacroId::DPNoOp => if dynamic {
            "gDPNoOp"@
        } else {
            "gsDPNoOp"@
        },
        MacroId::DPNoOpTag => if dynamic {
            "gDPNoOpTag"@
        } else {
            "gsDPNoOpTag"@
        },
        MacroId::SPNoOp => if dynamic {
            "gSPNoOp"@
        } else {
            "gsSPNoOp"@
        },
        MacroId::SPVertex => if dynamic {
            "gSPVertex"@
        } else {
            "gsSPVertex"@
        },
        MacroId::SPModifyVertex => if dynamic {
            "gSPModifyVertex"@
        } else {
            "gsSPModifyVertex"@
        },
        MacroId::SPCullDisplayList => if dynamic {
            "gSPCullDisplayList"@
        } else {
            "gsSPCullDisplayList"@
        },
        MacroId::SP1Triangle => if dynamic {
            "gSP1Triangle"@
        } else {
            "gsSP1Triangle"@
        },
        MacroId::SP2Triangles => if dynamic {
            "gSP2Triangles"@
        } else {
            "gsSP2Triangles"@
        },
        MacroId::SP1Quadrangle => if dynamic {
            "gSP1Quadrangle"@
        } else {
            "gsSP1Quadrangle"@
        },
        MacroId::SPGeometryMode => if dynamic {
            "gSPGeometryMode"@
        } else {
            "gsSPGeometryMode"@
        },
        MacroId::SPSetGeometryMode => if dynamic {
            "gSPSetGeometryMode"@
        } else {
            "gsSPSetGeometryMode"@
        },
        MacroId::SPClearGeometryMode => if dynamic {
            "gSPClearGeometryMode"@
        } else {
            "gsSPClearGeometryMode"@
        },
        MacroId::SPLoadGeometryMode => if dynamic {
            "gSPLoadGeometryMode"@
        } else {
            "gsSPLoadGeometryMode"@
        },
        MacroId::SPDisplayList => if dynamic {
            "gSPDisplayList"@
        } else {
            "gsSPDisplayList"@
        },
        MacroId::SPBranchList => if dynamic {
            "gSPBranchList"@
        } else {
            "gsSPBranchList"@
        },
        MacroId::SPEndDisplayList => if dynamic {
            "gSPEndDisplayList"@
        } else {
            "gsSPEndDisplayList"@
        },
        MacroId::SPTexture => if dynamic {
            "gSPTexture"@
        } else {
            "gsSPTexture"@
        },
        MacroId::SPNumLights => if dynamic {
            "gSPNumLights"@
        } else {
            "gsSPNumLights"@
        },
        MacroId::SPSegment => if dynamic {
            "gSPSegment"@
        } else {
            "gsSPSegment"@
        },
        MacroId::SPLight => if dynamic {
            "gSPLight"@
        } else {
            "gsSPLight"@
        },
        MacroId::SPSetLights1 => if dynamic {
            "gSPSetLights1"@
        } else {
            "gsSPSetLights1"@
        },
        MacroId::SPSetLights2 => if dynamic {
            "gSPSetLights2"@
        } else {
            "gsSPSetLights2"@
        },
        MacroId::MoveWd => if dynamic {
            "gMoveWd"@
        } else {
            "gsMoveWd"@
        },
        MacroId::DPHalf1 => if dynamic {
            "gDPHalf1"@
        } else {
            "gsDPHalf1"@
        },
        MacroId::DPLoadSync => if dynamic {
            "gDPLoadSync"@
        } else {
            "gsDPLoadSync"@
        },
        MacroId::DPPipeSync => if dynamic {
            "gDPPipeSync"@
        } else {
            "gsDPPipeSync"@
        },
        MacroId::DPTileSync => if dynamic {
            "gDPTileSync"@
        } else {
            "gsDPTileSync"@
        },
        MacroId::DPFullSync => if dynamic {
            "gDPFullSync"@
        } else {
            "gsDPFullSync"@
        },
        MacroId::DPSetFillColor => if dynamic {
            "gDPSetFillColor"@
        } else {
            "gsDPSetFillColor"@
        },
        MacroId::DPSetFogColor => if dynamic {
            "gDPSetFogColor"@
        } else {
            "gsDPSetFogColor"@
        },
        MacroId::DPSetBlendColor => if dynamic {
            "gDPSetBlendColor"@
        } else {
            "gsDPSetBlendColor"@
        },
        MacroId::DPSetPrimColor => if dynamic {
            "gDPSetPrimColor"@
        } else {
            "gsDPSetPrimColor"@
        },
        MacroId::DPSetEnvColor => if dynamic {
            "gDPSetEnvColor"@
        } else {
            "gsDPSetEnvColor"@
        },
        MacroId::DPSetPrimDepth => if dynamic {
            "gDPSetPrimDepth"@
        } else {
            "gsDPSetPrimDepth"@
        },
        MacroId::DPFillRectangle => if dynamic {
            "gDPFillRectangle"@
        } else {
            "gsDPFillRectangle"@
        },
    }
}

/// The printed name of a macro, static or dynamic form.
pub fn macro_name_str(id: MacroId, dynamic: bool) -> (r: &'static str)
    ensures
        r@ == spec_macro_name(id, dynamic),
{
    match id {
        MacroId::Invalid => if dynamic {
            "gUnknown"
        } else {
            "gsUnknown"
        },
        MacroId::DPNoOp => if dynamic {
            "gDPNoOp"
        } else {
            "gsDPNoOp"
        },
        MacroId::DPNoOpTag => if dynamic {
            "gDPNoOpTag"
        } else {
            "gsDPNoOpTag"
        },
        MacroId::SPNoOp => if dynamic {
            "gSPNoOp"
        } else {
            "gsSPNoOp"
        },
        MacroId::SPVertex => if dynamic {
            "gSPVertex"
        } else {
            "gsSPVertex"
        },
        MacroId::SPModifyVertex => if dynamic {
            "gSPModifyVertex"
        } else {
            "gsSPModifyVertex"
        },
        MacroId::SPCullDisplayList => if dynamic {
            "gSPCullDisplayList"
        } else {
            "gsSPCullDisplayList"
        },
        MacroId::SP1Triangle => if dynamic {
            "gSP1Triangle"
        } else {
            "gsSP1Triangle"
        },
        MacroId::SP2Triangles => if dynamic {
            "gSP2Triangles"
        } else {
            "gsSP2Triangles"
        },
        MacroId::SP1Quadrangle => if dynamic {
            "gSP1Quadrangle"
        } else {
            "gsSP1Quadrangle"
        },
        MacroId::SPGeometryMode => if dynamic {
            "gSPGeometryMode"
        } else {
            "gsSPGeometryMode"
        },
        MacroId::SPSetGeometryMode => if dynamic {
            "gSPSetGeometryMode"
        } else {
            "gsSPSetGeometryMode"
        },
        MacroId::SPClearGeometryMode => if dynamic {
            "gSPClearGeometryMode"
        } else {
            "gsSPClearGeometryMode"
        },
        MacroId::SPLoadGeometryMode => if dynamic {
            "gSPLoadGeometryMode"
        } else {
            "gsSPLoadGeometryMode"
        },
        MacroId::SPDisplayList => if dynamic {
            "gSPDisplayList"
        } else {
            "gsSPDisplayList"
        },
        MacroId::SPBranchList => if dynamic {
            "gSPBranchList"
        } else {
            "gsSPBranchList"
        },
        MacroId::SPEndDisplayList => if dynamic {
            "gSPEndDisplayList"
        } else {
            "gsSPEndDisplayList"
        },
        MacroId::SPTexture => if dynamic {
            "gSPTexture"
        } else {
            "gsSPTexture"
        },
        MacroId::SPNumLights => if dynamic {
            "gSPNumLights"
        } else {
            "gsSPNumLights"
        },
        MacroId::SPSegment => if dynamic {
            "gSPSegment"
        } else {
            "gsSPSegment"
        },
        MacroId::SPLight => if dynamic {
            "gSPLight"
        } else {
            "gsSPLight"
        },
        MacroId::SPSetLights1 => if dynamic {
            "gSPSetLights1"
        } else {
            "gsSPSetLights1"
        },
        MacroId::SPSetLights2 => if dynamic {
            "gSPSetLights2"
        } else {
            "gsSPSetLights2"
        },
        MacroId::MoveWd => if dynamic {
            "gMoveWd"
        } else {
            "gsMoveWd"
        },
        MacroId::DPHalf1 => if dynamic {
            "gDPHalf1"
        } else {
            "gsDPHalf1"
        },
        MacroId::DPLoadSync => if dynamic {
            "gDPLoadSync"
        } else {
            "gsDPLoadSync"
        },
        MacroId::DPPipeSync => if dynamic {
            "gDPPipeSync"
        } else {
            "gsDPPipeSync"
        },
        MacroId::DPTileSync => if dynamic {
            "gDPTileSync"
        } else {
            "gsDPTileSync"
        },
        MacroId::DPFullSync => if dynamic {
            "gDPFullSync"
        } else {
            "gsDPFullSync"
        },
        MacroId::DPSetFillColor => if dynamic {
            "gDPSetFillColor"
        } else {
            "gsDPSetFillColor"
        },
        MacroId::DPSetFogColor => if dynamic {
            "gDPSetFogColor"
        } else {
            "gsDPSetFogColor"
        },
        MacroId::DPSetBlendColor => if dynamic {
            "gDPSetBlendColor"
        } else {
            "gsDPSetBlendColor"
        },
        MacroId::DPSetPrimColor => if dynamic {
            "gDPSetPrimColor"
        } else {
            "gsDPSetPrimColor"
        },
        MacroId::DPSetEnvColor => if dynamic {
            "gDPSetEnvColor"
        } else {
            "gsDPSetEnvColor"
        },
        MacroId::DPSetPrimDepth => if dynamic {
            "gDPSetPrimDepth"
        } else {
            "gsDPSetPrimDepth"
        },
        MacroId::DPFillRectangle => if dynamic {
            "gDPFillRectangle"
        } else {
            "gsDPFillRectangle"
        },
    }
}


/// The informational name of the argument with index `arg_num` of a macro,
/// or the empty string for an index the macro does not have. Argument names
/// are not canonical, nor needed for disassembly.
pub open spec fn spec_arg_name(id: MacroId, arg_num: int) -> Seq<char> {
    match id {
        MacroId::Invalid => {
            "word"@
        },
        MacroId::DPNoOp => ""@,
        MacroId::DPNoOpTag => {
            "tag"@
        },
        MacroId::SPNoOp => ""@,
        MacroId::SPVertex => if arg_num == 0 {
            "v"@
        } else if arg_num == 1 {
            "n"@
        } else {
            "v0"@
        },
        MacroId::SP1Triangle => if arg_num == 0 {
            "v0"@
        } else if arg_num == 1 {
            "v1"@
        } else if arg_num == 2 {
            "v2"@
        } else {
            "flag"@
        },
        MacroId::SP2Triangles => if arg_num == 0 {
            "v00"@
        } else if arg_num == 1 {
            "v01"@
        } else if arg_num == 2 {
            "v02"@
        } else if arg_num == 3 {
            "flag0"@
        } else if arg_num == 4 {
            "v10"@
        } else if arg_num == 5 {
            "v11"@
        } else if arg_num == 6 {
            "v12"@
        } else {
            "flag1"@
        },
        MacroId::SPDisplayList => {
            "dl"@
        },
        MacroId::SPBranchList => {
            "dl"@
        },
        MacroId::SPModifyVertex => if arg_num == 0 {
            "vtx"@
        } else if arg_num == 1 {
            "where"@
        } else {
            "val"@
        },
        MacroId::SPCullDisplayList => if arg_num == 0 {
            "vstart"@
        } else {
            "vend"@
        },
        MacroId::SP1Quadrangle => if arg_num == 0 {
            "v0"@
        } else if arg_num == 1 {
            "v1"@
        } else if arg_num == 2 {
            "v2"@
        } else if arg_num == 3 {
            "v3"@
        } else {
            "flag"@
        },
        MacroId::SPGeometryMode => if arg_num == 0 {
            "clear"@
        } else {
            "set"@
        },
        MacroId::SPSetGeometryMode => "mode"@,
        MacroId::SPClearGeometryMode => "mode"@,
        MacroId::SPLoadGeometryMode => "mode"@,
        MacroId::SPSetLights2 => "l"@,
        MacroId::DPSetPrimDepth => if arg_num == 0 {
            "z"@
        } else {
            "dz"@
        },
        MacroId::DPFillRectangle => if arg_num == 0 {
            "ulx"@
        } else if arg_num == 1 {
            "uly"@
        } else if arg_num == 2 {
            "lrx"@
        } else {
            "lry"@
        },
        MacroId::SPEndDisplayList => ""@,
        MacroId::SPTexture => if arg_num == 0 {
            "sc"@
        } else if arg_num == 1 {
            "tc"@
        } else if arg_num == 2 {
            "level"@
        } else if arg_num == 3 {
            "tile"@
        } else {
            "on"@
        },
        MacroId::SPNumLights => {
            "n"@
        },
        MacroId::SPSegment => if arg_num == 0 {
            "seg"@
        } else {
            "base"@
        },
        MacroId::SPLight => if arg_num == 0 {
            "l"@
        } else {
            "n"@
        },
        MacroId::SPSetLights1 => {
            "l"@
        },
        MacroId::MoveWd => if arg_num == 0 {
            "index"@
        } else if arg_num == 1 {
            "offset"@
        } else {
            "data"@
        },
        MacroId::DPHalf1 => {
            "hi"@
        },
        MacroId::DPLoadSync => ""@,
        MacroId::DPPipeSync => ""@,
        MacroId::DPTileSync => ""@,
        MacroId::DPFullSync => ""@,
        MacroId::DPSetFillColor => {
            "c"@
        },
        MacroId::DPSetFogColor => if arg_num == 0 {
            "r"@
        } else if arg_num == 1 {
            "g"@
        } else if arg_num == 2 {
            "b"@
        } else {
            "a"@
        },
        MacroId::DPSetBlendColor => if arg_num == 0 {
            "r"@
        } else if arg_num == 1 {
            "g"@
        } else if arg_num == 2 {
            "b"@
        } else {
            "a"@
        },
        MacroId::DPSetPrimColor => if arg_num == 0 {
            "m"@
        } else if arg_num == 1 {
            "l"@
        } else if arg_num == 2 {
            "r"@
        } else if arg_num == 3 {
            "g"@
        } else if arg_num == 4 {
            "b"@
        } else {
            "a"@
        },
        MacroId::DPSetEnvColor => if arg_num == 0 {
            "r"@
        } else if arg_num == 1 {
            "g"@
        } else if arg_num == 2 {
            "b"@
        } else {
            "a"@
        },
    }
}

/// The informational name of the argument with index `arg_num`, or the
/// empty string for an index this macro does not have.
pub fn arg_name(id: MacroId, arg_num: usize) -> (r: &'static str)
    ensures
        r@ == spec_arg_name(id, arg_num as int),
{
    match id {
        MacroId::Invalid => {
            "word"
        },
        MacroId::DPNoOp => "",
        MacroId::DPNoOpTag => {
            "tag"
        },
        MacroId::SPNoOp => "",
        MacroId::SPVertex => if arg_num == 0 {
            "v"
        } else if arg_num == 1 {
            "n"
        } else {
            "v0"
        },
        MacroId::SP1Triangle => if arg_num == 0 {
            "v0"
        } else if arg_num == 1 {
            "v1"
        } else if arg_num == 2 {
            "v2"
        } else {
            "flag"
        },
        MacroId::SP2Triangles => if arg_num == 0 {
            "v00"
        } else if arg_num == 1 {
            "v01"
        } else if arg_num == 2 {
            "v02"
        } else if arg_num == 3 {
            "flag0"
        } else if arg_num == 4 {
            "v10"
        } else if arg_num == 5 {
            "v11"
        } else if arg_num == 6 {
            "v12"
        } else {
            "flag1"
        },
        MacroId::SPDisplayList => {
            "dl"
        },
        MacroId::SPBranchList => {
            "dl"
        },
        MacroId::SPModifyVertex => if arg_num == 0 {
            "vtx"
        } else if arg_num == 1 {
            "where"
        } else {
            "val"
        },
        MacroId::SPCullDisplayList => if arg_num == 0 {
            "vstart"
        } else {
            "vend"
        },
        MacroId::SP1Quadrangle => if arg_num == 0 {
            "v0"
        } else if arg_num == 1 {
            "v1"
        } else if arg_num == 2 {
            "v2"
        } else if arg_num == 3 {
            "v3"
        } else {
            "flag"
        },
        MacroId::SPGeometryMode => if arg_num == 0 {
            "clear"
        } else {
            "set"
        },
        MacroId::SPSetGeometryMode => "mode",
        MacroId::SPClearGeometryMode => "mode",
        MacroId::SPLoadGeometryMode => "mode",
        MacroId::SPSetLights2 => "l",
        MacroId::DPSetPrimDepth => if arg_num == 0 {
            "z"
        } else {
            "dz"
        },
        MacroId::DPFillRectangle => if arg_num == 0 {
            "ulx"
        } else if arg_num == 1 {
            "uly"
        } else if arg_num == 2 {
            "lrx"
        } else {
            "lry"
        },
        MacroId::SPEndDisplayList => "",
        MacroId::SPTexture => if arg_num == 0 {
            "sc"
        } else if arg_num == 1 {
            "tc"
        } else if arg_num == 2 {
            "level"
        } else if arg_num == 3 {
            "tile"
        } else {
            "on"
        },
        MacroId::SPNumLights => {
            "n"
        },
        MacroId::SPSegment => if arg_num == 0 {
            "seg"
        } else {
            "base"
        },
        MacroId::SPLight => if arg_num == 0 {
            "l"
        } else {
            "n"
        },
        MacroId::SPSetLights1 => {
            "l"
        },
        MacroId::MoveWd => if arg_num == 0 {
            "index"
        } else if arg_num == 1 {
            "offset"
        } else {
            "data"
        },
        MacroId::DPHalf1 => {
            "hi"
        },
        MacroId::DPLoadSync => "",
        MacroId::DPPipeSync => "",
        MacroId::DPTileSync => "",
        MacroId::DPFullSync => "",
        MacroId::DPSetFillColor => {
            "c"
        },
        MacroId::DPSetFogColor => if arg_num == 0 {
            "r"
        } else if arg_num == 1 {
            "g"
        } else if arg_num == 2 {
            "b"
        } else {
            "a"
        },
        MacroId::DPSetBlendColor => if arg_num == 0 {
            "r"
        } else if arg_num == 1 {
            "g"
        } else if arg_num == 2 {
            "b"
        } else {
            "a"
        },
        MacroId::DPSetPrimColor => if arg_num == 0 {
            "m"
        } else if arg_num == 1 {
            "l"
        } else if arg_num == 2 {
            "r"
        } else if arg_num == 3 {
            "g"
        } else if arg_num == 4 {
            "b"
        } else {
            "a"
        },
        MacroId::DPSetEnvColor => if arg_num == 0 {
            "r"
        } else if arg_num == 1 {
            "g"
        } else if arg_num == 2 {
            "b"
        } else {
            "a"
        },
    }
}

} // verus!
