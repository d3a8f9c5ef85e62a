//! Argument types: the closed enumeration of semantic kinds an argument of a
//! graphics macro can have. The kind selects the default formatting of the
//! argument and keys the per-argument-type callback table.

use vstd::prelude::*;

verus! {

/// Semantic kind of a macro argument.
#[allow(non_camel_case_types)]
#[derive(Clone, Copy, PartialEq, Eq, Structural, Debug)]
pub enum ArgType {
    /// generic word
    gfxd_Word,
    /// command opcode (G_*)
    gfxd_Opcode,
    /// integer coordinate
    gfxd_Coordi,
    /// fractional (q10.2) coordinate
    gfxd_Coordq,
    /// palette index
    gfxd_Pal,
    /// tlut pointer
    gfxd_Tlut,
    /// texture image pointer
    gfxd_Timg,
    /// tmem address
    gfxd_Tmem,
    /// tile index
    gfxd_Tile,
    /// texture format
    gfxd_Fmt,
    /// texture pixel size
    gfxd_Siz,
    /// integer dimension (width / height)
    gfxd_Dim,
    /// clamp and mirror flags
    gfxd_Cm,
    /// tile mask
    gfxd_Tm,
    /// tile shift
    gfxd_Ts,
    /// texture dxt
    gfxd_Dxt,
    /// generic tag
    gfxd_Tag,
    /// pipeline mode
    gfxd_Pm,
    /// color component
    gfxd_Colorpart,
    /// color
    gfxd_Color,
    /// lod fraction (q0.8)
    gfxd_Lodfrac,
    /// color image pointer
    gfxd_Cimg,
    /// depth image pointer
    gfxd_Zimg,
    /// alpha compare mode
    gfxd_Ac,
    /// alpha dither mode
    gfxd_Ad,
    /// color dither mode
    gfxd_Cd,
    /// color combiner preset index
    gfxd_Ccpre,
    /// color mux operand (a)
    gfxd_Ccmuxa,
    /// color mux operand (b)
    gfxd_Ccmuxb,
    /// color mux operand (c)
    gfxd_Ccmuxc,
    /// color mux operand (d)
    gfxd_Ccmuxd,
    /// alpha mux operand (a, b, or d)
    gfxd_Acmuxabd,
    /// alpha mux operand (c)
    gfxd_Acmuxc,
    /// color convert operand
    gfxd_Cv,
    /// texture convert mode
    gfxd_Tc,
    /// cycle type
    gfxd_Cyc,
    /// depth source mode
    gfxd_Zs,
    /// combine key mode
    gfxd_Ck,
    /// combine key scale
    gfxd_Keyscale,
    /// combine key width
    gfxd_Keywidth,
    /// integer depth
    gfxd_Zi,
    /// cycle 1 render mode
    gfxd_Rm1,
    /// cycle 2 render mode
    gfxd_Rm2,
    /// scissor mode
    gfxd_Sc,
    /// texture detail mode
    gfxd_Td,
    /// texture filter mode
    gfxd_Tf,
    /// texture LOD mode
    gfxd_Tl,
    /// textuure LUT mode
    gfxd_Tt,
    /// texture perspective mode
    gfxd_Tp,
    /// texture line size
    gfxd_Line,
    /// vertex index
    gfxd_Vtx,
    /// vertex flag
    gfxd_Vtxflag,
    /// display list pointer
    gfxd_Dl,
    /// raw depth value (q16.16)
    gfxd_Zraw,
    /// display list flag
    gfxd_Dlflag,
    /// clip ratio
    gfxd_Cr,
    /// element count
    gfxd_Num,
    /// fog factor
    gfxd_Fogz,
    /// fog position (0 - 1000)
    gfxd_Fogp,
    /// matrix pointer
    gfxd_Mtxptr,
    /// geometry mode
    gfxd_Gm,
    /// matrix moveword offset
    gfxd_Mwo_matrix,
    /// line width (1.5 + q7.1)
    gfxd_Linewd,
    /// microcode text pointer
    gfxd_Uctext,
    /// microcode data pointer
    gfxd_Ucdata,
    /// data size
    gfxd_Size,
    /// lookat pointer
    gfxd_Lookatptr,
    /// matrix param
    gfxd_Mtxparam,
    /// matrix param (stack select only)
    gfxd_Mtxstack,
    /// vertex moveword offset
    gfxd_Mwo_point,
    /// w-component scale (perspnorm)
    gfxd_Wscale,
    /// segment number
    gfxd_Seg,
    /// segment pointer
    gfxd_Segptr,
    /// dereferenced LightsM (0-7 or n) pointer
    gfxd_Lightsn,
    /// light count (NUMLIGHTS_*)
    gfxd_Numlights,
    /// light number (LIGHT_*)
    gfxd_Lightnum,
    /// diffuse or ambient light pointer
    gfxd_Lightptr,
    /// texture coordinate scale
    gfxd_Tcscale,
    /// on-off value
    gfxd_Switch,
    /// vertex coordinate (q10.5)
    gfxd_St,
    /// vertex coordinate delta (q5.10)
    gfxd_Stdelta,
    /// vertex pointer
    gfxd_Vtxptr,
    /// viewport pointer
    gfxd_Vpptr,
    /// generic dram address
    gfxd_Dram,
    /// othermode lo shift
    gfxd_Sftlo,
    /// othermode lo value
    gfxd_Othermodelo,
    /// othermode hi shift
    gfxd_Sfthi,
    /// othermode hi value
    gfxd_Othermodehi,
    /// moveword index
    gfxd_Mw,
    /// moveword offset
    gfxd_Mwo,
    /// clip ratio moveword offset
    gfxd_Mwo_clip,
    /// light color moveword offset
    gfxd_Mwo_lightcol,
    /// movemem index
    gfxd_Mv,
    /// movemem offset
    gfxd_Mvo,
    /// dmem address
    gfxd_Dmem,
    /// dma io flag
    gfxd_Dmaflag,}

} // verus!
