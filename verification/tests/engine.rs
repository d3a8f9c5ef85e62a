use gfxd::arg_type::ArgType;
use gfxd::config::{Cap, HaltAt, gfxd_config};
use gfxd::macro_info::{ArgFmt, ArgValue};
use gfxd::output::print_value;
use gfxd::packet::{Endian, WordSize};
use gfxd::ptr::{NonNullConst, NonNullMut};
use gfxd::ucode::{MacroId, arg_name, gfxd_ucode};

fn dl_config(data: &[u8]) -> gfxd_config {
    let mut cfg = gfxd_config::new();
    cfg.input_buffer(data.to_vec());
    cfg.macro_decoration(String::from("    "), String::from(",\n"));
    cfg.target(gfxd_ucode::f3dex2());
    cfg
}

#[test]
fn invalid_opcode_stops_with_minus_one() {
    // 0xFF is not a known macro of the modelled table: stop-on-invalid is
    // enabled by default and execute returns -1 with nothing emitted.
    let data = [0xFF, 0x00, 0x00, 0x00, 0x00, 0x00, 0x00, 0x00];
    let cfg = dl_config(&data);
    let ex = cfg.execute();
    assert_eq!(ex.ret, -1);
    assert_eq!(ex.output, "");
    assert_eq!(ex.macros.len(), 0);
}

#[test]
fn invalid_opcode_emits_raw_word_when_not_stopping() {
    let data = [
        0xFF, 0x00, 0x00, 0x00, 0x00, 0x00, 0x00, 0x00, 0xDF, 0x00, 0x00, 0x00, 0x00, 0x00, 0x00,
        0x00,
    ];
    let mut cfg = dl_config(&data);
    cfg.disable(Cap::StopOnInvalid);
    let ex = cfg.execute();
    assert_eq!(ex.ret, 0);
    assert_eq!(
        ex.output,
        "    gsUnknown(0xFF00000000000000),\n    gsSPEndDisplayList(),\n"
    );
    assert_eq!(ex.macros[0].macro_id(), MacroId::Invalid);
    assert_eq!(ex.macros[0].macro_name(false), None);
}

#[test]
fn handler_return_halts_execution() {
    // The macro handler returns 7 on the second packet: execute returns 7
    // and no output is emitted for later packets.
    let data = [
        0xE7, 0x00, 0x00, 0x00, 0x00, 0x00, 0x00, 0x00, 0xE7, 0x00, 0x00, 0x00, 0x00, 0x00, 0x00,
        0x00, 0xDF, 0x00, 0x00, 0x00, 0x00, 0x00, 0x00, 0x00,
    ];
    let mut cfg = dl_config(&data);
    cfg.halt_at(Some(HaltAt { nth: 1, code: 7 }));
    let ex = cfg.execute();
    assert_eq!(ex.ret, 7);
    assert_eq!(ex.output, "    gsDPPipeSync(),\n    gsDPPipeSync(),\n");
    assert_eq!(ex.macros.len(), 2);
}

#[test]
fn decimal_colors_render_components_in_decimal() {
    let data = [0xFA, 0x00, 0x00, 0x00, 0xFF, 0xFF, 0xFF, 0xFF];
    let mut cfg = dl_config(&data);
    cfg.enable(Cap::EmitDecColor);
    let ex = cfg.execute();
    assert_eq!(ex.output, "    gsDPSetPrimColor(0, 0, 255, 255, 255, 255),\n");
}

#[test]
fn hex_colors_by_default() {
    let data = [0xFA, 0x00, 0x00, 0x00, 0xFF, 0xFF, 0xFF, 0xFF];
    let cfg = dl_config(&data);
    let ex = cfg.execute();
    assert_eq!(
        ex.output,
        "    gsDPSetPrimColor(0, 0, 0xFF, 0xFF, 0xFF, 0xFF),\n"
    );
}

#[test]
fn little_endian_word4_swaps_groups() {
    let data = [0x00, 0x00, 0x00, 0xDF, 0x00, 0x00, 0x00, 0x00];
    let mut cfg = dl_config(&data);
    cfg.endian(Endian::Little, WordSize::W4);
    let ex = cfg.execute();
    assert_eq!(ex.ret, 0);
    assert_eq!(ex.output, "    gsSPEndDisplayList(),\n");
}

#[test]
fn little_endian_word2_swaps_pairs() {
    let data = [0x00, 0xDF, 0x00, 0x00, 0x00, 0x00, 0x00, 0x00];
    let mut cfg = dl_config(&data);
    cfg.endian(Endian::Little, WordSize::W2);
    let ex = cfg.execute();
    assert_eq!(ex.output, "    gsSPEndDisplayList(),\n");
}

#[test]
fn endianness_flip_commutes() {
    // Decoding bytes under big-endian equals decoding the group-wise
    // swapped bytes under little-endian.
    let big = [
        0x01, 0x00, 0x30, 0x06, 0x42, 0x04, 0x20, 0x69, 0xDF, 0x00, 0x00, 0x00, 0x00, 0x00, 0x00,
        0x00,
    ];
    let mut swapped = Vec::new();
    for group in big.chunks(4) {
        for b in group.iter().rev() {
            swapped.push(*b);
        }
    }
    let cfg_big = dl_config(&big);
    let mut cfg_little = dl_config(&swapped);
    cfg_little.endian(Endian::Big.flip(), WordSize::W4);
    assert_eq!(cfg_big.execute().output, cfg_little.execute().output);
}

#[test]
fn trailing_residue_is_discarded() {
    let data = [
        0xDF, 0x00, 0x00, 0x00, 0x00, 0x00, 0x00, 0x00, 0xE7, 0x00, 0x00,
    ];
    let mut cfg = dl_config(&data);
    cfg.disable(Cap::StopOnEnd);
    let ex = cfg.execute();
    assert_eq!(ex.ret, 0);
    assert_eq!(ex.output, "    gsSPEndDisplayList(),\n");
}

#[test]
fn stop_on_end_consumes_terminator_and_stops() {
    let data = [
        0xDF, 0x00, 0x00, 0x00, 0x00, 0x00, 0x00, 0x00, 0xE7, 0x00, 0x00, 0x00, 0x00, 0x00, 0x00,
        0x00,
    ];
    let cfg = dl_config(&data);
    let ex = cfg.execute();
    assert_eq!(ex.ret, 0);
    assert_eq!(ex.output, "    gsSPEndDisplayList(),\n");
    assert_eq!(ex.macros.len(), 1);
}

#[test]
fn stop_on_end_disabled_continues() {
    let data = [
        0xDF, 0x00, 0x00, 0x00, 0x00, 0x00, 0x00, 0x00, 0xE7, 0x00, 0x00, 0x00, 0x00, 0x00, 0x00,
        0x00,
    ];
    let mut cfg = dl_config(&data);
    cfg.disable(Cap::StopOnEnd);
    let ex = cfg.execute();
    assert_eq!(
        ex.output,
        "    gsSPEndDisplayList(),\n    gsDPPipeSync(),\n"
    );
}

#[test]
fn macro_offsets_and_packet_counts() {
    let data = [
        0xE7, 0x00, 0x00, 0x00, 0x00, 0x00, 0x00, 0x00, // one packet
        0xDB, 0x02, 0x00, 0x00, 0x00, 0x00, 0x00, 0x18, // lights: three packets
        0xDC, 0x08, 0x06, 0x0A, 0x09, 0x00, 0x00, 0x08, 0xDC, 0x08, 0x09, 0x0A, 0x09, 0x00, 0x00,
        0x00, 0xDF, 0x00, 0x00, 0x00, 0x00, 0x00, 0x00, 0x00,
    ];
    let cfg = dl_config(&data);
    let ex = cfg.execute();
    assert_eq!(ex.macros.len(), 3);
    assert_eq!(ex.macros[0].macro_offset(), 0);
    assert_eq!(ex.macros[0].macro_packets(), 1);
    assert_eq!(ex.macros[1].macro_offset(), 8);
    assert_eq!(ex.macros[1].macro_packets(), 3);
    assert_eq!(ex.macros[2].macro_offset(), 32);
    assert_eq!(ex.macros[2].macro_packets(), 1);
    // The macro data view holds the original unswapped bytes.
    assert_eq!(ex.macros[1].macro_data().len(), 24);
    assert_eq!(ex.macros[1].macro_data()[0], 0xDB);
    // Offsets chain: offset(n) = offset(n-1) + 8 * packets(n-1).
    assert_eq!(
        ex.macros[1].macro_offset(),
        ex.macros[0].macro_offset() + 8 * ex.macros[0].macro_packets()
    );
    assert_eq!(
        ex.macros[2].macro_offset(),
        ex.macros[1].macro_offset() + 8 * ex.macros[1].macro_packets()
    );
}

#[test]
fn run_twice_is_idempotent() {
    let data = [
        0x01, 0x00, 0x30, 0x06, 0x42, 0x04, 0x20, 0x69, 0xDF, 0x00, 0x00, 0x00, 0x00, 0x00, 0x00,
        0x00,
    ];
    let cfg = dl_config(&data);
    let first = cfg.execute();
    let second = cfg.execute();
    assert_eq!(first.ret, second.ret);
    assert_eq!(first.output, second.output);
    assert_eq!(first.macros.len(), second.macros.len());
}

#[test]
fn vertex_with_impossible_base_is_flagged_invalid() {
    // n = 240 but the encoded end index is 1: no argument values re-encode
    // to these bits, so the arguments are not valid, yet they still print.
    let data = [0x01, 0x0F, 0x00, 0x02, 0x42, 0x04, 0x20, 0x69];
    let mut cfg = dl_config(&data);
    cfg.disable(Cap::StopOnEnd);
    let ex = cfg.execute();
    assert_eq!(ex.ret, 0);
    assert_eq!(ex.output, "    gsSPVertex(0x42042069, 240, -239),\n");
    assert!(!ex.macros[0].arg_valid(0));
}

#[test]
fn valid_vertex_arguments_are_flagged_valid() {
    let data = [0x01, 0x00, 0x30, 0x06, 0x42, 0x04, 0x20, 0x69];
    let cfg = dl_config(&data);
    let ex = cfg.execute();
    assert!(ex.macros[0].arg_valid(0));
    assert!(ex.macros[0].arg_valid(1));
    assert!(ex.macros[0].arg_valid(2));
}

#[test]
fn odd_triangle_index_is_flagged_invalid() {
    let data = [0x05, 0x01, 0x00, 0x00, 0x00, 0x00, 0x00, 0x00];
    let cfg = dl_config(&data);
    let ex = cfg.execute();
    assert_eq!(ex.output, "    gsSP1Triangle(0, 0, 0, 0),\n");
    assert!(!ex.macros[0].arg_valid(0));
}

#[test]
fn argument_queries() {
    let data = [0x01, 0x00, 0x30, 0x06, 0x42, 0x04, 0x20, 0x69];
    let cfg = dl_config(&data);
    let ex = cfg.execute();
    let m = &ex.macros[0];
    assert_eq!(m.macro_id(), MacroId::SPVertex);
    assert_eq!(m.macro_name(false), Some("gsSPVertex"));
    assert_eq!(m.macro_name(true), Some("gSPVertex"));
    assert_eq!(m.arg_count(), 3);
    assert_eq!(m.arg_type(0), ArgType::gfxd_Vtxptr);
    assert_eq!(m.arg_type(1), ArgType::gfxd_Num);
    assert_eq!(m.arg_fmt(0), ArgFmt::U);
    assert_eq!(m.arg_fmt(1), ArgFmt::I);
    assert_eq!(m.arg_value(0), ArgValue::U(0x42042069));
    assert_eq!(m.arg_value(1), ArgValue::I(3));
    assert_eq!(m.arg_value(2), ArgValue::I(0));
    // value-by-type, with the substitution sentinels for absent arguments.
    assert_eq!(m.value_by_type(ArgType::gfxd_Num, 0), Some(ArgValue::I(3)));
    assert_eq!(m.value_by_type(ArgType::gfxd_Num, 1), None);
    assert_eq!(m.value_i(ArgType::gfxd_Tile, 0), -1);
    assert_eq!(m.value_u(ArgType::gfxd_Tile, 0), 0);
    assert_eq!(m.value_u(ArgType::gfxd_Vtxptr, 0), 0x42042069);
}

#[test]
fn dynamic_display_list_pointer() {
    let data = [
        0xE7, 0x00, 0x00, 0x00, 0x00, 0x00, 0x00, 0x00, 0x01, 0x00, 0x30, 0x06, 0x42, 0x04, 0x20,
        0x69,
    ];
    let mut cfg = dl_config(&data);
    cfg.dynamic(Some(String::from("glistp++")));
    cfg.disable(Cap::StopOnEnd);
    let ex = cfg.execute();
    assert_eq!(
        ex.output,
        "    gDPPipeSync(glistp++),\n    gSPVertex(glistp++, 0x42042069, 3, 0),\n"
    );
}

#[test]
fn extended_macros_enable_half_command() {
    let data = [0xE1, 0x00, 0x00, 0x00, 0xDE, 0xAD, 0xBE, 0xEF];
    let mut cfg = dl_config(&data);
    cfg.enable(Cap::EmitExtMacro);
    let ex = cfg.execute();
    assert_eq!(ex.ret, 0);
    assert_eq!(ex.output, "    gsDPHalf1(0xDEADBEEF),\n");
}

#[test]
fn half_command_is_invalid_without_extended_macros() {
    let data = [0xE1, 0x00, 0x00, 0x00, 0xDE, 0xAD, 0xBE, 0xEF];
    let cfg = dl_config(&data);
    let ex = cfg.execute();
    assert_eq!(ex.ret, -1);
}

#[test]
fn move_word_fallback_uses_symbolic_index() {
    let data = [0xDB, 0x08, 0x00, 0x00, 0x00, 0x00, 0x12, 0x34];
    let cfg = dl_config(&data);
    let ex = cfg.execute();
    assert_eq!(ex.output, "    gsMoveWd(G_MW_FOG, 0x0, 0x1234),\n");
}

#[test]
fn segment_move_word() {
    let data = [0xDB, 0x06, 0x00, 0x08, 0x80, 0x40, 0x00, 0x00];
    let cfg = dl_config(&data);
    let ex = cfg.execute();
    assert_eq!(ex.output, "    gsSPSegment(2, 0x80400000),\n");
}

#[test]
fn num_lights_move_word() {
    let data = [0xDB, 0x02, 0x00, 0x00, 0x00, 0x00, 0x00, 0x30];
    let cfg = dl_config(&data);
    let ex = cfg.execute();
    assert_eq!(ex.output, "    gsSPNumLights(NUMLIGHTS_2),\n");
}

#[test]
fn lone_light_move_mem() {
    let data = [0xDC, 0x08, 0x06, 0x0A, 0x09, 0x00, 0x00, 0x08];
    let cfg = dl_config(&data);
    let ex = cfg.execute();
    assert_eq!(ex.output, "    gsSPLight(0x09000008, 1),\n");
}

#[test]
fn texture_and_colors() {
    let data = [
        0xD7, 0x00, 0x2A, 0x02, 0x80, 0x00, 0x80, 0x00, 0xF8, 0x00, 0x00, 0x00, 0x10, 0x20, 0x30,
        0x40, 0xF7, 0x00, 0x00, 0x00, 0x00, 0x01, 0x00, 0x01,
    ];
    let mut cfg = dl_config(&data);
    cfg.disable(Cap::StopOnEnd);
    let ex = cfg.execute();
    assert_eq!(
        ex.output,
        "    gsSPTexture(0x8000, 0x8000, 5, 2, G_ON),\n    gsDPSetFogColor(0x10, 0x20, 0x30, 0x40),\n    gsDPSetFillColor(0x10001),\n"
    );
}

#[test]
fn display_list_and_branch_list() {
    let data = [
        0xDE, 0x00, 0x00, 0x00, 0x0A, 0x00, 0x01, 0x00, 0xDE, 0x01, 0x00, 0x00, 0x0A, 0x00, 0x02,
        0x00,
    ];
    let mut cfg = dl_config(&data);
    cfg.disable(Cap::StopOnEnd);
    let ex = cfg.execute();
    // SPBranchList is a terminator only under stop-on-end.
    assert_eq!(
        ex.output,
        "    gsSPDisplayList(0x0A000100),\n    gsSPBranchList(0x0A000200),\n"
    );
}

#[test]
fn branch_list_terminates_under_stop_on_end() {
    let data = [
        0xDE, 0x01, 0x00, 0x00, 0x0A, 0x00, 0x02, 0x00, 0xE7, 0x00, 0x00, 0x00, 0x00, 0x00, 0x00,
        0x00,
    ];
    let cfg = dl_config(&data);
    let ex = cfg.execute();
    assert_eq!(ex.output, "    gsSPBranchList(0x0A000200),\n");
}

#[test]
fn f3d_family_table() {
    let data = [
        0xE7, 0x00, 0x00, 0x00, 0x00, 0x00, 0x00, 0x00, 0xB8, 0x00, 0x00, 0x00, 0x00, 0x00, 0x00,
        0x00,
    ];
    let mut cfg = gfxd_config::new();
    cfg.input_buffer(data.to_vec());
    cfg.macro_decoration(String::from("    "), String::from(",\n"));
    cfg.target(gfxd_ucode::f3d());
    let ex = cfg.execute();
    assert_eq!(ex.ret, 0);
    assert_eq!(
        ex.output,
        "    gsDPPipeSync(),\n    gsSPEndDisplayList(),\n"
    );
}

#[test]
fn f3dex2_end_opcode_is_invalid_under_f3d() {
    let data = [0xDF, 0x00, 0x00, 0x00, 0x00, 0x00, 0x00, 0x00];
    let mut cfg = gfxd_config::new();
    cfg.input_buffer(data.to_vec());
    cfg.target(gfxd_ucode::f3d());
    let ex = cfg.execute();
    assert_eq!(ex.ret, -1);
}

#[test]
fn noop_and_tagged_noop() {
    let data = [
        0x00, 0x00, 0x00, 0x00, 0x00, 0x00, 0x00, 0x00, 0x00, 0x00, 0x00, 0x00, 0x12, 0x34, 0x56,
        0x78,
    ];
    let cfg = dl_config(&data);
    let ex = cfg.execute();
    assert_eq!(
        ex.output,
        "    gsDPNoOp(),\n    gsDPNoOpTag(0x12345678),\n"
    );
}

#[test]
fn empty_input_returns_zero() {
    let cfg = dl_config(&[]);
    let ex = cfg.execute();
    assert_eq!(ex.ret, 0);
    assert_eq!(ex.output, "");
    assert_eq!(ex.macros.len(), 0);
}

#[test]
fn two_triangles() {
    let data = [0x06, 0x00, 0x02, 0x04, 0x00, 0x06, 0x08, 0x0A];
    let mut cfg = dl_config(&data);
    cfg.disable(Cap::StopOnEnd);
    let ex = cfg.execute();
    assert_eq!(
        ex.output,
        "    gsSP2Triangles(0, 1, 2, 0, 3, 4, 5, 0),\n"
    );
}

#[test]
fn default_handler_has_no_decoration() {
    let data = [0xE7, 0x00, 0x00, 0x00, 0x00, 0x00, 0x00, 0x00];
    let mut cfg = gfxd_config::new();
    cfg.input_buffer(data.to_vec());
    cfg.target(gfxd_ucode::f3dex2());
    let ex = cfg.execute();
    assert_eq!(ex.output, "gsDPPipeSync()");
}

#[test]
fn word_size_eight() {
    let data = [0x00, 0x00, 0x00, 0x00, 0x00, 0x00, 0x00, 0xDF];
    let mut cfg = dl_config(&data);
    cfg.endian(Endian::Little, WordSize::W8);
    let ex = cfg.execute();
    assert_eq!(ex.output, "    gsSPEndDisplayList(),\n");
}

#[test]
fn foreach_pkt_rebinds_to_sub_packets() {
    let data = [
        0xDB, 0x02, 0x00, 0x00, 0x00, 0x00, 0x00, 0x18, 0xDC, 0x08, 0x06, 0x0A, 0x09, 0x00, 0x00,
        0x08, 0xDC, 0x08, 0x09, 0x0A, 0x09, 0x00, 0x00, 0x00,
    ];
    let cfg = dl_config(&data);
    let ex = cfg.execute();
    assert_eq!(ex.macros[0].macro_id(), MacroId::SPSetLights1);
    let subs = gfxd::execute::foreach_pkt(&ex.macros[0], &cfg);
    assert_eq!(subs.len(), 3);
    assert_eq!(subs[0].macro_id(), MacroId::SPNumLights);
    assert_eq!(subs[1].macro_id(), MacroId::SPLight);
    assert_eq!(subs[2].macro_id(), MacroId::SPLight);
    assert_eq!(subs[0].macro_offset(), 0);
    assert_eq!(subs[1].macro_offset(), 8);
    assert_eq!(subs[2].macro_offset(), 16);
    assert_eq!(subs[1].arg_value(0), ArgValue::U(0x09000008));
    assert_eq!(subs[2].arg_value(0), ArgValue::U(0x09000000));
}

#[test]
fn argument_names() {
    assert_eq!(arg_name(MacroId::SPVertex, 0), "v");
    assert_eq!(arg_name(MacroId::SPVertex, 1), "n");
    assert_eq!(arg_name(MacroId::SPVertex, 2), "v0");
    assert_eq!(arg_name(MacroId::DPSetPrimColor, 5), "a");
    assert_eq!(arg_name(MacroId::SPEndDisplayList, 0), "");
}

#[test]
fn udata_roundtrip() {
    let mut cfg = gfxd_config::new();
    assert_eq!(cfg.udata_get(), 0);
    cfg.udata_set(0x8040_0000);
    assert_eq!(cfg.udata_get(), 0x8040_0000);
}

#[test]
fn print_value_formats_by_kind() {
    assert_eq!(print_value(ArgType::gfxd_Colorpart, ArgValue::I(255), false), "0xFF");
    assert_eq!(print_value(ArgType::gfxd_Colorpart, ArgValue::I(255), true), "255");
    assert_eq!(print_value(ArgType::gfxd_Dl, ArgValue::U(0x1000), false), "0x00001000");
    assert_eq!(print_value(ArgType::gfxd_Word, ArgValue::U(0), false), "0x0");
    assert_eq!(print_value(ArgType::gfxd_Vtx, ArgValue::I(-7), false), "-7");
    assert_eq!(print_value(ArgType::gfxd_Tag, ArgValue::U(0xFFFFFFFF), false), "0xFFFFFFFF");
    assert_eq!(print_value(ArgType::gfxd_Num, ArgValue::I(i32::MIN), false), "-2147483648");
    assert_eq!(print_value(ArgType::gfxd_Numlights, ArgValue::I(3), false), "NUMLIGHTS_3");
    assert_eq!(print_value(ArgType::gfxd_Switch, ArgValue::U(0), false), "G_OFF");
    assert_eq!(print_value(ArgType::gfxd_Mw, ArgValue::I(6), false), "G_MW_SEGMENT");
    assert_eq!(print_value(ArgType::gfxd_Mw, ArgValue::I(99), false), "0x63");
}

#[test]
fn nonnull_addresses() {
    assert!(NonNullConst::<u32>::new(0).is_none());
    let p = NonNullConst::<u32>::new(0x8000_0000).unwrap();
    assert_eq!(p.as_ptr(), 0x8000_0000);
    assert_eq!(p.as_nonnull().addr(), 0x8000_0000);
    assert_eq!(p.into_nonnull().addr(), 0x8000_0000);
    assert!(NonNullConst::new_void(0).is_none());
    assert_eq!(NonNullConst::new_void(4).unwrap().as_ptr(), 4);
    let m = NonNullMut::<u8>::new(12).unwrap();
    assert_eq!(m.as_ptr(), 12);
    assert_eq!(m.as_nonnull().addr(), 12);
    assert_eq!(m.into_nonnull().addr(), 12);
    assert!(NonNullMut::<u8>::new(0).is_none());
    assert_eq!(NonNullMut::new_void(9).unwrap().as_ptr(), 9);
}

#[test]
fn modify_vertex_and_cull() {
    let data = [
        0x02, 0x10, 0x00, 0x20, 0x11, 0x22, 0x33, 0x44, 0x03, 0x00, 0x00, 0x00, 0x00, 0x00, 0x00,
        0x0E,
    ];
    let cfg = dl_config(&data);
    let ex = cfg.execute();
    assert_eq!(
        ex.output,
        "    gsSPModifyVertex(16, 0x10, 0x11223344),\n    gsSPCullDisplayList(0, 7),\n"
    );
    assert!(ex.macros[0].arg_valid(0));
    assert!(ex.macros[1].arg_valid(0));
}

#[test]
fn quadrangle() {
    let data = [0x07, 0x00, 0x02, 0x04, 0x00, 0x00, 0x04, 0x06];
    let cfg = dl_config(&data);
    let ex = cfg.execute();
    assert_eq!(ex.output, "    gsSP1Quadrangle(0, 1, 2, 3, 0),\n");
    assert!(ex.macros[0].arg_valid(0));
}

#[test]
fn prim_depth_is_signed() {
    let data = [0xEE, 0x00, 0x00, 0x00, 0x7F, 0xFF, 0xFF, 0xFE];
    let cfg = dl_config(&data);
    let ex = cfg.execute();
    assert_eq!(ex.output, "    gsDPSetPrimDepth(32767, -2),\n");
    assert!(ex.macros[0].arg_valid(0));
}

#[test]
fn fill_rectangle() {
    let data = [0xF6, 0x07, 0x80, 0xA0, 0x00, 0x02, 0x80, 0x50];
    let cfg = dl_config(&data);
    let ex = cfg.execute();
    assert_eq!(ex.output, "    gsDPFillRectangle(10, 20, 30, 40),\n");
    assert!(ex.macros[0].arg_valid(0));
}

#[test]
fn set_lights_two() {
    let data = [
        0xDB, 0x02, 0x00, 0x00, 0x00, 0x00, 0x00, 0x30, 0xDC, 0x08, 0x06, 0x0A, 0x0A, 0x00, 0x00,
        0x08, 0xDC, 0x08, 0x09, 0x0A, 0x0A, 0x00, 0x00, 0x18, 0xDC, 0x08, 0x0C, 0x0A, 0x0A, 0x00,
        0x00, 0x00,
    ];
    let cfg = dl_config(&data);
    let ex = cfg.execute();
    assert_eq!(ex.output, "    gsSPSetLights2(*(Lightsn *)0x0A000000),\n");
    assert_eq!(ex.macros[0].macro_packets(), 4);
    assert!(ex.macros[0].arg_valid(0));
}

#[test]
fn geometry_mode_or_expressions() {
    // set: G_ZBUFFER | G_SHADE | G_LIGHTING; then clear: G_FOG with an
    // unknown residue bit rendered as a hexadecimal term.
    let data = [
        0xD9, 0xFF, 0xFF, 0xFF, 0x00, 0x02, 0x00, 0x05, 0xD9, 0xFE, 0xEF, 0xF7, 0x00, 0x00, 0x00,
        0x00,
    ];
    let cfg = dl_config(&data);
    let ex = cfg.execute();
    assert_eq!(
        ex.output,
        "    gsSPSetGeometryMode(G_ZBUFFER | G_SHADE | G_LIGHTING),\n    gsSPClearGeometryMode(G_FOG | 0x1008),\n"
    );
    assert!(ex.macros[0].arg_valid(0));
    assert!(ex.macros[1].arg_valid(0));
}

#[test]
fn geometry_mode_general_and_load() {
    let data = [
        0xD9, 0x00, 0x00, 0x00, 0x00, 0x00, 0x00, 0x04, 0xD9, 0xFF, 0xFF, 0xFE, 0x00, 0x00, 0x00,
        0x01,
    ];
    let cfg = dl_config(&data);
    let ex = cfg.execute();
    assert_eq!(
        ex.output,
        "    gsSPLoadGeometryMode(G_SHADE),\n    gsSPGeometryMode(G_ZBUFFER, G_ZBUFFER),\n"
    );
}

#[test]
fn geometry_mode_zero_word() {
    let data = [0xD9, 0xFF, 0xFF, 0xFF, 0x00, 0x00, 0x00, 0x00];
    let cfg = dl_config(&data);
    let ex = cfg.execute();
    assert_eq!(ex.output, "    gsSPSetGeometryMode(0),\n");
}

#[test]
fn argument_type_callback_replaces_output() {
    let data = [0x01, 0x00, 0x30, 0x06, 0x42, 0x04, 0x20, 0x69];
    let mut cfg = dl_config(&data);
    cfg.arg_callback(ArgType::gfxd_Vtxptr, String::from("vtx_buffer"));
    let ex = cfg.execute();
    assert_eq!(ex.output, "    gsSPVertex(vtx_buffer, 3, 0),\n");
}

#[test]
fn newest_argument_callback_wins() {
    let data = [0xF7, 0x00, 0x00, 0x00, 0x00, 0x01, 0x00, 0x01];
    let mut cfg = dl_config(&data);
    cfg.arg_callback(ArgType::gfxd_Color, String::from("OLD"));
    cfg.arg_callback(ArgType::gfxd_Color, String::from("FILL_COLOR"));
    let ex = cfg.execute();
    assert_eq!(ex.output, "    gsDPSetFillColor(FILL_COLOR),\n");
}

#[test]
fn f3d_vertex_and_triangle_layout() {
    // F3D packs (n-1, v0) in nibbles with a byte length, and scales
    // triangle indices by ten.
    let data = [
        0x04, 0x32, 0x00, 0x40, 0x80, 0x10, 0x00, 0x00, 0xBF, 0x00, 0x00, 0x00, 0x00, 0x0A, 0x14,
        0x1E,
    ];
    let mut cfg = gfxd_config::new();
    cfg.input_buffer(data.to_vec());
    cfg.macro_decoration(String::from("    "), String::from(",\n"));
    cfg.target(gfxd_ucode::f3d());
    let ex = cfg.execute();
    assert_eq!(
        ex.output,
        "    gsSPVertex(0x80100000, 4, 2),\n    gsSP1Triangle(1, 2, 3, 0),\n"
    );
    assert!(ex.macros[0].arg_valid(0));
    assert!(ex.macros[1].arg_valid(0));
}

#[test]
fn f3dex_vertex_and_triangles_layout() {
    // F3DEX scales vertex indices by two and carries the count in a
    // six-bit field.
    let data = [
        0x04, 0x04, 0x10, 0x40, 0x80, 0x10, 0x00, 0x00, 0xBF, 0x00, 0x00, 0x00, 0x00, 0x02, 0x04,
        0x06, 0xB1, 0x00, 0x02, 0x04, 0x00, 0x06, 0x08, 0x0A,
    ];
    let mut cfg = gfxd_config::new();
    cfg.input_buffer(data.to_vec());
    cfg.macro_decoration(String::from("    "), String::from(",\n"));
    cfg.target(gfxd_ucode::f3dex());
    let ex = cfg.execute();
    assert_eq!(
        ex.output,
        "    gsSPVertex(0x80100000, 4, 2),\n    gsSP1Triangle(1, 2, 3, 0),\n    gsSP2Triangles(0, 1, 2, 0, 3, 4, 5, 0),\n"
    );
    assert!(ex.macros[0].arg_valid(0));
    assert!(ex.macros[1].arg_valid(0));
    assert!(ex.macros[2].arg_valid(0));
}

#[test]
fn f3d_triangle_index_not_multiple_of_ten_is_not_valid() {
    let data = [0xBF, 0x00, 0x00, 0x00, 0x00, 0x0B, 0x14, 0x1E];
    let mut cfg = gfxd_config::new();
    cfg.input_buffer(data.to_vec());
    cfg.target(gfxd_ucode::f3db());
    let ex = cfg.execute();
    assert_eq!(ex.macros[0].macro_id(), MacroId::SP1Triangle);
    assert!(!ex.macros[0].arg_valid(0));
}
