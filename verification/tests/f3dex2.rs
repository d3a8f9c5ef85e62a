use gfxd::config::gfxd_config;
use gfxd::ucode::gfxd_ucode;

fn run_gfxd(dlist_data: &[u8]) -> String {
    let mut cfg = gfxd_config::new();
    cfg.input_buffer(dlist_data.to_vec());
    cfg.macro_decoration(String::from("    "), String::from(",\n"));
    cfg.target(gfxd_ucode::f3dex2());
    let ex = cfg.execute();
    let mut out_buf = String::from("{\n");
    out_buf.push_str(&ex.output);
    out_buf.push_str("}\n");
    out_buf
}

#[test]
fn test_f3dex2_1() {
    static DLIST_DATA: [u8; 0x8] = [0xDF, 0x00, 0x00, 0x00, 0x00, 0x00, 0x00, 0x00];
    static EXPECTED: &'static str = "\
{
    gsSPEndDisplayList(),
}
";

    let out_buf = run_gfxd(&DLIST_DATA);

    assert_eq!(EXPECTED, out_buf);
}

#[test]
fn test_f3dex2_2() {
    static DLIST_DATA: [u8; 0x18] = [
        0x01, 0x00, 0x30, 0x06, 0x42, 0x04, 0x20, 0x69, 0x05, 0x00, 0x02, 0x04, 0x00, 0x00, 0x00,
        0x00, 0xDF, 0x00, 0x00, 0x00, 0x00, 0x00, 0x00, 0x00,
    ];
    static EXPECTED: &'static str = "\
{
    gsSPVertex(0x42042069, 3, 0),
    gsSP1Triangle(0, 1, 2, 0),
    gsSPEndDisplayList(),
}
";

    let out_buf = run_gfxd(&DLIST_DATA);

    assert_eq!(EXPECTED, out_buf);
}

#[test]
fn test_f3dex2_3() {
    static DLIST_DATA: [u8; 0x18] = [
        0xDB, 0x02, 0x00, 0x00, 0x00, 0x00, 0x00, 0x18, 0xDC, 0x08, 0x06, 0x0A, 0x09, 0x00, 0x00,
        0x08, 0xDC, 0x08, 0x09, 0x0A, 0x09, 0x00, 0x00, 0x00,
    ];
    static EXPECTED: &'static str = "\
{
    gsSPSetLights1(*(Lightsn *)0x09000000),
}
";

    let out_buf = run_gfxd(&DLIST_DATA);

    assert_eq!(EXPECTED, out_buf);
}
