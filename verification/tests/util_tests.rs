use wintun_bindings::util::{
    decode_utf16, get_wintun_bin_pattern_path, guid_to_win_style_string, ipv6_netmask_for_prefix,
    push_decimal, push_hex, set_adapter_mtu, set_adapter_mtu_cmd, win_guid_to_u128, Guid,
    MtuSetPlan, MAKELANGID,
};

#[test]
fn decode_utf16_stops_at_first_nul() {
    assert_eq!(decode_utf16(&[0x61, 0x62, 0, 0x63]), "ab");
    assert_eq!(decode_utf16(&[0x68, 0x69]), "hi");
    assert_eq!(decode_utf16(&[0, 0x61]), "");
    assert_eq!(decode_utf16(&[]), "");
}

#[test]
fn decode_utf16_is_lenient() {
    // an unpaired surrogate decodes to the replacement character
    assert_eq!(decode_utf16(&[0xD800, 0]), "\u{FFFD}");
    // a surrogate pair decodes to one character beyond the basic plane
    assert_eq!(decode_utf16(&[0xD83D, 0xDE00, 0]), "\u{1F600}");
}

#[test]
fn driver_binary_paths_per_architecture() {
    assert_eq!(get_wintun_bin_pattern_path("x86"), Some("wintun/bin/x86/wintun.dll"));
    assert_eq!(get_wintun_bin_pattern_path("x86_64"), Some("wintun/bin/amd64/wintun.dll"));
    assert_eq!(get_wintun_bin_pattern_path("arm"), Some("wintun/bin/arm/wintun.dll"));
    assert_eq!(get_wintun_bin_pattern_path("aarch64"), Some("wintun/bin/arm64/wintun.dll"));
    assert_eq!(get_wintun_bin_pattern_path("riscv64"), None);
    assert_eq!(get_wintun_bin_pattern_path(""), None);
}

#[test]
fn decimal_formatting() {
    let mut s = String::new();
    push_decimal(&mut s, 0);
    assert_eq!(s, "0");
    let mut s = String::from("n=");
    push_decimal(&mut s, 1500);
    assert_eq!(s, "n=1500");
    let mut s = String::new();
    push_decimal(&mut s, u64::MAX);
    assert_eq!(s, "18446744073709551615");
}

#[test]
fn mtu_command_arguments() {
    let args = set_adapter_mtu_cmd("MyAdapter", 1500, false);
    let expect = vec![
        "interface",
        "ipv4",
        "set",
        "subinterface",
        "\"MyAdapter\"",
        "mtu=1500",
    ];
    assert_eq!(args, expect);
    let args6 = set_adapter_mtu_cmd("tun0", 9000, true);
    assert_eq!(args6[1], "ipv6");
    assert_eq!(args6[4], "\"tun0\"");
    assert_eq!(args6[5], "mtu=9000");
}

#[test]
fn mtu_plan_prefers_the_command_then_the_api() {
    match set_adapter_mtu("Demo", 1400, false, false) {
        MtuSetPlan::RunCommand(args) => assert_eq!(args[5], "mtu=1400"),
        _ => panic!("first attempt must run the command"),
    }
    assert!(matches!(set_adapter_mtu("Demo", 1400, false, true), MtuSetPlan::UseApi));
}

#[test]
fn langid_packs_sublanguage_over_primary() {
    // neutral primary language, default sublanguage
    assert_eq!(MAKELANGID(0, 1), 0x400);
    assert_eq!(MAKELANGID(9, 1), 0x409);
    assert_eq!(MAKELANGID(0xFFFF_0009, 0xFFFF_0001), 0x409);
}

#[test]
fn guid_packing() {
    let g = Guid { data1: 1, data2: 2, data3: 3, data4: [0, 0, 0, 0, 0, 0, 0, 4] };
    assert_eq!(win_guid_to_u128(&g), (1u128 << 96) | (2u128 << 80) | (3u128 << 64) | 4);
    let g2 = Guid {
        data1: 0xA1B2C3D4,
        data2: 0xE5F6,
        data3: 0x0708,
        data4: [0x11, 0x22, 0x33, 0x44, 0x55, 0x66, 0x77, 0x88],
    };
    assert_eq!(
        win_guid_to_u128(&g2),
        0xA1B2C3D4_E5F6_0708_1122_334455667788u128
    );
}

#[test]
fn guid_rendering() {
    let g = Guid { data1: 1, data2: 2, data3: 3, data4: [0, 0, 0, 0, 0, 0, 0, 4] };
    assert_eq!(
        guid_to_win_style_string(&g),
        "{00000001-0002-0003-0000-000000000004}"
    );
    let g2 = Guid {
        data1: 0xA1B2C3D4,
        data2: 0xE5F6,
        data3: 0x0708,
        data4: [0x11, 0x22, 0x33, 0x44, 0x55, 0x66, 0x77, 0x88],
    };
    assert_eq!(
        guid_to_win_style_string(&g2),
        "{A1B2C3D4-E5F6-0708-1122-334455667788}"
    );
}

#[test]
fn hex_formatting_keeps_width() {
    let mut s = String::new();
    push_hex(&mut s, 0xAB, 4);
    assert_eq!(s, "00AB");
    let mut s = String::new();
    push_hex(&mut s, 0, 2);
    assert_eq!(s, "00");
}

#[test]
fn ipv6_netmasks() {
    assert_eq!(ipv6_netmask_for_prefix(0), Some([0u16; 8]));
    assert_eq!(ipv6_netmask_for_prefix(128), Some([0xFFFFu16; 8]));
    assert_eq!(
        ipv6_netmask_for_prefix(33),
        Some([0xFFFF, 0xFFFF, 0x8000, 0, 0, 0, 0, 0])
    );
    assert_eq!(
        ipv6_netmask_for_prefix(64),
        Some([0xFFFF, 0xFFFF, 0xFFFF, 0xFFFF, 0, 0, 0, 0])
    );
    assert_eq!(ipv6_netmask_for_prefix(129), None);
    assert_eq!(ipv6_netmask_for_prefix(255), None);
}
