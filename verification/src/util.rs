//! Small verified utilities around the session layer: zero-terminated
//! UTF-16 decoding, driver binary paths, identifier arithmetic and
//! formatting, and the argument lists handed to the host's configuration
//! tool.
use vstd::prelude::*;

verus! {

/// The index of the first zero unit in `s`, or `s.len()` when there is none.
pub open spec fn len_to_first_nul(s: Seq<u16>) -> int
    decreases s.len(),
{
    if s.len() == 0 {
        0
    } else if s[0] == 0 {
        0
    } else {
        1 + len_to_first_nul(s.drop_first())
    }
}

/// `len_to_first_nul` is exactly the position that has no zero before it
/// and, unless it is the whole length, a zero at it.
proof fn lemma_first_nul_at(s: Seq<u16>, e: int)
    requires
        0 <= e <= s.len(),
        forall|j: int| 0 <= j < e ==> s[j] != 0,
        e < s.len() ==> s[e] == 0,
    ensures
        len_to_first_nul(s) == e,
    decreases s.len(),
{
    if s.len() == 0 {
    } else if s[0] == 0 {
        assert(e == 0);
    } else {
        assert(e > 0);
        lemma_first_nul_at(s.drop_first(), e - 1);
    }
}

/// What `String::from_utf16_lossy` returns: a function of the units alone.
pub uninterp spec fn utf16_lossy_of(units: Seq<u16>) -> Seq<char>;

/// Relies on `String::from_utf16_lossy`: decodes UTF-16 leniently, replacing
/// malformed parts with the replacement character.  The result depends on the
/// units alone, and no units decode to something other than the empty string.
#[verifier::external_body]
fn utf16_lossy(units: &[u16]) -> (r: String)
    ensures
        r@ == utf16_lossy_of(units@),
        units@.len() == 0 ==> r@.len() == 0,
{
    String::from_utf16_lossy(units)
}

/// Decodes a zero-terminated UTF-16 buffer: everything before the first zero
/// unit (or the whole buffer when there is none), decoded leniently.
pub fn decode_utf16(string: &[u16]) -> (r: String)
    ensures
        r@ == utf16_lossy_of(string@.take(len_to_first_nul(string@))),
{
    let n = string.len();
    let mut end: usize = 0;
    while end < n && string[end] != 0
        invariant
            end <= n,
            n == string@.len(),
            forall|j: int| 0 <= j < end ==> string@[j] != 0,
        decreases n - end,
    {
        end = end + 1;
    }
    proof {
        lemma_first_nul_at(string@, end as int);
    }
    let prefix: &[u16] = &string[0..end];
    proof {
        assert(prefix@ =~= string@.take(end as int));
    }
    utf16_lossy(prefix)
}

/// The relative path of the driver binary for each processor architecture
/// the driver ships for, named as the host's target-architecture string;
/// anything else is unsupported.
pub fn get_wintun_bin_pattern_path(arch: &str) -> (r: Option<&'static str>)
    ensures
        arch@ == "x86"@ ==> (r matches Some(p) && p@ == "wintun/bin/x86/wintun.dll"@),
        arch@ == "x86_64"@ ==> (r matches Some(p) && p@ == "wintun/bin/amd64/wintun.dll"@),
        arch@ == "arm"@ ==> (r matches Some(p) && p@ == "wintun/bin/arm/wintun.dll"@),
        arch@ == "aarch64"@ ==> (r matches Some(p) && p@ == "wintun/bin/arm64/wintun.dll"@),
        arch@ != "x86"@ && arch@ != "x86_64"@ && arch@ != "arm"@ && arch@ != "aarch64"@ ==> r
            is None,
{
    proof {
        reveal_strlit("x86");
        reveal_strlit("x86_64");
        reveal_strlit("arm");
        reveal_strlit("aarch64");
        assert("x86"@.len() == 3);
        assert("x86_64"@.len() == 6);
        assert("arm"@.len() == 3);
        assert("aarch64"@.len() == 7);
        assert("x86"@[0] != "arm"@[0]);
    }
    let a = String::from_str(arch);
    if a == String::from_str("x86") {
        Some("wintun/bin/x86/wintun.dll")
    } else if a == String::from_str("x86_64") {
        Some("wintun/bin/amd64/wintun.dll")
    } else if a == String::from_str("arm") {
        Some("wintun/bin/arm/wintun.dll")
    } else if a == String::from_str("aarch64") {
        Some("wintun/bin/arm64/wintun.dll")
    } else {
        None
    }
}

/// The digit character for one decimal digit.
pub open spec fn digit_char(d: int) -> char {
    if d == 0 {
        '0'
    } else if d == 1 {
        '1'
    } else if d == 2 {
        '2'
    } else if d == 3 {
        '3'
    } else if d == 4 {
        '4'
    } else if d == 5 {
        '5'
    } else if d == 6 {
        '6'
    } else if d == 7 {
        '7'
    } else if d == 8 {
        '8'
    } else {
        '9'
    }
}

/// The decimal form of `n`, most significant digit first.
pub open spec fn dec_digits(n: int) -> Seq<char>
    decreases n,
{
    if n < 10 {
        seq![digit_char(n)]
    } else {
        dec_digits(n / 10).push(digit_char(n % 10))
    }
}

/// One decimal digit as text.
fn digit_str(d: u64) -> (r: &'static str)
    requires
        d < 10,
    ensures
        r@ == seq![digit_char(d as int)],
{
    proof {
        reveal_strlit("0");
        reveal_strlit("1");
        reveal_strlit("2");
        reveal_strlit("3");
        reveal_strlit("4");
        reveal_strlit("5");
        reveal_strlit("6");
        reveal_strlit("7");
        reveal_strlit("8");
        reveal_strlit("9");
        assert("0"@ =~= seq![digit_char(0)]);
        assert("1"@ =~= seq![digit_char(1)]);
        assert("2"@ =~= seq![digit_char(2)]);
        assert("3"@ =~= seq![digit_char(3)]);
        assert("4"@ =~= seq![digit_char(4)]);
        assert("5"@ =~= seq![digit_char(5)]);
        assert("6"@ =~= seq![digit_char(6)]);
        assert("7"@ =~= seq![digit_char(7)]);
        assert("8"@ =~= seq![digit_char(8)]);
        assert("9"@ =~= seq![digit_char(9)]);
    }
    match d {
        0 => "0",
        1 => "1",
        2 => "2",
        3 => "3",
        4 => "4",
        5 => "5",
        6 => "6",
        7 => "7",
        8 => "8",
        _ => "9",
    }
}

/// Appends the decimal form of `n` to `s`.
pub fn push_decimal(s: &mut String, n: u64)
    ensures
        final(s)@ == old(s)@ + dec_digits(n as int),
    decreases n,
{
    if n < 10 {
        s.append(digit_str(n));
        proof {
            assert(final(s)@ =~= old(s)@ + dec_digits(n as int));
        }
    } else {
        push_decimal(s, n / 10);
        s.append(digit_str(n % 10));
        proof {
            assert(final(s)@ =~= old(s)@ + dec_digits(n as int));
        }
    }
}

/// What the host does to set an adapter's MTU: run the configuration
/// command, and only if that fails fall back to the interface-table API.
pub enum MtuSetPlan {
    /// Run the configuration tool with exactly these arguments.
    RunCommand(Vec<String>),
    /// The command attempt failed: set the MTU through the API instead.
    UseApi,
}

/// The decision behind setting an adapter's MTU: first the configuration
/// command (whose exact argument list `set_adapter_mtu_cmd` gives), and, only
/// when the host reports that attempt failed, the interface-table API.
pub fn set_adapter_mtu(name: &str, mtu: usize, is_ipv6: bool, cmd_failed: bool) -> (plan:
    MtuSetPlan)
    ensures
        !cmd_failed ==> (plan matches MtuSetPlan::RunCommand(args) && args.deep_view()
            == set_adapter_mtu_cmd_spec(name@, mtu as int, is_ipv6)),
        cmd_failed ==> plan is UseApi,
{
    if cmd_failed {
        MtuSetPlan::UseApi
    } else {
        MtuSetPlan::RunCommand(set_adapter_mtu_cmd(name, mtu, is_ipv6))
    }
}

/// The views of the six arguments that set an adapter's MTU.
pub open spec fn set_adapter_mtu_cmd_spec(name: Seq<char>, mtu: int, is_ipv6: bool) -> Seq<
    Seq<char>,
> {
    seq![
        "interface"@,
        if is_ipv6 {
            "ipv6"@
        } else {
            "ipv4"@
        },
        "set"@,
        "subinterface"@,
        seq!['"'] + name + seq!['"'],
        "mtu="@ + dec_digits(mtu),
    ]
}

/// The exact argument list of the configuration call that sets an adapter's
/// MTU: `interface <ipv4|ipv6> set subinterface "<name>" mtu=<n>`.  The host
/// runs the tool; this builds what it is given.
pub fn set_adapter_mtu_cmd(name: &str, mtu: usize, is_ipv6: bool) -> (args: Vec<String>)
    ensures
        args.deep_view() == set_adapter_mtu_cmd_spec(name@, mtu as int, is_ipv6),
{
    let ip_str = if is_ipv6 {
        "ipv6"
    } else {
        "ipv4"
    };
    let mut quoted = String::from_str("\"");
    quoted.append(name);
    quoted.append("\"");
    proof {
        reveal_strlit("\"");
        assert("\""@ =~= seq!['"']);
        assert(quoted@ =~= seq!['"'] + name@ + seq!['"']);
    }
    let mut mtu_arg = String::from_str("mtu=");
    push_decimal(&mut mtu_arg, mtu as u64);
    let mut args: Vec<String> = Vec::new();
    args.push(String::from_str("interface"));
    args.push(String::from_str(ip_str));
    args.push(String::from_str("set"));
    args.push(String::from_str("subinterface"));
    args.push(quoted);
    args.push(mtu_arg);
    proof {
        assert(args.deep_view() =~~= set_adapter_mtu_cmd_spec(name@, mtu as int, is_ipv6));
    }
    args
}

/// The OS language identifier built from a primary and a sublanguage word.
#[allow(non_snake_case)]
pub fn MAKELANGID(p: u32, s: u32) -> (r: u32)
    ensures
        r == ((s & 0x0000ffff) << 10u32) | (p & 0x0000ffff),
{
    ((s & 0x0000ffff) << 10u32) | (p & 0x0000ffff)
}

/// A 128-bit identifier in its four native parts.
#[derive(Clone, Copy, Debug)]
pub struct Guid {
    pub data1: u32,
    pub data2: u16,
    pub data3: u16,
    pub data4: [u8; 8],
}

/// The last eight bytes of an identifier read as one big-endian word.
pub open spec fn spec_be_u64(b: Seq<u8>) -> u64
    recommends
        b.len() == 8,
{
    (((b[0] as u64) << 56) | ((b[1] as u64) << 48) | ((b[2] as u64) << 40) | ((b[3] as u64) << 32)
        | ((b[4] as u64) << 24) | ((b[5] as u64) << 16) | ((b[6] as u64) << 8) | (b[7] as u64)) as u64
}

/// The single 128-bit value a four-part identifier stands for.
pub open spec fn spec_guid_to_u128(g: Guid) -> u128 {
    (((g.data1 as u128) << 96) | ((g.data2 as u128) << 80) | ((g.data3 as u128) << 64) | (
    spec_be_u64(g.data4@) as u128)) as u128
}

/// Reads the last eight bytes of an identifier as one big-endian word.
fn be_u64(b: &[u8; 8]) -> (r: u64)
    ensures
        r == spec_be_u64(b@),
{
    ((b[0] as u64) << 56) | ((b[1] as u64) << 48) | ((b[2] as u64) << 40) | ((b[3] as u64) << 32)
        | ((b[4] as u64) << 24) | ((b[5] as u64) << 16) | ((b[6] as u64) << 8) | (b[7] as u64)
}

/// Packs a four-part identifier into one 128-bit value, high part first.
pub fn win_guid_to_u128(guid: &Guid) -> (r: u128)
    ensures
        r == spec_guid_to_u128(*guid),
{
    let data4_u64: u64 = be_u64(&guid.data4);
    ((guid.data1 as u128) << 96) | ((guid.data2 as u128) << 80) | ((guid.data3 as u128) << 64) | (
    data4_u64 as u128)
}

/// The digit character for one hexadecimal digit, upper case.
pub open spec fn hex_char(d: int) -> char {
    if d < 10 {
        digit_char(d)
    } else if d == 10 {
        'A'
    } else if d == 11 {
        'B'
    } else if d == 12 {
        'C'
    } else if d == 13 {
        'D'
    } else if d == 14 {
        'E'
    } else {
        'F'
    }
}

/// The value `v` written as exactly `width` hexadecimal digits, most
/// significant first (leading zeros kept, anything above the width cut off).
pub open spec fn hex_digits(v: int, width: nat) -> Seq<char>
    decreases width,
{
    if width == 0 {
        Seq::empty()
    } else {
        hex_digits(v / 16, (width - 1) as nat).push(hex_char(v % 16))
    }
}

/// One hexadecimal digit as text, upper case.
fn hex_digit_str(d: u64) -> (r: &'static str)
    requires
        d < 16,
    ensures
        r@ == seq![hex_char(d as int)],
{
    if d < 10 {
        digit_str(d)
    } else {
        proof {
            reveal_strlit("A");
            reveal_strlit("B");
            reveal_strlit("C");
            reveal_strlit("D");
            reveal_strlit("E");
            reveal_strlit("F");
            assert("A"@ =~= seq![hex_char(10)]);
            assert("B"@ =~= seq![hex_char(11)]);
            assert("C"@ =~= seq![hex_char(12)]);
            assert("D"@ =~= seq![hex_char(13)]);
            assert("E"@ =~= seq![hex_char(14)]);
            assert("F"@ =~= seq![hex_char(15)]);
        }
        match d {
            10 => "A",
            11 => "B",
            12 => "C",
            13 => "D",
            14 => "E",
            _ => "F",
        }
    }
}

/// Appends `v` to `s` as exactly `width` upper-case hexadecimal digits.
pub fn push_hex(s: &mut String, v: u64, width: usize)
    ensures
        final(s)@ == old(s)@ + hex_digits(v as int, width as nat),
    decreases width,
{
    if width == 0 {
        proof {
            assert(final(s)@ =~= old(s)@ + hex_digits(v as int, 0));
        }
    } else {
        push_hex(s, v / 16, width - 1);
        s.append(hex_digit_str(v % 16));
        proof {
            assert(final(s)@ =~= old(s)@ + hex_digits(v as int, width as nat));
        }
    }
}

/// The brace-and-dash form of an identifier, upper-case hexadecimal:
/// 8 digits, then three groups of 4, then 12, as the OS renders it.
pub open spec fn guid_string_of(g: Guid) -> Seq<char> {
    let d4 = spec_be_u64(g.data4@);
    seq!['{'] + hex_digits(g.data1 as int, 8) + seq!['-'] + hex_digits(g.data2 as int, 4)
        + seq!['-'] + hex_digits(g.data3 as int, 4) + seq!['-'] + hex_digits((d4 >> 48) as int, 4)
        + seq!['-'] + hex_digits((d4 & 0xffff_ffff_ffff) as int, 12) + seq!['}']
}

/// Renders an identifier the way the OS does: upper-case hexadecimal in
/// braces, the five groups separated by dashes.
pub fn guid_to_win_style_string(guid: &Guid) -> (r: String)
    ensures
        r@ == guid_string_of(*guid),
{
    proof {
        reveal_strlit("{");
        reveal_strlit("}");
        reveal_strlit("-");
        assert("{"@ =~= seq!['{']);
        assert("}"@ =~= seq!['}']);
        assert("-"@ =~= seq!['-']);
    }
    let d4 = be_u64(&guid.data4);
    let mut s = String::from_str("{");
    push_hex(&mut s, guid.data1 as u64, 8);
    s.append("-");
    push_hex(&mut s, guid.data2 as u64, 4);
    s.append("-");
    push_hex(&mut s, guid.data3 as u64, 4);
    s.append("-");
    push_hex(&mut s, d4 >> 48u64, 4);
    s.append("-");
    push_hex(&mut s, d4 & 0xffff_ffff_ffff, 12);
    s.append("}");
    proof {
        assert(s@ =~= guid_string_of(*guid));
    }
    s
}

/// How many of the sixteen bits of word `i` of a 128-bit netmask with
/// `prefix` leading ones are themselves ones.
pub open spec fn ones_in_word(prefix: int, i: int) -> int {
    let o = prefix - 16 * i;
    if o < 0 {
        0
    } else if o > 16 {
        16
    } else {
        o
    }
}

/// A sixteen-bit word with `ones` leading one bits.
pub open spec fn netmask_word(ones: int) -> u16
    recommends
        0 <= ones <= 16,
{
    if ones <= 0 {
        0u16
    } else if ones >= 16 {
        0xffffu16
    } else {
        (0xffffu16 << ((16 - ones) as u16)) as u16
    }
}

/// The eight sixteen-bit words of the 128-bit netmask with `prefix` leading
/// ones: all-ones words as long as sixteen bits of prefix remain, then one
/// partial word, then zeros.  Prefixes above 128 do not name a netmask.
pub fn ipv6_netmask_for_prefix(prefix: u8) -> (r: Option<[u16; 8]>)
    ensures
        r is Some <==> prefix <= 128,
        r matches Some(mask) ==> forall|i: int|
            0 <= i < 8 ==> #[trigger] mask@[i] == netmask_word(ones_in_word(prefix as int, i)),
{
    if prefix > 128 {
        return None;
    }
    let mut mask: [u16; 8] = [0u16; 8];
    let mut i: usize = 0;
    let mut remaining: u8 = prefix;
    while remaining >= 16
        invariant
            prefix <= 128,
            i <= 8,
            remaining == prefix - 16 * i,
            forall|j: int| 0 <= j < i ==> #[trigger] mask@[j] == 0xffffu16,
            forall|j: int| i <= j < 8 ==> #[trigger] mask@[j] == 0u16,
        decreases remaining,
    {
        mask[i] = 0xffff;
        remaining = remaining - 16;
        i = i + 1;
    }
    if remaining > 0 {
        mask[i] = 0xffffu16 << ((16 - remaining) as u16);
    }
    proof {
        assert(forall|j: int|
            0 <= j < 8 ==> #[trigger] mask@[j] == netmask_word(ones_in_word(prefix as int, j)));
    }
    Some(mask)
}

} // verus!
