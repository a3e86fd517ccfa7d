use vstd::prelude::*;
use vstd::string::StringSliceAdditionalSpecFns;

verus! {

/// Value of an ASCII hex digit, either case.
pub open spec fn hex_digit_value(c: u8) -> Option<u8> {
    if 0x30 <= c <= 0x39 {
        Some((c - 0x30) as u8)
    } else if 0x41 <= c <= 0x46 {
        Some((c - 0x37) as u8)
    } else if 0x61 <= c <= 0x66 {
        Some((c - 0x57) as u8)
    } else {
        None
    }
}

/// `t` is six two-digit hex groups joined by colons.
pub open spec fn is_mac_text(t: Seq<u8>) -> bool {
    &&& t.len() == 17
    &&& forall|k: int| 0 <= k < 5 ==> #[trigger] t[3 * k + 2] == 0x3Au8
    &&& forall|k: int|
        0 <= k < 6 ==> (#[trigger] hex_digit_value(t[3 * k])) is Some && hex_digit_value(
            t[3 * k + 1],
        ) is Some
}

/// The six octets that a MAC text names, in the order written.
pub open spec fn mac_octets(t: Seq<u8>) -> Seq<u8> {
    Seq::new(
        6,
        |k: int|
            (hex_digit_value(t[3 * k])->0 * 16 + hex_digit_value(t[3 * k + 1])->0) as u8,
    )
}

/// Upper-case hex digit of a nibble.
pub open spec fn hex_upper(n: u8) -> char {
    if n == 0 { '0' }
    else if n == 1 { '1' }
    else if n == 2 { '2' }
    else if n == 3 { '3' }
    else if n == 4 { '4' }
    else if n == 5 { '5' }
    else if n == 6 { '6' }
    else if n == 7 { '7' }
    else if n == 8 { '8' }
    else if n == 9 { '9' }
    else if n == 10 { 'A' }
    else if n == 11 { 'B' }
    else if n == 12 { 'C' }
    else if n == 13 { 'D' }
    else if n == 14 { 'E' }
    else { 'F' }
}

/// Two upper-case hex digits of a byte.
pub open spec fn hex_pair_upper(b: u8) -> Seq<char> {
    seq![hex_upper(b / 16), hex_upper(b % 16)]
}

/// Six octets as upper-case colon-separated hex, in the order given.
pub open spec fn mac_text_of(o: Seq<u8>) -> Seq<char> {
    hex_pair_upper(o[0]) + seq![':'] + hex_pair_upper(o[1]) + seq![':'] + hex_pair_upper(o[2])
        + seq![':'] + hex_pair_upper(o[3]) + seq![':'] + hex_pair_upper(o[4]) + seq![':']
        + hex_pair_upper(o[5])
}

fn hex_digit(c: u8) -> (r: Option<u8>)
    ensures
        r == hex_digit_value(c),
{
    if 0x30 <= c && c <= 0x39 {
        Some(c - 0x30)
    } else if 0x41 <= c && c <= 0x46 {
        Some(c - 0x37)
    } else if 0x61 <= c && c <= 0x66 {
        Some(c - 0x57)
    } else {
        None
    }
}

/// Reads `AA:BB:CC:DD:EE:FF` (either case) as six octets in the order written.
pub fn parse_mac(text: &str) -> (r: Option<Vec<u8>>)
    ensures
        r is Some <==> is_mac_text(text.spec_bytes()),
        r matches Some(o) ==> o@ == mac_octets(text.spec_bytes()),
{
    let t = text.as_bytes();
    if t.len() != 17 {
        return None;
    }
    let mut out: Vec<u8> = Vec::new();
    let mut k: usize = 0;
    while k < 6
        invariant
            t@ == text.spec_bytes(),
            t@.len() == 17,
            k <= 6,
            out@.len() == k,
            forall|j: int| 0 <= j < k && j < 5 ==> #[trigger] t@[3 * j + 2] == 0x3Au8,
            forall|j: int|
                0 <= j < k ==> (#[trigger] hex_digit_value(t@[3 * j])) is Some && hex_digit_value(
                    t@[3 * j + 1],
                ) is Some,
            forall|j: int| 0 <= j < k ==> #[trigger] out@[j] == mac_octets(t@)[j],
        decreases 6 - k,
    {
        let hi = hex_digit(t[3 * k]);
        let lo = hex_digit(t[3 * k + 1]);
        if hi.is_none() || lo.is_none() {
            assert(!(hex_digit_value(t@[3 * k as int]) is Some && hex_digit_value(t@[3 * k as int + 1]) is Some));
            return None;
        }
        if k < 5 && t[3 * k + 2] != 0x3A {
            assert(t@[3 * (k as int) + 2] != 0x3Au8);
            return None;
        }
        let h = hi.unwrap();
        let l = lo.unwrap();
        out.push(h * 16 + l);
        k = k + 1;
    }
    assert(out@ =~= mac_octets(t@));
    Some(out)
}

fn hex_digit_text(n: u8) -> (r: &'static str)
    requires
        n < 16,
    ensures
        r@ == seq![hex_upper(n)],
{
    if n == 0 { proof { reveal_strlit("0"); } "0" }
    else if n == 1 { proof { reveal_strlit("1"); } "1" }
    else if n == 2 { proof { reveal_strlit("2"); } "2" }
    else if n == 3 { proof { reveal_strlit("3"); } "3" }
    else if n == 4 { proof { reveal_strlit("4"); } "4" }
    else if n == 5 { proof { reveal_strlit("5"); } "5" }
    else if n == 6 { proof { reveal_strlit("6"); } "6" }
    else if n == 7 { proof { reveal_strlit("7"); } "7" }
    else if n == 8 { proof { reveal_strlit("8"); } "8" }
    else if n == 9 { proof { reveal_strlit("9"); } "9" }
    else if n == 10 { proof { reveal_strlit("A"); } "A" }
    else if n == 11 { proof { reveal_strlit("B"); } "B" }
    else if n == 12 { proof { reveal_strlit("C"); } "C" }
    else if n == 13 { proof { reveal_strlit("D"); } "D" }
    else if n == 14 { proof { reveal_strlit("E"); } "E" }
    else { proof { reveal_strlit("F"); } "F" }
}

fn append_hex_pair(s: &mut String, b: u8)
    ensures
        final(s)@ == old(s)@ + hex_pair_upper(b),
{
    s.append(hex_digit_text(b / 16));
    s.append(hex_digit_text(b % 16));
    assert(s@ =~= old(s)@ + hex_pair_upper(b));
}

/// Renders six octets, in the order given, as upper-case colon-separated hex.
pub fn format_mac(o: &[u8]) -> (r: String)
    requires
        o@.len() == 6,
    ensures
        r@ == mac_text_of(o@),
{
    proof {
        reveal_strlit("");
        reveal_strlit(":");
    }
    let mut s = String::from_str("");
    append_hex_pair(&mut s, o[0]);
    s.append(":");
    append_hex_pair(&mut s, o[1]);
    s.append(":");
    append_hex_pair(&mut s, o[2]);
    s.append(":");
    append_hex_pair(&mut s, o[3]);
    s.append(":");
    append_hex_pair(&mut s, o[4]);
    s.append(":");
    append_hex_pair(&mut s, o[5]);
    assert(s@ =~= mac_text_of(o@));
    s
}

} // verus!
