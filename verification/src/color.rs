use vstd::prelude::*;

use crate::text::chars_to_string;

verus! {

/// A color packed into 32 bits: red in the lowest byte, then green, blue,
/// and alpha in the highest byte.
pub open spec fn rgba32_value(r: u8, g: u8, b: u8, a: u8) -> int {
    a * 0x1000000 + b * 0x10000 + g * 0x100 + r
}

/// Packs color channels (each already scaled to 0..=255) into one 32-bit
/// value, red in the lowest byte and alpha in the highest.
pub fn to_rgba32(r: u8, g: u8, b: u8, a: u8) -> (v: u32)
    ensures
        v == rgba32_value(r, g, b, a),
{
    let v = ((a as u32) << 24u32) | ((b as u32) << 16u32) | ((g as u32) << 8u32) | (r as u32);
    assert(v == a * 0x1000000 + b * 0x10000 + g * 0x100 + r) by (bit_vector)
        requires
            v == ((a as u32) << 24u32) | ((b as u32) << 16u32) | ((g as u32) << 8u32) | (r as u32),
    ;
    v
}

/// The lowercase hexadecimal digits.
pub open spec fn hex_digits() -> Seq<char> {
    seq!['0', '1', '2', '3', '4', '5', '6', '7', '8', '9', 'a', 'b', 'c', 'd', 'e', 'f']
}

/// A byte as two lowercase hexadecimal digits.
pub open spec fn hex_byte(x: u8) -> Seq<char> {
    seq![hex_digits()[x as int / 16], hex_digits()[x as int % 16]]
}

/// A color in `#rrggbbaa` notation, lowercase.
pub open spec fn hex_rgba_text(r: u8, g: u8, b: u8, a: u8) -> Seq<char> {
    seq!['#'] + hex_byte(r) + hex_byte(g) + hex_byte(b) + hex_byte(a)
}

fn hex_digit(d: u8) -> (c: char)
    requires
        d < 16,
    ensures
        c == hex_digits()[d as int],
{
    let digits: [char; 16] = ['0', '1', '2', '3', '4', '5', '6', '7', '8', '9', 'a', 'b', 'c', 'd', 'e', 'f'];
    assert(digits@ =~= hex_digits());
    digits[d as usize]
}

fn push_hex_byte(out: &mut Vec<char>, x: u8)
    ensures
        final(out)@ == old(out)@ + hex_byte(x),
{
    out.push(hex_digit(x / 16));
    out.push(hex_digit(x % 16));
    assert(final(out)@ =~= old(out)@ + hex_byte(x));
}

/// Formats color channels (each already scaled to 0..=255) as `#rrggbbaa`
/// with lowercase hexadecimal digits.
pub fn to_hex_rgba(r: u8, g: u8, b: u8, a: u8) -> (s: String)
    ensures
        s@ == hex_rgba_text(r, g, b, a),
{
    let mut v: Vec<char> = Vec::new();
    v.push('#');
    push_hex_byte(&mut v, r);
    push_hex_byte(&mut v, g);
    push_hex_byte(&mut v, b);
    push_hex_byte(&mut v, a);
    assert(v@ =~= hex_rgba_text(r, g, b, a));
    chars_to_string(&v)
}


/// Each channel can be read back from the packed value: red from the lowest
/// byte, then green, blue, and alpha from the highest.
pub proof fn law_rgba32_channels(r: u8, g: u8, b: u8, a: u8)
    ensures
        rgba32_value(r, g, b, a) % 0x100 == r,
        (rgba32_value(r, g, b, a) / 0x100) % 0x100 == g,
        (rgba32_value(r, g, b, a) / 0x10000) % 0x100 == b,
        rgba32_value(r, g, b, a) / 0x1000000 == a,
        0 <= rgba32_value(r, g, b, a) <= u32::MAX,
{
    let v = rgba32_value(r, g, b, a);
    assert(v == r + 0x100 * (g + 0x100 * (b + 0x100 * a)));
    assert(v % 0x100 == r && v / 0x100 == g + 0x100 * (b + 0x100 * a)) by (nonlinear_arith)
        requires
            v == r + 0x100 * (g + 0x100 * (b + 0x100 * a)),
            0 <= r < 0x100,
            0 <= g,
            0 <= b,
            0 <= a,
    ;
    let v1 = g + 0x100 * (b + 0x100 * a);
    assert(v1 % 0x100 == g && v1 / 0x100 == b + 0x100 * a) by (nonlinear_arith)
        requires
            v1 == g + 0x100 * (b + 0x100 * a),
            0 <= g < 0x100,
            0 <= b,
            0 <= a,
    ;
    let v2 = b + 0x100 * a;
    assert(v2 % 0x100 == b && v2 / 0x100 == a) by (nonlinear_arith)
        requires
            v2 == b + 0x100 * a,
            0 <= b < 0x100,
            0 <= a,
    ;
    assert(v / 0x10000 == v1 / 0x100) by (nonlinear_arith)
        requires
            v / 0x100 == v1,
            v >= 0,
    ;
    assert(v / 0x1000000 == v2 / 0x100) by (nonlinear_arith)
        requires
            v / 0x10000 == v2,
            v >= 0,
    ;
}

/// The `#rrggbbaa` text is nine characters long, starts with `#`, and gives
/// back each channel: two colors with the same text have the same channels.
pub proof fn law_hex_rgba(r: u8, g: u8, b: u8, a: u8, r2: u8, g2: u8, b2: u8, a2: u8)
    ensures
        hex_rgba_text(r, g, b, a).len() == 9,
        hex_rgba_text(r, g, b, a)[0] == '#',
        hex_rgba_text(r, g, b, a) == hex_rgba_text(r2, g2, b2, a2) ==> r == r2 && g == g2 && b
            == b2 && a == a2,
{
    let t = hex_rgba_text(r, g, b, a);
    let t2 = hex_rgba_text(r2, g2, b2, a2);
    assert(t.len() == 9);
    if t == t2 {
        lemma_hex_byte_injective(r, r2, t[1], t[2], t2[1], t2[2]);
        lemma_hex_byte_injective(g, g2, t[3], t[4], t2[3], t2[4]);
        lemma_hex_byte_injective(b, b2, t[5], t[6], t2[5], t2[6]);
        lemma_hex_byte_injective(a, a2, t[7], t[8], t2[7], t2[8]);
    }
}

/// A lowercase hexadecimal digit: `0` to `9` or `a` to `f`.
pub open spec fn is_lower_hex_digit(c: char) -> bool {
    ('0' as int <= c as int <= '9' as int) || ('a' as int <= c as int <= 'f' as int)
}

/// The value of a hexadecimal digit, read from its character code: `0` to
/// `9` are 0 to 9, `a` to `f` are 10 to 15.
pub open spec fn hex_digit_value(c: char) -> int {
    if '0' as int <= c as int <= '9' as int {
        c as int - '0' as int
    } else {
        c as int - 'a' as int + 10
    }
}

/// The number that two hexadecimal digits stand for, the first one high.
pub open spec fn hex_pair_value(hi: char, lo: char) -> int {
    16 * hex_digit_value(hi) + hex_digit_value(lo)
}

proof fn lemma_hex_digit_reads_back(d: int)
    requires
        0 <= d < 16,
    ensures
        is_lower_hex_digit(hex_digits()[d]),
        hex_digit_value(hex_digits()[d]) == d,
{
    assert(hex_digits() =~= seq!['0', '1', '2', '3', '4', '5', '6', '7', '8', '9', 'a', 'b', 'c', 'd', 'e', 'f']);
    assert(d == 0 || d == 1 || d == 2 || d == 3 || d == 4 || d == 5 || d == 6 || d == 7 || d == 8
        || d == 9 || d == 10 || d == 11 || d == 12 || d == 13 || d == 14 || d == 15);
}

/// The two digits written for a byte are lowercase hexadecimal digits and,
/// read in base 16, give the byte back.
pub proof fn law_hex_byte_reads_back(x: u8)
    ensures
        hex_byte(x).len() == 2,
        is_lower_hex_digit(hex_byte(x)[0]),
        is_lower_hex_digit(hex_byte(x)[1]),
        hex_pair_value(hex_byte(x)[0], hex_byte(x)[1]) == x,
{
    lemma_hex_digit_reads_back(x as int / 16);
    lemma_hex_digit_reads_back(x as int % 16);
}

/// Reading the `#rrggbbaa` text in base 16, two digits per channel, gives
/// back red, green, blue and alpha, in that order; every character after
/// the `#` is a lowercase hexadecimal digit.
pub proof fn law_hex_rgba_reads_back(r: u8, g: u8, b: u8, a: u8)
    ensures
        ({
            let t = hex_rgba_text(r, g, b, a);
            &&& t.len() == 9
            &&& t[0] == '#'
            &&& forall|i: int| 1 <= i < 9 ==> is_lower_hex_digit(#[trigger] t[i])
            &&& hex_pair_value(t[1], t[2]) == r
            &&& hex_pair_value(t[3], t[4]) == g
            &&& hex_pair_value(t[5], t[6]) == b
            &&& hex_pair_value(t[7], t[8]) == a
        }),
{
    law_hex_byte_reads_back(r);
    law_hex_byte_reads_back(g);
    law_hex_byte_reads_back(b);
    law_hex_byte_reads_back(a);
    let t = hex_rgba_text(r, g, b, a);
    assert(t =~= seq!['#', hex_byte(r)[0], hex_byte(r)[1], hex_byte(g)[0], hex_byte(g)[1],
        hex_byte(b)[0], hex_byte(b)[1], hex_byte(a)[0], hex_byte(a)[1]]);
}

proof fn lemma_hex_digit_injective(i: int, j: int)
    requires
        0 <= i < 16,
        0 <= j < 16,
        hex_digits()[i] == hex_digits()[j],
    ensures
        i == j,
{
    assert(hex_digits() =~= seq!['0', '1', '2', '3', '4', '5', '6', '7', '8', '9', 'a', 'b', 'c', 'd', 'e', 'f']);
}

proof fn lemma_hex_byte_injective(x: u8, y: u8, c1: char, c2: char, d1: char, d2: char)
    requires
        c1 == hex_byte(x)[0],
        c2 == hex_byte(x)[1],
        d1 == hex_byte(y)[0],
        d2 == hex_byte(y)[1],
        c1 == d1,
        c2 == d2,
    ensures
        x == y,
{
    lemma_hex_digit_injective(x as int / 16, y as int / 16);
    lemma_hex_digit_injective(x as int % 16, y as int % 16);
}

} // verus!
