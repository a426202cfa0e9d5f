//! Verified text rendering of integers: lowercase and uppercase hexadecimal
//! (with and without a `0x` prefix, with and without zero-padding to two
//! digits) and decimal. Error messages and the table view are assembled from
//! these pieces, so their exact character content can be stated in contracts.

use vstd::prelude::*;
use vstd::string::*;

verus! {

/// The character for one digit value below 16, lowercase.
pub open spec fn digit_char_lower(d: nat) -> char
    recommends
        d < 16,
{
    if d == 0 { '0' }
    else if d == 1 { '1' }
    else if d == 2 { '2' }
    else if d == 3 { '3' }
    else if d == 4 { '4' }
    else if d == 5 { '5' }
    else if d == 6 { '6' }
    else if d == 7 { '7' }
    else if d == 8 { '8' }
    else if d == 9 { '9' }
    else if d == 10 { 'a' }
    else if d == 11 { 'b' }
    else if d == 12 { 'c' }
    else if d == 13 { 'd' }
    else if d == 14 { 'e' }
    else { 'f' }
}

/// The character for one digit value below 16, uppercase.
pub open spec fn digit_char_upper(d: nat) -> char
    recommends
        d < 16,
{
    if d == 0 { '0' }
    else if d == 1 { '1' }
    else if d == 2 { '2' }
    else if d == 3 { '3' }
    else if d == 4 { '4' }
    else if d == 5 { '5' }
    else if d == 6 { '6' }
    else if d == 7 { '7' }
    else if d == 8 { '8' }
    else if d == 9 { '9' }
    else if d == 10 { 'A' }
    else if d == 11 { 'B' }
    else if d == 12 { 'C' }
    else if d == 13 { 'D' }
    else if d == 14 { 'E' }
    else { 'F' }
}

/// Lowercase hexadecimal digits of `n`, no prefix, no leading zeros.
pub open spec fn hex_lower(n: nat) -> Seq<char>
    decreases n,
{
    if n < 16 { seq![digit_char_lower(n)] } else { hex_lower(n / 16).push(digit_char_lower(n % 16)) }
}

/// Uppercase hexadecimal digits of `n`, no prefix, no leading zeros.
pub open spec fn hex_upper(n: nat) -> Seq<char>
    decreases n,
{
    if n < 16 { seq![digit_char_upper(n)] } else { hex_upper(n / 16).push(digit_char_upper(n % 16)) }
}

/// `n` in lowercase hexadecimal with the `0x` prefix, as Rust's `{:#x}`.
pub open spec fn hex_0x_lower(n: nat) -> Seq<char> {
    seq!['0', 'x'] + hex_lower(n)
}

/// `n` in uppercase hexadecimal with the `0x` prefix, as Rust's `{:#X}`.
pub open spec fn hex_0x_upper(n: nat) -> Seq<char> {
    seq!['0', 'x'] + hex_upper(n)
}

/// Decimal digits of `n`, no leading zeros.
pub open spec fn dec_digits(n: nat) -> Seq<char>
    decreases n,
{
    if n < 10 { seq![digit_char_lower(n)] } else { dec_digits(n / 10).push(digit_char_lower(n % 10)) }
}

/// One byte as exactly two uppercase hexadecimal digits, as Rust's `{:02X}`.
pub open spec fn hex_byte_upper(b: u8) -> Seq<char> {
    seq![digit_char_upper(b as nat / 16), digit_char_upper(b as nat % 16)]
}

/// A run of `n` spaces.
pub open spec fn spaces(n: nat) -> Seq<char>
    decreases n,
{
    if n == 0 { Seq::empty() } else { spaces((n - 1) as nat).push(' ') }
}

/// One digit below 16 as a one-character lowercase string slice.
pub fn digit_str_lower(d: u8) -> (r: &'static str)
    requires
        d < 16,
    ensures
        r@ == seq![digit_char_lower(d as nat)],
{
    proof {
        reveal_strlit("0");
        reveal_strlit("1");
        reveal_strlit("2");
        reveal_strlit("3");
        reveal_strlit("4");
        reveal_strlit("5");
        reveal_strlit("6");
        reveal_strlit("7");
        reveal_strlit("8");
        reveal_strlit("9");
        reveal_strlit("a");
        reveal_strlit("b");
        reveal_strlit("c");
        reveal_strlit("d");
        reveal_strlit("e");
        reveal_strlit("f");
    }
    let r = if d == 0 { "0" }
    else if d == 1 { "1" }
    else if d == 2 { "2" }
    else if d == 3 { "3" }
    else if d == 4 { "4" }
    else if d == 5 { "5" }
    else if d == 6 { "6" }
    else if d == 7 { "7" }
    else if d == 8 { "8" }
    else if d == 9 { "9" }
    else if d == 10 { "a" }
    else if d == 11 { "b" }
    else if d == 12 { "c" }
    else if d == 13 { "d" }
    else if d == 14 { "e" }
    else { "f" };
    proof {
        assert(r@ =~= seq![digit_char_lower(d as nat)]);
    }
    r
}

/// One digit below 16 as a one-character uppercase string slice.
pub fn digit_str_upper(d: u8) -> (r: &'static str)
    requires
        d < 16,
    ensures
        r@ == seq![digit_char_upper(d as nat)],
{
    proof {
        reveal_strlit("0");
        reveal_strlit("1");
        reveal_strlit("2");
        reveal_strlit("3");
        reveal_strlit("4");
        reveal_strlit("5");
        reveal_strlit("6");
        reveal_strlit("7");
        reveal_strlit("8");
        reveal_strlit("9");
        reveal_strlit("A");
        reveal_strlit("B");
        reveal_strlit("C");
        reveal_strlit("D");
        reveal_strlit("E");
        reveal_strlit("F");
    }
    let r = if d == 0 { "0" }
    else if d == 1 { "1" }
    else if d == 2 { "2" }
    else if d == 3 { "3" }
    else if d == 4 { "4" }
    else if d == 5 { "5" }
    else if d == 6 { "6" }
    else if d == 7 { "7" }
    else if d == 8 { "8" }
    else if d == 9 { "9" }
    else if d == 10 { "A" }
    else if d == 11 { "B" }
    else if d == 12 { "C" }
    else if d == 13 { "D" }
    else if d == 14 { "E" }
    else { "F" };
    proof {
        assert(r@ =~= seq![digit_char_upper(d as nat)]);
    }
    r
}

/// Append the lowercase hexadecimal digits of `v` (no prefix) to `s`.
pub fn push_hex_lower(s: &mut String, v: u64)
    ensures
        final(s)@ == old(s)@ + hex_lower(v as nat),
    decreases v,
{
    if v < 16 {
        s.append(digit_str_lower(v as u8));
    } else {
        push_hex_lower(s, v / 16);
        s.append(digit_str_lower((v % 16) as u8));
    }
    proof {
        assert(s@ =~= old(s)@ + hex_lower(v as nat));
    }
}

/// Append the uppercase hexadecimal digits of `v` (no prefix) to `s`.
pub fn push_hex_upper(s: &mut String, v: u64)
    ensures
        final(s)@ == old(s)@ + hex_upper(v as nat),
    decreases v,
{
    if v < 16 {
        s.append(digit_str_upper(v as u8));
    } else {
        push_hex_upper(s, v / 16);
        s.append(digit_str_upper((v % 16) as u8));
    }
    proof {
        assert(s@ =~= old(s)@ + hex_upper(v as nat));
    }
}

/// Append `v` as `{:#x}` (lowercase hexadecimal with a `0x` prefix) to `s`.
pub fn push_hex_0x_lower(s: &mut String, v: u64)
    ensures
        final(s)@ == old(s)@ + hex_0x_lower(v as nat),
{
    proof {
        reveal_strlit("0x");
    }
    s.append("0x");
    push_hex_lower(s, v);
    proof {
        assert("0x"@ =~= seq!['0', 'x']);
        assert(s@ =~= old(s)@ + hex_0x_lower(v as nat));
    }
}

/// Append `v` as `{:#X}` (uppercase hexadecimal with a `0x` prefix) to `s`.
pub fn push_hex_0x_upper(s: &mut String, v: u64)
    ensures
        final(s)@ == old(s)@ + hex_0x_upper(v as nat),
{
    proof {
        reveal_strlit("0x");
    }
    s.append("0x");
    push_hex_upper(s, v);
    proof {
        assert("0x"@ =~= seq!['0', 'x']);
        assert(s@ =~= old(s)@ + hex_0x_upper(v as nat));
    }
}

/// Append the decimal digits of `v` to `s`.
pub fn push_dec(s: &mut String, v: u64)
    ensures
        final(s)@ == old(s)@ + dec_digits(v as nat),
    decreases v,
{
    if v < 10 {
        s.append(digit_str_lower(v as u8));
    } else {
        push_dec(s, v / 10);
        s.append(digit_str_lower((v % 10) as u8));
    }
    proof {
        assert(s@ =~= old(s)@ + dec_digits(v as nat));
    }
}

/// Append one byte as exactly two uppercase hexadecimal digits to `s`.
pub fn push_hex_byte_upper(s: &mut String, b: u8)
    ensures
        final(s)@ == old(s)@ + hex_byte_upper(b),
{
    s.append(digit_str_upper(b / 16));
    s.append(digit_str_upper(b % 16));
    proof {
        assert(s@ =~= old(s)@ + hex_byte_upper(b));
    }
}

/// Append `n` spaces to `s`.
pub fn push_spaces(s: &mut String, n: usize)
    ensures
        final(s)@ == old(s)@ + spaces(n as nat),
    decreases n,
{
    proof {
        reveal_strlit(" ");
    }
    if n > 0 {
        push_spaces(s, n - 1);
        s.append(" ");
    }
    proof {
        assert(" "@ =~= seq![' ']);
        assert(s@ =~= old(s)@ + spaces(n as nat));
    }
}

/// Whether `needle` stands somewhere in `hay` as a contiguous run.
pub open spec fn spec_contains(hay: Seq<char>, needle: Seq<char>) -> bool {
    exists|i: int|
        0 <= i && i + needle.len() <= hay.len() && #[trigger] hay.subrange(i, i + needle.len())
            == needle
}

/// A text stands in itself.
pub proof fn lemma_contains_self(x: Seq<char>)
    ensures
        spec_contains(x, x),
{
    let i: int = 0;
    assert(x.subrange(i, i + x.len()) =~= x);
}

/// A text standing in `a` stands in `a + b`.
pub proof fn lemma_contains_concat_left(a: Seq<char>, b: Seq<char>, x: Seq<char>)
    requires
        spec_contains(a, x),
    ensures
        spec_contains(a + b, x),
{
    let i = choose|i: int|
        0 <= i && i + x.len() <= a.len() && #[trigger] a.subrange(i, i + x.len()) == x;
    assert((a + b).subrange(i, i + x.len()) =~= a.subrange(i, i + x.len()));
}

/// A text standing in `b` stands in `a + b`.
pub proof fn lemma_contains_concat_right(a: Seq<char>, b: Seq<char>, x: Seq<char>)
    requires
        spec_contains(b, x),
    ensures
        spec_contains(a + b, x),
{
    let i = choose|i: int|
        0 <= i && i + x.len() <= b.len() && #[trigger] b.subrange(i, i + x.len()) == x;
    let j = a.len() + i;
    assert((a + b).subrange(j, j + x.len()) =~= b.subrange(i, i + x.len()));
}

/// Containment is transitive: what stands in a part stands in the whole.
pub proof fn lemma_contains_trans(a: Seq<char>, b: Seq<char>, c: Seq<char>)
    requires
        spec_contains(a, b),
        spec_contains(b, c),
    ensures
        spec_contains(a, c),
{
    let i = choose|i: int|
        0 <= i && i + b.len() <= a.len() && #[trigger] a.subrange(i, i + b.len()) == b;
    let j = choose|j: int|
        0 <= j && j + c.len() <= b.len() && #[trigger] b.subrange(j, j + c.len()) == c;
    let k = i + j;
    assert(a.subrange(k, k + c.len()) =~= b.subrange(j, j + c.len()));
}

} // verus!
