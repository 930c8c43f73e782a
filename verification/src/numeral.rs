//! Numerals: reading a number in base 2, 10 or 16, and writing an address in
//! hexadecimal. A number is written as its digits, most significant first,
//! with one `+` before them if one likes.

use vstd::prelude::*;

verus! {

/// The value of a digit in `radix`, or `None` if `c` is no digit of it.
/// Letters count in either case.
pub open spec fn digit_value(c: char, radix: int) -> Option<int> {
    let v = if '0' <= c && c <= '9' {
        c as int - '0' as int
    } else if 'a' <= c && c <= 'f' {
        c as int - 'a' as int + 10
    } else if 'A' <= c && c <= 'F' {
        c as int - 'A' as int + 10
    } else {
        16
    };
    if v < radix {
        Some(v)
    } else {
        None
    }
}

/// The number that a run of digits denotes in `radix`, most significant digit
/// first; the empty run denotes 0. `None` if a character is no digit.
pub open spec fn digits_value(text: Seq<char>, radix: int) -> Option<int>
    decreases text.len(),
{
    if text.len() == 0 {
        Some(0)
    } else {
        match (digits_value(text.drop_last(), radix), digit_value(text.last(), radix)) {
            (Some(high), Some(low)) => Some(high * radix + low),
            _ => None,
        }
    }
}

/// The 16-bit number that a run of digits denotes in `radix`: `None` if the
/// run is empty, holds a character that is no digit, or denotes more than
/// 0xFFFF.
pub open spec fn digits_number(digits: Seq<char>, radix: int) -> Option<u16> {
    match digits_value(digits, radix) {
        Some(v) if digits.len() > 0 && v <= 0xFFFF => Some(v as u16),
        _ => None,
    }
}

/// The digits of a number: the text without the `+` that may stand first.
pub open spec fn unsigned_part(text: Seq<char>) -> Seq<char> {
    if text.len() > 0 && text[0] == '+' {
        text.subrange(1, text.len() as int)
    } else {
        text
    }
}

/// The 16-bit number that `text` denotes in `radix`: digits, with one `+`
/// before them or none. `None` if there is no digit, if a character after
/// the sign is no digit, or if the number is more than 0xFFFF.
pub open spec fn number_value(text: Seq<char>, radix: int) -> Option<u16> {
    digits_number(unsigned_part(text), radix)
}

/// Whether every character of a non-empty text is a hexadecimal digit.
pub open spec fn is_hex_text(text: Seq<char>) -> bool {
    text.len() > 0 && forall|i: int| 0 <= i < text.len() ==> digit_value(#[trigger] text[i], 16) is Some
}

/// A longer run of digits denotes no less than any run it starts with.
pub proof fn lemma_digits_grow(text: Seq<char>, radix: int, k: int)
    requires
        2 <= radix <= 16,
        0 <= k <= text.len(),
        digits_value(text, radix) is Some,
    ensures
        digits_value(text.take(k), radix) is Some,
        0 <= digits_value(text.take(k), radix)->0 <= digits_value(text, radix)->0,
    decreases text.len() - k,
{
    if k == text.len() {
        assert(text.take(k) =~= text);
        lemma_digits_nonnegative(text, radix);
    } else {
        lemma_digits_grow(text.drop_last(), radix, k);
        assert(text.drop_last().take(k) =~= text.take(k));
        let high = digits_value(text.drop_last(), radix)->0;
        lemma_digits_nonnegative(text.drop_last(), radix);
        assert(high * radix >= high) by (nonlinear_arith)
            requires
                high >= 0,
                radix >= 2,
        ;
    }
}

/// A run of digits denotes no negative number.
pub proof fn lemma_digits_nonnegative(text: Seq<char>, radix: int)
    requires
        2 <= radix <= 16,
        digits_value(text, radix) is Some,
    ensures
        digits_value(text, radix)->0 >= 0,
    decreases text.len(),
{
    if text.len() > 0 {
        lemma_digits_nonnegative(text.drop_last(), radix);
        let high = digits_value(text.drop_last(), radix)->0;
        assert(high * radix >= 0) by (nonlinear_arith)
            requires
                high >= 0,
                radix >= 2,
        ;
    }
}

/// The value of the digit `c` in `radix`, which is 2, 10 or 16.
pub fn digit_of(c: char, radix: u32) -> (r: Option<u32>)
    requires
        2 <= radix <= 16,
    ensures
        r is Some <==> digit_value(c, radix as int) is Some,
        r matches Some(v) ==> v == digit_value(c, radix as int)->0 && v < radix,
{
    let v: u32 = if '0' <= c && c <= '9' {
        c as u32 - '0' as u32
    } else if 'a' <= c && c <= 'f' {
        c as u32 - 'a' as u32 + 10
    } else if 'A' <= c && c <= 'F' {
        c as u32 - 'A' as u32 + 10
    } else {
        16
    };
    if v < radix {
        Some(v)
    } else {
        None
    }
}

/// Reads `text` as a number in `radix`, which is 2, 10 or 16: digits, with
/// one `+` before them or none.
pub fn parse_number(text: &str, radix: u32) -> (r: Option<u16>)
    requires
        2 <= radix <= 16,
    ensures
        r == number_value(text@, radix as int),
{
    let n = text.unicode_len();
    if n > 0 && text.get_char(0) == '+' {
        parse_digits(text.substring_char(1, n), radix)
    } else {
        parse_digits(text, radix)
    }
}

/// Reads a run of digits as a number in `radix`, which is 2, 10 or 16.
pub fn parse_digits(text: &str, radix: u32) -> (r: Option<u16>)
    requires
        2 <= radix <= 16,
    ensures
        r == digits_number(text@, radix as int),
{
    let n = text.unicode_len();
    if n == 0 {
        return None;
    }
    let mut value: u32 = 0;
    let mut i: usize = 0;
    while i < n
        invariant
            2 <= radix <= 16,
            n == text@.len(),
            i <= n,
            digits_value(text@.take(i as int), radix as int) == Some(value as int),
            value <= 0xFFFF,
        decreases n - i,
    {
        let c = text.get_char(i);
        let prefix = Ghost(text@.take(i as int + 1));
        proof {
            assert(prefix@.drop_last() =~= text@.take(i as int));
            assert(prefix@.last() == c);
        }
        match digit_of(c, radix) {
            None => {
                proof {
                    if digits_value(text@, radix as int) is Some {
                        lemma_digits_grow(text@, radix as int, i as int + 1);
                    }
                }
                return None;
            },
            Some(d) => {
                assert(value * radix + d <= 0xFFFF * 16 + 15) by (nonlinear_arith)
                    requires
                        value <= 0xFFFF,
                        radix <= 16,
                        d < radix,
                ;
                let next = value * radix + d;
                if next > 0xFFFF {
                    proof {
                        if digits_value(text@, radix as int) is Some {
                            lemma_digits_grow(text@, radix as int, i as int + 1);
                        }
                    }
                    return None;
                }
                value = next;
            },
        }
        i += 1;
    }
    assert(text@.take(n as int) =~= text@);
    Some(value as u16)
}

/// Whether `text` is not empty and holds hexadecimal digits only.
pub fn is_hex(text: &str) -> (r: bool)
    ensures
        r == is_hex_text(text@),
{
    let n = text.unicode_len();
    if n == 0 {
        return false;
    }
    let mut i: usize = 0;
    while i < n
        invariant
            n == text@.len(),
            i <= n,
            forall|k: int| 0 <= k < i ==> digit_value(#[trigger] text@[k], 16) is Some,
        decreases n - i,
    {
        let c = text.get_char(i);
        if digit_of(c, 16).is_none() {
            return false;
        }
        i += 1;
    }
    true
}

/// The character for a hexadecimal digit, letters in lower case.
pub open spec fn hex_char(d: int) -> char {
    if d < 10 {
        (d + '0' as int) as u8 as char
    } else {
        (d - 10 + 'a' as int) as u8 as char
    }
}

/// An address in hexadecimal, lower case, without leading zeros.
pub open spec fn hex_text(v: u16) -> Seq<char> {
    let d3 = if v >= 0x1000 {
        seq![hex_char(v as int / 0x1000)]
    } else {
        Seq::<char>::empty()
    };
    let d2 = if v >= 0x100 {
        seq![hex_char((v as int / 0x100) % 16)]
    } else {
        Seq::<char>::empty()
    };
    let d1 = if v >= 0x10 {
        seq![hex_char((v as int / 0x10) % 16)]
    } else {
        Seq::<char>::empty()
    };
    d3 + d2 + d1 + seq![hex_char(v as int % 16)]
}

/// The text of one hexadecimal digit.
fn hex_digit(d: u16) -> (r: &'static str)
    requires
        d < 16,
    ensures
        r@ == seq![hex_char(d as int)],
{
    proof {
        reveal_strlit("0");
        reveal_strlit("1");
        reveal_strlit("2");
        reveal_strlit("3");
        reveal_strlit("4");
        reveal_strlit("5");
        reveal_strlit("6");
        reveal_strlit("7");
        reveal_strlit("8");
        reveal_strlit("9");
        reveal_strlit("a");
        reveal_strlit("b");
        reveal_strlit("c");
        reveal_strlit("d");
        reveal_strlit("e");
        reveal_strlit("f");
    }
    let r = match d {
        0 => "0",
        1 => "1",
        2 => "2",
        3 => "3",
        4 => "4",
        5 => "5",
        6 => "6",
        7 => "7",
        8 => "8",
        9 => "9",
        10 => "a",
        11 => "b",
        12 => "c",
        13 => "d",
        14 => "e",
        _ => "f",
    };
    assert(r@ =~= seq![hex_char(d as int)]);
    r
}

/// Writes an address in hexadecimal, lower case, without leading zeros.
pub fn hex_string(v: u16) -> (r: String)
    ensures
        r@ == hex_text(v),
{
    let mut out = String::new();
    if v >= 0x1000 {
        out.append(hex_digit(v / 0x1000));
    }
    if v >= 0x100 {
        out.append(hex_digit((v / 0x100) % 16));
    }
    if v >= 0x10 {
        out.append(hex_digit((v / 0x10) % 16));
    }
    out.append(hex_digit(v % 16));
    assert(out@ =~= hex_text(v));
    out
}

/// An address written in hexadecimal reads back as itself.
#[verifier::rlimit(40)]
pub proof fn lemma_hex_round_trip(v: u16)
    ensures
        number_value(hex_text(v), 16) == Some(v),
        is_hex_text(hex_text(v)),
{
    let t = hex_text(v);
    reveal_with_fuel(digits_value, 5);
    assert(forall|d: int| 0 <= d < 16 ==> digit_value(#[trigger] hex_char(d), 16) == Some(d));
    assert(forall|d: int| 0 <= d < 16 ==> #[trigger] hex_char(d) != '+');
    assert(t[0] != '+');
    if v >= 0x1000 {
        assert(t =~= seq![
            hex_char(v as int / 0x1000),
            hex_char((v as int / 0x100) % 16),
            hex_char((v as int / 0x10) % 16),
            hex_char(v as int % 16),
        ]);
        assert(t.drop_last() =~= seq![
            hex_char(v as int / 0x1000),
            hex_char((v as int / 0x100) % 16),
            hex_char((v as int / 0x10) % 16),
        ]);
        assert(t.drop_last().drop_last() =~= seq![
            hex_char(v as int / 0x1000),
            hex_char((v as int / 0x100) % 16),
        ]);
        assert(t.drop_last().drop_last().drop_last() =~= seq![hex_char(v as int / 0x1000)]);
        assert(t.drop_last().drop_last().drop_last().drop_last() =~= Seq::<char>::empty());
    } else if v >= 0x100 {
        assert(t =~= seq![
            hex_char((v as int / 0x100) % 16),
            hex_char((v as int / 0x10) % 16),
            hex_char(v as int % 16),
        ]);
        assert(t.drop_last() =~= seq![
            hex_char((v as int / 0x100) % 16),
            hex_char((v as int / 0x10) % 16),
        ]);
        assert(t.drop_last().drop_last() =~= seq![hex_char((v as int / 0x100) % 16)]);
        assert(t.drop_last().drop_last().drop_last() =~= Seq::<char>::empty());
    } else if v >= 0x10 {
        assert(t =~= seq![hex_char((v as int / 0x10) % 16), hex_char(v as int % 16)]);
        assert(t.drop_last() =~= seq![hex_char((v as int / 0x10) % 16)]);
        assert(t.drop_last().drop_last() =~= Seq::<char>::empty());
    } else {
        assert(t =~= seq![hex_char(v as int % 16)]);
        assert(t.drop_last() =~= Seq::<char>::empty());
    }
}

} // verus!
