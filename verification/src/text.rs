//! Numbers as text, and text as numbers.

use vstd::prelude::*;
use vstd::string::StringExecFns;

verus! {

/// The character for a digit below sixteen, letters in lower case.
pub open spec fn digit_char(d: nat) -> char {
    if d == 0 {
        '0'
    } else if d == 1 {
        '1'
    } else if d == 2 {
        '2'
    } else if d == 3 {
        '3'
    } else if d == 4 {
        '4'
    } else if d == 5 {
        '5'
    } else if d == 6 {
        '6'
    } else if d == 7 {
        '7'
    } else if d == 8 {
        '8'
    } else if d == 9 {
        '9'
    } else if d == 10 {
        'a'
    } else if d == 11 {
        'b'
    } else if d == 12 {
        'c'
    } else if d == 13 {
        'd'
    } else if d == 14 {
        'e'
    } else {
        'f'
    }
}

/// A number in decimal digits, without sign and without leading zeros.
pub open spec fn decimal(n: nat) -> Seq<char>
    decreases n,
{
    if n < 10 {
        seq![digit_char(n)]
    } else {
        decimal(n / 10).push(digit_char(n % 10))
    }
}

/// A 16-bit number as "0x" and exactly four hexadecimal digits in lower
/// case.
pub open spec fn hex4(v: u16) -> Seq<char> {
    seq![
        '0',
        'x',
        digit_char((v / 0x1000) as nat),
        digit_char((v / 0x100 % 0x10) as nat),
        digit_char((v / 0x10 % 0x10) as nat),
        digit_char((v % 0x10) as nat),
    ]
}

/// The text of one digit.
fn digit_str(d: u8) -> (s: &'static str)
    requires
        d < 16,
    ensures
        s@ == seq![digit_char(d as nat)],
{
    proof {
        reveal_strlit("0");
        reveal_strlit("1");
        reveal_strlit("2");
        reveal_strlit("3");
        reveal_strlit("4");
        reveal_strlit("5");
        reveal_strlit("6");
        reveal_strlit("7");
        reveal_strlit("8");
        reveal_strlit("9");
        reveal_strlit("a");
        reveal_strlit("b");
        reveal_strlit("c");
        reveal_strlit("d");
        reveal_strlit("e");
        reveal_strlit("f");
    }
    let s = match d {
        0 => "0",
        1 => "1",
        2 => "2",
        3 => "3",
        4 => "4",
        5 => "5",
        6 => "6",
        7 => "7",
        8 => "8",
        9 => "9",
        10 => "a",
        11 => "b",
        12 => "c",
        13 => "d",
        14 => "e",
        _ => "f",
    };
    assert(s@ =~= seq![digit_char(d as nat)]);
    s
}

/// Writes a number in decimal digits.
pub fn to_decimal(n: u64) -> (s: String)
    ensures
        s@ == decimal(n as nat),
    decreases n,
{
    if n < 10 {
        digit_str(n as u8).to_owned()
    } else {
        let mut s = to_decimal(n / 10);
        s.append(digit_str((n % 10) as u8));
        assert(s@ =~= decimal(n as nat));
        s
    }
}

/// Writes a 16-bit number as "0x" and four hexadecimal digits.
pub fn to_hex4(v: u16) -> (s: String)
    ensures
        s@ == hex4(v),
{
    proof {
        reveal_strlit("0x");
    }
    let mut s = "0x".to_owned();
    s.append(digit_str((v / 0x1000) as u8));
    s.append(digit_str((v / 0x100 % 0x10) as u8));
    s.append(digit_str((v / 0x10 % 0x10) as u8));
    s.append(digit_str((v % 0x10) as u8));
    assert(s@ =~= hex4(v));
    s
}

/// Whether two texts are the same.
pub fn same_text(a: &str, b: &str) -> (same: bool)
    ensures
        same == (a@ == b@),
{
    let x = a.to_owned();
    let y = b.to_owned();
    x == y
}

/// The value of a digit in a radix of at most sixteen: `0` to `9`, then
/// `a` to `f` in either case. `None` for any other character and for a
/// digit that the radix does not have.
pub open spec fn digit_value(c: char, radix: nat) -> Option<nat> {
    let v: int = if '0' <= c <= '9' {
        c as int - '0' as int
    } else if 'a' <= c <= 'f' {
        c as int - 'a' as int + 10
    } else if 'A' <= c <= 'F' {
        c as int - 'A' as int + 10
    } else {
        16
    };
    if v < radix {
        Some(v as nat)
    } else {
        None
    }
}

/// The value of a run of digits, most significant first; `None` when a
/// character is not a digit of the radix. The empty run has the value 0.
pub open spec fn digits_value(s: Seq<char>, radix: nat) -> Option<nat>
    decreases s.len(),
{
    if s.len() == 0 {
        Some(0)
    } else {
        match (digits_value(s.drop_last(), radix), digit_value(s.last(), radix)) {
            (Some(v), Some(d)) => Some(v * radix + d),
            _ => None,
        }
    }
}

/// The 16-bit number that a text denotes: an optional `+`, then at least
/// one digit and nothing else, with a value of at most 65535.
pub open spec fn parsed_u16(s: Seq<char>, radix: nat) -> Option<u16> {
    let digits = if s.len() > 0 && s[0] == '+' {
        s.subrange(1, s.len() as int)
    } else {
        s
    };
    if digits.len() == 0 {
        None
    } else {
        match digits_value(digits, radix) {
            Some(v) => if v <= 0xFFFF {
                Some(v as u16)
            } else {
                None
            },
            None => None,
        }
    }
}

/// A run of digits is worth at least as much as any run it starts with.
proof fn lemma_digits_grow(s: Seq<char>, radix: nat, i: int)
    requires
        0 <= i <= s.len(),
        radix >= 1,
    ensures
        digits_value(s, radix) matches Some(v) ==> digits_value(s.subrange(0, i), radix) is Some
            && digits_value(s.subrange(0, i), radix)->Some_0 <= v,
    decreases s.len(),
{
    if i == s.len() {
        assert(s.subrange(0, i) =~= s);
    } else {
        if digits_value(s, radix) is Some {
            let shorter = s.drop_last();
            lemma_digits_grow(shorter, radix, i);
            assert(shorter.subrange(0, i) =~= s.subrange(0, i));
            let v = digits_value(shorter, radix)->Some_0;
            assert(v <= v * radix) by (nonlinear_arith)
                requires
                    radix >= 1,
                    v >= 0,
            ;
        }
    }
}

/// Reads one digit.
fn digit_of(c: char, radix: u32) -> (d: Option<u32>)
    requires
        radix <= 16,
    ensures
        d matches Some(v) ==> digit_value(c, radix as nat) == Some(v as nat),
        d is None ==> digit_value(c, radix as nat) is None,
{
    let v: u32 = if '0' <= c && c <= '9' {
        c as u32 - '0' as u32
    } else if 'a' <= c && c <= 'f' {
        c as u32 - 'a' as u32 + 10
    } else if 'A' <= c && c <= 'F' {
        c as u32 - 'A' as u32 + 10
    } else {
        16
    };
    if v < radix {
        Some(v)
    } else {
        None
    }
}

/// Reads a 16-bit number in a radix from 2 to 16.
pub fn parse_u16(s: &str, radix: u32) -> (r: Option<u16>)
    requires
        2 <= radix <= 16,
    ensures
        r == parsed_u16(s@, radix as nat),
{
    let n = s.unicode_len();
    let start: usize = if n > 0 && s.get_char(0) == '+' {
        1
    } else {
        0
    };
    if start == n {
        return None;
    }
    let ghost digits = s@.subrange(start as int, n as int);
    proof {
        if start == 0 {
            assert(digits =~= s@);
        }
        assert(digits.subrange(0, 0).len() == 0);
    }
    let mut value: u32 = 0;
    let mut i: usize = start;
    while i < n
        invariant
            start <= i <= n,
            n == s@.len(),
            2 <= radix <= 16,
            digits == s@.subrange(start as int, n as int),
            parsed_u16(s@, radix as nat) == (match digits_value(digits, radix as nat) {
                Some(v) => if v <= 0xFFFF {
                    Some(v as u16)
                } else {
                    None
                },
                None => None,
            }),
            digits_value(digits.subrange(0, i - start), radix as nat) == Some(value as nat),
            value <= 0xFFFF,
        decreases n - i,
    {
        let c = s.get_char(i);
        let ghost longer = digits.subrange(0, i - start + 1);
        proof {
            assert(longer.drop_last() =~= digits.subrange(0, i - start));
            assert(longer.last() == c);
            lemma_digits_grow(digits, radix as nat, i - start + 1);
        }
        match digit_of(c, radix) {
            None => {
                assert(digits_value(longer, radix as nat) is None);
                return None;
            },
            Some(d) => {
                assert(value * radix <= 0xFFFF * 16) by (nonlinear_arith)
                    requires
                        value <= 0xFFFF,
                        radix <= 16,
                ;
                let next = value * radix + d;
                assert(digits_value(longer, radix as nat) == Some(next as nat));
                if next > 0xFFFF {
                    return None;
                }
                value = next;
            },
        }
        i += 1;
    }
    assert(digits.subrange(0, n - start) =~= digits);
    Some(value as u16)
}

} // verus!
