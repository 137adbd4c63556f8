//! Hexadecimal diagnostic formatting.
//!
//! Renders bytes the way the service loop logs them: each byte as two
//! uppercase hexadecimal digits followed by one space. Purely observational;
//! no part of the wire contract depends on it.

use vstd::prelude::*;

verus! {

/// The uppercase hexadecimal digit for a value below sixteen.
pub open spec fn hex_digit(n: u8) -> char
    recommends
        n < 16,
{
    if n == 0 {
        '0'
    } else if n == 1 {
        '1'
    } else if n == 2 {
        '2'
    } else if n == 3 {
        '3'
    } else if n == 4 {
        '4'
    } else if n == 5 {
        '5'
    } else if n == 6 {
        '6'
    } else if n == 7 {
        '7'
    } else if n == 8 {
        '8'
    } else if n == 9 {
        '9'
    } else if n == 10 {
        'A'
    } else if n == 11 {
        'B'
    } else if n == 12 {
        'C'
    } else if n == 13 {
        'D'
    } else if n == 14 {
        'E'
    } else {
        'F'
    }
}

/// One byte rendered as two hexadecimal digits and a trailing space.
pub open spec fn hex_of_byte(b: u8) -> Seq<char> {
    seq![hex_digit(b / 16), hex_digit(b % 16), ' ']
}

/// A byte sequence rendered byte by byte, in order.
pub open spec fn hex_of_bytes(s: Seq<u8>) -> Seq<char>
    decreases s.len(),
{
    if s.len() == 0 {
        Seq::<char>::empty()
    } else {
        hex_of_bytes(s.drop_last()) + hex_of_byte(s.last())
    }
}

/// The one-character string for a value below sixteen.
fn nibble_str(n: u8) -> (r: &'static str)
    requires
        n < 16,
    ensures
        r@ == seq![hex_digit(n)],
{
    proof {
        reveal_strlit("0");
        reveal_strlit("1");
        reveal_strlit("2");
        reveal_strlit("3");
        reveal_strlit("4");
        reveal_strlit("5");
        reveal_strlit("6");
        reveal_strlit("7");
        reveal_strlit("8");
        reveal_strlit("9");
        reveal_strlit("A");
        reveal_strlit("B");
        reveal_strlit("C");
        reveal_strlit("D");
        reveal_strlit("E");
        reveal_strlit("F");
    }
    let r = match n {
        0 => "0",
        1 => "1",
        2 => "2",
        3 => "3",
        4 => "4",
        5 => "5",
        6 => "6",
        7 => "7",
        8 => "8",
        9 => "9",
        10 => "A",
        11 => "B",
        12 => "C",
        13 => "D",
        14 => "E",
        _ => "F",
    };
    proof {
        assert(r@ =~= seq![hex_digit(n)]);
    }
    r
}

/// Renders a byte slice for a diagnostic line: each byte as two uppercase
/// hexadecimal digits followed by a space.
pub fn buf2string(buf: &[u8]) -> (ret: String)
    ensures
        ret@ == hex_of_bytes(buf@),
{
    let mut ret = String::new();
    let mut i: usize = 0;
    while i < buf.len()
        invariant
            i <= buf@.len(),
            ret@ == hex_of_bytes(buf@.take(i as int)),
        decreases buf@.len() - i,
    {
        let b = buf[i];
        ret.append(nibble_str(b / 16));
        ret.append(nibble_str(b % 16));
        ret.append(" ");
        proof {
            reveal_strlit(" ");
            assert(buf@.take(i + 1 as int).drop_last() =~= buf@.take(i as int));
            assert(buf@.take(i + 1 as int).last() == b);
            assert(ret@ =~= hex_of_bytes(buf@.take(i + 1 as int)));
        }
        i = i + 1;
    }
    proof {
        assert(buf@.take(buf@.len() as int) =~= buf@);
    }
    ret
}

} // verus!
