use vstd::prelude::*;

verus! {

/// The lowercase hex digit for a value `0 <= n < 16`.
pub open spec fn hex_digit(n: int) -> char
    recommends
        0 <= n < 16,
{
    if n == 0 {
        '0'
    } else if n == 1 {
        '1'
    } else if n == 2 {
        '2'
    } else if n == 3 {
        '3'
    } else if n == 4 {
        '4'
    } else if n == 5 {
        '5'
    } else if n == 6 {
        '6'
    } else if n == 7 {
        '7'
    } else if n == 8 {
        '8'
    } else if n == 9 {
        '9'
    } else if n == 10 {
        'a'
    } else if n == 11 {
        'b'
    } else if n == 12 {
        'c'
    } else if n == 13 {
        'd'
    } else if n == 14 {
        'e'
    } else {
        'f'
    }
}

/// A byte as two lowercase hex digits, high nibble first.
pub open spec fn hex_byte(b: u8) -> Seq<char> {
    seq![hex_digit(b as int / 16), hex_digit(b as int % 16)]
}

/// The canonical colon-hex form of an 8-byte prefix: four 2-byte groups of
/// lowercase hex digits joined with `:` (16 hex characters, 3 colons).
pub open spec fn spec_prefix_str(s: Seq<u8>) -> Seq<char>
    recommends
        s.len() == 8,
{
    hex_byte(s[0]) + hex_byte(s[1]) + seq![':'] + hex_byte(s[2]) + hex_byte(s[3]) + seq![':']
        + hex_byte(s[4]) + hex_byte(s[5]) + seq![':'] + hex_byte(s[6]) + hex_byte(s[7])
}

/// The value of a lowercase hex digit character, `-1` for anything else.
pub open spec fn hex_val(c: char) -> int {
    if c == '0' {
        0
    } else if c == '1' {
        1
    } else if c == '2' {
        2
    } else if c == '3' {
        3
    } else if c == '4' {
        4
    } else if c == '5' {
        5
    } else if c == '6' {
        6
    } else if c == '7' {
        7
    } else if c == '8' {
        8
    } else if c == '9' {
        9
    } else if c == 'a' {
        10
    } else if c == 'b' {
        11
    } else if c == 'c' {
        12
    } else if c == 'd' {
        13
    } else if c == 'e' {
        14
    } else if c == 'f' {
        15
    } else {
        -1
    }
}

/// The bytes read back from a 19-character colon-hex string: byte `i`
/// stands at character `(i / 2) * 5 + (i % 2) * 2`, two digits, with the
/// colons at characters 4, 9 and 14 skipped over.
pub open spec fn spec_parse_prefix_str(t: Seq<char>) -> Seq<u8>
    recommends
        t.len() == 19,
{
    Seq::new(
        8,
        |i: int|
            (hex_val(t[(i / 2) * 5 + (i % 2) * 2]) * 16 + hex_val(
                t[(i / 2) * 5 + (i % 2) * 2 + 1],
            )) as u8,
    )
}

/// Reading a digit back gives the value it was written from.
pub proof fn lemma_hex_digit_val(n: int)
    requires
        0 <= n < 16,
    ensures
        hex_val(hex_digit(n)) == n,
{
}

/// The colon-hex form loses nothing: parsing the formatted string's hex
/// digits back into bytes reproduces the original 8-byte array exactly.
pub proof fn lemma_prefix_str_round_trip(s: Seq<u8>)
    requires
        s.len() == 8,
    ensures
        spec_parse_prefix_str(spec_prefix_str(s)) =~= s,
{
    let t = spec_prefix_str(s);
    assert forall|i: int| 0 <= i < 8 implies #[trigger] hex_val(t[(i / 2) * 5 + (i % 2) * 2]) * 16
        + hex_val(t[(i / 2) * 5 + (i % 2) * 2 + 1]) == s[i] by {
        lemma_hex_digit_val(s[i] as int / 16);
        lemma_hex_digit_val(s[i] as int % 16);
        assert(t[0] == hex_digit(s[0] as int / 16) && t[1] == hex_digit(s[0] as int % 16));
        assert(t[2] == hex_digit(s[1] as int / 16) && t[3] == hex_digit(s[1] as int % 16));
        assert(t[5] == hex_digit(s[2] as int / 16) && t[6] == hex_digit(s[2] as int % 16));
        assert(t[7] == hex_digit(s[3] as int / 16) && t[8] == hex_digit(s[3] as int % 16));
        assert(t[10] == hex_digit(s[4] as int / 16) && t[11] == hex_digit(s[4] as int % 16));
        assert(t[12] == hex_digit(s[5] as int / 16) && t[13] == hex_digit(s[5] as int % 16));
        assert(t[15] == hex_digit(s[6] as int / 16) && t[16] == hex_digit(s[6] as int % 16));
        assert(t[17] == hex_digit(s[7] as int / 16) && t[18] == hex_digit(s[7] as int % 16));
    }
}

/// The one-character string for a hex digit value, used to build the
/// formatted output.
pub(crate) fn nibble_str(n: u8) -> (s: &'static str)
    requires
        n < 16,
    ensures
        s@.len() == 1,
        s@[0] == hex_digit(n as int),
{
    if n == 0 {
        proof {
            reveal_strlit("0");
        }
        "0"
    } else if n == 1 {
        proof {
            reveal_strlit("1");
        }
        "1"
    } else if n == 2 {
        proof {
            reveal_strlit("2");
        }
        "2"
    } else if n == 3 {
        proof {
            reveal_strlit("3");
        }
        "3"
    } else if n == 4 {
        proof {
            reveal_strlit("4");
        }
        "4"
    } else if n == 5 {
        proof {
            reveal_strlit("5");
        }
        "5"
    } else if n == 6 {
        proof {
            reveal_strlit("6");
        }
        "6"
    } else if n == 7 {
        proof {
            reveal_strlit("7");
        }
        "7"
    } else if n == 8 {
        proof {
            reveal_strlit("8");
        }
        "8"
    } else if n == 9 {
        proof {
            reveal_strlit("9");
        }
        "9"
    } else if n == 10 {
        proof {
            reveal_strlit("a");
        }
        "a"
    } else if n == 11 {
        proof {
            reveal_strlit("b");
        }
        "b"
    } else if n == 12 {
        proof {
            reveal_strlit("c");
        }
        "c"
    } else if n == 13 {
        proof {
            reveal_strlit("d");
        }
        "d"
    } else if n == 14 {
        proof {
            reveal_strlit("e");
        }
        "e"
    } else {
        proof {
            reveal_strlit("f");
        }
        "f"
    }
}

/// The one-character group separator of the colon-hex form.
pub(crate) fn colon_str() -> (s: &'static str)
    ensures
        s@.len() == 1,
        s@[0] == ':',
{
    proof {
        reveal_strlit(":");
    }
    ":"
}

} // verus!
