use vstd::prelude::*;

verus! {

/// The canonical textual form of a 128-bit identifier: 32 lowercase
/// hexadecimal digits, most significant first, with hyphens after the
/// 8th, 12th, 16th and 20th digit.
pub open spec fn uuid_chars(n: u128) -> Seq<char> {
    Seq::new(36, |i: int| uuid_char(n, i))
}

pub open spec fn uuid_char(n: u128, i: int) -> char {
    if i == 8 || i == 13 || i == 18 || i == 23 {
        '-'
    } else {
        hex_char(nibble(n, digit_index(i)))
    }
}

/// Which hexadecimal digit (0-based, most significant first) sits at
/// text position `i`, skipping the four hyphens.
pub open spec fn digit_index(i: int) -> int {
    if i < 8 {
        i
    } else if i < 13 {
        i - 1
    } else if i < 18 {
        i - 2
    } else if i < 23 {
        i - 3
    } else {
        i - 4
    }
}

/// The `j`-th hexadecimal digit of `n`, most significant first.
pub open spec fn nibble(n: u128, j: int) -> u8 {
    ((n >> ((124 - 4 * j) as u128)) & 0xf) as u8
}

pub open spec fn hex_char(d: u8) -> char {
    if d == 0 {
        '0'
    } else if d == 1 {
        '1'
    } else if d == 2 {
        '2'
    } else if d == 3 {
        '3'
    } else if d == 4 {
        '4'
    } else if d == 5 {
        '5'
    } else if d == 6 {
        '6'
    } else if d == 7 {
        '7'
    } else if d == 8 {
        '8'
    } else if d == 9 {
        '9'
    } else if d == 10 {
        'a'
    } else if d == 11 {
        'b'
    } else if d == 12 {
        'c'
    } else if d == 13 {
        'd'
    } else if d == 14 {
        'e'
    } else {
        'f'
    }
}

fn hex_str(d: u8) -> (r: &'static str)
    requires
        d < 16,
    ensures
        r@.len() == 1,
        r@[0] == hex_char(d),
{
    proof {
        reveal_strlit("0");
        reveal_strlit("1");
        reveal_strlit("2");
        reveal_strlit("3");
        reveal_strlit("4");
        reveal_strlit("5");
        reveal_strlit("6");
        reveal_strlit("7");
        reveal_strlit("8");
        reveal_strlit("9");
        reveal_strlit("a");
        reveal_strlit("b");
        reveal_strlit("c");
        reveal_strlit("d");
        reveal_strlit("e");
        reveal_strlit("f");
    }
    match d {
        0 => "0",
        1 => "1",
        2 => "2",
        3 => "3",
        4 => "4",
        5 => "5",
        6 => "6",
        7 => "7",
        8 => "8",
        9 => "9",
        10 => "a",
        11 => "b",
        12 => "c",
        13 => "d",
        14 => "e",
        _ => "f",
    }
}

/// Renders `n` in canonical hyphenated form, e.g.
/// `00112233-4455-6677-8899-aabbccddeeff`.
pub fn uuid_string(n: u128) -> (s: String)
    ensures
        s@ == uuid_chars(n),
{
    let mut s = String::new();
    let mut i: usize = 0;
    while i < 36
        invariant
            i <= 36,
            s@ == uuid_chars(n).take(i as int),
        decreases 36 - i,
    {
        if i == 8 || i == 13 || i == 18 || i == 23 {
            proof {
                reveal_strlit("-");
            }
            s.append("-");
        } else {
            let j: usize = if i < 8 {
                i
            } else if i < 13 {
                i - 1
            } else if i < 18 {
                i - 2
            } else if i < 23 {
                i - 3
            } else {
                i - 4
            };
            let shift: u128 = (124 - 4 * j) as u128;
            let d: u8 = ((n >> shift) & 0xf) as u8;
            proof {
                assert((n >> shift) & 0xf < 16) by (bit_vector);
            }
            s.append(hex_str(d));
        }
        proof {
            assert(s@ =~= uuid_chars(n).take(i + 1));
        }
        i += 1;
    }
    proof {
        assert(s@ =~= uuid_chars(n));
    }
    s
}

} // verus!
