//! Verified hexadecimal rendering: the textual form of addresses and
//! bytes used by register dumps and event descriptions.

use vstd::prelude::*;
use vstd::string::*;

verus! {

/// The lower-case character of one hexadecimal digit.
pub open spec fn hex_digit_char(d: int) -> char {
    if d == 0 {
        '0'
    } else if d == 1 {
        '1'
    } else if d == 2 {
        '2'
    } else if d == 3 {
        '3'
    } else if d == 4 {
        '4'
    } else if d == 5 {
        '5'
    } else if d == 6 {
        '6'
    } else if d == 7 {
        '7'
    } else if d == 8 {
        '8'
    } else if d == 9 {
        '9'
    } else if d == 10 {
        'a'
    } else if d == 11 {
        'b'
    } else if d == 12 {
        'c'
    } else if d == 13 {
        'd'
    } else if d == 14 {
        'e'
    } else {
        'f'
    }
}

/// The four hexadecimal digits of a 16-bit word, most significant
/// first.
pub open spec fn hex4_seq(w: u16) -> Seq<char> {
    seq![
        hex_digit_char(w as int / 4096 % 16),
        hex_digit_char(w as int / 256 % 16),
        hex_digit_char(w as int / 16 % 16),
        hex_digit_char(w as int % 16),
    ]
}

/// A 16-bit word written as `0x` plus four hexadecimal digits.
pub open spec fn hex_word_seq(w: u16) -> Seq<char> {
    seq!['0', 'x'] + hex4_seq(w)
}

/// One hexadecimal digit as a string slice.
fn hex_digit_str(d: u8) -> (r: &'static str)
    requires
        d < 16,
    ensures
        r@.len() == 1,
        r@[0] == hex_digit_char(d as int),
{
    match d {
        0 => {
            proof {
                reveal_strlit("0");
            }
            "0"
        },
        1 => {
            proof {
                reveal_strlit("1");
            }
            "1"
        },
        2 => {
            proof {
                reveal_strlit("2");
            }
            "2"
        },
        3 => {
            proof {
                reveal_strlit("3");
            }
            "3"
        },
        4 => {
            proof {
                reveal_strlit("4");
            }
            "4"
        },
        5 => {
            proof {
                reveal_strlit("5");
            }
            "5"
        },
        6 => {
            proof {
                reveal_strlit("6");
            }
            "6"
        },
        7 => {
            proof {
                reveal_strlit("7");
            }
            "7"
        },
        8 => {
            proof {
                reveal_strlit("8");
            }
            "8"
        },
        9 => {
            proof {
                reveal_strlit("9");
            }
            "9"
        },
        10 => {
            proof {
                reveal_strlit("a");
            }
            "a"
        },
        11 => {
            proof {
                reveal_strlit("b");
            }
            "b"
        },
        12 => {
            proof {
                reveal_strlit("c");
            }
            "c"
        },
        13 => {
            proof {
                reveal_strlit("d");
            }
            "d"
        },
        14 => {
            proof {
                reveal_strlit("e");
            }
            "e"
        },
        _ => {
            proof {
                reveal_strlit("f");
            }
            "f"
        },
    }
}

/// Append the four hexadecimal digits of a word.
pub fn push_hex4(s: &mut String, w: u16)
    ensures
        final(s)@ == old(s)@ + hex4_seq(w),
{
    s.append(hex_digit_str(((w / 4096) % 16) as u8));
    s.append(hex_digit_str(((w / 256) % 16) as u8));
    s.append(hex_digit_str(((w / 16) % 16) as u8));
    s.append(hex_digit_str((w % 16) as u8));
    proof {
        assert(s@ =~= old(s)@ + hex4_seq(w));
    }
}

/// Append a word written as `0x` plus four hexadecimal digits.
pub fn push_hex_word(s: &mut String, w: u16)
    ensures
        final(s)@ == old(s)@ + hex_word_seq(w),
{
    proof {
        reveal_strlit("0x");
        assert("0x"@ =~= seq!['0', 'x']);
    }
    s.append("0x");
    push_hex4(s, w);
    proof {
        assert(s@ =~= old(s)@ + hex_word_seq(w));
    }
}

/// A word written as `0x` plus four hexadecimal digits.
pub fn hex_word(w: u16) -> (r: String)
    ensures
        r@ == hex_word_seq(w),
{
    let mut s: String = String::new();
    push_hex_word(&mut s, w);
    proof {
        assert(s@ =~= hex_word_seq(w));
    }
    s
}

} // verus!
