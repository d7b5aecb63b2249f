//! The wire formats: parsing a move from an inbound datagram payload, and
//! rendering the state line that is broadcast to both players.
use vstd::prelude::*;
use vstd::string::StringExecFns;
use crate::game::Move;
use crate::game::move_name;
use crate::game::parse_move_char;

verus! {

/// Whether `b` is an ASCII whitespace byte, which is also its own UTF-8
/// encoding.
pub open spec fn is_ascii_ws(b: u8) -> bool {
    b == 0x09 || b == 0x0a || b == 0x0b || b == 0x0c || b == 0x0d || b == 0x20
}

/// Whether `b0 b1` is the two-byte UTF-8 encoding of a whitespace character
/// (U+0085 next line, U+00A0 no-break space).
pub open spec fn is_two_byte_ws(b0: u8, b1: u8) -> bool {
    b0 == 0xc2 && (b1 == 0x85 || b1 == 0xa0)
}

/// Whether `b0 b1 b2` is the three-byte UTF-8 encoding of a whitespace
/// character (U+1680, U+2000 through U+200A, U+2028, U+2029, U+202F,
/// U+205F, U+3000).
pub open spec fn is_three_byte_ws(b0: u8, b1: u8, b2: u8) -> bool {
    ||| (b0 == 0xe1 && b1 == 0x9a && b2 == 0x80)
    ||| (b0 == 0xe2 && b1 == 0x80 && (0x80 <= b2 && b2 <= 0x8a))
    ||| (b0 == 0xe2 && b1 == 0x80 && (b2 == 0xa8 || b2 == 0xa9 || b2 == 0xaf))
    ||| (b0 == 0xe2 && b1 == 0x81 && b2 == 0x9f)
    ||| (b0 == 0xe3 && b1 == 0x80 && b2 == 0x80)
}

/// The length of the UTF-8 whitespace-character encoding at the start of
/// `s`, or `0` when `s` does not start with one. Every Unicode whitespace
/// character is covered, so decoding a payload leniently and trimming it
/// skips exactly the bytes counted here.
pub open spec fn ws_len(s: Seq<u8>) -> nat {
    if s.len() >= 1 && is_ascii_ws(s[0]) {
        1
    } else if s.len() >= 2 && is_two_byte_ws(s[0], s[1]) {
        2
    } else if s.len() >= 3 && is_three_byte_ws(s[0], s[1], s[2]) {
        3
    } else {
        0
    }
}

/// `s` without its leading whitespace characters.
pub open spec fn trim_start_ws(s: Seq<u8>) -> Seq<u8>
    decreases s.len(),
{
    let k = ws_len(s);
    if k == 0 {
        s
    } else {
        trim_start_ws(s.skip(k as int))
    }
}

/// Which move a single byte selects, reading the byte as the character it
/// encodes. Only ASCII bytes can select a move.
pub open spec fn parse_move_byte(b: u8) -> Option<Move> {
    parse_move_char(b as char)
}

/// Which move an inbound payload selects: decode it as UTF-8 (invalid
/// sequences become replacement characters, which select nothing), trim
/// whitespace, and parse the first remaining character. An empty or
/// unparseable payload selects nothing.
pub open spec fn parse_payload(s: Seq<u8>) -> Option<Move> {
    let t = trim_start_ws(s);
    if t.len() == 0 {
        None
    } else {
        parse_move_byte(t[0])
    }
}

/// Whether `b` is an ASCII whitespace byte.
fn is_ws_byte(b: u8) -> (r: bool)
    ensures
        r == is_ascii_ws(b),
{
    b == 0x09 || b == 0x0a || b == 0x0b || b == 0x0c || b == 0x0d || b == 0x20
}

/// Parse a move from a raw datagram payload: skip leading whitespace and
/// read the first character, case-insensitively. Anything else, including
/// an empty payload, bytes that are not valid UTF-8, and characters other
/// than the six move letters, selects nothing.
pub fn parse_move_payload(payload: &[u8]) -> (r: Option<Move>)
    ensures
        r == parse_payload(payload@),
{
    let n = payload.len();
    let mut i: usize = 0;
    proof {
        assert(payload@.skip(0) =~= payload@);
    }
    loop
        invariant
            i <= n,
            n == payload@.len(),
            trim_start_ws(payload@) == trim_start_ws(payload@.skip(i as int)),
        ensures
            i <= n,
            n == payload@.len(),
            trim_start_ws(payload@) == trim_start_ws(payload@.skip(i as int)),
            ws_len(payload@.skip(i as int)) == 0,
        decreases n - i,
    {
        let rem = n - i;
        let k: usize = if rem >= 1 && is_ws_byte(payload[i]) {
            1
        } else if rem >= 2 && payload[i] == 0xc2 && (payload[i + 1] == 0x85 || payload[i + 1] == 0xa0) {
            2
        } else if rem >= 3 && is_three_byte_ws_exec(payload[i], payload[i + 1], payload[i + 2]) {
            3
        } else {
            0
        };
        proof {
            let suffix = payload@.skip(i as int);
            assert(suffix.len() == n - i);
            if k >= 1 {
                assert(suffix[0] == payload@[i as int]);
            }
            if k >= 2 {
                assert(suffix[1] == payload@[i as int + 1]);
            }
            if k >= 3 {
                assert(suffix[2] == payload@[i as int + 2]);
            }
            assert(ws_len(suffix) == k);
        }
        if k == 0 {
            break;
        }
        proof {
            let suffix = payload@.skip(i as int);
            assert(suffix.skip(k as int) =~= payload@.skip(i as int + k as int));
        }
        i = i + k;
    }
    proof {
        let suffix = payload@.skip(i as int);
        assert(ws_len(suffix) == 0);
        assert(trim_start_ws(suffix) == suffix);
    }
    if i < n {
        proof {
            assert(payload@.skip(i as int)[0] == payload@[i as int]);
        }
        Move::from_char(payload[i] as char)
    } else {
        None
    }
}

/// Whether `b0 b1 b2` encodes a three-byte UTF-8 whitespace character.
fn is_three_byte_ws_exec(b0: u8, b1: u8, b2: u8) -> (r: bool)
    ensures
        r == is_three_byte_ws(b0, b1, b2),
{
    (b0 == 0xe1 && b1 == 0x9a && b2 == 0x80)
        || (b0 == 0xe2 && b1 == 0x80 && (0x80 <= b2 && b2 <= 0x8a))
        || (b0 == 0xe2 && b1 == 0x80 && (b2 == 0xa8 || b2 == 0xa9 || b2 == 0xaf))
        || (b0 == 0xe2 && b1 == 0x81 && b2 == 0x9f)
        || (b0 == 0xe3 && b1 == 0x80 && b2 == 0x80)
}

/// The decimal digit character for a value below ten.
pub open spec fn dec_digit(d: int) -> char {
    if d == 0 {
        '0'
    } else if d == 1 {
        '1'
    } else if d == 2 {
        '2'
    } else if d == 3 {
        '3'
    } else if d == 4 {
        '4'
    } else if d == 5 {
        '5'
    } else if d == 6 {
        '6'
    } else if d == 7 {
        '7'
    } else if d == 8 {
        '8'
    } else {
        '9'
    }
}

/// The decimal representation of `n`, most significant digit first, with no
/// leading zeros except for `n == 0` itself.
pub open spec fn dec_rep(n: nat) -> Seq<char>
    decreases n,
{
    if n < 10 {
        seq![dec_digit(n as int)]
    } else {
        dec_rep(n / 10) + seq![dec_digit((n % 10) as int)]
    }
}

/// The one-character string for a decimal digit.
fn digit_str(d: u64) -> (s: &'static str)
    requires
        d < 10,
    ensures
        s@ == seq![dec_digit(d as int)],
{
    match d {
        0 => {
            proof {
                reveal_strlit("0");
                assert("0"@ =~= seq![dec_digit(0)]);
            }
            "0"
        },
        1 => {
            proof {
                reveal_strlit("1");
                assert("1"@ =~= seq![dec_digit(1)]);
            }
            "1"
        },
        2 => {
            proof {
                reveal_strlit("2");
                assert("2"@ =~= seq![dec_digit(2)]);
            }
            "2"
        },
        3 => {
            proof {
                reveal_strlit("3");
                assert("3"@ =~= seq![dec_digit(3)]);
            }
            "3"
        },
        4 => {
            proof {
                reveal_strlit("4");
                assert("4"@ =~= seq![dec_digit(4)]);
            }
            "4"
        },
        5 => {
            proof {
                reveal_strlit("5");
                assert("5"@ =~= seq![dec_digit(5)]);
            }
            "5"
        },
        6 => {
            proof {
                reveal_strlit("6");
                assert("6"@ =~= seq![dec_digit(6)]);
            }
            "6"
        },
        7 => {
            proof {
                reveal_strlit("7");
                assert("7"@ =~= seq![dec_digit(7)]);
            }
            "7"
        },
        8 => {
            proof {
                reveal_strlit("8");
                assert("8"@ =~= seq![dec_digit(8)]);
            }
            "8"
        },
        _ => {
            proof {
                reveal_strlit("9");
                assert("9"@ =~= seq![dec_digit(9)]);
            }
            "9"
        },
    }
}

/// Render `n` in decimal.
pub fn u64_to_string(n: u64) -> (s: String)
    ensures
        s@ == dec_rep(n as nat),
    decreases n,
{
    if n < 10 {
        digit_str(n).to_owned()
    } else {
        let mut s = u64_to_string(n / 10);
        s.append(digit_str(n % 10));
        proof {
            assert(s@ =~= dec_rep(n as nat));
        }
        s
    }
}

/// The broadcast state line: both current moves, both cumulative scores,
/// the whole seconds left, and, on the terminal broadcast only, the result
/// string after one more separator.
pub open spec fn state_line(
    m1: Move,
    m2: Move,
    s1: u32,
    s2: u32,
    time_left: u64,
    final_msg: Option<Seq<char>>,
) -> Seq<char> {
    "Player 1: "@ + move_name(m1) + ", Player 2: "@ + move_name(m2) + ", SCORES => Player 1: "@
        + dec_rep(s1 as nat) + ", Player 2: "@ + dec_rep(s2 as nat) + " | Time Left: "@
        + dec_rep(time_left as nat) + " sec"@ + (match final_msg {
        None => Seq::<char>::empty(),
        Some(m) => " | "@ + m,
    })
}

/// Render the state line broadcast to both players each tick; pass a result
/// string to render the terminal broadcast instead.
pub fn format_state(
    m1: Move,
    m2: Move,
    s1: u32,
    s2: u32,
    time_left: u64,
    final_msg: Option<&str>,
) -> (r: String)
    ensures
        r@ == state_line(
            m1,
            m2,
            s1,
            s2,
            time_left,
            match final_msg {
                None => None::<Seq<char>>,
                Some(m) => Some(m@),
            },
        ),
{
    let mut s = String::new();
    s.append("Player 1: ");
    s.append(m1.name());
    s.append(", Player 2: ");
    s.append(m2.name());
    s.append(", SCORES => Player 1: ");
    let n1 = u64_to_string(s1 as u64);
    s.append(n1.as_str());
    s.append(", Player 2: ");
    let n2 = u64_to_string(s2 as u64);
    s.append(n2.as_str());
    s.append(" | Time Left: ");
    let nt = u64_to_string(time_left);
    s.append(nt.as_str());
    s.append(" sec");
    if let Some(m) = final_msg {
        s.append(" | ");
        s.append(m);
    }
    proof {
        assert(s@ =~= state_line(
            m1,
            m2,
            s1,
            s2,
            time_left,
            match final_msg {
                None => None::<Seq<char>>,
                Some(m) => Some(m@),
            },
        ));
    }
    s
}

} // verus!
