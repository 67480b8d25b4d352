use vstd::prelude::*;
use vstd::string::StringSliceAdditionalSpecFns;

verus! {

/// An RGB colour, one byte per channel.
#[derive(Clone, Copy, PartialEq, Eq, Structural, Debug)]
pub struct Rgb {
    pub r: u8,
    pub g: u8,
    pub b: u8,
}

/// The bytes of a colour text with every `#` removed, as `"#ff00aa"` and
/// `"ff00aa"` name the same colour.
pub open spec fn stripped(s: Seq<u8>) -> Seq<u8> {
    s.filter(|b: u8| b != 35)
}

/// ASCII hexadecimal digit: `0-9`, `a-f` or `A-F`.
pub open spec fn is_hex_digit(b: u8) -> bool {
    (48 <= b && b <= 57) || (97 <= b && b <= 102) || (65 <= b && b <= 70)
}

/// Numeric value of an ASCII hexadecimal digit.
pub open spec fn hex_value(b: u8) -> u8 {
    if 48 <= b && b <= 57 {
        (b - 48) as u8
    } else if 97 <= b && b <= 102 {
        (b - 87) as u8
    } else if 65 <= b && b <= 70 {
        (b - 55) as u8
    } else {
        0
    }
}

/// A well-formed colour text: after removing `#`, exactly six hexadecimal
/// digits, two per channel.
pub open spec fn valid_hex_color(s: Seq<u8>) -> bool {
    let t = stripped(s);
    &&& t.len() == 6
    &&& is_hex_digit(t[0])
    &&& is_hex_digit(t[1])
    &&& is_hex_digit(t[2])
    &&& is_hex_digit(t[3])
    &&& is_hex_digit(t[4])
    &&& is_hex_digit(t[5])
}

/// The channel value written by two hexadecimal digits, high digit first.
pub open spec fn channel_of(hi: u8, lo: u8) -> u8 {
    (hex_value(hi) * 16 + hex_value(lo)) as u8
}

/// The colour a well-formed colour text names.
pub open spec fn color_of(s: Seq<u8>) -> Rgb {
    let t = stripped(s);
    Rgb { r: channel_of(t[0], t[1]), g: channel_of(t[2], t[3]), b: channel_of(t[4], t[5]) }
}

/// Numeric value of one hexadecimal digit, `None` on any other byte.
fn hex_digit_value(b: u8) -> (res: Option<u8>)
    ensures
        res is Some <==> is_hex_digit(b),
        res matches Some(v) ==> v == hex_value(b) && v < 16,
{
    if 48 <= b && b <= 57 {
        Some(b - 48)
    } else if 97 <= b && b <= 102 {
        Some(b - 87)
    } else if 65 <= b && b <= 70 {
        Some(b - 55)
    } else {
        None
    }
}

/// Parse a colour text such as `"#ff00aa"` into its three channels.
/// Returns `None` exactly on malformed texts.
pub fn parse_hex_color(s: &str) -> (res: Option<Rgb>)
    ensures
        res is Some <==> valid_hex_color(s.spec_bytes()),
        res matches Some(c) ==> c == color_of(s.spec_bytes()),
{
    let bytes: &[u8] = s.as_bytes();
    let n: usize = bytes.len();
    let mut t: Vec<u8> = Vec::new();
    let mut i: usize = 0;
    while i < n
        invariant
            n == bytes@.len(),
            bytes@ == s.spec_bytes(),
            i <= n,
            t@ == stripped(bytes@.take(i as int)),
        decreases n - i,
    {
        let b = bytes[i];
        if b != 35 {
            t.push(b);
        }
        proof {
            reveal(Seq::filter);
            assert(bytes@.take(i + 1).drop_last() =~= bytes@.take(i as int));
            assert(bytes@.take(i + 1).last() == b);
        }
        i += 1;
    }
    proof {
        assert(bytes@.take(n as int) =~= bytes@);
    }
    if t.len() != 6 {
        return None;
    }
    let h0 = match hex_digit_value(t[0]) {
        Some(v) => v,
        None => return None,
    };
    let h1 = match hex_digit_value(t[1]) {
        Some(v) => v,
        None => return None,
    };
    let h2 = match hex_digit_value(t[2]) {
        Some(v) => v,
        None => return None,
    };
    let h3 = match hex_digit_value(t[3]) {
        Some(v) => v,
        None => return None,
    };
    let h4 = match hex_digit_value(t[4]) {
        Some(v) => v,
        None => return None,
    };
    let h5 = match hex_digit_value(t[5]) {
        Some(v) => v,
        None => return None,
    };
    Some(Rgb { r: h0 * 16 + h1, g: h2 * 16 + h3, b: h4 * 16 + h5 })
}

} // verus!
