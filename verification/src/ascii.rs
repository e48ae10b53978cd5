use vstd::arithmetic::div_mod::lemma_div_is_ordered;
use vstd::arithmetic::mul::lemma_mul_inequality;
use vstd::prelude::*;

verus! {

/// Byte of the detailed 70-symbol brightness ramp at position `i`, darkest
/// (space) at 0 through brightest (dollar sign) at 69. Positions outside the
/// ramp read as the brightest byte.
pub open spec fn detailed_ramp_byte(i: int) -> u8 {
    if i == 0 {
        32
    } else if i == 1 {
        46
    } else if i == 2 {
        39
    } else if i == 3 {
        96
    } else if i == 4 {
        94
    } else if i == 5 {
        34
    } else if i == 6 {
        44
    } else if i == 7 {
        58
    } else if i == 8 {
        59
    } else if i == 9 {
        73
    } else if i == 10 {
        108
    } else if i == 11 {
        33
    } else if i == 12 {
        105
    } else if i == 13 {
        62
    } else if i == 14 {
        60
    } else if i == 15 {
        126
    } else if i == 16 {
        43
    } else if i == 17 {
        95
    } else if i == 18 {
        45
    } else if i == 19 {
        63
    } else if i == 20 {
        93
    } else if i == 21 {
        91
    } else if i == 22 {
        125
    } else if i == 23 {
        123
    } else if i == 24 {
        49
    } else if i == 25 {
        41
    } else if i == 26 {
        40
    } else if i == 27 {
        124
    } else if i == 28 {
        92
    } else if i == 29 {
        47
    } else if i == 30 {
        116
    } else if i == 31 {
        102
    } else if i == 32 {
        106
    } else if i == 33 {
        114
    } else if i == 34 {
        120
    } else if i == 35 {
        110
    } else if i == 36 {
        117
    } else if i == 37 {
        118
    } else if i == 38 {
        99
    } else if i == 39 {
        122
    } else if i == 40 {
        88
    } else if i == 41 {
        89
    } else if i == 42 {
        85
    } else if i == 43 {
        74
    } else if i == 44 {
        67
    } else if i == 45 {
        76
    } else if i == 46 {
        81
    } else if i == 47 {
        48
    } else if i == 48 {
        79
    } else if i == 49 {
        90
    } else if i == 50 {
        109
    } else if i == 51 {
        119
    } else if i == 52 {
        113
    } else if i == 53 {
        112
    } else if i == 54 {
        100
    } else if i == 55 {
        98
    } else if i == 56 {
        107
    } else if i == 57 {
        104
    } else if i == 58 {
        97
    } else if i == 59 {
        111
    } else if i == 60 {
        42
    } else if i == 61 {
        35
    } else if i == 62 {
        77
    } else if i == 63 {
        87
    } else if i == 64 {
        38
    } else if i == 65 {
        56
    } else if i == 66 {
        37
    } else if i == 67 {
        66
    } else if i == 68 {
        64
    } else {
        36
    }

}

/// Byte of the simple 10-symbol brightness ramp at position `i`, darkest
/// (space) at 0 through brightest (at sign) at 9. Positions outside the ramp
/// read as the brightest byte.
pub open spec fn simple_ramp_byte(i: int) -> u8 {
    if i == 0 {
        32
    } else if i == 1 {
        46
    } else if i == 2 {
        58
    } else if i == 3 {
        45
    } else if i == 4 {
        61
    } else if i == 5 {
        43
    } else if i == 6 {
        42
    } else if i == 7 {
        35
    } else if i == 8 {
        37
    } else {
        64
    }

}

fn detailed_byte_at(i: u32) -> (b: u8)
    requires
        i <= 69,
    ensures
        b == detailed_ramp_byte(i as int),
{
    match i {
        0 => 32,
        1 => 46,
        2 => 39,
        3 => 96,
        4 => 94,
        5 => 34,
        6 => 44,
        7 => 58,
        8 => 59,
        9 => 73,
        10 => 108,
        11 => 33,
        12 => 105,
        13 => 62,
        14 => 60,
        15 => 126,
        16 => 43,
        17 => 95,
        18 => 45,
        19 => 63,
        20 => 93,
        21 => 91,
        22 => 125,
        23 => 123,
        24 => 49,
        25 => 41,
        26 => 40,
        27 => 124,
        28 => 92,
        29 => 47,
        30 => 116,
        31 => 102,
        32 => 106,
        33 => 114,
        34 => 120,
        35 => 110,
        36 => 117,
        37 => 118,
        38 => 99,
        39 => 122,
        40 => 88,
        41 => 89,
        42 => 85,
        43 => 74,
        44 => 67,
        45 => 76,
        46 => 81,
        47 => 48,
        48 => 79,
        49 => 90,
        50 => 109,
        51 => 119,
        52 => 113,
        53 => 112,
        54 => 100,
        55 => 98,
        56 => 107,
        57 => 104,
        58 => 97,
        59 => 111,
        60 => 42,
        61 => 35,
        62 => 77,
        63 => 87,
        64 => 38,
        65 => 56,
        66 => 37,
        67 => 66,
        68 => 64,
        69 => 36,
        // never reached: i is at most 69
        _ => 32,
    }
}

fn simple_byte_at(i: u32) -> (b: u8)
    requires
        i <= 9,
    ensures
        b == simple_ramp_byte(i as int),
{
    match i {
        0 => 32,
        1 => 46,
        2 => 58,
        3 => 45,
        4 => 61,
        5 => 43,
        6 => 42,
        7 => 35,
        8 => 37,
        9 => 64,
        // never reached: i is at most 9
        _ => 32,
    }
}

/// Number of characters in the chosen ramp.
pub open spec fn ramp_len(use_detailed: bool) -> int {
    if use_detailed {
        70
    } else {
        10
    }
}

/// Ramp position selected for a luminance level: `level * (ramp_len - 1) / 255`
/// with flooring division, so level 0 lands on the first entry and level 255
/// on the last.
pub open spec fn ramp_index(level: int, use_detailed: bool) -> int {
    level * (ramp_len(use_detailed) - 1) / 255
}

/// Ramp byte selected for a luminance level.
pub open spec fn ramp_byte_spec(level: int, use_detailed: bool) -> u8 {
    if use_detailed {
        detailed_ramp_byte(ramp_index(level, true))
    } else {
        simple_ramp_byte(ramp_index(level, false))
    }
}

/// Map a luminance level to the byte of the selected ramp character.
pub fn ramp_byte(level: u8, use_detailed: bool) -> (b: u8)
    ensures
        b == ramp_byte_spec(level as int, use_detailed),
{
    if use_detailed {
        let idx: u32 = (level as u32) * 69 / 255;
        proof {
            lemma_div_is_ordered((level as int) * 69, 17595, 255);
        }
        detailed_byte_at(idx)
    } else {
        let idx: u32 = (level as u32) * 9 / 255;
        proof {
            lemma_div_is_ordered((level as int) * 9, 2295, 255);
        }
        simple_byte_at(idx)
    }
}

/// Map a luminance level (0 darkest, 255 brightest) to a character of the
/// chosen ramp.
pub fn gray_to_ascii(gray: u8, use_detailed: bool) -> (c: char)
    ensures
        c == (ramp_byte_spec(gray as int, use_detailed) as char),
{
    ramp_byte(gray, use_detailed) as char
}

/// The ramp mapping is non-decreasing in brightness: a level that is no
/// brighter never selects a later ramp position, so characters come out in
/// ramp (darkness) order.
pub proof fn lemma_ramp_monotonic(a: u8, b: u8, use_detailed: bool)
    requires
        a <= b,
    ensures
        ramp_index(a as int, use_detailed) <= ramp_index(b as int, use_detailed),
{
    let m = ramp_len(use_detailed) - 1;
    lemma_mul_inequality(a as int, b as int, m);
    lemma_div_is_ordered((a as int) * m, (b as int) * m, 255);
}

/// Level 0 always selects the darkest character (a space on both ramps) and
/// level 255 the brightest (dollar sign on the detailed ramp, at sign on the
/// simple one).
pub proof fn lemma_ramp_endpoints(use_detailed: bool)
    ensures
        ramp_byte_spec(0, use_detailed) == 32,
        ramp_byte_spec(255, true) == 36,
        ramp_byte_spec(255, false) == 64,
{
}

/// Every ramp byte is printable ASCII, in particular below 128.
pub proof fn lemma_ramp_bytes_ascii()
    ensures
        forall|level: int, use_detailed: bool| #[trigger] ramp_byte_spec(level, use_detailed)
            < 128,
{
}

} // verus!
