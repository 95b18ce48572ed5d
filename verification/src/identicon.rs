//! Glyph tables for the identicon: the first four bytes of the keyed hash
//! pick, modulo each table's length, a left arm, a body, a right arm and an
//! accessory; the fifth byte picks a color index in 1..=7.

use vstd::prelude::*;

verus! {

/// The left-arm glyph a seed byte selects.
pub open spec fn spec_left_arm(seed_byte: u8) -> Seq<char> {
    let i = seed_byte as int % 4;
    if i == 0 {
        "╔"@
    } else if i == 1 {
        "╚"@
    } else if i == 2 {
        "╰"@
    } else {
        "═"@
    }
}

/// Select the left-arm glyph.
pub fn left_arm_glyph(seed_byte: u8) -> (r: &'static str)
    ensures
        r@ == spec_left_arm(seed_byte),
{
    match seed_byte % 4 {
        0 => "╔",
        1 => "╚",
        2 => "╰",
        _ => "═",
    }
}

/// The right-arm glyph a seed byte selects.
pub open spec fn spec_right_arm(seed_byte: u8) -> Seq<char> {
    let i = seed_byte as int % 4;
    if i == 0 {
        "╗"@
    } else if i == 1 {
        "╝"@
    } else if i == 2 {
        "╯"@
    } else {
        "═"@
    }
}

/// Select the right-arm glyph.
pub fn right_arm_glyph(seed_byte: u8) -> (r: &'static str)
    ensures
        r@ == spec_right_arm(seed_byte),
{
    match seed_byte % 4 {
        0 => "╗",
        1 => "╝",
        2 => "╯",
        _ => "═",
    }
}

/// The body glyph a seed byte selects.
pub open spec fn spec_body(seed_byte: u8) -> Seq<char> {
    let i = seed_byte as int % 6;
    if i == 0 {
        "█"@
    } else if i == 1 {
        "░"@
    } else if i == 2 {
        "▒"@
    } else if i == 3 {
        "▓"@
    } else if i == 4 {
        "☺"@
    } else {
        "☻"@
    }
}

/// Select the body glyph.
pub fn body_glyph(seed_byte: u8) -> (r: &'static str)
    ensures
        r@ == spec_body(seed_byte),
{
    match seed_byte % 6 {
        0 => "█",
        1 => "░",
        2 => "▒",
        3 => "▓",
        4 => "☺",
        _ => "☻",
    }
}

/// The accessory glyph a seed byte selects.
pub open spec fn spec_accessory(seed_byte: u8) -> Seq<char> {
    let i = seed_byte as int % 57;
    if i == 0 {
        "◈"@
    } else if i == 1 {
        "◎"@
    } else if i == 2 {
        "◐"@
    } else if i == 3 {
        "◑"@
    } else if i == 4 {
        "◒"@
    } else if i == 5 {
        "◓"@
    } else if i == 6 {
        "☀"@
    } else if i == 7 {
        "☁"@
    } else if i == 8 {
        "☂"@
    } else if i == 9 {
        "☃"@
    } else if i == 10 {
        ""@
    } else if i == 11 {
        "★"@
    } else if i == 12 {
        "☆"@
    } else if i == 13 {
        "☎"@
    } else if i == 14 {
        "☏"@
    } else if i == 15 {
        "⎈"@
    } else if i == 16 {
        "⌂"@
    } else if i == 17 {
        "☘"@
    } else if i == 18 {
        "☢"@
    } else if i == 19 {
        "☣"@
    } else if i == 20 {
        "☕"@
    } else if i == 21 {
        "⌚"@
    } else if i == 22 {
        "⌛"@
    } else if i == 23 {
        "⏰"@
    } else if i == 24 {
        "⚡"@
    } else if i == 25 {
        "⛄"@
    } else if i == 26 {
        "⛅"@
    } else if i == 27 {
        "☔"@
    } else if i == 28 {
        "♔"@
    } else if i == 29 {
        "♕"@
    } else if i == 30 {
        "♖"@
    } else if i == 31 {
        "♗"@
    } else if i == 32 {
        "♘"@
    } else if i == 33 {
        "♙"@
    } else if i == 34 {
        "♚"@
    } else if i == 35 {
        "♛"@
    } else if i == 36 {
        "♜"@
    } else if i == 37 {
        "♝"@
    } else if i == 38 {
        "♞"@
    } else if i == 39 {
        "♟"@
    } else if i == 40 {
        "♨"@
    } else if i == 41 {
        "♩"@
    } else if i == 42 {
        "♪"@
    } else if i == 43 {
        "♫"@
    } else if i == 44 {
        "⚐"@
    } else if i == 45 {
        "⚑"@
    } else if i == 46 {
        "⚔"@
    } else if i == 47 {
        "⚖"@
    } else if i == 48 {
        "⚙"@
    } else if i == 49 {
        "⚠"@
    } else if i == 50 {
        "⌘"@
    } else if i == 51 {
        "⏎"@
    } else if i == 52 {
        "✄"@
    } else if i == 53 {
        "✆"@
    } else if i == 54 {
        "✈"@
    } else if i == 55 {
        "✉"@
    } else {
        "✌"@
    }
}

/// Select the accessory glyph.
pub fn accessory_glyph(seed_byte: u8) -> (r: &'static str)
    ensures
        r@ == spec_accessory(seed_byte),
{
    match seed_byte % 57 {
        0 => "◈",
        1 => "◎",
        2 => "◐",
        3 => "◑",
        4 => "◒",
        5 => "◓",
        6 => "☀",
        7 => "☁",
        8 => "☂",
        9 => "☃",
        10 => "",
        11 => "★",
        12 => "☆",
        13 => "☎",
        14 => "☏",
        15 => "⎈",
        16 => "⌂",
        17 => "☘",
        18 => "☢",
        19 => "☣",
        20 => "☕",
        21 => "⌚",
        22 => "⌛",
        23 => "⏰",
        24 => "⚡",
        25 => "⛄",
        26 => "⛅",
        27 => "☔",
        28 => "♔",
        29 => "♕",
        30 => "♖",
        31 => "♗",
        32 => "♘",
        33 => "♙",
        34 => "♚",
        35 => "♛",
        36 => "♜",
        37 => "♝",
        38 => "♞",
        39 => "♟",
        40 => "♨",
        41 => "♩",
        42 => "♪",
        43 => "♫",
        44 => "⚐",
        45 => "⚑",
        46 => "⚔",
        47 => "⚖",
        48 => "⚙",
        49 => "⚠",
        50 => "⌘",
        51 => "⏎",
        52 => "✄",
        53 => "✆",
        54 => "✈",
        55 => "✉",
        _ => "✌",
    }
}

/// The color index a seed byte selects: always in 1..=7.
pub open spec fn spec_color(seed_byte: u8) -> u8 {
    (seed_byte % 7 + 1) as u8
}

/// Select the color index.
pub fn color_index(seed_byte: u8) -> (r: u8)
    ensures
        r == spec_color(seed_byte),
        1 <= r <= 7,
{
    seed_byte % 7 + 1
}

} // verus!
