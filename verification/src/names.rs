//! Bidirectional display-name tables for the canonical buttons.
//!
//! The table pairs each of the 28 defined buttons with its display name,
//! in a fixed order. It is pure data for presentation layers and plays no
//! part in decoding.

use vstd::prelude::*;

use crate::buttons::SteamDeckGamepadButton;

verus! {

/// The display name of table entry `i`.
pub open spec fn spec_button_name(i: int) -> Seq<char> {
    if i == 0 {
        "R1"@
    } else if i == 1 {
        "R2"@
    } else if i == 2 {
        "R4"@
    } else if i == 3 {
        "R5"@
    } else if i == 4 {
        "L1"@
    } else if i == 5 {
        "L2"@
    } else if i == 6 {
        "L4"@
    } else if i == 7 {
        "L5"@
    } else if i == 8 {
        "North (Y)"@
    } else if i == 9 {
        "South (A)"@
    } else if i == 10 {
        "East (B)"@
    } else if i == 11 {
        "West (X)"@
    } else if i == 12 {
        "DPad-Up"@
    } else if i == 13 {
        "DPad-Down"@
    } else if i == 14 {
        "DPad-Left"@
    } else if i == 15 {
        "DPad-Right"@
    } else if i == 16 {
        "Start"@
    } else if i == 17 {
        "Select"@
    } else if i == 18 {
        "RStick"@
    } else if i == 19 {
        "LStick"@
    } else if i == 20 {
        "Steam"@
    } else if i == 21 {
        "QAM"@
    } else if i == 22 {
        "RStick (Touch)"@
    } else if i == 23 {
        "LStick (Touch)"@
    } else if i == 24 {
        "RPad"@
    } else if i == 25 {
        "LPad"@
    } else if i == 26 {
        "RPad (Touch)"@
    } else {
        "LPad (Touch)"@
    }
}

/// The canonical button flag of table entry `i`.
pub open spec fn spec_button_flag(i: int) -> u32 {
    if i == 0 {
        SteamDeckGamepadButton::R1
    } else if i == 1 {
        SteamDeckGamepadButton::R2
    } else if i == 2 {
        SteamDeckGamepadButton::R4
    } else if i == 3 {
        SteamDeckGamepadButton::R5
    } else if i == 4 {
        SteamDeckGamepadButton::L1
    } else if i == 5 {
        SteamDeckGamepadButton::L2
    } else if i == 6 {
        SteamDeckGamepadButton::L4
    } else if i == 7 {
        SteamDeckGamepadButton::L5
    } else if i == 8 {
        SteamDeckGamepadButton::NORTH
    } else if i == 9 {
        SteamDeckGamepadButton::SOUTH
    } else if i == 10 {
        SteamDeckGamepadButton::EAST
    } else if i == 11 {
        SteamDeckGamepadButton::WEST
    } else if i == 12 {
        SteamDeckGamepadButton::DPAD_UP
    } else if i == 13 {
        SteamDeckGamepadButton::DPAD_DOWN
    } else if i == 14 {
        SteamDeckGamepadButton::DPAD_LEFT
    } else if i == 15 {
        SteamDeckGamepadButton::DPAD_RIGHT
    } else if i == 16 {
        SteamDeckGamepadButton::START
    } else if i == 17 {
        SteamDeckGamepadButton::SELECT
    } else if i == 18 {
        SteamDeckGamepadButton::RSTICK
    } else if i == 19 {
        SteamDeckGamepadButton::LSTICK
    } else if i == 20 {
        SteamDeckGamepadButton::STEAM
    } else if i == 21 {
        SteamDeckGamepadButton::QAM
    } else if i == 22 {
        SteamDeckGamepadButton::RSTICK_TOUCH
    } else if i == 23 {
        SteamDeckGamepadButton::LSTICK_TOUCH
    } else if i == 24 {
        SteamDeckGamepadButton::RPAD
    } else if i == 25 {
        SteamDeckGamepadButton::LPAD
    } else if i == 26 {
        SteamDeckGamepadButton::RPAD_TOUCH
    } else {
        SteamDeckGamepadButton::LPAD_TOUCH
    }
}

/// The whole name table as a sequence of (name, flag) pairs.
pub open spec fn spec_name_table() -> Seq<(Seq<char>, u32)> {
    Seq::new(28, |i: int| (spec_button_name(i), spec_button_flag(i)))
}

/// First table entry at or after `i` whose name is `name`, as its flag.
pub open spec fn spec_lookup_flag_from(i: int, name: Seq<char>) -> Option<u32>
    decreases 28 - i,
{
    if i < 0 || i >= 28 {
        None
    } else if spec_button_name(i) == name {
        Some(spec_button_flag(i))
    } else {
        spec_lookup_flag_from(i + 1, name)
    }
}

/// The flag a display name stands for, if any.
pub open spec fn spec_name_to_flag(name: Seq<char>) -> Option<u32> {
    spec_lookup_flag_from(0, name)
}

/// First table entry at or after `i` whose flag is `flag`, as its name.
pub open spec fn spec_lookup_name_from(i: int, flag: u32) -> Option<Seq<char>>
    decreases 28 - i,
{
    if i < 0 || i >= 28 {
        None
    } else if spec_button_flag(i) == flag {
        Some(spec_button_name(i))
    } else {
        spec_lookup_name_from(i + 1, flag)
    }
}

/// The display name of a flag, if any.
pub open spec fn spec_flag_to_name(flag: u32) -> Option<Seq<char>> {
    spec_lookup_name_from(0, flag)
}

/// No two table entries share a display name.
#[verifier::rlimit(100)]
proof fn lemma_names_distinct()
    ensures
        forall|m: int, j: int|
            0 <= m < 28 && 0 <= j < 28 && m != j ==> spec_button_name(m) != spec_button_name(j),
{
    reveal_strlit("R1");
    reveal_strlit("R2");
    reveal_strlit("R4");
    reveal_strlit("R5");
    reveal_strlit("L1");
    reveal_strlit("L2");
    reveal_strlit("L4");
    reveal_strlit("L5");
    reveal_strlit("North (Y)");
    reveal_strlit("South (A)");
    reveal_strlit("East (B)");
    reveal_strlit("West (X)");
    reveal_strlit("DPad-Up");
    reveal_strlit("DPad-Down");
    reveal_strlit("DPad-Left");
    reveal_strlit("DPad-Right");
    reveal_strlit("Start");
    reveal_strlit("Select");
    reveal_strlit("RStick");
    reveal_strlit("LStick");
    reveal_strlit("Steam");
    reveal_strlit("QAM");
    reveal_strlit("RStick (Touch)");
    reveal_strlit("LStick (Touch)");
    reveal_strlit("RPad");
    reveal_strlit("LPad");
    reveal_strlit("RPad (Touch)");
    reveal_strlit("LPad (Touch)");
    assert("R1"@.len() == 2 && "R1"@[0] == 'R' && "R1"@[1] == '1');
    assert("R2"@.len() == 2 && "R2"@[0] == 'R' && "R2"@[1] == '2');
    assert("R4"@.len() == 2 && "R4"@[0] == 'R' && "R4"@[1] == '4');
    assert("R5"@.len() == 2 && "R5"@[0] == 'R' && "R5"@[1] == '5');
    assert("L1"@.len() == 2 && "L1"@[0] == 'L' && "L1"@[1] == '1');
    assert("L2"@.len() == 2 && "L2"@[0] == 'L' && "L2"@[1] == '2');
    assert("L4"@.len() == 2 && "L4"@[0] == 'L' && "L4"@[1] == '4');
    assert("L5"@.len() == 2 && "L5"@[0] == 'L' && "L5"@[1] == '5');
    assert("North (Y)"@.len() == 9 && "North (Y)"@[0] == 'N' && "North (Y)"@[1] == 'o');
    assert("South (A)"@.len() == 9 && "South (A)"@[0] == 'S' && "South (A)"@[1] == 'o');
    assert("East (B)"@.len() == 8 && "East (B)"@[0] == 'E' && "East (B)"@[1] == 'a');
    assert("West (X)"@.len() == 8 && "West (X)"@[0] == 'W' && "West (X)"@[1] == 'e');
    assert("DPad-Up"@.len() == 7 && "DPad-Up"@[0] == 'D' && "DPad-Up"@[1] == 'P');
    assert("DPad-Down"@.len() == 9 && "DPad-Down"@[0] == 'D' && "DPad-Down"@[1] == 'P');
    assert("DPad-Left"@.len() == 9 && "DPad-Left"@[0] == 'D' && "DPad-Left"@[1] == 'P');
    assert("DPad-Right"@.len() == 10 && "DPad-Right"@[0] == 'D' && "DPad-Right"@[1] == 'P');
    assert("Start"@.len() == 5 && "Start"@[0] == 'S' && "Start"@[1] == 't');
    assert("Select"@.len() == 6 && "Select"@[0] == 'S' && "Select"@[1] == 'e');
    assert("RStick"@.len() == 6 && "RStick"@[0] == 'R' && "RStick"@[1] == 'S');
    assert("LStick"@.len() == 6 && "LStick"@[0] == 'L' && "LStick"@[1] == 'S');
    assert("Steam"@.len() == 5 && "Steam"@[0] == 'S' && "Steam"@[1] == 't');
    assert("QAM"@.len() == 3 && "QAM"@[0] == 'Q' && "QAM"@[1] == 'A');
    assert("RStick (Touch)"@.len() == 14 && "RStick (Touch)"@[0] == 'R' && "RStick (Touch)"@[1] == 'S');
    assert("LStick (Touch)"@.len() == 14 && "LStick (Touch)"@[0] == 'L' && "LStick (Touch)"@[1] == 'S');
    assert("RPad"@.len() == 4 && "RPad"@[0] == 'R' && "RPad"@[1] == 'P');
    assert("LPad"@.len() == 4 && "LPad"@[0] == 'L' && "LPad"@[1] == 'P');
    assert("RPad (Touch)"@.len() == 12 && "RPad (Touch)"@[0] == 'R' && "RPad (Touch)"@[1] == 'P');
    assert("LPad (Touch)"@.len() == 12 && "LPad (Touch)"@[0] == 'L' && "LPad (Touch)"@[1] == 'P');
    assert("Start"@[2] == 'a' && "Steam"@[2] == 'e');
    assert("DPad-Down"@[5] == 'D' && "DPad-Left"@[5] == 'L');
}

/// The numeric value of each button-flag constant.
proof fn lemma_flag_values()
    ensures
        (1u32 << 1) == 0x2u32,
        (1u32 << 2) == 0x4u32,
        (1u32 << 3) == 0x8u32,
        (1u32 << 4) == 0x10u32,
        (1u32 << 5) == 0x20u32,
        (1u32 << 6) == 0x40u32,
        (1u32 << 7) == 0x80u32,
        (1u32 << 8) == 0x100u32,
        (1u32 << 9) == 0x200u32,
        (1u32 << 10) == 0x400u32,
        (1u32 << 11) == 0x800u32,
        (1u32 << 12) == 0x1000u32,
        (1u32 << 13) == 0x2000u32,
        (1u32 << 14) == 0x4000u32,
        (1u32 << 15) == 0x8000u32,
        (1u32 << 16) == 0x10000u32,
        (1u32 << 17) == 0x20000u32,
        (1u32 << 18) == 0x40000u32,
        (1u32 << 19) == 0x80000u32,
        (1u32 << 20) == 0x100000u32,
        (1u32 << 21) == 0x200000u32,
        (1u32 << 22) == 0x400000u32,
        (1u32 << 23) == 0x800000u32,
        (1u32 << 24) == 0x1000000u32,
        (1u32 << 25) == 0x2000000u32,
        (1u32 << 26) == 0x4000000u32,
        (1u32 << 27) == 0x8000000u32,
{
    assert((1u32 << 1) == 0x2u32 && (1u32 << 2) == 0x4u32 && (1u32 << 3) == 0x8u32 && (1u32 << 4)
        == 0x10u32 && (1u32 << 5) == 0x20u32 && (1u32 << 6) == 0x40u32 && (1u32 << 7) == 0x80u32 && (
    1u32 << 8) == 0x100u32 && (1u32 << 9) == 0x200u32 && (1u32 << 10) == 0x400u32 && (1u32 << 11)
        == 0x800u32 && (1u32 << 12) == 0x1000u32 && (1u32 << 13) == 0x2000u32 && (1u32 << 14)
        == 0x4000u32 && (1u32 << 15) == 0x8000u32 && (1u32 << 16) == 0x10000u32 && (1u32 << 17)
        == 0x20000u32 && (1u32 << 18) == 0x40000u32 && (1u32 << 19) == 0x80000u32 && (1u32 << 20)
        == 0x100000u32 && (1u32 << 21) == 0x200000u32 && (1u32 << 22) == 0x400000u32 && (1u32 << 23)
        == 0x800000u32 && (1u32 << 24) == 0x1000000u32 && (1u32 << 25) == 0x2000000u32 && (1u32
        << 26) == 0x4000000u32 && (1u32 << 27) == 0x8000000u32) by (bit_vector);
}

/// No two table entries share a flag.
proof fn lemma_flags_distinct()
    ensures
        forall|m: int, j: int|
            0 <= m < 28 && 0 <= j < 28 && m != j ==> spec_button_flag(m) != spec_button_flag(j),
{
    lemma_flag_values();
}

/// Looking a name up from position `i` finds entry `j` when no entry
/// between them holds the same name.
proof fn lemma_lookup_flag_hits(i: int, j: int)
    requires
        0 <= i <= j < 28,
        forall|m: int| i <= m < j ==> spec_button_name(m) != spec_button_name(j),
    ensures
        spec_lookup_flag_from(i, spec_button_name(j)) == Some(spec_button_flag(j)),
    decreases j - i,
{
    if i < j {
        lemma_lookup_flag_hits(i + 1, j);
    }
}

/// Looking a flag up from position `i` finds entry `j` when no entry
/// between them holds the same flag.
proof fn lemma_lookup_name_hits(i: int, j: int)
    requires
        0 <= i <= j < 28,
        forall|m: int| i <= m < j ==> spec_button_flag(m) != spec_button_flag(j),
    ensures
        spec_lookup_name_from(i, spec_button_flag(j)) == Some(spec_button_name(j)),
    decreases j - i,
{
    if i < j {
        lemma_lookup_name_hits(i + 1, j);
    }
}

/// The name table round-trips: each defined button's name leads back to the
/// button, and each button's name is found from the button. The table has
/// exactly one entry per defined bit, 28 in all, with no name and no flag
/// repeated, and every flag is a single defined button bit.
pub proof fn lemma_name_table_round_trip()
    ensures
        spec_name_table().len() == 28,
        forall|i: int, j: int|
            0 <= i < 28 && 0 <= j < 28 && i != j ==> spec_name_table()[i].0
                != spec_name_table()[j].0,
        forall|i: int, j: int|
            0 <= i < 28 && 0 <= j < 28 && i != j ==> spec_name_table()[i].1
                != spec_name_table()[j].1,
        forall|i: int|
            0 <= i < 28 ==> spec_name_to_flag(#[trigger] spec_name_table()[i].0) == Some(
                spec_name_table()[i].1,
            ),
        forall|i: int|
            0 <= i < 28 ==> spec_flag_to_name(#[trigger] spec_name_table()[i].1) == Some(
                spec_name_table()[i].0,
            ),
        forall|i: int|
            0 <= i < 28 ==> crate::v1::spec_single_flag(#[trigger] spec_name_table()[i].1),
{
    lemma_names_distinct();
    lemma_flags_distinct();
    assert forall|i: int| 0 <= i < 28 implies spec_name_to_flag(
        #[trigger] spec_name_table()[i].0,
    ) == Some(spec_name_table()[i].1) by {
        lemma_lookup_flag_hits(0, i);
    }
    assert forall|i: int| 0 <= i < 28 implies spec_flag_to_name(
        #[trigger] spec_name_table()[i].1,
    ) == Some(spec_name_table()[i].0) by {
        lemma_lookup_name_hits(0, i);
    }
    assert forall|i: int| 0 <= i < 28 implies crate::v1::spec_single_flag(
        #[trigger] spec_name_table()[i].1,
    ) by {
        let f = spec_button_flag(i);
        assert(crate::v1::spec_single_flag(f)) by (bit_vector)
            requires
                f == 1u32 || f == 1u32 << 1 || f == 1u32 << 2 || f == 1u32 << 3 || f == 1u32 << 4
                    || f == 1u32 << 5 || f == 1u32 << 6 || f == 1u32 << 7 || f == 1u32 << 8 || f
                    == 1u32 << 9 || f == 1u32 << 10 || f == 1u32 << 11 || f == 1u32 << 12 || f
                    == 1u32 << 13 || f == 1u32 << 14 || f == 1u32 << 15 || f == 1u32 << 16 || f
                    == 1u32 << 17 || f == 1u32 << 18 || f == 1u32 << 19 || f == 1u32 << 20 || f
                    == 1u32 << 21 || f == 1u32 << 22 || f == 1u32 << 23 || f == 1u32 << 24 || f
                    == 1u32 << 25 || f == 1u32 << 26 || f == 1u32 << 27,
        ;
    }
}

/// The defined button bits together fill exactly the 28-bit mask of the
/// canonical button set.
pub proof fn lemma_flags_fill_all_bits()
    ensures
        SteamDeckGamepadButton::R1 | SteamDeckGamepadButton::R2 | SteamDeckGamepadButton::L1
            | SteamDeckGamepadButton::L2 | SteamDeckGamepadButton::NORTH
            | SteamDeckGamepadButton::EAST | SteamDeckGamepadButton::WEST
            | SteamDeckGamepadButton::SOUTH | SteamDeckGamepadButton::DPAD_UP
            | SteamDeckGamepadButton::DPAD_RIGHT | SteamDeckGamepadButton::DPAD_LEFT
            | SteamDeckGamepadButton::DPAD_DOWN | SteamDeckGamepadButton::START
            | SteamDeckGamepadButton::SELECT | SteamDeckGamepadButton::RSTICK
            | SteamDeckGamepadButton::LSTICK | SteamDeckGamepadButton::STEAM
            | SteamDeckGamepadButton::QAM | SteamDeckGamepadButton::R4
            | SteamDeckGamepadButton::R5 | SteamDeckGamepadButton::L4
            | SteamDeckGamepadButton::L5 | SteamDeckGamepadButton::RSTICK_TOUCH
            | SteamDeckGamepadButton::LSTICK_TOUCH | SteamDeckGamepadButton::LPAD
            | SteamDeckGamepadButton::RPAD | SteamDeckGamepadButton::LPAD_TOUCH
            | SteamDeckGamepadButton::RPAD_TOUCH == SteamDeckGamepadButton::ALL_BITS,
{
    assert((1u32) | (1u32 << 1) | (1u32 << 2) | (1u32 << 3) | (1u32 << 4) | (1u32 << 5) | (1u32
        << 6) | (1u32 << 7) | (1u32 << 8) | (1u32 << 9) | (1u32 << 10) | (1u32 << 11) | (1u32 << 12)
        | (1u32 << 13) | (1u32 << 14) | (1u32 << 15) | (1u32 << 16) | (1u32 << 17) | (1u32 << 18)
        | (1u32 << 19) | (1u32 << 20) | (1u32 << 21) | (1u32 << 22) | (1u32 << 23) | (1u32 << 24)
        | (1u32 << 25) | (1u32 << 26) | (1u32 << 27) == 0x0FFF_FFFFu32) by (bit_vector);
}

impl SteamDeckGamepadButton {
    /// The display-name table as name-to-flag pairs, one entry per defined
    /// button, in the table's fixed order.
    pub fn display_name_to_value() -> (t: Vec<(String, SteamDeckGamepadButton)>)
        ensures
            t@.len() == spec_name_table().len(),
            forall|i: int|
                0 <= i < 28 ==> (#[trigger] t@[i]).0@ == spec_name_table()[i].0 && t@[i].1.bits
                    == spec_name_table()[i].1,
    {
        let mut t: Vec<(String, SteamDeckGamepadButton)> = Vec::new();
        t.push(("R1".to_owned(), SteamDeckGamepadButton::from_bits(SteamDeckGamepadButton::R1)));
        t.push(("R2".to_owned(), SteamDeckGamepadButton::from_bits(SteamDeckGamepadButton::R2)));
        t.push(("R4".to_owned(), SteamDeckGamepadButton::from_bits(SteamDeckGamepadButton::R4)));
        t.push(("R5".to_owned(), SteamDeckGamepadButton::from_bits(SteamDeckGamepadButton::R5)));
        t.push(("L1".to_owned(), SteamDeckGamepadButton::from_bits(SteamDeckGamepadButton::L1)));
        t.push(("L2".to_owned(), SteamDeckGamepadButton::from_bits(SteamDeckGamepadButton::L2)));
        t.push(("L4".to_owned(), SteamDeckGamepadButton::from_bits(SteamDeckGamepadButton::L4)));
        t.push(("L5".to_owned(), SteamDeckGamepadButton::from_bits(SteamDeckGamepadButton::L5)));
        t.push(
            (
                "North (Y)".to_owned(),
                SteamDeckGamepadButton::from_bits(SteamDeckGamepadButton::NORTH),
            ),
        );
        t.push(
            (
                "South (A)".to_owned(),
                SteamDeckGamepadButton::from_bits(SteamDeckGamepadButton::SOUTH),
            ),
        );
        t.push(
            (
                "East (B)".to_owned(),
                SteamDeckGamepadButton::from_bits(SteamDeckGamepadButton::EAST),
            ),
        );
        t.push(
            (
                "West (X)".to_owned(),
                SteamDeckGamepadButton::from_bits(SteamDeckGamepadButton::WEST),
            ),
        );
        t.push(
            (
                "DPad-Up".to_owned(),
                SteamDeckGamepadButton::from_bits(SteamDeckGamepadButton::DPAD_UP),
            ),
        );
        t.push(
            (
                "DPad-Down".to_owned(),
                SteamDeckGamepadButton::from_bits(SteamDeckGamepadButton::DPAD_DOWN),
            ),
        );
        t.push(
            (
                "DPad-Left".to_owned(),
                SteamDeckGamepadButton::from_bits(SteamDeckGamepadButton::DPAD_LEFT),
            ),
        );
        t.push(
            (
                "DPad-Right".to_owned(),
                SteamDeckGamepadButton::from_bits(SteamDeckGamepadButton::DPAD_RIGHT),
            ),
        );
        t.push(
            ("Start".to_owned(), SteamDeckGamepadButton::from_bits(SteamDeckGamepadButton::START)),
        );
        t.push(
            (
                "Select".to_owned(),
                SteamDeckGamepadButton::from_bits(SteamDeckGamepadButton::SELECT),
            ),
        );
        t.push(
            (
                "RStick".to_owned(),
                SteamDeckGamepadButton::from_bits(SteamDeckGamepadButton::RSTICK),
            ),
        );
        t.push(
            (
                "LStick".to_owned(),
                SteamDeckGamepadButton::from_bits(SteamDeckGamepadButton::LSTICK),
            ),
        );
        t.push(
            ("Steam".to_owned(), SteamDeckGamepadButton::from_bits(SteamDeckGamepadButton::STEAM)),
        );
        t.push(
            ("QAM".to_owned(), SteamDeckGamepadButton::from_bits(SteamDeckGamepadButton::QAM)),
        );
        t.push(
            (
                "RStick (Touch)".to_owned(),
                SteamDeckGamepadButton::from_bits(SteamDeckGamepadButton::RSTICK_TOUCH),
            ),
        );
        t.push(
            (
                "LStick (Touch)".to_owned(),
                SteamDeckGamepadButton::from_bits(SteamDeckGamepadButton::LSTICK_TOUCH),
            ),
        );
        t.push(
            ("RPad".to_owned(), SteamDeckGamepadButton::from_bits(SteamDeckGamepadButton::RPAD)),
        );
        t.push(
            ("LPad".to_owned(), SteamDeckGamepadButton::from_bits(SteamDeckGamepadButton::LPAD)),
        );
        t.push(
            (
                "RPad (Touch)".to_owned(),
                SteamDeckGamepadButton::from_bits(SteamDeckGamepadButton::RPAD_TOUCH),
            ),
        );
        t.push(
            (
                "LPad (Touch)".to_owned(),
                SteamDeckGamepadButton::from_bits(SteamDeckGamepadButton::LPAD_TOUCH),
            ),
        );
        t
    }

    /// The display-name table as flag-to-name pairs, one entry per defined
    /// button, in the table's fixed order.
    pub fn value_to_display_name() -> (t: Vec<(SteamDeckGamepadButton, String)>)
        ensures
            t@.len() == spec_name_table().len(),
            forall|i: int|
                0 <= i < 28 ==> (#[trigger] t@[i]).0.bits == spec_name_table()[i].1 && t@[i].1@
                    == spec_name_table()[i].0,
    {
        let named = Self::display_name_to_value();
        let mut t: Vec<(SteamDeckGamepadButton, String)> = Vec::new();
        let mut i: usize = 0;
        while i < named.len()
            invariant
                named@.len() == spec_name_table().len(),
                forall|j: int|
                    0 <= j < 28 ==> (#[trigger] named@[j]).0@ == spec_name_table()[j].0
                        && named@[j].1.bits == spec_name_table()[j].1,
                i <= named.len(),
                t@.len() == i,
                forall|j: int|
                    0 <= j < i ==> (#[trigger] t@[j]).0.bits == spec_name_table()[j].1 && t@[j].1@
                        == spec_name_table()[j].0,
            decreases named.len() - i,
        {
            let (name, flag) = &named[i];
            t.push((*flag, name.clone()));
            i = i + 1;
        }
        t
    }
}



} // verus!
