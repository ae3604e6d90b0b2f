//! Translation between physical header pin numbers and GPIO line numbers
//! for the supported board layout.

use vstd::prelude::*;

verus! {

/// The GPIO line addressed by a physical header pin, if any.
pub open spec fn spec_pin2gpio(pin: i32) -> Option<i32> {
    match pin {
        11 => Some(0i32),
        12 => Some(1i32),
        13 => Some(2i32),
        15 => Some(3i32),
        16 => Some(4i32),
        18 => Some(5i32),
        22 => Some(6i32),
        7 => Some(7i32),
        3 => Some(8i32),
        5 => Some(9i32),
        24 => Some(10i32),
        26 => Some(11i32),
        19 => Some(12i32),
        21 => Some(13i32),
        23 => Some(14i32),
        8 => Some(15i32),
        10 => Some(16i32),
        // GPIO 17 - 20 do not exist
        29 => Some(21i32),
        31 => Some(22i32),
        33 => Some(23i32),
        35 => Some(24i32),
        37 => Some(25i32),
        32 => Some(26i32),
        36 => Some(27i32),
        38 => Some(28i32),
        40 => Some(29i32),
        27 => Some(30i32),
        28 => Some(31i32),
        _ => None,
    }
}

/// The physical header pin carrying a GPIO line, if any.
pub open spec fn spec_gpio2pin(gpio: i32) -> Option<i32> {
    match gpio {
        0 => Some(11i32),
        1 => Some(12i32),
        2 => Some(13i32),
        3 => Some(15i32),
        4 => Some(16i32),
        5 => Some(18i32),
        6 => Some(22i32),
        7 => Some(7i32),
        8 => Some(3i32),
        9 => Some(5i32),
        10 => Some(24i32),
        11 => Some(26i32),
        12 => Some(19i32),
        13 => Some(21i32),
        14 => Some(23i32),
        15 => Some(8i32),
        16 => Some(10i32),
        // GPIO 17 - 20 do not exist
        21 => Some(29i32),
        22 => Some(31i32),
        23 => Some(33i32),
        24 => Some(35i32),
        25 => Some(37i32),
        26 => Some(32i32),
        27 => Some(36i32),
        28 => Some(38i32),
        29 => Some(40i32),
        30 => Some(27i32),
        31 => Some(28i32),
        _ => None,
    }
}

/// Map a physical header pin number to its GPIO line number.
pub fn pin2gpio(pin: i32) -> (r: Option<i32>)
    ensures
        r == spec_pin2gpio(pin),
{
    match pin {
        11 => Some(0),
        12 => Some(1),
        13 => Some(2),
        15 => Some(3),
        16 => Some(4),
        18 => Some(5),
        22 => Some(6),
        7 => Some(7),
        3 => Some(8),
        5 => Some(9),
        24 => Some(10),
        26 => Some(11),
        19 => Some(12),
        21 => Some(13),
        23 => Some(14),
        8 => Some(15),
        10 => Some(16),
        // GPIO 17 - 20 do not exist
        29 => Some(21),
        31 => Some(22),
        33 => Some(23),
        35 => Some(24),
        37 => Some(25),
        32 => Some(26),
        36 => Some(27),
        38 => Some(28),
        40 => Some(29),
        27 => Some(30),
        28 => Some(31),
        _ => None,
    }
}

/// Map a GPIO line number to its physical header pin number.
pub fn gpio2pin(gpio: i32) -> (r: Option<i32>)
    ensures
        r == spec_gpio2pin(gpio),
{
    match gpio {
        0 => Some(11),
        1 => Some(12),
        2 => Some(13),
        3 => Some(15),
        4 => Some(16),
        5 => Some(18),
        6 => Some(22),
        7 => Some(7),
        8 => Some(3),
        9 => Some(5),
        10 => Some(24),
        11 => Some(26),
        12 => Some(19),
        13 => Some(21),
        14 => Some(23),
        15 => Some(8),
        16 => Some(10),
        // GPIO 17 - 20 do not exist
        21 => Some(29),
        22 => Some(31),
        23 => Some(33),
        24 => Some(35),
        25 => Some(37),
        26 => Some(32),
        27 => Some(36),
        28 => Some(38),
        29 => Some(40),
        30 => Some(27),
        31 => Some(28),
        _ => None,
    }
}

/// The two tables are mutual inverses: every GPIO line that has a header
/// pin maps back to itself, and every header pin that carries a GPIO line
/// maps back to itself.
pub proof fn lemma_pinmap_round_trip()
    ensures
        forall|g: i32|
            #[trigger] spec_gpio2pin(g) matches Some(p) ==> spec_pin2gpio(p) == Some(g),
        forall|p: i32|
            #[trigger] spec_pin2gpio(p) matches Some(g) ==> spec_gpio2pin(g) == Some(p),
{
}

} // verus!
