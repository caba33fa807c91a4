//! The two fixed character ramps. A ramp is ordered from the visually
//! heaviest glyph at index 0 down to a space at the last index, so a ramp
//! index is an "ink density" rank: lower index, darker glyph.

use vstd::prelude::*;

verus! {

/// The fine-grained ramp, selected by the density flag.
pub open spec fn dense_ramp() -> Seq<char> {
    seq![
        '@', '&', '%', 'Q', 'W', 'N', '0', 'g', 'B', '$', 'D', '8', 'm', 'H', 'X', 'K', 'A', 'U',
        'b', 'G', 'O', 'p', 'V', '4', 'd', '9', 'h', '6', 'P', 'k', 'y', 'q', 'w', 'S', 'E', '2',
        ']', 'a', 'y', 'j', 'x', 'Y', '5', 'Z', 'e', 'o', '[', 'n', 'u', 'l', 't', '1', '3', 'I',
        'f', '}', 'C', '{', 'i', 'F', '|', '(', '7', 'J', ')', 'v', 'T', 'L', 's', '?', 'z', '/',
        '*', 'c', 'r', '!', '+', '>', '<', ';', '=', '^', ',', '\'', ':', '-', '.', ' ',
    ]
}

/// The coarse ramp, the default.
pub open spec fn sparse_ramp() -> Seq<char> {
    seq![
        '@', '&', '%', 'Q', '$', 'w', 'u', 's', 'v', '*', '+', '=', '^', ',', '\'', ':', '-', '.',
        ' ',
    ]
}

/// The ramp that a density flag selects.
pub open spec fn ramp_spec(dense: bool) -> Seq<char> {
    if dense {
        dense_ramp()
    } else {
        sparse_ramp()
    }
}

/// Both ramps are nonempty, start at the heaviest glyph and end in a space.
pub proof fn lemma_ramp_shape(dense: bool)
    ensures
        ramp_spec(dense).len() >= 1,
        ramp_spec(dense).first() == '@',
        ramp_spec(dense).last() == ' ',
{
}

/// Returns the character ramp that the density flag selects.
pub fn get_ascii_chars(dense: bool) -> (r: Vec<char>)
    ensures
        r@ == ramp_spec(dense),
        r@.len() >= 1,
{
    let r: Vec<char> = if dense {
        vec![
            '@', '&', '%', 'Q', 'W', 'N', '0', 'g', 'B', '$', 'D', '8', 'm', 'H', 'X', 'K', 'A',
            'U', 'b', 'G', 'O', 'p', 'V', '4', 'd', '9', 'h', '6', 'P', 'k', 'y', 'q', 'w', 'S',
            'E', '2', ']', 'a', 'y', 'j', 'x', 'Y', '5', 'Z', 'e', 'o', '[', 'n', 'u', 'l', 't',
            '1', '3', 'I', 'f', '}', 'C', '{', 'i', 'F', '|', '(', '7', 'J', ')', 'v', 'T', 'L',
            's', '?', 'z', '/', '*', 'c', 'r', '!', '+', '>', '<', ';', '=', '^', ',', '\'', ':',
            '-', '.', ' ',
        ]
    } else {
        vec![
            '@', '&', '%', 'Q', '$', 'w', 'u', 's', 'v', '*', '+', '=', '^', ',', '\'', ':', '-',
            '.', ' ',
        ]
    };
    proof {
        if dense {
            assert(r@ =~= dense_ramp());
        } else {
            assert(r@ =~= sparse_ramp());
        }
    }
    r
}

} // verus!
