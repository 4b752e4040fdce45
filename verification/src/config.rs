//! Run-time configuration: the glyph alphabet, the inter-frame delay, bold
//! highlighting, and the per-frame spawn density.

use vstd::prelude::*;
use crate::glyph::CharType;

verus! {

/// Inter-frame delay in milliseconds when none is given on the command line,
/// or when the given one does not parse.
pub const DEFAULT_DELAY: usize = 45;

/// One spawn attempt per frame for every full band of this many columns.
pub const SPAWN_DENSITY: usize = 40;

/// Options distilled from the command line.
#[derive(Clone, Copy, Debug, PartialEq, Eq, Structural)]
pub struct Options {
    pub char_type: CharType,
    pub delay: usize,
    pub bolding: bool,
}

/// Spawn attempts per frame for a terminal of the given width: the width
/// divided by the density band, rounded up.
pub open spec fn spec_spawn_count(width: int) -> int {
    if width % (SPAWN_DENSITY as int) == 0 {
        width / (SPAWN_DENSITY as int)
    } else {
        width / (SPAWN_DENSITY as int) + 1
    }
}

/// Number of spawn attempts for one frame on a terminal of the given width.
pub fn spawn_count(width: usize) -> (n: usize)
    ensures
        n == spec_spawn_count(width as int),
{
    if width % SPAWN_DENSITY == 0 {
        width / SPAWN_DENSITY
    } else {
        width / SPAWN_DENSITY + 1
    }
}

/// Options as the command line determines them: the ascii flag selects the
/// ASCII alphabet over the default katakana, the normal flag switches bold
/// highlighting off, and a missing or unparsable delay falls back to the
/// default.
pub fn options_from_flags(ascii: bool, normal: bool, delay: Option<usize>) -> (o: Options)
    ensures
        o.char_type == (if ascii {
            CharType::Ascii
        } else {
            CharType::Kana
        }),
        o.bolding == !normal,
        o.delay == (match delay {
            Some(d) => d,
            None => DEFAULT_DELAY,
        }),
{
    Options {
        char_type: if ascii {
            CharType::Ascii
        } else {
            CharType::Kana
        },
        bolding: !normal,
        delay: match delay {
            Some(d) => d,
            None => DEFAULT_DELAY,
        },
    }
}

} // verus!
