//! A single falling stream: a fixed column, a leading edge that moves down one
//! row per frame, and a trail of fixed length that is erased behind it.

use vstd::prelude::*;

verus! {

/// Rolls below this limit put a bold highlight on the cell behind the leader;
/// rolls are drawn uniformly from `0..256`, so roughly 23% of frames bold it.
pub const BOLD_ROLL_LIMIT: u8 = 60;

/// One falling column of glyphs: a fixed column `x`, the leading edge row `y`,
/// the trail length `len`, and whether any part of it is still on screen.
#[derive(Clone, Copy, Debug, PartialEq, Eq, Structural)]
pub struct TextStream {
    pub x: usize,
    pub y: usize,
    pub len: usize,
    pub alive: bool,
}

/// The restyling of the cell one row above the leader: the row it stands on,
/// and whether it gets bold weight on top of the trail color this frame.
#[derive(Clone, Copy, Debug, PartialEq)]
pub struct Restyle {
    pub y: usize,
    pub bold: bool,
}

/// The cell writes that one frame step of a single stream asks of the
/// terminal: a fresh leader glyph, the restyled cell just above the leader
/// when the leader has left the top row, and possibly one trail cell to
/// clear.
#[derive(Clone, Copy, Debug, PartialEq)]
pub struct RenderStep {
    /// Column of every cell this step touches.
    pub x: usize,
    /// Row of the freshly drawn leader glyph.
    pub leader_y: usize,
    /// The glyph to draw at the leader cell.
    pub glyph: char,
    /// The cell above the leader, restyled to the trail color; absent while
    /// the leader still stands on the top row.
    pub above: Option<Restyle>,
    /// Row of the trail cell to blank out, once the trail is fully grown.
    pub clear_y: Option<usize>,
}

/// Row of the visible tail end: `y - len`, saturating at zero.
pub open spec fn spec_tail_at(y: int, len: int) -> int {
    if y >= len {
        y - len
    } else {
        0
    }
}

/// Row of the visible tail end of a stream.
pub open spec fn spec_tail(s: TextStream) -> int {
    spec_tail_at(s.y as int, s.len as int)
}

/// The stream after one surviving frame: the leading edge one row further
/// down, and dead exactly when the tail end has scrolled past the bottom row.
pub open spec fn spec_advanced(s: TextStream, height: usize) -> TextStream {
    TextStream {
        x: s.x,
        y: (s.y + 1) as usize,
        len: s.len,
        alive: spec_tail_at(s.y + 1, s.len as int) <= height,
    }
}

/// The cell writes a live stream at `s` produces this frame, given the drawn
/// glyph and the bold roll. The cell above the leader is restyled only when
/// the leader has a row above it, that is when `y` is at least 1.
pub open spec fn spec_step(s: TextStream, glyph: char, roll: u8, bolding: bool) -> RenderStep {
    RenderStep {
        x: s.x,
        leader_y: s.y,
        glyph: glyph,
        above: if s.y >= 1 {
            Some(Restyle { y: (s.y - 1) as usize, bold: roll < BOLD_ROLL_LIMIT && bolding })
        } else {
            None
        },
        clear_y: if s.y >= s.len {
            Some((s.y - s.len) as usize)
        } else {
            None
        },
    }
}

/// A surviving frame moves the leading edge down exactly one row — it never
/// stands still and never moves back up — and leaves column and trail length
/// untouched.
pub proof fn lemma_advance_row(s: TextStream, height: usize)
    requires
        s.y < usize::MAX,
    ensures
        spec_advanced(s, height).y == s.y + 1,
        spec_advanced(s, height).x == s.x,
        spec_advanced(s, height).len == s.len,
{
}

/// After a frame a stream is alive exactly when its tail end — the leading
/// row minus the trail length, saturating at zero — has not passed the bottom
/// row of the terminal.
pub proof fn lemma_advance_alive(s: TextStream, height: usize)
    requires
        s.y < usize::MAX,
    ensures
        spec_advanced(s, height).alive <==> spec_tail(spec_advanced(s, height)) <= height,
{
}

impl TextStream {
    /// A fresh stream at column `x` with trail length `len`, its leading edge
    /// on the top row.
    pub fn new(x: usize, len: usize) -> (s: TextStream)
        ensures
            s == (TextStream { x, y: 0, len, alive: true }),
    {
        TextStream { x, y: 0, len, alive: true }
    }

    /// Advance this stream by one frame. A live stream moves its leading edge
    /// down exactly one row, reports the cell writes for the frame, and dies
    /// exactly when its tail end passes the bottom row; a dead stream is left
    /// untouched and renders nothing.
    pub fn advance(&mut self, height: usize, glyph: char, roll: u8, bolding: bool) -> (step: Option<
        RenderStep,
    >)
        requires
            old(self).y < usize::MAX,
        ensures
            !old(self).alive ==> *final(self) == *old(self) && step is None,
            old(self).alive ==> *final(self) == spec_advanced(*old(self), height),
            old(self).alive ==> step == Some(spec_step(*old(self), glyph, roll, bolding)),
    {
        if !self.alive {
            return None;
        }
        let step = RenderStep {
            x: self.x,
            leader_y: self.y,
            glyph,
            above: if self.y >= 1 {
                Some(Restyle { y: self.y - 1, bold: roll < BOLD_ROLL_LIMIT && bolding })
            } else {
                None
            },
            clear_y: if self.y >= self.len {
                Some(self.y - self.len)
            } else {
                None
            },
        };
        self.y = self.y + 1;
        let tail: usize = if self.y >= self.len {
            self.y - self.len
        } else {
            0
        };
        self.alive = tail <= height;
        Some(step)
    }
}

} // verus!
