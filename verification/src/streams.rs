//! The collection of live streams: spawning under the placement policy,
//! advancing every live stream once per frame, and culling dead ones.

use vstd::prelude::*;
use crate::stream::{TextStream, RenderStep, spec_advanced, spec_tail};
use crate::glyph::{CharType, glyph_in_mode, next_glyph};
use crate::rng::gen_range_usize;
use rand_xorshift::XorShiftRng;

verus! {

/// Shortest trail a spawned stream may draw.
pub const TRAIL_MIN: usize = 4;

/// One past the longest trail a spawned stream may draw.
pub const TRAIL_MAX: usize = 25;

/// The ordered collection of streams currently on screen.
#[derive(Clone, Debug)]
pub struct Streams(Vec<TextStream>);

impl View for Streams {
    type V = Seq<TextStream>;

    closed spec fn view(&self) -> Seq<TextStream> {
        self.0@
    }
}

/// Whether an existing stream blocks a spawn candidate at column `x`: it sits
/// in the same column and its tail end is still above one third of the
/// terminal height.
pub open spec fn spec_blocks(s: TextStream, x: int, height: int) -> bool {
    s.x == x && 3 * spec_tail(s) < height
}

/// The placement policy: a candidate at column `x` is admitted exactly when no
/// existing stream blocks that column.
pub open spec fn spec_may_admit(ss: Seq<TextStream>, x: int, height: int) -> bool {
    forall|i: int| 0 <= i < ss.len() ==> !spec_blocks(ss[i], x, height)
}

/// The shape every freshly spawned stream has: leading edge on the top row,
/// alive, column inside the terminal, trail length inside the fixed band.
pub open spec fn spec_spawned(s: TextStream, width: int) -> bool {
    s.y == 0 && s.alive && s.x < width && TRAIL_MIN <= s.len < TRAIL_MAX
}

/// What one frame step of stream `s` may put on screen: the leader glyph at
/// the stream's own column and leading row, drawn from the chosen alphabet;
/// a restyled cell one row above the leader exactly when the leader has left
/// the top row, bold only if bolding is on; and, once the trail is fully
/// grown, the one trail cell to clear.
pub open spec fn spec_step_ok(s: TextStream, st: RenderStep, mode: CharType, bolding: bool) -> bool {
    &&& st.x == s.x
    &&& st.leader_y == s.y
    &&& glyph_in_mode(mode, st.glyph)
    &&& (st.above is Some <==> s.y >= 1)
    &&& (s.y >= 1 ==> st.above.unwrap().y == s.y - 1)
    &&& (s.y >= 1 && st.above.unwrap().bold ==> bolding)
    &&& st.clear_y == (if s.y >= s.len {
        Some((s.y - s.len) as usize)
    } else {
        None::<usize>
    })
}

/// The render steps of one frame, matched against the streams that produced
/// them: every live stream contributes exactly one step, in collection order,
/// and dead streams contribute nothing.
pub open spec fn spec_steps_match(
    ss: Seq<TextStream>,
    ts: Seq<RenderStep>,
    mode: CharType,
    bolding: bool,
) -> bool
    decreases ss.len(),
{
    if ss.len() == 0 {
        ts.len() == 0
    } else if ss.last().alive {
        &&& ts.len() > 0
        &&& spec_step_ok(ss.last(), ts.last(), mode, bolding)
        &&& spec_steps_match(ss.drop_last(), ts.drop_last(), mode, bolding)
    } else {
        spec_steps_match(ss.drop_last(), ts, mode, bolding)
    }
}

/// A collection after culling: exactly the live streams, in their old order.
pub open spec fn spec_cull(ss: Seq<TextStream>) -> Seq<TextStream> {
    ss.filter(|s: TextStream| s.alive)
}

impl Streams {
    /// An empty collection.
    pub fn new() -> (s: Streams)
        ensures
            s@ == Seq::<TextStream>::empty(),
    {
        let s = Streams(Vec::new());
        proof {
            assert(s@ =~= Seq::<TextStream>::empty());
        }
        s
    }

    /// Number of streams currently held.
    pub fn len(&self) -> (n: usize)
        ensures
            n == self@.len(),
    {
        self.0.len()
    }

    /// The stream at position `i`.
    pub fn get(&self, i: usize) -> (s: TextStream)
        requires
            i < self@.len(),
        ensures
            s == self@[i as int],
    {
        self.0[i]
    }

    /// Give up the collection as a plain vector.
    pub fn into_vec(self) -> (v: Vec<TextStream>)
        ensures
            v@ == self@,
    {
        self.0
    }

    /// Whether the placement policy admits a candidate at column `x`.
    pub fn may_admit(&self, x: usize, height: usize) -> (r: bool)
        ensures
            r == spec_may_admit(self@, x as int, height as int),
    {
        let n = self.0.len();
        let mut i: usize = 0;
        while i < n
            invariant
                i <= n,
                n == self@.len(),
                forall|j: int| 0 <= j < i ==> !spec_blocks(self@[j], x as int, height as int),
            decreases n - i,
        {
            let s = self.0[i];
            let tail: usize = if s.y >= s.len {
                s.y - s.len
            } else {
                0
            };
            let tail_wide: u128 = tail as u128;
            let height_wide: u128 = height as u128;
            if s.x == x && 3 * tail_wide < height_wide {
                assert(spec_blocks(self@[i as int], x as int, height as int));
                return false;
            }
            i += 1;
        }
        true
    }

    /// Spawn a stream at a chosen column and trail length, if the placement
    /// policy admits the column; reports whether a stream was appended.
    pub fn try_spawn_at(&mut self, x: usize, len: usize, height: usize) -> (added: bool)
        ensures
            added == spec_may_admit(old(self)@, x as int, height as int),
            added ==> final(self)@ == old(self)@.push(
                (TextStream { x, y: 0, len, alive: true }),
            ),
            !added ==> final(self)@ == old(self)@,
    {
        if self.may_admit(x, height) {
            self.0.push(TextStream::new(x, len));
            true
        } else {
            false
        }
    }

    /// One spawn attempt: draw a random column inside the terminal and a
    /// random trail length from the fixed band, and append the candidate if
    /// the placement policy admits its column. Reports whether a stream was
    /// added; on rejection the collection is unchanged.
    pub fn checked_add(&mut self, rng: &mut XorShiftRng, width: usize, height: usize) -> (added:
        bool)
        requires
            width >= 1,
        ensures
            !added ==> final(self)@ == old(self)@,
            added ==> final(self)@.len() == old(self)@.len() + 1,
            added ==> final(self)@.drop_last() == old(self)@,
            added ==> spec_spawned(final(self)@.last(), width as int),
            added ==> spec_may_admit(old(self)@, final(self)@.last().x as int, height as int),
            (forall|c: int|
                0 <= c < width ==> spec_may_admit(old(self)@, c, height as int)) ==> added,
    {
        let x = gen_range_usize(rng, 0, width);
        let len = gen_range_usize(rng, TRAIL_MIN, TRAIL_MAX);
        let added = self.try_spawn_at(x, len, height);
        proof {
            if added {
                assert(self@.drop_last() =~= old(self)@);
            }
        }
        added
    }

    /// One frame's spawn phase: `count` independent spawn attempts. Every
    /// stream that was already held is kept unchanged in place; every appended
    /// stream has the freshly-spawned shape.
    pub fn spawn_many(&mut self, rng: &mut XorShiftRng, width: usize, height: usize, count: usize)
        -> (added: usize)
        requires
            width >= 1,
        ensures
            added <= count,
            final(self)@.len() == old(self)@.len() + added,
            final(self)@.take(old(self)@.len() as int) == old(self)@,
            forall|i: int|
                old(self)@.len() <= i < final(self)@.len() ==> spec_spawned(
                    #[trigger] final(self)@[i],
                    width as int,
                ),
            count >= 1 && (forall|c: int|
                0 <= c < width ==> spec_may_admit(old(self)@, c, height as int)) ==> added >= 1,
    {
        let ghost orig: Seq<TextStream> = self@;
        let ghost all_free: bool = forall|c: int|
            0 <= c < width ==> spec_may_admit(orig, c, height as int);
        let mut added: usize = 0;
        let mut k: usize = 0;
        while k < count
            invariant
                width >= 1,
                added <= k <= count,
                self@.len() == orig.len() + added,
                self@.take(orig.len() as int) == orig,
                forall|i: int|
                    orig.len() <= i < self@.len() ==> spec_spawned(#[trigger] self@[i], width as int),
                all_free == (forall|c: int|
                    0 <= c < width ==> spec_may_admit(orig, c, height as int)),
                k >= 1 && all_free ==> added >= 1,
            decreases count - k,
        {
            let ghost before: Seq<TextStream> = self@;
            proof {
                if added == 0 {
                    assert(before =~= orig);
                }
            }
            if self.checked_add(rng, width, height) {
                added += 1;
                proof {
                    assert(self@.drop_last() == before);
                    assert(self@.take(orig.len() as int) =~= before.take(orig.len() as int));
                    assert(forall|i: int|
                        orig.len() <= i < self@.len() - 1 ==> #[trigger] self@[i] == before[i]);
                }
            }
            k += 1;
        }
        added
    }

    /// One frame's advance phase: every live stream moves its leading edge
    /// down one row and contributes one render step; dead streams are left
    /// untouched and render nothing.
    pub fn advance_all(
        &mut self,
        rng: &mut XorShiftRng,
        height: usize,
        mode: CharType,
        bolding: bool,
    ) -> (steps: Vec<RenderStep>)
        requires
            forall|i: int| 0 <= i < old(self)@.len() ==> (#[trigger] old(self)@[i]).y < usize::MAX,
        ensures
            final(self)@.len() == old(self)@.len(),
            forall|i: int|
                0 <= i < old(self)@.len() && old(self)@[i].alive ==> final(self)@[i]
                    == spec_advanced(#[trigger] old(self)@[i], height),
            forall|i: int|
                0 <= i < old(self)@.len() && !old(self)@[i].alive ==> final(self)@[i] == #[trigger] old(
                    self,
                )@[i],
            spec_steps_match(old(self)@, steps@, mode, bolding),
    {
        let ghost orig: Seq<TextStream> = self@;
        let mut steps: Vec<RenderStep> = Vec::new();
        let n = self.0.len();
        let mut i: usize = 0;
        while i < n
            invariant
                i <= n,
                n == self@.len(),
                self@.len() == orig.len(),
                forall|j: int| 0 <= j < n ==> (#[trigger] orig[j]).y < usize::MAX,
                forall|j: int| i <= j < n ==> self@[j] == #[trigger] orig[j],
                forall|j: int|
                    0 <= j < i && orig[j].alive ==> self@[j] == spec_advanced(
                        #[trigger] orig[j],
                        height,
                    ),
                forall|j: int| 0 <= j < i && !orig[j].alive ==> self@[j] == #[trigger] orig[j],
                spec_steps_match(orig.take(i as int), steps@, mode, bolding),
            decreases n - i,
        {
            let mut s = self.0[i];
            let ghost prev_steps: Seq<RenderStep> = steps@;
            proof {
                assert(s == orig[i as int]);
                assert(orig[i as int].y < usize::MAX);
            }
            if s.alive {
                let glyph = next_glyph(rng, mode);
                let roll = gen_range_usize(rng, 0, 256) as u8;
                let step = s.advance(height, glyph, roll, bolding);
                self.0[i] = s;
                steps.push(step.unwrap());
            }
            proof {
                let t = orig.take(i + 1);
                assert(t.last() == orig[i as int]);
                assert(t.drop_last() =~= orig.take(i as int));
                if orig[i as int].alive {
                    assert(steps@.drop_last() =~= prev_steps);
                }
            }
            i += 1;
        }
        proof {
            assert(orig.take(n as int) =~= orig);
        }
        steps
    }

    /// One frame's reclamation phase: remove every dead stream; the live ones
    /// remain, in their old order.
    pub fn cull(&mut self)
        ensures
            final(self)@ == spec_cull(old(self)@),
    {
        let mut kept: Vec<TextStream> = Vec::new();
        let n = self.0.len();
        let mut i: usize = 0;
        while i < n
            invariant
                i <= n,
                n == self@.len(),
                self@ == old(self)@,
                kept@ == spec_cull(self@.take(i as int)),
            decreases n - i,
        {
            let s = self.0[i];
            let ghost prev: Seq<TextStream> = kept@;
            if s.alive {
                kept.push(s);
            }
            proof {
                let t = self@.take(i + 1);
                reveal(Seq::filter);
                assert(t.drop_last() =~= self@.take(i as int));
                assert(t.last() == self@[i as int]);
                assert(kept@ =~= spec_cull(t));
            }
            i += 1;
        }
        proof {
            assert(self@.take(n as int) =~= self@);
        }
        self.0 = kept;
    }
}

/// The placement policy read in both directions: a candidate column is
/// rejected whenever some existing stream sits in that column with its tail
/// end still above one third of the terminal height; admission depends on the
/// streams in the candidate's own column alone, so a candidate whose column
/// no stream occupies is admitted whatever the state of the other streams.
pub proof fn lemma_placement_policy(ss: Seq<TextStream>, x: int, height: int)
    ensures
        (exists|i: int|
            0 <= i < ss.len() && (#[trigger] ss[i]).x == x && 3 * spec_tail(ss[i]) < height)
            ==> !spec_may_admit(ss, x, height),
        spec_may_admit(ss, x, height) <==> (forall|i: int|
            0 <= i < ss.len() && (#[trigger] ss[i]).x == x ==> !(3 * spec_tail(ss[i]) < height)),
        (forall|i: int| 0 <= i < ss.len() ==> (#[trigger] ss[i]).x != x) ==> spec_may_admit(
            ss,
            x,
            height,
        ),
{
    if exists|i: int|
        0 <= i < ss.len() && (#[trigger] ss[i]).x == x && 3 * spec_tail(ss[i]) < height {
        let i = choose|i: int|
            0 <= i < ss.len() && (#[trigger] ss[i]).x == x && 3 * spec_tail(ss[i]) < height;
        assert(spec_blocks(ss[i], x, height));
    }
}

/// A collection of dead streams renders nothing: when every stream is dead,
/// the only step sequence that matches a frame of it is the empty one.
pub proof fn lemma_dead_streams_render_nothing(
    ss: Seq<TextStream>,
    ts: Seq<RenderStep>,
    mode: CharType,
    bolding: bool,
)
    requires
        spec_steps_match(ss, ts, mode, bolding),
        forall|i: int| 0 <= i < ss.len() ==> !(#[trigger] ss[i]).alive,
    ensures
        ts.len() == 0,
    decreases ss.len(),
{
    if ss.len() > 0 {
        assert(!ss[ss.len() - 1].alive);
        lemma_dead_streams_render_nothing(ss.drop_last(), ts, mode, bolding);
    }
}

/// One step per live stream: a frame's step sequence is exactly as long as
/// the culled collection.
pub proof fn lemma_one_step_per_live_stream(
    ss: Seq<TextStream>,
    ts: Seq<RenderStep>,
    mode: CharType,
    bolding: bool,
)
    requires
        spec_steps_match(ss, ts, mode, bolding),
    ensures
        ts.len() == spec_cull(ss).len(),
    decreases ss.len(),
{
    reveal(Seq::filter);
    if ss.len() > 0 {
        if ss.last().alive {
            lemma_one_step_per_live_stream(ss.drop_last(), ts.drop_last(), mode, bolding);
        } else {
            lemma_one_step_per_live_stream(ss.drop_last(), ts, mode, bolding);
        }
    }
}

/// Every stream a culled collection holds is alive.
pub proof fn lemma_cull_all_alive(ss: Seq<TextStream>)
    ensures
        forall|i: int| 0 <= i < spec_cull(ss).len() ==> (#[trigger] spec_cull(ss)[i]).alive,
{
    broadcast use vstd::seq_lib::group_filter_ensures;
}

/// Culling a collection in which every stream is alive changes nothing.
pub proof fn lemma_cull_all_alive_identity(ss: Seq<TextStream>)
    requires
        forall|i: int| 0 <= i < ss.len() ==> (#[trigger] ss[i]).alive,
    ensures
        spec_cull(ss) == ss,
    decreases ss.len(),
{
    reveal(Seq::filter);
    if ss.len() == 0 {
        assert(spec_cull(ss) =~= ss);
    } else {
        lemma_cull_all_alive_identity(ss.drop_last());
        assert(spec_cull(ss) =~= ss);
    }
}

/// Culling is idempotent: culling a collection that has just been culled
/// changes nothing.
pub proof fn lemma_cull_idempotent(ss: Seq<TextStream>)
    ensures
        spec_cull(spec_cull(ss)) == spec_cull(ss),
{
    lemma_cull_all_alive(ss);
    lemma_cull_all_alive_identity(spec_cull(ss));
}

} // verus!
