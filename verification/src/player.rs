//! The render loop's state machine. The loop itself draws, polls for a key
//! for a fixed timeout, and asks this machine what to do next; the machine
//! decides whether playback goes on with the next frame or stops.
//!
//! Playback wraps: the frame after the last is the first again. The only
//! way out is the quit key.

use vstd::prelude::*;

verus! {

/// The key that ends playback.
pub const QUIT_KEY: char = 'q';

/// How long, in milliseconds, one frame stays on screen while the loop
/// waits for a key. Playback speed is governed by this fixed timeout, not
/// by the animation's own per-frame delay metadata.
pub const POLL_TIMEOUT_MS: u64 = 50;

/// The render loop's state: how many frames there are, which is current,
/// and whether the quit transition has been taken.
#[derive(Clone, Copy, Debug, PartialEq, Eq, Structural)]
pub struct Player {
    pub n_frames: usize,
    pub idx: usize,
    pub quit: bool,
}

/// One playback step on one poll outcome: a quit state stays put, the quit
/// key quits, anything else advances to the next frame, wrapping at the end.
pub open spec fn spec_step(p: Player, key: Option<char>) -> Player {
    if p.quit {
        p
    } else if key == Some(QUIT_KEY) {
        Player { quit: true, ..p }
    } else if p.idx + 1 < p.n_frames {
        Player { idx: (p.idx + 1) as usize, ..p }
    } else {
        Player { idx: 0, ..p }
    }
}

/// The state after a whole sequence of poll outcomes.
pub open spec fn run_events(p: Player, evs: Seq<Option<char>>) -> Player
    decreases evs.len(),
{
    if evs.len() == 0 {
        p
    } else {
        run_events(spec_step(p, evs[0]), evs.drop_first())
    }
}

/// The frame indices the loop draws while consuming these poll outcomes:
/// each iteration draws the current frame, then observes one outcome.
pub open spec fn spec_draws(p: Player, evs: Seq<Option<char>>) -> Seq<int>
    decreases evs.len(),
{
    if p.quit || evs.len() == 0 {
        Seq::empty()
    } else {
        seq![p.idx as int] + spec_draws(spec_step(p, evs[0]), evs.drop_first())
    }
}

/// A quit state absorbs every further poll outcome: the state never changes
/// again and nothing further is drawn.
pub proof fn lemma_quit_absorbs(p: Player, evs: Seq<Option<char>>)
    requires
        p.quit,
    ensures
        run_events(p, evs) == p,
        spec_draws(p, evs) == Seq::<int>::empty(),
    decreases evs.len(),
{
    if evs.len() > 0 {
        lemma_quit_absorbs(p, evs.drop_first());
    }
}

/// The render loop never advances past the quit transition: once the quit
/// key stands at position `i` of the poll outcomes, no frame beyond the
/// `i + 1` already begun is ever drawn, wherever playback stood before.
pub proof fn lemma_no_draw_after_quit(p: Player, evs: Seq<Option<char>>, i: int)
    requires
        0 <= i < evs.len(),
        evs[i] == Some(QUIT_KEY),
    ensures
        spec_draws(p, evs).len() <= i + 1,
        run_events(p, evs).quit,
    decreases i,
{
    if p.quit {
        lemma_quit_absorbs(p, evs);
    } else if i == 0 {
        lemma_quit_absorbs(spec_step(p, evs[0]), evs.drop_first());
    } else {
        lemma_no_draw_after_quit(spec_step(p, evs[0]), evs.drop_first(), i - 1);
    }
}

impl Player {
    /// A player is well formed when its current frame exists.
    pub open spec fn wf(self) -> bool {
        self.idx < self.n_frames
    }

    /// Starts playback at the first frame. An animation with no frames at
    /// all cannot be played.
    pub fn new(n_frames: usize) -> (r: Option<Player>)
        ensures
            match r {
                Some(p) => {
                    &&& n_frames >= 1
                    &&& p == (Player { n_frames, idx: 0, quit: false })
                    &&& p.wf()
                },
                None => n_frames == 0,
            },
    {
        if n_frames == 0 {
            None
        } else {
            Some(Player { n_frames, idx: 0, quit: false })
        }
    }

    /// The frame to draw this iteration.
    pub fn current(&self) -> (i: usize)
        ensures
            i == self.idx,
    {
        self.idx
    }

    /// Whether the quit transition has been taken and the loop must stop.
    pub fn exiting(&self) -> (b: bool)
        ensures
            b == self.quit,
    {
        self.quit
    }

    /// Feeds one poll outcome to the machine: `None` for a tick with no
    /// quit-relevant input, `Some(c)` for a pressed character key.
    pub fn observe(&mut self, key: Option<char>)
        requires
            old(self).wf(),
        ensures
            *final(self) == spec_step(*old(self), key),
            final(self).wf(),
    {
        if self.quit {
            return ;
        }
        let is_quit = match key {
            Some(c) => c == QUIT_KEY,
            None => false,
        };
        if is_quit {
            self.quit = true;
        } else if self.idx + 1 < self.n_frames {
            self.idx = self.idx + 1;
        } else {
            self.idx = 0;
        }
    }
}

} // verus!
