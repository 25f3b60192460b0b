use vstd::prelude::*;
use crate::bird::{tick_sum, Bird, THRUST_VELOCITY};
use crate::fixed::add_ticks;
use crate::geometry::{overlaps, BoxCollision, SUBPIXELS_PER_PIXEL};
use crate::pipe::{spawn_x, Pipes, GAP_CENTER_MAX, GAP_CENTER_MIN, GAP_HALF_HEIGHT, SPAWN_X};
use rand::Rng;

verus! {

/// Ticks between two pipe spawns.
pub const SPAWN_INTERVAL: u64 = 30000;

/// Highest score that the display shows; the score stops there.
pub const MAX_POINTS: u32 = 999;

/// One input event of a frame, as the game sees it.
#[derive(Clone, Copy, Debug, PartialEq, Eq, Structural)]
pub enum InputEvent {
    /// The window was closed or escape was pressed.
    Quit,
    /// The flap key was pressed.
    Flap,
    /// Anything else.
    Other,
}

/// The pipes of `s` that are not due for removal, in their order.
pub open spec fn kept(s: Seq<Pipes>) -> Seq<Pipes>
    decreases s.len(),
{
    if s.len() == 0 {
        s
    } else if s.last().expired() {
        kept(s.drop_last())
    } else {
        kept(s.drop_last()).push(s.last())
    }
}

/// `s` with a new pipe at the spawn position appended when `due`.
pub open spec fn spawned(s: Seq<Pipes>, due: bool, gap_center: i32) -> Seq<Pipes> {
    if due {
        s.push(Pipes { x: spawn_x() as i64, hole_y: gap_center, hole_height: GAP_HALF_HEIGHT })
    } else {
        s
    }
}

/// Every pipe of `s` scrolled for `dt` microseconds.
pub open spec fn scrolled(s: Seq<Pipes>, dt: u32) -> Seq<Pipes> {
    Seq::new(s.len(), |i: int| Pipes { x: s[i].next_x(dt) as i64, ..s[i] })
}

/// The box `b` overlaps the solid part of some pipe of `s`.
pub open spec fn hits_any(b: BoxCollision, s: Seq<Pipes>) -> bool {
    exists|i: int|
        0 <= i < s.len() && (#[trigger] overlaps(b, s[i].top_box()) || overlaps(b, s[i].bottom_box()))
}

/// The box `b` is inside the column of the first pipe of `s`.
pub open spec fn in_gate(b: BoxCollision, s: Seq<Pipes>) -> bool {
    s.len() > 0 && overlaps(b, s[0].column_box())
}

/// The score after one look at the score gate: one point more when the bird
/// was in the column and now is not, never more than `MAX_POINTS`.
pub open spec fn gate_points(was_inside: bool, points: u32, inside: bool) -> u32 {
    let p = if was_inside && !inside {
        points + 1
    } else {
        points as int
    };
    if p > MAX_POINTS {
        MAX_POINTS
    } else {
        p as u32
    }
}

/// The score after the bird was seen in or out of the first column at each
/// of `seen`, starting from `was_inside` and `points`.
pub open spec fn gate_run(was_inside: bool, points: u32, seen: Seq<bool>) -> u32
    decreases seen.len(),
{
    if seen.len() == 0 {
        points
    } else {
        gate_run(seen[0], gate_points(was_inside, points, seen[0]), seen.drop_first())
    }
}

/// How many times `seen` goes from inside the column to outside it,
/// starting from `was_inside`.
pub open spec fn exits(was_inside: bool, seen: Seq<bool>) -> nat
    decreases seen.len(),
{
    if seen.len() == 0 {
        0
    } else {
        (if was_inside && !seen[0] {
            1nat
        } else {
            0nat
        }) + exits(seen[0], seen.drop_first())
    }
}

/// Scoring counts each exit from the column once and only once, and the
/// score stops at `MAX_POINTS`: after any run of observations the score is
/// the number of exits added to the starting score, capped at the ceiling.
pub proof fn lemma_score_counts_exits(was_inside: bool, points: u32, seen: Seq<bool>)
    requires
        points <= MAX_POINTS,
    ensures
        gate_run(was_inside, points, seen) == if points + exits(was_inside, seen) > MAX_POINTS {
            MAX_POINTS as int
        } else {
            points + exits(was_inside, seen)
        },
        gate_run(was_inside, points, seen) <= MAX_POINTS,
    decreases seen.len(),
{
    if seen.len() > 0 {
        lemma_score_counts_exits(seen[0], gate_points(was_inside, points, seen[0]), seen.drop_first());
    }
}

/// Staying inside the column never scores, and leaving it scores at most one
/// point.
pub proof fn lemma_gate_step(was_inside: bool, points: u32, inside: bool)
    requires
        points <= MAX_POINTS,
    ensures
        inside ==> gate_points(was_inside, points, inside) == points,
        !was_inside ==> gate_points(was_inside, points, inside) == points,
        gate_points(was_inside, points, inside) <= points + 1,
        gate_points(was_inside, points, inside) <= MAX_POINTS,
{
}

/// Removal keeps every pipe that is not expired and only such pipes, in
/// their order: a pipe leaves the sequence only once it is expired.
pub proof fn lemma_kept_drops_only_expired(s: Seq<Pipes>)
    ensures
        forall|i: int| 0 <= i < s.len() && !s[i].expired() ==> kept(s).contains(#[trigger] s[i]),
        forall|p: Pipes| #[trigger] kept(s).contains(p) ==> s.contains(p) && !p.expired(),
        kept(s).len() <= s.len(),
    decreases s.len(),
{
    if s.len() > 0 {
        let t = s.drop_last();
        lemma_kept_drops_only_expired(t);
        assert forall|i: int| 0 <= i < s.len() && !s[i].expired() implies kept(s).contains(#[trigger] s[i]) by {
            if i < s.len() - 1 {
                assert(t[i] == s[i]);
                assert(kept(t).contains(t[i]));
                let k = choose|k: int| 0 <= k < kept(t).len() && kept(t)[k] == t[i];
                assert(kept(s)[k] == s[i]);
            } else {
                assert(kept(s)[kept(s).len() - 1] == s[i]);
            }
        }
        assert forall|p: Pipes| #[trigger] kept(s).contains(p) implies s.contains(p) && !p.expired() by {
            let k = choose|k: int| 0 <= k < kept(s).len() && kept(s)[k] == p;
            if k < kept(t).len() {
                assert(kept(t)[k] == p);
                assert(kept(t).contains(p));
                let j = choose|j: int| 0 <= j < t.len() && t[j] == p;
                assert(s[j] == p);
            } else {
                assert(s[s.len() - 1] == p);
            }
        }
    }
}

/// The pipes that survive removal, in their order.
pub fn remove_expired(pipes: &Vec<Pipes>) -> (r: Vec<Pipes>)
    ensures
        r@ == kept(pipes@),
{
    let mut out: Vec<Pipes> = Vec::new();
    let mut i: usize = 0;
    while i < pipes.len()
        invariant
            i <= pipes@.len(),
            out@ == kept(pipes@.subrange(0, i as int)),
        decreases pipes@.len() - i,
    {
        let p = pipes[i];
        proof {
            assert(pipes@.subrange(0, i + 1).drop_last() =~= pipes@.subrange(0, i as int));
        }
        if !p.is_expired() {
            out.push(p);
        }
        i += 1;
    }
    proof {
        assert(pipes@.subrange(0, pipes@.len() as int) =~= pipes@);
    }
    out
}

/// Every pipe scrolled for `delta_time` microseconds.
pub fn scroll_all(pipes: &Vec<Pipes>, delta_time: u32) -> (r: Vec<Pipes>)
    ensures
        r@ == scrolled(pipes@, delta_time),
{
    let mut out: Vec<Pipes> = Vec::new();
    let mut i: usize = 0;
    while i < pipes.len()
        invariant
            i <= pipes@.len(),
            out@.len() == i,
            forall|j: int| 0 <= j < i ==> out@[j] == (Pipes { x: pipes@[j].next_x(delta_time) as i64, ..pipes@[j] }),
        decreases pipes@.len() - i,
    {
        let mut p = pipes[i];
        p.update(delta_time);
        out.push(p);
        i += 1;
    }
    proof {
        assert(out@ =~= scrolled(pipes@, delta_time));
    }
    out
}

/// True iff `b` overlaps the part above or below the gap of some pipe.
pub fn hits_pipe(b: BoxCollision, pipes: &Vec<Pipes>) -> (r: bool)
    ensures
        r == hits_any(b, pipes@),
{
    let mut i: usize = 0;
    while i < pipes.len()
        invariant
            i <= pipes@.len(),
            forall|j: int|
                0 <= j < i ==> !(#[trigger] overlaps(b, pipes@[j].top_box()) || overlaps(
                    b,
                    pipes@[j].bottom_box(),
                )),
        decreases pipes@.len() - i,
    {
        if b.check(pipes[i].collision_box_top()) || b.check(pipes[i].collision_box_bottom()) {
            return true;
        }
        i += 1;
    }
    false
}

/// True iff `b` is inside the column of the first pipe.
pub fn in_score_gate(b: BoxCollision, pipes: &Vec<Pipes>) -> (r: bool)
    ensures
        r == in_gate(b, pipes@),
{
    pipes.len() > 0 && b.check(pipes[0].column_collision_box())
}

/// One look at the score gate: the new in-column flag and the new score.
pub fn score_gate(was_inside: bool, points: u32, inside: bool) -> (r: (bool, u32))
    ensures
        r == (inside, gate_points(was_inside, points, inside)),
{
    let p = if was_inside && !inside && points < MAX_POINTS {
        points + 1
    } else {
        points
    };
    (inside, if p > MAX_POINTS {
        MAX_POINTS
    } else {
        p
    })
}

/// A uniformly drawn integer in `[lo, hi)`.
///
/// Relies on `rand::Rng::gen_range` over `rand::thread_rng()`, which returns a
/// value of the half-open range and panics only on an empty range.
#[verifier::external_body]
fn random_in_range(lo: i32, hi: i32) -> (r: i32)
    requires
        lo < hi,
    ensures
        lo <= r < hi,
{
    rand::thread_rng().gen_range(lo..hi)
}

/// A game session: the bird, the pipes in spawn order (which is also their
/// order from left to right), the spawn schedule, the score and the state.
#[derive(Debug)]
pub struct Game {
    pub bird: Bird,
    pub pipes: Vec<Pipes>,
    pub pipes_spawn_tick: u64,
    pub points: u32,
    pub bird_is_in_pipe: bool,
    pub game_is_over: bool,
    pub tick_count: u64,
}

impl Game {
    /// The bird is well formed and the score is within the display ceiling.
    pub open spec fn wf(&self) -> bool {
        self.bird.wf() && self.points <= MAX_POINTS
    }

    /// `new` is `old` after one frame of `dt` microseconds in which a pipe
    /// that spawns gets its gap centered at `gap_center`.
    pub open spec fn frame_post(old: &Game, new: &Game, dt: u32, gap_center: i32) -> bool {
        &&& new.tick_count == tick_sum(old.tick_count, 1)
        &&& if old.game_is_over {
            &&& new.bird == old.bird
            &&& new.pipes@ == old.pipes@
            &&& new.pipes_spawn_tick == old.pipes_spawn_tick
            &&& new.points == old.points
            &&& new.bird_is_in_pipe == old.bird_is_in_pipe
            &&& new.game_is_over
        } else {
            let bird = old.bird.after_update(old.tick_count, dt);
            let due = old.tick_count >= old.pipes_spawn_tick;
            let pipes = scrolled(spawned(kept(old.pipes@), due, gap_center), dt);
            let inside = in_gate(bird.hitbox(), pipes);
            &&& new.bird == bird
            &&& new.pipes@ == pipes
            &&& new.pipes_spawn_tick == if due {
                tick_sum(old.tick_count, SPAWN_INTERVAL)
            } else {
                old.pipes_spawn_tick
            }
            &&& new.game_is_over == hits_any(bird.hitbox(), pipes)
            &&& new.bird_is_in_pipe == inside
            &&& new.points == gate_points(old.bird_is_in_pipe, old.points, inside)
        }
    }

    /// A fresh session at tick 0: no pipes, no score, playing.
    pub fn new() -> (r: Game)
        ensures
            r.wf(),
            r.bird == Bird::initial(0),
            r.pipes@.len() == 0,
            r.pipes_spawn_tick == 0,
            r.points == 0,
            !r.bird_is_in_pipe,
            !r.game_is_over,
            r.tick_count == 0,
    {
        Game {
            bird: Bird::new(0),
            pipes: Vec::new(),
            pipes_spawn_tick: 0,
            points: 0,
            bird_is_in_pipe: false,
            game_is_over: false,
            tick_count: 0,
        }
    }

    /// Handles one input event; returns false iff the event asks to quit.
    ///
    /// While playing, the event goes to the bird. After the game is over, a
    /// flap starts a new round: no score, no pipes, a new bird.
    pub fn handle_event(&mut self, event: InputEvent) -> (keep_running: bool)
        requires
            old(self).wf(),
        ensures
            final(self).wf(),
            keep_running == (event != InputEvent::Quit),
            final(self).tick_count == old(self).tick_count,
            final(self).pipes_spawn_tick == old(self).pipes_spawn_tick,
            if event == InputEvent::Quit || (old(self).game_is_over && event != InputEvent::Flap) {
                &&& final(self).bird == old(self).bird
                &&& final(self).pipes@ == old(self).pipes@
                &&& final(self).points == old(self).points
                &&& final(self).bird_is_in_pipe == old(self).bird_is_in_pipe
                &&& final(self).game_is_over == old(self).game_is_over
            } else if old(self).game_is_over {
                &&& final(self).bird == Bird::initial(old(self).tick_count)
                &&& final(self).pipes@.len() == 0
                &&& final(self).points == 0
                &&& !final(self).bird_is_in_pipe
                &&& !final(self).game_is_over
            } else {
                &&& final(self).bird == (if event == InputEvent::Flap {
                    Bird { velocity: THRUST_VELOCITY, ..old(self).bird }
                } else {
                    old(self).bird
                })
                &&& final(self).pipes@ == old(self).pipes@
                &&& final(self).points == old(self).points
                &&& final(self).bird_is_in_pipe == old(self).bird_is_in_pipe
                &&& !final(self).game_is_over
            },
    {
        if let InputEvent::Quit = event {
            return false;
        }
        if !self.game_is_over {
            self.bird.event_update(event);
        } else if let InputEvent::Flap = event {
            self.points = 0;
            self.game_is_over = false;
            self.bird_is_in_pipe = false;
            self.pipes = Vec::new();
            self.bird = Bird::new(self.tick_count);
        }
        true
    }

    /// Runs one frame of `delta_time` microseconds; a pipe that spawns in it
    /// gets its gap centered at `gap_center`.
    ///
    /// While playing: the bird moves, expired pipes go, a pipe spawns when
    /// due, the pipes scroll, a hit ends the game and leaving the first pipe's
    /// column scores a point. The tick counter advances in every state.
    pub fn step_with_gap(&mut self, delta_time: u32, gap_center: i32)
        requires
            old(self).wf(),
        ensures
            final(self).wf(),
            Game::frame_post(old(self), final(self), delta_time, gap_center),
    {
        if !self.game_is_over {
            self.bird.update(self.tick_count, delta_time);
            let mut pipes = remove_expired(&self.pipes);
            let due = self.tick_count >= self.pipes_spawn_tick;
            if due {
                pipes.push(Pipes::new(SPAWN_X * SUBPIXELS_PER_PIXEL, gap_center, GAP_HALF_HEIGHT));
                self.pipes_spawn_tick = add_ticks(self.tick_count, SPAWN_INTERVAL);
            }
            self.pipes = scroll_all(&pipes, delta_time);
            let b = self.bird.collision_box();
            if hits_pipe(b, &self.pipes) {
                self.game_is_over = true;
            }
            let inside = in_score_gate(b, &self.pipes);
            let (now_inside, points) = score_gate(self.bird_is_in_pipe, self.points, inside);
            self.bird_is_in_pipe = now_inside;
            self.points = points;
        }
        self.tick_count = add_ticks(self.tick_count, 1);
    }

    /// Runs one frame of `delta_time` microseconds; a pipe that spawns in it
    /// gets a gap center drawn uniformly from `[GAP_CENTER_MIN, GAP_CENTER_MAX)`.
    pub fn step(&mut self, delta_time: u32)
        requires
            old(self).wf(),
        ensures
            final(self).wf(),
            exists|g: i32|
                GAP_CENTER_MIN <= g < GAP_CENTER_MAX && #[trigger] Game::frame_post(
                    old(self),
                    final(self),
                    delta_time,
                    g,
                ),
    {
        let gap_center = if !self.game_is_over && self.tick_count >= self.pipes_spawn_tick {
            random_in_range(GAP_CENTER_MIN, GAP_CENTER_MAX)
        } else {
            GAP_CENTER_MIN
        };
        self.step_with_gap(delta_time, gap_center);
    }
}

} // verus!
