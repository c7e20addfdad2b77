//! One frame of the game: obstacles scroll, the bird moves, a collision ends
//! the game, and once the spawn interval has passed a new obstacle enters.
//!
//! Level rule: the level rises by one whenever the score reaches a multiple
//! of `LEVEL_STEP`; the spawn interval is the same at every level. A frame
//! that finds a collision creates no obstacle.

use std::time::{Duration, Instant};
use vstd::prelude::*;

use crate::bird::{Bird, BIRD_X};
use crate::game::{GameSession, GameSessionView};
use crate::rect::Rect;
use crate::RECT_INTERVAL;

verus! {

/// Every obstacle that a frame creates is narrower than this.
pub const MAX_RECT_WIDTH: u16 = 10;

/// Score points from one level to the next.
pub const LEVEL_STEP: u32 = 5;

/// `std::time::Instant`, a reading of the monotonic clock. Nothing of what
/// it holds is visible here.
#[verifier::external_type_specification]
#[verifier::external_body]
pub struct ExInstant(std::time::Instant);

/// `Instant::now` reads the monotonic clock; nothing is claimed of the reading.
pub assume_specification[ Instant::now ]() -> Instant;

/// `Instant::elapsed` gives the time since the instant was taken; nothing is
/// claimed of its length.
pub assume_specification[ Instant::elapsed ](start: &Instant) -> Duration;

/// `Duration::as_millis` gives the whole milliseconds in a duration; nothing
/// is claimed of their number.
pub assume_specification[ Duration::as_millis ](span: &Duration) -> u128;

/// The obstacles, the bird and the clock of one game.
pub struct Animation {
    rectangles: Vec<Rect>,
    bird: Bird,
    last_spawn_time: Instant,
    screen_size: (u16, u16),
    game_over: bool,
}

/// What an [`Animation`] holds, but for its clock: the obstacles in the order
/// in which they entered, the bird, the screen size and whether the game is
/// over. The clock reading from which the spawn interval is measured is
/// [`Animation::spawn_clock`].
pub struct AnimationView {
    pub rectangles: Seq<Rect>,
    pub bird: Bird,
    pub screen_size: (u16, u16),
    pub game_over: bool,
}

/// The bird touches the obstacle: their columns overlap and the bird's last
/// row is at or below the obstacle's first. The obstacle reaches down to
/// the floor, so its lower edge is not asked about.
pub open spec fn collides(bird: Bird, rect: Rect) -> bool {
    &&& bird.rightmost() >= rect.leftmost()
    &&& bird.leftmost() <= rect.rightmost()
    &&& bird.bottom() >= rect.top()
}

/// The bird touches one of the obstacles.
pub open spec fn any_collision(bird: Bird, rects: Seq<Rect>) -> bool {
    exists|i: int| 0 <= i < rects.len() && collides(bird, #[trigger] rects[i])
}

/// The obstacles one tick later: those at column 0 are gone, the others
/// have moved one column to the left and kept their order.
pub open spec fn scroll_all(rects: Seq<Rect>) -> Seq<Rect> {
    rects.filter(|r: Rect| r.x > 0).map_values(|r: Rect| r.scrolled())
}

/// Every obstacle of the sequence is well-formed.
pub open spec fn all_wf(rects: Seq<Rect>) -> bool {
    forall|i: int| 0 <= i < rects.len() ==> (#[trigger] rects[i]).wf()
}

/// A game can run on a screen of this size: it is high enough for an
/// obstacle of any height that may be drawn, and wide enough for one of any
/// width.
pub open spec fn screen_supported(screen_size: (u16, u16)) -> bool {
    &&& 13 < screen_size.1
    &&& MAX_RECT_WIDTH - 1 <= screen_size.0
}

/// The session can take one more score point, and the level that may come
/// with it.
pub open spec fn can_score(session: GameSessionView) -> bool {
    &&& session.score < u32::MAX
    &&& (session.score + 1) % (LEVEL_STEP as nat) == 0 ==> session.level < u16::MAX
}

/// The session after one more obstacle has entered: one more score point,
/// and one more level if the score has reached a multiple of `LEVEL_STEP`.
pub open spec fn after_spawn(session: GameSessionView) -> GameSessionView {
    GameSessionView {
        score: session.score + 1,
        level: if (session.score + 1) % (LEVEL_STEP as nat) == 0 {
            session.level + 1
        } else {
            session.level
        },
        ..session
    }
}

impl AnimationView {
    /// A game at its start: no obstacle, the bird at rest at half height.
    pub open spec fn initial(screen_size: (u16, u16)) -> AnimationView {
        AnimationView {
            rectangles: Seq::empty(),
            bird: Bird::initial(screen_size),
            screen_size,
            game_over: false,
        }
    }

    /// The screen is large enough, the bird is in its column and between
    /// ceiling and floor of that screen, and every obstacle is well-formed.
    pub open spec fn wf(self) -> bool {
        &&& screen_supported(self.screen_size)
        &&& self.bird.screen_size == self.screen_size
        &&& self.bird.x == BIRD_X
        &&& self.bird.in_bounds()
        &&& all_wf(self.rectangles)
    }

    /// The game one tick later, before any obstacle enters. A game that is
    /// over stays as it is. Otherwise the obstacles scroll, the bird makes
    /// its step, and the game is over if the bird then touches an obstacle.
    pub open spec fn advanced(self) -> AnimationView {
        if self.game_over {
            self
        } else {
            let rectangles = scroll_all(self.rectangles);
            let bird = self.bird.stepped();
            AnimationView { rectangles, bird, game_over: any_collision(bird, rectangles), ..self }
        }
    }

    /// The game after `rect` has entered behind the other obstacles; a game
    /// that is over takes none.
    pub open spec fn with_obstacle(self, rect: Rect) -> AnimationView {
        if self.game_over {
            self
        } else {
            AnimationView { rectangles: self.rectangles.push(rect), ..self }
        }
    }

    /// The game after the bird has been told to jump; in a game that is over
    /// it does not.
    pub open spec fn jumped(self) -> AnimationView {
        if self.game_over {
            self
        } else {
            AnimationView { bird: self.bird.jumped(), ..self }
        }
    }

    /// The game after a restart: as at its start on the same screen.
    pub open spec fn restarted(self) -> AnimationView {
        AnimationView::initial(self.screen_size)
    }
}

/// `after` and `session_after` are what a frame leaves of `before` and
/// `session_before` when it lets a new obstacle enter: the obstacle stands
/// last, it is a fresh one for this screen, and the session has scored.
pub open spec fn entered(
    before: AnimationView,
    session_before: GameSessionView,
    after: AnimationView,
    session_after: GameSessionView,
) -> bool {
    &&& after.rectangles.len() == before.rectangles.len() + 1
    &&& after == before.with_obstacle(after.rectangles.last())
    &&& after.rectangles.last().fresh(MAX_RECT_WIDTH, before.screen_size)
    &&& session_after == after_spawn(session_before)
}

/// `after` is what one frame can leave of `before`: the game a tick later,
/// with or without one more obstacle behind the others.
pub open spec fn frame(before: AnimationView, after: AnimationView) -> bool {
    ||| after == before.advanced()
    ||| exists|rect: Rect| after == #[trigger] before.advanced().with_obstacle(rect)
}

/// The empty row of obstacles scrolls to itself.
pub proof fn lemma_scroll_all_empty()
    ensures
        scroll_all(Seq::<Rect>::empty()) == Seq::<Rect>::empty(),
{
    reveal(Seq::filter);
    assert(scroll_all(Seq::<Rect>::empty()) =~= Seq::<Rect>::empty());
}

/// Scrolling treats the obstacles one by one: the last of a row is dropped
/// if it stands at column 0 and moves one column to the left otherwise,
/// behind what the others scroll to.
pub proof fn lemma_scroll_all_push(rects: Seq<Rect>, rect: Rect)
    ensures
        scroll_all(rects.push(rect)) == if rect.x > 0 {
            scroll_all(rects).push(rect.scrolled())
        } else {
            scroll_all(rects)
        },
{
    rects.lemma_filter_push(rect, |r: Rect| r.x > 0);
    let pending = rects.filter(|r: Rect| r.x > 0);
    assert(pending.push(rect).map_values(|r: Rect| r.scrolled()) =~= pending.map_values(
        |r: Rect| r.scrolled(),
    ).push(rect.scrolled()));
}

/// Scrolling removes no obstacle as long as none stands at column 0: each
/// one moves a column to the left and keeps its place in the row.
pub proof fn lemma_scroll_all_keeps(rects: Seq<Rect>)
    requires
        forall|i: int| 0 <= i < rects.len() ==> (#[trigger] rects[i]).x > 0,
    ensures
        scroll_all(rects) == rects.map_values(|r: Rect| r.scrolled()),
        scroll_all(rects).len() == rects.len(),
    decreases rects.len(),
{
    if rects.len() == 0 {
        lemma_scroll_all_empty();
        assert(rects.map_values(|r: Rect| r.scrolled()) =~= Seq::<Rect>::empty());
    } else {
        let front = rects.drop_last();
        lemma_scroll_all_keeps(front);
        lemma_scroll_all_push(front, rects.last());
        assert(front.push(rects.last()) =~= rects);
        assert(front.map_values(|r: Rect| r.scrolled()).push(rects.last().scrolled())
            =~= rects.map_values(|r: Rect| r.scrolled()));
    }
}

/// Scrolling keeps well-formed obstacles well-formed and adds none.
pub proof fn lemma_scroll_all_wf(rects: Seq<Rect>)
    requires
        all_wf(rects),
    ensures
        all_wf(scroll_all(rects)),
        scroll_all(rects).len() <= rects.len(),
    decreases rects.len(),
{
    if rects.len() == 0 {
        lemma_scroll_all_empty();
    } else {
        let front = rects.drop_last();
        lemma_scroll_all_wf(front);
        lemma_scroll_all_push(front, rects.last());
        assert(front.push(rects.last()) =~= rects);
    }
}

/// Scrolling moves every obstacle that is not at column 0: what it leaves
/// holds the obstacle one column further left.
pub proof fn lemma_scroll_all_moves(rects: Seq<Rect>, rect: Rect)
    requires
        rects.contains(rect),
        rect.x >= 1,
    ensures
        scroll_all(rects).contains(rect.scrolled()),
        rect.scrolled().x == rect.x - 1,
{
    let i = choose|i: int| 0 <= i < rects.len() && rects[i] == rect;
    rects.lemma_filter_contains(|r: Rect| r.x > 0, i);
    let kept = rects.filter(|r: Rect| r.x > 0);
    let j = choose|j: int| 0 <= j < kept.len() && kept[j] == rect;
    assert(scroll_all(rects)[j] == rect.scrolled());
}

/// A frame of a running game moves every obstacle that is not at column 0
/// one column to the left, whether or not another obstacle enters and
/// whether or not the frame ends the game.
pub proof fn lemma_frame_moves_obstacle(before: AnimationView, after: AnimationView, rect: Rect)
    requires
        !before.game_over,
        frame(before, after),
        before.rectangles.contains(rect),
        rect.x >= 1,
    ensures
        after.rectangles.contains(rect.scrolled()),
        rect.scrolled().x == rect.x - 1,
{
    lemma_scroll_all_moves(before.rectangles, rect);
    let moved = before.advanced().rectangles;
    let j = choose|j: int| 0 <= j < moved.len() && moved[j] == rect.scrolled();
    if after != before.advanced() {
        let entering = choose|entering: Rect|
            after == #[trigger] before.advanced().with_obstacle(entering);
        assert(after.rectangles[j] == rect.scrolled());
    }
}

/// The games `trace[0]`, `trace[1]`, up to `trace[frames]` follow one
/// another frame by frame, and each but the last is running.
pub open spec fn frames_run(trace: Seq<AnimationView>, frames: nat) -> bool {
    &&& frames < trace.len()
    &&& forall|t: int|
        0 <= t < frames ==> !(#[trigger] trace[t]).game_over && frame(trace[t], trace[t + 1])
}

/// Through `frames` frames of a running game an obstacle moves `frames`
/// columns to the left, if it stood at least that far from column 0: it
/// is never removed on the way, never wraps, and nothing else of it
/// changes. An obstacle that entered at column `x` is thus found at column
/// `x - width` after as many frames as it is wide.
pub proof fn lemma_frames_move_obstacle(trace: Seq<AnimationView>, rect: Rect, frames: nat)
    requires
        frames_run(trace, frames),
        trace[0].rectangles.contains(rect),
        frames <= rect.x,
    ensures
        trace[frames as int].rectangles.contains(rect.scrolled_by(frames)),
        rect.scrolled_by(frames) == (Rect { x: (rect.x - frames) as u16, ..rect }),
    decreases frames,
{
    rect.lemma_scrolled_by(frames);
    if frames > 0 {
        let earlier = (frames - 1) as nat;
        lemma_frames_move_obstacle(trace, rect, earlier);
        rect.lemma_scrolled_by(earlier);
        let moved = rect.scrolled_by(earlier);
        assert(!trace[earlier as int].game_over && frame(
            trace[earlier as int],
            trace[earlier as int + 1],
        ));
        lemma_frame_moves_obstacle(trace[earlier as int], trace[frames as int], moved);
        assert(moved.scrolled() == rect.scrolled_by(frames));
    }
}

/// A well-formed game stays well-formed through a tick, a jump, a restart
/// and the entry of a well-formed obstacle. In particular the bird is
/// between ceiling and floor after every tick.
pub proof fn lemma_wf_is_kept(game: AnimationView, rect: Rect)
    requires
        game.wf(),
    ensures
        game.advanced().wf(),
        game.advanced().bird.in_bounds(),
        game.jumped().wf(),
        game.restarted().wf(),
        rect.wf() ==> game.with_obstacle(rect).wf(),
{
    lemma_scroll_all_wf(game.rectangles);
    game.bird.lemma_step_in_bounds();
}

/// Once the game is over, a tick, a jump and an arriving obstacle leave it
/// as it is; only a restart changes it.
pub proof fn lemma_game_over_is_final(game: AnimationView, rect: Rect)
    requires
        game.game_over,
    ensures
        game.advanced() == game,
        game.jumped() == game,
        game.with_obstacle(rect) == game,
        !game.restarted().game_over,
{
}

/// After a jump in a running game the bird has the jump velocity, whatever
/// velocity it had.
pub proof fn lemma_jump_sets_velocity(game: AnimationView)
    requires
        !game.game_over,
    ensures
        game.jumped().bird.velocity == crate::JUMP_VELOCITY,
        game.jumped().bird.y == game.bird.y,
        game.jumped().rectangles == game.rectangles,
{
}

/// A restart leaves no obstacle and a running game, with the session at
/// score 0 and level 1, and a second restart right after it changes
/// nothing.
pub proof fn lemma_restart_is_idempotent(game: AnimationView)
    ensures
        game.restarted().rectangles.len() == 0,
        !game.restarted().game_over,
        game.restarted().restarted() == game.restarted(),
        GameSessionView::started().score == 0,
        GameSessionView::started().level == 1,
        GameSessionView::started().status == crate::game::GameStatus::Running,
{
}

impl View for Animation {
    type V = AnimationView;

    closed spec fn view(&self) -> AnimationView {
        AnimationView {
            rectangles: self.rectangles@,
            bird: self.bird,
            screen_size: self.screen_size,
            game_over: self.game_over,
        }
    }
}

/// Whether the bird touches the obstacle, see [`collides`].
pub fn collides_with(bird: &Bird, rect: &Rect) -> (hit: bool)
    requires
        bird.x + 4 <= u16::MAX,
        bird.y + 2 <= u16::MAX,
        rect.wf(),
    ensures
        hit == collides(*bird, *rect),
{
    let bird_right: u16 = bird.get_rightmost_x();
    let bird_left: u16 = bird.get_leftmost_x();
    let bird_bottom: u16 = bird.get_bottom_y();
    let rect_left: u16 = rect.get_leftmost_x();
    let rect_right: u16 = rect.get_rightmost_x();
    let rect_top: u16 = rect.get_top_y();
    bird_right >= rect_left && bird_left <= rect_right && bird_bottom >= rect_top
}

impl Animation {
    /// The clock reading from which the spawn interval is measured: that of
    /// the moment when the last obstacle entered, or when the game began or
    /// began anew if none has entered since.
    pub closed spec fn spawn_clock(&self) -> Instant {
        self.last_spawn_time
    }

    /// Whether a game can run on a screen of this size.
    pub fn supports(screen_size: (u16, u16)) -> (supported: bool)
        ensures
            supported == screen_supported(screen_size),
    {
        13 < screen_size.1 && MAX_RECT_WIDTH - 1 <= screen_size.0
    }

    /// A game at its start; the spawn interval begins now.
    pub fn new(screen_size: (u16, u16)) -> (animation: Self)
        requires
            screen_supported(screen_size),
        ensures
            animation@ == AnimationView::initial(screen_size),
            animation@.wf(),
    {
        Self::new_at(screen_size, Instant::now())
    }

    /// A game at its start, at the clock reading `now`: the spawn interval
    /// is measured from `now`.
    pub fn new_at(screen_size: (u16, u16), now: Instant) -> (animation: Self)
        requires
            screen_supported(screen_size),
        ensures
            animation@ == AnimationView::initial(screen_size),
            animation@.wf(),
            animation.spawn_clock() == now,
    {
        Self {
            rectangles: Vec::new(),
            bird: Bird::new(screen_size),
            last_spawn_time: now,
            screen_size,
            game_over: false,
        }
    }

    /// One frame. The game advances by a tick, see
    /// [`AnimationView::advanced`]. If it is not over then, and the spawn
    /// interval has passed on the clock, a new obstacle enters, see
    /// [`entered`]. A frame that lets nothing in leaves the spawn interval
    /// running as it was.
    pub fn update(&mut self, game_session: &mut GameSession)
        requires
            old(self)@.wf(),
            old(self)@.advanced().game_over || can_score(old(game_session)@),
        ensures
            final(self)@.wf(),
            final(self)@.bird.in_bounds(),
            frame(old(self)@, final(self)@),
            old(self)@.game_over ==> final(self)@ == old(self)@ && final(game_session)@ == old(
                game_session,
            )@,
            (final(self)@ == old(self)@.advanced() && final(game_session)@ == old(game_session)@)
                || (!old(self)@.advanced().game_over && entered(
                old(self)@.advanced(),
                old(game_session)@,
                final(self)@,
                final(game_session)@,
            )),
            old(self)@.game_over || final(self)@ == old(self)@.advanced()
                ==> final(self).spawn_clock() == old(self).spawn_clock(),
    {
        if self.game_over {
            return ;
        }
        let elapsed_ms: u128 = self.last_spawn_time.elapsed().as_millis();
        self.update_after(game_session, elapsed_ms);
    }

    /// One frame, `elapsed_ms` milliseconds after the last obstacle entered
    /// or the game began. The game advances by a tick. If it is not over
    /// then and `elapsed_ms` is at least `RECT_INTERVAL`, a new obstacle
    /// enters and the spawn interval begins anew; otherwise the interval
    /// runs on as it was.
    pub fn update_after(&mut self, game_session: &mut GameSession, elapsed_ms: u128)
        requires
            old(self)@.wf(),
            old(self)@.advanced().game_over || elapsed_ms < RECT_INTERVAL || can_score(
                old(game_session)@,
            ),
        ensures
            final(self)@.wf(),
            final(self)@.bird.in_bounds(),
            frame(old(self)@, final(self)@),
            old(self)@.advanced().game_over || elapsed_ms < RECT_INTERVAL ==> final(self)@ == old(
                self,
            )@.advanced() && final(game_session)@ == old(game_session)@,
            !old(self)@.advanced().game_over && elapsed_ms >= RECT_INTERVAL ==> entered(
                old(self)@.advanced(),
                old(game_session)@,
                final(self)@,
                final(game_session)@,
            ),
            old(self)@.advanced().game_over || elapsed_ms < RECT_INTERVAL
                ==> final(self).spawn_clock() == old(self).spawn_clock(),
    {
        self.update_at(game_session, elapsed_ms, Instant::now());
    }

    /// One frame at the clock reading `now`, `elapsed_ms` milliseconds after
    /// the last obstacle entered or the game began. The game advances by a
    /// tick. If it is not over then and `elapsed_ms` is at least
    /// `RECT_INTERVAL`, a new obstacle enters and the spawn interval is
    /// measured from `now`; otherwise it is measured from where it was.
    pub fn update_at(&mut self, game_session: &mut GameSession, elapsed_ms: u128, now: Instant)
        requires
            old(self)@.wf(),
            old(self)@.advanced().game_over || elapsed_ms < RECT_INTERVAL || can_score(
                old(game_session)@,
            ),
        ensures
            final(self)@.wf(),
            final(self)@.bird.in_bounds(),
            frame(old(self)@, final(self)@),
            old(self)@.advanced().game_over || elapsed_ms < RECT_INTERVAL ==> final(self)@ == old(
                self,
            )@.advanced() && final(game_session)@ == old(game_session)@,
            !old(self)@.advanced().game_over && elapsed_ms >= RECT_INTERVAL ==> entered(
                old(self)@.advanced(),
                old(game_session)@,
                final(self)@,
                final(game_session)@,
            ),
            final(self).spawn_clock() == if !old(self)@.advanced().game_over && elapsed_ms
                >= RECT_INTERVAL {
                now
            } else {
                old(self).spawn_clock()
            },
    {
        if self.advance() {
            return ;
        }
        if elapsed_ms >= RECT_INTERVAL as u128 {
            let new_rect = Rect::random(MAX_RECT_WIDTH, self.screen_size);
            self.spawn_at(game_session, new_rect, now);
            assert(self@ == old(self)@.advanced().with_obstacle(new_rect));
        }
    }

    /// Advances the game by a tick and says whether it is over, see
    /// [`AnimationView::advanced`]. The spawn interval runs on as it was.
    pub fn advance(&mut self) -> (over: bool)
        requires
            old(self)@.wf(),
        ensures
            final(self)@ == old(self)@.advanced(),
            final(self)@.wf(),
            over == final(self)@.game_over,
            final(self).spawn_clock() == old(self).spawn_clock(),
    {
        if self.game_over {
            return true;
        }
        self.scroll_rectangles();
        self.bird.update();
        if self.check_collision() {
            self.game_over = true;
        }
        self.game_over
    }

    /// Removes the obstacles at column 0 and moves the others one column to
    /// the left.
    fn scroll_rectangles(&mut self)
        requires
            all_wf(old(self)@.rectangles),
        ensures
            final(self)@ == (AnimationView {
                rectangles: scroll_all(old(self)@.rectangles),
                ..old(self)@
            }),
            all_wf(final(self)@.rectangles),
            final(self).spawn_clock() == old(self).spawn_clock(),
    {
        let mut kept: Vec<Rect> = Vec::new();
        let mut i: usize = 0;
        while i < self.rectangles.len()
            invariant
                i <= self.rectangles.len(),
                *self == *old(self),
                all_wf(self.rectangles@),
                kept@ == scroll_all(self.rectangles@.take(i as int)),
                all_wf(kept@),
            decreases self.rectangles.len() - i,
        {
            let mut rect: Rect = self.rectangles[i];
            proof {
                let seen = self.rectangles@.take(i as int);
                assert(self.rectangles@.take(i + 1) == seen.push(rect));
                lemma_scroll_all_push(seen, rect);
            }
            if rect.get_x() > 0 {
                rect.scroll();
                kept.push(rect);
            }
            i += 1;
        }
        assert(self.rectangles@.take(i as int) == self.rectangles@);
        self.rectangles = kept;
    }

    /// Whether the bird touches one of the obstacles.
    pub fn check_collision(&self) -> (hit: bool)
        requires
            self@.bird.x + 4 <= u16::MAX,
            self@.bird.y + 2 <= u16::MAX,
            all_wf(self@.rectangles),
        ensures
            hit == any_collision(self@.bird, self@.rectangles),
    {
        let mut i: usize = 0;
        while i < self.rectangles.len()
            invariant
                i <= self.rectangles.len(),
                self.bird.x + 4 <= u16::MAX,
                self.bird.y + 2 <= u16::MAX,
                all_wf(self.rectangles@),
                forall|j: int| 0 <= j < i ==> !collides(self.bird, #[trigger] self.rectangles@[j]),
            decreases self.rectangles.len() - i,
        {
            if collides_with(&self.bird, &self.rectangles[i]) {
                return true;
            }
            i += 1;
        }
        false
    }

    /// Lets `rect` enter behind the other obstacles, begins the spawn
    /// interval anew and scores: one point, and one level at every multiple
    /// of `LEVEL_STEP`. In a game that is over nothing happens.
    pub fn spawn(&mut self, game_session: &mut GameSession, rect: Rect)
        requires
            old(self)@.wf(),
            rect.wf(),
            old(self)@.game_over || can_score(old(game_session)@),
        ensures
            final(self)@ == old(self)@.with_obstacle(rect),
            final(self)@.wf(),
            final(game_session)@ == if old(self)@.game_over {
                old(game_session)@
            } else {
                after_spawn(old(game_session)@)
            },
            old(self)@.game_over ==> final(self).spawn_clock() == old(self).spawn_clock(),
    {
        if self.game_over {
            return ;
        }
        self.spawn_at(game_session, rect, Instant::now());
    }

    /// Lets `rect` enter at the clock reading `now`: it stands behind the
    /// other obstacles, the spawn interval is measured from `now`, and the
    /// session scores one point, and one level at every multiple of
    /// `LEVEL_STEP`. In a game that is over nothing happens.
    pub fn spawn_at(&mut self, game_session: &mut GameSession, rect: Rect, now: Instant)
        requires
            old(self)@.wf(),
            rect.wf(),
            old(self)@.game_over || can_score(old(game_session)@),
        ensures
            final(self)@ == old(self)@.with_obstacle(rect),
            final(self)@.wf(),
            final(game_session)@ == if old(self)@.game_over {
                old(game_session)@
            } else {
                after_spawn(old(game_session)@)
            },
            final(self).spawn_clock() == if old(self)@.game_over {
                old(self).spawn_clock()
            } else {
                now
            },
    {
        if self.game_over {
            return ;
        }
        self.rectangles.push(rect);
        self.last_spawn_time = now;

        game_session.increase_score();
        if game_session.get_score() % LEVEL_STEP == 0 {
            game_session.increase_level();
        }
    }

    /// Makes the bird jump, unless the game is over. The spawn interval
    /// runs on as it was.
    pub fn jump(&mut self)
        ensures
            final(self)@ == old(self)@.jumped(),
            old(self)@.wf() ==> final(self)@.wf(),
            final(self).spawn_clock() == old(self).spawn_clock(),
    {
        if !self.game_over {
            self.bird.jump();
        }
    }

    /// The obstacles, in the order in which they entered.
    pub fn get_rectangles(&self) -> (rectangles: &[Rect])
        ensures
            rectangles@ == self@.rectangles,
    {
        self.rectangles.as_slice()
    }

    /// The bird.
    pub fn get_bird(&self) -> (bird: &Bird)
        ensures
            *bird == self@.bird,
    {
        &self.bird
    }

    /// Whether a collision has ended the game.
    pub fn is_game_over(&self) -> (over: bool)
        ensures
            over == self@.game_over,
    {
        self.game_over
    }

    /// The clock reading from which the spawn interval is measured.
    pub fn get_last_spawn_time(&self) -> (time: Instant)
        ensures
            time == self.spawn_clock(),
    {
        self.last_spawn_time
    }

    /// Begins a new game on the same screen: no obstacle, the bird at rest
    /// at half height, the spawn interval beginning now, and the session
    /// running with score 0 at level 1.
    pub fn restart(&mut self, game_session: &mut GameSession)
        ensures
            final(self)@ == old(self)@.restarted(),
            final(game_session)@ == GameSessionView::started(),
            old(self)@.wf() ==> final(self)@.wf(),
    {
        self.restart_at(game_session, Instant::now());
    }

    /// Begins a new game on the same screen at the clock reading `now`: no
    /// obstacle, the bird at rest at half height, the spawn interval
    /// measured from `now`, and the session running with score 0 at level 1.
    pub fn restart_at(&mut self, game_session: &mut GameSession, now: Instant)
        ensures
            final(self)@ == old(self)@.restarted(),
            final(game_session)@ == GameSessionView::started(),
            old(self)@.wf() ==> final(self)@.wf(),
            final(self).spawn_clock() == now,
    {
        self.game_over = false;
        self.rectangles.clear();
        self.bird = Bird::new(self.screen_size);
        self.last_spawn_time = now;
        game_session.start();
    }
}

} // verus!
