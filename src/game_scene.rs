//! The playing scene: heading, body, fruit and the tick that advances them.
use vstd::prelude::*;
use crate::fruit::{free_cells_of, holds_cell, lemma_free_cells, random_free_cell};
use crate::grid::{dx, dy, in_grid, opposite, shifted, Direction, Position, GRID_HEIGHT, GRID_WIDTH};
use crate::scene::SwapScene;

verus! {

/// Minimum number of milliseconds between two ticks.
pub const TICK_SPEED_MS: u64 = 250;

/// The movement keys held down during a frame.
#[derive(Clone, Copy, Debug, PartialEq, Eq, Structural)]
pub struct Keys {
    pub up: bool,
    pub left: bool,
    pub down: bool,
    pub right: bool,
}

/// The state of a running game.
pub struct GameScene {
    /// Heading committed at the last tick.
    pub direction: Direction,
    /// Heading requested since, committed at the next tick.
    pub next_direction: Direction,
    /// Occupied cells from tail to head; the head is the last one.
    pub bodyparts: Vec<Position>,
    pub head_position: Position,
    pub fruit_location: Position,
    /// Time of the last completed tick, in milliseconds.
    pub last_tick_ms: u64,
}

/// No cell occurs twice.
pub open spec fn distinct_cells(s: Seq<Position>) -> bool {
    forall|i: int, j: int| 0 <= i < j < s.len() ==> s[i] != s[j]
}

/// The cell at the centre of the playing field, where a game starts.
pub open spec fn centre() -> Position {
    Position { x: (GRID_WIDTH / 2) as i32, y: (GRID_HEIGHT / 2) as i32 }
}

/// The heading buffered after a frame in which `keys` were held, given the
/// committed and the buffered heading before it. Keys are read in the order
/// up, left, down, right; a later one wins, and none may ask for the reverse
/// of the committed heading.
pub open spec fn requested_direction(keys: Keys, committed: Direction, buffered: Direction) -> Direction {
    let a = if keys.up && committed != Direction::Down { Direction::Up } else { buffered };
    let b = if keys.left && committed != Direction::Right { Direction::Left } else { a };
    let c = if keys.down && committed != Direction::Up { Direction::Down } else { b };
    if keys.right && committed != Direction::Left { Direction::Right } else { c }
}

/// Whether a tick is due at `now_ms` after one at `last_ms`.
pub open spec fn tick_due(last_ms: u64, now_ms: u64) -> bool {
    now_ms >= last_ms + TICK_SPEED_MS
}

/// The cell the head moves into at the next tick.
pub open spec fn next_head(s: GameScene) -> Position {
    shifted(s.head_position, s.next_direction, 1)
}

/// Whether the next tick moves the head onto the fruit.
pub open spec fn eats(s: GameScene) -> bool {
    next_head(s) == s.fruit_location
}

/// The body that stays in place at the next tick: all of it when the fruit is
/// eaten, else all but the tail.
pub open spec fn kept_body(s: GameScene) -> Seq<Position> {
    if eats(s) {
        s.bodyparts@
    } else {
        s.bodyparts@.drop_first()
    }
}

/// How one tick relates the state before it, the state after it and what it
/// asks of the dispatcher. The new fruit is any free cell.
pub open spec fn tick_relation(pre: GameScene, post: GameScene, r: Option<SwapScene>) -> bool {
    let h = next_head(pre);
    let kept = kept_body(pre);
    &&& post.direction == pre.next_direction
    &&& post.next_direction == pre.next_direction
    &&& post.head_position == h
    &&& if !in_grid(h) {
        &&& r == Some(SwapScene::GameOver)
        &&& post.bodyparts@ == pre.bodyparts@
        &&& post.fruit_location == pre.fruit_location
    } else if eats(pre) {
        let grown = pre.bodyparts@.push(h);
        &&& post.bodyparts@ == grown
        &&& if free_cells_of(grown).len() == 0 {
            r == Some(SwapScene::GameOver) && post.fruit_location == pre.fruit_location
        } else {
            r is None && free_cells_of(grown).contains(post.fruit_location)
        }
    } else if kept.contains(h) {
        &&& r == Some(SwapScene::GameOver)
        &&& post.bodyparts@ == kept
        &&& post.fruit_location == pre.fruit_location
    } else {
        &&& r is None
        &&& post.bodyparts@ == kept.push(h)
        &&& post.fruit_location == pre.fruit_location
    }
}

/// The state after a frame's input has been read.
pub open spec fn with_input(s: GameScene, keys: Keys) -> GameScene {
    GameScene {
        next_direction: requested_direction(keys, s.direction, s.next_direction),
        ..s
    }
}

/// How one frame relates the state before it, the keys held, the time, the
/// state after it and what it asks of the dispatcher.
pub open spec fn update_relation(
    pre: GameScene,
    keys: Keys,
    now_ms: u64,
    post: GameScene,
    r: Option<SwapScene>,
) -> bool {
    let mid = with_input(pre, keys);
    if tick_due(pre.last_tick_ms, now_ms) {
        &&& tick_relation(mid, post, r)
        &&& post.last_tick_ms == if r is None {
            now_ms
        } else {
            pre.last_tick_ms
        }
    } else {
        r is None && post == mid
    }
}

/// A freshly started game: one segment at the centre, heading up, fruit elsewhere.
pub open spec fn is_fresh(s: GameScene) -> bool {
    &&& s.bodyparts@ == seq![centre()]
    &&& s.head_position == centre()
    &&& s.direction == Direction::Up
    &&& s.next_direction == Direction::Up
    &&& in_grid(s.fruit_location)
    &&& s.fruit_location != centre()
}

impl GameScene {
    /// The invariant of a running game.
    pub open spec fn wf(&self) -> bool {
        &&& self.bodyparts@.len() >= 1
        &&& self.bodyparts@.last() == self.head_position
        &&& forall|i: int| 0 <= i < self.bodyparts@.len() ==> in_grid(#[trigger] self.bodyparts@[i])
        &&& distinct_cells(self.bodyparts@)
        &&& in_grid(self.fruit_location)
        &&& !self.bodyparts@.contains(self.fruit_location)
        &&& self.next_direction != opposite(self.direction)
    }
}

/// A tick that does not end the game keeps the invariant.
pub proof fn lemma_tick_preserves_wf(pre: GameScene, post: GameScene)
    requires
        pre.wf(),
        tick_relation(pre, post, None),
    ensures
        post.wf(),
{
    let h = next_head(pre);
    let body = pre.bodyparts@;
    let nb = post.bodyparts@;
    if eats(pre) {
        assert(nb == body.push(h));
        assert(nb.last() == h);
        assert forall|i: int| 0 <= i < nb.len() implies in_grid(#[trigger] nb[i]) by {
            if i < body.len() {
                assert(nb[i] == body[i]);
            }
        }
        assert forall|i: int, j: int| 0 <= i < j < nb.len() implies nb[i] != nb[j] by {
            if j == body.len() {
                assert(nb[i] == body[i]);
                assert(body.contains(body[i]));
            } else {
                assert(nb[i] == body[i] && nb[j] == body[j]);
            }
        }
        lemma_free_cells(nb, post.fruit_location);
    } else {
        let kept = body.drop_first();
        assert(nb == kept.push(h));
        assert(nb.last() == h);
        assert forall|i: int| 0 <= i < nb.len() implies in_grid(#[trigger] nb[i]) by {
            if i < kept.len() {
                assert(nb[i] == body[i + 1]);
            }
        }
        assert forall|i: int, j: int| 0 <= i < j < nb.len() implies nb[i] != nb[j] by {
            if j == kept.len() {
                assert(nb[i] == kept[i]);
                assert(kept.contains(kept[i]));
            } else {
                assert(nb[i] == body[i + 1] && nb[j] == body[j + 1]);
            }
        }
        if nb.contains(pre.fruit_location) {
            let k = choose|k: int| 0 <= k < nb.len() && nb[k] == pre.fruit_location;
            if k < kept.len() {
                assert(body[k + 1] == pre.fruit_location);
                assert(body.contains(pre.fruit_location));
            }
        }
    }
}

/// A tick that does not end the game keeps the length of the body, unless it
/// eats the fruit: then the body grows by exactly one segment.
pub proof fn lemma_length_on_tick(pre: GameScene, post: GameScene)
    requires
        pre.wf(),
        tick_relation(pre, post, None),
    ensures
        post.bodyparts@.len() == pre.bodyparts@.len() + if eats(pre) {
            1int
        } else {
            0int
        },
{
}

/// After any frame that does not end the game, the fruit lies on the field
/// and on no segment of the body.
pub proof fn lemma_fruit_off_body(pre: GameScene, keys: Keys, now_ms: u64, post: GameScene)
    requires
        pre.wf(),
        update_relation(pre, keys, now_ms, post, None),
    ensures
        in_grid(post.fruit_location),
        !post.bodyparts@.contains(post.fruit_location),
{
    if tick_due(pre.last_tick_ms, now_ms) {
        lemma_tick_preserves_wf(with_input(pre, keys), post);
    }
}

/// No frame turns the snake around: the heading committed after it is never
/// the reverse of the one committed before it, and the buffered heading is
/// never the reverse of the committed one.
pub proof fn lemma_no_reversal(
    pre: GameScene,
    keys: Keys,
    now_ms: u64,
    post: GameScene,
    r: Option<SwapScene>,
)
    requires
        pre.wf(),
        update_relation(pre, keys, now_ms, post, r),
    ensures
        post.direction != opposite(pre.direction),
        post.next_direction != opposite(post.direction),
{
}

/// Ticks with one heading `d` that do not end the game move the head by one
/// unit vector of `d` each: after `n` of them, from a cell on the field, it
/// stands `n` steps from where it started.
pub proof fn lemma_straight_run(states: Seq<GameScene>, d: Direction)
    requires
        states.len() >= 1,
        in_grid(states[0].head_position),
        forall|i: int|
            0 <= i < states.len() - 1 ==> #[trigger] tick_relation(states[i], states[i + 1], None),
        forall|i: int| 0 <= i < states.len() - 1 ==> (#[trigger] states[i]).next_direction == d,
    ensures
        states.last().head_position == shifted(states[0].head_position, d, states.len() - 1),
        states.last().head_position.x == states[0].head_position.x + (states.len() - 1) * dx(d),
        states.last().head_position.y == states[0].head_position.y + (states.len() - 1) * dy(d),
        in_grid(states.last().head_position),
    decreases states.len(),
{
    let n = states.len();
    if n > 1 {
        let front = states.drop_last();
        assert forall|i: int| 0 <= i < front.len() - 1 implies #[trigger] tick_relation(
            front[i],
            front[i + 1],
            None,
        ) by {
            assert(front[i] == states[i] && front[i + 1] == states[i + 1]);
            assert(tick_relation(states[i], states[i + 1], None));
        }
        assert forall|i: int| 0 <= i < front.len() - 1 implies (#[trigger] front[i]).next_direction
            == d by {
            assert(front[i] == states[i]);
        }
        lemma_straight_run(front, d);
        assert(front.last() == states[n - 2]);
        let p0 = states[0].head_position;
        let prev = states[n - 2];
        let k = n - 2;
        assert(tick_relation(states[k], states[k + 1], None) && states[k].next_direction == d);
        assert(states[k + 1] == states.last());
        let h = states[n - 1].head_position;
        assert(in_grid(h));
        assert(h == shifted(prev.head_position, d, 1));
        let m = n - 1;
        assert(h.x == prev.head_position.x + dx(d));
        assert(h.y == prev.head_position.y + dy(d));
        assert(m * dx(d) == (m - 1) * dx(d) + dx(d)) by (nonlinear_arith);
        assert(m * dy(d) == (m - 1) * dy(d) + dy(d)) by (nonlinear_arith);
    } else {
        assert(states.last() == states[0]);
    }
}

impl GameScene {
    /// A new game started at time `now_ms`: one segment at the centre,
    /// heading up, and a fruit on a random free cell.
    pub fn new(now_ms: u64) -> (r: GameScene)
        ensures
            is_fresh(r),
            r.wf(),
            r.last_tick_ms == now_ms,
    {
        let head = Position { x: GRID_WIDTH / 2, y: GRID_HEIGHT / 2 };
        let mut bodyparts: Vec<Position> = Vec::new();
        bodyparts.push(head);
        let fruit_location = Self::first_fruit(&bodyparts);
        GameScene {
            direction: Direction::Up,
            next_direction: Direction::Up,
            bodyparts,
            head_position: head,
            fruit_location,
            last_tick_ms: now_ms,
        }
    }

    /// A random free cell beside a body of one segment at the centre.
    fn first_fruit(bodyparts: &Vec<Position>) -> (r: Position)
        requires
            bodyparts@ == seq![centre()],
        ensures
            in_grid(r),
            r != centre(),
    {
        let corner = Position { x: 0, y: 0 };
        proof {
            lemma_free_cells(bodyparts@, corner);
            assert(!bodyparts@.contains(corner)) by {
                if bodyparts@.contains(corner) {
                    assert(bodyparts@[0] == corner);
                }
            }
        }
        match random_free_cell(bodyparts) {
            Some(p) => {
                proof {
                    assert(bodyparts@.contains(bodyparts@[0]));
                }
                p
            },
            None => corner,
        }
    }

    /// Restarts the game in place: one segment at the centre, heading up, and
    /// a fruit on a random free cell. The tick clock is left as it is.
    pub fn reset(&mut self)
        ensures
            is_fresh(*final(self)),
            final(self).wf(),
            final(self).last_tick_ms == old(self).last_tick_ms,
    {
        let head = Position { x: GRID_WIDTH / 2, y: GRID_HEIGHT / 2 };
        let mut bodyparts: Vec<Position> = Vec::new();
        bodyparts.push(head);
        self.fruit_location = Self::first_fruit(&bodyparts);
        self.bodyparts = bodyparts;
        self.head_position = head;
        self.direction = Direction::Up;
        self.next_direction = Direction::Up;
    }

    /// Buffers the heading that the held keys ask for; a key that asks for
    /// the reverse of the committed heading is ignored.
    pub fn handle_input(&mut self, keys: Keys)
        ensures
            *final(self) == with_input(*old(self), keys),
            old(self).wf() ==> final(self).wf(),
    {
        if keys.up && self.direction != Direction::Down {
            self.next_direction = Direction::Up;
        }
        if keys.left && self.direction != Direction::Right {
            self.next_direction = Direction::Left;
        }
        if keys.down && self.direction != Direction::Up {
            self.next_direction = Direction::Down;
        }
        if keys.right && self.direction != Direction::Left {
            self.next_direction = Direction::Right;
        }
    }

    /// One step of the game: commits the buffered heading and moves the head.
    /// Leaving the field, running into the body, or growing until no cell is
    /// left for a fruit asks for the game-over scene. Eating the fruit grows
    /// the body by one and places a new fruit on a random free cell; otherwise
    /// the tail moves up.
    pub fn tick(&mut self) -> (r: Option<SwapScene>)
        requires
            old(self).wf(),
        ensures
            tick_relation(*old(self), *final(self), r),
            final(self).last_tick_ms == old(self).last_tick_ms,
            r is None ==> final(self).wf(),
            r is None ==> final(self).bodyparts@.len() == old(self).bodyparts@.len() + if eats(
                *old(self),
            ) {
                1int
            } else {
                0int
            },
    {
        let ghost pre = *old(self);
        self.direction = self.next_direction;
        let h = self.head_position.step(self.direction);
        self.head_position = h;
        if !h.in_grid() {
            return Some(SwapScene::GameOver);
        }
        if h == self.fruit_location {
            self.bodyparts.push(h);
            match random_free_cell(&self.bodyparts) {
                None => {
                    return Some(SwapScene::GameOver);
                },
                Some(f) => {
                    self.fruit_location = f;
                    proof {
                        lemma_tick_preserves_wf(pre, *self);
                    }
                    return None;
                },
            }
        }
        self.bodyparts.remove(0);
        assert(self.bodyparts@ == pre.bodyparts@.drop_first());
        if holds_cell(&self.bodyparts, h) {
            return Some(SwapScene::GameOver);
        }
        self.bodyparts.push(h);
        proof {
            lemma_tick_preserves_wf(pre, *self);
        }
        None
    }

    /// One frame: reads the held keys, then ticks if `TICK_SPEED_MS` have
    /// passed since the last tick. A tick that does not end the game restarts
    /// the clock at `now_ms`.
    pub fn update(&mut self, keys: Keys, now_ms: u64) -> (r: Option<SwapScene>)
        requires
            old(self).wf(),
        ensures
            update_relation(*old(self), keys, now_ms, *final(self), r),
            r is None ==> final(self).wf(),
    {
        self.handle_input(keys);
        if now_ms >= self.last_tick_ms && now_ms - self.last_tick_ms >= TICK_SPEED_MS {
            let r = self.tick();
            if r.is_none() {
                self.last_tick_ms = now_ms;
            }
            r
        } else {
            None
        }
    }
}

} // verus!
