//! The scene dispatcher: menu, game and game-over screen, and the moves
//! between them.
use vstd::prelude::*;
use crate::game_scene::{is_fresh, next_head, tick_due, update_relation, with_input, GameScene, Keys};
use crate::grid::in_grid;
use crate::scene::{clicked, GameOver, Menu, Pointer, SwapScene};

verus! {

/// The scene that receives the frames.
#[derive(Clone, Copy, Debug, PartialEq, Eq, Structural)]
pub enum ActiveScene {
    Menu,
    Playing,
    GameOver,
}

/// What the dispatcher reads during one frame.
#[derive(Clone, Copy, Debug, PartialEq, Eq, Structural)]
pub struct FrameInput {
    pub pointer: Pointer,
    pub keys: Keys,
    /// Milliseconds since a fixed start.
    pub now_ms: u64,
}

/// The scenes, each made once, and the one that is active.
pub struct Game {
    pub active: ActiveScene,
    pub menu: Menu,
    pub game_scene: GameScene,
    pub game_over: GameOver,
}

/// The scene that is active after a frame of `active` that asked for `swap`.
/// Exiting is left to the caller, so it changes nothing here.
pub open spec fn scene_after(active: ActiveScene, swap: Option<SwapScene>) -> ActiveScene {
    match swap {
        Some(SwapScene::StartMenu) => ActiveScene::Menu,
        Some(SwapScene::Game) => ActiveScene::Playing,
        Some(SwapScene::GameOver) => ActiveScene::GameOver,
        _ => active,
    }
}

/// How one frame relates the dispatcher before it, its input, the dispatcher
/// after it and what the active scene asked for.
pub open spec fn frame_relation(pre: Game, input: FrameInput, post: Game, r: Option<SwapScene>) -> bool {
    &&& post.active == scene_after(pre.active, r)
    &&& post.menu == pre.menu
    &&& post.game_over == pre.game_over
    &&& match pre.active {
        ActiveScene::Menu => r == clicked(&pre.menu.start_button, &pre.menu.exit_button, input.pointer),
        ActiveScene::GameOver => r == clicked(
            &pre.game_over.restart_button,
            &pre.game_over.exit_button,
            input.pointer,
        ),
        ActiveScene::Playing => r is None || r == Some(SwapScene::GameOver),
    }
    &&& if r == Some(SwapScene::Game) {
        is_fresh(post.game_scene) && post.game_scene.wf()
    } else if pre.active == ActiveScene::Playing {
        update_relation(pre.game_scene, input.keys, input.now_ms, post.game_scene, r)
    } else {
        post.game_scene == pre.game_scene
    }
}

/// A frame of the game in which the head leaves the field moves to the
/// game-over screen and reports it.
pub proof fn lemma_leaving_field_ends_game(
    pre: Game,
    input: FrameInput,
    post: Game,
    r: Option<SwapScene>,
)
    requires
        pre.wf(),
        pre.active == ActiveScene::Playing,
        frame_relation(pre, input, post, r),
        tick_due(pre.game_scene.last_tick_ms, input.now_ms),
        !in_grid(next_head(with_input(pre.game_scene, input.keys))),
    ensures
        r == Some(SwapScene::GameOver),
        post.active == ActiveScene::GameOver,
{
}

/// Game over is reported once: after a frame that reports it, no later frame
/// reports it again before one that starts a new game.
pub proof fn lemma_game_over_once(
    games: Seq<Game>,
    inputs: Seq<FrameInput>,
    results: Seq<Option<SwapScene>>,
)
    requires
        results.len() >= 1,
        games.len() == results.len() + 1,
        inputs.len() == results.len(),
        forall|i: int|
            0 <= i < results.len() ==> #[trigger] frame_relation(
                games[i],
                inputs[i],
                games[i + 1],
                results[i],
            ),
        games[0].wf(),
        results[0] == Some(SwapScene::GameOver),
    ensures
        forall|k: int|
            1 <= k < results.len() && #[trigger] results[k] == Some(SwapScene::GameOver) ==> exists|
                j: int,
            |
                1 <= j < k && #[trigger] results[j] == Some(SwapScene::Game),
    decreases results.len(),
{
    let n = results.len();
    if n > 1 {
        let gs = games.drop_last();
        let is = inputs.drop_last();
        let rs = results.drop_last();
        assert forall|i: int| 0 <= i < rs.len() implies #[trigger] frame_relation(
            gs[i],
            is[i],
            gs[i + 1],
            rs[i],
        ) by {
            assert(gs[i] == games[i] && gs[i + 1] == games[i + 1]);
            assert(is[i] == inputs[i] && rs[i] == results[i]);
            assert(frame_relation(games[i], inputs[i], games[i + 1], results[i]));
        }
        lemma_game_over_once(gs, is, rs);
        assert forall|k: int|
            1 <= k < n && #[trigger] results[k] == Some(SwapScene::GameOver) implies exists|j: int|
            1 <= j < k && #[trigger] results[j] == Some(SwapScene::Game) by {
            if k < n - 1 {
                assert(rs[k] == results[k]);
                let j = choose|j: int| 1 <= j < k && #[trigger] rs[j] == Some(SwapScene::Game);
                assert(results[j] == rs[j]);
            } else if !exists|j: int| 1 <= j < k && #[trigger] results[j] == Some(SwapScene::Game) {
                lemma_stays_over(games, inputs, results, k);
            }
        }
    }
}

/// Until a frame starts a new game, every frame after one that reports game
/// over leaves the game-over screen active and reports no game over.
proof fn lemma_stays_over(
    games: Seq<Game>,
    inputs: Seq<FrameInput>,
    results: Seq<Option<SwapScene>>,
    k: int,
)
    requires
        1 <= k < results.len(),
        games.len() == results.len() + 1,
        inputs.len() == results.len(),
        forall|i: int|
            0 <= i < results.len() ==> #[trigger] frame_relation(
                games[i],
                inputs[i],
                games[i + 1],
                results[i],
            ),
        games[0].wf(),
        results[0] == Some(SwapScene::GameOver),
        forall|j: int| 1 <= j < k ==> #[trigger] results[j] != Some(SwapScene::Game),
    ensures
        games[k].active == ActiveScene::GameOver,
        games[k].game_over == games[0].game_over,
        results[k] != Some(SwapScene::GameOver),
    decreases k,
{
    if k == 1 {
        assert(frame_relation(games[0], inputs[0], games[1], results[0]));
    } else {
        lemma_stays_over(games, inputs, results, k - 1);
        assert(results[k - 1] != Some(SwapScene::Game));
        assert(frame_relation(games[k - 1], inputs[k - 1], games[(k - 1) + 1], results[k - 1]));
    }
    assert(frame_relation(games[k], inputs[k], games[k + 1], results[k]));
}

impl Game {
    /// The invariant: each button does what its label says, and the game
    /// being played is well formed.
    pub open spec fn wf(&self) -> bool {
        &&& self.menu.start_button.action == SwapScene::Game
        &&& self.menu.exit_button.action == SwapScene::Exit
        &&& self.game_over.restart_button.action == SwapScene::Game
        &&& self.game_over.exit_button.action == SwapScene::Exit
        &&& self.active == ActiveScene::Playing ==> self.game_scene.wf()
    }

    /// All three scenes, with the menu active, made at time `now_ms`.
    pub fn new(now_ms: u64) -> (r: Game)
        ensures
            r.active == ActiveScene::Menu,
            is_fresh(r.game_scene),
            r.game_scene.last_tick_ms == now_ms,
            r.wf(),
    {
        Game {
            active: ActiveScene::Menu,
            menu: Menu::new(),
            game_scene: GameScene::new(now_ms),
            game_over: GameOver::new(),
        }
    }

    /// Makes `scene` the active one; entering the game restarts it.
    pub fn set_scene(&mut self, scene: ActiveScene)
        ensures
            final(self).active == scene,
            final(self).menu == old(self).menu,
            final(self).game_over == old(self).game_over,
            scene == ActiveScene::Playing ==> is_fresh(final(self).game_scene)
                && final(self).game_scene.wf(),
            scene != ActiveScene::Playing ==> final(self).game_scene == old(self).game_scene,
            old(self).wf() ==> final(self).wf(),
    {
        if scene == ActiveScene::Playing {
            self.game_scene.reset();
        }
        self.active = scene;
    }

    /// One frame: hands the input to the active scene and moves to the scene
    /// it asks for. Returns what it asked for; on `Exit` the caller ends the
    /// program.
    pub fn update(&mut self, input: FrameInput) -> (r: Option<SwapScene>)
        requires
            old(self).wf(),
        ensures
            frame_relation(*old(self), input, *final(self), r),
            final(self).wf(),
    {
        let swap = match self.active {
            ActiveScene::Menu => self.menu.update(input.pointer),
            ActiveScene::Playing => self.game_scene.update(input.keys, input.now_ms),
            ActiveScene::GameOver => self.game_over.update(input.pointer),
        };
        match swap {
            Some(SwapScene::StartMenu) => self.set_scene(ActiveScene::Menu),
            Some(SwapScene::Game) => self.set_scene(ActiveScene::Playing),
            Some(SwapScene::GameOver) => self.set_scene(ActiveScene::GameOver),
            _ => {},
        }
        swap
    }
}

} // verus!
