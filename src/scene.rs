//! Scene transitions, buttons and the two menu scenes.
use vstd::prelude::*;
use crate::grid::Position;

verus! {

/// What a scene asks of the dispatcher after a frame.
#[derive(Clone, Copy, Debug, PartialEq, Eq, Structural)]
pub enum SwapScene {
    StartMenu,
    Game,
    GameOver,
    Exit,
}

/// The pointer as seen during one frame, in whole pixels.
#[derive(Clone, Copy, Debug, PartialEq, Eq, Structural)]
pub struct Pointer {
    pub x: i32,
    pub y: i32,
    /// Whether the primary button went down during this frame.
    pub pressed: bool,
}

/// A rectangle on the screen, with a label, that fires `action` when clicked.
pub struct Button {
    /// Top left corner, in pixels.
    pub pos: Position,
    pub width: i32,
    pub height: i32,
    pub label: String,
    pub action: SwapScene,
}

/// Whether the point `(x, y)` lies strictly inside the button's rectangle.
pub open spec fn over_button(b: &Button, x: int, y: int) -> bool {
    b.pos.x < x < b.pos.x + b.width && b.pos.y < y < b.pos.y + b.height
}

/// What the pointer asks for over a pair of buttons, the first one taking
/// precedence where they overlap: the action of the button under it while
/// the primary button is held, else nothing.
pub open spec fn clicked(first: &Button, second: &Button, p: Pointer) -> Option<SwapScene> {
    if !p.pressed {
        None
    } else if over_button(first, p.x as int, p.y as int) {
        Some(first.action)
    } else if over_button(second, p.x as int, p.y as int) {
        Some(second.action)
    } else {
        None
    }
}

impl Button {
    /// A button of 300 by 100 pixels with its top left corner at `(x, y)`.
    pub fn new(x: i32, y: i32, label: &str, action: SwapScene) -> (r: Button)
        ensures
            r.pos == (Position { x, y }),
            r.width == 300,
            r.height == 100,
            r.label@ == label@,
            r.action == action,
    {
        Button { pos: Position { x, y }, width: 300, height: 100, label: label.to_string(), action }
    }

    /// Whether the pointer lies strictly inside the button.
    pub fn is_mouse_over_button(&self, x: i32, y: i32) -> (r: bool)
        ensures
            r == over_button(self, x as int, y as int),
    {
        let (x, y) = (x as i64, y as i64);
        let (left, top) = (self.pos.x as i64, self.pos.y as i64);
        x > left && x < left + self.width as i64 && y > top && y < top + self.height as i64
    }

    /// The baseline of the label's text: 12 pixels below the button's middle,
    /// the half height rounded toward zero.
    pub fn label_baseline(&self) -> (r: i64)
        ensures
            self.height >= 0 ==> r == self.pos.y + self.height / 2 + 12,
            self.height < 0 ==> r == self.pos.y - (-self.height) / 2 + 12,
    {
        self.pos.y as i64 + self.height as i64 / 2 + 12
    }
}

/// What one frame of a two-button scene asks for.
fn click(first: &Button, second: &Button, p: Pointer) -> (r: Option<SwapScene>)
    ensures
        r == clicked(first, second, p),
{
    let active: Option<&Button> = if first.is_mouse_over_button(p.x, p.y) {
        Some(first)
    } else if second.is_mouse_over_button(p.x, p.y) {
        Some(second)
    } else {
        None
    };
    if p.pressed {
        match active {
            Some(b) => Some(b.action),
            None => None,
        }
    } else {
        None
    }
}

/// The start menu: a button that starts a game above one that exits.
pub struct Menu {
    pub start_button: Button,
    pub exit_button: Button,
}

impl Menu {
    /// The menu with its two buttons stacked at the top of the screen.
    pub fn new() -> (r: Menu)
        ensures
            r.start_button.pos == (Position { x: 250, y: 100 }),
            r.exit_button.pos == (Position { x: 250, y: 300 }),
            r.start_button.width == 300 && r.start_button.height == 100,
            r.exit_button.width == 300 && r.exit_button.height == 100,
            r.start_button.action == SwapScene::Game,
            r.exit_button.action == SwapScene::Exit,
            r.start_button.label@ == "Start Game"@,
            r.exit_button.label@ == "Exit Game"@,
    {
        Menu {
            start_button: Button::new(250, 100, "Start Game", SwapScene::Game),
            exit_button: Button::new(250, 300, "Exit Game", SwapScene::Exit),
        }
    }

    /// What the pointer asks for during this frame.
    pub fn update(&self, p: Pointer) -> (r: Option<SwapScene>)
        ensures
            r == clicked(&self.start_button, &self.exit_button, p),
    {
        click(&self.start_button, &self.exit_button, p)
    }
}

/// The game-over screen: a button that restarts above one that exits.
pub struct GameOver {
    pub restart_button: Button,
    pub exit_button: Button,
}

impl GameOver {
    /// The game-over screen with its two buttons stacked at the top of the screen.
    pub fn new() -> (r: GameOver)
        ensures
            r.restart_button.pos == (Position { x: 250, y: 100 }),
            r.exit_button.pos == (Position { x: 250, y: 300 }),
            r.restart_button.width == 300 && r.restart_button.height == 100,
            r.exit_button.width == 300 && r.exit_button.height == 100,
            r.restart_button.action == SwapScene::Game,
            r.exit_button.action == SwapScene::Exit,
            r.restart_button.label@ == "Restart Game"@,
            r.exit_button.label@ == "Exit Game"@,
    {
        GameOver {
            restart_button: Button::new(250, 100, "Restart Game", SwapScene::Game),
            exit_button: Button::new(250, 300, "Exit Game", SwapScene::Exit),
        }
    }

    /// What the pointer asks for during this frame.
    pub fn update(&self, p: Pointer) -> (r: Option<SwapScene>)
        ensures
            r == clicked(&self.restart_button, &self.exit_button, p),
    {
        click(&self.restart_button, &self.exit_button, p)
    }
}

} // verus!
