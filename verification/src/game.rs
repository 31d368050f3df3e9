//! The game as a whole: one tick runs the systems of the active state, in
//! order, and then makes the one change of state that they asked for.

use vstd::prelude::*;
use crate::ball::{
    advance_fits, apply_velocity, bricks_hit, check_for_collisions, fail_zone_hit, is_new_ball,
    lemma_survivors_len, lemma_velocity_after_keeps_speed, moved_ball, render_ball, strike,
    survivors, try_advance, velocity_after, Ball,
};
use crate::bricks::{
    bricks_of, config_error, lemma_brick_count_bounded, render_bricks, ConfigError,
};
use crate::collision::reversible;
use crate::components::{Body, Brick, Collider, FailZone, GameData, Scoreboard};
use crate::math::Vec2;
use crate::menu::{menu_interaction, select_menu_item, selected_change, Menu, MenuView};
use crate::paddle::{
    handle_paddle_move, has_paddle_room, left_bound, new_paddle, paddle_after, render_paddle,
    right_bound, Paddle,
};
use crate::state::{
    accepts, handle_state_change, next_stack, outcome_of, GameState, Lifecycle, Outcome,
    StateChange, StateError, StateStack,
};
use crate::walls::{render_walls, walls_of, Viewport, Wall, WallLocation};

verus! {

/// The keys of one tick. The arrow keys to the sides count while they are
/// held down, every other key in the tick in which it went down.
#[derive(Clone, Copy, Debug, PartialEq, Eq, Structural)]
pub struct Input {
    pub left: bool,
    pub right: bool,
    pub up: bool,
    pub down: bool,
    pub confirm: bool,
    pub pause: bool,
    pub faster: bool,
    pub slower: bool,
}

/// Why a tick or a change of state failed.
#[derive(Clone, Copy, Debug, PartialEq, Eq, Structural)]
pub enum GameError {
    /// No bricks can be laid out for the viewport, so no game can start.
    Config(ConfigError),
    /// The stack of states refused the change.
    State(StateError),
}

/// The game as a value.
pub struct GameView {
    pub states: Seq<GameState>,
    pub score: u64,
    pub scoreboard: Option<Scoreboard>,
    pub paddle: Option<Paddle>,
    pub ball: Option<Ball>,
    pub colliders: Seq<Collider>,
    pub menu: Option<MenuView>,
    pub terminated: bool,
}

/// The state shows a menu with a play button.
pub open spec fn shows_menu(state: GameState) -> bool {
    state == GameState::MainMenu || state == GameState::Paused
}

/// The menu that is shown while `state` is active.
pub open spec fn menu_for(state: GameState) -> Option<MenuView> {
    if shows_menu(state) {
        Some(MenuView::fresh())
    } else {
        None
    }
}

/// The change starts a new game: it enters `InGame` anew.
pub open spec fn starts_game(change: StateChange) -> bool {
    change == StateChange::Replace(GameState::InGame) || change == StateChange::Push(
        GameState::InGame,
    )
}

/// The collider that a wall of the arena becomes: the bottom wall is the
/// zone in which the ball is lost, the three others reflect it.
pub open spec fn wall_collider(wall: Wall) -> Collider {
    if wall.location == WallLocation::Bottom {
        (FailZone { body: wall.body }).as_collider()
    } else {
        wall.as_collider()
    }
}

/// The colliders of a new game: the walls of the arena, then the bricks.
pub open spec fn new_colliders(walls: Seq<Wall>, bricks: Seq<Brick>) -> Seq<Collider> {
    Seq::new(
        walls.len() + bricks.len(),
        |k: int|
            if k < walls.len() {
                wall_collider(walls[k])
            } else {
                bricks[k - walls.len()].as_collider()
            },
    )
}

impl GameView {
    /// The active state: the top of the stack.
    pub open spec fn active(self) -> GameState {
        self.states.last()
    }

    /// A game is in progress: `InGame` is on the stack, active or paused.
    pub open spec fn in_game(self) -> bool {
        self.states.contains(GameState::InGame)
    }

    /// The game is well formed. The stack holds a state. The paddle, the
    /// ball, the scoreboard and the colliders are there exactly while a game
    /// is in progress. A menu is there exactly while its state is active.
    pub open spec fn wf(self) -> bool {
        &&& self.states.len() >= 1
        &&& self.paddle.is_some() == self.in_game()
        &&& self.ball.is_some() == self.in_game()
        &&& self.scoreboard.is_some() == self.in_game()
        &&& !self.in_game() ==> self.colliders.len() == 0
        &&& self.ball matches Some(ball) ==> reversible(ball.velocity)
        &&& self.score + self.colliders.len() <= u64::MAX
        &&& self.menu.is_some() == shows_menu(self.active())
        &&& self.menu matches Some(menu) ==> menu.wf()
    }

    /// A tick can run. While a game is played, the arena must have room for
    /// the paddle's bounds and the ball's move must fit the coordinate type.
    /// While a menu is shown, one of its buttons must be selected.
    pub open spec fn ready(self, dt_micros: u64, viewport: Viewport) -> bool {
        if self.terminated {
            true
        } else if self.active() == GameState::InGame {
            &&& left_bound(viewport.width as int) <= right_bound(viewport.width as int)
            &&& advance_fits(
                self.ball.unwrap().body.position,
                self.ball.unwrap().velocity,
                dt_micros,
            )
        } else if shows_menu(self.active()) {
            self.menu.unwrap().selected.is_some()
        } else {
            true
        }
    }

    /// The game after the systems of `InGame` have run, in this order: the
    /// paddle is moved, the ball is moved, the moved ball is tested against
    /// the colliders and then against the paddle, and the scoreboard is
    /// brought up to date.
    pub open spec fn after_play(self, input: Input, dt_micros: u64, viewport: Viewport) -> GameView {
        let paddle = paddle_after(
            self.paddle.unwrap(),
            input.left,
            input.right,
            input.faster,
            input.slower,
            dt_micros,
            viewport.width,
        );
        let moved = moved_ball(self.ball.unwrap(), dt_micros);
        let velocity = velocity_after(
            self.colliders.push(paddle.as_collider()),
            moved.body,
            moved.velocity,
        );
        let score = (self.score + bricks_hit(self.colliders, moved.body)) as u64;
        GameView {
            score,
            scoreboard: Some(Scoreboard { shown: score }),
            paddle: Some(paddle),
            ball: Some(Ball { body: moved.body, velocity }),
            colliders: survivors(self.colliders, moved.body),
            ..self
        }
    }

    /// The change that the systems of `InGame` ask for. The pause key asks
    /// first; a ball in a fail zone asks for the end of the game.
    pub open spec fn play_request(self, input: Input, dt_micros: u64) -> Option<StateChange> {
        if input.pause {
            Some(StateChange::Push(GameState::Paused))
        } else if fail_zone_hit(self.colliders, moved_ball(self.ball.unwrap(), dt_micros).body) {
            Some(StateChange::Replace(GameState::GameOver))
        } else {
            None
        }
    }

    /// The game after the systems of the active state have run.
    pub open spec fn after_systems(self, input: Input, dt_micros: u64, viewport: Viewport) -> GameView {
        if self.terminated {
            self
        } else if self.active() == GameState::InGame {
            self.after_play(input, dt_micros, viewport)
        } else if shows_menu(self.active()) {
            GameView { menu: Some(self.menu.unwrap().after_keys(input.up, input.down)), ..self }
        } else {
            self
        }
    }

    /// The change that the systems of the active state ask for. A menu
    /// confirms the button that was selected when the tick began.
    pub open spec fn request(self, input: Input, dt_micros: u64) -> Option<StateChange> {
        if self.terminated {
            None
        } else if self.active() == GameState::InGame {
            self.play_request(input, dt_micros)
        } else if shows_menu(self.active()) {
            selected_change(self.active(), self.menu.unwrap().selected_action().unwrap(), input.confirm)
        } else if self.active() == GameState::GameOver && input.confirm {
            Some(StateChange::Replace(GameState::MainMenu))
        } else {
            None
        }
    }

    /// Why a change fails, if it does: a new game needs a brick layout for
    /// the viewport, and the stack must accept the change.
    pub open spec fn refusal(self, change: StateChange, viewport: Viewport) -> Option<GameError> {
        if starts_game(change) && config_error(viewport).is_some() {
            Some(GameError::Config(config_error(viewport).unwrap()))
        } else if !accepts(self.states, change) {
            Some(GameError::State(StateError::StackEmpty))
        } else {
            None
        }
    }

    /// The game after a change that does not fail. `Exit`, and entering the
    /// state `Exit`, end the game. A change that starts a new game sets the
    /// score to zero and makes a new paddle, the ball `drawn`, and the walls
    /// and bricks of the viewport. A change that leaves no `InGame` on the
    /// stack removes paddle, ball, scoreboard and colliders; the score stays.
    /// Every other change keeps them as they are, so a paused game resumes
    /// where it stopped.
    pub open spec fn after_change(self, change: StateChange, viewport: Viewport, drawn: Ball) -> GameView {
        let states = next_stack(self.states, change);
        if change == StateChange::Exit {
            GameView { terminated: true, ..self }
        } else if starts_game(change) {
            GameView {
                states,
                score: 0,
                scoreboard: Some(Scoreboard { shown: 0 }),
                paddle: Some(new_paddle(viewport)),
                ball: Some(drawn),
                colliders: new_colliders(walls_of(viewport), bricks_of(viewport)),
                menu: menu_for(states.last()),
                terminated: self.terminated,
            }
        } else if states.contains(GameState::InGame) {
            GameView {
                states,
                menu: menu_for(states.last()),
                terminated: self.terminated || states.last() == GameState::Exit,
                ..self
            }
        } else {
            GameView {
                states,
                scoreboard: None,
                paddle: None,
                ball: None,
                colliders: Seq::empty(),
                menu: menu_for(states.last()),
                terminated: self.terminated || states.last() == GameState::Exit,
                ..self
            }
        }
    }
}

/// The ball of an option, or a ball at rest at the origin where there is
/// none.
pub open spec fn ball_or_rest(ball: Option<Ball>) -> Ball {
    match ball {
        Some(ball) => ball,
        None => Ball {
            body: Body { position: Vec2 { x: 0, y: 0 }, size: Vec2 { x: 0, y: 0 } },
            velocity: Vec2 { x: 0, y: 0 },
        },
    }
}

/// The game after one tick: the systems of the active state run, and then
/// the change that they asked for is made, unless it fails.
pub open spec fn tick_spec(
    g: GameView,
    input: Input,
    dt_micros: u64,
    viewport: Viewport,
    drawn: Ball,
) -> GameView {
    let mid = g.after_systems(input, dt_micros, viewport);
    match g.request(input, dt_micros) {
        Some(change) => if mid.refusal(change, viewport).is_some() {
            mid
        } else {
            mid.after_change(change, viewport, drawn)
        },
        None => mid,
    }
}

/// What one tick reports: the hooks of the change that was made, nothing
/// where no change was asked for, or why the change failed.
pub open spec fn tick_result(g: GameView, input: Input, dt_micros: u64, viewport: Viewport) -> Result<
    Option<Outcome>,
    GameError,
> {
    let mid = g.after_systems(input, dt_micros, viewport);
    match g.request(input, dt_micros) {
        Some(change) => match mid.refusal(change, viewport) {
            Some(e) => Err(e),
            None => Ok(Some(outcome_of(mid.states, change))),
        },
        None => Ok(None),
    }
}

/// The systems of the active state keep the game well formed, and they
/// change neither the stack nor whether the game has ended.
pub proof fn lemma_systems_keep_wf(g: GameView, input: Input, dt_micros: u64, viewport: Viewport)
    requires
        g.wf(),
        g.ready(dt_micros, viewport),
    ensures
        g.after_systems(input, dt_micros, viewport).wf(),
        g.after_systems(input, dt_micros, viewport).states == g.states,
        g.after_systems(input, dt_micros, viewport).terminated == g.terminated,
{
    if !g.terminated && g.active() == GameState::InGame {
        assert(g.in_game());
        let paddle = paddle_after(
            g.paddle.unwrap(),
            input.left,
            input.right,
            input.faster,
            input.slower,
            dt_micros,
            viewport.width,
        );
        let moved = moved_ball(g.ball.unwrap(), dt_micros);
        lemma_survivors_len(g.colliders, moved.body);
        lemma_velocity_after_keeps_speed(
            g.colliders.push(paddle.as_collider()),
            moved.body,
            moved.velocity,
        );
    }
}

/// While no game is played, a tick's systems move nothing: paddle, ball,
/// colliders and score are as they were.
pub proof fn lemma_idle_systems_move_nothing(
    g: GameView,
    input: Input,
    dt_micros: u64,
    viewport: Viewport,
)
    requires
        g.terminated || g.active() != GameState::InGame,
    ensures
        g.after_systems(input, dt_micros, viewport).paddle == g.paddle,
        g.after_systems(input, dt_micros, viewport).ball == g.ball,
        g.after_systems(input, dt_micros, viewport).colliders == g.colliders,
        g.after_systems(input, dt_micros, viewport).score == g.score,
{
}

/// A change that does not fail keeps the game well formed, whatever new
/// ball was drawn.
pub proof fn lemma_change_keeps_wf(g: GameView, change: StateChange, viewport: Viewport, drawn: Ball)
    requires
        g.wf(),
        g.refusal(change, viewport).is_none(),
        starts_game(change) ==> is_new_ball(drawn),
    ensures
        g.after_change(change, viewport, drawn).wf(),
{
    let states = next_stack(g.states, change);
    if change == StateChange::Exit {
    } else if starts_game(change) {
        assert(states[states.len() - 1] == GameState::InGame);
        assert(states.contains(GameState::InGame));
        lemma_brick_count_bounded(viewport);
    } else if states.contains(GameState::InGame) {
        let k = choose|k: int| 0 <= k < states.len() && states[k] == GameState::InGame;
        match change {
            StateChange::Replace(state) => {
                assert(states[k] == state);
            },
            StateChange::Push(state) => {
                assert(k < g.states.len());
                assert(g.states[k] == GameState::InGame);
            },
            StateChange::Pop => {
                assert(g.states[k] == GameState::InGame);
            },
            StateChange::Exit => {},
        }
        assert(g.in_game());
    } else {
    }
}

/// Starting a new game by `Replace` leaves `InGame` alone on the stack and
/// the score at zero, whatever the stack and the score were before.
pub proof fn lemma_new_game_resets(g: GameView, viewport: Viewport, drawn: Ball)
    requires
        g.states.len() >= 1,
    ensures
        g.after_change(StateChange::Replace(GameState::InGame), viewport, drawn).states
            == seq![GameState::InGame],
        g.after_change(StateChange::Replace(GameState::InGame), viewport, drawn).score == 0,
        g.after_change(StateChange::Replace(GameState::InGame), viewport, drawn).scoreboard
            == Some(Scoreboard { shown: 0 }),
        g.after_change(StateChange::Replace(GameState::InGame), viewport, drawn).ball == Some(
            drawn,
        ),
{
}

/// A ball in a fail zone ends the game once, however many fail zones it
/// struck. The rest of the tick still runs: paddle and ball are moved, and
/// the other colliders reflect and score, before the change is made at the
/// end of the tick. Only the pause key, which asks first, holds the end of
/// the game back.
pub proof fn lemma_fail_zone_ends_game(
    g: GameView,
    input: Input,
    dt_micros: u64,
    viewport: Viewport,
    drawn: Ball,
)
    requires
        g.wf(),
        !g.terminated,
        g.active() == GameState::InGame,
        !input.pause,
        fail_zone_hit(g.colliders, moved_ball(g.ball.unwrap(), dt_micros).body),
    ensures
        g.request(input, dt_micros) == Some(StateChange::Replace(GameState::GameOver)),
        tick_result(g, input, dt_micros, viewport) == Ok::<Option<Outcome>, GameError>(
            Some(
                Outcome::Changed {
                    before: Lifecycle::OnExit(GameState::InGame),
                    after: Lifecycle::OnEnter(GameState::GameOver),
                },
            ),
        ),
        tick_spec(g, input, dt_micros, viewport, drawn).states == seq![GameState::GameOver],
        tick_spec(g, input, dt_micros, viewport, drawn).score == g.after_play(
            input,
            dt_micros,
            viewport,
        ).score,
        tick_spec(g, input, dt_micros, viewport, drawn).ball.is_none(),
        tick_spec(g, input, dt_micros, viewport, drawn).paddle.is_none(),
{
    let states = seq![GameState::GameOver];
    assert(!states.contains(GameState::InGame)) by {
        if states.contains(GameState::InGame) {
            let k = choose|k: int| 0 <= k < states.len() && states[k] == GameState::InGame;
            assert(states[k] == GameState::GameOver);
        }
    }
}

/// The game: the stack of states, the score of the session, and the
/// paddle, the ball and the colliders of the game in progress.
#[derive(Debug)]
pub struct Game {
    pub states: StateStack,
    pub game_data: GameData,
    pub scoreboard: Option<Scoreboard>,
    pub paddle: Option<Paddle>,
    pub ball: Option<Ball>,
    pub colliders: Vec<Collider>,
    pub menu: Option<Menu>,
    pub terminated: bool,
}

impl View for Game {
    type V = GameView;

    open spec fn view(&self) -> GameView {
        GameView {
            states: self.states@,
            score: self.game_data.score,
            scoreboard: self.scoreboard,
            paddle: self.paddle,
            ball: self.ball,
            colliders: self.colliders@,
            menu: match self.menu {
                Some(menu) => Some(menu@),
                None => None,
            },
            terminated: self.terminated,
        }
    }
}

/// The pause key asks for the pause menu on top of the game.
pub fn handle_pause_game(pause_pressed: bool) -> (change: Option<StateChange>)
    ensures
        change == if pause_pressed {
            Some(StateChange::Push(GameState::Paused))
        } else {
            None::<StateChange>
        },
{
    if pause_pressed {
        Some(StateChange::Push(GameState::Paused))
    } else {
        None
    }
}

/// Brings the scoreboard up to date with the score.
pub fn update_score(game_data: &GameData, scoreboard: &mut Scoreboard)
    ensures
        final(scoreboard).shown == game_data.score,
{
    scoreboard.shown = game_data.score;
}

/// Builds the colliders of a new game for a viewport: the walls of the
/// arena, the bottom one as the fail zone, then the bricks.
pub fn setup_game(viewport: &Viewport) -> (colliders: Result<Vec<Collider>, ConfigError>)
    ensures
        match colliders {
            Ok(c) => config_error(*viewport).is_none() && c@ == new_colliders(
                walls_of(*viewport),
                bricks_of(*viewport),
            ),
            Err(e) => config_error(*viewport) == Some(e),
        },
{
    let bricks = match render_bricks(viewport) {
        Ok(bricks) => bricks,
        Err(e) => {
            return Err(e);
        },
    };
    let walls = render_walls(viewport);
    let mut colliders: Vec<Collider> = Vec::new();
    let n_walls = walls.len();
    let mut i: usize = 0;
    while i < n_walls
        invariant
            0 <= i <= n_walls,
            n_walls == walls@.len(),
            colliders@.len() == i,
            forall|k: int| 0 <= k < i ==> colliders@[k] == wall_collider(#[trigger] walls@[k]),
        decreases n_walls - i,
    {
        let wall = walls[i];
        let collider = match wall.location {
            WallLocation::Bottom => (FailZone { body: wall.body }).collider(),
            _ => wall.collider(),
        };
        colliders.push(collider);
        i = i + 1;
    }
    let n_bricks = bricks.len();
    let mut j: usize = 0;
    while j < n_bricks
        invariant
            0 <= j <= n_bricks,
            n_bricks == bricks@.len(),
            n_walls == walls@.len(),
            colliders@.len() == n_walls + j,
            forall|k: int| 0 <= k < n_walls ==> colliders@[k] == wall_collider(#[trigger] walls@[k]),
            forall|k: int|
                0 <= k < j ==> colliders@[n_walls + k] == (#[trigger] bricks@[k]).as_collider(),
        decreases n_bricks - j,
    {
        colliders.push(bricks[j].collider());
        j = j + 1;
    }
    assert(colliders@ =~= new_colliders(walls@, bricks@));
    Ok(colliders)
}

impl Game {
    /// The game is well formed.
    pub open spec fn wf(&self) -> bool {
        self.states.wf() && self@.wf()
    }

    /// A game that has just been started: the main menu is shown.
    pub fn new() -> (game: Game)
        ensures
            game.wf(),
            game@.states == seq![GameState::MainMenu],
            game@.score == 0,
            game@.scoreboard.is_none(),
            game@.paddle.is_none(),
            game@.ball.is_none(),
            game@.colliders.len() == 0,
            game@.menu == Some(MenuView::fresh()),
            !game@.terminated,
    {
        let game = Game {
            states: StateStack::new(GameState::MainMenu),
            game_data: GameData { score: 0 },
            scoreboard: None,
            paddle: None,
            ball: None,
            colliders: Vec::new(),
            menu: Some(Menu::new()),
            terminated: false,
        };
        proof {
            let states = seq![GameState::MainMenu];
            if states.contains(GameState::InGame) {
                let k = choose|k: int| 0 <= k < states.len() && states[k] == GameState::InGame;
                assert(states[k] == GameState::MainMenu);
            }
        }
        game
    }

    /// Whether the game is well formed. Every game that `new` made and that
    /// only `tick` and `transition` changed is; one whose fields were set by
    /// hand may not be.
    pub fn is_well_formed(&self) -> (ok: bool)
        requires
            self.states.wf(),
        ensures
            ok == self.wf(),
    {
        let in_game = self.states.contains(GameState::InGame);
        let shows = match self.states.current() {
            GameState::MainMenu | GameState::Paused => true,
            _ => false,
        };
        let ball_ok = match self.ball {
            Some(ball) => ball.velocity.x > i64::MIN && ball.velocity.y > i64::MIN,
            None => true,
        };
        let menu_ok = match &self.menu {
            Some(menu) => match menu.selected {
                Some(i) => i < menu.buttons.len(),
                None => true,
            },
            None => true,
        };
        let count = self.colliders.len() as u64;
        self.paddle.is_some() == in_game && self.ball.is_some() == in_game
            && self.scoreboard.is_some() == in_game && (in_game || count == 0) && ball_ok && count
            <= u64::MAX - self.game_data.score && self.menu.is_some() == shows && menu_ok
    }

    /// Whether a tick can run: see `GameView::ready`.
    pub fn can_tick(&self, dt_micros: u64, viewport: &Viewport) -> (ready: bool)
        requires
            self.wf(),
        ensures
            ready == self@.ready(dt_micros, *viewport),
    {
        if self.terminated {
            return true;
        }
        match self.states.current() {
            GameState::InGame => {
                assert(self@.states[self@.states.len() - 1] == GameState::InGame);
                let ball = self.ball.unwrap();
                has_paddle_room(viewport.width) && try_advance(
                    ball.body.position,
                    ball.velocity,
                    dt_micros,
                ).is_some()
            },
            GameState::MainMenu | GameState::Paused => match &self.menu {
                Some(menu) => menu.selected.is_some(),
                None => false,
            },
            _ => true,
        }
    }

    /// Makes one change of state at once, with all that follows from it for
    /// the paddle, the ball, the colliders, the score and the menu. A change
    /// that fails changes nothing.
    pub fn transition(&mut self, change: StateChange, viewport: &Viewport) -> (result: Result<
        Outcome,
        GameError,
    >)
        requires
            old(self).wf(),
        ensures
            final(self).wf(),
            match result {
                Ok(outcome) => {
                    &&& old(self)@.refusal(change, *viewport).is_none()
                    &&& outcome == outcome_of(old(self)@.states, change)
                    &&& starts_game(change) ==> is_new_ball(ball_or_rest(final(self)@.ball))
                    &&& final(self)@ == old(self)@.after_change(
                        change,
                        *viewport,
                        ball_or_rest(final(self)@.ball),
                    )
                },
                Err(e) => old(self)@.refusal(change, *viewport) == Some(e) && final(self)@ == old(
                    self,
                )@,
            },
    {
        let starts = match change {
            StateChange::Replace(GameState::InGame) => true,
            StateChange::Push(GameState::InGame) => true,
            _ => false,
        };
        let mut fresh: Vec<Collider> = Vec::new();
        if starts {
            match setup_game(viewport) {
                Ok(colliders) => {
                    fresh = colliders;
                },
                Err(e) => {
                    return Err(GameError::Config(e));
                },
            }
        }
        let outcome = match handle_state_change(&mut self.states, change) {
            Ok(outcome) => outcome,
            Err(e) => {
                return Err(GameError::State(e));
            },
        };
        match outcome {
            Outcome::Terminated => {
                self.terminated = true;
            },
            Outcome::Changed { .. } => {
                let top = self.states.current();
                self.menu = match top {
                    GameState::MainMenu | GameState::Paused => Some(Menu::new()),
                    _ => None,
                };
                if starts {
                    self.game_data.score = 0;
                    self.scoreboard = Some(Scoreboard { shown: 0 });
                    self.paddle = Some(render_paddle(viewport));
                    self.ball = Some(render_ball());
                    self.colliders = fresh;
                } else {
                    if top == GameState::Exit {
                        self.terminated = true;
                    }
                    if !self.states.contains(GameState::InGame) {
                        self.scoreboard = None;
                        self.paddle = None;
                        self.ball = None;
                        self.colliders = Vec::new();
                    }
                }
            },
        }
        proof {
            lemma_change_keeps_wf(old(self)@, change, *viewport, ball_or_rest(self@.ball));
            assert(self@ =~= old(self)@.after_change(
                change,
                *viewport,
                ball_or_rest(self@.ball),
            ));
        }
        Ok(outcome)
    }

    /// Runs the systems of `InGame` and says which change they ask for.
    fn play(&mut self, input: &Input, dt_micros: u64, viewport: &Viewport) -> (request: Option<
        StateChange,
    >)
        requires
            old(self).wf(),
            !old(self)@.terminated,
            old(self)@.active() == GameState::InGame,
            old(self)@.ready(dt_micros, *viewport),
        ensures
            final(self)@ == old(self)@.after_play(*input, dt_micros, *viewport),
            request == old(self)@.play_request(*input, dt_micros),
    {
        assert(self@.states[self@.states.len() - 1] == GameState::InGame);
        let paused = handle_pause_game(input.pause);
        let mut paddle = self.paddle.unwrap();
        handle_paddle_move(
            &mut paddle,
            input.left,
            input.right,
            input.faster,
            input.slower,
            dt_micros,
            viewport.width,
        );
        let mut ball = self.ball.unwrap();
        apply_velocity(&mut ball, dt_micros);
        let ghost statics = self.colliders@;
        let ghost moved = ball;
        let mut game_data = self.game_data;
        let mut colliders: Vec<Collider> = Vec::new();
        std::mem::swap(&mut colliders, &mut self.colliders);
        let lost = check_for_collisions(&mut game_data, &mut ball, &mut colliders);
        let (velocity, _, _) = strike(&ball.body, ball.velocity, &paddle.collider());
        proof {
            let scene = statics.push(paddle.as_collider());
            assert(scene.drop_last() =~= statics);
            assert(scene.last() == paddle.as_collider());
        }
        ball.velocity = velocity;
        let mut scoreboard = Scoreboard { shown: 0 };
        update_score(&game_data, &mut scoreboard);
        self.game_data = game_data;
        self.colliders = colliders;
        self.paddle = Some(paddle);
        self.ball = Some(ball);
        self.scoreboard = Some(scoreboard);
        assert(self@ =~= old(self)@.after_play(*input, dt_micros, *viewport));
        match paused {
            Some(change) => Some(change),
            None => if lost {
                Some(StateChange::Replace(GameState::GameOver))
            } else {
                None
            },
        }
    }

    /// Runs one tick. The systems of the active state run first, in a fixed
    /// order, and the one change of state that they asked for is made when
    /// they are done. Where that change fails, the systems' work stays and
    /// the change is dropped. A game that has ended does nothing.
    pub fn tick(&mut self, input: &Input, dt_micros: u64, viewport: &Viewport) -> (result: Result<
        Option<Outcome>,
        GameError,
    >)
        requires
            old(self).wf(),
            old(self)@.ready(dt_micros, *viewport),
        ensures
            final(self).wf(),
            result == tick_result(old(self)@, *input, dt_micros, *viewport),
            final(self)@ == tick_spec(
                old(self)@,
                *input,
                dt_micros,
                *viewport,
                ball_or_rest(final(self)@.ball),
            ),
            old(self)@.request(*input, dt_micros) matches Some(change) && starts_game(change)
                && result.is_ok() ==> is_new_ball(ball_or_rest(final(self)@.ball)),
    {
        proof {
            lemma_systems_keep_wf(old(self)@, *input, dt_micros, *viewport);
        }
        if self.terminated {
            return Ok(None);
        }
        let active = self.states.current();
        let request = match active {
            GameState::InGame => self.play(input, dt_micros, viewport),
            GameState::MainMenu | GameState::Paused => {
                let mut request: Option<StateChange> = None;
                match &self.menu {
                    Some(shown) => {
                        match shown.action() {
                            Some(action) => {
                                request = select_menu_item(active, action, input.confirm);
                            },
                            None => {},
                        }
                    },
                    None => {},
                }
                let mut menu: Option<Menu> = None;
                std::mem::swap(&mut menu, &mut self.menu);
                match menu {
                    Some(mut shown) => {
                        menu_interaction(&mut shown, input.up, input.down);
                        self.menu = Some(shown);
                    },
                    None => {},
                }
                request
            },
            GameState::GameOver => if input.confirm {
                Some(StateChange::Replace(GameState::MainMenu))
            } else {
                None
            },
            GameState::Exit => None,
        };
        assert(self@ =~= old(self)@.after_systems(*input, dt_micros, *viewport));
        assert(request == old(self)@.request(*input, dt_micros));
        match request {
            Some(change) => match self.transition(change, viewport) {
                Ok(outcome) => Ok(Some(outcome)),
                Err(e) => Err(e),
            },
            None => Ok(None),
        }
    }
}

} // verus!
