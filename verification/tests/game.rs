use breakout::ball::Ball;
use breakout::bricks::ConfigError;
use breakout::components::{Body, Collider, ColliderKind, GameData, Scoreboard};
use breakout::game::{handle_pause_game, setup_game, update_score, Game, GameError, Input};
use breakout::math::Vec2;
use breakout::menu::MenuButtonAction;
use breakout::state::{GameState, Lifecycle, Outcome, StateChange, StateError};
use breakout::walls::Viewport;

const VIEW: Viewport = Viewport { width: 800_000, height: 600_000 };
const DT: u64 = 16_667;

const NO_KEYS: Input = Input {
    left: false,
    right: false,
    up: false,
    down: false,
    confirm: false,
    pause: false,
    faster: false,
    slower: false,
};

fn confirm() -> Input {
    Input { confirm: true, ..NO_KEYS }
}

fn started() -> Game {
    let mut game = Game::new();
    assert!(game.can_tick(DT, &VIEW));
    let outcome = game.tick(&confirm(), DT, &VIEW);
    assert_eq!(
        outcome,
        Ok(Some(Outcome::Changed {
            before: Lifecycle::OnExit(GameState::MainMenu),
            after: Lifecycle::OnEnter(GameState::InGame),
        }))
    );
    game
}

fn place_ball(game: &mut Game, x: i64, y: i64, vx: i64, vy: i64) {
    game.ball = Some(Ball {
        body: Body { position: Vec2 { x, y }, size: Vec2 { x: 30_000, y: 30_000 } },
        velocity: Vec2 { x: vx, y: vy },
    });
}

#[test]
fn a_new_game_shows_the_main_menu() {
    let game = Game::new();
    assert_eq!(game.states.states(), vec![GameState::MainMenu]);
    assert_eq!(game.game_data.score, 0);
    assert!(game.paddle.is_none());
    assert!(game.ball.is_none());
    assert!(game.scoreboard.is_none());
    assert!(game.colliders.is_empty());
    assert_eq!(game.menu.as_ref().unwrap().action(), Some(MenuButtonAction::Play));
    assert!(!game.terminated);
}

#[test]
fn an_idle_tick_in_the_menu_changes_nothing() {
    let mut game = Game::new();
    assert_eq!(game.tick(&NO_KEYS, DT, &VIEW), Ok(None));
    assert_eq!(game.states.states(), vec![GameState::MainMenu]);
    assert_eq!(game.menu.as_ref().unwrap().selected, Some(0));
}

#[test]
fn play_starts_a_game_with_everything_in_place() {
    let game = started();
    assert_eq!(game.states.states(), vec![GameState::InGame]);
    assert_eq!(game.game_data.score, 0);
    assert_eq!(game.scoreboard, Some(Scoreboard { shown: 0 }));
    assert!(game.menu.is_none());
    assert!(!game.terminated);

    let paddle = game.paddle.unwrap();
    assert_eq!(paddle.body.position, Vec2 { x: 0, y: -225_000 });
    assert_eq!(paddle.speed, 600_000);

    let ball = game.ball.unwrap();
    assert_eq!(ball.body.position, Vec2 { x: 0, y: -150_000 });
    assert_eq!(ball.body.size, Vec2 { x: 30_000, y: 30_000 });
    assert!(ball.velocity.y < 0);

    assert_eq!(game.colliders, setup_game(&VIEW).unwrap());
}

#[test]
fn the_colliders_of_a_new_game() {
    let colliders = setup_game(&VIEW).unwrap();
    assert_eq!(colliders.len(), 4 + 35);
    let kinds: Vec<ColliderKind> = colliders.iter().take(4).map(|c| c.kind).collect();
    assert_eq!(
        kinds,
        vec![ColliderKind::Wall, ColliderKind::Wall, ColliderKind::Wall, ColliderKind::FailZone]
    );
    assert_eq!(colliders[0].body.position, Vec2 { x: -300_000, y: 0 });
    assert_eq!(colliders[1].body.position, Vec2 { x: 300_000, y: 0 });
    assert_eq!(colliders[2].body.position, Vec2 { x: 0, y: 285_000 });
    assert_eq!(colliders[3].body.position, Vec2 { x: 0, y: -285_000 });
    assert_eq!(colliders[3].body.size, Vec2 { x: 610_000, y: 10_000 });
    assert!(colliders[4..].iter().all(|c| c.kind == ColliderKind::Brick));
    assert_eq!(colliders[4].body.position, Vec2 { x: -210_000, y: 15_000 });
    assert_eq!(colliders[4].body.size, Vec2 { x: 100_000, y: 30_000 });
}

#[test]
fn a_viewport_without_room_for_bricks_starts_no_game() {
    let narrow = Viewport { width: 240_000, height: 600_000 };
    assert_eq!(setup_game(&narrow), Err(ConfigError::NoUsableWidth));
    let mut game = Game::new();
    assert_eq!(
        game.tick(&confirm(), DT, &narrow),
        Err(GameError::Config(ConfigError::NoUsableWidth))
    );
    assert_eq!(game.states.states(), vec![GameState::MainMenu]);
    assert!(game.ball.is_none());
    assert!(game.colliders.is_empty());

    let low = Viewport { width: 800_000, height: 300_000 };
    assert_eq!(
        game.transition(StateChange::Replace(GameState::InGame), &low),
        Err(GameError::Config(ConfigError::NoUsableHeight))
    );
    assert_eq!(game.states.states(), vec![GameState::MainMenu]);
}

#[test]
fn quit_ends_the_game_from_the_menu() {
    let mut game = Game::new();
    assert_eq!(game.tick(&Input { down: true, ..NO_KEYS }, DT, &VIEW), Ok(None));
    assert_eq!(game.menu.as_ref().unwrap().action(), Some(MenuButtonAction::Quit));
    assert_eq!(game.tick(&confirm(), DT, &VIEW), Ok(Some(Outcome::Terminated)));
    assert!(game.terminated);
    assert_eq!(game.states.states(), vec![GameState::MainMenu]);
    // A game that has ended does nothing.
    assert!(game.can_tick(DT, &VIEW));
    assert_eq!(game.tick(&confirm(), DT, &VIEW), Ok(None));
    assert_eq!(game.states.states(), vec![GameState::MainMenu]);
}

#[test]
fn a_menu_confirms_the_button_that_was_selected_when_the_tick_began() {
    let mut game = Game::new();
    let outcome = game.tick(&Input { down: true, confirm: true, ..NO_KEYS }, DT, &VIEW);
    assert!(matches!(outcome, Ok(Some(Outcome::Changed { .. }))));
    assert_eq!(game.states.states(), vec![GameState::InGame]);
}

#[test]
fn a_menu_without_a_selection_cannot_tick() {
    let mut game = Game::new();
    game.tick(&Input { down: true, ..NO_KEYS }, DT, &VIEW).unwrap();
    assert!(game.can_tick(DT, &VIEW));
    game.tick(&Input { up: true, ..NO_KEYS }, DT, &VIEW).unwrap();
    assert_eq!(game.menu.as_ref().unwrap().selected, None);
    assert!(!game.can_tick(DT, &VIEW));
}

#[test]
fn one_tick_moves_the_paddle_then_the_ball() {
    let mut game = started();
    place_ball(&mut game, 0, -50_000, 282_842, -282_842);
    assert!(game.can_tick(DT, &VIEW));
    assert_eq!(game.tick(&Input { right: true, ..NO_KEYS }, DT, &VIEW), Ok(None));
    assert_eq!(game.paddle.unwrap().body.position, Vec2 { x: 10_000, y: -225_000 });
    let ball = game.ball.unwrap();
    assert_eq!(ball.body.position, Vec2 { x: 4_714, y: -54_714 });
    assert_eq!(ball.velocity, Vec2 { x: 282_842, y: -282_842 });
    assert_eq!(game.colliders.len(), 39);
    assert_eq!(game.game_data.score, 0);
}

#[test]
fn collisions_see_the_ball_where_it_has_moved_to() {
    let mut game = started();
    // Before the move the ball is clear of the lowest row of bricks, whose
    // bottom edge is at y = 0; after it, it reaches 14 units into the row.
    place_ball(&mut game, -210_000, -15_010, 0, 1_440);
    assert_eq!(game.tick(&NO_KEYS, DT, &VIEW), Ok(None));
    let ball = game.ball.unwrap();
    assert_eq!(ball.body.position, Vec2 { x: -210_000, y: -14_986 });
    assert_eq!(ball.velocity, Vec2 { x: 0, y: -1_440 });
    assert_eq!(game.game_data.score, 1);
    assert_eq!(game.scoreboard, Some(Scoreboard { shown: 1 }));
    assert_eq!(game.colliders.len(), 38);
    assert!(game
        .colliders
        .iter()
        .all(|c| c.body.position != Vec2 { x: -210_000, y: 15_000 }));
}

#[test]
fn a_brick_is_struck_once_and_never_again() {
    let mut game = started();
    place_ball(&mut game, -210_000, -15_010, 0, 1_440);
    game.tick(&NO_KEYS, DT, &VIEW).unwrap();
    assert_eq!(game.game_data.score, 1);
    // Put the ball back where it struck the brick: the brick is gone.
    place_ball(&mut game, -210_000, -15_010, 0, 1_440);
    game.tick(&NO_KEYS, DT, &VIEW).unwrap();
    assert_eq!(game.game_data.score, 1);
    assert_eq!(game.ball.unwrap().velocity, Vec2 { x: 0, y: 1_440 });
    assert_eq!(game.colliders.len(), 38);
}

#[test]
fn the_paddle_reflects_the_ball() {
    let mut game = started();
    // The paddle's top edge is at y = -215 px.
    place_ball(&mut game, 0, -195_000, 0, -330_000);
    assert_eq!(game.tick(&NO_KEYS, DT, &VIEW), Ok(None));
    let ball = game.ball.unwrap();
    assert_eq!(ball.body.position, Vec2 { x: 0, y: -200_500 });
    assert_eq!(ball.velocity, Vec2 { x: 0, y: 330_000 });
    assert_eq!(game.colliders.len(), 39);
}

#[test]
fn the_ball_is_tested_against_the_paddle_where_it_has_moved_to() {
    let mut game = started();
    game.paddle.as_mut().unwrap().body.position.x = 80_000;
    // At x = 80 px the paddle spans 20 px to 140 px and misses a ball whose
    // right edge is at 15 px; one tick to the left it spans 10 px to 130 px.
    place_ball(&mut game, 0, -195_000, 0, -330_000);
    assert_eq!(game.tick(&Input { left: true, ..NO_KEYS }, DT, &VIEW), Ok(None));
    assert_eq!(game.paddle.unwrap().body.position.x, 70_000);
    assert_eq!(game.ball.unwrap().velocity, Vec2 { x: 0, y: 330_000 });
}

#[test]
fn a_side_wall_reflects_the_ball() {
    let mut game = started();
    place_ball(&mut game, 275_000, -100_000, 360_000, 0);
    assert_eq!(game.tick(&NO_KEYS, DT, &VIEW), Ok(None));
    let ball = game.ball.unwrap();
    assert_eq!(ball.body.position, Vec2 { x: 281_000, y: -100_000 });
    assert_eq!(ball.velocity, Vec2 { x: -360_000, y: 0 });
}

#[test]
fn the_bottom_of_the_arena_ends_the_game_at_the_end_of_the_tick() {
    let mut game = started();
    game.game_data.score = 12;
    place_ball(&mut game, 100_000, -262_000, 0, -240_000);
    let outcome = game.tick(&Input { right: true, ..NO_KEYS }, DT, &VIEW);
    assert_eq!(
        outcome,
        Ok(Some(Outcome::Changed {
            before: Lifecycle::OnExit(GameState::InGame),
            after: Lifecycle::OnEnter(GameState::GameOver),
        }))
    );
    assert_eq!(game.states.states(), vec![GameState::GameOver]);
    assert!(game.ball.is_none());
    assert!(game.paddle.is_none());
    assert!(game.scoreboard.is_none());
    assert!(game.colliders.is_empty());
    assert!(game.menu.is_none());
    // The score of the lost game stays to be shown.
    assert_eq!(game.game_data.score, 12);
}

#[test]
fn after_the_game_is_over_nothing_moves() {
    let mut game = started();
    place_ball(&mut game, 100_000, -262_000, 0, -240_000);
    game.tick(&NO_KEYS, DT, &VIEW).unwrap();
    assert_eq!(game.states.states(), vec![GameState::GameOver]);
    assert!(game.can_tick(DT, &VIEW));
    let keys = Input { left: true, right: false, up: true, down: true, pause: true, ..NO_KEYS };
    assert_eq!(game.tick(&keys, DT, &VIEW), Ok(None));
    assert_eq!(game.states.states(), vec![GameState::GameOver]);
    assert!(game.ball.is_none());
    assert!(game.paddle.is_none());
}

#[test]
fn confirming_game_over_leads_back_to_the_main_menu() {
    let mut game = started();
    place_ball(&mut game, 100_000, -262_000, 0, -240_000);
    game.tick(&NO_KEYS, DT, &VIEW).unwrap();
    let outcome = game.tick(&confirm(), DT, &VIEW);
    assert_eq!(
        outcome,
        Ok(Some(Outcome::Changed {
            before: Lifecycle::OnExit(GameState::GameOver),
            after: Lifecycle::OnEnter(GameState::MainMenu),
        }))
    );
    assert_eq!(game.states.states(), vec![GameState::MainMenu]);
    assert_eq!(game.menu.as_ref().unwrap().action(), Some(MenuButtonAction::Play));
}

#[test]
fn a_second_game_starts_at_zero() {
    let mut game = started();
    place_ball(&mut game, -210_000, -15_010, 0, 1_440);
    game.tick(&NO_KEYS, DT, &VIEW).unwrap();
    assert_eq!(game.game_data.score, 1);
    place_ball(&mut game, 100_000, -262_000, 0, -240_000);
    game.tick(&NO_KEYS, DT, &VIEW).unwrap();
    game.tick(&confirm(), DT, &VIEW).unwrap();
    assert_eq!(game.game_data.score, 1);
    game.tick(&confirm(), DT, &VIEW).unwrap();
    assert_eq!(game.states.states(), vec![GameState::InGame]);
    assert_eq!(game.game_data.score, 0);
    assert_eq!(game.scoreboard, Some(Scoreboard { shown: 0 }));
    assert_eq!(game.colliders.len(), 39);
}

#[test]
fn replace_with_in_game_resets_whatever_the_stack_held() {
    let mut game = started();
    game.game_data.score = 99;
    game.transition(StateChange::Push(GameState::Paused), &VIEW).unwrap();
    game.transition(StateChange::Push(GameState::MainMenu), &VIEW).unwrap();
    assert_eq!(
        game.states.states(),
        vec![GameState::InGame, GameState::Paused, GameState::MainMenu]
    );
    assert!(game.ball.is_some());
    let outcome = game.transition(StateChange::Replace(GameState::InGame), &VIEW);
    assert_eq!(
        outcome,
        Ok(Outcome::Changed {
            before: Lifecycle::OnExit(GameState::MainMenu),
            after: Lifecycle::OnEnter(GameState::InGame),
        })
    );
    assert_eq!(game.states.states(), vec![GameState::InGame]);
    assert_eq!(game.game_data.score, 0);
    assert_eq!(game.ball.unwrap().body.position, Vec2 { x: 0, y: -150_000 });
    assert_eq!(game.paddle.unwrap().body.position, Vec2 { x: 0, y: -225_000 });
    assert_eq!(game.colliders.len(), 39);
    assert!(game.menu.is_none());
}

#[test]
fn pause_keeps_the_game_and_resume_finds_it_again() {
    let mut game = started();
    place_ball(&mut game, -210_000, -15_010, 0, 1_440);
    let outcome = game.tick(&Input { pause: true, right: true, ..NO_KEYS }, DT, &VIEW);
    assert_eq!(
        outcome,
        Ok(Some(Outcome::Changed {
            before: Lifecycle::OnPause(GameState::InGame),
            after: Lifecycle::OnEnter(GameState::Paused),
        }))
    );
    // The tick in which the key went down still ran in full.
    assert_eq!(game.game_data.score, 1);
    assert_eq!(game.paddle.unwrap().body.position.x, 10_000);
    assert_eq!(game.states.states(), vec![GameState::InGame, GameState::Paused]);
    assert_eq!(game.menu.as_ref().unwrap().action(), Some(MenuButtonAction::Play));

    let paddle = game.paddle;
    let ball = game.ball;
    let colliders = game.colliders.clone();
    // While paused nothing moves, whatever the keys.
    assert_eq!(game.tick(&Input { right: true, ..NO_KEYS }, DT, &VIEW), Ok(None));
    assert_eq!(game.paddle, paddle);
    assert_eq!(game.ball, ball);

    let outcome = game.tick(&confirm(), DT, &VIEW);
    assert_eq!(
        outcome,
        Ok(Some(Outcome::Changed {
            before: Lifecycle::OnExit(GameState::Paused),
            after: Lifecycle::OnEnter(GameState::InGame),
        }))
    );
    assert_eq!(game.states.states(), vec![GameState::InGame]);
    assert_eq!(game.paddle, paddle);
    assert_eq!(game.ball, ball);
    assert_eq!(game.colliders, colliders);
    assert_eq!(game.game_data.score, 1);
    assert!(game.menu.is_none());
}

#[test]
fn the_pause_key_asks_before_the_fail_zone() {
    let mut game = started();
    place_ball(&mut game, 100_000, -262_000, 0, -240_000);
    let outcome = game.tick(&Input { pause: true, ..NO_KEYS }, DT, &VIEW);
    assert_eq!(
        outcome,
        Ok(Some(Outcome::Changed {
            before: Lifecycle::OnPause(GameState::InGame),
            after: Lifecycle::OnEnter(GameState::Paused),
        }))
    );
    assert_eq!(game.states.states(), vec![GameState::InGame, GameState::Paused]);
    assert_eq!(game.ball.unwrap().body.position, Vec2 { x: 100_000, y: -266_000 });
}

#[test]
fn quit_from_the_pause_menu_ends_the_game() {
    let mut game = started();
    game.tick(&Input { pause: true, ..NO_KEYS }, DT, &VIEW).unwrap();
    game.tick(&Input { down: true, ..NO_KEYS }, DT, &VIEW).unwrap();
    assert_eq!(game.tick(&confirm(), DT, &VIEW), Ok(Some(Outcome::Terminated)));
    assert!(game.terminated);
    assert_eq!(game.states.states(), vec![GameState::InGame, GameState::Paused]);
}

#[test]
fn resuming_a_pause_menu_that_stands_alone_is_refused() {
    let mut game = Game::new();
    game.transition(StateChange::Replace(GameState::Paused), &VIEW).unwrap();
    assert_eq!(game.tick(&confirm(), DT, &VIEW), Err(GameError::State(StateError::StackEmpty)));
    assert_eq!(game.states.states(), vec![GameState::Paused]);
    assert_eq!(
        game.transition(StateChange::Pop, &VIEW),
        Err(GameError::State(StateError::StackEmpty))
    );
    assert_eq!(game.states.depth(), 1);
}

#[test]
fn entering_the_exit_state_ends_the_game() {
    let mut game = started();
    let outcome = game.transition(StateChange::Replace(GameState::Exit), &VIEW);
    assert_eq!(
        outcome,
        Ok(Outcome::Changed {
            before: Lifecycle::OnExit(GameState::InGame),
            after: Lifecycle::OnEnter(GameState::Exit),
        })
    );
    assert!(game.terminated);
    assert!(game.ball.is_none());
    assert_eq!(game.tick(&confirm(), DT, &VIEW), Ok(None));
}

#[test]
fn a_tick_needs_room_for_the_paddle_and_for_the_ball() {
    let mut game = started();
    assert!(game.can_tick(DT, &VIEW));
    assert!(!game.can_tick(DT, &Viewport { width: 200_000, height: 600_000 }));
    place_ball(&mut game, i64::MAX, 0, 1_000_000, 0);
    assert!(!game.can_tick(1, &VIEW));
    assert!(game.can_tick(0, &VIEW));
}

#[test]
fn the_speed_keys_reach_the_paddle() {
    let mut game = started();
    game.tick(&Input { faster: true, ..NO_KEYS }, DT, &VIEW).unwrap();
    assert_eq!(game.paddle.unwrap().speed, 650_000);
    game.tick(&Input { slower: true, ..NO_KEYS }, DT, &VIEW).unwrap();
    game.tick(&Input { slower: true, ..NO_KEYS }, DT, &VIEW).unwrap();
    assert_eq!(game.paddle.unwrap().speed, 550_000);
}

#[test]
fn the_small_systems() {
    assert_eq!(handle_pause_game(true), Some(StateChange::Push(GameState::Paused)));
    assert_eq!(handle_pause_game(false), None);
    let mut board = Scoreboard { shown: 0 };
    update_score(&GameData { score: 41 }, &mut board);
    assert_eq!(board.shown, 41);
}

#[test]
fn a_long_game_stays_in_one_piece() {
    let mut game = started();
    let mut last_score = 0;
    for tick in 0..20_000u32 {
        if !game.can_tick(DT, &VIEW) {
            break;
        }
        let keys = Input { left: tick % 7 < 3, right: tick % 11 < 5, ..NO_KEYS };
        let outcome = game.tick(&keys, DT, &VIEW).unwrap();
        assert!(game.states.depth() >= 1);
        assert!(game.game_data.score >= last_score);
        last_score = game.game_data.score;
        if outcome.is_some() {
            assert_eq!(game.states.states(), vec![GameState::GameOver]);
            break;
        }
        let x = game.paddle.unwrap().body.position.x;
        assert!((-280_000..=280_000).contains(&x));
        assert_eq!(game.colliders.len() as u64 + game.game_data.score, 39);
        let collider: &Collider = &game.colliders[3];
        assert_eq!(collider.kind, ColliderKind::FailZone);
    }
}

#[test]
fn games_made_by_the_rules_are_well_formed() {
    let mut game = Game::new();
    assert!(game.is_well_formed());
    game.tick(&confirm(), DT, &VIEW).unwrap();
    assert!(game.is_well_formed());
    game.tick(&Input { pause: true, ..NO_KEYS }, DT, &VIEW).unwrap();
    assert!(game.is_well_formed());
    game.transition(StateChange::Replace(GameState::GameOver), &VIEW).unwrap();
    assert!(game.is_well_formed());
}

#[test]
fn a_game_set_by_hand_may_be_ill_formed() {
    let mut game = started();
    game.ball = None;
    assert!(!game.is_well_formed());
    let mut menu = Game::new();
    menu.menu = None;
    assert!(!menu.is_well_formed());
    let mut full = started();
    full.game_data.score = u64::MAX;
    assert!(!full.is_well_formed());
    let mut stuck = started();
    place_ball(&mut stuck, 0, 0, i64::MIN, 0);
    assert!(!stuck.is_well_formed());
}
