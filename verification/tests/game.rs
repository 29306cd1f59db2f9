use raindrops::game::engine::{Color, DrawRect, Entity, GameInfo, UpdateResponse};
use raindrops::game::entities::{
    raindrop_color, raindrop_rect, spawn_height, spawn_span, Raindrop, RAINDROP_RECT_SIZE,
};
use raindrops::game::frame::{
    frame_budget_nanos, is_stop, keep_running, sleep_nanos, Game, InputEvent, Key, SpawnTimer,
    FRAMERATE, RAINDROP_TIMER_CYCLE, SPAWN_BATCH, WIN_SIZE,
};
use raindrops::game::state::{EntityWrapper, GameState};
use raindrops::math::point2::Point2;
use rand::Rng;

const GRAVITY: f64 = 0.1;

struct Drop(Raindrop<f64>);

impl Drop {
    fn at(x: f64, y: f64, fall: f64) -> Self {
        Drop(Raindrop {
            speed: Point2::new(0.0, fall),
            pos: Point2::new(x, y),
        })
    }
}

impl Entity for Drop {
    fn advanced(&self, info: &GameInfo) -> Self {
        let mut next = Drop(self.0);
        next.update(info);
        next
    }

    fn leaves(&self, info: &GameInfo) -> bool {
        let mut next = Drop(self.0);
        next.update(info).should_delete
    }

    fn shape(&self, info: &GameInfo) -> DrawRect {
        self.render(info)
    }

    fn update(&mut self, info: &GameInfo) -> UpdateResponse {
        self.0.advance(GRAVITY, info.win_size.y as f64)
    }

    fn render(&self, _info: &GameInfo) -> DrawRect {
        raindrop_rect(self.0.pos.x as i32, self.0.pos.y as i32)
    }
}

fn info(width: u32, height: u32) -> GameInfo {
    GameInfo {
        win_size: Point2::new(width, height),
    }
}

#[test]
fn update_response_defaults_to_keep() {
    assert!(!UpdateResponse::default().should_delete);
}

#[test]
fn raindrop_advances_by_velocity_and_gains_gravity() {
    let mut drop = Raindrop {
        speed: Point2::<f64>::new(0.0, 5.0),
        pos: Point2::<f64>::new(0.0, -20.0),
    };
    let response = drop.advance(0.1, 600.0);
    assert_eq!(drop.pos, Point2::new(0.0, -15.0));
    assert_eq!(drop.speed.x, 0.0);
    assert!((drop.speed.y - 5.1).abs() < 1e-12);
    assert!(!response.should_delete);
}

#[test]
fn raindrop_advance_is_repeatable() {
    let start = Raindrop {
        speed: Point2::<f64>::new(1.5, 7.25),
        pos: Point2::<f64>::new(3.0, 40.0),
    };
    let mut a = start;
    let mut b = start;
    let ra = a.advance(0.1, 600.0);
    let rb = b.advance(0.1, 600.0);
    assert_eq!(a.pos, b.pos);
    assert_eq!(a.speed, b.speed);
    assert_eq!(ra.should_delete, rb.should_delete);
    assert_eq!(a.pos, Point2::new(4.5, 47.25));
}

#[test]
fn raindrop_leaves_when_it_reaches_the_window_height() {
    let mut drop = Raindrop {
        speed: Point2::<f64>::new(0.0, 5.0),
        pos: Point2::<f64>::new(0.0, 595.0),
    };
    let response = drop.advance(0.1, 600.0);
    assert_eq!(drop.pos.y, 600.0);
    assert!(response.should_delete);
}

#[test]
fn raindrop_stays_just_above_the_window_height() {
    let mut drop = Raindrop {
        speed: Point2::<f64>::new(0.0, 4.5),
        pos: Point2::<f64>::new(0.0, 595.0),
    };
    assert!(!drop.advance(0.1, 600.0).should_delete);
    assert_eq!(drop.pos.y, 599.5);
}

#[test]
fn raindrop_on_integers_follows_the_same_rule() {
    let mut drop = Raindrop {
        speed: Point2::<i64>::new(2, 50),
        pos: Point2::<i64>::new(10, -200),
    };
    let response = drop.advance(1, 6000);
    assert_eq!(drop.pos, Point2::new(12, -150));
    assert_eq!(drop.speed, Point2::new(2, 51));
    assert!(!response.should_delete);
    drop.pos = Point2::new(12, 5950);
    assert!(drop.advance(1, 6000).should_delete);
    assert_eq!(drop.pos, Point2::new(14, 6001));
}

#[test]
fn raindrop_rect_is_centred_on_the_position() {
    let rect = raindrop_rect(100, 50);
    assert_eq!(
        rect,
        DrawRect {
            x: 98,
            y: 40,
            width: 5,
            height: 20,
            color: Color {
                r: 100,
                g: 25,
                b: 130
            },
        }
    );
    assert_eq!(raindrop_rect(0, -20).x, -2);
    assert_eq!(raindrop_rect(0, -20).y, -30);
    assert_eq!(raindrop_rect(i32::MIN + 2, i32::MIN + 10).x, i32::MIN);
    assert_eq!(raindrop_rect(i32::MIN + 2, i32::MIN + 10).y, i32::MIN);
}

#[test]
fn raindrop_constants() {
    assert_eq!(RAINDROP_RECT_SIZE, (5, 20));
    assert_eq!(
        raindrop_color(),
        Color {
            r: 100,
            g: 25,
            b: 130
        }
    );
    assert_eq!(FRAMERATE, 60);
    assert_eq!(WIN_SIZE, (800, 600));
    assert_eq!(RAINDROP_TIMER_CYCLE, 1);
    assert_eq!(SPAWN_BATCH, 2);
}

#[test]
fn spawn_span_leaves_room_for_the_raindrop() {
    assert_eq!(spawn_span(&info(800, 600)), 795);
    assert_eq!(spawn_span(&info(6, 600)), 1);
    assert_eq!(spawn_span(&info(u32::MAX, 1)), u32::MAX - 5);
}

#[test]
fn spawn_span_is_zero_in_a_window_narrower_than_a_raindrop() {
    assert_eq!(spawn_span(&info(5, 600)), 0);
    assert_eq!(spawn_span(&info(3, 600)), 0);
    assert_eq!(spawn_span(&info(0, 0)), 0);
}

#[test]
fn spawn_height_is_one_raindrop_above_the_top() {
    assert_eq!(spawn_height(), -20);
}

#[test]
fn spawned_start_position_lies_inside_the_window() {
    let frame = info(800, 600);
    let span = spawn_span(&frame);
    let mut rng = rand::thread_rng();
    let mut n: u32 = 0;
    while n < 10_000 {
        let x = rng.gen::<f64>() * span as f64;
        assert!(x >= 0.0);
        assert!(x <= (800 - 5) as f64);
        n += 1;
    }
    let narrow = spawn_span(&info(2, 600));
    assert_eq!(rng.gen::<f64>() * narrow as f64, 0.0);
}

#[test]
fn spawn_timer_counts_down_then_spawns_a_batch() {
    let mut timer = SpawnTimer::new(1);
    assert_eq!(timer.tick(), 0);
    assert_eq!(
        timer,
        SpawnTimer {
            remaining: 0,
            cycle: 1
        }
    );
    assert_eq!(timer.tick(), 2);
    assert_eq!(
        timer,
        SpawnTimer {
            remaining: 1,
            cycle: 1
        }
    );
    assert_eq!(timer.tick(), 0);
    assert_eq!(timer.tick(), 2);
}

#[test]
fn spawn_timer_with_cycle_zero_spawns_every_frame() {
    let mut timer = SpawnTimer::new(0);
    assert_eq!(timer.tick(), 2);
    assert_eq!(timer.tick(), 2);
    assert_eq!(timer.remaining, 0);
}

#[test]
fn spawn_timer_with_cycle_three() {
    let mut timer = SpawnTimer::new(3);
    let due: Vec<usize> = vec![
        timer.tick(),
        timer.tick(),
        timer.tick(),
        timer.tick(),
        timer.tick(),
    ];
    assert_eq!(due, vec![0, 0, 0, 2, 0]);
}

#[test]
fn quit_and_escape_stop_the_loop() {
    assert!(is_stop(&InputEvent::Quit));
    assert!(is_stop(&InputEvent::KeyDown(Some(Key::Escape))));
    assert!(!is_stop(&InputEvent::KeyDown(Some(Key::Other))));
    assert!(!is_stop(&InputEvent::KeyDown(None)));
    assert!(!is_stop(&InputEvent::Other));
}

#[test]
fn keep_running_reads_every_event() {
    assert!(keep_running(true, &vec![]));
    assert!(keep_running(
        true,
        &vec![InputEvent::Other, InputEvent::KeyDown(Some(Key::Other))]
    ));
    assert!(!keep_running(
        true,
        &vec![InputEvent::Other, InputEvent::Quit, InputEvent::Other]
    ));
    assert!(!keep_running(
        true,
        &vec![InputEvent::KeyDown(Some(Key::Escape))]
    ));
    assert!(!keep_running(false, &vec![]));
    assert!(!keep_running(false, &vec![InputEvent::Other]));
}

#[test]
fn frame_budget_is_a_sixtieth_of_a_second() {
    assert_eq!(frame_budget_nanos(60), 16_666_666);
    assert_eq!(frame_budget_nanos(FRAMERATE), 16_666_666);
    assert_eq!(frame_budget_nanos(1), 1_000_000_000);
    assert_eq!(frame_budget_nanos(u32::MAX), 0);
}

#[test]
fn sleep_is_the_rest_of_the_budget() {
    assert_eq!(sleep_nanos(16_666_666, 6_666_666), Some(10_000_000));
    assert_eq!(sleep_nanos(16_666_666, 0), Some(16_666_666));
    assert_eq!(sleep_nanos(16_666_666, 16_666_665), Some(1));
}

#[test]
fn no_sleep_after_a_frame_that_overran() {
    assert_eq!(sleep_nanos(16_666_666, 16_666_666), None);
    assert_eq!(sleep_nanos(16_666_666, 20_000_000), None);
    assert_eq!(sleep_nanos(0, 0), None);
}

#[test]
fn entity_wrapper_starts_unmarked() {
    let w = EntityWrapper::new(Drop::at(1.0, 2.0, 3.0));
    assert!(!w.delete_next);
    assert_eq!(w.inner.0.pos, Point2::new(1.0, 2.0));
}

#[test]
fn game_state_starts_empty_and_appends_in_order() {
    let mut state: GameState<Drop> = GameState::new();
    assert_eq!(state.entities.len(), 0);
    state.add_entity(Drop::at(1.0, 0.0, 5.0));
    state.add_entity(Drop::at(2.0, 0.0, 5.0));
    assert_eq!(state.entities.len(), 2);
    assert_eq!(state.entities[0].inner.0.pos.x, 1.0);
    assert_eq!(state.entities[1].inner.0.pos.x, 2.0);
    assert!(!state.entities[0].delete_next);
}

#[test]
fn empty_state_draws_nothing() {
    let mut state: GameState<Drop> = GameState::new();
    let draws = state.update_entities(&info(800, 600));
    assert!(draws.is_empty());
    state.remove_marked();
    assert!(state.entities.is_empty());
}

#[test]
fn marked_entities_are_not_drawn() {
    let frame = info(800, 600);
    let mut state: GameState<Drop> = GameState::new();
    state.add_entity(Drop::at(10.0, 100.0, 5.0));
    state.add_entity(Drop::at(20.0, 598.0, 5.0));
    state.add_entity(Drop::at(30.0, 200.0, 5.0));
    let draws = state.update_entities(&frame);
    assert_eq!(state.entities.len(), 3);
    assert!(!state.entities[0].delete_next);
    assert!(state.entities[1].delete_next);
    assert!(!state.entities[2].delete_next);
    assert_eq!(draws, vec![raindrop_rect(10, 105), raindrop_rect(30, 205)]);
    state.remove_marked();
    assert_eq!(state.entities.len(), 2);
    assert_eq!(state.entities[0].inner.0.pos.x, 10.0);
    assert_eq!(state.entities[1].inner.0.pos.x, 30.0);
}

#[test]
fn remove_marked_keeps_order_and_drops_runs() {
    let mut state: GameState<Drop> = GameState::new();
    let mut k: u32 = 0;
    while k < 6 {
        state.add_entity(Drop::at(k as f64, 0.0, 1.0));
        k += 1;
    }
    state.entities[0].delete_next = true;
    state.entities[1].delete_next = true;
    state.entities[3].delete_next = true;
    state.entities[5].delete_next = true;
    state.remove_marked();
    assert_eq!(state.entities.len(), 2);
    assert_eq!(state.entities[0].inner.0.pos.x, 2.0);
    assert_eq!(state.entities[1].inner.0.pos.x, 4.0);
    state.remove_marked();
    assert_eq!(state.entities.len(), 2);
}

#[test]
fn spawn_cycles_add_two_entities_each() {
    let mut game: Game<Drop> = Game::new((800, 600), RAINDROP_TIMER_CYCLE);
    let mut cycles: usize = 0;
    let mut frames: usize = 0;
    while cycles < 7 {
        let (_, due) = game.update_phase();
        frames += 1;
        if due > 0 {
            assert_eq!(due, 2);
            game.spawn_phase(Drop::at(0.0, -20.0, 0.0), Drop::at(1.0, -20.0, 0.0));
            cycles += 1;
        }
        assert_eq!(game.state.entities.len(), 2 * cycles);
    }
    assert_eq!(frames, 14);
    assert_eq!(game.state.entities.len(), 14);
}

#[test]
fn spawn_batch_appends_first_then_second() {
    let mut state: GameState<Drop> = GameState::new();
    state.add_entity(Drop::at(0.0, 0.0, 0.0));
    state.spawn_batch(Drop::at(1.0, 0.0, 0.0), Drop::at(2.0, 0.0, 0.0));
    assert_eq!(state.entities.len(), 3);
    assert_eq!(state.entities[1].inner.0.pos.x, 1.0);
    assert_eq!(state.entities[2].inner.0.pos.x, 2.0);
    assert!(!state.entities[1].delete_next && !state.entities[2].delete_next);
}

#[test]
fn fast_entity_is_gone_after_one_frame() {
    let mut game: Game<Drop> = Game::new((800, 10), RAINDROP_TIMER_CYCLE);
    assert!(game.state.entities.is_empty());
    game.state.add_entity(Drop::at(0.0, 0.0, 20.0));
    assert_eq!(game.state.entities.len(), 1);

    let mut alone = Drop::at(0.0, 0.0, 20.0);
    assert!(alone.update(&game.info).should_delete);
    assert!(alone.0.pos.y >= 10.0);
    assert_eq!(alone.0.pos.y, 20.0);
    assert!((alone.0.speed.y - 20.1).abs() < 1e-12);

    let (draws, due) = game.update_phase();
    assert!(draws.is_empty());
    assert_eq!(due, 0);
    assert!(game.state.entities.is_empty());
}

#[test]
fn marked_entity_stays_until_the_removal_pass() {
    let frame = info(800, 10);
    let mut state: GameState<Drop> = GameState::new();
    state.add_entity(Drop::at(0.0, 0.0, 20.0));
    let draws = state.update_entities(&frame);
    assert!(draws.is_empty());
    assert_eq!(state.entities.len(), 1);
    assert!(state.entities[0].delete_next);
    assert!(state.entities[0].inner.0.pos.y >= 10.0);
    state.remove_marked();
    assert!(state.entities.is_empty());
}

#[test]
fn game_starts_running_with_the_given_window() {
    let game: Game<Drop> = Game::new(WIN_SIZE, RAINDROP_TIMER_CYCLE);
    assert!(game.running);
    assert_eq!(game.info.win_size, Point2::new(800, 600));
    assert_eq!(
        game.timer,
        SpawnTimer {
            remaining: 1,
            cycle: 1
        }
    );
    assert!(game.state.entities.is_empty());
}

#[test]
fn input_phase_stops_the_game_for_good() {
    let mut game: Game<Drop> = Game::new(WIN_SIZE, RAINDROP_TIMER_CYCLE);
    game.input_phase(&vec![InputEvent::Other]);
    assert!(game.running);
    game.input_phase(&vec![InputEvent::Other, InputEvent::KeyDown(Some(Key::Escape))]);
    assert!(!game.running);
    game.input_phase(&vec![]);
    assert!(!game.running);
}

#[test]
fn update_phase_draws_survivors_in_their_new_state() {
    let mut game: Game<Drop> = Game::new((800, 600), 5);
    game.spawn_phase(Drop::at(100.0, 50.0, 5.0), Drop::at(200.0, 599.0, 5.0));
    let (draws, due) = game.update_phase();
    assert_eq!(due, 0);
    assert_eq!(draws, vec![raindrop_rect(100, 55)]);
    assert_eq!(game.state.entities.len(), 1);
    assert_eq!(game.state.entities[0].inner.0.pos, Point2::new(100.0, 55.0));
    assert!((game.state.entities[0].inner.0.speed.y - 5.1).abs() < 1e-12);
    assert_eq!(game.timer.remaining, 4);
}
