use sonic_pong::game::{paddle_velocity, take_latest, Game, TickAction};
use sonic_pong::pong::V2;

#[test]
fn latest_wins() {
    assert_eq!(take_latest(vec![1, 2, 3], 0), 3);
    assert_eq!(take_latest(Vec::new(), 7), 7);
    assert_eq!(take_latest(vec![[true, false]], [false, false]), [true, false]);
}

#[test]
fn keys_steer_left_paddle() {
    assert_eq!(paddle_velocity([true, false]), -100);
    assert_eq!(paddle_velocity([false, true]), 100);
    assert_eq!(paddle_velocity([true, true]), 0);
    assert_eq!(paddle_velocity([false, false]), 0);
}

#[test]
fn one_tick_from_start() {
    let mut g = Game::new();
    let r = g.tick(None, false);
    assert_eq!(g.world.ball_pos, V2 { x: 501_000, y: 800 });
    assert_eq!(g.world.ball_vel, V2 { x: 100, y: 80 });
    assert_eq!(g.world.paddles[0].yvel, 0);
    assert_eq!(g.world.paddles[1].yvel, 0);
    assert!(!g.over);
    match r {
        TickAction::Publish(s) => {
            assert_eq!(s.ys, [800, 0, 0]);
            assert_eq!(s.dc, 501_000);
        }
        _ => panic!("expected a state to publish"),
    }
}

#[test]
fn keys_held_between_ticks() {
    let mut g = Game::new();
    g.tick(Some([false, true]), false);
    assert_eq!(g.world.paddles[0].yvel, 100);
    assert_eq!(g.world.paddles[0].ys, (-49_000, 51_000));
    g.tick(None, false);
    assert_eq!(g.key_state, [false, true]);
    assert_eq!(g.world.paddles[0].ys, (-48_000, 52_000));
    g.tick(Some([true, true]), false);
    assert_eq!(g.world.paddles[0].yvel, 0);
}

#[test]
fn closed_key_source_shuts_down() {
    let mut g = Game::new();
    let r = g.tick(Some([true, false]), true);
    assert!(matches!(r, TickAction::Shutdown));
    assert_eq!(g.world.ball_pos, V2 { x: 500_000, y: 0 });
}

#[test]
fn game_runs_until_ball_passes_goal() {
    let mut g = Game::new();
    let mut ticks = 0;
    loop {
        ticks += 1;
        match g.tick(None, false) {
            TickAction::Publish(_) => {}
            TickAction::GameOver => break,
            TickAction::Shutdown => panic!("key source is open"),
        }
        assert!(ticks < 10_000);
    }
    assert!(g.over);
    assert!(g.world.ball_pos.x < 0 || g.world.ball_pos.x > 1_000_000);
    assert!(matches!(g.tick(None, false), TickAction::GameOver));
    let y = g.world.ball_pos.y;
    assert!(-500_800 <= y && y <= 500_800);
}
