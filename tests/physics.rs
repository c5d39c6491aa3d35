use sonic_pong::pong::{Paddle, World, V2};

fn arena(ball_pos: V2, ball_vel: V2) -> World {
    World {
        ball_pos,
        ball_vel,
        x_bounds: (0, 1_000_000),
        y_bounds: (-500_000, 500_000),
        paddles: [Paddle::new(20_000, 0, 100_000), Paddle::new(980_000, 0, 100_000)],
    }
}

#[test]
fn paddle_new_splits_width() {
    let p = Paddle::new(20_000, 0, 100_000);
    assert_eq!(p.x, 20_000);
    assert_eq!(p.ys, (-50_000, 50_000));
    assert_eq!(p.yvel, 0);
    let odd = Paddle::new(0, 10, 5);
    assert_eq!(odd.ys, (8, 13));
    assert_eq!(odd.midpoint(), 10);
}

#[test]
fn paddle_intersects_is_half_open() {
    let p = Paddle::new(0, 0, 100);
    assert!(p.intersects_y(V2 { x: 0, y: -50 }));
    assert!(p.intersects_y(V2 { x: 0, y: 49 }));
    assert!(!p.intersects_y(V2 { x: 0, y: 50 }));
    assert!(!p.intersects_y(V2 { x: 0, y: -51 }));
}

#[test]
fn paddle_moves_by_velocity() {
    let mut p = Paddle::new(0, 0, 100_000);
    p.yvel = 100;
    p.do_physics(10, (-500_000, 500_000));
    assert_eq!(p.ys, (-49_000, 51_000));
    assert_eq!(p.yvel, 100);
}

#[test]
fn paddle_at_top_cannot_rise() {
    let mut p = Paddle::new(0, 460_000, 100_000);
    p.yvel = 100;
    p.do_physics(10, (-500_000, 500_000));
    assert_eq!(p.yvel, 0);
    assert_eq!(p.ys, (410_000, 510_000));
    p.yvel = -100;
    p.do_physics(10, (-500_000, 500_000));
    assert_eq!(p.yvel, -100);
    assert_eq!(p.ys, (409_000, 509_000));
}

#[test]
fn paddle_at_bottom_cannot_sink() {
    let mut p = Paddle::new(0, -460_000, 100_000);
    p.yvel = -100;
    p.do_physics(10, (-500_000, 500_000));
    assert_eq!(p.yvel, 0);
    assert_eq!(p.ys, (-510_000, -410_000));
}

#[test]
fn ball_bounces_off_left_paddle() {
    let mut w = arena(V2 { x: 20_000, y: 0 }, V2 { x: -100, y: 0 });
    w.do_physics(10);
    assert_eq!(w.ball_pos, V2 { x: 19_000, y: 0 });
    assert_eq!(w.ball_vel, V2 { x: 100, y: 0 });
}

#[test]
fn ball_bounces_off_right_paddle() {
    let mut w = arena(V2 { x: 980_000, y: 0 }, V2 { x: 100, y: 0 });
    w.do_physics(10);
    assert_eq!(w.ball_vel, V2 { x: -100, y: 0 });
}

#[test]
fn right_paddle_uses_its_own_extent() {
    let mut w = arena(V2 { x: 980_000, y: 200_000 }, V2 { x: 100, y: 0 });
    w.paddles[1] = Paddle::new(980_000, 200_000, 100_000);
    w.do_physics(10);
    assert_eq!(w.ball_vel, V2 { x: -100, y: 0 });
}

#[test]
fn ball_misses_paddle_outside_extent() {
    let mut w = arena(V2 { x: 20_000, y: 100_000 }, V2 { x: -100, y: 0 });
    w.do_physics(10);
    assert_eq!(w.ball_vel, V2 { x: -100, y: 0 });
}

#[test]
fn ball_bounces_off_top_wall() {
    let mut w = arena(V2 { x: 500_000, y: 499_500 }, V2 { x: 0, y: 80 });
    w.do_physics(10);
    assert_eq!(w.ball_pos, V2 { x: 500_000, y: 500_300 });
    assert_eq!(w.ball_vel, V2 { x: 0, y: -80 });
}

#[test]
fn ball_outside_moving_in_keeps_direction() {
    let mut w = arena(V2 { x: 500_000, y: -500_500 }, V2 { x: 0, y: 80 });
    w.do_physics(10);
    assert_eq!(w.ball_vel, V2 { x: 0, y: 80 });
}

#[test]
fn game_over_just_past_left_line() {
    let w = arena(V2 { x: -1, y: 0 }, V2 { x: 0, y: 0 });
    assert!(w.game_over());
    let w = arena(V2 { x: 0, y: 0 }, V2 { x: 0, y: 0 });
    assert!(!w.game_over());
    let w = arena(V2 { x: 1_000_000, y: 0 }, V2 { x: 0, y: 0 });
    assert!(!w.game_over());
    let w = arena(V2 { x: 1_000_001, y: 0 }, V2 { x: 0, y: 0 });
    assert!(w.game_over());
}

#[test]
fn audio_state_reads_world() {
    let mut w = arena(V2 { x: 300_000, y: -7 }, V2 { x: 0, y: 0 });
    w.paddles[1] = Paddle::new(980_000, 120_000, 100_000);
    let s = w.to_audio_state();
    assert_eq!(s.ys, [-7, 0, 120_000]);
    assert_eq!(s.dc, 300_000);
}

#[test]
fn paddle_flush_with_top_cannot_rise() {
    let mut p = Paddle::new(0, 50_000, 100_000);
    assert_eq!(p.ys, (0, 100_000));
    p.yvel = 100;
    p.do_physics(10, (-100_000, 100_000));
    assert_eq!(p.yvel, 0);
    assert_eq!(p.ys, (0, 100_000));
}

#[test]
fn paddle_flush_with_bottom_cannot_sink() {
    let mut p = Paddle::new(0, -50_000, 100_000);
    assert_eq!(p.ys, (-100_000, 0));
    p.yvel = -100;
    p.do_physics(10, (-100_000, 100_000));
    assert_eq!(p.yvel, 0);
    assert_eq!(p.ys, (-100_000, 0));
    p.yvel = 100;
    p.do_physics(10, (-100_000, 100_000));
    assert_eq!(p.yvel, 100);
    assert_eq!(p.ys, (-99_000, 1_000));
}
