use fl16_inputmodules::addon::{
    cached_uvs, rand, splash_reaches, splash_sources, AddonAnimation, AddonAnimationVals, CachedUV,
    CENTERED_X_DEN, CENTERED_Y_DEN, RAND_SCALE, UV_X_DEN, UV_Y_DEN,
};
use fl16_inputmodules::control::{
    AddonAnimation as HostAnimation, Game, GameOfLifeStartParam, KeypressArg, KeypressArgError, Pattern,
};
use fl16_inputmodules::keypress::{VisualKeypress, KEYPRESS_CAPACITY};
use fl16_inputmodules::matrix::{
    GameState, Grid, LedmatrixState, RenderMode, Side, SleepReason, SleepState, HEIGHT, WIDTH,
};

fn state(side: Side, life: u8) -> LedmatrixState {
    LedmatrixState::new(side, life, 120, 33_333, 29_000)
}

fn pattern_grid(seed: u8) -> Grid {
    let mut g = Grid::blank();
    for x in 0..WIDTH {
        for y in 0..HEIGHT {
            g.0[x][y] = (x as u8).wrapping_mul(31).wrapping_add(y as u8).wrapping_add(seed);
        }
    }
    g
}

fn lit_pixels(s: &LedmatrixState) -> usize {
    let mut n = 0;
    for x in 0..WIDTH {
        for y in 0..HEIGHT {
            if !splash_sources(s, &CachedUV::at(x, y)).is_empty() {
                n += 1;
            }
        }
    }
    n
}

#[test]
fn rotate_shifts_each_column_down() {
    let mut g = pattern_grid(0);
    let before = g;
    g.rotate(1);
    for x in 0..WIDTH {
        for y in 0..HEIGHT {
            assert_eq!(g.0[x][(y + 1) % HEIGHT], before.0[x][y]);
        }
    }
    g.rotate(HEIGHT);
    assert_eq!(g.0[3][0], before.0[3][HEIGHT - 1]);
    g.rotate(0);
    assert_eq!(g.0[3][1], before.0[3][0]);
}

#[test]
fn side_predicates() {
    assert!(Side::Left.is_left());
    assert!(!Side::Left.is_right());
    assert!(Side::Right.is_right());
    assert!(!Side::Right.is_left());
}

#[test]
fn rand_exact_values() {
    assert_eq!(rand(0), 0);
    assert_eq!(rand(1), 4_810_007);
    assert_eq!(rand(30), 2_037_369);
    assert_eq!(rand(12345), 6_802_017);
}

#[test]
fn rand_is_deterministic_and_below_one() {
    for seed in 0..10_000u32 {
        let a = rand(seed.wrapping_mul(2_654_435_761));
        let b = rand(seed.wrapping_mul(2_654_435_761));
        assert_eq!(a, b);
        assert!(a < RAND_SCALE);
        let f = a as f64 / RAND_SCALE as f64;
        assert!((0.0..1.0).contains(&f));
    }
    assert!(rand(u32::MAX) < RAND_SCALE);
}

#[test]
fn animation_wire_values() {
    assert_eq!(AddonAnimationVals::from_u8(0), Some(AddonAnimationVals::Spiral));
    assert_eq!(AddonAnimationVals::from_u8(1), Some(AddonAnimationVals::Splashes));
    assert_eq!(AddonAnimationVals::from_u8(2), Some(AddonAnimationVals::Helix));
    assert_eq!(AddonAnimationVals::from_u8(3), None);
    assert_eq!(AddonAnimationVals::Helix.animation(), AddonAnimation::Helix);
    assert_eq!(Pattern::LotusTopDown.as_u8(), 7);
    assert_eq!(Game::GameOfLife.as_u8(), 3);
    assert_eq!(HostAnimation::Splashes.as_u8(), 1);
    assert_eq!(GameOfLifeStartParam::BeaconToadBlinker.as_u8(), 6);
}

#[test]
fn cached_uv_corners() {
    let c = CachedUV::at(0, 0);
    assert_eq!((c.uv_x, c.uv_y, c.centered_x, c.centered_y), (8, 1, 8, -2244));
    let c = CachedUV::at(WIDTH - 1, HEIGHT - 1);
    assert_eq!((c.uv_x, c.uv_y, c.centered_x, c.centered_y), (0, 67, -8, 2244));
}

#[test]
fn cached_uv_centered_follows_uv() {
    let table = cached_uvs();
    let aspect = WIDTH as f64 / HEIGHT as f64;
    for x in 0..WIDTH {
        for y in 0..HEIGHT {
            let c = table[x][y];
            assert_eq!(c, CachedUV::at(x, y));
            let u = c.uv_x as f64 / UV_X_DEN as f64;
            let v = c.uv_y as f64 / UV_Y_DEN as f64;
            let cx = c.centered_x as f64 / CENTERED_X_DEN as f64;
            let cy = c.centered_y as f64 / CENTERED_Y_DEN as f64;
            assert!((cx - (u - 0.5) * 2.0).abs() < 1e-12);
            assert!((cy - ((v - 0.5) / aspect) * 2.0).abs() < 1e-12);
            assert!((u - (WIDTH - 1 - x) as f64 / (WIDTH - 1) as f64).abs() < 1e-12);
            assert!((v - (y as f64 + 0.5) / HEIGHT as f64).abs() < 1e-12);
            assert!((0.0..=1.0).contains(&u) && (0.0..=1.0).contains(&v));
        }
    }
}

#[test]
fn new_keypress_has_full_life_and_cached_randomness() {
    let mut s = state(Side::Left, 20);
    assert!(s.enqueue_keypress(30, Side::Left, true));
    let k = s.visual_keypresses[0];
    assert_eq!(k.life, 20);
    assert!(k.alive);
    assert_eq!(k.rand0, rand(30));
    assert_eq!(k.rand1, rand(31));
    assert_eq!(k.side, Side::Left);
    assert!(!s.enqueue_keypress(31, Side::Left, false));
    assert_eq!(s.visual_keypresses.len(), 1);
}

#[test]
fn keypress_decays_to_nothing() {
    let mut s = state(Side::Left, 3);
    s.enqueue_keypress(7, Side::Left, true);
    s.decay_keypresses();
    assert_eq!(s.visual_keypresses[0].life, 2);
    s.decay_keypresses();
    assert_eq!(s.visual_keypresses[0].life, 1);
    s.decay_keypresses();
    assert!(s.visual_keypresses.is_empty());
}

#[test]
fn full_keypress_list_drops_new_events() {
    let mut s = state(Side::Right, 10);
    for i in 0..KEYPRESS_CAPACITY as u32 {
        assert!(s.enqueue_keypress(i, Side::Right, true));
    }
    assert!(!s.enqueue_keypress(999, Side::Right, true));
    assert_eq!(s.visual_keypresses.len(), KEYPRESS_CAPACITY);
    assert_eq!(s.visual_keypresses[KEYPRESS_CAPACITY - 1].keycode, KEYPRESS_CAPACITY as u32 - 1);
}

#[test]
fn decay_keeps_order_of_survivors() {
    let mut s = state(Side::Left, 5);
    s.enqueue_keypress(1, Side::Left, true);
    s.decay_keypresses();
    s.decay_keypresses();
    s.enqueue_keypress(2, Side::Left, true);
    s.decay_keypresses();
    s.decay_keypresses();
    s.decay_keypresses();
    let codes: Vec<u32> = s.visual_keypresses.iter().map(|k| k.keycode).collect();
    assert_eq!(codes, vec![2]);
    assert_eq!(s.visual_keypresses[0].life, 2);
}

#[test]
fn splash_radius_check() {
    let uv = CachedUV { uv_x: 4, uv_y: 34, centered_x: 0, centered_y: 0 };
    let centred = VisualKeypress {
        keycode: 0,
        life: 10,
        alive: true,
        side: Side::Left,
        rand0: RAND_SCALE / 2,
        rand1: RAND_SCALE / 2,
    };
    assert!(splash_reaches(&uv, &centred, 10));
    let far = VisualKeypress { rand0: 0, ..centred };
    assert!(!splash_reaches(&uv, &far, 10));
    let small = VisualKeypress { life: 1, rand0: RAND_SCALE / 2 + RAND_SCALE / 30, ..centred };
    // radius 0.15, centre 0.2 away
    assert!(!splash_reaches(&uv, &small, 10));
    let near = VisualKeypress { life: 2, ..small };
    // radius 0.3, centre 0.2 away
    assert!(splash_reaches(&uv, &near, 10));
}

#[test]
fn splashes_only_from_matching_side() {
    let mut s = state(Side::Left, 10);
    s.enqueue_keypress(30, Side::Right, true);
    assert_eq!(lit_pixels(&s), 0);
    s.enqueue_keypress(30, Side::Left, true);
    assert!(lit_pixels(&s) > 0);
}

#[test]
fn splash_lights_pixels_then_expires() {
    let mut s = state(Side::Left, 8);
    s.set_addon_animation(Some(AddonAnimation::Splashes));
    s.enqueue_keypress(30, Side::Left, true);
    let mut counts = Vec::new();
    let mut elapsed = 0u32;
    for _ in 0..8 {
        counts.push(lit_pixels(&s));
        elapsed += 1;
        assert_eq!(s.tick(elapsed), Some(RenderMode::Addon(AddonAnimation::Splashes)));
    }
    assert!(counts[0] > 0);
    for w in counts.windows(2) {
        assert!(w[1] <= w[0]);
    }
    assert_eq!(lit_pixels(&s), 0);
    assert!(s.visual_keypresses.is_empty());
}

#[test]
fn sleep_round_trip_restores_frame_and_brightness() {
    let mut s = state(Side::Left, 8);
    let frame = pattern_grid(9);
    s.set_pattern(frame);
    s.set_sleeping(true);
    assert_eq!(s.brightness, 0);
    assert!(matches!(s.sleeping, SleepState::Sleeping((_, 120))));
    s.set_sleeping(true);
    s.publish(Grid::blank());
    s.set_sleeping(false);
    assert!(matches!(s.sleeping, SleepState::Awake));
    assert_eq!(s.brightness, 120);
    assert_eq!(s.grid.0, frame.0);
    s.set_sleeping(false);
    assert_eq!(s.brightness, 120);
}

#[test]
fn sleeping_tick_draws_nothing() {
    let mut s = state(Side::Left, 8);
    s.enqueue_keypress(1, Side::Left, true);
    s.set_sleeping(true);
    assert_eq!(s.tick(5), None);
    assert_eq!(s.timer, 0);
    assert_eq!(s.visual_keypresses[0].life, 8);
}

#[test]
fn tick_advances_timer_with_wraparound() {
    let mut s = state(Side::Left, 8);
    assert_eq!(s.tick(u32::MAX), Some(RenderMode::Static));
    assert_eq!(s.tick(3), Some(RenderMode::Static));
    assert_eq!(s.timer, 2);
    s.animate = false;
    assert_eq!(s.tick(1), None);
    assert_eq!(s.timer, 3);
}

#[test]
fn game_and_addon_exclude_each_other() {
    let mut s = state(Side::Left, 8);
    s.set_addon_animation(Some(AddonAnimation::Spiral));
    s.set_game(Some(GameState::Snake));
    assert!(s.addon_animation.is_none());
    assert_eq!(s.tick(1), Some(RenderMode::Game(GameState::Snake)));
    s.set_addon_animation(Some(AddonAnimation::Spiral));
    assert!(s.game.is_none());
    assert_eq!(s.tick(1), Some(RenderMode::Addon(AddonAnimation::Spiral)));
    s.set_addon_animation(Some(AddonAnimation::Spiral));
    assert_eq!(s.tick(1), Some(RenderMode::Addon(AddonAnimation::Spiral)));
    s.set_pattern(Grid::blank());
    assert_eq!(s.tick(1), Some(RenderMode::Static));
}

#[test]
fn debug_mode_keeps_mode() {
    let mut s = state(Side::Left, 8);
    s.set_game(Some(GameState::Pong));
    s.set_debug_mode(true);
    assert!(s.debug_mode);
    assert_eq!(s.tick(1), Some(RenderMode::Game(GameState::Pong)));
}

#[test]
fn publish_shows_frame() {
    let mut s = state(Side::Left, 8);
    let frame = pattern_grid(4);
    s.publish(frame);
    assert_eq!(s.grid.0, frame.0);
    assert_eq!(s.col_buffer.0, frame.0);
}

#[test]
fn keypress_arg_parsing() {
    assert_eq!(KeypressArg::parse("30,true"), Ok(KeypressArg { keycode: 30, pressed: true }));
    assert_eq!(KeypressArg::parse("+65535,false,x"), Ok(KeypressArg { keycode: 65535, pressed: false }));
    assert_eq!(KeypressArg::parse("65536,true"), Err(KeypressArgError::BadKey));
    assert_eq!(KeypressArg::parse(""), Err(KeypressArgError::BadKey));
    assert_eq!(KeypressArg::parse("a1,true"), Err(KeypressArgError::BadKey));
    assert_eq!(KeypressArg::parse("12"), Err(KeypressArgError::MissingBool));
    assert_eq!(KeypressArg::parse("12,"), Err(KeypressArgError::BadBool));
    assert_eq!(KeypressArg::parse("12,True"), Err(KeypressArgError::BadBool));
    let e: Result<KeypressArg, String> = "12,yes".parse();
    assert_eq!(e, Err("bad bool".to_string()));
    let e: Result<KeypressArg, String> = "x".parse();
    assert_eq!(e, Err("bad key".to_string()));
    assert_eq!(KeypressArgError::MissingKey.message(), "missing key");
    assert_eq!(KeypressArgError::MissingBool.message(), "missing bool");
}

#[test]
fn debug_mode_ignores_idle_timeout() {
    let mut s = state(Side::Left, 8);
    s.set_debug_mode(true);
    assert!(!s.sleep_for(SleepReason::Timeout));
    assert!(matches!(s.sleeping, SleepState::Awake));
    assert_eq!(s.brightness, 120);
    assert!(s.sleep_for(SleepReason::Command));
    assert!(matches!(s.sleeping, SleepState::Sleeping(_)));
    let mut t = state(Side::Left, 8);
    assert!(t.sleep_for(SleepReason::Timeout));
    assert_eq!(t.brightness, 0);
}

#[test]
fn default_grid_is_dark() {
    let g = Grid::default();
    assert!(g.0.iter().all(|col| col.iter().all(|&v| v == 0)));
}

#[test]
fn keypress_arg_from_str_messages() {
    let ok: Result<KeypressArg, String> = "65,true".parse();
    assert_eq!(ok, Ok(KeypressArg { keycode: 65, pressed: true }));
    let ok: Result<KeypressArg, String> = "65,false,7".parse();
    assert_eq!(ok, Ok(KeypressArg { keycode: 65, pressed: false }));
    let e: Result<KeypressArg, String> = "65, true".parse();
    assert_eq!(e, Err("bad bool".to_string()));
    let e: Result<KeypressArg, String> = "65".parse();
    assert_eq!(e, Err("missing bool".to_string()));
    let e: Result<KeypressArg, String> = "x,true".parse();
    assert_eq!(e, Err("bad key".to_string()));
    let e: Result<KeypressArg, String> = "70000,true".parse();
    assert_eq!(e, Err("bad key".to_string()));
}

#[test]
fn middle_row_centre_is_on_axis() {
    let c = CachedUV::at(4, 16);
    assert_eq!((c.uv_x, c.uv_y, c.centered_x, c.centered_y), (4, 33, 0, -68));
    let c = CachedUV::at(4, 17);
    assert_eq!((c.uv_y, c.centered_y), (35, 68));
}
