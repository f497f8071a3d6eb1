use dodger::game::{Game, BUTTON_DOWN, BUTTON_RIGHT, BUTTON_UP};

#[test]
fn new_session_starts_pre_game_with_loaded_high_score() {
    let g = Game::new(42);
    assert_eq!(g.high_score, 42);
    assert_eq!(g.score, 0);
    assert_eq!(g.player.pos.x, 69);
    assert_eq!(g.player.pos.y, 69);
    assert_eq!(g.player.size, 16);
    assert!(g.pre_game);
    assert!(!g.over);
    assert_eq!(g.projectiles.len(), 0);
    assert_eq!(g.frame_count, 0);
}

#[test]
fn pre_game_needs_a_release_then_press_edge() {
    let mut g = Game::new(0);
    // A button already held on the very first frame must not start play.
    assert_eq!(g.update(BUTTON_UP), None);
    assert!(g.pre_game);
    // One idle frame arms the latch; the next press starts play.
    assert_eq!(g.update(0), None);
    assert!(g.pre_game);
    assert_eq!(g.update(BUTTON_UP), None);
    assert!(!g.pre_game);
    assert!(!g.btn_pressed);
}

#[test]
fn game_over_persists_score_exactly_once_when_it_beats_high_score() {
    let mut g = Game::new(3);
    g.over = true;
    g.score = 5;
    // First game-over frame: the high score rises and the byte goes out.
    assert_eq!(g.update(0), Some(5));
    assert_eq!(g.high_score, 5);
    assert!(g.over);
    // Lingering in game-over writes nothing further.
    assert_eq!(g.update(0), None);
    assert_eq!(g.update(0), None);
    assert_eq!(g.high_score, 5);
}

#[test]
fn game_over_does_not_persist_when_score_is_not_higher() {
    let mut g = Game::new(7);
    g.over = true;
    g.score = 7;
    assert_eq!(g.update(0), None);
    assert_eq!(g.high_score, 7);
    let mut g2 = Game::new(9);
    g2.over = true;
    g2.score = 4;
    assert_eq!(g2.update(0), None);
    assert_eq!(g2.high_score, 9);
}

#[test]
fn restart_resets_the_session_and_keeps_the_high_score() {
    let mut g = Game::new(3);
    g.over = true;
    g.score = 5;
    g.player.pos.x = 10;
    g.frame_count = 999;
    // A held button on the first game-over frame must not restart.
    assert_eq!(g.update(BUTTON_DOWN), Some(5));
    assert!(g.over);
    // Release, then press: a fresh session with the high score kept.
    assert_eq!(g.update(0), None);
    assert!(g.over);
    assert_eq!(g.update(BUTTON_DOWN), None);
    assert!(!g.over);
    assert!(g.pre_game);
    assert_eq!(g.high_score, 5);
    assert_eq!(g.score, 0);
    assert_eq!(g.player.pos.x, 69);
    assert_eq!(g.player.pos.y, 69);
    assert_eq!(g.projectiles.len(), 0);
    assert_eq!(g.frame_count, 0);
}

#[test]
fn score_saturates_at_its_top() {
    let mut g = Game::new(0);
    g.pre_game = false;
    g.score = 255;
    g.frame_count = 119;
    // Frame 120 spawns and would raise the score, which saturates.
    assert_eq!(g.update(0), None);
    assert_eq!(g.frame_count, 120);
    assert_eq!(g.projectiles.len(), 1);
    assert_eq!(g.score, 255);
}

#[test]
fn held_buttons_move_the_player_two_pixels_clamped() {
    let mut g = Game::new(0);
    g.pre_game = false;
    assert_eq!(g.update(BUTTON_RIGHT | BUTTON_UP), None);
    assert_eq!(g.player.pos.x, 71);
    assert_eq!(g.player.pos.y, 67);
    for _ in 0..100 {
        g.update(BUTTON_RIGHT);
    }
    // Clamped at the right edge: 160 - 16.
    assert_eq!(g.player.pos.x, 144);
}

#[test]
fn scripted_run_reaches_the_expected_state() {
    let mut g = Game::new(0);
    // Frame 1: idle arms the latch. Frame 2: press starts play and seeds
    // the generator from the frame counter, deterministically.
    assert_eq!(g.update(0), None);
    assert_eq!(g.update(BUTTON_UP), None);
    assert!(!g.pre_game);
    // Frames 3..=52: hold right; the player walks from 69 to the clamp at
    // 144. Frames 53..=140: idle.
    for frame in 3..=140u64 {
        let pad = if frame <= 52 { BUTTON_RIGHT } else { 0 };
        assert_eq!(g.update(pad), None);
    }
    assert_eq!(g.frame_count, 140);
    assert_eq!(g.player.pos.x, 144);
    assert_eq!(g.player.pos.y, 69);
    // Exactly one spawn happened, at frame 120.
    assert_eq!(g.score, 1);
    assert_eq!(g.projectiles.len(), 1);
    assert!(!g.pre_game);
    assert!(!g.over);
    // The run is reproducible: the same script gives the same projectile.
    let mut h = Game::new(0);
    h.update(0);
    h.update(BUTTON_UP);
    for frame in 3..=140u64 {
        let pad = if frame <= 52 { BUTTON_RIGHT } else { 0 };
        h.update(pad);
    }
    assert_eq!(h.projectiles[0].square.pos.x, g.projectiles[0].square.pos.x);
    assert_eq!(h.projectiles[0].square.pos.y, g.projectiles[0].square.pos.y);
    assert_eq!(h.projectiles[0].direction.x, g.projectiles[0].direction.x);
    assert_eq!(h.projectiles[0].direction.y, g.projectiles[0].direction.y);
}
