use find_the_particle::geometry::{
    check_coords, hit_region, HitRegion, Position, Target, HEIGHT, PARTICLE_MARGIN, UNIT, WIDTH,
    X_MAX, X_MIN, Y_MAX, Y_MIN,
};
use find_the_particle::model::ONE_SECOND;
use find_the_particle::particle::Particle;
use find_the_particle::state::GameState;

fn looks() -> Particle {
    Particle { hue: 100, size: 200, opacity: 300 }
}

fn other_looks() -> Particle {
    Particle { hue: 7, size: 8, opacity: 9 }
}

fn over() -> GameState {
    let mut state = GameState::with_draws(400_000, looks());
    for _ in 0..5 {
        state.tick_with(ONE_SECOND + 1, Position { x: X_MIN, y: Y_MIN });
    }
    assert!(state.is_game_over());
    state
}

#[test]
fn the_window_and_the_panel_have_their_sizes() {
    assert_eq!(UNIT, 1000);
    assert_eq!((WIDTH, HEIGHT), (800_000, 800_000));
    assert_eq!((X_MIN, X_MAX), (355_000, 445_000));
    assert_eq!((Y_MIN, Y_MAX), (270_000, 585_000));
    assert_eq!(PARTICLE_MARGIN, 5_000);
}

#[test]
fn a_click_on_the_particle_scores_and_respawns() {
    let mut state = GameState::with_draws(400_000, looks());
    let at = state.position();
    state.on_click_with(at.x, at.y, 433_210, other_looks());
    assert_eq!(state.score(), 1);
    assert_eq!(state.countdown(), 8);
    assert_eq!(state.position(), Position { x: 433_210, y: Y_MAX });
    assert_eq!(state.particle(), other_looks());
    assert!(state.mouse_down());
    assert!(!state.is_spinning());
    assert!(!state.is_game_over());
}

#[test]
fn a_click_on_the_particle_with_random_draws_scores() {
    let mut state = GameState::with_draws(400_000, looks());
    for found in 1..=40u32 {
        let at = state.position();
        state.on_click(at.x, at.y);
        assert_eq!(state.score(), found);
        assert_eq!(state.countdown(), 5 + 3 * u64::from(found));
        let now = state.position();
        assert!(X_MIN <= now.x && now.x < X_MAX);
        assert_eq!(now.y, Y_MAX);
        assert!(state.particle().is_wf());
    }
}

#[test]
fn a_click_near_the_particle_still_finds_it() {
    for (dx, dy) in [(4_999, 0), (-4_999, 0), (0, 4_999), (0, -4_999), (4_999, -4_999)] {
        let mut state = GameState::with_draws(400_000, looks());
        state.on_click_with(400_000 + dx, Y_MAX + dy, 360_000, other_looks());
        assert_eq!(state.score(), 1);
    }
}

#[test]
fn a_click_on_the_edge_of_the_particle_square_misses() {
    for (dx, dy) in [(5_000, 0), (-5_000, 0), (0, 5_000), (0, -5_000), (5_000, 5_000)] {
        let mut state = GameState::with_draws(400_000, looks());
        state.on_click_with(400_000 + dx, Y_MAX + dy, 360_000, other_looks());
        assert_eq!(state.score(), 0);
        assert_eq!(state.position(), Position { x: 400_000, y: Y_MAX });
    }
}

#[test]
fn a_click_outside_every_target_only_notes_the_mouse() {
    let mut state = GameState::with_draws(400_000, looks());
    state.tick_with(123_456, Position { x: X_MIN, y: Y_MIN });
    let before = state;
    state.on_click_with(10_000, 700_000, 360_000, other_looks());
    assert!(state.mouse_down());
    assert!(!before.mouse_down());
    assert_eq!(state.position(), before.position());
    assert_eq!(state.particle(), before.particle());
    assert_eq!(state.score(), before.score());
    assert_eq!(state.countdown(), before.countdown());
    assert_eq!(state.is_spinning(), before.is_spinning());
    assert_eq!(state.spin_frame_count(), before.spin_frame_count());
    assert_eq!(state.is_game_over(), before.is_game_over());
    assert_eq!(state.elapsed_since_last_second(), before.elapsed_since_last_second());
    let noted = state;
    state.on_click(10_000, 700_000);
    assert_eq!(state, noted);
    state.on_click(i32::MIN, i32::MAX);
    assert_eq!(state, noted);
}

#[test]
fn a_click_on_the_spin_button_starts_a_spin() {
    let mut state = GameState::with_draws(400_000, looks());
    let before = state;
    state.on_click_with(136_500, 112_000, 360_000, other_looks());
    assert!(state.is_spinning());
    assert!(state.mouse_down());
    assert_eq!(state.spin_frame_count(), 0);
    assert_eq!(state.position(), before.position());
    assert_eq!(state.particle(), before.particle());
    assert_eq!(state.score(), 0);
    assert_eq!(state.countdown(), 5);
}

#[test]
fn the_spin_button_ends_at_its_border() {
    for (x, y, inside) in [
        (108_001, 112_000, true),
        (108_000, 112_000, false),
        (164_999, 112_000, true),
        (165_000, 112_000, false),
        (136_500, 98_001, true),
        (136_500, 98_000, false),
        (136_500, 125_999, true),
        (136_500, 126_000, false),
    ] {
        let mut state = GameState::with_draws(400_000, looks());
        state.on_click(x, y);
        assert_eq!(state.is_spinning(), inside);
        assert_eq!(state.target_at(x, y) == Some(Target::Spin), inside);
    }
}

#[test]
fn reset_after_the_end_starts_a_new_round() {
    let mut state = over();
    let before = state;
    state.on_click_with(551_000, 774_000, 360_000, other_looks());
    assert!(!state.is_game_over());
    assert_eq!(state.score(), 0);
    assert_eq!(state.countdown(), 5);
    assert_eq!(state.particle(), other_looks());
    assert_eq!(state.position(), before.position());
    assert!(state.mouse_down());
}

#[test]
fn reset_clears_the_score_of_the_round() {
    let mut state = GameState::with_draws(400_000, looks());
    state.on_click_with(400_000, Y_MAX, 360_000, other_looks());
    state.on_click_with(360_000, Y_MAX, 370_000, looks());
    assert_eq!((state.score(), state.countdown()), (2, 11));
    for _ in 0..11 {
        state.tick_with(ONE_SECOND + 1, Position { x: X_MIN, y: Y_MIN });
    }
    assert!(state.is_game_over());
    assert_eq!(state.score(), 2);
    state.on_click(551_000, 774_000);
    assert!(!state.is_game_over());
    assert_eq!((state.score(), state.countdown()), (0, 5));
    assert!(state.particle().is_wf());
    assert_eq!(state.position(), Position { x: 370_000, y: Y_MAX });
}

#[test]
fn the_reset_button_is_not_there_during_a_round() {
    let mut state = GameState::with_draws(400_000, looks());
    state.on_click_with(400_000, Y_MAX, 360_000, other_looks());
    let before = state;
    assert_eq!(state.target_at(551_000, 774_000), None);
    state.on_click_with(551_000, 774_000, 370_000, looks());
    assert_eq!(state, before);
}

#[test]
fn the_reset_button_ends_at_its_border() {
    for (x, y, inside) in [
        (515_001, 774_000, true),
        (515_000, 774_000, false),
        (586_999, 774_000, true),
        (587_000, 774_000, false),
        (551_000, 760_001, true),
        (551_000, 760_000, false),
        (551_000, 787_999, true),
        (551_000, 788_000, false),
    ] {
        let mut state = over();
        assert_eq!(state.target_at(x, y) == Some(Target::Reset), inside);
        state.on_click(x, y);
        assert_eq!(state.is_game_over(), !inside);
    }
}

#[test]
fn targets_are_told_apart() {
    let state = over();
    assert_eq!(state.target_at(400_000, Y_MAX), Some(Target::Particle));
    assert_eq!(state.target_at(136_500, 112_000), Some(Target::Spin));
    assert_eq!(state.target_at(551_000, 774_000), Some(Target::Reset));
    assert_eq!(state.target_at(0, 0), None);
    assert_eq!(state.target_at(400_000, 400_000), None);
}

#[test]
fn each_target_has_its_region() {
    let particle = Position { x: 360_000, y: 300_000 };
    assert_eq!(
        hit_region(Target::Particle, particle),
        HitRegion { anchor_x: 360_000, anchor_y: 300_000, half_width: 5_000, half_height: 5_000 }
    );
    assert_eq!(
        hit_region(Target::Spin, particle),
        HitRegion { anchor_x: 136_500, anchor_y: 112_000, half_width: 28_500, half_height: 14_000 }
    );
    assert_eq!(
        hit_region(Target::Reset, particle),
        HitRegion { anchor_x: 551_000, anchor_y: 774_000, half_width: 36_000, half_height: 14_000 }
    );
}

#[test]
fn a_region_does_not_hold_its_border() {
    let region = HitRegion { anchor_x: 10, anchor_y: 20, half_width: 3, half_height: 1 };
    assert!(region.contains(10, 20));
    assert!(region.contains(8, 20));
    assert!(region.contains(12, 20));
    assert!(!region.contains(7, 20));
    assert!(!region.contains(13, 20));
    assert!(!region.contains(10, 19));
    assert!(!region.contains(10, 21));
}

#[test]
fn check_coords_is_strict_on_both_axes() {
    assert!(check_coords(100, 200, 100, 200, 5, 5));
    assert!(check_coords(100, 200, 104, 196, 5, 5));
    assert!(!check_coords(100, 200, 105, 200, 5, 5));
    assert!(!check_coords(100, 200, 95, 200, 5, 5));
    assert!(!check_coords(100, 200, 100, 205, 5, 5));
    assert!(!check_coords(100, 200, 100, 195, 5, 5));
    assert!(!check_coords(100, 200, 104, 205, 5, 5));
}

#[test]
fn check_coords_admits_nothing_within_an_empty_margin() {
    assert!(!check_coords(100, 200, 100, 200, 0, 5));
    assert!(!check_coords(100, 200, 100, 200, 5, 0));
    assert!(!check_coords(100, 200, 100, 200, -1, -1));
}

#[test]
fn check_coords_works_at_the_ends_of_the_number_range() {
    assert!(check_coords(i32::MAX, i32::MIN, i32::MAX, i32::MIN, 1, 1));
    assert!(check_coords(i32::MAX, i32::MIN, i32::MAX - 1, i32::MIN + 1, i32::MAX, i32::MAX));
    assert!(!check_coords(i32::MIN, 0, i32::MAX, 0, i32::MAX, 1));
    assert!(check_coords(0, 0, i32::MAX - 1, i32::MIN + 2, i32::MAX, i32::MAX));
    assert!(!check_coords(0, 0, i32::MIN, 0, i32::MAX, i32::MAX));
}
