use neko_watch::art::get_sleep_animation_test;
use neko_watch::cat::{Cat, CatState};

fn line_count(s: &str) -> usize {
    s.split('\n').count()
}

#[test]
fn every_state_renders_six_lines() {
    let mut cat = Cat::new("アートテスト猫".to_string());
    let cases = [
        (50, 50, 50, 50, CatState::Normal),
        (5, 5, 5, 5, CatState::Dying),
        (50, 50, 50, 15, CatState::Sick),
        (25, 50, 50, 50, CatState::Hungry),
        (50, 50, 25, 50, CatState::Dirty),
        (50, 25, 50, 50, CatState::Unhappy),
        (50, 40, 50, 40, CatState::Tired),
        (50, 85, 50, 50, CatState::Happy),
    ];
    for (hunger, happiness, cleanliness, health, expected) in cases {
        cat.set_status_for_test(hunger, happiness, cleanliness, health);
        assert_eq!(cat.get_state(0), expected);
        assert_eq!(line_count(&cat.get_ascii_art(0)), 6);
    }
}

#[test]
fn full_state_renders_six_lines() {
    let mut cat = Cat::new("満腹".to_string());
    cat.set_status_for_test(95, 50, 50, 50);
    cat.feed(0);
    assert_eq!(cat.get_state(0), CatState::Full);
    let art = cat.get_ascii_art(0);
    assert_eq!(line_count(&art), 6);
    assert!(art.contains("ごちそうさま"));
}

#[test]
fn sick_frames_alternate_eyes() {
    let mut cat = Cat::new("病気".to_string());
    cat.set_status_for_test(50, 50, 50, 15);
    let art = cat.get_ascii_art(0);
    assert!(art.contains("( @.@ )"));
    assert!(art.contains("ぐったり"));
}

#[test]
fn normal_frame_shows_open_eyes() {
    let cat = Cat::new("普通".to_string());
    let art = cat.get_ascii_art(0);
    assert_eq!(line_count(&art), 6);
    assert!(art.contains("( o.o )"));
}

#[test]
fn sleeping_overrides_state_art() {
    let mut cat = Cat::new("睡眠".to_string());
    cat.sleep(0);
    let art = cat.get_ascii_art(0);
    assert_eq!(line_count(&art), 6);
    assert_eq!(art, get_sleep_animation_test(0));
    assert!(art.contains("Zzz..."));
    // Once the window has elapsed the state art returns.
    let awake = cat.get_ascii_art(600_000);
    assert!(!awake.contains("Zzz..."));
}

#[test]
fn sleep_animation_cycles_four_frames() {
    for frame in 0..4 {
        let art = get_sleep_animation_test(frame);
        assert_eq!(line_count(&art), 6);
    }
    assert!(get_sleep_animation_test(0).contains("( -.z )"));
    assert!(get_sleep_animation_test(1).contains("( z.- )"));
    assert!(get_sleep_animation_test(2).contains("( z.z )"));
    assert_eq!(get_sleep_animation_test(4), get_sleep_animation_test(0));
}

#[test]
fn hungry_art_alternates_captions() {
    let mut cat = Cat::new("空腹".to_string());
    cat.set_status_for_test(25, 50, 50, 50);
    let art = cat.get_ascii_art(0);
    assert!(art.contains("おなかすいた"));
    // Advance the animation index to the second caption.
    for _ in 0..20 {
        cat.update(0);
    }
    cat.set_status_for_test(25, 50, 50, 50);
    let art = cat.get_ascii_art(0);
    assert!(art.contains("グゥ～"));
}
