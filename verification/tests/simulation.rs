use neko_watch::cat::{Cat, CatState};

#[test]
fn new_cat_starts_at_eighty() {
    let cat = Cat::new("ネコ".to_string());
    assert_eq!(cat.name, "ネコ");
    assert_eq!(cat.hunger, 80);
    assert_eq!(cat.happiness, 80);
    assert_eq!(cat.cleanliness, 80);
    assert_eq!(cat.health, 80);
    assert!(!cat.is_sleeping(0));
    assert!(cat.can_perform_action(0));
    assert_eq!(cat.get_state(0), CatState::Normal);
}

#[test]
fn advance_by_zero_is_a_noop_on_attributes() {
    let mut cat = Cat::new("zero".to_string());
    for _ in 0..25 {
        cat.update(0);
        assert_eq!(cat.hunger, 80);
        assert_eq!(cat.happiness, 80);
        assert_eq!(cat.cleanliness, 80);
        assert_eq!(cat.health, 80);
        assert_eq!(cat.hunger_units, 9_600_000);
        assert_eq!(cat.happiness_units, 9_600_000);
        assert_eq!(cat.cleanliness_units, 9_600_000);
        assert_eq!(cat.health_units, 9_600_000);
    }
    // The animation counter still advances: it is tied to call count alone.
    assert_eq!(cat.animation_frame, 2);
}

#[test]
fn one_minute_of_decay() {
    let mut cat = Cat::new("decay".to_string());
    cat.update(60_000);
    // 2.5, 2.0, 1.0 and 2.0 points per minute, truncated for display.
    assert_eq!(cat.hunger, 77);
    assert_eq!(cat.happiness, 78);
    assert_eq!(cat.cleanliness, 79);
    assert_eq!(cat.health, 78);
}

#[test]
fn decay_is_split_insensitive() {
    let mut once = Cat::new("once".to_string());
    once.update(90_000);
    let mut twice = Cat::new("twice".to_string());
    twice.update(30_000);
    twice.update(60_000);
    assert_eq!(once.hunger_units, twice.hunger_units);
    assert_eq!(once.happiness_units, twice.happiness_units);
    assert_eq!(once.cleanliness_units, twice.cleanliness_units);
    assert_eq!(once.health_units, twice.health_units);
}

#[test]
fn decay_is_monotone_without_actions() {
    let mut cat = Cat::new("monotone".to_string());
    let mut prev = (cat.hunger, cat.happiness, cat.cleanliness, cat.health);
    for _ in 0..40 {
        cat.update(45_000);
        let cur = (cat.hunger, cat.happiness, cat.cleanliness, cat.health);
        assert!(cur.0 <= prev.0);
        assert!(cur.1 <= prev.1);
        assert!(cur.2 <= prev.2);
        assert!(cur.3 <= prev.3);
        prev = cur;
    }
}

#[test]
fn attributes_never_leave_the_bar() {
    let mut cat = Cat::new("bounded".to_string());
    for i in 0..200 {
        match i % 5 {
            0 => cat.feed(i as u64),
            1 => cat.play(),
            2 => cat.bathe(),
            3 => cat.update(600_000),
            _ => cat.update(1),
        }
        for v in [cat.hunger, cat.happiness, cat.cleanliness, cat.health] {
            assert!((0..=100).contains(&v));
        }
    }
}

#[test]
fn health_decays_twice_as_fast_when_a_need_is_low() {
    let mut low = Cat::new("low".to_string());
    low.set_status_for_test(25, 50, 50, 50);
    low.update(60_000);
    assert_eq!(low.health, 46);
    // Hunger itself also kept decaying.
    assert_eq!(low.hunger, 22);

    let mut fine = Cat::new("fine".to_string());
    fine.set_status_for_test(30, 50, 50, 50);
    fine.update(60_000);
    assert_eq!(fine.health, 48);
}

#[test]
fn feeding_shifts_and_clamps() {
    let mut cat = Cat::new("feed".to_string());
    cat.set_status_for_test(80, 95, 5, 50);
    cat.feed(7);
    assert_eq!(cat.hunger, 100);
    assert_eq!(cat.happiness, 100);
    assert_eq!(cat.cleanliness, 0);
    assert_eq!(cat.health, 50);
    assert_eq!(cat.last_fed, Some(7));
}

#[test]
fn playing_shifts_attributes() {
    let mut cat = Cat::new("play".to_string());
    cat.set_status_for_test(50, 50, 50, 50);
    cat.play();
    assert_eq!(cat.happiness, 75);
    assert_eq!(cat.hunger, 35);
    assert_eq!(cat.cleanliness, 45);
    assert_eq!(cat.health, 50);
}

#[test]
fn bathing_shifts_and_clamps() {
    let mut cat = Cat::new("bathe".to_string());
    cat.set_status_for_test(50, 50, 50, 50);
    cat.bathe();
    // Cleanliness is clamped down from 110.
    assert_eq!(cat.cleanliness, 100);
    assert_eq!(cat.happiness, 20);
    assert_eq!(cat.health, 40);
    assert_eq!(cat.hunger, 50);
}

#[test]
fn sleep_recovers_health_to_the_mean_of_the_needs() {
    let mut cat = Cat::new("sleep".to_string());
    cat.set_status_for_test(60, 30, 90, 10);
    cat.sleep(0);
    assert_eq!(cat.health, 60);
    assert_eq!(cat.health_units, 60 * 120_000);
}

#[test]
fn sleep_window_lasts_six_hundred_seconds() {
    let mut cat = Cat::new("window".to_string());
    assert!(cat.can_perform_action(5_000));
    cat.sleep(5_000);
    assert!(cat.is_sleeping(5_000));
    assert!(!cat.can_perform_action(5_000));
    assert!(cat.is_sleeping(604_999));
    assert!(!cat.can_perform_action(604_999));
    assert!(!cat.is_sleeping(605_000));
    assert!(cat.can_perform_action(605_000));
}

#[test]
fn animation_advances_every_tenth_call() {
    let mut cat = Cat::new("frames".to_string());
    for _ in 0..9 {
        cat.update(0);
    }
    assert_eq!(cat.animation_frame, 0);
    cat.update(0);
    assert_eq!(cat.animation_frame, 1);
    for _ in 0..30 {
        cat.update(0);
    }
    // Four advances in total wrap back around modulo 4.
    assert_eq!(cat.animation_frame, 0);
}

#[test]
fn set_status_clamps_its_arguments() {
    let mut cat = Cat::new("clamp".to_string());
    cat.set_status_for_test(-20, 140, 55, 101);
    assert_eq!(cat.hunger, 0);
    assert_eq!(cat.happiness, 100);
    assert_eq!(cat.cleanliness, 55);
    assert_eq!(cat.health, 100);
}
