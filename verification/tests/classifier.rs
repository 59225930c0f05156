use neko_watch::cat::{Cat, CatMood, CatState};

fn cat_with(hunger: i32, happiness: i32, cleanliness: i32, health: i32) -> Cat {
    let mut cat = Cat::new("priority".to_string());
    cat.set_status_for_test(hunger, happiness, cleanliness, health);
    cat
}

#[test]
fn dying_beats_every_other_state() {
    // All four attributes qualify for several rules; Dying wins.
    assert_eq!(cat_with(5, 5, 5, 5).get_state(0), CatState::Dying);
}

#[test]
fn single_low_attribute_is_dying() {
    assert_eq!(cat_with(5, 50, 50, 50).get_state(0), CatState::Dying);
    assert_eq!(cat_with(50, 5, 50, 50).get_state(0), CatState::Dying);
    assert_eq!(cat_with(50, 50, 5, 50).get_state(0), CatState::Dying);
    assert_eq!(cat_with(50, 50, 50, 5).get_state(0), CatState::Dying);
}

#[test]
fn sick_beats_hungry_dirty_unhappy() {
    assert_eq!(cat_with(25, 25, 25, 15).get_state(0), CatState::Sick);
}

#[test]
fn hungry_beats_dirty_unhappy() {
    assert_eq!(cat_with(25, 25, 25, 50).get_state(0), CatState::Hungry);
}

#[test]
fn dirty_beats_unhappy() {
    assert_eq!(cat_with(50, 25, 25, 50).get_state(0), CatState::Dirty);
}

#[test]
fn unhappy_alone() {
    assert_eq!(cat_with(50, 25, 50, 50).get_state(0), CatState::Unhappy);
}

#[test]
fn tired_needs_low_health_and_low_happiness() {
    assert_eq!(cat_with(50, 45, 50, 45).get_state(0), CatState::Tired);
    // Health alone below 50 is not Tired.
    assert_eq!(cat_with(50, 55, 50, 45).get_state(0), CatState::Normal);
    // Happiness alone below 50 is not Tired.
    assert_eq!(cat_with(50, 45, 50, 55).get_state(0), CatState::Normal);
}

#[test]
fn happy_above_eighty() {
    assert_eq!(cat_with(50, 85, 50, 50).get_state(0), CatState::Happy);
    assert_eq!(cat_with(50, 80, 50, 50).get_state(0), CatState::Normal);
}

#[test]
fn hunger_boundaries() {
    // 10 is no longer Dying, but still Hungry; 9 is Dying.
    assert_eq!(cat_with(10, 50, 50, 50).get_state(0), CatState::Hungry);
    assert_eq!(cat_with(9, 50, 50, 50).get_state(0), CatState::Dying);
    // 30 is not Hungry; 29 is.
    assert_eq!(cat_with(30, 50, 50, 50).get_state(0), CatState::Normal);
    assert_eq!(cat_with(29, 50, 50, 50).get_state(0), CatState::Hungry);
}

#[test]
fn health_boundaries() {
    assert_eq!(cat_with(50, 50, 50, 20).get_state(0), CatState::Normal);
    assert_eq!(cat_with(50, 50, 50, 19).get_state(0), CatState::Sick);
}

#[test]
fn full_needs_recent_feeding() {
    // High hunger without a feeding is Happy or Normal, never Full.
    assert_eq!(cat_with(95, 85, 50, 50).get_state(0), CatState::Happy);
    assert_eq!(cat_with(95, 50, 50, 50).get_state(0), CatState::Normal);
}

#[test]
fn feeding_then_high_hunger_is_full() {
    let mut cat = cat_with(95, 50, 50, 50);
    cat.feed(1_000);
    // Hunger is clamped to 100 > 90 and the feeding is recent.
    assert_eq!(cat.get_state(1_000), CatState::Full);
    // Still recent just before the 30-second window closes...
    assert_eq!(cat.get_state(30_999), CatState::Full);
    // ...and no longer Full once it has closed.
    assert_eq!(cat.get_state(31_000), CatState::Normal);
}

#[test]
fn mood_rules() {
    assert_eq!(cat_with(50, 50, 50, 15).get_mood(), CatMood::Sick);
    assert_eq!(cat_with(15, 50, 50, 50).get_mood(), CatMood::Sad);
    assert_eq!(cat_with(50, 15, 50, 50).get_mood(), CatMood::Sad);
    assert_eq!(cat_with(50, 45, 50, 45).get_mood(), CatMood::Sleepy);
    assert_eq!(cat_with(75, 85, 50, 50).get_mood(), CatMood::Happy);
    // Happy mood needs hunger above 70 as well.
    assert_eq!(cat_with(70, 85, 50, 50).get_mood(), CatMood::Normal);
    assert_eq!(cat_with(50, 50, 50, 50).get_mood(), CatMood::Normal);
}

#[test]
fn mood_and_state_are_independent() {
    // The same snapshot can classify differently under the two rule sets.
    let cat = cat_with(25, 50, 50, 50);
    assert_eq!(cat.get_state(0), CatState::Hungry);
    assert_eq!(cat.get_mood(), CatMood::Normal);
}
