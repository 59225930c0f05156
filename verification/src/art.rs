//! The animation frame library: for each classified state a small fixed set
//! of six-line ASCII frames, keyed by the cyclic animation index. Pure data;
//! each lookup's contract pins the exact text returned.

use vstd::prelude::*;

use crate::cat::CatState;

verus! {

/// The frame shown in the normal state, cycling over four variants.
pub open spec fn normal_frame(frame: int) -> Seq<char> {
    if frame % 4 == 0 {
        "   /\\_/\\          \n  ( o.o )         \n   > ^ <     /)   \n  /|   |\\   / /   \n ( |___| ) /_/    \n                  "@
    } else if frame % 4 == 1 {
        "   /\\_/\\          \n  ( -.o )         \n   > ^ <     /)   \n  /|   |\\   / /   \n ( |___| ) /_/    \n                  "@
    } else if frame % 4 == 2 {
        "   /\\_/\\          \n  ( o.- )         \n   > ^ <     /)   \n  /|   |\\   / /   \n ( |___| ) /_/    \n                  "@
    } else {
        "   /\\_/\\          \n  ( o.o )         \n   > ^ <     /)   \n  /|   |\\   / /   \n ( |___| ) /_/    \n                  "@
    }
}

/// The single frame shown while dying.
pub open spec fn dying_frame(frame: int) -> Seq<char> {
    "   /\\_/\\          \n  ( x.x )         \n   > ^ <     /)   \n  /|   |\\   / /   \n ( |___| ) /_/    \n       ...        "@
}

/// The frame shown while hungry, alternating two captions.
pub open spec fn hungry_frame(frame: int) -> Seq<char> {
    if frame % 4 == 0 || frame % 4 == 1 {
        "   /\\_/\\          \n  ( >.< )         \n   > ^ <     /)   \n  /|   |\\   / /   \n ( |___| ) /_/    \nおなかすいた...   "@
    } else {
        "   /\\_/\\          \n  ( >.< )         \n   > ^ <     /)   \n  /|   |\\   / /   \n ( |___| ) /_/    \n    グゥ～        "@
    }
}

/// The frame shown while happy, alternating two captions.
pub open spec fn happy_frame(frame: int) -> Seq<char> {
    if frame % 4 == 0 || frame % 4 == 2 {
        "   /\\_/\\          \n  ( ^.^ )         \n   > ^ <     /)   \n  /|   |\\   / /   \n ( |___| ) /_/    \n       ♪         "@
    } else {
        "   /\\_/\\          \n  ( ^.^ )         \n   > ^ <     /)   \n  /|   |\\   / /   \n ( |___| ) /_/    \n      ♪♪         "@
    }
}

/// The frame shown while dirty, with a growing trail of sweat drops.
pub open spec fn dirty_frame(frame: int) -> Seq<char> {
    if frame % 4 == 0 {
        "   /\\_/\\          \n  ( >.< )         \n   > ^ <     /)   \n  /|   |\\   / /   \n ( |___| ) /_/    \n    ;;           "@
    } else if frame % 4 == 1 {
        "   /\\_/\\          \n  ( >.< )         \n   > ^ <     /)   \n  /|   |\\   / /   \n ( |___| ) /_/    \n    ;;;          "@
    } else if frame % 4 == 2 {
        "   /\\_/\\          \n  ( >.< )         \n   > ^ <     /)   \n  /|   |\\   / /   \n ( |___| ) /_/    \n    ;;;;         "@
    } else {
        "   /\\_/\\          \n  ( >.< )         \n   > ^ <     /)   \n  /|   |\\   / /   \n ( |___| ) /_/    \n    ;;;;;;       "@
    }
}

/// The frame shown while tired, cycling eyes and a drowsy caption.
pub open spec fn tired_frame(frame: int) -> Seq<char> {
    if frame % 4 == 0 {
        "   /\\_/\\          \n  ( -.- )         \n   > ^ <     /)   \n  /|   |\\   / /   \n ( |___| ) /_/    \n    Zzz          "@
    } else if frame % 4 == 1 {
        "   /\\_/\\          \n  ( _._ )         \n   > ^ <     /)   \n  /|   |\\   / /   \n ( |___| ) /_/    \n    zZz          "@
    } else if frame % 4 == 2 {
        "   /\\_/\\          \n  ( -.- )         \n   > ^ <     /)   \n  /|   |\\   / /   \n ( |___| ) /_/    \n    zzZ          "@
    } else {
        "   /\\_/\\          \n  ( _._ )         \n   > ^ <     /)   \n  /|   |\\   / /   \n ( |___| ) /_/    \n    ZzZ          "@
    }
}

/// The single frame shown while unhappy.
pub open spec fn unhappy_frame(frame: int) -> Seq<char> {
    "   /\\_/\\          \n  ( -.~ )         \n   > ^ <     /)   \n  /|   |\\   / /   \n ( |___| ) /_/    \n    ムスッ       "@
}

/// The single frame shown while full.
pub open spec fn full_frame(frame: int) -> Seq<char> {
    "   /\\_/\\          \n  ( ^ω^ )         \n   > ^ <     /)   \n  /|   |\\   / /   \n ( |___| ) /_/    \nごちそうさま♪    "@
}

/// The frame shown while sick, alternating two pairs of eyes.
pub open spec fn sick_frame(frame: int) -> Seq<char> {
    if frame % 2 == 0 {
        "   /\\_/\\          \n  ( @.@ )         \n   > ^ <     /)   \n  /|   |\\   / /   \n ( |___| ) /_/    \n   ぐったり      "@
    } else {
        "   /\\_/\\          \n  ( x.x )         \n   > ^ <     /)   \n  /|   |\\   / /   \n ( |___| ) /_/    \n   ぐったり      "@
    }
}

/// The frame shown while asleep, cycling eyes and a snore caption; it
/// overrides every state-based frame while the sleep window is open.
pub open spec fn sleeping_frame(frame: int) -> Seq<char> {
    if frame % 4 == 0 {
        "   /\\_/\\          \n  ( -.z )         \n   > ^ <     /)   \n  /|   |\\   / /   \n ( |___| ) /_/    \n   Zzz...       "@
    } else if frame % 4 == 1 {
        "   /\\_/\\          \n  ( z.- )         \n   > ^ <     /)   \n  /|   |\\   / /   \n ( |___| ) /_/    \n   zzZ...       "@
    } else if frame % 4 == 2 {
        "   /\\_/\\          \n  ( z.z )         \n   > ^ <     /)   \n  /|   |\\   / /   \n ( |___| ) /_/    \n   ZZZ...       "@
    } else {
        "   /\\_/\\          \n  ( -.z )         \n   > ^ <     /)   \n  /|   |\\   / /   \n ( |___| ) /_/    \n   zzz...       "@
    }
}

/// The frame library entry for a classified (awake) state.
pub open spec fn state_frame(state: CatState, frame: int) -> Seq<char> {
    match state {
        CatState::Dying => dying_frame(frame),
        CatState::Sick => sick_frame(frame),
        CatState::Hungry => hungry_frame(frame),
        CatState::Dirty => dirty_frame(frame),
        CatState::Unhappy => unhappy_frame(frame),
        CatState::Tired => tired_frame(frame),
        CatState::Happy => happy_frame(frame),
        CatState::Full => full_frame(frame),
        CatState::Normal => normal_frame(frame),
    }
}

pub(crate) fn get_normal_animation(frame: usize) -> (s: String)
    ensures
        s@ == normal_frame(frame as int),
{
    match frame % 4 {
        0 => "   /\\_/\\          \n  ( o.o )         \n   > ^ <     /)   \n  /|   |\\   / /   \n ( |___| ) /_/    \n                  ".to_owned(),
        1 => "   /\\_/\\          \n  ( -.o )         \n   > ^ <     /)   \n  /|   |\\   / /   \n ( |___| ) /_/    \n                  ".to_owned(),
        2 => "   /\\_/\\          \n  ( o.- )         \n   > ^ <     /)   \n  /|   |\\   / /   \n ( |___| ) /_/    \n                  ".to_owned(),
        _ => "   /\\_/\\          \n  ( o.o )         \n   > ^ <     /)   \n  /|   |\\   / /   \n ( |___| ) /_/    \n                  ".to_owned(),
    }
}

pub(crate) fn get_dying_animation(frame: usize) -> (s: String)
    ensures
        s@ == dying_frame(frame as int),
{
    "   /\\_/\\          \n  ( x.x )         \n   > ^ <     /)   \n  /|   |\\   / /   \n ( |___| ) /_/    \n       ...        ".to_owned()
}

pub(crate) fn get_hungry_animation(frame: usize) -> (s: String)
    ensures
        s@ == hungry_frame(frame as int),
{
    match frame % 4 {
        0 | 1 => "   /\\_/\\          \n  ( >.< )         \n   > ^ <     /)   \n  /|   |\\   / /   \n ( |___| ) /_/    \nおなかすいた...   ".to_owned(),
        _ => "   /\\_/\\          \n  ( >.< )         \n   > ^ <     /)   \n  /|   |\\   / /   \n ( |___| ) /_/    \n    グゥ～        ".to_owned(),
    }
}

pub(crate) fn get_happy_animation(frame: usize) -> (s: String)
    ensures
        s@ == happy_frame(frame as int),
{
    match frame % 4 {
        0 | 2 => "   /\\_/\\          \n  ( ^.^ )         \n   > ^ <     /)   \n  /|   |\\   / /   \n ( |___| ) /_/    \n       ♪         ".to_owned(),
        _ => "   /\\_/\\          \n  ( ^.^ )         \n   > ^ <     /)   \n  /|   |\\   / /   \n ( |___| ) /_/    \n      ♪♪         ".to_owned(),
    }
}

pub(crate) fn get_dirty_animation(frame: usize) -> (s: String)
    ensures
        s@ == dirty_frame(frame as int),
{
    match frame % 4 {
        0 => "   /\\_/\\          \n  ( >.< )         \n   > ^ <     /)   \n  /|   |\\   / /   \n ( |___| ) /_/    \n    ;;           ".to_owned(),
        1 => "   /\\_/\\          \n  ( >.< )         \n   > ^ <     /)   \n  /|   |\\   / /   \n ( |___| ) /_/    \n    ;;;          ".to_owned(),
        2 => "   /\\_/\\          \n  ( >.< )         \n   > ^ <     /)   \n  /|   |\\   / /   \n ( |___| ) /_/    \n    ;;;;         ".to_owned(),
        _ => "   /\\_/\\          \n  ( >.< )         \n   > ^ <     /)   \n  /|   |\\   / /   \n ( |___| ) /_/    \n    ;;;;;;       ".to_owned(),
    }
}

pub(crate) fn get_tired_animation(frame: usize) -> (s: String)
    ensures
        s@ == tired_frame(frame as int),
{
    match frame % 4 {
        0 => "   /\\_/\\          \n  ( -.- )         \n   > ^ <     /)   \n  /|   |\\   / /   \n ( |___| ) /_/    \n    Zzz          ".to_owned(),
        1 => "   /\\_/\\          \n  ( _._ )         \n   > ^ <     /)   \n  /|   |\\   / /   \n ( |___| ) /_/    \n    zZz          ".to_owned(),
        2 => "   /\\_/\\          \n  ( -.- )         \n   > ^ <     /)   \n  /|   |\\   / /   \n ( |___| ) /_/    \n    zzZ          ".to_owned(),
        _ => "   /\\_/\\          \n  ( _._ )         \n   > ^ <     /)   \n  /|   |\\   / /   \n ( |___| ) /_/    \n    ZzZ          ".to_owned(),
    }
}

pub(crate) fn get_unhappy_animation(frame: usize) -> (s: String)
    ensures
        s@ == unhappy_frame(frame as int),
{
    "   /\\_/\\          \n  ( -.~ )         \n   > ^ <     /)   \n  /|   |\\   / /   \n ( |___| ) /_/    \n    ムスッ       ".to_owned()
}

pub(crate) fn get_full_animation(frame: usize) -> (s: String)
    ensures
        s@ == full_frame(frame as int),
{
    "   /\\_/\\          \n  ( ^ω^ )         \n   > ^ <     /)   \n  /|   |\\   / /   \n ( |___| ) /_/    \nごちそうさま♪    ".to_owned()
}

pub(crate) fn get_sick_animation(frame: usize) -> (s: String)
    ensures
        s@ == sick_frame(frame as int),
{
    match frame % 2 {
        0 => "   /\\_/\\          \n  ( @.@ )         \n   > ^ <     /)   \n  /|   |\\   / /   \n ( |___| ) /_/    \n   ぐったり      ".to_owned(),
        _ => "   /\\_/\\          \n  ( x.x )         \n   > ^ <     /)   \n  /|   |\\   / /   \n ( |___| ) /_/    \n   ぐったり      ".to_owned(),
    }
}

pub(crate) fn get_sleeping_animation(frame: usize) -> (s: String)
    ensures
        s@ == sleeping_frame(frame as int),
{
    match frame % 4 {
        0 => "   /\\_/\\          \n  ( -.z )         \n   > ^ <     /)   \n  /|   |\\   / /   \n ( |___| ) /_/    \n   Zzz...       ".to_owned(),
        1 => "   /\\_/\\          \n  ( z.- )         \n   > ^ <     /)   \n  /|   |\\   / /   \n ( |___| ) /_/    \n   zzZ...       ".to_owned(),
        2 => "   /\\_/\\          \n  ( z.z )         \n   > ^ <     /)   \n  /|   |\\   / /   \n ( |___| ) /_/    \n   ZZZ...       ".to_owned(),
        _ => "   /\\_/\\          \n  ( -.z )         \n   > ^ <     /)   \n  /|   |\\   / /   \n ( |___| ) /_/    \n   zzz...       ".to_owned(),
    }
}

/// The sleep animation frame for a given index, exposed so that the frames
/// can be inspected one by one without putting a pet to sleep.
pub fn get_sleep_animation_test(frame: usize) -> (s: String)
    ensures
        s@ == sleeping_frame(frame as int),
{
    get_sleeping_animation(frame)
}

} // verus!
