//! The pet itself: attribute accumulators, time-driven decay, care actions,
//! and the two classifiers that read the current attribute snapshot.

use vstd::prelude::*;
use vstd::string::StringExecFns;

use crate::text::{dec_str, units_display};

verus! {

/// Fixed-point scale: accumulator units per attribute point. Chosen so that
/// every decay rate below is a whole number of units per millisecond.
pub const UNITS_PER_POINT: u64 = 120_000;

/// Accumulator value of a full attribute (100 points).
pub const MAX_UNITS: u64 = 12_000_000;

/// Hunger decays 2.5 points per minute.
pub const HUNGER_DECAY: u64 = 5;

/// Happiness decays 2.0 points per minute.
pub const HAPPINESS_DECAY: u64 = 4;

/// Cleanliness decays 1.0 point per minute.
pub const CLEANLINESS_DECAY: u64 = 2;

/// Health decays 4.0 points per minute while some other need is below 30.
pub const HEALTH_DECAY_FAST: u64 = 8;

/// Health decays 2.0 points per minute while all other needs are at least 30.
pub const HEALTH_DECAY_SLOW: u64 = 4;

/// A sleep begun by `sleep` lasts exactly 600 seconds.
pub const SLEEP_DURATION_MS: u64 = 600_000;

/// A feeding counts as recent for 30 seconds.
pub const RECENT_FEED_MS: u64 = 30_000;

/// The virtual pet. The four `i32` fields are the integer views (truncations)
/// of the corresponding `_units` fixed-point accumulators; `wf` ties them
/// together. Timestamps are wall-clock instants in milliseconds, supplied by
/// the caller.
#[derive(Debug, Clone)]
pub struct Cat {
    pub name: String,
    pub hunger: i32,
    pub happiness: i32,
    pub cleanliness: i32,
    pub health: i32,
    pub animation_frame: usize,
    pub frame_counter: u32,
    pub last_fed: Option<u64>,
    pub sleep_until: Option<u64>,
    pub hunger_units: u64,
    pub happiness_units: u64,
    pub cleanliness_units: u64,
    pub health_units: u64,
}

/// Integer attribute value shown for an accumulator: its truncation to points.
pub open spec fn points(units: u64) -> int {
    units as int / (UNITS_PER_POINT as int)
}

/// An accumulator after decaying `per_ms` units per millisecond for `dt`
/// milliseconds, floored at zero.
pub open spec fn decayed(units: int, per_ms: int, dt: int) -> int {
    if units - per_ms * dt >= 0 {
        units - per_ms * dt
    } else {
        0
    }
}

/// An accumulator after gaining `delta` units, capped at `MAX_UNITS`.
pub open spec fn raised(units: int, delta: int) -> int {
    if units + delta >= MAX_UNITS {
        MAX_UNITS as int
    } else {
        units + delta
    }
}

/// An accumulator after losing `delta` units, floored at zero.
pub open spec fn lowered(units: int, delta: int) -> int {
    if units - delta <= 0 {
        0
    } else {
        units - delta
    }
}

impl Cat {
    /// Well-formedness: every accumulator stays within a full bar, each
    /// integer attribute is the truncation of its accumulator, and the
    /// cosmetic counters stay within their cycles.
    pub open spec fn wf(&self) -> bool {
        &&& self.hunger_units <= MAX_UNITS
        &&& self.happiness_units <= MAX_UNITS
        &&& self.cleanliness_units <= MAX_UNITS
        &&& self.health_units <= MAX_UNITS
        &&& self.hunger as int == points(self.hunger_units)
        &&& self.happiness as int == points(self.happiness_units)
        &&& self.cleanliness as int == points(self.cleanliness_units)
        &&& self.health as int == points(self.health_units)
        &&& self.animation_frame < 4
        &&& self.frame_counter < 10
    }

    /// Health decays at the fast rate while any other need is below 30
    /// points, judged on the integer views.
    pub open spec fn needs_low(&self) -> bool {
        self.hunger < 30 || self.happiness < 30 || self.cleanliness < 30
    }

    /// The health decay rate in force at the start of an `update`.
    pub open spec fn health_decay(&self) -> u64 {
        if self.needs_low() {
            HEALTH_DECAY_FAST
        } else {
            HEALTH_DECAY_SLOW
        }
    }

    /// A new pet starts with every attribute at 80 points and no feeding or
    /// sleep recorded.
    pub fn new(name: String) -> (cat: Cat)
        ensures
            cat.wf(),
            cat.name == name,
            cat.hunger == 80 && cat.happiness == 80 && cat.cleanliness == 80 && cat.health == 80,
            cat.hunger_units == 9_600_000 && cat.happiness_units == 9_600_000,
            cat.cleanliness_units == 9_600_000 && cat.health_units == 9_600_000,
            cat.animation_frame == 0 && cat.frame_counter == 0,
            cat.last_fed is None,
            cat.sleep_until is None,
    {
        Cat {
            name,
            hunger: 80,
            happiness: 80,
            cleanliness: 80,
            health: 80,
            animation_frame: 0,
            frame_counter: 0,
            last_fed: None,
            sleep_until: None,
            hunger_units: 9_600_000,
            happiness_units: 9_600_000,
            cleanliness_units: 9_600_000,
            health_units: 9_600_000,
        }
    }

    /// Advance the simulation by `delta_ms` milliseconds of real time: every
    /// accumulator decays at its rate (health at the rate selected by the
    /// integer views on entry), never below zero and never increasing; the
    /// integer views are recomputed; the frame counter steps once per call
    /// and every tenth call advances the cosmetic animation index modulo 4.
    pub fn update(&mut self, delta_ms: u64)
        requires
            old(self).wf(),
        ensures
            final(self).wf(),
            final(self).hunger_units as int
                == decayed(old(self).hunger_units as int, HUNGER_DECAY as int, delta_ms as int),
            final(self).happiness_units as int
                == decayed(old(self).happiness_units as int, HAPPINESS_DECAY as int, delta_ms as int),
            final(self).cleanliness_units as int
                == decayed(old(self).cleanliness_units as int, CLEANLINESS_DECAY as int, delta_ms as int),
            final(self).health_units as int
                == decayed(old(self).health_units as int, old(self).health_decay() as int, delta_ms as int),
            final(self).hunger_units <= old(self).hunger_units,
            final(self).happiness_units <= old(self).happiness_units,
            final(self).cleanliness_units <= old(self).cleanliness_units,
            final(self).health_units <= old(self).health_units,
            final(self).hunger <= old(self).hunger,
            final(self).happiness <= old(self).happiness,
            final(self).cleanliness <= old(self).cleanliness,
            final(self).health <= old(self).health,
            final(self).frame_counter as int == (old(self).frame_counter as int + 1) % 10,
            final(self).animation_frame as int == if (old(self).frame_counter as int + 1) % 10 == 0 {
                (old(self).animation_frame as int + 1) % 4
            } else {
                old(self).animation_frame as int
            },
            final(self).name == old(self).name,
            final(self).last_fed == old(self).last_fed,
            final(self).sleep_until == old(self).sleep_until,
    {
        let fast = self.hunger < 30 || self.happiness < 30 || self.cleanliness < 30;
        let health_rate = if fast {
            HEALTH_DECAY_FAST
        } else {
            HEALTH_DECAY_SLOW
        };
        self.hunger_units = decay_units(self.hunger_units, HUNGER_DECAY, delta_ms);
        self.happiness_units = decay_units(self.happiness_units, HAPPINESS_DECAY, delta_ms);
        self.cleanliness_units = decay_units(self.cleanliness_units, CLEANLINESS_DECAY, delta_ms);
        self.health_units = decay_units(self.health_units, health_rate, delta_ms);
        proof {
            lemma_points_ordered(self.hunger_units, old(self).hunger_units);
            lemma_points_ordered(self.happiness_units, old(self).happiness_units);
            lemma_points_ordered(self.cleanliness_units, old(self).cleanliness_units);
            lemma_points_ordered(self.health_units, old(self).health_units);
        }
        self.hunger = points_of(self.hunger_units);
        self.happiness = points_of(self.happiness_units);
        self.cleanliness = points_of(self.cleanliness_units);
        self.health = points_of(self.health_units);
        self.frame_counter = if self.frame_counter >= 9 {
            0
        } else {
            self.frame_counter + 1
        };
        if self.frame_counter == 0 {
            self.animation_frame = if self.animation_frame >= 3 {
                0
            } else {
                self.animation_frame + 1
            };
        }
    }

    /// Feeding raises hunger by 40 points and happiness by 10, lowers
    /// cleanliness by 10 (all clamped to the bar), leaves health untouched,
    /// and records the feeding instant.
    pub fn feed(&mut self, now_ms: u64)
        requires
            old(self).wf(),
        ensures
            final(self).wf(),
            final(self).hunger_units as int
                == raised(old(self).hunger_units as int, (40 * UNITS_PER_POINT) as int),
            final(self).happiness_units as int
                == raised(old(self).happiness_units as int, (10 * UNITS_PER_POINT) as int),
            final(self).cleanliness_units as int
                == lowered(old(self).cleanliness_units as int, (10 * UNITS_PER_POINT) as int),
            final(self).health_units == old(self).health_units,
            final(self).health == old(self).health,
            final(self).last_fed == Some(now_ms),
            final(self).sleep_until == old(self).sleep_until,
            final(self).name == old(self).name,
            final(self).animation_frame == old(self).animation_frame,
            final(self).frame_counter == old(self).frame_counter,
    {
        self.hunger_units = raise_units(self.hunger_units, 40 * UNITS_PER_POINT);
        self.happiness_units = raise_units(self.happiness_units, 10 * UNITS_PER_POINT);
        self.cleanliness_units = lower_units(self.cleanliness_units, 10 * UNITS_PER_POINT);
        self.hunger = points_of(self.hunger_units);
        self.happiness = points_of(self.happiness_units);
        self.cleanliness = points_of(self.cleanliness_units);
        self.last_fed = Some(now_ms);
    }

    /// Playing raises happiness by 25 points, lowers hunger by 15 and
    /// cleanliness by 5, all clamped; health and the markers are untouched.
    pub fn play(&mut self)
        requires
            old(self).wf(),
        ensures
            final(self).wf(),
            final(self).happiness_units as int
                == raised(old(self).happiness_units as int, (25 * UNITS_PER_POINT) as int),
            final(self).hunger_units as int
                == lowered(old(self).hunger_units as int, (15 * UNITS_PER_POINT) as int),
            final(self).cleanliness_units as int
                == lowered(old(self).cleanliness_units as int, (5 * UNITS_PER_POINT) as int),
            final(self).health_units == old(self).health_units,
            final(self).health == old(self).health,
            final(self).last_fed == old(self).last_fed,
            final(self).sleep_until == old(self).sleep_until,
            final(self).name == old(self).name,
            final(self).animation_frame == old(self).animation_frame,
            final(self).frame_counter == old(self).frame_counter,
    {
        self.happiness_units = raise_units(self.happiness_units, 25 * UNITS_PER_POINT);
        self.hunger_units = lower_units(self.hunger_units, 15 * UNITS_PER_POINT);
        self.cleanliness_units = lower_units(self.cleanliness_units, 5 * UNITS_PER_POINT);
        self.happiness = points_of(self.happiness_units);
        self.hunger = points_of(self.hunger_units);
        self.cleanliness = points_of(self.cleanliness_units);
    }

    /// Bathing raises cleanliness by 60 points, lowers happiness by 30 and
    /// health by 10, all clamped; hunger and the markers are untouched.
    pub fn bathe(&mut self)
        requires
            old(self).wf(),
        ensures
            final(self).wf(),
            final(self).cleanliness_units as int
                == raised(old(self).cleanliness_units as int, (60 * UNITS_PER_POINT) as int),
            final(self).happiness_units as int
                == lowered(old(self).happiness_units as int, (30 * UNITS_PER_POINT) as int),
            final(self).health_units as int
                == lowered(old(self).health_units as int, (10 * UNITS_PER_POINT) as int),
            final(self).hunger_units == old(self).hunger_units,
            final(self).hunger == old(self).hunger,
            final(self).last_fed == old(self).last_fed,
            final(self).sleep_until == old(self).sleep_until,
            final(self).name == old(self).name,
            final(self).animation_frame == old(self).animation_frame,
            final(self).frame_counter == old(self).frame_counter,
    {
        self.cleanliness_units = raise_units(self.cleanliness_units, 60 * UNITS_PER_POINT);
        self.happiness_units = lower_units(self.happiness_units, 30 * UNITS_PER_POINT);
        self.health_units = lower_units(self.health_units, 10 * UNITS_PER_POINT);
        self.cleanliness = points_of(self.cleanliness_units);
        self.happiness = points_of(self.happiness_units);
        self.health = points_of(self.health_units);
    }

    /// Sleeping sets health to the mean of the other three accumulators and
    /// opens a sleep window of exactly `SLEEP_DURATION_MS` from `now_ms`.
    pub fn sleep(&mut self, now_ms: u64)
        requires
            old(self).wf(),
            now_ms + SLEEP_DURATION_MS <= u64::MAX,
        ensures
            final(self).wf(),
            final(self).health_units as int == (old(self).hunger_units as int
                + old(self).happiness_units as int + old(self).cleanliness_units as int) / 3,
            final(self).sleep_until == Some((now_ms + SLEEP_DURATION_MS) as u64),
            final(self).hunger_units == old(self).hunger_units,
            final(self).happiness_units == old(self).happiness_units,
            final(self).cleanliness_units == old(self).cleanliness_units,
            final(self).hunger == old(self).hunger,
            final(self).happiness == old(self).happiness,
            final(self).cleanliness == old(self).cleanliness,
            final(self).last_fed == old(self).last_fed,
            final(self).name == old(self).name,
            final(self).animation_frame == old(self).animation_frame,
            final(self).frame_counter == old(self).frame_counter,
    {
        let recovery = (self.hunger_units + self.happiness_units + self.cleanliness_units) / 3;
        self.health_units = recovery;
        self.health = points_of(self.health_units);
        self.sleep_until = Some(now_ms + SLEEP_DURATION_MS);
    }
}

/// The informational mood classifier's label set.
#[derive(Debug, Clone, Copy, PartialEq, Eq, Structural)]
pub enum CatMood {
    Normal,
    Happy,
    Sad,
    Sleepy,
    Sick,
}

/// The rendering state classifier's label set.
#[derive(Debug, Clone, Copy, PartialEq, Eq, Structural)]
pub enum CatState {
    Dying,
    Sick,
    Hungry,
    Dirty,
    Unhappy,
    Tired,
    Happy,
    Full,
    Normal,
}

/// The state classifier as a pure decision chain over the integer attribute
/// snapshot: the first matching rule wins. Survival-threatening conditions
/// dominate; among problem states health beats hunger beats cleanliness beats
/// happiness; the good states are reachable only once no deficiency holds.
pub open spec fn classified(
    hunger: int,
    happiness: int,
    cleanliness: int,
    health: int,
    recently_fed: bool,
) -> CatState {
    if hunger < 10 || happiness < 10 || cleanliness < 10 || health < 10 {
        CatState::Dying
    } else if health < 20 {
        CatState::Sick
    } else if hunger < 30 {
        CatState::Hungry
    } else if cleanliness < 30 {
        CatState::Dirty
    } else if happiness < 30 {
        CatState::Unhappy
    } else if health < 50 && happiness < 50 {
        CatState::Tired
    } else if hunger > 90 && recently_fed {
        CatState::Full
    } else if happiness > 80 {
        CatState::Happy
    } else {
        CatState::Normal
    }
}

/// The mood classifier as a pure decision chain; an independent rule set
/// from `classified`, for secondary consumers.
pub open spec fn mood_of(hunger: int, happiness: int, health: int) -> CatMood {
    if health < 20 {
        CatMood::Sick
    } else if hunger < 20 || happiness < 20 {
        CatMood::Sad
    } else if health < 50 && happiness < 50 {
        CatMood::Sleepy
    } else if happiness > 80 && hunger > 70 {
        CatMood::Happy
    } else {
        CatMood::Normal
    }
}

impl Cat {
    /// A feeding is recent at `now` while less than 30 seconds have passed
    /// since it was recorded.
    pub open spec fn recently_fed_at(&self, now: int) -> bool {
        match self.last_fed {
            Some(fed_at) => now < fed_at as int + RECENT_FEED_MS as int,
            None => false,
        }
    }

    /// The pet is asleep at `now` strictly while `now` lies before the end
    /// of the open sleep window.
    pub open spec fn asleep_at(&self, now: int) -> bool {
        match self.sleep_until {
            Some(until) => now < until as int,
            None => false,
        }
    }

    /// Actions are allowed exactly when the pet is not asleep.
    pub open spec fn can_act_at(&self, now: int) -> bool {
        !self.asleep_at(now)
    }

    /// The classified state of this pet at `now`.
    pub open spec fn state_at(&self, now: int) -> CatState {
        classified(
            self.hunger as int,
            self.happiness as int,
            self.cleanliness as int,
            self.health as int,
            self.recently_fed_at(now),
        )
    }

    /// The mood of this pet; it reads no temporal marker.
    pub open spec fn mood(&self) -> CatMood {
        mood_of(self.hunger as int, self.happiness as int, self.health as int)
    }

    fn is_recently_fed(&self, now_ms: u64) -> (r: bool)
        ensures
            r == self.recently_fed_at(now_ms as int),
    {
        match self.last_fed {
            Some(fed_at) => now_ms <= fed_at || now_ms - fed_at < RECENT_FEED_MS,
            None => false,
        }
    }

    /// True while a sleep window set by `sleep` has not yet elapsed.
    pub fn is_sleeping(&self, now_ms: u64) -> (r: bool)
        ensures
            r == self.asleep_at(now_ms as int),
    {
        match self.sleep_until {
            Some(until) => now_ms < until,
            None => false,
        }
    }

    /// False while a sleep window is open; true otherwise, including when no
    /// sleep has ever occurred.
    pub fn can_perform_action(&self, now_ms: u64) -> (r: bool)
        ensures
            r == self.can_act_at(now_ms as int),
    {
        match self.sleep_until {
            Some(until) => now_ms >= until,
            None => true,
        }
    }

    /// Classify the pet at `now_ms`, in strict priority order.
    pub fn get_state(&self, now_ms: u64) -> (s: CatState)
        ensures
            s == self.state_at(now_ms as int),
    {
        if self.hunger < 10 || self.happiness < 10 || self.cleanliness < 10 || self.health < 10 {
            CatState::Dying
        } else if self.health < 20 {
            CatState::Sick
        } else if self.hunger < 30 {
            CatState::Hungry
        } else if self.cleanliness < 30 {
            CatState::Dirty
        } else if self.happiness < 30 {
            CatState::Unhappy
        } else if self.health < 50 && self.happiness < 50 {
            CatState::Tired
        } else if self.hunger > 90 && self.is_recently_fed(now_ms) {
            CatState::Full
        } else if self.happiness > 80 {
            CatState::Happy
        } else {
            CatState::Normal
        }
    }

    /// The informational mood of the pet.
    pub fn get_mood(&self) -> (m: CatMood)
        ensures
            m == self.mood(),
    {
        if self.health < 20 {
            CatMood::Sick
        } else if self.hunger < 20 || self.happiness < 20 {
            CatMood::Sad
        } else if self.health < 50 && self.happiness < 50 {
            CatMood::Sleepy
        } else if self.happiness > 80 && self.hunger > 70 {
            CatMood::Happy
        } else {
            CatMood::Normal
        }
    }

    /// The ASCII frame shown at `now`: the sleep animation while the sleep
    /// window is open, else the frame of the classified state, both keyed by
    /// the current animation index.
    pub open spec fn art_at(&self, now: int) -> Seq<char> {
        if self.asleep_at(now) {
            crate::art::sleeping_frame(self.animation_frame as int)
        } else {
            crate::art::state_frame(self.state_at(now), self.animation_frame as int)
        }
    }

    /// Render the pet's current six-line ASCII frame.
    pub fn get_ascii_art(&self, now_ms: u64) -> (art: String)
        ensures
            art@ == self.art_at(now_ms as int),
    {
        let frame = self.animation_frame;
        if self.is_sleeping(now_ms) {
            return crate::art::get_sleeping_animation(frame);
        }
        let state = self.get_state(now_ms);
        match state {
            CatState::Dying => crate::art::get_dying_animation(frame),
            CatState::Sick => crate::art::get_sick_animation(frame),
            CatState::Hungry => crate::art::get_hungry_animation(frame),
            CatState::Dirty => crate::art::get_dirty_animation(frame),
            CatState::Unhappy => crate::art::get_unhappy_animation(frame),
            CatState::Tired => crate::art::get_tired_animation(frame),
            CatState::Happy => crate::art::get_happy_animation(frame),
            CatState::Full => crate::art::get_full_animation(frame),
            CatState::Normal => crate::art::get_normal_animation(frame),
        }
    }

    /// Diagnostic state injection: set the four attributes directly, each
    /// clamped into `[0, 100]`, with the accumulators following exactly.
    pub fn set_status_for_test(&mut self, hunger: i32, happiness: i32, cleanliness: i32, health: i32)
        requires
            old(self).wf(),
        ensures
            final(self).wf(),
            final(self).hunger as int == clamp_points(hunger as int),
            final(self).happiness as int == clamp_points(happiness as int),
            final(self).cleanliness as int == clamp_points(cleanliness as int),
            final(self).health as int == clamp_points(health as int),
            final(self).hunger_units as int
                == clamp_points(hunger as int) * (UNITS_PER_POINT as int),
            final(self).happiness_units as int
                == clamp_points(happiness as int) * (UNITS_PER_POINT as int),
            final(self).cleanliness_units as int
                == clamp_points(cleanliness as int) * (UNITS_PER_POINT as int),
            final(self).health_units as int
                == clamp_points(health as int) * (UNITS_PER_POINT as int),
            final(self).last_fed == old(self).last_fed,
            final(self).sleep_until == old(self).sleep_until,
            final(self).name == old(self).name,
            final(self).animation_frame == old(self).animation_frame,
            final(self).frame_counter == old(self).frame_counter,
    {
        self.hunger = clamp_attr(hunger);
        self.happiness = clamp_attr(happiness);
        self.cleanliness = clamp_attr(cleanliness);
        self.health = clamp_attr(health);
        self.hunger_units = units_of_points(self.hunger);
        self.happiness_units = units_of_points(self.happiness);
        self.cleanliness_units = units_of_points(self.cleanliness);
        self.health_units = units_of_points(self.health);
    }
}

/// The label under which a classified state prints.
pub open spec fn state_name(state: CatState) -> Seq<char> {
    match state {
        CatState::Dying => "Dying"@,
        CatState::Sick => "Sick"@,
        CatState::Hungry => "Hungry"@,
        CatState::Dirty => "Dirty"@,
        CatState::Unhappy => "Unhappy"@,
        CatState::Tired => "Tired"@,
        CatState::Happy => "Happy"@,
        CatState::Full => "Full"@,
        CatState::Normal => "Normal"@,
    }
}

fn state_name_str(state: CatState) -> (s: &'static str)
    ensures
        s@ == state_name(state),
{
    match state {
        CatState::Dying => "Dying",
        CatState::Sick => "Sick",
        CatState::Hungry => "Hungry",
        CatState::Dirty => "Dirty",
        CatState::Unhappy => "Unhappy",
        CatState::Tired => "Tired",
        CatState::Happy => "Happy",
        CatState::Full => "Full",
        CatState::Normal => "Normal",
    }
}

impl Cat {
    /// The sleep line of the diagnostic dump: remaining seconds while the
    /// window is open, else whether a sleep has ended or never begun.
    pub open spec fn sleep_status_text(&self, now: int) -> Seq<char> {
        match self.sleep_until {
            Some(until) => if now < until as int {
                "睡眠中 (残り: "@ + dec_str((until as int - now) / 1000) + "秒)"@
            } else {
                "睡眠終了"@
            },
            None => "起きている"@,
        }
    }

    /// The feeding line of the diagnostic dump: seconds since the last
    /// feeding while it is still recent, else the ordinary marker.
    pub open spec fn fed_status_text(&self, now: int) -> Seq<char> {
        match self.last_fed {
            Some(fed_at) => if now < fed_at as int + RECENT_FEED_MS as int {
                "餌やり後 ("@ + dec_str(
                    if now >= fed_at as int {
                        (now - fed_at as int) / 1000
                    } else {
                        0
                    },
                ) + "秒経過)"@
            } else {
                "通常"@
            },
            None => "通常"@,
        }
    }

    /// The whole multi-line diagnostic dump: state, each attribute as its
    /// integer view and raw accumulator, animation index, sleep and feeding
    /// status.
    pub open spec fn status_report(&self, now: int) -> Seq<char> {
        "状態: "@ + state_name(self.state_at(now)) + "\n空腹度: "@ + dec_str(self.hunger as int)
            + "/100 ("@ + units_display(self.hunger_units as int) + ")"@ + "\n幸福度: "@
            + dec_str(self.happiness as int) + "/100 ("@ + units_display(
            self.happiness_units as int,
        ) + ")"@ + "\n清潔度: "@ + dec_str(self.cleanliness as int) + "/100 ("@ + units_display(
            self.cleanliness_units as int,
        ) + ")"@ + "\n健康度: "@ + dec_str(self.health as int) + "/100 ("@ + units_display(
            self.health_units as int,
        ) + ")"@ + "\nアニメーションフレーム: "@ + dec_str(self.animation_frame as int)
            + "\n睡眠状態: "@ + self.sleep_status_text(now) + "\n餌やり状態: "@
            + self.fed_status_text(now)
    }

    /// Produce the diagnostic dump for display.
    pub fn debug_status(&self, now_ms: u64) -> (s: String)
        requires
            self.wf(),
        ensures
            s@ == self.status_report(now_ms as int),
    {
        let mut s = "状態: ".to_owned();
        s.append(state_name_str(self.get_state(now_ms)));
        s.append("\n空腹度: ");
        s.append(crate::text::u64_dec(self.hunger as u64).as_str());
        s.append("/100 (");
        s.append(crate::text::units_display_string(self.hunger_units).as_str());
        s.append(")");
        s.append("\n幸福度: ");
        s.append(crate::text::u64_dec(self.happiness as u64).as_str());
        s.append("/100 (");
        s.append(crate::text::units_display_string(self.happiness_units).as_str());
        s.append(")");
        s.append("\n清潔度: ");
        s.append(crate::text::u64_dec(self.cleanliness as u64).as_str());
        s.append("/100 (");
        s.append(crate::text::units_display_string(self.cleanliness_units).as_str());
        s.append(")");
        s.append("\n健康度: ");
        s.append(crate::text::u64_dec(self.health as u64).as_str());
        s.append("/100 (");
        s.append(crate::text::units_display_string(self.health_units).as_str());
        s.append(")");
        s.append("\nアニメーションフレーム: ");
        s.append(crate::text::u64_dec(self.animation_frame as u64).as_str());
        s.append("\n睡眠状態: ");
        match self.sleep_until {
            Some(until) => {
                if now_ms < until {
                    s.append("睡眠中 (残り: ");
                    s.append(crate::text::u64_dec((until - now_ms) / 1000).as_str());
                    s.append("秒)");
                } else {
                    s.append("睡眠終了");
                }
            },
            None => {
                s.append("起きている");
            },
        }
        s.append("\n餌やり状態: ");
        match self.last_fed {
            Some(fed_at) => {
                if now_ms <= fed_at || now_ms - fed_at < RECENT_FEED_MS {
                    s.append("餌やり後 (");
                    let elapsed_s: u64 = if now_ms >= fed_at {
                        (now_ms - fed_at) / 1000
                    } else {
                        0
                    };
                    s.append(crate::text::u64_dec(elapsed_s).as_str());
                    s.append("秒経過)");
                } else {
                    s.append("通常");
                }
            },
            None => {
                s.append("通常");
            },
        }
        proof {
            assert(s@ =~= self.status_report(now_ms as int));
        }
        s
    }
}

/// An attribute value clamped into the closed range `[0, 100]`.
pub open spec fn clamp_points(v: int) -> int {
    if v < 0 {
        0
    } else if v > 100 {
        100
    } else {
        v
    }
}

/// Exec counterpart of `clamp_points`.
fn clamp_attr(v: i32) -> (r: i32)
    ensures
        r as int == clamp_points(v as int),
        0 <= r <= 100,
{
    if v < 0 {
        0
    } else if v > 100 {
        100
    } else {
        v
    }
}

/// The accumulator that displays exactly as `p` whole points.
fn units_of_points(p: i32) -> (units: u64)
    requires
        0 <= p <= 100,
    ensures
        units as int == p as int * (UNITS_PER_POINT as int),
        units <= MAX_UNITS,
        points(units) == p as int,
{
    let units = (p as u64) * UNITS_PER_POINT;
    proof {
        assert(units as int / (UNITS_PER_POINT as int) == p as int) by (nonlinear_arith)
            requires
                units as int == p as int * (UNITS_PER_POINT as int),
                0 <= p as int <= 100,
        ;
    }
    units
}

/// Exec counterpart of `raised`.
fn raise_units(units: u64, delta: u64) -> (r: u64)
    requires
        units <= MAX_UNITS,
        delta <= MAX_UNITS,
    ensures
        r as int == raised(units as int, delta as int),
        r <= MAX_UNITS,
{
    let sum = units + delta;
    if sum >= MAX_UNITS {
        MAX_UNITS
    } else {
        sum
    }
}

/// Exec counterpart of `lowered`.
fn lower_units(units: u64, delta: u64) -> (r: u64)
    ensures
        r as int == lowered(units as int, delta as int),
        r <= units,
{
    if delta >= units {
        0
    } else {
        units - delta
    }
}

/// Exec counterpart of `decayed`, total over all elapsed times: once the
/// elapsed time alone exceeds a full bar the result is pinned at zero, so the
/// multiplication never overflows.
fn decay_units(units: u64, per_ms: u64, delta_ms: u64) -> (r: u64)
    requires
        units <= MAX_UNITS,
        1 <= per_ms <= 8,
    ensures
        r as int == decayed(units as int, per_ms as int, delta_ms as int),
        r <= units,
{
    if delta_ms >= MAX_UNITS {
        assert(per_ms * delta_ms >= delta_ms) by (nonlinear_arith)
            requires
                per_ms >= 1,
                delta_ms >= 0,
        ;
        0
    } else {
        assert(per_ms * delta_ms <= 8 * (MAX_UNITS as int)) by (nonlinear_arith)
            requires
                per_ms <= 8,
                0 <= delta_ms <= MAX_UNITS as int,
        ;
        let loss = per_ms * delta_ms;
        if loss >= units {
            0
        } else {
            units - loss
        }
    }
}

/// Truncate an accumulator to its integer attribute value.
fn points_of(units: u64) -> (p: i32)
    requires
        units <= MAX_UNITS,
    ensures
        p as int == points(units),
        0 <= p <= 100,
{
    proof {
        lemma_points_bound(units);
    }
    (units / UNITS_PER_POINT) as i32
}

/// Every attribute of a well-formed pet lies in the closed range `[0, 100]`,
/// so no operation that preserves well-formedness can push one outside it.
pub proof fn lemma_attributes_bounded(cat: Cat)
    requires
        cat.wf(),
    ensures
        0 <= cat.hunger <= 100,
        0 <= cat.happiness <= 100,
        0 <= cat.cleanliness <= 100,
        0 <= cat.health <= 100,
{
    lemma_points_bound(cat.hunger_units);
    lemma_points_bound(cat.happiness_units);
    lemma_points_bound(cat.cleanliness_units);
    lemma_points_bound(cat.health_units);
}

/// Decaying for zero elapsed time leaves an accumulator exactly as it was:
/// `update` with a zero delta is a no-op on every attribute.
pub proof fn lemma_decay_zero(units: int, per_ms: int)
    requires
        units >= 0,
    ensures
        decayed(units, per_ms, 0) == units,
{
}

/// Decay never increases an accumulator, whatever the rate and elapsed time:
/// repeated `update` calls with no intervening action are monotonically
/// non-increasing per attribute.
pub proof fn lemma_decay_monotone(units: int, per_ms: int, dt: int)
    requires
        units >= 0,
        per_ms >= 0,
        dt >= 0,
    ensures
        decayed(units, per_ms, dt) <= units,
        decayed(units, per_ms, dt) >= 0,
{
    assert(per_ms * dt >= 0) by (nonlinear_arith)
        requires
            per_ms >= 0,
            dt >= 0,
    ;
}

/// Decaying in two steps equals decaying once for the summed elapsed time:
/// the decay model depends only on total elapsed time, not on how the ticks
/// split it.
pub proof fn lemma_decay_additive(units: int, per_ms: int, dt1: int, dt2: int)
    requires
        units >= 0,
        per_ms >= 0,
        dt1 >= 0,
        dt2 >= 0,
    ensures
        decayed(decayed(units, per_ms, dt1), per_ms, dt2) == decayed(units, per_ms, dt1 + dt2),
{
    assert(per_ms * (dt1 + dt2) == per_ms * dt1 + per_ms * dt2) by (nonlinear_arith);
    assert(per_ms * dt1 >= 0 && per_ms * dt2 >= 0) by (nonlinear_arith)
        requires
            per_ms >= 0,
            dt1 >= 0,
            dt2 >= 0,
    ;
}

/// The sleep window opened by `sleep` at instant `start` keeps the pet
/// asleep strictly until 600 seconds have passed, after which it is awake
/// again; `can_act_at` mirrors `asleep_at` inversely at every instant.
pub proof fn lemma_sleep_window(cat: Cat, start: u64, now: int)
    requires
        start + SLEEP_DURATION_MS <= u64::MAX,
        cat.sleep_until == Some((start + SLEEP_DURATION_MS) as u64),
    ensures
        cat.asleep_at(now) <==> now < start as int + SLEEP_DURATION_MS as int,
        cat.can_act_at(now) <==> now >= start as int + SLEEP_DURATION_MS as int,
        cat.asleep_at(start as int),
        !cat.can_act_at(start as int),
{
}

/// A bounded accumulator truncates to at most 100 points.
proof fn lemma_points_bound(units: u64)
    requires
        units <= MAX_UNITS,
    ensures
        0 <= points(units) <= 100,
{
    assert(0 <= units as int / (UNITS_PER_POINT as int) <= 100) by (nonlinear_arith)
        requires
            0 <= units as int <= MAX_UNITS as int,
    ;
}

/// Truncation to points is monotone in the accumulator.
proof fn lemma_points_ordered(lo: u64, hi: u64)
    requires
        lo <= hi,
    ensures
        points(lo) <= points(hi),
{
    assert(lo as int / (UNITS_PER_POINT as int) <= hi as int / (UNITS_PER_POINT as int))
        by (nonlinear_arith)
        requires
            0 <= lo as int <= hi as int,
    ;
}

} // verus!
