//! A small virtual-pet simulation: four bounded attributes that decay with
//! elapsed time, discrete care actions that shift them, and a priority-ordered
//! classifier that derives the pet's current condition.
//!
//! Attributes are stored as fixed-point accumulators (`UNITS_PER_POINT` units
//! per attribute point) so that sub-point decay per millisecond is exact, and
//! are exposed as truncated integers in `[0, 100]`. All time-dependent
//! operations take the current wall-clock instant in milliseconds as an
//! explicit argument, so every rule is deterministic and provable.

pub mod art;
pub mod cat;
pub mod text;
