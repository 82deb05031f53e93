//! Fixed parameters of the daily routine and of the disease model.
use vstd::prelude::*;

verus! {

/// Hours in one simulated day.
pub const NUMBER_OF_HOURS: u32 = 24;
pub const HOURS_IN_A_DAY: u32 = 24;

pub const ROUTINE_START_TIME: u32 = 0;
pub const SLEEP_START_TIME: u32 = 1;
pub const SLEEP_END_TIME: u32 = 6;
pub const ROUTINE_TRAVEL_START_TIME: u32 = 7;
pub const ROUTINE_WORK_TIME: u32 = 8;
pub const ROUTINE_WORK_END_TIME: u32 = 16;
pub const ROUTINE_TRAVEL_END_TIME: u32 = 17;
pub const NON_WORKING_TRAVEL_END_TIME: u32 = 18;
pub const ROUTINE_END_TIME: u32 = 23;

/// Days a hospital staff member works before a quarantine, and spends in quarantine.
pub const QUARANTINE_DAYS: u32 = 14;

/// Infection day on which a mild symptomatic case recovers.
pub const MILD_INFECTED_LAST_DAY: u32 = 12;
/// Infection day on which an asymptomatic case recovers.
pub const ASYMPTOMATIC_LAST_DAY: u32 = 9;

/// Bounds (inclusive) of the per-citizen immunity offset, in days.
pub const IMMUNITY_MIN: i32 = -2;
pub const IMMUNITY_MAX: i32 = 2;

/// Bounds (inclusive) of the random offset, in hours, added to the exposure duration.
pub const EXPOSED_OFFSET_MIN: i32 = -12;
pub const EXPOSED_OFFSET_MAX: i32 = 12;

/// Probabilities are integers out of this denominator (parts per million).
pub const PPM: u32 = 1_000_000;

/// Share of working citizens who are hospital staff, in parts per million.
pub const HOSPITAL_STAFF_PPM: u32 = 2000;

/// Infected count above which a single-region city is locked down.
pub const CITY_LOCK_DOWN_THRESHOLD: u32 = 100;

/// Relative widths, in percent of the grid, of the housing, transport, work and hospital areas.
pub const HOUSE_AREA_RELATIVE_SIZE: i32 = 40;
pub const TRANSPORT_AREA_RELATIVE_SIZE: i32 = 20;
pub const WORK_AREA_RELATIVE_SIZE: i32 = 20;
pub const HOSPITAL_AREA_RELATIVE_SIZE: i32 = 10;

} // verus!
