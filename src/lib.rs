//! An agent-based epidemic simulator: citizens on a grid of areas, a per-citizen disease
//! state machine, and the exchange of migrators and commuters between regions.
pub mod allocation_map;
pub mod citizen;
pub mod constants;
pub mod counts;
pub mod disease;
pub mod disease_state_machine;
pub mod epidemiology_simulation;
pub mod geography;
pub mod random_wrapper;
pub mod travel;
pub mod travel_plan;

