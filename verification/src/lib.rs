//! Odds of a single round of three-attacker-versus-two-defender dice combat,
//! estimated by Monte Carlo sampling and computed exactly by exhaustive
//! enumeration of the 7,776 possible rolls.

pub mod combat;
pub mod die;
pub mod exhaustive;
pub mod sampling;

pub use combat::Attack;
pub use combat::Score;
pub use die::Die;
pub use exhaustive::enumerate_attacks;
pub use sampling::simulate_attacks;
pub use sampling::simulate_workers;
