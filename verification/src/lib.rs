//! Simulation core of a persistent multiplayer space-strategy game.
//!
//! The library owns the rules that turn elapsed time and player actions into
//! changes to a planet's resources, buildings, fleet, defenses and combat
//! outcomes: continuous resource accrual, single-slot build queues, two combat
//! resolvers, an espionage disclosure ladder and debris-field recycling.
//! Persistence, networking and identity management live outside this crate;
//! the core receives a snapshot of a planet's state and produces a new
//! snapshot plus side-effect records.

pub mod errors;
pub mod num;
pub mod economy;
pub mod planet;
pub mod accrual;
pub mod reconcile;
pub mod queue;
pub mod pvp;
pub mod expedition;
pub mod attrition;
pub mod espionage;
pub mod recycle;
pub mod account;
