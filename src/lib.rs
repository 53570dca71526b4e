//! Audit and reconciliation of latency-related Windows settings.
//!
//! The library holds the settings catalogue and the logic that compares
//! what a backing store holds with what the catalogue asks for, plans the
//! writes, and decides whether a container's transaction is committed.
//! Reading and writing the stores themselves happens outside the library.
pub mod catalogue;
pub mod descriptor;
pub mod laws;
pub mod network;
pub mod power;
pub mod reconcile;
pub mod text;
pub mod transaction;
pub mod tuning;
pub mod value;

pub use catalogue::factory_settings;
pub use descriptor::{Hive, RegTweaks, Setting, Settings};
pub use power::{factory_powerplan, PowerPlan};
pub use reconcile::{Mode, Outcome};
pub use tuning::CpuPriority;
pub use value::RegData;
