//! A verified persistence core for a device-bound tray application: one user row per
//! device, key/value settings with upsert semantics, and a history of timer sessions,
//! all kept in a single embedded SQLite file accessed through one connection.

pub mod errors;
pub mod icons;
pub mod laws;
pub mod model;
pub mod session;
pub mod sql;
pub mod store;

pub use icons::{IconCache, IconPixels};
pub use session::require_current_user;
pub use store::Database;

pub use errors::StoreError;
pub use model::{Setting, SettingVal, StoreModel, TimerRecord, RecordRow, User, UserRow};
