//! Notification subscription library: a registration/edit dialogue engine
//! that builds validated user profiles from free-form text, an in-memory
//! profile repository with field-wise partial updates, and the pure logic
//! of the periodic notification dispatcher (time matching, catalog page
//! draining, message batching).

pub mod api;
pub mod db;
pub mod dialogue;
pub mod dispatch;
pub mod text;
pub mod time_of_day;
