//! Scheduling, authentication and record-keeping core of a habit-enforcement
//! desktop companion: a training-day blocker, a movement-break scheduler and a
//! local sync relay that mirrors workout records to a paired client.

pub mod auth;
pub mod blocker;
pub mod calendar;
pub mod cert;
pub mod columns;
pub mod hub;
pub mod identity;
pub mod mic;
pub mod overlay;
pub mod pairing;
pub mod relay;
pub mod store;
pub mod table;
