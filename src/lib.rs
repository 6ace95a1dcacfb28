//! A communication platform.
//!
//! Access to shared spaces is decided by trees of guards
//! (`access_control`), and the first such space is the caucus
//! (`caucus`), a group of actors whose membership and message flow
//! are gated by guards.
pub mod access_control;
pub mod caucus;
