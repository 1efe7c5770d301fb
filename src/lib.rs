//! Session and control state for a moderation assistant of a social deduction
//! game played in a chat group with voice channels.

pub mod auth;
pub mod command;
pub mod dispatch;
pub mod ids;
pub mod session;
pub mod voice;
