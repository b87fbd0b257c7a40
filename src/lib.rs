//! Core of a desktop to-do list backend: login-time autostart registration
//! and persistence of window placement.

pub mod autostart;
pub mod storage;
pub mod window;
