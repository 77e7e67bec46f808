//! Verified core of a desktop board that shows the time, the weather and a memo.
//!
//! - [`weather_code`]: labels of WMO weather codes.
//! - [`text`]: white space, trimming and decimal numerals.
//! - [`city`]: the saved city read back from its text.
//! - [`geo`]: places, the coordinate cache, geocoding and IP location answers.
//! - [`report`]: the weather report built from current conditions.
//! - [`flow`]: the steps of a request for the weather.
//! - [`memo`]: the memo pad.
//! - [`autostart`]: starting with the user's session.
//! - [`window`]: the window's position and its reactions to window events.
//! - [`clock`]: the wall clock and the shape of its time stamps.
pub mod autostart;
pub mod city;
pub mod clock;
pub mod flow;
pub mod geo;
pub mod memo;
pub mod report;
pub mod text;
pub mod weather_code;
pub mod window;
