//! Point scoring of a single tennis game between two players.
//!
//! A [`game::Game`] holds both players' point levels and the outcome; one
//! scoring event at a time moves it along the rule table of
//! [`game::advance`], and a finished game ignores further events.

pub mod game;
pub mod laws;
