//! Core engine of a terminal sports scoreboard: it turns the loosely
//! structured status fields of a fetched game into a short display label,
//! filters the game list by a team substring, plans how many games fit on
//! screen, and keeps scroll and refresh bookkeeping honest.
//!
//! Everything here is pure with respect to the outside world: the network
//! fetch, the terminal, and the clock live in the surrounding application,
//! which hands plain values in and takes plain values back.

pub mod inning;
pub mod laws;
pub mod layout;
pub mod model;
pub mod render;
pub mod state;
pub mod status;
pub mod text;
