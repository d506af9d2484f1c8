//! Rules of the map editor's warp tool and of the sandbox's gameplay modes.
//!
//! Everything here is plain data and decisions: the graphical shell hands in
//! what the user did and performs the action that comes back.

pub mod decimal;
pub mod warp;
pub mod gameplay;
pub mod final_score;
