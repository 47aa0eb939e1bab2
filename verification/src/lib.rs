//! Decision logic of a Discord bot that hands out private voice channels:
//! joining the start channel creates a channel owned by the member, and the
//! channel changes hands or disappears when its owner leaves.
//!
//! The library holds the rules; the program around it performs the Discord,
//! database and cache operations that the decision machines ask for.

pub mod text;
pub mod models;
pub mod random;
pub mod permissions;
pub mod voice;
pub mod connect;
pub mod disconnect;
pub mod checker;
pub mod voice_state;
pub mod table;
