//! Statistics cards for a tank-battle game community: player lookup across
//! regional directories, a two-wave aggregate of upstream data, card
//! rendering, the interactive reply's state machine and the shared
//! reference-data cache.

pub mod region;
pub mod text;
pub mod rating;
pub mod period;
pub mod player;
pub mod clan;
pub mod aggregate;
pub mod resolve;
pub mod card;
pub mod ranking;
pub mod render;
pub mod hex;
pub mod clan_card;
pub mod tank;
pub mod merge;
pub mod marks;
pub mod session;
pub mod cache;
pub mod urls;
