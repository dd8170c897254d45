//! The decision and formatting logic of a desktop internet-radio player:
//! station search and bookmarks, artist information lookup, and the player's
//! stream-event handling.
pub mod text;
pub mod musicbrainz;
pub mod fanarttv;
pub mod wikipedia;
pub mod artist;
pub mod tuner;
pub mod bookmarks;
pub mod player;
