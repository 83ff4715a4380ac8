//! A typed client core for a karaoke-machine search service: it builds the
//! wire requests of the service's three endpoints (free-text search,
//! existence lookup, recommendation) and normalizes their heterogeneous
//! decoded responses into one paginated collection of typed items.

pub mod category;
pub mod client;
pub mod model;
pub mod protocol;
pub mod util;

pub use client::{Client, MatchType, Metadata, Pending, RequestBuilder, TitleAndArtist};
pub use model::{Artist, ArtistId, Paginated, Series, Song, SongId};
