//! Clients of the outside services: the request shapes, response checks and
//! value conversions that each client performs around its HTTP calls.
pub mod qbittorrent;
pub mod transmission;
pub mod listenbrainz;
pub mod musicbrainz;
pub mod lidarr;
pub mod navidrome;
pub mod retry;
