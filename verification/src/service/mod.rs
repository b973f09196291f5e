pub mod enrich_location;
pub mod export;
pub mod geocoding;
pub mod logbook;
pub mod repeater_system;
pub mod user;
