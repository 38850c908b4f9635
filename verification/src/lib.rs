//! A small library that picks a random episode from a fixed set of
//! television shows and interprets the metadata service's reply.
//!
//! The selection rules (which shows are eligible, how many seasons each
//! show has, how many episodes each season has), the request the fetcher
//! issues, the reading of the reply, and the state the page holds are all
//! verified. Random numbers and the JSON parse come from outside crates
//! behind trusted contracts; issuing the HTTP request and rendering a page
//! are left to the surrounding application.

mod episode;
mod model;
mod request;
mod selector;
mod shows;

pub use shows::Show;
pub use shows::ShowSelection;
pub use shows::any_eligible;
pub use shows::catalog_id;
pub use shows::eligible;
pub use shows::label;
pub use shows::lemma_toggle_twice;
pub use shows::max_episode;
pub use shows::max_season;
pub use shows::spec_catalog_id;
pub use shows::spec_label;
pub use shows::spec_max_episode;
pub use shows::spec_max_season;
pub use shows::spec_toggle;

pub use selector::EpisodeReference;
pub use selector::SelectError;
pub use selector::draw_episode;
pub use selector::draw_season;
pub use selector::select_episode;
pub use selector::valid_reference;

pub use episode::EpisodeRecord;
pub use episode::FetchError;
pub use episode::FetchOutcome;
pub use episode::decode_episode;
pub use episode::interpret_response;
pub use episode::json_string_members;
pub use episode::spec_decode_episode;
pub use episode::spec_success_status;
pub use episode::string_members;

pub use request::decimal_string;
pub use request::request_url;
pub use request::spec_decimal;
pub use request::spec_digit_char;
pub use request::spec_request_url;

pub use model::Event;
pub use model::FetchStatus;
pub use model::Model;
pub use model::wf;
