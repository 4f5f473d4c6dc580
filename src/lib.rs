pub mod accounts;
pub mod address;
pub mod community;
pub mod constants;
pub mod errors;
pub mod events;
pub mod laws;
pub mod ledger;
pub mod poll;
pub mod post;
pub mod profile;
pub mod state;
pub mod table;
