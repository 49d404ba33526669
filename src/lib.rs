//! A typed client for the Clash of Clans REST API: the data models of its
//! resources, the endpoint paths, the authorization header and the
//! classification of the responses it sends back.

pub mod clans;
pub mod client;
pub mod errors;
pub mod goldpass;
pub mod leagues;
pub mod players;
pub mod text;
