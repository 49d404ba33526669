pub mod models;
pub mod requests;
