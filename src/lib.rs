pub mod auth;
pub mod body;
pub mod exchange;
pub mod headers;
pub mod json;
pub mod models;
pub mod request;
pub mod schema;
pub mod text;
pub mod transport;
pub mod url;
