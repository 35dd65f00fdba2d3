pub mod client;
pub mod errors;
pub mod response;
pub mod router;
pub mod schema;
pub mod sig;
pub mod value;
