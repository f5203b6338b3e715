pub mod errors;
pub mod jwt;
pub mod time;
