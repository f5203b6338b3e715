pub mod oid;
pub mod text;
pub mod utils;
pub mod models;
pub mod services;
pub mod config;
pub mod db;
pub mod routes;
