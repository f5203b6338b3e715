pub mod auth;
pub mod board;
pub mod cards;
pub mod company;
pub mod permission;
pub mod slack;
pub mod teams;
pub mod user_info;
pub mod users;
