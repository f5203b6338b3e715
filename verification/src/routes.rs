pub mod board;
pub mod company;
pub mod teams;
pub mod users;
