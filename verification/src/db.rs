pub mod indexes;
