pub mod db;
pub mod entities;
pub mod traits;
pub mod types;
pub mod update;
