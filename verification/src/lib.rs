pub mod apis;
pub mod backend;
pub mod components;
pub mod consts;
pub mod item_order;
pub mod lol_static;
pub mod models;
pub mod riven_fix;
pub mod text;
pub mod url_text;
pub mod utils;
pub mod views;
