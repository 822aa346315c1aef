pub mod generate_sitemap;
pub mod live_game_cache;
pub mod lol_static;
pub mod server_fns;
pub mod ssr;
pub mod updates;
