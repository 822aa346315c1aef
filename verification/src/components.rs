pub mod match_details;
pub mod pagination;
pub mod summoner_page;
