pub mod db_model;
