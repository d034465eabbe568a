//! Reading and querying the game data tables of the item explorer.
pub mod assets;
pub mod kinds;
pub mod outside;
pub mod text;
pub mod numeric;
pub mod effects;
pub mod table;
pub mod fields;
pub mod game_data;
pub mod lists;
pub mod game_data_view;
pub mod settings;
