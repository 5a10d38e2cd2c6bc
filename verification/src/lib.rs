use vstd::prelude::*;

pub mod assoc;
pub mod chat;
pub mod chronos;
pub mod collision;
pub mod config;
pub mod ids;
pub mod inventory;
pub mod laws;
pub mod load_times;
pub mod objects;
pub mod plugin_manager;
pub mod plugins;
pub mod recipe;
pub mod recipe_book;
pub mod recipe_smith;
pub mod text;

verus! {

} // verus!
