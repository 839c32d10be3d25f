//! The entities of the game that a template is made of.

pub mod attributes;
pub mod class;
pub mod item;
pub mod item_bonus;
pub mod item_slot;
pub mod item_type;
pub mod names;
pub mod realm;
pub mod stat;
pub mod stat_category;
pub mod stat_data;
pub mod template;
