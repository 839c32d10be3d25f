//! Items: what a template puts into its slots.

use vstd::prelude::*;

use crate::domain::class::Class;
use crate::domain::item_bonus::ItemBonus;
use crate::domain::item_slot::ItemSlot;
use crate::domain::item_type::ItemSlot as ItemType;
use crate::domain::realm::Realm;

verus! {

/// An item of the game, as the catalog records it.
#[derive(Debug, Clone, PartialEq, Eq)]
pub struct Item {
    /// The identifier of the item, by which the solver names it.
    pub id: i32,
    /// The name of the item.
    pub name: String,
    /// The model that draws the item.
    pub model: i32,
    /// What kind of weapon, armor or jewelry the item is.
    pub object_type: ItemType,
    /// The slot that the item is made for.
    pub item_slot: ItemSlot,
    /// The level of the item.
    pub level: u16,
    /// The quality of the item.
    pub quality: u16,
    /// The hand that wields the item, for a weapon.
    pub weapon_hand: u16,
    /// The speed of the item, for a weapon.
    pub weapon_speed: u16,
    /// The kind of damage that the item deals, for a weapon.
    pub damage_type: u16,
    /// The realm that can use the item.
    pub realm: Realm,
    /// The level that a character needs to use the item.
    pub required_level: u16,
    /// The bonus level of the item.
    pub bonus_level: u16,
    /// The size of the item, for a shield.
    pub shield_size: u16,
    /// The kind of instrument, for an instrument.
    pub instrument_type: u16,
    /// Whether the item can be traded.
    pub is_tradable: bool,
    /// The classes that can use the item; none listed means any class.
    pub allowed_classes: Vec<Class>,
    /// The bonuses that the item grants.
    pub bonuses: Vec<ItemBonus>,
    /// The first effect that the item may set off, as JSON.
    pub proc1_json: Option<String>,
    /// The second effect that the item may set off, as JSON.
    pub proc2_json: Option<String>,
    /// The first effect that using the item has, as JSON.
    pub use1_json: Option<String>,
    /// The second effect that using the item has, as JSON.
    pub use2_json: Option<String>,
    /// The effects that wearing the item has, as JSON.
    pub passive_json: Option<String>,
    /// The first effect that the item answers a hit with, as JSON.
    pub react1_json: Option<String>,
    /// The second effect that the item answers a hit with, as JSON.
    pub react2_json: Option<String>,
}

} // verus!
