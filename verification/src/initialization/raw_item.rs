//! Raw items: items as they come from outside, with every field a text.

use vstd::prelude::*;
use vstd::utf8::*;

use crate::domain::class::Class;
use crate::domain::item::Item;
use crate::domain::item_bonus::ItemBonus;
use crate::domain::item_slot::ItemSlot;
use crate::domain::item_type::ItemSlot as ItemType;
use crate::domain::realm::Realm;
use crate::domain::stat::Stat;
use crate::initialization::fields::{
    parse_signed, parse_unsigned, parts_at, read_i32, read_u16, spans_within, split, split_spans,
};

verus! {

/// An item as it comes from outside. Its numbers are written in decimal. The
/// classes that can use it are a list of identifiers with `;` between them,
/// and its bonuses two lists with `,` between their entries: the identifiers
/// of the stats, and the values.
#[derive(Debug, Clone, PartialEq, Eq)]
pub struct RawItem {
    /// The model that draws the item.
    pub model: String,
    /// The identifier of the item.
    pub id: String,
    /// The identifier of the type of the item.
    pub object_type: String,
    /// The identifier of the slot that the item is made for.
    pub item_type: String,
    /// The level of the item.
    pub level: String,
    /// The quality of the item.
    pub quality: String,
    /// The hand that wields the item.
    pub weapon_hand: String,
    /// The speed of the item.
    pub weapon_speed: String,
    /// The kind of damage that the item deals.
    pub damage_type: String,
    /// The identifier of the realm that can use the item.
    pub realm: String,
    /// The level that a character needs to use the item.
    pub required_level: u16,
    /// The bonus level of the item.
    pub bonus_level: String,
    /// The size of the item, for a shield.
    pub shield_size: String,
    /// The kind of instrument, for an instrument.
    pub instrument_type: String,
    /// Whether the item can be traded: a number, which says yes unless it is 0.
    pub is_tradable: String,
    /// The name of the item.
    pub name: String,
    /// The utility of the item by one measure. This library does not read it.
    pub utility_single: String,
    /// The utility of the item. This library does not read it.
    pub utility: String,
    /// The identifiers of the classes that can use the item, with `;` between
    /// them.
    pub allowed_classes: String,
    /// The identifiers of the stats of the bonuses, with `,` between them.
    pub bonus_types: String,
    /// The values of the bonuses, with `,` between them, in the order of the
    /// stats.
    pub bonus_values: String,
    /// The first effect that the item may set off, as JSON.
    pub proc1_json: Option<String>,
    /// The second effect that the item may set off, as JSON.
    pub proc2_json: Option<String>,
    /// The first effect that using the item has, as JSON.
    pub use1_json: Option<String>,
    /// The second effect that using the item has, as JSON.
    pub use2_json: Option<String>,
    /// The effects that wearing the item has, as JSON.
    pub passive_json: Option<String>,
    /// The first effect that the item answers a hit with, as JSON.
    pub react1_json: Option<String>,
    /// The second effect that the item answers a hit with, as JSON.
    pub react2_json: Option<String>,
}

/// The number of sixteen bits without sign that the text `text` writes, if it
/// writes one.
pub open spec fn field_u16(text: Seq<char>) -> Option<nat> {
    parse_unsigned(encode_utf8(text), 0xffff)
}

/// The number of thirty-two bits with sign that the text `text` writes, if it
/// writes one.
pub open spec fn field_i32(text: Seq<char>) -> Option<int> {
    parse_signed(encode_utf8(text), 0x8000_0000, 0x7fff_ffff)
}

/// The classes that the parts `parts` name, in their order. A part that
/// writes no number, or a number that no class has, is passed over.
pub open spec fn classes_of(parts: Seq<Seq<u8>>) -> Seq<Class>
    decreases parts.len(),
{
    if parts.len() == 0 {
        Seq::empty()
    } else {
        let before = classes_of(parts.drop_last());
        match parse_unsigned(parts.last(), 0xffff) {
            Some(id) => match Class::spec_from_repr(id as u16) {
                Some(class) => before.push(class),
                None => before,
            },
            None => before,
        }
    }
}

/// The bonuses that the first `n` parts of `types` and of `values` name, in
/// their order. A pair of which a part writes no number, or of which the stat
/// is a number that no stat has, is passed over.
pub open spec fn bonuses_of(types: Seq<Seq<u8>>, values: Seq<Seq<u8>>, n: int) -> Seq<ItemBonus>
    decreases n,
{
    if n <= 0 || n > types.len() || n > values.len() {
        Seq::empty()
    } else {
        let before = bonuses_of(types, values, n - 1);
        match (parse_unsigned(types[n - 1], 0xffff), parse_unsigned(values[n - 1], 0xffff)) {
            (Some(id), Some(value)) => match Stat::spec_from_repr(id as u16) {
                Some(stat) => before.push(ItemBonus { stat, value: value as u16 }),
                None => before,
            },
            _ => before,
        }
    }
}

/// The lesser of two lengths.
pub open spec fn lesser(a: nat, b: nat) -> int {
    if a <= b {
        a as int
    } else {
        b as int
    }
}

/// The bonuses that the texts `types` and `values` name: the two lists are
/// read side by side, as far as the shorter one reaches.
pub open spec fn bonuses_in(types: Seq<char>, values: Seq<char>) -> Seq<ItemBonus> {
    let kinds = split(encode_utf8(types), 44);
    let amounts = split(encode_utf8(values), 44);
    bonuses_of(kinds, amounts, lesser(kinds.len(), amounts.len()))
}

/// Whether every number of the raw item `raw` that an item needs can be read,
/// and the identifiers of its type, its slot and its realm are ones that a
/// type, a slot and a realm have.
pub open spec fn readable(raw: RawItem) -> bool {
    &&& field_i32(raw.id@) is Some
    &&& field_i32(raw.model@) is Some
    &&& field_u16(raw.object_type@) is Some
    &&& ItemType::spec_from_repr(field_u16(raw.object_type@)->0 as u16) is Some
    &&& field_u16(raw.item_type@) is Some
    &&& ItemSlot::spec_from_repr(field_u16(raw.item_type@)->0 as u16) is Some
    &&& field_u16(raw.level@) is Some
    &&& field_u16(raw.quality@) is Some
    &&& field_u16(raw.weapon_hand@) is Some
    &&& field_u16(raw.weapon_speed@) is Some
    &&& field_u16(raw.damage_type@) is Some
    &&& field_u16(raw.realm@) is Some
    &&& Realm::spec_from_repr(field_u16(raw.realm@)->0 as u16) is Some
    &&& field_u16(raw.bonus_level@) is Some
    &&& field_u16(raw.shield_size@) is Some
    &&& field_u16(raw.instrument_type@) is Some
    &&& field_u16(raw.is_tradable@) is Some
}

/// Whether the item `item` is what the raw item `raw` reads as.
pub open spec fn reads_as(raw: RawItem, item: Item) -> bool {
    &&& item.id == field_i32(raw.id@)->0
    &&& item.name@ == raw.name@
    &&& item.model == field_i32(raw.model@)->0
    &&& Some(item.object_type) == ItemType::spec_from_repr(
        field_u16(raw.object_type@)->0 as u16,
    )
    &&& Some(item.item_slot) == ItemSlot::spec_from_repr(field_u16(raw.item_type@)->0 as u16)
    &&& item.level == field_u16(raw.level@)->0
    &&& item.quality == field_u16(raw.quality@)->0
    &&& item.weapon_hand == field_u16(raw.weapon_hand@)->0
    &&& item.weapon_speed == field_u16(raw.weapon_speed@)->0
    &&& item.damage_type == field_u16(raw.damage_type@)->0
    &&& Some(item.realm) == Realm::spec_from_repr(field_u16(raw.realm@)->0 as u16)
    &&& item.required_level == raw.required_level
    &&& item.bonus_level == field_u16(raw.bonus_level@)->0
    &&& item.shield_size == field_u16(raw.shield_size@)->0
    &&& item.instrument_type == field_u16(raw.instrument_type@)->0
    &&& item.is_tradable == (field_u16(raw.is_tradable@)->0 > 0)
    &&& item.allowed_classes@ == classes_of(split(encode_utf8(raw.allowed_classes@), 59))
    &&& item.bonuses@ == bonuses_in(raw.bonus_types@, raw.bonus_values@)
    &&& item.proc1_json == raw.proc1_json
    &&& item.proc2_json == raw.proc2_json
    &&& item.use1_json == raw.use1_json
    &&& item.use2_json == raw.use2_json
    &&& item.passive_json == raw.passive_json
    &&& item.react1_json == raw.react1_json
    &&& item.react2_json == raw.react2_json
}

/// Reads a text as a number of sixteen bits without sign.
pub fn text_u16(text: &str) -> (number: Option<u16>)
    ensures
        match number {
            Some(n) => field_u16(text@) == Some(n as nat),
            None => field_u16(text@) is None,
        },
{
    let bytes = text.as_bytes();
    assert(bytes@.subrange(0, bytes@.len() as int) =~= bytes@);
    read_u16(bytes, 0, bytes.len())
}

/// Reads a text as a number of thirty-two bits with sign.
pub fn text_i32(text: &str) -> (number: Option<i32>)
    ensures
        match number {
            Some(n) => field_i32(text@) == Some(n as int),
            None => field_i32(text@) is None,
        },
{
    let bytes = text.as_bytes();
    assert(bytes@.subrange(0, bytes@.len() as int) =~= bytes@);
    read_i32(bytes, 0, bytes.len())
}

/// Reads the classes that a list of identifiers with `;` between them names.
pub fn read_classes(text: &str) -> (classes: Vec<Class>)
    ensures
        classes@ == classes_of(split(encode_utf8(text@), 59)),
{
    let bytes = text.as_bytes();
    let spans = split_spans(bytes, 59);
    let ghost parts = split(bytes@, 59);
    let mut classes: Vec<Class> = Vec::new();
    let mut i: usize = 0;
    while i < spans.len()
        invariant
            i <= spans@.len(),
            parts == parts_at(bytes@, spans@),
            spans_within(spans@, bytes@.len() as int),
            classes@ == classes_of(parts.take(i as int)),
        decreases spans@.len() - i,
    {
        let span = spans[i];
        proof {
            let next = parts.take(i as int + 1);
            assert(next.drop_last() =~= parts.take(i as int));
            assert(next.last() == parts[i as int]);
            assert(parts[i as int] == bytes@.subrange(span.from as int, span.to as int));
        }
        match read_u16(bytes, span.from, span.to) {
            Some(id) => match Class::from_repr(id) {
                Some(class) => {
                    classes.push(class);
                },
                None => {},
            },
            None => {},
        }
        i += 1;
    }
    assert(parts.take(i as int) =~= parts);
    classes
}

/// Reads the bonuses that two lists with `,` between their entries name: the
/// identifiers of the stats, and the values.
pub fn read_bonuses(types: &str, values: &str) -> (bonuses: Vec<ItemBonus>)
    ensures
        bonuses@ == bonuses_in(types@, values@),
{
    let kinds = types.as_bytes();
    let amounts = values.as_bytes();
    let kind_spans = split_spans(kinds, 44);
    let amount_spans = split_spans(amounts, 44);
    let ghost kind_parts = split(kinds@, 44);
    let ghost amount_parts = split(amounts@, 44);
    let n = if kind_spans.len() <= amount_spans.len() {
        kind_spans.len()
    } else {
        amount_spans.len()
    };
    let mut bonuses: Vec<ItemBonus> = Vec::new();
    let mut i: usize = 0;
    while i < n
        invariant
            i <= n,
            n == lesser(kind_parts.len(), amount_parts.len()),
            kind_parts == parts_at(kinds@, kind_spans@),
            amount_parts == parts_at(amounts@, amount_spans@),
            spans_within(kind_spans@, kinds@.len() as int),
            spans_within(amount_spans@, amounts@.len() as int),
            bonuses@ == bonuses_of(kind_parts, amount_parts, i as int),
        decreases n - i,
    {
        let kind = kind_spans[i];
        let amount = amount_spans[i];
        proof {
            assert(kind_parts[i as int] == kinds@.subrange(kind.from as int, kind.to as int));
            assert(amount_parts[i as int] == amounts@.subrange(
                amount.from as int,
                amount.to as int,
            ));
        }
        match (read_u16(kinds, kind.from, kind.to), read_u16(amounts, amount.from, amount.to)) {
            (Some(id), Some(value)) => match Stat::from_repr(id) {
                Some(stat) => {
                    bonuses.push(ItemBonus { stat, value });
                },
                None => {},
            },
            _ => {},
        }
        i += 1;
    }
    bonuses
}

impl RawItem {
    /// Reads the raw item as an item. The numbers of the item are read from
    /// their texts, a plus sign before a number allowed, and the identifiers
    /// of its type, its slot and its realm are looked up; where one of these
    /// cannot be read or found there is no item. The lists of classes and of
    /// bonuses are read entry by entry, and an entry that cannot be read is
    /// passed over. The two utilities are not read.
    pub fn into_item(self) -> (item: Option<Item>)
        ensures
            item is Some <==> readable(self),
            item is Some ==> reads_as(self, item->0),
    {
        let id = match text_i32(self.id.as_str()) {
            Some(n) => n,
            None => {
                return None;
            },
        };
        let model = match text_i32(self.model.as_str()) {
            Some(n) => n,
            None => {
                return None;
            },
        };
        let object_type = match text_u16(self.object_type.as_str()) {
            Some(n) => match ItemType::from_repr(n) {
                Some(found) => found,
                None => {
                    return None;
                },
            },
            None => {
                return None;
            },
        };
        let item_slot = match text_u16(self.item_type.as_str()) {
            Some(n) => match ItemSlot::from_repr(n) {
                Some(found) => found,
                None => {
                    return None;
                },
            },
            None => {
                return None;
            },
        };
        let level = match text_u16(self.level.as_str()) {
            Some(n) => n,
            None => {
                return None;
            },
        };
        let quality = match text_u16(self.quality.as_str()) {
            Some(n) => n,
            None => {
                return None;
            },
        };
        let weapon_hand = match text_u16(self.weapon_hand.as_str()) {
            Some(n) => n,
            None => {
                return None;
            },
        };
        let weapon_speed = match text_u16(self.weapon_speed.as_str()) {
            Some(n) => n,
            None => {
                return None;
            },
        };
        let damage_type = match text_u16(self.damage_type.as_str()) {
            Some(n) => n,
            None => {
                return None;
            },
        };
        let realm = match text_u16(self.realm.as_str()) {
            Some(n) => match Realm::from_repr(n) {
                Some(found) => found,
                None => {
                    return None;
                },
            },
            None => {
                return None;
            },
        };
        let bonus_level = match text_u16(self.bonus_level.as_str()) {
            Some(n) => n,
            None => {
                return None;
            },
        };
        let shield_size = match text_u16(self.shield_size.as_str()) {
            Some(n) => n,
            None => {
                return None;
            },
        };
        let instrument_type = match text_u16(self.instrument_type.as_str()) {
            Some(n) => n,
            None => {
                return None;
            },
        };
        let is_tradable = match text_u16(self.is_tradable.as_str()) {
            Some(n) => n > 0,
            None => {
                return None;
            },
        };
        let allowed_classes = read_classes(self.allowed_classes.as_str());
        let bonuses = read_bonuses(self.bonus_types.as_str(), self.bonus_values.as_str());
        Some(
            Item {
                id,
                name: self.name,
                model,
                object_type,
                item_slot,
                level,
                quality,
                weapon_hand,
                weapon_speed,
                damage_type,
                realm,
                required_level: self.required_level,
                bonus_level,
                shield_size,
                instrument_type,
                is_tradable,
                allowed_classes,
                bonuses,
                proc1_json: self.proc1_json,
                proc2_json: self.proc2_json,
                use1_json: self.use1_json,
                use2_json: self.use2_json,
                passive_json: self.passive_json,
                react1_json: self.react1_json,
                react2_json: self.react2_json,
            },
        )
    }
}

} // verus!
