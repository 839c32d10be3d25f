//! Templates: for one class, the items that fill its slots.

use std::sync::Arc;
use vstd::prelude::*;

use crate::domain::class::Class;
use crate::domain::item::Item;
use crate::domain::item_slot::{ItemSlot, SLOT_COUNT};

verus! {

/// The place of the first item of `items` with identifier `id`, or the length
/// of `items` where none has it.
pub open spec fn first_with_id(items: Seq<Arc<Item>>, id: i32) -> int
    decreases items.len(),
{
    if items.len() == 0 || items[0].id == id {
        0
    } else {
        1 + first_with_id(items.skip(1), id)
    }
}

/// `first_with_id` is the least place that holds an item with the identifier.
pub proof fn lemma_first_with_id(items: Seq<Arc<Item>>, id: i32)
    ensures
        0 <= first_with_id(items, id) <= items.len(),
        forall|j: int| 0 <= j < first_with_id(items, id) ==> (#[trigger] items[j]).id != id,
        first_with_id(items, id) < items.len() ==> items[first_with_id(items, id)].id == id,
    decreases items.len(),
{
    if items.len() == 0 || items[0].id == id {
    } else {
        let rest = items.skip(1);
        lemma_first_with_id(rest, id);
        assert forall|j: int| 0 <= j < first_with_id(items, id) implies (#[trigger] items[j]).id
            != id by {
            if j > 0 {
                assert(rest[j - 1] == items[j]);
            }
        }
        if first_with_id(rest, id) < rest.len() {
            assert(rest[first_with_id(rest, id)] == items[first_with_id(items, id)]);
        }
    }
}

/// A place `at` that holds the first item with the identifier, or the length
/// where there is none, is `first_with_id`.
pub proof fn lemma_first_with_id_is(items: Seq<Arc<Item>>, id: i32, at: int)
    requires
        0 <= at <= items.len(),
        forall|j: int| 0 <= j < at ==> (#[trigger] items[j]).id != id,
        at < items.len() ==> items[at].id == id,
    ensures
        first_with_id(items, id) == at,
{
    lemma_first_with_id(items, id);
    let f = first_with_id(items, id);
    if f < at {
        assert(items[f].id != id);
    } else if at < f {
        assert(items[at].id == id);
    }
}

/// The slots after the solver chose the item with identifier `id` for `slot`:
/// the first item of `items` with that identifier fills the slot, and where
/// there is none the slots stay as they are.
pub open spec fn apply_one(
    slots: Map<ItemSlot, Item>,
    items: Seq<Arc<Item>>,
    slot: ItemSlot,
    id: i32,
) -> Map<ItemSlot, Item> {
    let at = first_with_id(items, id);
    if at < items.len() {
        slots.insert(slot, *items[at])
    } else {
        slots
    }
}

/// The slots after the solver's choices `chosen` are applied in their order,
/// so that of two choices for one slot the later one stays.
pub open spec fn apply_chosen(
    slots: Map<ItemSlot, Item>,
    items: Seq<Arc<Item>>,
    chosen: Seq<(ItemSlot, i32)>,
) -> Map<ItemSlot, Item>
    decreases chosen.len(),
{
    if chosen.len() == 0 {
        slots
    } else {
        apply_one(
            apply_chosen(slots, items, chosen.drop_last()),
            items,
            chosen.last().0,
            chosen.last().1,
        )
    }
}

/// The name of a template that was given none.
pub const UNTITLED: &'static str = "Untitled Template";

/// A template: a class, and for some of the slots an item. The solver is
/// asked to fill the other slots.
#[derive(Debug)]
pub struct Template {
    name: String,
    class: Class,
    slots: Vec<Option<Arc<Item>>>,
}

impl View for Template {
    type V = Map<ItemSlot, Item>;

    /// The items of the template by their slots.
    closed spec fn view(&self) -> Map<ItemSlot, Item> {
        Map::new(
            |slot: ItemSlot| self.slots@[slot.spec_index()] is Some,
            |slot: ItemSlot| *self.slots@[slot.spec_index()]->0,
        )
    }
}

impl Template {
    #[verifier::type_invariant]
    spec fn well_formed(&self) -> bool {
        self.slots@.len() == SLOT_COUNT
    }

    /// The name of the template.
    pub closed spec fn spec_name(&self) -> Seq<char> {
        self.name@
    }

    /// The class that the template is made for.
    pub closed spec fn spec_class(&self) -> Class {
        self.class
    }

    /// Makes a template for `class` with the name `UNTITLED` and no item.
    pub fn new(class: Class) -> (template: Template)
        ensures
            template.spec_name() == UNTITLED@,
            template.spec_class() == class,
            template@ == Map::<ItemSlot, Item>::empty(),
    {
        let mut slots: Vec<Option<Arc<Item>>> = Vec::new();
        let mut i: usize = 0;
        while i < SLOT_COUNT
            invariant
                i <= SLOT_COUNT,
                slots@.len() == i,
                forall|j: int| 0 <= j < i ==> slots@[j] is None,
            decreases SLOT_COUNT - i,
        {
            slots.push(None);
            i += 1;
        }
        let template = Template { name: UNTITLED.to_owned(), class, slots };
        assert(template@ =~= Map::<ItemSlot, Item>::empty());
        template
    }

    /// Returns the name of the template.
    pub fn name(&self) -> (name: &str)
        ensures
            name@ == self.spec_name(),
    {
        self.name.as_str()
    }

    /// Gives the template the name `name`.
    pub fn set_name(&mut self, name: String)
        ensures
            final(self).spec_name() == name@,
            final(self).spec_class() == old(self).spec_class(),
            final(self)@ == old(self)@,
    {
        proof {
            use_type_invariant(&*self);
        }
        self.name = name;
    }

    /// Returns the class that the template is made for.
    pub fn class(&self) -> (class: Class)
        ensures
            class == self.spec_class(),
    {
        self.class
    }

    /// Puts `item` into `slot`, in place of what the slot held.
    pub fn set_item(&mut self, slot: ItemSlot, item: Arc<Item>)
        ensures
            final(self)@ == old(self)@.insert(slot, *item),
            final(self).spec_name() == old(self).spec_name(),
            final(self).spec_class() == old(self).spec_class(),
    {
        proof {
            use_type_invariant(&*self);
        }
        let at = slot.index();
        let mut slots: Vec<Option<Arc<Item>>> = Vec::new();
        let mut i: usize = 0;
        while i < SLOT_COUNT
            invariant
                i <= SLOT_COUNT,
                at < SLOT_COUNT,
                self.slots@.len() == SLOT_COUNT,
                slots@.len() == i,
                forall|j: int| 0 <= j < i && j != at ==> slots@[j] == self.slots@[j],
                at < i ==> slots@[at as int] == Some(item),
            decreases SLOT_COUNT - i,
        {
            let held = if i == at {
                Some(item.clone())
            } else {
                match &self.slots[i] {
                    Some(other) => Some(other.clone()),
                    None => None,
                }
            };
            slots.push(held);
            i += 1;
        }
        self.slots = slots;
        proof {
            assert forall|s: ItemSlot| s != slot implies s.spec_index() != slot.spec_index() by {}
            assert(self@ =~= old(self)@.insert(slot, *item));
        }
    }

    /// Returns the item in `slot`, if the slot holds one.
    pub fn get_item(&self, slot: &ItemSlot) -> (item: Option<&Arc<Item>>)
        ensures
            match item {
                Some(held) => self@.contains_key(*slot) && **held == self@[*slot],
                None => !self@.contains_key(*slot),
            },
    {
        proof {
            use_type_invariant(self);
        }
        match &self.slots[slot.index()] {
            Some(held) => Some(held),
            None => None,
        }
    }

    /// Returns a template like this one in which the solver's choices `chosen`
    /// are applied in their order. A choice names a slot and the identifier of
    /// an item; the first item of `items` with that identifier fills the slot.
    /// A choice of an identifier that no item of `items` has is passed over. No
    /// slot loses its item.
    pub fn with_chosen(&self, items: &[Arc<Item>], chosen: &[(ItemSlot, i32)]) -> (template:
        Template)
        ensures
            template@ == apply_chosen(self@, items@, chosen@),
            template.spec_name() == self.spec_name(),
            template.spec_class() == self.spec_class(),
    {
        let mut template = self.clone();
        let mut k: usize = 0;
        while k < chosen.len()
            invariant
                k <= chosen@.len(),
                template@ == apply_chosen(self@, items@, chosen@.take(k as int)),
                template.spec_name() == self.spec_name(),
                template.spec_class() == self.spec_class(),
            decreases chosen@.len() - k,
        {
            let (slot, id) = chosen[k];
            let at = find_item(items, id);
            if at < items.len() {
                template.set_item(slot, items[at].clone());
            }
            proof {
                let next = chosen@.take(k as int + 1);
                assert(next.drop_last() =~= chosen@.take(k as int));
                assert(next.last() == chosen@[k as int]);
            }
            k += 1;
        }
        assert(chosen@.take(k as int) =~= chosen@);
        template
    }
}

impl Clone for Template {
    /// Returns a template with the same name, class and items.
    fn clone(&self) -> (template: Template)
        ensures
            template@ == self@,
            template.spec_name() == self.spec_name(),
            template.spec_class() == self.spec_class(),
    {
        proof {
            use_type_invariant(self);
        }
        let mut slots: Vec<Option<Arc<Item>>> = Vec::new();
        let mut i: usize = 0;
        while i < SLOT_COUNT
            invariant
                i <= SLOT_COUNT,
                self.slots@.len() == SLOT_COUNT,
                slots@.len() == i,
                forall|j: int| 0 <= j < i ==> slots@[j] == self.slots@[j],
            decreases SLOT_COUNT - i,
        {
            let held = match &self.slots[i] {
                Some(item) => Some(item.clone()),
                None => None,
            };
            slots.push(held);
            i += 1;
        }
        let template = Template { name: self.name.clone(), class: self.class, slots };
        assert(template@ =~= self@);
        template
    }
}

/// Returns the place of the first item of `items` with identifier `id`, or the
/// number of items where none has it.
pub fn find_item(items: &[Arc<Item>], id: i32) -> (at: usize)
    ensures
        at == first_with_id(items@, id),
        at <= items@.len(),
        at < items@.len() ==> items@[at as int].id == id,
{
    let mut i: usize = 0;
    while i < items.len() && items[i].id != id
        invariant
            i <= items@.len(),
            forall|j: int| 0 <= j < i ==> (#[trigger] items@[j]).id != id,
        decreases items@.len() - i,
    {
        i += 1;
    }
    proof {
        lemma_first_with_id_is(items@, id, i as int);
    }
    i
}

/// Applying choices takes no item out of a slot: a slot that held an item
/// holds one afterwards.
pub proof fn lemma_apply_keeps_slots(
    slots: Map<ItemSlot, Item>,
    items: Seq<Arc<Item>>,
    chosen: Seq<(ItemSlot, i32)>,
)
    ensures
        forall|slot: ItemSlot| slots.contains_key(slot) ==> #[trigger] apply_chosen(
            slots,
            items,
            chosen,
        ).contains_key(slot),
    decreases chosen.len(),
{
    if chosen.len() > 0 {
        lemma_apply_keeps_slots(slots, items, chosen.drop_last());
        let before = apply_chosen(slots, items, chosen.drop_last());
        assert forall|slot: ItemSlot| slots.contains_key(slot) implies #[trigger] apply_chosen(
            slots,
            items,
            chosen,
        ).contains_key(slot) by {
            assert(before.contains_key(slot));
        }
    }
}

/// Applying choices changes only the slots that a choice names with the
/// identifier of an item of the catalog: every other slot is as it was.
pub proof fn lemma_apply_leaves_other_slots(
    slots: Map<ItemSlot, Item>,
    items: Seq<Arc<Item>>,
    chosen: Seq<(ItemSlot, i32)>,
    slot: ItemSlot,
)
    requires
        forall|k: int|
            0 <= k < chosen.len() && (#[trigger] chosen[k]).0 == slot ==> first_with_id(
                items,
                chosen[k].1,
            ) == items.len(),
    ensures
        apply_chosen(slots, items, chosen).contains_key(slot) == slots.contains_key(slot),
        slots.contains_key(slot) ==> apply_chosen(slots, items, chosen)[slot] == slots[slot],
    decreases chosen.len(),
{
    if chosen.len() > 0 {
        let before = chosen.drop_last();
        assert forall|k: int| 0 <= k < before.len() && (#[trigger] before[k]).0
            == slot implies first_with_id(items, before[k].1) == items.len() by {
            assert(before[k] == chosen[k]);
        }
        lemma_apply_leaves_other_slots(slots, items, before, slot);
        let last = chosen[chosen.len() - 1];
        assert(last == chosen.last());
    }
}

/// The last choice for a slot decides: where it names an item of the catalog,
/// the slot holds the first item with that identifier.
pub proof fn lemma_apply_last_choice(
    slots: Map<ItemSlot, Item>,
    items: Seq<Arc<Item>>,
    chosen: Seq<(ItemSlot, i32)>,
    k: int,
)
    requires
        0 <= k < chosen.len(),
        first_with_id(items, chosen[k].1) < items.len(),
        forall|j: int| k < j < chosen.len() ==> (#[trigger] chosen[j]).0 != chosen[k].0,
    ensures
        apply_chosen(slots, items, chosen).contains_key(chosen[k].0),
        apply_chosen(slots, items, chosen)[chosen[k].0] == *items[first_with_id(
            items,
            chosen[k].1,
        )],
        apply_chosen(slots, items, chosen)[chosen[k].0].id == chosen[k].1,
    decreases chosen.len(),
{
    lemma_first_with_id(items, chosen[k].1);
    let before = chosen.drop_last();
    if k == chosen.len() - 1 {
        assert(chosen.last() == chosen[k]);
    } else {
        assert(before[k] == chosen[k]);
        assert forall|j: int| k < j < before.len() implies (#[trigger] before[j]).0
            != before[k].0 by {
            assert(before[j] == chosen[j]);
        }
        lemma_apply_last_choice(slots, items, before, k);
        assert(chosen.last() == chosen[chosen.len() - 1]);
        assert(chosen.last().0 != chosen[k].0);
    }
}

} // verus!
