//! Choices: what a model says of the items that the solver chose.
//!
//! The solver states each choice in an atom `slot_chosen(slot, item)`, with
//! the number of the slot and the identifier of the item. Everything else that
//! a model holds is passed over.

use std::sync::Arc;
use vstd::prelude::*;

use crate::clingo::error::{error_text, ClingoError, ErrorView};
use crate::clingo::model::Model;
use crate::clingo::symbol::{Symbol, SymbolType, NOT_A_NUMBER};
use crate::domain::item::Item;
use crate::domain::item_slot::ItemSlot;
use crate::domain::template::{
    apply_chosen, first_with_id, lemma_apply_last_choice, lemma_first_with_id,
    lemma_first_with_id_is,
};
use crate::text::{append_int, decimal, str_eq};

verus! {

/// The name of the atoms in which the solver states its choices.
pub const CHOSEN: &'static str = "slot_chosen";

/// Why the atoms of a model could not be read as choices.
#[derive(Debug, Clone, Copy, PartialEq, Eq, Structural)]
pub enum DecodeError {
    /// A choice has no argument for the slot.
    MissingSlot,
    /// A choice has no argument for the item.
    MissingItem,
    /// The slot of a choice is not a number.
    SlotNotNumber,
    /// The slot of a choice is a number that no slot has.
    InvalidSlot(i32),
    /// The item of a choice is not a number.
    ItemNotNumber,
}

/// The text that a decode error reads as.
pub open spec fn decode_error_text(error: DecodeError) -> Seq<char> {
    match error {
        DecodeError::MissingSlot => "Expected an argument for `slot` at index 0 in slot_chosen"@,
        DecodeError::MissingItem => "Expected an argument for `item` at index 1 in slot_chosen"@,
        DecodeError::SlotNotNumber => "Failed to parse slot ID"@,
        DecodeError::InvalidSlot(number) => "Invalid slot representation: "@ + decimal(
            number as int,
        ),
        DecodeError::ItemNotNumber => error_text(ErrorView::TypeError { message: NOT_A_NUMBER@ }),
    }
}

impl DecodeError {
    /// Returns the text that the error reads as.
    pub fn to_string(&self) -> (text: String)
        ensures
            text@ == decode_error_text(*self),
    {
        match self {
            DecodeError::MissingSlot => {
                "Expected an argument for `slot` at index 0 in slot_chosen".to_owned()
            },
            DecodeError::MissingItem => {
                "Expected an argument for `item` at index 1 in slot_chosen".to_owned()
            },
            DecodeError::SlotNotNumber => "Failed to parse slot ID".to_owned(),
            DecodeError::InvalidSlot(number) => {
                let mut text = "Invalid slot representation: ".to_owned();
                append_int(&mut text, *number as i64);
                text
            },
            DecodeError::ItemNotNumber => ClingoError::new_type_error(NOT_A_NUMBER).to_string(),
        }
    }
}

/// What one symbol of a model says of the solver's choices.
pub enum Decoded {
    /// The symbol is no choice.
    Skipped,
    /// The symbol is the choice of the item with this identifier for this
    /// slot.
    Chosen(ItemSlot, i32),
    /// The symbol is a choice that cannot be read.
    Failed(DecodeError),
}

/// What the symbol `symbol` says of the solver's choices. A choice is a
/// function named `CHOSEN`; its first argument is the identifier of a slot, and
/// its second the identifier of an item. A first argument that is the
/// identifier of no slot is refused, whatever number it is.
pub open spec fn decode_symbol(symbol: Symbol) -> Decoded {
    let arguments = symbol.spec_arguments();
    if symbol.spec_kind() != SymbolType::Function || symbol.spec_text() != CHOSEN@ {
        Decoded::Skipped
    } else if arguments.len() < 1 {
        Decoded::Failed(DecodeError::MissingSlot)
    } else if arguments.len() < 2 {
        Decoded::Failed(DecodeError::MissingItem)
    } else if arguments[0].spec_kind() != SymbolType::Number {
        Decoded::Failed(DecodeError::SlotNotNumber)
    } else {
        match ItemSlot::spec_with_id(arguments[0].spec_number() as int) {
            None => Decoded::Failed(DecodeError::InvalidSlot(arguments[0].spec_number())),
            Some(slot) => if arguments[1].spec_kind() != SymbolType::Number {
                Decoded::Failed(DecodeError::ItemNotNumber)
            } else {
                Decoded::Chosen(slot, arguments[1].spec_number())
            },
        }
    }
}

/// The choices that the symbols `symbols` state, in their order, or what is
/// wrong with the first symbol that cannot be read.
pub open spec fn decode_symbols(symbols: Seq<Symbol>) -> Result<Seq<(ItemSlot, i32)>, DecodeError>
    decreases symbols.len(),
{
    if symbols.len() == 0 {
        Ok(Seq::empty())
    } else {
        match decode_symbols(symbols.drop_last()) {
            Err(error) => Err(error),
            Ok(chosen) => match decode_symbol(symbols.last()) {
                Decoded::Skipped => Ok(chosen),
                Decoded::Chosen(slot, id) => Ok(chosen.push((slot, id))),
                Decoded::Failed(error) => Err(error),
            },
        }
    }
}

/// What is wrong with the first symbols is wrong with all of them.
pub proof fn lemma_decode_fails_early(symbols: Seq<Symbol>, n: int)
    requires
        0 <= n <= symbols.len(),
        decode_symbols(symbols.take(n)) is Err,
    ensures
        decode_symbols(symbols) == decode_symbols(symbols.take(n)),
    decreases symbols.len() - n,
{
    if n < symbols.len() {
        let next = symbols.take(n + 1);
        assert(next.drop_last() =~= symbols.take(n));
        lemma_decode_fails_early(symbols, n + 1);
    } else {
        assert(symbols.take(n) =~= symbols);
    }
}

/// A choice whose first argument is a number that no slot has is refused,
/// whatever the number: no part of it is taken for the identifier of a slot.
pub proof fn lemma_unknown_slot_is_refused(atom: Symbol)
    requires
        atom.spec_kind() == SymbolType::Function,
        atom.spec_text() == CHOSEN@,
        atom.spec_arguments().len() >= 2,
        atom.spec_arguments()[0].spec_kind() == SymbolType::Number,
        forall|slot: ItemSlot| slot.spec_id() != atom.spec_arguments()[0].spec_number(),
    ensures
        decode_symbol(atom) == Decoded::Failed(
            DecodeError::InvalidSlot(atom.spec_arguments()[0].spec_number()),
        ),
{
}

/// One symbol that cannot be read fails the whole: no choices are read from
/// symbols of which one is a choice that cannot be read, not even those that
/// stand before it.
pub proof fn lemma_one_failure_fails_all(symbols: Seq<Symbol>, at: int)
    requires
        0 <= at < symbols.len(),
        decode_symbol(symbols[at]) is Failed,
    ensures
        decode_symbols(symbols) is Err,
    decreases symbols.len(),
{
    if at < symbols.len() - 1 {
        assert(symbols.drop_last()[at] == symbols[at]);
        lemma_one_failure_fails_all(symbols.drop_last(), at);
    } else {
        assert(symbols.last() == symbols[at]);
    }
}

/// Reads one symbol of a model.
fn decode(symbol: &Symbol) -> (decoded: Decoded)
    ensures
        decoded == decode_symbol(*symbol),
{
    match symbol.name() {
        Err(_) => Decoded::Skipped,
        Ok(name) => {
            if !str_eq(name, CHOSEN) {
                return Decoded::Skipped;
            }
            match symbol.arguments() {
                Err(_) => Decoded::Skipped,
                Ok(arguments) => {
                    if arguments.len() < 1 {
                        return Decoded::Failed(DecodeError::MissingSlot);
                    }
                    if arguments.len() < 2 {
                        return Decoded::Failed(DecodeError::MissingItem);
                    }
                    match arguments[0].number() {
                        Err(_) => Decoded::Failed(DecodeError::SlotNotNumber),
                        Ok(number) => match ItemSlot::with_id(number) {
                            None => Decoded::Failed(DecodeError::InvalidSlot(number)),
                            Some(slot) => match arguments[1].number() {
                                Err(_) => Decoded::Failed(DecodeError::ItemNotNumber),
                                Ok(item) => Decoded::Chosen(slot, item),
                            },
                        },
                    }
                },
            }
        },
    }
}

/// Reads the solver's choices from the symbols of a model: for each atom
/// `slot_chosen(slot, item)` the slot and the identifier of the item, in the
/// order of the atoms. Symbols that are no such atom are passed over. The first
/// such atom that cannot be read fails the whole.
pub fn chosen_items(symbols: &[Symbol]) -> (chosen: Result<Vec<(ItemSlot, i32)>, DecodeError>)
    ensures
        match chosen {
            Ok(list) => decode_symbols(symbols@) == Ok::<Seq<(ItemSlot, i32)>, DecodeError>(
                list@,
            ),
            Err(error) => decode_symbols(symbols@) == Err::<Seq<(ItemSlot, i32)>, DecodeError>(
                error,
            ),
        },
{
    let mut list: Vec<(ItemSlot, i32)> = Vec::new();
    let mut i: usize = 0;
    while i < symbols.len()
        invariant
            i <= symbols@.len(),
            decode_symbols(symbols@.take(i as int)) == Ok::<Seq<(ItemSlot, i32)>, DecodeError>(
                list@,
            ),
        decreases symbols@.len() - i,
    {
        proof {
            let next = symbols@.take(i as int + 1);
            assert(next.drop_last() =~= symbols@.take(i as int));
            assert(next.last() == symbols@[i as int]);
        }
        match decode(&symbols[i]) {
            Decoded::Skipped => {},
            Decoded::Chosen(slot, id) => {
                list.push((slot, id));
            },
            Decoded::Failed(error) => {
                proof {
                    lemma_decode_fails_early(symbols@, i as int + 1);
                }
                return Err(error);
            },
        }
        i += 1;
    }
    assert(symbols@.take(i as int) =~= symbols@);
    Ok(list)
}

/// Reads the solver's choices from the symbols of the model `model`, as
/// `chosen_items` reads them.
pub fn chosen_items_from_model(model: &Model) -> (chosen: Result<
    Vec<(ItemSlot, i32)>,
    DecodeError,
>)
    ensures
        match chosen {
            Ok(list) => decode_symbols(model.spec_symbols()) == Ok::<
                Seq<(ItemSlot, i32)>,
                DecodeError,
            >(list@),
            Err(error) => decode_symbols(model.spec_symbols()) == Err::<
                Seq<(ItemSlot, i32)>,
                DecodeError,
            >(error),
        },
{
    chosen_items(model.symbols())
}

/// Whether the symbol `atom` is the atom `slot_chosen(slot, id)`.
pub open spec fn is_choice(atom: Symbol, slot: ItemSlot, id: i32) -> bool {
    &&& atom.spec_kind() == SymbolType::Function
    &&& atom.spec_text() == CHOSEN@
    &&& atom.spec_arguments().len() == 2
    &&& atom.spec_arguments()[0].spec_kind() == SymbolType::Number
    &&& atom.spec_arguments()[0].spec_number() == slot.spec_id()
    &&& atom.spec_arguments()[1].spec_kind() == SymbolType::Number
    &&& atom.spec_arguments()[1].spec_number() == id
}

/// The atom `slot_chosen(slot, id)` reads as the choice of the item with
/// identifier `id` for `slot`.
pub proof fn lemma_choice_is_read(atom: Symbol, slot: ItemSlot, id: i32)
    requires
        is_choice(atom, slot, id),
    ensures
        decode_symbol(atom) == Decoded::Chosen(slot, id),
        decode_symbols(seq![atom]) == Ok::<Seq<(ItemSlot, i32)>, DecodeError>(seq![(slot, id)]),
{
    let number = atom.spec_arguments()[0].spec_number();
    assert(10 <= number <= 36);
    let found = choose|s: ItemSlot| s.spec_id() == number as int;
    assert(found.spec_id() == slot.spec_id());
    assert(found == slot);
    assert(ItemSlot::spec_with_id(number as int) == Some(slot));
    let one = seq![atom];
    assert(one.drop_last() =~= Seq::<Symbol>::empty());
    assert(decode_symbols(one.drop_last()) == Ok::<Seq<(ItemSlot, i32)>, DecodeError>(
        Seq::empty(),
    ));
    assert(one.last() == atom);
    assert(Seq::<(ItemSlot, i32)>::empty().push((slot, id)) =~= seq![(slot, id)]);
}

/// What is written of an item comes back as that item. The facts of the
/// candidate items name each item by its identifier and its slot; where a
/// model answers with the atom `slot_chosen(slot, id)` for an item of the
/// candidates, the template with the model applied holds in that slot an item
/// with that identifier, and the very item where no other candidate shares the
/// identifier.
pub proof fn lemma_written_item_comes_back(
    slots: Map<ItemSlot, Item>,
    items: Seq<Arc<Item>>,
    at: int,
    atom: Symbol,
)
    requires
        0 <= at < items.len(),
        is_choice(atom, items[at].item_slot, items[at].id),
    ensures
        decode_symbols(seq![atom]) is Ok,
        apply_chosen(slots, items, decode_symbols(seq![atom])->Ok_0).contains_key(
            items[at].item_slot,
        ),
        apply_chosen(slots, items, decode_symbols(seq![atom])->Ok_0)[items[at].item_slot].id
            == items[at].id,
        (forall|other: int| 0 <= other < items.len() && other != at ==> (#[trigger] items[other]).id
            != items[at].id) ==> apply_chosen(
            slots,
            items,
            decode_symbols(seq![atom])->Ok_0,
        )[items[at].item_slot] == *items[at],
{
    let slot = items[at].item_slot;
    let id = items[at].id;
    lemma_choice_is_read(atom, slot, id);
    let chosen = seq![(slot, id)];
    lemma_first_with_id(items, id);
    let first = first_with_id(items, id);
    if first >= items.len() {
        assert(items[at].id != id);
    }
    lemma_apply_last_choice(slots, items, chosen, 0);
    if forall|other: int| 0 <= other < items.len() && other != at ==> (#[trigger] items[other]).id
        != id {
        if first != at {
            assert(items[first].id != id);
        }
    }
}

/// Atoms that are all choices read as those choices, in their order.
pub proof fn lemma_choices_are_read(symbols: Seq<Symbol>, chosen: Seq<(ItemSlot, i32)>)
    requires
        symbols.len() == chosen.len(),
        forall|j: int|
            0 <= j < symbols.len() ==> is_choice(#[trigger] symbols[j], chosen[j].0, chosen[j].1),
    ensures
        decode_symbols(symbols) == Ok::<Seq<(ItemSlot, i32)>, DecodeError>(chosen),
    decreases symbols.len(),
{
    if symbols.len() == 0 {
        assert(chosen =~= Seq::<(ItemSlot, i32)>::empty());
    } else {
        let front = symbols.drop_last();
        let before = chosen.drop_last();
        assert forall|j: int| 0 <= j < front.len() implies is_choice(
            #[trigger] front[j],
            before[j].0,
            before[j].1,
        ) by {
            assert(front[j] == symbols[j]);
            assert(before[j] == chosen[j]);
        }
        lemma_choices_are_read(front, before);
        let last = symbols[symbols.len() - 1];
        assert(symbols.last() == last);
        lemma_choice_is_read(last, chosen.last().0, chosen.last().1);
        assert(before.push(chosen.last()) =~= chosen);
    }
}

/// What is written of the items comes back as the items. Where the
/// identifiers of the candidate items differ from each other, and a model
/// holds for each of some slots one atom `slot_chosen(slot, id)` with the
/// identifier of a candidate, all atoms are read, and the template with the
/// model applied holds in each of these slots the very candidate whose
/// identifier the atom bears. Here `picks[j]` is the place among the candidates
/// of the item that the atom `symbols[j]` names.
pub proof fn lemma_model_resolves_items(
    slots: Map<ItemSlot, Item>,
    items: Seq<Arc<Item>>,
    symbols: Seq<Symbol>,
    picks: Seq<int>,
    chosen: Seq<(ItemSlot, i32)>,
)
    requires
        forall|a: int, b: int|
            0 <= a < items.len() && 0 <= b < items.len() && a != b ==> (#[trigger] items[a]).id
                != (#[trigger] items[b]).id,
        symbols.len() == picks.len() == chosen.len(),
        forall|j: int| 0 <= j < picks.len() ==> 0 <= #[trigger] picks[j] < items.len(),
        forall|j: int|
            0 <= j < symbols.len() ==> (#[trigger] chosen[j]).1 == items[picks[j]].id && is_choice(
                symbols[j],
                chosen[j].0,
                chosen[j].1,
            ),
        forall|i: int, j: int|
            0 <= i < j < chosen.len() ==> (#[trigger] chosen[i]).0 != (#[trigger] chosen[j]).0,
    ensures
        decode_symbols(symbols) == Ok::<Seq<(ItemSlot, i32)>, DecodeError>(chosen),
        forall|j: int|
            0 <= j < chosen.len() ==> apply_chosen(slots, items, chosen).contains_key(
                (#[trigger] chosen[j]).0,
            ) && apply_chosen(slots, items, chosen)[chosen[j].0] == *items[picks[j]],
{
    assert forall|j: int| 0 <= j < symbols.len() implies is_choice(
        #[trigger] symbols[j],
        chosen[j].0,
        chosen[j].1,
    ) by {
        assert(chosen[j].1 == items[picks[j]].id);
    }
    lemma_choices_are_read(symbols, chosen);
    assert forall|j: int| 0 <= j < chosen.len() implies apply_chosen(
        slots,
        items,
        chosen,
    ).contains_key((#[trigger] chosen[j]).0) && apply_chosen(slots, items, chosen)[chosen[j].0]
        == *items[picks[j]] by {
        let id = chosen[j].1;
        let pick = picks[j];
        assert(items[pick].id == id);
        assert forall|k: int| 0 <= k < pick implies (#[trigger] items[k]).id != id by {
            assert(items[k].id != items[pick].id);
        }
        lemma_first_with_id_is(items, id, pick);
        assert forall|k: int| j < k < chosen.len() implies (#[trigger] chosen[k]).0
            != chosen[j].0 by {
            assert(chosen[j].0 != chosen[k].0);
        }
        lemma_apply_last_choice(slots, items, chosen, j);
    }
}

} // verus!
