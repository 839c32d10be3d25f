//! The instance: the facts that tell the solver what there is to choose from.
//!
//! Each fact is one line of program text. Facts about the class, the slots,
//! the stats and the items make up the instance; what the solver is to do with
//! them is said elsewhere, in the encoding.

use std::sync::Arc;
use vstd::prelude::*;

use crate::domain::class::Class;
use crate::domain::item::Item;
use crate::domain::item_bonus::ItemBonus;
use crate::domain::item_slot::ItemSlot;
use crate::domain::stat::Stat;
use crate::domain::template::Template;
use crate::text::{append_int, decimal};

verus! {

/// The line `item(id, slot, "name").` that names a candidate item.
pub open spec fn item_fact(item: Item) -> Seq<char> {
    "item("@ + decimal(item.id as int) + ", "@ + item.item_slot.spec_name() + ", \""@ + item.name@
        + "\").\n"@
}

/// The line `item_bonus(id, stat, value).` that states one bonus of the item
/// with identifier `id`.
pub open spec fn bonus_fact(id: i32, bonus: ItemBonus) -> Seq<char> {
    "item_bonus("@ + decimal(id as int) + ", "@ + bonus.stat.spec_name() + ", "@ + decimal(
        bonus.value as int,
    ) + ").\n"@
}

/// The lines of the bonuses `bonuses` of the item with identifier `id`, in
/// their order.
pub open spec fn bonus_facts(id: i32, bonuses: Seq<ItemBonus>) -> Seq<char>
    decreases bonuses.len(),
{
    if bonuses.len() == 0 {
        Seq::empty()
    } else {
        bonus_facts(id, bonuses.drop_last()) + bonus_fact(id, bonuses.last())
    }
}

/// The lines of the items `items` in their order: for each item its own line,
/// then the lines of its bonuses.
pub open spec fn item_facts(items: Seq<Arc<Item>>) -> Seq<char>
    decreases items.len(),
{
    if items.len() == 0 {
        Seq::empty()
    } else {
        item_facts(items.drop_last()) + item_fact(*items.last()) + bonus_facts(
            items.last().id,
            items.last().bonuses@,
        )
    }
}

/// The text of the facts about the items `items`.
pub open spec fn item_atoms_text(items: Seq<Arc<Item>>) -> Seq<char> {
    "% --- AVAILABLE ITEMS ---\n"@ + item_facts(items)
}

/// The line `stat(name, utility, cap).` of a stat. The utility is that of one
/// point in hundredths.
pub open spec fn stat_line(stat: Stat) -> Seq<char> {
    "stat("@ + stat.spec_name() + ", "@ + decimal(stat.spec_utility_hundredths()) + ", "@
        + decimal(stat.spec_cap()) + ").\n"@
}

/// The line `stat_cap(name, cap).` of a stat whose cap the stat `cap` raises;
/// of any other stat, nothing.
pub open spec fn stat_cap_line(stat: Stat) -> Seq<char> {
    match stat.spec_cap_stat() {
        Some(cap) => "stat_cap("@ + stat.spec_name() + ", "@ + cap.spec_name() + ").\n"@,
        None => Seq::empty(),
    }
}

/// The line `stat_base(name, base).` of a stat that raises the cap of the stat
/// `base`; of any other stat, nothing.
pub open spec fn stat_base_line(stat: Stat) -> Seq<char> {
    match stat.spec_base_stat() {
        Some(base) => "stat_base("@ + stat.spec_name() + ", "@ + base.spec_name() + ").\n"@,
        None => Seq::empty(),
    }
}

/// The lines of a stat: its own line, then the line of the stat that raises
/// its cap, then the line of the stat whose cap it raises.
pub open spec fn stat_fact(stat: Stat) -> Seq<char> {
    stat_line(stat) + stat_cap_line(stat) + stat_base_line(stat)
}

/// The lines of the stats `stats` in their order.
pub open spec fn stat_facts(stats: Seq<Stat>) -> Seq<char>
    decreases stats.len(),
{
    if stats.len() == 0 {
        Seq::empty()
    } else {
        stat_facts(stats.drop_last()) + stat_fact(stats.last())
    }
}

/// The text of the facts about the stats: the lines of every stat, by rising
/// identifier.
pub open spec fn stat_atoms_text() -> Seq<char> {
    "% --- STATS ---\n"@ + stat_facts(Stat::spec_all())
}

/// The lines `class_skill_line(line).` of the skill lines `lines` in their
/// order.
pub open spec fn skill_line_facts(lines: Seq<Stat>) -> Seq<char>
    decreases lines.len(),
{
    if lines.len() == 0 {
        Seq::empty()
    } else {
        skill_line_facts(lines.drop_last()) + "class_skill_line("@ + lines.last().spec_name()
            + ").\n"@
    }
}

/// The text of the facts about the class `class`: the line `class(name).`, a
/// line for each of its skill lines, and the line `class_acuity(stat).` where
/// the class casts from an attribute.
pub open spec fn class_atoms_text(class: Class) -> Seq<char> {
    "% --- CLASS ---\n"@ + "class("@ + class.spec_name() + ").\n"@ + skill_line_facts(
        class.spec_skill_lines(),
    ) + match class.spec_acuity_stat() {
        Some(stat) => "class_acuity("@ + stat.spec_name() + ").\n"@,
        None => Seq::empty(),
    }
}

/// The line `slot(id,name).` of a slot, then `slot_taken(id, item).` where
/// `slots` holds an item in the slot.
pub open spec fn slot_fact(slots: Map<ItemSlot, Item>, slot: ItemSlot) -> Seq<char> {
    "slot("@ + decimal(slot.spec_id() as int) + ","@ + slot.spec_name() + ").\n"@ + if slots.contains_key(
        slot,
    ) {
        "slot_taken("@ + decimal(slot.spec_id() as int) + ", "@ + decimal(slots[slot].id as int)
            + ").\n"@
    } else {
        Seq::empty()
    }
}

/// The lines of the slots `listed` in their order.
pub open spec fn slot_facts(slots: Map<ItemSlot, Item>, listed: Seq<ItemSlot>) -> Seq<char>
    decreases listed.len(),
{
    if listed.len() == 0 {
        Seq::empty()
    } else {
        slot_facts(slots, listed.drop_last()) + slot_fact(slots, listed.last())
    }
}

/// The text of the facts about the slots of a template with the items
/// `slots`: the lines of every slot.
pub open spec fn slot_atoms_text(slots: Map<ItemSlot, Item>) -> Seq<char> {
    "% --- TEMPLATE ---\n"@ + slot_facts(slots, ItemSlot::spec_all())
}

/// The text of the whole instance for the template `template` and the
/// candidate items `items`.
pub open spec fn instance_text(template: Template, items: Seq<Arc<Item>>) -> Seq<char> {
    class_atoms_text(template.spec_class()) + slot_atoms_text(template@) + stat_atoms_text()
        + item_atoms_text(items)
}

/// Appends the line of the item `item`.
fn push_item_fact(out: &mut String, item: &Item)
    ensures
        final(out)@ == old(out)@ + item_fact(*item),
{
    out.append("item(");
    append_int(out, item.id as i64);
    out.append(", ");
    out.append(item.item_slot.name());
    out.append(", \"");
    out.append(item.name.as_str());
    out.append("\").\n");
    assert(out@ =~= old(out)@ + item_fact(*item));
}

/// Appends the line of the bonus `bonus` of the item with identifier `id`.
fn push_bonus_fact(out: &mut String, id: i32, bonus: &ItemBonus)
    ensures
        final(out)@ == old(out)@ + bonus_fact(id, *bonus),
{
    out.append("item_bonus(");
    append_int(out, id as i64);
    out.append(", ");
    out.append(bonus.stat.name());
    out.append(", ");
    append_int(out, bonus.value as i64);
    out.append(").\n");
    assert(out@ =~= old(out)@ + bonus_fact(id, *bonus));
}

/// Writes the facts about the candidate items: for every item one line
/// `item(id, slot, "name").`, and for every bonus that it grants one line
/// `item_bonus(id, stat, value).`.
pub fn item_atoms(items: &[Arc<Item>]) -> (text: String)
    ensures
        text@ == item_atoms_text(items@),
{
    let mut text = "% --- AVAILABLE ITEMS ---\n".to_owned();
    let mut i: usize = 0;
    while i < items.len()
        invariant
            i <= items@.len(),
            text@ == item_atoms_text(items@.take(i as int)),
        decreases items@.len() - i,
    {
        let item = &items[i];
        let ghost before = text@;
        push_item_fact(&mut text, item);
        let mut k: usize = 0;
        while k < item.bonuses.len()
            invariant
                k <= item.bonuses@.len(),
                text@ == before + item_fact(**item) + bonus_facts(
                    item.id,
                    item.bonuses@.take(k as int),
                ),
            decreases item.bonuses@.len() - k,
        {
            push_bonus_fact(&mut text, item.id, &item.bonuses[k]);
            proof {
                let next = item.bonuses@.take(k as int + 1);
                assert(next.drop_last() =~= item.bonuses@.take(k as int));
                assert(next.last() == item.bonuses@[k as int]);
                assert(text@ =~= before + item_fact(**item) + bonus_facts(item.id, next));
            }
            k += 1;
        }
        proof {
            assert(item.bonuses@.take(k as int) =~= item.bonuses@);
            let next = items@.take(i as int + 1);
            assert(next.drop_last() =~= items@.take(i as int));
            assert(next.last() == items@[i as int]);
            assert(text@ =~= item_atoms_text(next));
        }
        i += 1;
    }
    assert(items@.take(i as int) =~= items@);
    text
}

/// Appends the line `stat(name, utility, cap).` of the stat `stat`.
fn push_stat_line(out: &mut String, stat: Stat)
    ensures
        final(out)@ == old(out)@ + stat_line(stat),
{
    out.append("stat(");
    out.append(stat.name());
    out.append(", ");
    append_int(out, stat.utility_hundredths() as i64);
    out.append(", ");
    append_int(out, stat.cap() as i64);
    out.append(").\n");
    assert(out@ =~= old(out)@ + stat_line(stat));
}

/// Appends the line `predicate(first, second).`.
fn push_link(out: &mut String, predicate: &str, first: &str, second: &str)
    ensures
        final(out)@ == old(out)@ + (predicate@ + "("@ + first@ + ", "@ + second@ + ").\n"@),
{
    out.append(predicate);
    out.append("(");
    out.append(first);
    out.append(", ");
    out.append(second);
    out.append(").\n");
    assert(out@ =~= old(out)@ + (predicate@ + "("@ + first@ + ", "@ + second@ + ").\n"@));
}

/// Appends the lines of the stat `stat`.
fn push_stat_fact(out: &mut String, stat: Stat)
    ensures
        final(out)@ == old(out)@ + stat_fact(stat),
{
    push_stat_line(out, stat);
    let ghost first = out@;
    match stat.cap_stat() {
        Some(cap) => {
            push_link(out, "stat_cap", stat.name(), cap.name());
        },
        None => {},
    }
    assert(out@ =~= first + stat_cap_line(stat)) by {
        reveal_strlit("stat_cap");
        reveal_strlit("stat_cap(");
        reveal_strlit("(");
        assert("stat_cap"@ + "("@ =~= "stat_cap("@);
    }
    let ghost second = out@;
    match stat.base_stat() {
        Some(base) => {
            push_link(out, "stat_base", stat.name(), base.name());
        },
        None => {},
    }
    assert(out@ =~= second + stat_base_line(stat)) by {
        reveal_strlit("stat_base");
        reveal_strlit("stat_base(");
        reveal_strlit("(");
        assert("stat_base"@ + "("@ =~= "stat_base("@);
    }
    assert(out@ =~= old(out)@ + stat_fact(stat));
}

/// Writes the facts about the stats: for every stat one line
/// `stat(name, utility, cap).`, where the utility is that of one point in
/// hundredths; a line `stat_cap(name, cap).` for a stat whose cap another
/// raises; and a line `stat_base(name, base).` for a stat that raises the cap of
/// another.
pub fn stat_atoms() -> (text: String)
    ensures
        text@ == stat_atoms_text(),
{
    let stats = Stat::all();
    let mut text = "% --- STATS ---\n".to_owned();
    let mut i: usize = 0;
    while i < stats.len()
        invariant
            i <= stats@.len(),
            text@ == "% --- STATS ---\n"@ + stat_facts(stats@.take(i as int)),
        decreases stats@.len() - i,
    {
        push_stat_fact(&mut text, stats[i]);
        proof {
            let next = stats@.take(i as int + 1);
            assert(next.drop_last() =~= stats@.take(i as int));
            assert(next.last() == stats@[i as int]);
            assert(text@ =~= "% --- STATS ---\n"@ + stat_facts(next));
        }
        i += 1;
    }
    assert(stats@.take(i as int) =~= stats@);
    text
}

/// Writes the facts about the class `class`: one line `class(name).`, one line
/// `class_skill_line(line).` for each skill line of the class, and one line
/// `class_acuity(stat).` where the class casts from an attribute.
pub fn class_atoms(class: Class) -> (text: String)
    ensures
        text@ == class_atoms_text(class),
{
    let mut text = "% --- CLASS ---\n".to_owned();
    text.append("class(");
    text.append(class.name());
    text.append(").\n");
    let ghost head = text@;
    let lines = class.skill_lines();
    let mut i: usize = 0;
    while i < lines.len()
        invariant
            i <= lines@.len(),
            text@ == head + skill_line_facts(lines@.take(i as int)),
        decreases lines@.len() - i,
    {
        let ghost before = text@;
        text.append("class_skill_line(");
        text.append(lines[i].name());
        text.append(").\n");
        proof {
            let next = lines@.take(i as int + 1);
            assert(next.drop_last() =~= lines@.take(i as int));
            assert(next.last() == lines@[i as int]);
            assert(text@ =~= head + skill_line_facts(next));
        }
        i += 1;
    }
    assert(lines@.take(i as int) =~= lines@);
    match class.acuity_stat() {
        Some(stat) => {
            text.append("class_acuity(");
            text.append(stat.name());
            text.append(").\n");
        },
        None => {},
    }
    assert(text@ =~= class_atoms_text(class));
    text
}

/// Appends the lines of the slot `slot` of the template `template`.
fn push_slot_fact(out: &mut String, template: &Template, slot: ItemSlot)
    ensures
        final(out)@ == old(out)@ + slot_fact(template@, slot),
{
    out.append("slot(");
    append_int(out, slot.id() as i64);
    out.append(",");
    out.append(slot.name());
    out.append(").\n");
    match template.get_item(&slot) {
        Some(item) => {
            out.append("slot_taken(");
            append_int(out, slot.id() as i64);
            out.append(", ");
            append_int(out, item.id as i64);
            out.append(").\n");
        },
        None => {},
    }
    assert(out@ =~= old(out)@ + slot_fact(template@, slot));
}

/// Writes the facts about the slots of `template`: for every slot one line
/// `slot(id,name).`, and one line `slot_taken(id, item).` for a slot that the
/// template has filled, which the solver leaves as it is.
pub fn slot_atoms(template: &Template) -> (text: String)
    ensures
        text@ == slot_atoms_text(template@),
{
    let slots = ItemSlot::all();
    let mut text = "% --- TEMPLATE ---\n".to_owned();
    let mut i: usize = 0;
    while i < slots.len()
        invariant
            i <= slots@.len(),
            text@ == "% --- TEMPLATE ---\n"@ + slot_facts(template@, slots@.take(i as int)),
        decreases slots@.len() - i,
    {
        push_slot_fact(&mut text, template, slots[i]);
        proof {
            let next = slots@.take(i as int + 1);
            assert(next.drop_last() =~= slots@.take(i as int));
            assert(next.last() == slots@[i as int]);
            assert(text@ =~= "% --- TEMPLATE ---\n"@ + slot_facts(template@, next));
        }
        i += 1;
    }
    assert(slots@.take(i as int) =~= slots@);
    text
}

/// Writes the whole instance for `template` and the candidate items `items`:
/// the facts about the class, the slots, the stats and the items.
pub fn instance(template: &Template, items: &[Arc<Item>]) -> (text: String)
    ensures
        text@ == instance_text(*template, items@),
{
    let mut text = class_atoms(template.class());
    text.append(slot_atoms(template).as_str());
    text.append(stat_atoms().as_str());
    text.append(item_atoms(items).as_str());
    text
}

} // verus!
