//! Facts: what holds of the text of an instance, line by line.
//!
//! The text of the facts about the items is a sequence of lines, each of
//! which states one candidate item or one of its bonuses, by the identifier of
//! the item. So the identifiers that can be read back from the text are those
//! of the candidates, and no others.

use std::sync::Arc;
use vstd::prelude::*;

use crate::domain::class::Class;
use crate::domain::item::Item;
use crate::domain::item_bonus::ItemBonus;
use crate::domain::stat::{lemma_all_stats_once, lemma_cap_and_base, stat_info, Stat};
use crate::domain::template::Template;
use crate::text::decimal;
use crate::optimization::instance::{
    bonus_fact, bonus_facts, class_atoms_text, instance_text, item_atoms_text, item_fact,
    item_facts, skill_line_facts, slot_atoms_text, stat_atoms_text, stat_base_line, stat_cap_line,
    stat_fact, stat_facts, stat_line,
};

verus! {

/// Whether the text `text` holds the text `part` somewhere in it.
pub open spec fn holds(text: Seq<char>, part: Seq<char>) -> bool {
    exists|at: int|
        0 <= at && at + part.len() <= text.len() && #[trigger] text.subrange(
            at,
            at + part.len(),
        ) == part
}

/// A text between two others is held by the three together.
pub proof fn lemma_holds_between(front: Seq<char>, part: Seq<char>, back: Seq<char>)
    ensures
        holds(front + part + back, part),
{
    let text = front + part + back;
    let at = front.len() as int;
    assert(text.subrange(at, at + part.len()) =~= part);
}

/// What a text holds is held by the text with more before and after it.
pub proof fn lemma_holds_within(
    front: Seq<char>,
    text: Seq<char>,
    back: Seq<char>,
    part: Seq<char>,
)
    requires
        holds(text, part),
    ensures
        holds(front + text + back, part),
{
    let at = choose|at: int|
        0 <= at && at + part.len() <= text.len() && #[trigger] text.subrange(
            at,
            at + part.len(),
        ) == part;
    let whole = front + text + back;
    let there = front.len() + at;
    assert(whole.subrange(there, there + part.len()) =~= text.subrange(at, at + part.len()));
}

/// The lines `lines` one after the other, as one text.
pub open spec fn join(lines: Seq<Seq<char>>) -> Seq<char>
    decreases lines.len(),
{
    if lines.len() == 0 {
        Seq::empty()
    } else {
        join(lines.drop_last()) + lines.last()
    }
}

/// Lines that follow other lines follow them in the text.
pub proof fn lemma_join_both(first: Seq<Seq<char>>, second: Seq<Seq<char>>)
    ensures
        join(first + second) == join(first) + join(second),
    decreases second.len(),
{
    if second.len() == 0 {
        assert(first + second =~= first);
        assert(join(first) + join(second) =~= join(first));
    } else {
        lemma_join_both(first, second.drop_last());
        assert((first + second).drop_last() =~= first + second.drop_last());
        assert((first + second).last() == second.last());
        assert(join(first + second) =~= join(first) + join(second));
    }
}

/// The text of some lines holds each of the lines.
pub proof fn lemma_join_holds(lines: Seq<Seq<char>>, at: int)
    requires
        0 <= at < lines.len(),
    ensures
        holds(join(lines), lines[at]),
    decreases lines.len(),
{
    let front = join(lines.drop_last());
    if at == lines.len() - 1 {
        lemma_holds_between(front, lines.last(), Seq::empty());
        assert(front + lines.last() + Seq::<char>::empty() =~= join(lines));
    } else {
        assert(lines.drop_last()[at] == lines[at]);
        lemma_join_holds(lines.drop_last(), at);
        lemma_holds_within(Seq::empty(), front, lines.last(), lines[at]);
        assert(Seq::<char>::empty() + front + lines.last() =~= join(lines));
    }
}

/// The lines of the bonuses `bonuses` of the item with identifier `id`.
pub open spec fn bonus_lines(id: i32, bonuses: Seq<ItemBonus>) -> Seq<Seq<char>> {
    Seq::new(bonuses.len(), |j: int| bonus_fact(id, bonuses[j]))
}

/// The lines of the items `items`: for each item its own line, then the
/// lines of its bonuses.
pub open spec fn item_lines(items: Seq<Arc<Item>>) -> Seq<Seq<char>>
    decreases items.len(),
{
    if items.len() == 0 {
        Seq::empty()
    } else {
        item_lines(items.drop_last()).push(item_fact(*items.last())) + bonus_lines(
            items.last().id,
            items.last().bonuses@,
        )
    }
}

/// Whether the line `line` states an item of `items` or one of its bonuses:
/// whether it is the line of the item at some place, or the line of a bonus of
/// that item, written with the identifier of that item.
pub open spec fn is_line_of(items: Seq<Arc<Item>>, line: Seq<char>) -> bool {
    exists|k: int, j: int|
        0 <= k < items.len() && (#[trigger] line_of(items, k, j)) == line && -1 <= j
            < items[k].bonuses@.len()
}

/// The line of the item at the place `k` of `items` where `j` is -1, and the
/// line of its bonus at the place `j` otherwise.
pub open spec fn line_of(items: Seq<Arc<Item>>, k: int, j: int) -> Seq<char> {
    if j < 0 {
        item_fact(*items[k])
    } else {
        bonus_fact(items[k].id, items[k].bonuses@[j])
    }
}

/// The text of the bonuses of an item is the text of their lines.
pub proof fn lemma_bonus_facts_are_lines(id: i32, bonuses: Seq<ItemBonus>)
    ensures
        bonus_facts(id, bonuses) == join(bonus_lines(id, bonuses)),
    decreases bonuses.len(),
{
    if bonuses.len() > 0 {
        lemma_bonus_facts_are_lines(id, bonuses.drop_last());
        assert(bonus_lines(id, bonuses).drop_last() =~= bonus_lines(id, bonuses.drop_last()));
        assert(bonus_lines(id, bonuses).last() == bonus_fact(id, bonuses.last()));
    } else {
        assert(bonus_lines(id, bonuses) =~= Seq::<Seq<char>>::empty());
    }
}

/// The text of the items is the text of their lines.
pub proof fn lemma_item_facts_are_lines(items: Seq<Arc<Item>>)
    ensures
        item_facts(items) == join(item_lines(items)),
    decreases items.len(),
{
    if items.len() > 0 {
        let front = items.drop_last();
        let fact = line_of(items, items.len() - 1, -1);
        let id = items.last().id;
        let bonuses = items.last().bonuses@;
        lemma_item_facts_are_lines(front);
        lemma_bonus_facts_are_lines(id, bonuses);
        let own = item_lines(front).push(fact);
        assert(own.drop_last() =~= item_lines(front));
        assert(own.last() == fact);
        lemma_join_both(own, bonus_lines(id, bonuses));
        assert(item_facts(items) =~= join(item_lines(items)));
    }
}

/// Every line of the items states an item of the list or one of its bonuses,
/// and every item and every bonus of the list has its line.
pub proof fn lemma_item_lines_state_the_items(items: Seq<Arc<Item>>)
    ensures
        forall|i: int|
            0 <= i < item_lines(items).len() ==> is_line_of(items, #[trigger] item_lines(items)[i]),
        forall|k: int, j: int|
            0 <= k < items.len() && -1 <= j < items[k].bonuses@.len() ==> item_lines(
                items,
            ).contains(#[trigger] line_of(items, k, j)),
    decreases items.len(),
{
    if items.len() > 0 {
        let front = items.drop_last();
        let n = items.len() - 1;
        lemma_item_lines_state_the_items(front);
        let before = item_lines(front);
        let lines = item_lines(items);
        let bonuses = bonus_lines(items.last().id, items.last().bonuses@);
        assert(lines.len() == before.len() + 1 + bonuses.len());
        assert forall|k: int, j: int|
            0 <= k < n && -1 <= j < items[k].bonuses@.len() implies line_of(items, k, j)
            == line_of(front, k, j) by {
            assert(front[k] == items[k]);
        }
        assert forall|i: int| 0 <= i < lines.len() implies is_line_of(
            items,
            #[trigger] lines[i],
        ) by {
            if i < before.len() {
                assert(lines[i] == before[i]);
                assert(is_line_of(front, before[i]));
                let (k, j) = choose|k: int, j: int|
                    0 <= k < front.len() && (#[trigger] line_of(front, k, j)) == before[i] && -1
                        <= j < front[k].bonuses@.len();
                assert(front[k] == items[k]);
                assert(line_of(items, k, j) == lines[i]);
            } else if i == before.len() {
                assert(lines[i] == line_of(items, n, -1));
                assert(line_of(items, n, -1) == lines[i]);
            } else {
                let j = i - before.len() - 1;
                assert(lines[i] == bonuses[j]);
                assert(line_of(items, n, j) == lines[i]);
            }
        }
        assert forall|k: int, j: int|
            0 <= k < items.len() && -1 <= j < items[k].bonuses@.len() implies lines.contains(
            #[trigger] line_of(items, k, j),
        ) by {
            if k < n {
                assert(front[k] == items[k]);
                assert(before.contains(line_of(front, k, j)));
                let i = choose|i: int| 0 <= i < before.len() && before[i] == line_of(front, k, j);
                assert(lines[i] == line_of(items, k, j));
            } else if j < 0 {
                assert(lines[before.len() as int] == line_of(items, k, j));
            } else {
                assert(lines[before.len() + 1 + j] == bonuses[j]);
                assert(lines[before.len() + 1 + j] == line_of(items, k, j));
            }
        }
    }
}

/// What is written of the items names the items and no others. The text of
/// the facts about the items is its heading and then lines; every line is the
/// line `item(id, slot, "name").` of an item of the list or the line
/// `item_bonus(id, stat, value).` of one of its bonuses, written with the
/// decimal form of the identifier of that item; and the text holds such a line
/// for every item and every bonus of the list.
pub proof fn lemma_item_text_names_the_items(items: Seq<Arc<Item>>)
    ensures
        item_atoms_text(items) == "% --- AVAILABLE ITEMS ---\n"@ + join(item_lines(items)),
        forall|i: int|
            0 <= i < item_lines(items).len() ==> is_line_of(items, #[trigger] item_lines(items)[i]),
        forall|k: int, j: int|
            0 <= k < items.len() && -1 <= j < items[k].bonuses@.len() ==> holds(
                item_atoms_text(items),
                #[trigger] line_of(items, k, j),
            ),
{
    lemma_item_facts_are_lines(items);
    lemma_item_lines_state_the_items(items);
    let lines = item_lines(items);
    let head = "% --- AVAILABLE ITEMS ---\n"@;
    assert forall|k: int, j: int|
        0 <= k < items.len() && -1 <= j < items[k].bonuses@.len() implies holds(
        item_atoms_text(items),
        #[trigger] line_of(items, k, j),
    ) by {
        let line = line_of(items, k, j);
        assert(lines.contains(line));
        let i = choose|i: int| 0 <= i < lines.len() && lines[i] == line;
        lemma_join_holds(lines, i);
        lemma_holds_within(head, join(lines), Seq::empty(), line);
        assert(head + join(lines) + Seq::<char>::empty() =~= item_atoms_text(items));
    }
}

/// The text of the stats `stats` holds the lines of each of them.
pub proof fn lemma_stat_facts_hold(stats: Seq<Stat>, at: int)
    requires
        0 <= at < stats.len(),
    ensures
        holds(stat_facts(stats), stat_line(stats[at])),
        holds(stat_facts(stats), stat_cap_line(stats[at])),
        holds(stat_facts(stats), stat_base_line(stats[at])),
    decreases stats.len(),
{
    let front = stat_facts(stats.drop_last());
    let none = Seq::<char>::empty();
    if at == stats.len() - 1 {
        let stat = stats.last();
        let line = stat_line(stat);
        let cap = stat_cap_line(stat);
        let base = stat_base_line(stat);
        lemma_holds_between(front, line, cap + base);
        assert(front + line + (cap + base) =~= stat_facts(stats));
        lemma_holds_between(front + line, cap, base);
        assert(front + line + cap + base =~= stat_facts(stats));
        lemma_holds_between(front + line + cap, base, none);
        assert(front + line + cap + base + none =~= stat_facts(stats));
    } else {
        assert(stats.drop_last()[at] == stats[at]);
        lemma_stat_facts_hold(stats.drop_last(), at);
        let last = stat_fact(stats.last());
        lemma_holds_within(none, front, last, stat_line(stats[at]));
        lemma_holds_within(none, front, last, stat_cap_line(stats[at]));
        lemma_holds_within(none, front, last, stat_base_line(stats[at]));
        assert(none + front + last =~= stat_facts(stats));
    }
}

/// The text of the facts about the stats holds the lines of every stat.
pub proof fn lemma_stat_text_holds(stat: Stat)
    ensures
        holds(stat_atoms_text(), stat_line(stat)),
        holds(stat_atoms_text(), stat_cap_line(stat)),
        holds(stat_atoms_text(), stat_base_line(stat)),
{
    lemma_all_stats_once(stat);
    let all = Stat::spec_all();
    let at = choose|at: int| 0 <= at < all.len() && all[at] == stat;
    lemma_stat_facts_hold(all, at);
    let head = "% --- STATS ---\n"@;
    let none = Seq::<char>::empty();
    lemma_holds_within(head, stat_facts(all), none, stat_line(stat));
    lemma_holds_within(head, stat_facts(all), none, stat_cap_line(stat));
    lemma_holds_within(head, stat_facts(all), none, stat_base_line(stat));
    assert(head + stat_facts(all) + none =~= stat_atoms_text());
}

/// The line `class_acuity(stat).` of the class `class`, or nothing for a class
/// that casts from no attribute.
pub open spec fn class_acuity_line(class: Class) -> Seq<char> {
    match class.spec_acuity_stat() {
        Some(stat) => "class_acuity("@ + stat.spec_name() + ").\n"@,
        None => Seq::empty(),
    }
}

/// The text of the facts about a class ends with the line of the attribute
/// that the class casts from.
pub proof fn lemma_class_text_holds_acuity(class: Class)
    ensures
        holds(class_atoms_text(class), class_acuity_line(class)),
{
    let front = "% --- CLASS ---\n"@ + "class("@ + class.spec_name() + ").\n"@ + skill_line_facts(
        class.spec_skill_lines(),
    );
    let none = Seq::<char>::empty();
    lemma_holds_between(front, class_acuity_line(class), none);
    assert(front + class_acuity_line(class) + none =~= class_atoms_text(class));
}

/// What one of the four parts of an instance holds, the instance holds.
pub proof fn lemma_instance_holds(template: Template, items: Seq<Arc<Item>>, part: Seq<char>)
    requires
        holds(class_atoms_text(template.spec_class()), part) || holds(
            slot_atoms_text(template@),
            part,
        ) || holds(stat_atoms_text(), part) || holds(item_atoms_text(items), part),
    ensures
        holds(instance_text(template, items), part),
{
    let a = class_atoms_text(template.spec_class());
    let b = slot_atoms_text(template@);
    let c = stat_atoms_text();
    let d = item_atoms_text(items);
    let none = Seq::<char>::empty();
    let whole = instance_text(template, items);
    if holds(a, part) {
        lemma_holds_within(none, a, b + c + d, part);
        assert(none + a + (b + c + d) =~= whole);
    } else if holds(b, part) {
        lemma_holds_within(a, b, c + d, part);
        assert(a + b + (c + d) =~= whole);
    } else if holds(c, part) {
        lemma_holds_within(a + b, c, d, part);
        assert(a + b + c + d =~= whole);
    } else {
        lemma_holds_within(a + b + c, d, none, part);
        assert(a + b + c + d + none =~= whole);
    }
}

/// A bonus to the attribute that the class casts from meets the class in the
/// instance under one name. Where the class of the template casts from the
/// attribute `acuity`, and a candidate item grants a bonus to it, the instance
/// holds the line `class_acuity(name).`, the line `item_bonus(id, name, value).`
/// of the bonus, the line `stat_cap(name, cap).` and the line
/// `stat_base(cap, name).`, all four with the one name of the attribute, and
/// the last two with the name of the stat that raises its cap.
pub proof fn lemma_acuity_bonus_meets_the_class(
    template: Template,
    items: Seq<Arc<Item>>,
    k: int,
    j: int,
    acuity: Stat,
)
    requires
        template.spec_class().spec_acuity_stat() == Some(acuity),
        0 <= k < items.len(),
        0 <= j < items[k].bonuses@.len(),
        items[k].bonuses@[j].stat == acuity,
    ensures
        acuity.spec_cap_stat() is Some,
        holds(
            instance_text(template, items),
            "class_acuity("@ + acuity.spec_name() + ").\n"@,
        ),
        holds(
            instance_text(template, items),
            "item_bonus("@ + decimal(items[k].id as int) + ", "@ + acuity.spec_name()
                + ", "@ + decimal(items[k].bonuses@[j].value as int) + ").\n"@,
        ),
        holds(
            instance_text(template, items),
            "stat_cap("@ + acuity.spec_name() + ", "@ + acuity.spec_cap_stat()->0.spec_name()
                + ").\n"@,
        ),
        holds(
            instance_text(template, items),
            "stat_base("@ + acuity.spec_cap_stat()->0.spec_name() + ", "@ + acuity.spec_name()
                + ").\n"@,
        ),
{
    let class = template.spec_class();
    let cap = acuity.spec_cap_stat()->0;
    lemma_cap_and_base(acuity, cap);
    lemma_class_text_holds_acuity(class);
    lemma_instance_holds(template, items, class_acuity_line(class));
    lemma_item_text_names_the_items(items);
    assert(holds(item_atoms_text(items), line_of(items, k, j)));
    lemma_instance_holds(template, items, line_of(items, k, j));
    lemma_stat_text_holds(acuity);
    lemma_instance_holds(template, items, stat_cap_line(acuity));
    lemma_stat_text_holds(cap);
    lemma_instance_holds(template, items, stat_base_line(cap));
}

/// For a bard the attribute is charisma. Where the template is a bard's and
/// a candidate item grants a bonus to charisma, the instance holds the lines
/// `class_acuity(charisma).`, `item_bonus(id, charisma, value).`,
/// `stat_cap(charisma, charisma_cap).` and `stat_base(charisma_cap, charisma).`.
pub proof fn lemma_bard_meets_charisma(template: Template, items: Seq<Arc<Item>>, k: int, j: int)
    requires
        template.spec_class() == Class::Bard,
        0 <= k < items.len(),
        0 <= j < items[k].bonuses@.len(),
        items[k].bonuses@[j].stat == Stat::Charisma,
    ensures
        holds(instance_text(template, items), "class_acuity(charisma).\n"@),
        holds(
            instance_text(template, items),
            "item_bonus("@ + decimal(items[k].id as int) + ", charisma, "@ + decimal(
                items[k].bonuses@[j].value as int,
            ) + ").\n"@,
        ),
        holds(instance_text(template, items), "stat_cap(charisma, charisma_cap).\n"@),
        holds(instance_text(template, items), "stat_base(charisma_cap, charisma).\n"@),
{
    lemma_acuity_bonus_meets_the_class(template, items, k, j, Stat::Charisma);
    reveal(stat_info);
    reveal_strlit("charisma");
    reveal_strlit("charisma_cap");
    reveal_strlit("class_acuity(");
    reveal_strlit(").\n");
    reveal_strlit(", ");
    reveal_strlit("stat_cap(");
    reveal_strlit("stat_base(");
    reveal_strlit("class_acuity(charisma).\n");
    reveal_strlit(", charisma, ");
    reveal_strlit("stat_cap(charisma, charisma_cap).\n");
    reveal_strlit("stat_base(charisma_cap, charisma).\n");
    assert("class_acuity("@ + "charisma"@ + ").\n"@ =~= "class_acuity(charisma).\n"@);
    assert("stat_cap("@ + "charisma"@ + ", "@ + "charisma_cap"@ + ").\n"@
        =~= "stat_cap(charisma, charisma_cap).\n"@);
    assert("stat_base("@ + "charisma_cap"@ + ", "@ + "charisma"@ + ").\n"@
        =~= "stat_base(charisma_cap, charisma).\n"@);
    assert(", "@ + "charisma"@ + ", "@ =~= ", charisma, "@);
    let id = decimal(items[k].id as int);
    let value = decimal(items[k].bonuses@[j].value as int);
    assert("item_bonus("@ + id + ", "@ + "charisma"@ + ", "@ + value + ").\n"@ =~= "item_bonus("@
        + id + ", charisma, "@ + value + ").\n"@);
}

} // verus!
