//! The attributes of a template: what the items in its slots add up to.
//!
//! Every bonus of every item counts for one stat in one of five groups, or for
//! nothing. A bonus to acuity counts for the attribute that the class casts
//! from, and a bonus to the cap of acuity for the cap of that attribute. What
//! a template has of a cap raises the cap of the attribute, by the cap's own
//! cap at most.

use vstd::prelude::*;

use crate::domain::class::Class;
use crate::domain::item::Item;
use crate::domain::item_bonus::ItemBonus;
use crate::domain::item_slot::ItemSlot;
use crate::domain::stat::{lemma_all_stats_once, lemma_cap_and_base, stat_info, Stat};
use crate::domain::stat_category::StatCategory;
use crate::domain::stat_data::StatData;
use crate::domain::template::Template;

verus! {

/// The groups in which bonuses are added up.
#[derive(Debug, Clone, Copy, PartialEq, Eq, Structural)]
pub enum Bucket {
    /// The attributes of the character.
    Stats,
    /// The cap increases of the attributes.
    Caps,
    /// The resistances.
    Resists,
    /// The skill lines of the class.
    Skills,
    /// The other bonuses.
    Toa,
}

impl Bucket {
    /// The place of the group among the groups.
    pub open spec fn spec_index(&self) -> int {
        match self {
            Bucket::Stats => 0,
            Bucket::Caps => 1,
            Bucket::Resists => 2,
            Bucket::Skills => 3,
            Bucket::Toa => 4,
        }
    }

    /// Returns the place of the group among the groups.
    fn index(&self) -> (index: usize)
        ensures
            index == self.spec_index(),
    {
        match self {
            Bucket::Stats => 0,
            Bucket::Caps => 1,
            Bucket::Resists => 2,
            Bucket::Skills => 3,
            Bucket::Toa => 4,
        }
    }
}

/// Whether the stat `stat` is listed in the group `bucket` for the class
/// `class`, whatever the template holds. The attributes of the body are listed
/// for every class, and of the attributes that casters cast from the one that
/// the class casts from. Of the skill lines those of the class are listed. The
/// other bonuses are listed only where the template has them.
pub open spec fn belongs(class: Class, bucket: Bucket, stat: Stat) -> bool {
    let category = stat.spec_category();
    match bucket {
        Bucket::Stats => category == StatCategory::PhysicalStats || category
            == StatCategory::AcuityStats && class.spec_acuity_stat() == Some(stat),
        Bucket::Caps => category == StatCategory::PhysicalStatCaps || category
            == StatCategory::AcuityStatCaps,
        Bucket::Resists => category == StatCategory::Resists,
        Bucket::Skills => is_other(category) && class.spec_skill_lines().contains(stat),
        Bucket::Toa => category == StatCategory::ToaBonuses && !class.spec_skill_lines().contains(
            stat,
        ),
    }
}

/// Whether the category is none of attributes, caps and resistances.
pub open spec fn is_other(category: StatCategory) -> bool {
    category != StatCategory::PhysicalStats && category != StatCategory::AcuityStats && category
        != StatCategory::PhysicalStatCaps && category != StatCategory::AcuityStatCaps && category
        != StatCategory::Resists
}

/// The stat that a bonus to `stat` counts for with the class `class`: acuity
/// counts for the attribute that the class casts from, the cap of acuity for
/// the cap of that attribute, and every other stat for itself.
pub open spec fn meant(class: Class, stat: Stat) -> Option<Stat> {
    if stat == Stat::Acuity {
        class.spec_acuity_stat()
    } else if stat == Stat::AcuityCap {
        match class.spec_acuity_stat() {
            Some(acuity) => acuity.spec_cap_stat(),
            None => None,
        }
    } else {
        Some(stat)
    }
}

/// The group of the stats of the category `category`.
pub open spec fn bucket_of(category: StatCategory) -> Bucket {
    match category {
        StatCategory::PhysicalStats | StatCategory::AcuityStats => Bucket::Stats,
        StatCategory::PhysicalStatCaps | StatCategory::AcuityStatCaps => Bucket::Caps,
        StatCategory::Resists => Bucket::Resists,
        StatCategory::ToaBonuses => Bucket::Toa,
        _ => Bucket::Skills,
    }
}

/// Where a bonus to `stat` counts with the class `class`, whose skill lines
/// are `lines`: the group and the stat, or `None` where it counts for nothing.
/// An attribute, a cap or a resistance counts in its group for the stat that
/// is meant, where that stat is listed there. Of the other stats a skill line
/// of the class counts as a skill, and what is left counts among the other
/// bonuses where it is of their category.
#[verifier::opaque]
pub open spec fn counts_as(class: Class, lines: Seq<Stat>, stat: Stat) -> Option<(Bucket, Stat)> {
    let category = stat.spec_category();
    if !is_other(category) {
        match meant(class, stat) {
            Some(target) => if belongs(class, bucket_of(category), target) {
                Some((bucket_of(category), target))
            } else {
                None
            },
            None => None,
        }
    } else if lines.contains(stat) {
        Some((Bucket::Skills, stat))
    } else if category == StatCategory::ToaBonuses {
        Some((Bucket::Toa, stat))
    } else {
        None
    }
}

/// How much the bonuses `bonuses` add up to for `stat` in `bucket`.
pub open spec fn total(
    class: Class,
    bonuses: Seq<ItemBonus>,
    bucket: Bucket,
    stat: Stat,
) -> nat
    decreases bonuses.len(),
{
    if bonuses.len() == 0 {
        0
    } else {
        total(class, bonuses.drop_last(), bucket, stat) + if counts_as(
            class,
            class.spec_skill_lines(),
            bonuses.last().stat,
        ) == Some((bucket, stat)) {
            bonuses.last().value as nat
        } else {
            0nat
        }
    }
}

/// Whether any of the bonuses `bonuses` counts for `stat` in `bucket`.
pub open spec fn told(class: Class, bonuses: Seq<ItemBonus>, bucket: Bucket, stat: Stat) -> bool {
    exists|i: int|
        0 <= i < bonuses.len() && counts_as(
            class,
            class.spec_skill_lines(),
            (#[trigger] bonuses[i]).stat,
        ) == Some((bucket, stat))
}

/// The amount `n` as it is shown: amounts beyond the largest that can be
/// shown are shown as the largest.
pub open spec fn shown(n: nat) -> u16 {
    if n > u16::MAX {
        u16::MAX
    } else {
        n as u16
    }
}

/// The bonuses of the items in the slots `listed` of a template with the
/// items `slots`, slot by slot.
pub open spec fn worn_bonuses(slots: Map<ItemSlot, Item>, listed: Seq<ItemSlot>) -> Seq<ItemBonus>
    decreases listed.len(),
{
    if listed.len() == 0 {
        Seq::empty()
    } else {
        worn_bonuses(slots, listed.drop_last()) + if slots.contains_key(listed.last()) {
            slots[listed.last()].bonuses@
        } else {
            Seq::empty()
        }
    }
}

/// The bonuses of all items of a template with the items `slots`.
pub open spec fn all_bonuses(slots: Map<ItemSlot, Item>) -> Seq<ItemBonus> {
    worn_bonuses(slots, ItemSlot::spec_all())
}

/// By how much the bonuses `bonuses` raise the cap of `stat`: by what they add
/// up to for the stat that raises its cap, and by the cap of that stat at
/// most.
pub open spec fn cap_raise(class: Class, bonuses: Seq<ItemBonus>, stat: Stat) -> int {
    match stat.spec_cap_stat() {
        Some(cap) => {
            let had = shown(total(class, bonuses, Bucket::Caps, cap));
            if had <= cap.spec_cap() {
                had as int
            } else {
                cap.spec_cap()
            }
        },
        None => 0,
    }
}

/// The entry of `stat` in `bucket`: what the bonuses add up to for it, and its
/// cap, which for an attribute is raised by what the bonuses add up to for its
/// cap.
pub open spec fn entry(class: Class, bonuses: Seq<ItemBonus>, bucket: Bucket, stat: Stat) -> StatData {
    StatData {
        stat,
        value: shown(total(class, bonuses, bucket, stat)),
        cap: if bucket == Bucket::Stats {
            (stat.spec_cap() + cap_raise(class, bonuses, stat)) as u16
        } else {
            stat.spec_cap() as u16
        },
    }
}

/// Whether `stat` has an entry in `bucket`. The other bonuses have one only
/// where a bonus counts for them.
pub open spec fn listed(class: Class, bonuses: Seq<ItemBonus>, bucket: Bucket, stat: Stat) -> bool {
    belongs(class, bucket, stat) && (bucket == Bucket::Toa ==> told(class, bonuses, bucket, stat))
}

/// The entries in `bucket` of those of the stats `stats` that have one, in
/// the order of `stats`.
pub open spec fn entries(
    class: Class,
    bonuses: Seq<ItemBonus>,
    bucket: Bucket,
    stats: Seq<Stat>,
) -> Seq<StatData>
    decreases stats.len(),
{
    if stats.len() == 0 {
        Seq::empty()
    } else if listed(class, bonuses, bucket, stats.last()) {
        entries(class, bonuses, bucket, stats.drop_last()).push(
            entry(class, bonuses, bucket, stats.last()),
        )
    } else {
        entries(class, bonuses, bucket, stats.drop_last())
    }
}

/// The attributes of a template, group by group. Each group lists its stats
/// by rising identifier.
#[derive(Debug, Clone, PartialEq, Eq)]
pub struct ComputedAttributes {
    /// The attributes of the character, with their raised caps.
    pub stats: Vec<StatData>,
    /// The resistances.
    pub resists: Vec<StatData>,
    /// The skill lines of the class.
    pub skills: Vec<StatData>,
    /// The other bonuses that the template has.
    pub toa: Vec<StatData>,
}

/// The number of places for stats in a tally: one for each identifier.
pub const STAT_PLACES: usize = 255;

/// The place of `stat` in `bucket` in a tally.
pub open spec fn place(bucket: Bucket, stat: Stat) -> int {
    bucket.spec_index() * 255 + stat.spec_id()
}

/// Tells whether `stat` is among `lines`.
fn has_line(lines: &Vec<Stat>, stat: Stat) -> (has: bool)
    ensures
        has == lines@.contains(stat),
{
    let mut i: usize = 0;
    while i < lines.len()
        invariant
            i <= lines@.len(),
            forall|j: int| 0 <= j < i ==> lines@[j] != stat,
        decreases lines@.len() - i,
    {
        if lines[i] == stat {
            return true;
        }
        i += 1;
    }
    false
}

/// Tells whether the category is none of attributes, caps and resistances.
fn other(category: StatCategory) -> (is: bool)
    ensures
        is == is_other(category),
{
    match category {
        StatCategory::PhysicalStats
        | StatCategory::AcuityStats
        | StatCategory::PhysicalStatCaps
        | StatCategory::AcuityStatCaps
        | StatCategory::Resists => false,
        _ => true,
    }
}

/// Tells whether `stat` is listed in `bucket` for the class `class`, whose
/// skill lines are `lines`.
fn belongs_to(class: Class, lines: &Vec<Stat>, bucket: Bucket, stat: Stat) -> (is: bool)
    requires
        lines@ == class.spec_skill_lines(),
    ensures
        is == belongs(class, bucket, stat),
{
    let category = stat.category();
    match bucket {
        Bucket::Stats => match category {
            StatCategory::PhysicalStats => true,
            StatCategory::AcuityStats => match class.acuity_stat() {
                Some(acuity) => acuity == stat,
                None => false,
            },
            _ => false,
        },
        Bucket::Caps => match category {
            StatCategory::PhysicalStatCaps | StatCategory::AcuityStatCaps => true,
            _ => false,
        },
        Bucket::Resists => match category {
            StatCategory::Resists => true,
            _ => false,
        },
        Bucket::Skills => other(category) && has_line(lines, stat),
        Bucket::Toa => match category {
            StatCategory::ToaBonuses => !has_line(lines, stat),
            _ => false,
        },
    }
}

/// Finds where a bonus to `stat` counts with the class `class`, whose skill
/// lines are `lines`.
fn target(class: Class, lines: &Vec<Stat>, stat: Stat) -> (found: Option<(Bucket, Stat)>)
    requires
        lines@ == class.spec_skill_lines(),
    ensures
        found == counts_as(class, lines@, stat),
{
    reveal(counts_as);
    let category = stat.category();
    if !other(category) {
        let bucket = match category {
            StatCategory::PhysicalStats | StatCategory::AcuityStats => Bucket::Stats,
            StatCategory::PhysicalStatCaps | StatCategory::AcuityStatCaps => Bucket::Caps,
            _ => Bucket::Resists,
        };
        let aimed = match stat {
            Stat::Acuity => class.acuity_stat(),
            Stat::AcuityCap => match class.acuity_stat() {
                Some(acuity) => acuity.cap_stat(),
                None => None,
            },
            _ => Some(stat),
        };
        match aimed {
            Some(aim) => if belongs_to(class, lines, bucket, aim) {
                Some((bucket, aim))
            } else {
                None
            },
            None => None,
        }
    } else if has_line(lines, stat) {
        Some((Bucket::Skills, stat))
    } else {
        match category {
            StatCategory::ToaBonuses => Some((Bucket::Toa, stat)),
            _ => None,
        }
    }
}

/// What has been added up of some bonuses: for each stat in each group the
/// amount as it is shown, and whether any bonus counted for it.
struct Tally {
    sums: Vec<u16>,
    seen: Vec<bool>,
}

impl Tally {
    /// Whether the tally is that of the bonuses `bonuses` for the class
    /// `class`.
    spec fn is_of(&self, class: Class, bonuses: Seq<ItemBonus>) -> bool {
        &&& self.sums@.len() == 5 * 255
        &&& self.seen@.len() == 5 * 255
        &&& forall|bucket: Bucket, stat: Stat|
            self.sums@[#[trigger] place(bucket, stat)] == shown(
                total(class, bonuses, bucket, stat),
            )
        &&& forall|bucket: Bucket, stat: Stat|
            self.seen@[#[trigger] place(bucket, stat)] == told(class, bonuses, bucket, stat)
    }

    /// Makes the tally of no bonuses.
    fn new(class: Ghost<Class>) -> (tally: Tally)
        ensures
            tally.is_of(class@, Seq::empty()),
    {
        let mut sums: Vec<u16> = Vec::new();
        let mut seen: Vec<bool> = Vec::new();
        let mut i: usize = 0;
        while i < 5 * STAT_PLACES
            invariant
                i <= 5 * STAT_PLACES,
                sums@.len() == i,
                seen@.len() == i,
                forall|j: int| 0 <= j < i ==> sums@[j] == 0 && !seen@[j],
            decreases 5 * STAT_PLACES - i,
        {
            sums.push(0);
            seen.push(false);
            i += 1;
        }
        Tally { sums, seen }
    }

    /// Adds the bonus `bonus` to the tally.
    fn add(
        &mut self,
        class: Class,
        lines: &Vec<Stat>,
        bonus: &ItemBonus,
        bonuses: Ghost<Seq<ItemBonus>>,
    )
        requires
            lines@ == class.spec_skill_lines(),
            old(self).is_of(class, bonuses@),
        ensures
            final(self).is_of(class, bonuses@.push(*bonus)),
    {
        let found = target(class, lines, bonus.stat);
        match found {
            Some((bucket, stat)) => {
                let at = bucket.index() * STAT_PLACES + stat.id() as usize;
                let sum = self.sums[at].saturating_add(bonus.value);
                self.sums.set(at, sum);
                self.seen.set(at, true);
                proof {
                    lemma_counted(*old(self), *self, class, bonuses@, *bonus, bucket, stat);
                }
            },
            None => {
                proof {
                    lemma_passed_over(*self, class, bonuses@, *bonus);
                }
            },
        }
    }

    /// Returns the entry of `stat` in `bucket`, if it has one.
    fn entry(
        &self,
        class: Class,
        lines: &Vec<Stat>,
        bucket: Bucket,
        stat: Stat,
        bonuses: Ghost<Seq<ItemBonus>>,
    ) -> (data: Option<StatData>)
        requires
            lines@ == class.spec_skill_lines(),
            self.is_of(class, bonuses@),
        ensures
            data == (if listed(class, bonuses@, bucket, stat) {
                Some(entry(class, bonuses@, bucket, stat))
            } else {
                None
            }),
    {
        if !belongs_to(class, lines, bucket, stat) {
            return None;
        }
        let at = bucket.index() * STAT_PLACES + stat.id() as usize;
        assert(at == place(bucket, stat));
        let cap = match bucket {
            Bucket::Toa => {
                if !self.seen[at] {
                    return None;
                }
                stat.cap()
            },
            Bucket::Stats => match stat.cap_stat() {
                Some(raiser) => {
                    let from = Bucket::Caps.index() * STAT_PLACES + raiser.id() as usize;
                    assert(from == place(Bucket::Caps, raiser));
                    let had = self.sums[from];
                    let most = raiser.cap();
                    if had <= most {
                        stat.cap() + had
                    } else {
                        stat.cap() + most
                    }
                },
                None => stat.cap(),
            },
            _ => stat.cap(),
        };
        Some(StatData { stat, value: self.sums[at], cap })
    }

    /// Returns the entries in `bucket` of the stats that have one, by rising
    /// identifier.
    fn entries(
        &self,
        class: Class,
        lines: &Vec<Stat>,
        bucket: Bucket,
        stats: &Vec<Stat>,
        bonuses: Ghost<Seq<ItemBonus>>,
    ) -> (list: Vec<StatData>)
        requires
            lines@ == class.spec_skill_lines(),
            self.is_of(class, bonuses@),
        ensures
            list@ == entries(class, bonuses@, bucket, stats@),
    {
        let mut list: Vec<StatData> = Vec::new();
        let mut i: usize = 0;
        while i < stats.len()
            invariant
                i <= stats@.len(),
                lines@ == class.spec_skill_lines(),
                self.is_of(class, bonuses@),
                list@ == entries(class, bonuses@, bucket, stats@.take(i as int)),
            decreases stats@.len() - i,
        {
            proof {
                let next = stats@.take(i as int + 1);
                assert(next.drop_last() =~= stats@.take(i as int));
                assert(next.last() == stats@[i as int]);
            }
            match self.entry(class, lines, bucket, stats[i], bonuses) {
                Some(data) => {
                    list.push(data);
                },
                None => {},
            }
            i += 1;
        }
        assert(stats@.take(i as int) =~= stats@);
        list
    }
}

/// A tally to which a bonus that counts for `stat` in `bucket` was added is
/// the tally of the bonuses with that one more.
proof fn lemma_counted(
    before: Tally,
    after: Tally,
    class: Class,
    bonuses: Seq<ItemBonus>,
    bonus: ItemBonus,
    bucket: Bucket,
    stat: Stat,
)
    requires
        before.is_of(class, bonuses),
        counts_as(class, class.spec_skill_lines(), bonus.stat) == Some((bucket, stat)),
        after.sums@ == before.sums@.update(
            place(bucket, stat),
            if before.sums@[place(bucket, stat)] + bonus.value > u16::MAX {
                u16::MAX
            } else {
                (before.sums@[place(bucket, stat)] + bonus.value) as u16
            },
        ),
        after.seen@ == before.seen@.update(place(bucket, stat), true),
    ensures
        after.is_of(class, bonuses.push(bonus)),
{
    let next = bonuses.push(bonus);
    lemma_place_tells(bucket, stat, bucket, stat);
    assert forall|b: Bucket, s: Stat|
        after.sums@[#[trigger] place(b, s)] == shown(total(class, next, b, s)) by {
        lemma_total_push(class, bonuses, bonus, b, s);
        lemma_place_tells(b, s, bucket, stat);
        assert(before.sums@[place(b, s)] == shown(total(class, bonuses, b, s)));
    }
    assert forall|b: Bucket, s: Stat|
        after.seen@[#[trigger] place(b, s)] == told(class, next, b, s) by {
        lemma_told_push(class, bonuses, bonus, b, s);
        lemma_place_tells(b, s, bucket, stat);
        assert(before.seen@[place(b, s)] == told(class, bonuses, b, s));
    }
}

/// A tally is that of its bonuses and one more that counts for nothing.
proof fn lemma_passed_over(tally: Tally, class: Class, bonuses: Seq<ItemBonus>, bonus: ItemBonus)
    requires
        tally.is_of(class, bonuses),
        counts_as(class, class.spec_skill_lines(), bonus.stat) is None,
    ensures
        tally.is_of(class, bonuses.push(bonus)),
{
    let next = bonuses.push(bonus);
    assert forall|b: Bucket, s: Stat|
        tally.sums@[#[trigger] place(b, s)] == shown(total(class, next, b, s)) by {
        lemma_total_push(class, bonuses, bonus, b, s);
        assert(tally.sums@[place(b, s)] == shown(total(class, bonuses, b, s)));
    }
    assert forall|b: Bucket, s: Stat|
        tally.seen@[#[trigger] place(b, s)] == told(class, next, b, s) by {
        lemma_told_push(class, bonuses, bonus, b, s);
        assert(tally.seen@[place(b, s)] == told(class, bonuses, b, s));
    }
}

/// Two places in a tally are the same only for the same stat in the same
/// group, and every place lies within the tally.
proof fn lemma_place_tells(b: Bucket, s: Stat, bucket: Bucket, stat: Stat)
    ensures
        0 <= place(b, s) < 5 * 255,
        place(b, s) == place(bucket, stat) <==> b == bucket && s == stat,
{
    assert(1 <= s.spec_id() <= 254);
    assert(1 <= stat.spec_id() <= 254);
    if s.spec_id() == stat.spec_id() {
        assert(s == stat);
    }
}

/// What some bonuses and one more add up to is what the first add up to and,
/// where the one more counts for the stat, its value.
proof fn lemma_total_push(
    class: Class,
    bonuses: Seq<ItemBonus>,
    bonus: ItemBonus,
    bucket: Bucket,
    stat: Stat,
)
    ensures
        total(class, bonuses.push(bonus), bucket, stat) == total(class, bonuses, bucket, stat)
            + if counts_as(class, class.spec_skill_lines(), bonus.stat) == Some((bucket, stat)) {
            bonus.value as nat
        } else {
            0nat
        },
{
    let next = bonuses.push(bonus);
    assert(next.drop_last() =~= bonuses);
    assert(next.last() == bonus);
}

/// A bonus counts for a stat among some bonuses and one more where it counts
/// among the first, or where the one more counts for the stat.
proof fn lemma_told_push(
    class: Class,
    bonuses: Seq<ItemBonus>,
    bonus: ItemBonus,
    bucket: Bucket,
    stat: Stat,
)
    ensures
        told(class, bonuses.push(bonus), bucket, stat) == (told(class, bonuses, bucket, stat)
            || counts_as(class, class.spec_skill_lines(), bonus.stat) == Some((bucket, stat))),
{
    let next = bonuses.push(bonus);
    if told(class, bonuses, bucket, stat) {
        let i = choose|i: int|
            0 <= i < bonuses.len() && counts_as(
                class,
                class.spec_skill_lines(),
                (#[trigger] bonuses[i]).stat,
            ) == Some((bucket, stat));
        assert(next[i] == bonuses[i]);
    }
    if counts_as(class, class.spec_skill_lines(), bonus.stat) == Some((bucket, stat)) {
        assert(next[bonuses.len() as int] == bonus);
    }
    if told(class, next, bucket, stat) {
        let i = choose|i: int|
            0 <= i < next.len() && counts_as(
                class,
                class.spec_skill_lines(),
                (#[trigger] next[i]).stat,
            ) == Some((bucket, stat));
        if i < bonuses.len() {
            assert(bonuses[i] == next[i]);
        }
    }
}

/// A bonus to the attribute that a class casts from counts for that
/// attribute, and so does a bonus to acuity; a bonus to an attribute that only
/// other classes cast from counts for nothing. A bonus to the cap of acuity
/// counts for the cap of the attribute that the class casts from, which is the
/// stat that raises the cap of that attribute.
pub proof fn lemma_acuity_counts_for_the_class(class: Class, stat: Stat)
    ensures
        stat.spec_category() == StatCategory::AcuityStats ==> counts_as(
            class,
            class.spec_skill_lines(),
            stat,
        ) == (if stat == Stat::Acuity {
            match class.spec_acuity_stat() {
                Some(acuity) => Some((Bucket::Stats, acuity)),
                None => None,
            }
        } else if class.spec_acuity_stat() == Some(stat) {
            Some((Bucket::Stats, stat))
        } else {
            None
        }),
        counts_as(class, class.spec_skill_lines(), Stat::AcuityCap) == (
        match class.spec_acuity_stat() {
            Some(acuity) => Some((Bucket::Caps, acuity.spec_cap_stat()->0)),
            None => None,
        }),
        class.spec_acuity_stat() is Some ==> class.spec_acuity_stat()->0.spec_cap_stat() is Some
            && class.spec_acuity_stat()->0.spec_cap_stat()->0.spec_base_stat()
            == class.spec_acuity_stat(),
{
    reveal(counts_as);
    match class.spec_acuity_stat() {
        Some(acuity) => {
            lemma_cap_and_base(acuity, acuity.spec_cap_stat()->0);
        },
        None => {},
    }
}

/// The entries of a group are those of the stats that have one: every entry
/// is the entry of a stat of `stats` that is listed in the group, and every
/// stat of `stats` that is listed has its entry.
pub proof fn lemma_entries_are_of_the_listed(
    class: Class,
    bonuses: Seq<ItemBonus>,
    bucket: Bucket,
    stats: Seq<Stat>,
)
    ensures
        forall|i: int|
            0 <= i < entries(class, bonuses, bucket, stats).len() ==> {
                let data = #[trigger] entries(class, bonuses, bucket, stats)[i];
                &&& stats.contains(data.stat)
                &&& listed(class, bonuses, bucket, data.stat)
                &&& data == entry(class, bonuses, bucket, data.stat)
            },
        forall|k: int|
            0 <= k < stats.len() && listed(class, bonuses, bucket, #[trigger] stats[k]) ==> entries(
                class,
                bonuses,
                bucket,
                stats,
            ).contains(entry(class, bonuses, bucket, stats[k])),
    decreases stats.len(),
{
    if stats.len() > 0 {
        let front = stats.drop_last();
        let last = stats.last();
        lemma_entries_are_of_the_listed(class, bonuses, bucket, front);
        let before = entries(class, bonuses, bucket, front);
        let all = entries(class, bonuses, bucket, stats);
        assert forall|i: int| 0 <= i < all.len() implies {
            let data = #[trigger] all[i];
            &&& stats.contains(data.stat)
            &&& listed(class, bonuses, bucket, data.stat)
            &&& data == entry(class, bonuses, bucket, data.stat)
        } by {
            if i < before.len() {
                assert(all[i] == before[i]);
                let at = choose|at: int| 0 <= at < front.len() && front[at] == before[i].stat;
                assert(stats[at] == front[at]);
            } else {
                assert(all[i] == entry(class, bonuses, bucket, last));
                assert(stats[stats.len() - 1] == last);
            }
        }
        assert forall|k: int|
            0 <= k < stats.len() && listed(
                class,
                bonuses,
                bucket,
                #[trigger] stats[k],
            ) implies all.contains(entry(class, bonuses, bucket, stats[k])) by {
            if k < front.len() {
                assert(front[k] == stats[k]);
                let wanted = entry(class, bonuses, bucket, front[k]);
                assert(before.contains(wanted));
                let i = choose|i: int| 0 <= i < before.len() && before[i] == wanted;
                assert(all[i] == wanted);
            } else {
                assert(stats[k] == last);
                assert(all[all.len() - 1] == entry(class, bonuses, bucket, last));
            }
        }
    }
}

/// Of the attributes that casters cast from, the attributes list only the
/// one that the class casts from: no other has an entry, whatever the items
/// grant.
pub proof fn lemma_only_the_own_attribute_is_listed(
    class: Class,
    bonuses: Seq<ItemBonus>,
    stats: Seq<Stat>,
    stat: Stat,
)
    requires
        stat.spec_category() == StatCategory::AcuityStats,
        class.spec_acuity_stat() != Some(stat),
    ensures
        !listed(class, bonuses, Bucket::Stats, stat),
        forall|i: int|
            0 <= i < entries(class, bonuses, Bucket::Stats, stats).len() ==> (#[trigger] entries(
                class,
                bonuses,
                Bucket::Stats,
                stats,
            )[i]).stat != stat,
{
    lemma_entries_are_of_the_listed(class, bonuses, Bucket::Stats, stats);
}

/// The bonuses of a template with one item are the bonuses of that item.
pub proof fn lemma_one_item_is_worn(slots: Map<ItemSlot, Item>, slot: ItemSlot, listed: Seq<ItemSlot>)
    requires
        slots.contains_key(slot),
        forall|other: ItemSlot| other != slot ==> !slots.contains_key(other),
        forall|i: int, j: int| 0 <= i < j < listed.len() ==> listed[i] != listed[j],
    ensures
        worn_bonuses(slots, listed) == if listed.contains(slot) {
            slots[slot].bonuses@
        } else {
            Seq::<ItemBonus>::empty()
        },
    decreases listed.len(),
{
    if listed.len() > 0 {
        let front = listed.drop_last();
        assert forall|i: int, j: int| 0 <= i < j < front.len() implies front[i] != front[j] by {
            assert(front[i] == listed[i] && front[j] == listed[j]);
        }
        lemma_one_item_is_worn(slots, slot, front);
        let none = Seq::<ItemBonus>::empty();
        if listed.last() == slot {
            assert(listed[listed.len() - 1] == slot);
            if front.contains(slot) {
                let i = choose|i: int| 0 <= i < front.len() && front[i] == slot;
                assert(listed[i] == listed[listed.len() - 1]);
            }
            assert(none + slots[slot].bonuses@ =~= slots[slot].bonuses@);
        } else {
            if front.contains(slot) {
                let i = choose|i: int| 0 <= i < front.len() && front[i] == slot;
                assert(listed[i] == slot);
                assert(slots[slot].bonuses@ + none =~= slots[slot].bonuses@);
            } else {
                if listed.contains(slot) {
                    let i = choose|i: int| 0 <= i < listed.len() && listed[i] == slot;
                    assert(front[i] == slot);
                }
                assert(none + none =~= none);
            }
        }
    } else {
        assert(!listed.contains(slot));
    }
}

/// A bard who wears one item that grants 10 of charisma has 10 of charisma
/// with the cap of charisma, which is 75, and no entry for any other attribute
/// that casters cast from.
pub proof fn lemma_bard_with_one_charisma_item(slots: Map<ItemSlot, Item>, slot: ItemSlot)
    requires
        slots.contains_key(slot),
        forall|other: ItemSlot| other != slot ==> !slots.contains_key(other),
        slots[slot].bonuses@ == seq![ItemBonus { stat: Stat::Charisma, value: 10 }],
    ensures
        entries(Class::Bard, all_bonuses(slots), Bucket::Stats, Stat::spec_all()).contains(
            StatData { stat: Stat::Charisma, value: 10, cap: 75 },
        ),
        forall|i: int|
            0 <= i < entries(
                Class::Bard,
                all_bonuses(slots),
                Bucket::Stats,
                Stat::spec_all(),
            ).len() ==> {
                let data = #[trigger] entries(
                    Class::Bard,
                    all_bonuses(slots),
                    Bucket::Stats,
                    Stat::spec_all(),
                )[i];
                data.stat != Stat::Intelligence && data.stat != Stat::Piety && data.stat
                    != Stat::Empathy && data.stat != Stat::Acuity
            },
{
    let class = Class::Bard;
    let all = ItemSlot::spec_all();
    let bonus = ItemBonus { stat: Stat::Charisma, value: 10 };
    assert(all[slot.spec_index()] == slot);
    lemma_one_item_is_worn(slots, slot, all);
    let bonuses = all_bonuses(slots);
    assert(bonuses == seq![bonus]);
    assert(bonuses.drop_last() =~= Seq::<ItemBonus>::empty());
    assert(bonuses.last() == bonus);
    reveal(counts_as);
    reveal(stat_info);
    assert(total(class, bonuses.drop_last(), Bucket::Stats, Stat::Charisma) == 0);
    assert(total(class, bonuses, Bucket::Stats, Stat::Charisma) == 10);
    assert(total(class, bonuses.drop_last(), Bucket::Caps, Stat::CharismaCap) == 0);
    assert(total(class, bonuses, Bucket::Caps, Stat::CharismaCap) == 0);
    assert(entry(class, bonuses, Bucket::Stats, Stat::Charisma) == StatData {
        stat: Stat::Charisma,
        value: 10,
        cap: 75,
    });
    lemma_all_stats_once(Stat::Charisma);
    let stats = Stat::spec_all();
    let k = choose|k: int| 0 <= k < stats.len() && stats[k] == Stat::Charisma;
    lemma_entries_are_of_the_listed(class, bonuses, Bucket::Stats, stats);
    assert(listed(class, bonuses, Bucket::Stats, stats[k]));
    lemma_only_the_own_attribute_is_listed(class, bonuses, stats, Stat::Intelligence);
    lemma_only_the_own_attribute_is_listed(class, bonuses, stats, Stat::Piety);
    lemma_only_the_own_attribute_is_listed(class, bonuses, stats, Stat::Empathy);
    lemma_only_the_own_attribute_is_listed(class, bonuses, stats, Stat::Acuity);
}

/// Adds up what the items of `template` grant, for the class of the template:
/// the attributes with their raised caps, the resistances, the skill lines of
/// the class, and the other bonuses that the template has. An amount beyond
/// 65535 is shown as 65535.
pub fn compute_attributes(template: &Template) -> (computed: ComputedAttributes)
    ensures
        computed.stats@ == entries(
            template.spec_class(),
            all_bonuses(template@),
            Bucket::Stats,
            Stat::spec_all(),
        ),
        computed.resists@ == entries(
            template.spec_class(),
            all_bonuses(template@),
            Bucket::Resists,
            Stat::spec_all(),
        ),
        computed.skills@ == entries(
            template.spec_class(),
            all_bonuses(template@),
            Bucket::Skills,
            Stat::spec_all(),
        ),
        computed.toa@ == entries(
            template.spec_class(),
            all_bonuses(template@),
            Bucket::Toa,
            Stat::spec_all(),
        ),
{
    let class = template.class();
    let lines = class.skill_lines();
    let slots = ItemSlot::all();
    let mut tally = Tally::new(Ghost(class));
    let ghost mut done: Seq<ItemBonus> = Seq::empty();
    let mut i: usize = 0;
    while i < slots.len()
        invariant
            i <= slots@.len(),
            lines@ == class.spec_skill_lines(),
            class == template.spec_class(),
            done == worn_bonuses(template@, slots@.take(i as int)),
            tally.is_of(class, done),
        decreases slots@.len() - i,
    {
        let ghost before = done;
        proof {
            let next = slots@.take(i as int + 1);
            assert(next.drop_last() =~= slots@.take(i as int));
            assert(next.last() == slots@[i as int]);
        }
        match template.get_item(&slots[i]) {
            Some(item) => {
                let mut k: usize = 0;
                while k < item.bonuses.len()
                    invariant
                        k <= item.bonuses@.len(),
                        lines@ == class.spec_skill_lines(),
                        done == before + item.bonuses@.take(k as int),
                        tally.is_of(class, done),
                    decreases item.bonuses@.len() - k,
                {
                    tally.add(class, &lines, &item.bonuses[k], Ghost(done));
                    proof {
                        done = done.push(item.bonuses@[k as int]);
                        assert(done =~= before + item.bonuses@.take(k as int + 1));
                    }
                    k += 1;
                }
                proof {
                    assert(item.bonuses@.take(k as int) =~= item.bonuses@);
                }
            },
            None => {
                proof {
                    assert(done =~= before + Seq::<ItemBonus>::empty());
                }
            },
        }
        i += 1;
    }
    proof {
        assert(slots@.take(i as int) =~= slots@);
    }
    let stats = Stat::all();
    ComputedAttributes {
        stats: tally.entries(class, &lines, Bucket::Stats, &stats, Ghost(done)),
        resists: tally.entries(class, &lines, Bucket::Resists, &stats, Ghost(done)),
        skills: tally.entries(class, &lines, Bucket::Skills, &stats, Ghost(done)),
        toa: tally.entries(class, &lines, Bucket::Toa, &stats, Ghost(done)),
    }
}

} // verus!
