use std::sync::Arc;

use templess::domain::attributes::compute_attributes;
use templess::domain::class::Class;
use templess::domain::item::Item;
use templess::domain::item_bonus::ItemBonus;
use templess::domain::item_slot::ItemSlot;
use templess::domain::item_type::ItemSlot as ItemType;
use templess::domain::realm::Realm;
use templess::domain::stat::Stat;
use templess::domain::stat_data::StatData;
use templess::domain::template::Template;

fn worn(id: i32, slot: ItemSlot, bonuses: Vec<(Stat, u16)>) -> Arc<Item> {
    Arc::new(Item {
        id,
        name: format!("item {}", id),
        model: 0,
        object_type: ItemType::Magical,
        item_slot: slot,
        level: 50,
        quality: 100,
        weapon_hand: 0,
        weapon_speed: 0,
        damage_type: 0,
        realm: Realm::All,
        required_level: 0,
        bonus_level: 0,
        shield_size: 0,
        instrument_type: 0,
        is_tradable: true,
        allowed_classes: vec![],
        bonuses: bonuses.into_iter().map(|(stat, value)| ItemBonus { stat, value }).collect(),
        proc1_json: None,
        proc2_json: None,
        use1_json: None,
        use2_json: None,
        passive_json: None,
        react1_json: None,
        react2_json: None,
    })
}

fn entry(list: &[StatData], stat: Stat) -> Option<(u16, u16)> {
    list.iter().find(|d| d.stat == stat).map(|d| (d.value, d.cap))
}

#[test]
fn stat_data_starts_at_zero_with_the_cap_of_the_stat() {
    assert_eq!(StatData::new(Stat::Strength), StatData { stat: Stat::Strength, value: 0, cap: 75 });
    assert_eq!(StatData::new(Stat::Hitpoints), StatData { stat: Stat::Hitpoints, value: 0, cap: 200 });
}

#[test]
fn empty_template_lists_attributes_resists_and_skills_at_zero() {
    let computed = compute_attributes(&Template::new(Class::Bard));
    let stats: Vec<Stat> = computed.stats.iter().map(|d| d.stat).collect();
    assert_eq!(
        stats,
        vec![
            Stat::Strength,
            Stat::Dexterity,
            Stat::Constitution,
            Stat::Quickness,
            Stat::Charisma,
            Stat::Hitpoints,
        ]
    );
    assert!(computed.stats.iter().all(|d| d.value == 0 && d.cap == d.stat.cap()));
    assert_eq!(computed.resists.len(), 10);
    assert_eq!(computed.resists[0], StatData { stat: Stat::BodyResist, value: 0, cap: 26 });
    let skills: Vec<Stat> = computed.skills.iter().map(|d| d.stat).collect();
    assert_eq!(skills, vec![Stat::Blade, Stat::Blunt, Stat::Regrowth, Stat::Nurture, Stat::Music]);
    assert!(computed.toa.is_empty());
}

#[test]
fn bard_counts_charisma_and_acuity_for_charisma() {
    let mut template = Template::new(Class::Bard);
    template.set_item(
        ItemSlot::Head,
        worn(1, ItemSlot::Head, vec![(Stat::Charisma, 10), (Stat::Intelligence, 7), (Stat::Strength, 3)]),
    );
    template.set_item(
        ItemSlot::Ring,
        worn(2, ItemSlot::Ring, vec![(Stat::Acuity, 5), (Stat::AcuityCap, 4), (Stat::CharismaCap, 30)]),
    );
    let computed = compute_attributes(&template);
    assert_eq!(entry(&computed.stats, Stat::Charisma), Some((15, 75 + 26)));
    assert_eq!(entry(&computed.stats, Stat::Strength), Some((3, 75)));
    assert_eq!(entry(&computed.stats, Stat::Intelligence), None);
    assert_eq!(entry(&computed.stats, Stat::Acuity), None);
}

#[test]
fn cap_bonus_raises_the_cap_of_its_attribute_up_to_its_own_cap() {
    let mut template = Template::new(Class::Armsman);
    template.set_item(
        ItemSlot::Chest,
        worn(1, ItemSlot::Chest, vec![(Stat::StrengthCap, 5), (Stat::HitpointsCap, 250), (Stat::Acuity, 9)]),
    );
    template.set_item(ItemSlot::Legs, worn(2, ItemSlot::Legs, vec![(Stat::StrengthCap, 6)]));
    let computed = compute_attributes(&template);
    assert_eq!(entry(&computed.stats, Stat::Strength), Some((0, 75 + 11)));
    assert_eq!(entry(&computed.stats, Stat::Hitpoints), Some((0, 200 + 200)));
    assert_eq!(entry(&computed.stats, Stat::Dexterity), Some((0, 75)));
    assert_eq!(computed.stats.len(), 5);
}

#[test]
fn resists_skills_and_other_bonuses_add_up() {
    let mut template = Template::new(Class::Bard);
    template.set_item(
        ItemSlot::Cloak,
        worn(
            1,
            ItemSlot::Cloak,
            vec![
                (Stat::HeatResist, 5),
                (Stat::Music, 3),
                (Stat::Fire, 4),
                (Stat::SpellRange, 2),
                (Stat::Fatigue, 9),
            ],
        ),
    );
    template.set_item(
        ItemSlot::Belt,
        worn(2, ItemSlot::Belt, vec![(Stat::HeatResist, 6), (Stat::Music, 1), (Stat::SpellRange, 0), (Stat::PowerPoolCap, 1)]),
    );
    let computed = compute_attributes(&template);
    assert_eq!(entry(&computed.resists, Stat::HeatResist), Some((11, 26)));
    assert_eq!(entry(&computed.resists, Stat::ColdResist), Some((0, 26)));
    assert_eq!(entry(&computed.skills, Stat::Music), Some((4, 11)));
    assert_eq!(entry(&computed.skills, Stat::Fire), None);
    assert_eq!(
        computed.toa,
        vec![
            StatData { stat: Stat::SpellRange, value: 2, cap: 25 },
            StatData { stat: Stat::PowerPoolCap, value: 1, cap: 26 },
        ]
    );
}

#[test]
fn amounts_beyond_the_largest_are_shown_as_the_largest() {
    let mut template = Template::new(Class::Hero);
    template.set_item(
        ItemSlot::Head,
        worn(1, ItemSlot::Head, vec![(Stat::Strength, 65000), (Stat::Strength, 65000), (Stat::Strength, 1)]),
    );
    let computed = compute_attributes(&template);
    assert_eq!(entry(&computed.stats, Stat::Strength), Some((65535, 75)));
}

#[test]
fn bard_with_one_charisma_item_has_charisma_ten_of_seventy_five() {
    let mut template = Template::new(Class::Bard);
    template.set_item(ItemSlot::Head, worn(1, ItemSlot::Head, vec![(Stat::Charisma, 10)]));
    let computed = compute_attributes(&template);
    assert_eq!(entry(&computed.stats, Stat::Charisma), Some((10, 75)));
    for other in [Stat::Intelligence, Stat::Piety, Stat::Empathy, Stat::Acuity] {
        assert_eq!(entry(&computed.stats, other), None);
    }
    assert_eq!(
        computed.stats,
        vec![
            StatData { stat: Stat::Strength, value: 0, cap: 75 },
            StatData { stat: Stat::Dexterity, value: 0, cap: 75 },
            StatData { stat: Stat::Constitution, value: 0, cap: 75 },
            StatData { stat: Stat::Quickness, value: 0, cap: 75 },
            StatData { stat: Stat::Charisma, value: 10, cap: 75 },
            StatData { stat: Stat::Hitpoints, value: 0, cap: 200 },
        ]
    );
    assert!(computed.toa.is_empty());
    assert!(computed.skills.iter().all(|d| d.value == 0));
    assert!(computed.resists.iter().all(|d| d.value == 0));
}
