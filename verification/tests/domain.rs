use std::sync::Arc;

use templess::domain::class::Class;
use templess::domain::item::Item;
use templess::domain::item_bonus::ItemBonus;
use templess::domain::item_slot::{ItemSlot, SLOT_COUNT};
use templess::domain::item_type::ItemSlot as ItemType;
use templess::domain::realm::Realm;
use templess::domain::stat::{Stat, MAX_STAT_ID};
use templess::domain::stat_category::StatCategory;
use templess::domain::template::{find_item, Template, UNTITLED};

fn item(id: i32, name: &str, slot: ItemSlot, bonuses: Vec<ItemBonus>) -> Arc<Item> {
    Arc::new(Item {
        id,
        name: name.to_string(),
        model: 0,
        object_type: ItemType::Magical,
        item_slot: slot,
        level: 50,
        quality: 100,
        weapon_hand: 0,
        weapon_speed: 0,
        damage_type: 0,
        realm: Realm::All,
        required_level: 0,
        bonus_level: 0,
        shield_size: 0,
        instrument_type: 0,
        is_tradable: true,
        allowed_classes: vec![],
        bonuses,
        proc1_json: None,
        proc2_json: None,
        use1_json: None,
        use2_json: None,
        passive_json: None,
        react1_json: None,
        react2_json: None,
    })
}

#[test]
fn realm_ids_and_back() {
    assert_eq!(Realm::All.id(), 0);
    assert_eq!(Realm::Albion.id(), 1);
    assert_eq!(Realm::Midgard.id(), 2);
    assert_eq!(Realm::Hibernia.id(), 3);
    for id in 0u16..4 {
        assert_eq!(Realm::from_repr(id).map(|r| r.id()), Some(id));
    }
    assert_eq!(Realm::from_repr(4), None);
    assert_eq!(u16::from(Realm::Midgard), 2);
}

#[test]
fn class_ids_realms_and_names() {
    assert_eq!(Class::Paladin.id(), 1);
    assert_eq!(Class::Reaver.id(), 19);
    assert_eq!(Class::Heretic.id(), 33);
    assert_eq!(Class::Warlock.id(), 59);
    assert_eq!(Class::Banshee.id(), 39);
    assert_eq!(Class::Valewalker.id(), 56);
    assert_eq!(Class::Paladin.realm(), &Realm::Albion);
    assert_eq!(Class::Warlock.realm(), &Realm::Midgard);
    assert_eq!(Class::Bard.realm(), &Realm::Hibernia);
    assert_eq!(Class::Bard.name(), "bard");
    assert_eq!(Class::Spiritmaster.name(), "spiritmaster");
    assert_eq!(Class::from_repr(48), Some(Class::Bard));
    assert_eq!(Class::from_repr(0), None);
    assert_eq!(Class::from_repr(14), None);
    assert_eq!(Class::from_repr(60), None);
}

#[test]
fn class_from_repr_inverts_id() {
    let mut found = 0;
    for id in 0u16..=200 {
        if let Some(class) = Class::from_repr(id) {
            assert_eq!(class.id(), id as i32);
            assert_ne!(class.realm(), &Realm::All);
            found += 1;
        }
    }
    assert_eq!(found, 43);
}

#[test]
fn class_acuity_and_skill_lines() {
    assert_eq!(Class::Bard.acuity_stat(), Some(Stat::Charisma));
    assert_eq!(Class::Wizard.acuity_stat(), Some(Stat::Intelligence));
    assert_eq!(Class::Cleric.acuity_stat(), Some(Stat::Piety));
    assert_eq!(Class::Druid.acuity_stat(), Some(Stat::Empathy));
    assert_eq!(Class::Armsman.acuity_stat(), None);
    assert_eq!(
        Class::Bard.skill_lines(),
        vec![Stat::Blade, Stat::Blunt, Stat::Nurture, Stat::Regrowth, Stat::Music]
    );
    assert_eq!(Class::Warlock.skill_lines(), vec![]);
    assert_eq!(Class::Wizard.skill_lines(), vec![Stat::Earth, Stat::Cold, Stat::Fire]);
}

#[test]
fn stat_ids_names_utilities_and_caps() {
    assert_eq!(Stat::Strength.id(), 1);
    assert_eq!(Stat::Acuity.id(), 156);
    assert_eq!(Stat::ArcaneSyphon.id(), 254);
    assert_eq!(MAX_STAT_ID, 254);
    assert_eq!(Stat::Strength.name(), "strength");
    assert_eq!(Stat::Strength.utility_hundredths(), 67);
    assert_eq!(Stat::Strength.cap(), 75);
    assert_eq!(Stat::Hitpoints.name(), "hitpoints");
    assert_eq!(Stat::Hitpoints.utility_hundredths(), 25);
    assert_eq!(Stat::Hitpoints.cap(), 200);
    assert_eq!(Stat::StrengthCap.name(), "strength_cap");
    assert_eq!(Stat::StrengthCap.utility_hundredths(), 200);
    assert_eq!(Stat::StrengthCap.cap(), 26);
    assert_eq!(Stat::Body.name(), "body");
    assert_eq!(Stat::Body.utility_hundredths(), 500);
    assert_eq!(Stat::Body.cap(), 11);
    assert_eq!(Stat::ArmorFactor.utility_hundredths(), 100);
    assert_eq!(Stat::ArmorFactor.cap(), 50);
    assert_eq!(Stat::Fatigue.utility_hundredths(), 0);
    assert_eq!(Stat::Fatigue.cap(), 100);
    assert_eq!(Stat::UnknownStuffAgain2.name(), "unknown_stuff_again2");
}

#[test]
fn stat_from_repr_inverts_id() {
    let mut found = 0;
    for id in 0u16..=1000 {
        if let Some(stat) = Stat::from_repr(id) {
            assert_eq!(stat.id(), id);
            assert_ne!(stat.name(), "unknown");
            found += 1;
        }
    }
    assert_eq!(found, 133);
    assert_eq!(Stat::from_repr(0), None);
    assert_eq!(Stat::from_repr(9), None);
    assert_eq!(Stat::from_repr(255), None);
}

#[test]
fn stat_all_lists_every_stat_once_by_rising_id() {
    let all = Stat::all();
    assert_eq!(all.len(), 133);
    for pair in all.windows(2) {
        assert!(pair[0].id() < pair[1].id());
    }
    assert_eq!(all[0], Stat::Strength);
    assert_eq!(all[all.len() - 1], Stat::ArcaneSyphon);
    assert!(all.contains(&Stat::Charisma));
}

#[test]
fn stat_cap_and_base_are_inverse() {
    assert_eq!(Stat::Charisma.cap_stat(), Some(Stat::CharismaCap));
    assert_eq!(Stat::CharismaCap.base_stat(), Some(Stat::Charisma));
    assert_eq!(Stat::Acuity.cap_stat(), Some(Stat::AcuityCap));
    assert_eq!(Stat::Hitpoints.cap_stat(), Some(Stat::HitpointsCap));
    assert_eq!(Stat::PowerPoolCap.base_stat(), None);
    assert_eq!(Stat::Body.cap_stat(), None);
    let mut pairs = 0;
    for stat in Stat::all() {
        if let Some(cap) = stat.cap_stat() {
            assert_eq!(cap.base_stat(), Some(stat));
            pairs += 1;
        }
        if let Some(base) = stat.base_stat() {
            assert_eq!(base.cap_stat(), Some(stat));
        }
    }
    assert_eq!(pairs, 10);
}

#[test]
fn stat_category_ids() {
    assert_eq!(StatCategory::PhysicalStats.id(), 0);
    assert_eq!(StatCategory::ToaBonuses.id(), 10);
    assert_eq!(StatCategory::OtherStats.id(), 11);
    for id in 0u16..12 {
        assert_eq!(StatCategory::from_repr(id).map(|c| c.id()), Some(id));
    }
    assert_eq!(StatCategory::from_repr(12), None);
}

#[test]
fn item_slot_ids_names_and_places() {
    assert_eq!(ItemSlot::Head.id(), 21);
    assert_eq!(ItemSlot::Ring2.id(), 36);
    assert_eq!(ItemSlot::RightHand.id(), 10);
    assert_eq!(ItemSlot::from_repr(21), Some(ItemSlot::Head));
    assert_eq!(ItemSlot::from_repr(30), None);
    assert_eq!(ItemSlot::from_repr(0), None);
    assert_eq!(ItemSlot::Head.name(), "head");
    assert_eq!(ItemSlot::Ring2.name(), "ring");
    assert_eq!(ItemSlot::Bracer2.name(), "bracer");
    assert_eq!(ItemSlot::RightHand.name(), "right_hand");
    assert_eq!(ItemSlot::Ring2.to_string(), "Ring");
    assert_eq!(ItemSlot::Bracer2.to_string(), "Bracer");
    assert_eq!(ItemSlot::TwoHanded.to_string(), "TwoHanded");
    let all = ItemSlot::all();
    assert_eq!(all.len(), SLOT_COUNT);
    for (place, slot) in all.iter().enumerate() {
        assert_eq!(slot.index(), place);
        assert_eq!(ItemSlot::from_index(place), Some(*slot));
        assert_eq!(ItemSlot::from_repr(slot.id() as u16), Some(*slot));
    }
    assert_eq!(ItemSlot::from_index(SLOT_COUNT), None);
    assert_eq!(all[0], ItemSlot::Head);
    assert_eq!(all[17], ItemSlot::Ranged);
}

#[test]
fn item_type_ids() {
    assert_eq!(ItemType::Crush.id(), 2);
    assert_eq!(ItemType::Instrument.id(), 45);
    assert_eq!(ItemType::Unknown.id(), 1000);
    assert_eq!(ItemType::from_repr(42), Some(ItemType::Shield));
    assert_eq!(ItemType::from_repr(16), None);
    let mut found = 0;
    for id in 0u16..=1000 {
        if let Some(kind) = ItemType::from_repr(id) {
            assert_eq!(kind.id(), id);
            found += 1;
        }
    }
    assert_eq!(found, 38);
}

#[test]
fn template_starts_untitled_and_empty() {
    let template = Template::new(Class::Bard);
    assert_eq!(template.name(), "Untitled Template");
    assert_eq!(UNTITLED, "Untitled Template");
    assert_eq!(template.class(), Class::Bard);
    for slot in ItemSlot::all() {
        assert!(template.get_item(&slot).is_none());
    }
}

#[test]
fn template_set_item_overwrites_one_slot() {
    let mut template = Template::new(Class::Bard);
    template.set_item(ItemSlot::Head, item(5, "Crown", ItemSlot::Head, vec![]));
    template.set_item(ItemSlot::Ring, item(6, "Band", ItemSlot::Ring, vec![]));
    assert_eq!(template.get_item(&ItemSlot::Head).map(|i| i.id), Some(5));
    assert_eq!(template.get_item(&ItemSlot::Ring).map(|i| i.id), Some(6));
    assert!(template.get_item(&ItemSlot::Ring2).is_none());
    template.set_item(ItemSlot::Head, item(7, "Helm", ItemSlot::Head, vec![]));
    assert_eq!(template.get_item(&ItemSlot::Head).map(|i| i.id), Some(7));
    assert_eq!(template.get_item(&ItemSlot::Ring).map(|i| i.id), Some(6));
    template.set_name("Mine".to_string());
    assert_eq!(template.name(), "Mine");
    let copy = template.clone();
    assert_eq!(copy.name(), "Mine");
    assert_eq!(copy.class(), Class::Bard);
    assert_eq!(copy.get_item(&ItemSlot::Head).map(|i| i.id), Some(7));
}

#[test]
fn find_item_gives_the_first_with_the_id() {
    let items = vec![
        item(1, "a", ItemSlot::Head, vec![]),
        item(2, "b", ItemSlot::Head, vec![]),
        item(2, "c", ItemSlot::Feet, vec![]),
    ];
    assert_eq!(find_item(&items, 1), 0);
    assert_eq!(find_item(&items, 2), 1);
    assert_eq!(find_item(&items, 3), 3);
    assert_eq!(find_item(&[], 1), 0);
}

#[test]
fn with_chosen_fills_slots_and_skips_unknown_items() {
    let items = vec![
        item(5, "Crown", ItemSlot::Head, vec![]),
        item(8, "Boots", ItemSlot::Feet, vec![]),
    ];
    let mut template = Template::new(Class::Bard);
    template.set_item(ItemSlot::Head, item(1, "Cap", ItemSlot::Head, vec![]));
    let filled = template.with_chosen(&items, &[(ItemSlot::Head, 5), (ItemSlot::Feet, 9)]);
    assert_eq!(filled.get_item(&ItemSlot::Head).map(|i| i.id), Some(5));
    assert!(filled.get_item(&ItemSlot::Feet).is_none());
    assert_eq!(template.get_item(&ItemSlot::Head).map(|i| i.id), Some(1));
    let later = template.with_chosen(&items, &[(ItemSlot::Feet, 8), (ItemSlot::Feet, 5)]);
    assert_eq!(later.get_item(&ItemSlot::Feet).map(|i| i.id), Some(5));
    assert_eq!(later.get_item(&ItemSlot::Head).map(|i| i.id), Some(1));
    assert_eq!(later.class(), Class::Bard);
    assert_eq!(later.name(), "Untitled Template");
}

#[test]
fn stat_categories() {
    assert_eq!(Stat::Strength.category(), StatCategory::PhysicalStats);
    assert_eq!(Stat::Hitpoints.category(), StatCategory::PhysicalStats);
    assert_eq!(Stat::Charisma.category(), StatCategory::AcuityStats);
    assert_eq!(Stat::Acuity.category(), StatCategory::AcuityStats);
    assert_eq!(Stat::StrengthCap.category(), StatCategory::PhysicalStatCaps);
    assert_eq!(Stat::AcuityCap.category(), StatCategory::AcuityStatCaps);
    assert_eq!(Stat::HeatResist.category(), StatCategory::Resists);
    assert_eq!(Stat::Music.category(), StatCategory::MagicSkills);
    assert_eq!(Stat::Blade.category(), StatCategory::MeleeSkills);
    assert_eq!(Stat::LongBow.category(), StatCategory::ArcherySkills);
    assert_eq!(Stat::LeftAxe.category(), StatCategory::DualWieldingSkills);
    assert_eq!(Stat::Stealth.category(), StatCategory::OtherSkills);
    assert_eq!(Stat::SpellRange.category(), StatCategory::ToaBonuses);
    assert_eq!(Stat::Fatigue.category(), StatCategory::OtherStats);
    assert_eq!(Stat::Strength.category_ids(), &[1, 2, 3]);
    assert_eq!(Stat::Fatigue.category_ids(), &[1, 2, 3]);
}

#[test]
fn realms_and_classes_are_listed_by_rising_id() {
    assert_eq!(Realm::all(), vec![Realm::All, Realm::Albion, Realm::Midgard, Realm::Hibernia]);
    assert_eq!(Realm::Midgard.to_string(), "Midgard");
    assert_eq!(Realm::All.to_string(), "All");
    let all = Class::all();
    assert_eq!(all.len(), 43);
    for pair in all.windows(2) {
        assert!(pair[0].id() < pair[1].id());
    }
    assert_eq!(all[0], Class::Paladin);
    assert_eq!(all[42], Class::Warlock);
    assert_eq!(Class::Spiritmaster.to_string(), "Spiritmaster");
}

#[test]
fn classes_of_a_realm() {
    let albion = Class::of_realm(Realm::Albion);
    assert_eq!(albion.len(), 15);
    assert!(albion.iter().all(|class| class.realm() == &Realm::Albion));
    assert_eq!(albion[0], Class::Paladin);
    assert_eq!(albion[14], Class::Heretic);
    assert_eq!(Class::of_realm(Realm::Midgard).len(), 14);
    let hibernia = Class::of_realm(Realm::Hibernia);
    assert_eq!(hibernia.len(), 14);
    assert_eq!(hibernia[0], Class::Banshee);
    assert!(hibernia.contains(&Class::Bard));
    assert_eq!(Class::of_realm(Realm::All), vec![]);
}

fn is_constant(text: &str) -> bool {
    let mut chars = text.chars();
    match chars.next() {
        Some(first) if first.is_ascii_lowercase() => {
            chars.all(|c| c.is_ascii_lowercase() || c.is_ascii_digit() || c == '_')
        }
        _ => false,
    }
}

#[test]
fn names_are_constants_of_the_solver() {
    for stat in Stat::all() {
        assert!(is_constant(stat.name()), "{:?}", stat);
    }
    for class in Class::all() {
        assert!(is_constant(class.name()), "{:?}", class);
    }
    for slot in ItemSlot::all() {
        assert!(is_constant(slot.name()), "{:?}", slot);
    }
    assert!(!is_constant("Head"));
    assert!(!is_constant(""));
    assert!(!is_constant("2head"));
}

#[test]
fn no_two_stats_or_classes_share_a_name() {
    let stats = Stat::all();
    for (i, a) in stats.iter().enumerate() {
        for b in &stats[i + 1..] {
            assert_ne!(a.name(), b.name());
        }
    }
    let classes = Class::all();
    for (i, a) in classes.iter().enumerate() {
        for b in &classes[i + 1..] {
            assert_ne!(a.name(), b.name());
        }
    }
}

#[test]
fn slot_with_id_takes_the_number_as_it_is() {
    assert_eq!(ItemSlot::with_id(21), Some(ItemSlot::Head));
    assert_eq!(ItemSlot::with_id(36), Some(ItemSlot::Ring2));
    assert_eq!(ItemSlot::with_id(30), None);
    assert_eq!(ItemSlot::with_id(-1), None);
    assert_eq!(ItemSlot::with_id(65536 + 21), None);
    assert_eq!(ItemSlot::with_id(21 - 65536), None);
    for slot in ItemSlot::all() {
        assert_eq!(ItemSlot::with_id(slot.id()), Some(slot));
    }
}
