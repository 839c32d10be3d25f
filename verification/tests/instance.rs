use std::sync::Arc;

use templess::domain::class::Class;
use templess::domain::item::Item;
use templess::domain::item_bonus::ItemBonus;
use templess::domain::item_slot::ItemSlot;
use templess::domain::item_type::ItemSlot as ItemType;
use templess::domain::realm::Realm;
use templess::domain::stat::Stat;
use templess::domain::template::Template;
use templess::optimization::instance::{class_atoms, instance, item_atoms, slot_atoms, stat_atoms};

fn candidate(id: i32, name: &str, slot: ItemSlot, bonuses: Vec<ItemBonus>) -> Arc<Item> {
    Arc::new(Item {
        id,
        name: name.to_string(),
        model: 0,
        object_type: ItemType::Magical,
        item_slot: slot,
        level: 50,
        quality: 100,
        weapon_hand: 0,
        weapon_speed: 0,
        damage_type: 0,
        realm: Realm::All,
        required_level: 0,
        bonus_level: 0,
        shield_size: 0,
        instrument_type: 0,
        is_tradable: true,
        allowed_classes: vec![],
        bonuses,
        proc1_json: None,
        proc2_json: None,
        use1_json: None,
        use2_json: None,
        passive_json: None,
        react1_json: None,
        react2_json: None,
    })
}

#[test]
fn class_atoms_of_the_bard() {
    assert_eq!(
        class_atoms(Class::Bard),
        "% --- CLASS ---\n\
         class(bard).\n\
         class_skill_line(blade).\n\
         class_skill_line(blunt).\n\
         class_skill_line(nurture).\n\
         class_skill_line(regrowth).\n\
         class_skill_line(music).\n\
         class_acuity(charisma).\n"
    );
}

#[test]
fn class_atoms_without_acuity_or_skill_lines() {
    assert_eq!(
        class_atoms(Class::Scout),
        "% --- CLASS ---\n\
         class(scout).\n\
         class_skill_line(slashing).\n\
         class_skill_line(thrusting).\n\
         class_skill_line(long_bow).\n\
         class_skill_line(shield).\n\
         class_skill_line(stealth).\n"
    );
    assert_eq!(
        class_atoms(Class::Warlock),
        "% --- CLASS ---\nclass(warlock).\nclass_acuity(piety).\n"
    );
}

#[test]
fn item_atoms_name_items_and_bonuses() {
    let items = vec![
        candidate(
            5,
            "Crown of Songs",
            ItemSlot::Head,
            vec![
                ItemBonus { stat: Stat::Charisma, value: 10 },
                ItemBonus { stat: Stat::CharismaCap, value: 3 },
            ],
        ),
        candidate(-7, "Odd", ItemSlot::Ring, vec![]),
    ];
    assert_eq!(
        item_atoms(&items),
        "% --- AVAILABLE ITEMS ---\n\
         item(5, head, \"Crown of Songs\").\n\
         item_bonus(5, charisma, 10).\n\
         item_bonus(5, charisma_cap, 3).\n\
         item(-7, ring, \"Odd\").\n"
    );
    assert_eq!(item_atoms(&[]), "% --- AVAILABLE ITEMS ---\n");
}

#[test]
fn slot_atoms_list_every_slot_and_what_is_taken() {
    let mut template = Template::new(Class::Bard);
    template.set_item(ItemSlot::Head, candidate(5, "Crown", ItemSlot::Head, vec![]));
    template.set_item(ItemSlot::Ring2, candidate(9, "Band", ItemSlot::Ring, vec![]));
    assert_eq!(
        slot_atoms(&template),
        "% --- TEMPLATE ---\n\
         slot(21,head).\n\
         slot_taken(21, 5).\n\
         slot(22,hands).\n\
         slot(23,feet).\n\
         slot(25,chest).\n\
         slot(27,legs).\n\
         slot(28,arms).\n\
         slot(24,jewel).\n\
         slot(26,cloak).\n\
         slot(29,necklace).\n\
         slot(32,belt).\n\
         slot(33,bracer).\n\
         slot(34,bracer).\n\
         slot(35,ring).\n\
         slot(36,ring).\n\
         slot_taken(36, 9).\n\
         slot(10,right_hand).\n\
         slot(11,left_hand).\n\
         slot(12,two_handed).\n\
         slot(13,ranged).\n"
    );
}

#[test]
fn stat_atoms_give_every_stat_one_line() {
    let text = stat_atoms();
    assert!(text.starts_with(
        "% --- STATS ---\n\
         stat(strength, 67, 75).\n\
         stat_cap(strength, strength_cap).\n\
         stat(dexterity, 67, 75).\n\
         stat_cap(dexterity, dexterity_cap).\n"
    ));
    assert!(text.ends_with("stat(arcane_syphon, 200, 10).\n"));
    assert_eq!(text.lines().filter(|line| line.starts_with("stat(")).count(), 133);
    assert_eq!(text.lines().filter(|line| line.starts_with("stat_cap(")).count(), 10);
    assert_eq!(text.lines().filter(|line| line.starts_with("stat_base(")).count(), 10);
    assert_eq!(text.lines().count(), 1 + 133 + 20);
    assert!(text.contains("stat(hitpoints, 25, 200).\nstat_cap(hitpoints, hitpoints_cap).\n"));
    assert!(text.contains("stat(hitpoints_cap, 200, 200).\nstat_base(hitpoints_cap, hitpoints).\n"));
    assert!(text.contains("stat(body, 500, 11).\n"));
    assert!(text.contains("stat(armor_factor, 100, 50).\n"));
    assert!(text.contains("stat(fatigue, 0, 100).\n"));
    for stat in Stat::all() {
        let line = format!("stat({}, {}, {}).\n", stat.name(), stat.utility_hundredths(), stat.cap());
        assert_eq!(text.matches(line.as_str()).count(), 1);
    }
}

#[test]
fn bard_with_a_charisma_item_meets_its_acuity() {
    let items = vec![candidate(
        77,
        "Lute",
        ItemSlot::TwoHanded,
        vec![ItemBonus { stat: Stat::Charisma, value: 10 }],
    )];
    let class = class_atoms(Class::Bard);
    assert!(class.contains("class_acuity(charisma).\n"));
    let listed = item_atoms(&items);
    assert!(listed.contains("item_bonus(77, charisma, 10).\n"));
    let stats = stat_atoms();
    assert!(stats.contains("stat(charisma, 67, 75).\nstat_cap(charisma, charisma_cap).\n"));
    assert!(stats.contains("stat(charisma_cap, 200, 26).\nstat_base(charisma_cap, charisma).\n"));
    assert_eq!(Class::Bard.acuity_stat(), Some(Stat::Charisma));
    assert_eq!(Stat::Charisma.cap_stat().and_then(|cap| cap.base_stat()), Class::Bard.acuity_stat());
}

#[test]
fn instance_is_class_slots_stats_items() {
    let template = Template::new(Class::Bard);
    let items = vec![candidate(5, "Crown", ItemSlot::Head, vec![])];
    let mut expected = class_atoms(Class::Bard);
    expected.push_str(&slot_atoms(&template));
    expected.push_str(&stat_atoms());
    expected.push_str(&item_atoms(&items));
    assert_eq!(instance(&template, &items), expected);
}

#[test]
fn bard_instance_holds_the_four_lines_of_its_acuity() {
    let template = Template::new(Class::Bard);
    let items = vec![candidate(
        77,
        "Lute",
        ItemSlot::TwoHanded,
        vec![ItemBonus { stat: Stat::Charisma, value: 10 }],
    )];
    let text = instance(&template, &items);
    for line in [
        "class_acuity(charisma).\n",
        "item_bonus(77, charisma, 10).\n",
        "stat_cap(charisma, charisma_cap).\n",
        "stat_base(charisma_cap, charisma).\n",
    ] {
        assert_eq!(text.matches(line).count(), 1, "{:?}", line);
    }
}

#[test]
fn item_text_names_the_items_and_no_others() {
    let items = vec![
        candidate(5, "Crown", ItemSlot::Head, vec![ItemBonus { stat: Stat::Charisma, value: 10 }]),
        candidate(-8, "Boots", ItemSlot::Feet, vec![]),
        candidate(13, "Band", ItemSlot::Ring, vec![ItemBonus { stat: Stat::Body, value: 2 }]),
    ];
    let text = item_atoms(&items);
    let mut ids = Vec::new();
    for line in text.lines().skip(1) {
        let rest = line
            .strip_prefix("item_bonus(")
            .or_else(|| line.strip_prefix("item("))
            .expect("every line states an item or a bonus");
        let id: i32 = rest.split(',').next().unwrap().parse().unwrap();
        assert!(items.iter().any(|item| item.id == id));
        if line.starts_with("item(") {
            ids.push(id);
        }
    }
    assert_eq!(ids, vec![5, -8, 13]);
}
