use templess::domain::class::Class;
use templess::domain::item_bonus::ItemBonus;
use templess::domain::item_slot::ItemSlot;
use templess::domain::item_type::ItemSlot as ItemType;
use templess::domain::realm::Realm;
use templess::domain::stat::Stat;
use templess::initialization::fields::{read_i32, read_u16, split_spans, Span};
use templess::initialization::raw_item::{read_bonuses, read_classes, text_i32, text_u16, RawItem};

fn raw() -> RawItem {
    RawItem {
        model: "1234".to_string(),
        id: "5".to_string(),
        object_type: "41".to_string(),
        item_type: "21".to_string(),
        level: "51".to_string(),
        quality: "100".to_string(),
        weapon_hand: "0".to_string(),
        weapon_speed: "0".to_string(),
        damage_type: "0".to_string(),
        realm: "3".to_string(),
        required_level: 45,
        bonus_level: "30".to_string(),
        shield_size: "0".to_string(),
        instrument_type: "0".to_string(),
        is_tradable: "1".to_string(),
        name: "Crown of Songs".to_string(),
        utility_single: "12.5".to_string(),
        utility: "80.25".to_string(),
        allowed_classes: "48;47;x;999".to_string(),
        bonus_types: "8,208,300,x,3".to_string(),
        bonus_values: "10,3,7,4".to_string(),
        proc1_json: Some("{}".to_string()),
        proc2_json: None,
        use1_json: None,
        use2_json: None,
        passive_json: None,
        react1_json: None,
        react2_json: Some("[]".to_string()),
    }
}

#[test]
fn numbers_are_read_as_the_standard_library_reads_them() {
    for text in ["0", "7", "007", "+5", "65535", "65536", "", "+", "-1", "-0", " 1", "1 ", "1a", "a", "99999999999999999999", "+-1", "٣"] {
        assert_eq!(text_u16(text), text.parse::<u16>().ok(), "{:?}", text);
    }
    for text in ["0", "-7", "-007", "+5", "2147483647", "2147483648", "-2147483648", "-2147483649", "", "+", "-", "--1", "-+1", "1.0", "12345678901234567890"] {
        assert_eq!(text_i32(text), text.parse::<i32>().ok(), "{:?}", text);
    }
}

#[test]
fn numbers_are_read_from_a_part_of_the_bytes() {
    assert_eq!(read_u16(b"ab12cd", 2, 4), Some(12));
    assert_eq!(read_u16(b"ab12cd", 2, 5), None);
    assert_eq!(read_u16(b"ab12cd", 2, 2), None);
    assert_eq!(read_i32(b"x-12", 1, 4), Some(-12));
    assert_eq!(read_i32(b"x-12", 2, 4), Some(12));
}

#[test]
fn split_spans_gives_the_parts_between_separators() {
    assert_eq!(split_spans(b"", b';'), vec![Span { from: 0, to: 0 }]);
    assert_eq!(split_spans(b"ab", b';'), vec![Span { from: 0, to: 2 }]);
    assert_eq!(
        split_spans(b"a;;bc;", b';'),
        vec![
            Span { from: 0, to: 1 },
            Span { from: 2, to: 2 },
            Span { from: 3, to: 5 },
            Span { from: 6, to: 6 },
        ]
    );
    for text in ["", ";", "1;2", ";1;;2;", "no separator"] {
        let parts: Vec<&[u8]> = text.as_bytes().split(|b| *b == b';').collect();
        let spans = split_spans(text.as_bytes(), b';');
        let found: Vec<&[u8]> = spans.iter().map(|s| &text.as_bytes()[s.from..s.to]).collect();
        assert_eq!(found, parts);
    }
}

#[test]
fn classes_and_bonuses_pass_over_what_cannot_be_read() {
    assert_eq!(read_classes("48;47;x;999"), vec![Class::Bard, Class::Druid]);
    assert_eq!(read_classes(""), vec![]);
    assert_eq!(read_classes("1"), vec![Class::Paladin]);
    assert_eq!(
        read_bonuses("8,208,300,x,3", "10,3,7,4"),
        vec![
            ItemBonus { stat: Stat::Charisma, value: 10 },
            ItemBonus { stat: Stat::CharismaCap, value: 3 },
        ]
    );
    assert_eq!(read_bonuses("", ""), vec![]);
    assert_eq!(read_bonuses("1,2", "5"), vec![ItemBonus { stat: Stat::Strength, value: 5 }]);
    assert_eq!(read_bonuses("1", "5,6"), vec![ItemBonus { stat: Stat::Strength, value: 5 }]);
    assert_eq!(read_bonuses("1,2", "x,6"), vec![ItemBonus { stat: Stat::Dexterity, value: 6 }]);
}

#[test]
fn raw_item_reads_as_an_item() {
    let item = raw().into_item().expect("every number can be read");
    assert_eq!(item.id, 5);
    assert_eq!(item.name, "Crown of Songs");
    assert_eq!(item.model, 1234);
    assert_eq!(item.object_type, ItemType::Jewelry);
    assert_eq!(item.item_slot, ItemSlot::Head);
    assert_eq!(item.level, 51);
    assert_eq!(item.quality, 100);
    assert_eq!(item.realm, Realm::Hibernia);
    assert_eq!(item.required_level, 45);
    assert_eq!(item.bonus_level, 30);
    assert!(item.is_tradable);
    assert_eq!(item.allowed_classes, vec![Class::Bard, Class::Druid]);
    assert_eq!(
        item.bonuses,
        vec![
            ItemBonus { stat: Stat::Charisma, value: 10 },
            ItemBonus { stat: Stat::CharismaCap, value: 3 },
        ]
    );
    assert_eq!(item.proc1_json, Some("{}".to_string()));
    assert_eq!(item.react2_json, Some("[]".to_string()));
    assert_eq!(item.use1_json, None);
}

#[test]
fn raw_item_with_a_number_that_cannot_be_read_is_no_item() {
    let mut bad = raw();
    bad.id = "five".to_string();
    assert_eq!(bad.into_item(), None);
    let mut bad = raw();
    bad.item_type = "30".to_string();
    assert_eq!(bad.into_item(), None);
    let mut bad = raw();
    bad.realm = "4".to_string();
    assert_eq!(bad.into_item(), None);
    let mut bad = raw();
    bad.object_type = "1".to_string();
    assert_eq!(bad.into_item(), None);
    let mut bad = raw();
    bad.level = "70000".to_string();
    assert_eq!(bad.into_item(), None);
    let mut bad = raw();
    bad.is_tradable = "".to_string();
    assert_eq!(bad.into_item(), None);
    let mut free = raw();
    free.is_tradable = "0".to_string();
    assert_eq!(free.into_item().map(|i| i.is_tradable), Some(false));
}

#[test]
fn written_numbers_are_read_back() {
    for n in [0i64, 1, 9, 10, 21, 65535, 65536, 2147483647, -1, -10, -2147483648] {
        let text = templess::text::decimal_text(n);
        assert_eq!(text_i32(&text), Some(n as i32));
        if (0..=65535).contains(&n) {
            assert_eq!(text_u16(&text), Some(n as u16));
        } else {
            assert_eq!(text_u16(&text), None);
        }
    }
}
