use std::sync::Arc;

use templess::clingo::error::{EngineError, HandleReply};
use templess::clingo::model::{ListFailure, Model};
use templess::clingo::symbol::Symbol;
use templess::domain::class::Class;
use templess::domain::item::Item;
use templess::domain::item_slot::ItemSlot;
use templess::domain::item_type::ItemSlot as ItemType;
use templess::domain::realm::Realm;
use templess::domain::template::Template;
use templess::optimization::instance::instance;
use templess::optimization::choices::{
    chosen_items, chosen_items_from_model, DecodeError, CHOSEN,
};
use templess::optimization::worker::{
    Command, Event, OptimizeStatus, Phase, Worker, ENCODING_PATH, INSTANCE_PATH,
};

fn thing(id: i32, name: &str, slot: ItemSlot) -> Arc<Item> {
    Arc::new(Item {
        id,
        name: name.to_string(),
        model: 0,
        object_type: ItemType::Magical,
        item_slot: slot,
        level: 50,
        quality: 100,
        weapon_hand: 0,
        weapon_speed: 0,
        damage_type: 0,
        realm: Realm::All,
        required_level: 0,
        bonus_level: 0,
        shield_size: 0,
        instrument_type: 0,
        is_tradable: true,
        allowed_classes: vec![],
        bonuses: vec![],
        proc1_json: None,
        proc2_json: None,
        use1_json: None,
        use2_json: None,
        passive_json: None,
        react1_json: None,
        react2_json: None,
    })
}

fn choice(slot: i32, item: i32) -> Symbol {
    Symbol::function(
        "slot_chosen".to_string(),
        vec![Symbol::from_number(slot), Symbol::from_number(item)],
    )
}

fn failure(text: &str) -> EngineError {
    EngineError { code: 1, message: Some(text.as_bytes().to_vec()) }
}

fn kind(message: &Option<OptimizeStatus>) -> &'static str {
    match message {
        None => "-",
        Some(OptimizeStatus::Setup) => "Setup",
        Some(OptimizeStatus::Grounding) => "Grounding",
        Some(OptimizeStatus::Solving) => "Solving",
        Some(OptimizeStatus::NewModel(_)) => "NewModel",
        Some(OptimizeStatus::Finished) => "Finished",
        Some(OptimizeStatus::Error(_)) => "Error",
    }
}

fn run(worker: Worker, events: Vec<Event>) -> (Worker, Vec<OptimizeStatus>) {
    let mut worker = worker;
    let mut messages = Vec::new();
    for event in events {
        let step = worker.step(event);
        worker = step.worker;
        if let Some(message) = step.message {
            messages.push(message);
        }
    }
    (worker, messages)
}

fn kinds(messages: &[OptimizeStatus]) -> Vec<&'static str> {
    messages
        .iter()
        .map(|m| match m {
            OptimizeStatus::Setup => "Setup",
            OptimizeStatus::Grounding => "Grounding",
            OptimizeStatus::Solving => "Solving",
            OptimizeStatus::NewModel(_) => "NewModel",
            OptimizeStatus::Finished => "Finished",
            OptimizeStatus::Error(_) => "Error",
        })
        .collect()
}

fn up_to_polling() -> Vec<Event> {
    vec![
        Event::Written,
        Event::Opened(HandleReply::Given),
        Event::Loaded(Ok(())),
        Event::Loaded(Ok(())),
        Event::Grounded(Ok(())),
        Event::StopFlag(false),
        Event::Started(HandleReply::Given),
    ]
}

fn one_model(symbols: Vec<Symbol>) -> Vec<Event> {
    vec![
        Event::StopFlag(false),
        Event::Waited(true),
        Event::Fetched(Ok(true)),
        Event::Counted(Ok(symbols.len())),
        Event::Listed(Ok(symbols)),
        Event::Resumed(Ok(())),
    ]
}

#[test]
fn chosen_items_reads_slot_and_item() {
    assert_eq!(CHOSEN, "slot_chosen");
    let symbols = vec![
        Symbol::from_number(3),
        Symbol::function("item".to_string(), vec![Symbol::from_number(1)]),
        choice(21, 5),
        Symbol::from_string("slot_chosen".to_string()),
        choice(36, -4),
    ];
    assert_eq!(chosen_items(&symbols), Ok(vec![(ItemSlot::Head, 5), (ItemSlot::Ring2, -4)]));
    assert_eq!(chosen_items(&[]), Ok(vec![]));
    let model = Model::new(1, vec![choice(23, 8)]);
    assert_eq!(chosen_items_from_model(&model), Ok(vec![(ItemSlot::Feet, 8)]));
}

#[test]
fn chosen_items_refuses_a_number_that_no_slot_has() {
    assert_eq!(chosen_items(&[choice(65536 + 21, 5)]), Err(DecodeError::InvalidSlot(65557)));
    assert_eq!(chosen_items(&[choice(21 - 65536, 5)]), Err(DecodeError::InvalidSlot(-65515)));
    assert_eq!(chosen_items(&[choice(65536, 5)]), Err(DecodeError::InvalidSlot(65536)));
    assert_eq!(chosen_items(&[choice(i32::MAX, 5)]), Err(DecodeError::InvalidSlot(i32::MAX)));
    assert_eq!(chosen_items(&[choice(i32::MIN, 5)]), Err(DecodeError::InvalidSlot(i32::MIN)));
    assert_eq!(chosen_items(&[choice(0, 5)]), Err(DecodeError::InvalidSlot(0)));
    assert_eq!(
        chosen_items(&[choice(21, 5), choice(65557, 5)]),
        Err(DecodeError::InvalidSlot(65557))
    );
    let model = Model::new(1, vec![choice(65557, 5)]);
    assert_eq!(chosen_items_from_model(&model), Err(DecodeError::InvalidSlot(65557)));
}

#[test]
fn chosen_items_fails_on_the_first_choice_that_cannot_be_read() {
    let bare = Symbol::function("slot_chosen".to_string(), vec![]);
    assert_eq!(chosen_items(&[choice(21, 5), bare]), Err(DecodeError::MissingSlot));
    let half = Symbol::function("slot_chosen".to_string(), vec![Symbol::from_number(21)]);
    assert_eq!(chosen_items(&[half]), Err(DecodeError::MissingItem));
    let named = Symbol::function(
        "slot_chosen".to_string(),
        vec![Symbol::function("head".to_string(), vec![]), Symbol::from_number(5)],
    );
    assert_eq!(chosen_items(&[named]), Err(DecodeError::SlotNotNumber));
    assert_eq!(chosen_items(&[choice(30, 5)]), Err(DecodeError::InvalidSlot(30)));
    assert_eq!(chosen_items(&[choice(-1, 5)]), Err(DecodeError::InvalidSlot(-1)));
    let quoted = Symbol::function(
        "slot_chosen".to_string(),
        vec![Symbol::from_number(21), Symbol::from_string("5".to_string())],
    );
    assert_eq!(chosen_items(&[quoted]), Err(DecodeError::ItemNotNumber));
    assert_eq!(
        chosen_items(&[choice(30, 5), Symbol::function("slot_chosen".to_string(), vec![])]),
        Err(DecodeError::InvalidSlot(30))
    );
}

#[test]
fn decode_errors_read_as_text() {
    assert_eq!(
        DecodeError::MissingSlot.to_string(),
        "Expected an argument for `slot` at index 0 in slot_chosen"
    );
    assert_eq!(
        DecodeError::MissingItem.to_string(),
        "Expected an argument for `item` at index 1 in slot_chosen"
    );
    assert_eq!(DecodeError::SlotNotNumber.to_string(), "Failed to parse slot ID");
    assert_eq!(DecodeError::InvalidSlot(-30).to_string(), "Invalid slot representation: -30");
    assert_eq!(DecodeError::ItemNotNumber.to_string(), "Type error: Symbol is not a number");
}

#[test]
fn chosen_head_references_item_five_when_it_is_in_the_catalog() {
    let template = Template::new(Class::Bard);
    let chosen = chosen_items(&[choice(21, 5)]).unwrap();
    let with_item = template.with_chosen(&[thing(5, "Crown", ItemSlot::Head)], &chosen);
    assert_eq!(with_item.get_item(&ItemSlot::Head).map(|i| i.id), Some(5));
    let without = template.with_chosen(&[thing(6, "Cap", ItemSlot::Head)], &chosen);
    assert!(without.get_item(&ItemSlot::Head).is_none());
    let mut worn = Template::new(Class::Bard);
    worn.set_item(ItemSlot::Head, thing(1, "Old", ItemSlot::Head));
    let kept = worn.with_chosen(&[thing(6, "Cap", ItemSlot::Head)], &chosen);
    assert_eq!(kept.get_item(&ItemSlot::Head).map(|i| i.id), Some(1));
}

#[test]
fn written_items_come_back_as_themselves() {
    let items = vec![
        thing(5, "Crown", ItemSlot::Head),
        thing(8, "Boots", ItemSlot::Feet),
        thing(13, "Band", ItemSlot::Ring),
    ];
    let atoms: Vec<Symbol> = items.iter().map(|i| choice(i.item_slot.id(), i.id)).collect();
    let chosen = chosen_items(&atoms).unwrap();
    let filled = Template::new(Class::Bard).with_chosen(&items, &chosen);
    for item in &items {
        assert_eq!(filled.get_item(&item.item_slot), Some(item));
    }
}

#[test]
fn run_begins_with_setup_and_the_instance() {
    let template = Template::new(Class::Bard);
    let items = vec![thing(5, "Crown", ItemSlot::Head)];
    let text = instance(&template, &items);
    let step = Worker::start(template, items);
    assert_eq!(kind(&step.message), "Setup");
    assert_eq!(step.worker.phase(), Phase::Writing);
    assert_eq!(INSTANCE_PATH, "instance.lp");
    assert_eq!(ENCODING_PATH, "src/optimization/encoding.lp");
    assert_eq!(step.worker.command(), Command::WriteProgram { path: "instance.lp", text });
}

#[test]
fn run_asks_for_each_command_in_turn() {
    let step = Worker::start(Template::new(Class::Bard), vec![]);
    let mut worker = step.worker;
    let script: Vec<(Event, Command, &str)> = vec![
        (Event::Written, Command::OpenSession, "-"),
        (Event::Opened(HandleReply::Given), Command::Load { path: b"instance.lp\0".to_vec() }, "-"),
        (
            Event::Loaded(Ok(())),
            Command::Load { path: b"src/optimization/encoding.lp\0".to_vec() },
            "-",
        ),
        (Event::Loaded(Ok(())), Command::Ground, "Grounding"),
        (Event::Grounded(Ok(())), Command::ReadStopFlag, "-"),
        (Event::StopFlag(false), Command::Solve { mode: 3 }, "Solving"),
        (Event::Started(HandleReply::Given), Command::ReadStopFlag, "-"),
        (Event::StopFlag(false), Command::Wait { millis: 100 }, "-"),
        (Event::Waited(false), Command::ReadStopFlag, "-"),
        (Event::StopFlag(false), Command::Wait { millis: 100 }, "-"),
        (Event::Waited(true), Command::FetchModel, "-"),
        (Event::Fetched(Ok(true)), Command::CountSymbols { show: 2 }, "-"),
        (Event::Counted(Ok(1)), Command::ListSymbols { show: 2, count: 1 }, "-"),
        (Event::Listed(Ok(vec![choice(21, 5)])), Command::Resume, "NewModel"),
        (Event::Resumed(Ok(())), Command::ReadStopFlag, "-"),
        (Event::StopFlag(false), Command::Wait { millis: 100 }, "-"),
        (Event::Waited(true), Command::FetchModel, "-"),
        (Event::Fetched(Ok(false)), Command::Stop, "Finished"),
    ];
    for (event, command, message) in script {
        let step = worker.step(event);
        assert_eq!(kind(&step.message), message);
        assert_eq!(step.worker.command(), command);
        worker = step.worker;
    }
    assert!(worker.is_done());
}

#[test]
fn run_tells_of_each_model_with_its_choices_applied() {
    let mut template = Template::new(Class::Bard);
    template.set_item(ItemSlot::Cloak, thing(2, "Cape", ItemSlot::Cloak));
    let items = vec![thing(5, "Crown", ItemSlot::Head), thing(8, "Boots", ItemSlot::Feet)];
    let mut events = up_to_polling();
    events.extend(one_model(vec![choice(21, 5), choice(23, 9)]));
    events.extend(one_model(vec![choice(21, 5), choice(23, 8)]));
    events.extend(vec![Event::StopFlag(false), Event::Waited(true), Event::Fetched(Ok(false))]);
    let (worker, messages) = run(Worker::start(template, items).worker, events);
    assert_eq!(kinds(&messages), vec!["Grounding", "Solving", "NewModel", "NewModel", "Finished"]);
    assert!(worker.is_done());
    assert_eq!(worker.command(), Command::Stop);
    match (&messages[2], &messages[3]) {
        (OptimizeStatus::NewModel(first), OptimizeStatus::NewModel(second)) => {
            assert_eq!(first.get_item(&ItemSlot::Head).map(|i| i.id), Some(5));
            assert!(first.get_item(&ItemSlot::Feet).is_none());
            assert_eq!(first.get_item(&ItemSlot::Cloak).map(|i| i.id), Some(2));
            assert_eq!(second.get_item(&ItemSlot::Head).map(|i| i.id), Some(5));
            assert_eq!(second.get_item(&ItemSlot::Feet).map(|i| i.id), Some(8));
            assert_eq!(second.class(), Class::Bard);
        }
        _ => panic!("two models were told of"),
    }
    assert!(worker.template().get_item(&ItemSlot::Head).is_none());
    assert_eq!(worker.template().get_item(&ItemSlot::Cloak).map(|i| i.id), Some(2));
}

#[test]
fn model_without_symbols_is_told_of_unchanged() {
    let mut events = up_to_polling();
    events.extend(vec![
        Event::StopFlag(false),
        Event::Waited(true),
        Event::Fetched(Ok(true)),
        Event::Counted(Ok(0)),
    ]);
    let (worker, messages) = run(Worker::start(Template::new(Class::Hero), vec![]).worker, events);
    assert_eq!(kinds(&messages), vec!["Grounding", "Solving", "NewModel"]);
    assert_eq!(worker.phase(), Phase::Resuming);
}

#[test]
fn stop_before_the_search_gives_one_finished_and_no_model() {
    let events = vec![
        Event::Written,
        Event::Opened(HandleReply::Given),
        Event::Loaded(Ok(())),
        Event::Loaded(Ok(())),
        Event::Grounded(Ok(())),
        Event::StopFlag(true),
        Event::Waited(true),
        Event::Fetched(Ok(true)),
        Event::StopFlag(true),
    ];
    let step = Worker::start(Template::new(Class::Bard), vec![]);
    assert_eq!(kind(&step.message), "Setup");
    let (worker, messages) = run(step.worker, events);
    assert_eq!(kinds(&messages), vec!["Grounding", "Finished"]);
    assert!(worker.is_done());
}

#[test]
fn stop_before_any_model_gives_one_finished_and_no_model() {
    let mut events = up_to_polling();
    events.extend(vec![
        Event::StopFlag(false),
        Event::Waited(false),
        Event::StopFlag(true),
    ]);
    let (worker, messages) = run(Worker::start(Template::new(Class::Bard), vec![]).worker, events);
    assert_eq!(kinds(&messages), vec!["Grounding", "Solving"]);
    assert_eq!(worker.command(), Command::Cancel);
    let (worker, messages) = run(
        worker,
        vec![
            Event::Waited(true),
            Event::Fetched(Ok(true)),
            Event::Cancelled(Err(failure("too late"))),
            Event::Listed(Ok(vec![choice(21, 5)])),
        ],
    );
    assert_eq!(kinds(&messages), vec!["Finished"]);
    assert!(worker.is_done());
}

#[test]
fn stop_after_two_models_gives_two_models_and_one_finished() {
    let items = vec![thing(5, "Crown", ItemSlot::Head)];
    let mut events = up_to_polling();
    events.extend(one_model(vec![choice(21, 5)]));
    events.extend(one_model(vec![]));
    events.extend(vec![Event::StopFlag(true), Event::Cancelled(Ok(())), Event::Waited(true)]);
    let (worker, messages) = run(Worker::start(Template::new(Class::Bard), items).worker, events);
    assert_eq!(kinds(&messages), vec!["Grounding", "Solving", "NewModel", "NewModel", "Finished"]);
    assert!(worker.is_done());
}

#[test]
fn failures_end_the_run_with_one_error() {
    let cases: Vec<(Vec<Event>, &str)> = vec![
        (
            vec![Event::Written, Event::Opened(HandleReply::Failed(failure("no")))],
            "Internal error: Failed to create clingo control (code: Runtime): no",
        ),
        (
            vec![Event::Written, Event::Opened(HandleReply::Missing(failure("no")))],
            "Internal error: Received null pointer for clingo control (code: Runtime): no",
        ),
        (
            vec![
                Event::Written,
                Event::Opened(HandleReply::Given),
                Event::Loaded(Err(failure("syntax error"))),
            ],
            "Internal error: Failed to load program into control (code: Runtime): syntax error",
        ),
        (
            vec![
                Event::Written,
                Event::Opened(HandleReply::Given),
                Event::Loaded(Ok(())),
                Event::Loaded(Err(failure("no file"))),
            ],
            "Internal error: Failed to load program into control (code: Runtime): no file",
        ),
        (
            vec![
                Event::Written,
                Event::Opened(HandleReply::Given),
                Event::Loaded(Ok(())),
                Event::Loaded(Ok(())),
                Event::Grounded(Err(failure("unsafe"))),
            ],
            "Internal error: Failed to ground program (code: Runtime): unsafe",
        ),
    ];
    for (events, text) in cases {
        let (worker, messages) = run(Worker::start(Template::new(Class::Bard), vec![]).worker, events);
        assert!(worker.is_done());
        assert_eq!(worker.command(), Command::Stop);
        match messages.last() {
            Some(OptimizeStatus::Error(found)) => assert_eq!(found, text),
            _ => panic!("the run ends with an error"),
        }
        assert_eq!(kinds(&messages).iter().filter(|k| **k == "Error").count(), 1);
        assert_eq!(kinds(&messages).iter().filter(|k| **k == "Finished").count(), 0);
    }
}

#[test]
fn failures_of_the_search_end_the_run_with_one_error() {
    let tails: Vec<(Vec<Event>, &str)> = vec![
        (
            vec![Event::StopFlag(false), Event::Waited(true), Event::Fetched(Err(failure("m")))],
            "Internal error: Failed to retrieve model from solve handle (code: Runtime): m",
        ),
        (
            vec![
                Event::StopFlag(false),
                Event::Waited(true),
                Event::Fetched(Ok(true)),
                Event::Counted(Err(failure("c"))),
            ],
            "Internal error: Call to clingo_model_symbols_size() failed (code: Runtime): c",
        ),
        (
            vec![
                Event::StopFlag(false),
                Event::Waited(true),
                Event::Fetched(Ok(true)),
                Event::Counted(Ok(2)),
                Event::Listed(Err(ListFailure::Engine(failure("l")))),
            ],
            "Internal error: Call to clingo_model_symbols() failed (code: Runtime): l",
        ),
        (
            vec![
                Event::StopFlag(false),
                Event::Waited(true),
                Event::Fetched(Ok(true)),
                Event::Counted(Ok(2)),
                Event::Listed(Err(ListFailure::NotText)),
            ],
            "Bindings error: Failed to convert CStr to str",
        ),
        (
            vec![
                Event::StopFlag(false),
                Event::Waited(true),
                Event::Fetched(Ok(true)),
                Event::Counted(Ok(1)),
                Event::Listed(Ok(vec![choice(99, 5)])),
            ],
            "Invalid slot representation: 99",
        ),
        (
            vec![
                Event::StopFlag(false),
                Event::Waited(true),
                Event::Fetched(Ok(true)),
                Event::Counted(Ok(1)),
                Event::Listed(Ok(vec![choice(65557, 5)])),
            ],
            "Invalid slot representation: 65557",
        ),
        (
            vec![
                Event::StopFlag(false),
                Event::Waited(true),
                Event::Fetched(Ok(true)),
                Event::Counted(Ok(1)),
                Event::Listed(Ok(vec![choice(21, 5)])),
                Event::Resumed(Err(failure("r"))),
            ],
            "Internal error: Failed to resume solve handle (code: Runtime): r",
        ),
    ];
    for (tail, text) in tails {
        let mut events = up_to_polling();
        events.extend(tail);
        let (worker, messages) = run(Worker::start(Template::new(Class::Bard), vec![]).worker, events);
        assert!(worker.is_done());
        match messages.last() {
            Some(OptimizeStatus::Error(found)) => assert_eq!(found, text),
            _ => panic!("the run ends with an error"),
        }
    }
    let mut events = up_to_polling();
    events.truncate(6);
    events.push(Event::Started(HandleReply::Failed(failure("s"))));
    let (_, messages) = run(Worker::start(Template::new(Class::Bard), vec![]).worker, events);
    match messages.last() {
        Some(OptimizeStatus::Error(found)) => {
            assert_eq!(found, "Internal error: Failed to solve program (code: Runtime): s")
        }
        _ => panic!("the run ends with an error"),
    }
}

#[test]
fn events_that_answer_nothing_change_nothing() {
    let step = Worker::start(Template::new(Class::Bard), vec![]);
    let (worker, messages) = run(
        step.worker,
        vec![
            Event::Opened(HandleReply::Given),
            Event::Loaded(Ok(())),
            Event::Grounded(Ok(())),
            Event::StopFlag(true),
            Event::Started(HandleReply::Given),
            Event::Waited(true),
            Event::Fetched(Ok(true)),
            Event::Counted(Ok(1)),
            Event::Listed(Ok(vec![])),
            Event::Resumed(Ok(())),
            Event::Cancelled(Ok(())),
        ],
    );
    assert!(messages.is_empty());
    assert_eq!(worker.phase(), Phase::Writing);
}

#[test]
fn session_and_search_are_held_until_the_run_ends() {
    let step = Worker::start(Template::new(Class::Bard), vec![]);
    let mut worker = step.worker;
    assert!(!worker.has_session() && !worker.has_search());
    let script: Vec<(Event, bool, bool)> = vec![
        (Event::Written, false, false),
        (Event::Opened(HandleReply::Given), true, false),
        (Event::Loaded(Ok(())), true, false),
        (Event::Loaded(Ok(())), true, false),
        (Event::Grounded(Ok(())), true, false),
        (Event::StopFlag(false), true, false),
        (Event::Started(HandleReply::Given), true, true),
        (Event::StopFlag(true), true, true),
        (Event::Cancelled(Ok(())), false, false),
        (Event::Cancelled(Ok(())), false, false),
    ];
    for (event, session, search) in script {
        worker = worker.step(event).worker;
        assert_eq!(worker.has_session(), session);
        assert_eq!(worker.has_search(), search);
    }
    assert!(worker.is_done());
}

#[test]
fn replay_gives_all_messages_of_a_run() {
    let items = vec![thing(5, "Crown", ItemSlot::Head)];
    let mut events = up_to_polling();
    events.extend(one_model(vec![choice(21, 5)]));
    events.extend(vec![Event::StopFlag(true), Event::Cancelled(Ok(()))]);
    let (worker, messages) =
        templess::optimization::run::replay(Template::new(Class::Bard), items, events);
    assert_eq!(kinds(&messages), vec!["Setup", "Grounding", "Solving", "NewModel", "Finished"]);
    assert!(worker.is_done());
    let (worker, messages) =
        templess::optimization::run::replay(Template::new(Class::Bard), vec![], vec![]);
    assert_eq!(kinds(&messages), vec!["Setup"]);
    assert_eq!(worker.phase(), Phase::Writing);
}

#[test]
fn new_model_holds_the_very_items_that_were_written() {
    let items = vec![
        thing(5, "Crown", ItemSlot::Head),
        thing(8, "Boots", ItemSlot::Feet),
        thing(13, "Band", ItemSlot::Ring),
    ];
    let atoms: Vec<Symbol> = items.iter().map(|i| choice(i.item_slot.id(), i.id)).collect();
    let mut events = up_to_polling();
    events.extend(one_model(atoms));
    let (_, messages) =
        templess::optimization::run::replay(Template::new(Class::Bard), items.clone(), events);
    match messages.last() {
        Some(OptimizeStatus::NewModel(found)) => {
            for item in &items {
                let held = found.get_item(&item.item_slot).expect("the slot is filled");
                assert!(Arc::ptr_eq(held, item));
            }
        }
        _ => panic!("the run tells of the model"),
    }
}
