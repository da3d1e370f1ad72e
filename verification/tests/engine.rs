use merchant::engine::{action_for_key, update, update_would_panic, wants_run_draw, Action, UpdateSignal};
use merchant::events::{LocationEvent, PirateEncounterInfo, PirateEncounterState};
use merchant::game_rng::{default_location_config, default_location_info};
use merchant::game_state::{GameState, Mode, Transaction};
use merchant::good::Good;
use merchant::goods_map::GoodsMap;
use merchant::keys::{char_digit, KeyCode, KeyEvent, KeyModifiers};
use merchant::location::Location;
use merchant::location_map::LocationMap;
use rand::rngs::StdRng;
use rand::SeedableRng;

fn game() -> GameState {
    let ranges = GoodsMap {
        tea: (100, 200),
        coffee: (50, 100),
        sugar: (20, 40),
        tobacco: (10, 20),
        rum: (5, 10),
        cotton: (1, 5),
    };
    let mut state = GameState::new(StdRng::seed_from_u64(3), default_location_config(ranges));
    let info = default_location_info();
    state.locations = LocationMap {
        london: info,
        savannah: info,
        lisbon: info,
        amsterdam: info,
        capetown: info,
        venice: info,
    };
    state
}

fn key(code: KeyCode) -> KeyEvent {
    KeyEvent::new(code, KeyModifiers::empty())
}

fn press(state: &mut GameState, code: KeyCode) -> UpdateSignal {
    let event = key(code);
    assert!(!update_would_panic(state, &event));
    update(state, event, false).unwrap()
}

#[test]
fn any_key_starts_the_game() {
    let mut state = game();
    assert_eq!(action_for_key(&state, &key(KeyCode::Char('x'))), Action::Initialize);
    assert_eq!(press(&mut state, KeyCode::Char('x')), UpdateSignal::Continue);
    assert!(state.initialized);
    assert_eq!(state.mode, Mode::ViewingInventory);
}

#[test]
fn buying_by_keys() {
    let mut state = game();
    press(&mut state, KeyCode::Enter);
    press(&mut state, KeyCode::Char('b'));
    assert_eq!(state.mode, Mode::Buying(None));
    press(&mut state, KeyCode::Char('t'));
    assert_eq!(state.mode, Mode::Buying(Some(Transaction { good: Good::Tea, amount: None })));
    press(&mut state, KeyCode::Char('1'));
    press(&mut state, KeyCode::Char('0'));
    press(&mut state, KeyCode::Char('x'));
    assert_eq!(state.mode, Mode::Buying(Some(Transaction { good: Good::Tea, amount: Some(10) })));
    press(&mut state, KeyCode::Enter);
    assert_eq!(state.mode, Mode::ViewingInventory);
    assert_eq!(state.gold, 440);
    assert_eq!(state.inventory.tea, 10);
}

#[test]
fn a_refused_purchase_keeps_going() {
    let mut state = game();
    state.initialize();
    state.mode = Mode::Buying(Some(Transaction { good: Good::Tea, amount: Some(1000) }));
    assert_eq!(press(&mut state, KeyCode::Enter), UpdateSignal::Continue);
    assert_eq!(state.gold, 500);
    assert_eq!(state.mode, Mode::Buying(Some(Transaction { good: Good::Tea, amount: Some(1000) })));
}

#[test]
fn backspace_leaves_a_prompt() {
    let mut state = game();
    state.initialize();
    press(&mut state, KeyCode::Char('2'));
    assert_eq!(state.mode, Mode::Selling(None));
    press(&mut state, KeyCode::Backspace);
    assert_eq!(state.mode, Mode::ViewingInventory);
}

#[test]
fn home_port_keys_work_only_at_home() {
    let mut state = game();
    state.initialize();
    press(&mut state, KeyCode::Char('e'));
    assert_eq!(state.mode, Mode::BankDeposit(None));
    state.mode = Mode::ViewingInventory;
    state.location = Location::Lisbon;
    assert_eq!(action_for_key(&state, &key(KeyCode::Char('e'))), Action::Nothing);
    press(&mut state, KeyCode::Char('e'));
    assert_eq!(state.mode, Mode::ViewingInventory);
}

#[test]
fn paying_debt_needs_a_debt() {
    let mut state = game();
    state.initialize();
    state.debt = 0;
    assert_eq!(action_for_key(&state, &key(KeyCode::Char('p'))), Action::Nothing);
    state.debt = 10;
    assert_eq!(action_for_key(&state, &key(KeyCode::Char('8'))), Action::BeginPayDebt);
}

#[test]
fn sailing_by_keys() {
    let mut state = game();
    state.initialize();
    press(&mut state, KeyCode::Char('3'));
    assert_eq!(state.mode, Mode::Sailing);
    // the ship is already in London: nothing happens
    assert_eq!(press(&mut state, KeyCode::Char('l')), UpdateSignal::Continue);
    assert_eq!(state.mode, Mode::Sailing);
    press(&mut state, KeyCode::Char('v'));
    assert_eq!(state.location, Location::Venice);
    assert_eq!(state.date, (1782, 4));
}

#[test]
fn the_end_screen_quits_or_restarts() {
    let mut state = game();
    state.initialize();
    state.game_end = true;
    assert_eq!(press(&mut state, KeyCode::Char('q')), UpdateSignal::Quit);
    assert_eq!(press(&mut state, KeyCode::Enter), UpdateSignal::Restart);
    assert_eq!(press(&mut state, KeyCode::Char('x')), UpdateSignal::Continue);
}

#[test]
fn found_goods_fill_the_hold_up_to_its_size() {
    let mut state = game();
    state.initialize();
    state.inventory.rum = 95;
    state.mode = Mode::GameEvent(LocationEvent::FindGoods(Good::Sugar, 8));
    press(&mut state, KeyCode::Char(' '));
    assert_eq!(state.inventory.sugar, 5);
    assert_eq!(state.mode, Mode::ViewingInventory);
}

#[test]
fn a_cannon_offer_can_be_refused() {
    let mut state = game();
    state.initialize();
    state.gold = 9000;
    state.mode = Mode::GameEvent(LocationEvent::CanBuyCannon);
    press(&mut state, KeyCode::Char('x'));
    assert_eq!(state.mode, Mode::GameEvent(LocationEvent::CanBuyCannon));
    press(&mut state, KeyCode::Char('n'));
    assert_eq!(state.mode, Mode::ViewingInventory);
    assert_eq!((state.gold, state.cannons), (9000, 1));
    state.mode = Mode::GameEvent(LocationEvent::CanBuyCannon);
    press(&mut state, KeyCode::Char('y'));
    assert_eq!((state.gold, state.cannons), (4000, 2));
}

#[test]
fn running_from_pirates_needs_a_draw() {
    let mut state = game();
    state.initialize();
    let info = PirateEncounterInfo::new(2);
    state.mode = Mode::GameEvent(LocationEvent::PirateEncounter(PirateEncounterState::Prompt { info }));
    let r_key = key(KeyCode::Char('r'));
    assert!(wants_run_draw(&state, &r_key));
    assert!(!wants_run_draw(&state, &key(KeyCode::Char('f'))));
    update(&mut state, r_key, true).unwrap();
    assert_eq!(
        state.mode,
        Mode::GameEvent(LocationEvent::PirateEncounter(PirateEncounterState::RunSuccess))
    );
    press(&mut state, KeyCode::Enter);
    assert_eq!(state.mode, Mode::ViewingInventory);
}

#[test]
fn an_overflowing_amount_is_caught_before_the_update() {
    let mut state = game();
    state.initialize();
    state.mode = Mode::BankDeposit(Some(u32::MAX / 10 + 1));
    assert!(update_would_panic(&state, &key(KeyCode::Char('0'))));
    state.mode = Mode::BankDeposit(Some(42));
    assert!(!update_would_panic(&state, &key(KeyCode::Char('0'))));
}

#[test]
fn digit_keys_read_as_digits() {
    assert_eq!(char_digit('0'), Some(0));
    assert_eq!(char_digit('7'), Some(7));
    assert_eq!(char_digit('a'), None);
    assert_eq!(Good::from_key_code(&KeyCode::Char('o')), Some(Good::Cotton));
    assert_eq!(Good::from_key_code(&KeyCode::Enter), None);
    assert_eq!(Location::from_key_code(&KeyCode::Char('5')), Some(Location::CapeTown));
    assert_eq!(Location::from_key_code(&KeyCode::Char('z')), None);
}
