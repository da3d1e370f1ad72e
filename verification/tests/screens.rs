use merchant::components::render_component;
use merchant::engine::{update, UpdateSignal};
use merchant::events::{GoodsStolenResult, LocationEvent, NoEffectEvent, PirateEncounterInfo, PirateEncounterState};
use merchant::game_rng::default_location_config;
use merchant::game_state::{GameState, Mode, Transaction};
use merchant::good::Good;
use merchant::goods_map::{GoodsMap, PriceRanges};
use merchant::keys::{KeyCode, KeyEvent, KeyModifiers};
use merchant::location::Location;
use merchant::panels::{CurrentLocation, InventoryList};
use merchant::prompts::{BuyInput, CanBuyHoldSpace, GoodOptions, NoEffect, SellInput};
use merchant::render_raw::{raw_renders, render_raw};
use rand::rngs::StdRng;
use rand::SeedableRng;
use merchant::scene::{can_draw, render_scene};
use merchant::screens::{Date, Frame, Numeric4Digits, Numeric7Digits, TopCenterFramed};

fn ranges() -> PriceRanges {
    GoodsMap {
        tea: (5000, 7000),
        coffee: (2125, 3000),
        sugar: (500, 1100),
        tobacco: (75, 175),
        rum: (20, 70),
        cotton: (2, 12),
    }
}

fn started_game() -> GameState {
    let mut state = GameState::new(StdRng::seed_from_u64(42), default_location_config(ranges()));
    state.initialize();
    state
}

fn screen(state: &mut GameState) -> String {
    assert!(can_draw(state));
    let frame = render_scene(state);
    assert!(raw_renders(&frame));
    render_raw(&frame).result
}

fn press(state: &mut GameState, c: char) -> UpdateSignal {
    update(state, KeyEvent::new(KeyCode::Char(c), KeyModifiers::empty()), false).unwrap()
}

#[test]
fn numbers_right_aligned() {
    assert_eq!(Numeric4Digits(7).to_string(), "   7");
    assert_eq!(Numeric4Digits(5626).to_string(), "5626");
    assert_eq!(Numeric4Digits(123456).to_string(), "123456");
    assert_eq!(Numeric7Digits(1500).to_string(), "   1500");
    assert_eq!(Numeric7Digits(0).to_string(), "      0");
}

#[test]
fn date_framed_at_top() {
    assert_eq!(
        render_component(Date((1782, 3))).unwrap(),
        "                                        |=================|\n                                        | March      1782 |\n                                        |=================|"
    );
    assert_eq!(
        render_component(TopCenterFramed("x".to_string())).unwrap(),
        "                                        |=================|\n                                        |x|\n                                        |=================|"
    );
    let september = render_component(Date((1790, 9))).unwrap();
    assert!(september.contains("| September  1790 |"));
}

#[test]
fn border_with_inner_rules() {
    let plain = render_component(Frame(true)).unwrap();
    let lines: Vec<&str> = plain.lines().collect();
    assert_eq!(lines.len(), 33);
    assert_eq!(lines[0], "-".repeat(99));
    assert_eq!(lines[2], format!("|{}|", " ".repeat(97)));
    assert_eq!(lines[32], "-".repeat(99));
    let ruled = render_component(Frame(false)).unwrap();
    let lines: Vec<&str> = ruled.lines().collect();
    assert_eq!(lines[2], format!("|{}|", "-".repeat(97)));
    assert_eq!(lines[19], format!("|{}|", "=".repeat(97)));
}

#[test]
fn inventory_list_aligned_on_colons() {
    let inv = GoodsMap { tea: 1, coffee: 22, sugar: 333, tobacco: 4444, rum: 55555, cotton: 0 };
    assert_eq!(
        render_component(InventoryList(&inv, 0, 0)).unwrap(),
        "    Tea:    1\n Coffee:   22\n  Sugar:  333\nTobacco: 4444\n    Rum: 55555\n Cotton:    0"
    );
}

#[test]
fn location_name_centered_between_arrows() {
    let text = render_component(CurrentLocation { location: &Location::CapeTown }).unwrap();
    assert!(text.ends_with("<------------->\n                                          |  Cape Town  |\n                                          <------------->"));
}

#[test]
fn good_options_listed() {
    let text = render_component(GoodOptions(2, 1)).unwrap();
    assert_eq!(text, "\n  (1) Tea\n  (2) Coffee\n  (3) Sugar\n  (4) Tobacco\n  (5) Rum\n  (6) Cotton");
}

#[test]
fn buy_input_shows_what_can_be_afforded_and_carried() {
    let mut state = started_game();
    state.gold = 1000;
    state.locations.london.prices.tea = 7;
    state.hold_size = 100;
    state.inventory.rum = 90;
    let info = Transaction { good: Good::Tea, amount: Some(12) };
    let text = render_component(BuyInput { info: &info, state: &state }).unwrap();
    assert!(text.contains("How much Tea do you want? 12"));
    assert!(text.contains("You can afford (142)"));
    assert!(text.contains("You have space for (10)"));
    let frame_cursor = {
        let mut frame = merchant::commands::Frame::new();
        merchant::commands::Component::render(&BuyInput { info: &info, state: &state }, &mut frame).unwrap();
        render_raw(&frame).cursor
    };
    assert_eq!(frame_cursor, (23, 38));
}

#[test]
fn sell_input_puts_cursor_after_amount() {
    let info = Transaction { good: Good::Cotton, amount: None };
    let mut frame = merchant::commands::Frame::new();
    merchant::commands::Component::render(&SellInput(&info, &15), &mut frame).unwrap();
    let out = render_raw(&frame);
    assert!(out.result.contains("How much Cotton do you"));
    assert!(out.result.contains("You have (15)"));
    assert_eq!(out.cursor, (24, 24));
    assert!(out.show_cursor);
}

#[test]
fn settled_theft_is_shown_and_taken() {
    let mut state = started_game();
    state.inventory.coffee = 10;
    state.mode = Mode::GameEvent(LocationEvent::GoodsStolen(Some(GoodsStolenResult::WasStolen {
        good: Good::Coffee,
        amount: 4,
    })));
    let text = screen(&mut state);
    assert!(text.contains("Prowling harbor thieves stole"));
    assert!(text.contains("4 Coffee from you!"));
    assert!(text.contains("Coffee:   10"));
    press(&mut state, 'a');
    assert!(screen(&mut state).contains("Coffee:    6"));
}

#[test]
fn a_theft_is_settled_by_drawing() {
    let mut state = started_game();
    state.inventory.coffee = 10;
    state.mode = Mode::GameEvent(LocationEvent::GoodsStolen(None));
    let first = screen(&mut state);
    let settled = match state.mode {
        Mode::GameEvent(LocationEvent::GoodsStolen(Some(GoodsStolenResult::WasStolen { good, amount }))) => {
            (good, amount)
        },
        _ => panic!("the theft was not settled"),
    };
    assert_eq!(settled.0, Good::Coffee);
    assert!(1 <= settled.1 && settled.1 < 10);
    assert!(first.contains(&format!("{} Coffee from you!", settled.1)));
    assert_eq!(screen(&mut state), first);
}

#[test]
fn victory_recovers_gold() {
    let mut state = started_game();
    state.gold = 500;
    state.mode = Mode::GameEvent(LocationEvent::PirateEncounter(PirateEncounterState::Victory { gold_recovered: 1121 }));
    let text = screen(&mut state);
    assert!(text.contains("You have sank all of the pirates!"));
    assert!(text.contains("You recover 1121 gold from the wreckage!"));
    press(&mut state, 'x');
    let text = screen(&mut state);
    assert!(text.contains("Captain, the prices of goods here are:"));
    assert!(text.contains("Gold:    1621"));
}

#[test]
fn missed_shot_is_told() {
    let mut state = started_game();
    state.cannons = 2;
    state.mode = Mode::GameEvent(LocationEvent::PirateEncounter(PirateEncounterState::AttackResult {
        info: PirateEncounterInfo::new(1),
        did_kill_a_pirate: false,
    }));
    let text = screen(&mut state);
    assert!(text.contains("Health 5, Pirates 1, Cannons 2."));
    assert!(text.contains("You fire your cannons at the pirates, but you only hit water!"));
}

#[test]
fn offers_and_quiet_days() {
    let text = render_component(CanBuyHoldSpace { price: 800, more_hold: 70 }).unwrap();
    assert!(text.contains("enlarge your hold by 70"));
    assert!(text.contains("for 800 gold."));
    assert!(text.contains("Accept? y/n"));
    let text = render_component(NoEffect { variant: NoEffectEvent::SunnyDay }).unwrap();
    assert!(text.contains("The sun shines on a calm harbor."));
    let mut state = started_game();
    state.mode = Mode::GameEvent(LocationEvent::NoEffect(NoEffectEvent::StormOnHorizon));
    assert!(screen(&mut state).contains("A storm gathers on the horizon"));
    press(&mut state, 'a');
    assert!(screen(&mut state).contains("(1) Buy"));
}

#[test]
fn away_from_home_only_trade_and_sail() {
    let mut state = started_game();
    state.location = Location::Venice;
    let text = screen(&mut state);
    assert!(text.contains("(3) Sail"));
    assert!(!text.contains("(4) Stash deposit"));
    assert!(!text.contains("(_________)"));
}
