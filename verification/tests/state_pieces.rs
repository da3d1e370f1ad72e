use merchant::captured_write::CapturedWrite;
use merchant::components::{render_component, AchievementTier, GameEndScreen};
use merchant::commands::MoveUp;
use merchant::events::{LocationEvent, NoEffectEvent, PirateEncounterInfo, PirateEncounterState};
use merchant::game_rng;
use merchant::game_rng::{default_location_config, default_location_info, default_location_infos, MockRng};
use merchant::game_state::GameState;
use merchant::good::Good;
use merchant::goods_map::{GoodsMap, Inventory, PriceRanges};
use merchant::html::{color_to_css, escape_html, render_printable_to_html};
use merchant::commands::Printable;
use merchant::location::Location;
use merchant::locations::{location_info_from_rolls, price_from_roll, EventPossibility, EventWeights, LocationInfo};
use rand::rngs::StdRng;
use rand::SeedableRng;
use merchant::style::{Attribute, Color, ContentStyle, StyledContent, Stylize};
use merchant::text::decimal_string;

fn ranges() -> PriceRanges {
    GoodsMap { tea: (100, 200), coffee: (50, 100), sugar: (20, 40), tobacco: (10, 20), rum: (5, 10), cotton: (1, 5) }
}

#[test]
fn gen_gold_recovered_from_pirate_encounter() {
    assert_eq!(game_rng::gen_gold_recovered_from_pirate_encounter(&mut StdRng::seed_from_u64(42), 3), 2100);
}

#[test]
fn gen_damange_from_pirates() {
    assert_eq!(game_rng::gen_damage_from_pirates(&mut StdRng::seed_from_u64(42), 3), 1);
}

#[test]
fn gen_did_kill_a_pirate() {
    assert!(!game_rng::gen_did_kill_a_pirate(&mut StdRng::seed_from_u64(42), 3));
}

#[test]
fn gen_num_pirates_encountered() {
    assert_eq!(game_rng::gen_num_pirates_encountered(&mut StdRng::seed_from_u64(42)), 2);
}

#[test]
fn inventory_counts_and_changes() {
    let mut inv: Inventory = GoodsMap { tea: 1, coffee: 2, sugar: 3, tobacco: 4, rum: 5, cotton: 6 };
    assert_eq!(inv.total_amount(), 21);
    assert_eq!(inv.add_good(&Good::Rum, 10), 15);
    assert_eq!(inv.remove_good(&Good::Tea, 1), 0);
    assert_eq!(inv, GoodsMap { tea: 0, coffee: 2, sugar: 3, tobacco: 4, rum: 15, cotton: 6 });
    assert_eq!(inv.max_good(), Good::Rum);
    assert_eq!(inv.min_good(), Good::Tea);
    assert_eq!(*inv.get_good(&Good::Sugar), 3);
}

#[test]
fn net_worth_uses_average_prices() {
    let inv: Inventory = GoodsMap { tea: 1, coffee: 0, sugar: 0, tobacco: 0, rum: 2, cotton: 0 };
    // averages rounded up: tea 150, rum 8
    assert_eq!(ranges().avg_prices().tea, 150);
    assert_eq!(ranges().avg_prices().rum, 8);
    assert_eq!(inv.net_worth(&ranges()), 166);
}

#[test]
fn subsections_of_price_ranges() {
    let home = ranges().generate_subsection(None, None);
    assert_eq!(home.tea, (140, 160));
    let port = ranges().generate_subsection(Some(Good::Tea), Some(Good::Coffee));
    assert_eq!(port.tea, (100, 160));
    assert_eq!(port.coffee, (70, 100));
    assert_eq!(port.sugar, (24, 36));
}

#[test]
fn prices_drawn_from_rolls() {
    assert_eq!(price_from_roll((10, 20), 37), 17);
    let prices: Inventory = GoodsMap { tea: 9, coffee: 8, sugar: 7, tobacco: 6, rum: 5, cotton: 4 };
    let cheap = location_info_from_rolls(prices, EventPossibility::CheapGood, 1, 0, 500, 65, true);
    assert_eq!(cheap.event, Some(LocationEvent::CheapGood(Good::Coffee)));
    assert_eq!(cheap.prices.coffee, 4);
    let dear = location_info_from_rolls(prices, EventPossibility::ExpensiveGood, 6, 0, 500, 65, true);
    assert_eq!(dear.event, Some(LocationEvent::ExpensiveGood(Good::Tea)));
    assert_eq!(dear.prices.tea, 18);
    let found = location_info_from_rolls(prices, EventPossibility::FindGoods, 2, 23, 500, 65, true);
    assert_eq!(found.event, Some(LocationEvent::FindGoods(Good::Sugar, 4)));
    let calm = location_info_from_rolls(prices, EventPossibility::NoEffect, 0, 0, 500, 65, false);
    assert_eq!(calm.event, Some(LocationEvent::NoEffect(NoEffectEvent::StormOnHorizon)));
    let none = location_info_from_rolls(prices, EventPossibility::NoEvent, 0, 0, 500, 65, false);
    assert_eq!(none.event, None);
    assert_eq!(none.prices, prices);
}

#[test]
fn event_weights_in_order() {
    let w = EventWeights {
        no_event: 6,
        cheap_good: 1,
        expensive_good: 2,
        find_goods: 3,
        stolen_goods: 4,
        can_buy_cannon: 5,
        pirate_encounter: 7,
        can_buy_more_hold_space: 8,
        no_effect: 9,
    };
    assert_eq!(w.weights(), [6, 1, 2, 3, 4, 5, 7, 8, 9]);
    assert!(w.is_drawable());
    let zero = EventWeights {
        no_event: 0,
        cheap_good: 0,
        expensive_good: 0,
        find_goods: 0,
        stolen_goods: 0,
        can_buy_cannon: 0,
        pirate_encounter: 0,
        can_buy_more_hold_space: 0,
        no_effect: 0,
    };
    assert!(!zero.is_drawable());
    assert!(default_location_config(ranges()).is_playable());
}

#[test]
fn an_event_drawn_from_one_weight_is_that_event() {
    let only_cannons = EventWeights {
        no_event: 0,
        cheap_good: 0,
        expensive_good: 0,
        find_goods: 0,
        stolen_goods: 0,
        can_buy_cannon: 3,
        pirate_encounter: 0,
        can_buy_more_hold_space: 0,
        no_effect: 0,
    };
    let mut rng = StdRng::seed_from_u64(1);
    for _ in 0..10 {
        assert!(matches!(only_cannons.generate_random_event(&mut rng), EventPossibility::CanBuyCannon));
    }
}

#[test]
fn goods_and_ports_in_order() {
    assert_eq!(
        Good::variants(),
        vec![Good::Tea, Good::Coffee, Good::Sugar, Good::Tobacco, Good::Rum, Good::Cotton]
    );
    assert_eq!(Good::Tobacco.name(), "Tobacco");
    assert_eq!(Location::variants().len(), 6);
    assert_eq!(Location::CapeTown.name(), "Cape Town");
    assert_eq!(Good::from_roll(8), Good::Sugar);
    let mut shuffled = Good::variants_random_order(&mut StdRng::seed_from_u64(5));
    shuffled.sort_by_key(|g| g.name());
    assert_eq!(shuffled.len(), 6);
}

#[test]
fn an_empty_port() {
    let info = LocationInfo::empty();
    assert_eq!(info.event, None);
    assert_eq!(info.prices, GoodsMap { tea: 0, coffee: 0, sugar: 0, tobacco: 0, rum: 0, cotton: 0 });
}

#[test]
fn a_mock_generator_hands_out_what_it_was_given() {
    let mut rng = MockRng::new()
        .push_damage_from_pirates(2)
        .push_damage_from_pirates(1)
        .push_good_stolen((Good::Rum, 3))
        .push_location_infos(&default_location_infos());
    assert_eq!(rng.gen_damage_from_pirates(), 2);
    assert_eq!(rng.gen_damage_from_pirates(), 1);
    assert_eq!(rng.gen_good_stolen(), (Good::Rum, 3));
    assert_eq!(rng.gen_location_info(), default_location_info());
    let mut defaults = MockRng::new_with_default_locations(ranges());
    assert_eq!(defaults.gen_location_config().home_port, Location::London);
    assert_eq!(defaults.gen_location_info().prices.tea, 6);
}

#[test]
fn a_new_encounter_starts_at_full_health() {
    assert_eq!(
        PirateEncounterInfo::new(3),
        PirateEncounterInfo { health: 5, total_pirates: 3, cur_pirates: 3 }
    );
    let attack = PirateEncounterState::pirates_attack(PirateEncounterInfo::new(0), &mut StdRng::seed_from_u64(9));
    assert!(matches!(
        attack,
        Ok(PirateEncounterState::PiratesAttack { damage_this_attack: 0, .. })
    ));
}

#[test]
fn achievement_tiers() {
    let r = ranges();
    assert_eq!(AchievementTier::from_net_worth(0, &r), AchievementTier::InDebt);
    assert_eq!(AchievementTier::from_net_worth(-5, &r), AchievementTier::InDebt);
    assert_eq!(AchievementTier::from_net_worth(500, &r), AchievementTier::Poor);
    assert_eq!(AchievementTier::from_net_worth(501, &r), AchievementTier::Okay);
    assert_eq!(AchievementTier::from_net_worth(2000, &r), AchievementTier::Okay);
    assert_eq!(AchievementTier::from_net_worth(10000, &r), AchievementTier::Good);
    assert_eq!(AchievementTier::from_net_worth(10001, &r), AchievementTier::Great);
}

#[test]
fn the_end_screen_judges_the_result() {
    let mut state = GameState::new(StdRng::seed_from_u64(4), default_location_config(ranges()));
    state.gold = 100;
    state.bank = 50;
    state.debt = 1000;
    let text = render_component(GameEndScreen(&state)).unwrap();
    assert!(text.contains("After three years, you went from being"));
    assert!(text.contains("1000 gold in debt"));
    assert!(text.contains("to being"));
    assert!(text.contains("850 gold in debt"));
    assert!(text.contains("Obviously, your father is disappointed in you."));
    assert!(text.contains("(q) to quit, (Enter) to play again"));
    state.gold = 20000;
    let text = render_component(GameEndScreen(&state)).unwrap();
    assert!(text.contains("to having"));
    assert!(text.contains("19050 gold"));
    assert!(text.contains("He has decided to retire today, handing the full empire over to you."));
}

#[test]
fn a_drawing_off_the_screen_cannot_be_rendered() {
    assert_eq!(render_component(MoveUp(1)), None);
}

#[test]
fn numbers_in_decimal() {
    assert_eq!(decimal_string(0), "0");
    assert_eq!(decimal_string(7), "7");
    assert_eq!(decimal_string(1782), "1782");
    assert_eq!(decimal_string(u64::MAX), "18446744073709551615");
}

#[test]
fn html_escapes_and_colors() {
    assert_eq!(escape_html("a<"), "<span class=\"char\">a</span><span class=\"char\">&lt;</span>");
    assert_eq!(escape_html("\n"), "<span class=\"char\"><br /></span>");
    assert_eq!(color_to_css(Color::Rgb { r: 1, g: 20, b: 255 }), "rgb(1, 20, 255)");
    assert_eq!(color_to_css(Color::AnsiValue(42)), "color-42");
    assert_eq!(color_to_css(Color::DarkCyan), "#088");
    let styled = Printable::StyledContent(StyledContent::new(
        ContentStyle::new().on(Color::Black).underline(Color::White),
        "x".to_string(),
    ));
    assert_eq!(
        render_printable_to_html(&styled),
        "<span style=\"background-color: black; text-decoration-color: white\"><span class=\"char\">x</span></span>"
    );
    assert_eq!(render_printable_to_html(&Printable::Char('&')), "<span class=\"char\">&amp;</span>");
    let bold = Printable::StyledContent("y".to_string().attribute(Attribute::Bold));
    assert_eq!(render_printable_to_html(&bold), "<span class=\"bold\"><span class=\"char\">y</span></span>");
}

#[test]
fn captured_writes_pile_up() {
    let mut w = CapturedWrite::new();
    assert_eq!(w.write_text("ab"), 2);
    assert_eq!(w.write_text("é"), 2);
    assert_eq!(w.buffer, "abé");
    assert!(!w.flushed);
    w.flush();
    assert!(w.flushed);
    w.reset();
    assert_eq!(w.buffer, "");
    assert!(!w.flushed);
}

#[test]
fn laws_hold_on_a_voyage() {
    let mut state = GameState::new(StdRng::seed_from_u64(11), default_location_config(ranges()));
    state.mode = merchant::game_state::Mode::Sailing;
    let before = (state.date.0 as u32) * 12 + state.date.1 as u32;
    let debt = state.debt;
    state.sail_to(&Location::Amsterdam).unwrap();
    assert_eq!((state.date.0 as u32) * 12 + state.date.1 as u32, before + 1);
    assert!(state.debt >= debt);
}
