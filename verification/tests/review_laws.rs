use merchant::ansi_format::{repair_tokens, AnsiToken};
use merchant::game_rng::default_location_info;
use merchant::goods_map::{GoodsMap, Inventory};
use merchant::html::escape_html;
use merchant::html_text::parse_html_to_raw_text;
use merchant::locations::{LocationInfo, LocationInfos};
use merchant::style::{Attribute, Attributes};

#[test]
fn escaped_text_reads_back_as_itself() {
    for s in ["", "plain", "<b>&amp; \"quoted\" 'single'</b>", "two\nlines  spaced", "ünïcödé ✓ <br>"] {
        assert_eq!(parse_html_to_raw_text(&escape_html(s)), s);
    }
}

#[test]
fn an_attribute_set_is_empty_exactly_without_underline_and_bold() {
    let none = Attributes::none();
    assert!(none.is_empty());
    assert!(!none.with(Attribute::Bold).is_empty());
    assert!(!none.with(Attribute::Underlined).is_empty());
    let mut s = none.with(Attribute::Bold).with(Attribute::Underlined);
    s.unset(Attribute::Bold);
    assert!(!s.is_empty());
    s.toggle(Attribute::Underlined);
    assert!(s.is_empty());
    assert_eq!(s.is_empty(), !s.has(Attribute::Underlined) && !s.has(Attribute::Bold));
}

#[test]
fn repairing_drops_style_changes_and_keeps_the_rest() {
    let parsed = vec![
        AnsiToken::SetGraphicsMode,
        AnsiToken::TextBlock("ab".to_string()),
        AnsiToken::CursorUp(2),
        AnsiToken::OtherEscape,
        AnsiToken::TextBlock(String::new()),
    ];
    assert_eq!(
        repair_tokens(&parsed),
        Some(vec![AnsiToken::TextBlock("ab".to_string()), AnsiToken::CursorUp(2), AnsiToken::OtherEscape])
    );
    assert_eq!(repair_tokens(&vec![]), Some(vec![]));
}

#[test]
fn mapping_with_the_identity_gives_the_map_back() {
    let m: Inventory = GoodsMap { tea: 1, coffee: 2, sugar: 3, tobacco: 4, rum: 5, cotton: 6 };
    assert_eq!(m.map(|x: &u32| *x), m);
    let doubled = m.map(|x: &u32| *x * 2);
    assert_eq!(doubled, GoodsMap { tea: 2, coffee: 4, sugar: 6, tobacco: 8, rum: 10, cotton: 12 });
}

#[test]
fn six_draws_are_placed_london_to_venice() {
    let mut draws: Vec<LocationInfo> = Vec::new();
    for k in 0..6u32 {
        let mut info = default_location_info();
        info.prices.tea = 100 + k;
        draws.push(info);
    }
    let placed = LocationInfos::from_draws(draws[0], draws[1], draws[2], draws[3], draws[4], draws[5]);
    assert_eq!(placed.london.prices.tea, 100);
    assert_eq!(placed.savannah.prices.tea, 101);
    assert_eq!(placed.lisbon.prices.tea, 102);
    assert_eq!(placed.amsterdam.prices.tea, 103);
    assert_eq!(placed.capetown.prices.tea, 104);
    assert_eq!(placed.venice.prices.tea, 105);
}
