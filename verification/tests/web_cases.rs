use merchant::engine::{update, update_would_panic, UpdateError, UpdateSignal};
use merchant::game_rng::{default_location_config, default_location_info};
use merchant::game_state::GameState;
use merchant::goods_map::{GoodsMap, PriceRanges};
use merchant::html_text::parse_html_to_raw_text;
use merchant::keys::{KeyCode, KeyEvent, KeyModifiers};
use merchant::location_map::LocationMap;
use rand::rngs::StdRng;
use rand::SeedableRng;
use merchant::scene::{can_draw, html_render_scene};

type UpdateResult<T> = Result<T, UpdateError>;

fn ranges() -> PriceRanges {
    GoodsMap { tea: (100, 200), coffee: (50, 100), sugar: (20, 40), tobacco: (10, 20), rum: (5, 10), cotton: (1, 5) }
}

/// A new game whose every port has the default prices and no event.
fn new_game() -> GameState {
    let mut state = GameState::new(StdRng::seed_from_u64(42), default_location_config(ranges()));
    let info = default_location_info();
    state.locations = LocationMap { london: info, savannah: info, lisbon: info, amsterdam: info, capetown: info, venice: info };
    state
}

/// Drives a game the way the browser page does: renders HTML, hands keys to
/// the game, starts a new game when asked to play again.
struct TestEngine {
    game_state: GameState,
    html: String,
}

impl TestEngine {
    fn from_game_state(game_state: GameState) -> UpdateResult<TestEngine> {
        let mut e = TestEngine { game_state, html: String::new() };
        e.draw();
        Ok(e)
    }

    fn draw(&mut self) {
        assert!(can_draw(&self.game_state));
        self.html = html_render_scene(&mut self.game_state).unwrap().html;
    }

    fn get_current_formatted(&self) -> String {
        parse_html_to_raw_text(&self.html)
    }

    fn expect(&self, expectation: &str) -> bool {
        let formatted = self.get_current_formatted();
        let result = formatted.contains(expectation.trim_matches('\n'));
        if !result {
            println!("----------------\n{}\n----------------", formatted);
        }
        result
    }

    fn keypress(&mut self, code: KeyCode) -> UpdateResult<()> {
        let event = KeyEvent::new(code, KeyModifiers::empty());
        assert!(!update_would_panic(&self.game_state, &event));
        if update(&mut self.game_state, event, false)? == UpdateSignal::Restart {
            self.game_state = new_game();
        }
        self.draw();
        Ok(())
    }

    fn charpress(&mut self, c: char) -> UpdateResult<()> {
        self.keypress(KeyCode::Char(c))
    }

    fn enterpress(&mut self) -> UpdateResult<()> {
        self.keypress(KeyCode::Enter)
    }
}

#[test]
fn end_game_restart() -> UpdateResult<()> {
    let mut e = TestEngine::from_game_state({
        let mut state = new_game();
        state.initialize();
        state.gold = 100;
        state.debt = 40000;
        state.game_end = true;
        state
    })?;
    assert!(e.expect("(Enter) to play again"));
    e.enterpress()?;
    assert!(e.expect("Press any key to begin"));
    Ok(())
}

#[test]
fn buy_good_text_input_works() -> UpdateResult<()> {
    let mut e = TestEngine::from_game_state({
        let mut state = new_game();
        state.initialize();
        state.gold = 1400;
        state.inventory.cotton = 15;
        state.locations.london.prices.cotton = 30;
        state
    })?;
    assert!(e.expect("Gold:    1400"));
    assert!(e.expect("Cotton:   15"));
    assert!(e.expect("Cotton:   30"));
    assert!(e.expect("(1) Buy"));
    e.charpress('1')?;
    assert!(e.expect("Which do you want to buy?"));
    assert!(e.expect("(6) Cotton"));
    e.charpress('6')?;
    assert!(e.expect("How much Cotton do you want?"));
    assert!(e.expect("You can afford (46)"));
    e.charpress('1')?;
    assert!(e.expect("How much Cotton do you want? 1"));
    assert!(e.expect("You can afford (46)"));
    e.charpress('0')?;
    assert!(e.expect("How much Cotton do you want? 10"));
    assert!(e.expect("You can afford (46)"));
    e.enterpress()?;
    assert!(e.expect("Cotton:   25"));
    assert!(e.expect("Gold:    1100"));
    Ok(())
}

#[test]
fn the_html_screen_matches_the_text_screen() {
    let mut state = new_game();
    state.initialize();
    let html = html_render_scene(&mut state).unwrap().html;
    let frame = merchant::scene::render_scene(&mut state);
    let text = merchant::render_raw::render_raw(&frame).result;
    assert_eq!(parse_html_to_raw_text(&html), text);
}
