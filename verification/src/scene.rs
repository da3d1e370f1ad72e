use vstd::prelude::*;

use crate::commands::{Cmd, Frame};
use crate::components::{plain_line, ScreenCenteredText};
use crate::html::{html_ok, html_renders, is_html_rendering, render_to_html, HtmlRenderOutput};
use crate::components::{cmds_view, drawn, lemma_drawn_start, CmdView};
use crate::encounters::{encounter_view, PirateEncounter};
use crate::events::{GoodsStolenResult, LocationEvent};
use crate::game_state::{hold_left, possible_theft, price_here, GameState, Mode};
use crate::good::Good;
use crate::goods_map::inventory_total;
use crate::panels::{inventory_base_view, ViewingInventoryBase};
use crate::prompts::{
    action_items, amount_input_view, buy_input_view, cannon_offer_items, choose_good_view, find_goods_view,
    good_amount_view, goods_stolen_items, hold_offer_items, no_effect_text, sail_items, BankDepositInput,
    BankWithdrawInput, BuyInput, BuyPrompt, CanBuyCannon, CanBuyHoldSpace, CheapGoodDialog, ExpensiveGoodDialog,
    FindGoodsDialog, GoodsStolenDialog, NoEffect, PayDebtInput, SailPrompt, SellInput, SellPrompt,
    StashDepositInput, StashDepositPrompt, StashWithdrawInput, StashWithdrawPrompt, ViewingInventoryActions,
    about_good, PROMPT_OFFSET_X, PROMPT_OFFSET_Y,
};
use crate::screens::{placed_view, text_at};
use crate::title_screens::{game_end_view, splash_view, GameEndScreen, SplashScreen};

verus! {

/// What the prompt area shows in each mode, under the screen of the port.
/// A theft not yet settled shows nothing: drawing settles it first.
pub open spec fn mode_view(s: GameState) -> Seq<CmdView> {
    match s.mode {
        Mode::ViewingInventory => placed_view(action_items(s.location == s.location_config.home_port, s.debt)),
        Mode::Buying(Some(t)) => buy_input_view(t.good, t.amount, s.gold, price_here(s, t.good), hold_left(s)),
        Mode::Buying(None) => choose_good_view("Which do you want to buy?"@),
        Mode::Selling(Some(t)) => good_amount_view(t.good, "want to sell? "@, "You have ("@, s.inventory.at(t.good), t.amount),
        Mode::Selling(None) => choose_good_view("Which do you want to sell?"@),
        Mode::Sailing => placed_view(sail_items()),
        Mode::StashDeposit(Some(t)) => good_amount_view(
            t.good,
            "want to stash? "@,
            "You have ("@,
            s.inventory.at(t.good),
            t.amount,
        ),
        Mode::StashDeposit(None) => choose_good_view("Which do you want to stash?"@),
        Mode::StashWithdraw(Some(t)) => good_amount_view(
            t.good,
            "want to withdraw? "@,
            "There are ("@,
            s.stash.at(t.good),
            t.amount,
        ),
        Mode::StashWithdraw(None) => choose_good_view("Which do you want to withdraw?"@),
        Mode::PayDebt(a) => amount_input_view("How much debt do you"@, "want to pay down? "@, a),
        Mode::BankDeposit(a) => amount_input_view("How much gold do you want"@, "to deposit in the bank? "@, a),
        Mode::BankWithdraw(a) => amount_input_view("How much gold do you"@, "want to withdraw? "@, a),
        Mode::GameEvent(e) => match e {
            LocationEvent::CheapGood(g) => text_at(PROMPT_OFFSET_X, PROMPT_OFFSET_Y, about_good("Cheap "@, g, " here!"@)),
            LocationEvent::ExpensiveGood(g) => text_at(
                PROMPT_OFFSET_X,
                PROMPT_OFFSET_Y,
                about_good("Expensive "@, g, " here!"@),
            ),
            LocationEvent::FindGoods(g, amount) => find_goods_view(g, amount, hold_left(s)),
            LocationEvent::GoodsStolen(Some(r)) => placed_view(goods_stolen_items(r)),
            LocationEvent::GoodsStolen(None) => Seq::empty(),
            LocationEvent::CanBuyCannon => placed_view(cannon_offer_items()),
            LocationEvent::PirateEncounter(_) => Seq::empty(),
            LocationEvent::CanBuyHoldSpace { price, more_hold } => placed_view(hold_offer_items(price, more_hold)),
            LocationEvent::NoEffect(v) => text_at(PROMPT_OFFSET_X, PROMPT_OFFSET_Y, no_effect_text(v)),
        },
    }
}

/// The whole screen for a state: the splash screen before the game starts,
/// the end screen once it is over, a pirate encounter on its own screen, and
/// otherwise the screen of the port with what the mode shows.
pub open spec fn scene_view(s: GameState) -> Seq<CmdView> {
    if !s.initialized {
        splash_view()
    } else if s.game_end {
        game_end_view(s)
    } else if let Mode::GameEvent(LocationEvent::PirateEncounter(st)) = s.mode {
        encounter_view(st, s.cannons, s.date)
    } else {
        inventory_base_view(s) + mode_view(s)
    }
}

/// Whether a state can be drawn without failing.
/// The end screen adds the gold in the purse and in the bank; the buying
/// prompt divides the gold by the price and counts the room in the hold; the
/// found goods count that room too; and settling a theft draws an amount
/// below what is held of a good, so none is held exactly once.
pub open spec fn scene_fits(s: GameState) -> bool {
    &&& s.initialized && s.game_end ==> s.gold + s.bank <= u32::MAX
    &&& s.initialized && !s.game_end ==> match s.mode {
        Mode::Buying(Some(t)) => price_here(s, t.good) > 0 && inventory_total(s.inventory) <= u32::MAX,
        Mode::GameEvent(LocationEvent::FindGoods(_, _)) => inventory_total(s.inventory) <= u32::MAX,
        Mode::GameEvent(LocationEvent::GoodsStolen(None)) => forall|g: Good| #[trigger] s.inventory.at(g) != 1,
        _ => true,
    }
}

/// Whether drawing is about to settle a theft.
pub open spec fn settles_theft(s: GameState) -> bool {
    s.initialized && !s.game_end && s.mode == Mode::GameEvent(LocationEvent::GoodsStolen(None))
}

/// What drawing does to the state: a theft not yet settled is settled (a draw
/// among the goods held, kept in the mode); nothing else changes.
pub open spec fn scene_state(s: GameState, t: GameState) -> bool {
    if settles_theft(s) {
        exists|r: GoodsStolenResult|
            #![trigger possible_theft(s.inventory, r)]
            possible_theft(s.inventory, r) && t == GameState {
                rng: t.rng,
                mode: Mode::GameEvent(LocationEvent::GoodsStolen(Some(r))),
                ..s
            }
    } else {
        t == s
    }
}

/// Appends the screen for the state to the frame; see [scene_view] and [scene_state].
pub fn render_scene_to_existing(frame: &mut Frame, state: &mut GameState)
    requires
        scene_fits(*old(state)),
    ensures
        scene_state(*old(state), *final(state)),
        drawn(final(frame)@, old(frame)@, scene_view(*final(state))),
{
    if state.initialized && !state.game_end {
        if let Mode::GameEvent(LocationEvent::GoodsStolen(None)) = state.mode {
            let r = state.compute_goods_stolen();
            assert(possible_theft(old(state).inventory, r));
        }
    }
    let ghost base = frame@;
    proof { lemma_drawn_start(base); }
    let ghost empty = Seq::<CmdView>::empty();
    let state = &*state;
    if !state.initialized {
        SplashScreen().emit_into(frame, Ghost(base), Ghost(empty));
        assert(empty + splash_view() =~= splash_view());
        return;
    }
    if state.game_end {
        GameEndScreen(state).emit_into(frame, Ghost(base), Ghost(empty));
        assert(empty + game_end_view(*state) =~= game_end_view(*state));
        return;
    }
    if let Mode::GameEvent(LocationEvent::PirateEncounter(st)) = state.mode {
        PirateEncounter(st, state).emit_into(frame, Ghost(base), Ghost(empty));
        assert(empty + encounter_view(st, state.cannons, state.date) =~= encounter_view(st, state.cannons, state.date));
        return;
    }
    ViewingInventoryBase(state).emit_into(frame, Ghost(base), Ghost(empty));
    let ghost s1 = empty + inventory_base_view(*state);
    emit_mode(frame, state, Ghost(base), Ghost(s1));
    assert(s1 + mode_view(*state) =~= scene_view(*state));
}

/// Appends what the mode shows; see [mode_view].
fn emit_mode(frame: &mut Frame, state: &GameState, Ghost(base): Ghost<Seq<Cmd>>, Ghost(shown): Ghost<Seq<CmdView>>)
    requires
        drawn(old(frame)@, base, shown),
        state.initialized && !state.game_end,
        scene_fits(*state),
    ensures
        drawn(final(frame)@, base, shown + mode_view(*state)),
{
    match &state.mode {
        Mode::ViewingInventory => {
            ViewingInventoryActions {
                location: &state.location,
                home_port: &state.location_config.home_port,
                debt: state.debt,
            }.emit_into(frame, Ghost(base), Ghost(shown));
        },
        Mode::Buying(info) => match info {
            Some(info) => BuyInput { info, state }.emit_into(frame, Ghost(base), Ghost(shown)),
            None => BuyPrompt.emit_into(frame, Ghost(base), Ghost(shown)),
        },
        Mode::Selling(info) => match info {
            Some(info) => {
                let current_amount = state.inventory.get_good(&info.good);
                SellInput(info, current_amount).emit_into(frame, Ghost(base), Ghost(shown));
            },
            None => SellPrompt.emit_into(frame, Ghost(base), Ghost(shown)),
        },
        Mode::Sailing => SailPrompt.emit_into(frame, Ghost(base), Ghost(shown)),
        Mode::StashDeposit(info) => match info {
            Some(info) => {
                let current_amount = state.inventory.get_good(&info.good);
                StashDepositInput(info, current_amount).emit_into(frame, Ghost(base), Ghost(shown));
            },
            None => StashDepositPrompt.emit_into(frame, Ghost(base), Ghost(shown)),
        },
        Mode::StashWithdraw(info) => match info {
            Some(info) => {
                let current_amount = state.stash.get_good(&info.good);
                StashWithdrawInput(info, current_amount).emit_into(frame, Ghost(base), Ghost(shown));
            },
            None => StashWithdrawPrompt.emit_into(frame, Ghost(base), Ghost(shown)),
        },
        Mode::PayDebt(amount) => PayDebtInput(amount).emit_into(frame, Ghost(base), Ghost(shown)),
        Mode::BankDeposit(amount) => BankDepositInput(amount).emit_into(frame, Ghost(base), Ghost(shown)),
        Mode::BankWithdraw(amount) => BankWithdrawInput(amount).emit_into(frame, Ghost(base), Ghost(shown)),
        Mode::GameEvent(event) => match event {
            LocationEvent::CheapGood(good) => CheapGoodDialog(good).emit_into(frame, Ghost(base), Ghost(shown)),
            LocationEvent::ExpensiveGood(good) => ExpensiveGoodDialog(good).emit_into(frame, Ghost(base), Ghost(shown)),
            LocationEvent::FindGoods(good, amount) => FindGoodsDialog(good, amount, state).emit_into(
                frame,
                Ghost(base),
                Ghost(shown),
            ),
            LocationEvent::GoodsStolen(info) => match info {
                Some(info) => GoodsStolenDialog(*info).emit_into(frame, Ghost(base), Ghost(shown)),
                None => {
                    assert(shown + Seq::<CmdView>::empty() =~= shown);
                },
            },
            LocationEvent::CanBuyCannon => CanBuyCannon.emit_into(frame, Ghost(base), Ghost(shown)),
            LocationEvent::PirateEncounter(_) => {
                assert(shown + Seq::<CmdView>::empty() =~= shown);
            },
            LocationEvent::CanBuyHoldSpace { price, more_hold } => CanBuyHoldSpace {
                price: *price,
                more_hold: *more_hold,
            }.emit_into(frame, Ghost(base), Ghost(shown)),
            LocationEvent::NoEffect(variant) => NoEffect { variant: *variant }.emit_into(frame, Ghost(base), Ghost(shown)),
        },
    }
}

/// Whether a state can be drawn; see [scene_fits]. Drawing must not be asked
/// for a state that cannot.
pub fn can_draw(state: &GameState) -> (r: bool)
    ensures
        r == scene_fits(*state),
{
    let max: u64 = 0xffff_ffff;
    if state.initialized && state.game_end {
        return state.gold as u64 + state.bank as u64 <= max;
    }
    if !state.initialized {
        return true;
    }
    match state.mode {
        Mode::Buying(Some(t)) => {
            let price = *state.locations.location_info(&state.location).prices.get_good(&t.good);
            price > 0 && crate::engine::total_wide(&state.inventory) <= max
        },
        Mode::GameEvent(LocationEvent::FindGoods(_, _)) => crate::engine::total_wide(&state.inventory) <= max,
        Mode::GameEvent(LocationEvent::GoodsStolen(None)) => {
            let inv = &state.inventory;
            let r = inv.tea != 1 && inv.coffee != 1 && inv.sugar != 1 && inv.tobacco != 1 && inv.rum != 1 && inv.cotton != 1;
            assert(r == forall|g: Good| #[trigger] inv.at(g) != 1) by {
                if !r {
                    if inv.tea == 1 { assert(inv.at(Good::Tea) == 1); }
                    if inv.coffee == 1 { assert(inv.at(Good::Coffee) == 1); }
                    if inv.sugar == 1 { assert(inv.at(Good::Sugar) == 1); }
                    if inv.tobacco == 1 { assert(inv.at(Good::Tobacco) == 1); }
                    if inv.rum == 1 { assert(inv.at(Good::Rum) == 1); }
                    if inv.cotton == 1 { assert(inv.at(Good::Cotton) == 1); }
                }
            }
            r
        },
        _ => true,
    }
}

/// The screen for the state in a new frame; see [render_scene_to_existing].
pub fn render_scene(state: &mut GameState) -> (r: Frame)
    requires
        scene_fits(*old(state)),
    ensures
        scene_state(*old(state), *final(state)),
        cmds_view(r@) == scene_view(*final(state)),
{
    let mut frame = Frame::new();
    render_scene_to_existing(&mut frame, state);
    assert(frame@.skip(0) =~= frame@);
    frame
}

/// What a browser shows for a state: the screen, and once the game is over
/// the offer to play again, centered on the last rows.
pub open spec fn html_scene_view(s: GameState) -> Seq<CmdView> {
    scene_view(s) + if s.game_end {
        plain_line("(Enter) to play again"@, 29)
    } else {
        Seq::empty()
    }
}

/// The screen for the state rendered as HTML; see [html_scene_view]. The
/// state changes as drawing changes it (see [scene_state]). Fails where the
/// drawing cannot be rendered as HTML.
pub fn html_render_scene(state: &mut GameState) -> (r: Result<HtmlRenderOutput, String>)
    requires
        scene_fits(*old(state)),
    ensures
        scene_state(*old(state), *final(state)),
        match r {
            Ok(out) => exists|cmds: Seq<Cmd>|
                #![trigger html_ok(cmds)]
                cmds_view(cmds) == html_scene_view(*final(state)) && html_ok(cmds) && is_html_rendering(cmds, out),
            Err(_) => exists|cmds: Seq<Cmd>|
                #![trigger html_ok(cmds)]
                cmds_view(cmds) == html_scene_view(*final(state)) && !html_ok(cmds),
        },
{
    let mut frame = Frame::new();
    render_scene_to_existing(&mut frame, state);
    let ghost base = Seq::<Cmd>::empty();
    let ghost shown = scene_view(*state);
    if state.game_end {
        let texts = [crate::text::str_to_string("(Enter) to play again")];
        let line = ScreenCenteredText::new(&texts, 29);
        proof {
            assert(texts@.map_values(|t: String| t@) =~= seq!["(Enter) to play again"@]);
            assert(texts@.map_values(|t: String| CmdView::PrintText(t@)) =~= seq![
                CmdView::PrintText("(Enter) to play again"@),
            ]);
        }
        line.emit_into(&mut frame, Ghost(base), Ghost(shown));
        assert(line.view_cmds() == plain_line("(Enter) to play again"@, 29));
    } else {
        assert(shown + Seq::<CmdView>::empty() =~= shown);
    }
    assert(frame@.skip(0) =~= frame@);
    assert(cmds_view(frame@) == html_scene_view(*state));
    if html_renders(&frame) {
        Ok(render_to_html(&frame))
    } else {
        Err(crate::text::str_to_string("the screen cannot be rendered as HTML"))
    }
}

} // verus!
