use vstd::prelude::*;

use crate::events::{PirateEncounterInfo, PirateEncounterState};
use crate::good::Good;
use crate::goods_map::{inventory_total, lemma_at_with_at};
use crate::game_state::{
    backspace_step, bank_deposit_step, bank_withdraw_step, begin_step, buy_step, digit_step, hold_left,
    mode_step, pay_debt_step, pirates_attack_step, sailed, sell_step, stash_deposit_step,
    stash_withdraw_step, typed_amount, typed_fits, with_mode, GameState, Mode, Transaction,
    pirate_mode, amount_or_zero, bank_deposit_fits, bank_withdraw_fits, stash_deposit_fits,
    stash_withdraw_fits, buy_fits,
};

use crate::scene::{scene_state, scene_view, settles_theft};
use crate::engine::{update_done, UpdateError, UpdateSignal};
use crate::events::LocationEvent;
use crate::good::good_index;
use crate::keys::{good_for_key, location_for_key, KeyCode, KeyEvent};
use crate::location::{location_index, Location};
use crate::screens::month_name;

verus! {

/// Cancelling right after starting to buy, sell, sail or use the stash gives
/// back the state from before.
pub proof fn law_cancel_undoes_begin(s: GameState, target: Mode, home_only: bool)
    requires
        target == Mode::Buying(None) || target == Mode::Selling(None) || target == Mode::Sailing
            || target == Mode::StashDeposit(None) || target == Mode::StashWithdraw(None),
        begin_step(s, target, home_only).1 is Ok,
    ensures
        mode_step(begin_step(s, target, home_only).0, target, Mode::ViewingInventory) == (s, Ok::<
            (),
            crate::game_state::StateError,
        >(())),
{
    assert(with_mode(with_mode(s, target), Mode::ViewingInventory) == s);
}

/// A backspace right after typing a digit gives back the amount from before,
/// unless the amount was a typed zero (which the backspace clears).
pub proof fn law_backspace_undoes_digit(s: GameState, digit: u32)
    requires
        typed_amount(s.mode) matches Some(a) && typed_fits(a, digit) && a != Some(0u32),
        digit <= 9,
    ensures
        backspace_step(digit_step(s, digit).0) == (s, Ok::<(), crate::game_state::StateError>(())),
{
    let a = typed_amount(s.mode)->0;
    if a is Some {
        let v = a->0;
        assert((v * 10 + digit) / 10 == v) by (nonlinear_arith)
            requires digit <= 9, v >= 0;
    }
    assert(with_mode(with_mode(s, digit_step(s, digit).0.mode), s.mode) == s);
}

/// A refused trade, transfer, payment or deposit changes nothing.
pub proof fn law_refusal_changes_nothing(s: GameState)
    ensures
        buy_step(s).1 is Err ==> buy_step(s).0 == s,
        sell_step(s).1 is Err ==> sell_step(s).0 == s,
        stash_deposit_step(s).1 is Err ==> stash_deposit_step(s).0 == s,
        stash_withdraw_step(s).1 is Err ==> stash_withdraw_step(s).0 == s,
        pay_debt_step(s).1 is Err ==> pay_debt_step(s).0 == s,
        bank_deposit_step(s).1 is Err ==> bank_deposit_step(s).0 == s,
        bank_withdraw_step(s).1 is Err ==> bank_withdraw_step(s).0 == s,
{
}

/// Deposits and withdrawals move gold between the purse and the bank and
/// keep their sum.
pub proof fn law_bank_keeps_total(s: GameState)
    requires
        bank_deposit_fits(s),
        bank_withdraw_fits(s),
    ensures
        bank_deposit_step(s).1 is Ok ==> bank_deposit_step(s).0.gold + bank_deposit_step(s).0.bank
            == s.gold + s.bank,
        bank_withdraw_step(s).1 is Ok ==> bank_withdraw_step(s).0.gold + bank_withdraw_step(s).0.bank
            == s.gold + s.bank,
{
}

/// Withdrawing what was just deposited gives back the purse and the bank
/// from before the deposit.
pub proof fn law_withdraw_undoes_deposit(s: GameState, amount: u32)
    requires
        s.mode == Mode::BankDeposit(Some(amount)),
        bank_deposit_fits(s),
        bank_deposit_step(s).1 is Ok,
    ensures
        bank_withdraw_step(with_mode(bank_deposit_step(s).0, Mode::BankWithdraw(Some(amount)))).0 == with_mode(
            s,
            Mode::ViewingInventory,
        ),
{
}

/// Moving goods between the hold and the stash keeps, for each good, the sum
/// of what is in the hold and in the stash.
pub proof fn law_stash_keeps_goods(s: GameState, g: Good)
    requires
        stash_deposit_fits(s),
        stash_withdraw_fits(s),
    ensures
        stash_deposit_step(s).1 is Ok ==> stash_deposit_step(s).0.inventory.at(g)
            + stash_deposit_step(s).0.stash.at(g) == s.inventory.at(g) + s.stash.at(g),
        stash_withdraw_step(s).1 is Ok ==> stash_withdraw_step(s).0.inventory.at(g)
            + stash_withdraw_step(s).0.stash.at(g) == s.inventory.at(g) + s.stash.at(g),
{
    match s.mode {
        Mode::StashDeposit(Some(t)) => {
            let amount = amount_or_zero(t.amount);
            lemma_at_with_at(s.inventory, t.good, (s.inventory.at(t.good) - amount) as u32);
            lemma_at_with_at(s.stash, t.good, (s.stash.at(t.good) + amount) as u32);
        },
        Mode::StashWithdraw(Some(t)) => {
            let amount = amount_or_zero(t.amount);
            lemma_at_with_at(s.inventory, t.good, (s.inventory.at(t.good) + amount) as u32);
            lemma_at_with_at(s.stash, t.good, (s.stash.at(t.good) - amount) as u32);
        },
        _ => {},
    }
}

/// Selling at once what was just bought, at the same port, gives back the
/// gold and the hold from before.
pub proof fn law_sell_undoes_buy(s: GameState, good: Good, amount: u32)
    requires
        s.mode == Mode::Buying(Some(Transaction { good, amount: Some(amount) })),
        buy_fits(s),
        buy_step(s).1 is Ok,
    ensures
        ({
            let bought = buy_step(s).0;
            let sold = sell_step(with_mode(bought, Mode::Selling(Some(Transaction { good, amount: Some(amount) })))).0;
            sold.gold == s.gold && sold.inventory == s.inventory
        }),
{
    let bought = buy_step(s).0;
    let price = s.locations.at(s.location).prices.at(good);
    assert(price * amount <= s.gold) by (nonlinear_arith)
        requires amount <= s.gold / price, price > 0;
    lemma_at_with_at(s.inventory, good, (s.inventory.at(good) + amount) as u32);
    let back = bought.inventory.with_at(good, (bought.inventory.at(good) - amount) as u32);
    lemma_at_with_at(bought.inventory, good, (bought.inventory.at(good) - amount) as u32);
    assert(back == s.inventory) by {
        assert(back.tea == s.inventory.tea);
        assert(back.coffee == s.inventory.coffee);
        assert(back.sugar == s.inventory.sugar);
        assert(back.tobacco == s.inventory.tobacco);
        assert(back.rum == s.inventory.rum);
        assert(back.cotton == s.inventory.cotton);
    }
}

/// Paying down the debt leaves the gold minus the debt unchanged.
pub proof fn law_paying_debt_keeps_balance(s: GameState)
    ensures
        pay_debt_step(s).1 is Ok ==> pay_debt_step(s).0.gold - pay_debt_step(s).0.debt == s.gold - s.debt,
        pay_debt_step(s).1 is Ok ==> pay_debt_step(s).0.debt <= s.debt,
{
}

/// A volley of the pirates never raises the ship's health.
pub proof fn law_pirates_never_heal(s: GameState, info: PirateEncounterInfo, damage: u8)
    requires
        s.mode == pirate_mode(PirateEncounterState::PiratesAttack { info, damage_this_attack: damage }),
    ensures
        ({
            let t = pirates_attack_step(s).0;
            ||| t.mode == pirate_mode(PirateEncounterState::Destroyed) && damage >= info.health
            ||| (t.mode matches Mode::GameEvent(
                crate::events::LocationEvent::PirateEncounter(PirateEncounterState::Prompt { info: i }),
            ) && 0 < i.health <= info.health && i.cur_pirates == info.cur_pirates)
        }),
{
}

/// The room left in the hold and what it holds add up to its size, unless it is overfull.
pub proof fn law_hold_left_adds_up(s: GameState)
    ensures
        inventory_total(s.inventory) <= s.hold_size ==> hold_left(s) + inventory_total(s.inventory) == s.hold_size,
        inventory_total(s.inventory) > s.hold_size ==> hold_left(s) == 0,
{
}

/// A voyage takes exactly one month, and the debt does not shrink at sea.
pub proof fn law_voyage_takes_a_month(s: GameState, t: GameState, destination: crate::location::Location)
    requires
        1 <= s.date.1 <= 12,
        s.date.1 == 12 ==> s.date.0 < u16::MAX,
        sailed(s, t, destination),
    ensures
        t.date.0 * 12 + t.date.1 == s.date.0 * 12 + s.date.1 + 1,
        1 <= t.date.1 <= 12,
        t.debt >= s.debt,
        t.location == destination,
{
}

/// Drawing settles a theft at most once: once a screen has been drawn,
/// drawing again leaves the state as it is and shows the same screen.
pub proof fn law_drawing_again_changes_nothing(s: GameState, t: GameState, u: GameState)
    requires
        scene_state(s, t),
        scene_state(t, u),
    ensures
        u == t,
        scene_view(u) == scene_view(t),
{
    assert(!settles_theft(t));
}

/// Accepting an offer of more hold space with `y` pays exactly the price
/// offered and adds exactly the space offered, then goes back to the port;
/// without the gold for it nothing changes. (A hold that would outgrow
/// `u32` is left out, as `update` leaves it out.)
pub proof fn law_hold_space_offer_pays_the_price(
    s: GameState,
    t: GameState,
    e: KeyEvent,
    run_success: bool,
    r: Result<UpdateSignal, UpdateError>,
    price: u32,
    more_hold: u32,
)
    requires
        s.initialized,
        !s.game_end,
        s.mode == Mode::GameEvent(LocationEvent::CanBuyHoldSpace { price, more_hold }),
        s.hold_size + more_hold <= u32::MAX,
        e.code == KeyCode::Char('y'),
        update_done(s, t, e, run_success, r),
    ensures
        r == Ok::<UpdateSignal, UpdateError>(UpdateSignal::Continue),
        s.gold >= price ==> {
            &&& t.gold == s.gold - price
            &&& t.hold_size == s.hold_size + more_hold
            &&& t.mode == Mode::ViewingInventory
            &&& t.bank == s.bank && t.inventory == s.inventory && t.cannons == s.cannons
        },
        s.gold < price ==> t == s,
{
}

/// Asking to withdraw more gold than the bank holds is shrugged off: the
/// game goes on and nothing changes.
pub proof fn law_overdrawing_the_bank_changes_nothing(
    s: GameState,
    t: GameState,
    e: KeyEvent,
    run_success: bool,
    r: Result<UpdateSignal, UpdateError>,
    amount: u32,
)
    requires
        s.initialized,
        !s.game_end,
        s.mode == Mode::BankWithdraw(Some(amount)),
        amount > s.bank,
        e.code == KeyCode::Enter,
        update_done(s, t, e, run_success, r),
    ensures
        r == Ok::<UpdateSignal, UpdateError>(UpdateSignal::Continue),
        t == s,
{
}

/// The number key of a port: its place in the list of ports, counted from one.
pub open spec fn port_number_key(l: Location) -> char {
    (('1' as int) + location_index(l)) as char
}

/// The letter key of a port.
pub open spec fn port_letter_key(l: Location) -> char {
    match l {
        Location::London => 'l',
        Location::Savannah => 's',
        Location::Lisbon => 'i',
        Location::Amsterdam => 'a',
        Location::CapeTown => 'c',
        Location::Venice => 'v',
    }
}

/// Each port is chosen by its number in the list of ports and by its letter,
/// and by no other key; the number and the letter of a port choose the same port.
pub proof fn law_port_keys(l: Location, c: char)
    ensures
        location_for_key(KeyCode::Char(port_number_key(l))) == Some(l),
        location_for_key(KeyCode::Char(port_letter_key(l))) == Some(l),
        location_for_key(KeyCode::Char(c)) == Some(l) ==> c == port_number_key(l) || c == port_letter_key(l),
{
}

/// The number key of a good: its place in the list of goods, counted from one.
pub open spec fn good_number_key(g: Good) -> char {
    (('1' as int) + good_index(g)) as char
}

/// The letter key of a good.
pub open spec fn good_letter_key(g: Good) -> char {
    match g {
        Good::Tea => 't',
        Good::Coffee => 'c',
        Good::Sugar => 's',
        Good::Tobacco => 'a',
        Good::Rum => 'r',
        Good::Cotton => 'o',
    }
}

/// Each good is chosen by its number in the list of goods and by its letter,
/// and by no other key; the number and the letter of a good choose the same good.
pub proof fn law_good_keys(g: Good, c: char)
    ensures
        good_for_key(KeyCode::Char(good_number_key(g))) == Some(g),
        good_for_key(KeyCode::Char(good_letter_key(g))) == Some(g),
        good_for_key(KeyCode::Char(c)) == Some(g) ==> c == good_number_key(g) || c == good_letter_key(g),
{
}

/// The months are named in English, January to December in calendar order,
/// and no two months share a name.
pub proof fn law_month_names(m: u8, n: u8)
    requires
        1 <= m <= 12,
        1 <= n <= 12,
    ensures
        month_name(m) == seq![
            "January"@,
            "February"@,
            "March"@,
            "April"@,
            "May"@,
            "June"@,
            "July"@,
            "August"@,
            "September"@,
            "October"@,
            "November"@,
            "December"@,
        ][m - 1],
        m != n ==> month_name(m) != month_name(n),
{
    reveal_strlit("January");
    reveal_strlit("February");
    reveal_strlit("March");
    reveal_strlit("April");
    reveal_strlit("May");
    reveal_strlit("June");
    reveal_strlit("July");
    reveal_strlit("August");
    reveal_strlit("September");
    reveal_strlit("October");
    reveal_strlit("November");
    reveal_strlit("December");
    if m != n {
        let a = month_name(m);
        let b = month_name(n);
        if a.len() == b.len() {
            assert(a[0] != b[0] || a[1] != b[1] || a[2] != b[2]);
        }
    }
}

} // verus!
