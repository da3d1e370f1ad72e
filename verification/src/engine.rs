use vstd::prelude::*;

use crate::events::{LocationEvent, PirateEncounterInfo, PirateEncounterState, CANNON_COST, SHIP_HEALTH};
use crate::game_state::{
    acknowledge_step, after_theft, attack_result_done, backspace_step, bank_deposit_fits,
    bank_deposit_step, bank_withdraw_fits, bank_withdraw_step, begin_step, buy_fits, buy_step,
    destroyed_step, digit_step, hold_left, mode_step, pay_debt_step, pirate_mode, pirates_attack_step,
    pirates_left, possible_theft, purchase_step, rng_and_mode_changed, run_step, run_success_step,
    sailed, sell_fits, sell_step, stash_deposit_fits, stash_deposit_step, stash_withdraw_fits,
    stash_withdraw_step, state_ok, theft_fits, typed_amount, typed_fits, victory_step, GameState, Mode,
    StateError, Step, Transaction, amount_or_zero, price_here,
};
use crate::debug_text::state_error_text;
use crate::good::Good;
use crate::goods_map::inventory_total;
use crate::keys::{digit_value, good_for_key, location_for_key, char_digit, KeyCode, KeyEvent};
use crate::location::Location;

verus! {

/// A failed update, with a description.
#[derive(Debug, Clone)]
pub struct UpdateError(pub String);

impl UpdateError {
    /// The error that a refused request of the game state becomes.
    pub fn from_state_error(value: StateError) -> (r: UpdateError)
        ensures
            r.0@ == state_error_text(value),
    {
        UpdateError(value.to_string())
    }
}

/// What the game loop does after an update.
#[derive(Debug, PartialEq, Eq, Clone, Copy, Structural)]
pub enum UpdateSignal {
    Continue,
    Quit,
    Restart,
}

/// The request that a key press makes of the game state.
#[derive(Debug, PartialEq, Eq, Clone, Copy, Structural)]
pub enum Action {
    Nothing,
    Initialize,
    Quit,
    Restart,
    BeginBuying,
    BeginSelling,
    BeginSailing,
    BeginStashDeposit,
    BeginStashWithdraw,
    BeginBankDeposit,
    BeginBankWithdraw,
    BeginPayDebt,
    ChooseBuyGood(Good),
    ChooseSellGood(Good),
    ChooseStashDepositGood(Good),
    ChooseStashWithdrawGood(Good),
    CancelBuy,
    CancelSell,
    CancelStashDeposit,
    CancelStashWithdraw,
    CancelSailTo,
    TypeDigit(u32),
    Backspace,
    CommitBuy,
    CommitSell,
    CommitStashDeposit,
    CommitStashWithdraw,
    CommitPayDebt,
    CommitBankDeposit,
    CommitBankWithdraw,
    SailTo(Location),
    AcknowledgeEvent,
    CollectFoundGoods(Good, u32),
    SettleTheft,
    ConfirmBuyCannon,
    ConfirmBuyHoldSpace(u32, u32),
    ProceedPirateEncounter,
    PirateRun,
    PirateFight,
    ProceedRunFailure,
    ProceedPiratesAttack,
    ProceedDestroyed,
    ProceedRunSuccess,
    ProceedAttackResult,
    ProceedVictory,
}

/// While an amount is typed: a digit extends it, a backspace shortens it, and
/// enter commits it.
pub open spec fn amount_key_action(code: KeyCode, commit: Action) -> Action {
    match code {
        KeyCode::Char(c) => match digit_value(c) {
            Some(d) => Action::TypeDigit(d),
            None => Action::Nothing,
        },
        KeyCode::Backspace => Action::Backspace,
        KeyCode::Enter => commit,
        _ => Action::Nothing,
    }
}

/// While a good is chosen: a good's key chooses it, a backspace cancels.
pub open spec fn good_key_action(code: KeyCode, pick: spec_fn(Good) -> Action, cancel: Action) -> Action {
    match good_for_key(code) {
        Some(g) => pick(g),
        None => if code == KeyCode::Backspace {
            cancel
        } else {
            Action::Nothing
        },
    }
}

/// In the inventory view: 1 or b buys, 2 or s sells, 3 or a sails; at the
/// home port also 4 or d stashes, 5 or w takes from the stash, 6 or e
/// deposits, 7 or i withdraws, and 8 or p pays down a debt there is.
pub open spec fn viewing_action(s: GameState, ch: char) -> Action {
    if ch == '1' || ch == 'b' {
        Action::BeginBuying
    } else if ch == '2' || ch == 's' {
        Action::BeginSelling
    } else if ch == '3' || ch == 'a' {
        Action::BeginSailing
    } else if s.location != s.location_config.home_port {
        Action::Nothing
    } else if ch == '4' || ch == 'd' {
        Action::BeginStashDeposit
    } else if ch == '5' || ch == 'w' {
        Action::BeginStashWithdraw
    } else if ch == '6' || ch == 'e' {
        Action::BeginBankDeposit
    } else if ch == '7' || ch == 'i' {
        Action::BeginBankWithdraw
    } else if s.debt > 0 && (ch == '8' || ch == 'p') {
        Action::BeginPayDebt
    } else {
        Action::Nothing
    }
}

/// Yes or no to an offer.
pub open spec fn offer_action(code: KeyCode, yes: Action) -> Action {
    if code == KeyCode::Char('y') {
        yes
    } else if code == KeyCode::Char('n') {
        Action::AcknowledgeEvent
    } else {
        Action::Nothing
    }
}

/// The request a key press makes in a state: before the game starts any key
/// starts it; after it ends q quits and enter restarts; in a pirate encounter
/// any key moves on (r runs and f fights at the prompt); otherwise it depends
/// on the mode.
pub open spec fn key_action(s: GameState, e: KeyEvent) -> Action {
    let code = e.code;
    if !s.initialized {
        Action::Initialize
    } else if s.game_end {
        if code == KeyCode::Char('q') {
            Action::Quit
        } else if code == KeyCode::Enter {
            Action::Restart
        } else {
            Action::Nothing
        }
    } else {
        match s.mode {
            Mode::GameEvent(LocationEvent::PirateEncounter(st)) => match st {
                PirateEncounterState::Initial => Action::ProceedPirateEncounter,
                PirateEncounterState::Prompt { .. } => if code == KeyCode::Char('r') {
                    Action::PirateRun
                } else if code == KeyCode::Char('f') {
                    Action::PirateFight
                } else {
                    Action::Nothing
                },
                PirateEncounterState::RunSuccess => Action::ProceedRunSuccess,
                PirateEncounterState::RunFailure { .. } => Action::ProceedRunFailure,
                PirateEncounterState::PiratesAttack { .. } => Action::ProceedPiratesAttack,
                PirateEncounterState::Destroyed => Action::ProceedDestroyed,
                PirateEncounterState::AttackResult { .. } => Action::ProceedAttackResult,
                PirateEncounterState::Victory { .. } => Action::ProceedVictory,
            },
            Mode::ViewingInventory => match code {
                KeyCode::Char(ch) => viewing_action(s, ch),
                _ => Action::Nothing,
            },
            Mode::Buying(Some(_)) => amount_key_action(code, Action::CommitBuy),
            Mode::Buying(None) => good_key_action(code, |g: Good| Action::ChooseBuyGood(g), Action::CancelBuy),
            Mode::Selling(Some(_)) => amount_key_action(code, Action::CommitSell),
            Mode::Selling(None) => good_key_action(code, |g: Good| Action::ChooseSellGood(g), Action::CancelSell),
            Mode::Sailing => match location_for_key(code) {
                Some(l) => Action::SailTo(l),
                None => if code == KeyCode::Backspace {
                    Action::CancelSailTo
                } else {
                    Action::Nothing
                },
            },
            Mode::StashDeposit(Some(_)) => amount_key_action(code, Action::CommitStashDeposit),
            Mode::StashDeposit(None) => good_key_action(
                code,
                |g: Good| Action::ChooseStashDepositGood(g),
                Action::CancelStashDeposit,
            ),
            Mode::StashWithdraw(Some(_)) => amount_key_action(code, Action::CommitStashWithdraw),
            Mode::StashWithdraw(None) => good_key_action(
                code,
                |g: Good| Action::ChooseStashWithdrawGood(g),
                Action::CancelStashWithdraw,
            ),
            Mode::PayDebt(_) => amount_key_action(code, Action::CommitPayDebt),
            Mode::BankDeposit(_) => amount_key_action(code, Action::CommitBankDeposit),
            Mode::BankWithdraw(_) => amount_key_action(code, Action::CommitBankWithdraw),
            Mode::GameEvent(ev) => match ev {
                LocationEvent::FindGoods(g, amount) => Action::CollectFoundGoods(g, amount),
                LocationEvent::GoodsStolen(_) => Action::SettleTheft,
                LocationEvent::CanBuyCannon => offer_action(code, Action::ConfirmBuyCannon),
                LocationEvent::CanBuyHoldSpace { price, more_hold } => offer_action(
                    code,
                    Action::ConfirmBuyHoldSpace(price, more_hold),
                ),
                LocationEvent::PirateEncounter(_) => Action::Nothing,
                _ => Action::AcknowledgeEvent,
            },
        }
    }
}

/// The smaller of two amounts.
pub open spec fn min_u32(a: u32, b: u32) -> u32 {
    if a <= b { a } else { b }
}

/// The state after collecting found goods: as much as the hold has room for,
/// then the event is closed.
pub open spec fn collect_step(s: GameState, g: Good, amount: u32) -> Step {
    acknowledge_step(
        GameState {
            inventory: s.inventory.with_at(g, (s.inventory.at(g) + min_u32(amount, hold_left(s) as u32)) as u32),
            ..s
        },
    )
}

/// The outcome of a request whose outcome draws nothing; `None` for the requests that draw.
pub open spec fn fixed_step(s: GameState, a: Action, run_success: bool) -> Option<Step> {
    match a {
        Action::Nothing | Action::Quit | Action::Restart => Some((s, Ok(()))),
        Action::Initialize => Some((GameState { initialized: true, ..s }, Ok(()))),
        Action::BeginBuying => Some(begin_step(s, Mode::Buying(None), false)),
        Action::BeginSelling => Some(begin_step(s, Mode::Selling(None), false)),
        Action::BeginSailing => Some(begin_step(s, Mode::Sailing, false)),
        Action::BeginStashDeposit => Some(begin_step(s, Mode::StashDeposit(None), true)),
        Action::BeginStashWithdraw => Some(begin_step(s, Mode::StashWithdraw(None), true)),
        Action::BeginBankDeposit => Some(begin_step(s, Mode::BankDeposit(None), true)),
        Action::BeginBankWithdraw => Some(begin_step(s, Mode::BankWithdraw(None), true)),
        Action::BeginPayDebt => Some(begin_step(s, Mode::PayDebt(None), true)),
        Action::ChooseBuyGood(g) => Some(
            mode_step(s, Mode::Buying(None), Mode::Buying(Some(Transaction { good: g, amount: None }))),
        ),
        Action::ChooseSellGood(g) => Some(
            mode_step(s, Mode::Selling(None), Mode::Selling(Some(Transaction { good: g, amount: None }))),
        ),
        Action::ChooseStashDepositGood(g) => Some(
            mode_step(
                s,
                Mode::StashDeposit(None),
                Mode::StashDeposit(Some(Transaction { good: g, amount: None })),
            ),
        ),
        Action::ChooseStashWithdrawGood(g) => Some(
            mode_step(
                s,
                Mode::StashWithdraw(None),
                Mode::StashWithdraw(Some(Transaction { good: g, amount: None })),
            ),
        ),
        Action::CancelBuy => Some(mode_step(s, Mode::Buying(None), Mode::ViewingInventory)),
        Action::CancelSell => Some(mode_step(s, Mode::Selling(None), Mode::ViewingInventory)),
        Action::CancelStashDeposit => Some(mode_step(s, Mode::StashDeposit(None), Mode::ViewingInventory)),
        Action::CancelStashWithdraw => Some(mode_step(s, Mode::StashWithdraw(None), Mode::ViewingInventory)),
        Action::CancelSailTo => Some(mode_step(s, Mode::Sailing, Mode::ViewingInventory)),
        Action::TypeDigit(d) => Some(digit_step(s, d)),
        Action::Backspace => Some(backspace_step(s)),
        Action::CommitBuy => Some(buy_step(s)),
        Action::CommitSell => Some(sell_step(s)),
        Action::CommitStashDeposit => Some(stash_deposit_step(s)),
        Action::CommitStashWithdraw => Some(stash_withdraw_step(s)),
        Action::CommitPayDebt => Some(pay_debt_step(s)),
        Action::CommitBankDeposit => Some(bank_deposit_step(s)),
        Action::CommitBankWithdraw => Some(bank_withdraw_step(s)),
        Action::AcknowledgeEvent => Some(acknowledge_step(s)),
        Action::CollectFoundGoods(g, amount) => Some(collect_step(s, g, amount)),
        Action::ConfirmBuyCannon => Some(
            purchase_step(
                s,
                CANNON_COST as u32,
                GameState { gold: (s.gold - CANNON_COST) as u32, cannons: (s.cannons + 1) as u8, ..s },
            ),
        ),
        Action::ConfirmBuyHoldSpace(price, more_hold) => Some(
            purchase_step(
                s,
                price,
                GameState { gold: (s.gold - price) as u32, hold_size: (s.hold_size + more_hold) as u32, ..s },
            ),
        ),
        Action::PirateRun => Some(run_step(s, run_success)),
        Action::ProceedPiratesAttack => Some(pirates_attack_step(s)),
        Action::ProceedDestroyed => Some(destroyed_step(s)),
        Action::ProceedRunSuccess => Some(run_success_step(s)),
        Action::ProceedVictory => Some(victory_step(s)),
        _ => None,
    }
}

/// Whether `t` is `s` after a request that draws (as the key in `s` asks it):
/// a voyage (nothing happens on choosing the current port), a theft settled
/// and taken, or a step of a pirate encounter.
pub open spec fn drawn_step_done(s: GameState, t: GameState, a: Action) -> bool {
    match a {
        Action::SailTo(d) => if d == s.location {
            t == s
        } else {
            sailed(s, t, d)
        },
        Action::SettleTheft => exists|x: crate::events::GoodsStolenResult|
            {
                &&& match s.mode {
                    Mode::GameEvent(LocationEvent::GoodsStolen(Some(info))) => x == info,
                    _ => possible_theft(s.inventory, x),
                }
                &&& t == GameState {
                    rng: t.rng,
                    inventory: #[trigger] after_theft(s.inventory, x),
                    mode: Mode::ViewingInventory,
                    ..s
                }
            },
        Action::ProceedPirateEncounter => {
            &&& rng_and_mode_changed(s, t)
            &&& t.mode matches Mode::GameEvent(
                LocationEvent::PirateEncounter(PirateEncounterState::Prompt { info }),
            ) && 2 <= info.total_pirates <= 4 && info == (PirateEncounterInfo {
                health: SHIP_HEALTH,
                total_pirates: info.total_pirates,
                cur_pirates: info.total_pirates,
            })
        },
        Action::PirateFight => match s.mode {
            Mode::GameEvent(LocationEvent::PirateEncounter(PirateEncounterState::Prompt { info })) => {
                &&& rng_and_mode_changed(s, t)
                &&& t.mode matches Mode::GameEvent(
                    LocationEvent::PirateEncounter(PirateEncounterState::AttackResult { info: i, did_kill_a_pirate }),
                ) && i == info && (s.cannons == 0 ==> !did_kill_a_pirate)
            },
            _ => false,
        },
        Action::ProceedRunFailure => match s.mode {
            Mode::GameEvent(LocationEvent::PirateEncounter(PirateEncounterState::RunFailure { info })) => {
                &&& rng_and_mode_changed(s, t)
                &&& t.mode matches Mode::GameEvent(
                    LocationEvent::PirateEncounter(PirateEncounterState::PiratesAttack { info: i, damage_this_attack }),
                ) && i == info && damage_this_attack <= info.cur_pirates
            },
            _ => false,
        },
        Action::ProceedAttackResult => attack_result_done(s, t),
        _ => false,
    }
}

/// The refusals that a request shrugs off: not enough gold or room for a
/// purchase, not enough goods for a sale or a transfer, too much paid or
/// taken, or sailing to the port the ship is in.
pub open spec fn tolerated(a: Action, e: StateError) -> bool {
    match a {
        Action::CommitBuy => e is CannotAfford || e is InsufficientHold,
        Action::CommitSell => e is InsufficientInventory,
        Action::CommitStashDeposit => e is InsufficientInventory,
        Action::CommitStashWithdraw => e is InsufficientStash,
        Action::CommitPayDebt => e is PayDownAmountHigherThanDebt || e is CannotAfford,
        Action::CommitBankDeposit => e is CannotAfford,
        Action::CommitBankWithdraw => e is InsufficientBank,
        Action::SailTo(_) => e is AlreadyInLocation,
        _ => false,
    }
}

/// What the loop is told after a request: quit or restart where asked,
/// continue after success or a tolerated refusal, and an error otherwise.
pub open spec fn answered(a: Action, res: Result<(), StateError>, r: Result<UpdateSignal, UpdateError>) -> bool {
    match res {
        Ok(_) => r == Ok::<UpdateSignal, UpdateError>(
            if a == Action::Quit {
                UpdateSignal::Quit
            } else if a == Action::Restart {
                UpdateSignal::Restart
            } else {
                UpdateSignal::Continue
            },
        ),
        Err(e) => if tolerated(a, e) {
            r == Ok::<UpdateSignal, UpdateError>(UpdateSignal::Continue)
        } else {
            r matches Err(u) && u.0@ == state_error_text(e)
        },
    }
}

/// Whether a request stays within the bounds where it cannot fail at run time
/// (numbers that fit in `u32`, a drawable configuration, a theft that can be drawn).
pub open spec fn action_fits(s: GameState, a: Action) -> bool {
    match a {
        Action::TypeDigit(d) => typed_amount(s.mode) matches Some(x) ==> typed_fits(x, d),
        Action::CommitBuy => buy_fits(s),
        Action::CommitSell => sell_fits(s),
        Action::CommitStashDeposit => stash_deposit_fits(s),
        Action::CommitStashWithdraw => stash_withdraw_fits(s),
        Action::CommitBankDeposit => bank_deposit_fits(s),
        Action::CommitBankWithdraw => bank_withdraw_fits(s),
        Action::SailTo(_) => state_ok(s) && (s.date.1 == 12 ==> s.date.0 < u16::MAX),
        Action::CollectFoundGoods(_, _) => inventory_total(s.inventory) <= u32::MAX,
        Action::SettleTheft => match s.mode {
            Mode::GameEvent(LocationEvent::GoodsStolen(None)) => forall|g: Good| #[trigger] s.inventory.at(g) != 1,
            Mode::GameEvent(LocationEvent::GoodsStolen(Some(x))) => theft_fits(s.inventory, x),
            _ => true,
        },
        Action::ConfirmBuyCannon => s.gold >= CANNON_COST ==> s.cannons < u8::MAX,
        Action::ConfirmBuyHoldSpace(price, more_hold) => s.gold >= price ==> s.hold_size + more_hold <= u32::MAX,
        Action::PirateFight => s.cannons < u8::MAX,
        Action::ProceedAttackResult => match s.mode {
            Mode::GameEvent(
                LocationEvent::PirateEncounter(PirateEncounterState::AttackResult { info, did_kill_a_pirate }),
            ) => pirates_left(info, did_kill_a_pirate) == 0 ==> info.total_pirates > 0,
            _ => true,
        },
        Action::ProceedVictory => match s.mode {
            Mode::GameEvent(
                LocationEvent::PirateEncounter(PirateEncounterState::Victory { gold_recovered }),
            ) => s.gold + gold_recovered <= u32::MAX,
            _ => true,
        },
        _ => true,
    }
}

/// Whether an update of `s` by key `e`, with the given draw for a run,
/// answered `r` and left `t`: the key's request is carried out exactly as the
/// game state's operation states it.
pub open spec fn update_done(
    s: GameState,
    t: GameState,
    e: KeyEvent,
    run_success: bool,
    r: Result<UpdateSignal, UpdateError>,
) -> bool {
    let a = key_action(s, e);
    match fixed_step(s, a, run_success) {
        Some(st) => t == st.0 && answered(a, st.1, r),
        None => drawn_step_done(s, t, a) && r == Ok::<UpdateSignal, UpdateError>(UpdateSignal::Continue),
    }
}


/// While an amount is typed: a digit extends it, a backspace shortens it, and enter commits it.
fn amount_key_action_exec(code: KeyCode, commit: Action) -> (r: Action)
    ensures
        r == amount_key_action(code, commit),
{
    match code {
        KeyCode::Char(c) => match char_digit(c) {
            Some(d) => Action::TypeDigit(d),
            None => Action::Nothing,
        },
        KeyCode::Backspace => Action::Backspace,
        KeyCode::Enter => commit,
        _ => Action::Nothing,
    }
}

/// In the inventory view; see [viewing_action].
fn viewing_action_exec(s: &GameState, ch: char) -> (r: Action)
    ensures
        r == viewing_action(*s, ch),
{
    if ch == '1' || ch == 'b' {
        Action::BeginBuying
    } else if ch == '2' || ch == 's' {
        Action::BeginSelling
    } else if ch == '3' || ch == 'a' {
        Action::BeginSailing
    } else if s.location != s.location_config.home_port {
        Action::Nothing
    } else if ch == '4' || ch == 'd' {
        Action::BeginStashDeposit
    } else if ch == '5' || ch == 'w' {
        Action::BeginStashWithdraw
    } else if ch == '6' || ch == 'e' {
        Action::BeginBankDeposit
    } else if ch == '7' || ch == 'i' {
        Action::BeginBankWithdraw
    } else if s.debt > 0 && (ch == '8' || ch == 'p') {
        Action::BeginPayDebt
    } else {
        Action::Nothing
    }
}

/// Yes or no to an offer.
fn offer_action_exec(code: KeyCode, yes: Action) -> (r: Action)
    ensures
        r == offer_action(code, yes),
{
    if code == KeyCode::Char('y') {
        yes
    } else if code == KeyCode::Char('n') {
        Action::AcknowledgeEvent
    } else {
        Action::Nothing
    }
}

/// The request a key press makes in a state; see [key_action].
pub fn action_for_key(s: &GameState, e: &KeyEvent) -> (r: Action)
    ensures
        r == key_action(*s, *e),
{
    let code = e.code;
    if !s.initialized {
        return Action::Initialize;
    }
    if s.game_end {
        return if code == KeyCode::Char('q') {
            Action::Quit
        } else if code == KeyCode::Enter {
            Action::Restart
        } else {
            Action::Nothing
        };
    }
    match s.mode {
        Mode::GameEvent(LocationEvent::PirateEncounter(st)) => match st {
            PirateEncounterState::Initial => Action::ProceedPirateEncounter,
            PirateEncounterState::Prompt { .. } => if code == KeyCode::Char('r') {
                Action::PirateRun
            } else if code == KeyCode::Char('f') {
                Action::PirateFight
            } else {
                Action::Nothing
            },
            PirateEncounterState::RunSuccess => Action::ProceedRunSuccess,
            PirateEncounterState::RunFailure { .. } => Action::ProceedRunFailure,
            PirateEncounterState::PiratesAttack { .. } => Action::ProceedPiratesAttack,
            PirateEncounterState::Destroyed => Action::ProceedDestroyed,
            PirateEncounterState::AttackResult { .. } => Action::ProceedAttackResult,
            PirateEncounterState::Victory { .. } => Action::ProceedVictory,
        },
        Mode::ViewingInventory => match code {
            KeyCode::Char(ch) => viewing_action_exec(s, ch),
            _ => Action::Nothing,
        },
        Mode::Buying(Some(_)) => amount_key_action_exec(code, Action::CommitBuy),
        Mode::Buying(None) => match Good::from_key_code(&code) {
            Some(g) => Action::ChooseBuyGood(g),
            None => if code == KeyCode::Backspace { Action::CancelBuy } else { Action::Nothing },
        },
        Mode::Selling(Some(_)) => amount_key_action_exec(code, Action::CommitSell),
        Mode::Selling(None) => match Good::from_key_code(&code) {
            Some(g) => Action::ChooseSellGood(g),
            None => if code == KeyCode::Backspace { Action::CancelSell } else { Action::Nothing },
        },
        Mode::Sailing => match Location::from_key_code(&code) {
            Some(l) => Action::SailTo(l),
            None => if code == KeyCode::Backspace { Action::CancelSailTo } else { Action::Nothing },
        },
        Mode::StashDeposit(Some(_)) => amount_key_action_exec(code, Action::CommitStashDeposit),
        Mode::StashDeposit(None) => match Good::from_key_code(&code) {
            Some(g) => Action::ChooseStashDepositGood(g),
            None => if code == KeyCode::Backspace { Action::CancelStashDeposit } else { Action::Nothing },
        },
        Mode::StashWithdraw(Some(_)) => amount_key_action_exec(code, Action::CommitStashWithdraw),
        Mode::StashWithdraw(None) => match Good::from_key_code(&code) {
            Some(g) => Action::ChooseStashWithdrawGood(g),
            None => if code == KeyCode::Backspace { Action::CancelStashWithdraw } else { Action::Nothing },
        },
        Mode::PayDebt(_) => amount_key_action_exec(code, Action::CommitPayDebt),
        Mode::BankDeposit(_) => amount_key_action_exec(code, Action::CommitBankDeposit),
        Mode::BankWithdraw(_) => amount_key_action_exec(code, Action::CommitBankWithdraw),
        Mode::GameEvent(ev) => match ev {
            LocationEvent::FindGoods(g, amount) => Action::CollectFoundGoods(g, amount),
            LocationEvent::GoodsStolen(_) => Action::SettleTheft,
            LocationEvent::CanBuyCannon => offer_action_exec(code, Action::ConfirmBuyCannon),
            LocationEvent::CanBuyHoldSpace { price, more_hold } => offer_action_exec(
                code,
                Action::ConfirmBuyHoldSpace(price, more_hold),
            ),
            LocationEvent::PirateEncounter(_) => Action::Nothing,
            _ => Action::AcknowledgeEvent,
        },
    }
}


/// Whether a refusal is one that the request shrugs off; see [tolerated].
fn is_tolerated(a: &Action, e: &StateError) -> (r: bool)
    ensures
        r == tolerated(*a, *e),
{
    match a {
        Action::CommitBuy => match e {
            StateError::CannotAfford | StateError::InsufficientHold => true,
            _ => false,
        },
        Action::CommitSell | Action::CommitStashDeposit => match e {
            StateError::InsufficientInventory => true,
            _ => false,
        },
        Action::CommitStashWithdraw => match e {
            StateError::InsufficientStash => true,
            _ => false,
        },
        Action::CommitPayDebt => match e {
            StateError::PayDownAmountHigherThanDebt | StateError::CannotAfford => true,
            _ => false,
        },
        Action::CommitBankDeposit => match e {
            StateError::CannotAfford => true,
            _ => false,
        },
        Action::CommitBankWithdraw => match e {
            StateError::InsufficientBank => true,
            _ => false,
        },
        Action::SailTo(_) => match e {
            StateError::AlreadyInLocation => true,
            _ => false,
        },
        _ => false,
    }
}

/// What the loop is told after a request; see [answered].
fn answer(a: Action, res: Result<(), StateError>) -> (r: Result<UpdateSignal, UpdateError>)
    ensures
        answered(a, res, r),
{
    match res {
        Ok(()) => Ok(
            if a == Action::Quit {
                UpdateSignal::Quit
            } else if a == Action::Restart {
                UpdateSignal::Restart
            } else {
                UpdateSignal::Continue
            },
        ),
        Err(e) => if is_tolerated(&a, &e) {
            Ok(UpdateSignal::Continue)
        } else {
            Err(UpdateError::from_state_error(e))
        },
    }
}

/// Handles a key press: carries out the request the key makes in the current
/// state (see [key_action]) and tells the loop how to go on. `run_success` is
/// whether a run from the pirates gets away, if the key asks for one (see
/// [wants_run_draw]); it is ignored otherwise.
pub fn update(state: &mut GameState, event: KeyEvent, run_success: bool) -> (r: Result<UpdateSignal, UpdateError>)
    requires
        action_fits(*old(state), key_action(*old(state), event)),
    ensures
        update_done(*old(state), *final(state), event, run_success, r),
{
    let a = action_for_key(state, &event);
    match a {
        Action::Nothing => Ok(UpdateSignal::Continue),
        Action::Quit => Ok(UpdateSignal::Quit),
        Action::Restart => Ok(UpdateSignal::Restart),
        Action::Initialize => {
            state.initialize();
            Ok(UpdateSignal::Continue)
        },
        Action::BeginBuying => answer(a, state.begin_buying()),
        Action::BeginSelling => answer(a, state.begin_selling()),
        Action::BeginSailing => answer(a, state.begin_sailing()),
        Action::BeginStashDeposit => answer(a, state.begin_stash_deposit()),
        Action::BeginStashWithdraw => answer(a, state.begin_stash_withdraw()),
        Action::BeginBankDeposit => answer(a, state.begin_bank_deposit()),
        Action::BeginBankWithdraw => answer(a, state.begin_bank_withdraw()),
        Action::BeginPayDebt => answer(a, state.begin_pay_debt()),
        Action::ChooseBuyGood(g) => answer(a, state.choose_buy_good(g)),
        Action::ChooseSellGood(g) => answer(a, state.choose_sell_good(g)),
        Action::ChooseStashDepositGood(g) => answer(a, state.choose_stash_deposit_good(g)),
        Action::ChooseStashWithdrawGood(g) => answer(a, state.choose_stash_withdraw_good(g)),
        Action::CancelBuy => answer(a, state.cancel_buy()),
        Action::CancelSell => answer(a, state.cancel_sell()),
        Action::CancelStashDeposit => answer(a, state.cancel_stash_deposit()),
        Action::CancelStashWithdraw => answer(a, state.cancel_stash_withdraw()),
        Action::CancelSailTo => answer(a, state.cancel_sail_to()),
        Action::TypeDigit(d) => answer(a, state.user_typed_digit(d)),
        Action::Backspace => answer(a, state.user_typed_backspace()),
        Action::CommitBuy => answer(a, state.commit_buy()),
        Action::CommitSell => answer(a, state.commit_sell()),
        Action::CommitStashDeposit => answer(a, state.commit_stash_deposit()),
        Action::CommitStashWithdraw => answer(a, state.commit_stash_withdraw()),
        Action::CommitPayDebt => answer(a, state.commit_pay_debt()),
        Action::CommitBankDeposit => answer(a, state.commit_bank_deposit()),
        Action::CommitBankWithdraw => answer(a, state.commit_bank_withdraw()),
        Action::SailTo(destination) => answer(a, state.sail_to(&destination)),
        Action::AcknowledgeEvent => answer(a, state.acknowledge_event()),
        Action::CollectFoundGoods(good, amount) => {
            let remaining_hold = state.remaining_hold();
            let amount_to_add = if amount <= remaining_hold { amount } else { remaining_hold };
            proof {
                assert(state.inventory.at(good) <= inventory_total(state.inventory)) by {
                    match good { _ => {} }
                }
            }
            state.inventory.add_good(&good, amount_to_add);
            answer(a, state.acknowledge_event())
        },
        Action::SettleTheft => {
            let ghost before = *state;
            let info = state.compute_goods_stolen();
            state.remove_stolen_goods(info);
            let res = state.acknowledge_event();
            proof {
                assert(state.inventory == after_theft(before.inventory, info));
            }
            answer(a, res)
        },
        Action::ConfirmBuyCannon => answer(a, state.confirm_buy_cannon()),
        Action::ConfirmBuyHoldSpace(price, more_hold) => answer(a, state.confirm_buy_hold_space(price, more_hold)),
        Action::ProceedPirateEncounter => answer(a, state.proceed_pirate_encounter()),
        Action::PirateRun => answer(a, state.pirate_run(run_success)),
        Action::PirateFight => answer(a, state.pirate_fight()),
        Action::ProceedRunFailure => answer(a, state.proceed_pirate_run_failure()),
        Action::ProceedPiratesAttack => answer(a, state.proceed_pirates_attack()),
        Action::ProceedDestroyed => answer(a, state.proceed_destroyed()),
        Action::ProceedRunSuccess => answer(a, state.proceed_pirate_run_success()),
        Action::ProceedAttackResult => answer(a, state.proceed_attack_result()),
        Action::ProceedVictory => answer(a, state.proceed_pirate_encounter_victory()),
    }
}

/// Whether a key press asks for a run from the pirates, whose success the
/// caller draws before calling [update].
pub fn wants_run_draw(state: &GameState, event: &KeyEvent) -> (r: bool)
    ensures
        r == (key_action(*state, *event) == Action::PirateRun),
{
    action_for_key(state, event) == Action::PirateRun
}


/// The amount being typed in a mode, if the mode takes one.
fn typed_amount_of(m: Mode) -> (r: Option<Option<u32>>)
    ensures
        r == typed_amount(m),
{
    match m {
        Mode::Buying(Some(t)) => Some(t.amount),
        Mode::Selling(Some(t)) => Some(t.amount),
        Mode::StashDeposit(Some(t)) => Some(t.amount),
        Mode::StashWithdraw(Some(t)) => Some(t.amount),
        Mode::PayDebt(a) => Some(a),
        Mode::BankDeposit(a) => Some(a),
        Mode::BankWithdraw(a) => Some(a),
        _ => None,
    }
}

/// The amount typed, or zero.
fn typed_or_zero(a: Option<u32>) -> (r: u32)
    ensures
        r == amount_or_zero(a),
{
    match a {
        Some(v) => v,
        None => 0,
    }
}

/// The total held, counted without overflow.
pub(crate) fn total_wide(inv: &crate::goods_map::Inventory) -> (r: u64)
    ensures
        r == inventory_total(*inv),
{
    inv.tea as u64 + inv.coffee as u64 + inv.sugar as u64 + inv.tobacco as u64 + inv.rum as u64 + inv.cotton as u64
}

/// Whether a request stays within its bounds; see [action_fits].
fn action_fits_exec(s: &GameState, a: Action) -> (r: bool)
    ensures
        r == action_fits(*s, a),
{
    let max: u64 = 0xffff_ffff;
    match a {
        Action::TypeDigit(d) => match typed_amount_of(s.mode) {
            Some(Some(x)) => (x as u64) * 10 + (d as u64) <= max,
            _ => true,
        },
        Action::CommitBuy => match s.mode {
            Mode::Buying(Some(t)) => {
                let amount = typed_or_zero(t.amount);
                let price = *s.locations.location_info(&s.location).prices.get_good(&t.good);
                price > 0 && (amount > s.gold / price || total_wide(&s.inventory) + amount as u64 <= max)
            },
            _ => true,
        },
        Action::CommitSell => match s.mode {
            Mode::Selling(Some(t)) => {
                let amount = typed_or_zero(t.amount);
                let price = *s.locations.location_info(&s.location).prices.get_good(&t.good);
                assert((price as u64) * (amount as u64) <= 0xffff_fffe_0000_0001u64) by (nonlinear_arith)
                    requires price <= 0xffff_ffffu32, amount <= 0xffff_ffffu32;
                amount > *s.inventory.get_good(&t.good) || (s.gold as u64) + (price as u64) * (amount as u64) <= max
            },
            _ => true,
        },
        Action::CommitStashDeposit => match s.mode {
            Mode::StashDeposit(Some(t)) => {
                let amount = typed_or_zero(t.amount);
                amount > *s.inventory.get_good(&t.good) || (*s.stash.get_good(&t.good) as u64) + (amount as u64) <= max
            },
            _ => true,
        },
        Action::CommitStashWithdraw => match s.mode {
            Mode::StashWithdraw(Some(t)) => {
                let amount = typed_or_zero(t.amount);
                amount > *s.stash.get_good(&t.good) || (*s.inventory.get_good(&t.good) as u64) + (amount as u64) <= max
            },
            _ => true,
        },
        Action::CommitBankDeposit => match s.mode {
            Mode::BankDeposit(x) => {
                let amount = typed_or_zero(x);
                amount > s.gold || (s.bank as u64) + (amount as u64) <= max
            },
            _ => true,
        },
        Action::CommitBankWithdraw => match s.mode {
            Mode::BankWithdraw(x) => {
                let amount = typed_or_zero(x);
                amount > s.bank || (s.gold as u64) + (amount as u64) <= max
            },
            _ => true,
        },
        Action::SailTo(_) => 1 <= s.date.1 && s.date.1 <= 12 && s.location_config.is_playable() && (s.date.1 != 12
            || s.date.0 < u16::MAX),
        Action::CollectFoundGoods(_, _) => total_wide(&s.inventory) <= max,
        Action::SettleTheft => match s.mode {
            Mode::GameEvent(LocationEvent::GoodsStolen(None)) => {
                let inv = &s.inventory;
                let r = inv.tea != 1 && inv.coffee != 1 && inv.sugar != 1 && inv.tobacco != 1 && inv.rum != 1
                    && inv.cotton != 1;
                proof {
                    if r {
                        assert forall|g: Good| #[trigger] s.inventory.at(g) != 1 by {
                            match g { _ => {} }
                        }
                    } else {
                        assert(s.inventory.at(Good::Tea) == 1 || s.inventory.at(Good::Coffee) == 1
                            || s.inventory.at(Good::Sugar) == 1 || s.inventory.at(Good::Tobacco) == 1
                            || s.inventory.at(Good::Rum) == 1 || s.inventory.at(Good::Cotton) == 1);
                    }
                }
                r
            },
            Mode::GameEvent(LocationEvent::GoodsStolen(Some(x))) => match x {
                crate::events::GoodsStolenResult::NothingStolen => true,
                crate::events::GoodsStolenResult::WasStolen { good, amount } => amount <= *s.inventory.get_good(&good),
            },
            _ => true,
        },
        Action::ConfirmBuyCannon => s.gold < CANNON_COST as u32 || s.cannons < u8::MAX,
        Action::ConfirmBuyHoldSpace(price, more_hold) => s.gold < price || (s.hold_size as u64) + (more_hold as u64)
            <= max,
        Action::PirateFight => s.cannons < u8::MAX,
        Action::ProceedAttackResult => match s.mode {
            Mode::GameEvent(
                LocationEvent::PirateEncounter(PirateEncounterState::AttackResult { info, did_kill_a_pirate }),
            ) => {
                let left = if did_kill_a_pirate && info.cur_pirates > 0 {
                    info.cur_pirates - 1
                } else {
                    info.cur_pirates
                };
                left != 0 || info.total_pirates > 0
            },
            _ => true,
        },
        Action::ProceedVictory => match s.mode {
            Mode::GameEvent(
                LocationEvent::PirateEncounter(PirateEncounterState::Victory { gold_recovered }),
            ) => (s.gold as u64) + (gold_recovered as u64) <= max,
            _ => true,
        },
        _ => true,
    }
}

/// Whether handling this key press would overstep a bound where the game
/// cannot go on (a number past `u32`, a configuration that cannot draw a
/// port, a theft that cannot be drawn); [update] must not be called then.
pub fn update_would_panic(state: &GameState, event: &KeyEvent) -> (r: bool)
    ensures
        r == !action_fits(*state, key_action(*state, *event)),
{
    let a = action_for_key(state, event);
    !action_fits_exec(state, a)
}

} // verus!
