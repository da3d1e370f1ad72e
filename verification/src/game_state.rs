use vstd::prelude::*;

use rand::rngs::StdRng;

use crate::events::{
    GoodsStolenResult, LocationEvent, PirateEncounterInfo, PirateEncounterState, CANNON_COST, SHIP_HEALTH,
};
use crate::debug_text::{state_error_string, state_error_text};
use crate::good::Good;
use crate::goods_map::{inventory_total, Inventory, GoodsMap};
use crate::location::Location;
use crate::locations::{config_ok, possible_location_info, LocationConfig, LocationInfos};

verus! {

/// A good chosen for a trade, and the amount typed so far.
#[derive(PartialEq, Eq, Clone, Copy, Debug, Structural)]
pub struct Transaction {
    pub good: Good,
    pub amount: Option<u32>,
}

/// What the player is doing.
#[derive(PartialEq, Eq, Clone, Copy, Debug, Structural)]
pub enum Mode {
    ViewingInventory,
    Buying(Option<Transaction>),
    Selling(Option<Transaction>),
    Sailing,
    StashDeposit(Option<Transaction>),
    StashWithdraw(Option<Transaction>),
    PayDebt(Option<u32>),
    BankDeposit(Option<u32>),
    BankWithdraw(Option<u32>),
    GameEvent(LocationEvent),
}

/// Why a request to the game state was refused.
#[derive(Debug, Clone)]
pub enum StateError {
    InvalidMode(Mode),
    CannotAfford,
    InsufficientHold,
    InsufficientInventory,
    InsufficientStash,
    AlreadyInLocation,
    LocationNotHomeBase(Location),
    PayDownAmountHigherThanDebt,
    InsufficientBank,
    UnknownError(String),
}

impl StateError {
    /// The text of the error: its pretty-printed debug form.
    pub fn to_string(&self) -> (r: String)
        ensures
            r@ == state_error_text(*self),
    {
        state_error_string(self)
    }
}

/// The whole state of a game.
pub struct GameState {
    pub rng: StdRng,
    pub initialized: bool,
    /// The year, and the month numbered from 1 (January) to 12.
    pub date: (u16, u8),
    pub hold_size: u32,
    pub cannons: u8,
    pub gold: u32,
    pub bank: u32,
    pub location: Location,
    pub stash: Inventory,
    pub inventory: Inventory,
    pub locations: LocationInfos,
    pub location_config: LocationConfig,
    pub debt: u32,
    pub mode: Mode,
    pub game_end: bool,
}

/// The gold a new game starts with.
pub const STARTING_GOLD: u32 = 500;

/// The outcome of a request: the state afterwards, and what was answered.
pub type Step = (GameState, Result<(), StateError>);

/// The answer to a request made in the wrong mode: nothing changes.
pub open spec fn invalid_mode(s: GameState) -> Step {
    (s, Err(StateError::InvalidMode(s.mode)))
}

/// The state with another mode.
pub open spec fn with_mode(s: GameState, m: Mode) -> GameState {
    GameState { mode: m, ..s }
}

/// Starting an activity from the inventory view: refused outside that view,
/// and, for the activities of the home port, away from it.
pub open spec fn begin_step(s: GameState, target: Mode, home_only: bool) -> Step {
    if s.mode != Mode::ViewingInventory {
        invalid_mode(s)
    } else if home_only && s.location != s.location_config.home_port {
        (s, Err(StateError::LocationNotHomeBase(s.location)))
    } else {
        (with_mode(s, target), Ok(()))
    }
}

/// Moving from one exact mode to another (choosing a good, cancelling):
/// refused in any other mode.
pub open spec fn mode_step(s: GameState, from: Mode, to: Mode) -> Step {
    if s.mode == from {
        (with_mode(s, to), Ok(()))
    } else {
        invalid_mode(s)
    }
}

/// The amount after typing a digit: the digit alone, or the amount times ten plus the digit.
pub open spec fn typed(amount: Option<u32>, digit: u32) -> Option<u32> {
    match amount {
        None => Some(digit),
        Some(a) => Some((a * 10 + digit) as u32),
    }
}

/// Whether typing a digit keeps the amount within `u32`.
pub open spec fn typed_fits(amount: Option<u32>, digit: u32) -> bool {
    match amount {
        None => true,
        Some(a) => a * 10 + digit <= u32::MAX,
    }
}

/// The amount after a backspace: the last digit dropped, nothing left of a single digit.
pub open spec fn backspaced(amount: Option<u32>) -> Option<u32> {
    match amount {
        None => None,
        Some(a) => if a <= 9 { None } else { Some(a / 10) },
    }
}

/// The amount being typed in a mode, if the mode takes one.
pub open spec fn typed_amount(m: Mode) -> Option<Option<u32>> {
    match m {
        Mode::Buying(Some(t)) => Some(t.amount),
        Mode::Selling(Some(t)) => Some(t.amount),
        Mode::StashDeposit(Some(t)) => Some(t.amount),
        Mode::StashWithdraw(Some(t)) => Some(t.amount),
        Mode::PayDebt(a) => Some(a),
        Mode::BankDeposit(a) => Some(a),
        Mode::BankWithdraw(a) => Some(a),
        _ => None,
    }
}

/// The mode with the amount being typed replaced.
pub open spec fn with_typed_amount(m: Mode, amount: Option<u32>) -> Mode {
    match m {
        Mode::Buying(Some(t)) => Mode::Buying(Some(Transaction { amount, ..t })),
        Mode::Selling(Some(t)) => Mode::Selling(Some(Transaction { amount, ..t })),
        Mode::StashDeposit(Some(t)) => Mode::StashDeposit(Some(Transaction { amount, ..t })),
        Mode::StashWithdraw(Some(t)) => Mode::StashWithdraw(Some(Transaction { amount, ..t })),
        Mode::PayDebt(_) => Mode::PayDebt(amount),
        Mode::BankDeposit(_) => Mode::BankDeposit(amount),
        Mode::BankWithdraw(_) => Mode::BankWithdraw(amount),
        _ => m,
    }
}

/// Typing a digit: refused where no amount is being typed.
pub open spec fn digit_step(s: GameState, digit: u32) -> Step {
    match typed_amount(s.mode) {
        Some(a) => (with_mode(s, with_typed_amount(s.mode, typed(a, digit))), Ok(())),
        None => invalid_mode(s),
    }
}

/// A backspace: refused where no amount is being typed.
pub open spec fn backspace_step(s: GameState) -> Step {
    match typed_amount(s.mode) {
        Some(a) => (with_mode(s, with_typed_amount(s.mode, backspaced(a))), Ok(())),
        None => invalid_mode(s),
    }
}

/// What a typed amount means: nothing typed is zero.
pub open spec fn amount_or_zero(a: Option<u32>) -> u32 {
    match a {
        Some(v) => v,
        None => 0,
    }
}

/// The price of a good at the current port.
pub open spec fn price_here(s: GameState, g: Good) -> u32 {
    s.locations.at(s.location).prices.at(g)
}

/// Buying the typed amount of the chosen good at the current port's price:
/// refused if the gold does not cover it (`CannotAfford`) or the hold cannot
/// take it (`InsufficientHold`).
pub open spec fn buy_step(s: GameState) -> Step {
    match s.mode {
        Mode::Buying(Some(t)) => {
            let amount = amount_or_zero(t.amount);
            let price = price_here(s, t.good);
            if amount > s.gold / price {
                (s, Err(StateError::CannotAfford))
            } else if inventory_total(s.inventory) + amount > s.hold_size {
                (s, Err(StateError::InsufficientHold))
            } else {
                (GameState {
                    inventory: s.inventory.with_at(t.good, (s.inventory.at(t.good) + amount) as u32),
                    gold: (s.gold - price * amount) as u32,
                    mode: Mode::ViewingInventory,
                    ..s
                }, Ok(()))
            }
        },
        _ => invalid_mode(s),
    }
}

/// Whether buying stays within `u32`: a price that is not zero, and room to count the hold.
pub open spec fn buy_fits(s: GameState) -> bool {
    match s.mode {
        Mode::Buying(Some(t)) => {
            let amount = amount_or_zero(t.amount);
            let price = price_here(s, t.good);
            price > 0 && (amount <= s.gold / price ==> inventory_total(s.inventory) + amount <= u32::MAX)
        },
        _ => true,
    }
}

/// Selling the typed amount of the chosen good at the current port's price:
/// refused if more is asked than is held (`InsufficientInventory`).
pub open spec fn sell_step(s: GameState) -> Step {
    match s.mode {
        Mode::Selling(Some(t)) => {
            let amount = amount_or_zero(t.amount);
            if amount > s.inventory.at(t.good) {
                (s, Err(StateError::InsufficientInventory))
            } else {
                (GameState {
                    inventory: s.inventory.with_at(t.good, (s.inventory.at(t.good) - amount) as u32),
                    gold: (s.gold + price_here(s, t.good) * amount) as u32,
                    mode: Mode::ViewingInventory,
                    ..s
                }, Ok(()))
            }
        },
        _ => invalid_mode(s),
    }
}

/// Whether selling stays within `u32`.
pub open spec fn sell_fits(s: GameState) -> bool {
    match s.mode {
        Mode::Selling(Some(t)) => {
            let amount = amount_or_zero(t.amount);
            amount <= s.inventory.at(t.good) ==> s.gold + price_here(s, t.good) * amount <= u32::MAX
        },
        _ => true,
    }
}

/// Moving the typed amount of the chosen good from the hold into the stash:
/// refused if more is asked than is held (`InsufficientInventory`).
pub open spec fn stash_deposit_step(s: GameState) -> Step {
    match s.mode {
        Mode::StashDeposit(Some(t)) => {
            let amount = amount_or_zero(t.amount);
            if amount > s.inventory.at(t.good) {
                (s, Err(StateError::InsufficientInventory))
            } else {
                (GameState {
                    inventory: s.inventory.with_at(t.good, (s.inventory.at(t.good) - amount) as u32),
                    stash: s.stash.with_at(t.good, (s.stash.at(t.good) + amount) as u32),
                    mode: Mode::ViewingInventory,
                    ..s
                }, Ok(()))
            }
        },
        _ => invalid_mode(s),
    }
}

/// Whether a deposit into the stash stays within `u32`.
pub open spec fn stash_deposit_fits(s: GameState) -> bool {
    match s.mode {
        Mode::StashDeposit(Some(t)) => {
            let amount = amount_or_zero(t.amount);
            amount <= s.inventory.at(t.good) ==> s.stash.at(t.good) + amount <= u32::MAX
        },
        _ => true,
    }
}

/// Moving the typed amount of the chosen good from the stash into the hold
/// (the hold's size is not checked): refused if more is asked than is
/// stashed (`InsufficientStash`).
pub open spec fn stash_withdraw_step(s: GameState) -> Step {
    match s.mode {
        Mode::StashWithdraw(Some(t)) => {
            let amount = amount_or_zero(t.amount);
            if amount > s.stash.at(t.good) {
                (s, Err(StateError::InsufficientStash))
            } else {
                (GameState {
                    stash: s.stash.with_at(t.good, (s.stash.at(t.good) - amount) as u32),
                    inventory: s.inventory.with_at(t.good, (s.inventory.at(t.good) + amount) as u32),
                    mode: Mode::ViewingInventory,
                    ..s
                }, Ok(()))
            }
        },
        _ => invalid_mode(s),
    }
}

/// Whether a withdrawal from the stash stays within `u32`.
pub open spec fn stash_withdraw_fits(s: GameState) -> bool {
    match s.mode {
        Mode::StashWithdraw(Some(t)) => {
            let amount = amount_or_zero(t.amount);
            amount <= s.stash.at(t.good) ==> s.inventory.at(t.good) + amount <= u32::MAX
        },
        _ => true,
    }
}

/// Paying the typed amount off the debt: refused if it is more than the debt
/// (`PayDownAmountHigherThanDebt`), then if it is more than the gold (`CannotAfford`).
pub open spec fn pay_debt_step(s: GameState) -> Step {
    match s.mode {
        Mode::PayDebt(a) => {
            let amount = amount_or_zero(a);
            if amount > s.debt {
                (s, Err(StateError::PayDownAmountHigherThanDebt))
            } else if amount > s.gold {
                (s, Err(StateError::CannotAfford))
            } else {
                (GameState {
                    debt: (s.debt - amount) as u32,
                    gold: (s.gold - amount) as u32,
                    mode: Mode::ViewingInventory,
                    ..s
                }, Ok(()))
            }
        },
        _ => invalid_mode(s),
    }
}

/// Depositing the typed amount of gold: refused if it is more than the gold (`CannotAfford`).
pub open spec fn bank_deposit_step(s: GameState) -> Step {
    match s.mode {
        Mode::BankDeposit(a) => {
            let amount = amount_or_zero(a);
            if amount > s.gold {
                (s, Err(StateError::CannotAfford))
            } else {
                (GameState {
                    gold: (s.gold - amount) as u32,
                    bank: (s.bank + amount) as u32,
                    mode: Mode::ViewingInventory,
                    ..s
                }, Ok(()))
            }
        },
        _ => invalid_mode(s),
    }
}

/// Whether a deposit stays within `u32`.
pub open spec fn bank_deposit_fits(s: GameState) -> bool {
    match s.mode {
        Mode::BankDeposit(a) => amount_or_zero(a) <= s.gold ==> s.bank + amount_or_zero(a) <= u32::MAX,
        _ => true,
    }
}

/// Withdrawing the typed amount of gold: refused if it is more than the bank holds (`InsufficientBank`).
pub open spec fn bank_withdraw_step(s: GameState) -> Step {
    match s.mode {
        Mode::BankWithdraw(a) => {
            let amount = amount_or_zero(a);
            if amount > s.bank {
                (s, Err(StateError::InsufficientBank))
            } else {
                (GameState {
                    gold: (s.gold + amount) as u32,
                    bank: (s.bank - amount) as u32,
                    mode: Mode::ViewingInventory,
                    ..s
                }, Ok(()))
            }
        },
        _ => invalid_mode(s),
    }
}

/// Whether a withdrawal stays within `u32`.
pub open spec fn bank_withdraw_fits(s: GameState) -> bool {
    match s.mode {
        Mode::BankWithdraw(a) => amount_or_zero(a) <= s.bank ==> s.gold + amount_or_zero(a) <= u32::MAX,
        _ => true,
    }
}

/// The month after a date, with the year advancing after December.
pub open spec fn next_date(d: (u16, u8)) -> (u16, u8) {
    if d.1 == 12 {
        ((d.0 + 1) as u16, 1u8)
    } else {
        (d.0, (d.1 + 1) as u8)
    }
}

/// The debt after a month at sea: ten percent more, rounded down, capped at the largest `u32`.
pub open spec fn grown_debt(d: u32) -> u32 {
    if d + d / 10 > u32::MAX {
        u32::MAX
    } else {
        (d + d / 10) as u32
    }
}

/// The date on which the game ends: three years after the start, March 1785.
pub open spec fn end_date() -> (u16, u8) {
    (1785u16, 3u8)
}

/// The mode shown on arrival at a port that holds `info`: its event, if it has one.
pub open spec fn arrival_mode(info: crate::locations::LocationInfo) -> Mode {
    match info.event {
        Some(e) => Mode::GameEvent(e),
        None => Mode::ViewingInventory,
    }
}

/// Whether `t` is `s` after a voyage to `destination`: a month later (the game
/// ends on reaching March 1785), the destination drawn anew from its
/// personality with events allowed, the ship there, the debt grown, and the
/// destination's event shown if it has one.
pub open spec fn sailed(s: GameState, t: GameState, destination: Location) -> bool {
    let info = t.locations.at(destination);
    let date = next_date(s.date);
    &&& possible_location_info(s.location_config.personalities.at(destination), true, info)
    &&& t == GameState {
        rng: t.rng,
        date,
        game_end: s.game_end || date == end_date(),
        locations: s.locations.with_at(destination, info),
        location: destination,
        debt: grown_debt(s.debt),
        mode: arrival_mode(info),
        ..s
    }
}

/// Closing an event's dialog: refused outside an event.
pub open spec fn acknowledge_step(s: GameState) -> Step {
    match s.mode {
        Mode::GameEvent(_) => (with_mode(s, Mode::ViewingInventory), Ok(())),
        _ => invalid_mode(s),
    }
}

/// The room left in the hold, zero if it is overfull.
pub open spec fn hold_left(s: GameState) -> int {
    if inventory_total(s.inventory) > s.hold_size {
        0
    } else {
        s.hold_size - inventory_total(s.inventory)
    }
}

/// Whether a theft is one that could happen to `inv`: nothing is taken only
/// from an empty hold, and otherwise at least one and less than all of a good that is held.
pub open spec fn possible_theft(inv: Inventory, r: GoodsStolenResult) -> bool {
    match r {
        GoodsStolenResult::NothingStolen => forall|g: Good| #[trigger] inv.at(g) == 0,
        GoodsStolenResult::WasStolen { good, amount } => 1 <= amount < inv.at(good),
    }
}

/// Whether a theft takes no more of a good than is held.
pub open spec fn theft_fits(inv: Inventory, r: GoodsStolenResult) -> bool {
    match r {
        GoodsStolenResult::NothingStolen => true,
        GoodsStolenResult::WasStolen { good, amount } => amount <= inv.at(good),
    }
}

/// The hold after a theft.
pub open spec fn after_theft(inv: Inventory, r: GoodsStolenResult) -> Inventory {
    match r {
        GoodsStolenResult::NothingStolen => inv,
        GoodsStolenResult::WasStolen { good, amount } => inv.with_at(good, (inv.at(good) - amount) as u32),
    }
}

/// Buying something offered by an event (a cannon, hold space): if the gold
/// covers the price, pay it and apply `bought`, then close the event (which is
/// refused outside an event, after the purchase); otherwise nothing happens.
pub open spec fn purchase_step(s: GameState, price: u32, bought: GameState) -> Step {
    if s.gold >= price {
        acknowledge_step(bought)
    } else {
        (s, Ok(()))
    }
}

/// The mode of a pirate encounter at a step.
pub open spec fn pirate_mode(st: PirateEncounterState) -> Mode {
    Mode::GameEvent(LocationEvent::PirateEncounter(st))
}

/// Whether `t` differs from `s` at most in its generator and its mode.
pub open spec fn rng_and_mode_changed(s: GameState, t: GameState) -> bool {
    t == GameState { rng: t.rng, mode: t.mode, ..s }
}

/// Trying to run from the pirates, given whether it succeeds: refused outside the prompt.
pub open spec fn run_step(s: GameState, success: bool) -> Step {
    match s.mode {
        Mode::GameEvent(LocationEvent::PirateEncounter(PirateEncounterState::Prompt { info })) => (
            with_mode(
                s,
                pirate_mode(
                    if success {
                        PirateEncounterState::RunSuccess
                    } else {
                        PirateEncounterState::RunFailure { info }
                    },
                ),
            ),
            Ok(()),
        ),
        _ => invalid_mode(s),
    }
}

/// Taking the pirates' volley: the damage comes off the health (not below
/// zero); at zero the ship is destroyed, otherwise the player is asked again.
pub open spec fn pirates_attack_step(s: GameState) -> Step {
    match s.mode {
        Mode::GameEvent(
            LocationEvent::PirateEncounter(PirateEncounterState::PiratesAttack { info, damage_this_attack }),
        ) => {
            let health = if info.health >= damage_this_attack {
                (info.health - damage_this_attack) as u8
            } else {
                0u8
            };
            if health == 0 {
                (with_mode(s, pirate_mode(PirateEncounterState::Destroyed)), Ok(()))
            } else {
                (with_mode(s, pirate_mode(PirateEncounterState::Prompt { info: PirateEncounterInfo { health, ..info } })), Ok(()))
            }
        },
        _ => invalid_mode(s),
    }
}

/// After the ship is destroyed: the hold is emptied and half the gold (rounded
/// up) is kept.
pub open spec fn destroyed_step(s: GameState) -> Step {
    match s.mode {
        Mode::GameEvent(LocationEvent::PirateEncounter(PirateEncounterState::Destroyed)) => (
            GameState {
                inventory: GoodsMap { tea: 0, coffee: 0, sugar: 0, tobacco: 0, rum: 0, cotton: 0 },
                gold: ((s.gold + 1) / 2) as u32,
                mode: Mode::ViewingInventory,
                ..s
            },
            Ok(()),
        ),
        _ => invalid_mode(s),
    }
}

/// After a successful run: back to the inventory.
pub open spec fn run_success_step(s: GameState) -> Step {
    mode_step(s, pirate_mode(PirateEncounterState::RunSuccess), Mode::ViewingInventory)
}

/// After a victory: the recovered gold is added.
pub open spec fn victory_step(s: GameState) -> Step {
    match s.mode {
        Mode::GameEvent(LocationEvent::PirateEncounter(PirateEncounterState::Victory { gold_recovered })) => (
            GameState { gold: (s.gold + gold_recovered) as u32, mode: Mode::ViewingInventory, ..s },
            Ok(()),
        ),
        _ => invalid_mode(s),
    }
}

/// The pirates left after a volley: one fewer if one was sunk (never below zero).
pub open spec fn pirates_left(info: PirateEncounterInfo, did_kill_a_pirate: bool) -> u8 {
    if did_kill_a_pirate && info.cur_pirates > 0 {
        (info.cur_pirates - 1) as u8
    } else {
        info.cur_pirates
    }
}

/// Whether `t` is `s` after the result of the player's volley was shown: with
/// no pirate left, a victory with 500 to 1999 gold per pirate ship of the
/// encounter; otherwise the remaining pirates attack (their count taken as the
/// new total), with a damage of at most their number.
pub open spec fn attack_result_done(s: GameState, t: GameState) -> bool {
    match s.mode {
        Mode::GameEvent(
            LocationEvent::PirateEncounter(PirateEncounterState::AttackResult { info, did_kill_a_pirate }),
        ) => {
            let left = pirates_left(info, did_kill_a_pirate);
            &&& rng_and_mode_changed(s, t)
            &&& if left == 0 {
                t.mode matches Mode::GameEvent(
                    LocationEvent::PirateEncounter(PirateEncounterState::Victory { gold_recovered }),
                ) && 500 * info.total_pirates <= gold_recovered < 2000 * info.total_pirates
            } else {
                t.mode matches Mode::GameEvent(
                    LocationEvent::PirateEncounter(PirateEncounterState::PiratesAttack { info: i, damage_this_attack }),
                ) && i == (PirateEncounterInfo { health: info.health, cur_pirates: left, total_pirates: info.cur_pirates })
                    && damage_this_attack <= left
            }
        },
        _ => false,
    }
}

/// Whether the state can be played on: a real month, and a configuration that can draw every port.
pub open spec fn state_ok(s: GameState) -> bool {
    1 <= s.date.1 <= 12 && config_ok(s.location_config)
}

/// The mode of a pirate encounter at a step.
fn pirate_mode_exec(st: PirateEncounterState) -> (r: Mode)
    ensures
        r == pirate_mode(st),
{
    Mode::GameEvent(LocationEvent::PirateEncounter(st))
}

impl PirateEncounterState {
    /// The pirates attack: the damage is drawn from zero to their number,
    /// lower damage being likelier. Never fails.
    pub fn pirates_attack(info: PirateEncounterInfo, rng: &mut StdRng) -> (r: Result<PirateEncounterState, StateError>)
        ensures
            r matches Ok(PirateEncounterState::PiratesAttack { info: i, damage_this_attack }) && i == info
                && damage_this_attack <= info.cur_pirates,
    {
        let damage_this_attack = crate::game_rng::gen_damage_from_pirates(rng, info.cur_pirates);
        Ok(PirateEncounterState::PiratesAttack { info, damage_this_attack })
    }
}

/// The amount typed, or zero if none was.
fn unwrap_amount(a: Option<u32>) -> (r: u32)
    ensures
        r == amount_or_zero(a),
{
    match a {
        Some(v) => v,
        None => 0,
    }
}

/// The mode with the amount being typed replaced.
fn set_typed_amount(m: Mode, amount: Option<u32>) -> (r: Mode)
    ensures
        r == with_typed_amount(m, amount),
{
    match m {
        Mode::Buying(Some(t)) => Mode::Buying(Some(Transaction { good: t.good, amount })),
        Mode::Selling(Some(t)) => Mode::Selling(Some(Transaction { good: t.good, amount })),
        Mode::StashDeposit(Some(t)) => Mode::StashDeposit(Some(Transaction { good: t.good, amount })),
        Mode::StashWithdraw(Some(t)) => Mode::StashWithdraw(Some(Transaction { good: t.good, amount })),
        Mode::PayDebt(_) => Mode::PayDebt(amount),
        Mode::BankDeposit(_) => Mode::BankDeposit(amount),
        Mode::BankWithdraw(_) => Mode::BankWithdraw(amount),
        _ => m,
    }
}

impl GameState {
    /// A new game at the home port of `location_config`: 500 gold, a debt of
    /// three times that, a hold of 100, one cannon, March 1782, with every port
    /// drawn from its personality (no event at the home port).
    pub fn new(rng: StdRng, location_config: LocationConfig) -> (r: GameState)
        requires
            config_ok(location_config),
        ensures
            !r.initialized,
            r.date == (1782u16, 3u8),
            r.hold_size == 100,
            r.cannons == 1,
            r.gold == 500,
            r.bank == 0,
            r.location == location_config.home_port,
            forall|g: Good| #[trigger] r.stash.at(g) == 0 && r.inventory.at(g) == 0,
            forall|l: Location|
                possible_location_info(location_config.personalities.at(l), l != location_config.home_port, #[trigger] r.locations.at(l)),
            r.location_config == location_config,
            r.debt == 1500,
            r.mode == Mode::ViewingInventory,
            !r.game_end,
            state_ok(r),
    {
        let mut rng = rng;
        let starting_gold = STARTING_GOLD;
        let debt = starting_gold * 3;
        let locations = LocationInfos::new(&mut rng, &location_config);
        let empty = GoodsMap { tea: 0, coffee: 0, sugar: 0, tobacco: 0, rum: 0, cotton: 0 };
        GameState {
            rng,
            initialized: false,
            date: (1782, 3),
            hold_size: 100,
            cannons: 1,
            gold: starting_gold,
            bank: 0,
            location: location_config.home_port,
            stash: empty,
            inventory: empty,
            locations,
            location_config,
            debt,
            mode: Mode::ViewingInventory,
            game_end: false,
        }
    }

    /// Marks the game as started (the first key press leaves the splash screen).
    pub fn initialize(&mut self)
        ensures
            *final(self) == (GameState { initialized: true, ..*old(self) }),
    {
        self.initialized = true;
    }

    fn begin(&mut self, target: Mode, home_only: bool) -> (r: Result<(), StateError>)
        ensures
            (*final(self), r) == begin_step(*old(self), target, home_only),
    {
        if self.mode != Mode::ViewingInventory {
            return Err(StateError::InvalidMode(self.mode));
        }
        if home_only && self.location != self.location_config.home_port {
            return Err(StateError::LocationNotHomeBase(self.location));
        }
        self.mode = target;
        Ok(())
    }

    fn move_mode(&mut self, from: Mode, to: Mode) -> (r: Result<(), StateError>)
        ensures
            (*final(self), r) == mode_step(*old(self), from, to),
    {
        if self.mode == from {
            self.mode = to;
            Ok(())
        } else {
            Err(StateError::InvalidMode(self.mode))
        }
    }

    /// Starts buying: the player picks a good next.
    pub fn begin_buying(&mut self) -> (r: Result<(), StateError>)
        ensures
            (*final(self), r) == begin_step(*old(self), Mode::Buying(None), false),
    {
        self.begin(Mode::Buying(None), false)
    }

    /// Starts selling: the player picks a good next.
    pub fn begin_selling(&mut self) -> (r: Result<(), StateError>)
        ensures
            (*final(self), r) == begin_step(*old(self), Mode::Selling(None), false),
    {
        self.begin(Mode::Selling(None), false)
    }

    /// Starts choosing a port to sail to.
    pub fn begin_sailing(&mut self) -> (r: Result<(), StateError>)
        ensures
            (*final(self), r) == begin_step(*old(self), Mode::Sailing, false),
    {
        self.begin(Mode::Sailing, false)
    }

    /// Starts putting goods into the stash (home port only).
    pub fn begin_stash_deposit(&mut self) -> (r: Result<(), StateError>)
        ensures
            (*final(self), r) == begin_step(*old(self), Mode::StashDeposit(None), true),
    {
        self.begin(Mode::StashDeposit(None), true)
    }

    /// Starts taking goods out of the stash (home port only).
    pub fn begin_stash_withdraw(&mut self) -> (r: Result<(), StateError>)
        ensures
            (*final(self), r) == begin_step(*old(self), Mode::StashWithdraw(None), true),
    {
        self.begin(Mode::StashWithdraw(None), true)
    }

    /// Starts paying down the debt (home port only).
    pub fn begin_pay_debt(&mut self) -> (r: Result<(), StateError>)
        ensures
            (*final(self), r) == begin_step(*old(self), Mode::PayDebt(None), true),
    {
        self.begin(Mode::PayDebt(None), true)
    }

    /// Starts a deposit into the bank (home port only).
    pub fn begin_bank_deposit(&mut self) -> (r: Result<(), StateError>)
        ensures
            (*final(self), r) == begin_step(*old(self), Mode::BankDeposit(None), true),
    {
        self.begin(Mode::BankDeposit(None), true)
    }

    /// Starts a withdrawal from the bank (home port only).
    pub fn begin_bank_withdraw(&mut self) -> (r: Result<(), StateError>)
        ensures
            (*final(self), r) == begin_step(*old(self), Mode::BankWithdraw(None), true),
    {
        self.begin(Mode::BankWithdraw(None), true)
    }

    /// Picks the good to buy; the amount is typed next.
    pub fn choose_buy_good(&mut self, good: Good) -> (r: Result<(), StateError>)
        ensures
            (*final(self), r) == mode_step(
                *old(self),
                Mode::Buying(None),
                Mode::Buying(Some(Transaction { good, amount: None })),
            ),
    {
        self.move_mode(Mode::Buying(None), Mode::Buying(Some(Transaction { good, amount: None })))
    }

    /// Picks the good to sell; the amount is typed next.
    pub fn choose_sell_good(&mut self, good: Good) -> (r: Result<(), StateError>)
        ensures
            (*final(self), r) == mode_step(
                *old(self),
                Mode::Selling(None),
                Mode::Selling(Some(Transaction { good, amount: None })),
            ),
    {
        self.move_mode(Mode::Selling(None), Mode::Selling(Some(Transaction { good, amount: None })))
    }

    /// Picks the good to put into the stash; the amount is typed next.
    pub fn choose_stash_deposit_good(&mut self, good: Good) -> (r: Result<(), StateError>)
        ensures
            (*final(self), r) == mode_step(
                *old(self),
                Mode::StashDeposit(None),
                Mode::StashDeposit(Some(Transaction { good, amount: None })),
            ),
    {
        self.move_mode(
            Mode::StashDeposit(None),
            Mode::StashDeposit(Some(Transaction { good, amount: None })),
        )
    }

    /// Picks the good to take out of the stash; the amount is typed next.
    pub fn choose_stash_withdraw_good(&mut self, good: Good) -> (r: Result<(), StateError>)
        ensures
            (*final(self), r) == mode_step(
                *old(self),
                Mode::StashWithdraw(None),
                Mode::StashWithdraw(Some(Transaction { good, amount: None })),
            ),
    {
        self.move_mode(
            Mode::StashWithdraw(None),
            Mode::StashWithdraw(Some(Transaction { good, amount: None })),
        )
    }

    /// Leaves the choice of a good to buy.
    pub fn cancel_buy(&mut self) -> (r: Result<(), StateError>)
        ensures
            (*final(self), r) == mode_step(*old(self), Mode::Buying(None), Mode::ViewingInventory),
    {
        self.move_mode(Mode::Buying(None), Mode::ViewingInventory)
    }

    /// Leaves the choice of a good to sell.
    pub fn cancel_sell(&mut self) -> (r: Result<(), StateError>)
        ensures
            (*final(self), r) == mode_step(*old(self), Mode::Selling(None), Mode::ViewingInventory),
    {
        self.move_mode(Mode::Selling(None), Mode::ViewingInventory)
    }

    /// Leaves the choice of a good to put into the stash.
    pub fn cancel_stash_deposit(&mut self) -> (r: Result<(), StateError>)
        ensures
            (*final(self), r) == mode_step(*old(self), Mode::StashDeposit(None), Mode::ViewingInventory),
    {
        self.move_mode(Mode::StashDeposit(None), Mode::ViewingInventory)
    }

    /// Leaves the choice of a good to take out of the stash.
    pub fn cancel_stash_withdraw(&mut self) -> (r: Result<(), StateError>)
        ensures
            (*final(self), r) == mode_step(*old(self), Mode::StashWithdraw(None), Mode::ViewingInventory),
    {
        self.move_mode(Mode::StashWithdraw(None), Mode::ViewingInventory)
    }

    /// Types a digit of the amount being entered.
    pub fn user_typed_digit(&mut self, digit: u32) -> (r: Result<(), StateError>)
        requires
            typed_amount(old(self).mode) matches Some(a) ==> typed_fits(a, digit),
        ensures
            (*final(self), r) == digit_step(*old(self), digit),
    {
        let m = self.mode;
        let amount: Option<u32> = match m {
            Mode::Buying(Some(t)) => t.amount,
            Mode::Selling(Some(t)) => t.amount,
            Mode::StashDeposit(Some(t)) => t.amount,
            Mode::StashWithdraw(Some(t)) => t.amount,
            Mode::PayDebt(a) => a,
            Mode::BankDeposit(a) => a,
            Mode::BankWithdraw(a) => a,
            _ => {
                return Err(StateError::InvalidMode(m));
            },
        };
        let new_amount = match amount {
            None => Some(digit),
            Some(a) => Some(a * 10 + digit),
        };
        self.mode = set_typed_amount(m, new_amount);
        Ok(())
    }

    /// Removes the last digit of the amount being entered.
    pub fn user_typed_backspace(&mut self) -> (r: Result<(), StateError>)
        ensures
            (*final(self), r) == backspace_step(*old(self)),
    {
        let m = self.mode;
        let amount: Option<u32> = match m {
            Mode::Buying(Some(t)) => t.amount,
            Mode::Selling(Some(t)) => t.amount,
            Mode::StashDeposit(Some(t)) => t.amount,
            Mode::StashWithdraw(Some(t)) => t.amount,
            Mode::PayDebt(a) => a,
            Mode::BankDeposit(a) => a,
            Mode::BankWithdraw(a) => a,
            _ => {
                return Err(StateError::InvalidMode(m));
            },
        };
        let new_amount = match amount {
            None => None,
            Some(a) => if a <= 9 { None } else { Some(a / 10) },
        };
        self.mode = set_typed_amount(m, new_amount);
        Ok(())
    }

    /// Buys the typed amount of the chosen good at this port's price.
    pub fn commit_buy(&mut self) -> (r: Result<(), StateError>)
        requires
            buy_fits(*old(self)),
        ensures
            (*final(self), r) == buy_step(*old(self)),
    {
        if let Mode::Buying(Some(info)) = self.mode {
            let amount = unwrap_amount(info.amount);
            let good_price = *self.locations.location_info(&self.location).prices.get_good(&info.good);
            let can_afford = self.gold / good_price;
            if amount > can_afford {
                return Err(StateError::CannotAfford);
            }
            let hold_size = self.hold_size;
            let current_hold = self.inventory.total_amount();
            if current_hold + amount > hold_size {
                return Err(StateError::InsufficientHold);
            }
            proof {
                assert(good_price * amount <= self.gold) by (nonlinear_arith)
                    requires amount <= self.gold / good_price, good_price > 0;
                assert(self.inventory.at(info.good) <= inventory_total(self.inventory)) by {
                    match info.good { _ => {} }
                }
            }
            self.inventory.add_good(&info.good, amount);
            self.gold = self.gold - good_price * amount;
            self.mode = Mode::ViewingInventory;
            return Ok(());
        }
        Err(StateError::InvalidMode(self.mode))
    }

    /// Sells the typed amount of the chosen good at this port's price.
    pub fn commit_sell(&mut self) -> (r: Result<(), StateError>)
        requires
            sell_fits(*old(self)),
        ensures
            (*final(self), r) == sell_step(*old(self)),
    {
        if let Mode::Selling(Some(info)) = self.mode {
            let amount = unwrap_amount(info.amount);
            let good_price = *self.locations.location_info(&self.location).prices.get_good(&info.good);
            let user_amount = *self.inventory.get_good(&info.good);
            if amount > user_amount {
                return Err(StateError::InsufficientInventory);
            }
            proof {
                assert(good_price * amount <= u32::MAX) by (nonlinear_arith)
                    requires self.gold + good_price * amount <= u32::MAX, self.gold >= 0;
            }
            self.inventory.remove_good(&info.good, amount);
            self.gold = self.gold + good_price * amount;
            self.mode = Mode::ViewingInventory;
            return Ok(());
        }
        Err(StateError::InvalidMode(self.mode))
    }

    /// Moves the typed amount of the chosen good from the hold into the stash.
    pub fn commit_stash_deposit(&mut self) -> (r: Result<(), StateError>)
        requires
            stash_deposit_fits(*old(self)),
        ensures
            (*final(self), r) == stash_deposit_step(*old(self)),
    {
        if let Mode::StashDeposit(Some(info)) = self.mode {
            let amount = unwrap_amount(info.amount);
            let user_amount = *self.inventory.get_good(&info.good);
            if amount > user_amount {
                return Err(StateError::InsufficientInventory);
            }
            self.inventory.remove_good(&info.good, amount);
            self.stash.add_good(&info.good, amount);
            self.mode = Mode::ViewingInventory;
            return Ok(());
        }
        Err(StateError::InvalidMode(self.mode))
    }

    /// Moves the typed amount of the chosen good from the stash into the hold.
    pub fn commit_stash_withdraw(&mut self) -> (r: Result<(), StateError>)
        requires
            stash_withdraw_fits(*old(self)),
        ensures
            (*final(self), r) == stash_withdraw_step(*old(self)),
    {
        if let Mode::StashWithdraw(Some(info)) = self.mode {
            let amount = unwrap_amount(info.amount);
            let stash_amount = *self.stash.get_good(&info.good);
            if amount > stash_amount {
                return Err(StateError::InsufficientStash);
            }
            self.stash.remove_good(&info.good, amount);
            self.inventory.add_good(&info.good, amount);
            self.mode = Mode::ViewingInventory;
            return Ok(());
        }
        Err(StateError::InvalidMode(self.mode))
    }

    /// Pays the typed amount off the debt.
    pub fn commit_pay_debt(&mut self) -> (r: Result<(), StateError>)
        ensures
            (*final(self), r) == pay_debt_step(*old(self)),
    {
        if let Mode::PayDebt(amount) = self.mode {
            let amount = unwrap_amount(amount);
            if amount > self.debt {
                return Err(StateError::PayDownAmountHigherThanDebt);
            }
            if amount > self.gold {
                return Err(StateError::CannotAfford);
            }
            self.debt = self.debt - amount;
            self.gold = self.gold - amount;
            self.mode = Mode::ViewingInventory;
            return Ok(());
        }
        Err(StateError::InvalidMode(self.mode))
    }

    /// Deposits the typed amount of gold into the bank.
    pub fn commit_bank_deposit(&mut self) -> (r: Result<(), StateError>)
        requires
            bank_deposit_fits(*old(self)),
        ensures
            (*final(self), r) == bank_deposit_step(*old(self)),
    {
        if let Mode::BankDeposit(amount) = self.mode {
            let amount = unwrap_amount(amount);
            if amount > self.gold {
                return Err(StateError::CannotAfford);
            }
            self.gold = self.gold - amount;
            self.bank = self.bank + amount;
            self.mode = Mode::ViewingInventory;
            return Ok(());
        }
        Err(StateError::InvalidMode(self.mode))
    }

    /// Withdraws the typed amount of gold from the bank.
    pub fn commit_bank_withdraw(&mut self) -> (r: Result<(), StateError>)
        requires
            bank_withdraw_fits(*old(self)),
        ensures
            (*final(self), r) == bank_withdraw_step(*old(self)),
    {
        if let Mode::BankWithdraw(amount) = self.mode {
            let amount = unwrap_amount(amount);
            if amount > self.bank {
                return Err(StateError::InsufficientBank);
            }
            self.gold = self.gold + amount;
            self.bank = self.bank - amount;
            self.mode = Mode::ViewingInventory;
            return Ok(());
        }
        Err(StateError::InvalidMode(self.mode))
    }

    /// Sails to another port.
    pub fn sail_to(&mut self, destination: &Location) -> (r: Result<(), StateError>)
        requires
            state_ok(*old(self)),
            old(self).date.1 == 12 ==> old(self).date.0 < u16::MAX,
        ensures
            old(self).mode != Mode::Sailing ==> (*final(self), r) == invalid_mode(*old(self)),
            old(self).mode == Mode::Sailing && *destination == old(self).location ==> *final(self)
                == *old(self) && r == Err::<(), StateError>(StateError::AlreadyInLocation),
            old(self).mode == Mode::Sailing && *destination != old(self).location ==> r is Ok && sailed(
                *old(self),
                *final(self),
                *destination,
            ),
            state_ok(*final(self)),
    {
        if self.mode != Mode::Sailing {
            return Err(StateError::InvalidMode(self.mode));
        }
        if *destination == self.location {
            return Err(StateError::AlreadyInLocation);
        }
        self.mode = Mode::ViewingInventory;
        // a month passes
        if self.date.1 == 12 {
            self.date.1 = 1;
            self.date.0 = self.date.0 + 1;
        } else {
            self.date.1 = self.date.1 + 1;
        }
        if self.date.0 == 1785 && self.date.1 == 3 {
            // three years have passed
            self.game_end = true;
        }
        let personality = *self.location_config.personalities.get(destination);
        assert(crate::locations::personality_ok(personality));
        let new_location_info = self.locations.generate_location(&mut self.rng, destination, &personality, true);
        self.location = *destination;
        let grown: u64 = self.debt as u64 + (self.debt / 10) as u64;
        self.debt = if grown > 0xffff_ffffu64 { u32::MAX } else { grown as u32 };
        if let Some(event) = new_location_info.event {
            self.mode = Mode::GameEvent(event);
        }
        Ok(())
    }

    /// Closes an event's dialog.
    pub fn acknowledge_event(&mut self) -> (r: Result<(), StateError>)
        ensures
            (*final(self), r) == acknowledge_step(*old(self)),
    {
        if let Mode::GameEvent(_) = self.mode {
            self.mode = Mode::ViewingInventory;
            Ok(())
        } else {
            Err(StateError::InvalidMode(self.mode))
        }
    }

    /// The room left in the hold (zero if it is overfull).
    pub fn remaining_hold(&self) -> (r: u32)
        requires
            inventory_total(self.inventory) <= u32::MAX,
        ensures
            r == hold_left(*self),
    {
        let total = self.inventory.total_amount();
        if total > self.hold_size {
            0
        } else {
            self.hold_size - total
        }
    }

    /// Settles what thieves take during a theft: what was settled before, or,
    /// the first time, a draw among the goods held, which is then kept in the
    /// mode. Outside a theft nothing is stolen.
    pub fn compute_goods_stolen(&mut self) -> (r: GoodsStolenResult)
        requires
            old(self).mode == Mode::GameEvent(LocationEvent::GoodsStolen(None)) ==> forall|g: Good|
                #[trigger] old(self).inventory.at(g) != 1,
        ensures
            match old(self).mode {
                Mode::GameEvent(LocationEvent::GoodsStolen(Some(info))) => r == info && *final(self) == *old(self),
                Mode::GameEvent(LocationEvent::GoodsStolen(None)) => {
                    &&& possible_theft(old(self).inventory, r)
                    &&& *final(self) == GameState {
                        rng: final(self).rng,
                        mode: Mode::GameEvent(LocationEvent::GoodsStolen(Some(r))),
                        ..*old(self)
                    }
                },
                _ => r == GoodsStolenResult::NothingStolen && *final(self) == *old(self),
            },
    {
        match self.mode {
            Mode::GameEvent(LocationEvent::GoodsStolen(Some(info))) => info,
            Mode::GameEvent(LocationEvent::GoodsStolen(None)) => {
                let pairs = self.inventory.iter();
                let ghost inv = self.inventory;
                proof {
                    assert(pairs@.len() == 6);
                    assert(pairs@[0] == (Good::Tea, inv.tea));
                    assert(pairs@[1] == (Good::Coffee, inv.coffee));
                    assert(pairs@[2] == (Good::Sugar, inv.sugar));
                    assert(pairs@[3] == (Good::Tobacco, inv.tobacco));
                    assert(pairs@[4] == (Good::Rum, inv.rum));
                    assert(pairs@[5] == (Good::Cotton, inv.cotton));
                }
                let mut goods_with_inventory: Vec<(Good, u32)> = Vec::new();
                let mut i: usize = 0;
                while i < pairs.len()
                    invariant
                        pairs@.len() == 6,
                        forall|k: int| 0 <= k < 6 ==> #[trigger] pairs@[k].1 == inv.at(pairs@[k].0),
                        forall|g: Good| #[trigger] inv.at(g) != 1,
                        i <= 6,
                        forall|j: int| 0 <= j < goods_with_inventory@.len() ==> #[trigger] goods_with_inventory@[j].1
                            > 1 && goods_with_inventory@[j].1 == inv.at(goods_with_inventory@[j].0),
                        goods_with_inventory@.len() == 0 ==> forall|k: int| 0 <= k < i ==> #[trigger] pairs@[k].1 == 0,
                    decreases 6 - i,
                {
                    let pair = pairs[i];
                    if pair.1 > 0 {
                        assert(inv.at(pair.0) != 1);
                        goods_with_inventory.push(pair);
                    }
                    i = i + 1;
                }
                let computed = if goods_with_inventory.len() == 0 {
                    proof {
                        assert forall|g: Good| #[trigger] inv.at(g) == 0 by {
                            match g {
                                Good::Tea => assert(pairs@[0].1 == 0),
                                Good::Coffee => assert(pairs@[1].1 == 0),
                                Good::Sugar => assert(pairs@[2].1 == 0),
                                Good::Tobacco => assert(pairs@[3].1 == 0),
                                Good::Rum => assert(pairs@[4].1 == 0),
                                Good::Cotton => assert(pairs@[5].1 == 0),
                            }
                        }
                    }
                    GoodsStolenResult::NothingStolen
                } else {
                    let (good, amount) = crate::game_rng::gen_good_stolen(&mut self.rng, &goods_with_inventory);
                    GoodsStolenResult::WasStolen { good, amount }
                };
                self.mode = Mode::GameEvent(LocationEvent::GoodsStolen(Some(computed)));
                computed
            },
            _ => GoodsStolenResult::NothingStolen,
        }
    }

    /// Takes stolen goods out of the hold.
    pub fn remove_stolen_goods(&mut self, goods_stolen_info: GoodsStolenResult)
        requires
            theft_fits(old(self).inventory, goods_stolen_info),
        ensures
            *final(self) == (GameState {
                inventory: after_theft(old(self).inventory, goods_stolen_info),
                ..*old(self)
            }),
    {
        if let GoodsStolenResult::WasStolen { good, amount } = goods_stolen_info {
            self.inventory.remove_good(&good, amount);
        }
    }

    /// Buys a cannon for 5000 gold if the gold covers it, and then closes the
    /// event; without the gold nothing happens.
    pub fn confirm_buy_cannon(&mut self) -> (r: Result<(), StateError>)
        requires
            old(self).gold >= CANNON_COST ==> old(self).cannons < u8::MAX,
        ensures
            (*final(self), r) == purchase_step(
                *old(self),
                CANNON_COST as u32,
                GameState {
                    gold: (old(self).gold - CANNON_COST) as u32,
                    cannons: (old(self).cannons + 1) as u8,
                    ..*old(self)
                },
            ),
    {
        let cost: u32 = CANNON_COST as u32;
        if self.gold >= cost {
            self.gold = self.gold - cost;
            self.cannons = self.cannons + 1;
            return self.acknowledge_event();
        }
        Ok(())
    }

    /// Buys `more_hold` places of hold for `price` gold if the gold covers it,
    /// and then closes the event; without the gold nothing happens.
    pub fn confirm_buy_hold_space(&mut self, price: u32, more_hold: u32) -> (r: Result<(), StateError>)
        requires
            old(self).gold >= price ==> old(self).hold_size + more_hold <= u32::MAX,
        ensures
            (*final(self), r) == purchase_step(
                *old(self),
                price,
                GameState {
                    gold: (old(self).gold - price) as u32,
                    hold_size: (old(self).hold_size + more_hold) as u32,
                    ..*old(self)
                },
            ),
    {
        if self.gold >= price {
            self.gold = self.gold - price;
            self.hold_size = self.hold_size + more_hold;
            return self.acknowledge_event();
        }
        Ok(())
    }

    /// Starts a pirate encounter: two to four pirate ships against a ship at full health.
    pub fn proceed_pirate_encounter(&mut self) -> (r: Result<(), StateError>)
        ensures
            old(self).mode == pirate_mode(PirateEncounterState::Initial) ==> {
                &&& r is Ok
                &&& rng_and_mode_changed(*old(self), *final(self))
                &&& final(self).mode matches Mode::GameEvent(
                    LocationEvent::PirateEncounter(PirateEncounterState::Prompt { info }),
                ) && 2 <= info.total_pirates <= 4 && info == (PirateEncounterInfo {
                    health: SHIP_HEALTH,
                    total_pirates: info.total_pirates,
                    cur_pirates: info.total_pirates,
                })
            },
            old(self).mode != pirate_mode(PirateEncounterState::Initial) ==> (*final(self), r) == invalid_mode(*old(self)),
    {
        if self.mode == pirate_mode_exec(PirateEncounterState::Initial) {
            let pirates = crate::game_rng::gen_num_pirates_encountered(&mut self.rng);
            self.mode = pirate_mode_exec(PirateEncounterState::Prompt { info: PirateEncounterInfo::new(pirates) });
            Ok(())
        } else {
            Err(StateError::InvalidMode(self.mode))
        }
    }

    /// Tries to run from the pirates; `success` is whether the run gets away
    /// (drawn by the caller, see the contract of the caller's draw).
    pub fn pirate_run(&mut self, success: bool) -> (r: Result<(), StateError>)
        ensures
            (*final(self), r) == run_step(*old(self), success),
    {
        if let Mode::GameEvent(LocationEvent::PirateEncounter(PirateEncounterState::Prompt { info })) = self.mode {
            if success {
                self.mode = pirate_mode_exec(PirateEncounterState::RunSuccess);
            } else {
                self.mode = pirate_mode_exec(PirateEncounterState::RunFailure { info });
            }
            Ok(())
        } else {
            Err(StateError::InvalidMode(self.mode))
        }
    }

    /// Fires at the pirates: whether a ship is sunk is drawn, with no chance
    /// of it without cannons.
    pub fn pirate_fight(&mut self) -> (r: Result<(), StateError>)
        requires
            old(self).cannons < u8::MAX,
        ensures
            match old(self).mode {
                Mode::GameEvent(LocationEvent::PirateEncounter(PirateEncounterState::Prompt { info })) => {
                    &&& r is Ok
                    &&& rng_and_mode_changed(*old(self), *final(self))
                    &&& final(self).mode matches Mode::GameEvent(
                        LocationEvent::PirateEncounter(PirateEncounterState::AttackResult { info: i, did_kill_a_pirate }),
                    ) && i == info && (old(self).cannons == 0 ==> !did_kill_a_pirate)
                },
                _ => (*final(self), r) == invalid_mode(*old(self)),
            },
    {
        if let Mode::GameEvent(LocationEvent::PirateEncounter(PirateEncounterState::Prompt { info })) = self.mode {
            let did_kill_a_pirate = crate::game_rng::gen_did_kill_a_pirate(&mut self.rng, self.cannons);
            self.mode = pirate_mode_exec(PirateEncounterState::AttackResult { info, did_kill_a_pirate });
            Ok(())
        } else {
            Err(StateError::InvalidMode(self.mode))
        }
    }

    /// After a failed run the pirates attack, dealing at most one damage per ship.
    pub fn proceed_pirate_run_failure(&mut self) -> (r: Result<(), StateError>)
        ensures
            match old(self).mode {
                Mode::GameEvent(LocationEvent::PirateEncounter(PirateEncounterState::RunFailure { info })) => {
                    &&& r is Ok
                    &&& rng_and_mode_changed(*old(self), *final(self))
                    &&& final(self).mode matches Mode::GameEvent(
                        LocationEvent::PirateEncounter(PirateEncounterState::PiratesAttack { info: i, damage_this_attack }),
                    ) && i == info && damage_this_attack <= info.cur_pirates
                },
                _ => (*final(self), r) == invalid_mode(*old(self)),
            },
    {
        if let Mode::GameEvent(LocationEvent::PirateEncounter(PirateEncounterState::RunFailure { info })) = self.mode {
            let attack = PirateEncounterState::pirates_attack(info, &mut self.rng);
            match attack {
                Ok(st) => {
                    self.mode = pirate_mode_exec(st);
                    Ok(())
                },
                Err(e) => Err(e),
            }
        } else {
            Err(StateError::InvalidMode(self.mode))
        }
    }

    /// Applies the pirates' volley.
    pub fn proceed_pirates_attack(&mut self) -> (r: Result<(), StateError>)
        ensures
            (*final(self), r) == pirates_attack_step(*old(self)),
    {
        if let Mode::GameEvent(
            LocationEvent::PirateEncounter(PirateEncounterState::PiratesAttack { info, damage_this_attack }),
        ) = self.mode {
            let health = if info.health >= damage_this_attack {
                info.health - damage_this_attack
            } else {
                0
            };
            if health == 0 {
                self.mode = pirate_mode_exec(PirateEncounterState::Destroyed);
            } else {
                self.mode = pirate_mode_exec(
                    PirateEncounterState::Prompt {
                        info: PirateEncounterInfo {
                            health,
                            cur_pirates: info.cur_pirates,
                            total_pirates: info.total_pirates,
                        },
                    },
                );
            }
            Ok(())
        } else {
            Err(StateError::InvalidMode(self.mode))
        }
    }

    /// After the ship is destroyed: the hold is lost and half the gold (rounded up) is kept.
    pub fn proceed_destroyed(&mut self) -> (r: Result<(), StateError>)
        ensures
            (*final(self), r) == destroyed_step(*old(self)),
    {
        if self.mode == pirate_mode_exec(PirateEncounterState::Destroyed) {
            self.inventory = GoodsMap { tea: 0, coffee: 0, sugar: 0, tobacco: 0, rum: 0, cotton: 0 };
            self.gold = self.gold / 2 + self.gold % 2;
            self.mode = Mode::ViewingInventory;
            Ok(())
        } else {
            Err(StateError::InvalidMode(self.mode))
        }
    }

    /// After a successful run: back to the inventory.
    pub fn proceed_pirate_run_success(&mut self) -> (r: Result<(), StateError>)
        ensures
            (*final(self), r) == run_success_step(*old(self)),
    {
        self.move_mode(pirate_mode_exec(PirateEncounterState::RunSuccess), Mode::ViewingInventory)
    }

    /// After the result of the player's volley: a victory if no pirate is
    /// left, otherwise the remaining pirates attack.
    pub fn proceed_attack_result(&mut self) -> (r: Result<(), StateError>)
        requires
            old(self).mode matches Mode::GameEvent(
                LocationEvent::PirateEncounter(PirateEncounterState::AttackResult { info, did_kill_a_pirate }),
            ) ==> (pirates_left(info, did_kill_a_pirate) == 0 ==> info.total_pirates > 0),
        ensures
            old(self).mode matches Mode::GameEvent(
                LocationEvent::PirateEncounter(PirateEncounterState::AttackResult { .. }),
            ) ==> r is Ok && attack_result_done(*old(self), *final(self)),
            !(old(self).mode matches Mode::GameEvent(
                LocationEvent::PirateEncounter(PirateEncounterState::AttackResult { .. }),
            )) ==> (*final(self), r) == invalid_mode(*old(self)),
    {
        if let Mode::GameEvent(
            LocationEvent::PirateEncounter(PirateEncounterState::AttackResult { info, did_kill_a_pirate }),
        ) = self.mode {
            let cur_pirates = if did_kill_a_pirate && info.cur_pirates > 0 {
                info.cur_pirates - 1
            } else {
                info.cur_pirates
            };
            if cur_pirates == 0 {
                // the player recovers some gold from the wreckage
                let gold_recovered = crate::game_rng::gen_gold_recovered_from_pirate_encounter(
                    &mut self.rng,
                    info.total_pirates,
                );
                self.mode = pirate_mode_exec(PirateEncounterState::Victory { gold_recovered });
            } else {
                let attack = PirateEncounterState::pirates_attack(
                    PirateEncounterInfo { health: info.health, cur_pirates, total_pirates: info.cur_pirates },
                    &mut self.rng,
                );
                match attack {
                    Ok(st) => {
                        self.mode = pirate_mode_exec(st);
                    },
                    Err(e) => {
                        return Err(e);
                    },
                }
            }
            Ok(())
        } else {
            Err(StateError::InvalidMode(self.mode))
        }
    }

    /// After a victory: the recovered gold is added.
    pub fn proceed_pirate_encounter_victory(&mut self) -> (r: Result<(), StateError>)
        requires
            old(self).mode matches Mode::GameEvent(
                LocationEvent::PirateEncounter(PirateEncounterState::Victory { gold_recovered }),
            ) ==> old(self).gold + gold_recovered <= u32::MAX,
        ensures
            (*final(self), r) == victory_step(*old(self)),
    {
        if let Mode::GameEvent(
            LocationEvent::PirateEncounter(PirateEncounterState::Victory { gold_recovered }),
        ) = self.mode {
            self.gold = self.gold + gold_recovered;
            self.mode = Mode::ViewingInventory;
            Ok(())
        } else {
            Err(StateError::InvalidMode(self.mode))
        }
    }

    /// Leaves the choice of a port.
    pub fn cancel_sail_to(&mut self) -> (r: Result<(), StateError>)
        ensures
            (*final(self), r) == mode_step(*old(self), Mode::Sailing, Mode::ViewingInventory),
    {
        self.move_mode(Mode::Sailing, Mode::ViewingInventory)
    }
}

} // verus!
