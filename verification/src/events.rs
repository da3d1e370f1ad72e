use vstd::prelude::*;

use crate::good::Good;

verus! {

/// The price of one more cannon.
pub const CANNON_COST: u16 = 5000;

/// The health of the ship at the start of a pirate encounter.
pub const SHIP_HEALTH: u8 = 5;

/// The least gold recovered per pirate ship after a victory.
pub const GOLD_PER_PIRATE_VICTORY_MIN: u32 = 500;

/// The bound (exclusive) on the gold recovered per pirate ship after a victory.
pub const GOLD_PER_PIRATE_VICTORY_MAX: u32 = 2000;

/// The state of the ship and of the pirates during an encounter.
#[derive(PartialEq, Eq, Clone, Debug, Copy, Structural)]
pub struct PirateEncounterInfo {
    pub health: u8,
    pub total_pirates: u8,
    pub cur_pirates: u8,
}

impl PirateEncounterInfo {
    /// The start of an encounter with `pirates` ships: full health.
    pub fn new(pirates: u8) -> (r: PirateEncounterInfo)
        ensures
            r == (PirateEncounterInfo { health: SHIP_HEALTH, total_pirates: pirates, cur_pirates: pirates }),
    {
        PirateEncounterInfo { health: SHIP_HEALTH, total_pirates: pirates, cur_pirates: pirates }
    }
}

/// The steps of a pirate encounter.
#[derive(PartialEq, Eq, Clone, Debug, Copy, Structural)]
pub enum PirateEncounterState {
    Initial,
    Prompt { info: PirateEncounterInfo },
    AttackResult { info: PirateEncounterInfo, did_kill_a_pirate: bool },
    RunSuccess,
    RunFailure { info: PirateEncounterInfo },
    PiratesAttack { info: PirateEncounterInfo, damage_this_attack: u8 },
    Destroyed,
    Victory { gold_recovered: u32 },
}

/// Events that change nothing.
#[derive(PartialEq, Eq, Clone, Debug, Copy, Structural)]
pub enum NoEffectEvent {
    SunnyDay,
    StormOnHorizon,
}

/// What thieves took.
#[derive(Debug, Clone, Copy, PartialEq, Eq, Structural)]
pub enum GoodsStolenResult {
    NothingStolen,
    WasStolen { good: Good, amount: u32 },
}

/// Something that happens on arrival at a port.
#[derive(PartialEq, Eq, Clone, Debug, Copy, Structural)]
pub enum LocationEvent {
    CheapGood(Good),
    ExpensiveGood(Good),
    FindGoods(Good, u32),
    GoodsStolen(Option<GoodsStolenResult>),
    CanBuyCannon,
    PirateEncounter(PirateEncounterState),
    CanBuyHoldSpace { price: u32, more_hold: u32 },
    NoEffect(NoEffectEvent),
}

} // verus!
