use merchant::events::{GoodsStolenResult, LocationEvent, NoEffectEvent, PirateEncounterInfo, PirateEncounterState};
use merchant::game_state::{Mode, StateError, Transaction};
use merchant::good::Good;
use merchant::location::Location;

fn all_errors() -> Vec<StateError> {
    let info = PirateEncounterInfo::new(3);
    let modes = vec![
        Mode::ViewingInventory,
        Mode::Buying(None),
        Mode::Buying(Some(Transaction { good: Good::Tea, amount: None })),
        Mode::Selling(Some(Transaction { good: Good::Cotton, amount: Some(120) })),
        Mode::Sailing,
        Mode::StashDeposit(Some(Transaction { good: Good::Rum, amount: Some(0) })),
        Mode::StashWithdraw(None),
        Mode::PayDebt(Some(1400)),
        Mode::BankDeposit(None),
        Mode::BankWithdraw(Some(7)),
        Mode::GameEvent(LocationEvent::CheapGood(Good::Sugar)),
        Mode::GameEvent(LocationEvent::ExpensiveGood(Good::Coffee)),
        Mode::GameEvent(LocationEvent::FindGoods(Good::Tobacco, 9)),
        Mode::GameEvent(LocationEvent::GoodsStolen(None)),
        Mode::GameEvent(LocationEvent::GoodsStolen(Some(GoodsStolenResult::NothingStolen))),
        Mode::GameEvent(LocationEvent::GoodsStolen(Some(GoodsStolenResult::WasStolen { good: Good::Coffee, amount: 4 }))),
        Mode::GameEvent(LocationEvent::CanBuyCannon),
        Mode::GameEvent(LocationEvent::PirateEncounter(PirateEncounterState::Initial)),
        Mode::GameEvent(LocationEvent::PirateEncounter(PirateEncounterState::Prompt { info })),
        Mode::GameEvent(LocationEvent::PirateEncounter(PirateEncounterState::AttackResult { info, did_kill_a_pirate: true })),
        Mode::GameEvent(LocationEvent::PirateEncounter(PirateEncounterState::RunSuccess)),
        Mode::GameEvent(LocationEvent::PirateEncounter(PirateEncounterState::RunFailure { info })),
        Mode::GameEvent(LocationEvent::PirateEncounter(PirateEncounterState::PiratesAttack { info, damage_this_attack: 2 })),
        Mode::GameEvent(LocationEvent::PirateEncounter(PirateEncounterState::Destroyed)),
        Mode::GameEvent(LocationEvent::PirateEncounter(PirateEncounterState::Victory { gold_recovered: 1121 })),
        Mode::GameEvent(LocationEvent::CanBuyHoldSpace { price: 800, more_hold: 70 }),
        Mode::GameEvent(LocationEvent::NoEffect(NoEffectEvent::SunnyDay)),
        Mode::GameEvent(LocationEvent::NoEffect(NoEffectEvent::StormOnHorizon)),
    ];
    let mut errors: Vec<StateError> = modes.into_iter().map(StateError::InvalidMode).collect();
    errors.extend(vec![
        StateError::CannotAfford,
        StateError::InsufficientHold,
        StateError::InsufficientInventory,
        StateError::InsufficientStash,
        StateError::AlreadyInLocation,
        StateError::LocationNotHomeBase(Location::CapeTown),
        StateError::PayDownAmountHigherThanDebt,
        StateError::InsufficientBank,
        StateError::UnknownError(String::new()),
        StateError::UnknownError("plain text, it's fine".to_string()),
        StateError::UnknownError("quote \" backslash \\ tab\t newline\n nul\0 bell\u{7} del\u{7f}".to_string()),
        StateError::UnknownError("ünïcödé ✓ \u{301}accent \u{200b}space".to_string()),
    ]);
    errors
}

#[test]
fn every_error_reads_as_its_pretty_debug_form() {
    for e in all_errors() {
        assert_eq!(e.to_string(), format!("{:#?}", e));
    }
}

#[test]
fn nested_errors_indent_their_fields() {
    let e = StateError::InvalidMode(Mode::Buying(Some(Transaction { good: Good::Tea, amount: Some(5) })));
    assert_eq!(
        e.to_string(),
        "InvalidMode(\n    Buying(\n        Some(\n            Transaction {\n                good: Tea,\n                amount: Some(\n                    5,\n                ),\n            },\n        ),\n    ),\n)"
    );
}
