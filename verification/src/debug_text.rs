use vstd::prelude::*;

use crate::events::{GoodsStolenResult, LocationEvent, NoEffectEvent, PirateEncounterInfo, PirateEncounterState};
use crate::game_state::{Mode, StateError, Transaction};
use crate::good::Good;
use crate::location::Location;
use crate::text::{decimal, push_char, push_decimal, push_str, str_chars};

verus! {

// The pretty-printed debug form of the game's values: a unit variant is its
// name; a tuple variant is its name and `(`, then each field on a line of its
// own, indented by four spaces and followed by a comma, then `)`; a struct or
// struct variant is its name and ` {`, then each field as `name: value` on
// such a line, then `}`. A nested value's lines are indented with it.

/// A text with four spaces put after each of its line breaks.
pub open spec fn indented(t: Seq<char>) -> Seq<char>
    decreases t.len(),
{
    if t.len() == 0 {
        Seq::empty()
    } else {
        indented(t.drop_last()) + if t.last() == '\n' {
            seq!['\n'] + "    "@
        } else {
            seq![t.last()]
        }
    }
}

/// The line of an unnamed field.
pub open spec fn field_line(v: Seq<char>) -> Seq<char> {
    "    "@ + indented(v) + ",\n"@
}

/// The line of a named field.
pub open spec fn named_field_line(n: Seq<char>, v: Seq<char>) -> Seq<char> {
    "    "@ + n + ": "@ + indented(v) + ",\n"@
}

/// A tuple variant with one field.
pub open spec fn tuple1(name: Seq<char>, a: Seq<char>) -> Seq<char> {
    name + "(\n"@ + field_line(a) + ")"@
}

/// A tuple variant with two fields.
pub open spec fn tuple2(name: Seq<char>, a: Seq<char>, b: Seq<char>) -> Seq<char> {
    name + "(\n"@ + field_line(a) + field_line(b) + ")"@
}

/// A struct with one field.
pub open spec fn struct1(name: Seq<char>, n1: Seq<char>, v1: Seq<char>) -> Seq<char> {
    name + " {\n"@ + named_field_line(n1, v1) + "}"@
}

/// A struct with two fields.
pub open spec fn struct2(name: Seq<char>, n1: Seq<char>, v1: Seq<char>, n2: Seq<char>, v2: Seq<char>) -> Seq<char> {
    name + " {\n"@ + named_field_line(n1, v1) + named_field_line(n2, v2) + "}"@
}

/// A struct with three fields.
pub open spec fn struct3(
    name: Seq<char>,
    n1: Seq<char>,
    v1: Seq<char>,
    n2: Seq<char>,
    v2: Seq<char>,
    n3: Seq<char>,
    v3: Seq<char>,
) -> Seq<char> {
    name + " {\n"@ + named_field_line(n1, v1) + named_field_line(n2, v2) + named_field_line(n3, v3) + "}"@
}

/// A truth value.
pub open spec fn bool_text(b: bool) -> Seq<char> {
    if b {
        "true"@
    } else {
        "false"@
    }
}

/// A good: its name.
pub open spec fn good_text(g: Good) -> Seq<char> {
    match g {
        Good::Tea => "Tea"@,
        Good::Coffee => "Coffee"@,
        Good::Sugar => "Sugar"@,
        Good::Tobacco => "Tobacco"@,
        Good::Rum => "Rum"@,
        Good::Cotton => "Cotton"@,
    }
}

/// A port: its name.
pub open spec fn location_text(l: Location) -> Seq<char> {
    match l {
        Location::London => "London"@,
        Location::Savannah => "Savannah"@,
        Location::Lisbon => "Lisbon"@,
        Location::Amsterdam => "Amsterdam"@,
        Location::CapeTown => "CapeTown"@,
        Location::Venice => "Venice"@,
    }
}

/// An uneventful day: its name.
pub open spec fn no_effect_text(e: NoEffectEvent) -> Seq<char> {
    match e {
        NoEffectEvent::SunnyDay => "SunnyDay"@,
        NoEffectEvent::StormOnHorizon => "StormOnHorizon"@,
    }
}

/// A number that may be absent.
pub open spec fn option_number_text(o: Option<u32>) -> Seq<char> {
    match o {
        None => "None"@,
        Some(n) => tuple1("Some"@, decimal(n as nat)),
    }
}

/// A chosen good and the amount typed.
pub open spec fn transaction_text(t: Transaction) -> Seq<char> {
    struct2("Transaction"@, "good"@, good_text(t.good), "amount"@, option_number_text(t.amount))
}

/// A transaction that may not have been started.
pub open spec fn option_transaction_text(o: Option<Transaction>) -> Seq<char> {
    match o {
        None => "None"@,
        Some(t) => tuple1("Some"@, transaction_text(t)),
    }
}

/// The state of the ship in a pirate encounter.
pub open spec fn info_text(i: PirateEncounterInfo) -> Seq<char> {
    struct3(
        "PirateEncounterInfo"@,
        "health"@,
        decimal(i.health as nat),
        "total_pirates"@,
        decimal(i.total_pirates as nat),
        "cur_pirates"@,
        decimal(i.cur_pirates as nat),
    )
}

/// A step of a pirate encounter.
pub open spec fn encounter_text(s: PirateEncounterState) -> Seq<char> {
    match s {
        PirateEncounterState::Initial => "Initial"@,
        PirateEncounterState::Prompt { info } => struct1("Prompt"@, "info"@, info_text(info)),
        PirateEncounterState::AttackResult { info, did_kill_a_pirate } => struct2(
            "AttackResult"@,
            "info"@,
            info_text(info),
            "did_kill_a_pirate"@,
            bool_text(did_kill_a_pirate),
        ),
        PirateEncounterState::RunSuccess => "RunSuccess"@,
        PirateEncounterState::RunFailure { info } => struct1("RunFailure"@, "info"@, info_text(info)),
        PirateEncounterState::PiratesAttack { info, damage_this_attack } => struct2(
            "PiratesAttack"@,
            "info"@,
            info_text(info),
            "damage_this_attack"@,
            decimal(damage_this_attack as nat),
        ),
        PirateEncounterState::Destroyed => "Destroyed"@,
        PirateEncounterState::Victory { gold_recovered } => struct1(
            "Victory"@,
            "gold_recovered"@,
            decimal(gold_recovered as nat),
        ),
    }
}

/// What thieves did.
pub open spec fn stolen_text(r: GoodsStolenResult) -> Seq<char> {
    match r {
        GoodsStolenResult::NothingStolen => "NothingStolen"@,
        GoodsStolenResult::WasStolen { good, amount } => struct2(
            "WasStolen"@,
            "good"@,
            good_text(good),
            "amount"@,
            decimal(amount as nat),
        ),
    }
}

/// What thieves did, where it is settled.
pub open spec fn option_stolen_text(o: Option<GoodsStolenResult>) -> Seq<char> {
    match o {
        None => "None"@,
        Some(r) => tuple1("Some"@, stolen_text(r)),
    }
}

/// An event at a port.
pub open spec fn event_text(e: LocationEvent) -> Seq<char> {
    match e {
        LocationEvent::CheapGood(g) => tuple1("CheapGood"@, good_text(g)),
        LocationEvent::ExpensiveGood(g) => tuple1("ExpensiveGood"@, good_text(g)),
        LocationEvent::FindGoods(g, n) => tuple2("FindGoods"@, good_text(g), decimal(n as nat)),
        LocationEvent::GoodsStolen(o) => tuple1("GoodsStolen"@, option_stolen_text(o)),
        LocationEvent::CanBuyCannon => "CanBuyCannon"@,
        LocationEvent::PirateEncounter(s) => tuple1("PirateEncounter"@, encounter_text(s)),
        LocationEvent::CanBuyHoldSpace { price, more_hold } => struct2(
            "CanBuyHoldSpace"@,
            "price"@,
            decimal(price as nat),
            "more_hold"@,
            decimal(more_hold as nat),
        ),
        LocationEvent::NoEffect(n) => tuple1("NoEffect"@, no_effect_text(n)),
    }
}

/// What the player is doing.
pub open spec fn mode_text(m: Mode) -> Seq<char> {
    match m {
        Mode::ViewingInventory => "ViewingInventory"@,
        Mode::Buying(o) => tuple1("Buying"@, option_transaction_text(o)),
        Mode::Selling(o) => tuple1("Selling"@, option_transaction_text(o)),
        Mode::Sailing => "Sailing"@,
        Mode::StashDeposit(o) => tuple1("StashDeposit"@, option_transaction_text(o)),
        Mode::StashWithdraw(o) => tuple1("StashWithdraw"@, option_transaction_text(o)),
        Mode::PayDebt(o) => tuple1("PayDebt"@, option_number_text(o)),
        Mode::BankDeposit(o) => tuple1("BankDeposit"@, option_number_text(o)),
        Mode::BankWithdraw(o) => tuple1("BankWithdraw"@, option_number_text(o)),
        Mode::GameEvent(e) => tuple1("GameEvent"@, event_text(e)),
    }
}

/// How std's `char::escape_debug` writes a character (which characters it
/// escapes rests on Unicode's tables).
pub uninterp spec fn char_debug_escape(c: char) -> Seq<char>;

/// Writes a character the way std's `char::escape_debug` does.
#[verifier::external_body]
fn escape_debug_char(c: char) -> (r: String)
    ensures
        r@ == char_debug_escape(c),
{
    c.escape_debug().to_string()
}

/// How a character of a string is written in its debug form: a single quote
/// and every printable ASCII character other than `"` and `\` as it is, any
/// other character escaped as std's `char::escape_debug` does.
pub open spec fn quoted_char(c: char) -> Seq<char> {
    if c == '\'' || (' ' <= c <= '~' && c != '"' && c != '\\') {
        seq![c]
    } else {
        char_debug_escape(c)
    }
}

/// The characters of a string, each written as in its debug form.
pub open spec fn quoted_body(s: Seq<char>) -> Seq<char>
    decreases s.len(),
{
    if s.len() == 0 {
        Seq::empty()
    } else {
        quoted_body(s.drop_last()) + quoted_char(s.last())
    }
}

/// A string in its debug form: between double quotes, its characters written
/// as in [quoted_char].
pub open spec fn quoted(s: Seq<char>) -> Seq<char> {
    "\""@ + quoted_body(s) + "\""@
}

/// The text of a refused request as the game shows it: its pretty-printed
/// debug form.
#[verifier::opaque]
pub open spec fn state_error_text(e: StateError) -> Seq<char> {
    match e {
        StateError::InvalidMode(m) => tuple1("InvalidMode"@, mode_text(m)),
        StateError::CannotAfford => "CannotAfford"@,
        StateError::InsufficientHold => "InsufficientHold"@,
        StateError::InsufficientInventory => "InsufficientInventory"@,
        StateError::InsufficientStash => "InsufficientStash"@,
        StateError::AlreadyInLocation => "AlreadyInLocation"@,
        StateError::LocationNotHomeBase(l) => tuple1("LocationNotHomeBase"@, location_text(l)),
        StateError::PayDownAmountHigherThanDebt => "PayDownAmountHigherThanDebt"@,
        StateError::InsufficientBank => "InsufficientBank"@,
        StateError::UnknownError(s) => tuple1("UnknownError"@, quoted(s@)),
    }
}

/// Appends a text with four spaces put after each of its line breaks.
fn push_indented(out: &mut String, t: &String)
    ensures
        final(out)@ == old(out)@ + indented(t@),
{
    let cs = str_chars(t.as_str());
    let ghost o = out@;
    let mut i: usize = 0;
    assert(t@.take(0) =~= Seq::<char>::empty());
    while i < cs.len()
        invariant
            cs@ == t@,
            i <= cs@.len(),
            out@ == o + indented(t@.take(i as int)),
        decreases cs@.len() - i,
    {
        let c = cs[i];
        assert(t@.take(i + 1).drop_last() =~= t@.take(i as int));
        assert(t@.take(i + 1).last() == c);
        if c == '\n' {
            push_char(out, '\n');
            push_str(out, "    ");
            assert(out@ =~= o + indented(t@.take(i + 1)));
        } else {
            push_char(out, c);
            assert(out@ =~= o + indented(t@.take(i + 1)));
        }
        i = i + 1;
    }
    assert(t@.take(cs@.len() as int) =~= t@);
}

/// Appends the line of an unnamed field.
fn push_field_line(out: &mut String, v: &String)
    ensures
        final(out)@ == old(out)@ + field_line(v@),
{
    let ghost o = out@;
    push_str(out, "    ");
    push_indented(out, v);
    push_str(out, ",\n");
    assert(out@ =~= o + field_line(v@));
}

/// Appends the line of a named field.
fn push_named_field_line(out: &mut String, n: &str, v: &String)
    ensures
        final(out)@ == old(out)@ + named_field_line(n@, v@),
{
    let ghost o = out@;
    push_str(out, "    ");
    push_str(out, n);
    push_str(out, ": ");
    push_indented(out, v);
    push_str(out, ",\n");
    assert(out@ =~= o + named_field_line(n@, v@));
}

/// A tuple variant with one field; see [tuple1].
fn tuple1_string(name: &str, a: &String) -> (r: String)
    ensures
        r@ == tuple1(name@, a@),
{
    let mut r = String::new();
    push_str(&mut r, name);
    push_str(&mut r, "(\n");
    push_field_line(&mut r, a);
    push_str(&mut r, ")");
    assert(r@ =~= tuple1(name@, a@));
    r
}

/// A tuple variant with two fields; see [tuple2].
fn tuple2_string(name: &str, a: &String, b: &String) -> (r: String)
    ensures
        r@ == tuple2(name@, a@, b@),
{
    let mut r = String::new();
    push_str(&mut r, name);
    push_str(&mut r, "(\n");
    push_field_line(&mut r, a);
    push_field_line(&mut r, b);
    push_str(&mut r, ")");
    assert(r@ =~= tuple2(name@, a@, b@));
    r
}

/// A struct with one field; see [struct1].
fn struct1_string(name: &str, n1: &str, v1: &String) -> (r: String)
    ensures
        r@ == struct1(name@, n1@, v1@),
{
    let mut r = String::new();
    push_str(&mut r, name);
    push_str(&mut r, " {\n");
    push_named_field_line(&mut r, n1, v1);
    push_str(&mut r, "}");
    assert(r@ =~= struct1(name@, n1@, v1@));
    r
}

/// A struct with two fields; see [struct2].
fn struct2_string(name: &str, n1: &str, v1: &String, n2: &str, v2: &String) -> (r: String)
    ensures
        r@ == struct2(name@, n1@, v1@, n2@, v2@),
{
    let mut r = String::new();
    push_str(&mut r, name);
    push_str(&mut r, " {\n");
    push_named_field_line(&mut r, n1, v1);
    push_named_field_line(&mut r, n2, v2);
    push_str(&mut r, "}");
    assert(r@ =~= struct2(name@, n1@, v1@, n2@, v2@));
    r
}

/// The decimal digits of a number.
fn number_string(n: u64) -> (r: String)
    ensures
        r@ == decimal(n as nat),
{
    let mut r = String::new();
    push_decimal(&mut r, n);
    assert(r@ =~= decimal(n as nat));
    r
}

/// A good; see [good_text].
fn good_string(g: Good) -> (r: String)
    ensures
        r@ == good_text(g),
{
    let s = match g {
        Good::Tea => "Tea",
        Good::Coffee => "Coffee",
        Good::Sugar => "Sugar",
        Good::Tobacco => "Tobacco",
        Good::Rum => "Rum",
        Good::Cotton => "Cotton",
    };
    s.to_owned()
}

/// A port; see [location_text].
fn location_string(l: Location) -> (r: String)
    ensures
        r@ == location_text(l),
{
    let s = match l {
        Location::London => "London",
        Location::Savannah => "Savannah",
        Location::Lisbon => "Lisbon",
        Location::Amsterdam => "Amsterdam",
        Location::CapeTown => "CapeTown",
        Location::Venice => "Venice",
    };
    s.to_owned()
}

/// A number that may be absent; see [option_number_text].
fn option_number_string(o: Option<u32>) -> (r: String)
    ensures
        r@ == option_number_text(o),
{
    match o {
        None => "None".to_owned(),
        Some(n) => tuple1_string("Some", &number_string(n as u64)),
    }
}

/// A transaction that may not have been started; see [option_transaction_text].
fn option_transaction_string(o: Option<Transaction>) -> (r: String)
    ensures
        r@ == option_transaction_text(o),
{
    match o {
        None => "None".to_owned(),
        Some(t) => {
            let inner = struct2_string(
                "Transaction",
                "good",
                &good_string(t.good),
                "amount",
                &option_number_string(t.amount),
            );
            tuple1_string("Some", &inner)
        },
    }
}

/// The state of the ship in a pirate encounter; see [info_text].
fn info_string(i: PirateEncounterInfo) -> (r: String)
    ensures
        r@ == info_text(i),
{
    let mut r = String::new();
    push_str(&mut r, "PirateEncounterInfo");
    push_str(&mut r, " {\n");
    push_named_field_line(&mut r, "health", &number_string(i.health as u64));
    push_named_field_line(&mut r, "total_pirates", &number_string(i.total_pirates as u64));
    push_named_field_line(&mut r, "cur_pirates", &number_string(i.cur_pirates as u64));
    push_str(&mut r, "}");
    assert(r@ =~= info_text(i));
    r
}

/// A step of a pirate encounter; see [encounter_text].
fn encounter_string(s: PirateEncounterState) -> (r: String)
    ensures
        r@ == encounter_text(s),
{
    match s {
        PirateEncounterState::Initial => "Initial".to_owned(),
        PirateEncounterState::Prompt { info } => struct1_string("Prompt", "info", &info_string(info)),
        PirateEncounterState::AttackResult { info, did_kill_a_pirate } => {
            let b = if did_kill_a_pirate {
                "true".to_owned()
            } else {
                "false".to_owned()
            };
            struct2_string("AttackResult", "info", &info_string(info), "did_kill_a_pirate", &b)
        },
        PirateEncounterState::RunSuccess => "RunSuccess".to_owned(),
        PirateEncounterState::RunFailure { info } => struct1_string("RunFailure", "info", &info_string(info)),
        PirateEncounterState::PiratesAttack { info, damage_this_attack } => struct2_string(
            "PiratesAttack",
            "info",
            &info_string(info),
            "damage_this_attack",
            &number_string(damage_this_attack as u64),
        ),
        PirateEncounterState::Destroyed => "Destroyed".to_owned(),
        PirateEncounterState::Victory { gold_recovered } => struct1_string(
            "Victory",
            "gold_recovered",
            &number_string(gold_recovered as u64),
        ),
    }
}

/// What thieves did, where it is settled; see [option_stolen_text].
fn option_stolen_string(o: Option<GoodsStolenResult>) -> (r: String)
    ensures
        r@ == option_stolen_text(o),
{
    match o {
        None => "None".to_owned(),
        Some(GoodsStolenResult::NothingStolen) => tuple1_string("Some", &"NothingStolen".to_owned()),
        Some(GoodsStolenResult::WasStolen { good, amount }) => {
            let inner = struct2_string(
                "WasStolen",
                "good",
                &good_string(good),
                "amount",
                &number_string(amount as u64),
            );
            tuple1_string("Some", &inner)
        },
    }
}

/// An event at a port; see [event_text].
fn event_string(e: LocationEvent) -> (r: String)
    ensures
        r@ == event_text(e),
{
    match e {
        LocationEvent::CheapGood(g) => tuple1_string("CheapGood", &good_string(g)),
        LocationEvent::ExpensiveGood(g) => tuple1_string("ExpensiveGood", &good_string(g)),
        LocationEvent::FindGoods(g, n) => tuple2_string("FindGoods", &good_string(g), &number_string(n as u64)),
        LocationEvent::GoodsStolen(o) => tuple1_string("GoodsStolen", &option_stolen_string(o)),
        LocationEvent::CanBuyCannon => "CanBuyCannon".to_owned(),
        LocationEvent::PirateEncounter(s) => tuple1_string("PirateEncounter", &encounter_string(s)),
        LocationEvent::CanBuyHoldSpace { price, more_hold } => struct2_string(
            "CanBuyHoldSpace",
            "price",
            &number_string(price as u64),
            "more_hold",
            &number_string(more_hold as u64),
        ),
        LocationEvent::NoEffect(n) => {
            let name = match n {
                NoEffectEvent::SunnyDay => "SunnyDay".to_owned(),
                NoEffectEvent::StormOnHorizon => "StormOnHorizon".to_owned(),
            };
            tuple1_string("NoEffect", &name)
        },
    }
}

/// What the player is doing; see [mode_text].
fn mode_string(m: Mode) -> (r: String)
    ensures
        r@ == mode_text(m),
{
    match m {
        Mode::ViewingInventory => "ViewingInventory".to_owned(),
        Mode::Buying(o) => tuple1_string("Buying", &option_transaction_string(o)),
        Mode::Selling(o) => tuple1_string("Selling", &option_transaction_string(o)),
        Mode::Sailing => "Sailing".to_owned(),
        Mode::StashDeposit(o) => tuple1_string("StashDeposit", &option_transaction_string(o)),
        Mode::StashWithdraw(o) => tuple1_string("StashWithdraw", &option_transaction_string(o)),
        Mode::PayDebt(o) => tuple1_string("PayDebt", &option_number_string(o)),
        Mode::BankDeposit(o) => tuple1_string("BankDeposit", &option_number_string(o)),
        Mode::BankWithdraw(o) => tuple1_string("BankWithdraw", &option_number_string(o)),
        Mode::GameEvent(e) => tuple1_string("GameEvent", &event_string(e)),
    }
}

/// A string in its debug form; see [quoted].
fn quoted_string(s: &String) -> (r: String)
    ensures
        r@ == quoted(s@),
{
    let cs = str_chars(s.as_str());
    let mut r = String::new();
    push_str(&mut r, "\"");
    let ghost open = r@;
    let mut i: usize = 0;
    assert(s@.take(0) =~= Seq::<char>::empty());
    while i < cs.len()
        invariant
            cs@ == s@,
            i <= cs@.len(),
            r@ == open + quoted_body(s@.take(i as int)),
        decreases cs@.len() - i,
    {
        let c = cs[i];
        assert(s@.take(i + 1).drop_last() =~= s@.take(i as int));
        assert(s@.take(i + 1).last() == c);
        if c == '\'' || (' ' <= c && c <= '~' && c != '"' && c != '\\') {
            push_char(&mut r, c);
        } else {
            let e = escape_debug_char(c);
            push_str(&mut r, e.as_str());
        }
        assert(r@ =~= open + quoted_body(s@.take(i + 1)));
        i = i + 1;
    }
    push_str(&mut r, "\"");
    assert(s@.take(cs@.len() as int) =~= s@);
    assert(r@ =~= quoted(s@));
    r
}

/// The text of a refused request as the game shows it; see [state_error_text].
pub fn state_error_string(e: &StateError) -> (r: String)
    ensures
        r@ == state_error_text(*e),
{
    reveal(state_error_text);
    match e {
        StateError::InvalidMode(m) => tuple1_string("InvalidMode", &mode_string(*m)),
        StateError::CannotAfford => "CannotAfford".to_owned(),
        StateError::InsufficientHold => "InsufficientHold".to_owned(),
        StateError::InsufficientInventory => "InsufficientInventory".to_owned(),
        StateError::InsufficientStash => "InsufficientStash".to_owned(),
        StateError::AlreadyInLocation => "AlreadyInLocation".to_owned(),
        StateError::LocationNotHomeBase(l) => tuple1_string("LocationNotHomeBase", &location_string(*l)),
        StateError::PayDownAmountHigherThanDebt => "PayDownAmountHigherThanDebt".to_owned(),
        StateError::InsufficientBank => "InsufficientBank".to_owned(),
        StateError::UnknownError(s) => tuple1_string("UnknownError", &quoted_string(s)),
    }
}

} // verus!
