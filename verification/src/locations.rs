use vstd::prelude::*;

use rand::rngs::StdRng;

use crate::events::{LocationEvent, NoEffectEvent, PirateEncounterState};
use crate::good::{good_for_roll, Good};
use crate::goods_map::{lemma_at_with_at, GoodsMap, Inventory, PriceRanges};
use crate::location::Location;
use crate::location_map::LocationMap;
use crate::rng::{gen_range_u32, next_u32, shuffle_goods, weight_sum, weighted_index_u8};

verus! {

/// The kinds of event a port can hold on arrival.
#[derive(Debug, Clone, Copy, PartialEq, Eq, Structural)]
pub enum EventPossibility {
    NoEvent,
    CheapGood,
    ExpensiveGood,
    FindGoods,
    StolenGoods,
    CanBuyCannon,
    PirateEncounter,
    CanBuyHoldSpace,
    NoEffect,
}

/// The kinds of event in their fixed order.
pub open spec fn all_possibilities() -> Seq<EventPossibility> {
    seq![
        EventPossibility::NoEvent,
        EventPossibility::CheapGood,
        EventPossibility::ExpensiveGood,
        EventPossibility::FindGoods,
        EventPossibility::StolenGoods,
        EventPossibility::CanBuyCannon,
        EventPossibility::PirateEncounter,
        EventPossibility::CanBuyHoldSpace,
        EventPossibility::NoEffect,
    ]
}

/// How likely each kind of event is at a port, relative to the others.
#[derive(Debug, Clone, Copy, PartialEq, Eq)]
pub struct EventWeights {
    pub no_event: u8,
    pub cheap_good: u8,
    pub expensive_good: u8,
    pub find_goods: u8,
    pub stolen_goods: u8,
    pub can_buy_cannon: u8,
    pub pirate_encounter: u8,
    pub can_buy_more_hold_space: u8,
    pub no_effect: u8,
}

impl EventWeights {
    /// The weights in the fixed order of the kinds of event.
    pub open spec fn weight_seq(self) -> Seq<u8> {
        seq![
            self.no_event,
            self.cheap_good,
            self.expensive_good,
            self.find_goods,
            self.stolen_goods,
            self.can_buy_cannon,
            self.pirate_encounter,
            self.can_buy_more_hold_space,
            self.no_effect,
        ]
    }

    /// The weight of one kind of event.
    pub open spec fn weight_of(self, p: EventPossibility) -> u8 {
        match p {
            EventPossibility::NoEvent => self.no_event,
            EventPossibility::CheapGood => self.cheap_good,
            EventPossibility::ExpensiveGood => self.expensive_good,
            EventPossibility::FindGoods => self.find_goods,
            EventPossibility::StolenGoods => self.stolen_goods,
            EventPossibility::CanBuyCannon => self.can_buy_cannon,
            EventPossibility::PirateEncounter => self.pirate_encounter,
            EventPossibility::CanBuyHoldSpace => self.can_buy_more_hold_space,
            EventPossibility::NoEffect => self.no_effect,
        }
    }

    /// Whether an event can be drawn from these weights: their total is
    /// positive and fits in the weights' own type.
    pub open spec fn drawable(self) -> bool {
        0 < weight_sum(self.weight_seq()) <= u8::MAX
    }

    /// The weights in the fixed order of the kinds of event.
    pub fn weights(&self) -> (r: [u8; 9])
        ensures
            r@ == self.weight_seq(),
    {
        let r = [
            self.no_event,
            self.cheap_good,
            self.expensive_good,
            self.find_goods,
            self.stolen_goods,
            self.can_buy_cannon,
            self.pirate_encounter,
            self.can_buy_more_hold_space,
            self.no_effect,
        ];
        assert(r@ =~= self.weight_seq());
        r
    }

    /// Whether an event can be drawn from these weights; see [EventWeights::drawable].
    pub fn is_drawable(&self) -> (r: bool)
        ensures
            r == self.drawable(),
    {
        let total: u64 = self.no_event as u64 + self.cheap_good as u64 + self.expensive_good as u64
            + self.find_goods as u64 + self.stolen_goods as u64 + self.can_buy_cannon as u64
            + self.pirate_encounter as u64 + self.can_buy_more_hold_space as u64 + self.no_effect as u64;
        proof {
            reveal_with_fuel(weight_sum, 10);
            assert(weight_sum(self.weight_seq()) == total);
        }
        0 < total && total <= 255
    }

    /// Draws a kind of event: one whose weight is not zero.
    pub fn generate_random_event(&self, rng: &mut StdRng) -> (r: EventPossibility)
        requires
            self.drawable(),
        ensures
            self.weight_of(r) > 0,
    {
        let weights = self.weights();
        let index = weighted_index_u8(rng, &weights);
        possibility_at(index)
    }
}

/// The kind of event at a position of the fixed order.
fn possibility_at(i: usize) -> (r: EventPossibility)
    requires
        i < 9,
    ensures
        r == all_possibilities()[i as int],
{
    if i == 0 {
        EventPossibility::NoEvent
    } else if i == 1 {
        EventPossibility::CheapGood
    } else if i == 2 {
        EventPossibility::ExpensiveGood
    } else if i == 3 {
        EventPossibility::FindGoods
    } else if i == 4 {
        EventPossibility::StolenGoods
    } else if i == 5 {
        EventPossibility::CanBuyCannon
    } else if i == 6 {
        EventPossibility::PirateEncounter
    } else if i == 7 {
        EventPossibility::CanBuyHoldSpace
    } else {
        EventPossibility::NoEffect
    }
}

/// The prices and event weights of one port.
#[derive(Debug, Clone, Copy)]
pub struct LocationPersonality {
    pub price_ranges: PriceRanges,
    pub event_weights: EventWeights,
}

/// The personalities of all ports.
pub type LocationPersonalities = LocationMap<LocationPersonality>;

/// The home port, the price ranges over all ports, and each port's personality.
#[derive(Debug, Clone, Copy)]
pub struct LocationConfig {
    pub home_port: Location,
    pub overall_price_ranges: PriceRanges,
    pub personalities: LocationPersonalities,
}

/// Whether every range of a price table is non-empty (its low end is below its high end).
pub open spec fn ranges_nonempty(p: PriceRanges) -> bool {
    forall|g: Good| #[trigger] p.at(g).0 < p.at(g).1
}

/// Whether every range of a price table is non-empty; see [ranges_nonempty].
pub fn price_ranges_nonempty(p: &PriceRanges) -> (r: bool)
    ensures
        r == ranges_nonempty(*p),
{
    let r = p.tea.0 < p.tea.1 && p.coffee.0 < p.coffee.1 && p.sugar.0 < p.sugar.1 && p.tobacco.0 < p.tobacco.1
        && p.rum.0 < p.rum.1 && p.cotton.0 < p.cotton.1;
    proof {
        if r {
            assert forall|g: Good| #[trigger] p.at(g).0 < p.at(g).1 by {
                match g { _ => {} }
            }
        } else {
            assert(!(p.at(Good::Tea).0 < p.at(Good::Tea).1) || !(p.at(Good::Coffee).0 < p.at(Good::Coffee).1)
                || !(p.at(Good::Sugar).0 < p.at(Good::Sugar).1) || !(p.at(Good::Tobacco).0 < p.at(Good::Tobacco).1)
                || !(p.at(Good::Rum).0 < p.at(Good::Rum).1) || !(p.at(Good::Cotton).0 < p.at(Good::Cotton).1));
        }
    }
    r
}

/// Whether a personality can produce a port: its price ranges are non-empty
/// and an event can be drawn from its weights.
pub open spec fn personality_ok(p: LocationPersonality) -> bool {
    ranges_nonempty(p.price_ranges) && p.event_weights.drawable()
}

/// Whether a configuration can produce all ports.
pub open spec fn config_ok(c: LocationConfig) -> bool {
    forall|l: Location| #[trigger] personality_ok(c.personalities.at(l))
}

impl LocationConfig {
    /// Whether this configuration can produce all ports; see [config_ok].
    pub fn is_playable(&self) -> (r: bool)
        ensures
            r == config_ok(*self),
    {
        let p = &self.personalities;
        let r = price_ranges_nonempty(&p.london.price_ranges) && p.london.event_weights.is_drawable()
            && price_ranges_nonempty(&p.savannah.price_ranges) && p.savannah.event_weights.is_drawable()
            && price_ranges_nonempty(&p.lisbon.price_ranges) && p.lisbon.event_weights.is_drawable()
            && price_ranges_nonempty(&p.amsterdam.price_ranges) && p.amsterdam.event_weights.is_drawable()
            && price_ranges_nonempty(&p.capetown.price_ranges) && p.capetown.event_weights.is_drawable()
            && price_ranges_nonempty(&p.venice.price_ranges) && p.venice.event_weights.is_drawable();
        proof {
            if r {
                assert forall|l: Location| #[trigger] personality_ok(self.personalities.at(l)) by {
                    match l { _ => {} }
                }
            } else {
                assert(!personality_ok(self.personalities.at(Location::London))
                    || !personality_ok(self.personalities.at(Location::Savannah))
                    || !personality_ok(self.personalities.at(Location::Lisbon))
                    || !personality_ok(self.personalities.at(Location::Amsterdam))
                    || !personality_ok(self.personalities.at(Location::CapeTown))
                    || !personality_ok(self.personalities.at(Location::Venice)));
            }
        }
        r
    }
}

/// Whether every price lies in its range (low end included, high end excluded).
pub open spec fn prices_in_ranges(prices: Inventory, ranges: PriceRanges) -> bool {
    forall|g: Good| ranges.at(g).0 <= #[trigger] prices.at(g) < ranges.at(g).1
}

/// `low + roll % (high - low)`: a price drawn from a roll.
pub open spec fn price_for_roll(range: (u32, u32), roll: u32) -> int {
    range.0 + (roll as int) % (range.1 - range.0)
}

impl GoodsMap<(u32, u32)> {
    /// A price for each good, drawn from its range.
    pub fn randomized_inventory(&self, rng: &mut StdRng) -> (r: Inventory)
        requires
            ranges_nonempty(*self),
        ensures
            prices_in_ranges(r, *self),
    {
        proof {
            assert(self.at(Good::Tea).0 < self.at(Good::Tea).1);
            assert(self.at(Good::Coffee).0 < self.at(Good::Coffee).1);
            assert(self.at(Good::Sugar).0 < self.at(Good::Sugar).1);
            assert(self.at(Good::Tobacco).0 < self.at(Good::Tobacco).1);
            assert(self.at(Good::Rum).0 < self.at(Good::Rum).1);
            assert(self.at(Good::Cotton).0 < self.at(Good::Cotton).1);
        }
        let tea = price_from_roll(self.tea, next_u32(rng));
        let coffee = price_from_roll(self.coffee, next_u32(rng));
        let sugar = price_from_roll(self.sugar, next_u32(rng));
        let tobacco = price_from_roll(self.tobacco, next_u32(rng));
        let rum = price_from_roll(self.rum, next_u32(rng));
        let cotton = price_from_roll(self.cotton, next_u32(rng));
        GoodsMap { tea, coffee, sugar, tobacco, rum, cotton }
    }
}

/// A price drawn from a roll: `low + roll % (high - low)`.
pub fn price_from_roll(range: (u32, u32), roll: u32) -> (r: u32)
    requires
        range.0 < range.1,
    ensures
        r == price_for_roll(range, roll),
        range.0 <= r < range.1,
{
    let (low, high) = range;
    roll % (high - low) + low
}

impl Good {
    /// A good drawn at random.
    pub fn random(rng: &mut StdRng) -> (r: Good) {
        let roll = next_u32(rng);
        Good::from_roll(roll)
    }

    /// All goods in a random order.
    pub fn variants_random_order(rng: &mut StdRng) -> (r: Vec<Good>)
        ensures
            r@.to_multiset() == crate::good::all_goods().to_multiset(),
            r@.len() == 6,
    {
        let mut variants = Good::variants();
        shuffle_goods(rng, &mut variants);
        variants
    }
}

/// The prices and the pending event of a port.
#[derive(Clone, Copy, Debug, PartialEq, Eq)]
pub struct LocationInfo {
    pub prices: Inventory,
    pub event: Option<LocationEvent>,
}

impl LocationInfo {
    /// No prices (all zero) and no event.
    pub fn empty() -> (r: LocationInfo)
        ensures
            r.event is None,
            forall|g: Good| #[trigger] r.prices.at(g) == 0,
    {
        LocationInfo {
            prices: GoodsMap { tea: 0, coffee: 0, sugar: 0, tobacco: 0, rum: 0, cotton: 0 },
            event: None,
        }
    }
}

/// The kind of event that an event is.
pub open spec fn event_kind(e: LocationEvent) -> EventPossibility {
    match e {
        LocationEvent::CheapGood(_) => EventPossibility::CheapGood,
        LocationEvent::ExpensiveGood(_) => EventPossibility::ExpensiveGood,
        LocationEvent::FindGoods(_, _) => EventPossibility::FindGoods,
        LocationEvent::GoodsStolen(_) => EventPossibility::StolenGoods,
        LocationEvent::CanBuyCannon => EventPossibility::CanBuyCannon,
        LocationEvent::PirateEncounter(_) => EventPossibility::PirateEncounter,
        LocationEvent::CanBuyHoldSpace { .. } => EventPossibility::CanBuyHoldSpace,
        LocationEvent::NoEffect(_) => EventPossibility::NoEffect,
    }
}

/// Twice a price, capped at the largest `u32`.
pub open spec fn doubled_price(p: u32) -> u32 {
    if 2 * p > u32::MAX { u32::MAX } else { (2 * p) as u32 }
}

/// What an event does to a port's prices: a cheap good costs half
/// (rounded down), an expensive good twice as much; other events leave them.
pub open spec fn prices_after_event(prices: Inventory, event: Option<LocationEvent>) -> Inventory {
    match event {
        Some(LocationEvent::CheapGood(g)) => prices.with_at(g, (prices.at(g) / 2) as u32),
        Some(LocationEvent::ExpensiveGood(g)) => prices.with_at(g, doubled_price(prices.at(g))),
        _ => prices,
    }
}

/// Whether a freshly drawn event is one that can be drawn: found goods come
/// in amounts from one to ten, stolen goods are not yet counted, a pirate
/// encounter starts at its beginning, and extra hold space costs from 500 to
/// 1499 gold for 65 to 129 more places.
pub open spec fn fresh_event(e: LocationEvent) -> bool {
    match e {
        LocationEvent::FindGoods(_, amount) => 1 <= amount <= 10,
        LocationEvent::GoodsStolen(info) => info is None,
        LocationEvent::PirateEncounter(st) => st == PirateEncounterState::Initial,
        LocationEvent::CanBuyHoldSpace { price, more_hold } => 500 <= price < 1500 && 65 <= more_hold
            < 130,
        _ => true,
    }
}

/// Whether `info` is a port that `personality` can produce: prices drawn from
/// the ranges and changed by the event, and, only where events are allowed, an
/// event of a kind with a weight that is not zero.
pub open spec fn possible_location_info(
    personality: LocationPersonality,
    allow_events: bool,
    info: LocationInfo,
) -> bool {
    exists|base: Inventory|
        {
            &&& prices_in_ranges(base, personality.price_ranges)
            &&& info.prices == prices_after_event(base, info.event)
            &&& match info.event {
                None => true,
                Some(e) => allow_events && personality.event_weights.weight_of(event_kind(e)) > 0
                    && fresh_event(e),
            }
        }
}

/// The port that a kind of event and its rolls make: the rolls pick the good
/// (modulo six), the amount found (modulo ten, plus one), the price and the
/// extra space of the hold, and which event without effect it is.
pub open spec fn event_from_rolls(
    kind: EventPossibility,
    good_roll: u32,
    amount_roll: u32,
    price: u32,
    more_hold: u32,
    sunny: bool,
) -> Option<LocationEvent> {
    match kind {
        EventPossibility::NoEvent => None,
        EventPossibility::CheapGood => Some(LocationEvent::CheapGood(good_for_roll(good_roll))),
        EventPossibility::ExpensiveGood => Some(LocationEvent::ExpensiveGood(good_for_roll(good_roll))),
        EventPossibility::FindGoods => Some(
            LocationEvent::FindGoods(good_for_roll(good_roll), (amount_roll % 10 + 1) as u32),
        ),
        EventPossibility::StolenGoods => Some(LocationEvent::GoodsStolen(None)),
        EventPossibility::CanBuyCannon => Some(LocationEvent::CanBuyCannon),
        EventPossibility::PirateEncounter => Some(
            LocationEvent::PirateEncounter(PirateEncounterState::Initial),
        ),
        EventPossibility::CanBuyHoldSpace => Some(LocationEvent::CanBuyHoldSpace { price, more_hold }),
        EventPossibility::NoEffect => Some(
            LocationEvent::NoEffect(
                if sunny { NoEffectEvent::SunnyDay } else { NoEffectEvent::StormOnHorizon },
            ),
        ),
    }
}

/// The port made by drawn prices, a drawn kind of event and its rolls; see
/// [event_from_rolls] and [prices_after_event].
pub fn location_info_from_rolls(
    prices: Inventory,
    kind: EventPossibility,
    good_roll: u32,
    amount_roll: u32,
    price: u32,
    more_hold: u32,
    sunny: bool,
) -> (r: LocationInfo)
    ensures
        r.event == event_from_rolls(kind, good_roll, amount_roll, price, more_hold, sunny),
        r.prices == prices_after_event(prices, r.event),
{
    let good = Good::from_roll(good_roll);
    let mut prices = prices;
    let event = match kind {
        EventPossibility::NoEvent => None,
        EventPossibility::CheapGood => {
            let p = *prices.get_good(&good);
            prices.set_good(&good, p / 2);
            Some(LocationEvent::CheapGood(good))
        },
        EventPossibility::ExpensiveGood => {
            let p = *prices.get_good(&good);
            let doubled = if p > u32::MAX / 2 { u32::MAX } else { p * 2 };
            prices.set_good(&good, doubled);
            Some(LocationEvent::ExpensiveGood(good))
        },
        EventPossibility::FindGoods => Some(LocationEvent::FindGoods(good, amount_roll % 10 + 1)),
        EventPossibility::StolenGoods => Some(LocationEvent::GoodsStolen(None)),
        EventPossibility::CanBuyCannon => Some(LocationEvent::CanBuyCannon),
        EventPossibility::PirateEncounter => Some(
            LocationEvent::PirateEncounter(PirateEncounterState::Initial),
        ),
        EventPossibility::CanBuyHoldSpace => Some(LocationEvent::CanBuyHoldSpace { price, more_hold }),
        EventPossibility::NoEffect => Some(
            LocationEvent::NoEffect(
                if sunny { NoEffectEvent::SunnyDay } else { NoEffectEvent::StormOnHorizon },
            ),
        ),
    };
    LocationInfo { prices, event }
}

/// Draws a port from a personality: prices from its ranges and, where events
/// are allowed, an event from its weights.
pub fn gen_location_info(rng: &mut StdRng, allow_events: bool, personality: &LocationPersonality) -> (r: LocationInfo)
    requires
        personality_ok(*personality),
    ensures
        possible_location_info(*personality, allow_events, r),
        !allow_events ==> r.event is None,
{
    let prices = personality.price_ranges.randomized_inventory(rng);
    if !allow_events {
        let r = LocationInfo { prices, event: None };
        assert(possible_location_info(*personality, allow_events, r)) by {
            assert(prices_in_ranges(prices, personality.price_ranges));
        }
        return r;
    }
    let kind = personality.event_weights.generate_random_event(rng);
    let mut good_roll: u32 = 0;
    let mut amount_roll: u32 = 0;
    let mut price: u32 = 500;
    let mut more_hold: u32 = 65;
    let mut sunny = true;
    match kind {
        EventPossibility::CheapGood | EventPossibility::ExpensiveGood => {
            good_roll = next_u32(rng);
        },
        EventPossibility::FindGoods => {
            good_roll = next_u32(rng);
            amount_roll = next_u32(rng);
        },
        EventPossibility::CanBuyHoldSpace => {
            price = gen_range_u32(rng, 500, 1500);
            more_hold = gen_range_u32(rng, 65, 130);
        },
        EventPossibility::NoEffect => {
            let no_effect_weights = [1u8, 1u8];
            proof {
                assert(no_effect_weights@ =~= seq![1u8, 1u8]);
                reveal_with_fuel(weight_sum, 3);
            }
            let pick = weighted_index_u8(rng, &no_effect_weights);
            sunny = pick == 0;
        },
        _ => {},
    }
    let r = location_info_from_rolls(prices, kind, good_roll, amount_roll, price, more_hold, sunny);
    assert(possible_location_info(*personality, allow_events, r)) by {
        assert(prices_in_ranges(prices, personality.price_ranges));
        if r.event is Some {
            assert(event_kind(r.event->0) == kind);
        }
    }
    r
}

/// What each port holds.
pub type LocationInfos = LocationMap<LocationInfo>;

/// What each port holds, under the name the game state gives it.
pub type Locations = LocationInfos;

impl LocationMap<LocationInfo> {
    /// Places six drawn ports, given in the order London, Savannah, Lisbon,
    /// Amsterdam, Cape Town, Venice.
    pub fn from_draws(
        london: LocationInfo,
        savannah: LocationInfo,
        lisbon: LocationInfo,
        amsterdam: LocationInfo,
        capetown: LocationInfo,
        venice: LocationInfo,
    ) -> (r: LocationInfos)
        ensures
            r == (LocationMap { london, savannah, lisbon, amsterdam, capetown, venice }),
    {
        LocationMap { london, savannah, lisbon, amsterdam, capetown, venice }
    }

    /// Draws every port from its personality, one after the other in the
    /// order London, Savannah, Lisbon, Amsterdam, Cape Town, Venice, and
    /// places the draws with [LocationMap::from_draws]; the home port gets no event.
    pub fn new(rng: &mut StdRng, config: &LocationConfig) -> (r: LocationInfos)
        requires
            config_ok(*config),
        ensures
            forall|l: Location| possible_location_info(config.personalities.at(l), l != config.home_port, #[trigger] r.at(l)),
    {
        let home = config.home_port;
        let p = &config.personalities;
        assert(personality_ok(p.at(Location::London)));
        let london = gen_location_info(rng, Location::London != home, p.get(&Location::London));
        assert(personality_ok(p.at(Location::Savannah)));
        let savannah = gen_location_info(rng, Location::Savannah != home, p.get(&Location::Savannah));
        assert(personality_ok(p.at(Location::Lisbon)));
        let lisbon = gen_location_info(rng, Location::Lisbon != home, p.get(&Location::Lisbon));
        assert(personality_ok(p.at(Location::Amsterdam)));
        let amsterdam = gen_location_info(rng, Location::Amsterdam != home, p.get(&Location::Amsterdam));
        assert(personality_ok(p.at(Location::CapeTown)));
        let capetown = gen_location_info(rng, Location::CapeTown != home, p.get(&Location::CapeTown));
        assert(personality_ok(p.at(Location::Venice)));
        let venice = gen_location_info(rng, Location::Venice != home, p.get(&Location::Venice));
        LocationMap::from_draws(london, savannah, lisbon, amsterdam, capetown, venice)
    }

    /// Draws one port anew from a personality and stores it; returns what was drawn.
    pub fn generate_location(
        &mut self,
        rng: &mut StdRng,
        location: &Location,
        personality: &LocationPersonality,
        allow_events: bool,
    ) -> (r: LocationInfo)
        requires
            personality_ok(*personality),
        ensures
            *final(self) == old(self).with_at(*location, r),
            possible_location_info(*personality, allow_events, r),
            !allow_events ==> r.event is None,
    {
        let new_location_info = gen_location_info(rng, allow_events, personality);
        self.set(location, new_location_info);
        new_location_info
    }

    /// What a port holds.
    pub fn location_info(&self, location: &Location) -> (r: &LocationInfo)
        ensures
            *r == self.at(*location),
    {
        self.get(location)
    }

    /// What a port holds, to be changed in place.
    pub fn location_info_mut(&mut self, location: &Location) -> (r: &mut LocationInfo)
        ensures
            *r == old(self).at(*location),
            *final(self) == old(self).with_at(*location, *final(r)),
    {
        self.get_mut(location)
    }
}

} // verus!
