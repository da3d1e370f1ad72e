use vstd::prelude::*;

use std::collections::VecDeque;

use rand::rngs::StdRng;

use crate::events::{GOLD_PER_PIRATE_VICTORY_MAX, GOLD_PER_PIRATE_VICTORY_MIN};
use crate::good::Good;
use crate::goods_map::GoodsMap;
use crate::locations::{EventWeights, LocationConfig, LocationInfo, LocationPersonality};
use crate::location::Location;
use crate::location_map::LocationMap;
use crate::goods_map::PriceRanges;
use crate::rng::{
    gen_index, gen_range_inclusive_u8, gen_range_u32, weight_sum, weight_sum_usize, weighted_index_u8,
    weighted_index_usize,
};

verus! {

/// Draws the gold recovered from the wreckage of `total_pirates` pirate ships:
/// at least 500 and less than 2000 per ship.
pub fn gen_gold_recovered_from_pirate_encounter(rng: &mut StdRng, total_pirates: u8) -> (r: u32)
    requires
        total_pirates > 0,
    ensures
        500 * total_pirates <= r < 2000 * total_pirates,
{
    gen_range_u32(
        rng,
        GOLD_PER_PIRATE_VICTORY_MIN * (total_pirates as u32),
        GOLD_PER_PIRATE_VICTORY_MAX * (total_pirates as u32),
    )
}

/// A sum of weights is at least any of them and at most their number times their bound.
proof fn lemma_weight_sum_usize_bounds(w: Seq<usize>, bound: int)
    requires
        forall|i: int| 0 <= i < w.len() ==> #[trigger] w[i] <= bound,
    ensures
        forall|i: int| 0 <= i < w.len() ==> #[trigger] w[i] <= weight_sum_usize(w),
        weight_sum_usize(w) <= w.len() * bound,
        0 <= weight_sum_usize(w),
    decreases w.len(),
{
    if w.len() > 0 {
        let d = w.drop_last();
        assert forall|i: int| 0 <= i < d.len() implies #[trigger] d[i] <= bound by {
            assert(d[i] == w[i]);
        }
        lemma_weight_sum_usize_bounds(d, bound);
        assert forall|i: int| 0 <= i < w.len() implies #[trigger] w[i] <= weight_sum_usize(w) by {
            if i < d.len() {
                assert(d[i] == w[i]);
            }
        }
        assert(weight_sum_usize(w) == weight_sum_usize(d) + w.last());
        assert((w.len() - 1) * bound + bound == w.len() * bound) by (nonlinear_arith);
    }
}

/// Draws the damage that `cur_pirates` pirate ships deal: from zero to their
/// number, lower damage being likelier (damage `d` has weight `cur_pirates + 1 - d`).
pub fn gen_damage_from_pirates(rng: &mut StdRng, cur_pirates: u8) -> (r: u8)
    ensures
        r <= cur_pirates,
{
    let n = cur_pirates as usize + 1;
    let mut weights: Vec<usize> = Vec::new();
    let mut i: usize = 0;
    while i < n
        invariant
            n == cur_pirates + 1,
            i <= n,
            weights@.len() == i,
            forall|k: int| 0 <= k < i ==> #[trigger] weights@[k] == n - k,
        decreases n - i,
    {
        weights.push(n - i);
        i = i + 1;
    }
    proof {
        lemma_weight_sum_usize_bounds(weights@, 256);
        assert(weights@[0] > 0);
        assert(n * 256 <= 256 * 256) by (nonlinear_arith)
            requires n <= 256;
    }
    let index = weighted_index_usize(rng, &weights);
    index as u8
}

/// Draws whether a volley sank a pirate ship: with no cannon it never does
/// (the weights are one for a miss and the number of cannons for a hit).
pub fn gen_did_kill_a_pirate(rng: &mut StdRng, cannons: u8) -> (r: bool)
    requires
        1 + cannons <= u8::MAX,
    ensures
        cannons == 0 ==> !r,
{
    let weights = [1u8, cannons];
    proof {
        assert(weights@ =~= seq![1u8, cannons]);
        reveal_with_fuel(weight_sum, 3);
    }
    let index = weighted_index_u8(rng, &weights);
    assert(weights@[1] == cannons);
    index == 1
}

/// Draws the number of pirate ships met: two to four.
pub fn gen_num_pirates_encountered(rng: &mut StdRng) -> (r: u8)
    ensures
        2 <= r <= 4,
{
    gen_range_inclusive_u8(rng, 2, 4)
}

/// Draws what thieves take: one of the listed goods, and an amount from one
/// to less than what is held of it (so each listed amount must exceed one).
pub fn gen_good_stolen(rng: &mut StdRng, goods_with_inventory: &Vec<(Good, u32)>) -> (r: (Good, u32))
    requires
        goods_with_inventory@.len() > 0,
        forall|i: int| 0 <= i < goods_with_inventory@.len() ==> #[trigger] goods_with_inventory@[i].1 > 1,
    ensures
        exists|i: int|
            0 <= i < goods_with_inventory@.len() && #[trigger] goods_with_inventory@[i].0 == r.0 && 1
                <= r.1 < goods_with_inventory@[i].1,
{
    let index = gen_index(rng, goods_with_inventory.len());
    let good_to_steal = goods_with_inventory[index];
    assert(good_to_steal.1 > 1);
    let amount = gen_range_u32(rng, 1, good_to_steal.1);
    assert(goods_with_inventory@[index as int].0 == good_to_steal.0);
    (good_to_steal.0, amount)
}

/// Random outcomes given in advance, handed out in the order they were given.
pub struct MockRng {
    gold_recovered_from_pirate_encounter: VecDeque<u32>,
    damage_from_pirates: VecDeque<u8>,
    did_kill_a_pirate: VecDeque<bool>,
    run_success: VecDeque<bool>,
    num_pirates_encountered: VecDeque<u8>,
    good_stolen: VecDeque<(Good, u32)>,
    location_info: VecDeque<LocationInfo>,
    location_config: VecDeque<LocationConfig>,
}

/// The outcomes waiting in a [MockRng], queue by queue.
pub struct MockQueues {
    pub gold_recovered_from_pirate_encounter: Seq<u32>,
    pub damage_from_pirates: Seq<u8>,
    pub did_kill_a_pirate: Seq<bool>,
    pub run_success: Seq<bool>,
    pub num_pirates_encountered: Seq<u8>,
    pub good_stolen: Seq<(Good, u32)>,
    pub location_info: Seq<LocationInfo>,
    pub location_config: Seq<LocationConfig>,
}

impl View for MockRng {
    type V = MockQueues;

    closed spec fn view(&self) -> MockQueues {
        MockQueues {
            gold_recovered_from_pirate_encounter: self.gold_recovered_from_pirate_encounter@,
            damage_from_pirates: self.damage_from_pirates@,
            did_kill_a_pirate: self.did_kill_a_pirate@,
            run_success: self.run_success@,
            num_pirates_encountered: self.num_pirates_encountered@,
            good_stolen: self.good_stolen@,
            location_info: self.location_info@,
            location_config: self.location_config@,
        }
    }
}

impl MockRng {
    /// No outcomes waiting.
    pub fn new() -> (r: MockRng)
        ensures
            r@.gold_recovered_from_pirate_encounter.len() == 0,
            r@.damage_from_pirates.len() == 0,
            r@.did_kill_a_pirate.len() == 0,
            r@.run_success.len() == 0,
            r@.num_pirates_encountered.len() == 0,
            r@.good_stolen.len() == 0,
            r@.location_info.len() == 0,
            r@.location_config.len() == 0,
    {
        MockRng {
            gold_recovered_from_pirate_encounter: VecDeque::new(),
            damage_from_pirates: VecDeque::new(),
            did_kill_a_pirate: VecDeque::new(),
            run_success: VecDeque::new(),
            num_pirates_encountered: VecDeque::new(),
            good_stolen: VecDeque::new(),
            location_info: VecDeque::new(),
            location_config: VecDeque::new(),
        }
    }

    /// Queues gold recovered after a victory.
    pub fn push_gold_recovered_from_pirate_encounter(self, gold: u32) -> (r: MockRng)
        ensures
            r@ == (MockQueues {
                gold_recovered_from_pirate_encounter: self@.gold_recovered_from_pirate_encounter.push(gold),
                ..self@
            }),
    {
        let mut s = self;
        s.gold_recovered_from_pirate_encounter.push_back(gold);
        s
    }

    /// Queues damage dealt by pirates.
    pub fn push_damage_from_pirates(self, damage: u8) -> (r: MockRng)
        ensures
            r@ == (MockQueues { damage_from_pirates: self@.damage_from_pirates.push(damage), ..self@ }),
    {
        let mut s = self;
        s.damage_from_pirates.push_back(damage);
        s
    }

    /// Queues whether a volley sinks a pirate ship.
    pub fn push_did_kill_a_pirate(self, did_kill: bool) -> (r: MockRng)
        ensures
            r@ == (MockQueues { did_kill_a_pirate: self@.did_kill_a_pirate.push(did_kill), ..self@ }),
    {
        let mut s = self;
        s.did_kill_a_pirate.push_back(did_kill);
        s
    }

    /// Queues whether running from pirates succeeds.
    pub fn push_run_success(self, run_success: bool) -> (r: MockRng)
        ensures
            r@ == (MockQueues { run_success: self@.run_success.push(run_success), ..self@ }),
    {
        let mut s = self;
        s.run_success.push_back(run_success);
        s
    }

    /// Queues a number of pirate ships met.
    pub fn push_num_pirates_encountered(self, num: u8) -> (r: MockRng)
        ensures
            r@ == (MockQueues { num_pirates_encountered: self@.num_pirates_encountered.push(num), ..self@ }),
    {
        let mut s = self;
        s.num_pirates_encountered.push_back(num);
        s
    }

    /// Queues what thieves take.
    pub fn push_good_stolen(self, good_stolen: (Good, u32)) -> (r: MockRng)
        ensures
            r@ == (MockQueues { good_stolen: self@.good_stolen.push(good_stolen), ..self@ }),
    {
        let mut s = self;
        s.good_stolen.push_back(good_stolen);
        s
    }

    /// Queues a port.
    pub fn push_location_info(self, location_info: LocationInfo) -> (r: MockRng)
        ensures
            r@ == (MockQueues { location_info: self@.location_info.push(location_info), ..self@ }),
    {
        let mut s = self;
        s.location_info.push_back(location_info);
        s
    }

    /// Queues ports, in order.
    pub fn push_location_infos(self, location_infos: &[LocationInfo]) -> (r: MockRng)
        ensures
            r@ == (MockQueues { location_info: self@.location_info + location_infos@, ..self@ }),
    {
        let mut x = self;
        let ghost start = self@;
        let mut i: usize = 0;
        while i < location_infos.len()
            invariant
                i <= location_infos@.len(),
                x@ == (MockQueues { location_info: start.location_info + location_infos@.take(i as int), ..start }),
            decreases location_infos@.len() - i,
        {
            x = x.push_location_info(location_infos[i]);
            assert(start.location_info + location_infos@.take(i + 1) =~= (start.location_info
                + location_infos@.take(i as int)).push(location_infos@[i as int]));
            i = i + 1;
        }
        assert(location_infos@.take(location_infos@.len() as int) =~= location_infos@);
        x
    }

    /// Queues a port configuration.
    pub fn push_location_config(self, location_config: LocationConfig) -> (r: MockRng)
        ensures
            r@ == (MockQueues { location_config: self@.location_config.push(location_config), ..self@ }),
    {
        let mut s = self;
        s.location_config.push_back(location_config);
        s
    }

    /// Hands out the next queued gold recovered after a victory.
    pub fn gen_gold_recovered_from_pirate_encounter(&mut self) -> (r: u32)
        requires
            old(self)@.gold_recovered_from_pirate_encounter.len() > 0,
        ensures
            r == old(self)@.gold_recovered_from_pirate_encounter[0],
            final(self)@ == (MockQueues {
                gold_recovered_from_pirate_encounter: old(self)@.gold_recovered_from_pirate_encounter.drop_first(),
                ..old(self)@
            }),
    {
        let r = self.gold_recovered_from_pirate_encounter.pop_front();
        let ghost q = old(self)@.gold_recovered_from_pirate_encounter;
        assert(q.subrange(1, q.len() as int) =~= q.drop_first());
        r.unwrap()
    }

    /// Hands out the next queued damage dealt by pirates.
    pub fn gen_damage_from_pirates(&mut self) -> (r: u8)
        requires
            old(self)@.damage_from_pirates.len() > 0,
        ensures
            r == old(self)@.damage_from_pirates[0],
            final(self)@ == (MockQueues { damage_from_pirates: old(self)@.damage_from_pirates.drop_first(), ..old(self)@ }),
    {
        let r = self.damage_from_pirates.pop_front();
        let ghost q = old(self)@.damage_from_pirates;
        assert(q.subrange(1, q.len() as int) =~= q.drop_first());
        r.unwrap()
    }

    /// Hands out the next queued outcome of a volley.
    pub fn gen_did_kill_a_pirate(&mut self) -> (r: bool)
        requires
            old(self)@.did_kill_a_pirate.len() > 0,
        ensures
            r == old(self)@.did_kill_a_pirate[0],
            final(self)@ == (MockQueues { did_kill_a_pirate: old(self)@.did_kill_a_pirate.drop_first(), ..old(self)@ }),
    {
        let r = self.did_kill_a_pirate.pop_front();
        let ghost q = old(self)@.did_kill_a_pirate;
        assert(q.subrange(1, q.len() as int) =~= q.drop_first());
        r.unwrap()
    }

    /// Hands out the next queued outcome of running from pirates.
    pub fn gen_run_success(&mut self) -> (r: bool)
        requires
            old(self)@.run_success.len() > 0,
        ensures
            r == old(self)@.run_success[0],
            final(self)@ == (MockQueues { run_success: old(self)@.run_success.drop_first(), ..old(self)@ }),
    {
        let r = self.run_success.pop_front();
        let ghost q = old(self)@.run_success;
        assert(q.subrange(1, q.len() as int) =~= q.drop_first());
        r.unwrap()
    }

    /// Hands out the next queued number of pirate ships.
    pub fn gen_num_pirates_encountered(&mut self) -> (r: u8)
        requires
            old(self)@.num_pirates_encountered.len() > 0,
        ensures
            r == old(self)@.num_pirates_encountered[0],
            final(self)@ == (MockQueues {
                num_pirates_encountered: old(self)@.num_pirates_encountered.drop_first(),
                ..old(self)@
            }),
    {
        let r = self.num_pirates_encountered.pop_front();
        let ghost q = old(self)@.num_pirates_encountered;
        assert(q.subrange(1, q.len() as int) =~= q.drop_first());
        r.unwrap()
    }

    /// Hands out the next queued theft.
    pub fn gen_good_stolen(&mut self) -> (r: (Good, u32))
        requires
            old(self)@.good_stolen.len() > 0,
        ensures
            r == old(self)@.good_stolen[0],
            final(self)@ == (MockQueues { good_stolen: old(self)@.good_stolen.drop_first(), ..old(self)@ }),
    {
        let r = self.good_stolen.pop_front();
        let ghost q = old(self)@.good_stolen;
        assert(q.subrange(1, q.len() as int) =~= q.drop_first());
        r.unwrap()
    }

    /// Hands out the next queued port.
    pub fn gen_location_info(&mut self) -> (r: LocationInfo)
        requires
            old(self)@.location_info.len() > 0,
        ensures
            r == old(self)@.location_info[0],
            final(self)@ == (MockQueues { location_info: old(self)@.location_info.drop_first(), ..old(self)@ }),
    {
        let r = self.location_info.pop_front();
        let ghost q = old(self)@.location_info;
        assert(q.subrange(1, q.len() as int) =~= q.drop_first());
        r.unwrap()
    }

    /// Hands out the next queued port configuration.
    pub fn gen_location_config(&mut self) -> (r: LocationConfig)
        requires
            old(self)@.location_config.len() > 0,
        ensures
            r == old(self)@.location_config[0],
            final(self)@ == (MockQueues { location_config: old(self)@.location_config.drop_first(), ..old(self)@ }),
    {
        let r = self.location_config.pop_front();
        let ghost q = old(self)@.location_config;
        assert(q.subrange(1, q.len() as int) =~= q.drop_first());
        r.unwrap()
    }
}

/// A port with fixed prices (tea 6, coffee 5, sugar 4, tobacco 3, rum 2, cotton 1) and no event.
pub fn default_location_info() -> (r: LocationInfo)
    ensures
        r == (LocationInfo {
            prices: GoodsMap { tea: 6, coffee: 5, sugar: 4, tobacco: 3, rum: 2, cotton: 1 },
            event: None,
        }),
{
    LocationInfo {
        prices: GoodsMap { tea: 6, coffee: 5, sugar: 4, tobacco: 3, rum: 2, cotton: 1 },
        event: None,
    }
}

/// Six copies of [default_location_info], one for each port.
pub fn default_location_infos() -> (r: Vec<LocationInfo>)
    ensures
        r@.len() == 6,
        forall|i: int| 0 <= i < 6 ==> #[trigger] r@[i] == default_location_info_spec(),
{
    let mut r: Vec<LocationInfo> = Vec::new();
    let mut i: usize = 0;
    while i < 6
        invariant
            i <= 6,
            r@.len() == i,
            forall|k: int| 0 <= k < i ==> #[trigger] r@[k] == default_location_info_spec(),
        decreases 6 - i,
    {
        r.push(default_location_info());
        i = i + 1;
    }
    r
}

/// The port of [default_location_info].
pub open spec fn default_location_info_spec() -> LocationInfo {
    LocationInfo {
        prices: GoodsMap { tea: 6, coffee: 5, sugar: 4, tobacco: 3, rum: 2, cotton: 1 },
        event: None,
    }
}


/// The event weights every port has by default: no event six times as likely as each event.
pub open spec fn basic_event_weights() -> EventWeights {
    EventWeights {
        no_event: 6,
        cheap_good: 1,
        expensive_good: 1,
        find_goods: 1,
        stolen_goods: 1,
        can_buy_cannon: 1,
        pirate_encounter: 1,
        can_buy_more_hold_space: 1,
        no_effect: 1,
    }
}

/// The configuration in which London is the home port and every port has the
/// overall price ranges and the basic event weights.
pub open spec fn default_location_config_spec(overall_price_ranges: PriceRanges) -> LocationConfig {
    let p = LocationPersonality { price_ranges: overall_price_ranges, event_weights: basic_event_weights() };
    LocationConfig {
        home_port: Location::London,
        overall_price_ranges,
        personalities: LocationMap { london: p, savannah: p, lisbon: p, amsterdam: p, capetown: p, venice: p },
    }
}

/// The configuration in which London is the home port and every port has the
/// overall price ranges and the basic event weights; see [default_location_config_spec].
pub fn default_location_config(overall_price_ranges: PriceRanges) -> (r: LocationConfig)
    ensures
        r == default_location_config_spec(overall_price_ranges),
{
    let basic_event_weights = EventWeights {
        no_event: 6,
        cheap_good: 1,
        expensive_good: 1,
        find_goods: 1,
        stolen_goods: 1,
        can_buy_cannon: 1,
        pirate_encounter: 1,
        can_buy_more_hold_space: 1,
        no_effect: 1,
    };
    let p = LocationPersonality { price_ranges: overall_price_ranges, event_weights: basic_event_weights };
    LocationConfig {
        home_port: Location::London,
        overall_price_ranges,
        personalities: LocationMap { london: p, savannah: p, lisbon: p, amsterdam: p, capetown: p, venice: p },
    }
}

impl MockRng {
    /// No outcomes waiting but the default configuration (built on the given
    /// overall price ranges) and a default port for each of the six ports.
    pub fn new_with_default_locations(overall_price_ranges: PriceRanges) -> (r: MockRng)
        ensures
            r@.gold_recovered_from_pirate_encounter.len() == 0,
            r@.damage_from_pirates.len() == 0,
            r@.did_kill_a_pirate.len() == 0,
            r@.run_success.len() == 0,
            r@.num_pirates_encountered.len() == 0,
            r@.good_stolen.len() == 0,
            r@.location_config == seq![default_location_config_spec(overall_price_ranges)],
            r@.location_info.len() == 6,
            forall|i: int| 0 <= i < 6 ==> #[trigger] r@.location_info[i] == default_location_info_spec(),
    {
        let config = default_location_config(overall_price_ranges);
        let infos = default_location_infos();
        let r = MockRng::new().push_location_config(config).push_location_infos(infos.as_slice());
        assert(r@.location_config =~= seq![default_location_config_spec(overall_price_ranges)]);
        r
    }
}

} // verus!
