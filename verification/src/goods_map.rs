use vstd::prelude::*;

use crate::good::{all_goods, good_index, Good};

verus! {

/// One value for each good.
#[derive(Debug, Clone, Copy, Default, PartialEq, Eq)]
pub struct GoodsMap<T> {
    pub tea: T,
    pub coffee: T,
    pub sugar: T,
    pub tobacco: T,
    pub rum: T,
    pub cotton: T,
}

/// The amount of each good held (or its price).
pub type Inventory = GoodsMap<u32>;

/// For each good, the lowest and highest value its price can take.
pub type PriceRanges = GoodsMap<(u32, u32)>;

impl<T> GoodsMap<T> {
    /// The value kept for a good.
    pub open spec fn at(self, g: Good) -> T {
        match g {
            Good::Tea => self.tea,
            Good::Coffee => self.coffee,
            Good::Sugar => self.sugar,
            Good::Tobacco => self.tobacco,
            Good::Rum => self.rum,
            Good::Cotton => self.cotton,
        }
    }

    /// This map with the value for `g` replaced by `v`.
    pub open spec fn with_at(self, g: Good, v: T) -> GoodsMap<T> {
        match g {
            Good::Tea => GoodsMap { tea: v, ..self },
            Good::Coffee => GoodsMap { coffee: v, ..self },
            Good::Sugar => GoodsMap { sugar: v, ..self },
            Good::Tobacco => GoodsMap { tobacco: v, ..self },
            Good::Rum => GoodsMap { rum: v, ..self },
            Good::Cotton => GoodsMap { cotton: v, ..self },
        }
    }

    /// The value for a good.
    pub fn get_good(&self, good_type: &Good) -> (r: &T)
        ensures
            *r == self.at(*good_type),
    {
        match good_type {
            Good::Tea => &self.tea,
            Good::Coffee => &self.coffee,
            Good::Sugar => &self.sugar,
            Good::Tobacco => &self.tobacco,
            Good::Rum => &self.rum,
            Good::Cotton => &self.cotton,
        }
    }

    /// The value for a good, to be changed in place.
    pub fn get_good_mut(&mut self, good_type: &Good) -> (r: &mut T)
        ensures
            *r == old(self).at(*good_type),
            *final(self) == old(self).with_at(*good_type, *final(r)),
    {
        match good_type {
            Good::Tea => &mut self.tea,
            Good::Coffee => &mut self.coffee,
            Good::Sugar => &mut self.sugar,
            Good::Tobacco => &mut self.tobacco,
            Good::Rum => &mut self.rum,
            Good::Cotton => &mut self.cotton,
        }
    }

    /// Replaces the value for a good.
    pub fn set_good(&mut self, good_type: &Good, v: T)
        ensures
            *final(self) == old(self).with_at(*good_type, v),
    {
        match good_type {
            Good::Tea => self.tea = v,
            Good::Coffee => self.coffee = v,
            Good::Sugar => self.sugar = v,
            Good::Tobacco => self.tobacco = v,
            Good::Rum => self.rum = v,
            Good::Cotton => self.cotton = v,
        }
    }

    /// A map holding, for each good, what `f` makes of its value; `f` is
    /// applied once to each good, in the order tea, coffee, sugar, tobacco,
    /// rum, cotton. A function that gives back its argument gives back the map.
    pub fn map<F: Fn(&T) -> T>(&self, f: F) -> (r: GoodsMap<T>)
        requires
            forall|x: &T| #[trigger] f.requires((x,)),
        ensures
            forall|g: Good| f.ensures((&self.at(g),), #[trigger] r.at(g)),
            (forall|x: &T, y: T| #[trigger] f.ensures((x,), y) ==> y == *x) ==> r == *self,
    {
        let r = GoodsMap {
            tea: f(&self.tea),
            coffee: f(&self.coffee),
            sugar: f(&self.sugar),
            tobacco: f(&self.tobacco),
            rum: f(&self.rum),
            cotton: f(&self.cotton),
        };
        assert forall|g: Good| f.ensures((&self.at(g),), #[trigger] r.at(g)) by {
            match g {
                Good::Tea => {},
                Good::Coffee => {},
                Good::Sugar => {},
                Good::Tobacco => {},
                Good::Rum => {},
                Good::Cotton => {},
            }
        }
        proof {
            if forall|x: &T, y: T| #[trigger] f.ensures((x,), y) ==> y == *x {
                assert(f.ensures((&self.at(Good::Tea),), r.at(Good::Tea)));
                assert(f.ensures((&self.at(Good::Coffee),), r.at(Good::Coffee)));
                assert(f.ensures((&self.at(Good::Sugar),), r.at(Good::Sugar)));
                assert(f.ensures((&self.at(Good::Tobacco),), r.at(Good::Tobacco)));
                assert(f.ensures((&self.at(Good::Rum),), r.at(Good::Rum)));
                assert(f.ensures((&self.at(Good::Cotton),), r.at(Good::Cotton)));
            }
        }
        r
    }
}

/// The pairs of a good and its value, in the fixed order of goods.
pub open spec fn goods_pairs<T>(m: GoodsMap<T>) -> Seq<(Good, T)> {
    all_goods().map_values(|g: Good| (g, m.at(g)))
}

impl<T: Copy> GoodsMap<T> {
    /// The pairs of a good and its value, in the fixed order of goods.
    pub fn iter(&self) -> (r: Vec<(Good, T)>)
        ensures
            r@ == goods_pairs(*self),
    {
        let r = vec![
            (Good::Tea, self.tea),
            (Good::Coffee, self.coffee),
            (Good::Sugar, self.sugar),
            (Good::Tobacco, self.tobacco),
            (Good::Rum, self.rum),
            (Good::Cotton, self.cotton),
        ];
        assert(r@ =~= goods_pairs(*self));
        r
    }
}

/// The total amount held, over all goods.
pub open spec fn inventory_total(inv: Inventory) -> int {
    inv.tea + inv.coffee + inv.sugar + inv.tobacco + inv.rum + inv.cotton
}

/// The worth of the goods at the given prices.
pub open spec fn inventory_worth(inv: Inventory, prices: Inventory) -> int {
    inv.tea * prices.tea + inv.coffee * prices.coffee + inv.sugar * prices.sugar + inv.tobacco
        * prices.tobacco + inv.rum * prices.rum + inv.cotton * prices.cotton
}

/// The average of a price range, rounded up.
pub open spec fn range_avg(r: (u32, u32)) -> int {
    (r.0 + r.1 + 1) / 2
}

/// `l + ceil(parts * (h - l) / 5)`: the point `parts` fifths of the way from `l` to `h`, rounded up.
pub open spec fn fifths_up(l: int, h: int, parts: int) -> int {
    l + (parts * (h - l) + 4) / 5
}

/// The part of a price range that a port offers, given the port's cheap and
/// expensive goods: a port with neither (the home port) keeps the middle fifth
/// of every range (two to three fifths); the cheap good keeps the lower three
/// fifths, the expensive good the upper three fifths, and other goods the
/// middle three fifths (one to four fifths).
pub open spec fn subsection(g: Good, range: (u32, u32), cheap: Option<Good>, expensive: Option<Good>) -> (int, int) {
    let l = range.0 as int;
    let h = range.1 as int;
    if cheap is None && expensive is None {
        (fifths_up(l, h, 2), fifths_up(l, h, 3))
    } else if cheap == Some(g) {
        (l, fifths_up(l, h, 3))
    } else if expensive == Some(g) {
        (fifths_up(l, h, 2), h)
    } else {
        (fifths_up(l, h, 1), fifths_up(l, h, 4))
    }
}

/// Whether every range of a price table has its low end at most its high end.
pub open spec fn ranges_ordered(p: PriceRanges) -> bool {
    forall|g: Good| #[trigger] p.at(g).0 <= p.at(g).1
}

/// The point `parts` fifths of the way from `l` to `h`, rounded up.
fn fifths_up_exec(l: u32, h: u32, parts: u64) -> (r: u32)
    requires
        l <= h,
        1 <= parts <= 4,
    ensures
        r == fifths_up(l as int, h as int, parts as int),
        l <= r <= h,
{
    let d = (h - l) as u64;
    assert(parts * d <= 4 * 0xffff_ffffu64) by (nonlinear_arith)
        requires parts <= 4, d <= 0xffff_ffffu64;
    let q = (parts * d + 4) / 5;
    assert(q <= d) by (nonlinear_arith)
        requires q == (parts * d + 4) / 5, parts <= 4;
    l + q as u32
}

impl GoodsMap<u32> {
    /// The total amount held, over all goods.
    pub fn total_amount(&self) -> (r: u32)
        requires
            inventory_total(*self) <= u32::MAX,
        ensures
            r == inventory_total(*self),
    {
        self.tea + self.coffee + self.sugar + self.tobacco + self.rum + self.cotton
    }

    /// Adds an amount of a good; returns the new amount.
    pub fn add_good(&mut self, good: &Good, amount: u32) -> (r: u32)
        requires
            old(self).at(*good) + amount <= u32::MAX,
        ensures
            r == old(self).at(*good) + amount,
            *final(self) == old(self).with_at(*good, r),
    {
        let v = *self.get_good(good) + amount;
        self.set_good(good, v);
        v
    }

    /// Removes an amount of a good; returns the new amount.
    pub fn remove_good(&mut self, good: &Good, amount: u32) -> (r: u32)
        requires
            amount <= old(self).at(*good),
        ensures
            r == old(self).at(*good) - amount,
            *final(self) == old(self).with_at(*good, r),
    {
        let v = *self.get_good(good) - amount;
        self.set_good(good, v);
        v
    }

    /// The worth of these goods at the average of the given price ranges, as a signed number.
    pub fn net_worth(&self, price_ranges: &PriceRanges) -> (r: i32)
        requires
            forall|g: Good| #[trigger] price_ranges.at(g).0 + price_ranges.at(g).1 <= u32::MAX,
            inventory_worth(*self, price_ranges.avg_spec()) <= u32::MAX,
        ensures
            r == inventory_worth(*self, price_ranges.avg_spec()) as i32,
    {
        let avg = price_ranges.avg_prices();
        proof {
            lemma_products_fit(*self, avg);
        }
        let w = self.tea * avg.tea + self.coffee * avg.coffee + self.sugar * avg.sugar
            + self.tobacco * avg.tobacco + self.rum * avg.rum + self.cotton * avg.cotton;
        #[verifier::truncate]
        (w as i32)
    }

    /// The good held in the largest amount; of several, the last in the fixed order.
    pub fn max_good(&self) -> (r: Good)
        ensures
            forall|g: Good| #[trigger] self.at(g) <= self.at(r),
            forall|g: Good| good_index(g) > good_index(r) ==> #[trigger] self.at(g) < self.at(r),
    {
        let pairs = self.iter();
        let mut best = pairs[0];
        let mut i: usize = 1;
        while i < pairs.len()
            invariant
                pairs@ == goods_pairs(*self),
                1 <= i <= 6,
                best.1 == self.at(best.0),
                good_index(best.0) < i,
                forall|k: int| 0 <= k < i ==> self.at(#[trigger] all_goods()[k]) <= best.1,
                forall|k: int| good_index(best.0) < k < i ==> self.at(#[trigger] all_goods()[k]) < best.1,
            decreases 6 - i,
        {
            let p = pairs[i];
            if p.1 >= best.1 {
                best = p;
            }
            i = i + 1;
        }
        proof {
            lemma_goods_in_order();
        }
        best.0
    }

    /// The good held in the smallest amount; of several, the first in the fixed order.
    pub fn min_good(&self) -> (r: Good)
        ensures
            forall|g: Good| #[trigger] self.at(r) <= self.at(g),
            forall|g: Good| good_index(g) < good_index(r) ==> self.at(r) < #[trigger] self.at(g),
    {
        let pairs = self.iter();
        let mut best = pairs[0];
        let mut i: usize = 1;
        while i < pairs.len()
            invariant
                pairs@ == goods_pairs(*self),
                1 <= i <= 6,
                best.1 == self.at(best.0),
                good_index(best.0) < i,
                forall|k: int| 0 <= k < i ==> best.1 <= self.at(#[trigger] all_goods()[k]),
                forall|k: int| 0 <= k < good_index(best.0) ==> best.1 < self.at(#[trigger] all_goods()[k]),
            decreases 6 - i,
        {
            let p = pairs[i];
            if p.1 < best.1 {
                best = p;
            }
            i = i + 1;
        }
        proof {
            lemma_goods_in_order();
        }
        best.0
    }
}

/// Replacing the value of one good changes only that good's value.
pub proof fn lemma_at_with_at<T>(m: GoodsMap<T>, g: Good, v: T)
    ensures
        forall|g2: Good| #[trigger] m.with_at(g, v).at(g2) == (if g2 == g { v } else { m.at(g2) }),
{
}

/// Each good stands at its own position in the fixed order.
proof fn lemma_goods_in_order()
    ensures
        forall|g: Good| all_goods()[#[trigger] good_index(g)] == g,
        forall|g: Good| 0 <= #[trigger] good_index(g) < 6,
        forall|k: int| 0 <= k < 6 ==> good_index(#[trigger] all_goods()[k]) == k,
{
}

/// The products of amounts and average prices fit when their sum does.
proof fn lemma_products_fit(inv: Inventory, p: Inventory)
    requires
        inventory_worth(inv, p) <= u32::MAX,
    ensures
        inv.tea * p.tea <= u32::MAX,
        inv.tea * p.tea + inv.coffee * p.coffee <= u32::MAX,
        inv.tea * p.tea + inv.coffee * p.coffee + inv.sugar * p.sugar <= u32::MAX,
        inv.tea * p.tea + inv.coffee * p.coffee + inv.sugar * p.sugar + inv.tobacco * p.tobacco <= u32::MAX,
        inv.tea * p.tea + inv.coffee * p.coffee + inv.sugar * p.sugar + inv.tobacco * p.tobacco + inv.rum * p.rum <= u32::MAX,
        inv.coffee * p.coffee <= u32::MAX,
        inv.sugar * p.sugar <= u32::MAX,
        inv.tobacco * p.tobacco <= u32::MAX,
        inv.rum * p.rum <= u32::MAX,
        inv.cotton * p.cotton <= u32::MAX,
{
    assert(inv.tea * p.tea >= 0) by (nonlinear_arith);
    assert(inv.coffee * p.coffee >= 0) by (nonlinear_arith);
    assert(inv.sugar * p.sugar >= 0) by (nonlinear_arith);
    assert(inv.tobacco * p.tobacco >= 0) by (nonlinear_arith);
    assert(inv.rum * p.rum >= 0) by (nonlinear_arith);
    assert(inv.cotton * p.cotton >= 0) by (nonlinear_arith);
}

impl GoodsMap<(u32, u32)> {
    /// The average price of each good, rounded up.
    pub open spec fn avg_spec(self) -> Inventory {
        GoodsMap {
            tea: range_avg(self.tea) as u32,
            coffee: range_avg(self.coffee) as u32,
            sugar: range_avg(self.sugar) as u32,
            tobacco: range_avg(self.tobacco) as u32,
            rum: range_avg(self.rum) as u32,
            cotton: range_avg(self.cotton) as u32,
        }
    }

    /// The average price of each good, rounded up.
    pub fn avg_prices(&self) -> (r: Inventory)
        requires
            forall|g: Good| #[trigger] self.at(g).0 + self.at(g).1 <= u32::MAX,
        ensures
            r == self.avg_spec(),
            forall|g: Good| #[trigger] r.at(g) == range_avg(self.at(g)),
    {
        assert(self.tea.0 + self.tea.1 <= u32::MAX) by { assert(self.at(Good::Tea) == self.tea); }
        assert(self.coffee.0 + self.coffee.1 <= u32::MAX) by { assert(self.at(Good::Coffee) == self.coffee); }
        assert(self.sugar.0 + self.sugar.1 <= u32::MAX) by { assert(self.at(Good::Sugar) == self.sugar); }
        assert(self.tobacco.0 + self.tobacco.1 <= u32::MAX) by { assert(self.at(Good::Tobacco) == self.tobacco); }
        assert(self.rum.0 + self.rum.1 <= u32::MAX) by { assert(self.at(Good::Rum) == self.rum); }
        assert(self.cotton.0 + self.cotton.1 <= u32::MAX) by { assert(self.at(Good::Cotton) == self.cotton); }
        GoodsMap {
            tea: avg_up(self.tea.0, self.tea.1),
            coffee: avg_up(self.coffee.0, self.coffee.1),
            sugar: avg_up(self.sugar.0, self.sugar.1),
            tobacco: avg_up(self.tobacco.0, self.tobacco.1),
            rum: avg_up(self.rum.0, self.rum.1),
            cotton: avg_up(self.cotton.0, self.cotton.1),
        }
    }

    /// The part of each price range that a port with the given cheap and
    /// expensive goods offers; see [subsection].
    pub fn generate_subsection(&self, cheap: Option<Good>, expensive: Option<Good>) -> (r: PriceRanges)
        requires
            ranges_ordered(*self),
        ensures
            forall|g: Good| (#[trigger] r.at(g).0 as int, r.at(g).1 as int) == subsection(g, self.at(g), cheap, expensive),
            ranges_ordered(r),
    {
        let goods = Good::variants();
        let mut r = *self;
        let mut i: usize = 0;
        while i < 6
            invariant
                goods@ == all_goods(),
                ranges_ordered(*self),
                i <= 6,
                forall|k: int| 0 <= k < i ==> (#[trigger] r.at(all_goods()[k]).0 as int, r.at(all_goods()[k]).1 as int) == subsection(all_goods()[k], self.at(all_goods()[k]), cheap, expensive),
                forall|k: int| i <= k < 6 ==> #[trigger] r.at(all_goods()[k]) == self.at(all_goods()[k]),
                forall|g: Good| #[trigger] r.at(g).0 <= r.at(g).1,
            decreases 6 - i,
        {
            let good = goods[i];
            let (l, h) = *self.get_good(&good);
            assert(self.at(good).0 <= self.at(good).1);
            let is_cheap = match cheap { Some(c) => c == good, None => false };
            let is_expensive = match expensive { Some(e) => e == good, None => false };
            let sub = if cheap.is_none() && expensive.is_none() {
                (fifths_up_exec(l, h, 2), fifths_up_exec(l, h, 3))
            } else if is_cheap {
                (l, fifths_up_exec(l, h, 3))
            } else if is_expensive {
                (fifths_up_exec(l, h, 2), h)
            } else {
                (fifths_up_exec(l, h, 1), fifths_up_exec(l, h, 4))
            };
            proof {
                let a = fifths_up(l as int, h as int, 2);
                let b = fifths_up(l as int, h as int, 3);
                assert(a <= b) by (nonlinear_arith)
                    requires a == l + (2 * (h - l) + 4) / 5, b == l + (3 * (h - l) + 4) / 5, l <= h;
                let c = fifths_up(l as int, h as int, 1);
                let d = fifths_up(l as int, h as int, 4);
                assert(c <= d) by (nonlinear_arith)
                    requires c == l + (1 * (h - l) + 4) / 5, d == l + (4 * (h - l) + 4) / 5, l <= h;
                lemma_goods_in_order();
            }
            let ghost before = r;
            r.set_good(&good, sub);
            proof {
                lemma_at_with_at(before, good, sub);
                assert forall|k: int| i + 1 <= k < 6 implies #[trigger] r.at(all_goods()[k]) == self.at(all_goods()[k]) by {
                    assert(good_index(all_goods()[k]) == k);
                }
                assert forall|k: int| 0 <= k < i + 1 implies (#[trigger] r.at(all_goods()[k]).0 as int, r.at(all_goods()[k]).1 as int) == subsection(all_goods()[k], self.at(all_goods()[k]), cheap, expensive) by {
                    assert(good_index(all_goods()[k]) == k);
                }
            }
            i = i + 1;
        }
        proof {
            lemma_goods_in_order();
            assert forall|g: Good| (#[trigger] r.at(g).0 as int, r.at(g).1 as int) == subsection(g, self.at(g), cheap, expensive) by {
                assert(all_goods()[good_index(g)] == g);
            }
        }
        r
    }
}

/// `(l + h)` halved, rounded up.
fn avg_up(l: u32, h: u32) -> (r: u32)
    requires
        l + h <= u32::MAX,
    ensures
        r == range_avg((l, h)),
{
    let s = l + h;
    s / 2 + s % 2
}

} // verus!
