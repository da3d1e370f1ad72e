use vstd::prelude::*;

verus! {

/// The goods that can be traded.
#[derive(Debug, PartialEq, Eq, Hash, Clone, Copy, Structural)]
pub enum Good {
    Tea,
    Coffee,
    Sugar,
    Tobacco,
    Rum,
    Cotton,
}

/// The position of a good in the fixed order Tea, Coffee, Sugar, Tobacco, Rum, Cotton.
pub open spec fn good_index(g: Good) -> int {
    match g {
        Good::Tea => 0,
        Good::Coffee => 1,
        Good::Sugar => 2,
        Good::Tobacco => 3,
        Good::Rum => 4,
        Good::Cotton => 5,
    }
}

/// The goods in their fixed order.
pub open spec fn all_goods() -> Seq<Good> {
    seq![Good::Tea, Good::Coffee, Good::Sugar, Good::Tobacco, Good::Rum, Good::Cotton]
}

/// The good that a roll of a die with six faces (taken modulo six) stands for.
pub open spec fn good_for_roll(n: u32) -> Good {
    let k = n % 6;
    if k == 0 {
        Good::Tea
    } else if k == 1 {
        Good::Coffee
    } else if k == 2 {
        Good::Sugar
    } else if k == 3 {
        Good::Tobacco
    } else if k == 4 {
        Good::Rum
    } else {
        Good::Cotton
    }
}

/// The name shown for a good.
pub open spec fn good_name(g: Good) -> Seq<char> {
    match g {
        Good::Tea => seq!['T', 'e', 'a'],
        Good::Coffee => seq!['C', 'o', 'f', 'f', 'e', 'e'],
        Good::Sugar => seq!['S', 'u', 'g', 'a', 'r'],
        Good::Tobacco => seq!['T', 'o', 'b', 'a', 'c', 'c', 'o'],
        Good::Rum => seq!['R', 'u', 'm'],
        Good::Cotton => seq!['C', 'o', 't', 't', 'o', 'n'],
    }
}

impl Good {
    /// The goods in their fixed order.
    pub fn variants() -> (r: Vec<Good>)
        ensures
            r@ == all_goods(),
    {
        let r = vec![Good::Tea, Good::Coffee, Good::Sugar, Good::Tobacco, Good::Rum, Good::Cotton];
        assert(r@ =~= all_goods());
        r
    }

    /// The goods in their fixed order, to be walked through.
    pub fn variants_iter() -> (r: Vec<Good>)
        ensures
            r@ == all_goods(),
    {
        Good::variants()
    }

    /// The good that a roll stands for: the roll modulo six picks it in the fixed order.
    pub fn from_roll(n: u32) -> (r: Good)
        ensures
            r == good_for_roll(n),
    {
        let k = n % 6;
        if k == 0 {
            Good::Tea
        } else if k == 1 {
            Good::Coffee
        } else if k == 2 {
            Good::Sugar
        } else if k == 3 {
            Good::Tobacco
        } else if k == 4 {
            Good::Rum
        } else {
            Good::Cotton
        }
    }

    /// The name shown for this good.
    pub fn name(&self) -> (r: String)
        ensures
            r@ == good_name(*self),
    {
        let mut r = String::new();
        let chars: Vec<char> = match self {
            Good::Tea => vec!['T', 'e', 'a'],
            Good::Coffee => vec!['C', 'o', 'f', 'f', 'e', 'e'],
            Good::Sugar => vec!['S', 'u', 'g', 'a', 'r'],
            Good::Tobacco => vec!['T', 'o', 'b', 'a', 'c', 'c', 'o'],
            Good::Rum => vec!['R', 'u', 'm'],
            Good::Cotton => vec!['C', 'o', 't', 't', 'o', 'n'],
        };
        proof {
            assert(chars@ =~= good_name(*self));
        }
        crate::text::string_from_chars(&chars)
    }
}

} // verus!
