use vstd::prelude::*;

verus! {

/// The ports the merchant can sail to.
#[derive(Debug, PartialEq, Eq, Hash, Clone, Copy, Structural)]
pub enum Location {
    London,
    Savannah,
    Lisbon,
    Amsterdam,
    CapeTown,
    Venice,
}

/// The ports in their fixed order.
pub open spec fn all_locations() -> Seq<Location> {
    seq![
        Location::London,
        Location::Savannah,
        Location::Lisbon,
        Location::Amsterdam,
        Location::CapeTown,
        Location::Venice,
    ]
}

/// The position of a port in the fixed order.
pub open spec fn location_index(l: Location) -> int {
    match l {
        Location::London => 0,
        Location::Savannah => 1,
        Location::Lisbon => 2,
        Location::Amsterdam => 3,
        Location::CapeTown => 4,
        Location::Venice => 5,
    }
}

/// The name shown for a port.
pub open spec fn location_name(l: Location) -> Seq<char> {
    match l {
        Location::London => seq!['L', 'o', 'n', 'd', 'o', 'n'],
        Location::Savannah => seq!['S', 'a', 'v', 'a', 'n', 'n', 'a', 'h'],
        Location::Lisbon => seq!['L', 'i', 's', 'b', 'o', 'n'],
        Location::Amsterdam => seq!['A', 'm', 's', 't', 'e', 'r', 'd', 'a', 'm'],
        Location::CapeTown => seq!['C', 'a', 'p', 'e', ' ', 'T', 'o', 'w', 'n'],
        Location::Venice => seq!['V', 'e', 'n', 'i', 'c', 'e'],
    }
}

impl Location {
    /// The ports in their fixed order.
    pub fn variants() -> (r: Vec<Location>)
        ensures
            r@ == all_locations(),
    {
        let r = vec![
            Location::London,
            Location::Savannah,
            Location::Lisbon,
            Location::Amsterdam,
            Location::CapeTown,
            Location::Venice,
        ];
        assert(r@ =~= all_locations());
        r
    }

    /// The name shown for this port.
    pub fn name(&self) -> (r: String)
        ensures
            r@ == location_name(*self),
    {
        let chars: Vec<char> = match self {
            Location::London => vec!['L', 'o', 'n', 'd', 'o', 'n'],
            Location::Savannah => vec!['S', 'a', 'v', 'a', 'n', 'n', 'a', 'h'],
            Location::Lisbon => vec!['L', 'i', 's', 'b', 'o', 'n'],
            Location::Amsterdam => vec!['A', 'm', 's', 't', 'e', 'r', 'd', 'a', 'm'],
            Location::CapeTown => vec!['C', 'a', 'p', 'e', ' ', 'T', 'o', 'w', 'n'],
            Location::Venice => vec!['V', 'e', 'n', 'i', 'c', 'e'],
        };
        proof {
            assert(chars@ =~= location_name(*self));
        }
        crate::text::string_from_chars(&chars)
    }
}

} // verus!
