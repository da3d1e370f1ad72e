use vstd::prelude::*;

use crate::location::Location;

verus! {

/// One value for each port.
#[derive(Debug, Clone, Copy, Default, PartialEq, Eq)]
pub struct LocationMap<T> {
    pub london: T,
    pub savannah: T,
    pub lisbon: T,
    pub amsterdam: T,
    pub capetown: T,
    pub venice: T,
}

impl<T> LocationMap<T> {
    /// The value kept for a port.
    pub open spec fn at(self, l: Location) -> T {
        match l {
            Location::London => self.london,
            Location::Savannah => self.savannah,
            Location::Lisbon => self.lisbon,
            Location::Amsterdam => self.amsterdam,
            Location::CapeTown => self.capetown,
            Location::Venice => self.venice,
        }
    }

    /// This map with the value for `l` replaced by `v`.
    pub open spec fn with_at(self, l: Location, v: T) -> LocationMap<T> {
        match l {
            Location::London => LocationMap { london: v, ..self },
            Location::Savannah => LocationMap { savannah: v, ..self },
            Location::Lisbon => LocationMap { lisbon: v, ..self },
            Location::Amsterdam => LocationMap { amsterdam: v, ..self },
            Location::CapeTown => LocationMap { capetown: v, ..self },
            Location::Venice => LocationMap { venice: v, ..self },
        }
    }

    /// The value for a port.
    pub fn get(&self, location: &Location) -> (r: &T)
        ensures
            *r == self.at(*location),
    {
        match location {
            Location::London => &self.london,
            Location::Savannah => &self.savannah,
            Location::Lisbon => &self.lisbon,
            Location::Amsterdam => &self.amsterdam,
            Location::CapeTown => &self.capetown,
            Location::Venice => &self.venice,
        }
    }

    /// The value for a port, to be changed in place.
    pub fn get_mut(&mut self, location: &Location) -> (r: &mut T)
        ensures
            *r == old(self).at(*location),
            *final(self) == old(self).with_at(*location, *final(r)),
    {
        match location {
            Location::London => &mut self.london,
            Location::Savannah => &mut self.savannah,
            Location::Lisbon => &mut self.lisbon,
            Location::Amsterdam => &mut self.amsterdam,
            Location::CapeTown => &mut self.capetown,
            Location::Venice => &mut self.venice,
        }
    }

    /// Replaces the value for a port.
    pub fn set(&mut self, location: &Location, v: T)
        ensures
            *final(self) == old(self).with_at(*location, v),
    {
        match location {
            Location::London => self.london = v,
            Location::Savannah => self.savannah = v,
            Location::Lisbon => self.lisbon = v,
            Location::Amsterdam => self.amsterdam = v,
            Location::CapeTown => self.capetown = v,
            Location::Venice => self.venice = v,
        }
    }
}

} // verus!
