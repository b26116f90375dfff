//! Beds and their states.

use crate::domain::constants::is_valid_bed_number;
use crate::domain::patient::Patient;
use vstd::prelude::*;

verus! {

/// Possible bed states.
#[derive(Debug, Clone, PartialEq, Eq)]
pub enum BedState {
    /// Bed occupied by a patient.
    Occupied(Patient),
    /// Empty bed.
    Vacant,
    /// Bed kept out of use to isolate the patient in the other bed of the room.
    Blocked,
}

/// A hospital bed. Only the state is stored: the bed number is the key under
/// which the ward keeps the bed.
#[derive(Debug, Clone)]
pub struct Bed {
    pub state: BedState,
}

impl Bed {
    /// Creates the vacant bed with the given number.
    pub fn new(number: u16) -> (bed: Self)
        requires
            is_valid_bed_number(number),
        ensures
            bed.state == BedState::Vacant,
    {
        Bed { state: BedState::Vacant }
    }

    /// Is the bed available (vacant)?
    pub fn is_available(&self) -> (available: bool)
        ensures
            available == (self.state is Vacant),
    {
        match self.state {
            BedState::Vacant => true,
            _ => false,
        }
    }

    /// Is the bed blocked?
    pub fn is_blocked(&self) -> (blocked: bool)
        ensures
            blocked == (self.state is Blocked),
    {
        match self.state {
            BedState::Blocked => true,
            _ => false,
        }
    }
}

} // verus!
