//! The reasons for which the ward refuses an operation.

use vstd::prelude::*;

verus! {

/// Why an operation was refused.
#[derive(Debug, Clone, Copy, PartialEq, Eq, Structural)]
pub enum Refusal {
    /// No bed has the given number.
    BedDoesNotExist,
    /// The bed is occupied or blocked.
    BedNotAvailable,
    /// A patient under 13 was sent to a unit other than the pediatric one.
    UnderThirteenOutsidePediatricUnit,
    /// The patient in the other bed of the room has another gender.
    GenderMismatch,
    /// One of the two patients of the room would be under 16 and the other not.
    AgeBracketMismatch,
    /// The patient in the other bed of the room is infectious or a VIP.
    RoommateIsolated,
    /// The patient needs the other bed of the room blocked, but it is not vacant.
    AdjacentBedNotFree,
    /// No bed holds a patient with the given record number.
    PatientNotFound,
    /// No bed holds the first patient of a switch.
    FirstPatientNotFound,
    /// No bed holds the second patient of a switch.
    SecondPatientNotFound,
    /// A switch would take a patient under 13 out of the pediatric unit.
    SwitchUnderThirteenOutsidePediatricUnit,
    /// A switch would put patients of different gender in one room.
    SwitchGenderMismatch,
    /// A switch would put a patient under 16 in a room with one who is not.
    SwitchAgeBracketMismatch,
    /// A switch would put two patients in one room of whom one is infectious
    /// or a VIP.
    SwitchRoommateIsolated,
    /// A switch would put an infectious or VIP patient beside a bed that is
    /// not blocked: a switch blocks no bed.
    SwitchAdjacentBedNotBlocked,
    /// A patient became a VIP and no bed can take the patient's roommate.
    NoBedToRelocateRoommate,
    /// A patient became infectious and no bed can take the patient's roommate.
    NoBedToMoveRoommate,
}

impl Refusal {
    /// The text that describes the refusal.
    pub open spec fn text(self) -> Seq<char> {
        match self {
            Refusal::BedDoesNotExist => "Bed does not exist"@,
            Refusal::BedNotAvailable => "Bed is not available"@,
            Refusal::UnderThirteenOutsidePediatricUnit => "Patients under 13 must be in unit 5"@,
            Refusal::GenderMismatch => "Roommates must have the same gender"@,
            Refusal::AgeBracketMismatch =>
                "Patients under 16 can only share with other under-16 patients"@,
            Refusal::RoommateIsolated => "Cannot share a room with an infectious or VIP patient"@,
            Refusal::AdjacentBedNotFree =>
                "Patient requires the adjacent bed to be blocked, but it is not free"@,
            Refusal::PatientNotFound => "Patient not found"@,
            Refusal::FirstPatientNotFound => "First patient not found"@,
            Refusal::SecondPatientNotFound => "Second patient not found"@,
            Refusal::SwitchUnderThirteenOutsidePediatricUnit =>
                "Cannot move a patient under 13 outside unit 5"@,
            Refusal::SwitchGenderMismatch => "Switch would violate gender rule"@,
            Refusal::SwitchAgeBracketMismatch => "Switch would violate age rule"@,
            Refusal::SwitchRoommateIsolated =>
                "Switch would violate rule: cannot share with infectious/VIP"@,
            Refusal::SwitchAdjacentBedNotBlocked =>
                "Switch would violate rule: infectious/VIP needs the adjacent bed blocked"@,
            Refusal::NoBedToRelocateRoommate => "No available bed to relocate roommate"@,
            Refusal::NoBedToMoveRoommate => "No available bed to move roommate"@,
        }
    }

    /// The refusal as a switch reports it: the rules on rooms and units have
    /// a wording of their own there.
    pub open spec fn in_switch(self) -> Refusal {
        match self {
            Refusal::UnderThirteenOutsidePediatricUnit =>
                Refusal::SwitchUnderThirteenOutsidePediatricUnit,
            Refusal::GenderMismatch => Refusal::SwitchGenderMismatch,
            Refusal::AgeBracketMismatch => Refusal::SwitchAgeBracketMismatch,
            Refusal::RoommateIsolated => Refusal::SwitchRoommateIsolated,
            Refusal::AdjacentBedNotFree => Refusal::SwitchAdjacentBedNotBlocked,
            other => other,
        }
    }

    /// Turns the refusal into the one that a switch reports.
    pub fn to_switch(self) -> (refusal: Refusal)
        ensures
            refusal == self.in_switch(),
    {
        match self {
            Refusal::UnderThirteenOutsidePediatricUnit =>
                Refusal::SwitchUnderThirteenOutsidePediatricUnit,
            Refusal::GenderMismatch => Refusal::SwitchGenderMismatch,
            Refusal::AgeBracketMismatch => Refusal::SwitchAgeBracketMismatch,
            Refusal::RoommateIsolated => Refusal::SwitchRoommateIsolated,
            Refusal::AdjacentBedNotFree => Refusal::SwitchAdjacentBedNotBlocked,
            other => other,
        }
    }

    /// Writes the refusal out as text.
    pub fn message(self) -> (message: String)
        ensures
            message@ == self.text(),
    {
        match self {
            Refusal::BedDoesNotExist => "Bed does not exist".to_string(),
            Refusal::BedNotAvailable => "Bed is not available".to_string(),
            Refusal::UnderThirteenOutsidePediatricUnit =>
                "Patients under 13 must be in unit 5".to_string(),
            Refusal::GenderMismatch => "Roommates must have the same gender".to_string(),
            Refusal::AgeBracketMismatch =>
                "Patients under 16 can only share with other under-16 patients".to_string(),
            Refusal::RoommateIsolated =>
                "Cannot share a room with an infectious or VIP patient".to_string(),
            Refusal::AdjacentBedNotFree =>
                "Patient requires the adjacent bed to be blocked, but it is not free".to_string(),
            Refusal::PatientNotFound => "Patient not found".to_string(),
            Refusal::FirstPatientNotFound => "First patient not found".to_string(),
            Refusal::SecondPatientNotFound => "Second patient not found".to_string(),
            Refusal::SwitchUnderThirteenOutsidePediatricUnit =>
                "Cannot move a patient under 13 outside unit 5".to_string(),
            Refusal::SwitchGenderMismatch => "Switch would violate gender rule".to_string(),
            Refusal::SwitchAgeBracketMismatch => "Switch would violate age rule".to_string(),
            Refusal::SwitchRoommateIsolated =>
                "Switch would violate rule: cannot share with infectious/VIP".to_string(),
            Refusal::SwitchAdjacentBedNotBlocked =>
                "Switch would violate rule: infectious/VIP needs the adjacent bed blocked"
                    .to_string(),
            Refusal::NoBedToRelocateRoommate => "No available bed to relocate roommate".to_string(),
            Refusal::NoBedToMoveRoommate => "No available bed to move roommate".to_string(),
        }
    }
}

} // verus!
