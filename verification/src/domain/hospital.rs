//! The ward: every bed of the hospital, and the operations on them.

use crate::domain::bed::{Bed, BedState};
use crate::domain::constants::{
    bed_numbers, beds_before, is_valid_bed_number, lemma_roommate_in_same_room,
    lemma_total_beds, next_bed_number, roommate, FIRST_BED_NUMBER, LAST_BED_NUMBER,
    PEDIATRIC_UNIT, TOTAL_BEDS,
};
use crate::domain::invariants::{
    lemma_admission_keeps_isolation, lemma_admission_keeps_rooms_compatible,
    lemma_discharge_keeps_ward_sound, lemma_empty_ward_is_sound, lemma_marking_keeps_ward_sound,
    lemma_move_keeps_ward_sound, lemma_switch_keeps_ward_sound,
    lemma_unmarking_keeps_ward_sound, lemma_vip_flag_keeps_ward_sound, ward_is_sound,
};
use crate::domain::patient::Patient;
use crate::domain::refusal::Refusal;
use crate::domain::rules::{
    admission_refusal, admitted, bed_of, below, blocked_bed, blocked_beds, covers_all_beds,
    discharged, empty_ward, first_bed_for, found_patient, holds_record, infection_refusal,
    is_first_bed_for, is_first_bed_of, isolated, isolation_refusal, lemma_bed_of_first,
    lemma_bed_of_none, lemma_below_next, lemma_first_bed_for_lowest, lemma_first_bed_for_none,
    lemma_roommate_can_relocate, lemma_ward_size, marked_infected, move_refusal, moved,
    occupant, occupied_bed, occupied_beds, released, roommate_relocated, sharing_refusal,
    swap_refusal, swap_sharing_refusal, swapped, switch_refusal, switched, transfer_refusal,
    transferred, unmarked_infected, vacant_bed, vacant_beds, vacated, vip_refusal, vip_set,
    with_infection, with_vip,
};
use std::collections::HashMap;
use vstd::prelude::*;
use vstd::set_lib::lemma_subset_equality;

verus! {

/// Main structure that manages all hospital beds.
pub struct Hospital {
    /// Bed map, indexed by bed number.
    pub beds: HashMap<u16, Bed>,
}

impl View for Hospital {
    type V = Map<u16, Bed>;

    /// The beds of the ward by number.
    open spec fn view(&self) -> Map<u16, Bed> {
        self.beds@
    }
}

impl Hospital {
    /// The ward holds exactly the beds of the hospital. Every operation
    /// expects this and keeps it.
    pub open spec fn wf(&self) -> bool {
        covers_all_beds(self@)
    }

    /// Creates a hospital with all its beds, each of them vacant.
    pub fn new() -> (hospital: Self)
        ensures
            hospital.wf(),
            hospital@ == empty_ward(),
            hospital@.len() == TOTAL_BEDS,
            ward_is_sound(hospital@),
    {
        proof {
            lemma_empty_ward_is_sound();
        }
        let mut beds: HashMap<u16, Bed> = HashMap::new();
        let mut n: u16 = FIRST_BED_NUMBER;
        while n <= LAST_BED_NUMBER
            invariant
                is_valid_bed_number(n) || n == LAST_BED_NUMBER + 1,
                forall|k: u16| beds@.contains_key(k) <==> is_valid_bed_number(k) && k < n,
                forall|k: u16| beds@.contains_key(k) ==> beds@[k] == vacant_bed(),
                beds@.dom().finite(),
                beds@.len() == beds_before(n),
            decreases LAST_BED_NUMBER + 1 - n,
        {
            beds.insert(n, Bed::new(n));
            n = next_bed_number(n);
        }
        let hospital = Hospital { beds };
        assert(hospital@ =~= empty_ward());
        hospital
    }

    /// Decides whether the ward holds exactly the beds of the hospital, as
    /// every operation expects. A ward that only these operations have
    /// changed does.
    pub fn is_well_formed(&self) -> (well_formed: bool)
        ensures
            well_formed == self.wf(),
    {
        proof {
            lemma_total_beds();
            if self.wf() {
                lemma_ward_size(self@);
            }
        }
        if self.beds.len() != TOTAL_BEDS {
            return false;
        }
        let mut n: u16 = FIRST_BED_NUMBER;
        while n <= LAST_BED_NUMBER
            invariant
                is_valid_bed_number(n) || n == LAST_BED_NUMBER + 1,
                forall|k: u16| is_valid_bed_number(k) && k < n ==> self@.contains_key(k),
            decreases LAST_BED_NUMBER + 1 - n,
        {
            if !self.beds.contains_key(&n) {
                return false;
            }
            n = next_bed_number(n);
        }
        proof {
            assert(bed_numbers().subset_of(self@.dom()));
            lemma_subset_equality(bed_numbers(), self@.dom());
        }
        true
    }

    /// Returns the roommate bed number: the other bed of the same room.
    #[inline]
    pub fn roommate_of(bed_number: u16) -> (other: u16)
        requires
            0 < bed_number < u16::MAX,
        ensures
            other == roommate(bed_number),
            roommate(other) == bed_number,
    {
        if bed_number % 2 == 0 {
            bed_number - 1
        } else {
            bed_number + 1
        }
    }

    /// The state of a bed of the ward.
    fn state_of(&self, bed_number: u16) -> (state: &BedState)
        requires
            self@.contains_key(bed_number),
        ensures
            *state == self@[bed_number].state,
    {
        &self.beds.get(&bed_number).unwrap().state
    }

    /// Decides whether `patient` may share a room with the bed in state
    /// `neighbor`.
    fn check_sharing(patient: &Patient, neighbor: &BedState) -> (refusal: Option<Refusal>)
        ensures
            refusal == sharing_refusal(*patient, *neighbor),
    {
        match neighbor {
            BedState::Occupied(other) => {
                if patient.gender != other.gender {
                    Some(Refusal::GenderMismatch)
                } else if (patient.age < 16) != (other.age < 16) {
                    Some(Refusal::AgeBracketMismatch)
                } else if other.is_infected || other.is_vip {
                    Some(Refusal::RoommateIsolated)
                } else {
                    None
                }
            },
            _ => None,
        }
    }

    /// Decides whether `patient` may be admitted to bed `bed_number`, and if
    /// not, which rule stands against it. The ward is not changed.
    pub fn check_admission(&self, patient: &Patient, bed_number: u16) -> (refusal: Option<Refusal>)
        requires
            self.wf(),
        ensures
            refusal == admission_refusal(self@, *patient, bed_number),
    {
        let bed = match self.beds.get(&bed_number) {
            Some(bed) => bed,
            None => { return Some(Refusal::BedDoesNotExist); },
        };
        if !bed.is_available() {
            return Some(Refusal::BedNotAvailable);
        }
        if patient.age < 13 && bed_number / 100 != PEDIATRIC_UNIT {
            return Some(Refusal::UnderThirteenOutsidePediatricUnit);
        }
        proof {
            lemma_roommate_in_same_room(bed_number);
        }
        let neighbor = self.state_of(Self::roommate_of(bed_number));
        let sharing = Self::check_sharing(patient, neighbor);
        if sharing.is_some() {
            return sharing;
        }
        if (patient.is_infected || patient.is_vip) && !matches!(neighbor, BedState::Vacant) {
            return Some(Refusal::AdjacentBedNotFree);
        }
        None
    }

    /// Puts `patient` into bed `bed_number` and blocks the other bed of the
    /// room where the patient needs isolation and that bed is vacant.
    fn place(&mut self, patient: Patient, bed_number: u16)
        requires
            old(self).wf(),
            is_valid_bed_number(bed_number),
        ensures
            final(self).wf(),
            final(self)@ == admitted(old(self)@, patient, bed_number),
    {
        proof {
            lemma_roommate_in_same_room(bed_number);
        }
        let isolate = patient.is_infected || patient.is_vip;
        self.beds.insert(bed_number, Bed { state: BedState::Occupied(patient) });
        if isolate {
            let other = Self::roommate_of(bed_number);
            if matches!(self.state_of(other), BedState::Vacant) {
                self.beds.insert(other, Bed { state: BedState::Blocked });
            }
        }
        assert(final(self)@ =~= admitted(old(self)@, patient, bed_number));
    }

    /// Admits a new patient to a vacant bed, under all the rules of the ward.
    ///
    /// The admission is refused, and the ward left as it was, where the bed
    /// does not exist, is not vacant, lies outside the pediatric unit for a
    /// patient under 13, has a roommate of another gender, of the other side
    /// of 16, or who is infectious or a VIP, or where the patient needs
    /// isolation and the other bed of the room is not vacant. The first rule
    /// that is broken, in this order, gives the message.
    ///
    /// Otherwise the bed holds the patient, and the other bed of the room is
    /// blocked if the patient is infectious or a VIP.
    pub fn admit_patient(&mut self, patient: Patient, bed_number: u16) -> (result: Result<
        (),
        String,
    >)
        requires
            old(self).wf(),
        ensures
            final(self).wf(),
            ward_is_sound(old(self)@) ==> ward_is_sound(final(self)@),
            match admission_refusal(old(self)@, patient, bed_number) {
                Some(refusal) => {
                    &&& result matches Err(message)
                    &&& message@ == refusal.text()
                    &&& final(self)@ == old(self)@
                },
                None => {
                    &&& result is Ok
                    &&& final(self)@ == admitted(old(self)@, patient, bed_number)
                },
            },
            result is Ok ==> final(self)@[bed_number] == occupied_bed(patient),
            result is Ok && patient.needs_isolation() && old(self)@[roommate(bed_number)].state
                is Vacant ==> final(self)@[roommate(bed_number)] == blocked_bed(),
            patient.age < 13 && bed_number / 100 != PEDIATRIC_UNIT ==> result is Err,
            old(self)@[roommate(bed_number)].state is Occupied && occupant(
                old(self)@,
                roommate(bed_number),
            ).gender != patient.gender ==> result is Err,
    {
        proof {
            if ward_is_sound(old(self)@) && admission_refusal(old(self)@, patient, bed_number)
                is None {
                lemma_admission_keeps_rooms_compatible(old(self)@, patient, bed_number);
                lemma_admission_keeps_isolation(old(self)@, patient, bed_number);
            }
        }
        match self.check_admission(&patient, bed_number) {
            Some(refusal) => Err(refusal.message()),
            None => {
                proof {
                    lemma_roommate_in_same_room(bed_number);
                }
                self.place(patient, bed_number);
                Ok(())
            },
        }
    }

    /// Finds the lowest-numbered bed that holds the given record number.
    fn find_bed(&self, clinical_record: u32) -> (found: Option<u16>)
        requires
            self.wf(),
        ensures
            found == bed_of(self@, clinical_record),
            found matches Some(n) ==> is_first_bed_of(self@, n, clinical_record),
            found is None ==> forall|n: u16| !holds_record(self@, n, clinical_record),
    {
        let mut n: u16 = FIRST_BED_NUMBER;
        while n <= LAST_BED_NUMBER
            invariant
                self.wf(),
                is_valid_bed_number(n) || n == LAST_BED_NUMBER + 1,
                forall|k: u16| k < n ==> !holds_record(self@, k, clinical_record),
            decreases LAST_BED_NUMBER + 1 - n,
        {
            if let BedState::Occupied(patient) = self.state_of(n) {
                if patient.clinical_record_number == clinical_record {
                    proof {
                        lemma_bed_of_first(self@, n, clinical_record);
                    }
                    return Some(n);
                }
            }
            n = next_bed_number(n);
        }
        proof {
            lemma_bed_of_none(self@, clinical_record);
        }
        None
    }

    /// Sends the patient of bed `source` to bed `destination`, and back where
    /// the admission there is refused.
    fn transfer(&mut self, source: u16, destination: u16) -> (result: Result<(), String>)
        requires
            old(self).wf(),
            is_valid_bed_number(source),
            old(self)@[source].state is Occupied,
        ensures
            final(self).wf(),
            final(self)@ == transferred(old(self)@, source, destination),
            match transfer_refusal(old(self)@, source, destination) {
                Some(refusal) => result matches Err(message) && message@ == refusal.text(),
                None => result is Ok,
            },
    {
        proof {
            lemma_roommate_in_same_room(source);
        }
        match self.beds.insert(source, Bed { state: BedState::Vacant }) {
            Some(Bed { state: BedState::Occupied(patient) }) => {
                if patient.is_infected || patient.is_vip {
                    let other = Self::roommate_of(source);
                    if matches!(self.state_of(other), BedState::Blocked) {
                        self.beds.insert(other, Bed { state: BedState::Vacant });
                    }
                }
                assert(self@ =~= vacated(old(self)@, source));
                match self.check_admission(&patient, destination) {
                    None => {
                        self.place(patient, destination);
                        Ok(())
                    },
                    Some(refusal) => {
                        self.place(patient, source);
                        Err(refusal.message())
                    },
                }
            },
            _ => Ok(()),
        }
    }

    /// Moves a patient from the current bed to another one.
    ///
    /// The patient is the one in the lowest-numbered bed that holds the
    /// record number; without such a bed the move is refused and nothing
    /// changes. The patient leaves the bed, which unblocks the other bed of
    /// the room where the patient needed isolation, and is admitted to the
    /// new bed under the rules of admission. Where that admission is refused,
    /// the patient is put back and the refusal is returned; the other bed of
    /// the old room is then blocked again if it is vacant and the patient
    /// needs isolation.
    pub fn move_patient(&mut self, clinical_record: u32, new_bed_number: u16) -> (result: Result<
        (),
        String,
    >)
        requires
            old(self).wf(),
        ensures
            final(self).wf(),
            ward_is_sound(old(self)@) ==> ward_is_sound(final(self)@),
            final(self)@ == moved(old(self)@, clinical_record, new_bed_number),
            match move_refusal(old(self)@, clinical_record, new_bed_number) {
                Some(refusal) => result matches Err(message) && message@ == refusal.text(),
                None => result is Ok,
            },
    {
        proof {
            if ward_is_sound(old(self)@) {
                lemma_move_keeps_ward_sound(old(self)@, clinical_record, new_bed_number);
            }
        }
        match self.find_bed(clinical_record) {
            None => Err(Refusal::PatientNotFound.message()),
            Some(source) => self.transfer(source, new_bed_number),
        }
    }

    /// Discharges a patient: the bed becomes vacant, and the other bed of the
    /// room, if it is blocked, becomes vacant too where the patient was
    /// infectious or a VIP.
    ///
    /// The patient is the one in the lowest-numbered bed that holds the
    /// record number; without such a bed the discharge is refused.
    pub fn discharge_patient(&mut self, clinical_record: u32) -> (result: Result<(), String>)
        requires
            old(self).wf(),
        ensures
            final(self).wf(),
            ward_is_sound(old(self)@) ==> ward_is_sound(final(self)@),
            final(self)@ == discharged(old(self)@, clinical_record),
            match bed_of(old(self)@, clinical_record) {
                None => result matches Err(message) && message@
                    == Refusal::PatientNotFound.text(),
                Some(_) => result is Ok,
            },
    {
        proof {
            if ward_is_sound(old(self)@) {
                lemma_discharge_keeps_ward_sound(old(self)@, clinical_record);
            }
        }
        match self.find_bed(clinical_record) {
            None => Err(Refusal::PatientNotFound.message()),
            Some(source) => {
                proof {
                    lemma_roommate_in_same_room(source);
                }
                let other = Self::roommate_of(source);
                let isolated = match self.state_of(source) {
                    BedState::Occupied(patient) => patient.is_infected || patient.is_vip,
                    _ => false,
                };
                self.beds.insert(source, Bed { state: BedState::Vacant });
                if isolated && matches!(self.state_of(other), BedState::Blocked) {
                    self.beds.insert(other, Bed { state: BedState::Vacant });
                }
                assert(self@ =~= vacated(old(self)@, source));
                Ok(())
            },
        }
    }

    /// Finds a patient by record number and returns the bed number and the
    /// patient: those of the lowest-numbered bed that holds the record number.
    pub fn find_patient_info(&self, clinical_record: u32) -> (found: Option<(u16, Patient)>)
        requires
            self.wf(),
        ensures
            found == found_patient(self@, clinical_record),
            found matches Some(pair) ==> is_first_bed_of(self@, pair.0, clinical_record),
            found is None <==> forall|n: u16| !holds_record(self@, n, clinical_record),
    {
        match self.find_bed(clinical_record) {
            None => None,
            Some(n) => match self.state_of(n) {
                BedState::Occupied(patient) => Some((n, patient.clone())),
                _ => None,
            },
        }
    }

    /// Returns all the beds that `patient` may be admitted to, in ascending
    /// order of bed number.
    ///
    /// A bed is among them exactly if the rules of admission have nothing
    /// against the patient there: it is vacant, it lies in the pediatric unit
    /// if the patient is under 13, the patient may share the room with whoever
    /// is in its other bed, and that bed is vacant if the patient needs
    /// isolation.
    pub fn get_available_beds_for_patient(&self, patient: &Patient) -> (available: Vec<u16>)
        requires
            self.wf(),
        ensures
            forall|i: int, j: int|
                0 <= i < j < available@.len() ==> available@[i] < available@[j],
            forall|n: u16|
                #![trigger available@.contains(n)]
                #![trigger admission_refusal(self@, *patient, n)]
                available@.contains(n) <==> admission_refusal(self@, *patient, n) is None,
            available@.len() == 0 <==> first_bed_for(self@, *patient) is None,
            available@.len() > 0 ==> first_bed_for(self@, *patient) == Some(available@[0]),
    {
        let mut available: Vec<u16> = Vec::new();
        let mut n: u16 = FIRST_BED_NUMBER;
        while n <= LAST_BED_NUMBER
            invariant
                self.wf(),
                is_valid_bed_number(n) || n == LAST_BED_NUMBER + 1,
                forall|i: int, j: int|
                    0 <= i < j < available@.len() ==> available@[i] < available@[j],
                forall|i: int| 0 <= i < available@.len() ==> available@[i] < n,
                forall|i: int|
                    0 <= i < available@.len() ==> admission_refusal(
                        self@,
                        *patient,
                        #[trigger] available@[i],
                    ) is None,
                forall|k: u16|
                    k < n && #[trigger] admission_refusal(self@, *patient, k) is None
                        ==> available@.contains(k),
            decreases LAST_BED_NUMBER + 1 - n,
        {
            let ghost before = available@;
            if self.check_admission(patient, n).is_none() {
                available.push(n);
                assert(available@[before.len() as int] == n);
                assert forall|k: u16|
                    k < n && admission_refusal(self@, *patient, k) is None
                        implies available@.contains(k) by {
                    assert(before.contains(k));
                    let i = choose|i: int| 0 <= i < before.len() && before[i] == k;
                    assert(available@[i] == k);
                }
            }
            n = next_bed_number(n);
        }
        proof {
            if available@.len() > 0 {
                assert forall|k: u16| k < available@[0] implies admission_refusal(
                    self@,
                    *patient,
                    k,
                ) is Some by {
                    if admission_refusal(self@, *patient, k) is None {
                        assert(available@.contains(k));
                        let i = choose|i: int| 0 <= i < available@.len() && available@[i] == k;
                        assert(available@[0] <= available@[i]);
                    }
                }
                lemma_first_bed_for_lowest(self@, available@[0], *patient);
            } else {
                assert forall|k: u16| admission_refusal(self@, *patient, k) is Some by {
                    if admission_refusal(self@, *patient, k) is None {
                        assert(available@.contains(k));
                    }
                }
                lemma_first_bed_for_none(self@, *patient);
            }
        }
        available
    }

    /// Decides whether `incoming`, who leaves bed `origin`, may take bed
    /// `target` in a switch.
    fn check_swap_sharing(&self, incoming: &Patient, target: u16, origin: u16) -> (refusal:
        Option<Refusal>)
        requires
            self.wf(),
            is_valid_bed_number(target),
        ensures
            refusal == swap_sharing_refusal(self@, *incoming, target, origin),
    {
        proof {
            lemma_roommate_in_same_room(target);
        }
        let other = Self::roommate_of(target);
        if origin == other {
            return None;
        }
        let neighbor = self.state_of(other);
        if let Some(refusal) = Self::check_sharing(incoming, neighbor) {
            return Some(refusal.to_switch());
        }
        if incoming.is_infected || incoming.is_vip {
            match neighbor {
                BedState::Occupied(_) => Some(Refusal::SwitchRoommateIsolated),
                BedState::Vacant => Some(Refusal::SwitchAdjacentBedNotBlocked),
                BedState::Blocked => None,
            }
        } else {
            None
        }
    }

    /// Decides whether the patients of two occupied beds may change places.
    fn check_swap(&self, first: u16, second: u16) -> (refusal: Option<Refusal>)
        requires
            self.wf(),
            is_valid_bed_number(first),
            is_valid_bed_number(second),
            self@[first].state is Occupied,
            self@[second].state is Occupied,
        ensures
            refusal == swap_refusal(self@, first, second),
    {
        match (self.state_of(first), self.state_of(second)) {
            (BedState::Occupied(one), BedState::Occupied(other)) => {
                if one.age < 13 && second / 100 != PEDIATRIC_UNIT {
                    return Some(Refusal::SwitchUnderThirteenOutsidePediatricUnit);
                }
                if other.age < 13 && first / 100 != PEDIATRIC_UNIT {
                    return Some(Refusal::SwitchUnderThirteenOutsidePediatricUnit);
                }
                let against_other = self.check_swap_sharing(other, first, second);
                if against_other.is_some() {
                    return against_other;
                }
                self.check_swap_sharing(one, second, first)
            },
            _ => None,
        }
    }

    /// Switches beds between two patients.
    ///
    /// Each patient is the one in the lowest-numbered bed that holds the
    /// record number. The switch is refused where one of them is not found,
    /// where it would take a patient under 13 out of the pediatric unit, or
    /// where one of them may not have the room that the patient would come
    /// to: the roommate there has another gender, is on the other side of
    /// 16, or is infectious or a VIP, or the patient is infectious or a VIP
    /// and the other bed of that room is not blocked. Two patients of one
    /// room change places without a look at each other.
    ///
    /// The two patients change places, or nothing changes. No bed is blocked
    /// or unblocked by a switch, so a patient who needs isolation changes
    /// places only with another who does.
    pub fn switch_patients(&mut self, clinical_record1: u32, clinical_record2: u32) -> (result:
        Result<(), String>)
        requires
            old(self).wf(),
        ensures
            final(self).wf(),
            ward_is_sound(old(self)@) ==> ward_is_sound(final(self)@),
            final(self)@ == switched(old(self)@, clinical_record1, clinical_record2),
            match switch_refusal(old(self)@, clinical_record1, clinical_record2) {
                Some(refusal) => {
                    &&& result matches Err(message)
                    &&& message@ == refusal.text()
                    &&& final(self)@ == old(self)@
                },
                None => {
                    &&& result is Ok
                    &&& final(self)@ == swapped(
                        old(self)@,
                        bed_of(old(self)@, clinical_record1)->0,
                        bed_of(old(self)@, clinical_record2)->0,
                    )
                },
            },
    {
        proof {
            if ward_is_sound(old(self)@) {
                lemma_switch_keeps_ward_sound(old(self)@, clinical_record1, clinical_record2);
            }
        }
        let first = match self.find_bed(clinical_record1) {
            Some(first) => first,
            None => { return Err(Refusal::FirstPatientNotFound.message()); },
        };
        let second = match self.find_bed(clinical_record2) {
            Some(second) => second,
            None => { return Err(Refusal::SecondPatientNotFound.message()); },
        };
        if let Some(refusal) = self.check_swap(first, second) {
            return Err(refusal.message());
        }
        if first != second {
            if let Some(Bed { state: BedState::Occupied(one) }) = self.beds.insert(
                first,
                Bed { state: BedState::Vacant },
            ) {
                if let Some(Bed { state: BedState::Occupied(other) }) = self.beds.insert(
                    second,
                    Bed { state: BedState::Occupied(one) },
                ) {
                    self.beds.insert(first, Bed { state: BedState::Occupied(other) });
                }
            }
        }
        assert(self@ =~= swapped(old(self)@, first, second));
        Ok(())
    }

    /// Makes room beside bed `bed_number`: the patient in the other bed of
    /// the room, if there is one, goes to the lowest-numbered bed that admits
    /// the patient. Where no bed does, nothing changes and `missing` is the
    /// refusal.
    fn relocate_roommate(&mut self, bed_number: u16, missing: Refusal) -> (result: Result<
        (),
        String,
    >)
        requires
            old(self).wf(),
            is_valid_bed_number(bed_number),
            old(self)@[bed_number].state is Occupied,
        ensures
            final(self).wf(),
            match isolation_refusal(old(self)@, bed_number, missing) {
                Some(refusal) => {
                    &&& result matches Err(message)
                    &&& message@ == refusal.text()
                    &&& final(self)@ == old(self)@
                },
                None => {
                    &&& result is Ok
                    &&& final(self)@ == roommate_relocated(old(self)@, bed_number)
                    &&& final(self)@[bed_number] == old(self)@[bed_number]
                    &&& !(final(self)@[roommate(bed_number)].state is Occupied)
                },
            },
    {
        proof {
            lemma_roommate_in_same_room(bed_number);
        }
        let other = Self::roommate_of(bed_number);
        let destination = match self.state_of(other) {
            BedState::Occupied(leaving) => {
                let candidates = self.get_available_beds_for_patient(leaving);
                if candidates.len() == 0 {
                    return Err(missing.message());
                }
                candidates[0]
            },
            _ => { return Ok(()); },
        };
        proof {
            assert(is_first_bed_for(old(self)@, destination, occupant(old(self)@, other)));
            lemma_roommate_can_relocate(old(self)@, bed_number, destination);
        }
        self.transfer(other, destination)
    }

    /// Sets the flags of the patient in bed `bed_number`.
    fn set_flags(&mut self, bed_number: u16, is_infected: bool, is_vip: bool)
        requires
            old(self).wf(),
            is_valid_bed_number(bed_number),
            old(self)@[bed_number].state is Occupied,
        ensures
            final(self).wf(),
            final(self)@ == old(self)@.insert(
                bed_number,
                occupied_bed(
                    with_vip(
                        with_infection(occupant(old(self)@, bed_number), is_infected),
                        is_vip,
                    ),
                ),
            ),
    {
        if let Some(Bed { state: BedState::Occupied(mut patient) }) = self.beds.insert(
            bed_number,
            Bed { state: BedState::Vacant },
        ) {
            patient.is_infected = is_infected;
            patient.is_vip = is_vip;
            self.beds.insert(bed_number, Bed { state: BedState::Occupied(patient) });
        }
        assert(self@ =~= old(self)@.insert(
            bed_number,
            occupied_bed(
                with_vip(with_infection(occupant(old(self)@, bed_number), is_infected), is_vip),
            ),
        ));
    }

    /// Marks or unmarks a patient as VIP.
    ///
    /// The patient is the one in the lowest-numbered bed that holds the
    /// record number; without such a bed the call is refused. Where the flag
    /// already has the value asked for, nothing changes.
    ///
    /// A patient who becomes a VIP gets the room alone: the roommate, if
    /// there is one, goes to the lowest-numbered bed that admits the roommate,
    /// and the other bed of the room is blocked. Where no bed admits the
    /// roommate the call is refused and nothing changes, the flag included.
    ///
    /// A patient who is a VIP no longer keeps the room alone only if
    /// infectious: otherwise the other bed of the room, if it is blocked,
    /// becomes vacant.
    pub fn set_patient_vip(&mut self, clinical_record: u32, is_vip: bool) -> (result: Result<
        (),
        String,
    >)
        requires
            old(self).wf(),
        ensures
            final(self).wf(),
            ward_is_sound(old(self)@) ==> ward_is_sound(final(self)@),
            final(self)@ == vip_set(old(self)@, clinical_record, is_vip),
            match vip_refusal(old(self)@, clinical_record, is_vip) {
                Some(refusal) => {
                    &&& result matches Err(message)
                    &&& message@ == refusal.text()
                    &&& final(self)@ == old(self)@
                },
                None => result is Ok,
            },
    {
        proof {
            if ward_is_sound(old(self)@) {
                lemma_vip_flag_keeps_ward_sound(old(self)@, clinical_record, is_vip);
            }
        }
        let bed_number = match self.find_bed(clinical_record) {
            Some(bed_number) => bed_number,
            None => { return Err(Refusal::PatientNotFound.message()); },
        };
        proof {
            lemma_roommate_in_same_room(bed_number);
        }
        let (was_infected, was_vip) = match self.state_of(bed_number) {
            BedState::Occupied(patient) => (patient.is_infected, patient.is_vip),
            _ => (false, false),
        };
        if was_vip == is_vip {
            return Ok(());
        }
        let other = Self::roommate_of(bed_number);
        if is_vip {
            if let Err(message) = self.relocate_roommate(
                bed_number,
                Refusal::NoBedToRelocateRoommate,
            ) {
                return Err(message);
            }
            self.set_flags(bed_number, was_infected, true);
            self.beds.insert(other, Bed { state: BedState::Blocked });
            assert(self@ =~= isolated(
                old(self)@,
                bed_number,
                with_vip(occupant(old(self)@, bed_number), true),
            ));
        } else {
            self.set_flags(bed_number, was_infected, false);
            if !was_infected && matches!(self.state_of(other), BedState::Blocked) {
                self.beds.insert(other, Bed { state: BedState::Vacant });
            }
            assert(self@ =~= released(
                old(self)@,
                bed_number,
                with_vip(occupant(old(self)@, bed_number), false),
            ));
        }
        Ok(())
    }

    /// Marks a patient as infectious.
    ///
    /// The patient is the one in the lowest-numbered bed that holds the
    /// record number; without such a bed the call is refused. Where the
    /// patient is marked already, nothing changes.
    ///
    /// Otherwise the patient gets the room alone: the roommate, if there is
    /// one, goes to the lowest-numbered bed that admits the roommate, the
    /// patient is marked, and the other bed of the room is blocked. Where no
    /// bed admits the roommate the call is refused and nothing changes.
    pub fn mark_patient_as_infected(&mut self, clinical_record: u32) -> (result: Result<
        (),
        String,
    >)
        requires
            old(self).wf(),
        ensures
            final(self).wf(),
            ward_is_sound(old(self)@) ==> ward_is_sound(final(self)@),
            final(self)@ == marked_infected(old(self)@, clinical_record),
            match infection_refusal(old(self)@, clinical_record) {
                Some(refusal) => {
                    &&& result matches Err(message)
                    &&& message@ == refusal.text()
                    &&& final(self)@ == old(self)@
                },
                None => result is Ok,
            },
    {
        proof {
            if ward_is_sound(old(self)@) {
                lemma_marking_keeps_ward_sound(old(self)@, clinical_record);
            }
        }
        let bed_number = match self.find_bed(clinical_record) {
            Some(bed_number) => bed_number,
            None => { return Err(Refusal::PatientNotFound.message()); },
        };
        proof {
            lemma_roommate_in_same_room(bed_number);
        }
        let (was_infected, was_vip) = match self.state_of(bed_number) {
            BedState::Occupied(patient) => (patient.is_infected, patient.is_vip),
            _ => (false, false),
        };
        if was_infected {
            return Ok(());
        }
        if let Err(message) = self.relocate_roommate(bed_number, Refusal::NoBedToMoveRoommate) {
            return Err(message);
        }
        self.set_flags(bed_number, true, was_vip);
        let other = Self::roommate_of(bed_number);
        if matches!(self.state_of(other), BedState::Vacant) {
            self.beds.insert(other, Bed { state: BedState::Blocked });
        }
        assert(self@ =~= isolated(
            old(self)@,
            bed_number,
            with_infection(occupant(old(self)@, bed_number), true),
        ));
        Ok(())
    }

    /// Unmarks a patient as infectious.
    ///
    /// The patient is the one in the lowest-numbered bed that holds the
    /// record number; without such a bed the call is refused. Where the
    /// patient is not marked, nothing changes. Otherwise the mark is taken
    /// off, and the other bed of the room, if it is blocked, becomes vacant
    /// unless the patient is a VIP.
    pub fn unmark_patient_as_infected(&mut self, clinical_record: u32) -> (result: Result<
        (),
        String,
    >)
        requires
            old(self).wf(),
        ensures
            final(self).wf(),
            ward_is_sound(old(self)@) ==> ward_is_sound(final(self)@),
            final(self)@ == unmarked_infected(old(self)@, clinical_record),
            match bed_of(old(self)@, clinical_record) {
                None => result matches Err(message) && message@
                    == Refusal::PatientNotFound.text(),
                Some(_) => result is Ok,
            },
    {
        proof {
            if ward_is_sound(old(self)@) {
                lemma_unmarking_keeps_ward_sound(old(self)@, clinical_record);
            }
        }
        let bed_number = match self.find_bed(clinical_record) {
            Some(bed_number) => bed_number,
            None => { return Err(Refusal::PatientNotFound.message()); },
        };
        proof {
            lemma_roommate_in_same_room(bed_number);
        }
        let (was_infected, was_vip) = match self.state_of(bed_number) {
            BedState::Occupied(patient) => (patient.is_infected, patient.is_vip),
            _ => (false, false),
        };
        if !was_infected {
            return Ok(());
        }
        self.set_flags(bed_number, false, was_vip);
        let other = Self::roommate_of(bed_number);
        if !was_vip && matches!(self.state_of(other), BedState::Blocked) {
            self.beds.insert(other, Bed { state: BedState::Vacant });
        }
        assert(self@ =~= released(
            old(self)@,
            bed_number,
            with_infection(occupant(old(self)@, bed_number), false),
        ));
        Ok(())
    }

    /// Counts beds by state: occupied, vacant, blocked.
    pub fn count_beds_by_state(&self) -> (counts: (usize, usize, usize))
        requires
            self.wf(),
        ensures
            counts.0 == occupied_beds(self@).len(),
            counts.1 == vacant_beds(self@).len(),
            counts.2 == blocked_beds(self@).len(),
            counts.0 + counts.1 + counts.2 == TOTAL_BEDS,
    {
        let mut occupied: usize = 0;
        let mut vacant: usize = 0;
        let mut blocked: usize = 0;
        let mut n: u16 = FIRST_BED_NUMBER;
        assert(below(occupied_beds(self@), n) =~= Set::empty());
        assert(below(vacant_beds(self@), n) =~= Set::empty());
        assert(below(blocked_beds(self@), n) =~= Set::empty());
        while n <= LAST_BED_NUMBER
            invariant
                self.wf(),
                is_valid_bed_number(n) || n == LAST_BED_NUMBER + 1,
                below(occupied_beds(self@), n).finite(),
                below(vacant_beds(self@), n).finite(),
                below(blocked_beds(self@), n).finite(),
                occupied == below(occupied_beds(self@), n).len(),
                vacant == below(vacant_beds(self@), n).len(),
                blocked == below(blocked_beds(self@), n).len(),
                occupied + vacant + blocked == beds_before(n),
            decreases LAST_BED_NUMBER + 1 - n,
        {
            let next = next_bed_number(n);
            proof {
                lemma_below_next(occupied_beds(self@), n, next);
                lemma_below_next(vacant_beds(self@), n, next);
                lemma_below_next(blocked_beds(self@), n, next);
            }
            match self.state_of(n) {
                BedState::Occupied(_) => { occupied += 1; },
                BedState::Vacant => { vacant += 1; },
                BedState::Blocked => { blocked += 1; },
            }
            n = next;
        }
        assert(below(occupied_beds(self@), n) =~= occupied_beds(self@));
        assert(below(vacant_beds(self@), n) =~= vacant_beds(self@));
        assert(below(blocked_beds(self@), n) =~= blocked_beds(self@));
        (occupied, vacant, blocked)
    }

    /// Lists every bed of the ward with its state, in ascending order of bed
    /// number: unit by unit, and within a unit from the first index to the
    /// last.
    pub fn listing(&self) -> (beds: Vec<(u16, BedState)>)
        requires
            self.wf(),
        ensures
            beds@.len() == TOTAL_BEDS,
            forall|n: u16|
                is_valid_bed_number(n) ==> beds@[#[trigger] beds_before(n)] == (
                    n,
                    self@[n].state,
                ),
    {
        let mut beds: Vec<(u16, BedState)> = Vec::new();
        let mut n: u16 = FIRST_BED_NUMBER;
        while n <= LAST_BED_NUMBER
            invariant
                self.wf(),
                is_valid_bed_number(n) || n == LAST_BED_NUMBER + 1,
                beds@.len() == beds_before(n),
                forall|k: u16|
                    is_valid_bed_number(k) && k < n ==> 0 <= beds_before(k) < beds@.len()
                        && beds@[#[trigger] beds_before(k)] == (k, self@[k].state),
            decreases LAST_BED_NUMBER + 1 - n,
        {
            let state = match self.state_of(n) {
                BedState::Occupied(patient) => BedState::Occupied(patient.clone()),
                BedState::Vacant => BedState::Vacant,
                BedState::Blocked => BedState::Blocked,
            };
            beds.push((n, state));
            n = next_bed_number(n);
        }
        beds
    }
}

impl Default for Hospital {
    fn default() -> (hospital: Self)
        ensures
            hospital.wf(),
            hospital@ == empty_ward(),
            hospital@.len() == TOTAL_BEDS,
            ward_is_sound(hospital@),
    {
        Self::new()
    }
}

} // verus!
