//! The rules of the ward, stated over its beds as a map from bed number to
//! bed: who may be admitted where, and what each operation makes of the ward.

use crate::domain::bed::{Bed, BedState};
use crate::domain::constants::{
    bed_numbers, is_valid_bed_number, lemma_roommate_in_same_room, lemma_total_beds, roommate,
    unit_of, PEDIATRIC_UNIT, TOTAL_BEDS,
};
use crate::domain::patient::Patient;
use crate::domain::refusal::Refusal;
use vstd::prelude::*;

verus! {

/// The ward holds exactly the beds of the hospital.
pub open spec fn covers_all_beds(ward: Map<u16, Bed>) -> bool {
    forall|n: u16|
        #![trigger ward.contains_key(n)]
        #![trigger is_valid_bed_number(n)]
        ward.contains_key(n) <==> is_valid_bed_number(n)
}

/// A ward that holds exactly the beds of the hospital has `TOTAL_BEDS` beds.
pub proof fn lemma_ward_size(ward: Map<u16, Bed>)
    requires
        covers_all_beds(ward),
    ensures
        ward.dom() == bed_numbers(),
        ward.dom().finite(),
        ward.len() == TOTAL_BEDS,
{
    lemma_total_beds();
    assert(ward.dom() =~= bed_numbers());
}

/// The bed without a patient, open to admission.
pub open spec fn vacant_bed() -> Bed {
    Bed { state: BedState::Vacant }
}

/// The bed kept out of use.
pub open spec fn blocked_bed() -> Bed {
    Bed { state: BedState::Blocked }
}

/// The bed that holds `patient`.
pub open spec fn occupied_bed(patient: Patient) -> Bed {
    Bed { state: BedState::Occupied(patient) }
}

/// The ward in which every bed of the hospital is vacant.
pub open spec fn empty_ward() -> Map<u16, Bed> {
    Map::new(|n: u16| is_valid_bed_number(n), |n: u16| vacant_bed())
}

/// The patient in bed `n`, where the bed is occupied.
pub open spec fn occupant(ward: Map<u16, Bed>, n: u16) -> Patient
    recommends
        ward.contains_key(n),
        ward[n].state is Occupied,
{
    ward[n].state->Occupied_0
}

/// Why `patient` may not share a room with the bed next to the patient's:
/// the two must have the same gender, be both under 16 or both not, and the
/// one who is there must be neither infectious nor a VIP.
pub open spec fn sharing_refusal(patient: Patient, neighbor: BedState) -> Option<Refusal> {
    match neighbor {
        BedState::Occupied(other) => {
            if patient.gender != other.gender {
                Some(Refusal::GenderMismatch)
            } else if (patient.age < 16) != (other.age < 16) {
                Some(Refusal::AgeBracketMismatch)
            } else if other.needs_isolation() {
                Some(Refusal::RoommateIsolated)
            } else {
                None
            }
        },
        _ => None,
    }
}

/// Why `patient` may not be admitted to bed `n`, the first rule that is
/// broken deciding; `None` where the admission is in order.
pub open spec fn admission_refusal(ward: Map<u16, Bed>, patient: Patient, n: u16) -> Option<
    Refusal,
> {
    if !ward.contains_key(n) {
        Some(Refusal::BedDoesNotExist)
    } else if !(ward[n].state is Vacant) {
        Some(Refusal::BedNotAvailable)
    } else if patient.age < 13 && unit_of(n) != PEDIATRIC_UNIT {
        Some(Refusal::UnderThirteenOutsidePediatricUnit)
    } else if sharing_refusal(patient, ward[roommate(n)].state) is Some {
        sharing_refusal(patient, ward[roommate(n)].state)
    } else if patient.needs_isolation() && !(ward[roommate(n)].state is Vacant) {
        Some(Refusal::AdjacentBedNotFree)
    } else {
        None
    }
}

/// The ward after `patient` took bed `n`: the bed holds the patient, and the
/// other bed of the room, if it was vacant, is blocked for a patient who
/// needs isolation.
pub open spec fn admitted(ward: Map<u16, Bed>, patient: Patient, n: u16) -> Map<u16, Bed> {
    let placed = ward.insert(n, occupied_bed(patient));
    if patient.needs_isolation() && placed[roommate(n)].state is Vacant {
        placed.insert(roommate(n), blocked_bed())
    } else {
        placed
    }
}

/// The ward after the patient of bed `n` left it: the bed is vacant, and the
/// other bed of the room, if it was blocked, is vacant again where the
/// patient needed isolation.
pub open spec fn vacated(ward: Map<u16, Bed>, n: u16) -> Map<u16, Bed> {
    let freed = ward.insert(n, vacant_bed());
    if occupant(ward, n).needs_isolation() && freed[roommate(n)].state is Blocked {
        freed.insert(roommate(n), vacant_bed())
    } else {
        freed
    }
}

/// Bed `n` holds a patient with the given record number.
pub open spec fn holds_record(ward: Map<u16, Bed>, n: u16, record: u32) -> bool {
    &&& ward.contains_key(n)
    &&& ward[n].state is Occupied
    &&& occupant(ward, n).clinical_record_number == record
}

/// Bed `n` is the lowest-numbered bed that holds the given record number.
pub open spec fn is_first_bed_of(ward: Map<u16, Bed>, n: u16, record: u32) -> bool {
    &&& holds_record(ward, n, record)
    &&& forall|k: u16| k < n ==> !holds_record(ward, k, record)
}

/// The bed of the patient with the given record number: the lowest-numbered
/// bed that holds it.
pub open spec fn bed_of(ward: Map<u16, Bed>, record: u32) -> Option<u16> {
    if exists|n: u16| is_first_bed_of(ward, n, record) {
        Some(choose|n: u16| is_first_bed_of(ward, n, record))
    } else {
        None
    }
}

/// Bed `n` is the lowest-numbered bed that `patient` may be admitted to.
pub open spec fn is_first_bed_for(ward: Map<u16, Bed>, n: u16, patient: Patient) -> bool {
    &&& admission_refusal(ward, patient, n) is None
    &&& forall|k: u16| k < n ==> admission_refusal(ward, patient, k) is Some
}

/// The lowest-numbered bed that `patient` may be admitted to.
pub open spec fn first_bed_for(ward: Map<u16, Bed>, patient: Patient) -> Option<u16> {
    if exists|n: u16| is_first_bed_for(ward, n, patient) {
        Some(choose|n: u16| is_first_bed_for(ward, n, patient))
    } else {
        None
    }
}

/// Why the patient of bed `source` may not go to bed `destination`: the
/// rules of admission, held against the ward as it is once the patient has
/// left the bed.
pub open spec fn transfer_refusal(ward: Map<u16, Bed>, source: u16, destination: u16) -> Option<
    Refusal,
> {
    admission_refusal(vacated(ward, source), occupant(ward, source), destination)
}

/// The ward after the patient of bed `source` was sent to bed `destination`.
/// The patient leaves the bed and is admitted to the other; where that is
/// refused, the patient is put back into the bed that was left, and the other
/// bed of that room is blocked if it is vacant and the patient needs
/// isolation.
pub open spec fn transferred(ward: Map<u16, Bed>, source: u16, destination: u16) -> Map<
    u16,
    Bed,
> {
    let patient = occupant(ward, source);
    let without = vacated(ward, source);
    if admission_refusal(without, patient, destination) is None {
        admitted(without, patient, destination)
    } else {
        admitted(without, patient, source)
    }
}

/// Why the patient with the given record number may not move to bed
/// `destination`.
pub open spec fn move_refusal(ward: Map<u16, Bed>, record: u32, destination: u16) -> Option<
    Refusal,
> {
    match bed_of(ward, record) {
        None => Some(Refusal::PatientNotFound),
        Some(source) => transfer_refusal(ward, source, destination),
    }
}

/// The ward after the patient with the given record number was asked to
/// move to bed `destination`.
pub open spec fn moved(ward: Map<u16, Bed>, record: u32, destination: u16) -> Map<u16, Bed> {
    match bed_of(ward, record) {
        None => ward,
        Some(source) => transferred(ward, source, destination),
    }
}

/// The ward after the patient with the given record number was discharged.
pub open spec fn discharged(ward: Map<u16, Bed>, record: u32) -> Map<u16, Bed> {
    match bed_of(ward, record) {
        None => ward,
        Some(source) => vacated(ward, source),
    }
}

/// Why `incoming`, who leaves bed `origin`, may not take bed `target` in a
/// switch with the patient of that bed. The patient must be able to share the
/// room with whoever lies in its other bed, and a patient who needs isolation
/// must find that bed blocked, since a switch blocks and unblocks nothing.
/// The other bed of the target's room is not looked at where it is `origin`:
/// its patient leaves it in the same switch.
pub open spec fn swap_sharing_refusal(
    ward: Map<u16, Bed>,
    incoming: Patient,
    target: u16,
    origin: u16,
) -> Option<Refusal> {
    let neighbor = ward[roommate(target)].state;
    if origin == roommate(target) {
        None
    } else if sharing_refusal(incoming, neighbor) is Some {
        Some(sharing_refusal(incoming, neighbor)->0.in_switch())
    } else if incoming.needs_isolation() && neighbor is Occupied {
        Some(Refusal::SwitchRoommateIsolated)
    } else if incoming.needs_isolation() && !(neighbor is Blocked) {
        Some(Refusal::SwitchAdjacentBedNotBlocked)
    } else {
        None
    }
}

/// Why the patients of beds `first` and `second` may not change places: a
/// patient under 13 would leave the pediatric unit, or one of the two may
/// not share the room that the patient would come to, or would not have it
/// alone where the patient needs isolation.
pub open spec fn swap_refusal(ward: Map<u16, Bed>, first: u16, second: u16) -> Option<Refusal> {
    let one = occupant(ward, first);
    let other = occupant(ward, second);
    if one.age < 13 && unit_of(second) != PEDIATRIC_UNIT {
        Some(Refusal::SwitchUnderThirteenOutsidePediatricUnit)
    } else if other.age < 13 && unit_of(first) != PEDIATRIC_UNIT {
        Some(Refusal::SwitchUnderThirteenOutsidePediatricUnit)
    } else if swap_sharing_refusal(ward, other, first, second) is Some {
        swap_sharing_refusal(ward, other, first, second)
    } else {
        swap_sharing_refusal(ward, one, second, first)
    }
}

/// The ward after the patients of beds `first` and `second` changed places.
pub open spec fn swapped(ward: Map<u16, Bed>, first: u16, second: u16) -> Map<u16, Bed> {
    ward.insert(first, occupied_bed(occupant(ward, second))).insert(
        second,
        occupied_bed(occupant(ward, first)),
    )
}

/// Why the patients with the two record numbers may not switch beds. Each
/// record number is looked up by itself.
pub open spec fn switch_refusal(ward: Map<u16, Bed>, record1: u32, record2: u32) -> Option<
    Refusal,
> {
    match bed_of(ward, record1) {
        None => Some(Refusal::FirstPatientNotFound),
        Some(first) => match bed_of(ward, record2) {
            None => Some(Refusal::SecondPatientNotFound),
            Some(second) => swap_refusal(ward, first, second),
        },
    }
}

/// The ward after the patients with the two record numbers were asked to
/// switch beds: they changed places, or nothing changed.
pub open spec fn switched(ward: Map<u16, Bed>, record1: u32, record2: u32) -> Map<u16, Bed> {
    if switch_refusal(ward, record1, record2) is None {
        swapped(ward, bed_of(ward, record1)->0, bed_of(ward, record2)->0)
    } else {
        ward
    }
}

/// Why the patient of bed `n` cannot have the room alone: the other bed is
/// occupied and no bed admits its patient. `missing` is the refusal to give.
pub open spec fn isolation_refusal(ward: Map<u16, Bed>, n: u16, missing: Refusal) -> Option<
    Refusal,
> {
    if ward[roommate(n)].state is Occupied && first_bed_for(
        ward,
        occupant(ward, roommate(n)),
    ) is None {
        Some(missing)
    } else {
        None
    }
}

/// The ward after the roommate of bed `n`, if there is one, went to the
/// lowest-numbered bed that admits the roommate.
pub open spec fn roommate_relocated(ward: Map<u16, Bed>, n: u16) -> Map<u16, Bed> {
    let other = roommate(n);
    if ward[other].state is Occupied {
        let leaving = occupant(ward, other);
        admitted(vacated(ward, other), leaving, first_bed_for(ward, leaving)->0)
    } else {
        ward
    }
}

/// The ward after bed `n` came to hold `patient`, the roommate was relocated
/// and the other bed of the room was blocked.
pub open spec fn isolated(ward: Map<u16, Bed>, n: u16, patient: Patient) -> Map<u16, Bed> {
    roommate_relocated(ward, n).insert(n, occupied_bed(patient)).insert(
        roommate(n),
        blocked_bed(),
    )
}

/// The ward after bed `n` came to hold `patient` and the other bed of the
/// room, if it was blocked, became vacant where the patient needs no
/// isolation any more.
pub open spec fn released(ward: Map<u16, Bed>, n: u16, patient: Patient) -> Map<u16, Bed> {
    let kept = ward.insert(n, occupied_bed(patient));
    if !patient.needs_isolation() && kept[roommate(n)].state is Blocked {
        kept.insert(roommate(n), vacant_bed())
    } else {
        kept
    }
}

/// `patient` with the VIP flag set to `is_vip`.
pub open spec fn with_vip(patient: Patient, is_vip: bool) -> Patient {
    Patient { is_vip, ..patient }
}

/// `patient` with the infection flag set to `is_infected`.
pub open spec fn with_infection(patient: Patient, is_infected: bool) -> Patient {
    Patient { is_infected, ..patient }
}

/// Why the VIP flag of the patient with the given record number cannot be
/// set to `is_vip`.
pub open spec fn vip_refusal(ward: Map<u16, Bed>, record: u32, is_vip: bool) -> Option<Refusal> {
    match bed_of(ward, record) {
        None => Some(Refusal::PatientNotFound),
        Some(n) => if is_vip && !occupant(ward, n).is_vip {
            isolation_refusal(ward, n, Refusal::NoBedToRelocateRoommate)
        } else {
            None
        },
    }
}

/// The ward after the VIP flag of the patient with the given record number
/// was asked to be `is_vip`.
pub open spec fn vip_set(ward: Map<u16, Bed>, record: u32, is_vip: bool) -> Map<u16, Bed> {
    match bed_of(ward, record) {
        None => ward,
        Some(n) => {
            let patient = occupant(ward, n);
            if patient.is_vip == is_vip || vip_refusal(ward, record, is_vip) is Some {
                ward
            } else if is_vip {
                isolated(ward, n, with_vip(patient, true))
            } else {
                released(ward, n, with_vip(patient, false))
            }
        },
    }
}

/// Why the patient with the given record number cannot be marked as
/// infectious.
pub open spec fn infection_refusal(ward: Map<u16, Bed>, record: u32) -> Option<Refusal> {
    match bed_of(ward, record) {
        None => Some(Refusal::PatientNotFound),
        Some(n) => if !occupant(ward, n).is_infected {
            isolation_refusal(ward, n, Refusal::NoBedToMoveRoommate)
        } else {
            None
        },
    }
}

/// The ward after the patient with the given record number was asked to be
/// marked as infectious.
pub open spec fn marked_infected(ward: Map<u16, Bed>, record: u32) -> Map<u16, Bed> {
    match bed_of(ward, record) {
        None => ward,
        Some(n) => {
            let patient = occupant(ward, n);
            if patient.is_infected || infection_refusal(ward, record) is Some {
                ward
            } else {
                isolated(ward, n, with_infection(patient, true))
            }
        },
    }
}

/// The ward after the patient with the given record number was asked to be
/// no longer marked as infectious.
pub open spec fn unmarked_infected(ward: Map<u16, Bed>, record: u32) -> Map<u16, Bed> {
    match bed_of(ward, record) {
        None => ward,
        Some(n) => {
            let patient = occupant(ward, n);
            if !patient.is_infected {
                ward
            } else {
                released(ward, n, with_infection(patient, false))
            }
        },
    }
}

/// The numbers of the occupied beds of the ward.
pub open spec fn occupied_beds(ward: Map<u16, Bed>) -> Set<u16> {
    Set::new(|n: u16| ward.contains_key(n) && ward[n].state is Occupied)
}

/// The numbers of the vacant beds of the ward.
pub open spec fn vacant_beds(ward: Map<u16, Bed>) -> Set<u16> {
    Set::new(|n: u16| ward.contains_key(n) && ward[n].state is Vacant)
}

/// The numbers of the blocked beds of the ward.
pub open spec fn blocked_beds(ward: Map<u16, Bed>) -> Set<u16> {
    Set::new(|n: u16| ward.contains_key(n) && ward[n].state is Blocked)
}

/// The bed numbers of `beds` that lie below `limit`.
pub open spec fn below(beds: Set<u16>, limit: u16) -> Set<u16> {
    Set::new(|n: u16| beds.contains(n) && n < limit)
}

/// Raising the limit from `n` to `next` adds bed `n` to the beds below the
/// limit, if it is among `beds`, where no bed of `beds` lies between the two.
pub proof fn lemma_below_next(beds: Set<u16>, n: u16, next: u16)
    requires
        n < next,
        below(beds, n).finite(),
        forall|k: u16| n < k < next ==> !beds.contains(k),
    ensures
        below(beds, next).finite(),
        below(beds, next).len() == below(beds, n).len() + if beds.contains(n) {
            1nat
        } else {
            0nat
        },
{
    if beds.contains(n) {
        assert(below(beds, next) =~= below(beds, n).insert(n));
    } else {
        assert(below(beds, next) =~= below(beds, n));
    }
}

/// The bed and the patient that a search for a record number finds.
pub open spec fn found_patient(ward: Map<u16, Bed>, record: u32) -> Option<(u16, Patient)> {
    match bed_of(ward, record) {
        None => None,
        Some(n) => Some((n, occupant(ward, n))),
    }
}

/// The lowest-numbered bed that holds a record number is the patient's bed.
pub proof fn lemma_bed_of_first(ward: Map<u16, Bed>, n: u16, record: u32)
    requires
        is_first_bed_of(ward, n, record),
    ensures
        bed_of(ward, record) == Some(n),
{
    let chosen = choose|k: u16| is_first_bed_of(ward, k, record);
    assert(is_first_bed_of(ward, chosen, record));
    if chosen < n {
        assert(!holds_record(ward, chosen, record));
    }
    if n < chosen {
        assert(!holds_record(ward, n, record));
    }
}

/// A record number that no bed holds has no bed.
pub proof fn lemma_bed_of_none(ward: Map<u16, Bed>, record: u32)
    requires
        forall|n: u16| !holds_record(ward, n, record),
    ensures
        bed_of(ward, record) is None,
{
}

/// The lowest-numbered bed that admits a patient is the patient's first bed.
pub proof fn lemma_first_bed_for_lowest(ward: Map<u16, Bed>, n: u16, patient: Patient)
    requires
        is_first_bed_for(ward, n, patient),
    ensures
        first_bed_for(ward, patient) == Some(n),
{
    let chosen = choose|k: u16| is_first_bed_for(ward, k, patient);
    assert(is_first_bed_for(ward, chosen, patient));
    if chosen < n {
        assert(admission_refusal(ward, patient, chosen) is Some);
    }
    if n < chosen {
        assert(admission_refusal(ward, patient, n) is Some);
    }
}

/// A patient whom every bed refuses has no first bed.
pub proof fn lemma_first_bed_for_none(ward: Map<u16, Bed>, patient: Patient)
    requires
        forall|n: u16| admission_refusal(ward, patient, n) is Some,
    ensures
        first_bed_for(ward, patient) is None,
{
}

/// The roommate of an occupied bed can go to every bed that admits the
/// roommate: leaving the room changes nothing that the admission looks at.
/// The relocation touches neither the bed `n` nor, but for vacating it, the
/// other bed of its room.
pub proof fn lemma_roommate_can_relocate(ward: Map<u16, Bed>, n: u16, destination: u16)
    requires
        covers_all_beds(ward),
        is_valid_bed_number(n),
        ward[n].state is Occupied,
        ward[roommate(n)].state is Occupied,
        admission_refusal(ward, occupant(ward, roommate(n)), destination) is None,
    ensures
        transfer_refusal(ward, roommate(n), destination) is None,
        destination != n,
        destination != roommate(n),
        roommate(destination) != n,
        roommate(destination) != roommate(n),
        transferred(ward, roommate(n), destination)[n] == ward[n],
        transferred(ward, roommate(n), destination)[roommate(n)] == vacant_bed(),
        transferred(ward, roommate(n), destination)[destination] == occupied_bed(
            occupant(ward, roommate(n)),
        ),
{
    lemma_roommate_in_same_room(n);
    lemma_roommate_in_same_room(destination);
}

} // verus!
