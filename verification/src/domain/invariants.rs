//! What the rules keep true of the ward from one operation to the next.

use crate::domain::bed::Bed;
use crate::domain::constants::{
    is_valid_bed_number, lemma_roommate_in_same_room, roommate, unit_of, PEDIATRIC_UNIT,
};
use crate::domain::patient::Patient;
use crate::domain::rules::{
    admission_refusal, admitted, bed_of, covers_all_beds, discharged, empty_ward, first_bed_for,
    infection_refusal, is_first_bed_for, is_first_bed_of, isolated, lemma_roommate_can_relocate,
    marked_infected, moved, occupant, released, roommate_relocated, swapped, switch_refusal,
    switched, transferred, unmarked_infected, vacated, vip_refusal, vip_set, with_infection,
    with_vip,
};
use vstd::prelude::*;

verus! {

/// Two patients who may lie in one room: of one gender, and both under 16
/// or both not.
pub open spec fn may_share(one: Patient, other: Patient) -> bool {
    one.gender == other.gender && (one.age < 16) == (other.age < 16)
}

/// Bed `n`, if occupied, holds a patient who may lie there: a patient under
/// 13 only in the pediatric unit, and a patient with a roommate only if the
/// two may share.
pub open spec fn bed_is_compatible(ward: Map<u16, Bed>, n: u16) -> bool {
    ward[n].state is Occupied ==> {
        &&& occupant(ward, n).age < 13 ==> unit_of(n) == PEDIATRIC_UNIT
        &&& ward[roommate(n)].state is Occupied ==> may_share(
            occupant(ward, n),
            occupant(ward, roommate(n)),
        )
    }
}

/// No room holds two patients who may not share it, and no patient under 13
/// lies outside the pediatric unit.
pub open spec fn rooms_are_compatible(ward: Map<u16, Bed>) -> bool {
    forall|n: u16| ward.contains_key(n) ==> #[trigger] bed_is_compatible(ward, n)
}

/// Bed `n` is blocked exactly if the other bed of the room holds a patient
/// who is infectious or a VIP.
pub open spec fn block_is_justified(ward: Map<u16, Bed>, n: u16) -> bool {
    ward[n].state is Blocked <==> ward[roommate(n)].state is Occupied && occupant(
        ward,
        roommate(n),
    ).needs_isolation()
}

/// Every patient who is infectious or a VIP has the room alone, the other
/// bed blocked, and no other bed is blocked.
pub open spec fn isolation_is_kept(ward: Map<u16, Bed>) -> bool {
    forall|n: u16| ward.contains_key(n) ==> #[trigger] block_is_justified(ward, n)
}

/// The ward holds every bed of the hospital, its rooms are compatible and
/// isolation is kept.
pub open spec fn ward_is_sound(ward: Map<u16, Bed>) -> bool {
    &&& covers_all_beds(ward)
    &&& rooms_are_compatible(ward)
    &&& isolation_is_kept(ward)
}

/// An admission that is in order keeps the rooms compatible.
pub proof fn lemma_admission_keeps_rooms_compatible(
    ward: Map<u16, Bed>,
    patient: Patient,
    n: u16,
)
    requires
        covers_all_beds(ward),
        rooms_are_compatible(ward),
        admission_refusal(ward, patient, n) is None,
    ensures
        covers_all_beds(admitted(ward, patient, n)),
        rooms_are_compatible(admitted(ward, patient, n)),
{
    let after = admitted(ward, patient, n);
    lemma_roommate_in_same_room(n);
    assert forall|k: u16| after.contains_key(k) implies bed_is_compatible(after, k) by {
        lemma_roommate_in_same_room(k);
        assert(bed_is_compatible(ward, k));
    }
}

/// An admission that is in order keeps isolation.
pub proof fn lemma_admission_keeps_isolation(ward: Map<u16, Bed>, patient: Patient, n: u16)
    requires
        covers_all_beds(ward),
        isolation_is_kept(ward),
        admission_refusal(ward, patient, n) is None,
    ensures
        isolation_is_kept(admitted(ward, patient, n)),
{
    let after = admitted(ward, patient, n);
    lemma_roommate_in_same_room(n);
    assert forall|k: u16| after.contains_key(k) implies block_is_justified(after, k) by {
        lemma_roommate_in_same_room(k);
        assert(block_is_justified(ward, k));
        assert(block_is_justified(ward, roommate(k)));
    }
}

/// A patient who leaves a bed leaves the rooms compatible.
pub proof fn lemma_vacating_keeps_rooms_compatible(ward: Map<u16, Bed>, n: u16)
    requires
        covers_all_beds(ward),
        rooms_are_compatible(ward),
        is_valid_bed_number(n),
    ensures
        covers_all_beds(vacated(ward, n)),
        rooms_are_compatible(vacated(ward, n)),
{
    let after = vacated(ward, n);
    lemma_roommate_in_same_room(n);
    assert forall|k: u16| after.contains_key(k) implies bed_is_compatible(after, k) by {
        lemma_roommate_in_same_room(k);
        assert(bed_is_compatible(ward, k));
    }
}

/// A patient who leaves a bed leaves isolation kept.
pub proof fn lemma_vacating_keeps_isolation(ward: Map<u16, Bed>, n: u16)
    requires
        covers_all_beds(ward),
        isolation_is_kept(ward),
        is_valid_bed_number(n),
        ward[n].state is Occupied,
    ensures
        isolation_is_kept(vacated(ward, n)),
{
    let after = vacated(ward, n);
    lemma_roommate_in_same_room(n);
    assert forall|k: u16| after.contains_key(k) implies block_is_justified(after, k) by {
        lemma_roommate_in_same_room(k);
        assert(block_is_justified(ward, k));
        assert(block_is_justified(ward, roommate(k)));
    }
}

/// The empty ward is sound.
pub proof fn lemma_empty_ward_is_sound()
    ensures
        ward_is_sound(empty_ward()),
{
    assert forall|k: u16| empty_ward().contains_key(k) implies bed_is_compatible(empty_ward(), k)
        && block_is_justified(empty_ward(), k) by {
        lemma_roommate_in_same_room(k);
    }
}

/// A discharge keeps the ward sound.
pub proof fn lemma_discharge_keeps_ward_sound(ward: Map<u16, Bed>, record: u32)
    requires
        ward_is_sound(ward),
    ensures
        ward_is_sound(discharged(ward, record)),
{
    if bed_of(ward, record) is Some {
        let n = bed_of(ward, record)->0;
        assert(is_first_bed_of(ward, n, record));
        lemma_vacating_keeps_rooms_compatible(ward, n);
        lemma_vacating_keeps_isolation(ward, n);
    }
}

/// Sending the patient of a bed to another bed keeps the ward sound,
/// whether the other bed admits the patient or not.
pub proof fn lemma_transfer_keeps_ward_sound(ward: Map<u16, Bed>, source: u16, destination: u16)
    requires
        ward_is_sound(ward),
        is_valid_bed_number(source),
        ward[source].state is Occupied,
    ensures
        ward_is_sound(transferred(ward, source, destination)),
{
    let patient = occupant(ward, source);
    let without = vacated(ward, source);
    lemma_roommate_in_same_room(source);
    lemma_vacating_keeps_rooms_compatible(ward, source);
    lemma_vacating_keeps_isolation(ward, source);
    if admission_refusal(without, patient, destination) is None {
        lemma_admission_keeps_rooms_compatible(without, patient, destination);
        lemma_admission_keeps_isolation(without, patient, destination);
    } else {
        let after = admitted(without, patient, source);
        assert(bed_is_compatible(ward, source));
        assert(block_is_justified(ward, source));
        assert(block_is_justified(ward, roommate(source)));
        assert(after =~= ward);
    }
}

/// A move keeps the ward sound, whether it is refused or not.
pub proof fn lemma_move_keeps_ward_sound(ward: Map<u16, Bed>, record: u32, destination: u16)
    requires
        ward_is_sound(ward),
    ensures
        ward_is_sound(moved(ward, record, destination)),
{
    if bed_of(ward, record) is Some {
        let n = bed_of(ward, record)->0;
        assert(is_first_bed_of(ward, n, record));
        lemma_transfer_keeps_ward_sound(ward, n, destination);
    }
}

/// A switch keeps the rooms compatible, whether it is refused or not.
pub proof fn lemma_switch_keeps_rooms_compatible(ward: Map<u16, Bed>, record1: u32, record2: u32)
    requires
        covers_all_beds(ward),
        rooms_are_compatible(ward),
    ensures
        covers_all_beds(switched(ward, record1, record2)),
        rooms_are_compatible(switched(ward, record1, record2)),
{
    if switch_refusal(ward, record1, record2) is None {
        let first = bed_of(ward, record1)->0;
        let second = bed_of(ward, record2)->0;
        assert(is_first_bed_of(ward, first, record1));
        assert(is_first_bed_of(ward, second, record2));
        lemma_roommate_in_same_room(first);
        lemma_roommate_in_same_room(second);
        let after = swapped(ward, first, second);
        assert(bed_is_compatible(ward, first));
        assert(bed_is_compatible(ward, second));
        assert forall|k: u16| after.contains_key(k) implies bed_is_compatible(after, k) by {
            lemma_roommate_in_same_room(k);
            assert(bed_is_compatible(ward, k));
        }
    }
}

/// A switch keeps the ward sound, whether it is refused or not: a patient
/// who needs isolation changes places only with another who does.
pub proof fn lemma_switch_keeps_ward_sound(ward: Map<u16, Bed>, record1: u32, record2: u32)
    requires
        ward_is_sound(ward),
    ensures
        ward_is_sound(switched(ward, record1, record2)),
        switch_refusal(ward, record1, record2) is None ==> occupant(
            ward,
            bed_of(ward, record1)->0,
        ).needs_isolation() == occupant(ward, bed_of(ward, record2)->0).needs_isolation(),
{
    lemma_switch_keeps_rooms_compatible(ward, record1, record2);
    if switch_refusal(ward, record1, record2) is None {
        let first = bed_of(ward, record1)->0;
        let second = bed_of(ward, record2)->0;
        assert(is_first_bed_of(ward, first, record1));
        assert(is_first_bed_of(ward, second, record2));
        lemma_roommate_in_same_room(first);
        lemma_roommate_in_same_room(second);
        let after = swapped(ward, first, second);
        assert(block_is_justified(ward, first));
        assert(block_is_justified(ward, second));
        assert(block_is_justified(ward, roommate(first)));
        assert(block_is_justified(ward, roommate(second)));
        assert forall|k: u16| after.contains_key(k) implies block_is_justified(after, k) by {
            lemma_roommate_in_same_room(k);
            assert(block_is_justified(ward, k));
            assert(block_is_justified(ward, roommate(k)));
        }
    }
}

/// Giving the patient of a bed the room alone keeps the ward sound, where
/// the patient's flags change and nothing else of the patient.
pub proof fn lemma_isolating_keeps_ward_sound(ward: Map<u16, Bed>, n: u16, patient: Patient)
    requires
        ward_is_sound(ward),
        is_valid_bed_number(n),
        ward[n].state is Occupied,
        patient.needs_isolation(),
        patient.age == occupant(ward, n).age,
        patient.gender == occupant(ward, n).gender,
        ward[roommate(n)].state is Occupied ==> first_bed_for(
            ward,
            occupant(ward, roommate(n)),
        ) is Some,
    ensures
        ward_is_sound(isolated(ward, n, patient)),
{
    lemma_roommate_in_same_room(n);
    let other = roommate(n);
    let cleared = roommate_relocated(ward, n);
    if ward[other].state is Occupied {
        let destination = first_bed_for(ward, occupant(ward, other))->0;
        assert(is_first_bed_for(ward, destination, occupant(ward, other)));
        lemma_roommate_can_relocate(ward, n, destination);
        lemma_transfer_keeps_ward_sound(ward, other, destination);
        assert(cleared == transferred(ward, other, destination));
    }
    let after = isolated(ward, n, patient);
    assert(bed_is_compatible(cleared, n));
    assert(block_is_justified(cleared, n));
    assert(block_is_justified(cleared, other));
    assert forall|k: u16| after.contains_key(k) implies bed_is_compatible(after, k)
        && block_is_justified(after, k) by {
        lemma_roommate_in_same_room(k);
        assert(bed_is_compatible(cleared, k));
        assert(block_is_justified(cleared, k));
    }
}

/// Taking a flag off the patient of a bed keeps the ward sound, where
/// nothing else of the patient changes.
pub proof fn lemma_releasing_keeps_ward_sound(ward: Map<u16, Bed>, n: u16, patient: Patient)
    requires
        ward_is_sound(ward),
        is_valid_bed_number(n),
        ward[n].state is Occupied,
        occupant(ward, n).needs_isolation(),
        patient.age == occupant(ward, n).age,
        patient.gender == occupant(ward, n).gender,
    ensures
        ward_is_sound(released(ward, n, patient)),
{
    lemma_roommate_in_same_room(n);
    let after = released(ward, n, patient);
    assert(bed_is_compatible(ward, n));
    assert(block_is_justified(ward, n));
    assert(block_is_justified(ward, roommate(n)));
    assert forall|k: u16| after.contains_key(k) implies bed_is_compatible(after, k)
        && block_is_justified(after, k) by {
        lemma_roommate_in_same_room(k);
        assert(bed_is_compatible(ward, k));
        assert(block_is_justified(ward, k));
    }
}

/// Setting the VIP flag keeps the ward sound, whether it is refused or not.
pub proof fn lemma_vip_flag_keeps_ward_sound(ward: Map<u16, Bed>, record: u32, is_vip: bool)
    requires
        ward_is_sound(ward),
    ensures
        ward_is_sound(vip_set(ward, record, is_vip)),
{
    if bed_of(ward, record) is Some {
        let n = bed_of(ward, record)->0;
        assert(is_first_bed_of(ward, n, record));
        let patient = occupant(ward, n);
        if patient.is_vip != is_vip && vip_refusal(ward, record, is_vip) is None {
            if is_vip {
                lemma_isolating_keeps_ward_sound(ward, n, with_vip(patient, true));
            } else {
                lemma_releasing_keeps_ward_sound(ward, n, with_vip(patient, false));
            }
        }
    }
}

/// Marking a patient as infectious keeps the ward sound, whether it is
/// refused or not.
pub proof fn lemma_marking_keeps_ward_sound(ward: Map<u16, Bed>, record: u32)
    requires
        ward_is_sound(ward),
    ensures
        ward_is_sound(marked_infected(ward, record)),
{
    if bed_of(ward, record) is Some {
        let n = bed_of(ward, record)->0;
        assert(is_first_bed_of(ward, n, record));
        let patient = occupant(ward, n);
        if !patient.is_infected && infection_refusal(ward, record) is None {
            lemma_isolating_keeps_ward_sound(ward, n, with_infection(patient, true));
        }
    }
}

/// Taking the mark of infection off a patient keeps the ward sound.
pub proof fn lemma_unmarking_keeps_ward_sound(ward: Map<u16, Bed>, record: u32)
    requires
        ward_is_sound(ward),
    ensures
        ward_is_sound(unmarked_infected(ward, record)),
{
    if bed_of(ward, record) is Some {
        let n = bed_of(ward, record)->0;
        assert(is_first_bed_of(ward, n, record));
        let patient = occupant(ward, n);
        if patient.is_infected {
            lemma_releasing_keeps_ward_sound(ward, n, with_infection(patient, false));
        }
    }
}

} // verus!
