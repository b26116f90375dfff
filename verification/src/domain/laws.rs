//! What holds of the ward's rules whatever the ward and the patients are.

use crate::domain::bed::Bed;
use crate::domain::constants::{
    is_valid_bed_number, is_valid_unit, lemma_roommate_in_same_room, roommate, unit_of,
    FIRST_BED_INDEX, LAST_BED_INDEX, PEDIATRIC_UNIT,
};
use crate::domain::invariants::{block_is_justified, ward_is_sound};
use crate::domain::patient::Patient;
use crate::domain::refusal::Refusal;
use crate::domain::rules::{
    admission_refusal, admitted, bed_of, blocked_bed, covers_all_beds, empty_ward,
    first_bed_for, holds_record, infection_refusal, is_first_bed_of, lemma_bed_of_first,
    lemma_roommate_can_relocate, marked_infected, move_refusal, moved, occupant, occupied_bed,
    switch_refusal, switched, unmarked_infected, vacant_bed, vip_refusal, vip_set, with_vip,
};
use vstd::prelude::*;

verus! {

/// Every unit of the hospital has a bed for every index from the first to the
/// last, numbered `unit * 100 + index`, and in the empty ward it is vacant.
pub proof fn lemma_empty_ward_has_every_bed(unit: u16, index: u16)
    requires
        is_valid_unit(unit as int),
        FIRST_BED_INDEX <= index <= LAST_BED_INDEX,
    ensures
        is_valid_bed_number((unit * 100 + index) as u16),
        empty_ward().contains_key((unit * 100 + index) as u16),
        empty_ward()[(unit * 100 + index) as u16] == vacant_bed(),
        covers_all_beds(empty_ward()),
{
}

/// Pairing is an involution: the roommate of the roommate of a bed is the
/// bed itself.
pub proof fn lemma_roommate_is_involution(number: u16)
    requires
        0 < number < u16::MAX,
    ensures
        roommate(roommate(number)) == number,
{
}

/// After an admission that is in order the bed holds the patient, and the
/// other bed of the room is blocked if it was vacant and the patient is
/// infectious or a VIP.
pub proof fn lemma_admission_places_patient(ward: Map<u16, Bed>, patient: Patient, n: u16)
    requires
        covers_all_beds(ward),
        admission_refusal(ward, patient, n) is None,
    ensures
        admitted(ward, patient, n)[n] == occupied_bed(patient),
        patient.needs_isolation() && ward[roommate(n)].state is Vacant ==> admitted(
            ward,
            patient,
            n,
        )[roommate(n)] == blocked_bed(),
{
    lemma_roommate_in_same_room(n);
}

/// A patient under 13 is refused by every bed outside the pediatric unit. In
/// the pediatric unit the patient's age under 13 is no ground for refusal, and
/// a vacant bed in a room whose other bed is vacant admits the patient.
pub proof fn lemma_under_thirteen_only_in_pediatric_unit(
    ward: Map<u16, Bed>,
    patient: Patient,
    n: u16,
)
    requires
        patient.age < 13,
    ensures
        unit_of(n) != PEDIATRIC_UNIT ==> admission_refusal(ward, patient, n) is Some,
        unit_of(n) == PEDIATRIC_UNIT ==> admission_refusal(ward, patient, n) != Some(
            Refusal::UnderThirteenOutsidePediatricUnit,
        ),
        unit_of(n) == PEDIATRIC_UNIT && ward.contains_key(n) && ward[n].state is Vacant
            && ward[roommate(n)].state is Vacant ==> admission_refusal(ward, patient, n)
            is None,
{
}

/// A bed whose roommate is a patient of another gender refuses the patient.
pub proof fn lemma_mixed_gender_room_refused(ward: Map<u16, Bed>, patient: Patient, n: u16)
    requires
        ward[roommate(n)].state is Occupied,
        occupant(ward, roommate(n)).gender != patient.gender,
    ensures
        admission_refusal(ward, patient, n) is Some,
{
}

/// A move that the destination refuses leaves the patient in the bed that
/// the patient had, and every bed but the other one of that room as it was.
pub proof fn lemma_refused_move_keeps_patient(
    ward: Map<u16, Bed>,
    record: u32,
    destination: u16,
    k: u16,
)
    requires
        covers_all_beds(ward),
        bed_of(ward, record) is Some,
        move_refusal(ward, record, destination) is Some,
    ensures
        moved(ward, record, destination)[bed_of(ward, record)->0] == ward[bed_of(
            ward,
            record,
        )->0],
        k != roommate(bed_of(ward, record)->0) ==> moved(ward, record, destination)[k]
            == ward[k],
        moved(ward, record, destination).dom() == ward.dom(),
{
    let source = bed_of(ward, record)->0;
    assert(is_first_bed_of(ward, source, record));
    lemma_roommate_in_same_room(source);
    assert(moved(ward, record, destination).dom() =~= ward.dom());
}

/// A move that the destination refuses leaves the whole ward as it was,
/// the other bed of the patient's room included, unless that bed was vacant
/// beside a patient who is infectious or a VIP: such a bed is then blocked.
pub proof fn lemma_refused_move_restores_ward(ward: Map<u16, Bed>, record: u32, destination: u16)
    requires
        covers_all_beds(ward),
        bed_of(ward, record) is Some,
        move_refusal(ward, record, destination) is Some,
    ensures
        ({
            let source = bed_of(ward, record)->0;
            if occupant(ward, source).needs_isolation() && ward[roommate(source)].state
                is Vacant {
                moved(ward, record, destination) == ward.insert(roommate(source), blocked_bed())
            } else {
                moved(ward, record, destination) == ward
            }
        }),
{
    let source = bed_of(ward, record)->0;
    assert(is_first_bed_of(ward, source, record));
    lemma_roommate_in_same_room(source);
    if occupant(ward, source).needs_isolation() && ward[roommate(source)].state is Vacant {
        assert(moved(ward, record, destination) =~= ward.insert(
            roommate(source),
            blocked_bed(),
        ));
    } else {
        assert(moved(ward, record, destination) =~= ward);
    }
}

/// In a sound ward a move that is refused leaves the whole ward as it was.
pub proof fn lemma_refused_move_restores_sound_ward(
    ward: Map<u16, Bed>,
    record: u32,
    destination: u16,
)
    requires
        ward_is_sound(ward),
        move_refusal(ward, record, destination) is Some,
    ensures
        moved(ward, record, destination) == ward,
{
    if bed_of(ward, record) is Some {
        let source = bed_of(ward, record)->0;
        assert(is_first_bed_of(ward, source, record));
        lemma_roommate_in_same_room(source);
        assert(block_is_justified(ward, roommate(source)));
        lemma_refused_move_restores_ward(ward, record, destination);
    }
}

/// A switch changes the places of the two patients and nothing else, or it
/// changes nothing at all.
pub proof fn lemma_switch_is_all_or_nothing(ward: Map<u16, Bed>, record1: u32, record2: u32)
    requires
        covers_all_beds(ward),
    ensures
        switch_refusal(ward, record1, record2) is Some ==> switched(ward, record1, record2)
            == ward,
        switch_refusal(ward, record1, record2) is None ==> ({
            let first = bed_of(ward, record1)->0;
            let second = bed_of(ward, record2)->0;
            let after = switched(ward, record1, record2);
            &&& after[first] == ward[second]
            &&& after[second] == ward[first]
            &&& forall|k: u16| k != first && k != second ==> after[k] == ward[k]
            &&& after.dom() == ward.dom()
        }),
{
    if switch_refusal(ward, record1, record2) is None {
        let first = bed_of(ward, record1)->0;
        let second = bed_of(ward, record2)->0;
        assert(is_first_bed_of(ward, first, record1));
        assert(is_first_bed_of(ward, second, record2));
        assert(switched(ward, record1, record2).dom() =~= ward.dom());
    }
}

/// A patient who becomes a VIP beside a roommate has the roommate sent to
/// the lowest-numbered bed that admits the roommate, and the bed that the
/// roommate left blocked; where no bed admits the roommate, the call is refused
/// and the ward stays as it was.
pub proof fn lemma_vip_relocates_roommate(ward: Map<u16, Bed>, record: u32)
    requires
        covers_all_beds(ward),
        bed_of(ward, record) is Some,
        !occupant(ward, bed_of(ward, record)->0).is_vip,
        ward[roommate(bed_of(ward, record)->0)].state is Occupied,
    ensures
        ({
            let n = bed_of(ward, record)->0;
            let leaving = occupant(ward, roommate(n));
            let after = vip_set(ward, record, true);
            match first_bed_for(ward, leaving) {
                None => {
                    &&& vip_refusal(ward, record, true) == Some(
                        Refusal::NoBedToRelocateRoommate,
                    )
                    &&& after == ward
                },
                Some(destination) => {
                    &&& vip_refusal(ward, record, true) is None
                    &&& admission_refusal(ward, leaving, destination) is None
                    &&& forall|k: u16|
                        k < destination ==> admission_refusal(ward, leaving, k) is Some
                    &&& after[destination] == occupied_bed(leaving)
                    &&& after[roommate(n)] == blocked_bed()
                    &&& after[n] == occupied_bed(with_vip(occupant(ward, n), true))
                },
            }
        }),
{
    let n = bed_of(ward, record)->0;
    assert(is_first_bed_of(ward, n, record));
    lemma_roommate_in_same_room(n);
    let leaving = occupant(ward, roommate(n));
    if first_bed_for(ward, leaving) is Some {
        let destination = first_bed_for(ward, leaving)->0;
        lemma_roommate_can_relocate(ward, n, destination);
        lemma_roommate_in_same_room(destination);
    }
}

/// Marking a patient who is no VIP as infectious and taking the mark off
/// again leaves the other bed of the room in the state that it had. This is
/// stated for a bed that was not blocked before, and not for a roommate who
/// had to leave the room at the marking.
pub proof fn lemma_mark_then_unmark_restores_roommate_bed(ward: Map<u16, Bed>, record: u32)
    requires
        covers_all_beds(ward),
        bed_of(ward, record) is Some,
        !occupant(ward, bed_of(ward, record)->0).is_vip,
        !(ward[roommate(bed_of(ward, record)->0)].state is Blocked),
        !(ward[roommate(bed_of(ward, record)->0)].state is Occupied && !occupant(
            ward,
            bed_of(ward, record)->0,
        ).is_infected && infection_refusal(ward, record) is None),
    ensures
        ({
            let other = roommate(bed_of(ward, record)->0);
            let after = unmarked_infected(marked_infected(ward, record), record);
            after[other] == ward[other]
        }),
{
    let n = bed_of(ward, record)->0;
    assert(is_first_bed_of(ward, n, record));
    lemma_roommate_in_same_room(n);
    let marked = marked_infected(ward, record);
    if marked != ward {
        assert forall|k: u16| k < n implies !holds_record(marked, k, record) by {
            assert(!holds_record(ward, k, record));
        }
        lemma_bed_of_first(marked, n, record);
    }
}

/// In a sound ward, marking a patient who is neither a VIP nor infectious and
/// taking the mark off again leaves the whole ward as it was, unless a
/// roommate had to leave the room at the marking.
pub proof fn lemma_mark_then_unmark_restores_sound_ward(ward: Map<u16, Bed>, record: u32)
    requires
        ward_is_sound(ward),
        bed_of(ward, record) is Some,
        !occupant(ward, bed_of(ward, record)->0).needs_isolation(),
        !(ward[roommate(bed_of(ward, record)->0)].state is Occupied && infection_refusal(
            ward,
            record,
        ) is None),
    ensures
        unmarked_infected(marked_infected(ward, record), record) == ward,
{
    let n = bed_of(ward, record)->0;
    assert(is_first_bed_of(ward, n, record));
    lemma_roommate_in_same_room(n);
    assert(block_is_justified(ward, roommate(n)));
    let marked = marked_infected(ward, record);
    if marked != ward {
        assert forall|k: u16| k < n implies !holds_record(marked, k, record) by {
            assert(!holds_record(ward, k, record));
        }
        lemma_bed_of_first(marked, n, record);
        assert(unmarked_infected(marked, record) =~= ward);
    }
}

} // verus!
