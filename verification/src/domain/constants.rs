//! The numbering of the beds: units, indices within a unit, and rooms.

use vstd::prelude::*;

verus! {

/// The units of the hospital.
pub const VALID_UNITS: [u16; 4] = [1, 2, 4, 5];

/// Index of the first bed of a unit.
pub const FIRST_BED_INDEX: u16 = 1;

/// Index of the last bed of a unit.
pub const LAST_BED_INDEX: u16 = 38;

/// Number of beds in the hospital: four units of 38 beds.
pub const TOTAL_BEDS: usize = 152;

/// The unit that takes patients under 13.
pub const PEDIATRIC_UNIT: u16 = 5;

/// The lowest bed number of the hospital.
pub const FIRST_BED_NUMBER: u16 = 101;

/// The highest bed number of the hospital.
pub const LAST_BED_NUMBER: u16 = 538;

/// Whether `unit` is one of the hospital's units.
pub open spec fn is_valid_unit(unit: int) -> bool {
    unit == 1 || unit == 2 || unit == 4 || unit == 5
}

/// A bed number is `unit * 100 + index`, with a unit of the hospital and an
/// index from `FIRST_BED_INDEX` to `LAST_BED_INDEX`.
pub open spec fn is_valid_bed_number(number: u16) -> bool {
    &&& is_valid_unit(number as int / 100)
    &&& FIRST_BED_INDEX <= number % 100 <= LAST_BED_INDEX
}

/// The unit that a bed number belongs to.
pub open spec fn unit_of(number: u16) -> int {
    number as int / 100
}

/// The other bed of the room: beds pair up by parity, an odd number with the
/// even number that follows it.
pub open spec fn roommate(number: u16) -> u16
    recommends
        0 < number < u16::MAX,
{
    if number % 2 == 0 {
        (number - 1) as u16
    } else {
        (number + 1) as u16
    }
}

/// Decides whether `number` names a bed of the hospital.
pub fn check_bed_number(number: u16) -> (valid: bool)
    ensures
        valid == is_valid_bed_number(number),
{
    let unit: u16 = number / 100;
    let index: u16 = number % 100;
    (unit == 1 || unit == 2 || unit == 4 || unit == 5) && FIRST_BED_INDEX <= index && index
        <= LAST_BED_INDEX
}

/// How many beds of the hospital have a number below `number`, for a bed
/// number or the number that follows the last one.
pub open spec fn beds_before(number: u16) -> int {
    let unit = number as int / 100;
    let in_lower_units: int = if unit == 1 {
        0
    } else if unit == 2 {
        38
    } else if unit == 4 {
        76
    } else {
        114
    };
    in_lower_units + number % 100 - 1
}

/// The bed number that follows `number` in ascending order, or
/// `LAST_BED_NUMBER + 1` after the last one.
pub fn next_bed_number(number: u16) -> (next: u16)
    requires
        is_valid_bed_number(number),
    ensures
        number < next <= LAST_BED_NUMBER + 1,
        is_valid_bed_number(next) || next == LAST_BED_NUMBER + 1,
        forall|k: u16| number < k < next ==> !is_valid_bed_number(k),
        beds_before(next) == beds_before(number) + 1,
{
    let unit: u16 = number / 100;
    if number % 100 < LAST_BED_INDEX {
        number + 1
    } else if unit == 1 {
        201
    } else if unit == 2 {
        401
    } else if unit == 4 {
        501
    } else {
        LAST_BED_NUMBER + 1
    }
}

/// The bed numbers of the hospital.
pub open spec fn bed_numbers() -> Set<u16> {
    Set::new(|n: u16| is_valid_bed_number(n))
}

/// The bed numbers of the hospital that lie below `limit`.
pub open spec fn bed_numbers_below(limit: int) -> Set<u16> {
    Set::new(|n: u16| is_valid_bed_number(n) && n < limit)
}

/// How many bed numbers of the hospital lie below `limit`: 38 for each unit
/// with a lower number, and of the unit that `limit` falls into the indices
/// below that of `limit`.
pub open spec fn count_below(limit: int) -> int {
    let unit = limit / 100;
    let index = limit % 100;
    let lower_units: int = if unit <= 1 {
        0
    } else if unit <= 2 {
        1
    } else if unit <= 4 {
        2
    } else if unit <= 5 {
        3
    } else {
        4
    };
    let in_unit: int = if !is_valid_unit(unit) || index <= 1 {
        0
    } else if index <= 39 {
        index - 1
    } else {
        38
    };
    38 * lower_units + in_unit
}

/// The bed numbers below a limit are as many as `count_below` says.
pub proof fn lemma_count_below(limit: int)
    requires
        0 <= limit <= LAST_BED_NUMBER + 1,
    ensures
        bed_numbers_below(limit).finite(),
        bed_numbers_below(limit).len() == count_below(limit),
    decreases limit,
{
    if limit == 0 {
        assert(bed_numbers_below(limit) =~= Set::empty());
    } else {
        lemma_count_below(limit - 1);
        let last = (limit - 1) as u16;
        if is_valid_bed_number(last) {
            assert(bed_numbers_below(limit) =~= bed_numbers_below(limit - 1).insert(last));
        } else {
            assert(bed_numbers_below(limit) =~= bed_numbers_below(limit - 1));
        }
    }
}

/// The hospital has `TOTAL_BEDS` beds.
pub proof fn lemma_total_beds()
    ensures
        bed_numbers().finite(),
        bed_numbers().len() == TOTAL_BEDS,
{
    lemma_count_below(LAST_BED_NUMBER + 1);
    assert(bed_numbers() =~= bed_numbers_below(LAST_BED_NUMBER + 1));
}

/// Pairing maps a bed to a bed of the same unit, and twice gives the bed back.
pub proof fn lemma_roommate_in_same_room(number: u16)
    requires
        is_valid_bed_number(number),
    ensures
        is_valid_bed_number(roommate(number)),
        unit_of(roommate(number)) == unit_of(number),
        roommate(number) != number,
        roommate(roommate(number)) == number,
{
}

} // verus!
