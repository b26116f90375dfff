//! Patients.

use vstd::prelude::*;

verus! {

/// Patient gender.
#[derive(Debug, Clone, Copy, PartialEq, Eq, Structural)]
pub enum Gender {
    Male,
    Female,
}

/// A patient of the hospital, identified by the clinical record number.
#[derive(Debug, PartialEq, Eq)]
pub struct Patient {
    /// Clinical record number (five digits).
    pub clinical_record_number: u32,
    /// Patient name.
    pub name: String,
    /// Patient age in years.
    pub age: u8,
    /// Patient gender.
    pub gender: Gender,
    /// Whether the patient has an infectious disease.
    pub is_infected: bool,
    /// Whether the patient is a VIP.
    pub is_vip: bool,
}

/// Whether `number` has five digits.
pub open spec fn is_valid_record_number(number: u32) -> bool {
    10000 <= number <= 99999
}

/// Decides whether `number` can be a clinical record number.
pub fn check_record_number(number: u32) -> (valid: bool)
    ensures
        valid == is_valid_record_number(number),
{
    10000 <= number && number <= 99999
}

impl Patient {
    /// A patient who is infectious or a VIP keeps the room alone.
    pub open spec fn needs_isolation(self) -> bool {
        self.is_infected || self.is_vip
    }

    /// Creates a patient from a five-digit clinical record number.
    pub fn new(
        clinical_record_number: u32,
        name: String,
        age: u8,
        gender: Gender,
        is_infected: bool,
        is_vip: bool,
    ) -> (patient: Self)
        requires
            is_valid_record_number(clinical_record_number),
        ensures
            patient == (Patient { clinical_record_number, name, age, gender, is_infected, is_vip }),
    {
        Patient { clinical_record_number, name, age, gender, is_infected, is_vip }
    }
}

impl Clone for Patient {
    fn clone(&self) -> (copy: Self)
        ensures
            copy == *self,
    {
        Patient {
            clinical_record_number: self.clinical_record_number,
            name: self.name.clone(),
            age: self.age,
            gender: self.gender,
            is_infected: self.is_infected,
            is_vip: self.is_vip,
        }
    }
}

} // verus!
