use bed_management::domain::bed::{Bed, BedState};
use bed_management::domain::patient::{Gender, Patient};

#[test]
fn test_create_valid_bed() {
    let _bed = Bed::new(101); // unit 1, index 1
}

#[test]
fn test_bed_state_transitions() {
    let mut bed = Bed::new(102);

    // Initially vacant
    assert!(bed.is_available());
    assert!(!bed.is_blocked());

    // Occupy with a dummy patient
    let patient = Patient::new(12345, "Test".into(), 25, Gender::Male, false, false);
    bed.state = BedState::Occupied(patient);
    assert!(!bed.is_available());
    assert!(!bed.is_blocked());

    // Block the bed
    bed.state = BedState::Blocked;
    assert!(!bed.is_available());
    assert!(bed.is_blocked());

    // Make vacant again
    bed.state = BedState::Vacant;
    assert!(bed.is_available());
    assert!(!bed.is_blocked());
}

#[test]
fn test_bed_state_equality() {
    let bed1 = Bed::new(101);
    let bed2 = Bed::new(102);

    // Both start vacant
    assert_eq!(bed1.state, bed2.state);
    assert_eq!(bed1.state, BedState::Vacant);
}

#[test]
fn test_valid_bed_numbers() {
    // Test all valid units with edge cases
    let valid_beds = vec![
        101, // Unit 1, first bed
        138, // Unit 1, last bed
        201, // Unit 2, first bed
        238, // Unit 2, last bed
        401, // Unit 4, first bed
        438, // Unit 4, last bed
        501, // Unit 5, first bed
        538, // Unit 5, last bed
    ];

    for bed_num in valid_beds {
        let bed = Bed::new(bed_num);
        assert!(bed.is_available());
    }
}
