use bed_management::domain::constants::TOTAL_BEDS;
use bed_management::domain::hospital::Hospital;

#[test]
fn test_hospital_creates_all_beds_with_constants() {
    let h = Hospital::new();
    assert_eq!(h.beds.len(), TOTAL_BEDS);
    // Spot checks:
    assert!(h.beds.contains_key(&201));
    assert!(h.beds.contains_key(&238));
    assert!(h.beds.contains_key(&505));
    assert!(h.beds.contains_key(&506));
}
