//! Construction of the record kinds and their defaults.

use heatmap_backend::records::AphisReport;
use heatmap_backend::records::InspectionReport;
use heatmap_backend::records::Location;

#[test]
fn test_location_default_creation() {
    let location = Location::default();
    assert_eq!(location.establishment_id, "");
    assert_eq!(location.establishment_name, "");
    assert_eq!(location.city, "");
    assert_eq!(location.state, "");
}

#[test]
fn test_location_creation_with_values() {
    let mut location = Location::default();
    location.establishment_id = "12345".to_string();
    location.establishment_name = "Test Facility".to_string();
    location.city = "Test City".to_string();
    location.state = "TS".to_string();

    assert_eq!(location.establishment_id, "12345");
    assert_eq!(location.establishment_name, "Test Facility");
    assert_eq!(location.city, "Test City");
    assert_eq!(location.state, "TS");
}

#[test]
fn test_location_coordinates() {
    let mut location = Location::default();
    location.latitude = "40.7128".to_string();
    location.longitude = "-74.0060".to_string();

    assert_eq!(location.latitude, "40.7128");
    assert_eq!(location.longitude, "-74.0060");
}

#[test]
fn test_aphis_report_creation() {
    let report = AphisReport {
        account_name: "Test Lab".to_string(),
        customer_number_x: "123".to_string(),
        certificate_number: "ABC123".to_string(),
        registration_type: "Research".to_string(),
        certificate_status: "Active".to_string(),
        status_date: "2024-01-01".to_string(),
        address_line_1: "123 Test St".to_string(),
        address_line_2: "Suite 100".to_string(),
        city_state_zip: "Test City, TS 12345".to_string(),
        county: "Test County".to_string(),
        customer_number_y: "456".to_string(),
        year: "2024".to_string(),
        dogs: "10".to_string(),
        cats: "5".to_string(),
        guinea_pigs: "20".to_string(),
        hamsters: "15".to_string(),
        rabbits: "8".to_string(),
        non_human_primates: "3".to_string(),
        sheep: "2".to_string(),
        pigs: "1".to_string(),
        other_farm_animals: "0".to_string(),
        all_other_animals: "0".to_string(),
        latitude: "40.0".to_string(),
        longitude: "-75.0".to_string(),
        animals_tested: None,
    };

    assert_eq!(report.account_name, "Test Lab");
    assert_eq!(report.certificate_number, "ABC123");
    assert_eq!(report.dogs, "10");
}

#[test]
fn test_inspection_report_creation() {
    let report = InspectionReport {
        account_name: "Test Facility".to_string(),
        customer_number: "123".to_string(),
        certificate_number: "ABC123".to_string(),
        license_type: "Type A".to_string(),
        certificate_status: "Active".to_string(),
        status_date: "2024-01-01".to_string(),
        address_line_1: "123 Test St".to_string(),
        address_line_2: "Suite 100".to_string(),
        city_state_zip: "Test City, TS 12345".to_string(),
        county: "Test County".to_string(),
        city: "Test City".to_string(),
        state: "TS".to_string(),
        zip: "12345".to_string(),
        latitude: "40.0".to_string(),
        longitude: "-75.0".to_string(),
    };

    assert_eq!(report.account_name, "Test Facility");
    assert_eq!(report.certificate_number, "ABC123");
    assert_eq!(report.city, "Test City");
    assert_eq!(report.latitude, "40.0");
}
