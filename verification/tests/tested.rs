//! The tested-animals derivation, exercised over the count table.

use heatmap_backend::records::AphisReport;
use heatmap_backend::summary::get_tested_animals;

#[test]
fn test_all_zero_animals_returns_unknown() {
    let report = AphisReport {
        account_name: String::new(),
        customer_number_x: String::new(),
        certificate_number: String::new(),
        registration_type: String::new(),
        certificate_status: String::new(),
        status_date: String::new(),
        address_line_1: String::new(),
        address_line_2: String::new(),
        city_state_zip: String::new(),
        county: String::new(),
        customer_number_y: String::new(),
        year: String::new(),
        dogs: "0".to_string(),
        cats: "0".to_string(),
        guinea_pigs: "0".to_string(),
        hamsters: "0".to_string(),
        rabbits: "0".to_string(),
        non_human_primates: "0".to_string(),
        sheep: "0".to_string(),
        pigs: "0".to_string(),
        other_farm_animals: "0".to_string(),
        all_other_animals: "0".to_string(),
        latitude: "0".to_string(),
        longitude: "0".to_string(),
        animals_tested: None,
    };
    let result = get_tested_animals(&report);
    assert_eq!(result, "Unknown");
}

#[test]
fn test_single_dog_count() {
    let report = AphisReport {
        account_name: String::new(),
        customer_number_x: String::new(),
        certificate_number: String::new(),
        registration_type: String::new(),
        certificate_status: String::new(),
        status_date: String::new(),
        address_line_1: String::new(),
        address_line_2: String::new(),
        city_state_zip: String::new(),
        county: String::new(),
        customer_number_y: String::new(),
        year: String::new(),
        dogs: "5".to_string(),
        cats: "0".to_string(),
        guinea_pigs: "0".to_string(),
        hamsters: "0".to_string(),
        rabbits: "0".to_string(),
        non_human_primates: "0".to_string(),
        sheep: "0".to_string(),
        pigs: "0".to_string(),
        other_farm_animals: "0".to_string(),
        all_other_animals: "0".to_string(),
        latitude: "0".to_string(),
        longitude: "0".to_string(),
        animals_tested: None,
    };
    let result = get_tested_animals(&report);
    assert!(result.contains("5 Dogs"));
}

#[test]
fn test_multiple_animal_types() {
    let report = AphisReport {
        account_name: String::new(),
        customer_number_x: String::new(),
        certificate_number: String::new(),
        registration_type: String::new(),
        certificate_status: String::new(),
        status_date: String::new(),
        address_line_1: String::new(),
        address_line_2: String::new(),
        city_state_zip: String::new(),
        county: String::new(),
        customer_number_y: String::new(),
        year: String::new(),
        dogs: "10".to_string(),
        cats: "15".to_string(),
        guinea_pigs: "20".to_string(),
        hamsters: "0".to_string(),
        rabbits: "0".to_string(),
        non_human_primates: "0".to_string(),
        sheep: "0".to_string(),
        pigs: "0".to_string(),
        other_farm_animals: "0".to_string(),
        all_other_animals: "0".to_string(),
        latitude: "0".to_string(),
        longitude: "0".to_string(),
        animals_tested: None,
    };
    let result = get_tested_animals(&report);
    assert!(result.contains("10 Dogs"));
    assert!(result.contains("15 Cats"));
    assert!(result.contains("20 Guinea Pigs"));
}

#[test]
fn test_primate_testing_detection() {
    let report = AphisReport {
        account_name: String::new(),
        customer_number_x: String::new(),
        certificate_number: String::new(),
        registration_type: String::new(),
        certificate_status: String::new(),
        status_date: String::new(),
        address_line_1: String::new(),
        address_line_2: String::new(),
        city_state_zip: String::new(),
        county: String::new(),
        customer_number_y: String::new(),
        year: String::new(),
        dogs: "0".to_string(),
        cats: "0".to_string(),
        guinea_pigs: "0".to_string(),
        hamsters: "0".to_string(),
        rabbits: "0".to_string(),
        non_human_primates: "3".to_string(),
        sheep: "0".to_string(),
        pigs: "0".to_string(),
        other_farm_animals: "0".to_string(),
        all_other_animals: "0".to_string(),
        latitude: "0".to_string(),
        longitude: "0".to_string(),
        animals_tested: None,
    };
    let result = get_tested_animals(&report);
    assert!(result.contains("3 Non-Human Primates"));
}

#[test]
fn test_comma_separated_output() {
    let report = AphisReport {
        account_name: String::new(),
        customer_number_x: String::new(),
        certificate_number: String::new(),
        registration_type: String::new(),
        certificate_status: String::new(),
        status_date: String::new(),
        address_line_1: String::new(),
        address_line_2: String::new(),
        city_state_zip: String::new(),
        county: String::new(),
        customer_number_y: String::new(),
        year: String::new(),
        dogs: "1".to_string(),
        cats: "2".to_string(),
        guinea_pigs: "0".to_string(),
        hamsters: "0".to_string(),
        rabbits: "0".to_string(),
        non_human_primates: "0".to_string(),
        sheep: "0".to_string(),
        pigs: "0".to_string(),
        other_farm_animals: "0".to_string(),
        all_other_animals: "0".to_string(),
        latitude: "0".to_string(),
        longitude: "0".to_string(),
        animals_tested: None,
    };
    let result = get_tested_animals(&report);
    assert!(result.contains(", "));
}

#[test]
fn test_invalid_number_format_ignored() {
    let report = AphisReport {
        account_name: String::new(),
        customer_number_x: String::new(),
        certificate_number: String::new(),
        registration_type: String::new(),
        certificate_status: String::new(),
        status_date: String::new(),
        address_line_1: String::new(),
        address_line_2: String::new(),
        city_state_zip: String::new(),
        county: String::new(),
        customer_number_y: String::new(),
        year: String::new(),
        dogs: "invalid".to_string(),
        cats: "0".to_string(),
        guinea_pigs: "0".to_string(),
        hamsters: "0".to_string(),
        rabbits: "0".to_string(),
        non_human_primates: "0".to_string(),
        sheep: "0".to_string(),
        pigs: "0".to_string(),
        other_farm_animals: "0".to_string(),
        all_other_animals: "0".to_string(),
        latitude: "0".to_string(),
        longitude: "0".to_string(),
        animals_tested: None,
    };
    let result = get_tested_animals(&report);
    assert_eq!(result, "Unknown");
}

#[test]
fn test_float_counts_converted_to_integer() {
    let report = AphisReport {
        account_name: String::new(),
        customer_number_x: String::new(),
        certificate_number: String::new(),
        registration_type: String::new(),
        certificate_status: String::new(),
        status_date: String::new(),
        address_line_1: String::new(),
        address_line_2: String::new(),
        city_state_zip: String::new(),
        county: String::new(),
        customer_number_y: String::new(),
        year: String::new(),
        dogs: "5.9".to_string(),
        cats: "0".to_string(),
        guinea_pigs: "0".to_string(),
        hamsters: "0".to_string(),
        rabbits: "0".to_string(),
        non_human_primates: "0".to_string(),
        sheep: "0".to_string(),
        pigs: "0".to_string(),
        other_farm_animals: "0".to_string(),
        all_other_animals: "0".to_string(),
        latitude: "0".to_string(),
        longitude: "0".to_string(),
        animals_tested: None,
    };
    let result = get_tested_animals(&report);
    assert!(result.contains("5 Dogs"));
}

#[test]
fn test_all_animal_types_maximum_counts() {
    let report = AphisReport {
        account_name: String::new(),
        customer_number_x: String::new(),
        certificate_number: String::new(),
        registration_type: String::new(),
        certificate_status: String::new(),
        status_date: String::new(),
        address_line_1: String::new(),
        address_line_2: String::new(),
        city_state_zip: String::new(),
        county: String::new(),
        customer_number_y: String::new(),
        year: String::new(),
        dogs: "100".to_string(),
        cats: "200".to_string(),
        guinea_pigs: "300".to_string(),
        hamsters: "400".to_string(),
        rabbits: "500".to_string(),
        non_human_primates: "600".to_string(),
        sheep: "700".to_string(),
        pigs: "800".to_string(),
        other_farm_animals: "900".to_string(),
        all_other_animals: "1000".to_string(),
        latitude: "0".to_string(),
        longitude: "0".to_string(),
        animals_tested: None,
    };
    let result = get_tested_animals(&report);
    assert!(result.contains("100 Dogs"));
    assert!(result.contains("200 Cats"));
    assert!(result.contains("300 Guinea Pigs"));
    assert!(result.contains("400 Hamsters"));
    assert!(result.contains("500 Rabbits"));
    assert!(result.contains("600 Non-Human Primates"));
    assert!(result.contains("700 Sheep"));
    assert!(result.contains("800 Pigs"));
    assert!(result.contains("900 Other Farm Animals"));
    assert!(result.contains("1000 All Other Animals"));
}

#[test]
fn test_fractional_count_below_one_shows_zero() {
    let report = AphisReport {
        account_name: String::new(),
        customer_number_x: String::new(),
        certificate_number: String::new(),
        registration_type: String::new(),
        certificate_status: String::new(),
        status_date: String::new(),
        address_line_1: String::new(),
        address_line_2: String::new(),
        city_state_zip: String::new(),
        county: String::new(),
        customer_number_y: String::new(),
        year: String::new(),
        dogs: "0.5".to_string(),
        cats: "0".to_string(),
        guinea_pigs: "0".to_string(),
        hamsters: "0".to_string(),
        rabbits: "0".to_string(),
        non_human_primates: "0".to_string(),
        sheep: "0".to_string(),
        pigs: "0".to_string(),
        other_farm_animals: "0".to_string(),
        all_other_animals: "0".to_string(),
        latitude: "0".to_string(),
        longitude: "0".to_string(),
        animals_tested: None,
    };
    let result = get_tested_animals(&report);
    assert!(result.contains("0 Dogs"));
}

#[test]
fn test_negative_count_skipped() {
    let report = AphisReport {
        account_name: String::new(),
        customer_number_x: String::new(),
        certificate_number: String::new(),
        registration_type: String::new(),
        certificate_status: String::new(),
        status_date: String::new(),
        address_line_1: String::new(),
        address_line_2: String::new(),
        city_state_zip: String::new(),
        county: String::new(),
        customer_number_y: String::new(),
        year: String::new(),
        dogs: "-4".to_string(),
        cats: "0".to_string(),
        guinea_pigs: "0".to_string(),
        hamsters: "0".to_string(),
        rabbits: "0".to_string(),
        non_human_primates: "0".to_string(),
        sheep: "0".to_string(),
        pigs: "0".to_string(),
        other_farm_animals: "0".to_string(),
        all_other_animals: "0".to_string(),
        latitude: "0".to_string(),
        longitude: "0".to_string(),
        animals_tested: None,
    };
    let result = get_tested_animals(&report);
    assert_eq!(result, "Unknown");
}

#[test]
fn test_huge_count_saturates() {
    let report = AphisReport {
        account_name: String::new(),
        customer_number_x: String::new(),
        certificate_number: String::new(),
        registration_type: String::new(),
        certificate_status: String::new(),
        status_date: String::new(),
        address_line_1: String::new(),
        address_line_2: String::new(),
        city_state_zip: String::new(),
        county: String::new(),
        customer_number_y: String::new(),
        year: String::new(),
        dogs: "9999999999".to_string(),
        cats: "0".to_string(),
        guinea_pigs: "0".to_string(),
        hamsters: "0".to_string(),
        rabbits: "0".to_string(),
        non_human_primates: "0".to_string(),
        sheep: "0".to_string(),
        pigs: "0".to_string(),
        other_farm_animals: "0".to_string(),
        all_other_animals: "0".to_string(),
        latitude: "0".to_string(),
        longitude: "0".to_string(),
        animals_tested: None,
    };
    let result = get_tested_animals(&report);
    assert!(result.contains("2147483647 Dogs"));
}

#[test]
fn test_entries_joined_in_field_order() {
    let report = AphisReport {
        account_name: String::new(),
        customer_number_x: String::new(),
        certificate_number: String::new(),
        registration_type: String::new(),
        certificate_status: String::new(),
        status_date: String::new(),
        address_line_1: String::new(),
        address_line_2: String::new(),
        city_state_zip: String::new(),
        county: String::new(),
        customer_number_y: String::new(),
        year: String::new(),
        dogs: "1".to_string(),
        cats: "2".to_string(),
        guinea_pigs: "0".to_string(),
        hamsters: "0".to_string(),
        rabbits: "0".to_string(),
        non_human_primates: "0".to_string(),
        sheep: "0".to_string(),
        pigs: "0".to_string(),
        other_farm_animals: "0".to_string(),
        all_other_animals: "0".to_string(),
        latitude: "0".to_string(),
        longitude: "0".to_string(),
        animals_tested: None,
    };
    let result = get_tested_animals(&report);
    assert_eq!(result, "1 Dogs, 2 Cats");
}
