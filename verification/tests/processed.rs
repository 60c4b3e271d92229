//! The processed-animals derivation, exercised over the flag table.

use heatmap_backend::records::Location;
use heatmap_backend::summary::get_processed_animals;

fn create_default_location() -> Location {
    Location::default()
}

#[test]
fn test_empty_location_returns_na() {
    let location = create_default_location();
    let result = get_processed_animals(&location);
    assert_eq!(result, "N/A");
}

#[test]
fn test_beef_processing_detection() {
    let mut location = create_default_location();
    location.beef_processing = "Yes".to_string();
    let result = get_processed_animals(&location);
    assert!(result.contains("Beef"));
}

#[test]
fn test_pork_processing_detection() {
    let mut location = create_default_location();
    location.pork_processing = "Yes".to_string();
    let result = get_processed_animals(&location);
    assert!(result.contains("Pork"));
}

#[test]
fn test_chicken_processing_detection() {
    let mut location = create_default_location();
    location.chicken_processing = "Yes".to_string();
    let result = get_processed_animals(&location);
    assert!(result.contains("Chicken"));
}

#[test]
fn test_turkey_processing_detection() {
    let mut location = create_default_location();
    location.turkey_processing = "Yes".to_string();
    let result = get_processed_animals(&location);
    assert!(result.contains("Turkey"));
}

#[test]
fn test_duck_processing_detection() {
    let mut location = create_default_location();
    location.duck_processing = "Yes".to_string();
    let result = get_processed_animals(&location);
    assert!(result.contains("Duck"));
}

#[test]
fn test_rabbit_processing_detection() {
    let mut location = create_default_location();
    location.rabbit_processing = "Yes".to_string();
    let result = get_processed_animals(&location);
    assert!(result.contains("Rabbit"));
}

#[test]
fn test_deer_processing_detection() {
    let mut location = create_default_location();
    location.deer_processing = "Yes".to_string();
    let result = get_processed_animals(&location);
    assert!(result.contains("Deer"));
}

#[test]
fn test_goat_processing_detection() {
    let mut location = create_default_location();
    location.goat_processing = "Yes".to_string();
    let result = get_processed_animals(&location);
    assert!(result.contains("Goat"));
}

#[test]
fn test_sheep_processing_detection() {
    let mut location = create_default_location();
    location.sheep_processing = "Yes".to_string();
    let result = get_processed_animals(&location);
    assert!(result.contains("Sheep"));
}

#[test]
fn test_exotic_poultry_processing() {
    let mut location = create_default_location();
    location.exotic_poultry_processing = "Yes".to_string();
    let result = get_processed_animals(&location);
    assert!(result.contains("Exotic Poultry"));
}

#[test]
fn test_ratite_processing() {
    let mut location = create_default_location();
    location.ratite_processing = "Yes".to_string();
    let result = get_processed_animals(&location);
    assert!(result.contains("Ratite (Ostrich/Emu)"));
}

#[test]
fn test_multiple_processed_animals() {
    let mut location = create_default_location();
    location.beef_processing = "Yes".to_string();
    location.pork_processing = "Yes".to_string();
    location.chicken_processing = "Yes".to_string();
    let result = get_processed_animals(&location);
    assert!(result.contains("Beef"));
    assert!(result.contains("Pork"));
    assert!(result.contains("Chicken"));
}

#[test]
fn test_no_processing_returns_na() {
    let mut location = create_default_location();
    location.beef_processing = "No".to_string();
    location.pork_processing = "No".to_string();
    let result = get_processed_animals(&location);
    assert_eq!(result, "N/A");
}

#[test]
fn test_preauthored_processed_list_wins() {
    let mut location = create_default_location();
    location.animals_processed_list = "Everything".to_string();
    location.beef_processing = "Yes".to_string();
    let result = get_processed_animals(&location);
    assert_eq!(result, "Everything");
}

#[test]
fn test_flags_joined_in_table_order() {
    let mut location = create_default_location();
    location.turkey_processing = "Yes".to_string();
    location.beef_processing = "Yes".to_string();
    let result = get_processed_animals(&location);
    assert_eq!(result, "Beef, Turkey");
}
