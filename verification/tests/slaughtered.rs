//! The slaughtered-animals derivation, exercised over the flag table.

use heatmap_backend::records::Location;
use heatmap_backend::summary::get_slaughtered_animals;

fn create_default_location() -> Location {
    Location::default()
}

#[test]
fn test_empty_location_returns_empty_string() {
    let location = create_default_location();
    let result = get_slaughtered_animals(&location);
    assert_eq!(result, "");
}

#[test]
fn test_cattle_slaughter_detection() {
    let mut location = create_default_location();
    location.beef_cow_slaughter = "Yes".to_string();
    let result = get_slaughtered_animals(&location);
    assert!(result.contains("Cattle (Cows, Bulls)"));
}

#[test]
fn test_steer_slaughter_detection() {
    let mut location = create_default_location();
    location.steer_slaughter = "Yes".to_string();
    let result = get_slaughtered_animals(&location);
    assert!(result.contains("Cattle (Cows, Bulls)"));
}

#[test]
fn test_veal_calf_slaughter_detection() {
    let mut location = create_default_location();
    location.heavy_calf_slaughter = "Yes".to_string();
    let result = get_slaughtered_animals(&location);
    assert!(result.contains("Calves (Veal)"));
}

#[test]
fn test_swine_slaughter_detection() {
    let mut location = create_default_location();
    location.market_swine_slaughter = "Yes".to_string();
    let result = get_slaughtered_animals(&location);
    assert!(result.contains("Pigs"));
}

#[test]
fn test_poultry_slaughter_detection() {
    let mut location = create_default_location();
    location.young_chicken_slaughter = "Yes".to_string();
    let result = get_slaughtered_animals(&location);
    assert!(result.contains("Chickens"));
}

#[test]
fn test_turkey_slaughter_detection() {
    let mut location = create_default_location();
    location.young_turkey_slaughter = "Yes".to_string();
    let result = get_slaughtered_animals(&location);
    assert!(result.contains("Turkeys"));
}

#[test]
fn test_sheep_and_lamb_slaughter_detection() {
    let mut location = create_default_location();
    location.sheep_slaughter = "Yes".to_string();
    let result = get_slaughtered_animals(&location);
    assert!(result.contains("Sheep & Lambs"));
}

#[test]
fn test_rabbit_slaughter_detection() {
    let mut location = create_default_location();
    location.rabbit_slaughter = "Yes".to_string();
    let result = get_slaughtered_animals(&location);
    assert!(result.contains("Rabbits"));
}

#[test]
fn test_duck_slaughter_detection() {
    let mut location = create_default_location();
    location.duck_slaughter = "Yes".to_string();
    let result = get_slaughtered_animals(&location);
    assert!(result.contains("Ducks"));
}

#[test]
fn test_goose_slaughter_detection() {
    let mut location = create_default_location();
    location.goose_slaughter = "Yes".to_string();
    let result = get_slaughtered_animals(&location);
    assert!(result.contains("Geese"));
}

#[test]
fn test_multiple_animals_comma_separated() {
    let mut location = create_default_location();
    location.beef_cow_slaughter = "Yes".to_string();
    location.market_swine_slaughter = "Yes".to_string();
    location.young_chicken_slaughter = "Yes".to_string();
    let result = get_slaughtered_animals(&location);
    assert!(result.contains("Cattle (Cows, Bulls)"));
    assert!(result.contains("Pigs"));
    assert!(result.contains("Chickens"));
    assert!(result.contains(", "));
}

#[test]
fn test_bison_and_buffalo_grouping() {
    let mut location = create_default_location();
    location.bison_slaughter = "Yes".to_string();
    let result = get_slaughtered_animals(&location);
    assert!(result.contains("Bison & Buffalo"));
}

#[test]
fn test_buffalo_slaughter_detection() {
    let mut location = create_default_location();
    location.buffalo_slaughter = "Yes".to_string();
    let result = get_slaughtered_animals(&location);
    assert!(result.contains("Bison & Buffalo"));
}

#[test]
fn test_ratite_slaughter_detection() {
    let mut location = create_default_location();
    location.ostrich_slaughter = "Yes".to_string();
    let result = get_slaughtered_animals(&location);
    assert!(result.contains("Ratites (Ostrich, Emu, etc.)"));
}

#[test]
fn test_emu_slaughter_detection() {
    let mut location = create_default_location();
    location.emu_slaughter = "Yes".to_string();
    let result = get_slaughtered_animals(&location);
    assert!(result.contains("Ratites (Ostrich, Emu, etc.)"));
}

#[test]
fn test_pheasant_slaughter_detection() {
    let mut location = create_default_location();
    location.pheasant_slaughter = "Yes".to_string();
    let result = get_slaughtered_animals(&location);
    assert!(result.contains("Pheasants"));
}

#[test]
fn test_quail_slaughter_detection() {
    let mut location = create_default_location();
    location.quail_slaughter = "Yes".to_string();
    let result = get_slaughtered_animals(&location);
    assert!(result.contains("Quail"));
}

#[test]
fn test_guinea_fowl_slaughter_detection() {
    let mut location = create_default_location();
    location.guinea_slaughter = "Yes".to_string();
    let result = get_slaughtered_animals(&location);
    assert!(result.contains("Guinea Fowl"));
}

#[test]
fn test_squab_slaughter_detection() {
    let mut location = create_default_location();
    location.squab_slaughter = "Yes".to_string();
    let result = get_slaughtered_animals(&location);
    assert!(result.contains("Pigeons (Squab)"));
}

#[test]
fn test_other_voluntary_poultry_slaughter() {
    let mut location = create_default_location();
    location.other_voluntary_poultry_slaughter = "Yes".to_string();
    let result = get_slaughtered_animals(&location);
    assert!(result.contains("Other Poultry"));
}

#[test]
fn test_antelope_slaughter_detection() {
    let mut location = create_default_location();
    location.antelope_slaughter = "Yes".to_string();
    let result = get_slaughtered_animals(&location);
    assert!(result.contains("Antelope"));
}

#[test]
fn test_elk_slaughter_detection() {
    let mut location = create_default_location();
    location.elk_slaughter = "Yes".to_string();
    let result = get_slaughtered_animals(&location);
    assert!(result.contains("Elk"));
}

#[test]
fn test_yak_slaughter_detection() {
    let mut location = create_default_location();
    location.yak_slaughter = "Yes".to_string();
    let result = get_slaughtered_animals(&location);
    assert!(result.contains("Yak"));
}

#[test]
fn test_case_sensitivity_yes_detection() {
    let mut location = create_default_location();
    location.beef_cow_slaughter = "Yes".to_string();
    let result = get_slaughtered_animals(&location);
    assert!(!result.is_empty());
}

#[test]
fn test_case_sensitivity_no_not_included() {
    let mut location = create_default_location();
    location.beef_cow_slaughter = "No".to_string();
    let result = get_slaughtered_animals(&location);
    assert!(!result.contains("Cattle (Cows, Bulls)"));
}

#[test]
fn test_combination_cattle_types() {
    let mut location = create_default_location();
    location.beef_cow_slaughter = "Yes".to_string();
    location.steer_slaughter = "Yes".to_string();
    location.heifer_slaughter = "Yes".to_string();
    let result = get_slaughtered_animals(&location);
    assert_eq!(result.matches("Cattle (Cows, Bulls)").count(), 1);
}

#[test]
fn test_preauthored_slaughtered_list_wins() {
    let mut location = create_default_location();
    location.animals_slaughtered_list = "Cows and chickens".to_string();
    location.beef_cow_slaughter = "Yes".to_string();
    location.duck_slaughter = "Yes".to_string();
    let result = get_slaughtered_animals(&location);
    assert_eq!(result, "Cows and chickens");
}

#[test]
fn test_groups_joined_in_table_order() {
    let mut location = create_default_location();
    location.duck_slaughter = "Yes".to_string();
    location.beef_cow_slaughter = "Yes".to_string();
    let result = get_slaughtered_animals(&location);
    assert_eq!(result, "Cattle (Cows, Bulls), Ducks");
}

#[test]
fn test_lowercase_yes_not_counted() {
    let mut location = create_default_location();
    location.beef_cow_slaughter = "yes".to_string();
    let result = get_slaughtered_animals(&location);
    assert_eq!(result, "");
}
