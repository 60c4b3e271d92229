//! The dataset readers run end to end over real table bytes, including the
//! partition selection, tagging, and error behaviour of the locations read.

use heatmap_backend::datasets::read_aphis_reports;
use heatmap_backend::datasets::read_inspection_reports;
use heatmap_backend::datasets::read_locations;
use heatmap_backend::datasets::Partition;
use heatmap_backend::loader::LoadError;

const LOCATION_HEADER: &str = "establishment_id,establishment_name,street,city,state,zip,phone,\
grant_date,type,dbas,latitude,longitude,slaughter,slaughter_volume_category,\
processing_volume_category,beef_cow_slaughter,chicken_processing";

fn location_csv(rows: &[&str]) -> Vec<u8> {
    let mut text = String::from(LOCATION_HEADER);
    for row in rows {
        text.push('\n');
        text.push_str(row);
    }
    text.into_bytes()
}

fn us_partition(rows: &[&str]) -> Partition {
    Partition { name: "us".to_string(), data: location_csv(rows) }
}

#[test]
fn test_locations_row_fields_carried_over() {
    let parts = vec![us_partition(&[
        "e1,Plant One,1 Main St,Springfield,IL,62701,555-0100,2020-01-01,Meat Slaughter,,39.8,-89.6,Yes,Small,Small,Yes,Yes",
    ])];
    let result = read_locations(&parts, &None).unwrap();
    assert_eq!(result.len(), 1);
    let r = &result[0];
    assert_eq!(r.country, "us");
    assert_eq!(r.establishment_id, "e1");
    assert_eq!(r.establishment_name, "Plant One");
    assert_eq!(r.street, "1 Main St");
    assert_eq!(r.city, "Springfield");
    assert_eq!(r.state, "IL");
    assert_eq!(r.zip, "62701");
    assert_eq!(r.phone, "555-0100");
    assert_eq!(r.grant_date, "2020-01-01");
    assert_eq!(r.activities, "Meat Slaughter");
    assert_eq!(r.latitude, "39.8");
    assert_eq!(r.longitude, "-89.6");
    assert_eq!(r.slaughter, "Yes");
    assert_eq!(r.slaughter_volume_category, "Small");
    assert_eq!(r.processing_volume_category, "Small");
    assert_eq!(r.animals_slaughtered, "Cattle (Cows, Bulls)");
    assert_eq!(r.animals_processed, "Chicken");
}

#[test]
fn test_locations_summaries_fall_back_when_no_flags() {
    let parts = vec![us_partition(&[
        "e1,Plant One,1 Main St,Springfield,IL,62701,555-0100,2020-01-01,Meat,,39.8,-89.6,No,,,No,No",
    ])];
    let result = read_locations(&parts, &None).unwrap();
    assert_eq!(result[0].animals_slaughtered, "");
    assert_eq!(result[0].animals_processed, "N/A");
}

#[test]
fn test_unknown_country_returns_empty_list() {
    let parts = vec![us_partition(&[
        "e1,Plant One,1 Main St,Springfield,IL,62701,555-0100,2020-01-01,Meat,,39.8,-89.6,No,,,No,No",
    ])];
    let result = read_locations(&parts, &Some("xx".to_string())).unwrap();
    assert!(result.is_empty());
}

#[test]
fn test_country_filter_selects_one_partition() {
    let parts = vec![
        us_partition(&[
            "e1,Plant One,1 Main St,Springfield,IL,62701,555-0100,2020-01-01,Meat,,39.8,-89.6,No,,,No,No",
        ]),
        Partition {
            name: "ca".to_string(),
            data: location_csv(&[
                "e2,Plant Two,2 Main St,Toronto,ON,M1B,555-0200,2021-02-02,Meat,,43.6,-79.3,No,,,No,No",
            ]),
        },
    ];
    let result = read_locations(&parts, &Some("ca".to_string())).unwrap();
    assert_eq!(result.len(), 1);
    assert_eq!(result[0].country, "ca");
    assert_eq!(result[0].establishment_id, "e2");
}

#[test]
fn test_all_partitions_scanned_and_tagged() {
    let parts = vec![
        us_partition(&[
            "e1,Plant One,1 Main St,Springfield,IL,62701,555-0100,2020-01-01,Meat,,39.8,-89.6,No,,,No,No",
        ]),
        Partition {
            name: "ca".to_string(),
            data: location_csv(&[
                "e2,Plant Two,2 Main St,Toronto,ON,M1B,555-0200,2021-02-02,Meat,,43.6,-79.3,No,,,No,No",
            ]),
        },
    ];
    let result = read_locations(&parts, &None).unwrap();
    assert_eq!(result.len(), 2);
    assert_eq!(result[0].country, "us");
    assert_eq!(result[0].establishment_id, "e1");
    assert_eq!(result[1].country, "ca");
    assert_eq!(result[1].establishment_id, "e2");
}

#[test]
fn test_malformed_latitude_fails_whole_read() {
    let parts = vec![us_partition(&[
        "e1,Plant One,1 Main St,Springfield,IL,62701,555-0100,2020-01-01,Meat,,39.8,-89.6,No,,,No,No",
        "e2,Plant Two,2 Main St,Springfield,IL,62701,555-0101,2020-01-02,Meat,,not-a-number,-89.6,No,,,No,No",
    ])];
    let err = read_locations(&parts, &None).unwrap_err();
    match err {
        LoadError::BadCoordinate(v) => assert_eq!(v, "not-a-number"),
        _ => panic!("expected a bad-coordinate error"),
    }
}

#[test]
fn test_missing_required_column_reported() {
    let parts = vec![Partition {
        name: "us".to_string(),
        data: b"establishment_id,establishment_name\ne1,Plant One".to_vec(),
    }];
    let err = read_locations(&parts, &None).unwrap_err();
    match err {
        LoadError::MissingColumn(n) => assert_eq!(n, "street"),
        _ => panic!("expected a missing-column error"),
    }
    let parts2 = vec![Partition {
        name: "us".to_string(),
        data: b"establishment_id,establishment_name\ne1,Plant One".to_vec(),
    }];
    let message = read_locations(&parts2, &None).unwrap_err().message();
    assert_eq!(message, "missing column street");
}

#[test]
fn test_ragged_row_is_a_table_error() {
    let parts = vec![Partition {
        name: "us".to_string(),
        data: b"a,b,c\n1,2".to_vec(),
    }];
    let err = read_locations(&parts, &None).unwrap_err();
    assert!(matches!(err, LoadError::Table(_)));
}

#[test]
fn test_empty_partition_list_returns_empty() {
    let parts: Vec<Partition> = Vec::new();
    let result = read_locations(&parts, &None).unwrap();
    assert!(result.is_empty());
}

const APHIS_HEADER: &str = "Account Name,Customer Number_x,Certificate Number,Registration Type,\
Certificate Status,Status Date,Address Line 1,Address Line 2,City-State-Zip,County,\
Customer Number_y,Year,Dogs,Cats,Guinea Pigs,Hamsters,Rabbits,Non-Human Primates,Sheep,Pigs,\
Other Farm Animals,All Other Animals,latitude,longitude";

#[test]
fn test_aphis_reports_read_and_derived() {
    let data = format!(
        "{}\n{}",
        APHIS_HEADER,
        "Lab One,1,C-1,Research,Active,2024-01-01,1 Lab Way,,Town TS 11111,Cty,2,2023,5.9,0,0,0,0,3,0,0,0,0,40.0,-75.0",
    );
    let reports = read_aphis_reports(data.as_bytes()).unwrap();
    assert_eq!(reports.len(), 1);
    let rep = &reports[0];
    assert_eq!(rep.account_name, "Lab One");
    assert_eq!(rep.certificate_number, "C-1");
    assert_eq!(rep.year, "2023");
    assert_eq!(rep.dogs, "5.9");
    assert_eq!(rep.latitude, "40.0");
    assert_eq!(rep.animals_tested.as_deref(), Some("5 Dogs, 3 Non-Human Primates"));
}

#[test]
fn test_aphis_malformed_longitude_fails() {
    let data = format!(
        "{}\n{}",
        APHIS_HEADER,
        "Lab One,1,C-1,Research,Active,2024-01-01,1 Lab Way,,Town TS 11111,Cty,2,2023,0,0,0,0,0,0,0,0,0,0,40.0,east",
    );
    let err = read_aphis_reports(data.as_bytes()).unwrap_err();
    match err {
        LoadError::BadCoordinate(v) => assert_eq!(v, "east"),
        _ => panic!("expected a bad-coordinate error"),
    }
}

const INSPECTION_HEADER: &str = "Account Name,Customer Number,Certificate Number,License Type,\
Certificate Status,Status Date,Address Line 1,Address Line 2,City-State-Zip,County,City,State,\
Zip,Geocodio Latitude,Geocodio Longitude";

#[test]
fn test_inspection_reports_read() {
    let data = format!(
        "{}\n{}",
        INSPECTION_HEADER,
        "Facility One,1,C-9,Class A,Active,2024-02-02,9 Farm Rd,,Town TS 22222,Cty,Town,TS,22222,41.5,-80.1",
    );
    let reports = read_inspection_reports(data.as_bytes()).unwrap();
    assert_eq!(reports.len(), 1);
    let rep = &reports[0];
    assert_eq!(rep.account_name, "Facility One");
    assert_eq!(rep.license_type, "Class A");
    assert_eq!(rep.city, "Town");
    assert_eq!(rep.latitude, "41.5");
    assert_eq!(rep.longitude, "-80.1");
}

#[test]
fn test_inspection_missing_column_reported() {
    let data = "Account Name,Customer Number\nFacility One,1";
    let err = read_inspection_reports(data.as_bytes()).unwrap_err();
    match err {
        LoadError::MissingColumn(n) => assert_eq!(n, "Certificate Number"),
        _ => panic!("expected a missing-column error"),
    }
}

#[test]
fn test_quoted_fields_parsed_by_table_reader() {
    let parts = vec![us_partition(&[
        "e1,\"Plant, One\",1 Main St,Springfield,IL,62701,555-0100,2020-01-01,Meat,,39.8,-89.6,No,,,No,No",
    ])];
    let result = read_locations(&parts, &None).unwrap();
    assert_eq!(result[0].establishment_name, "Plant, One");
}
