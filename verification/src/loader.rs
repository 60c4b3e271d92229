//! Row-level and table-level loading: turning a parsed table into fully
//! derived records, with exact contracts for success, content and errors.
//!
//! A row is read by looking its columns up by header name; columns a source
//! table may omit default to the empty string, while the required
//! columns and the decimal geocoordinates are checked, and the first failure
//! aborts the whole read.

use vstd::prelude::*;
use vstd::string::StrSliceExecFns;
use vstd::string::StringExecFns;

use crate::numeric::decimal_text;
use crate::numeric::scan_decimal;
use crate::records::AphisReport;
use crate::records::InspectionReport;
use crate::records::Location;
use crate::records::LocationResponse;
use crate::summary::get_processed_animals;
use crate::summary::get_slaughtered_animals;
use crate::summary::get_tested_animals;
use crate::summary::spec_processed_animals;
use crate::summary::spec_slaughtered_animals;
use crate::summary::spec_tested_animals;
use crate::table::check_columns;
use crate::table::first_missing;
use crate::table::get_col_or_empty;
use crate::table::opt_col;

verus! {

/// Why a dataset could not be read.
#[derive(Debug)]
pub enum LoadError {
    /// The table reader's own report: the bytes are no well-formed table.
    Table(String),
    /// A column the record kind requires is absent; holds the column name.
    MissingColumn(String),
    /// A geocoordinate field is no decimal numeral; holds the field text.
    BadCoordinate(String),
}

/// What the error's human-readable description says.
pub open spec fn spec_error_message(e: LoadError) -> Seq<char> {
    match e {
        LoadError::Table(m) => m@,
        LoadError::MissingColumn(n) => "missing column "@ + n@,
        LoadError::BadCoordinate(v) => "malformed geocoordinate "@ + v@,
    }
}

impl LoadError {
    /// A human-readable description of the failure.
    pub fn message(&self) -> (r: String)
        ensures
            r@ == spec_error_message(*self),
    {
        match self {
            LoadError::Table(m) => m.clone(),
            LoadError::MissingColumn(n) => {
                let mut s = "missing column ".to_owned();
                s.append(n.as_str());
                s
            },
            LoadError::BadCoordinate(v) => {
                let mut s = "malformed geocoordinate ".to_owned();
                s.append(v.as_str());
                s
            },
        }
    }
}

/// The columns a location row must provide.
pub open spec fn location_required_columns() -> Seq<Seq<char>> {
    seq!["establishment_id"@, "establishment_name"@, "street"@, "city"@, "state"@, "zip"@, "phone"@, "grant_date"@, "type"@, "dbas"@, "latitude"@, "longitude"@, "slaughter"@, "slaughter_volume_category"@, "processing_volume_category"@]
}

fn location_required_names() -> (r: Vec<&'static str>)
    ensures
        r.deep_view() == location_required_columns(),
{
    let mut names: Vec<&'static str> = Vec::new();
    names.push("establishment_id");
    names.push("establishment_name");
    names.push("street");
    names.push("city");
    names.push("state");
    names.push("zip");
    names.push("phone");
    names.push("grant_date");
    names.push("type");
    names.push("dbas");
    names.push("latitude");
    names.push("longitude");
    names.push("slaughter");
    names.push("slaughter_volume_category");
    names.push("processing_volume_category");
    proof {
        assert(names.deep_view() =~= location_required_columns());
    }
    names
}

/// Every field of the location is the corresponding column of the row,
/// with the empty string for columns the row lacks.
pub open spec fn location_from_row(l: Location, h: Seq<Seq<char>>, row: Seq<Seq<char>>) -> bool {
    &&& l.establishment_id@ == opt_col(h, row, "establishment_id"@)
    &&& l.establishment_number@ == opt_col(h, row, "establishment_number"@)
    &&& l.establishment_name@ == opt_col(h, row, "establishment_name"@)
    &&& l.duns_number@ == opt_col(h, row, "duns_number"@)
    &&& l.street@ == opt_col(h, row, "street"@)
    &&& l.city@ == opt_col(h, row, "city"@)
    &&& l.state@ == opt_col(h, row, "state"@)
    &&& l.zip@ == opt_col(h, row, "zip"@)
    &&& l.phone@ == opt_col(h, row, "phone"@)
    &&& l.grant_date@ == opt_col(h, row, "grant_date"@)
    &&& l.activities@ == opt_col(h, row, "type"@)
    &&& l.animals_slaughtered_list@ == opt_col(h, row, "animals_slaughtered_list"@)
    &&& l.animals_processed_list@ == opt_col(h, row, "animals_processed_list"@)
    &&& l.dbas@ == opt_col(h, row, "dbas"@)
    &&& l.district@ == opt_col(h, row, "district"@)
    &&& l.circuit@ == opt_col(h, row, "circuit"@)
    &&& l.size@ == opt_col(h, row, "size"@)
    &&& l.latitude@ == opt_col(h, row, "latitude"@)
    &&& l.longitude@ == opt_col(h, row, "longitude"@)
    &&& l.county@ == opt_col(h, row, "county"@)
    &&& l.fips_code@ == opt_col(h, row, "fips_code"@)
    &&& l.meat_exemption_custom_slaughter@ == opt_col(h, row, "meat_exemption_custom_slaughter"@)
    &&& l.poultry_exemption_custom_slaughter@ == opt_col(h, row, "poultry_exemption_custom_slaughter"@)
    &&& l.slaughter@ == opt_col(h, row, "slaughter"@)
    &&& l.meat_slaughter@ == opt_col(h, row, "meat_slaughter"@)
    &&& l.beef_cow_slaughter@ == opt_col(h, row, "beef_cow_slaughter"@)
    &&& l.steer_slaughter@ == opt_col(h, row, "steer_slaughter"@)
    &&& l.heifer_slaughter@ == opt_col(h, row, "heifer_slaughter"@)
    &&& l.bull_stag_slaughter@ == opt_col(h, row, "bull_stag_slaughter"@)
    &&& l.dairy_cow_slaughter@ == opt_col(h, row, "dairy_cow_slaughter"@)
    &&& l.heavy_calf_slaughter@ == opt_col(h, row, "heavy_calf_slaughter"@)
    &&& l.bob_veal_slaughter@ == opt_col(h, row, "bob_veal_slaughter"@)
    &&& l.formula_fed_veal_slaughter@ == opt_col(h, row, "formula_fed_veal_slaughter"@)
    &&& l.non_formula_fed_veal_slaughter@ == opt_col(h, row, "non_formula_fed_veal_slaughter"@)
    &&& l.market_swine_slaughter@ == opt_col(h, row, "market_swine_slaughter"@)
    &&& l.sow_slaughter@ == opt_col(h, row, "sow_slaughter"@)
    &&& l.roaster_swine_slaughter@ == opt_col(h, row, "roaster_swine_slaughter"@)
    &&& l.boar_stag_swine_slaughter@ == opt_col(h, row, "boar_stag_swine_slaughter"@)
    &&& l.stag_swine_slaughter@ == opt_col(h, row, "stag_swine_slaughter"@)
    &&& l.feral_swine_slaughter@ == opt_col(h, row, "feral_swine_slaughter"@)
    &&& l.goat_slaughter@ == opt_col(h, row, "goat_slaughter"@)
    &&& l.young_goat_slaughter@ == opt_col(h, row, "young_goat_slaughter"@)
    &&& l.adult_goat_slaughter@ == opt_col(h, row, "adult_goat_slaughter"@)
    &&& l.sheep_slaughter@ == opt_col(h, row, "sheep_slaughter"@)
    &&& l.lamb_slaughter@ == opt_col(h, row, "lamb_slaughter"@)
    &&& l.deer_reindeer_slaughter@ == opt_col(h, row, "deer_reindeer_slaughter"@)
    &&& l.antelope_slaughter@ == opt_col(h, row, "antelope_slaughter"@)
    &&& l.elk_slaughter@ == opt_col(h, row, "elk_slaughter"@)
    &&& l.bison_slaughter@ == opt_col(h, row, "bison_slaughter"@)
    &&& l.buffalo_slaughter@ == opt_col(h, row, "buffalo_slaughter"@)
    &&& l.water_buffalo_slaughter@ == opt_col(h, row, "water_buffalo_slaughter"@)
    &&& l.cattalo_slaughter@ == opt_col(h, row, "cattalo_slaughter"@)
    &&& l.yak_slaughter@ == opt_col(h, row, "yak_slaughter"@)
    &&& l.other_voluntary_livestock_slaughter@ == opt_col(h, row, "other_voluntary_livestock_slaughter"@)
    &&& l.rabbit_slaughter@ == opt_col(h, row, "rabbit_slaughter"@)
    &&& l.poultry_slaughter@ == opt_col(h, row, "poultry_slaughter"@)
    &&& l.young_chicken_slaughter@ == opt_col(h, row, "young_chicken_slaughter"@)
    &&& l.light_fowl_slaughter@ == opt_col(h, row, "light_fowl_slaughter"@)
    &&& l.heavy_fowl_slaughter@ == opt_col(h, row, "heavy_fowl_slaughter"@)
    &&& l.capon_slaughter@ == opt_col(h, row, "capon_slaughter"@)
    &&& l.young_turkey_slaughter@ == opt_col(h, row, "young_turkey_slaughter"@)
    &&& l.young_breeder_turkey_slaughter@ == opt_col(h, row, "young_breeder_turkey_slaughter"@)
    &&& l.old_breeder_turkey_slaughter@ == opt_col(h, row, "old_breeder_turkey_slaughter"@)
    &&& l.fryer_roaster_turkey_slaughter@ == opt_col(h, row, "fryer_roaster_turkey_slaughter"@)
    &&& l.duck_slaughter@ == opt_col(h, row, "duck_slaughter"@)
    &&& l.goose_slaughter@ == opt_col(h, row, "goose_slaughter"@)
    &&& l.pheasant_slaughter@ == opt_col(h, row, "pheasant_slaughter"@)
    &&& l.quail_slaughter@ == opt_col(h, row, "quail_slaughter"@)
    &&& l.guinea_slaughter@ == opt_col(h, row, "guinea_slaughter"@)
    &&& l.ostrich_slaughter@ == opt_col(h, row, "ostrich_slaughter"@)
    &&& l.emu_slaughter@ == opt_col(h, row, "emu_slaughter"@)
    &&& l.rhea_slaughter@ == opt_col(h, row, "rhea_slaughter"@)
    &&& l.squab_slaughter@ == opt_col(h, row, "squab_slaughter"@)
    &&& l.other_voluntary_poultry_slaughter@ == opt_col(h, row, "other_voluntary_poultry_slaughter"@)
    &&& l.slaughter_or_processing_only@ == opt_col(h, row, "slaughter_or_processing_only"@)
    &&& l.slaughter_only_class@ == opt_col(h, row, "slaughter_only_class"@)
    &&& l.slaughter_only_species@ == opt_col(h, row, "slaughter_only_species"@)
    &&& l.meat_slaughter_only_species@ == opt_col(h, row, "meat_slaughter_only_species"@)
    &&& l.poultry_slaughter_only_species@ == opt_col(h, row, "poultry_slaughter_only_species"@)
    &&& l.slaughter_volume_category@ == opt_col(h, row, "slaughter_volume_category"@)
    &&& l.processing_volume_category@ == opt_col(h, row, "processing_volume_category"@)
    &&& l.beef_processing@ == opt_col(h, row, "beef_processing"@)
    &&& l.pork_processing@ == opt_col(h, row, "pork_processing"@)
    &&& l.antelope_processing@ == opt_col(h, row, "antelope_processing"@)
    &&& l.bison_processing@ == opt_col(h, row, "bison_processing"@)
    &&& l.buffalo_processing@ == opt_col(h, row, "buffalo_processing"@)
    &&& l.deer_processing@ == opt_col(h, row, "deer_processing"@)
    &&& l.elk_processing@ == opt_col(h, row, "elk_processing"@)
    &&& l.goat_processing@ == opt_col(h, row, "goat_processing"@)
    &&& l.other_voluntary_livestock_processing@ == opt_col(h, row, "other_voluntary_livestock_processing"@)
    &&& l.rabbit_processing@ == opt_col(h, row, "rabbit_processing"@)
    &&& l.reindeer_processing@ == opt_col(h, row, "reindeer_processing"@)
    &&& l.sheep_processing@ == opt_col(h, row, "sheep_processing"@)
    &&& l.yak_processing@ == opt_col(h, row, "yak_processing"@)
    &&& l.chicken_processing@ == opt_col(h, row, "chicken_processing"@)
    &&& l.duck_processing@ == opt_col(h, row, "duck_processing"@)
    &&& l.goose_processing@ == opt_col(h, row, "goose_processing"@)
    &&& l.pigeon_processing@ == opt_col(h, row, "pigeon_processing"@)
    &&& l.ratite_processing@ == opt_col(h, row, "ratite_processing"@)
    &&& l.turkey_processing@ == opt_col(h, row, "turkey_processing"@)
    &&& l.exotic_poultry_processing@ == opt_col(h, row, "exotic_poultry_processing"@)
    &&& l.other_voluntary_poultry_processing@ == opt_col(h, row, "other_voluntary_poultry_processing"@)
}

/// Whether a location row can be read: the required columns are present
/// and both geocoordinates are decimal numerals.
pub open spec fn location_row_ok(h: Seq<Seq<char>>, row: Seq<Seq<char>>) -> bool {
    &&& first_missing(h, location_required_columns()) is None
    &&& decimal_text(opt_col(h, row, "latitude"@))
    &&& decimal_text(opt_col(h, row, "longitude"@))
}

/// The error a bad location row is reported with: the first missing
/// required column, else the first malformed geocoordinate.
pub open spec fn location_row_error(e: LoadError, h: Seq<Seq<char>>, row: Seq<Seq<char>>) -> bool {
    match first_missing(h, location_required_columns()) {
        Some(n) => e matches LoadError::MissingColumn(m) && m@ == n,
        None => if !decimal_text(opt_col(h, row, "latitude"@)) {
            e matches LoadError::BadCoordinate(v) && v@ == opt_col(h, row, "latitude"@)
        } else {
            e matches LoadError::BadCoordinate(v) && v@ == opt_col(h, row, "longitude"@)
        },
    }
}

/// Reads one location row.
#[verifier::rlimit(100)]
pub fn read_location_row(headers: &Vec<String>, row: &Vec<String>) -> (r: Result<
    Location,
    LoadError,
>)
    ensures
        r is Ok <==> location_row_ok(headers.deep_view(), row.deep_view()),
        r matches Ok(l) ==> location_from_row(l, headers.deep_view(), row.deep_view()),
        r matches Err(e) ==> location_row_error(e, headers.deep_view(), row.deep_view()),
{
    let names = location_required_names();
    if let Some(n) = check_columns(headers, &names) {
        return Err(LoadError::MissingColumn(n));
    }
    let latitude = get_col_or_empty(headers, row, "latitude");
    let (lat_ok, _, _) = scan_decimal(latitude.as_str());
    if !lat_ok {
        return Err(LoadError::BadCoordinate(latitude));
    }
    let longitude = get_col_or_empty(headers, row, "longitude");
    let (lon_ok, _, _) = scan_decimal(longitude.as_str());
    if !lon_ok {
        return Err(LoadError::BadCoordinate(longitude));
    }
    Ok(
        Location {
            establishment_id: get_col_or_empty(headers, row, "establishment_id"),
            establishment_number: get_col_or_empty(headers, row, "establishment_number"),
            establishment_name: get_col_or_empty(headers, row, "establishment_name"),
            duns_number: get_col_or_empty(headers, row, "duns_number"),
            street: get_col_or_empty(headers, row, "street"),
            city: get_col_or_empty(headers, row, "city"),
            state: get_col_or_empty(headers, row, "state"),
            zip: get_col_or_empty(headers, row, "zip"),
            phone: get_col_or_empty(headers, row, "phone"),
            grant_date: get_col_or_empty(headers, row, "grant_date"),
            activities: get_col_or_empty(headers, row, "type"),
            animals_slaughtered_list: get_col_or_empty(headers, row, "animals_slaughtered_list"),
            animals_processed_list: get_col_or_empty(headers, row, "animals_processed_list"),
            dbas: get_col_or_empty(headers, row, "dbas"),
            district: get_col_or_empty(headers, row, "district"),
            circuit: get_col_or_empty(headers, row, "circuit"),
            size: get_col_or_empty(headers, row, "size"),
            latitude,
            longitude,
            county: get_col_or_empty(headers, row, "county"),
            fips_code: get_col_or_empty(headers, row, "fips_code"),
            meat_exemption_custom_slaughter: get_col_or_empty(headers, row, "meat_exemption_custom_slaughter"),
            poultry_exemption_custom_slaughter: get_col_or_empty(headers, row, "poultry_exemption_custom_slaughter"),
            slaughter: get_col_or_empty(headers, row, "slaughter"),
            meat_slaughter: get_col_or_empty(headers, row, "meat_slaughter"),
            beef_cow_slaughter: get_col_or_empty(headers, row, "beef_cow_slaughter"),
            steer_slaughter: get_col_or_empty(headers, row, "steer_slaughter"),
            heifer_slaughter: get_col_or_empty(headers, row, "heifer_slaughter"),
            bull_stag_slaughter: get_col_or_empty(headers, row, "bull_stag_slaughter"),
            dairy_cow_slaughter: get_col_or_empty(headers, row, "dairy_cow_slaughter"),
            heavy_calf_slaughter: get_col_or_empty(headers, row, "heavy_calf_slaughter"),
            bob_veal_slaughter: get_col_or_empty(headers, row, "bob_veal_slaughter"),
            formula_fed_veal_slaughter: get_col_or_empty(headers, row, "formula_fed_veal_slaughter"),
            non_formula_fed_veal_slaughter: get_col_or_empty(headers, row, "non_formula_fed_veal_slaughter"),
            market_swine_slaughter: get_col_or_empty(headers, row, "market_swine_slaughter"),
            sow_slaughter: get_col_or_empty(headers, row, "sow_slaughter"),
            roaster_swine_slaughter: get_col_or_empty(headers, row, "roaster_swine_slaughter"),
            boar_stag_swine_slaughter: get_col_or_empty(headers, row, "boar_stag_swine_slaughter"),
            stag_swine_slaughter: get_col_or_empty(headers, row, "stag_swine_slaughter"),
            feral_swine_slaughter: get_col_or_empty(headers, row, "feral_swine_slaughter"),
            goat_slaughter: get_col_or_empty(headers, row, "goat_slaughter"),
            young_goat_slaughter: get_col_or_empty(headers, row, "young_goat_slaughter"),
            adult_goat_slaughter: get_col_or_empty(headers, row, "adult_goat_slaughter"),
            sheep_slaughter: get_col_or_empty(headers, row, "sheep_slaughter"),
            lamb_slaughter: get_col_or_empty(headers, row, "lamb_slaughter"),
            deer_reindeer_slaughter: get_col_or_empty(headers, row, "deer_reindeer_slaughter"),
            antelope_slaughter: get_col_or_empty(headers, row, "antelope_slaughter"),
            elk_slaughter: get_col_or_empty(headers, row, "elk_slaughter"),
            bison_slaughter: get_col_or_empty(headers, row, "bison_slaughter"),
            buffalo_slaughter: get_col_or_empty(headers, row, "buffalo_slaughter"),
            water_buffalo_slaughter: get_col_or_empty(headers, row, "water_buffalo_slaughter"),
            cattalo_slaughter: get_col_or_empty(headers, row, "cattalo_slaughter"),
            yak_slaughter: get_col_or_empty(headers, row, "yak_slaughter"),
            other_voluntary_livestock_slaughter: get_col_or_empty(headers, row, "other_voluntary_livestock_slaughter"),
            rabbit_slaughter: get_col_or_empty(headers, row, "rabbit_slaughter"),
            poultry_slaughter: get_col_or_empty(headers, row, "poultry_slaughter"),
            young_chicken_slaughter: get_col_or_empty(headers, row, "young_chicken_slaughter"),
            light_fowl_slaughter: get_col_or_empty(headers, row, "light_fowl_slaughter"),
            heavy_fowl_slaughter: get_col_or_empty(headers, row, "heavy_fowl_slaughter"),
            capon_slaughter: get_col_or_empty(headers, row, "capon_slaughter"),
            young_turkey_slaughter: get_col_or_empty(headers, row, "young_turkey_slaughter"),
            young_breeder_turkey_slaughter: get_col_or_empty(headers, row, "young_breeder_turkey_slaughter"),
            old_breeder_turkey_slaughter: get_col_or_empty(headers, row, "old_breeder_turkey_slaughter"),
            fryer_roaster_turkey_slaughter: get_col_or_empty(headers, row, "fryer_roaster_turkey_slaughter"),
            duck_slaughter: get_col_or_empty(headers, row, "duck_slaughter"),
            goose_slaughter: get_col_or_empty(headers, row, "goose_slaughter"),
            pheasant_slaughter: get_col_or_empty(headers, row, "pheasant_slaughter"),
            quail_slaughter: get_col_or_empty(headers, row, "quail_slaughter"),
            guinea_slaughter: get_col_or_empty(headers, row, "guinea_slaughter"),
            ostrich_slaughter: get_col_or_empty(headers, row, "ostrich_slaughter"),
            emu_slaughter: get_col_or_empty(headers, row, "emu_slaughter"),
            rhea_slaughter: get_col_or_empty(headers, row, "rhea_slaughter"),
            squab_slaughter: get_col_or_empty(headers, row, "squab_slaughter"),
            other_voluntary_poultry_slaughter: get_col_or_empty(headers, row, "other_voluntary_poultry_slaughter"),
            slaughter_or_processing_only: get_col_or_empty(headers, row, "slaughter_or_processing_only"),
            slaughter_only_class: get_col_or_empty(headers, row, "slaughter_only_class"),
            slaughter_only_species: get_col_or_empty(headers, row, "slaughter_only_species"),
            meat_slaughter_only_species: get_col_or_empty(headers, row, "meat_slaughter_only_species"),
            poultry_slaughter_only_species: get_col_or_empty(headers, row, "poultry_slaughter_only_species"),
            slaughter_volume_category: get_col_or_empty(headers, row, "slaughter_volume_category"),
            processing_volume_category: get_col_or_empty(headers, row, "processing_volume_category"),
            beef_processing: get_col_or_empty(headers, row, "beef_processing"),
            pork_processing: get_col_or_empty(headers, row, "pork_processing"),
            antelope_processing: get_col_or_empty(headers, row, "antelope_processing"),
            bison_processing: get_col_or_empty(headers, row, "bison_processing"),
            buffalo_processing: get_col_or_empty(headers, row, "buffalo_processing"),
            deer_processing: get_col_or_empty(headers, row, "deer_processing"),
            elk_processing: get_col_or_empty(headers, row, "elk_processing"),
            goat_processing: get_col_or_empty(headers, row, "goat_processing"),
            other_voluntary_livestock_processing: get_col_or_empty(headers, row, "other_voluntary_livestock_processing"),
            rabbit_processing: get_col_or_empty(headers, row, "rabbit_processing"),
            reindeer_processing: get_col_or_empty(headers, row, "reindeer_processing"),
            sheep_processing: get_col_or_empty(headers, row, "sheep_processing"),
            yak_processing: get_col_or_empty(headers, row, "yak_processing"),
            chicken_processing: get_col_or_empty(headers, row, "chicken_processing"),
            duck_processing: get_col_or_empty(headers, row, "duck_processing"),
            goose_processing: get_col_or_empty(headers, row, "goose_processing"),
            pigeon_processing: get_col_or_empty(headers, row, "pigeon_processing"),
            ratite_processing: get_col_or_empty(headers, row, "ratite_processing"),
            turkey_processing: get_col_or_empty(headers, row, "turkey_processing"),
            exotic_poultry_processing: get_col_or_empty(headers, row, "exotic_poultry_processing"),
            other_voluntary_poultry_processing: get_col_or_empty(headers, row, "other_voluntary_poultry_processing"),
        },
    )
}

/// The wire projection of one location under the given partition tag: the
/// copied columns, and the two summaries derived by the tables.
pub open spec fn response_from_location(r: LocationResponse, tag: Seq<char>, l: Location) -> bool {
    &&& r.country@ == tag
    &&& r.establishment_id@ == l.establishment_id@
    &&& r.establishment_name@ == l.establishment_name@
    &&& r.latitude@ == l.latitude@
    &&& r.longitude@ == l.longitude@
    &&& r.activities@ == l.activities@
    &&& r.state@ == l.state@
    &&& r.city@ == l.city@
    &&& r.street@ == l.street@
    &&& r.zip@ == l.zip@
    &&& r.slaughter@ == l.slaughter@
    &&& r.slaughter_volume_category@ == l.slaughter_volume_category@
    &&& r.processing_volume_category@ == l.processing_volume_category@
    &&& r.dbas@ == l.dbas@
    &&& r.phone@ == l.phone@
    &&& r.grant_date@ == l.grant_date@
    &&& r.animals_slaughtered@ == spec_slaughtered_animals(l)
    &&& r.animals_processed@ == spec_processed_animals(l)
}

/// Builds the wire projection of a location, deriving both summaries.
pub fn make_location_response(tag: &String, l: &Location) -> (r: LocationResponse)
    ensures
        response_from_location(r, tag@, *l),
{
    let animals_slaughtered = get_slaughtered_animals(l);
    let animals_processed = get_processed_animals(l);
    LocationResponse {
        country: tag.clone(),
        establishment_id: l.establishment_id.clone(),
        establishment_name: l.establishment_name.clone(),
        latitude: l.latitude.clone(),
        longitude: l.longitude.clone(),
        activities: l.activities.clone(),
        state: l.state.clone(),
        city: l.city.clone(),
        street: l.street.clone(),
        zip: l.zip.clone(),
        slaughter: l.slaughter.clone(),
        slaughter_volume_category: l.slaughter_volume_category.clone(),
        processing_volume_category: l.processing_volume_category.clone(),
        dbas: l.dbas.clone(),
        phone: l.phone.clone(),
        grant_date: l.grant_date.clone(),
        animals_slaughtered,
        animals_processed,
    }
}

/// The response is the projection of some location read from the row.
pub open spec fn response_matches_row(
    r: LocationResponse,
    tag: Seq<char>,
    h: Seq<Seq<char>>,
    row: Seq<Seq<char>>,
) -> bool {
    exists|l: Location| #[trigger] location_from_row(l, h, row) && response_from_location(r, tag, l)
}

/// Every row of the table can be read as a location.
pub open spec fn location_rows_ok(h: Seq<Seq<char>>, rows: Seq<Seq<Seq<char>>>) -> bool {
    forall|i: int| 0 <= i < rows.len() ==> location_row_ok(h, #[trigger] rows[i])
}

/// The error reported for a table is that of its first unreadable row.
pub open spec fn location_table_error(
    e: LoadError,
    h: Seq<Seq<char>>,
    rows: Seq<Seq<Seq<char>>>,
) -> bool {
    exists|j: int|
        0 <= j < rows.len() && !location_row_ok(h, #[trigger] rows[j]) && location_row_error(
            e,
            h,
            rows[j],
        ) && (forall|k: int| 0 <= k < j ==> location_row_ok(h, #[trigger] rows[k]))
}

/// Reads every row of a location table under the given partition tag,
/// deriving both summaries for each record; the first unreadable row aborts
/// the read.
pub fn locations_from_table(tag: &String, headers: &Vec<String>, rows: &Vec<Vec<String>>) -> (r:
    Result<Vec<LocationResponse>, LoadError>)
    ensures
        r is Ok <==> location_rows_ok(headers.deep_view(), rows.deep_view()),
        r matches Ok(v) ==> v@.len() == rows@.len() && (forall|i: int|
            0 <= i < rows@.len() ==> response_matches_row(
                #[trigger] v@[i],
                tag@,
                headers.deep_view(),
                rows.deep_view()[i],
            )),
        r matches Err(e) ==> location_table_error(e, headers.deep_view(), rows.deep_view()),
{
    let ghost hd = headers.deep_view();
    let ghost rd = rows.deep_view();
    let mut out: Vec<LocationResponse> = Vec::new();
    let mut i: usize = 0;
    while i < rows.len()
        invariant
            i <= rows@.len(),
            hd == headers.deep_view(),
            rd == rows.deep_view(),
            rd.len() == rows@.len(),
            out@.len() == i,
            forall|k: int| 0 <= k < i ==> location_row_ok(hd, #[trigger] rd[k]),
            forall|k: int| 0 <= k < i ==> response_matches_row(#[trigger] out@[k], tag@, hd, rd[k]),
        decreases rows@.len() - i,
    {
        match read_location_row(headers, &rows[i]) {
            Ok(l) => {
                let resp = make_location_response(tag, &l);
                proof {
                    assert(rd[i as int] == rows@[i as int].deep_view());
                    assert(location_from_row(l, hd, rd[i as int]) && response_from_location(
                        resp,
                        tag@,
                        l,
                    ));
                }
                out.push(resp);
            },
            Err(e) => {
                proof {
                    assert(rd[i as int] == rows@[i as int].deep_view());
                    assert(!location_row_ok(hd, rd[i as int]));
                    assert(location_row_error(e, hd, rd[i as int]));
                    assert(location_table_error(e, hd, rd));
                }
                return Err(e);
            },
        }
        i = i + 1;
    }
    Ok(out)
}

/// The columns a research-report row must provide.
pub open spec fn aphis_required_columns() -> Seq<Seq<char>> {
    seq!["Account Name"@, "Customer Number_x"@, "Certificate Number"@, "Registration Type"@, "Certificate Status"@, "Status Date"@, "Address Line 1"@, "Address Line 2"@, "City-State-Zip"@, "County"@, "Customer Number_y"@, "Year"@, "Dogs"@, "Cats"@, "Guinea Pigs"@, "Hamsters"@, "Rabbits"@, "Non-Human Primates"@, "Sheep"@, "Pigs"@, "Other Farm Animals"@, "All Other Animals"@, "latitude"@, "longitude"@]
}

fn aphis_required_names() -> (r: Vec<&'static str>)
    ensures
        r.deep_view() == aphis_required_columns(),
{
    let mut names: Vec<&'static str> = Vec::new();
    names.push("Account Name");
    names.push("Customer Number_x");
    names.push("Certificate Number");
    names.push("Registration Type");
    names.push("Certificate Status");
    names.push("Status Date");
    names.push("Address Line 1");
    names.push("Address Line 2");
    names.push("City-State-Zip");
    names.push("County");
    names.push("Customer Number_y");
    names.push("Year");
    names.push("Dogs");
    names.push("Cats");
    names.push("Guinea Pigs");
    names.push("Hamsters");
    names.push("Rabbits");
    names.push("Non-Human Primates");
    names.push("Sheep");
    names.push("Pigs");
    names.push("Other Farm Animals");
    names.push("All Other Animals");
    names.push("latitude");
    names.push("longitude");
    proof {
        assert(names.deep_view() =~= aphis_required_columns());
    }
    names
}

/// Every field of the report is the corresponding column of the row, and
/// the tested-animals summary has been derived and filled in.
pub open spec fn aphis_from_row(rep: AphisReport, h: Seq<Seq<char>>, row: Seq<Seq<char>>) -> bool {
    &&& rep.account_name@ == opt_col(h, row, "Account Name"@)
    &&& rep.customer_number_x@ == opt_col(h, row, "Customer Number_x"@)
    &&& rep.certificate_number@ == opt_col(h, row, "Certificate Number"@)
    &&& rep.registration_type@ == opt_col(h, row, "Registration Type"@)
    &&& rep.certificate_status@ == opt_col(h, row, "Certificate Status"@)
    &&& rep.status_date@ == opt_col(h, row, "Status Date"@)
    &&& rep.address_line_1@ == opt_col(h, row, "Address Line 1"@)
    &&& rep.address_line_2@ == opt_col(h, row, "Address Line 2"@)
    &&& rep.city_state_zip@ == opt_col(h, row, "City-State-Zip"@)
    &&& rep.county@ == opt_col(h, row, "County"@)
    &&& rep.customer_number_y@ == opt_col(h, row, "Customer Number_y"@)
    &&& rep.year@ == opt_col(h, row, "Year"@)
    &&& rep.dogs@ == opt_col(h, row, "Dogs"@)
    &&& rep.cats@ == opt_col(h, row, "Cats"@)
    &&& rep.guinea_pigs@ == opt_col(h, row, "Guinea Pigs"@)
    &&& rep.hamsters@ == opt_col(h, row, "Hamsters"@)
    &&& rep.rabbits@ == opt_col(h, row, "Rabbits"@)
    &&& rep.non_human_primates@ == opt_col(h, row, "Non-Human Primates"@)
    &&& rep.sheep@ == opt_col(h, row, "Sheep"@)
    &&& rep.pigs@ == opt_col(h, row, "Pigs"@)
    &&& rep.other_farm_animals@ == opt_col(h, row, "Other Farm Animals"@)
    &&& rep.all_other_animals@ == opt_col(h, row, "All Other Animals"@)
    &&& rep.latitude@ == opt_col(h, row, "latitude"@)
    &&& rep.longitude@ == opt_col(h, row, "longitude"@)
    &&& rep.animals_tested matches Some(s) && s@ == spec_tested_animals(rep)
}

/// Whether a research-report row can be read: the required columns are present
/// and both geocoordinates are decimal numerals.
pub open spec fn aphis_row_ok(h: Seq<Seq<char>>, row: Seq<Seq<char>>) -> bool {
    &&& first_missing(h, aphis_required_columns()) is None
    &&& decimal_text(opt_col(h, row, "latitude"@))
    &&& decimal_text(opt_col(h, row, "longitude"@))
}

/// The error a bad research-report row is reported with: the first missing
/// required column, else the first malformed geocoordinate.
pub open spec fn aphis_row_error(e: LoadError, h: Seq<Seq<char>>, row: Seq<Seq<char>>) -> bool {
    match first_missing(h, aphis_required_columns()) {
        Some(n) => e matches LoadError::MissingColumn(m) && m@ == n,
        None => if !decimal_text(opt_col(h, row, "latitude"@)) {
            e matches LoadError::BadCoordinate(v) && v@ == opt_col(h, row, "latitude"@)
        } else {
            e matches LoadError::BadCoordinate(v) && v@ == opt_col(h, row, "longitude"@)
        },
    }
}

/// Reads one research-report row and derives its tested-animals summary.
pub fn read_aphis_row(headers: &Vec<String>, row: &Vec<String>) -> (r: Result<
    AphisReport,
    LoadError,
>)
    ensures
        r is Ok <==> aphis_row_ok(headers.deep_view(), row.deep_view()),
        r matches Ok(rep) ==> aphis_from_row(rep, headers.deep_view(), row.deep_view()),
        r matches Err(e) ==> aphis_row_error(e, headers.deep_view(), row.deep_view()),
{
    let names = aphis_required_names();
    if let Some(n) = check_columns(headers, &names) {
        return Err(LoadError::MissingColumn(n));
    }
    let latitude = get_col_or_empty(headers, row, "latitude");
    let (lat_ok, _, _) = scan_decimal(latitude.as_str());
    if !lat_ok {
        return Err(LoadError::BadCoordinate(latitude));
    }
    let longitude = get_col_or_empty(headers, row, "longitude");
    let (lon_ok, _, _) = scan_decimal(longitude.as_str());
    if !lon_ok {
        return Err(LoadError::BadCoordinate(longitude));
    }
    let mut rep = AphisReport {
        account_name: get_col_or_empty(headers, row, "Account Name"),
        customer_number_x: get_col_or_empty(headers, row, "Customer Number_x"),
        certificate_number: get_col_or_empty(headers, row, "Certificate Number"),
        registration_type: get_col_or_empty(headers, row, "Registration Type"),
        certificate_status: get_col_or_empty(headers, row, "Certificate Status"),
        status_date: get_col_or_empty(headers, row, "Status Date"),
        address_line_1: get_col_or_empty(headers, row, "Address Line 1"),
        address_line_2: get_col_or_empty(headers, row, "Address Line 2"),
        city_state_zip: get_col_or_empty(headers, row, "City-State-Zip"),
        county: get_col_or_empty(headers, row, "County"),
        customer_number_y: get_col_or_empty(headers, row, "Customer Number_y"),
        year: get_col_or_empty(headers, row, "Year"),
        dogs: get_col_or_empty(headers, row, "Dogs"),
        cats: get_col_or_empty(headers, row, "Cats"),
        guinea_pigs: get_col_or_empty(headers, row, "Guinea Pigs"),
        hamsters: get_col_or_empty(headers, row, "Hamsters"),
        rabbits: get_col_or_empty(headers, row, "Rabbits"),
        non_human_primates: get_col_or_empty(headers, row, "Non-Human Primates"),
        sheep: get_col_or_empty(headers, row, "Sheep"),
        pigs: get_col_or_empty(headers, row, "Pigs"),
        other_farm_animals: get_col_or_empty(headers, row, "Other Farm Animals"),
        all_other_animals: get_col_or_empty(headers, row, "All Other Animals"),
        latitude,
        longitude,
        animals_tested: None,
    };
    let summary = get_tested_animals(&rep);
    rep.animals_tested = Some(summary);
    Ok(rep)
}

/// Every row of the table can be read as a research report.
pub open spec fn aphis_rows_ok(h: Seq<Seq<char>>, rows: Seq<Seq<Seq<char>>>) -> bool {
    forall|i: int| 0 <= i < rows.len() ==> aphis_row_ok(h, #[trigger] rows[i])
}

/// The error reported for a table is that of its first unreadable row.
pub open spec fn aphis_table_error(
    e: LoadError,
    h: Seq<Seq<char>>,
    rows: Seq<Seq<Seq<char>>>,
) -> bool {
    exists|j: int|
        0 <= j < rows.len() && !aphis_row_ok(h, #[trigger] rows[j]) && aphis_row_error(
            e,
            h,
            rows[j],
        ) && (forall|k: int| 0 <= k < j ==> aphis_row_ok(h, #[trigger] rows[k]))
}

/// Reads every row of a research-report table, deriving each report's
/// tested-animals summary; the first unreadable row aborts the read.
pub fn aphis_reports_from_table(headers: &Vec<String>, rows: &Vec<Vec<String>>) -> (r: Result<
    Vec<AphisReport>,
    LoadError,
>)
    ensures
        r is Ok <==> aphis_rows_ok(headers.deep_view(), rows.deep_view()),
        r matches Ok(v) ==> v@.len() == rows@.len() && (forall|i: int|
            0 <= i < rows@.len() ==> aphis_from_row(
                #[trigger] v@[i],
                headers.deep_view(),
                rows.deep_view()[i],
            )),
        r matches Err(e) ==> aphis_table_error(e, headers.deep_view(), rows.deep_view()),
{
    let ghost hd = headers.deep_view();
    let ghost rd = rows.deep_view();
    let mut out: Vec<AphisReport> = Vec::new();
    let mut i: usize = 0;
    while i < rows.len()
        invariant
            i <= rows@.len(),
            hd == headers.deep_view(),
            rd == rows.deep_view(),
            rd.len() == rows@.len(),
            out@.len() == i,
            forall|k: int| 0 <= k < i ==> aphis_row_ok(hd, #[trigger] rd[k]),
            forall|k: int| 0 <= k < i ==> aphis_from_row(#[trigger] out@[k], hd, rd[k]),
        decreases rows@.len() - i,
    {
        match read_aphis_row(headers, &rows[i]) {
            Ok(rep) => {
                proof {
                    assert(rd[i as int] == rows@[i as int].deep_view());
                }
                out.push(rep);
            },
            Err(e) => {
                proof {
                    assert(rd[i as int] == rows@[i as int].deep_view());
                    assert(!aphis_row_ok(hd, rd[i as int]));
                    assert(aphis_row_error(e, hd, rd[i as int]));
                    assert(aphis_table_error(e, hd, rd));
                }
                return Err(e);
            },
        }
        i = i + 1;
    }
    Ok(out)
}

/// The columns a inspection-report row must provide.
pub open spec fn inspection_required_columns() -> Seq<Seq<char>> {
    seq!["Account Name"@, "Customer Number"@, "Certificate Number"@, "License Type"@, "Certificate Status"@, "Status Date"@, "Address Line 1"@, "Address Line 2"@, "City-State-Zip"@, "County"@, "City"@, "State"@, "Zip"@, "Geocodio Latitude"@, "Geocodio Longitude"@]
}

fn inspection_required_names() -> (r: Vec<&'static str>)
    ensures
        r.deep_view() == inspection_required_columns(),
{
    let mut names: Vec<&'static str> = Vec::new();
    names.push("Account Name");
    names.push("Customer Number");
    names.push("Certificate Number");
    names.push("License Type");
    names.push("Certificate Status");
    names.push("Status Date");
    names.push("Address Line 1");
    names.push("Address Line 2");
    names.push("City-State-Zip");
    names.push("County");
    names.push("City");
    names.push("State");
    names.push("Zip");
    names.push("Geocodio Latitude");
    names.push("Geocodio Longitude");
    proof {
        assert(names.deep_view() =~= inspection_required_columns());
    }
    names
}

/// Every field of the report is the corresponding column of the row.
pub open spec fn inspection_from_row(rep: InspectionReport, h: Seq<Seq<char>>, row: Seq<Seq<char>>) -> bool {
    &&& rep.account_name@ == opt_col(h, row, "Account Name"@)
    &&& rep.customer_number@ == opt_col(h, row, "Customer Number"@)
    &&& rep.certificate_number@ == opt_col(h, row, "Certificate Number"@)
    &&& rep.license_type@ == opt_col(h, row, "License Type"@)
    &&& rep.certificate_status@ == opt_col(h, row, "Certificate Status"@)
    &&& rep.status_date@ == opt_col(h, row, "Status Date"@)
    &&& rep.address_line_1@ == opt_col(h, row, "Address Line 1"@)
    &&& rep.address_line_2@ == opt_col(h, row, "Address Line 2"@)
    &&& rep.city_state_zip@ == opt_col(h, row, "City-State-Zip"@)
    &&& rep.county@ == opt_col(h, row, "County"@)
    &&& rep.city@ == opt_col(h, row, "City"@)
    &&& rep.state@ == opt_col(h, row, "State"@)
    &&& rep.zip@ == opt_col(h, row, "Zip"@)
    &&& rep.latitude@ == opt_col(h, row, "Geocodio Latitude"@)
    &&& rep.longitude@ == opt_col(h, row, "Geocodio Longitude"@)
}

/// Whether a inspection-report row can be read: the required columns are present
/// and both geocoordinates are decimal numerals.
pub open spec fn inspection_row_ok(h: Seq<Seq<char>>, row: Seq<Seq<char>>) -> bool {
    &&& first_missing(h, inspection_required_columns()) is None
    &&& decimal_text(opt_col(h, row, "Geocodio Latitude"@))
    &&& decimal_text(opt_col(h, row, "Geocodio Longitude"@))
}

/// The error a bad inspection-report row is reported with: the first missing
/// required column, else the first malformed geocoordinate.
pub open spec fn inspection_row_error(e: LoadError, h: Seq<Seq<char>>, row: Seq<Seq<char>>) -> bool {
    match first_missing(h, inspection_required_columns()) {
        Some(n) => e matches LoadError::MissingColumn(m) && m@ == n,
        None => if !decimal_text(opt_col(h, row, "Geocodio Latitude"@)) {
            e matches LoadError::BadCoordinate(v) && v@ == opt_col(h, row, "Geocodio Latitude"@)
        } else {
            e matches LoadError::BadCoordinate(v) && v@ == opt_col(h, row, "Geocodio Longitude"@)
        },
    }
}

/// Reads one inspection-report row.
pub fn read_inspection_row(headers: &Vec<String>, row: &Vec<String>) -> (r: Result<
    InspectionReport,
    LoadError,
>)
    ensures
        r is Ok <==> inspection_row_ok(headers.deep_view(), row.deep_view()),
        r matches Ok(rep) ==> inspection_from_row(rep, headers.deep_view(), row.deep_view()),
        r matches Err(e) ==> inspection_row_error(e, headers.deep_view(), row.deep_view()),
{
    let names = inspection_required_names();
    if let Some(n) = check_columns(headers, &names) {
        return Err(LoadError::MissingColumn(n));
    }
    let latitude = get_col_or_empty(headers, row, "Geocodio Latitude");
    let (lat_ok, _, _) = scan_decimal(latitude.as_str());
    if !lat_ok {
        return Err(LoadError::BadCoordinate(latitude));
    }
    let longitude = get_col_or_empty(headers, row, "Geocodio Longitude");
    let (lon_ok, _, _) = scan_decimal(longitude.as_str());
    if !lon_ok {
        return Err(LoadError::BadCoordinate(longitude));
    }
    Ok(
        InspectionReport {
            account_name: get_col_or_empty(headers, row, "Account Name"),
            customer_number: get_col_or_empty(headers, row, "Customer Number"),
            certificate_number: get_col_or_empty(headers, row, "Certificate Number"),
            license_type: get_col_or_empty(headers, row, "License Type"),
            certificate_status: get_col_or_empty(headers, row, "Certificate Status"),
            status_date: get_col_or_empty(headers, row, "Status Date"),
            address_line_1: get_col_or_empty(headers, row, "Address Line 1"),
            address_line_2: get_col_or_empty(headers, row, "Address Line 2"),
            city_state_zip: get_col_or_empty(headers, row, "City-State-Zip"),
            county: get_col_or_empty(headers, row, "County"),
            city: get_col_or_empty(headers, row, "City"),
            state: get_col_or_empty(headers, row, "State"),
            zip: get_col_or_empty(headers, row, "Zip"),
            latitude,
            longitude,
        },
    )
}

/// Every row of the table can be read as an inspection report.
pub open spec fn inspection_rows_ok(h: Seq<Seq<char>>, rows: Seq<Seq<Seq<char>>>) -> bool {
    forall|i: int| 0 <= i < rows.len() ==> inspection_row_ok(h, #[trigger] rows[i])
}

/// The error reported for a table is that of its first unreadable row.
pub open spec fn inspection_table_error(
    e: LoadError,
    h: Seq<Seq<char>>,
    rows: Seq<Seq<Seq<char>>>,
) -> bool {
    exists|j: int|
        0 <= j < rows.len() && !inspection_row_ok(h, #[trigger] rows[j]) && inspection_row_error(
            e,
            h,
            rows[j],
        ) && (forall|k: int| 0 <= k < j ==> inspection_row_ok(h, #[trigger] rows[k]))
}

/// Reads every row of an inspection-report table; the first unreadable row
/// aborts the read.
pub fn inspection_reports_from_table(headers: &Vec<String>, rows: &Vec<Vec<String>>) -> (r: Result<
    Vec<InspectionReport>,
    LoadError,
>)
    ensures
        r is Ok <==> inspection_rows_ok(headers.deep_view(), rows.deep_view()),
        r matches Ok(v) ==> v@.len() == rows@.len() && (forall|i: int|
            0 <= i < rows@.len() ==> inspection_from_row(
                #[trigger] v@[i],
                headers.deep_view(),
                rows.deep_view()[i],
            )),
        r matches Err(e) ==> inspection_table_error(e, headers.deep_view(), rows.deep_view()),
{
    let ghost hd = headers.deep_view();
    let ghost rd = rows.deep_view();
    let mut out: Vec<InspectionReport> = Vec::new();
    let mut i: usize = 0;
    while i < rows.len()
        invariant
            i <= rows@.len(),
            hd == headers.deep_view(),
            rd == rows.deep_view(),
            rd.len() == rows@.len(),
            out@.len() == i,
            forall|k: int| 0 <= k < i ==> inspection_row_ok(hd, #[trigger] rd[k]),
            forall|k: int| 0 <= k < i ==> inspection_from_row(#[trigger] out@[k], hd, rd[k]),
        decreases rows@.len() - i,
    {
        match read_inspection_row(headers, &rows[i]) {
            Ok(rep) => {
                proof {
                    assert(rd[i as int] == rows@[i as int].deep_view());
                }
                out.push(rep);
            },
            Err(e) => {
                proof {
                    assert(rd[i as int] == rows@[i as int].deep_view());
                    assert(!inspection_row_ok(hd, rd[i as int]));
                    assert(inspection_row_error(e, hd, rd[i as int]));
                    assert(inspection_table_error(e, hd, rd));
                }
                return Err(e);
            },
        }
        i = i + 1;
    }
    Ok(out)
}

} // verus!
