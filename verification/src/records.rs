//! The three record kinds served by the endpoints, and the wire-level
//! projection of a facility location.
//!
//! Every field is held as plain text exactly as it stands in the source
//! table; geocoordinates too are carried as their source text, checked by the
//! loader against the decimal grammar and turned into numbers only at the
//! serialisation edge outside this crate.

use vstd::prelude::*;

verus! {

/// One regulated facility, one row of a partition's location table.  The
/// many per-species columns are flag fields: `"Yes"`, `"No"` or empty.
#[derive(Debug)]
pub struct Location {
    pub establishment_id: String,
    pub establishment_number: String,
    pub establishment_name: String,
    pub duns_number: String,
    pub street: String,
    pub city: String,
    pub state: String,
    pub zip: String,
    pub phone: String,
    pub grant_date: String,
    pub activities: String,
    pub animals_slaughtered_list: String,
    pub animals_processed_list: String,
    pub dbas: String,
    pub district: String,
    pub circuit: String,
    pub size: String,
    pub latitude: String,
    pub longitude: String,
    pub county: String,
    pub fips_code: String,
    pub meat_exemption_custom_slaughter: String,
    pub poultry_exemption_custom_slaughter: String,
    pub slaughter: String,
    pub meat_slaughter: String,
    pub beef_cow_slaughter: String,
    pub steer_slaughter: String,
    pub heifer_slaughter: String,
    pub bull_stag_slaughter: String,
    pub dairy_cow_slaughter: String,
    pub heavy_calf_slaughter: String,
    pub bob_veal_slaughter: String,
    pub formula_fed_veal_slaughter: String,
    pub non_formula_fed_veal_slaughter: String,
    pub market_swine_slaughter: String,
    pub sow_slaughter: String,
    pub roaster_swine_slaughter: String,
    pub boar_stag_swine_slaughter: String,
    pub stag_swine_slaughter: String,
    pub feral_swine_slaughter: String,
    pub goat_slaughter: String,
    pub young_goat_slaughter: String,
    pub adult_goat_slaughter: String,
    pub sheep_slaughter: String,
    pub lamb_slaughter: String,
    pub deer_reindeer_slaughter: String,
    pub antelope_slaughter: String,
    pub elk_slaughter: String,
    pub bison_slaughter: String,
    pub buffalo_slaughter: String,
    pub water_buffalo_slaughter: String,
    pub cattalo_slaughter: String,
    pub yak_slaughter: String,
    pub other_voluntary_livestock_slaughter: String,
    pub rabbit_slaughter: String,
    pub poultry_slaughter: String,
    pub young_chicken_slaughter: String,
    pub light_fowl_slaughter: String,
    pub heavy_fowl_slaughter: String,
    pub capon_slaughter: String,
    pub young_turkey_slaughter: String,
    pub young_breeder_turkey_slaughter: String,
    pub old_breeder_turkey_slaughter: String,
    pub fryer_roaster_turkey_slaughter: String,
    pub duck_slaughter: String,
    pub goose_slaughter: String,
    pub pheasant_slaughter: String,
    pub quail_slaughter: String,
    pub guinea_slaughter: String,
    pub ostrich_slaughter: String,
    pub emu_slaughter: String,
    pub rhea_slaughter: String,
    pub squab_slaughter: String,
    pub other_voluntary_poultry_slaughter: String,
    pub slaughter_or_processing_only: String,
    pub slaughter_only_class: String,
    pub slaughter_only_species: String,
    pub meat_slaughter_only_species: String,
    pub poultry_slaughter_only_species: String,
    pub slaughter_volume_category: String,
    pub processing_volume_category: String,
    pub beef_processing: String,
    pub pork_processing: String,
    pub antelope_processing: String,
    pub bison_processing: String,
    pub buffalo_processing: String,
    pub deer_processing: String,
    pub elk_processing: String,
    pub goat_processing: String,
    pub other_voluntary_livestock_processing: String,
    pub rabbit_processing: String,
    pub reindeer_processing: String,
    pub sheep_processing: String,
    pub yak_processing: String,
    pub chicken_processing: String,
    pub duck_processing: String,
    pub goose_processing: String,
    pub pigeon_processing: String,
    pub ratite_processing: String,
    pub turkey_processing: String,
    pub exotic_poultry_processing: String,
    pub other_voluntary_poultry_processing: String,
}

/// Every field of the location is the empty string.
pub open spec fn location_blank(l: Location) -> bool {
    &&& l.establishment_id@ == Seq::<char>::empty()
    &&& l.establishment_number@ == Seq::<char>::empty()
    &&& l.establishment_name@ == Seq::<char>::empty()
    &&& l.duns_number@ == Seq::<char>::empty()
    &&& l.street@ == Seq::<char>::empty()
    &&& l.city@ == Seq::<char>::empty()
    &&& l.state@ == Seq::<char>::empty()
    &&& l.zip@ == Seq::<char>::empty()
    &&& l.phone@ == Seq::<char>::empty()
    &&& l.grant_date@ == Seq::<char>::empty()
    &&& l.activities@ == Seq::<char>::empty()
    &&& l.animals_slaughtered_list@ == Seq::<char>::empty()
    &&& l.animals_processed_list@ == Seq::<char>::empty()
    &&& l.dbas@ == Seq::<char>::empty()
    &&& l.district@ == Seq::<char>::empty()
    &&& l.circuit@ == Seq::<char>::empty()
    &&& l.size@ == Seq::<char>::empty()
    &&& l.latitude@ == Seq::<char>::empty()
    &&& l.longitude@ == Seq::<char>::empty()
    &&& l.county@ == Seq::<char>::empty()
    &&& l.fips_code@ == Seq::<char>::empty()
    &&& l.meat_exemption_custom_slaughter@ == Seq::<char>::empty()
    &&& l.poultry_exemption_custom_slaughter@ == Seq::<char>::empty()
    &&& l.slaughter@ == Seq::<char>::empty()
    &&& l.meat_slaughter@ == Seq::<char>::empty()
    &&& l.beef_cow_slaughter@ == Seq::<char>::empty()
    &&& l.steer_slaughter@ == Seq::<char>::empty()
    &&& l.heifer_slaughter@ == Seq::<char>::empty()
    &&& l.bull_stag_slaughter@ == Seq::<char>::empty()
    &&& l.dairy_cow_slaughter@ == Seq::<char>::empty()
    &&& l.heavy_calf_slaughter@ == Seq::<char>::empty()
    &&& l.bob_veal_slaughter@ == Seq::<char>::empty()
    &&& l.formula_fed_veal_slaughter@ == Seq::<char>::empty()
    &&& l.non_formula_fed_veal_slaughter@ == Seq::<char>::empty()
    &&& l.market_swine_slaughter@ == Seq::<char>::empty()
    &&& l.sow_slaughter@ == Seq::<char>::empty()
    &&& l.roaster_swine_slaughter@ == Seq::<char>::empty()
    &&& l.boar_stag_swine_slaughter@ == Seq::<char>::empty()
    &&& l.stag_swine_slaughter@ == Seq::<char>::empty()
    &&& l.feral_swine_slaughter@ == Seq::<char>::empty()
    &&& l.goat_slaughter@ == Seq::<char>::empty()
    &&& l.young_goat_slaughter@ == Seq::<char>::empty()
    &&& l.adult_goat_slaughter@ == Seq::<char>::empty()
    &&& l.sheep_slaughter@ == Seq::<char>::empty()
    &&& l.lamb_slaughter@ == Seq::<char>::empty()
    &&& l.deer_reindeer_slaughter@ == Seq::<char>::empty()
    &&& l.antelope_slaughter@ == Seq::<char>::empty()
    &&& l.elk_slaughter@ == Seq::<char>::empty()
    &&& l.bison_slaughter@ == Seq::<char>::empty()
    &&& l.buffalo_slaughter@ == Seq::<char>::empty()
    &&& l.water_buffalo_slaughter@ == Seq::<char>::empty()
    &&& l.cattalo_slaughter@ == Seq::<char>::empty()
    &&& l.yak_slaughter@ == Seq::<char>::empty()
    &&& l.other_voluntary_livestock_slaughter@ == Seq::<char>::empty()
    &&& l.rabbit_slaughter@ == Seq::<char>::empty()
    &&& l.poultry_slaughter@ == Seq::<char>::empty()
    &&& l.young_chicken_slaughter@ == Seq::<char>::empty()
    &&& l.light_fowl_slaughter@ == Seq::<char>::empty()
    &&& l.heavy_fowl_slaughter@ == Seq::<char>::empty()
    &&& l.capon_slaughter@ == Seq::<char>::empty()
    &&& l.young_turkey_slaughter@ == Seq::<char>::empty()
    &&& l.young_breeder_turkey_slaughter@ == Seq::<char>::empty()
    &&& l.old_breeder_turkey_slaughter@ == Seq::<char>::empty()
    &&& l.fryer_roaster_turkey_slaughter@ == Seq::<char>::empty()
    &&& l.duck_slaughter@ == Seq::<char>::empty()
    &&& l.goose_slaughter@ == Seq::<char>::empty()
    &&& l.pheasant_slaughter@ == Seq::<char>::empty()
    &&& l.quail_slaughter@ == Seq::<char>::empty()
    &&& l.guinea_slaughter@ == Seq::<char>::empty()
    &&& l.ostrich_slaughter@ == Seq::<char>::empty()
    &&& l.emu_slaughter@ == Seq::<char>::empty()
    &&& l.rhea_slaughter@ == Seq::<char>::empty()
    &&& l.squab_slaughter@ == Seq::<char>::empty()
    &&& l.other_voluntary_poultry_slaughter@ == Seq::<char>::empty()
    &&& l.slaughter_or_processing_only@ == Seq::<char>::empty()
    &&& l.slaughter_only_class@ == Seq::<char>::empty()
    &&& l.slaughter_only_species@ == Seq::<char>::empty()
    &&& l.meat_slaughter_only_species@ == Seq::<char>::empty()
    &&& l.poultry_slaughter_only_species@ == Seq::<char>::empty()
    &&& l.slaughter_volume_category@ == Seq::<char>::empty()
    &&& l.processing_volume_category@ == Seq::<char>::empty()
    &&& l.beef_processing@ == Seq::<char>::empty()
    &&& l.pork_processing@ == Seq::<char>::empty()
    &&& l.antelope_processing@ == Seq::<char>::empty()
    &&& l.bison_processing@ == Seq::<char>::empty()
    &&& l.buffalo_processing@ == Seq::<char>::empty()
    &&& l.deer_processing@ == Seq::<char>::empty()
    &&& l.elk_processing@ == Seq::<char>::empty()
    &&& l.goat_processing@ == Seq::<char>::empty()
    &&& l.other_voluntary_livestock_processing@ == Seq::<char>::empty()
    &&& l.rabbit_processing@ == Seq::<char>::empty()
    &&& l.reindeer_processing@ == Seq::<char>::empty()
    &&& l.sheep_processing@ == Seq::<char>::empty()
    &&& l.yak_processing@ == Seq::<char>::empty()
    &&& l.chicken_processing@ == Seq::<char>::empty()
    &&& l.duck_processing@ == Seq::<char>::empty()
    &&& l.goose_processing@ == Seq::<char>::empty()
    &&& l.pigeon_processing@ == Seq::<char>::empty()
    &&& l.ratite_processing@ == Seq::<char>::empty()
    &&& l.turkey_processing@ == Seq::<char>::empty()
    &&& l.exotic_poultry_processing@ == Seq::<char>::empty()
    &&& l.other_voluntary_poultry_processing@ == Seq::<char>::empty()
}

impl Default for Location {
    /// A location with every field empty.
    fn default() -> (r: Location)
        ensures
            location_blank(r),
    {
        Location {
            establishment_id: String::new(),
            establishment_number: String::new(),
            establishment_name: String::new(),
            duns_number: String::new(),
            street: String::new(),
            city: String::new(),
            state: String::new(),
            zip: String::new(),
            phone: String::new(),
            grant_date: String::new(),
            activities: String::new(),
            animals_slaughtered_list: String::new(),
            animals_processed_list: String::new(),
            dbas: String::new(),
            district: String::new(),
            circuit: String::new(),
            size: String::new(),
            latitude: String::new(),
            longitude: String::new(),
            county: String::new(),
            fips_code: String::new(),
            meat_exemption_custom_slaughter: String::new(),
            poultry_exemption_custom_slaughter: String::new(),
            slaughter: String::new(),
            meat_slaughter: String::new(),
            beef_cow_slaughter: String::new(),
            steer_slaughter: String::new(),
            heifer_slaughter: String::new(),
            bull_stag_slaughter: String::new(),
            dairy_cow_slaughter: String::new(),
            heavy_calf_slaughter: String::new(),
            bob_veal_slaughter: String::new(),
            formula_fed_veal_slaughter: String::new(),
            non_formula_fed_veal_slaughter: String::new(),
            market_swine_slaughter: String::new(),
            sow_slaughter: String::new(),
            roaster_swine_slaughter: String::new(),
            boar_stag_swine_slaughter: String::new(),
            stag_swine_slaughter: String::new(),
            feral_swine_slaughter: String::new(),
            goat_slaughter: String::new(),
            young_goat_slaughter: String::new(),
            adult_goat_slaughter: String::new(),
            sheep_slaughter: String::new(),
            lamb_slaughter: String::new(),
            deer_reindeer_slaughter: String::new(),
            antelope_slaughter: String::new(),
            elk_slaughter: String::new(),
            bison_slaughter: String::new(),
            buffalo_slaughter: String::new(),
            water_buffalo_slaughter: String::new(),
            cattalo_slaughter: String::new(),
            yak_slaughter: String::new(),
            other_voluntary_livestock_slaughter: String::new(),
            rabbit_slaughter: String::new(),
            poultry_slaughter: String::new(),
            young_chicken_slaughter: String::new(),
            light_fowl_slaughter: String::new(),
            heavy_fowl_slaughter: String::new(),
            capon_slaughter: String::new(),
            young_turkey_slaughter: String::new(),
            young_breeder_turkey_slaughter: String::new(),
            old_breeder_turkey_slaughter: String::new(),
            fryer_roaster_turkey_slaughter: String::new(),
            duck_slaughter: String::new(),
            goose_slaughter: String::new(),
            pheasant_slaughter: String::new(),
            quail_slaughter: String::new(),
            guinea_slaughter: String::new(),
            ostrich_slaughter: String::new(),
            emu_slaughter: String::new(),
            rhea_slaughter: String::new(),
            squab_slaughter: String::new(),
            other_voluntary_poultry_slaughter: String::new(),
            slaughter_or_processing_only: String::new(),
            slaughter_only_class: String::new(),
            slaughter_only_species: String::new(),
            meat_slaughter_only_species: String::new(),
            poultry_slaughter_only_species: String::new(),
            slaughter_volume_category: String::new(),
            processing_volume_category: String::new(),
            beef_processing: String::new(),
            pork_processing: String::new(),
            antelope_processing: String::new(),
            bison_processing: String::new(),
            buffalo_processing: String::new(),
            deer_processing: String::new(),
            elk_processing: String::new(),
            goat_processing: String::new(),
            other_voluntary_livestock_processing: String::new(),
            rabbit_processing: String::new(),
            reindeer_processing: String::new(),
            sheep_processing: String::new(),
            yak_processing: String::new(),
            chicken_processing: String::new(),
            duck_processing: String::new(),
            goose_processing: String::new(),
            pigeon_processing: String::new(),
            ratite_processing: String::new(),
            turkey_processing: String::new(),
            exotic_poultry_processing: String::new(),
            other_voluntary_poultry_processing: String::new(),
        }
    }
}

/// One licensed research facility's annual animal-use report.  The ten
/// per-species columns are decimal count fields; `animals_tested` is absent
/// until the loader derives it.
#[derive(Debug, Clone)]
pub struct AphisReport {
    pub account_name: String,
    pub customer_number_x: String,
    pub certificate_number: String,
    pub registration_type: String,
    pub certificate_status: String,
    pub status_date: String,
    pub address_line_1: String,
    pub address_line_2: String,
    pub city_state_zip: String,
    pub county: String,
    pub customer_number_y: String,
    pub year: String,
    pub dogs: String,
    pub cats: String,
    pub guinea_pigs: String,
    pub hamsters: String,
    pub rabbits: String,
    pub non_human_primates: String,
    pub sheep: String,
    pub pigs: String,
    pub other_farm_animals: String,
    pub all_other_animals: String,
    pub latitude: String,
    pub longitude: String,
    pub animals_tested: Option<String>,
}

/// One facility's license and inspection status record.
#[derive(Debug, Clone)]
pub struct InspectionReport {
    pub account_name: String,
    pub customer_number: String,
    pub certificate_number: String,
    pub license_type: String,
    pub certificate_status: String,
    pub status_date: String,
    pub address_line_1: String,
    pub address_line_2: String,
    pub city_state_zip: String,
    pub county: String,
    pub city: String,
    pub state: String,
    pub zip: String,
    pub latitude: String,
    pub longitude: String,
}

/// The wire-level projection of a location: the partition it came from, a
/// subset of its columns, and the two derived summary strings.  The
/// `activities` field is serialised under the name `type` by the layer
/// outside this crate.
#[derive(Debug, Clone)]
pub struct LocationResponse {
    pub country: String,
    pub establishment_id: String,
    pub establishment_name: String,
    pub latitude: String,
    pub longitude: String,
    pub activities: String,
    pub state: String,
    pub city: String,
    pub street: String,
    pub zip: String,
    pub slaughter: String,
    pub animals_slaughtered: String,
    pub animals_processed: String,
    pub slaughter_volume_category: String,
    pub processing_volume_category: String,
    pub dbas: String,
    pub phone: String,
    pub grant_date: String,
}

} // verus!
