//! The animal-summary derivation: the core of the crate.
//!
//! Three pure functions, one per record kind, each following the pattern
//! "evaluate an ordered table of (condition, canonical label) pairs, collect
//! the labels of the conditions that hold, and join them with a comma".  The
//! slaughter table groups several flag columns under one label; the
//! processing table maps each flag to its own label; the tested table reads
//! decimal count columns and prefixes each label with the truncated count.

use vstd::prelude::*;
use vstd::string::StrSliceExecFns;
use vstd::string::StringExecFns;

use crate::numeric::dec_rep;
use crate::numeric::decimal_display;
use crate::numeric::decimal_positive;
use crate::numeric::decimal_text;
use crate::numeric::scan_decimal;
use crate::numeric::to_decimal;
use crate::records::AphisReport;
use crate::records::Location;
use crate::strutil::join;
use crate::strutil::join_strings;
use crate::strutil::push_label;
use crate::strutil::str_eq;

verus! {

/// Only the exact text `"Yes"` switches a flag on.
pub open spec fn yes(s: Seq<char>) -> bool {
    s == "Yes"@
}

/// Whether the flag field holds exactly `"Yes"`.
pub fn is_yes(s: &String) -> (r: bool)
    ensures
        r == yes(s@),
{
    str_eq(s.as_str(), "Yes")
}

/// Appends the label when the condition holds.
pub open spec fn put(s: Seq<Seq<char>>, c: bool, label: Seq<char>) -> Seq<Seq<char>> {
    if c {
        s.push(label)
    } else {
        s
    }
}

/// The `"Cattle (Cows, Bulls)"` slaughter group: any of its flag columns is `"Yes"`.
pub open spec fn cattle_slaughter_group(l: Location) -> bool {
    ||| yes(l.beef_cow_slaughter@)
    ||| yes(l.steer_slaughter@)
    ||| yes(l.heifer_slaughter@)
    ||| yes(l.bull_stag_slaughter@)
    ||| yes(l.dairy_cow_slaughter@)
}

/// The `"Calves (Veal)"` slaughter group: any of its flag columns is `"Yes"`.
pub open spec fn veal_calves_slaughter_group(l: Location) -> bool {
    ||| yes(l.heavy_calf_slaughter@)
    ||| yes(l.bob_veal_slaughter@)
    ||| yes(l.formula_fed_veal_slaughter@)
    ||| yes(l.non_formula_fed_veal_slaughter@)
}

/// The `"Pigs"` slaughter group: any of its flag columns is `"Yes"`.
pub open spec fn pigs_slaughter_group(l: Location) -> bool {
    ||| yes(l.market_swine_slaughter@)
    ||| yes(l.sow_slaughter@)
    ||| yes(l.roaster_swine_slaughter@)
    ||| yes(l.boar_stag_swine_slaughter@)
    ||| yes(l.stag_swine_slaughter@)
    ||| yes(l.feral_swine_slaughter@)
}

/// The `"Goats"` slaughter group: any of its flag columns is `"Yes"`.
pub open spec fn goats_slaughter_group(l: Location) -> bool {
    ||| yes(l.goat_slaughter@)
    ||| yes(l.young_goat_slaughter@)
    ||| yes(l.adult_goat_slaughter@)
}

/// The `"Sheep & Lambs"` slaughter group: any of its flag columns is `"Yes"`.
pub open spec fn sheep_lambs_slaughter_group(l: Location) -> bool {
    ||| yes(l.sheep_slaughter@)
    ||| yes(l.lamb_slaughter@)
}

/// The `"Deer & Reindeer"` slaughter group: any of its flag columns is `"Yes"`.
pub open spec fn deer_reindeer_slaughter_group(l: Location) -> bool {
    ||| yes(l.deer_reindeer_slaughter@)
}

/// The `"Antelope"` slaughter group: any of its flag columns is `"Yes"`.
pub open spec fn antelope_slaughter_group(l: Location) -> bool {
    ||| yes(l.antelope_slaughter@)
}

/// The `"Elk"` slaughter group: any of its flag columns is `"Yes"`.
pub open spec fn elk_slaughter_group(l: Location) -> bool {
    ||| yes(l.elk_slaughter@)
}

/// The `"Bison & Buffalo"` slaughter group: any of its flag columns is `"Yes"`.
pub open spec fn bison_buffalo_slaughter_group(l: Location) -> bool {
    ||| yes(l.bison_slaughter@)
    ||| yes(l.buffalo_slaughter@)
    ||| yes(l.water_buffalo_slaughter@)
    ||| yes(l.cattalo_slaughter@)
}

/// The `"Yak"` slaughter group: any of its flag columns is `"Yes"`.
pub open spec fn yak_slaughter_group(l: Location) -> bool {
    ||| yes(l.yak_slaughter@)
}

/// The `"Other Livestock"` slaughter group: any of its flag columns is `"Yes"`.
pub open spec fn other_livestock_slaughter_group(l: Location) -> bool {
    ||| yes(l.other_voluntary_livestock_slaughter@)
}

/// The `"Rabbits"` slaughter group: any of its flag columns is `"Yes"`.
pub open spec fn rabbits_slaughter_group(l: Location) -> bool {
    ||| yes(l.rabbit_slaughter@)
}

/// The `"Chickens"` slaughter group: any of its flag columns is `"Yes"`.
pub open spec fn chickens_slaughter_group(l: Location) -> bool {
    ||| yes(l.young_chicken_slaughter@)
    ||| yes(l.light_fowl_slaughter@)
    ||| yes(l.heavy_fowl_slaughter@)
    ||| yes(l.capon_slaughter@)
}

/// The `"Turkeys"` slaughter group: any of its flag columns is `"Yes"`.
pub open spec fn turkeys_slaughter_group(l: Location) -> bool {
    ||| yes(l.young_turkey_slaughter@)
    ||| yes(l.young_breeder_turkey_slaughter@)
    ||| yes(l.old_breeder_turkey_slaughter@)
    ||| yes(l.fryer_roaster_turkey_slaughter@)
}

/// The `"Ducks"` slaughter group: any of its flag columns is `"Yes"`.
pub open spec fn ducks_slaughter_group(l: Location) -> bool {
    ||| yes(l.duck_slaughter@)
}

/// The `"Geese"` slaughter group: any of its flag columns is `"Yes"`.
pub open spec fn geese_slaughter_group(l: Location) -> bool {
    ||| yes(l.goose_slaughter@)
}

/// The `"Pheasants"` slaughter group: any of its flag columns is `"Yes"`.
pub open spec fn pheasants_slaughter_group(l: Location) -> bool {
    ||| yes(l.pheasant_slaughter@)
}

/// The `"Quail"` slaughter group: any of its flag columns is `"Yes"`.
pub open spec fn quail_slaughter_group(l: Location) -> bool {
    ||| yes(l.quail_slaughter@)
}

/// The `"Guinea Fowl"` slaughter group: any of its flag columns is `"Yes"`.
pub open spec fn guinea_fowl_slaughter_group(l: Location) -> bool {
    ||| yes(l.guinea_slaughter@)
}

/// The `"Ratites (Ostrich, Emu, etc.)"` slaughter group: any of its flag columns is `"Yes"`.
pub open spec fn ratites_slaughter_group(l: Location) -> bool {
    ||| yes(l.ostrich_slaughter@)
    ||| yes(l.emu_slaughter@)
    ||| yes(l.rhea_slaughter@)
}

/// The `"Pigeons (Squab)"` slaughter group: any of its flag columns is `"Yes"`.
pub open spec fn squab_slaughter_group(l: Location) -> bool {
    ||| yes(l.squab_slaughter@)
}

/// The `"Other Poultry"` slaughter group: any of its flag columns is `"Yes"`.
pub open spec fn other_poultry_slaughter_group(l: Location) -> bool {
    ||| yes(l.other_voluntary_poultry_slaughter@)
}

/// Labels contributed by the cattle, calf, pig, goat, sheep and deer groups, appended to `s` in table order.
pub open spec fn slaughter_labels_hoofed_livestock(s: Seq<Seq<char>>, l: Location) -> Seq<Seq<char>> {
    put(
        put(
        put(
        put(
        put(
        put(
        s,
        cattle_slaughter_group(l),
        "Cattle (Cows, Bulls)"@,
    ),
        veal_calves_slaughter_group(l),
        "Calves (Veal)"@,
    ),
        pigs_slaughter_group(l),
        "Pigs"@,
    ),
        goats_slaughter_group(l),
        "Goats"@,
    ),
        sheep_lambs_slaughter_group(l),
        "Sheep & Lambs"@,
    ),
        deer_reindeer_slaughter_group(l),
        "Deer & Reindeer"@,
    )
}

/// Labels contributed by the remaining livestock groups, appended to `s` in table order.
pub open spec fn slaughter_labels_other_livestock(s: Seq<Seq<char>>, l: Location) -> Seq<Seq<char>> {
    put(
        put(
        put(
        put(
        put(
        put(
        s,
        antelope_slaughter_group(l),
        "Antelope"@,
    ),
        elk_slaughter_group(l),
        "Elk"@,
    ),
        bison_buffalo_slaughter_group(l),
        "Bison & Buffalo"@,
    ),
        yak_slaughter_group(l),
        "Yak"@,
    ),
        other_livestock_slaughter_group(l),
        "Other Livestock"@,
    ),
        rabbits_slaughter_group(l),
        "Rabbits"@,
    )
}

/// Labels contributed by the chicken, turkey, duck, goose and pheasant groups, appended to `s` in table order.
pub open spec fn slaughter_labels_fowl(s: Seq<Seq<char>>, l: Location) -> Seq<Seq<char>> {
    put(
        put(
        put(
        put(
        put(
        s,
        chickens_slaughter_group(l),
        "Chickens"@,
    ),
        turkeys_slaughter_group(l),
        "Turkeys"@,
    ),
        ducks_slaughter_group(l),
        "Ducks"@,
    ),
        geese_slaughter_group(l),
        "Geese"@,
    ),
        pheasants_slaughter_group(l),
        "Pheasants"@,
    )
}

/// Labels contributed by the remaining poultry groups, appended to `s` in table order.
pub open spec fn slaughter_labels_other_poultry(s: Seq<Seq<char>>, l: Location) -> Seq<Seq<char>> {
    put(
        put(
        put(
        put(
        put(
        s,
        quail_slaughter_group(l),
        "Quail"@,
    ),
        guinea_fowl_slaughter_group(l),
        "Guinea Fowl"@,
    ),
        ratites_slaughter_group(l),
        "Ratites (Ostrich, Emu, etc.)"@,
    ),
        squab_slaughter_group(l),
        "Pigeons (Squab)"@,
    ),
        other_poultry_slaughter_group(l),
        "Other Poultry"@,
    )
}

/// The ordered slaughter table: the canonical label of each group whose
/// condition holds, in the fixed evaluation order.
pub open spec fn slaughter_labels(l: Location) -> Seq<Seq<char>> {
    slaughter_labels_other_poultry(
        slaughter_labels_fowl(
        slaughter_labels_other_livestock(
        slaughter_labels_hoofed_livestock(
        Seq::empty(),
        l,
    ),
        l,
    ),
        l,
    ),
        l,
    )
}

/// Pushes the labels of the cattle, calf, pig, goat, sheep and deer groups.
fn push_slaughter_labels_hoofed_livestock(location: &Location, labels: &mut Vec<String>)
    ensures
        final(labels).deep_view() == slaughter_labels_hoofed_livestock(old(labels).deep_view(), *location),
{
    if is_yes(&location.beef_cow_slaughter) || is_yes(&location.steer_slaughter) || is_yes(&location.heifer_slaughter) || is_yes(&location.bull_stag_slaughter) || is_yes(&location.dairy_cow_slaughter) {
        push_label(labels, "Cattle (Cows, Bulls)");
    }
    if is_yes(&location.heavy_calf_slaughter) || is_yes(&location.bob_veal_slaughter) || is_yes(&location.formula_fed_veal_slaughter) || is_yes(&location.non_formula_fed_veal_slaughter) {
        push_label(labels, "Calves (Veal)");
    }
    if is_yes(&location.market_swine_slaughter) || is_yes(&location.sow_slaughter) || is_yes(&location.roaster_swine_slaughter) || is_yes(&location.boar_stag_swine_slaughter) || is_yes(&location.stag_swine_slaughter) || is_yes(&location.feral_swine_slaughter) {
        push_label(labels, "Pigs");
    }
    if is_yes(&location.goat_slaughter) || is_yes(&location.young_goat_slaughter) || is_yes(&location.adult_goat_slaughter) {
        push_label(labels, "Goats");
    }
    if is_yes(&location.sheep_slaughter) || is_yes(&location.lamb_slaughter) {
        push_label(labels, "Sheep & Lambs");
    }
    if is_yes(&location.deer_reindeer_slaughter) {
        push_label(labels, "Deer & Reindeer");
    }
}

/// Pushes the labels of the remaining livestock groups.
fn push_slaughter_labels_other_livestock(location: &Location, labels: &mut Vec<String>)
    ensures
        final(labels).deep_view() == slaughter_labels_other_livestock(old(labels).deep_view(), *location),
{
    if is_yes(&location.antelope_slaughter) {
        push_label(labels, "Antelope");
    }
    if is_yes(&location.elk_slaughter) {
        push_label(labels, "Elk");
    }
    if is_yes(&location.bison_slaughter) || is_yes(&location.buffalo_slaughter) || is_yes(&location.water_buffalo_slaughter) || is_yes(&location.cattalo_slaughter) {
        push_label(labels, "Bison & Buffalo");
    }
    if is_yes(&location.yak_slaughter) {
        push_label(labels, "Yak");
    }
    if is_yes(&location.other_voluntary_livestock_slaughter) {
        push_label(labels, "Other Livestock");
    }
    if is_yes(&location.rabbit_slaughter) {
        push_label(labels, "Rabbits");
    }
}

/// Pushes the labels of the chicken, turkey, duck, goose and pheasant groups.
fn push_slaughter_labels_fowl(location: &Location, labels: &mut Vec<String>)
    ensures
        final(labels).deep_view() == slaughter_labels_fowl(old(labels).deep_view(), *location),
{
    if is_yes(&location.young_chicken_slaughter) || is_yes(&location.light_fowl_slaughter) || is_yes(&location.heavy_fowl_slaughter) || is_yes(&location.capon_slaughter) {
        push_label(labels, "Chickens");
    }
    if is_yes(&location.young_turkey_slaughter) || is_yes(&location.young_breeder_turkey_slaughter) || is_yes(&location.old_breeder_turkey_slaughter) || is_yes(&location.fryer_roaster_turkey_slaughter) {
        push_label(labels, "Turkeys");
    }
    if is_yes(&location.duck_slaughter) {
        push_label(labels, "Ducks");
    }
    if is_yes(&location.goose_slaughter) {
        push_label(labels, "Geese");
    }
    if is_yes(&location.pheasant_slaughter) {
        push_label(labels, "Pheasants");
    }
}

/// Pushes the labels of the remaining poultry groups.
fn push_slaughter_labels_other_poultry(location: &Location, labels: &mut Vec<String>)
    ensures
        final(labels).deep_view() == slaughter_labels_other_poultry(old(labels).deep_view(), *location),
{
    if is_yes(&location.quail_slaughter) {
        push_label(labels, "Quail");
    }
    if is_yes(&location.guinea_slaughter) {
        push_label(labels, "Guinea Fowl");
    }
    if is_yes(&location.ostrich_slaughter) || is_yes(&location.emu_slaughter) || is_yes(&location.rhea_slaughter) {
        push_label(labels, "Ratites (Ostrich, Emu, etc.)");
    }
    if is_yes(&location.squab_slaughter) {
        push_label(labels, "Pigeons (Squab)");
    }
    if is_yes(&location.other_voluntary_poultry_slaughter) {
        push_label(labels, "Other Poultry");
    }
}

/// What the slaughtered-animals summary of a location is: the pre-authored
/// list verbatim when it is non-empty, otherwise the matched slaughter-group
/// labels joined with `", "` (empty when none matched).
pub open spec fn spec_slaughtered_animals(l: Location) -> Seq<char> {
    if l.animals_slaughtered_list@.len() > 0 {
        l.animals_slaughtered_list@
    } else {
        join(slaughter_labels(l), ", "@)
    }
}

/// Derives the slaughtered-animals summary of a location.
pub fn get_slaughtered_animals(location: &Location) -> (r: String)
    ensures
        r@ == spec_slaughtered_animals(*location),
{
    if !location.animals_slaughtered_list.as_str().is_empty() {
        return location.animals_slaughtered_list.clone();
    }
    let mut labels: Vec<String> = Vec::new();
    proof {
        assert(labels.deep_view() =~= Seq::<Seq<char>>::empty());
    }
    push_slaughter_labels_hoofed_livestock(location, &mut labels);
    push_slaughter_labels_other_livestock(location, &mut labels);
    push_slaughter_labels_fowl(location, &mut labels);
    push_slaughter_labels_other_poultry(location, &mut labels);
    join_strings(&labels, ", ")
}

/// Labels contributed by the livestock flags through goat, appended to `s` in table order.
pub open spec fn processing_labels_red_meat(s: Seq<Seq<char>>, l: Location) -> Seq<Seq<char>> {
    put(
        put(
        put(
        put(
        put(
        put(
        put(
        put(
        s,
        yes(l.beef_processing@),
        "Beef"@,
    ),
        yes(l.pork_processing@),
        "Pork"@,
    ),
        yes(l.antelope_processing@),
        "Antelope"@,
    ),
        yes(l.bison_processing@),
        "Bison"@,
    ),
        yes(l.buffalo_processing@),
        "Buffalo"@,
    ),
        yes(l.deer_processing@),
        "Deer"@,
    ),
        yes(l.elk_processing@),
        "Elk"@,
    ),
        yes(l.goat_processing@),
        "Goat"@,
    )
}

/// Labels contributed by the remaining livestock flags, appended to `s` in table order.
pub open spec fn processing_labels_other_livestock(s: Seq<Seq<char>>, l: Location) -> Seq<Seq<char>> {
    put(
        put(
        put(
        put(
        put(
        s,
        yes(l.other_voluntary_livestock_processing@),
        "Other Voluntary Livestock"@,
    ),
        yes(l.rabbit_processing@),
        "Rabbit"@,
    ),
        yes(l.reindeer_processing@),
        "Reindeer"@,
    ),
        yes(l.sheep_processing@),
        "Sheep"@,
    ),
        yes(l.yak_processing@),
        "Yak"@,
    )
}

/// Labels contributed by the poultry flags, appended to `s` in table order.
pub open spec fn processing_labels_poultry(s: Seq<Seq<char>>, l: Location) -> Seq<Seq<char>> {
    put(
        put(
        put(
        put(
        put(
        put(
        put(
        put(
        s,
        yes(l.chicken_processing@),
        "Chicken"@,
    ),
        yes(l.duck_processing@),
        "Duck"@,
    ),
        yes(l.goose_processing@),
        "Goose"@,
    ),
        yes(l.pigeon_processing@),
        "Pigeon"@,
    ),
        yes(l.ratite_processing@),
        "Ratite (Ostrich/Emu)"@,
    ),
        yes(l.turkey_processing@),
        "Turkey"@,
    ),
        yes(l.exotic_poultry_processing@),
        "Exotic Poultry"@,
    ),
        yes(l.other_voluntary_poultry_processing@),
        "Other Voluntary Poultry"@,
    )
}

/// The ordered processing table: each flag column mapped one-for-one to its
/// canonical label, in the fixed evaluation order.
pub open spec fn processing_labels(l: Location) -> Seq<Seq<char>> {
    processing_labels_poultry(
        processing_labels_other_livestock(
        processing_labels_red_meat(
        Seq::empty(),
        l,
    ),
        l,
    ),
        l,
    )
}

/// Pushes the labels of the livestock flags through goat.
fn push_processing_labels_red_meat(location: &Location, labels: &mut Vec<String>)
    ensures
        final(labels).deep_view() == processing_labels_red_meat(old(labels).deep_view(), *location),
{
    if is_yes(&location.beef_processing) {
        push_label(labels, "Beef");
    }
    if is_yes(&location.pork_processing) {
        push_label(labels, "Pork");
    }
    if is_yes(&location.antelope_processing) {
        push_label(labels, "Antelope");
    }
    if is_yes(&location.bison_processing) {
        push_label(labels, "Bison");
    }
    if is_yes(&location.buffalo_processing) {
        push_label(labels, "Buffalo");
    }
    if is_yes(&location.deer_processing) {
        push_label(labels, "Deer");
    }
    if is_yes(&location.elk_processing) {
        push_label(labels, "Elk");
    }
    if is_yes(&location.goat_processing) {
        push_label(labels, "Goat");
    }
}

/// Pushes the labels of the remaining livestock flags.
fn push_processing_labels_other_livestock(location: &Location, labels: &mut Vec<String>)
    ensures
        final(labels).deep_view() == processing_labels_other_livestock(old(labels).deep_view(), *location),
{
    if is_yes(&location.other_voluntary_livestock_processing) {
        push_label(labels, "Other Voluntary Livestock");
    }
    if is_yes(&location.rabbit_processing) {
        push_label(labels, "Rabbit");
    }
    if is_yes(&location.reindeer_processing) {
        push_label(labels, "Reindeer");
    }
    if is_yes(&location.sheep_processing) {
        push_label(labels, "Sheep");
    }
    if is_yes(&location.yak_processing) {
        push_label(labels, "Yak");
    }
}

/// Pushes the labels of the poultry flags.
fn push_processing_labels_poultry(location: &Location, labels: &mut Vec<String>)
    ensures
        final(labels).deep_view() == processing_labels_poultry(old(labels).deep_view(), *location),
{
    if is_yes(&location.chicken_processing) {
        push_label(labels, "Chicken");
    }
    if is_yes(&location.duck_processing) {
        push_label(labels, "Duck");
    }
    if is_yes(&location.goose_processing) {
        push_label(labels, "Goose");
    }
    if is_yes(&location.pigeon_processing) {
        push_label(labels, "Pigeon");
    }
    if is_yes(&location.ratite_processing) {
        push_label(labels, "Ratite (Ostrich/Emu)");
    }
    if is_yes(&location.turkey_processing) {
        push_label(labels, "Turkey");
    }
    if is_yes(&location.exotic_poultry_processing) {
        push_label(labels, "Exotic Poultry");
    }
    if is_yes(&location.other_voluntary_poultry_processing) {
        push_label(labels, "Other Voluntary Poultry");
    }
}

/// What the processed-animals summary of a location is: the pre-authored
/// list verbatim when it is non-empty, otherwise the matched labels joined
/// with `", "`, or the literal `"N/A"` when none matched.  The `"N/A"`
/// fallback is deliberately asymmetric with the slaughtered-animals summary,
/// which falls back to the empty string.
pub open spec fn spec_processed_animals(l: Location) -> Seq<char> {
    if l.animals_processed_list@.len() > 0 {
        l.animals_processed_list@
    } else if processing_labels(l).len() == 0 {
        "N/A"@
    } else {
        join(processing_labels(l), ", "@)
    }
}

/// Derives the processed-animals summary of a location.
pub fn get_processed_animals(location: &Location) -> (r: String)
    ensures
        r@ == spec_processed_animals(*location),
{
    if !location.animals_processed_list.as_str().is_empty() {
        return location.animals_processed_list.clone();
    }
    let mut labels: Vec<String> = Vec::new();
    proof {
        assert(labels.deep_view() =~= Seq::<Seq<char>>::empty());
    }
    push_processing_labels_red_meat(location, &mut labels);
    push_processing_labels_other_livestock(location, &mut labels);
    push_processing_labels_poultry(location, &mut labels);
    if labels.len() == 0 {
        "N/A".to_owned()
    } else {
        join_strings(&labels, ", ")
    }
}

/// The summary entry a count field contributes: the truncated count and the
/// label when the field is an acceptable decimal numeral denoting a value
/// strictly greater than zero, nothing otherwise.
pub open spec fn count_entry(text: Seq<char>, label: Seq<char>) -> Option<Seq<char>> {
    if decimal_text(text) && decimal_positive(text) {
        Some(dec_rep(decimal_display(text)) + " "@ + label)
    } else {
        None
    }
}

/// Appends the entry when there is one.
pub open spec fn put_entry(s: Seq<Seq<char>>, e: Option<Seq<char>>) -> Seq<Seq<char>> {
    match e {
        Some(v) => s.push(v),
        None => s,
    }
}

/// The ordered tested table: the entries of the ten count columns, in the
/// fixed evaluation order.
pub open spec fn tested_entries(r: AphisReport) -> Seq<Seq<char>> {
    put_entry(
        put_entry(
        put_entry(
        put_entry(
        put_entry(
        put_entry(
        put_entry(
        put_entry(
        put_entry(
        put_entry(
        Seq::empty(),
        count_entry(r.dogs@, "Dogs"@),
    ),
        count_entry(r.cats@, "Cats"@),
    ),
        count_entry(r.guinea_pigs@, "Guinea Pigs"@),
    ),
        count_entry(r.hamsters@, "Hamsters"@),
    ),
        count_entry(r.rabbits@, "Rabbits"@),
    ),
        count_entry(r.non_human_primates@, "Non-Human Primates"@),
    ),
        count_entry(r.sheep@, "Sheep"@),
    ),
        count_entry(r.pigs@, "Pigs"@),
    ),
        count_entry(r.other_farm_animals@, "Other Farm Animals"@),
    ),
        count_entry(r.all_other_animals@, "All Other Animals"@),
    )
}

/// What the tested-animals summary of a report is: the count entries joined
/// with `", "`, or the literal `"Unknown"` when no field contributed one.
pub open spec fn spec_tested_animals(r: AphisReport) -> Seq<char> {
    if tested_entries(r).len() == 0 {
        "Unknown"@
    } else {
        join(tested_entries(r), ", "@)
    }
}

/// Appends the count entry of one field, when the field contributes one.
fn push_count_entry(entries: &mut Vec<String>, text: &String, label: &str)
    ensures
        final(entries).deep_view() == put_entry(old(entries).deep_view(), count_entry(text@, label@)),
{
    let (valid, positive, display) = scan_decimal(text.as_str());
    if valid && positive {
        let mut e = to_decimal(display);
        e.append(" ");
        e.append(label);
        entries.push(e);
        proof {
            assert(entries.deep_view() =~= old(entries).deep_view().push(
                dec_rep(decimal_display(text@)) + " "@ + label@,
            ));
        }
    }
}

/// Derives the tested-animals summary of a report.
pub fn get_tested_animals(report: &AphisReport) -> (r: String)
    ensures
        r@ == spec_tested_animals(*report),
{
    let mut entries: Vec<String> = Vec::new();
    proof {
        assert(entries.deep_view() =~= Seq::<Seq<char>>::empty());
    }
    push_count_entry(&mut entries, &report.dogs, "Dogs");
    push_count_entry(&mut entries, &report.cats, "Cats");
    push_count_entry(&mut entries, &report.guinea_pigs, "Guinea Pigs");
    push_count_entry(&mut entries, &report.hamsters, "Hamsters");
    push_count_entry(&mut entries, &report.rabbits, "Rabbits");
    push_count_entry(&mut entries, &report.non_human_primates, "Non-Human Primates");
    push_count_entry(&mut entries, &report.sheep, "Sheep");
    push_count_entry(&mut entries, &report.pigs, "Pigs");
    push_count_entry(&mut entries, &report.other_farm_animals, "Other Farm Animals");
    push_count_entry(&mut entries, &report.all_other_animals, "All Other Animals");
    proof {
        assert(entries.deep_view() == tested_entries(*report));
    }
    if entries.len() == 0 {
        "Unknown".to_owned()
    } else {
        join_strings(&entries, ", ")
    }
}

} // verus!
