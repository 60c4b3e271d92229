//! The general laws of the derivation tables, stated and proved once and for
//! all inputs: what the summaries are when nothing matches, that each
//! slaughter group contributes its label exactly once, that a pre-authored
//! list takes precedence over the flags, and that an unparsable count field
//! contributes nothing.

use vstd::prelude::*;

use crate::numeric::decimal_text;
use crate::records::AphisReport;
use crate::records::Location;
use crate::strutil::lemma_occurrences_push;
use crate::strutil::occurrences;
use crate::summary::cattle_slaughter_group;
use crate::summary::veal_calves_slaughter_group;
use crate::summary::pigs_slaughter_group;
use crate::summary::goats_slaughter_group;
use crate::summary::sheep_lambs_slaughter_group;
use crate::summary::deer_reindeer_slaughter_group;
use crate::summary::antelope_slaughter_group;
use crate::summary::elk_slaughter_group;
use crate::summary::bison_buffalo_slaughter_group;
use crate::summary::yak_slaughter_group;
use crate::summary::other_livestock_slaughter_group;
use crate::summary::rabbits_slaughter_group;
use crate::summary::chickens_slaughter_group;
use crate::summary::turkeys_slaughter_group;
use crate::summary::ducks_slaughter_group;
use crate::summary::geese_slaughter_group;
use crate::summary::pheasants_slaughter_group;
use crate::summary::quail_slaughter_group;
use crate::summary::guinea_fowl_slaughter_group;
use crate::summary::ratites_slaughter_group;
use crate::summary::squab_slaughter_group;
use crate::summary::other_poultry_slaughter_group;
use crate::summary::count_entry;
use crate::summary::processing_labels;
use crate::summary::put;
use crate::summary::slaughter_labels;
use crate::summary::spec_processed_animals;
use crate::summary::spec_slaughtered_animals;
use crate::summary::spec_tested_animals;
use crate::summary::tested_entries;
use crate::summary::yes;

verus! {

/// The canonical label of the slaughter group at position `i` of the table.
pub open spec fn slaughter_label_at(i: int) -> Seq<char> {
    if i == 0 {
        "Cattle (Cows, Bulls)"@
    } else if i == 1 {
        "Calves (Veal)"@
    } else if i == 2 {
        "Pigs"@
    } else if i == 3 {
        "Goats"@
    } else if i == 4 {
        "Sheep & Lambs"@
    } else if i == 5 {
        "Deer & Reindeer"@
    } else if i == 6 {
        "Antelope"@
    } else if i == 7 {
        "Elk"@
    } else if i == 8 {
        "Bison & Buffalo"@
    } else if i == 9 {
        "Yak"@
    } else if i == 10 {
        "Other Livestock"@
    } else if i == 11 {
        "Rabbits"@
    } else if i == 12 {
        "Chickens"@
    } else if i == 13 {
        "Turkeys"@
    } else if i == 14 {
        "Ducks"@
    } else if i == 15 {
        "Geese"@
    } else if i == 16 {
        "Pheasants"@
    } else if i == 17 {
        "Quail"@
    } else if i == 18 {
        "Guinea Fowl"@
    } else if i == 19 {
        "Ratites (Ostrich, Emu, etc.)"@
    } else if i == 20 {
        "Pigeons (Squab)"@
    } else {
        "Other Poultry"@
    }
}

/// Whether the slaughter group at position `i` of the table matches.
pub open spec fn slaughter_group_active(l: Location, i: int) -> bool {
    if i == 0 {
        cattle_slaughter_group(l)
    } else if i == 1 {
        veal_calves_slaughter_group(l)
    } else if i == 2 {
        pigs_slaughter_group(l)
    } else if i == 3 {
        goats_slaughter_group(l)
    } else if i == 4 {
        sheep_lambs_slaughter_group(l)
    } else if i == 5 {
        deer_reindeer_slaughter_group(l)
    } else if i == 6 {
        antelope_slaughter_group(l)
    } else if i == 7 {
        elk_slaughter_group(l)
    } else if i == 8 {
        bison_buffalo_slaughter_group(l)
    } else if i == 9 {
        yak_slaughter_group(l)
    } else if i == 10 {
        other_livestock_slaughter_group(l)
    } else if i == 11 {
        rabbits_slaughter_group(l)
    } else if i == 12 {
        chickens_slaughter_group(l)
    } else if i == 13 {
        turkeys_slaughter_group(l)
    } else if i == 14 {
        ducks_slaughter_group(l)
    } else if i == 15 {
        geese_slaughter_group(l)
    } else if i == 16 {
        pheasants_slaughter_group(l)
    } else if i == 17 {
        quail_slaughter_group(l)
    } else if i == 18 {
        guinea_fowl_slaughter_group(l)
    } else if i == 19 {
        ratites_slaughter_group(l)
    } else if i == 20 {
        squab_slaughter_group(l)
    } else {
        other_poultry_slaughter_group(l)
    }
}

/// No two slaughter groups share a canonical label.
#[verifier::rlimit(100)]
pub proof fn lemma_slaughter_labels_distinct()
    ensures
        forall|i: int, j: int|
            0 <= i < 22 && 0 <= j < 22 && i != j ==> slaughter_label_at(i) != slaughter_label_at(
                j,
            ),
{
    reveal_strlit("Cattle (Cows, Bulls)");
    reveal_strlit("Calves (Veal)");
    reveal_strlit("Pigs");
    reveal_strlit("Goats");
    reveal_strlit("Sheep & Lambs");
    reveal_strlit("Deer & Reindeer");
    reveal_strlit("Antelope");
    reveal_strlit("Elk");
    reveal_strlit("Bison & Buffalo");
    reveal_strlit("Yak");
    reveal_strlit("Other Livestock");
    reveal_strlit("Rabbits");
    reveal_strlit("Chickens");
    reveal_strlit("Turkeys");
    reveal_strlit("Ducks");
    reveal_strlit("Geese");
    reveal_strlit("Pheasants");
    reveal_strlit("Quail");
    reveal_strlit("Guinea Fowl");
    reveal_strlit("Ratites (Ostrich, Emu, etc.)");
    reveal_strlit("Pigeons (Squab)");
    reveal_strlit("Other Poultry");
    assert(("Cattle (Cows, Bulls)"@).len() == 20);
    assert(("Calves (Veal)"@).len() == 13);
    assert(("Pigs"@).len() == 4);
    assert(("Goats"@).len() == 5);
    assert(("Sheep & Lambs"@).len() == 13);
    assert(("Deer & Reindeer"@).len() == 15);
    assert(("Antelope"@).len() == 8);
    assert(("Elk"@).len() == 3);
    assert(("Bison & Buffalo"@).len() == 15);
    assert(("Yak"@).len() == 3);
    assert(("Other Livestock"@).len() == 15);
    assert(("Rabbits"@).len() == 7);
    assert(("Chickens"@).len() == 8);
    assert(("Turkeys"@).len() == 7);
    assert(("Ducks"@).len() == 5);
    assert(("Geese"@).len() == 5);
    assert(("Pheasants"@).len() == 9);
    assert(("Quail"@).len() == 5);
    assert(("Guinea Fowl"@).len() == 11);
    assert(("Ratites (Ostrich, Emu, etc.)"@).len() == 28);
    assert(("Pigeons (Squab)"@).len() == 15);
    assert(("Other Poultry"@).len() == 13);
    assert(("Calves (Veal)"@) != ("Sheep & Lambs"@)) by {
        assert(("Calves (Veal)"@)[0] != ("Sheep & Lambs"@)[0]);
    }
    assert(("Calves (Veal)"@) != ("Other Poultry"@)) by {
        assert(("Calves (Veal)"@)[0] != ("Other Poultry"@)[0]);
    }
    assert(("Sheep & Lambs"@) != ("Other Poultry"@)) by {
        assert(("Sheep & Lambs"@)[0] != ("Other Poultry"@)[0]);
    }
    assert(("Goats"@) != ("Ducks"@)) by {
        assert(("Goats"@)[0] != ("Ducks"@)[0]);
    }
    assert(("Goats"@) != ("Geese"@)) by {
        assert(("Goats"@)[1] != ("Geese"@)[1]);
    }
    assert(("Goats"@) != ("Quail"@)) by {
        assert(("Goats"@)[0] != ("Quail"@)[0]);
    }
    assert(("Ducks"@) != ("Geese"@)) by {
        assert(("Ducks"@)[0] != ("Geese"@)[0]);
    }
    assert(("Ducks"@) != ("Quail"@)) by {
        assert(("Ducks"@)[0] != ("Quail"@)[0]);
    }
    assert(("Geese"@) != ("Quail"@)) by {
        assert(("Geese"@)[0] != ("Quail"@)[0]);
    }
    assert(("Deer & Reindeer"@) != ("Bison & Buffalo"@)) by {
        assert(("Deer & Reindeer"@)[0] != ("Bison & Buffalo"@)[0]);
    }
    assert(("Deer & Reindeer"@) != ("Other Livestock"@)) by {
        assert(("Deer & Reindeer"@)[0] != ("Other Livestock"@)[0]);
    }
    assert(("Deer & Reindeer"@) != ("Pigeons (Squab)"@)) by {
        assert(("Deer & Reindeer"@)[0] != ("Pigeons (Squab)"@)[0]);
    }
    assert(("Bison & Buffalo"@) != ("Other Livestock"@)) by {
        assert(("Bison & Buffalo"@)[0] != ("Other Livestock"@)[0]);
    }
    assert(("Bison & Buffalo"@) != ("Pigeons (Squab)"@)) by {
        assert(("Bison & Buffalo"@)[0] != ("Pigeons (Squab)"@)[0]);
    }
    assert(("Other Livestock"@) != ("Pigeons (Squab)"@)) by {
        assert(("Other Livestock"@)[0] != ("Pigeons (Squab)"@)[0]);
    }
    assert(("Antelope"@) != ("Chickens"@)) by {
        assert(("Antelope"@)[0] != ("Chickens"@)[0]);
    }
    assert(("Elk"@) != ("Yak"@)) by {
        assert(("Elk"@)[0] != ("Yak"@)[0]);
    }
    assert(("Rabbits"@) != ("Turkeys"@)) by {
        assert(("Rabbits"@)[0] != ("Turkeys"@)[0]);
    }
    assert forall|i: int, j: int| 0 <= i < 22 && 0 <= j < 22 && i != j implies slaughter_label_at(
        i,
    ) != slaughter_label_at(j) by {
    }}

proof fn occ_put(s: Seq<Seq<char>>, c: bool, label: Seq<char>, x: Seq<char>)
    ensures
        occurrences(put(s, c, label), x) == occurrences(s, x) + if c && label == x {
            1nat
        } else {
            0nat
        },
{
    if c {
        lemma_occurrences_push(s, label, x);
    }
}

proof fn occ_slaughter_hoofed_livestock(s: Seq<Seq<char>>, l: Location, i: int, x: Seq<char>)
    requires
        0 <= i < 22,
        x == slaughter_label_at(i),
    ensures
        occurrences(crate::summary::slaughter_labels_hoofed_livestock(s, l), x) == occurrences(s, x)
            + if 0 <= i < 6 && slaughter_group_active(l, i) {
            1nat
        } else {
            0nat
        },
{
    lemma_slaughter_labels_distinct();
    let s0 = s;
    let s1 = put(s0, cattle_slaughter_group(l), "Cattle (Cows, Bulls)"@);
    occ_put(s0, cattle_slaughter_group(l), "Cattle (Cows, Bulls)"@, x);
    assert((("Cattle (Cows, Bulls)"@) == x) == (i == 0)) by {
        if i != 0 {
            assert(slaughter_label_at(0) != slaughter_label_at(i));
        }
    }
    let s2 = put(s1, veal_calves_slaughter_group(l), "Calves (Veal)"@);
    occ_put(s1, veal_calves_slaughter_group(l), "Calves (Veal)"@, x);
    assert((("Calves (Veal)"@) == x) == (i == 1)) by {
        if i != 1 {
            assert(slaughter_label_at(1) != slaughter_label_at(i));
        }
    }
    let s3 = put(s2, pigs_slaughter_group(l), "Pigs"@);
    occ_put(s2, pigs_slaughter_group(l), "Pigs"@, x);
    assert((("Pigs"@) == x) == (i == 2)) by {
        if i != 2 {
            assert(slaughter_label_at(2) != slaughter_label_at(i));
        }
    }
    let s4 = put(s3, goats_slaughter_group(l), "Goats"@);
    occ_put(s3, goats_slaughter_group(l), "Goats"@, x);
    assert((("Goats"@) == x) == (i == 3)) by {
        if i != 3 {
            assert(slaughter_label_at(3) != slaughter_label_at(i));
        }
    }
    let s5 = put(s4, sheep_lambs_slaughter_group(l), "Sheep & Lambs"@);
    occ_put(s4, sheep_lambs_slaughter_group(l), "Sheep & Lambs"@, x);
    assert((("Sheep & Lambs"@) == x) == (i == 4)) by {
        if i != 4 {
            assert(slaughter_label_at(4) != slaughter_label_at(i));
        }
    }
    let s6 = put(s5, deer_reindeer_slaughter_group(l), "Deer & Reindeer"@);
    occ_put(s5, deer_reindeer_slaughter_group(l), "Deer & Reindeer"@, x);
    assert((("Deer & Reindeer"@) == x) == (i == 5)) by {
        if i != 5 {
            assert(slaughter_label_at(5) != slaughter_label_at(i));
        }
    }
}

proof fn occ_slaughter_other_livestock(s: Seq<Seq<char>>, l: Location, i: int, x: Seq<char>)
    requires
        0 <= i < 22,
        x == slaughter_label_at(i),
    ensures
        occurrences(crate::summary::slaughter_labels_other_livestock(s, l), x) == occurrences(s, x)
            + if 6 <= i < 12 && slaughter_group_active(l, i) {
            1nat
        } else {
            0nat
        },
{
    lemma_slaughter_labels_distinct();
    let s0 = s;
    let s1 = put(s0, antelope_slaughter_group(l), "Antelope"@);
    occ_put(s0, antelope_slaughter_group(l), "Antelope"@, x);
    assert((("Antelope"@) == x) == (i == 6)) by {
        if i != 6 {
            assert(slaughter_label_at(6) != slaughter_label_at(i));
        }
    }
    let s2 = put(s1, elk_slaughter_group(l), "Elk"@);
    occ_put(s1, elk_slaughter_group(l), "Elk"@, x);
    assert((("Elk"@) == x) == (i == 7)) by {
        if i != 7 {
            assert(slaughter_label_at(7) != slaughter_label_at(i));
        }
    }
    let s3 = put(s2, bison_buffalo_slaughter_group(l), "Bison & Buffalo"@);
    occ_put(s2, bison_buffalo_slaughter_group(l), "Bison & Buffalo"@, x);
    assert((("Bison & Buffalo"@) == x) == (i == 8)) by {
        if i != 8 {
            assert(slaughter_label_at(8) != slaughter_label_at(i));
        }
    }
    let s4 = put(s3, yak_slaughter_group(l), "Yak"@);
    occ_put(s3, yak_slaughter_group(l), "Yak"@, x);
    assert((("Yak"@) == x) == (i == 9)) by {
        if i != 9 {
            assert(slaughter_label_at(9) != slaughter_label_at(i));
        }
    }
    let s5 = put(s4, other_livestock_slaughter_group(l), "Other Livestock"@);
    occ_put(s4, other_livestock_slaughter_group(l), "Other Livestock"@, x);
    assert((("Other Livestock"@) == x) == (i == 10)) by {
        if i != 10 {
            assert(slaughter_label_at(10) != slaughter_label_at(i));
        }
    }
    let s6 = put(s5, rabbits_slaughter_group(l), "Rabbits"@);
    occ_put(s5, rabbits_slaughter_group(l), "Rabbits"@, x);
    assert((("Rabbits"@) == x) == (i == 11)) by {
        if i != 11 {
            assert(slaughter_label_at(11) != slaughter_label_at(i));
        }
    }
}

proof fn occ_slaughter_fowl(s: Seq<Seq<char>>, l: Location, i: int, x: Seq<char>)
    requires
        0 <= i < 22,
        x == slaughter_label_at(i),
    ensures
        occurrences(crate::summary::slaughter_labels_fowl(s, l), x) == occurrences(s, x)
            + if 12 <= i < 17 && slaughter_group_active(l, i) {
            1nat
        } else {
            0nat
        },
{
    lemma_slaughter_labels_distinct();
    let s0 = s;
    let s1 = put(s0, chickens_slaughter_group(l), "Chickens"@);
    occ_put(s0, chickens_slaughter_group(l), "Chickens"@, x);
    assert((("Chickens"@) == x) == (i == 12)) by {
        if i != 12 {
            assert(slaughter_label_at(12) != slaughter_label_at(i));
        }
    }
    let s2 = put(s1, turkeys_slaughter_group(l), "Turkeys"@);
    occ_put(s1, turkeys_slaughter_group(l), "Turkeys"@, x);
    assert((("Turkeys"@) == x) == (i == 13)) by {
        if i != 13 {
            assert(slaughter_label_at(13) != slaughter_label_at(i));
        }
    }
    let s3 = put(s2, ducks_slaughter_group(l), "Ducks"@);
    occ_put(s2, ducks_slaughter_group(l), "Ducks"@, x);
    assert((("Ducks"@) == x) == (i == 14)) by {
        if i != 14 {
            assert(slaughter_label_at(14) != slaughter_label_at(i));
        }
    }
    let s4 = put(s3, geese_slaughter_group(l), "Geese"@);
    occ_put(s3, geese_slaughter_group(l), "Geese"@, x);
    assert((("Geese"@) == x) == (i == 15)) by {
        if i != 15 {
            assert(slaughter_label_at(15) != slaughter_label_at(i));
        }
    }
    let s5 = put(s4, pheasants_slaughter_group(l), "Pheasants"@);
    occ_put(s4, pheasants_slaughter_group(l), "Pheasants"@, x);
    assert((("Pheasants"@) == x) == (i == 16)) by {
        if i != 16 {
            assert(slaughter_label_at(16) != slaughter_label_at(i));
        }
    }
}

proof fn occ_slaughter_other_poultry(s: Seq<Seq<char>>, l: Location, i: int, x: Seq<char>)
    requires
        0 <= i < 22,
        x == slaughter_label_at(i),
    ensures
        occurrences(crate::summary::slaughter_labels_other_poultry(s, l), x) == occurrences(s, x)
            + if 17 <= i < 22 && slaughter_group_active(l, i) {
            1nat
        } else {
            0nat
        },
{
    lemma_slaughter_labels_distinct();
    let s0 = s;
    let s1 = put(s0, quail_slaughter_group(l), "Quail"@);
    occ_put(s0, quail_slaughter_group(l), "Quail"@, x);
    assert((("Quail"@) == x) == (i == 17)) by {
        if i != 17 {
            assert(slaughter_label_at(17) != slaughter_label_at(i));
        }
    }
    let s2 = put(s1, guinea_fowl_slaughter_group(l), "Guinea Fowl"@);
    occ_put(s1, guinea_fowl_slaughter_group(l), "Guinea Fowl"@, x);
    assert((("Guinea Fowl"@) == x) == (i == 18)) by {
        if i != 18 {
            assert(slaughter_label_at(18) != slaughter_label_at(i));
        }
    }
    let s3 = put(s2, ratites_slaughter_group(l), "Ratites (Ostrich, Emu, etc.)"@);
    occ_put(s2, ratites_slaughter_group(l), "Ratites (Ostrich, Emu, etc.)"@, x);
    assert((("Ratites (Ostrich, Emu, etc.)"@) == x) == (i == 19)) by {
        if i != 19 {
            assert(slaughter_label_at(19) != slaughter_label_at(i));
        }
    }
    let s4 = put(s3, squab_slaughter_group(l), "Pigeons (Squab)"@);
    occ_put(s3, squab_slaughter_group(l), "Pigeons (Squab)"@, x);
    assert((("Pigeons (Squab)"@) == x) == (i == 20)) by {
        if i != 20 {
            assert(slaughter_label_at(20) != slaughter_label_at(i));
        }
    }
    let s5 = put(s4, other_poultry_slaughter_group(l), "Other Poultry"@);
    occ_put(s4, other_poultry_slaughter_group(l), "Other Poultry"@, x);
    assert((("Other Poultry"@) == x) == (i == 21)) by {
        if i != 21 {
            assert(slaughter_label_at(21) != slaughter_label_at(i));
        }
    }
}

/// Each slaughter group contributes its canonical label to the table output
/// exactly once when any of its member flags is `"Yes"` -- however many of
/// them are -- and not at all when none is.
pub proof fn lemma_slaughter_label_exactly_once(l: Location, i: int)
    requires
        0 <= i < 22,
    ensures
        occurrences(slaughter_labels(l), slaughter_label_at(i)) == if slaughter_group_active(
            l,
            i,
        ) {
            1nat
        } else {
            0nat
        },
{
    let x = slaughter_label_at(i);
    let s0 = Seq::<Seq<char>>::empty();
    occ_slaughter_hoofed_livestock(s0, l, i, x);
    let s1 = crate::summary::slaughter_labels_hoofed_livestock(s0, l);
    occ_slaughter_other_livestock(s1, l, i, x);
    let s2 = crate::summary::slaughter_labels_other_livestock(s1, l);
    occ_slaughter_fowl(s2, l, i, x);
    let s3 = crate::summary::slaughter_labels_fowl(s2, l);
    occ_slaughter_other_poultry(s3, l, i, x);
    let s4 = crate::summary::slaughter_labels_other_poultry(s3, l);
    assert(occurrences(s0, x) == 0);
    assert(slaughter_labels(l) == s4);
}

/// A location with every slaughter flag `"No"` or empty, and no pre-authored
/// list, has the empty slaughtered-animals summary.
pub proof fn lemma_no_slaughter_flags_empty_summary(l: Location)
    requires
        l.animals_slaughtered_list@.len() == 0,
        l.beef_cow_slaughter@ == "No"@ || l.beef_cow_slaughter@.len() == 0,
        l.steer_slaughter@ == "No"@ || l.steer_slaughter@.len() == 0,
        l.heifer_slaughter@ == "No"@ || l.heifer_slaughter@.len() == 0,
        l.bull_stag_slaughter@ == "No"@ || l.bull_stag_slaughter@.len() == 0,
        l.dairy_cow_slaughter@ == "No"@ || l.dairy_cow_slaughter@.len() == 0,
        l.heavy_calf_slaughter@ == "No"@ || l.heavy_calf_slaughter@.len() == 0,
        l.bob_veal_slaughter@ == "No"@ || l.bob_veal_slaughter@.len() == 0,
        l.formula_fed_veal_slaughter@ == "No"@ || l.formula_fed_veal_slaughter@.len() == 0,
        l.non_formula_fed_veal_slaughter@ == "No"@ || l.non_formula_fed_veal_slaughter@.len() == 0,
        l.market_swine_slaughter@ == "No"@ || l.market_swine_slaughter@.len() == 0,
        l.sow_slaughter@ == "No"@ || l.sow_slaughter@.len() == 0,
        l.roaster_swine_slaughter@ == "No"@ || l.roaster_swine_slaughter@.len() == 0,
        l.boar_stag_swine_slaughter@ == "No"@ || l.boar_stag_swine_slaughter@.len() == 0,
        l.stag_swine_slaughter@ == "No"@ || l.stag_swine_slaughter@.len() == 0,
        l.feral_swine_slaughter@ == "No"@ || l.feral_swine_slaughter@.len() == 0,
        l.goat_slaughter@ == "No"@ || l.goat_slaughter@.len() == 0,
        l.young_goat_slaughter@ == "No"@ || l.young_goat_slaughter@.len() == 0,
        l.adult_goat_slaughter@ == "No"@ || l.adult_goat_slaughter@.len() == 0,
        l.sheep_slaughter@ == "No"@ || l.sheep_slaughter@.len() == 0,
        l.lamb_slaughter@ == "No"@ || l.lamb_slaughter@.len() == 0,
        l.deer_reindeer_slaughter@ == "No"@ || l.deer_reindeer_slaughter@.len() == 0,
        l.antelope_slaughter@ == "No"@ || l.antelope_slaughter@.len() == 0,
        l.elk_slaughter@ == "No"@ || l.elk_slaughter@.len() == 0,
        l.bison_slaughter@ == "No"@ || l.bison_slaughter@.len() == 0,
        l.buffalo_slaughter@ == "No"@ || l.buffalo_slaughter@.len() == 0,
        l.water_buffalo_slaughter@ == "No"@ || l.water_buffalo_slaughter@.len() == 0,
        l.cattalo_slaughter@ == "No"@ || l.cattalo_slaughter@.len() == 0,
        l.yak_slaughter@ == "No"@ || l.yak_slaughter@.len() == 0,
        l.other_voluntary_livestock_slaughter@ == "No"@ || l.other_voluntary_livestock_slaughter@.len() == 0,
        l.rabbit_slaughter@ == "No"@ || l.rabbit_slaughter@.len() == 0,
        l.young_chicken_slaughter@ == "No"@ || l.young_chicken_slaughter@.len() == 0,
        l.light_fowl_slaughter@ == "No"@ || l.light_fowl_slaughter@.len() == 0,
        l.heavy_fowl_slaughter@ == "No"@ || l.heavy_fowl_slaughter@.len() == 0,
        l.capon_slaughter@ == "No"@ || l.capon_slaughter@.len() == 0,
        l.young_turkey_slaughter@ == "No"@ || l.young_turkey_slaughter@.len() == 0,
        l.young_breeder_turkey_slaughter@ == "No"@ || l.young_breeder_turkey_slaughter@.len() == 0,
        l.old_breeder_turkey_slaughter@ == "No"@ || l.old_breeder_turkey_slaughter@.len() == 0,
        l.fryer_roaster_turkey_slaughter@ == "No"@ || l.fryer_roaster_turkey_slaughter@.len() == 0,
        l.duck_slaughter@ == "No"@ || l.duck_slaughter@.len() == 0,
        l.goose_slaughter@ == "No"@ || l.goose_slaughter@.len() == 0,
        l.pheasant_slaughter@ == "No"@ || l.pheasant_slaughter@.len() == 0,
        l.quail_slaughter@ == "No"@ || l.quail_slaughter@.len() == 0,
        l.guinea_slaughter@ == "No"@ || l.guinea_slaughter@.len() == 0,
        l.ostrich_slaughter@ == "No"@ || l.ostrich_slaughter@.len() == 0,
        l.emu_slaughter@ == "No"@ || l.emu_slaughter@.len() == 0,
        l.rhea_slaughter@ == "No"@ || l.rhea_slaughter@.len() == 0,
        l.squab_slaughter@ == "No"@ || l.squab_slaughter@.len() == 0,
        l.other_voluntary_poultry_slaughter@ == "No"@ || l.other_voluntary_poultry_slaughter@.len() == 0,
    ensures
        spec_slaughtered_animals(l) == Seq::<char>::empty(),
{
    proof_no_yes();
    assert(slaughter_labels(l) == Seq::<Seq<char>>::empty());
}

/// `"No"` and the empty text are not `"Yes"`.
proof fn proof_no_yes()
    ensures
        forall|s: Seq<char>| s == "No"@ || s.len() == 0 ==> !yes(s),
{
    reveal_strlit("No");
    reveal_strlit("Yes");
    assert(("No"@).len() == 2);
    assert(("Yes"@).len() == 3);
}

/// A location with every processing flag `"No"` or empty, and no pre-authored
/// list, has the processed-animals summary `"N/A"`.
pub proof fn lemma_no_processing_flags_na_summary(l: Location)
    requires
        l.animals_processed_list@.len() == 0,
        l.beef_processing@ == "No"@ || l.beef_processing@.len() == 0,
        l.pork_processing@ == "No"@ || l.pork_processing@.len() == 0,
        l.antelope_processing@ == "No"@ || l.antelope_processing@.len() == 0,
        l.bison_processing@ == "No"@ || l.bison_processing@.len() == 0,
        l.buffalo_processing@ == "No"@ || l.buffalo_processing@.len() == 0,
        l.deer_processing@ == "No"@ || l.deer_processing@.len() == 0,
        l.elk_processing@ == "No"@ || l.elk_processing@.len() == 0,
        l.goat_processing@ == "No"@ || l.goat_processing@.len() == 0,
        l.other_voluntary_livestock_processing@ == "No"@ || l.other_voluntary_livestock_processing@.len() == 0,
        l.rabbit_processing@ == "No"@ || l.rabbit_processing@.len() == 0,
        l.reindeer_processing@ == "No"@ || l.reindeer_processing@.len() == 0,
        l.sheep_processing@ == "No"@ || l.sheep_processing@.len() == 0,
        l.yak_processing@ == "No"@ || l.yak_processing@.len() == 0,
        l.chicken_processing@ == "No"@ || l.chicken_processing@.len() == 0,
        l.duck_processing@ == "No"@ || l.duck_processing@.len() == 0,
        l.goose_processing@ == "No"@ || l.goose_processing@.len() == 0,
        l.pigeon_processing@ == "No"@ || l.pigeon_processing@.len() == 0,
        l.ratite_processing@ == "No"@ || l.ratite_processing@.len() == 0,
        l.turkey_processing@ == "No"@ || l.turkey_processing@.len() == 0,
        l.exotic_poultry_processing@ == "No"@ || l.exotic_poultry_processing@.len() == 0,
        l.other_voluntary_poultry_processing@ == "No"@ || l.other_voluntary_poultry_processing@.len() == 0,
    ensures
        spec_processed_animals(l) == "N/A"@,
{
    proof_no_yes();
    assert(processing_labels(l) == Seq::<Seq<char>>::empty());
}

/// A report whose every count field is `"0"` or no decimal numeral at all has
/// the tested-animals summary `"Unknown"`.
pub proof fn lemma_no_counts_unknown_summary(r: AphisReport)
    requires
        r.dogs@ == "0"@ || !decimal_text(r.dogs@),
        r.cats@ == "0"@ || !decimal_text(r.cats@),
        r.guinea_pigs@ == "0"@ || !decimal_text(r.guinea_pigs@),
        r.hamsters@ == "0"@ || !decimal_text(r.hamsters@),
        r.rabbits@ == "0"@ || !decimal_text(r.rabbits@),
        r.non_human_primates@ == "0"@ || !decimal_text(r.non_human_primates@),
        r.sheep@ == "0"@ || !decimal_text(r.sheep@),
        r.pigs@ == "0"@ || !decimal_text(r.pigs@),
        r.other_farm_animals@ == "0"@ || !decimal_text(r.other_farm_animals@),
        r.all_other_animals@ == "0"@ || !decimal_text(r.all_other_animals@),
    ensures
        spec_tested_animals(r) == "Unknown"@,
{
    reveal_strlit("0");
    assert(!crate::numeric::decimal_positive("0"@));
    assert(tested_entries(r) == Seq::<Seq<char>>::empty());
}

/// A non-empty pre-authored slaughtered list is returned verbatim: the flags
/// are never consulted.
pub proof fn lemma_slaughtered_list_precedence(l: Location)
    requires
        l.animals_slaughtered_list@.len() > 0,
    ensures
        spec_slaughtered_animals(l) == l.animals_slaughtered_list@,
{
}

/// A non-empty pre-authored processed list is returned verbatim: the flags
/// are never consulted.
pub proof fn lemma_processed_list_precedence(l: Location)
    requires
        l.animals_processed_list@.len() > 0,
    ensures
        spec_processed_animals(l) == l.animals_processed_list@,
{
}

/// A count field that is no decimal numeral contributes nothing to the
/// tested-animals summary.
pub proof fn lemma_unparsable_count_skipped(text: Seq<char>, label: Seq<char>)
    requires
        !decimal_text(text),
    ensures
        count_entry(text, label) is None,
{
}

} // verus!
