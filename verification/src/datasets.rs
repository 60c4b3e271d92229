//! The dataset readers behind the three endpoints: a partitioned read for
//! locations, and flat reads for the research and inspection reports.
//!
//! The location data is organised into named partitions, one per country;
//! a read may select one partition by name or scan all of them, tagging each
//! record with the name of the partition it came from.  An unknown partition
//! name selects nothing and yields the empty result; any parse failure aborts
//! the whole read.

use vstd::prelude::*;
use vstd::string::StrSliceExecFns;

use crate::loader::aphis_from_row;
use crate::loader::aphis_reports_from_table;
use crate::loader::aphis_rows_ok;
use crate::loader::aphis_table_error;
use crate::loader::inspection_from_row;
use crate::loader::inspection_reports_from_table;
use crate::loader::inspection_rows_ok;
use crate::loader::inspection_table_error;
use crate::loader::location_rows_ok;
use crate::loader::location_table_error;
use crate::loader::locations_from_table;
use crate::loader::response_matches_row;
use crate::loader::LoadError;
use crate::numeric::decimal_text;
use crate::records::AphisReport;
use crate::records::InspectionReport;
use crate::records::LocationResponse;
use crate::strutil::str_eq;
use crate::table::csv_parse;
use crate::table::opt_col;
use crate::table::parse_csv;

verus! {

/// One named partition of the location dataset: the partition name (a
/// country code) and the bytes of its location table.
pub struct Partition {
    pub name: String,
    pub data: Vec<u8>,
}

/// Whether a read for `country` takes this partition: a named country takes
/// only the partition of that name, no name takes every partition.
pub open spec fn selected(p: Partition, country: Option<String>) -> bool {
    match country {
        Some(c) => p.name@ == c@,
        None => true,
    }
}

/// The rows a partition contributes, each with the partition's name and the
/// partition table's header row.
pub open spec fn partition_rows(p: Partition) -> Seq<(Seq<char>, Seq<Seq<char>>, Seq<Seq<char>>)> {
    match csv_parse(p.data@) {
        Ok(t) => t.1.map(|i: int, row: Seq<Seq<char>>| (p.name@, t.0, row)),
        Err(m) => Seq::empty(),
    }
}

/// The partition's bytes parse as a table and every row reads as a location.
pub open spec fn partition_ok(p: Partition) -> bool {
    csv_parse(p.data@) matches Ok(t) && location_rows_ok(t.0, t.1)
}

/// Every selected partition is readable.
pub open spec fn partitions_ok(ps: Seq<Partition>, country: Option<String>) -> bool {
    forall|i: int| 0 <= i < ps.len() ==> (selected(#[trigger] ps[i], country) ==> partition_ok(ps[i]))
}

/// The rows of the selected partitions, in partition order.
pub open spec fn expected_rows(ps: Seq<Partition>, country: Option<String>) -> Seq<
    (Seq<char>, Seq<Seq<char>>, Seq<Seq<char>>),
>
    decreases ps.len(),
{
    if ps.len() == 0 {
        Seq::empty()
    } else {
        expected_rows(ps.drop_last(), country) + if selected(ps.last(), country) {
            partition_rows(ps.last())
        } else {
            Seq::empty()
        }
    }
}

/// The error a failing read reports: that of the first selected partition
/// that is unreadable -- the table reader's own report where the bytes are no
/// table, else the error of the partition's first unreadable row.
pub open spec fn partitions_error(e: LoadError, ps: Seq<Partition>, country: Option<String>) -> bool
    decreases ps.len(),
{
    if ps.len() == 0 {
        false
    } else if selected(ps[0], country) && !partition_ok(ps[0]) {
        match csv_parse(ps[0].data@) {
            Ok(t) => location_table_error(e, t.0, t.1),
            Err(m) => e matches LoadError::Table(s) && s@ == m,
        }
    } else {
        partitions_error(e, ps.drop_first(), country)
    }
}

/// The first failure among the selected partitions is the reported one.
proof fn lemma_partitions_error_at(
    e: LoadError,
    ps: Seq<Partition>,
    country: Option<String>,
    j: int,
)
    requires
        0 <= j < ps.len(),
        forall|k: int| 0 <= k < j ==> (selected(#[trigger] ps[k], country) ==> partition_ok(ps[k])),
        selected(ps[j], country),
        !partition_ok(ps[j]),
        match csv_parse(ps[j].data@) {
            Ok(t) => location_table_error(e, t.0, t.1),
            Err(m) => e matches LoadError::Table(s) && s@ == m,
        },
    ensures
        partitions_error(e, ps, country),
    decreases j,
{
    if j == 0 {
    } else {
        assert(!(selected(ps[0], country) && !partition_ok(ps[0])));
        lemma_partitions_error_at(e, ps.drop_first(), country, j - 1);
    }
}

/// Reads the location dataset: only the named partition when a country is
/// given, every partition otherwise, each record tagged with its partition's
/// name and carrying both derived summaries.  A country naming no partition
/// yields the empty result; the first unreadable partition aborts the read.
pub fn read_locations(partitions: &Vec<Partition>, country: &Option<String>) -> (r: Result<
    Vec<LocationResponse>,
    LoadError,
>)
    ensures
        r is Ok <==> partitions_ok(partitions@, *country),
        r matches Ok(v) ==> v@.len() == expected_rows(partitions@, *country).len(),
        r matches Ok(v) ==> forall|k: int|
            0 <= k < expected_rows(partitions@, *country).len() ==> response_matches_row(
                #[trigger] v@[k],
                expected_rows(partitions@, *country)[k].0,
                expected_rows(partitions@, *country)[k].1,
                expected_rows(partitions@, *country)[k].2,
            ),
        r matches Err(e) ==> partitions_error(e, partitions@, *country),
{
    let ghost pd = partitions@;
    let mut out: Vec<LocationResponse> = Vec::new();
    proof {
        assert(pd.take(0) =~= Seq::<Partition>::empty());
    }
    let mut i: usize = 0;
    while i < partitions.len()
        invariant
            i <= pd.len(),
            pd == partitions@,
            forall|k: int|
                0 <= k < i ==> (selected(#[trigger] pd[k], *country) ==> partition_ok(pd[k])),
            out@.len() == expected_rows(pd.take(i as int), *country).len(),
            forall|k: int|
                0 <= k < out@.len() ==> response_matches_row(
                    #[trigger] out@[k],
                    expected_rows(pd.take(i as int), *country)[k].0,
                    expected_rows(pd.take(i as int), *country)[k].1,
                    expected_rows(pd.take(i as int), *country)[k].2,
                ),
        decreases pd.len() - i,
    {
        let p = &partitions[i];
        let sel = match country {
            Some(c) => str_eq(p.name.as_str(), c.as_str()),
            None => true,
        };
        proof {
            assert(sel == selected(pd[i as int], *country));
            assert(pd.take(i + 1).drop_last() =~= pd.take(i as int));
            assert(pd.take(i + 1).last() == pd[i as int]);
        }
        if sel {
            match parse_csv(p.data.as_slice()) {
                Ok(table) => {
                    let (headers, rows) = table;
                    match locations_from_table(&p.name, &headers, &rows) {
                        Ok(mut vs) => {
                            proof {
                                let ghost exp = expected_rows(pd.take(i as int), *country);
                                let ghost fresh = partition_rows(pd[i as int]);
                                assert(fresh.len() == rows.deep_view().len());
                                assert(expected_rows(pd.take(i + 1), *country) =~= exp + fresh);
                                assert forall|k: int| 0 <= k < fresh.len() implies fresh[k]
                                    == (p.name@, headers.deep_view(), rows.deep_view()[k]) by {}
                            }
                            out.append(&mut vs);
                            proof {
                                let ghost expn = expected_rows(pd.take(i + 1), *country);
                                assert forall|k: int| 0 <= k < out@.len() implies
                                    response_matches_row(
                                        #[trigger] out@[k],
                                        expn[k].0,
                                        expn[k].1,
                                        expn[k].2,
                                    ) by {}
                            }
                        },
                        Err(e) => {
                            proof {
                                assert(!partition_ok(pd[i as int]));
                                lemma_partitions_error_at(e, pd, *country, i as int);
                                assert(!partitions_ok(pd, *country));
                            }
                            return Err(e);
                        },
                    }
                },
                Err(m) => {
                    let e = LoadError::Table(m);
                    proof {
                        assert(!partition_ok(pd[i as int]));
                        lemma_partitions_error_at(e, pd, *country, i as int);
                        assert(!partitions_ok(pd, *country));
                    }
                    return Err(e);
                },
            }
        } else {
            proof {
                assert(expected_rows(pd.take(i + 1), *country) =~= expected_rows(
                    pd.take(i as int),
                    *country,
                ));
            }
        }
        i = i + 1;
    }
    proof {
        assert(pd.take(pd.len() as int) =~= pd);
    }
    Ok(out)
}

/// Reads the research-report dataset from the bytes of its table, deriving
/// each report's tested-animals summary.
pub fn read_aphis_reports(data: &[u8]) -> (r: Result<Vec<AphisReport>, LoadError>)
    ensures
        r is Ok <==> (csv_parse(data@) matches Ok(t) && aphis_rows_ok(t.0, t.1)),
        r matches Ok(v) ==> (csv_parse(data@) matches Ok(t) && v@.len() == t.1.len() && (forall|
            i: int,
        |
            0 <= i < t.1.len() ==> aphis_from_row(#[trigger] v@[i], t.0, t.1[i]))),
        r matches Err(e) ==> match csv_parse(data@) {
            Ok(t) => aphis_table_error(e, t.0, t.1),
            Err(m) => e matches LoadError::Table(s) && s@ == m,
        },
{
    match parse_csv(data) {
        Ok(table) => {
            let (headers, rows) = table;
            aphis_reports_from_table(&headers, &rows)
        },
        Err(m) => Err(LoadError::Table(m)),
    }
}

/// Reads the inspection-report dataset from the bytes of its table.
pub fn read_inspection_reports(data: &[u8]) -> (r: Result<Vec<InspectionReport>, LoadError>)
    ensures
        r is Ok <==> (csv_parse(data@) matches Ok(t) && inspection_rows_ok(t.0, t.1)),
        r matches Ok(v) ==> (csv_parse(data@) matches Ok(t) && v@.len() == t.1.len() && (forall|
            i: int,
        |
            0 <= i < t.1.len() ==> inspection_from_row(#[trigger] v@[i], t.0, t.1[i]))),
        r matches Err(e) ==> match csv_parse(data@) {
            Ok(t) => inspection_table_error(e, t.0, t.1),
            Err(m) => e matches LoadError::Table(s) && s@ == m,
        },
{
    match parse_csv(data) {
        Ok(table) => {
            let (headers, rows) = table;
            inspection_reports_from_table(&headers, &rows)
        },
        Err(m) => Err(LoadError::Table(m)),
    }
}

/// A country code that names no partition selects nothing: the read owes the
/// empty result, and cannot fail.
pub proof fn lemma_unknown_country_empty(ps: Seq<Partition>, c: String)
    requires
        forall|i: int| 0 <= i < ps.len() ==> (#[trigger] ps[i].name)@ != c@,
    ensures
        partitions_ok(ps, Some(c)),
        expected_rows(ps, Some(c)).len() == 0,
    decreases ps.len(),
{
    if ps.len() > 0 {
        lemma_unknown_country_empty(ps.drop_last(), c);
    }
}

/// A read with no country takes every partition: the rows of each partition
/// stand in the result at that partition's offset, in partition order.
pub proof fn lemma_partition_rows_included(
    ps: Seq<Partition>,
    country: Option<String>,
    j: int,
    k: int,
)
    requires
        0 <= j < ps.len(),
        selected(ps[j], country),
        0 <= k < partition_rows(ps[j]).len(),
    ensures
        0 <= expected_rows(ps.take(j), country).len() + k < expected_rows(ps, country).len(),
        expected_rows(ps, country)[expected_rows(ps.take(j), country).len() + k]
            == partition_rows(ps[j])[k],
    decreases ps.len(),
{
    assert(expected_rows(ps, country) == expected_rows(ps.drop_last(), country) + if selected(
        ps.last(),
        country,
    ) {
        partition_rows(ps.last())
    } else {
        Seq::empty()
    });
    if j == ps.len() - 1 {
        assert(ps.take(j) =~= ps.drop_last());
    } else {
        lemma_partition_rows_included(ps.drop_last(), country, j, k);
        assert(ps.drop_last().take(j) =~= ps.take(j));
        assert(ps.drop_last()[j] == ps[j]);
    }
}

/// Every record of a read is tagged with the name of a selected partition.
pub proof fn lemma_rows_tagged(ps: Seq<Partition>, country: Option<String>, k: int)
    requires
        0 <= k < expected_rows(ps, country).len(),
    ensures
        exists|j: int|
            0 <= j < ps.len() && selected(#[trigger] ps[j], country) && expected_rows(ps, country)[k].0
                == ps[j].name@,
    decreases ps.len(),
{
    let front = expected_rows(ps.drop_last(), country);
    if k < front.len() {
        lemma_rows_tagged(ps.drop_last(), country, k);
        let j = choose|j: int|
            0 <= j < ps.drop_last().len() && selected(#[trigger] ps.drop_last()[j], country)
                && front[k].0 == ps.drop_last()[j].name@;
        assert(ps[j] == ps.drop_last()[j]);
        assert(selected(ps[j], country) && expected_rows(ps, country)[k].0 == ps[j].name@);
    } else {
        assert(selected(ps.last(), country));
        assert(expected_rows(ps, country)[k] == partition_rows(ps.last())[k - front.len()]);
        assert(ps[ps.len() - 1] == ps.last());
    }
}

/// A selected partition holding a row with a malformed latitude makes the
/// whole locations read fail.
pub proof fn lemma_bad_coordinate_fails_read(
    ps: Seq<Partition>,
    country: Option<String>,
    j: int,
    i: int,
)
    requires
        0 <= j < ps.len(),
        selected(ps[j], country),
        csv_parse(ps[j].data@) matches Ok(t) && 0 <= i < t.1.len() && !decimal_text(
            opt_col(t.0, t.1[i], "latitude"@),
        ),
    ensures
        !partitions_ok(ps, country),
{
    let t = csv_parse(ps[j].data@)->Ok_0;
    assert(!crate::loader::location_row_ok(t.0, t.1[i]));
    assert(!partition_ok(ps[j]));
}

} // verus!
