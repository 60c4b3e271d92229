//! Tabular data access: parsing bytes as a headered table, and looking
//! columns up by header name.
//!
//! Parsing itself is delegated to the `csv` crate behind one trusted wrapper;
//! everything that interprets the parsed table -- finding a column, reading a
//! field, checking that required columns are present -- is verified.

use vstd::prelude::*;
use vstd::string::StrSliceExecFns;

use crate::strutil::str_eq;

verus! {

/// What parsing the bytes as a headered table yields: the header row and the
/// data rows, or the parser's error text.  Parsing is a pure function of the
/// bytes, so the result only carries a name here; nothing is assumed about it
/// beyond what the wrapper below states.
pub uninterp spec fn csv_parse(data: Seq<u8>) -> Result<
    (Seq<Seq<char>>, Seq<Seq<Seq<char>>>),
    Seq<char>,
>;

/// Relies on csv::Reader: reads the bytes as a headered table,
/// deterministically; rows whose field count differs from the header's are
/// reported as errors, so every returned row is as long as the header row.
#[verifier::external_body]
pub fn parse_csv(data: &[u8]) -> (r: Result<(Vec<String>, Vec<Vec<String>>), String>)
    ensures
        match r {
            Ok(t) => csv_parse(data@) == Ok::<_, Seq<char>>((t.0.deep_view(), t.1.deep_view()))
                && (forall|i: int|
                0 <= i < t.1.deep_view().len() ==> #[trigger] t.1.deep_view()[i].len()
                    == t.0.deep_view().len()),
            Err(e) => csv_parse(data@) == Err::<(Seq<Seq<char>>, Seq<Seq<Seq<char>>>), _>(e@),
        },
{
    let mut rd = csv::Reader::from_reader(data);
    let headers: Vec<String> = match rd.headers() {
        Ok(h) => h.iter().map(|f| f.to_string()).collect(),
        Err(e) => return Err(format!("{}", e)),
    };
    let mut rows: Vec<Vec<String>> = Vec::new();
    for rec in rd.records() {
        match rec {
            Ok(row) => rows.push(row.iter().map(|f| f.to_string()).collect()),
            Err(e) => return Err(format!("{}", e)),
        }
    }
    Ok((headers, rows))
}

/// The position of the first header equal to `name`.
pub open spec fn col_index(headers: Seq<Seq<char>>, name: Seq<char>) -> Option<int>
    decreases headers.len(),
{
    if headers.len() == 0 {
        None
    } else if headers[0] == name {
        Some(0int)
    } else {
        match col_index(headers.drop_first(), name) {
            Some(i) => Some(i + 1),
            None => None,
        }
    }
}

/// When the headers before `k` all differ from `name` and the one at `k` (if
/// any) equals it, the lookup lands exactly there.
proof fn lemma_col_index_at(headers: Seq<Seq<char>>, name: Seq<char>, k: int)
    requires
        0 <= k <= headers.len(),
        forall|j: int| 0 <= j < k ==> headers[j] != name,
        k == headers.len() || headers[k] == name,
    ensures
        col_index(headers, name) == if k == headers.len() {
            None::<int>
        } else {
            Some(k)
        },
    decreases k,
{
    if k > 0 {
        lemma_col_index_at(headers.drop_first(), name, k - 1);
    }
}

/// The value of the named column in the row, if the column exists.
pub open spec fn col_value(
    headers: Seq<Seq<char>>,
    row: Seq<Seq<char>>,
    name: Seq<char>,
) -> Option<Seq<char>> {
    match col_index(headers, name) {
        Some(i) => if 0 <= i < row.len() {
            Some(row[i])
        } else {
            None
        },
        None => None,
    }
}

/// The value of the named column, with the empty text for a missing column.
pub open spec fn opt_col(headers: Seq<Seq<char>>, row: Seq<Seq<char>>, name: Seq<char>) -> Seq<
    char,
> {
    match col_value(headers, row, name) {
        Some(v) => v,
        None => Seq::empty(),
    }
}

/// Finds the position of the first header equal to `name`.
pub fn find_col(headers: &Vec<String>, name: &str) -> (r: Option<usize>)
    ensures
        match r {
            Some(i) => col_index(headers.deep_view(), name@) == Some(i as int),
            None => col_index(headers.deep_view(), name@) is None,
        },
{
    let ghost hd = headers.deep_view();
    let mut i: usize = 0;
    while i < headers.len()
        invariant
            i <= headers@.len(),
            hd == headers.deep_view(),
            hd.len() == headers@.len(),
            forall|j: int| 0 <= j < i ==> hd[j] != name@,
        decreases headers@.len() - i,
    {
        if str_eq(headers[i].as_str(), name) {
            proof {
                lemma_col_index_at(hd, name@, i as int);
            }
            return Some(i);
        }
        i = i + 1;
    }
    proof {
        lemma_col_index_at(hd, name@, hd.len() as int);
    }
    None
}

/// Reads the named column of the row, if the column exists.
pub fn get_col(headers: &Vec<String>, row: &Vec<String>, name: &str) -> (r: Option<String>)
    ensures
        match r {
            Some(v) => col_value(headers.deep_view(), row.deep_view(), name@) == Some(v@),
            None => col_value(headers.deep_view(), row.deep_view(), name@) is None,
        },
{
    match find_col(headers, name) {
        Some(i) => {
            if i < row.len() {
                Some(row[i].clone())
            } else {
                None
            }
        },
        None => None,
    }
}

/// Reads the named column of the row, with the empty string for a missing
/// column.
pub fn get_col_or_empty(headers: &Vec<String>, row: &Vec<String>, name: &str) -> (r: String)
    ensures
        r@ == opt_col(headers.deep_view(), row.deep_view(), name@),
{
    match get_col(headers, row, name) {
        Some(v) => v,
        None => String::new(),
    }
}

/// The first of the named columns that the header row lacks.
pub open spec fn first_missing(headers: Seq<Seq<char>>, names: Seq<Seq<char>>) -> Option<Seq<char>>
    decreases names.len(),
{
    if names.len() == 0 {
        None
    } else if col_index(headers, names[0]) is None {
        Some(names[0])
    } else {
        first_missing(headers, names.drop_first())
    }
}

/// Checks that every named column is present, reporting the first one that is
/// not.
pub fn check_columns(headers: &Vec<String>, names: &Vec<&str>) -> (r: Option<String>)
    ensures
        match r {
            Some(n) => first_missing(headers.deep_view(), names.deep_view()) == Some(n@),
            None => first_missing(headers.deep_view(), names.deep_view()) is None,
        },
{
    let ghost hd = headers.deep_view();
    let ghost nd = names.deep_view();
    proof {
        assert(nd.skip(0) =~= nd);
    }
    let mut i: usize = 0;
    while i < names.len()
        invariant
            i <= names@.len(),
            hd == headers.deep_view(),
            nd == names.deep_view(),
            nd.len() == names@.len(),
            first_missing(hd, nd) == first_missing(hd, nd.skip(i as int)),
            forall|j: int| 0 <= j < i ==> col_index(hd, nd[j]) is Some,
        decreases names@.len() - i,
    {
        match find_col(headers, names[i]) {
            Some(_) => {
                proof {
                    assert(nd.skip(i as int)[0] == nd[i as int]);
                    assert(nd.skip(i as int).drop_first() =~= nd.skip(i + 1));
                }
            },
            None => {
                proof {
                    assert(nd.skip(i as int)[0] == nd[i as int]);
                }
                return Some(names[i].to_owned());
            },
        }
        i = i + 1;
    }
    proof {
        assert(nd.skip(nd.len() as int) =~= Seq::<Seq<char>>::empty());
    }
    None
}

} // verus!
