//! The result pager: stitches the pages of a paginated result cursor into a
//! columnar table.
//!
//! The first row of the concatenated pages is the column-header row; every
//! following row is a data row whose cells are appended to their columns in
//! column order. A data row whose width differs from the header is a
//! `ServiceError` — rows are never silently padded. A result with only a
//! header yields a table with the declared columns and zero rows.

use crate::errors::QueryError;
use vstd::prelude::*;

verus! {

/// One page of a paginated result: the rows it holds (each an ordered row of
/// cell strings) and the continuation cursor, present when more pages follow.
pub struct ResultPage {
    pub rows: Vec<Vec<String>>,
    pub next_cursor: Option<String>,
}

/// A columnar table: ordered column names and one cell vector per column.
/// Every column vector has the same length, the table's row count.
pub struct MaterializedTable {
    pub column_names: Vec<String>,
    pub columns: Vec<Vec<String>>,
}

impl MaterializedTable {
    /// Well-formed: one column vector per column name, all of equal length.
    pub open spec fn wf(&self) -> bool {
        &&& self.columns@.len() == self.column_names@.len()
        &&& forall|i: int, j: int|
            0 <= i < self.columns@.len() && 0 <= j < self.columns@.len()
                ==> self.columns@[i]@.len() == self.columns@[j]@.len()
    }

    /// Number of columns.
    pub open spec fn width(&self) -> nat {
        self.column_names@.len()
    }

    /// Number of data rows: the length every column vector shares.
    pub open spec fn height(&self) -> nat {
        if self.columns@.len() == 0 {
            0
        } else {
            self.columns@[0]@.len()
        }
    }

    /// Number of data rows in the table.
    pub fn row_count(&self) -> (n: usize)
        ensures
            n == self.height(),
    {
        if self.columns.len() == 0 {
            0
        } else {
            self.columns[0].len()
        }
    }

    /// Number of columns in the table.
    pub fn column_count(&self) -> (n: usize)
        ensures
            n == self.width(),
    {
        self.column_names.len()
    }
}

/// The rows of a sequence of result pages, concatenated in page order, each
/// row as its sequence of cells.
pub open spec fn pages_rows(pages: Seq<ResultPage>) -> Seq<Seq<String>>
    decreases pages.len(),
{
    if pages.len() == 0 {
        Seq::empty()
    } else {
        pages_rows(pages.drop_last()) + views_of(pages.last().rows@)
    }
}

/// Each row of a sequence of row vectors, as its sequence of cells.
pub open spec fn views_of(rows: Seq<Vec<String>>) -> Seq<Seq<String>> {
    rows.map_values(|r: Vec<String>| r@)
}

/// Every row has exactly `width` cells.
pub open spec fn rows_fit(width: nat, rows: Seq<Seq<String>>) -> bool {
    forall|j: int| 0 <= j < rows.len() ==> (#[trigger] rows[j]).len() == width
}

/// The cells of column `i` across the rows, in row order.
pub open spec fn column_of(rows: Seq<Seq<String>>, i: int) -> Seq<String> {
    Seq::new(rows.len(), |j: int| rows[j][i])
}

/// Pushing a row onto a vector of rows pushes its cell view.
proof fn lemma_views_push(s: Seq<Vec<String>>, v: Vec<String>)
    ensures
        views_of(s.push(v)) == views_of(s).push(v@),
{
    assert(views_of(s.push(v)) =~= views_of(s).push(v@)) by {
        assert forall|k: int| 0 <= k < s.len() + 1 implies views_of(s.push(v))[k] == views_of(
            s,
        ).push(v@)[k] by {
            if k < s.len() {
                assert(s.push(v)[k] == s[k]);
            } else {
                assert(s.push(v)[k] == v);
            }
        }
    }
}

/// Copy a vector of strings.
fn clone_string_vec(v: &Vec<String>) -> (r: Vec<String>)
    ensures
        r@ == v@,
{
    let mut r: Vec<String> = Vec::new();
    let n = v.len();
    let mut i: usize = 0;
    while i < n
        invariant
            0 <= i <= n,
            n == v@.len(),
            r@ == v@.subrange(0, i as int),
        decreases n - i,
    {
        r.push(v[i].clone());
        proof {
            assert(r@ =~= v@.subrange(0, i + 1));
        }
        i += 1;
    }
    proof {
        assert(v@.subrange(0, n as int) =~= v@);
    }
    r
}

/// A table with the given column names and no data rows.
pub fn table_from_header(header: &Vec<String>) -> (t: MaterializedTable)
    ensures
        t.wf(),
        t.column_names@ == header@,
        t.columns@.len() == header@.len(),
        forall|i: int| 0 <= i < t.columns@.len() ==> t.columns@[i]@ == Seq::<String>::empty(),
        t.height() == 0,
{
    let n = header.len();
    let mut columns: Vec<Vec<String>> = Vec::new();
    let mut i: usize = 0;
    while i < n
        invariant
            0 <= i <= n,
            columns@.len() == i,
            forall|j: int| 0 <= j < i ==> columns@[j]@ == Seq::<String>::empty(),
        decreases n - i,
    {
        columns.push(Vec::new());
        i += 1;
    }
    MaterializedTable { column_names: clone_string_vec(header), columns }
}

/// Append one data row: each cell goes to its column, in column order.
pub fn append_row(t: &mut MaterializedTable, row: &Vec<String>)
    requires
        old(t).wf(),
        row@.len() == old(t).width(),
    ensures
        final(t).wf(),
        final(t).column_names@ == old(t).column_names@,
        final(t).columns@.len() == old(t).columns@.len(),
        forall|i: int|
            0 <= i < final(t).columns@.len() ==> final(t).columns@[i]@ == old(t).columns@[i]@.push(
                row@[i],
            ),
        old(t).width() > 0 ==> final(t).height() == old(t).height() + 1,
{
    let n = t.columns.len();
    let mut i: usize = 0;
    while i < n
        invariant
            0 <= i <= n,
            n == t.columns@.len(),
            n == old(t).columns@.len(),
            old(t).wf(),
            row@.len() == n,
            t.column_names@ == old(t).column_names@,
            forall|j: int| 0 <= j < i ==> t.columns@[j]@ == old(t).columns@[j]@.push(row@[j]),
            forall|j: int| i <= j < n ==> t.columns@[j]@ == old(t).columns@[j]@,
        decreases n - i,
    {
        let cell = row[i].clone();
        t.columns[i].push(cell);
        i += 1;
    }
    proof {
        assert forall|a: int, b: int|
            0 <= a < t.columns@.len() && 0 <= b < t.columns@.len() implies t.columns@[a]@.len()
            == t.columns@[b]@.len() by {
            assert(t.columns@[a]@ == old(t).columns@[a]@.push(row@[a]));
            assert(t.columns@[b]@ == old(t).columns@[b]@.push(row@[b]));
            assert(old(t).columns@[a]@.len() == old(t).columns@[b]@.len());
        }
        if n > 0 {
            assert(t.columns@[0]@ == old(t).columns@[0]@.push(row@[0]));
        }
    }
}

/// Append the rows from index `start` on as data rows. Fails with
/// `ServiceError`, leaving the table untouched, exactly when some such row
/// does not have one cell per column.
pub fn apply_rows(t: &mut MaterializedTable, rows: &Vec<Vec<String>>, start: usize) -> (r: Result<
    (),
    QueryError,
>)
    requires
        old(t).wf(),
        start <= rows@.len(),
    ensures
        final(t).wf(),
        final(t).column_names@ == old(t).column_names@,
        final(t).columns@.len() == old(t).columns@.len(),
        match r {
            Ok(_) => rows_fit(old(t).width(), views_of(rows@).skip(start as int)) && (forall|
                i: int,
            |
                0 <= i < final(t).columns@.len() ==> final(t).columns@[i]@ == old(t).columns@[i]@
                    + column_of(views_of(rows@).skip(start as int), i)),
            Err(e) => e is ServiceError && !rows_fit(
                old(t).width(),
                views_of(rows@).skip(start as int),
            ) && *final(t) == *old(t),
        },
{
    let width = t.column_names.len();
    let n = rows.len();
    let mut j: usize = start;
    while j < n
        invariant
            start <= j <= n,
            n == rows@.len(),
            width == t.column_names@.len(),
            old(t).wf(),
            *t == *old(t),
            forall|q: int| start <= q < j ==> (#[trigger] rows@[q])@.len() == width,
        decreases n - j,
    {
        if rows[j].len() != width {
            proof {
                assert(views_of(rows@).skip(start as int)[j - start].len() != width);
            }
            return Err(QueryError::ServiceError("result row width differs from header".to_owned()));
        }
        j += 1;
    }
    proof {
        assert forall|q: int| 0 <= q < views_of(rows@).skip(start as int).len() implies (
        #[trigger] views_of(rows@).skip(start as int)[q]).len() == width by {
            assert(views_of(rows@).skip(start as int)[q] == rows@[q + start]@);
        }
    }
    let mut j: usize = start;
    while j < n
        invariant
            start <= j <= n,
            n == rows@.len(),
            t.wf(),
            width == t.column_names@.len(),
            t.column_names@ == old(t).column_names@,
            t.columns@.len() == old(t).columns@.len(),
            rows_fit(old(t).width(), views_of(rows@).skip(start as int)),
            forall|q: int| start <= q < n ==> (#[trigger] rows@[q])@.len() == width,
            forall|i: int|
                0 <= i < t.columns@.len() ==> t.columns@[i]@ == old(t).columns@[i]@ + column_of(
                    views_of(rows@).subrange(start as int, j as int),
                    i,
                ),
        decreases n - j,
    {
        append_row(t, &rows[j]);
        proof {
            let vs = views_of(rows@);
            assert forall|i: int| 0 <= i < t.columns@.len() implies t.columns@[i]@ == old(
                t,
            ).columns@[i]@ + column_of(vs.subrange(start as int, j + 1), i) by {
                assert(column_of(vs.subrange(start as int, j + 1), i) =~= column_of(
                    vs.subrange(start as int, j as int),
                    i,
                ).push(rows@[j as int]@[i]));
            }
        }
        j += 1;
    }
    proof {
        assert(views_of(rows@).subrange(start as int, n as int) =~= views_of(rows@).skip(
            start as int,
        ));
    }
    Ok(())
}

/// Stitch a complete sequence of result pages into a table: the first row of
/// the concatenation is the column-header row, every later row a data row.
/// With no rows at all the table is empty; with only a header the table has
/// the declared columns and zero rows. Fails with `ServiceError` exactly when
/// some data row does not have one cell per header column.
pub fn collect_pages(pages: &Vec<ResultPage>) -> (r: Result<MaterializedTable, QueryError>)
    ensures
        ({
            let rows = pages_rows(pages@);
            match r {
                Ok(t) => {
                    &&& t.wf()
                    &&& if rows.len() == 0 {
                        t.column_names@.len() == 0 && t.columns@.len() == 0
                    } else {
                        &&& t.column_names@ == rows[0]
                        &&& rows_fit(rows[0].len(), rows.skip(1))
                        &&& t.columns@.len() == rows[0].len()
                        &&& (forall|i: int|
                            0 <= i < t.columns@.len() ==> t.columns@[i]@ == column_of(
                                rows.skip(1),
                                i,
                            ))
                        &&& t.columns@.len() > 0 ==> t.height() == rows.len() - 1
                    }
                },
                Err(e) => e is ServiceError && rows.len() > 0 && !rows_fit(
                    rows[0].len(),
                    rows.skip(1),
                ),
            }
        }),
{
    let np = pages.len();
    let mut all: Vec<Vec<String>> = Vec::new();
    let mut p: usize = 0;
    while p < np
        invariant
            0 <= p <= np,
            np == pages@.len(),
            views_of(all@) == pages_rows(pages@.subrange(0, p as int)),
        decreases np - p,
    {
        let page_rows = &pages[p].rows;
        let m = page_rows.len();
        let mut q: usize = 0;
        while q < m
            invariant
                0 <= q <= m,
                m == page_rows@.len(),
                page_rows@ == pages@[p as int].rows@,
                0 <= p < np,
                np == pages@.len(),
                views_of(all@) == pages_rows(pages@.subrange(0, p as int)) + views_of(
                    page_rows@.subrange(0, q as int),
                ),
            decreases m - q,
        {
            let ghost prev = all@;
            all.push(clone_string_vec(&page_rows[q]));
            proof {
                let c = all@.last();
                lemma_views_push(prev, c);
                assert(page_rows@.subrange(0, q + 1) =~= page_rows@.subrange(0, q as int).push(
                    page_rows@[q as int],
                ));
                lemma_views_push(page_rows@.subrange(0, q as int), page_rows@[q as int]);
                assert(views_of(all@) =~= pages_rows(pages@.subrange(0, p as int)) + views_of(
                    page_rows@.subrange(0, q + 1),
                ));
            }
            q += 1;
        }
        proof {
            let upto = pages@.subrange(0, p + 1);
            assert(upto.drop_last() =~= pages@.subrange(0, p as int));
            assert(page_rows@.subrange(0, m as int) =~= page_rows@);
            assert(views_of(all@) == pages_rows(upto));
        }
        p += 1;
    }
    proof {
        assert(pages@.subrange(0, np as int) =~= pages@);
    }
    if all.len() == 0 {
        let t = MaterializedTable { column_names: Vec::new(), columns: Vec::new() };
        return Ok(t);
    }
    let mut t = table_from_header(&all[0]);
    match apply_rows(&mut t, &all, 1) {
        Ok(_) => {
            proof {
                let rows = pages_rows(pages@);
                assert(views_of(all@).skip(1) =~= rows.skip(1));
                assert forall|i: int| 0 <= i < t.columns@.len() implies t.columns@[i]@ == column_of(
                    rows.skip(1),
                    i,
                ) by {
                    assert(t.columns@[i]@ =~= column_of(rows.skip(1), i));
                }
            }
            Ok(t)
        },
        Err(e) => {
            proof {
                assert(views_of(all@).skip(1) =~= pages_rows(pages@).skip(1));
            }
            Err(e)
        },
    }
}

} // verus!
