//! The pagination compiler: wraps an opaque read query with a window-based
//! row count plus LIMIT/OFFSET binds, and decodes the combined result rows
//! back into a [`Page`] with total-count and page-count metadata.

use vstd::prelude::*;

use crate::sql::SqlBuffer;
use crate::sql::placeholder;

verus! {

/// Page size used when the caller does not override it.
pub const DEFAULT_PAGE_SIZE: i64 = 50;

/// A bounded slice of a query's result set plus total-match metadata.
#[derive(Clone, Debug)]
pub struct Page<T> {
    /// The decoded rows of this page, in the store's return order.
    pub data: Vec<T>,
    /// Number of rows matching the underlying query, ignoring LIMIT/OFFSET.
    pub total_count: u32,
    /// `ceil(total_count / page_size)`.
    pub page_count: u32,
    /// The page size the query was executed with.
    pub page_size: u32,
    /// The 1-based page ordinal the query was executed with.
    pub page: u32,
}

impl<T> Page<T> {
    /// The rows of this page, borrowed in order.
    pub fn iter(&self) -> (r: &[T])
        ensures
            r@ == self.data@,
    {
        self.data.as_slice()
    }

    /// Consumes the page and yields its rows, in order.
    pub fn into_data(self) -> (r: Vec<T>)
        ensures
            r@ == self.data@,
    {
        self.data
    }

    /// Transforms the rows element-wise and keeps every metadata field.
    pub fn map_into<T2, F: Fn(T) -> T2>(self, f: F) -> (r: Page<T2>)
        requires
            forall|i: int| 0 <= i < self.data@.len() ==> call_requires(f, (self.data@[i],)),
        ensures
            r.total_count == self.total_count,
            r.page_count == self.page_count,
            r.page_size == self.page_size,
            r.page == self.page,
            r.data@.len() == self.data@.len(),
            forall|i: int|
                0 <= i < self.data@.len() ==> call_ensures(f, (self.data@[i],), #[trigger] r.data@[i]),
    {
        let ghost orig = self.data@;
        let mut rest = self.data;
        let mut data: Vec<T2> = Vec::new();
        while rest.len() > 0
            invariant
                data@.len() + rest@.len() == orig.len(),
                rest@ == orig.skip(data@.len() as int),
                forall|i: int| 0 <= i < orig.len() ==> call_requires(f, (orig[i],)),
                forall|i: int| 0 <= i < data@.len() ==> call_ensures(f, (orig[i],), #[trigger] data@[i]),
            decreases rest@.len(),
        {
            let ghost n: int = data@.len() as int;
            let x = rest.remove(0);
            proof {
                assert(x == orig[n]);
                assert(rest@ =~= orig.skip(n + 1));
            }
            data.push(f(x));
        }
        Page {
            data,
            total_count: self.total_count,
            page_count: self.page_count,
            page_size: self.page_size,
            page: self.page,
        }
    }
}

/// Wraps any query value in a [`PaginatedQuery`].
pub trait PaginateQuery: Sized {
    /// Wraps `self` for the given 1-based page, at the default page size.
    fn paginate(self, page: i64) -> (r: PaginatedQuery<Self>)
        requires
            1 <= page,
            (page - 1) * DEFAULT_PAGE_SIZE <= i64::MAX,
        ensures
            r == (PaginatedQuery {
                query: self,
                page,
                page_size: DEFAULT_PAGE_SIZE,
                offset: ((page - 1) * DEFAULT_PAGE_SIZE) as i64,
            }),
    ;
}

impl<T> PaginateQuery for T {
    fn paginate(self, page: i64) -> (r: PaginatedQuery<Self>) {
        PaginatedQuery {
            query: self,
            page,
            page_size: DEFAULT_PAGE_SIZE,
            offset: (page - 1) * DEFAULT_PAGE_SIZE,
        }
    }
}

/// A query wrapped with a page ordinal, a page size and the derived offset.
#[derive(Clone, Copy, Debug)]
pub struct PaginatedQuery<T> {
    /// The wrapped read query, opaque to this layer.
    pub query: T,
    /// 1-based page ordinal.
    pub page: i64,
    /// Rows per page; bound as the LIMIT parameter.
    pub page_size: i64,
    /// `(page - 1) * page_size`; bound as the OFFSET parameter.
    pub offset: i64,
}

/// The SQL fragment emitted before the wrapped query: the projection plus
/// the window-based row count, opening the subquery.
pub fn paged_select_prefix() -> (r: &'static str)
    ensures
        r@ == "SELECT *, COUNT(*) OVER () FROM ("@,
{
    "SELECT *, COUNT(*) OVER () FROM ("
}

/// The SQL fragment emitted after the wrapped query, closing the subquery
/// and introducing the LIMIT bind.
pub fn paged_limit_fragment() -> (r: &'static str)
    ensures
        r@ == ") as paged_query_with LIMIT "@,
{
    ") as paged_query_with LIMIT "
}

/// The SQL fragment between the LIMIT bind and the OFFSET bind.
pub fn paged_offset_fragment() -> (r: &'static str)
    ensures
        r@ == " OFFSET "@,
{
    " OFFSET "
}

/// The per-row payloads of a combined `(row, total_count)` result stream.
pub open spec fn decoded_data<U>(rows: Seq<(U, i64)>) -> Seq<U> {
    rows.map_values(|p: (U, i64)| p.0)
}

/// The window count read once from the first combined row, or 0 when the
/// result stream is empty.
pub open spec fn decoded_total<U>(rows: Seq<(U, i64)>) -> int {
    if rows.len() == 0 {
        0
    } else {
        rows[0].1 as int
    }
}

/// Ceiling division: the number of pages needed for `total` rows at `size`
/// rows per page.
pub open spec fn spec_page_count(total: int, size: int) -> int {
    (total + size - 1) / size
}

impl<T> PaginatedQuery<T> {
    /// Overrides the page size and recomputes the offset.
    pub fn page_size(self, page_size: i64) -> (r: Self)
        requires
            1 <= self.page,
            1 <= page_size,
            (self.page - 1) * page_size <= i64::MAX,
        ensures
            r == (PaginatedQuery {
                page_size,
                offset: ((self.page - 1) * page_size) as i64,
                ..self
            }),
    {
        proof {
            assert(0 <= (self.page - 1) * page_size) by (nonlinear_arith)
                requires
                    1 <= self.page,
                    1 <= page_size,
            ;
        }
        let offset: i64 = (self.page - 1) * page_size;
        PaginatedQuery { page_size, offset, ..self }
    }

    /// Emits the derived query's SQL into `out`: the wrapped query's own
    /// SQL (already rendered, here `inner_sql`) inside a subquery, a
    /// window-based row count, and the page size and offset as the two
    /// trailing 64-bit bind parameters.
    pub fn walk_ast(&self, inner_sql: &str, out: &mut SqlBuffer)
        requires
            old(out).param_base + old(out).params@.len() + 2 <= usize::MAX,
        ensures
            final(out).text@ == old(out).text@ + "SELECT *, COUNT(*) OVER () FROM ("@ + inner_sql@
                + ") as paged_query_with LIMIT "@ + placeholder(
                (old(out).param_base + old(out).params@.len() + 1) as nat,
            ) + " OFFSET "@ + placeholder((old(out).param_base + old(out).params@.len() + 2) as nat),
            final(out).params@ == old(out).params@ + seq![self.page_size, self.offset],
            final(out).param_base == old(out).param_base,
    {
        out.push_sql(paged_select_prefix());
        out.push_sql(inner_sql);
        out.push_sql(paged_limit_fragment());
        out.push_bind_param(self.page_size);
        out.push_sql(paged_offset_fragment());
        out.push_bind_param(self.offset);
        proof {
            assert(out.params@ =~= old(out).params@ + seq![self.page_size, self.offset]);
        }
    }

    /// Compiles the derived query from scratch: `inner_params` is the number
    /// of bind parameters the wrapped query's SQL already uses.
    pub fn to_sql(&self, inner_sql: &str, inner_params: usize) -> (r: SqlBuffer)
        requires
            inner_params + 2 <= usize::MAX,
        ensures
            r.text@ == "SELECT *, COUNT(*) OVER () FROM ("@ + inner_sql@
                + ") as paged_query_with LIMIT "@ + placeholder((inner_params + 1) as nat)
                + " OFFSET "@ + placeholder((inner_params + 2) as nat),
            r.params@ == seq![self.page_size, self.offset],
            r.param_base == inner_params,
    {
        let mut out = SqlBuffer::new(inner_params);
        self.walk_ast(inner_sql, &mut out);
        proof {
            assert(out.params@ =~= seq![self.page_size, self.offset]);
            assert(Seq::<char>::empty() + "SELECT *, COUNT(*) OVER () FROM ("@ =~= "SELECT *, COUNT(*) OVER () FROM ("@);
        }
        out
    }

    /// Splits a combined `(row, total_count)` result stream into the page
    /// data and its metadata. The count column is constant across the rows
    /// of one result set, so it is read once from the first row; an empty
    /// stream defaults the total to 0.
    pub fn decode_rows<U>(&self, rows: Vec<(U, i64)>) -> (r: Page<U>)
        requires
            1 <= self.page <= u32::MAX,
            1 <= self.page_size <= u32::MAX,
            rows@.len() > 0 ==> 0 <= rows@[0].1 <= u32::MAX,
        ensures
            r.data@ == decoded_data(rows@),
            r.data@.len() == rows@.len(),
            r.total_count == decoded_total(rows@),
            r.page_count == spec_page_count(decoded_total(rows@), self.page_size as int),
            r.page == self.page,
            r.page_size == self.page_size,
            rows@.len() == 0 ==> r.data@.len() == 0 && r.total_count == 0,
    {
        let total_count: i64 = if rows.len() == 0 {
            0
        } else {
            rows[0].1
        };
        let page_count: i64 = (total_count + self.page_size - 1) / self.page_size;
        proof {
            assert(page_count <= total_count) by (nonlinear_arith)
                requires
                    0 <= total_count,
                    1 <= self.page_size,
                    page_count == (total_count + self.page_size - 1) / self.page_size as int,
            ;
        }

        let ghost orig = rows@;
        let mut rest = rows;
        let mut data: Vec<U> = Vec::new();
        while rest.len() > 0
            invariant
                data@.len() + rest@.len() == orig.len(),
                rest@ == orig.skip(data@.len() as int),
                data@ == decoded_data(orig.take(data@.len() as int)),
            decreases rest@.len(),
        {
            let ghost n: int = data@.len() as int;
            let p = rest.remove(0);
            proof {
                assert(p == orig[n]);
                assert(rest@ =~= orig.skip(n + 1));
                assert(decoded_data(orig.take(n + 1)) =~= decoded_data(orig.take(n)).push(p.0));
            }
            data.push(p.0);
        }
        proof {
            assert(orig.take(orig.len() as int) =~= orig);
        }

        Page {
            data,
            total_count: total_count as u32,
            page_count: page_count as u32,
            page_size: self.page_size as u32,
            page: self.page as u32,
        }
    }
}

/// Pages never exceed the requested page size: when the store honours the
/// emitted LIMIT, at most `page_size` combined rows come back, and decoding
/// keeps exactly one data element per combined row.
pub proof fn lemma_page_within_page_size<U>(rows: Seq<(U, i64)>, page_size: int)
    requires
        rows.len() <= page_size,
    ensures
        decoded_data(rows).len() <= page_size,
{
}

/// `page_count` is the ceiling of `total / size`: it covers every row, and
/// every page but possibly the last is full.
pub proof fn lemma_page_count_is_ceil(total: int, size: int)
    requires
        0 <= total,
        1 <= size,
    ensures
        spec_page_count(total, size) * size >= total,
        total > 0 ==> (spec_page_count(total, size) - 1) * size < total,
        total == 0 ==> spec_page_count(total, size) == 0,
        total % size == 0 ==> spec_page_count(total, size) == total / size,
        total % size != 0 ==> spec_page_count(total, size) == total / size + 1,
{
    let q = spec_page_count(total, size);
    assert(q * size >= total && (total > 0 ==> (q - 1) * size < total) && (total % size == 0
        ==> q == total / size) && (total % size != 0 ==> q == total / size + 1) && (total == 0
        ==> q == 0)) by (nonlinear_arith)
        requires
            0 <= total,
            1 <= size,
            q == (total + size - 1) / size,
    ;
}

} // verus!
