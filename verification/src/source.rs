//! The partitioned source: holds the query list and derived schema, and
//! plans one partition per query.
//!
//! Network round-trips stay with the embedding application: it checks
//! connections out of the pool, prepares the first query, runs the count
//! query and streams rows. The functions here take the plain values those
//! round-trips yield and perform every derivation and state change.

use vstd::prelude::*;
use vstd::string::StringExecFns;
use core::marker::PhantomData;
use crate::data_order::DataOrder;
use crate::errors::{ConnectorXError, PostgresSourceError};
use crate::sql::CXQuery;
use crate::typesystem::{
    spec_canonical_pair, spec_type_of, PgCatalogType, PostgresTypePairs, PostgresTypeSystem,
};

verus! {

/// Protocol - Binary based bulk load
pub enum BinaryProtocol {
    Tag,
}

/// Protocol - CSV based bulk load
pub enum CSVProtocol {
    Tag,
}

/// Protocol - use Cursor
pub enum CursorProtocol {
    Tag,
}

/// A copy of a vector of plain (`Copy`) values.
fn clone_copy_vec<T: Copy>(v: &Vec<T>) -> (r: Vec<T>)
    ensures
        r@ == v@,
{
    let mut out: Vec<T> = Vec::new();
    let n = v.len();
    let mut i: usize = 0;
    while i < n
        invariant
            i <= n,
            n == v@.len(),
            out@.len() == i,
            forall|j: int| 0 <= j < i ==> out@[j] == v@[j],
        decreases n - i,
    {
        out.push(v[i]);
        i = i + 1;
    }
    proof {
        assert(out@ =~= v@);
    }
    out
}

/// The scalar a count query returned, as the application extracted it from
/// the single result row, tagged by the column's catalog type. A column of
/// any non-integer catalog type is `NotInt`.
#[derive(Debug, Clone, Copy, PartialEq, Eq, Structural)]
pub enum CountValue {
    Int2(i16),
    Int4(i32),
    Int8(i64),
    NotInt,
}

/// The mathematical value of a count scalar.
pub open spec fn spec_count_val(v: CountValue) -> int {
    match v {
        CountValue::Int2(x) => x as int,
        CountValue::Int4(x) => x as int,
        CountValue::Int8(x) => x as int,
        CountValue::NotInt => 0,
    }
}

/// Interpret the scalar the count query returned as a row count.
/// Succeeds exactly on the integer catalog types; a non-negative value that
/// fits a `usize` comes back unchanged.
pub fn interpret_count(v: &CountValue) -> (r: Result<usize, PostgresSourceError>)
    ensures
        r is Ok <==> !(v is NotInt),
        !(v is NotInt) && 0 <= spec_count_val(*v) <= usize::MAX ==> r == Ok::<
            usize,
            PostgresSourceError,
        >(spec_count_val(*v) as usize),
        r matches Err(e) ==> (e matches PostgresSourceError::Other(m) && m@
            == "the result of the count query was not an int"@),
{
    match v {
        CountValue::Int2(x) => Ok(#[verifier::truncate] (*x as usize)),
        CountValue::Int4(x) => Ok(#[verifier::truncate] (*x as usize)),
        CountValue::Int8(x) => Ok(#[verifier::truncate] (*x as usize)),
        CountValue::NotInt => Err(
            PostgresSourceError::Other(
                String::from_str("the result of the count query was not an int"),
            ),
        ),
    }
}

/// The source: pool capacity, query list, optional origin query, and the
/// metadata derived from the first query. The protocol tag `P` selects
/// which partition/parser family the application will drive.
pub struct PostgresSource<P> {
    pub nconn: usize,
    pub origin_query: Option<String>,
    pub queries: Vec<CXQuery>,
    pub names: Vec<String>,
    pub schema: Vec<PostgresTypeSystem>,
    pub pg_schema: Vec<PgCatalogType>,
    pub protocol: PhantomData<P>,
}

impl<P> PostgresSource<P> {
    /// A fresh source over a pool of `nconn` connections. The application
    /// builds the pool itself and fails with `PostgresPool` when that
    /// cannot be done.
    pub fn new(nconn: usize) -> (r: PostgresSource<P>)
        requires
            nconn >= 1,
        ensures
            r.nconn == nconn,
            r.origin_query is None,
            r.queries@.len() == 0,
            r.names@.len() == 0,
            r.schema@.len() == 0,
            r.pg_schema@.len() == 0,
    {
        PostgresSource {
            nconn,
            origin_query: None,
            queries: Vec::new(),
            names: Vec::new(),
            schema: Vec::new(),
            pg_schema: Vec::new(),
            protocol: PhantomData,
        }
    }

    /// Accept a traversal order. Only row-major delivery is offered; any
    /// other order fails with `UnsupportedDataOrder` and changes nothing.
    pub fn set_data_order(&mut self, data_order: DataOrder) -> (r: Result<
        (),
        PostgresSourceError,
    >)
        ensures
            *final(self) == *old(self),
            r is Ok <==> data_order is RowMajor,
            r matches Err(e) ==> e matches PostgresSourceError::ConnectorX(
                ConnectorXError::UnsupportedDataOrder(o),
            ) && o == data_order,
    {
        match data_order {
            DataOrder::RowMajor => Ok(()),
            _ => Err(
                PostgresSourceError::ConnectorX(ConnectorXError::UnsupportedDataOrder(data_order)),
            ),
        }
    }

    /// Record the partition queries.
    pub fn set_queries(&mut self, queries: Vec<CXQuery>)
        ensures
            final(self).queries == queries,
            final(self).origin_query == old(self).origin_query,
            final(self).nconn == old(self).nconn,
            final(self).names == old(self).names,
            final(self).schema == old(self).schema,
            final(self).pg_schema == old(self).pg_schema,
    {
        self.queries = queries;
    }

    /// Record the optional origin query used to compute the total row count.
    pub fn set_origin_query(&mut self, query: Option<String>)
        ensures
            final(self).origin_query == query,
            final(self).queries == old(self).queries,
            final(self).nconn == old(self).nconn,
            final(self).names == old(self).names,
            final(self).schema == old(self).schema,
            final(self).pg_schema == old(self).pg_schema,
    {
        self.origin_query = query;
    }

    /// Derive the metadata from the columns of the prepared first query:
    /// records the column names, maps each catalog type to its logical
    /// type, and derives the canonical catalog type for binary reads.
    /// The three recorded sequences share the columns' length.
    pub fn fetch_metadata(&mut self, columns: &Vec<(String, PgCatalogType)>)
        requires
            old(self).queries@.len() > 0,
        ensures
            final(self).names@.len() == columns@.len(),
            final(self).schema@.len() == columns@.len(),
            final(self).pg_schema@.len() == columns@.len(),
            forall|i: int|
                0 <= i < columns@.len() ==> final(self).names@[i]@ == columns@[i].0@,
            forall|i: int|
                0 <= i < columns@.len() ==> final(self).schema@[i] == spec_type_of(columns@[i].1),
            forall|i: int|
                0 <= i < columns@.len() ==> final(self).pg_schema@[i] == spec_canonical_pair(
                    columns@[i].1,
                    spec_type_of(columns@[i].1),
                ),
            final(self).queries == old(self).queries,
            final(self).origin_query == old(self).origin_query,
            final(self).nconn == old(self).nconn,
    {
        let mut names: Vec<String> = Vec::new();
        let mut schema: Vec<PostgresTypeSystem> = Vec::new();
        let mut pg_schema: Vec<PgCatalogType> = Vec::new();
        let n = columns.len();
        let mut i: usize = 0;
        while i < n
            invariant
                i <= n,
                n == columns@.len(),
                names@.len() == i,
                schema@.len() == i,
                pg_schema@.len() == i,
                forall|j: int| 0 <= j < i ==> names@[j]@ == columns@[j].0@,
                forall|j: int| 0 <= j < i ==> schema@[j] == spec_type_of(columns@[j].1),
                forall|j: int|
                    0 <= j < i ==> pg_schema@[j] == spec_canonical_pair(
                        columns@[j].1,
                        spec_type_of(columns@[j].1),
                    ),
            decreases n - i,
        {
            let name = columns[i].0.clone();
            let cat = columns[i].1;
            let logical = PostgresTypeSystem::from_catalog(cat);
            let pair = PostgresTypePairs(cat, logical);
            names.push(name);
            schema.push(logical);
            pg_schema.push(pair.canonical());
            i = i + 1;
        }
        self.names = names;
        self.schema = schema;
        self.pg_schema = pg_schema;
    }

    /// The count query over the origin query, when one is set: the
    /// application runs it with `query_one` and hands the scalar of the
    /// single returned row to `interpret_count`. With no origin query
    /// there is nothing to run and no total row count.
    pub fn origin_count_query(&self) -> (r: Result<Option<CXQuery>, PostgresSourceError>)
        ensures
            match r {
                Ok(None) => self.origin_query is None,
                Ok(Some(c)) => (match self.origin_query {
                    Some(q) => crate::count::is_single_select(q@) && c.spec_str()
                        == crate::count::spec_count_query(q@),
                    None => false,
                }),
                Err(_) => (match self.origin_query {
                    Some(q) => !crate::count::is_single_select(q@),
                    None => false,
                }),
            },
    {
        match &self.origin_query {
            None => Ok(None),
            Some(q) => {
                let cx = CXQuery::Naked(q.clone());
                match crate::count::count_query(&cx) {
                    Ok(c) => Ok(Some(c)),
                    Err(e) => Err(e),
                }
            },
        }
    }

    /// A copy of the recorded column names.
    pub fn names(&self) -> (r: Vec<String>)
        ensures
            r@.len() == self.names@.len(),
            forall|i: int| 0 <= i < r@.len() ==> r@[i]@ == self.names@[i]@,
    {
        let mut out: Vec<String> = Vec::new();
        let n = self.names.len();
        let mut i: usize = 0;
        while i < n
            invariant
                i <= n,
                n == self.names@.len(),
                out@.len() == i,
                forall|j: int| 0 <= j < i ==> out@[j]@ == self.names@[j]@,
            decreases n - i,
        {
            out.push(self.names[i].clone());
            i = i + 1;
        }
        out
    }

    /// A copy of the recorded logical schema.
    pub fn schema(&self) -> (r: Vec<PostgresTypeSystem>)
        ensures
            r@ == self.schema@,
    {
        clone_copy_vec(&self.schema)
    }

    /// Consume the source into one partition per query, in input order.
    /// Each partition carries the query and its own copies of the schemas;
    /// the application pairs each with a checked-out connection.
    pub fn partition(self) -> (r: Vec<PostgresSourcePartition<P>>)
        ensures
            r@.len() == self.queries@.len(),
            forall|i: int| 0 <= i < r@.len() ==> (#[trigger] r@[i]).query.spec_eq(&self.queries@[i]),
            forall|i: int| 0 <= i < r@.len() ==> (#[trigger] r@[i]).schema@ == self.schema@,
            forall|i: int| 0 <= i < r@.len() ==> (#[trigger] r@[i]).pg_schema@ == self.pg_schema@,
            forall|i: int| 0 <= i < r@.len() ==> (#[trigger] r@[i]).nrows == 0,
            forall|i: int| 0 <= i < r@.len() ==> (#[trigger] r@[i]).ncols == self.schema@.len(),
    {
        let mut out: Vec<PostgresSourcePartition<P>> = Vec::new();
        let n = self.queries.len();
        let mut i: usize = 0;
        while i < n
            invariant
                i <= n,
                n == self.queries@.len(),
                out@.len() == i,
                forall|j: int|
                    0 <= j < i ==> (#[trigger] out@[j]).query.spec_eq(&self.queries@[j]),
                forall|j: int| 0 <= j < i ==> (#[trigger] out@[j]).schema@ == self.schema@,
                forall|j: int| 0 <= j < i ==> (#[trigger] out@[j]).pg_schema@ == self.pg_schema@,
                forall|j: int| 0 <= j < i ==> (#[trigger] out@[j]).nrows == 0,
                forall|j: int| 0 <= j < i ==> (#[trigger] out@[j]).ncols == self.schema@.len(),
            decreases n - i,
        {
            let part = PostgresSourcePartition::<P>::new(
                &self.queries[i],
                &self.schema,
                &self.pg_schema,
            );
            out.push(part);
            i = i + 1;
        }
        out
    }
}

/// One unit of parallel work: a query with its own copies of the schemas
/// and the row/column counts the writer will ask for. The application keeps
/// the checked-out connection at its side for the partition's lifetime.
pub struct PostgresSourcePartition<P> {
    pub query: CXQuery,
    pub schema: Vec<PostgresTypeSystem>,
    pub pg_schema: Vec<PgCatalogType>,
    pub nrows: usize,
    pub ncols: usize,
    pub protocol: PhantomData<P>,
}

impl<P> PostgresSourcePartition<P> {
    /// A partition over one query, with its own copies of the schemas.
    pub fn new(
        query: &CXQuery,
        schema: &Vec<PostgresTypeSystem>,
        pg_schema: &Vec<PgCatalogType>,
    ) -> (r: PostgresSourcePartition<P>)
        ensures
            r.query.spec_eq(query),
            r.schema@ == schema@,
            r.pg_schema@ == pg_schema@,
            r.nrows == 0,
            r.ncols == schema@.len(),
    {
        PostgresSourcePartition {
            query: query.duplicate(),
            schema: clone_copy_vec(schema),
            pg_schema: clone_copy_vec(pg_schema),
            nrows: 0,
            ncols: schema.len(),
            protocol: PhantomData,
        }
    }

    /// Record the partition's total row count from the scalar its count
    /// query returned. Fails, changing nothing, when the scalar was not an
    /// integer.
    pub fn result_rows(&mut self, count: &CountValue) -> (r: Result<(), PostgresSourceError>)
        ensures
            r is Ok <==> !(count is NotInt),
            r is Err ==> *final(self) == *old(self),
            !(count is NotInt) && 0 <= spec_count_val(*count) <= usize::MAX ==> final(self).nrows
                == spec_count_val(*count),
            final(self).query == old(self).query,
            final(self).schema == old(self).schema,
            final(self).pg_schema == old(self).pg_schema,
            final(self).ncols == old(self).ncols,
    {
        match interpret_count(count) {
            Ok(n) => {
                self.nrows = n;
                Ok(())
            },
            Err(e) => Err(e),
        }
    }

    /// The recorded total row count.
    pub fn nrows(&self) -> (r: usize)
        ensures
            r == self.nrows,
    {
        self.nrows
    }

    /// The number of columns a row of this partition holds.
    pub fn ncols(&self) -> (r: usize)
        ensures
            r == self.ncols,
    {
        self.ncols
    }
}

} // verus!
