//! Row filters and table queries.
use vstd::prelude::*;

use crate::store::EmbedStore;
#[allow(unused_imports)]
use crate::columns::string_views;

verus! {

/// How many rows a query returns at most, if nothing else is said.
pub const QUERY_LIMIT: usize = 10;

/// How many documents a search returns at most, if nothing else is said.
pub const SEARCH_LIMIT: usize = 25;

/// How many documents a listing returns at most.
pub const LISTING_LIMIT: usize = 1000;

/// A query on the table: the rows that the filter lets through, no more of them
/// than the limit says; the nearest to the vector, if there is one.
#[derive(Debug)]
pub struct TableQuery {
    pub vector: Option<Vec<u32>>,
    pub filter: Option<String>,
    pub limit: usize,
}

/// A query as plain sequences.
pub struct QueryView {
    pub vector: Option<Seq<u32>>,
    pub filter: Option<Seq<char>>,
    pub limit: nat,
}

impl View for TableQuery {
    type V = QueryView;

    open spec fn view(&self) -> QueryView {
        QueryView {
            vector: match self.vector {
                Some(vector) => Some(vector@),
                None => None,
            },
            filter: match self.filter {
                Some(filter) => Some(filter@),
                None => None,
            },
            limit: self.limit as nat,
        }
    }
}

/// The filter, as characters.
pub open spec fn filter_view(filter: Option<&str>) -> Option<Seq<char>> {
    match filter {
        Some(clause) => Some(clause@),
        None => None,
    }
}

/// The limit, or what it is by default.
pub open spec fn limit_or(limit: Option<usize>, default: usize) -> nat {
    match limit {
        Some(n) => n as nat,
        None => default as nat,
    }
}

/// The filter that lets through the rows with the given identifier.
pub open spec fn id_filter(id: Seq<char>) -> Seq<char> {
    "id = '"@ + id + "'"@
}

/// The identifiers, one after the other, with a comma and a space between them.
pub open spec fn comma_separated(ids: Seq<Seq<char>>) -> Seq<char>
    decreases ids.len(),
{
    if ids.len() == 0 {
        Seq::empty()
    } else if ids.len() == 1 {
        ids[0]
    } else {
        comma_separated(ids.drop_last()) + ", "@ + ids.last()
    }
}

/// The predicate by which rows are deleted: the identifiers, comma separated,
/// between one pair of quotes.
pub open spec fn delete_predicate(ids: Seq<Seq<char>>) -> Seq<char> {
    "id in ('"@ + comma_separated(ids) + "')"@
}

impl EmbedStore {
    /// The nearest-neighbour query for a vector.
    pub fn execute_search(query: Vec<u32>, filter: Option<&str>, limit: Option<usize>) -> (request:
        TableQuery)
        ensures
            request@ == (QueryView {
                vector: Some(query@),
                filter: filter_view(filter),
                limit: limit_or(limit, QUERY_LIMIT),
            }),
            request.vector matches Some(vector) && vector@ == query@,
            match filter {
                Some(clause) => request.filter matches Some(f) && f@ == clause@,
                None => request.filter is None,
            },
            match limit {
                Some(n) => request.limit == n,
                None => request.limit == 10,
            },
    {
        Self::execute_query(Some(query), filter, limit)
    }

    /// The query for all rows, or for the rows nearest to a vector.
    pub fn execute_query(
        query: Option<Vec<u32>>,
        filter: Option<&str>,
        limit: Option<usize>,
    ) -> (request: TableQuery)
        ensures
            request@ == (QueryView {
                vector: match query {
                    Some(vector) => Some(vector@),
                    None => None,
                },
                filter: filter_view(filter),
                limit: limit_or(limit, QUERY_LIMIT),
            }),
            request.vector == query,
            match filter {
                Some(clause) => request.filter matches Some(f) && f@ == clause@,
                None => request.filter is None,
            },
            match limit {
                Some(n) => request.limit == n,
                None => request.limit == 10,
            },
    {
        let filter = match filter {
            Some(filter_clause) => Some(filter_clause.to_string()),
            None => None,
        };
        TableQuery { vector: query, filter, limit: limit.unwrap_or(QUERY_LIMIT) }
    }

    /// The filter by which one document is looked up.
    pub fn id_filter(id: &str) -> (filter: String)
        ensures
            filter@ == id_filter(id@),
            filter@ == "id = '"@ + id@ + "'"@,
    {
        let mut filter = "id = '".to_string();
        filter.append(id);
        filter.append("'");
        filter
    }

    /// The predicate by which documents are deleted.
    pub fn delete_predicate(ids: &Vec<String>) -> (predicate: String)
        ensures
            predicate@ == delete_predicate(string_views(ids@)),
            predicate@ == "id in ('"@ + comma_separated(string_views(ids@)) + "')"@,
    {
        let ghost views = string_views(ids@);
        let mut joined = String::new();
        let mut next: usize = 0;
        assert(views.take(0) =~= Seq::empty());
        while next < ids.len()
            invariant
                next <= ids@.len(),
                views == string_views(ids@),
                joined@ == comma_separated(views.take(next as int)),
            decreases ids@.len() - next,
        {
            proof {
                assert(views.take(next + 1).drop_last() =~= views.take(next as int));
                assert(views.take(next + 1).last() == ids@[next as int]@);
            }
            if next > 0 {
                joined.append(", ");
            }
            joined.append(ids[next].as_str());
            assert(joined@ =~= comma_separated(views.take(next + 1)));
            next = next + 1;
        }
        assert(views.take(next as int) =~= views);
        let mut predicate = "id in ('".to_string();
        predicate.append(joined.as_str());
        predicate.append("')");
        predicate
    }
}

} // verus!
