use vstd::prelude::*;
use vstd::string::StringExecFns;

use crate::common::{
    comma_joined, execute, format_indexes_and_types, format_query_string, names_view,
    push_comma_joined, query_string, shard_counts_of, target_path, Method, Options, Request,
    ShardCountResult, Transport, STATUS_OK,
};
use crate::error::EsError;
use crate::json::{
    field_of, get_i64, get_string, i64_field, is_number, str_field, take_field, Json,
};

verus! {

/// The `search_type` parameter's values.
#[derive(Debug, Clone, Copy, PartialEq, Eq, Structural)]
pub enum SearchType {
    DFSQueryThenFetch,
    DFSQueryAndFetch,
    QueryThenFetch,
    QueryAndFetch,
}

/// The wire name of a search type.
pub open spec fn search_type_name(t: SearchType) -> Seq<char> {
    match t {
        SearchType::DFSQueryThenFetch => "dfs_query_then_fetch"@,
        SearchType::DFSQueryAndFetch => "dfs_query_and_fetch"@,
        SearchType::QueryThenFetch => "query_then_fetch"@,
        SearchType::QueryAndFetch => "query_and_fetch"@,
    }
}

impl SearchType {
    /// The wire name, as the `search_type` parameter takes it.
    pub fn to_string(&self) -> (r: String)
        ensures
            r@ == search_type_name(*self),
    {
        match self {
            SearchType::DFSQueryThenFetch => String::from_str("dfs_query_then_fetch"),
            SearchType::DFSQueryAndFetch => String::from_str("dfs_query_and_fetch"),
            SearchType::QueryThenFetch => String::from_str("query_then_fetch"),
            SearchType::QueryAndFetch => String::from_str("query_and_fetch"),
        }
    }
}

/// One matching document of a search answer.
#[derive(Debug)]
pub struct SearchHitsHitsResult {
    pub index: String,
    pub doc_type: String,
    pub id: String,
    /// The relevance score, a JSON number as received.
    pub score: Json,
    pub source: Option<Json>,
    pub fields: Option<Json>,
}

/// Whether `j` holds the required fields of a hit, each with its JSON type.
pub open spec fn hit_fields_present(j: Json) -> bool {
    &&& str_field(j, "_index"@) is Some
    &&& str_field(j, "_type"@) is Some
    &&& str_field(j, "_id"@) is Some
    &&& field_of(j, "_score"@) matches Some(s) && is_number(s)
}

/// Whether `r` is the hit that `j` holds, field by wire key.
pub open spec fn is_hit_of(r: SearchHitsHitsResult, j: Json) -> bool {
    &&& str_field(j, "_index"@) == Some(r.index@)
    &&& str_field(j, "_type"@) == Some(r.doc_type@)
    &&& str_field(j, "_id"@) == Some(r.id@)
    &&& field_of(j, "_score"@) == Some(r.score)
    &&& is_number(r.score)
    &&& r.source == field_of(j, "_source"@)
    &&& r.fields == field_of(j, "fields"@)
}

fn is_number_exec(j: &Json) -> (r: bool)
    ensures
        r == is_number(*j),
{
    match j {
        Json::I64(_) | Json::U64(_) | Json::Float(_) => true,
        _ => false,
    }
}

impl SearchHitsHitsResult {
    /// The stored document, or `EsError::NoSourceField` where the hit carries none.
    pub fn source(self) -> (r: Result<Json, EsError>)
        ensures
            match self.source {
                Some(s) => r == Ok::<Json, EsError>(s),
                None => r matches Err(EsError::NoSourceField),
            },
    {
        match self.source {
            Some(s) => Ok(s),
            None => Err(EsError::NoSourceField),
        }
    }

    /// Decodes one hit; `_source` and `fields` are kept as they came, where present.
    pub fn from_json(j: Json) -> (r: Result<SearchHitsHitsResult, EsError>)
        ensures
            match r {
                Ok(h) => is_hit_of(h, j),
                Err(e) => !hit_fields_present(j) && e is Decode,
            },
    {
        let index = get_string(&j, "_index")?;
        let doc_type = get_string(&j, "_type")?;
        let id = get_string(&j, "_id")?;
        let ghost orig = j;
        match j {
            Json::Object(fields) => {
                proof {
                    reveal_strlit("_score");
                    reveal_strlit("_source");
                    reveal_strlit("fields");
                    assert("_score"@.len() != "_source"@.len());
                    assert("_score"@[0] != "fields"@[0]);
                    assert("_source"@.len() != "fields"@.len());
                }
                let mut fields = fields;
                let score = take_field(&mut fields, "_score");
                let source = take_field(&mut fields, "_source");
                let fs = take_field(&mut fields, "fields");
                match score {
                    Some(score) => {
                        if is_number_exec(&score) {
                            Ok(SearchHitsHitsResult { index, doc_type, id, score, source, fields: fs })
                        } else {
                            Err(EsError::Decode(String::from_str("_score")))
                        }
                    },
                    None => Err(EsError::Decode(String::from_str("_score"))),
                }
            },
            _ => Err(EsError::Decode(String::from_str("_score"))),
        }
    }
}

/// The hits of a search answer: how many documents matched, and those returned.
#[derive(Debug)]
pub struct SearchHitsResult {
    pub total: i64,
    pub hits: Vec<SearchHitsHitsResult>,
}

/// Whether `j` holds an array under `hits`.
pub open spec fn has_hit_array(j: Json) -> bool {
    field_of(j, "hits"@) matches Some(Json::Array(_))
}

/// The items of the array under `hits` (empty where there is none).
pub open spec fn hit_items(j: Json) -> Seq<Json> {
    match field_of(j, "hits"@) {
        Some(Json::Array(a)) => a@,
        _ => Seq::empty(),
    }
}

/// Whether `j` is `{"total": int, "hits": [hit, ...]}` with every hit well formed.
pub open spec fn hits_fields_present(j: Json) -> bool {
    &&& i64_field(j, "total"@) is Some
    &&& has_hit_array(j)
    &&& forall|i: int| 0 <= i < hit_items(j).len() ==> hit_fields_present(#[trigger] hit_items(j)[i])
}

/// Whether `r` is the hits summary that `j` holds, hits in the order received.
pub open spec fn is_hits_of(r: SearchHitsResult, j: Json) -> bool {
    &&& i64_field(j, "total"@) == Some(r.total)
    &&& has_hit_array(j)
    &&& r.hits@.len() == hit_items(j).len()
    &&& forall|i: int| 0 <= i < hit_items(j).len() ==> is_hit_of(#[trigger] r.hits@[i], hit_items(j)[i])
}

impl SearchHitsResult {
    /// Decodes the hits summary.
    pub fn from_json(j: Json) -> (r: Result<SearchHitsResult, EsError>)
        ensures
            match r {
                Ok(h) => is_hits_of(h, j),
                Err(e) => !hits_fields_present(j) && e is Decode,
            },
    {
        let total = get_i64(&j, "total")?;
        let ghost orig = j;
        match j {
            Json::Object(fields) => {
                let mut fields = fields;
                let items = take_field(&mut fields, "hits");
                match items {
                    Some(Json::Array(items)) => {
                        let ghost all = items@;
                        let ghost orig_items = items;
                        let n = items.len();
                        let mut items = items;
                        let mut hits: Vec<SearchHitsHitsResult> = Vec::new();
                        let mut i: usize = 0;
                        while i < n
                            invariant
                                n == all.len(),
                                i <= n,
                                all == orig_items@,
                                orig == j,
                                field_of(orig, "hits"@) == Some(Json::Array(orig_items)),
                                i64_field(orig, "total"@) == Some(total),
                                items@ == all.subrange(i as int, n as int),
                                hits@.len() == i,
                                forall|k: int| 0 <= k < i ==> is_hit_of(#[trigger] hits@[k], all[k]),
                            decreases n - i,
                        {
                            let item = items.remove(0);
                            assert(item == all[i as int]);
                            match SearchHitsHitsResult::from_json(item) {
                                Ok(h) => hits.push(h),
                                Err(e) => {
                                    assert(!hit_fields_present(orig_items@[i as int]));
                                    assert(hit_items(orig) == orig_items@);
                                    assert(!hits_fields_present(orig));
                                    return Err(e);
                                },
                            }
                            assert(items@ =~= all.subrange(i + 1, n as int));
                            i = i + 1;
                        }
                        Ok(SearchHitsResult { total, hits })
                    },
                    _ => Err(EsError::Decode(String::from_str("hits"))),
                }
            },
            _ => Err(EsError::Decode(String::from_str("hits"))),
        }
    }
}

/// A search answer: shard counts and hits.
#[derive(Debug)]
pub struct SearchResult {
    pub shards: ShardCountResult,
    pub hits: SearchHitsResult,
}

/// Whether `j` holds well-formed `_shards` and `hits`.
pub open spec fn search_fields_present(j: Json) -> bool {
    &&& field_of(j, "_shards"@) matches Some(s) && shard_counts_of(s) is Some
    &&& field_of(j, "hits"@) matches Some(h) && hits_fields_present(h)
}

/// Whether `r` is the search answer that `j` holds.
pub open spec fn is_search_result_of(r: SearchResult, j: Json) -> bool {
    &&& field_of(j, "_shards"@) matches Some(s) && shard_counts_of(s) == Some(r.shards)
    &&& field_of(j, "hits"@) matches Some(h) && is_hits_of(r.hits, h)
}

/// What a search answer with `status` and `body` decodes to.
pub open spec fn search_response_ok(status: u16, body: Option<Json>, r: Result<SearchResult, EsError>) -> bool {
    if status != STATUS_OK {
        r matches Err(EsError::UnexpectedStatus(s)) && s == status
    } else {
        match body {
            Some(j) => match r {
                Ok(d) => is_search_result_of(d, j),
                Err(e) => !search_fields_present(j) && e is Decode,
            },
            None => r matches Err(EsError::Decode(_)),
        }
    }
}

impl SearchResult {
    /// Decodes `{"_shards": {...}, "hits": {...}}`.
    pub fn from_json(j: Json) -> (r: Result<SearchResult, EsError>)
        ensures
            match r {
                Ok(d) => is_search_result_of(d, j),
                Err(e) => !search_fields_present(j) && e is Decode,
            },
    {
        let shards = match j.find("_shards") {
            Some(s) => ShardCountResult::from_json(s)?,
            None => {
                return Err(EsError::Decode(String::from_str("_shards")));
            },
        };
        match j {
            Json::Object(fields) => {
                let mut fields = fields;
                match take_field(&mut fields, "hits") {
                    Some(h) => {
                        let hits = SearchHitsResult::from_json(h)?;
                        Ok(SearchResult { shards, hits })
                    },
                    None => Err(EsError::Decode(String::from_str("hits"))),
                }
            },
            _ => Err(EsError::Decode(String::from_str("hits"))),
        }
    }

    /// Interprets a search answer: 200 decodes the body, any other status is an error.
    pub fn response(status: u16, body: Option<Json>) -> (r: Result<SearchResult, EsError>)
        ensures
            search_response_ok(status, body, r),
    {
        if status != STATUS_OK {
            return Err(EsError::UnexpectedStatus(status));
        }
        match body {
            Some(j) => SearchResult::from_json(j),
            None => Err(EsError::Decode(String::new())),
        }
    }
}

/// A search whose query travels in the URL.
#[derive(Debug)]
pub struct SearchURIOperation {
    pub indexes: Vec<String>,
    pub doc_types: Vec<String>,
    pub options: Options,
}

/// The path of a search: the target segments, `/_search`, the query string.
pub open spec fn search_path(indexes: Seq<Seq<char>>, types: Seq<Seq<char>>, options: Seq<(Seq<char>, Seq<char>)>) -> Seq<char> {
    target_path(indexes, types) + "/_search"@ + query_string(options)
}

fn search_target(indexes: &Vec<String>, doc_types: &Vec<String>, options: &Options) -> (r: String)
    ensures
        r@ == search_path(names_view(indexes@), names_view(doc_types@), options@),
{
    proof {
        reveal_strlit("/_search");
    }
    let mut path = format_indexes_and_types(indexes, doc_types);
    path.append("/_search");
    let qs = format_query_string(options);
    path.append(qs.as_str());
    path
}

impl SearchURIOperation {
    /// No indexes, no types, no parameters.
    pub fn new() -> (r: SearchURIOperation)
        ensures
            r.indexes@.len() == 0,
            r.doc_types@.len() == 0,
            r.options@.len() == 0,
    {
        SearchURIOperation { indexes: Vec::new(), doc_types: Vec::new(), options: Options::new() }
    }

    /// Sets the indexes to search.
    pub fn with_indexes(self, indexes: Vec<String>) -> (r: SearchURIOperation)
        ensures
            r.indexes == indexes,
            r.doc_types == self.doc_types,
            r.options == self.options,
    {
        SearchURIOperation { indexes, ..self }
    }

    /// Sets the document types to search.
    pub fn with_types(self, doc_types: Vec<String>) -> (r: SearchURIOperation)
        ensures
            r.indexes == self.indexes,
            r.doc_types == doc_types,
            r.options == self.options,
    {
        SearchURIOperation { doc_types, ..self }
    }

    fn with_option(self, name: &str, value: &str) -> (r: SearchURIOperation)
        ensures
            r.indexes == self.indexes,
            r.doc_types == self.doc_types,
            r.options@ == self.options@.push((name@, value@)),
    {
        let mut op = self;
        op.options.push(name, value);
        op
    }

    /// Adds the query string as the `q` parameter.
    pub fn with_query(self, qs: &str) -> (r: SearchURIOperation)
        ensures
            r.indexes == self.indexes && r.doc_types == self.doc_types,
            r.options@ == self.options@.push(("q"@, qs@)),
    {
        self.with_option("q", qs)
    }

    /// Adds the `df` parameter.
    pub fn with_df(self, value: &str) -> (r: SearchURIOperation)
        ensures
            r.indexes == self.indexes && r.doc_types == self.doc_types,
            r.options@ == self.options@.push(("df"@, value@)),
    {
        self.with_option("df", value)
    }

    /// Adds the `analyzer` parameter.
    pub fn with_analyzer(self, value: &str) -> (r: SearchURIOperation)
        ensures
            r.indexes == self.indexes && r.doc_types == self.doc_types,
            r.options@ == self.options@.push(("analyzer"@, value@)),
    {
        self.with_option("analyzer", value)
    }

    /// Adds the `lowercase_expanded_terms` parameter.
    pub fn with_lowercase_expanded_terms(self, value: &str) -> (r: SearchURIOperation)
        ensures
            r.indexes == self.indexes && r.doc_types == self.doc_types,
            r.options@ == self.options@.push(("lowercase_expanded_terms"@, value@)),
    {
        self.with_option("lowercase_expanded_terms", value)
    }

    /// Adds the `analyze_wildcard` parameter.
    pub fn with_analyze_wildcard(self, value: &str) -> (r: SearchURIOperation)
        ensures
            r.indexes == self.indexes && r.doc_types == self.doc_types,
            r.options@ == self.options@.push(("analyze_wildcard"@, value@)),
    {
        self.with_option("analyze_wildcard", value)
    }

    /// Adds the `default_operator` parameter.
    pub fn with_default_operator(self, value: &str) -> (r: SearchURIOperation)
        ensures
            r.indexes == self.indexes && r.doc_types == self.doc_types,
            r.options@ == self.options@.push(("default_operator"@, value@)),
    {
        self.with_option("default_operator", value)
    }

    /// Adds the `lenient` parameter.
    pub fn with_lenient(self, value: &str) -> (r: SearchURIOperation)
        ensures
            r.indexes == self.indexes && r.doc_types == self.doc_types,
            r.options@ == self.options@.push(("lenient"@, value@)),
    {
        self.with_option("lenient", value)
    }

    /// Adds the `explain` parameter.
    pub fn with_explain(self, value: &str) -> (r: SearchURIOperation)
        ensures
            r.indexes == self.indexes && r.doc_types == self.doc_types,
            r.options@ == self.options@.push(("explain"@, value@)),
    {
        self.with_option("explain", value)
    }

    /// Adds the `_source` parameter.
    pub fn with_source(self, value: &str) -> (r: SearchURIOperation)
        ensures
            r.indexes == self.indexes && r.doc_types == self.doc_types,
            r.options@ == self.options@.push(("_source"@, value@)),
    {
        self.with_option("_source", value)
    }

    /// Adds the `sort` parameter.
    pub fn with_sort(self, value: &str) -> (r: SearchURIOperation)
        ensures
            r.indexes == self.indexes && r.doc_types == self.doc_types,
            r.options@ == self.options@.push(("sort"@, value@)),
    {
        self.with_option("sort", value)
    }

    /// Adds the `routing` parameter.
    pub fn with_routing(self, value: &str) -> (r: SearchURIOperation)
        ensures
            r.indexes == self.indexes && r.doc_types == self.doc_types,
            r.options@ == self.options@.push(("routing"@, value@)),
    {
        self.with_option("routing", value)
    }

    /// Adds the `track_scores` parameter.
    pub fn with_track_scores(self, value: &str) -> (r: SearchURIOperation)
        ensures
            r.indexes == self.indexes && r.doc_types == self.doc_types,
            r.options@ == self.options@.push(("track_scores"@, value@)),
    {
        self.with_option("track_scores", value)
    }

    /// Adds the `timeout` parameter.
    pub fn with_timeout(self, value: &str) -> (r: SearchURIOperation)
        ensures
            r.indexes == self.indexes && r.doc_types == self.doc_types,
            r.options@ == self.options@.push(("timeout"@, value@)),
    {
        self.with_option("timeout", value)
    }

    /// Adds the `terminate_after` parameter.
    pub fn with_terminate_after(self, value: &str) -> (r: SearchURIOperation)
        ensures
            r.indexes == self.indexes && r.doc_types == self.doc_types,
            r.options@ == self.options@.push(("terminate_after"@, value@)),
    {
        self.with_option("terminate_after", value)
    }

    /// Adds the `from` parameter.
    pub fn with_from(self, value: &str) -> (r: SearchURIOperation)
        ensures
            r.indexes == self.indexes && r.doc_types == self.doc_types,
            r.options@ == self.options@.push(("from"@, value@)),
    {
        self.with_option("from", value)
    }

    /// Adds the `size` parameter.
    pub fn with_size(self, value: &str) -> (r: SearchURIOperation)
        ensures
            r.indexes == self.indexes && r.doc_types == self.doc_types,
            r.options@ == self.options@.push(("size"@, value@)),
    {
        self.with_option("size", value)
    }

    /// Adds the `search_type` parameter.
    pub fn with_search_type(self, value: &str) -> (r: SearchURIOperation)
        ensures
            r.indexes == self.indexes && r.doc_types == self.doc_types,
            r.options@ == self.options@.push(("search_type"@, value@)),
    {
        self.with_option("search_type", value)
    }

    /// Adds the `fields` parameter: the field names joined with `,`.
    pub fn with_fields(self, fields: &Vec<String>) -> (r: SearchURIOperation)
        ensures
            r.indexes == self.indexes && r.doc_types == self.doc_types,
            r.options@ == self.options@.push(("fields"@, comma_joined(names_view(fields@)))),
    {
        let mut joined = String::new();
        push_comma_joined(&mut joined, fields);
        assert(joined@ =~= comma_joined(names_view(fields@)));
        self.with_option("fields", joined.as_str())
    }

    /// The request: `GET` the search path, without a body.
    pub fn request(&self) -> (r: Request)
        ensures
            r.method == Method::Get,
            r.path@ == search_path(names_view(self.indexes@), names_view(self.doc_types@), self.options@),
            r.body is None,
    {
        let path = search_target(&self.indexes, &self.doc_types, &self.options);
        Request { method: Method::Get, path, body: None }
    }

    /// Sends the request through `client` and interprets the answer.
    pub fn send<T: Transport>(self, client: &mut T) -> (r: Result<SearchResult, EsError>)
        ensures
            r is Err && r->Err_0 is Transport || exists|status: u16, body: Option<Json>|
                search_response_ok(status, body, r),
    {
        let req = self.request();
        let (status, body) = execute(client, &req)?;
        let ghost answer = body;
        let r = SearchResult::response(status, body);
        assert(search_response_ok(status, answer, r));
        r
    }
}

/// The JSON body of a Query DSL search.
#[derive(Debug)]
pub struct SearchQueryOperationBody {
    pub query: Option<Json>,
    pub timeout: Option<String>,
    pub from: i64,
    pub size: i64,
    pub terminate_after: Option<i64>,
    pub stats: Option<Vec<String>>,
    /// The minimum score, as the decimal text of a JSON number.
    pub min_score: Option<String>,
}

/// 1 where an optional field is set, else 0.
pub open spec fn present<T>(o: Option<T>) -> int {
    if o is Some {
        1
    } else {
        0
    }
}

/// Whether `f` is the body `b` as a JSON object: `from` first, then the optional
/// fields that are set and `size`, in the order of their names; nothing else.
pub open spec fn is_body_of(f: Seq<(String, Json)>, b: SearchQueryOperationBody) -> bool {
    let i_min: int = 1;
    let i_query = i_min + present(b.min_score);
    let i_size = i_query + present(b.query);
    let i_stats = i_size + 1;
    let i_term = i_stats + present(b.stats);
    let i_timeout = i_term + present(b.terminate_after);
    &&& f.len() == i_timeout + present(b.timeout)
    &&& f[0].0@ == "from"@ && f[0].1 == Json::I64(b.from)
    &&& b.min_score matches Some(m) ==> f[i_min].0@ == "min_score"@ && f[i_min].1 == Json::Float(m)
    &&& b.query matches Some(q) ==> f[i_query].0@ == "query"@ && f[i_query].1 == q
    &&& f[i_size].0@ == "size"@ && f[i_size].1 == Json::I64(b.size)
    &&& b.stats matches Some(st) ==> (f[i_stats].0@ == "stats"@ && (f[i_stats].1 matches Json::Array(a)
        && a@.len() == st@.len() && forall|k: int|
        0 <= k < st@.len() ==> #[trigger] a@[k] == Json::Str(st@[k])))
    &&& b.terminate_after matches Some(t) ==> f[i_term].0@ == "terminate_after"@ && f[i_term].1
        == Json::I64(t)
    &&& b.timeout matches Some(t) ==> f[i_timeout].0@ == "timeout"@ && f[i_timeout].1 == Json::Str(t)
}

/// A body with no optional field set is exactly `{"from": from, "size": size}`.
pub proof fn lemma_bare_body(f: Seq<(String, Json)>, b: SearchQueryOperationBody)
    requires
        is_body_of(f, b),
        b.query is None,
        b.timeout is None,
        b.terminate_after is None,
        b.stats is None,
        b.min_score is None,
    ensures
        f.len() == 2,
        f[0].0@ == "from"@ && f[0].1 == Json::I64(b.from),
        f[1].0@ == "size"@ && f[1].1 == Json::I64(b.size),
{
}

/// Setting the minimum score adds one `min_score` entry and leaves `from` and `size`
/// as they were.
pub proof fn lemma_min_score_adds_one_key(
    f1: Seq<(String, Json)>,
    b1: SearchQueryOperationBody,
    f2: Seq<(String, Json)>,
    b2: SearchQueryOperationBody,
    m: String,
)
    requires
        is_body_of(f1, b1),
        is_body_of(f2, b2),
        b1.min_score is None,
        b2 == (SearchQueryOperationBody { min_score: Some(m), ..b1 }),
    ensures
        f2.len() == f1.len() + 1,
        f2[0].0@ == f1[0].0@ && f2[0].1 == f1[0].1,
        f2[1].0@ == "min_score"@ && f2[1].1 == Json::Float(m),
        f2[0].0@ == "from"@ && f2[0].1 == Json::I64(b1.from),
        f1[1 + present(b1.query)].0@ == "size"@,
        f2[2 + present(b1.query)].0@ == f1[1 + present(b1.query)].0@,
        f2[2 + present(b1.query)].1 == f1[1 + present(b1.query)].1,
{
}

fn strings_to_json(items: Vec<String>) -> (r: Vec<Json>)
    ensures
        r@.len() == items@.len(),
        forall|k: int| 0 <= k < items@.len() ==> #[trigger] r@[k] == Json::Str(items@[k]),
{
    let ghost all = items@;
    let n = items.len();
    let mut items = items;
    let mut out: Vec<Json> = Vec::new();
    let mut i: usize = 0;
    while i < n
        invariant
            n == all.len(),
            i <= n,
            items@ == all.subrange(i as int, n as int),
            out@.len() == i,
            forall|k: int| 0 <= k < i ==> #[trigger] out@[k] == Json::Str(all[k]),
        decreases n - i,
    {
        let s = items.remove(0);
        out.push(Json::Str(s));
        assert(items@ =~= all.subrange(i + 1, n as int));
        i = i + 1;
    }
    out
}

impl SearchQueryOperationBody {
    /// The body as a JSON object; see `is_body_of`.
    pub fn to_json(self) -> (r: Json)
        ensures
            r matches Json::Object(f) && is_body_of(f@, self),
    {
        let ghost b = self;
        let SearchQueryOperationBody { query, timeout, from, size, terminate_after, stats, min_score } = self;
        let mut f: Vec<(String, Json)> = Vec::new();
        f.push((String::from_str("from"), Json::I64(from)));
        if let Some(m) = min_score {
            f.push((String::from_str("min_score"), Json::Float(m)));
        }
        if let Some(q) = query {
            f.push((String::from_str("query"), q));
        }
        f.push((String::from_str("size"), Json::I64(size)));
        if let Some(st) = stats {
            f.push((String::from_str("stats"), Json::Array(strings_to_json(st))));
        }
        if let Some(t) = terminate_after {
            f.push((String::from_str("terminate_after"), Json::I64(t)));
        }
        if let Some(t) = timeout {
            f.push((String::from_str("timeout"), Json::Str(t)));
        }
        Json::Object(f)
    }
}

/// A search whose query travels as a Query DSL body.
#[derive(Debug)]
pub struct SearchQueryOperation {
    pub indexes: Vec<String>,
    pub doc_types: Vec<String>,
    pub options: Options,
    pub body: SearchQueryOperationBody,
}

impl SearchQueryOperation {
    /// No indexes, no types, no parameters; the body asks for the first 10 hits.
    pub fn new() -> (r: SearchQueryOperation)
        ensures
            r.indexes@.len() == 0,
            r.doc_types@.len() == 0,
            r.options@.len() == 0,
            r.body.query is None,
            r.body.timeout is None,
            r.body.from == 0,
            r.body.size == 10,
            r.body.terminate_after is None,
            r.body.stats is None,
            r.body.min_score is None,
    {
        SearchQueryOperation {
            indexes: Vec::new(),
            doc_types: Vec::new(),
            options: Options::new(),
            body: SearchQueryOperationBody {
                query: None,
                timeout: None,
                from: 0,
                size: 10,
                terminate_after: None,
                stats: None,
                min_score: None,
            },
        }
    }

    /// Sets the indexes to search.
    pub fn with_indexes(self, indexes: Vec<String>) -> (r: SearchQueryOperation)
        ensures
            r.indexes == indexes && r.doc_types == self.doc_types,
            r.options == self.options && r.body == self.body,
    {
        SearchQueryOperation { indexes, ..self }
    }

    /// Sets the document types to search.
    pub fn with_types(self, doc_types: Vec<String>) -> (r: SearchQueryOperation)
        ensures
            r.indexes == self.indexes && r.doc_types == doc_types,
            r.options == self.options && r.body == self.body,
    {
        SearchQueryOperation { doc_types, ..self }
    }

    /// Sets the Query DSL query.
    pub fn with_query(self, query: Json) -> (r: SearchQueryOperation)
        ensures
            r.indexes == self.indexes && r.doc_types == self.doc_types && r.options == self.options,
            r.body.timeout == self.body.timeout && r.body.from == self.body.from && r.body.size == self.body.size && r.body.terminate_after == self.body.terminate_after && r.body.stats == self.body.stats && r.body.min_score == self.body.min_score,
            r.body.query == Some(query),
    {
        let mut op = self;
        op.body.query = Some(query);
        op
    }

    /// Sets the search timeout, such as `5s`.
    pub fn with_timeout(self, timeout: &str) -> (r: SearchQueryOperation)
        ensures
            r.indexes == self.indexes && r.doc_types == self.doc_types && r.options == self.options,
            r.body.query == self.body.query && r.body.from == self.body.from && r.body.size == self.body.size && r.body.terminate_after == self.body.terminate_after && r.body.stats == self.body.stats && r.body.min_score == self.body.min_score,
            r.body.timeout matches Some(v) && v@ == timeout@,
    {
        let mut op = self;
        op.body.timeout = Some(String::from_str(timeout));
        op
    }

    /// Sets the index of the first hit returned.
    pub fn with_from(self, from: i64) -> (r: SearchQueryOperation)
        ensures
            r.indexes == self.indexes && r.doc_types == self.doc_types && r.options == self.options,
            r.body.query == self.body.query && r.body.timeout == self.body.timeout && r.body.size == self.body.size && r.body.terminate_after == self.body.terminate_after && r.body.stats == self.body.stats && r.body.min_score == self.body.min_score,
            r.body.from == from,
    {
        let mut op = self;
        op.body.from = from;
        op
    }

    /// Sets how many hits are returned.
    pub fn with_size(self, size: i64) -> (r: SearchQueryOperation)
        ensures
            r.indexes == self.indexes && r.doc_types == self.doc_types && r.options == self.options,
            r.body.query == self.body.query && r.body.timeout == self.body.timeout && r.body.from == self.body.from && r.body.terminate_after == self.body.terminate_after && r.body.stats == self.body.stats && r.body.min_score == self.body.min_score,
            r.body.size == size,
    {
        let mut op = self;
        op.body.size = size;
        op
    }

    /// Sets how many documents each shard collects at most.
    pub fn with_terminate_after(self, terminate_after: i64) -> (r: SearchQueryOperation)
        ensures
            r.indexes == self.indexes && r.doc_types == self.doc_types && r.options == self.options,
            r.body.query == self.body.query && r.body.timeout == self.body.timeout && r.body.from == self.body.from && r.body.size == self.body.size && r.body.stats == self.body.stats && r.body.min_score == self.body.min_score,
            r.body.terminate_after == Some(terminate_after),
    {
        let mut op = self;
        op.body.terminate_after = Some(terminate_after);
        op
    }

    /// Sets the statistics groups that the search counts towards.
    pub fn with_stats(self, stats: Vec<String>) -> (r: SearchQueryOperation)
        ensures
            r.indexes == self.indexes && r.doc_types == self.doc_types && r.options == self.options,
            r.body.query == self.body.query && r.body.timeout == self.body.timeout && r.body.from == self.body.from && r.body.size == self.body.size && r.body.terminate_after == self.body.terminate_after && r.body.min_score == self.body.min_score,
            r.body.stats == Some(stats),
    {
        let mut op = self;
        op.body.stats = Some(stats);
        op
    }

    /// Sets the minimum score, as the decimal text of a number.
    pub fn with_min_score(self, min_score: &str) -> (r: SearchQueryOperation)
        ensures
            r.indexes == self.indexes && r.doc_types == self.doc_types && r.options == self.options,
            r.body.query == self.body.query && r.body.timeout == self.body.timeout && r.body.from == self.body.from && r.body.size == self.body.size && r.body.terminate_after == self.body.terminate_after && r.body.stats == self.body.stats,
            r.body.min_score matches Some(v) && v@ == min_score@,
    {
        let mut op = self;
        op.body.min_score = Some(String::from_str(min_score));
        op
    }

    fn with_option(self, name: &str, value: &str) -> (r: SearchQueryOperation)
        ensures
            r.indexes == self.indexes && r.doc_types == self.doc_types && r.body == self.body,
            r.options@ == self.options@.push((name@, value@)),
    {
        let mut op = self;
        op.options.push(name, value);
        op
    }

    /// Adds the `routing` parameter.
    pub fn with_routing(self, value: &str) -> (r: SearchQueryOperation)
        ensures
            r.indexes == self.indexes && r.doc_types == self.doc_types && r.body == self.body,
            r.options@ == self.options@.push(("routing"@, value@)),
    {
        self.with_option("routing", value)
    }

    /// Adds the `search_type` parameter.
    pub fn with_search_type(self, value: &str) -> (r: SearchQueryOperation)
        ensures
            r.indexes == self.indexes && r.doc_types == self.doc_types && r.body == self.body,
            r.options@ == self.options@.push(("search_type"@, value@)),
    {
        self.with_option("search_type", value)
    }

    /// Adds the `query_cache` parameter.
    pub fn with_query_cache(self, value: &str) -> (r: SearchQueryOperation)
        ensures
            r.indexes == self.indexes && r.doc_types == self.doc_types && r.body == self.body,
            r.options@ == self.options@.push(("query_cache"@, value@)),
    {
        self.with_option("query_cache", value)
    }

    /// The request: `POST` the search path, with the body as JSON.
    pub fn request(self) -> (r: Request)
        ensures
            r.method == Method::Post,
            r.path@ == search_path(names_view(self.indexes@), names_view(self.doc_types@), self.options@),
            r.body matches Some(Json::Object(f)) && is_body_of(f@, self.body),
    {
        let path = search_target(&self.indexes, &self.doc_types, &self.options);
        Request { method: Method::Post, path, body: Some(self.body.to_json()) }
    }

    /// Sends the request through `client` and interprets the answer.
    pub fn send<T: Transport>(self, client: &mut T) -> (r: Result<SearchResult, EsError>)
        ensures
            r is Err && r->Err_0 is Transport || exists|status: u16, body: Option<Json>|
                search_response_ok(status, body, r),
    {
        let req = self.request();
        let (status, body) = execute(client, &req)?;
        let ghost answer = body;
        let r = SearchResult::response(status, body);
        assert(search_response_ok(status, answer, r));
        r
    }
}

} // verus!
