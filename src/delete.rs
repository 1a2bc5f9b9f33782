use vstd::prelude::*;
use vstd::string::StringExecFns;

use crate::common::{
    execute, format_indexes_and_types, format_query_string, names_view, query_string, shard_counts_of,
    target_path, Method, Options, Request, ShardCountResult, Transport, STATUS_NOT_FOUND, STATUS_OK,
};
use crate::error::EsError;
use crate::json::{bool_field, field_of, get_bool, get_i64, get_string, i64_field, str_field, Json};

verus! {

/// The answer to deleting one document.
#[derive(Debug)]
pub struct DeleteResult {
    pub found: bool,
    pub index: String,
    pub doc_type: String,
    pub id: String,
    pub version: i64,
}

/// Whether `j` holds every field of a delete answer, each with its JSON type.
pub open spec fn delete_fields_present(j: Json) -> bool {
    &&& bool_field(j, "found"@) is Some
    &&& str_field(j, "_index"@) is Some
    &&& str_field(j, "_type"@) is Some
    &&& str_field(j, "_id"@) is Some
    &&& i64_field(j, "_version"@) is Some
}

/// Whether `r` is the delete answer that `j` holds, field by wire key.
pub open spec fn is_delete_result_of(r: DeleteResult, j: Json) -> bool {
    &&& bool_field(j, "found"@) == Some(r.found)
    &&& str_field(j, "_index"@) == Some(r.index@)
    &&& str_field(j, "_type"@) == Some(r.doc_type@)
    &&& str_field(j, "_id"@) == Some(r.id@)
    &&& i64_field(j, "_version"@) == Some(r.version)
}

impl DeleteResult {
    /// Decodes `{"found", "_index", "_type", "_id", "_version"}`; every field is required.
    pub fn from_json(j: &Json) -> (r: Result<DeleteResult, EsError>)
        ensures
            match r {
                Ok(d) => is_delete_result_of(d, *j),
                Err(e) => !delete_fields_present(*j) && e is Decode,
            },
    {
        let found = get_bool(j, "found")?;
        let index = get_string(j, "_index")?;
        let doc_type = get_string(j, "_type")?;
        let id = get_string(j, "_id")?;
        let version = get_i64(j, "_version")?;
        Ok(DeleteResult { found, index, doc_type, id, version })
    }
}

/// The part of a delete-by-query answer that concerns one index.
#[derive(Debug, Clone, Copy, PartialEq, Eq, Structural)]
pub struct DeleteByQueryIndexResult {
    pub shards: ShardCountResult,
}

/// The per-index result that `j` holds under `_shards`, if any.
pub open spec fn index_result_of(j: Json) -> Option<DeleteByQueryIndexResult> {
    match field_of(j, "_shards"@) {
        Some(s) => match shard_counts_of(s) {
            Some(c) => Some(DeleteByQueryIndexResult { shards: c }),
            None => None,
        },
        None => None,
    }
}

impl DeleteByQueryIndexResult {
    /// Whether no shard of this index failed.
    pub fn successful(&self) -> (r: bool)
        ensures
            r == (self.shards.failed == 0),
    {
        self.shards.failed == 0
    }

    /// Decodes `{"_shards": {...}}`.
    pub fn from_json(j: &Json) -> (r: Result<DeleteByQueryIndexResult, EsError>)
        ensures
            match r {
                Ok(d) => index_result_of(*j) == Some(d),
                Err(e) => index_result_of(*j) is None && e is Decode,
            },
    {
        match j.find("_shards") {
            Some(s) => {
                let shards = ShardCountResult::from_json(s)?;
                Ok(DeleteByQueryIndexResult { shards })
            },
            None => Err(EsError::Decode(String::from_str("_shards"))),
        }
    }
}

/// The answer to a delete-by-query: one result for each index touched, in the order sent.
#[derive(Debug)]
pub struct DeleteByQueryResult {
    pub indices: Vec<(String, DeleteByQueryIndexResult)>,
}

/// The entries of the object under `_indices` (empty where there is none).
pub open spec fn index_entries(j: Json) -> Seq<(String, Json)> {
    match field_of(j, "_indices"@) {
        Some(Json::Object(entries)) => entries@,
        _ => Seq::empty(),
    }
}

/// Whether `j` is `{"_indices": {name: {"_shards": {...}}, ...}}` with every entry well formed.
pub open spec fn delete_by_query_fields_present(j: Json) -> bool {
    match field_of(j, "_indices"@) {
        Some(Json::Object(entries)) => forall|i: int|
            0 <= i < entries@.len() ==> (#[trigger] index_result_of(entries@[i].1)) is Some,
        _ => false,
    }
}

/// Whether `r` lists, in order, the index names of `j`'s `_indices` with their results.
pub open spec fn is_delete_by_query_result_of(r: DeleteByQueryResult, j: Json) -> bool {
    match field_of(j, "_indices"@) {
        Some(Json::Object(entries)) => {
            &&& r.indices@.len() == entries@.len()
            &&& forall|i: int|
                0 <= i < entries@.len() ==> {
                    &&& (#[trigger] r.indices@[i]).0@ == entries@[i].0@
                    &&& index_result_of(entries@[i].1) == Some(r.indices@[i].1)
                }
        },
        _ => false,
    }
}

impl DeleteByQueryResult {
    /// Whether no shard of any index failed.
    pub fn successful(&self) -> (r: bool)
        ensures
            r == (forall|i: int|
                0 <= i < self.indices@.len() ==> (#[trigger] self.indices@[i]).1.shards.failed == 0),
    {
        let n = self.indices.len();
        let mut i: usize = 0;
        while i < n
            invariant
                n == self.indices@.len(),
                i <= n,
                forall|k: int| 0 <= k < i ==> (#[trigger] self.indices@[k]).1.shards.failed == 0,
            decreases n - i,
        {
            if !self.indices[i].1.successful() {
                return false;
            }
            i = i + 1;
        }
        true
    }

    /// Decodes the `_indices` map, keeping the order in which the indexes came.
    pub fn from_json(j: &Json) -> (r: Result<DeleteByQueryResult, EsError>)
        ensures
            match r {
                Ok(d) => is_delete_by_query_result_of(d, *j),
                Err(e) => !delete_by_query_fields_present(*j) && e is Decode,
            },
    {
        match j.find("_indices") {
            Some(Json::Object(entries)) => {
                let n = entries.len();
                let mut indices: Vec<(String, DeleteByQueryIndexResult)> = Vec::new();
                let mut i: usize = 0;
                while i < n
                    invariant
                        n == entries@.len(),
                        i <= n,
                        field_of(*j, "_indices"@) == Some(Json::Object(*entries)),
                        indices@.len() == i,
                        forall|k: int|
                            0 <= k < i ==> {
                                &&& (#[trigger] indices@[k]).0@ == entries@[k].0@
                                &&& index_result_of(entries@[k].1) == Some(indices@[k].1)
                            },
                    decreases n - i,
                {
                    let res = DeleteByQueryIndexResult::from_json(&entries[i].1);
                    match res {
                        Ok(d) => {
                            indices.push((entries[i].0.clone(), d));
                        },
                        Err(e) => {
                            assert(index_result_of(entries@[i as int].1) is None);
                            return Err(e);
                        },
                    }
                    i = i + 1;
                }
                Ok(DeleteByQueryResult { indices })
            },
            _ => Err(EsError::Decode(String::from_str("_indices"))),
        }
    }
}


/// Deletes one document, picked by index, type and id.
#[derive(Debug)]
pub struct DeleteOperation {
    pub index: String,
    pub doc_type: String,
    pub id: String,
    pub options: Options,
}

/// `/index/type/id` followed by the query string.
pub open spec fn delete_path(index: Seq<char>, doc_type: Seq<char>, id: Seq<char>, options: Seq<(Seq<char>, Seq<char>)>) -> Seq<char> {
    seq!['/'] + index + seq!['/'] + doc_type + seq!['/'] + id + query_string(options)
}

/// What a delete answer with `status` and `body` decodes to, as far as the status decides.
pub open spec fn delete_response_ok(status: u16, body: Option<Json>, r: Result<DeleteResult, EsError>) -> bool {
    if status != STATUS_OK {
        r == Err::<DeleteResult, EsError>(EsError::UnexpectedStatus(status))
    } else {
        match body {
            Some(j) => match r {
                Ok(d) => is_delete_result_of(d, j),
                Err(e) => !delete_fields_present(j) && e is Decode,
            },
            None => r matches Err(EsError::Decode(_)),
        }
    }
}

impl DeleteOperation {
    pub fn new(index: &str, doc_type: &str, id: &str) -> (r: DeleteOperation)
        ensures
            r.index@ == index@,
            r.doc_type@ == doc_type@,
            r.id@ == id@,
            r.options@ == Seq::<(Seq<char>, Seq<char>)>::empty(),
    {
        DeleteOperation {
            index: String::from_str(index),
            doc_type: String::from_str(doc_type),
            id: String::from_str(id),
            options: Options::new(),
        }
    }

    fn with_option(self, name: &str, value: &str) -> (r: DeleteOperation)
        ensures
            r.index == self.index,
            r.doc_type == self.doc_type,
            r.id == self.id,
            r.options@ == self.options@.push((name@, value@)),
    {
        let mut op = self;
        op.options.push(name, value);
        op
    }

    /// Adds the `version` parameter.
    pub fn with_version(self, value: &str) -> (r: DeleteOperation)
        ensures
            r.index == self.index && r.doc_type == self.doc_type && r.id == self.id,
            r.options@ == self.options@.push(("version"@, value@)),
    {
        self.with_option("version", value)
    }

    /// Adds the `routing` parameter.
    pub fn with_routing(self, value: &str) -> (r: DeleteOperation)
        ensures
            r.index == self.index && r.doc_type == self.doc_type && r.id == self.id,
            r.options@ == self.options@.push(("routing"@, value@)),
    {
        self.with_option("routing", value)
    }

    /// Adds the `parent` parameter.
    pub fn with_parent(self, value: &str) -> (r: DeleteOperation)
        ensures
            r.index == self.index && r.doc_type == self.doc_type && r.id == self.id,
            r.options@ == self.options@.push(("parent"@, value@)),
    {
        self.with_option("parent", value)
    }

    /// Adds the `consistency` parameter.
    pub fn with_consistency(self, value: &str) -> (r: DeleteOperation)
        ensures
            r.index == self.index && r.doc_type == self.doc_type && r.id == self.id,
            r.options@ == self.options@.push(("consistency"@, value@)),
    {
        self.with_option("consistency", value)
    }

    /// Adds the `refresh` parameter.
    pub fn with_refresh(self, value: &str) -> (r: DeleteOperation)
        ensures
            r.index == self.index && r.doc_type == self.doc_type && r.id == self.id,
            r.options@ == self.options@.push(("refresh"@, value@)),
    {
        self.with_option("refresh", value)
    }

    /// Adds the `timeout` parameter.
    pub fn with_timeout(self, value: &str) -> (r: DeleteOperation)
        ensures
            r.index == self.index && r.doc_type == self.doc_type && r.id == self.id,
            r.options@ == self.options@.push(("timeout"@, value@)),
    {
        self.with_option("timeout", value)
    }

    /// The request: `DELETE /index/type/id?options`, without a body.
    pub fn request(&self) -> (r: Request)
        ensures
            r.method == Method::Delete,
            r.path@ == delete_path(self.index@, self.doc_type@, self.id@, self.options@),
            r.body is None,
    {
        proof {
            reveal_strlit("/");
        }
        let mut path = String::from_str("/");
        path.append(self.index.as_str());
        path.append("/");
        path.append(self.doc_type.as_str());
        path.append("/");
        path.append(self.id.as_str());
        let qs = format_query_string(&self.options);
        path.append(qs.as_str());
        assert(path@ =~= delete_path(self.index@, self.doc_type@, self.id@, self.options@));
        Request { method: Method::Delete, path, body: None }
    }

    /// Interprets the answer: 200 decodes the body, any other status is an error.
    pub fn response(status: u16, body: Option<Json>) -> (r: Result<DeleteResult, EsError>)
        ensures
            delete_response_ok(status, body, r),
    {
        if status != STATUS_OK {
            return Err(EsError::UnexpectedStatus(status));
        }
        match body {
            Some(j) => DeleteResult::from_json(&j),
            None => Err(EsError::Decode(String::new())),
        }
    }

    /// Sends the request through `client` and interprets the answer.
    pub fn send<T: Transport>(self, client: &mut T) -> (r: Result<DeleteResult, EsError>)
        ensures
            r is Err && r->Err_0 is Transport || exists|status: u16, body: Option<Json>|
                delete_response_ok(status, body, r),
    {
        let req = self.request();
        let (status, body) = execute(client, &req)?;
        let ghost answer = body;
        let r = Self::response(status, body);
        assert(delete_response_ok(status, answer, r));
        r
    }
}


/// How a delete-by-query carries its query: as the `q` parameter, or as a Query DSL document.
#[derive(Debug)]
pub enum QueryOption {
    Text(String),
    Document(Json),
}

/// Deletes every document that a query matches, in the given indexes and types.
#[derive(Debug)]
pub struct DeleteByQueryOperation {
    pub indexes: Vec<String>,
    pub doc_types: Vec<String>,
    pub query: QueryOption,
    pub options: Options,
}

/// The path of a delete-by-query: the target segments, `/_query`, the query string.
pub open spec fn delete_by_query_path(indexes: Seq<Seq<char>>, types: Seq<Seq<char>>, options: Seq<(Seq<char>, Seq<char>)>) -> Seq<char> {
    target_path(indexes, types) + "/_query"@ + query_string(options)
}

/// What a delete-by-query answer with `status` and `body` decodes to.
pub open spec fn delete_by_query_response_ok(status: u16, body: Option<Json>, r: Result<Option<DeleteByQueryResult>, EsError>) -> bool {
    if status == STATUS_NOT_FOUND {
        r matches Ok(None)
    } else if status != STATUS_OK {
        r matches Err(EsError::UnexpectedStatus(s)) && s == status
    } else {
        match body {
            Some(j) => match r {
                Ok(Some(d)) => is_delete_by_query_result_of(d, j),
                Ok(None) => false,
                Err(e) => !delete_by_query_fields_present(j) && e is Decode,
            },
            None => r matches Err(EsError::Decode(_)),
        }
    }
}

impl DeleteByQueryOperation {
    /// No indexes, no types, an empty query string, no parameters.
    pub fn new() -> (r: DeleteByQueryOperation)
        ensures
            r.indexes@.len() == 0,
            r.doc_types@.len() == 0,
            r.query matches QueryOption::Text(q) && q@.len() == 0,
            r.options@.len() == 0,
    {
        DeleteByQueryOperation {
            indexes: Vec::new(),
            doc_types: Vec::new(),
            query: QueryOption::Text(String::new()),
            options: Options::new(),
        }
    }

    /// Sets the indexes to search.
    pub fn with_indexes(self, indexes: Vec<String>) -> (r: DeleteByQueryOperation)
        ensures
            r.indexes == indexes,
            r.doc_types == self.doc_types,
            r.query == self.query,
            r.options == self.options,
    {
        DeleteByQueryOperation { indexes, ..self }
    }

    /// Sets the document types to search.
    pub fn with_doc_types(self, doc_types: Vec<String>) -> (r: DeleteByQueryOperation)
        ensures
            r.indexes == self.indexes,
            r.doc_types == doc_types,
            r.query == self.query,
            r.options == self.options,
    {
        DeleteByQueryOperation { doc_types, ..self }
    }

    /// Sets the query as a query-string parameter; replaces any query set before.
    pub fn with_query_string(self, qs: &str) -> (r: DeleteByQueryOperation)
        ensures
            r.indexes == self.indexes,
            r.doc_types == self.doc_types,
            r.query matches QueryOption::Text(q) && q@ == qs@,
            r.options == self.options,
    {
        DeleteByQueryOperation { query: QueryOption::Text(String::from_str(qs)), ..self }
    }

    /// Sets the query as a Query DSL document; replaces any query set before.
    pub fn with_query(self, q: Json) -> (r: DeleteByQueryOperation)
        ensures
            r.indexes == self.indexes,
            r.doc_types == self.doc_types,
            r.query == QueryOption::Document(q),
            r.options == self.options,
    {
        DeleteByQueryOperation { query: QueryOption::Document(q), ..self }
    }

    fn with_option(self, name: &str, value: &str) -> (r: DeleteByQueryOperation)
        ensures
            r.indexes == self.indexes,
            r.doc_types == self.doc_types,
            r.query == self.query,
            r.options@ == self.options@.push((name@, value@)),
    {
        let mut op = self;
        op.options.push(name, value);
        op
    }

    /// Adds the `df` parameter.
    pub fn with_df(self, value: &str) -> (r: DeleteByQueryOperation)
        ensures
            r.indexes == self.indexes && r.doc_types == self.doc_types && r.query == self.query,
            r.options@ == self.options@.push(("df"@, value@)),
    {
        self.with_option("df", value)
    }

    /// Adds the `analyzer` parameter.
    pub fn with_analyzer(self, value: &str) -> (r: DeleteByQueryOperation)
        ensures
            r.indexes == self.indexes && r.doc_types == self.doc_types && r.query == self.query,
            r.options@ == self.options@.push(("analyzer"@, value@)),
    {
        self.with_option("analyzer", value)
    }

    /// Adds the `default_operator` parameter.
    pub fn with_default_operator(self, value: &str) -> (r: DeleteByQueryOperation)
        ensures
            r.indexes == self.indexes && r.doc_types == self.doc_types && r.query == self.query,
            r.options@ == self.options@.push(("default_operator"@, value@)),
    {
        self.with_option("default_operator", value)
    }

    /// Adds the `routing` parameter.
    pub fn with_routing(self, value: &str) -> (r: DeleteByQueryOperation)
        ensures
            r.indexes == self.indexes && r.doc_types == self.doc_types && r.query == self.query,
            r.options@ == self.options@.push(("routing"@, value@)),
    {
        self.with_option("routing", value)
    }

    /// Adds the `consistency` parameter.
    pub fn with_consistency(self, value: &str) -> (r: DeleteByQueryOperation)
        ensures
            r.indexes == self.indexes && r.doc_types == self.doc_types && r.query == self.query,
            r.options@ == self.options@.push(("consistency"@, value@)),
    {
        self.with_option("consistency", value)
    }

    /// The request. A query string goes last among the parameters as `q`, with no
    /// body; a Query DSL document goes in the body as `{"query": ...}` and nowhere else.
    pub fn request(self) -> (r: Request)
        ensures
            r.method == Method::Delete,
            match self.query {
                QueryOption::Text(q) => {
                    &&& r.path@ == delete_by_query_path(
                        names_view(self.indexes@),
                        names_view(self.doc_types@),
                        self.options@.push(("q"@, q@)),
                    )
                    &&& r.body is None
                },
                QueryOption::Document(q) => {
                    &&& r.path@ == delete_by_query_path(
                        names_view(self.indexes@),
                        names_view(self.doc_types@),
                        self.options@,
                    )
                    &&& r.body matches Some(Json::Object(fields)) && fields@.len() == 1
                        && fields@[0].0@ == "query"@ && fields@[0].1 == q
                },
            },
    {
        proof {
            reveal_strlit("/_query");
        }
        let DeleteByQueryOperation { indexes, doc_types, query, options } = self;
        let mut options = options;
        let body = match query {
            QueryOption::Text(q) => {
                options.push("q", q.as_str());
                None
            },
            QueryOption::Document(q) => {
                let mut fields: Vec<(String, Json)> = Vec::new();
                fields.push((String::from_str("query"), q));
                Some(Json::Object(fields))
            },
        };
        let mut path = format_indexes_and_types(&indexes, &doc_types);
        path.append("/_query");
        let qs = format_query_string(&options);
        path.append(qs.as_str());
        Request { method: Method::Delete, path, body }
    }

    /// Interprets the answer: 200 decodes the body, 404 means nothing matched, any
    /// other status is an error.
    pub fn response(status: u16, body: Option<Json>) -> (r: Result<Option<DeleteByQueryResult>, EsError>)
        ensures
            delete_by_query_response_ok(status, body, r),
    {
        if status == STATUS_NOT_FOUND {
            return Ok(None);
        }
        if status != STATUS_OK {
            return Err(EsError::UnexpectedStatus(status));
        }
        match body {
            Some(j) => match DeleteByQueryResult::from_json(&j) {
                Ok(d) => Ok(Some(d)),
                Err(e) => Err(e),
            },
            None => Err(EsError::Decode(String::new())),
        }
    }

    /// Sends the request through `client` and interprets the answer.
    pub fn send<T: Transport>(self, client: &mut T) -> (r: Result<Option<DeleteByQueryResult>, EsError>)
        ensures
            r is Err && r->Err_0 is Transport || exists|status: u16, body: Option<Json>|
                delete_by_query_response_ok(status, body, r),
    {
        let req = self.request();
        let (status, body) = execute(client, &req)?;
        let ghost answer = body;
        let r = Self::response(status, body);
        assert(delete_by_query_response_ok(status, answer, r));
        r
    }
}

/// Whether no shard of any index of `d` failed.
pub open spec fn all_indices_succeeded(d: DeleteByQueryResult) -> bool {
    forall|i: int| 0 <= i < d.indices@.len() ==> (#[trigger] d.indices@[i]).1.shards.failed == 0
}

/// A delete-by-query answer with status 404 always means "nothing matched"; one
/// with status 200 and a well-formed `_indices` map always decodes, and it is
/// successful exactly when no index of the answer reports a failed shard.
pub proof fn lemma_delete_by_query_outcomes(
    status: u16,
    body: Option<Json>,
    r: Result<Option<DeleteByQueryResult>, EsError>,
)
    requires
        delete_by_query_response_ok(status, body, r),
    ensures
        status == STATUS_NOT_FOUND ==> r matches Ok(None),
        status == STATUS_OK && body is Some && delete_by_query_fields_present(body->0) ==> {
            &&& r matches Ok(Some(_))
            &&& all_indices_succeeded(r->Ok_0->Some_0) <==> (forall|i: int|
                0 <= i < index_entries(body->0).len() ==> (#[trigger] index_result_of(
                    index_entries(body->0)[i].1,
                ))->0.shards.failed == 0)
        },
{
    if status == STATUS_OK && body is Some && delete_by_query_fields_present(body->0) {
        let j = body->0;
        let d = r->Ok_0->Some_0;
        assert(is_delete_by_query_result_of(d, j));
        if all_indices_succeeded(d) {
            assert forall|i: int| 0 <= i < index_entries(j).len() implies (#[trigger] index_result_of(
                index_entries(j)[i].1,
            ))->0.shards.failed == 0 by {
                assert(d.indices@[i].1.shards.failed == 0);
            }
        }
        if forall|i: int|
            0 <= i < index_entries(j).len() ==> (#[trigger] index_result_of(
                index_entries(j)[i].1,
            ))->0.shards.failed == 0 {
            assert forall|i: int| 0 <= i < d.indices@.len() implies (#[trigger] d.indices@[i]).1.shards.failed == 0 by {
                assert(index_result_of(index_entries(j)[i].1) == Some(d.indices@[i].1));
            }
        }
    }
}

} // verus!
