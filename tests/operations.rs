use rs_es::common::{format_indexes_and_types, format_query_string, Method, Options, Transport};
use rs_es::delete::{DeleteByQueryOperation, DeleteOperation, DeleteResult};
use rs_es::error::EsError;
use rs_es::json::Json;
use rs_es::search::{
    SearchHitsHitsResult, SearchQueryOperation, SearchResult, SearchType, SearchURIOperation,
};

struct MockTransport {
    status: u16,
    answer: Option<String>,
    seen: Vec<(Method, String, bool)>,
}

impl Transport for MockTransport {
    fn execute(
        &mut self,
        method: Method,
        path: &str,
        body: &Option<Json>,
    ) -> Result<(u16, Option<Json>), String> {
        self.seen.push((method, path.to_string(), body.is_some()));
        Ok((self.status, self.answer.as_deref().map(parse)))
    }
}

fn s(x: &str) -> Json {
    Json::Str(x.to_string())
}

fn obj(fields: Vec<(&str, Json)>) -> Json {
    Json::Object(fields.into_iter().map(|(k, v)| (k.to_string(), v)).collect())
}

/// A tiny reader for the fixed answers below: objects, strings, integers, booleans.
fn parse(text: &str) -> Json {
    let chars: Vec<char> = text.chars().filter(|c| !c.is_whitespace()).collect();
    let mut pos = 0;
    let v = parse_value(&chars, &mut pos);
    assert_eq!(pos, chars.len());
    v
}

fn parse_value(c: &[char], pos: &mut usize) -> Json {
    match c[*pos] {
        '{' => {
            *pos += 1;
            let mut fields = Vec::new();
            while c[*pos] != '}' {
                let key = match parse_value(c, pos) {
                    Json::Str(k) => k,
                    _ => panic!("object key"),
                };
                assert_eq!(c[*pos], ':');
                *pos += 1;
                fields.push((key, parse_value(c, pos)));
                if c[*pos] == ',' {
                    *pos += 1;
                }
            }
            *pos += 1;
            Json::Object(fields)
        }
        '[' => {
            *pos += 1;
            let mut items = Vec::new();
            while c[*pos] != ']' {
                items.push(parse_value(c, pos));
                if c[*pos] == ',' {
                    *pos += 1;
                }
            }
            *pos += 1;
            Json::Array(items)
        }
        '"' => {
            *pos += 1;
            let mut out = String::new();
            while c[*pos] != '"' {
                out.push(c[*pos]);
                *pos += 1;
            }
            *pos += 1;
            Json::Str(out)
        }
        't' => {
            *pos += 4;
            Json::Boolean(true)
        }
        'f' => {
            *pos += 5;
            Json::Boolean(false)
        }
        _ => {
            let start = *pos;
            while *pos < c.len() && (c[*pos].is_ascii_digit() || "-.eE+".contains(c[*pos])) {
                *pos += 1;
            }
            let t: String = c[start..*pos].iter().collect();
            if t.contains('.') || t.contains('e') || t.contains('E') {
                Json::Float(t)
            } else if t.starts_with('-') {
                Json::I64(t.parse().unwrap())
            } else {
                Json::U64(t.parse().unwrap())
            }
        }
    }
}

fn percent_decode(v: &str) -> String {
    let b = v.as_bytes();
    let mut out = Vec::new();
    let mut i = 0;
    while i < b.len() {
        if b[i] == b'%' {
            let h = std::str::from_utf8(&b[i + 1..i + 3]).unwrap();
            out.push(u8::from_str_radix(h, 16).unwrap());
            i += 3;
        } else {
            out.push(b[i]);
            i += 1;
        }
    }
    String::from_utf8(out).unwrap()
}

fn parse_query_string(qs: &str) -> Vec<(String, String)> {
    if qs.is_empty() {
        return Vec::new();
    }
    assert!(qs.starts_with('?'));
    qs[1..]
        .split('&')
        .map(|p| {
            let (k, v) = p.split_once('=').unwrap();
            (k.to_string(), percent_decode(v))
        })
        .collect()
}

#[test]
fn delete_by_id_end_to_end() {
    let mut client = MockTransport {
        status: 200,
        answer: Some(
            r#"{"found":true,"_index":"foo","_type":"bar","_id":"1","_version":2}"#.to_string(),
        ),
        seen: Vec::new(),
    };
    let op = DeleteOperation::new("foo", "bar", "1").with_version("2");
    assert_eq!(op.request().path, "/foo/bar/1?version=2");
    let r = op.send(&mut client).unwrap();
    assert!(r.found);
    assert_eq!(r.index, "foo");
    assert_eq!(r.doc_type, "bar");
    assert_eq!(r.id, "1");
    assert_eq!(r.version, 2);
    assert_eq!(client.seen, vec![(Method::Delete, "/foo/bar/1?version=2".to_string(), false)]);
}

#[test]
fn delete_unexpected_status() {
    let mut client = MockTransport { status: 500, answer: None, seen: Vec::new() };
    let r = DeleteOperation::new("foo", "bar", "1").send(&mut client);
    assert!(matches!(r, Err(EsError::UnexpectedStatus(500))));
}

#[test]
fn delete_result_missing_version_fails() {
    let j = parse(r#"{"found":true,"_index":"foo","_type":"bar","_id":"1"}"#);
    assert!(matches!(DeleteResult::from_json(&j), Err(EsError::Decode(_))));
    let j = parse(r#"{"found":"yes","_index":"foo","_type":"bar","_id":"1","_version":2}"#);
    assert!(matches!(DeleteResult::from_json(&j), Err(EsError::Decode(_))));
}

#[test]
fn query_string_in_order_and_encoded() {
    let mut o = Options::new();
    assert_eq!(format_query_string(&o), "");
    o.push("version", "2");
    o.push("q", "name:a b&c=d");
    o.push("routing", "é~");
    let qs = format_query_string(&o);
    assert_eq!(qs, "?version=2&q=name%3Aa%20b%26c%3Dd&routing=%C3%A9~");
}

#[test]
fn query_string_round_trip() {
    let pairs = vec![
        ("q", "title:\"hello world\" AND 100%"),
        ("df", "body"),
        ("sort", "date:desc,_score"),
        ("analyzer", "日本語 ✓ 𝄞"),
        ("lenient", ""),
    ];
    let mut o = Options::new();
    for (k, v) in &pairs {
        o.push(k, v);
    }
    let back = parse_query_string(&format_query_string(&o));
    let want: Vec<(String, String)> =
        pairs.iter().map(|(k, v)| (k.to_string(), v.to_string())).collect();
    assert_eq!(back, want);
}

#[test]
fn path_without_indexes_has_no_segments() {
    assert_eq!(format_indexes_and_types(&vec![], &vec!["t".to_string()]), "");
    assert_eq!(
        format_indexes_and_types(&vec!["a".to_string(), "b".to_string()], &vec![]),
        "/a,b"
    );
    assert_eq!(
        format_indexes_and_types(
            &vec!["a".to_string(), "b".to_string()],
            &vec!["t".to_string(), "u".to_string()]
        ),
        "/a,b/t,u"
    );
    let op = SearchURIOperation::new().with_types(vec!["t".to_string()]).with_query("x");
    assert_eq!(op.request().path, "/_search?q=x");
}

#[test]
fn delete_by_query_not_found_is_none() {
    let mut client = MockTransport { status: 404, answer: None, seen: Vec::new() };
    let r = DeleteByQueryOperation::new()
        .with_indexes(vec!["foo".to_string()])
        .with_query_string("user:kimchy")
        .send(&mut client);
    assert!(matches!(r, Ok(None)));
    assert_eq!(
        client.seen,
        vec![(Method::Delete, "/foo/_query?q=user%3Akimchy".to_string(), false)]
    );
}

#[test]
fn delete_by_query_success_and_failure() {
    let ok = parse(
        r#"{"_indices":{"a":{"_shards":{"total":5,"successful":5,"failed":0}},
                        "b":{"_shards":{"total":5,"successful":5,"failed":0}}}}"#,
    );
    let r = DeleteByQueryOperation::response(200, Some(ok)).unwrap().unwrap();
    assert_eq!(r.indices.len(), 2);
    assert_eq!(r.indices[0].0, "a");
    assert_eq!(r.indices[1].1.shards.total, 5);
    assert!(r.successful());
    let bad = parse(
        r#"{"_indices":{"a":{"_shards":{"total":5,"successful":5,"failed":0}},
                        "b":{"_shards":{"total":5,"successful":3,"failed":2}}}}"#,
    );
    let r = DeleteByQueryOperation::response(200, Some(bad)).unwrap().unwrap();
    assert!(!r.successful());
    assert!(!r.indices[1].1.successful());
    let empty = parse(r#"{"_indices":{}}"#);
    assert!(DeleteByQueryOperation::response(200, Some(empty)).unwrap().unwrap().successful());
    assert!(matches!(
        DeleteByQueryOperation::response(503, None),
        Err(EsError::UnexpectedStatus(503))
    ));
    let broken = parse(r#"{"_indices":{"a":{"_shards":{"total":5}}}}"#);
    assert!(matches!(
        DeleteByQueryOperation::response(200, Some(broken)),
        Err(EsError::Decode(_))
    ));
}

#[test]
fn delete_by_query_document_goes_in_body_only() {
    let q = obj(vec![("match_all", obj(vec![]))]);
    let req = DeleteByQueryOperation::new()
        .with_indexes(vec!["foo".to_string()])
        .with_doc_types(vec!["bar".to_string()])
        .with_query_string("ignored")
        .with_query(q)
        .with_routing("r1")
        .request();
    assert_eq!(req.method, Method::Delete);
    assert_eq!(req.path, "/foo/bar/_query?routing=r1");
    match req.body {
        Some(Json::Object(f)) => {
            assert_eq!(f.len(), 1);
            assert_eq!(f[0].0, "query");
            assert!(matches!(&f[0].1, Json::Object(m) if m[0].0 == "match_all"));
        }
        other => panic!("unexpected body {:?}", other),
    }
}

#[test]
fn search_body_defaults_and_min_score() {
    let req = SearchQueryOperation::new().request();
    assert_eq!(req.method, Method::Post);
    assert_eq!(req.path, "/_search");
    match req.body {
        Some(Json::Object(f)) => {
            assert_eq!(f.len(), 2);
            assert!(f[0].0 == "from" && matches!(f[0].1, Json::I64(0)));
            assert!(f[1].0 == "size" && matches!(f[1].1, Json::I64(10)));
        }
        other => panic!("unexpected body {:?}", other),
    }
    let req = SearchQueryOperation::new().with_min_score("0.5").request();
    match req.body {
        Some(Json::Object(f)) => {
            assert_eq!(f.len(), 3);
            assert!(f[0].0 == "from" && matches!(f[0].1, Json::I64(0)));
            assert!(f[1].0 == "min_score" && matches!(&f[1].1, Json::Float(t) if t == "0.5"));
            assert!(f[2].0 == "size" && matches!(f[2].1, Json::I64(10)));
        }
        other => panic!("unexpected body {:?}", other),
    }
}

#[test]
fn search_body_all_fields() {
    let req = SearchQueryOperation::new()
        .with_indexes(vec!["i".to_string()])
        .with_types(vec!["t".to_string()])
        .with_query(obj(vec![("match_all", obj(vec![]))]))
        .with_timeout("5s")
        .with_from(20)
        .with_size(5)
        .with_terminate_after(100)
        .with_stats(vec!["g1".to_string(), "g2".to_string()])
        .with_routing("r")
        .with_search_type(&SearchType::DFSQueryThenFetch.to_string())
        .request();
    assert_eq!(req.path, "/i/t/_search?routing=r&search_type=dfs_query_then_fetch");
    let keys: Vec<String> = match &req.body {
        Some(Json::Object(f)) => f.iter().map(|(k, _)| k.clone()).collect(),
        _ => panic!("no body"),
    };
    assert_eq!(keys, vec!["from", "query", "size", "stats", "terminate_after", "timeout"]);
    match req.body {
        Some(Json::Object(f)) => {
            assert!(matches!(f[0].1, Json::I64(20)));
            assert!(matches!(f[2].1, Json::I64(5)));
            assert!(matches!(&f[3].1, Json::Array(a) if a.len() == 2 && matches!(&a[1], Json::Str(x) if x == "g2")));
            assert!(matches!(f[4].1, Json::I64(100)));
            assert!(matches!(&f[5].1, Json::Str(x) if x == "5s"));
        }
        _ => panic!("no body"),
    }
}

#[test]
fn search_type_names() {
    assert_eq!(SearchType::DFSQueryThenFetch.to_string(), "dfs_query_then_fetch");
    assert_eq!(SearchType::DFSQueryAndFetch.to_string(), "dfs_query_and_fetch");
    assert_eq!(SearchType::QueryThenFetch.to_string(), "query_then_fetch");
    assert_eq!(SearchType::QueryAndFetch.to_string(), "query_and_fetch");
}

#[test]
fn search_uri_fields_and_options() {
    let op = SearchURIOperation::new()
        .with_indexes(vec!["a".to_string()])
        .with_query("x y")
        .with_fields(&vec!["f1".to_string(), "f2".to_string()])
        .with_from("10")
        .with_size("5");
    assert_eq!(op.request().path, "/a/_search?q=x%20y&fields=f1%2Cf2&from=10&size=5");
}

const SEARCH_ANSWER: &str = r#"{"_shards":{"total":5,"successful":5,"failed":0},
  "hits":{"total":2,"hits":[
    {"_index":"foo","_type":"bar","_id":"1","_score":1.5,"_source":{"name":"x"}},
    {"_index":"foo","_type":"bar","_id":"2","_score":0.25,"fields":{"name":["y"]}}]}}"#;

#[test]
fn search_result_decodes_hits_in_order() {
    let mut client =
        MockTransport { status: 200, answer: Some(SEARCH_ANSWER.to_string()), seen: Vec::new() };
    let r = SearchURIOperation::new()
        .with_indexes(vec!["foo".to_string()])
        .with_query("name:x")
        .send(&mut client)
        .unwrap();
    assert_eq!(r.shards.total, 5);
    assert_eq!(r.hits.total, 2);
    assert_eq!(r.hits.hits.len(), 2);
    assert_eq!(r.hits.hits[0].id, "1");
    assert!(matches!(&r.hits.hits[0].score, Json::Float(t) if t == "1.5"));
    assert!(r.hits.hits[0].source.is_some());
    assert!(r.hits.hits[0].fields.is_none());
    assert_eq!(r.hits.hits[1].id, "2");
    assert!(r.hits.hits[1].source.is_none());
    assert!(r.hits.hits[1].fields.is_some());
    assert_eq!(client.seen, vec![(Method::Get, "/foo/_search?q=name%3Ax".to_string(), false)]);
}

#[test]
fn hit_without_source_gives_no_source_field() {
    let j = parse(r#"{"_index":"foo","_type":"bar","_id":"1","_score":1.0}"#);
    let hit = SearchHitsHitsResult::from_json(j).unwrap();
    assert!(hit.source.is_none());
    assert!(matches!(hit.source(), Err(EsError::NoSourceField)));
    let j = parse(r#"{"_index":"foo","_type":"bar","_id":"1","_score":1.0,"_source":{"a":1}}"#);
    let hit = SearchHitsHitsResult::from_json(j).unwrap();
    match hit.source() {
        Ok(Json::Object(f)) => assert_eq!(f[0].0, "a"),
        other => panic!("unexpected {:?}", other),
    }
}

#[test]
fn search_result_missing_parts_fail() {
    let j = parse(r#"{"hits":{"total":0,"hits":[]}}"#);
    assert!(matches!(SearchResult::from_json(j), Err(EsError::Decode(_))));
    let j = parse(r#"{"_shards":{"total":1,"successful":1,"failed":0},"hits":{"total":1,"hits":[{"_index":"a","_type":"b","_id":"c"}]}}"#);
    assert!(matches!(SearchResult::from_json(j), Err(EsError::Decode(_))));
    assert!(matches!(SearchResult::response(400, None), Err(EsError::UnexpectedStatus(400))));
    assert!(matches!(SearchResult::response(200, None), Err(EsError::Decode(_))));
}

#[test]
fn search_query_post_through_transport() {
    let mut client =
        MockTransport { status: 200, answer: Some(SEARCH_ANSWER.to_string()), seen: Vec::new() };
    let r = SearchQueryOperation::new()
        .with_indexes(vec!["foo".to_string()])
        .with_query_cache("true")
        .send(&mut client)
        .unwrap();
    assert_eq!(r.hits.hits.len(), 2);
    assert_eq!(client.seen, vec![(Method::Post, "/foo/_search?query_cache=true".to_string(), true)]);
}
