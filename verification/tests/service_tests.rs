use static_serve::new_resource;
use static_serve::EntityTag;
use static_serve::IfMatch;
use static_serve::IfNoneMatch;
use static_serve::Method;
use static_serve::RequestModel;
use static_serve::ResourceFiles;
use static_serve::ResourceFilesService;
use static_serve::ResourceTable;

fn hello_table() -> ResourceTable {
    let mut table = ResourceTable::new();
    table.insert(
        "hello".to_string(),
        new_resource(b"Hello, world".to_vec(), 1620000000, "text/plain".to_string()),
    );
    table
}

fn index_table() -> ResourceTable {
    let mut table = ResourceTable::new();
    table.insert(
        "index.html".to_string(),
        new_resource(b"<html></html>".to_vec(), 1620000000, "text/html".to_string()),
    );
    table
}

fn hello_service() -> ResourceFilesService {
    ResourceFiles::new("/", hello_table()).new_service()
}

fn get(path: &str) -> RequestModel {
    RequestModel {
        method: Method::Get,
        path: path.to_string(),
        if_match: None,
        if_none_match: None,
    }
}

#[test]
fn scenario_get_hello_serves_body() {
    let service = hello_service();
    let response = service.serve(&get("/hello"));
    assert_eq!(response.status, 200);
    assert_eq!(response.body, b"Hello, world".to_vec());
    assert_eq!(response.content_type, Some("text/plain".to_string()));
    assert!(response.etag.is_some());
    assert_eq!(response.etag.unwrap().tag, "c:608f3d00".to_string());
}

#[test]
fn scenario_missing_key_draws_plain_404() {
    let service = hello_service();
    let response = service.serve(&get("/missing"));
    assert_eq!(response.status, 404);
    assert_eq!(response.body, b"Not found".to_vec());
    assert!(!response.body.is_empty());
    assert!(response.etag.is_none());
}

#[test]
fn scenario_root_serves_default_document() {
    let service = ResourceFiles::new("/", index_table()).new_service();
    let response = service.serve(&get("/"));
    assert_eq!(response.status, 200);
    assert_eq!(response.body, b"<html></html>".to_vec());
    assert_eq!(response.content_type, Some("text/html".to_string()));
}

#[test]
fn default_document_off_draws_404_for_root() {
    let service = ResourceFiles::new("/", index_table())
        .do_not_resolve_defaults()
        .new_service();
    let response = service.serve(&get("/"));
    assert_eq!(response.status, 404);
}

#[test]
fn scenario_spa_fallback_serves_entry_page() {
    let service = ResourceFiles::new("/", index_table())
        .resolve_not_found_to("index.html")
        .new_service();
    let response = service.serve(&get("/some/app/route"));
    assert_eq!(response.status, 200);
    assert_eq!(response.body, b"<html></html>".to_vec());
}

#[test]
fn fallback_to_root_shorthand_serves_entry_page() {
    let service = ResourceFiles::new("/", index_table())
        .resolve_not_found_to_root()
        .new_service();
    let response = service.serve(&get("/another/route"));
    assert_eq!(response.status, 200);
    assert_eq!(response.body, b"<html></html>".to_vec());
}

#[test]
fn scenario_traversal_never_escapes_the_table() {
    let service = hello_service();
    let response = service.serve(&get("/../../etc/passwd"));
    assert_eq!(response.status, 404);
    assert_eq!(response.body, b"Not found".to_vec());
}

#[test]
fn scenario_post_draws_405_with_allow_header() {
    let service = hello_service();
    let request = RequestModel {
        method: Method::Other,
        path: "/hello".to_string(),
        if_match: None,
        if_none_match: None,
    };
    let response = service.serve(&request);
    assert_eq!(response.status, 405);
    assert_eq!(response.allow, Some("GET, HEAD".to_string()));
    assert_eq!(response.content_type, Some("text/plain".to_string()));
}

#[test]
fn unsafe_segment_draws_400_not_404() {
    let service = hello_service();
    let response = service.serve(&get("/.well-known/x"));
    assert_eq!(response.status, 400);
    assert!(response.body.is_empty());
    assert!(response.etag.is_none());
}

#[test]
fn repeated_get_is_idempotent() {
    let service = hello_service();
    let first = service.serve(&get("/hello"));
    let second = service.serve(&get("/hello"));
    assert_eq!(first.status, second.status);
    assert_eq!(first.body, second.body);
    let first_missing = service.serve(&get("/missing"));
    let second_missing = service.serve(&get("/missing"));
    assert_eq!(first_missing.status, second_missing.status);
    assert_eq!(first_missing.body, second_missing.body);
}

#[test]
fn head_draws_same_status_and_headers_as_get() {
    let service = hello_service();
    let head = RequestModel {
        method: Method::Head,
        path: "/hello".to_string(),
        if_match: None,
        if_none_match: None,
    };
    let get_response = service.serve(&get("/hello"));
    let head_response = service.serve(&head);
    assert_eq!(head_response.status, get_response.status);
    assert_eq!(head_response.content_type, get_response.content_type);
    assert_eq!(
        head_response.etag.map(|t| t.tag),
        get_response.etag.map(|t| t.tag)
    );
}

#[test]
fn if_none_match_with_matching_tag_draws_304() {
    let service = hello_service();
    let request = RequestModel {
        method: Method::Get,
        path: "/hello".to_string(),
        if_match: None,
        if_none_match: Some(IfNoneMatch::Items(vec![EntityTag::new_strong(
            "c:608f3d00".to_string(),
        )])),
    };
    let response = service.serve(&request);
    assert_eq!(response.status, 304);
    assert!(response.body.is_empty());
    assert!(response.etag.is_some());
}

#[test]
fn if_none_match_star_always_counts_as_cached() {
    let service = hello_service();
    let request = RequestModel {
        method: Method::Get,
        path: "/hello".to_string(),
        if_match: None,
        if_none_match: Some(IfNoneMatch::Any),
    };
    let response = service.serve(&request);
    assert_eq!(response.status, 304);
    assert!(response.body.is_empty());
}

#[test]
fn if_none_match_with_other_tag_serves_body() {
    let service = hello_service();
    let request = RequestModel {
        method: Method::Get,
        path: "/hello".to_string(),
        if_match: None,
        if_none_match: Some(IfNoneMatch::Items(vec![EntityTag::new_strong(
            "other".to_string(),
        )])),
    };
    let response = service.serve(&request);
    assert_eq!(response.status, 200);
    assert_eq!(response.body, b"Hello, world".to_vec());
}

#[test]
fn if_match_with_other_tag_draws_412() {
    let service = hello_service();
    let request = RequestModel {
        method: Method::Get,
        path: "/hello".to_string(),
        if_match: Some(IfMatch::Items(vec![EntityTag::new_strong("other".to_string())])),
        if_none_match: None,
    };
    let response = service.serve(&request);
    assert_eq!(response.status, 412);
    assert!(response.body.is_empty());
    assert!(response.etag.is_some());
}

#[test]
fn if_match_star_never_fails_the_precondition() {
    let service = hello_service();
    let request = RequestModel {
        method: Method::Get,
        path: "/hello".to_string(),
        if_match: Some(IfMatch::Any),
        if_none_match: None,
    };
    let response = service.serve(&request);
    assert_eq!(response.status, 200);
}

#[test]
fn weak_tag_still_matches_if_none_match() {
    let service = hello_service();
    let request = RequestModel {
        method: Method::Get,
        path: "/hello".to_string(),
        if_match: None,
        if_none_match: Some(IfNoneMatch::Items(vec![EntityTag::new_weak(
            "c:608f3d00".to_string(),
        )])),
    };
    let response = service.serve(&request);
    assert_eq!(response.status, 304);
}

#[test]
fn guard_accepts_only_known_paths() {
    let files = ResourceFiles::new("/", hello_table()).skip_handler_when_not_found();
    assert!(files.guard_enabled());
    assert!(files.guard_check("/hello"));
    assert!(!files.guard_check("/missing"));
}

#[test]
fn guard_resolves_default_documents_unless_told_not_to() {
    let files = ResourceFiles::new("/", index_table()).skip_handler_when_not_found();
    assert!(files.guard_check("/"));
    let strict = ResourceFiles::new("/", index_table())
        .do_not_resolve_defaults()
        .skip_handler_when_not_found();
    assert!(!strict.guard_check("/"));
    assert!(strict.guard_check("/index.html"));
}

#[test]
fn fallback_wins_over_guard() {
    let files = ResourceFiles::new("/", index_table())
        .skip_handler_when_not_found()
        .resolve_not_found_to_root();
    assert!(!files.guard_enabled());
}

#[test]
fn empty_path_resolves_the_root_default_document() {
    let service = ResourceFiles::new("/", index_table()).new_service();
    let response = service.serve(&get(""));
    assert_eq!(response.status, 200);
    assert_eq!(response.body, b"<html></html>".to_vec());
}

#[test]
fn nested_trailing_slash_resolves_the_nested_default_document() {
    let mut table = ResourceTable::new();
    table.insert(
        "sub/index.html".to_string(),
        new_resource(b"nested".to_vec(), 0, "text/html".to_string()),
    );
    let service = ResourceFiles::new("/", table).new_service();
    let response = service.serve(&get("sub/"));
    assert_eq!(response.status, 200);
    assert_eq!(response.body, b"nested".to_vec());
}

#[test]
fn empty_resource_gets_a_zero_etag() {
    let mut table = ResourceTable::new();
    table.insert("empty".to_string(), new_resource(Vec::new(), 0, "text/plain".to_string()));
    let service = ResourceFiles::new("/", table).new_service();
    let response = service.serve(&get("/empty"));
    assert_eq!(response.status, 200);
    assert!(response.body.is_empty());
    assert_eq!(response.etag.unwrap().tag, "0:0".to_string());
}

#[test]
fn entity_tags_compare_strongly_and_weakly() {
    let strong = EntityTag::new_strong("x".to_string());
    let weak = EntityTag::new_weak("x".to_string());
    let other = EntityTag::new_strong("y".to_string());
    assert!(strong.strong_eq(&strong));
    assert!(!strong.strong_eq(&weak));
    assert!(!strong.strong_eq(&other));
    assert!(strong.weak_eq(&weak));
    assert!(!strong.weak_eq(&other));
}

#[test]
fn table_lookup_and_replacement() {
    let mut table = ResourceTable::new();
    assert!(!table.contains_key("a"));
    table.insert("a".to_string(), new_resource(b"one".to_vec(), 1, "text/plain".to_string()));
    assert!(table.contains_key("a"));
    assert_eq!(table.get_resource("a").unwrap().data, b"one".to_vec());
    table.insert("a".to_string(), new_resource(b"two".to_vec(), 2, "text/plain".to_string()));
    assert_eq!(table.get_resource("a").unwrap().data, b"two".to_vec());
    assert!(table.get_resource("b").is_none());
}
