//! Embedded static web assets: a build-time resource collector and code
//! generator, and a request-serving core with conditional-request (`ETag`)
//! handling, path-traversal safety, and optional single-page-application
//! fallback routing.

mod dir;
mod etag;
mod files;
mod generate;
mod laws;
mod path;
mod resource;
mod service;
mod strutil;

pub use dir::change_detection_exclude_dir;
pub use dir::exclude_dir_spec;
pub use dir::resource_dir;
pub use dir::NpmBuild;
pub use dir::ResourceDir;
pub use etag::any_match;
pub use etag::any_match_spec;
pub use etag::compute_etag;
pub use etag::etag_token;
pub use etag::hex_of;
pub use etag::if_match_view;
pub use etag::if_none_match_view;
pub use etag::none_match;
pub use etag::none_match_spec;
pub use etag::resource_etag;
pub use etag::strong_match;
pub use etag::weak_match;
pub use etag::EntityTag;
pub use etag::EntityTagView;
pub use etag::IfMatch;
pub use etag::IfMatchView;
pub use etag::IfNoneMatch;
pub use etag::IfNoneMatchView;
pub use files::guard_check_spec;
pub use files::ResourceFiles;
pub use files::ResourceFilesView;
pub use generate::bytes_text;
pub use generate::dec_of;
pub use generate::escaped;
pub use generate::generate_function_end;
pub use generate::generate_function_header;
pub use generate::generate_resource_inserts;
pub use generate::generate_resources_code;
pub use generate::generate_resources_mapping_code;
pub use generate::generate_uses;
pub use generate::generate_variable_header;
pub use generate::generate_variable_return;
pub use generate::insert_line_text;
pub use generate::inserts_text;
pub use generate::lemma_generate_deterministic;
pub use generate::mime_of;
pub use generate::push_dec;
pub use generate::resources_code_text;
pub use generate::resources_mapping_text;
pub use generate::CollectedEntry;
pub use generate::CollectedEntryView;
pub use laws::lemma_head_same_as_get;
pub use laws::lemma_if_match_mismatch;
pub use laws::lemma_if_none_match_any;
pub use laws::lemma_if_none_match_tag;
pub use laws::lemma_serve_bad_end;
pub use laws::lemma_serve_bad_start;
pub use laws::lemma_serve_deterministic;
pub use path::get_pathbuf;
pub use path::join_segs;
pub use path::lemma_bad_end_rejected;
pub use path::lemma_bad_start_rejected;
pub use path::lemma_normalized_key_is_relative;
pub use path::lemma_parent_segment_pops;
pub use path::normalize_path;
pub use path::seg_clean;
pub use path::seg_is_parent;
pub use path::seg_pushable;
pub use path::split_segs;
pub use path::validate_from;
pub use path::UriSegmentError;
pub use resource::map_of;
pub use resource::new_resource;
pub use resource::Resource;
pub use resource::ResourceTable;
pub use resource::ResourceView;
pub use service::bad_request_response;
pub use service::index_key;
pub use service::lookup_direct;
pub use service::lookup_validated;
pub use service::method_not_allowed_body;
pub use service::method_not_allowed_response;
pub use service::not_found_body;
pub use service::not_found_response;
pub use service::respond_spec;
pub use service::serve_spec;
pub use service::trim_slashes;
pub use service::InnerView;
pub use service::Method;
pub use service::RequestModel;
pub use service::RequestView;
pub use service::ResourceFilesInner;
pub use service::ResourceFilesService;
pub use service::ResponseModel;
pub use service::ResponseView;
pub use service::ServiceView;
pub use strutil::str_eq;
