use static_serve::get_pathbuf;
use static_serve::UriSegmentError;

#[test]
fn plain_path_passes_through() {
    assert_eq!(get_pathbuf("a/b/c"), Ok("a/b/c".to_string()));
}

#[test]
fn leading_slash_is_dropped() {
    assert_eq!(get_pathbuf("/hello"), Ok("hello".to_string()));
}

#[test]
fn empty_segments_collapse() {
    assert_eq!(get_pathbuf("a//b///c"), Ok("a/b/c".to_string()));
}

#[test]
fn parent_segment_pops_predecessor() {
    assert_eq!(get_pathbuf("a/b/../c"), Ok("a/c".to_string()));
}

#[test]
fn parent_segment_never_escapes_the_root() {
    assert_eq!(get_pathbuf("/../../etc/passwd"), Ok("etc/passwd".to_string()));
    assert_eq!(get_pathbuf("../.."), Ok(String::new()));
}

#[test]
fn leading_dot_is_rejected() {
    assert_eq!(get_pathbuf(".hidden"), Err(UriSegmentError::BadStart('.')));
    assert_eq!(get_pathbuf("a/.hidden/b"), Err(UriSegmentError::BadStart('.')));
}

#[test]
fn leading_star_is_rejected() {
    assert_eq!(get_pathbuf("*glob"), Err(UriSegmentError::BadStart('*')));
}

#[test]
fn trailing_colon_is_rejected() {
    assert_eq!(get_pathbuf("drive:"), Err(UriSegmentError::BadEnd(':')));
}

#[test]
fn trailing_angle_brackets_are_rejected() {
    assert_eq!(get_pathbuf("a>"), Err(UriSegmentError::BadEnd('>')));
    assert_eq!(get_pathbuf("a<"), Err(UriSegmentError::BadEnd('<')));
}

#[test]
fn empty_path_stays_empty() {
    assert_eq!(get_pathbuf(""), Ok(String::new()));
}

#[test]
fn bad_segment_beats_lookup_even_deep_in_the_path() {
    assert_eq!(get_pathbuf("ok/so far/.oops"), Err(UriSegmentError::BadStart('.')));
}
