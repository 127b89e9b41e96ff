use static_serve::UriSegmentError;

fn assert_send_and_sync<T: Send + Sync + 'static>() {}

#[test]
fn impl_test_error_impl() {
    assert_send_and_sync::<UriSegmentError>();
}

#[test]
fn resource_files_test_error_impl() {
    assert_send_and_sync::<UriSegmentError>();
}
