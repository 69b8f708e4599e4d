use github_manager::operations::{
    check_listing_status, delete_outcome, is_success, repositories_url, repository_url, DeleteError,
    FetchError,
};

#[test]
fn listing_url() {
    assert_eq!(repositories_url("octo"), "https://api.github.com/users/octo/repos?per_page=100");
}

#[test]
fn repository_url_joins_owner_and_name() {
    assert_eq!(repository_url("octo", "hello"), "https://api.github.com/repos/octo/hello");
}

#[test]
fn success_class() {
    assert!(is_success(200));
    assert!(is_success(204));
    assert!(is_success(299));
    assert!(!is_success(199));
    assert!(!is_success(300));
    assert!(!is_success(404));
}

#[test]
fn listing_status_failure_carries_status() {
    assert!(check_listing_status(200).is_ok());
    assert!(matches!(check_listing_status(401), Err(FetchError::Status(401))));
}

#[test]
fn delete_failure_names_status() {
    for status in [301u16, 403, 404, 500, 503] {
        match delete_outcome("hello", Ok(status)) {
            Err(DeleteError::Status { name, status: s }) => {
                assert_eq!(name, "hello");
                assert_eq!(s, status);
            }
            other => panic!("unexpected {:?}", other),
        }
    }
    assert!(delete_outcome("hello", Ok(204)).is_ok());
}

#[test]
fn transport_failure_is_distinct() {
    match delete_outcome("hello", Err("connection reset".to_string())) {
        Err(e @ DeleteError::Transport { .. }) => {
            assert_eq!(e.name(), "hello");
            if let DeleteError::Transport { reason, .. } = e {
                assert_eq!(reason, "connection reset");
            }
        }
        other => panic!("unexpected {:?}", other),
    }
}
