use bh::validation::{valid_scan_name, valid_workflow_var_key};

#[test]
fn scan_names() {
    assert!(!valid_scan_name(""));
    assert!(valid_scan_name("job_1"));
    assert!(!valid_scan_name("job-1"));
    assert!(valid_scan_name("ABCxyz_09"));
    assert!(!valid_scan_name("a b"));
    assert!(!valid_scan_name("é"));
}

#[test]
fn workflow_var_keys() {
    assert!(valid_workflow_var_key("a-b_1"));
    assert!(!valid_workflow_var_key("a.b"));
    assert!(!valid_workflow_var_key(""));
    assert!(valid_workflow_var_key("-"));
    assert!(!valid_workflow_var_key("a=b"));
}

#[test]
fn revalidation_agrees() {
    for s in ["job_1", "a-b_1", "", "x y", "A9_-"] {
        let owned = s.to_string();
        assert_eq!(valid_scan_name(s), valid_scan_name(&owned));
        assert_eq!(valid_workflow_var_key(s), valid_workflow_var_key(&owned));
        if valid_scan_name(s) {
            assert!(valid_workflow_var_key(s));
        }
    }
}
