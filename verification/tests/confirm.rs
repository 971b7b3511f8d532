use shippr::confirm::confirm;

#[test]
fn accept_true() {
    for input in ["Y", "y", "Yes", "yes", "YeS", "YES"] {
        assert!(confirm(input), "{input} should confirm");
    }
}

#[test]
fn deny_false() {
    for input in ["N", "n", "no", "No", "okay", "ok", ""] {
        assert!(!confirm(input), "{input} should decline");
    }
}

#[test]
fn surrounding_whitespace_is_ignored() {
    assert!(confirm("  yes\n"));
    assert!(confirm("\ty "));
    assert!(!confirm("  \n"));
}
