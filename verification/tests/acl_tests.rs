use kadugu::acl::AccessControlList;
use kadugu::acl::contains_substring;

fn bytes(s: &str) -> Vec<u8> {
    s.as_bytes().to_vec()
}

#[test]
fn empty_acl_accepts_all() {
    let gate = AccessControlList::new(Vec::new());
    assert!(gate.is_empty());
    assert!(gate.accepts(&bytes("anyone")));
    assert!(gate.accepts(&bytes("")));
}

#[test]
fn entry_substring_of_peer_accepted() {
    let gate = AccessControlList::new(vec![bytes("abc")]);
    assert!(!gate.is_empty());
    assert!(gate.accepts(&bytes("abc123")));
}

#[test]
fn unlisted_peer_rejected() {
    let gate = AccessControlList::new(vec![bytes("abc")]);
    assert!(!gate.accepts(&bytes("xyz")));
}

#[test]
fn entry_in_middle_of_peer_accepted() {
    let gate = AccessControlList::new(vec![bytes("bc1")]);
    assert!(gate.accepts(&bytes("abc123")));
}

#[test]
fn any_of_several_entries_suffices() {
    let gate = AccessControlList::new(vec![bytes("zzz"), bytes("123")]);
    assert!(gate.accepts(&bytes("abc123")));
    assert!(!gate.accepts(&bytes("abc124")));
}

#[test]
fn entry_longer_than_peer_rejected() {
    let gate = AccessControlList::new(vec![bytes("abc123longer")]);
    assert!(!gate.accepts(&bytes("abc123")));
}

#[test]
fn empty_entry_matches_every_peer() {
    let gate = AccessControlList::new(vec![bytes("")]);
    assert!(gate.accepts(&bytes("abc123")));
    assert!(gate.accepts(&bytes("")));
}

#[test]
fn substring_search_positions() {
    assert!(contains_substring(&bytes("abc123"), &bytes("abc")));
    assert!(contains_substring(&bytes("abc123"), &bytes("123")));
    assert!(contains_substring(&bytes("abc123"), &bytes("c1")));
    assert!(contains_substring(&bytes("abc123"), &bytes("abc123")));
    assert!(!contains_substring(&bytes("abc123"), &bytes("ac")));
    assert!(!contains_substring(&bytes(""), &bytes("a")));
    assert!(contains_substring(&bytes(""), &bytes("")));
}
