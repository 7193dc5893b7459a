use process_feed::diff::{contains, copy_of, diff};
use process_feed::process_data::{OwnerId, ProcessData};

fn entry(pid: usize, name: &str, uid: usize, username: &str) -> ProcessData {
    ProcessData {
        pid,
        name: name.to_string(),
        uid: OwnerId::Number(uid),
        username: username.to_string(),
    }
}

#[test]
fn diff_reports_entries_absent_from_old() {
    let old = vec![entry(1, "init", 0, "root"), entry(2, "sshd", 0, "root")];
    let new = vec![
        entry(1, "init", 0, "root"),
        entry(3, "bash", 1000, "alice"),
        entry(2, "sshd", 0, "root"),
        entry(4, "vim", 1000, "alice"),
    ];
    let fresh = diff(&old, &new);
    assert_eq!(fresh, vec![entry(3, "bash", 1000, "alice"), entry(4, "vim", 1000, "alice")]);
    for e in &fresh {
        assert!(contains(&new, e));
        assert!(!contains(&old, e));
    }
    for e in &new {
        if contains(&old, e) {
            assert!(!contains(&fresh, e));
        }
    }
}

#[test]
fn diff_is_sensitive_to_every_field() {
    let old = vec![entry(1, "a", 0, "root")];
    let new = vec![entry(1, "a", 0, "alice")];
    assert_eq!(diff(&old, &new), vec![entry(1, "a", 0, "alice")]);
}

#[test]
fn diff_reports_renamed_process_and_changed_owner_id() {
    let old = vec![entry(7, "old-name", 5, "bob")];
    assert_eq!(diff(&old, &vec![entry(7, "new-name", 5, "bob")]).len(), 1);
    assert_eq!(diff(&old, &vec![entry(7, "old-name", 6, "bob")]).len(), 1);
    assert_eq!(diff(&old, &vec![entry(8, "old-name", 5, "bob")]).len(), 1);
}

#[test]
fn diff_against_identical_copy_is_empty() {
    let list = vec![entry(1, "a", 0, "root"), entry(2, "b", 1, "bob"), entry(2, "b", 1, "bob")];
    let copy = copy_of(&list);
    assert_eq!(copy, list);
    assert!(diff(&list, &copy).is_empty());
    assert!(diff(&list, &list).is_empty());
}

#[test]
fn diff_keeps_the_order_of_new() {
    let old: Vec<ProcessData> = Vec::new();
    let new = vec![entry(9, "z", 0, "root"), entry(1, "a", 0, "root"), entry(5, "m", 0, "root")];
    assert_eq!(diff(&old, &new), new);
}

#[test]
fn diff_does_not_report_terminated_processes() {
    let old = vec![entry(1, "a", 0, "root"), entry(2, "b", 0, "root")];
    let new = vec![entry(1, "a", 0, "root")];
    assert!(diff(&old, &new).is_empty());
}

#[test]
fn diff_keeps_an_entry_that_new_holds_twice() {
    let old = vec![entry(1, "a", 0, "root")];
    let new = vec![entry(2, "b", 0, "root"), entry(1, "a", 0, "root"), entry(2, "b", 0, "root")];
    assert_eq!(diff(&old, &new), vec![entry(2, "b", 0, "root"), entry(2, "b", 0, "root")]);
}

#[test]
fn diff_of_empty_lists() {
    let none: Vec<ProcessData> = Vec::new();
    let some = vec![entry(1, "a", 0, "root")];
    assert!(diff(&none, &none).is_empty());
    assert!(diff(&some, &none).is_empty());
    assert_eq!(diff(&none, &some), some);
}

#[test]
fn contains_compares_whole_entries() {
    let list = vec![entry(1, "a", 0, "root"), entry(2, "b", 1, "bob")];
    assert!(contains(&list, &entry(2, "b", 1, "bob")));
    assert!(!contains(&list, &entry(2, "b", 1, "bobby")));
    assert!(!contains(&list, &entry(3, "b", 1, "bob")));
    assert!(!contains(&Vec::new(), &entry(1, "a", 0, "root")));
}

#[test]
fn process_data_equality_and_clone() {
    let a = entry(1, "a", 0, "root");
    assert_eq!(a.clone(), a);
    assert_ne!(a, entry(1, "a", 0, "toor"));
    assert_ne!(a, entry(1, "b", 0, "root"));
    assert_ne!(a, entry(1, "a", 1, "root"));
    assert_ne!(a, entry(2, "a", 0, "root"));
}

fn text_entry(pid: usize, name: &str, uid: &str, username: &str) -> ProcessData {
    ProcessData {
        pid,
        name: name.to_string(),
        uid: OwnerId::Text(uid.to_string()),
        username: username.to_string(),
    }
}

#[test]
fn owner_ids_are_compared_as_tokens() {
    assert_eq!(OwnerId::Number(7), OwnerId::Number(7));
    assert_ne!(OwnerId::Number(7), OwnerId::Number(8));
    assert_eq!(OwnerId::Text("S-1-5-18".to_string()), OwnerId::Text("S-1-5-18".to_string()));
    assert_ne!(OwnerId::Text("S-1-5-18".to_string()), OwnerId::Text("S-1-5-19".to_string()));
    assert_ne!(OwnerId::Number(0), OwnerId::Text("0".to_string()));
    assert_ne!(OwnerId::Text("0".to_string()), OwnerId::Number(0));
    assert_eq!(OwnerId::Text("a".to_string()).clone(), OwnerId::Text("a".to_string()));
    assert_eq!(OwnerId::Number(3).clone(), OwnerId::Number(3));
}

#[test]
fn diff_works_on_textual_owner_ids() {
    let old = vec![text_entry(1, "a", "S-1-5-18", "SYSTEM"), text_entry(2, "b", "S-1-5-19", "svc")];
    let new = vec![
        text_entry(1, "a", "S-1-5-18", "SYSTEM"),
        text_entry(2, "b", "S-1-5-20", "svc"),
        entry(3, "c", 0, "root"),
    ];
    assert_eq!(diff(&old, &new), vec![text_entry(2, "b", "S-1-5-20", "svc"), entry(3, "c", 0, "root")]);
    assert!(diff(&new, &new).is_empty());
    assert_eq!(diff(&vec![entry(1, "a", 0, "root")], &vec![text_entry(1, "a", "0", "root")]).len(), 1);
}
