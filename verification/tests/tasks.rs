use build_util::task_ids;
use build_util::UtilError;

#[test]
fn lookup_by_position() {
    let ids = task_ids("a,b,c");
    assert_eq!(ids.get("a"), Some(0));
    assert_eq!(ids.get("b"), Some(1));
    assert_eq!(ids.get("c"), Some(2));
    assert_eq!(ids.get("z"), None);
}

#[test]
fn bulk_translation_preserves_order() {
    let ids = task_ids("a,b,c");
    let names = vec![String::from("c"), String::from("a")];
    let translated = ids.names_to_ids(&names).unwrap();
    assert_eq!(translated, vec![2, 0]);
}

#[test]
fn bulk_translation_fails_whole_on_unknown() {
    let ids = task_ids("a,b,c");
    let names = vec![String::from("a"), String::from("nope"), String::from("b")];
    match ids.names_to_ids(&names) {
        Ok(_) => panic!("translation with an unknown name must fail"),
        Err(UtilError::UnknownTask { name }) => assert_eq!(name, "nope"),
        Err(_) => panic!("wrong error variant"),
    }
}

#[test]
fn unknown_task_message_names_the_task() {
    let ids = task_ids("a,b");
    let names = vec![String::from("ghost")];
    let err = ids.names_to_ids(&names).unwrap_err();
    assert_eq!(err.message(), "unknown task `ghost`");
}

#[test]
fn duplicate_names_resolve_to_last_position() {
    // Duplicate names are not deduplicated: the later position wins,
    // and the earlier occurrence's ID is unreachable by name.
    let ids = task_ids("a,b,a");
    assert_eq!(ids.get("a"), Some(2));
    assert_eq!(ids.get("b"), Some(1));
}

#[test]
fn empty_list_is_one_empty_name() {
    let ids = task_ids("");
    assert_eq!(ids.get(""), Some(0));
    assert_eq!(ids.get("a"), None);
}

#[test]
fn trailing_comma_yields_empty_name() {
    let ids = task_ids("a,b,");
    assert_eq!(ids.get("a"), Some(0));
    assert_eq!(ids.get("b"), Some(1));
    assert_eq!(ids.get(""), Some(2));
}

#[test]
fn remap_translates_every_value_list() {
    let ids = task_ids("a,b,c");
    let allowed = vec![
        (String::from("read"), vec![String::from("b"), String::from("a")]),
        (String::from("write"), vec![String::from("c")]),
    ];
    let out = ids.remap_allowed_caller_names_to_ids(&allowed).unwrap();
    assert_eq!(out.len(), 2);
    assert_eq!(out[0].0, "read");
    assert_eq!(out[0].1, vec![1, 0]);
    assert_eq!(out[1].0, "write");
    assert_eq!(out[1].1, vec![2]);
}

#[test]
fn remap_fails_whole_on_unknown() {
    let ids = task_ids("a,b,c");
    let allowed = vec![
        (String::from("read"), vec![String::from("a")]),
        (String::from("write"), vec![String::from("who")]),
    ];
    match ids.remap_allowed_caller_names_to_ids(&allowed) {
        Ok(_) => panic!("remap with an unknown name must fail"),
        Err(UtilError::UnknownTask { name }) => assert_eq!(name, "who"),
        Err(_) => panic!("wrong error variant"),
    }
}
