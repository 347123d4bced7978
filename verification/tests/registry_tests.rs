use instagram_backend::registry::Registry;

#[test]
fn insert_then_get_returns_inserted_record() {
    let mut reg = Registry::new();
    let id = reg
        .insert("alice".to_string(), "a@x.com".to_string(), Some("hi".to_string()))
        .unwrap();
    let user = reg.get(id).expect("record must be present after insert");
    assert_eq!(user.id, id);
    assert_eq!(user.username, "alice");
    assert_eq!(user.email, "a@x.com");
    assert_eq!(user.bio, Some("hi".to_string()));
}

#[test]
fn list_length_tracks_inserts_and_removes() {
    let mut reg = Registry::new();
    assert_eq!(reg.len(), 0);
    assert_eq!(reg.list().len(), 0);
    let a = reg.insert("a".to_string(), "a@x".to_string(), None).unwrap();
    let b = reg.insert("b".to_string(), "b@x".to_string(), None).unwrap();
    let _c = reg.insert("c".to_string(), "c@x".to_string(), None).unwrap();
    assert_eq!(reg.len(), 3);
    assert!(reg.remove(b));
    assert_eq!(reg.len(), 2);
    assert!(!reg.remove(b));
    assert_eq!(reg.len(), 2);
    assert!(reg.remove(a));
    assert_eq!(reg.len(), 1);
}

#[test]
fn many_inserts_yield_distinct_consecutive_ids() {
    let mut reg = Registry::new();
    let mut ids = Vec::new();
    for k in 0..50u32 {
        let id = reg
            .insert(format!("user{}", k), format!("u{}@x.com", k), None)
            .unwrap();
        ids.push(id);
    }
    for (k, id) in ids.iter().enumerate() {
        assert_eq!(*id, k as u32 + 1);
    }
    for p in 0..ids.len() {
        for q in (p + 1)..ids.len() {
            assert_ne!(ids[p], ids[q]);
        }
    }
    assert_eq!(reg.list().len(), 50);
}

#[test]
fn get_absent_id_is_none() {
    let mut reg = Registry::new();
    assert!(reg.get(1).is_none());
    assert!(reg.get(99).is_none());
    reg.insert("alice".to_string(), "a@x.com".to_string(), None)
        .unwrap();
    assert!(reg.get(99).is_none());
}

#[test]
fn absent_bio_round_trips_as_absent() {
    let mut reg = Registry::new();
    let id = reg
        .insert("noone".to_string(), "n@x.com".to_string(), None)
        .unwrap();
    let user = reg.get(id).unwrap();
    assert!(user.bio.is_none());
}

#[test]
fn empty_bio_stays_distinct_from_absent() {
    let mut reg = Registry::new();
    let id = reg
        .insert("quiet".to_string(), "q@x.com".to_string(), Some(String::new()))
        .unwrap();
    let user = reg.get(id).unwrap();
    assert_eq!(user.bio, Some(String::new()));
}

#[test]
fn removed_id_is_gone_and_never_reassigned() {
    let mut reg = Registry::new();
    let a = reg.insert("a".to_string(), "a@x".to_string(), None).unwrap();
    let b = reg.insert("b".to_string(), "b@x".to_string(), None).unwrap();
    assert!(reg.remove(a));
    assert!(reg.get(a).is_none());
    let c = reg.insert("c".to_string(), "c@x".to_string(), None).unwrap();
    assert_ne!(c, a);
    assert_ne!(c, b);
    assert_eq!(c, 3);
}

#[test]
fn list_keeps_insertion_order() {
    let mut reg = Registry::new();
    reg.insert("first".to_string(), "1@x".to_string(), None).unwrap();
    reg.insert("second".to_string(), "2@x".to_string(), None).unwrap();
    reg.insert("third".to_string(), "3@x".to_string(), None).unwrap();
    let names: Vec<&str> = reg.list().iter().map(|u| u.username.as_str()).collect();
    assert_eq!(names, vec!["first", "second", "third"]);
    reg.remove(2);
    let names: Vec<&str> = reg.list().iter().map(|u| u.username.as_str()).collect();
    assert_eq!(names, vec!["first", "third"]);
}
