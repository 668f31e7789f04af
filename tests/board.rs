use message_board::db::Db;
use message_board::id::{Id, MalformedIdentifier};
use message_board::message::Message;
use message_board::password_util::PasswordUtil;
use message_board::schema::{create_schema, InputMessage, InputUser, Mutate, Query, UpdateMessage};
use message_board::timestamp::Timestamp;
use message_board::user::User;
use message_board::StoreError;

fn at(n: i128) -> Timestamp {
    Timestamp::from_unix_nanos(n)
}

fn ids(v: &[Message]) -> Vec<Id> {
    v.iter().map(|m| m.id().unwrap()).collect()
}

#[test]
fn id_round_trip() {
    for _ in 0..20 {
        let id = Id::generate();
        let bytes = id.encode();
        assert_eq!(bytes.len(), 16);
        assert_eq!(Id::decode(&bytes), Ok(id));
    }
}

#[test]
fn id_encoding_is_big_endian() {
    let id = Id { value: 0x0102030405060708090a0b0c0d0e0f10 };
    let bytes = id.encode();
    assert_eq!(bytes, vec![1, 2, 3, 4, 5, 6, 7, 8, 9, 10, 11, 12, 13, 14, 15, 16]);
    let back = Id::decode(&[16, 15, 14, 13, 12, 11, 10, 9, 8, 7, 6, 5, 4, 3, 2, 1]).unwrap();
    assert_eq!(back.value, 0x100f0e0d0c0b0a090807060504030201);
}

#[test]
fn id_decode_rejects_wrong_length() {
    assert_eq!(Id::decode(&[1, 2, 3]), Err(MalformedIdentifier { len: 3 }));
    assert_eq!(Id::decode(&[0u8; 17]), Err(MalformedIdentifier { len: 17 }));
    assert_eq!(Id::decode(&[]), Err(MalformedIdentifier { len: 0 }));
}

#[test]
fn generated_ids_are_version_four() {
    let a = Id::generate();
    let b = Id::generate();
    assert_ne!(a, b);
    assert_eq!((a.value >> 76) & 0xf, 4);
    assert_eq!((a.value >> 62) & 0x3, 2);
}

#[test]
fn is_reply_follows_parent() {
    let u = Id { value: 1 };
    assert!(!Message::new(u, "root", None).is_reply());
    assert!(Message::new(u, "reply", Some(Id { value: 2 })).is_reply());
}

#[test]
fn get_after_insert_returns_inserted_fields() {
    let mut db = Db::new();
    let author = Id { value: 7 };
    let parent = Id { value: 8 };
    let m = Message::new(author, "hello", Some(parent)).insert(&mut db).unwrap();
    let id = m.id().unwrap();
    let got = Message::get(&id, &db).unwrap();
    assert_eq!(got.id(), Some(id));
    assert_eq!(got.user_id(), author);
    assert_eq!(got.content(), "hello");
    assert_eq!(got.parent_message_id(), Some(parent));
    assert_eq!(got.created_at(), m.created_at());
    assert_eq!(got.updated_at(), m.updated_at());
    assert!(got.created_at().is_some());
}

#[test]
fn get_missing_is_not_found() {
    let db = Db::new();
    assert!(matches!(Message::get(&Id { value: 3 }, &db), Err(StoreError::NotFound)));
    assert!(matches!(User::get(&Id { value: 3 }, &db), Err(StoreError::NotFound)));
}

#[test]
fn duplicate_id_is_a_constraint_error() {
    let mut db = Db::new();
    let id = Id { value: 42 };
    let m = Message::new(Id { value: 1 }, "a", None);
    assert!(m.insert_as(&mut db, id, at(5)).is_ok());
    assert!(matches!(m.insert_as(&mut db, id, at(6)), Err(StoreError::Constraint)));
    let u = User::new("Ann", "ann", "h");
    assert!(u.insert_as(&mut db, id, at(5)).is_ok());
    assert!(matches!(u.insert_as(&mut db, id, at(6)), Err(StoreError::Constraint)));
}

#[test]
fn children_are_exactly_the_replies() {
    let mut db = Db::new();
    let a = Id { value: 1 };
    let p = Message::new(a, "parent", None).insert(&mut db).unwrap();
    let pid = p.id().unwrap();
    assert!(Message::get_children(&pid, &db).is_empty());
    let c1 = Message::new(a, "c1", Some(pid)).insert(&mut db).unwrap();
    let other = Message::new(a, "other", None).insert(&mut db).unwrap();
    let c2 = Message::new(a, "c2", Some(pid)).insert(&mut db).unwrap();
    let _grandchild = Message::new(a, "g", c1.id()).insert(&mut db).unwrap();
    let kids = ids(&Message::get_children(&pid, &db));
    assert_eq!(kids, vec![c1.id().unwrap(), c2.id().unwrap()]);
    assert!(Message::get_children(&other.id().unwrap(), &db).is_empty());
    assert_eq!(ids(&p.replies(&db)), kids);
}

#[test]
fn delete_leaves_replies_orphaned() {
    let mut db = Db::new();
    let a = Id { value: 1 };
    let p = Message::new(a, "parent", None).insert(&mut db).unwrap();
    let pid = p.id().unwrap();
    let c = Message::new(a, "child", Some(pid)).insert(&mut db).unwrap();
    let gone = Message::delete(pid, &mut db).unwrap();
    assert_eq!(gone.content(), "parent");
    assert!(matches!(Message::get(&pid, &db), Err(StoreError::NotFound)));
    assert!(matches!(Message::delete(pid, &mut db), Err(StoreError::NotFound)));
    let still = Message::get(&c.id().unwrap(), &db).unwrap();
    assert_eq!(still.parent_message_id(), Some(pid));
    assert!(still.parent_message(&db).is_none());
}

#[test]
fn time_range_is_inclusive_and_filters_by_author() {
    let mut db = Db::new();
    let a = Id { value: 1 };
    let b = Id { value: 2 };
    Message::new(a, "t10", None).insert_as(&mut db, Id { value: 100 }, at(10)).unwrap();
    Message::new(b, "t20", None).insert_as(&mut db, Id { value: 101 }, at(20)).unwrap();
    Message::new(a, "t30", None).insert_as(&mut db, Id { value: 102 }, at(30)).unwrap();
    Message::new(a, "t40", None).insert_as(&mut db, Id { value: 103 }, at(40)).unwrap();
    let all = Message::get_by_time_range(None, (at(10), at(30)), &db);
    assert_eq!(ids(&all), vec![Id { value: 100 }, Id { value: 101 }, Id { value: 102 }]);
    let by_a = Message::get_by_time_range(Some(&a), (at(10), at(30)), &db);
    assert_eq!(ids(&by_a), vec![Id { value: 100 }, Id { value: 102 }]);
    assert!(Message::get_by_time_range(None, (at(41), at(50)), &db).is_empty());
    assert!(Message::get_by_time_range(None, (at(30), at(10)), &db).is_empty());
    let q = Query::messages(&db, Some(b), at(0), at(100));
    assert_eq!(ids(&q), vec![Id { value: 101 }]);
}

#[test]
fn thread_scenario() {
    let mut db = Db::new();
    let user = User::new("Alice", "alice", "hash").insert(&mut db).unwrap();
    let aid = user.id().unwrap();
    let m1 = Message::new(aid, "first", None).insert(&mut db).unwrap();
    let m2 = Message::new(aid, "second", m1.id()).insert(&mut db).unwrap();
    assert_eq!(ids(&m1.replies(&db)), vec![m2.id().unwrap()]);
    let parent = m2.parent_message(&db).unwrap();
    assert_eq!(parent.id(), m1.id());
    assert_eq!(parent.content(), "first");
    let mine = user.messages(&db).unwrap();
    assert_eq!(ids(&mine), vec![m1.id().unwrap()]);
    assert!(User::new("Bob", "bob", "h").messages(&db).is_none());
}

#[test]
fn update_message_scenario() {
    let mut db = Db::new();
    let schema = create_schema();
    let a = Id { value: 9 };
    let m1 = schema
        .mutation
        .create_message(&mut db, InputMessage { user_id: a, content: "orig".to_string(), parent_message_id: None })
        .unwrap();
    let id = m1.id().unwrap();
    let up = schema
        .mutation
        .update_message(&mut db, UpdateMessage { id, content: "x".to_string() })
        .unwrap();
    assert_eq!(up.content(), "x");
    assert_eq!(up.id(), Some(id));
    assert_eq!(up.user_id(), a);
    let again = Query::message(&db, id).unwrap();
    assert_eq!(again.content(), "x");
    assert_eq!(again.user_id(), a);
    assert!(schema
        .mutation
        .update_message(&mut db, UpdateMessage { id: a, content: "y".to_string() })
        .is_none());
}

#[test]
fn hasher_reuses_its_salt() {
    let h = PasswordUtil::new();
    let x = h.hash("secret".to_string()).unwrap();
    let y = h.hash("secret".to_string()).unwrap();
    assert_eq!(x, y);
    assert!(x.starts_with("$argon2"));
    assert_ne!(x, "secret");
    let other = PasswordUtil::new().hash("secret".to_string()).unwrap();
    assert_ne!(x, other);
    assert_ne!(h.hash("other".to_string()).unwrap(), x);
}

#[test]
fn create_user_stores_the_hash_not_the_password() {
    let mut db = Db::new();
    let mutate = Mutate::new();
    let input = InputUser {
        display_name: "Carol".to_string(),
        username: "carol".to_string(),
        password: "pw".to_string(),
    };
    let u = mutate.create_user(&mut db, input).unwrap();
    let id = u.id().unwrap();
    let got = Query::user(&db, id).unwrap();
    assert_eq!(got.display_name(), "Carol");
    assert_eq!(got.username(), "carol");
    assert!(got.password_hash.starts_with("$argon2"));
    assert_ne!(got.password_hash, "pw");
    assert!(Query::user(&db, Id { value: 0 }).is_none());
}

#[test]
fn delete_message_through_mutation_root() {
    let mut db = Db::new();
    let a = Id { value: 4 };
    let m = Message::new(a, "bye", None).insert(&mut db).unwrap();
    let id = m.id().unwrap();
    assert_eq!(Mutate::delete_message(&mut db, id).unwrap().content(), "bye");
    assert!(Mutate::delete_message(&mut db, id).is_none());
    assert!(Query::message(&db, id).is_none());
}

#[test]
fn hash_embeds_a_sixteen_byte_salt() {
    let h = PasswordUtil::new().hash("pw".to_string()).unwrap();
    let parts: Vec<&str> = h.split('$').collect();
    assert_eq!(parts.len(), 6);
    assert_eq!(parts[1], "argon2id");
    let salt = parts[4];
    assert_eq!(salt.len(), 22);
    assert!(salt.chars().all(|c| c.is_ascii_alphanumeric() || c == '+' || c == '/'));
    assert!(matches!(salt.chars().last(), Some('A') | Some('Q') | Some('g') | Some('w')));
}

#[test]
fn insert_into_empty_tables_succeeds() {
    let mut db = Db::new();
    assert!(Message::new(Id { value: 1 }, "m", None).insert(&mut db).is_ok());
    assert!(User::new("D", "d", "h").insert(&mut db).is_ok());
    let mut db2 = Db::new();
    let mutate = Mutate::new();
    let input = InputUser { display_name: "E".to_string(), username: "e".to_string(), password: "p".to_string() };
    assert!(mutate.create_user(&mut db2, input).is_some());
    let msg = InputMessage { user_id: Id { value: 2 }, content: "c".to_string(), parent_message_id: None };
    assert!(mutate.create_message(&mut db2, msg).is_some());
}
