use std::collections::HashMap;

use zed_core::ids::{
    installation_id, installation_id_from, launch_events, system_id, system_id_from, IdError, IdType,
    KvOp, KvRead,
};

fn is_uuid_text(s: &str) -> bool {
    s.len() == 36
        && s.as_bytes()[14] == b'4'
        && s.char_indices().all(|(i, c)| {
            if [8, 13, 18, 23].contains(&i) {
                c == '-'
            } else {
                c.is_ascii_digit() || ('a'..='f').contains(&c)
            }
        })
}

#[test]
fn stored_system_id_is_reused() {
    let plan = system_id(KvRead::Value("abc".to_string())).unwrap();
    assert!(matches!(plan.id, IdType::Existing(ref id) if id == "abc"));
    assert!(plan.ops.is_empty());
}

#[test]
fn missing_or_unreadable_system_id_is_made_up_and_written() {
    for read in [KvRead::Missing, KvRead::Failed] {
        let plan = system_id(read).unwrap();
        let id = match &plan.id {
            IdType::New(id) => id.clone(),
            IdType::Existing(_) => panic!("expected a new id"),
        };
        assert!(is_uuid_text(&id));
        assert_eq!(plan.ops.len(), 1);
        assert!(matches!(&plan.ops[0], KvOp::Write { key, value } if key == "system_id" && *value == id));
    }
}

#[test]
fn two_new_ids_differ() {
    let a = system_id(KvRead::Missing).unwrap().id.to_string();
    let b = system_id(KvRead::Missing).unwrap().id.to_string();
    assert_ne!(a, b);
}

#[test]
fn legacy_installation_id_moves_to_the_new_key() {
    let plan = installation_id(KvRead::Value("old".to_string()), KvRead::Value("new".to_string())).unwrap();
    assert!(matches!(plan.id, IdType::Existing(ref id) if id == "old"));
    assert_eq!(plan.ops.len(), 2);
    assert!(matches!(&plan.ops[0], KvOp::Write { key, value } if key == "installation_id" && value == "old"));
    assert!(matches!(&plan.ops[1], KvOp::Delete { key } if key == "device_id"));
}

#[test]
fn stored_installation_id_is_reused() {
    let plan = installation_id(KvRead::Missing, KvRead::Value("inst".to_string())).unwrap();
    assert!(matches!(plan.id, IdType::Existing(ref id) if id == "inst"));
    assert!(plan.ops.is_empty());
}

#[test]
fn new_installation_id_is_written() {
    let plan = installation_id(KvRead::Failed, KvRead::Missing).unwrap();
    let id = plan.id.to_string();
    assert!(matches!(plan.id, IdType::New(_)));
    assert!(is_uuid_text(&id));
    assert!(matches!(&plan.ops[0], KvOp::Write { key, value } if key == "installation_id" && *value == id));
}

#[test]
fn id_persists_across_launches() {
    let mut store: HashMap<String, String> = HashMap::new();
    store.insert("device_id".to_string(), "legacy".to_string());
    let read = |store: &HashMap<String, String>, key: &str| match store.get(key) {
        Some(v) => KvRead::Value(v.clone()),
        None => KvRead::Missing,
    };
    let first = installation_id(read(&store, "device_id"), read(&store, "installation_id")).unwrap();
    for op in &first.ops {
        match op {
            KvOp::Write { key, value } => {
                store.insert(key.clone(), value.clone());
            }
            KvOp::Delete { key } => {
                store.remove(key);
            }
        }
    }
    let second = installation_id(read(&store, "device_id"), read(&store, "installation_id")).unwrap();
    assert!(matches!(second.id, IdType::Existing(ref id) if id == "legacy"));
    assert!(second.ops.is_empty());
    assert!(!store.contains_key("device_id"));
}

#[test]
fn telemetry_events_of_a_launch() {
    let new = || Some(IdType::New("n".to_string()));
    let existing = || Some(IdType::Existing("e".to_string()));
    assert_eq!(
        launch_events(&new(), &new()),
        vec!["App First Opened", "App First Opened For Release Channel"]
    );
    assert_eq!(launch_events(&existing(), &new()), vec!["App First Opened For Release Channel"]);
    assert_eq!(launch_events(&new(), &existing()), vec!["App Opened"]);
    assert_eq!(launch_events(&existing(), &existing()), vec!["App Opened"]);
    assert!(launch_events(&None, &existing()).is_empty());
    assert!(launch_events(&new(), &None).is_empty());
}

fn counting_bytes() -> [u8; 16] {
    let mut b = [0u8; 16];
    for (i, x) in b.iter_mut().enumerate() {
        *x = i as u8;
    }
    b
}

#[test]
fn new_system_id_is_the_uuid_of_the_drawn_bytes() {
    let plan = system_id_from(KvRead::Missing, Some(counting_bytes())).unwrap();
    let expected = "00010203-0405-4607-8809-0a0b0c0d0e0f";
    assert!(matches!(plan.id, IdType::New(ref id) if id == expected));
    assert_eq!(plan.ops.len(), 1);
    assert!(matches!(&plan.ops[0], KvOp::Write { key, value } if key == "system_id" && value == expected));
}

#[test]
fn version_and_variant_bits_are_set_on_the_drawn_bytes() {
    let plan = system_id_from(KvRead::Failed, Some([0xff; 16])).unwrap();
    assert_eq!(plan.id.to_string(), "ffffffff-ffff-4fff-bfff-ffffffffffff");
    let plan = system_id_from(KvRead::Failed, Some([0; 16])).unwrap();
    assert_eq!(plan.id.to_string(), "00000000-0000-4000-8000-000000000000");
}

#[test]
fn no_drawn_bytes_means_no_new_id() {
    assert_eq!(system_id_from(KvRead::Missing, None).err(), Some(IdError::RandomSourceFailed));
    assert_eq!(
        installation_id_from(KvRead::Missing, KvRead::Failed, None).err(),
        Some(IdError::RandomSourceFailed)
    );
}

#[test]
fn stored_ids_ignore_the_draw() {
    let plan = system_id_from(KvRead::Value("abc".to_string()), None).unwrap();
    assert!(matches!(plan.id, IdType::Existing(ref id) if id == "abc"));
    assert!(plan.ops.is_empty());
    let plan = installation_id_from(KvRead::Missing, KvRead::Value("inst".to_string()), Some([7; 16])).unwrap();
    assert!(matches!(plan.id, IdType::Existing(ref id) if id == "inst"));
    assert!(plan.ops.is_empty());
    let plan = installation_id_from(KvRead::Value("old".to_string()), KvRead::Missing, None).unwrap();
    assert!(matches!(plan.id, IdType::Existing(ref id) if id == "old"));
    assert_eq!(plan.ops.len(), 2);
}

#[test]
fn new_installation_id_is_the_uuid_of_the_drawn_bytes() {
    let plan = installation_id_from(KvRead::Missing, KvRead::Missing, Some(counting_bytes())).unwrap();
    let expected = "00010203-0405-4607-8809-0a0b0c0d0e0f";
    assert!(matches!(plan.id, IdType::New(ref id) if id == expected));
    assert!(matches!(&plan.ops[0], KvOp::Write { key, value } if key == "installation_id" && value == expected));
}
