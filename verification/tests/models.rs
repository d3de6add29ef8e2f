use happy_project::models::project::{ObjectId, Projects, Users};

#[test]
fn project_without_id_keeps_every_other_field() {
    let p = Projects {
        _id: Some(ObjectId { bytes: [1, 2, 3, 4, 5, 6, 7, 8, 9, 10, 11, 12] }),
        project_name: String::from("test1"),
        project_owner_id: 1,
        start_date: String::from("2024-01-01"),
        end_date: String::from("2024-01-02"),
        project_member_id: 1,
    };
    let fresh = p.without_id();
    assert_eq!(fresh._id, None);
    assert_eq!(fresh.project_name, "test1");
    assert_eq!(fresh.project_owner_id, 1);
    assert_eq!(fresh.start_date, "2024-01-01");
    assert_eq!(fresh.end_date, "2024-01-02");
    assert_eq!(fresh.project_member_id, 1);
    assert_eq!(fresh.without_id(), fresh);
}

#[test]
fn project_integers_keep_their_full_range() {
    let p = Projects {
        _id: None,
        project_name: String::new(),
        project_owner_id: u64::MAX,
        start_date: String::new(),
        end_date: String::new(),
        project_member_id: 0,
    };
    let fresh = p.without_id();
    assert_eq!(fresh.project_owner_id, u64::MAX);
    assert_eq!(fresh.project_member_id, 0);
    assert_eq!(fresh, p);
}

#[test]
fn user_without_id_keeps_every_other_field() {
    let u = Users {
        _id: Some(ObjectId { bytes: [0; 12] }),
        user_name: String::from("ann"),
        created: String::from("2024-01-01T00:00:00Z"),
        updated: String::from("2024-01-03T00:00:00Z"),
    };
    let fresh = u.without_id();
    assert_eq!(fresh._id, None);
    assert_eq!(fresh.user_name, "ann");
    assert_eq!(fresh.created, "2024-01-01T00:00:00Z");
    assert_eq!(fresh.updated, "2024-01-03T00:00:00Z");
}

#[test]
fn identifiers_order_by_their_bytes() {
    let older = ObjectId { bytes: [0x65, 0, 0, 0, 0, 0, 0, 0, 0, 0, 0, 1] };
    let newer = ObjectId { bytes: [0x65, 0, 0, 1, 0, 0, 0, 0, 0, 0, 0, 0] };
    assert!(older < newer);
    assert_eq!(older, ObjectId { bytes: [0x65, 0, 0, 0, 0, 0, 0, 0, 0, 0, 0, 1] });
}
