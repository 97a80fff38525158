use passwd_rs::{
    check_name, whoami, AccountStatus, Group, LookupError, RawGroup, RawShadow, RawUser, Shadow,
    User,
};

fn some(s: &str) -> Option<String> {
    Some(s.to_string())
}

fn raw_user(name: Option<String>) -> RawUser {
    RawUser {
        name,
        passwd: some("x"),
        gecos: some("Super User"),
        dir: some("/root"),
        shell: some("/bin/sh"),
        uid: 0,
        gid: 0,
    }
}

fn raw_shadow(name: Option<String>, passwd: Option<String>) -> RawShadow {
    RawShadow {
        name,
        passwd,
        last_chage: 19000,
        min: 0,
        max: 99999,
        warn: 7,
        inactive: -1,
        expires: -1,
    }
}

#[test]
fn check_name_rejects_embedded_nul() {
    assert_eq!(check_name("foo\0bar"), Err(LookupError::InvalidInput));
    assert_eq!(check_name("\0"), Err(LookupError::InvalidInput));
    assert_eq!(check_name("root"), Ok(()));
    assert_eq!(check_name(""), Ok(()));
}

#[test]
fn user_missing_record_is_not_found() {
    assert_eq!(User::convert(None, 0), Err(LookupError::NotFound));
    assert_eq!(User::convert(None, 2), Err(LookupError::NotFound));
    assert_eq!(User::convert(None, 99), Err(LookupError::OsError(99)));
}

#[test]
fn user_convert_keeps_fields() {
    let user = User::convert(Some(raw_user(some("root"))), 0).unwrap();
    assert_eq!(user.name, "root");
    assert_eq!(user.fullname, "Super User");
    assert_eq!(user.homedir, "/root");
    assert_eq!(user.shell, "/bin/sh");
    assert_eq!(user.passwd, some("x"));
    assert_eq!(user.uid, 0);
    assert_eq!(user.gid, 0);
}

#[test]
fn user_password_empty_collapses_to_none() {
    let mut raw = raw_user(some("alice"));
    raw.passwd = some("");
    let user = User::convert(Some(raw), 0).unwrap();
    assert_eq!(user.passwd, None);

    let mut raw = raw_user(some("alice"));
    raw.passwd = None;
    let user = User::convert(Some(raw), 0).unwrap();
    assert_eq!(user.passwd, None);
}

#[test]
fn user_secondary_fields_default_to_empty() {
    let mut raw = raw_user(some("alice"));
    raw.gecos = None;
    raw.dir = None;
    raw.shell = None;
    let user = User::convert(Some(raw), 0).unwrap();
    assert_eq!(user.name, "alice");
    assert_eq!(user.fullname, "");
    assert_eq!(user.homedir, "");
    assert_eq!(user.shell, "");
}

#[test]
fn user_bad_name_is_invalid_data() {
    assert_eq!(
        User::convert(Some(raw_user(None)), 0),
        Err(LookupError::InvalidData)
    );
    assert_eq!(
        User::convert(Some(raw_user(some(""))), 0),
        Err(LookupError::InvalidData)
    );
}

#[test]
fn group_members_keep_array_order() {
    let raw = RawGroup {
        name: some("wheel"),
        passwd: some(""),
        gid: 10,
        members: Some(vec![some("alice"), some("bob")]),
    };
    let group = Group::convert(Some(raw), 0).unwrap();
    assert_eq!(group.members, vec!["alice".to_string(), "bob".to_string()]);
    assert_eq!(group.members.len(), 2);
}

#[test]
fn group_null_member_array_means_no_members() {
    let raw = RawGroup {
        name: some("nobody"),
        passwd: None,
        gid: 65534,
        members: None,
    };
    let group = Group::convert(Some(raw), 0).unwrap();
    assert_eq!(group.members, Vec::<String>::new());
}

#[test]
fn group_invalid_member_entry_is_skipped() {
    let raw = RawGroup {
        name: some("wheel"),
        passwd: None,
        gid: 10,
        members: Some(vec![some("alice"), None, some("bob")]),
    };
    let group = Group::convert(Some(raw), 0).unwrap();
    assert_eq!(group.members, vec!["alice".to_string(), "bob".to_string()]);
}

#[test]
fn group_password_is_not_collapsed() {
    let raw = RawGroup {
        name: some("wheel"),
        passwd: some(""),
        gid: 10,
        members: Some(vec![]),
    };
    let group = Group::convert(Some(raw), 0).unwrap();
    assert_eq!(group.password, some(""));

    let raw = RawGroup {
        name: some("wheel"),
        passwd: None,
        gid: 10,
        members: Some(vec![]),
    };
    let group = Group::convert(Some(raw), 0).unwrap();
    assert_eq!(group.password, None);
}

#[test]
fn group_missing_record_is_not_found() {
    assert_eq!(Group::convert(None, 0), Err(LookupError::NotFound));
    assert_eq!(Group::convert(None, 22), Err(LookupError::OsError(22)));
}

#[test]
fn group_bad_name_is_invalid_data() {
    let raw = RawGroup {
        name: None,
        passwd: None,
        gid: 10,
        members: None,
    };
    assert_eq!(Group::convert(Some(raw), 0), Err(LookupError::InvalidData));
}

#[test]
fn display_members_joins_with_spaces() {
    let group = Group {
        name: "wheel".to_string(),
        password: None,
        gid: 10,
        members: vec!["alice".to_string(), "bob".to_string()],
    };
    assert_eq!(group.display_members(), "alice bob ");

    let empty = Group {
        name: "empty".to_string(),
        password: None,
        gid: 11,
        members: vec![],
    };
    assert_eq!(empty.display_members(), "");
}

#[test]
fn shadow_status_classification() {
    assert!(matches!(
        AccountStatus::classify(some("*")),
        AccountStatus::NoLogin
    ));
    assert!(matches!(
        AccountStatus::classify(some("!")),
        AccountStatus::NoPassword
    ));
    match AccountStatus::classify(some("$6$abc$xyz")) {
        AccountStatus::Active(hash) => assert_eq!(hash, "$6$abc$xyz"),
        other => panic!("expected Active, got {:?}", other),
    }
    assert!(matches!(
        AccountStatus::classify(None),
        AccountStatus::Unknown
    ));
}

#[test]
fn shadow_permission_denied_distinct_from_not_found() {
    let denied = Shadow::convert(None, 13);
    assert_eq!(denied, Err(LookupError::PermissionDenied));
    assert_ne!(denied, Err(LookupError::NotFound));
    assert_eq!(Shadow::convert(None, 1), Err(LookupError::PermissionDenied));
    assert_eq!(Shadow::convert(None, 0), Err(LookupError::NotFound));
}

#[test]
fn shadow_convert_keeps_day_counts() {
    let shadow = Shadow::convert(Some(raw_shadow(some("root"), some("$6$abc$xyz"))), 0).unwrap();
    assert_eq!(shadow.name, "root");
    assert!(matches!(shadow.passwd, AccountStatus::Active(_)));
    assert_eq!(shadow.last_chage, 19000);
    assert_eq!(shadow.min, 0);
    assert_eq!(shadow.max, 99999);
    assert_eq!(shadow.warn, 7);
    assert_eq!(shadow.inactive, -1);
    assert_eq!(shadow.expires, -1);
}

#[test]
fn shadow_bad_name_is_invalid_data() {
    assert_eq!(
        Shadow::convert(Some(raw_shadow(None, some("!"))), 0),
        Err(LookupError::InvalidData)
    );
}

#[test]
fn account_status_to_string() {
    assert_eq!(
        AccountStatus::Active("$6$abc$xyz".to_string()).to_string(),
        "$6$abc$xyz"
    );
    assert_eq!(AccountStatus::NoPassword.to_string(), "No password");
    assert_eq!(AccountStatus::NoLogin.to_string(), "Disabled account");
    assert_eq!(AccountStatus::Unknown.to_string(), "Unknown password");
}

#[test]
fn whoami_projects_the_username() {
    let user = User::convert(Some(raw_user(some("root"))), 0);
    assert_eq!(whoami(user), Ok("root".to_string()));
    assert_eq!(
        whoami(Err(LookupError::PermissionDenied)),
        Err(LookupError::PermissionDenied)
    );
}

#[test]
fn serial_conversions_agree() {
    let raw = raw_user(some("root"));
    let first = User::convert(Some(raw.clone()), 0);
    let second = User::convert(Some(raw), 0);
    assert_eq!(first, second);

    let raw = RawGroup {
        name: some("wheel"),
        passwd: some("x"),
        gid: 10,
        members: Some(vec![some("alice"), None, some("bob")]),
    };
    let first = Group::convert(Some(raw.clone()), 0);
    let second = Group::convert(Some(raw), 0);
    assert_eq!(first, second);

    let raw = raw_shadow(some("root"), some("*"));
    let first = Shadow::convert(Some(raw.clone()), 0);
    let second = Shadow::convert(Some(raw), 0);
    assert_eq!(first, second);
}
