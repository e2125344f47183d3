use oofbot::permissions::{from_stored_integer, permission_row_values, to_stored_integer, Permission, SqlValue};
use oofbot::someone::{choose_someones, someone_count, someone_ping, someone_ping_message};

#[test]
fn someone_message_lists_picks() {
    assert_eq!(someone_ping_message(1, &vec![2, 3]), "<@1> has pinged: <@2>, <@3>");
    assert_eq!(someone_ping_message(1, &vec![2]), "<@1> has pinged: <@2>");
    assert_eq!(someone_ping_message(1, &vec![]), "<@1> has pinged: ");
}

#[test]
fn someone_count_matches_split() {
    for text in ["@someone", "a @someone b @someone", "@someone@someone@someone", "none"] {
        assert_eq!(someone_count(text), text.split("@someone").count() - 1);
    }
}

#[test]
fn someone_picks_come_from_the_members() {
    let picks = choose_someones(&vec![4, 5], 10);
    assert_eq!(picks.len(), 10);
    assert!(picks.iter().all(|p| *p == 4 || *p == 5));
    assert_eq!(someone_ping(1, "@someone and @someone", true, Some(&vec![9])), "<@1> has pinged: <@9>, <@9>");
    assert_eq!(someone_ping(1, "@someone", false, None), "Cannot @someone in dms");
    assert_eq!(someone_ping(1, "@someone", true, None), "Internal Error");
}

#[test]
fn permission_codes() {
    assert_eq!(Permission::SomeonePing.code(), 0);
    assert_eq!(Permission::Server.code(), 5);
    assert_eq!(Permission::from_u64(3), Some(Permission::ManagePermissions));
    assert_eq!(Permission::from_u64(6), None);
    for n in 0..6u64 {
        assert_eq!(Permission::from_u64(n).unwrap().code(), n);
    }
}

#[test]
fn stored_integers_keep_the_bits() {
    for x in [0u64, 1, 453344368913547265, i64::MAX as u64, 1u64 << 63, u64::MAX] {
        assert_eq!(to_stored_integer(x), i64::from_ne_bytes(x.to_ne_bytes()));
        assert_eq!(from_stored_integer(to_stored_integer(x)), x);
    }
    assert_eq!(to_stored_integer(u64::MAX), -1);
}

#[test]
fn permission_rows() {
    assert_eq!(
        permission_row_values(1, u64::MAX, None, Permission::ManageServers),
        vec![SqlValue::Integer(1), SqlValue::Integer(-1), SqlValue::Null, SqlValue::Integer(4)]
    );
    assert_eq!(
        permission_row_values(1, 2, Some(3), Permission::SomeonePing),
        vec![SqlValue::Integer(1), SqlValue::Integer(2), SqlValue::Integer(3), SqlValue::Integer(0)]
    );
}
