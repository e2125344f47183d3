use vstd::prelude::*;

verus! {

/// The permissions that can be granted to a role or a user.
#[derive(Clone, Copy, Debug, PartialEq, Eq, Structural)]
pub enum Permission {
    SomeonePing,
    ManageCanaryUpdate,
    ManageDogebotInsults,
    ManagePermissions,
    ManageServers,
    Server,
}

/// The number that stands for each permission, in declaration order from zero.
pub open spec fn permission_code(p: Permission) -> u64 {
    match p {
        Permission::SomeonePing => 0,
        Permission::ManageCanaryUpdate => 1,
        Permission::ManageDogebotInsults => 2,
        Permission::ManagePermissions => 3,
        Permission::ManageServers => 4,
        Permission::Server => 5,
    }
}

impl Permission {
    /// The number that stands for this permission.
    pub fn code(self) -> (n: u64)
        ensures
            n == permission_code(self),
    {
        match self {
            Permission::SomeonePing => 0,
            Permission::ManageCanaryUpdate => 1,
            Permission::ManageDogebotInsults => 2,
            Permission::ManagePermissions => 3,
            Permission::ManageServers => 4,
            Permission::Server => 5,
        }
    }

    /// The permission that `n` stands for, if any.
    pub fn from_u64(n: u64) -> (r: Option<Permission>)
        ensures
            r is None <==> n > 5,
            r matches Some(p) ==> permission_code(p) == n,
    {
        match n {
            0 => Some(Permission::SomeonePing),
            1 => Some(Permission::ManageCanaryUpdate),
            2 => Some(Permission::ManageDogebotInsults),
            3 => Some(Permission::ManagePermissions),
            4 => Some(Permission::ManageServers),
            5 => Some(Permission::Server),
            _ => None,
        }
    }
}

/// Every permission comes back from its number.
pub proof fn lemma_permission_code_roundtrip(p: Permission)
    ensures
        permission_code(p) <= 5,
        forall|q: Permission| permission_code(q) == permission_code(p) ==> q == p,
{
}

/// The signed integer that stores `x` in the database: the same 64 bits read
/// as two's complement.
pub open spec fn stored_integer(x: u64) -> int {
    if x <= i64::MAX {
        x as int
    } else {
        x - 0x1_0000_0000_0000_0000
    }
}

/// The unsigned integer that the database integer `v` stores: the same 64 bits
/// read as unsigned.
pub open spec fn unstored_integer(v: i64) -> int {
    if v >= 0 {
        v as int
    } else {
        v + 0x1_0000_0000_0000_0000
    }
}

/// The database integer that stores `x`.
pub fn to_stored_integer(x: u64) -> (v: i64)
    ensures
        v == stored_integer(x),
{
    if x <= 0x7fff_ffff_ffff_ffff {
        x as i64
    } else {
        let low = (x - 0x8000_0000_0000_0000) as i64;
        low + i64::MIN
    }
}

/// The unsigned integer that the database integer `v` stores.
pub fn from_stored_integer(v: i64) -> (x: u64)
    ensures
        x == unstored_integer(v),
{
    if v >= 0 {
        v as u64
    } else {
        let low = (v - i64::MIN) as u64;
        low + 0x8000_0000_0000_0000
    }
}

/// Storing and reading back gives every unsigned integer back, and every
/// stored integer comes from exactly one unsigned integer.
pub proof fn lemma_stored_integer_roundtrip(x: u64, v: i64)
    ensures
        i64::MIN <= stored_integer(x) <= i64::MAX,
        unstored_integer(stored_integer(x) as i64) == x,
        0 <= unstored_integer(v) <= u64::MAX,
        stored_integer(unstored_integer(v) as u64) == v,
{
}

/// A value bound into a database statement.
#[derive(Clone, Copy, Debug, PartialEq, Eq, Structural)]
pub enum SqlValue {
    Integer(i64),
    Null,
}

/// Statement that records a permission grant; its four parameters are the
/// values of `permission_row_values`.
pub const INSERT_PERMISSION_STATEMENT: &'static str = "INSERT INTO permission_role VALUES (?, ?, ?, ?)";

/// Statement that looks a permission grant up; its four parameters are the
/// values of `permission_row_values`.
pub const SELECT_PERMISSION_STATEMENT: &'static str =
    "SELECT role_id FROM permission_role WHERE guild_id = ?, role_id = ?, channel_id = ?, permission = ?";

/// The values bound for a grant of `permission` to the role or user
/// `subject_id` in guild `guild_id`, limited to channel `channel_id` if given:
/// the guild, the subject, the channel or NULL, and the permission's number,
/// each integer stored as `to_stored_integer` does.
pub open spec fn permission_row(guild_id: u64, subject_id: u64, channel_id: Option<u64>, permission: Permission) -> Seq<SqlValue> {
    seq![
        SqlValue::Integer(stored_integer(guild_id) as i64),
        SqlValue::Integer(stored_integer(subject_id) as i64),
        match channel_id {
            Some(c) => SqlValue::Integer(stored_integer(c) as i64),
            None => SqlValue::Null,
        },
        SqlValue::Integer(stored_integer(permission_code(permission)) as i64),
    ]
}

/// The values bound into the permission statements for a grant of
/// `permission` to the role or user `subject_id` in guild `guild_id`.
pub fn permission_row_values(
    guild_id: u64,
    subject_id: u64,
    channel_id: Option<u64>,
    permission: Permission,
) -> (row: Vec<SqlValue>)
    ensures
        row@ == permission_row(guild_id, subject_id, channel_id, permission),
{
    let mut row: Vec<SqlValue> = Vec::new();
    row.push(SqlValue::Integer(to_stored_integer(guild_id)));
    row.push(SqlValue::Integer(to_stored_integer(subject_id)));
    match channel_id {
        Some(c) => row.push(SqlValue::Integer(to_stored_integer(c))),
        None => row.push(SqlValue::Null),
    }
    row.push(SqlValue::Integer(to_stored_integer(permission.code())));
    assert(row@ =~= permission_row(guild_id, subject_id, channel_id, permission));
    row
}

} // verus!
