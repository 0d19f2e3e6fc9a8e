//! Users: identifiers, names, timestamps, role associations and the user record.
use vstd::prelude::*;

use crate::id_value::{
    hyphenated_text, is_v4, lemma_v4_not_nil, parse_uuid, parsed_uuid, random_v4, render_uuid,
};
use crate::password::{phc_verifies, UserPassword};
use crate::role::RoleId;

use chrono::Offset;

verus! {

/// Unique identifier of a user: a 128-bit value, ordered as its big-endian bytes.
#[derive(Debug, Clone, Copy, PartialEq, Eq, Structural, PartialOrd, Ord, Hash)]
pub struct UserId(u128);

impl View for UserId {
    type V = u128;

    closed spec fn view(&self) -> u128 {
        self.0
    }
}

impl Default for UserId {
    /// The nil identifier, a placeholder for an unassigned id.
    fn default() -> (r: UserId)
        ensures
            r@ == 0,
    {
        UserId(0)
    }
}

impl UserId {
    /// A fresh random identifier; it is never the nil value.
    pub fn new() -> (r: UserId)
        ensures
            is_v4(r@),
            r@ != 0,
    {
        let v = random_v4();
        proof {
            lemma_v4_not_nil(v);
        }
        UserId(v)
    }

    /// The identifier with the given 128-bit value.
    pub fn from_value(value: u128) -> (r: UserId)
        ensures
            r@ == value,
    {
        UserId(value)
    }

    /// The 128-bit value.
    pub fn value(&self) -> (r: u128)
        ensures
            r == self@,
    {
        self.0
    }

    /// Canonical hyphenated hexadecimal text.
    pub fn to_string(&self) -> (r: String)
        ensures
            r@ == hyphenated_text(self@),
    {
        render_uuid(self.0)
    }

    /// Parses identifier text; `None` where it is not an identifier.
    pub fn parse(text: &str) -> (r: Option<UserId>)
        ensures
            match parsed_uuid(text@) {
                Some(v) => r matches Some(id) && id@ == v,
                None => r is None,
            },
            forall|v: u128| text@ == hyphenated_text(v) ==> (r matches Some(id) && id@ == v),
    {
        match parse_uuid(text) {
            Some(v) => Some(UserId(v)),
            None => None,
        }
    }
}

/// Identifier text that does not parse gives the nil identifier.
impl From<String> for UserId {
    fn from(value: String) -> (r: UserId)
        ensures
            match parsed_uuid(value@) {
                Some(v) => r@ == v,
                None => r@ == 0,
            },
            forall|v: u128| value@ == hyphenated_text(v) ==> r@ == v,
    {
        match parse_uuid(value.as_str()) {
            Some(v) => UserId(v),
            None => UserId(0),
        }
    }
}

impl vstd::std_specs::convert::FromSpecImpl<String> for UserId {
    open spec fn obeys_from_spec() -> bool {
        true
    }

    closed spec fn from_spec(v: String) -> UserId {
        match parsed_uuid(v@) {
            Some(x) => UserId(x),
            None => UserId(0),
        }
    }
}

/// An association: the user holds the role.
#[derive(Debug, Clone, Copy, PartialEq, Eq, Structural)]
pub struct UserRole {
    user_id: UserId,
    role_id: RoleId,
}

impl UserRole {
    /// The association of `user_id` with `role_id`.
    pub fn new(user_id: UserId, role_id: RoleId) -> (r: UserRole)
        ensures
            r == UserRole::spec_new(user_id, role_id),
            r.spec_user_id() == user_id,
            r.spec_role_id() == role_id,
    {
        UserRole { user_id, role_id }
    }

    /// The association of `user_id` with `role_id`, as a value.
    pub closed spec fn spec_new(user_id: UserId, role_id: RoleId) -> UserRole {
        UserRole { user_id, role_id }
    }

    pub closed spec fn spec_user_id(&self) -> UserId {
        self.user_id
    }

    pub closed spec fn spec_role_id(&self) -> RoleId {
        self.role_id
    }

    /// The user of the association.
    pub fn user_id(&self) -> (r: &UserId)
        ensures
            *r == self.spec_user_id(),
    {
        &self.user_id
    }

    /// The role of the association.
    pub fn role_id(&self) -> (r: &RoleId)
        ensures
            *r == self.spec_role_id(),
    {
        &self.role_id
    }
}

/// A user's name. No rule restricts its text.
#[derive(Debug, Clone, Eq, PartialOrd, Ord, Hash)]
pub struct UserName(String);

impl View for UserName {
    type V = Seq<char>;

    closed spec fn view(&self) -> Seq<char> {
        self.0@
    }
}

impl UserName {
    /// The name `name`.
    pub fn new(name: &str) -> (r: UserName)
        ensures
            r@ == name@,
    {
        UserName(name.to_owned())
    }

    /// The name's text.
    pub fn as_str(&self) -> (r: &str)
        ensures
            r@ == self@,
    {
        self.0.as_str()
    }

    /// The name's text as an owned string.
    pub fn to_string(&self) -> (r: String)
        ensures
            r@ == self@,
    {
        self.0.clone()
    }
}

impl PartialEq for UserName {
    fn eq(&self, o: &UserName) -> (r: bool) {
        self.0 == o.0
    }
}

impl vstd::std_specs::cmp::PartialEqSpecImpl for UserName {
    open spec fn obeys_eq_spec() -> bool {
        true
    }

    open spec fn eq_spec(&self, o: &UserName) -> bool {
        self@ == o@
    }
}

/// Errors in making a credential or a user.
#[derive(Debug, Clone, Copy, PartialEq, Eq, Structural, PartialOrd, Ord, Hash)]
pub enum UserError {
    /// The password and its confirmation differ.
    PasswordMismatch,
    /// The password was refused.
    InvalidPassword,
    /// The hashing backend failed.
    HashingFailed,
}

impl UserError {
    /// The text of `message`.
    pub open spec fn spec_message(&self) -> Seq<char> {
        match self {
            UserError::PasswordMismatch => "Password mismatch"@,
            UserError::InvalidPassword => "Invalid password"@,
            UserError::HashingFailed => "Password hashing failed"@,
        }
    }

    /// A short description of the error.
    pub fn message(&self) -> (r: String)
        ensures
            r@ == self.spec_message(),
    {
        match self {
            UserError::PasswordMismatch => String::from_str("Password mismatch"),
            UserError::InvalidPassword => String::from_str("Invalid password"),
            UserError::HashingFailed => String::from_str("Password hashing failed"),
        }
    }
}

/// A local wall-clock instant: seconds and nanoseconds since the Unix epoch (UTC)
/// and the local offset from UTC in seconds.
#[derive(Debug, Clone, Copy, PartialEq, Eq, Structural, Hash)]
pub struct Timestamp {
    pub seconds: i64,
    pub nanos: u32,
    pub offset_seconds: i32,
}

impl Timestamp {
    /// Nanoseconds stay under two seconds (a leap second may pass one), and the
    /// offset under a day either way.
    pub open spec fn wf(&self) -> bool {
        self.nanos < 2_000_000_000 && -86_400 < self.offset_seconds < 86_400
    }
}

/// Relies on `chrono::Local::now`: its timestamp, sub-second nanoseconds and UTC
/// offset, within the bounds chrono documents.
#[verifier::external_body]
fn local_now() -> (r: Timestamp)
    ensures
        r.wf(),
{
    let now = chrono::Local::now();
    Timestamp {
        seconds: now.timestamp(),
        nanos: now.timestamp_subsec_nanos(),
        offset_seconds: now.offset().fix().local_minus_utc(),
    }
}

/// Every association of the list belongs to `id`.
pub open spec fn all_of_user(roles: Seq<UserRole>, id: UserId) -> bool {
    forall|i: int| 0 <= i < roles.len() ==> (#[trigger] roles[i]).spec_user_id() == id
}

/// The associations that do not name `role_id`, in their order.
pub open spec fn without_role(roles: Seq<UserRole>, role_id: RoleId) -> Seq<UserRole> {
    roles.filter(|r: UserRole| r.spec_role_id() != role_id)
}

/// `after` is `before` with one association of `user_id` to `role_id` at the end.
pub open spec fn appended_role(
    before: Seq<UserRole>,
    after: Seq<UserRole>,
    user_id: UserId,
    role_id: RoleId,
) -> bool {
    after == before.push(UserRole::spec_new(user_id, role_id)) && after.len() == before.len() + 1
        && after.drop_last() == before && after.last().spec_user_id() == user_id && after.last().spec_role_id() == role_id
}

/// Detaching a role right after attaching it leaves the associations as they were
/// before, less any earlier association to that role; from none, none remain.
pub proof fn lemma_attach_then_detach(
    before: Seq<UserRole>,
    after: Seq<UserRole>,
    user_id: UserId,
    role_id: RoleId,
)
    requires
        appended_role(before, after, user_id, role_id),
    ensures
        without_role(after, role_id) == without_role(before, role_id),
        before.len() == 0 ==> without_role(after, role_id).len() == 0,
{
    reveal(Seq::filter);
    if before.len() == 0 {
        assert(without_role(before, role_id) == before);
    }
}

/// Detaching a role that no association names leaves the associations unchanged.
pub proof fn lemma_detach_absent(roles: Seq<UserRole>, role_id: RoleId)
    requires
        forall|i: int| 0 <= i < roles.len() ==> (#[trigger] roles[i]).spec_role_id() != role_id,
    ensures
        without_role(roles, role_id) == roles,
    decreases roles.len(),
{
    reveal(Seq::filter);
    if roles.len() > 0 {
        let rest = roles.drop_last();
        assert forall|i: int| 0 <= i < rest.len() implies (#[trigger] rest[i]).spec_role_id()
            != role_id by {
            assert(rest[i] == roles[i]);
        }
        lemma_detach_absent(rest, role_id);
        assert(rest.push(roles.last()) == roles);
    }
}

/// Attaching the same role twice keeps both associations.
pub proof fn lemma_attach_twice(
    first: Seq<UserRole>,
    second: Seq<UserRole>,
    third: Seq<UserRole>,
    user_id: UserId,
    role_id: RoleId,
)
    requires
        appended_role(first, second, user_id, role_id),
        appended_role(second, third, user_id, role_id),
    ensures
        third.len() == first.len() + 2,
        third[third.len() - 1].spec_role_id() == role_id,
        third[third.len() - 2].spec_role_id() == role_id,
{
    assert(third.drop_last()[third.len() - 2] == third[third.len() - 2]);
}

/// Two users agree on all but their role associations.
pub open spec fn same_account(a: User, b: User) -> bool {
    a.spec_id() == b.spec_id() && a.spec_name() == b.spec_name()
        && a.spec_password() == b.spec_password() && a.spec_created_at() == b.spec_created_at()
        && a.spec_updated_at() == b.spec_updated_at()
}

/// The contents of a user record.
pub struct UserView {
    pub id: UserId,
    pub name: UserName,
    pub password: UserPassword,
    pub created_at: Timestamp,
    pub updated_at: Option<Timestamp>,
    pub roles: Seq<UserRole>,
}

/// A user account with its credential and its role associations.
#[derive(Debug, Clone, PartialEq, Eq)]
pub struct User {
    id: UserId,
    name: UserName,
    password: UserPassword,
    created_at: Timestamp,
    updated_at: Option<Timestamp>,
    roles: Vec<UserRole>,
}

impl View for User {
    type V = UserView;

    closed spec fn view(&self) -> UserView {
        UserView {
            id: self.id,
            name: self.name,
            password: self.password,
            created_at: self.created_at,
            updated_at: self.updated_at,
            roles: self.roles@,
        }
    }
}

impl User {
    pub open spec fn spec_id(&self) -> UserId {
        self@.id
    }

    pub open spec fn spec_name(&self) -> UserName {
        self@.name
    }

    pub open spec fn spec_password(&self) -> UserPassword {
        self@.password
    }

    pub open spec fn spec_created_at(&self) -> Timestamp {
        self@.created_at
    }

    pub open spec fn spec_updated_at(&self) -> Option<Timestamp> {
        self@.updated_at
    }

    pub open spec fn spec_roles(&self) -> Seq<UserRole> {
        self@.roles
    }

    /// Every association belongs to this user and the creation time is valid.
    pub open spec fn wf(&self) -> bool {
        all_of_user(self.spec_roles(), self.spec_id()) && self.spec_created_at().wf()
    }

    /// A user with a fresh identifier, created now, never updated, holding no role.
    pub fn new(name: UserName, password: UserPassword) -> (r: Result<User, UserError>)
        ensures
            r matches Ok(u) && u.wf() && is_v4(u.spec_id()@) && u.spec_id()@ != 0
                && u.spec_name() == name && u.spec_password() == password
                && u.spec_updated_at() is None && u.spec_roles() == Seq::<UserRole>::empty(),
    {
        let user = User {
            id: UserId::new(),
            name,
            password,
            created_at: local_now(),
            updated_at: None,
            roles: Vec::new(),
        };
        Ok(user)
    }

    /// The user's credential.
    pub fn password(&self) -> (r: &UserPassword)
        ensures
            *r == self.spec_password(),
    {
        &self.password
    }

    /// Whether `password` matches the user's credential.
    pub fn verify_password(&self, password: &str) -> (r: bool)
        ensures
            r == phc_verifies(self.spec_password()@, password@),
    {
        self.password.verify(password)
    }

    /// The user with one more association, to `role_id`, at the end.
    pub fn with_role(self, role_id: RoleId) -> (r: User)
        requires
            self.wf(),
        ensures
            r.wf(),
            appended_role(self.spec_roles(), r.spec_roles(), self.spec_id(), role_id),
            same_account(r, self),
    {
        let mut user = self;
        user.push_role(role_id);
        user
    }

    fn push_role(&mut self, role_id: RoleId)
        requires
            old(self).wf(),
        ensures
            final(self).wf(),
            appended_role(old(self).spec_roles(), final(self).spec_roles(), old(self).spec_id(), role_id),
            same_account(*final(self), *old(self)),
    {
        let link = UserRole { user_id: self.id, role_id };
        self.roles.push(link);
        assert(self.roles@.drop_last() == old(self).roles@);
    }

    /// Appends an association to `role_id`; an equal one already held stays.
    pub fn add_role(&mut self, role_id: RoleId) -> (r: &mut User)
        requires
            old(self).wf(),
        ensures
            r.wf(),
            appended_role(old(self).spec_roles(), r.spec_roles(), old(self).spec_id(), role_id),
            same_account(*r, *old(self)),
            *final(self) == *final(r),
    {
        self.push_role(role_id);
        self
    }

    fn drop_role(&mut self, role_id: RoleId)
        requires
            old(self).wf(),
        ensures
            final(self).wf(),
            final(self).spec_roles() == without_role(old(self).spec_roles(), role_id),
            same_account(*final(self), *old(self)),
    {
        let mut kept: Vec<UserRole> = Vec::new();
        let n = self.roles.len();
        let mut i: usize = 0;
        while i < n
            invariant
                n == self.roles.len(),
                i <= n,
                kept@ == without_role(self.roles@.subrange(0, i as int), role_id),
                all_of_user(kept@, self.id),
                all_of_user(self.roles@, self.id),
            decreases n - i,
        {
            let link = self.roles[i];
            proof {
                let s = self.roles@.subrange(0, i + 1);
                assert(s.drop_last() == self.roles@.subrange(0, i as int));
                assert(s.last() == link);
                reveal(Seq::filter);
            }
            if link.role_id != role_id {
                kept.push(link);
            }
            i = i + 1;
        }
        assert(self.roles@.subrange(0, n as int) == self.roles@);
        self.roles = kept;
    }

    /// Removes every association to `role_id`; the others keep their order.
    pub fn remove_role(&mut self, role_id: RoleId) -> (r: &mut User)
        requires
            old(self).wf(),
        ensures
            r.wf(),
            r.spec_roles() == without_role(old(self).spec_roles(), role_id),
            same_account(*r, *old(self)),
            *final(self) == *final(r),
    {
        self.drop_role(role_id);
        self
    }

    /// The user's identifier.
    pub fn id(&self) -> (r: UserId)
        ensures
            r == self.spec_id(),
    {
        self.id
    }

    /// The user's name.
    pub fn name(&self) -> (r: &UserName)
        ensures
            *r == self.spec_name(),
    {
        &self.name
    }

    /// When the user was created.
    pub fn created_at(&self) -> (r: &Timestamp)
        ensures
            *r == self.spec_created_at(),
    {
        &self.created_at
    }

    /// When the user was last updated, if ever.
    pub fn updated_at(&self) -> (r: Option<&Timestamp>)
        ensures
            match r {
                Some(t) => self.spec_updated_at() == Some(*t),
                None => self.spec_updated_at() is None,
            },
    {
        self.updated_at.as_ref()
    }

    /// The user's role associations, in the order they were added.
    pub fn roles(&self) -> (r: &Vec<UserRole>)
        ensures
            r@ == self.spec_roles(),
    {
        &self.roles
    }
}

} // verus!
