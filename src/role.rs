//! Roles: identifiers, validated names and the immutable role record.
use vstd::prelude::*;

use crate::id_value::{hyphenated_text, is_v4, lemma_v4_not_nil, random_v4, render_uuid};

verus! {

/// Unique identifier of a role: a 128-bit value, ordered as its big-endian bytes.
#[derive(Debug, Clone, Copy, PartialEq, Eq, Structural, PartialOrd, Ord, Hash)]
pub struct RoleId(u128);

impl View for RoleId {
    type V = u128;

    closed spec fn view(&self) -> u128 {
        self.0
    }
}

impl Default for RoleId {
    /// The nil identifier, a placeholder for an unassigned id.
    fn default() -> (r: RoleId)
        ensures
            r@ == 0,
    {
        RoleId(0)
    }
}

impl RoleId {
    /// A fresh random identifier; it is never the nil value.
    pub fn new() -> (r: RoleId)
        ensures
            is_v4(r@),
            r@ != 0,
    {
        let v = random_v4();
        proof {
            lemma_v4_not_nil(v);
        }
        RoleId(v)
    }

    /// The identifier with the given 128-bit value.
    pub fn from_value(value: u128) -> (r: RoleId)
        ensures
            r@ == value,
    {
        RoleId(value)
    }

    /// The 128-bit value.
    pub fn value(&self) -> (r: u128)
        ensures
            r == self@,
    {
        self.0
    }

    /// Canonical hyphenated hexadecimal text.
    pub fn to_string(&self) -> (r: String)
        ensures
            r@ == hyphenated_text(self@),
    {
        render_uuid(self.0)
    }
}

/// Why a role name was refused.
#[derive(Debug, Clone, Copy, PartialEq, Eq, Structural, PartialOrd, Ord, Hash)]
pub enum ValidationError {
    /// The text is empty.
    Empty,
    /// The text is shorter than three bytes.
    TooShort,
}

/// Smallest accepted length of a role name, in bytes.
pub const MIN_ROLE_NAME_LEN: usize = 3;

/// A role name: text of at least `MIN_ROLE_NAME_LEN` bytes.
#[derive(Debug, Clone, Eq, PartialOrd, Ord, Hash)]
pub struct RoleName(String);

impl View for RoleName {
    type V = Seq<char>;

    closed spec fn view(&self) -> Seq<char> {
        self.0@
    }
}

/// Length in bytes of the UTF-8 encoding of a text.
pub open spec fn utf8_len(s: Seq<char>) -> nat {
    vstd::utf8::encode_utf8(s).len()
}

/// The outcome of validating a role name.
pub open spec fn role_name_check(s: Seq<char>) -> Result<(), ValidationError> {
    if s.len() == 0 {
        Err(ValidationError::Empty)
    } else if utf8_len(s) < MIN_ROLE_NAME_LEN {
        Err(ValidationError::TooShort)
    } else {
        Ok(())
    }
}

impl RoleName {
    /// Well-formed: the text passes validation.
    pub open spec fn wf(&self) -> bool {
        role_name_check(self@) is Ok
    }

    /// Validates `value` and keeps it as the name.
    pub fn try_from(value: &str) -> (r: Result<RoleName, ValidationError>)
        ensures
            match role_name_check(value@) {
                Ok(_) => r matches Ok(n) && n@ == value@ && n.wf(),
                Err(e) => r == Err::<RoleName, ValidationError>(e),
            },
    {
        if value.is_empty() {
            Err(ValidationError::Empty)
        } else if value.as_bytes().len() < MIN_ROLE_NAME_LEN {
            Err(ValidationError::TooShort)
        } else {
            let n = RoleName(value.to_owned());
            Ok(n)
        }
    }

    /// The name's text.
    pub fn as_str(&self) -> (r: &str)
        ensures
            r@ == self@,
    {
        self.0.as_str()
    }

    /// The name's text as an owned string.
    pub fn to_string(&self) -> (r: String)
        ensures
            r@ == self@,
    {
        self.0.clone()
    }
}

impl PartialEq for RoleName {
    fn eq(&self, o: &RoleName) -> (r: bool) {
        self.0 == o.0
    }
}

impl vstd::std_specs::cmp::PartialEqSpecImpl for RoleName {
    open spec fn obeys_eq_spec() -> bool {
        true
    }

    open spec fn eq_spec(&self, o: &RoleName) -> bool {
        self@ == o@
    }
}

impl std::str::FromStr for RoleName {
    type Err = ValidationError;

    fn from_str(s: &str) -> (r: Result<RoleName, ValidationError>)
        ensures
            match role_name_check(s@) {
                Ok(_) => r matches Ok(n) && n@ == s@ && n.wf(),
                Err(e) => r == Err::<RoleName, ValidationError>(e),
            },
    {
        RoleName::try_from(s)
    }
}

/// A role: an identifier and a name. Immutable once made.
#[derive(Debug, Clone, PartialEq, Eq, PartialOrd, Ord, Hash)]
pub struct Role {
    id: RoleId,
    name: RoleName,
}

impl Role {
    /// A role with a fresh identifier and the given name.
    pub fn new(name: RoleName) -> (r: Role)
        ensures
            is_v4(r.spec_id()@),
            r.spec_id()@ != 0,
            r.spec_name() == name,
    {
        Role { id: RoleId::new(), name }
    }

    /// A role from an identifier and a name already held, as when loading it.
    pub fn from_parts(id: RoleId, name: RoleName) -> (r: Role)
        ensures
            r.spec_id() == id,
            r.spec_name() == name,
    {
        Role { id, name }
    }

    pub closed spec fn spec_id(&self) -> RoleId {
        self.id
    }

    pub closed spec fn spec_name(&self) -> RoleName {
        self.name
    }

    /// The role's identifier.
    pub fn id(&self) -> (r: RoleId)
        ensures
            r == self.spec_id(),
    {
        self.id
    }

    /// The role's name.
    pub fn name(&self) -> (r: &RoleName)
        ensures
            r == self.spec_name(),
    {
        &self.name
    }
}

} // verus!
