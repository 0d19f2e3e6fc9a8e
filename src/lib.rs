use vstd::prelude::*;

pub mod id_value;
pub mod password;
pub mod role;
pub mod user;

pub use password::UserPassword;
pub use role::{Role, RoleId, RoleName, ValidationError};
pub use user::{Timestamp, User, UserError, UserId, UserName, UserRole};

verus! {

/// Adds two numbers; the sum must fit in a `u64`.
pub fn add(left: u64, right: u64) -> (r: u64)
    requires
        left + right <= u64::MAX,
    ensures
        r == left + right,
{
    left + right
}

} // verus!
