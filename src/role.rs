//! A role that can be granted to users, with its permissions.
use vstd::prelude::*;

use crate::ids::OccurredAt;
use crate::role_name::{role_name_accepts, role_name_canonical, RoleName};
use crate::text::{chars_of, same_text};
use crate::validation_error::ValidationError;

verus! {

/// The texts of a list of strings.
pub open spec fn texts(v: Seq<String>) -> Seq<Seq<char>> {
    v.map_values(|s: String| s@)
}

/// `v` without the entries equal to `x`, order kept.
pub open spec fn without(v: Seq<String>, x: Seq<char>) -> Seq<String>
    decreases v.len(),
{
    if v.len() == 0 {
        v
    } else if v.last()@ == x {
        without(v.drop_last(), x)
    } else {
        without(v.drop_last(), x).push(v.last())
    }
}

#[derive(Debug, Clone, PartialEq)]
pub struct Role {
    pub role_id: uuid::Uuid,
    pub name: RoleName,
    pub display_name: Option<String>,
    pub description: Option<String>,
    pub permissions: Vec<String>,
    pub is_system: bool,
    pub created_at: OccurredAt,
}

/// Whether `a` and `b` hold the same text.
fn text_eq(a: &str, b: &str) -> (r: bool)
    ensures
        r == (a@ == b@),
{
    same_text(&chars_of(a), b)
}

impl Role {
    /// A role with a validated name; the creation time defaults to now.
    pub fn new(
        role_id: uuid::Uuid,
        name_raw: &str,
        display_name: Option<String>,
        description: Option<String>,
        permissions: Vec<String>,
        is_system: bool,
        created_at: Option<OccurredAt>,
    ) -> (r: Result<Role, ValidationError>)
        ensures
            !role_name_accepts(name_raw@) ==> r == Err::<Role, ValidationError>(
                ValidationError::InvalidRole,
            ),
            role_name_accepts(name_raw@) ==> r is Ok && {
                let role = r->Ok_0;
                &&& role.role_id == role_id
                &&& role.name@ == role_name_canonical(name_raw@)
                &&& role.display_name == display_name
                &&& role.description == description
                &&& role.permissions == permissions
                &&& role.is_system == is_system
                &&& (created_at matches Some(t) ==> role.created_at == t)
            },
    {
        let name = match RoleName::try_from(name_raw) {
            Ok(n) => n,
            Err(_) => {
                return Err(ValidationError::InvalidRole);
            },
        };
        let created_at = match created_at {
            Some(t) => t,
            None => OccurredAt::now(),
        };
        Ok(Role { role_id, name, display_name, description, permissions, is_system, created_at })
    }

    /// Whether the role grants `permission`.
    pub fn has_permission(&self, permission: &str) -> (r: bool)
        ensures
            r == texts(self.permissions@).contains(permission@),
    {
        let mut i: usize = 0;
        while i < self.permissions.len()
            invariant
                i <= self.permissions@.len(),
                forall|j: int| 0 <= j < i ==> self.permissions@[j]@ != permission@,
            decreases self.permissions.len() - i,
        {
            if text_eq(self.permissions[i].as_str(), permission) {
                assert(texts(self.permissions@)[i as int] == permission@);
                return true;
            }
            i = i + 1;
        }
        assert(!texts(self.permissions@).contains(permission@)) by {
            if texts(self.permissions@).contains(permission@) {
                let k = choose|k: int|
                    0 <= k < texts(self.permissions@).len() && texts(self.permissions@)[k]
                        == permission@;
                assert(self.permissions@[k]@ == permission@);
            }
        }
        false
    }

    /// Grants `permission`, unless the role has it already.
    pub fn add_permission(&mut self, permission: String)
        ensures
            texts(old(self).permissions@).contains(permission@) ==> *final(self) == *old(self),
            !texts(old(self).permissions@).contains(permission@) ==> *final(self) == (Role {
                permissions: final(self).permissions,
                ..*old(self)
            }) && final(self).permissions@ == old(self).permissions@.push(permission),
    {
        if !self.has_permission(permission.as_str()) {
            self.permissions.push(permission);
        }
    }

    /// Withdraws every grant of `permission`, keeping the order of the others.
    pub fn remove_permission(&mut self, permission: &str)
        ensures
            *final(self) == (Role { permissions: final(self).permissions, ..*old(self) }),
            final(self).permissions@ == without(old(self).permissions@, permission@),
    {
        let mut kept: Vec<String> = Vec::new();
        let mut i: usize = 0;
        while i < self.permissions.len()
            invariant
                i <= self.permissions@.len(),
                kept@ == without(self.permissions@.subrange(0, i as int), permission@),
            decreases self.permissions.len() - i,
        {
            assert(self.permissions@.subrange(0, i + 1).drop_last() =~= self.permissions@.subrange(
                0,
                i as int,
            ));
            if !text_eq(self.permissions[i].as_str(), permission) {
                kept.push(self.permissions[i].clone());
            }
            i = i + 1;
        }
        assert(self.permissions@.subrange(0, self.permissions@.len() as int) =~= self.permissions@);
        self.permissions = kept;
    }
}

} // verus!
