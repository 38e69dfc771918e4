//! The persistence contracts the domain depends on; implementations live
//! outside the domain.
use vstd::prelude::*;

use crate::role::Role;
use crate::user::User;
use crate::validation_error::ValidationError;

verus! {

/// Storage of users.
pub trait UserRepository {
    fn get_by_id(&self, id: uuid::Uuid) -> Result<Option<User>, ValidationError>;

    fn get_by_email(&self, email: &str) -> Result<Option<User>, ValidationError>;

    fn get_by_username(&self, username: &str) -> Result<Option<User>, ValidationError>;

    /// Whether a user with this e-mail address is stored.
    fn exists_by_email(&self, email: &str) -> Result<bool, ValidationError>;

    /// Whether a user with this username is stored.
    fn exists_by_username(&self, username: &str) -> Result<bool, ValidationError>;

    /// Creates or updates a user.
    fn save(&mut self, user: &User) -> Result<(), ValidationError>;

    /// Marks a user deleted without removing it.
    fn soft_delete(&mut self, id: uuid::Uuid) -> Result<(), ValidationError>;
}

/// Storage of roles.
pub trait RoleRepository {
    fn get_by_id(&self, id: uuid::Uuid) -> Result<Option<Role>, ValidationError>;

    fn get_by_name(&self, name: &str) -> Result<Option<Role>, ValidationError>;

    fn list_all(&self) -> Result<Vec<Role>, ValidationError>;

    /// Creates or updates a role.
    fn save(&mut self, role: &Role) -> Result<(), ValidationError>;

    fn delete(&mut self, id: uuid::Uuid) -> Result<(), ValidationError>;
}

} // verus!
