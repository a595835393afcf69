//! Who may call what: a table from principals to their permissions.
//!
//! A principal that was never added has no permission at all.

use crate::registry::Registry;
use crate::text::{copy_strings, lemma_push_contains, lemma_views_push, views};
use vstd::prelude::*;
use vstd::string::StringExecFns;

verus! {

/// The permissions of every known principal.
pub type Grants = Map<Seq<char>, Set<Seq<char>>>;

/// Whether `grants` let `user` do what `permission` names.
pub open spec fn authorized(grants: Grants, user: Seq<char>, permission: Seq<char>) -> bool {
    grants.contains_key(user) && grants[user].contains(permission)
}

/// `grants` after `user` was given `permission`.
pub open spec fn with_permission(grants: Grants, user: Seq<char>, permission: Seq<char>) -> Grants {
    grants.insert(user, grants[user].insert(permission))
}

/// `grants` after `permission` was taken from `user`.
pub open spec fn without_permission(
    grants: Grants,
    user: Seq<char>,
    permission: Seq<char>,
) -> Grants {
    grants.insert(user, grants[user].remove(permission))
}

/// The set of the permissions that `permissions` lists.
pub open spec fn permission_set(permissions: Seq<String>) -> Set<Seq<char>> {
    views(permissions).to_set()
}

/// Why a change to the table was refused.
#[derive(Debug, Clone, Copy, PartialEq, Eq, Structural)]
pub enum AuthError {
    /// The principal was never added, or was removed.
    UserNotFound,
}

impl AuthError {
    /// The message for this error.
    pub fn message(&self) -> (out: &'static str)
        ensures
            out@ == "User not found"@,
    {
        "User not found"
    }
}

/// The table of principals and their permissions.
pub struct AuthManager {
    users: Registry<Vec<String>>,
}

/// Whether `permission` is among `permissions`.
fn holds(permissions: &Vec<String>, permission: &str) -> (out: bool)
    ensures
        out == permission_set(permissions@).contains(permission@),
{
    let mut i: usize = 0;
    while i < permissions.len()
        invariant
            i <= permissions.len(),
            forall|e: int| 0 <= e < i ==> permissions@[e]@ != permission@,
        decreases permissions.len() - i,
    {
        if permissions[i].as_str().eq(permission) {
            assert(views(permissions@)[i as int] == permission@);
            return true;
        }
        i += 1;
    }
    false
}

/// The permissions that the lists of `table` stand for.
spec fn grants_of(table: Map<Seq<char>, Vec<String>>) -> Grants {
    Map::new(
        |user: Seq<char>| table.contains_key(user),
        |user: Seq<char>| permission_set(table[user]@),
    )
}

/// A new list for a principal changes what that principal holds and nothing
/// else.
proof fn lemma_grants_insert(table: Map<Seq<char>, Vec<String>>, user: Seq<char>, list: Vec<String>)
    ensures
        grants_of(table.insert(user, list)) == grants_of(table).insert(
            user,
            permission_set(list@),
        ),
{
    assert(grants_of(table.insert(user, list)) =~= grants_of(table).insert(
        user,
        permission_set(list@),
    ));
}

/// Forgetting a principal removes what it holds and nothing else.
proof fn lemma_grants_remove(table: Map<Seq<char>, Vec<String>>, user: Seq<char>)
    ensures
        grants_of(table.remove(user)) == grants_of(table).remove(user),
{
    assert(grants_of(table.remove(user)) =~= grants_of(table).remove(user));
}

impl Default for AuthManager {
    /// A table that knows no principal.
    fn default() -> (out: Self)
        ensures
            out@ == Map::<Seq<char>, Set<Seq<char>>>::empty(),
    {
        AuthManager::new()
    }
}

impl AuthManager {
    /// The permissions of every known principal.
    pub closed spec fn view(&self) -> Grants {
        grants_of(self.users@)
    }

    /// A table that knows no principal.
    pub fn new() -> (out: Self)
        ensures
            out@ == Map::<Seq<char>, Set<Seq<char>>>::empty(),
    {
        let out = AuthManager { users: Registry::new() };
        assert(out@ =~= Map::<Seq<char>, Set<Seq<char>>>::empty());
        out
    }

    /// Whether `user_id` may do what `permission` names.
    pub fn is_authorized(&self, user_id: &str, permission: &str) -> (out: bool)
        ensures
            out == authorized(self@, user_id@, permission@),
    {
        match self.users.get(user_id) {
            Some(list) => holds(list, permission),
            None => false,
        }
    }

    /// Whether `user_id` is a known principal.
    pub fn has_user(&self, user_id: &str) -> (out: bool)
        ensures
            out == self@.contains_key(user_id@),
    {
        self.users.contains(user_id)
    }

    /// The permissions of `user_id`, if it is a known principal.
    pub fn permissions(&self, user_id: &str) -> (out: Option<Vec<String>>)
        ensures
            out is Some <==> self@.contains_key(user_id@),
            out matches Some(list) ==> permission_set(list@) == self@[user_id@],
    {
        match self.users.get(user_id) {
            Some(list) => Some(copy_strings(list)),
            None => None,
        }
    }

    /// Makes `user_id` a principal with exactly `permissions`, whether or not
    /// it was one before.
    pub fn add_user(&mut self, user_id: &str, permissions: Vec<String>)
        ensures
            final(self)@ == old(self)@.insert(user_id@, permission_set(permissions@)),
    {
        proof {
            lemma_grants_insert(self.users@, user_id@, permissions);
        }
        self.users.insert(user_id, permissions);
    }

    /// Forgets the principal `user_id`. Fails, and changes nothing, if it is
    /// not known.
    pub fn remove_user(&mut self, user_id: &str) -> (out: Result<(), AuthError>)
        ensures
            out is Ok <==> old(self)@.contains_key(user_id@),
            final(self)@ == old(self)@.remove(user_id@),
    {
        proof {
            lemma_grants_remove(self.users@, user_id@);
        }
        match self.users.remove(user_id) {
            Some(_) => Ok(()),
            None => Err(AuthError::UserNotFound),
        }
    }

    /// Gives the principal `user_id` exactly `permissions` in place of those
    /// it had. Fails, and changes nothing, if it is not known.
    pub fn update_permissions(&mut self, user_id: &str, permissions: Vec<String>) -> (out: Result<
        (),
        AuthError,
    >)
        ensures
            out is Ok <==> old(self)@.contains_key(user_id@),
            out is Ok ==> final(self)@ == old(self)@.insert(
                user_id@,
                permission_set(permissions@),
            ),
            out is Err ==> final(self)@ == old(self)@,
    {
        if self.users.contains(user_id) {
            proof {
                lemma_grants_insert(self.users@, user_id@, permissions);
            }
            self.users.insert(user_id, permissions);
            Ok(())
        } else {
            Err(AuthError::UserNotFound)
        }
    }

    /// Gives the principal `user_id` the permission `permission` besides
    /// those it has. Fails, and changes nothing, if it is not known.
    pub fn add_permission(&mut self, user_id: &str, permission: String) -> (out: Result<
        (),
        AuthError,
    >)
        ensures
            out is Ok <==> old(self)@.contains_key(user_id@),
            out is Ok ==> final(self)@ == with_permission(old(self)@, user_id@, permission@),
            out is Err ==> final(self)@ == old(self)@,
    {
        let mut list = match self.users.get(user_id) {
            Some(list) => copy_strings(list),
            None => {
                return Err(AuthError::UserNotFound);
            },
        };
        let ghost copied = list@;
        list.push(permission);
        proof {
            lemma_views_push(copied, permission);
            assert forall|p: Seq<char>|
                permission_set(list@).contains(p) <==> old(self)@[user_id@].insert(
                    permission@,
                ).contains(p) by {
                lemma_push_contains(views(copied), permission@, p);
            }
            assert(permission_set(list@) =~= old(self)@[user_id@].insert(permission@));
            lemma_grants_insert(self.users@, user_id@, list);
        }
        self.users.insert(user_id, list);
        Ok(())
    }

    /// Takes the permission `permission` from the principal `user_id`. Fails,
    /// and changes nothing, if it is not known.
    pub fn remove_permission(&mut self, user_id: &str, permission: &str) -> (out: Result<
        (),
        AuthError,
    >)
        ensures
            out is Ok <==> old(self)@.contains_key(user_id@),
            out is Ok ==> final(self)@ == without_permission(old(self)@, user_id@, permission@),
            out is Err ==> final(self)@ == old(self)@,
    {
        let source = match self.users.get(user_id) {
            Some(list) => list,
            None => {
                return Err(AuthError::UserNotFound);
            },
        };
        let mut list: Vec<String> = Vec::new();
        let mut j: usize = 0;
        while j < source.len()
            invariant
                j <= source.len(),
                forall|p: Seq<char>|
                    views(list@).contains(p) <==> (views(source@).take(j as int).contains(p) && p
                        != permission@),
            decreases source.len() - j,
        {
            let ghost kept = list@;
            let ghost seen = views(source@).take(j as int);
            let ghost item = source@[j as int]@;
            let keep = !source[j].as_str().eq(permission);
            if keep {
                let copy = String::from_str(source[j].as_str());
                list.push(copy);
                proof {
                    lemma_views_push(kept, copy);
                }
            }
            j += 1;
            proof {
                assert(views(source@).take(j as int) =~= seen.push(item));
                assert forall|p: Seq<char>|
                    views(list@).contains(p) <==> (views(source@).take(j as int).contains(p) && p
                        != permission@) by {
                    lemma_push_contains(seen, item, p);
                    if keep {
                        lemma_push_contains(views(kept), item, p);
                    }
                }
            }
        }
        proof {
            assert(views(source@).take(source.len() as int) =~= views(source@));
            assert(permission_set(list@) =~= old(self)@[user_id@].remove(permission@));
            lemma_grants_insert(self.users@, user_id@, list);
        }
        self.users.insert(user_id, list);
        Ok(())
    }
}

/// A principal that was never added may do nothing.
pub proof fn lemma_default_deny(user: Seq<char>, permission: Seq<char>)
    ensures
        !authorized(Map::<Seq<char>, Set<Seq<char>>>::empty(), user, permission),
{
}

/// A principal that the table does not know may do nothing, whatever the
/// table holds for others.
pub proof fn lemma_unknown_denied(grants: Grants, user: Seq<char>, permission: Seq<char>)
    requires
        !grants.contains_key(user),
    ensures
        !authorized(grants, user, permission),
{
}

/// A permission that is given and then taken away is not held, and a
/// permission that is given is held until then.
pub proof fn lemma_grant_then_revoke(grants: Grants, user: Seq<char>, permission: Seq<char>)
    requires
        grants.contains_key(user),
    ensures
        authorized(with_permission(grants, user, permission), user, permission),
        !authorized(
            without_permission(with_permission(grants, user, permission), user, permission),
            user,
            permission,
        ),
{
}

/// Replacing a principal's permissions leaves it exactly the new ones,
/// whatever it held before.
pub proof fn lemma_update_replaces(
    grants: Grants,
    user: Seq<char>,
    permissions: Set<Seq<char>>,
    permission: Seq<char>,
)
    ensures
        authorized(grants.insert(user, permissions), user, permission) <==> permissions.contains(
            permission,
        ),
{
}

} // verus!
