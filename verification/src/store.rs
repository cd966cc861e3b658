//! The credential store: one row per user, usernames and identifiers unique.
//!
//! The store is held in memory; the surrounding application is free to load
//! it from, and mirror it to, whatever relational backing it uses. All the
//! rules the backing schema enforces (unique `id`, unique `username`) are
//! stated here as the store's well-formedness invariant.

use vstd::prelude::*;

use crate::errors::HashingError;
use crate::models::{UserIdent, UserRow};
use crate::password::{hash_matches, hash_password};

verus! {

/// Whether some row of `s` has the given username.
pub open spec fn has_username(s: Seq<UserRow>, name: Seq<char>) -> bool {
    exists|i: int| 0 <= i < s.len() && s[i].username@ == name
}

/// Whether some row of `s` has the given identifier.
pub open spec fn has_user_id(s: Seq<UserRow>, id: Seq<char>) -> bool {
    exists|i: int| 0 <= i < s.len() && s[i].id@ == id
}

/// Whether some row of `s` has the admin flag set.
pub open spec fn has_admin_row(s: Seq<UserRow>) -> bool {
    exists|i: int| 0 <= i < s.len() && s[i].admin
}

/// The row of `s` with the given username, if any. Unambiguous whenever
/// usernames are unique in `s`.
pub open spec fn spec_find_by_username(s: Seq<UserRow>, name: Seq<char>) -> Option<UserRow> {
    if has_username(s, name) {
        Some(s[choose|i: int| 0 <= i < s.len() && s[i].username@ == name])
    } else {
        None
    }
}

/// The row of `s` with the given identifier, if any. Unambiguous whenever
/// identifiers are unique in `s`.
pub open spec fn spec_find_by_id(s: Seq<UserRow>, id: Seq<char>) -> Option<UserRow> {
    if has_user_id(s, id) {
        Some(s[choose|i: int| 0 <= i < s.len() && s[i].id@ == id])
    } else {
        None
    }
}

/// Uniqueness of a row set: no two rows share an identifier or a username.
pub open spec fn users_unique(s: Seq<UserRow>) -> bool {
    forall|i: int, j: int|
        #![trigger s[i], s[j]]
        0 <= i < s.len() && 0 <= j < s.len() && i != j ==> s[i].id@ != s[j].id@ && s[i].username@
            != s[j].username@
}

/// In a row set with unique usernames, looking a member up by its username
/// finds that member.
pub proof fn lemma_find_member_by_username(s: Seq<UserRow>, u: UserRow)
    requires
        users_unique(s),
        s.contains(u),
    ensures
        spec_find_by_username(s, u.username@) == Some(u),
{
    let k = choose|k: int| 0 <= k < s.len() && s[k] == u;
    assert(s[k].username@ == u.username@);
    assert(has_username(s, u.username@));
    let i = choose|i: int| 0 <= i < s.len() && s[i].username@ == u.username@;
    assert(s[i] == u);
}

/// In a row set with unique identifiers, looking a member up by its
/// identifier finds that member.
pub proof fn lemma_find_member_by_id(s: Seq<UserRow>, u: UserRow)
    requires
        users_unique(s),
        s.contains(u),
    ensures
        spec_find_by_id(s, u.id@) == Some(u),
{
    let k = choose|k: int| 0 <= k < s.len() && s[k] == u;
    assert(s[k].id@ == u.id@);
    assert(has_user_id(s, u.id@));
    let i = choose|i: int| 0 <= i < s.len() && s[i].id@ == u.id@;
    assert(s[i] == u);
}

/// The row of `s` that the given identity refers to, if any.
pub open spec fn spec_fetch_user(s: Seq<UserRow>, ident: UserIdent) -> Option<UserRow> {
    match ident {
        UserIdent::Id(id) => spec_find_by_id(s, id@),
        UserIdent::Username(name) => spec_find_by_username(s, name@),
    }
}

/// Relies on `uuid::Uuid::new_v4` and its `Display` form: a fresh random
/// version-4 UUID in its hyphenated 36-character rendering. The value is
/// random, so nothing more is claimed of it.
#[verifier::external_body]
fn fresh_uuid() -> (r: String)
    ensures
        r@.len() == 36,
{
    uuid::Uuid::new_v4().to_string()
}

/// The credential store: a set of user rows with unique identifiers and
/// unique usernames.
pub struct CredentialStore {
    users: Vec<UserRow>,
}

impl View for CredentialStore {
    type V = Seq<UserRow>;

    closed spec fn view(&self) -> Seq<UserRow> {
        self.users@
    }
}

impl CredentialStore {
    /// Well-formedness: no two rows share an identifier or a username.
    pub open spec fn wf(self) -> bool {
        users_unique(self@)
    }

    /// An empty store.
    pub fn new() -> (r: CredentialStore)
        ensures
            r@ == Seq::<UserRow>::empty(),
            r.wf(),
    {
        CredentialStore { users: Vec::new() }
    }

    /// How many rows the store holds.
    pub fn len(&self) -> (r: usize)
        ensures
            r == self@.len(),
    {
        self.users.len()
    }

    /// Look up a user by identifier or by username.
    pub fn fetch_user_from(&self, ident: &UserIdent) -> (r: Option<&UserRow>)
        requires
            self.wf(),
        ensures
            r matches Some(u) ==> spec_fetch_user(self@, *ident) == Some(*u),
            r is None ==> spec_fetch_user(self@, *ident) is None,
    {
        match ident {
            UserIdent::Id(id) => self.find_by_id(id),
            UserIdent::Username(name) => self.find_by_username(name),
        }
    }

    /// Look up a user by username.
    pub fn find_by_username(&self, name: &String) -> (r: Option<&UserRow>)
        requires
            self.wf(),
        ensures
            r matches Some(u) ==> spec_find_by_username(self@, name@) == Some(*u),
            r is None ==> spec_find_by_username(self@, name@) is None,
    {
        let n = self.users.len();
        for i in 0..n
            invariant
                n == self@.len(),
                self.wf(),
                forall|k: int| 0 <= k < i ==> #[trigger] self@[k].username@ != name@,
        {
            if self.users[i].username == *name {
                assert(has_username(self@, name@));
                return Some(&self.users[i]);
            }
        }
        assert(!has_username(self@, name@));
        None
    }

    /// Look up a user by identifier.
    pub fn find_by_id(&self, id: &String) -> (r: Option<&UserRow>)
        requires
            self.wf(),
        ensures
            r matches Some(u) ==> spec_find_by_id(self@, id@) == Some(*u),
            r is None ==> spec_find_by_id(self@, id@) is None,
    {
        let n = self.users.len();
        for i in 0..n
            invariant
                n == self@.len(),
                self.wf(),
                forall|k: int| 0 <= k < i ==> #[trigger] self@[k].id@ != id@,
        {
            if self.users[i].id == *id {
                assert(has_user_id(self@, id@));
                return Some(&self.users[i]);
            }
        }
        assert(!has_user_id(self@, id@));
        None
    }

    /// Whether some stored user has the admin flag set.
    pub fn has_admin(&self) -> (r: bool)
        ensures
            r == has_admin_row(self@),
    {
        let n = self.users.len();
        for i in 0..n
            invariant
                n == self@.len(),
                forall|k: int| 0 <= k < i ==> !(#[trigger] self@[k].admin),
        {
            if self.users[i].admin {
                return true;
            }
        }
        false
    }

    /// Add a row if neither its identifier nor its username is taken;
    /// report whether it was added.
    pub fn add_user(&mut self, user: UserRow) -> (added: bool)
        requires
            old(self).wf(),
        ensures
            final(self).wf(),
            added ==> final(self)@ == old(self)@.push(user),
            added ==> !has_user_id(old(self)@, user.id@) && !has_username(
                old(self)@,
                user.username@,
            ),
            !added ==> final(self)@ == old(self)@ && (has_user_id(old(self)@, user.id@)
                || has_username(old(self)@, user.username@)),
    {
        if self.find_by_id(&user.id).is_some() {
            return false;
        }
        if self.find_by_username(&user.username).is_some() {
            return false;
        }
        assert(!has_user_id(self@, user.id@));
        assert(!has_username(self@, user.username@));
        self.users.push(user);
        assert forall|i: int, j: int|
            #![trigger self@[i], self@[j]]
            0 <= i < self@.len() && 0 <= j < self@.len() && i != j implies self@[i].id@
            != self@[j].id@ && self@[i].username@ != self@[j].username@ by {
            if i < self@.len() - 1 && j < self@.len() - 1 {
            } else if i == self@.len() - 1 {
                assert(0 <= j < old(self)@.len() && old(self)@[j] == self@[j]);
            } else {
                assert(0 <= i < old(self)@.len() && old(self)@[i] == self@[i]);
            }
        }
        true
    }

    /// Admin bootstrap: if no admin user exists yet, add one named `admin`
    /// whose stored hash verifies against the bootstrap password `admin`,
    /// under a freshly generated identifier. Returns whether a user was
    /// added. With an admin already present nothing runs and nothing is
    /// added; on an empty store, success always means a user was added.
    pub fn add_default_user(&mut self) -> (r: Result<bool, HashingError>)
        requires
            old(self).wf(),
        ensures
            final(self).wf(),
            has_admin_row(old(self)@) ==> r == Ok::<bool, HashingError>(false) && final(self)@
                == old(self)@,
            r == Ok::<bool, HashingError>(false) ==> final(self)@ == old(self)@ && (has_admin_row(
                old(self)@,
            ) || old(self)@.len() > 0),
            r matches Ok(added) && added ==> !has_admin_row(old(self)@) && final(self)@.len()
                == old(self)@.len() + 1 && final(self)@ == old(self)@.push(
                final(self)@.last(),
            ) && final(self)@.last().username@ == "admin"@ && final(self)@.last().admin
                && final(self)@.last().id@.len() == 36 && hash_matches(
                final(self)@.last().password_hash@,
                "admin"@,
            ),
            r is Err ==> final(self)@ == old(self)@,
    {
        if self.has_admin() {
            return Ok(false);
        }
        let hash = match hash_password("admin") {
            Ok(h) => h,
            Err(e) => { return Err(e) },
        };
        let row = UserRow {
            id: fresh_uuid(),
            username: "admin".to_owned(),
            password_hash: hash,
            admin: true,
        };
        let added = self.add_user(row);
        if added {
            Ok(true)
        } else {
            Ok(false)
        }
    }
}

} // verus!
