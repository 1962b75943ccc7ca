//! User accounts that can play the game

use vstd::prelude::*;

use crate::strmap::StrMap;
use crate::text::{chars_of, opt_str_view, owned};

verus! {

/// A public / private key pair of a user
#[derive(Debug, Clone)]
pub struct Keypair {
    /// The public key
    pub public_key: String,
    /// The private key
    pub private_key: String,
}

/// Type of a user
#[derive(Debug, Clone)]
pub enum UserKind {
    /// A new Microsoft user, the standard account
    Microsoft {
        /// The XBox UID of the user
        xbox_uid: Option<String>,
    },
    /// A demo user
    Demo,
    /// An unverified / not logged in user
    Unverified,
}

/// A user account that can play the game
#[derive(Debug, Clone)]
pub struct User {
    /// Type of this user
    pub kind: UserKind,
    /// This user's ID
    pub id: String,
    /// The user's username
    pub name: String,
    /// The user's UUID
    pub uuid: Option<String>,
    /// The user's access token
    pub access_token: Option<String>,
    /// The user's public / private key pair
    pub keypair: Option<Keypair>,
}

impl Keypair {
    /// A copy of this key pair.
    pub fn duplicate(&self) -> (r: Keypair)
        ensures
            r == *self,
    {
        Keypair { public_key: self.public_key.clone(), private_key: self.private_key.clone() }
    }
}

impl UserKind {
    /// A copy of this user kind.
    pub fn duplicate(&self) -> (r: UserKind)
        ensures
            r == *self,
    {
        match self {
            UserKind::Microsoft { xbox_uid } => UserKind::Microsoft {
                xbox_uid: match xbox_uid {
                    Some(x) => Some(x.clone()),
                    None => None,
                },
            },
            UserKind::Demo => UserKind::Demo,
            UserKind::Unverified => UserKind::Unverified,
        }
    }
}

/// A copy of an optional string, equal to it.
fn opt_dup(o: &Option<String>) -> (r: Option<String>)
    ensures
        r == *o,
{
    match o {
        Some(s) => Some(s.clone()),
        None => None,
    }
}

impl User {
    /// A copy of this user.
    pub fn duplicate(&self) -> (r: User)
        ensures
            r == *self,
    {
        User {
            kind: self.kind.duplicate(),
            id: self.id.clone(),
            name: self.name.clone(),
            uuid: opt_dup(&self.uuid),
            access_token: opt_dup(&self.access_token),
            keypair: match &self.keypair {
                Some(k) => Some(k.duplicate()),
                None => None,
            },
        }
    }

    /// Create a new user
    pub fn new(kind: UserKind, id: &str, name: &str) -> (r: User)
        ensures
            r.kind == kind,
            r.id@ == id@,
            r.name@ == name@,
            r.uuid is None,
            r.access_token is None,
            r.keypair is None,
    {
        User {
            kind,
            id: owned(id),
            name: owned(name),
            uuid: None,
            access_token: None,
            keypair: None,
        }
    }

    /// Set this user's UUID
    pub fn set_uuid(&mut self, uuid: &str)
        ensures
            opt_str_view(final(self).uuid) == Some(uuid@),
            final(self).kind == old(self).kind,
            final(self).id == old(self).id,
            final(self).name == old(self).name,
            final(self).access_token == old(self).access_token,
            final(self).keypair == old(self).keypair,
    {
        self.uuid = Some(owned(uuid));
    }
}

/// State of authentication
#[derive(Debug, Clone)]
pub enum AuthState {
    /// No user is picked / the launcher is offline
    Offline,
    /// A user has been selected but not authenticated
    UserChosen(String),
    /// The user is authenticated
    Authed(String),
}

/// List of users and AuthState
#[derive(Debug)]
pub struct UserManager {
    /// The current state of authentication
    pub state: AuthState,
    /// All configured / available users
    users: StrMap<User>,
    /// The MS client ID
    ms_client_id: String,
}

impl UserManager {
    /// The users by ID.
    pub closed spec fn users(&self) -> Map<Seq<char>, User> {
        self.users.map()
    }

    /// The IDs of the users, in the order they were added.
    pub closed spec fn user_ids(&self) -> Seq<Seq<char>> {
        self.users.keys()
    }

    /// The state of authentication.
    pub closed spec fn auth_state(&self) -> AuthState {
        self.state
    }

    /// The MS client ID.
    pub closed spec fn client_id(&self) -> Seq<char> {
        self.ms_client_id@
    }

    /// Create a new UserManager
    pub fn new(ms_client_id: String) -> (r: UserManager)
        ensures
            r.auth_state() is Offline,
            r.users() == Map::<Seq<char>, User>::empty(),
            r.user_ids() == Seq::<Seq<char>>::empty(),
            r.client_id() == ms_client_id@,
    {
        UserManager { state: AuthState::Offline, users: StrMap::new(), ms_client_id }
    }

    /// The MS client ID
    pub fn ms_client_id(&self) -> (r: &String)
        ensures
            r@ == self.client_id(),
    {
        &self.ms_client_id
    }

    /// Add a new user to the manager
    pub fn add_user(&mut self, user: User)
        ensures
            final(self).users() == old(self).users().insert(user.id@, user),
            final(self).auth_state() == old(self).auth_state(),
            final(self).client_id() == old(self).client_id(),
    {
        let id = user.id.clone();
        self.add_user_with_id(id, user);
    }

    /// Add a new user to the manager with a different
    /// ID than the user struct has
    pub fn add_user_with_id(&mut self, user_id: String, user: User)
        ensures
            final(self).users() == old(self).users().insert(user_id@, user),
            final(self).auth_state() == old(self).auth_state(),
            final(self).client_id() == old(self).client_id(),
    {
        self.users.insert(user_id, user);
    }

    /// Get a user from the manager
    pub fn get_user(&self, user_id: &str) -> (r: Option<&User>)
        ensures
            match r {
                Some(u) => self.users().contains_key(user_id@) && *u == self.users()[user_id@],
                None => !self.users().contains_key(user_id@),
            },
    {
        self.users.get(user_id)
    }

    /// Checks if a user with an ID exists
    pub fn user_exists(&self, user_id: &str) -> (r: bool)
        ensures
            r == self.users().contains_key(user_id@),
    {
        self.users.contains_key(user_id)
    }

    /// The users and their IDs, in the order they were added
    pub fn iter_users(&self) -> (r: &Vec<(String, User)>)
        ensures
            crate::strmap::keys_of(r@) == self.user_ids(),
            forall|i: int| 0 <= i < r@.len() ==> #[trigger] self.users()[r@[i].0@] == r@[i].1,
    {
        self.users.entries()
    }

    /// Get the currently chosen user, if there is one
    pub fn get_chosen_user(&self) -> (r: Option<&User>)
        ensures
            match self.auth_state() {
                AuthState::Offline => r is None,
                AuthState::UserChosen(id) | AuthState::Authed(id) => match r {
                    Some(u) => self.users().contains_key(id@) && *u == self.users()[id@],
                    None => !self.users().contains_key(id@),
                },
            },
    {
        match &self.state {
            AuthState::Offline => None,
            AuthState::UserChosen(user_id) => self.users.get(user_id.as_str()),
            AuthState::Authed(user_id) => self.users.get(user_id.as_str()),
        }
    }

    /// Adds users from another UserManager
    pub fn steal_users(&mut self, other: &UserManager)
        ensures
            final(self).users() == old(self).users().union_prefer_right(other.users()),
            final(self).auth_state() == old(self).auth_state(),
            final(self).client_id() == old(self).client_id(),
    {
        let entries = other.users.entries();
        let ghost start = self.users();
        let ghost o = other.users();
        let ghost ks = crate::strmap::keys_of(entries@);
        proof {
            other.users.lemma_keys();
            assert(o.restrict(Set::new(|k: Seq<char>| exists|j: int| 0 <= j < 0 && ks[j] == k)) =~= Map::empty());
            assert(start.union_prefer_right(Map::empty()) =~= start);
        }
        let mut i: usize = 0;
        while i < entries.len()
            invariant
                i <= entries@.len(),
                ks == crate::strmap::keys_of(entries@),
                ks == other.users.keys(),
                o == other.users(),
                forall|j: int| 0 <= j < entries@.len() ==> #[trigger] o[entries@[j].0@] == entries@[j].1,
                forall|k: Seq<char>| #[trigger] o.contains_key(k) <==> ks.contains(k),
                self.users() == start.union_prefer_right(
                    o.restrict(Set::new(|k: Seq<char>| exists|j: int| 0 <= j < i && ks[j] == k)),
                ),
                self.state == old(self).state,
                self.client_id() == old(self).client_id(),
            decreases entries@.len() - i,
        {
            let ghost before = self.users();
            let id = entries[i].0.clone();
            let u = entries[i].1.duplicate();
            let ghost kv = id@;
            proof {
                assert(ks[i as int] == kv);
                assert(o.contains_key(kv));
                assert(u == o[kv]);
            }
            self.users.insert(id, u);
            proof {
                let s0 = Set::new(|k: Seq<char>| exists|j: int| 0 <= j < i && ks[j] == k);
                let s1 = Set::new(|k: Seq<char>| exists|j: int| 0 <= j < i + 1 && ks[j] == k);
                assert(s1 =~= s0.insert(kv)) by {
                    assert forall|k: Seq<char>| s1.contains(k) implies #[trigger] s0.insert(kv).contains(k) by {
                        let j = choose|j: int| 0 <= j < i + 1 && ks[j] == k;
                        if j < i {
                            assert(s0.contains(k));
                        }
                    }
                    assert forall|k: Seq<char>| s0.insert(kv).contains(k) implies #[trigger] s1.contains(k) by {
                        if k == kv {
                            assert(ks[i as int] == k);
                        } else {
                            let j = choose|j: int| 0 <= j < i && ks[j] == k;
                            assert(0 <= j < i + 1 && ks[j] == k);
                        }
                    }
                }
                assert(o.restrict(s0.insert(kv)) =~= o.restrict(s0).insert(kv, o[kv]));
                assert(self.users() =~= start.union_prefer_right(o.restrict(s1)));
            }
            i = i + 1;
        }
        proof {
            let s = Set::new(|k: Seq<char>| exists|j: int| 0 <= j < entries@.len() && ks[j] == k);
            assert(o.restrict(s) =~= o) by {
                assert forall|k: Seq<char>| o.contains_key(k) implies #[trigger] s.contains(k) by {
                    assert(ks.contains(k));
                    let j = choose|j: int| 0 <= j < ks.len() && ks[j] == k;
                    assert(0 <= j < entries@.len() && ks[j] == k);
                }
            }
        }
    }
}

/// Whether a character may appear in a Minecraft username.
pub open spec fn is_username_char(c: char) -> bool {
    crate::text::is_ascii_alnum(c) || c == '_'
}

/// A valid Minecraft username: one to sixteen characters, each an ASCII letter, digit or
/// underscore.
pub open spec fn spec_valid_username(name: Seq<char>) -> bool {
    0 < name.len() <= 16 && forall|i: int| 0 <= i < name.len() ==> is_username_char(#[trigger] name[i])
}

/// Validate a Minecraft username
pub fn validate_username(_kind: &UserKind, name: &str) -> (r: bool)
    ensures
        r == spec_valid_username(name@),
{
    let cs = chars_of(name);
    if cs.len() == 0 || cs.len() > 16 {
        return false;
    }
    let mut i: usize = 0;
    while i < cs.len()
        invariant
            i <= cs@.len(),
            cs@ == name@,
            forall|j: int| 0 <= j < i ==> is_username_char(#[trigger] cs@[j]),
        decreases cs@.len() - i,
    {
        let c = cs[i];
        let ok = ('a' <= c && c <= 'z') || ('A' <= c && c <= 'Z') || ('0' <= c && c <= '9') || c == '_';
        if !ok {
            return false;
        }
        i = i + 1;
    }
    true
}

} // verus!
