//! The registered-user directory: a cache of identity records fetched from
//! the lookup service, and the pure lookups the router makes against it.

use vstd::prelude::*;

use crate::error::{DatabaseError, Error};

verus! {

/// One registered user: the chat identity, the matching content-API
/// identity, and that user's content-API token.
#[derive(Clone, Debug, PartialEq)]
pub struct User {
    pub kitsu_id: i64,
    pub telegram_id: i64,
    pub kitsu_token: String,
}

/// Reply of the identity-lookup service.
#[derive(Clone, Debug, PartialEq)]
pub enum DatabaseResponse {
    Data { data: Vec<User> },
    Error { error: String },
}

/// The user directory: the service token and the cached records of the most
/// recent successful fetch.
pub struct Database {
    token: String,
    users: Vec<User>,
}

/// The content-API identity of the first cached record matching a chat
/// identity, if any.
pub open spec fn spec_kitsu_id(users: Seq<User>, telegram_id: i64) -> Option<i64>
    decreases users.len(),
{
    if users.len() == 0 {
        None
    } else if users[0].telegram_id == telegram_id {
        Some(users[0].kitsu_id)
    } else {
        spec_kitsu_id(users.drop_first(), telegram_id)
    }
}

/// The content-API token of the first cached record matching both
/// identities, if any.
pub open spec fn spec_token(users: Seq<User>, telegram_id: i64, kitsu_id: i64) -> Option<
    Seq<char>,
>
    decreases users.len(),
{
    if users.len() == 0 {
        None
    } else if users[0].telegram_id == telegram_id && users[0].kitsu_id == kitsu_id {
        Some(users[0].kitsu_token@)
    } else {
        spec_token(users.drop_first(), telegram_id, kitsu_id)
    }
}

impl Database {
    /// The cached records.
    pub closed spec fn spec_users(&self) -> Seq<User> {
        self.users@
    }

    /// The service token.
    pub closed spec fn spec_service_token(&self) -> Seq<char> {
        self.token@
    }

    /// An empty directory holding the lookup service's token.
    pub fn new(token: String) -> (db: Database)
        ensures
            db.spec_users().len() == 0,
            db.spec_service_token() == token@,
    {
        Database { token, users: Vec::new() }
    }

    /// The service token, for the transport layer to authenticate a fetch.
    pub fn service_token(&self) -> (r: &String)
        ensures
            r@ == self.spec_service_token(),
    {
        &self.token
    }

    /// Installs the reply of a fetch: a successful reply replaces the cache
    /// and hands the records back; a reported error leaves the cache as it
    /// was.
    pub fn apply_fetch(&mut self, res: DatabaseResponse) -> (r: Result<Vec<User>, Error>)
        ensures
            final(self).spec_service_token() == old(self).spec_service_token(),
            match res {
                DatabaseResponse::Data { data } => {
                    &&& final(self).spec_users() == data@
                    &&& r matches Ok(v) && v@ == data@
                },
                DatabaseResponse::Error { error } => {
                    &&& final(self).spec_users() == old(self).spec_users()
                    &&& r matches Err(Error::Database(e)) && e.description@ == error@
                },
            },
    {
        match res {
            DatabaseResponse::Data { data } => {
                let copy = clone_users(&data);
                self.users = copy;
                Ok(data)
            },
            DatabaseResponse::Error { error } => Err(
                Error::Database(DatabaseError { description: error }),
            ),
        }
    }

    /// Resolves a chat identity to the content-API identity of the first
    /// matching cached record.
    pub fn get_kitsu_id(&self, telegram_id: i64) -> (r: Option<i64>)
        ensures
            r == spec_kitsu_id(self.spec_users(), telegram_id),
    {
        let mut i: usize = 0;
        proof {
            assert(self.users@.skip(0) =~= self.users@);
        }
        while i < self.users.len()
            invariant
                i <= self.users.len(),
                spec_kitsu_id(self.users@, telegram_id) == spec_kitsu_id(
                    self.users@.skip(i as int),
                    telegram_id,
                ),
            decreases self.users.len() - i,
        {
            proof {
                assert(self.users@.skip(i as int)[0] == self.users@[i as int]);
                assert(self.users@.skip(i as int).drop_first() =~= self.users@.skip(i + 1));
            }
            if self.users[i].telegram_id == telegram_id {
                return Some(self.users[i].kitsu_id);
            }
            i = i + 1;
        }
        proof {
            assert(self.users@.skip(i as int) =~= Seq::<User>::empty());
        }
        None
    }

    /// Resolves a chat identity and content-API identity to the token of the
    /// first cached record matching both.
    pub fn get_token(&self, telegram_id: i64, kitsu_id: i64) -> (r: Option<String>)
        ensures
            match spec_token(self.spec_users(), telegram_id, kitsu_id) {
                Some(t) => r matches Some(s) && s@ == t,
                None => r is None,
            },
    {
        let mut i: usize = 0;
        proof {
            assert(self.users@.skip(0) =~= self.users@);
        }
        while i < self.users.len()
            invariant
                i <= self.users.len(),
                spec_token(self.users@, telegram_id, kitsu_id) == spec_token(
                    self.users@.skip(i as int),
                    telegram_id,
                    kitsu_id,
                ),
            decreases self.users.len() - i,
        {
            proof {
                assert(self.users@.skip(i as int)[0] == self.users@[i as int]);
                assert(self.users@.skip(i as int).drop_first() =~= self.users@.skip(i + 1));
            }
            if self.users[i].telegram_id == telegram_id && self.users[i].kitsu_id == kitsu_id {
                return Some(self.users[i].kitsu_token.clone());
            }
            i = i + 1;
        }
        proof {
            assert(self.users@.skip(i as int) =~= Seq::<User>::empty());
        }
        None
    }
}

/// A field-for-field copy of one record.
fn clone_user(u: &User) -> (r: User)
    ensures
        r == *u,
{
    User {
        kitsu_id: u.kitsu_id,
        telegram_id: u.telegram_id,
        kitsu_token: u.kitsu_token.clone(),
    }
}

/// A field-for-field copy of the record list.
fn clone_users(users: &Vec<User>) -> (r: Vec<User>)
    ensures
        r@ == users@,
{
    let mut r: Vec<User> = Vec::new();
    let mut i: usize = 0;
    while i < users.len()
        invariant
            i <= users.len(),
            r@ =~= users@.subrange(0, i as int),
        decreases users.len() - i,
    {
        r.push(clone_user(&users[i]));
        proof {
            assert(r@ =~= users@.subrange(0, i + 1));
        }
        i = i + 1;
    }
    proof {
        assert(users@.subrange(0, users@.len() as int) =~= users@);
    }
    r
}

} // verus!
