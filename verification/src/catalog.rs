//! The backend's catalog: the encrypted roster mapping access tokens to
//! principals.  A principal is either the admin or one streamer; at most
//! one token may stand for any one streamer at a time.  Every mutation is
//! persisted by the caller right after it returns; the encryption envelope
//! lives outside this crate.

use vstd::prelude::*;

use rand::Rng;

use crate::text::str_eq;

verus! {

/// Length of every access token.
pub const TOKEN_LENGTH: usize = 20;

/// The principal a token stands for.
#[derive(Clone, Copy, Debug, PartialEq, Eq, Hash, Structural)]
pub enum User {
    Admin,
    Liver(i64),
}

impl User {
    pub fn is_admin(&self) -> (r: bool)
        ensures
            r == (*self == User::Admin),
    {
        match self {
            User::Admin => true,
            User::Liver(_) => false,
        }
    }

    pub fn is_liver(&self, liver_uid: i64) -> (r: bool)
        ensures
            r == (*self == User::Liver(liver_uid)),
    {
        match self {
            User::Admin => false,
            User::Liver(uid) => *uid == liver_uid,
        }
    }
}

/// The outcome of a roster mutation: whether the streamer already had a
/// token, and the freshly issued token if one was issued.
#[derive(Clone, Debug)]
pub struct TokenInfo {
    pub exist: bool,
    pub token: Option<String>,
}

/// Why a roster mutation was refused.
#[derive(Clone, Copy, Debug, PartialEq, Eq, Structural)]
pub enum CatalogError {
    /// The streamer uid was not positive.
    InvalidUid,
}

/// A character allowed in a token: an ASCII letter or digit.
pub open spec fn is_token_char(c: char) -> bool {
    ('a' <= c && c <= 'z') || ('A' <= c && c <= 'Z') || ('0' <= c && c <= '9')
}

/// A well-shaped token: exactly `TOKEN_LENGTH` letters and digits.
pub open spec fn is_token(s: Seq<char>) -> bool {
    &&& s.len() == TOKEN_LENGTH
    &&& forall|i: int| 0 <= i < s.len() ==> is_token_char(#[trigger] s[i])
}

/// Relies on rand's thread-local generator with the `Alphanumeric`
/// distribution: each sampled byte is one of the 62 ASCII letters and
/// digits, so the collected string is a well-shaped token.  Nothing more
/// is claimed of a random value.
#[verifier::external_body]
pub fn generate_token() -> (r: String)
    ensures
        is_token(r@),
{
    rand::thread_rng()
        .sample_iter(&rand::distributions::Alphanumeric)
        .take(TOKEN_LENGTH)
        .map(char::from)
        .collect()
}

/// Whether two principals are the same streamer.
pub open spec fn same_liver(a: User, b: User) -> bool {
    match a {
        User::Liver(uid) => b == User::Liver(uid),
        User::Admin => false,
    }
}

/// No two entries carry tokens for the same streamer uid.
pub open spec fn uid_unique(rows: Seq<(String, User)>) -> bool {
    forall|i: int, j: int|
        0 <= i < j < rows.len() ==> !same_liver(#[trigger] rows[i].1, #[trigger] rows[j].1)
}

/// No two entries carry the same token.
pub open spec fn tokens_unique(rows: Seq<(String, User)>) -> bool {
    forall|i: int, j: int| 0 <= i < j < rows.len() ==> (#[trigger] rows[i].0)@ != (#[trigger] rows[j].0)@
}

/// The token roster.
pub struct Config {
    users: Vec<(String, User)>,
}

impl Config {
    /// The roster entries.
    pub closed spec fn rows(&self) -> Seq<(String, User)> {
        self.users@
    }

    /// Each token appears at most once.
    pub open spec fn wf(&self) -> bool {
        tokens_unique(self.rows())
    }

    /// Whether the roster holds `token` bound to `user`.
    pub open spec fn has_pair(&self, token: Seq<char>, user: User) -> bool {
        exists|i: int|
            0 <= i < self.rows().len() && (#[trigger] self.rows()[i]).0@ == token
                && self.rows()[i].1 == user
    }

    /// Whether the roster holds `token` at all.
    pub open spec fn spec_contains_token(&self, token: Seq<char>) -> bool {
        exists|i: int| 0 <= i < self.rows().len() && (#[trigger] self.rows()[i]).0@ == token
    }

    /// Whether some token stands for streamer `liver_uid`.
    pub open spec fn spec_has_uid(&self, liver_uid: i64) -> bool {
        exists|i: int|
            0 <= i < self.rows().len() && (#[trigger] self.rows()[i]).1 == User::Liver(liver_uid)
    }

    /// Whether some token stands for the admin.
    pub open spec fn spec_has_admin(&self) -> bool {
        exists|i: int| 0 <= i < self.rows().len() && (#[trigger] self.rows()[i]).1 == User::Admin
    }

    pub fn new() -> (r: Self)
        ensures
            r.wf(),
            r.rows() == Seq::<(String, User)>::empty(),
    {
        Config { users: Vec::new() }
    }

    /// Rebuild the roster from loaded entries, keeping the first binding of
    /// each token.
    pub fn from_entries(entries: Vec<(String, User)>) -> (r: Self)
        ensures
            r.wf(),
            forall|t: Seq<char>, u: User|
                r.has_pair(t, u) ==> exists|i: int|
                    0 <= i < entries@.len() && (#[trigger] entries@[i]).0@ == t && entries@[i].1
                        == u,
            forall|i: int|
                0 <= i < entries@.len() ==> r.spec_contains_token((#[trigger] entries@[i]).0@),
    {
        let mut config = Config::new();
        let mut entries = entries;
        let ghost all = entries@;
        let mut k: usize = 0;
        while k < entries.len()
            invariant
                k <= entries@.len(),
                entries@ == all,
                config.wf(),
                forall|t: Seq<char>, u: User|
                    config.has_pair(t, u) ==> exists|i: int|
                        0 <= i < all.len() && (#[trigger] all[i]).0@ == t && all[i].1 == u,
                forall|i: int| 0 <= i < k ==> config.spec_contains_token((#[trigger] all[i]).0@),
            decreases entries@.len() - k,
        {
            let (token, user) = {
                let e = &entries[k];
                (e.0.clone(), e.1)
            };
            let ghost pre = config;
            if !config.contains_token(token.as_str()) {
                config.users.push((token, user));
                proof {
                    lemma_pairs_push(pre.rows(), (token, user));
                }
            }
            proof {
                assert(all[k as int].0@ == token@);
                if !pre.spec_contains_token(token@) {
                    assert(config.rows()[config.rows().len() - 1].0@ == token@);
                }
                assert(config.spec_contains_token(all[k as int].0@));
                assert forall|t: Seq<char>, u: User| config.has_pair(t, u) implies exists|i: int|
                    0 <= i < all.len() && (#[trigger] all[i]).0@ == t && all[i].1 == u by {
                    if !pre.has_pair(t, u) {
                        assert(t == token@ && u == user);
                        assert(all[k as int].0@ == t && all[k as int].1 == u);
                    }
                }
                assert forall|i: int|
                    0 <= i < k + 1 implies config.spec_contains_token(
                    (#[trigger] all[i]).0@) by {
                    if i < k {
                        assert(pre.spec_contains_token(all[i].0@));
                        let w = choose|w: int|
                            0 <= w < pre.rows().len() && (#[trigger] pre.rows()[w]).0@ == all[i].0@;
                        assert(config.rows()[w].0@ == all[i].0@);
                    }
                }
            }
            k = k + 1;
        }
        config
    }

    /// The roster entries as a list, for the persistence layer outside this
    /// crate.
    pub fn to_entries(&self) -> (r: Vec<(String, User)>)
        ensures
            r@.len() == self.rows().len(),
            forall|i: int|
                0 <= i < r@.len() ==> (#[trigger] r@[i]).0@ == self.rows()[i].0@ && r@[i].1
                    == self.rows()[i].1,
    {
        let mut out: Vec<(String, User)> = Vec::new();
        let mut k: usize = 0;
        while k < self.users.len()
            invariant
                k <= self.users@.len(),
                out@.len() == k,
                forall|i: int|
                    0 <= i < k ==> (#[trigger] out@[i]).0@ == self.users@[i].0@ && out@[i].1
                        == self.users@[i].1,
            decreases self.users@.len() - k,
        {
            let e = &self.users[k];
            out.push((e.0.clone(), e.1));
            k = k + 1;
        }
        out
    }

    /// Where `token` stands in the roster, if anywhere.
    fn find_token(&self, token: &str) -> (r: Option<usize>)
        ensures
            match r {
                Some(i) => i < self.rows().len() && self.rows()[i as int].0@ == token@,
                None => !self.spec_contains_token(token@),
            },
    {
        let mut k: usize = 0;
        while k < self.users.len()
            invariant
                k <= self.users@.len(),
                forall|i: int| 0 <= i < k ==> (#[trigger] self.users@[i]).0@ != token@,
            decreases self.users@.len() - k,
        {
            if str_eq(self.users[k].0.as_str(), token) {
                return Some(k);
            }
            k = k + 1;
        }
        None
    }

    /// Whether the roster holds `token`.
    pub fn contains_token(&self, token: &str) -> (r: bool)
        ensures
            r == self.spec_contains_token(token@),
    {
        self.find_token(token).is_some()
    }

    /// Whether some token stands for streamer `liver_uid`; a non-positive
    /// uid stands for nobody.
    pub fn contains_uid(&self, liver_uid: i64) -> (r: bool)
        ensures
            r == (liver_uid > 0 && self.spec_has_uid(liver_uid)),
    {
        if liver_uid <= 0 {
            return false;
        }
        let mut k: usize = 0;
        while k < self.users.len()
            invariant
                liver_uid > 0,
                k <= self.users@.len(),
                forall|i: int| 0 <= i < k ==> (#[trigger] self.users@[i]).1 != User::Liver(liver_uid),
            decreases self.users@.len() - k,
        {
            if self.users[k].1.is_liver(liver_uid) {
                proof {
                    assert(self.rows()[k as int].1 == User::Liver(liver_uid));
                }
                return true;
            }
            k = k + 1;
        }
        false
    }

    /// Whether some token stands for the admin.
    pub fn contains_admin_token(&self) -> (r: bool)
        ensures
            r == self.spec_has_admin(),
    {
        let mut k: usize = 0;
        while k < self.users.len()
            invariant
                k <= self.users@.len(),
                forall|i: int| 0 <= i < k ==> (#[trigger] self.users@[i]).1 != User::Admin,
            decreases self.users@.len() - k,
        {
            if self.users[k].1.is_admin() {
                proof {
                    assert(self.rows()[k as int].1 == User::Admin);
                }
                return true;
            }
            k = k + 1;
        }
        false
    }

    /// The principal `token` stands for, if any.
    pub fn get(&self, token: &str) -> (r: Option<User>)
        ensures
            match r {
                Some(u) => self.has_pair(token@, u),
                None => !self.spec_contains_token(token@),
            },
    {
        match self.find_token(token) {
            Some(i) => Some(self.users[i].1),
            None => None,
        }
    }

    /// Whether `token` stands for the admin.
    pub fn is_admin_token(&self, token: &str) -> (r: bool)
        requires
            self.wf(),
        ensures
            r == self.has_pair(token@, User::Admin),
    {
        match self.get(token) {
            Some(user) => {
                proof {
                    if user != User::Admin && self.has_pair(token@, User::Admin) {
                        let i = choose|i: int|
                            0 <= i < self.rows().len() && (#[trigger] self.rows()[i]).0@ == token@
                                && self.rows()[i].1 == user;
                        let j = choose|j: int|
                            0 <= j < self.rows().len() && (#[trigger] self.rows()[j]).0@ == token@
                                && self.rows()[j].1 == User::Admin;
                        assert(i != j && self.rows()[i].0@ == self.rows()[j].0@);
                    }
                }
                user.is_admin()
            },
            None => {
                proof {
                    if self.has_pair(token@, User::Admin) {
                        let i = choose|i: int|
                            0 <= i < self.rows().len() && (#[trigger] self.rows()[i]).0@ == token@
                                && self.rows()[i].1 == User::Admin;
                        assert(self.spec_contains_token(token@));
                    }
                }
                false
            },
        }
    }

    /// Bind `token` to `user`, replacing any binding the token had.
    fn insert_pair(&mut self, token: String, user: User)
        requires
            old(self).wf(),
        ensures
            final(self).wf(),
            forall|t: Seq<char>, u: User|
                final(self).has_pair(t, u) <==> ((t == token@ && u == user) || (old(
                    self,
                ).has_pair(t, u) && t != token@)),
    {
        let ghost orig = self.users@;
        match self.find_token(token.as_str()) {
            Some(i) => {
                let _ = self.users.remove(i);
                proof {
                    lemma_pairs_remove(orig, i as int);
                }
            },
            None => {},
        }
        let ghost mid = self.users@;
        let ghost tok = token@;
        proof {
            // the token is gone from `mid`, whichever branch ran
            assert(!pairs_has_token(mid, tok)) by {
                if pairs_has_token(mid, tok) {
                    let w = choose|w: int| 0 <= w < mid.len() && (#[trigger] mid[w]).0@ == tok;
                    assert(pairs_has(mid, tok, mid[w].1));
                }
            }
        }
        self.users.push((token, user));
        proof {
            let pushed = self.users@[self.users@.len() - 1];
            assert(self.users@ == mid.push(pushed));
            assert(pushed.0@ == tok && pushed.1 == user);
            lemma_pairs_push(mid, pushed);
            assert forall|t: Seq<char>, u: User|
                self.has_pair(t, u) <==> ((t == tok && u == user) || (old(self).has_pair(t, u) && t
                    != tok)) by {
                if self.has_pair(t, u) {
                    let i = choose|i: int|
                        0 <= i < self.rows().len() && (#[trigger] self.rows()[i]).0@ == t
                            && self.rows()[i].1 == u;
                    if i < mid.len() {
                        assert(mid[i].0@ == t && mid[i].1 == u);
                        assert(pairs_has(mid, t, u));
                        if t == tok {
                            assert(pairs_has_token(mid, tok));
                        }
                        assert(pairs_has(orig, t, u));
                        let j = choose|j: int|
                            0 <= j < orig.len() && (#[trigger] orig[j]).0@ == t && orig[j].1 == u;
                        assert(old(self).has_pair(t, u));
                    } else {
                        assert(self.rows()[i] == pushed);
                    }
                }
                if t == tok && u == user {
                    assert(self.rows()[self.rows().len() - 1].0@ == t && self.rows()[self.rows().len() - 1].1 == u);
                    assert(self.has_pair(t, u));
                }
                if old(self).has_pair(t, u) && t != tok {
                    let j = choose|j: int|
                        0 <= j < orig.len() && (#[trigger] orig[j]).0@ == t && orig[j].1 == u;
                    assert(pairs_has(orig, t, u));
                    assert(pairs_has(mid, t, u));
                    let w = choose|w: int|
                        0 <= w < mid.len() && (#[trigger] mid[w]).0@ == t && mid[w].1 == u;
                    assert(self.rows()[w].0@ == t && self.rows()[w].1 == u);
                    assert(self.has_pair(t, u));
                }
            }
        }
    }

    /// Insert a token for the admin, replacing any binding of that token.
    pub fn set_admin_token(&mut self, token: String)
        requires
            old(self).wf(),
        ensures
            final(self).wf(),
            forall|t: Seq<char>, u: User|
                final(self).has_pair(t, u) <==> ((t == token@ && u == User::Admin) || (old(
                    self,
                ).has_pair(t, u) && t != token@)),
    {
        self.insert_pair(token, User::Admin);
    }

    /// Insert a token for streamer `liver_uid`, replacing any binding of
    /// that token.  A non-positive uid is refused and nothing changes.
    pub fn set_liver_token(&mut self, token: String, liver_uid: i64) -> (r: Result<
        (),
        CatalogError,
    >)
        requires
            old(self).wf(),
        ensures
            final(self).wf(),
            liver_uid <= 0 ==> r == Err::<(), CatalogError>(CatalogError::InvalidUid) && *final(self) == *old(self),
            liver_uid > 0 ==> r == Ok::<(), CatalogError>(()) && forall|t: Seq<char>, u: User|
                final(self).has_pair(t, u) <==> ((t == token@ && u == User::Liver(liver_uid)) || (
                old(self).has_pair(t, u) && t != token@)),
    {
        if liver_uid > 0 {
            self.insert_pair(token, User::Liver(liver_uid));
            Ok(())
        } else {
            Err(CatalogError::InvalidUid)
        }
    }

    /// Drop every token standing for streamer `liver_uid`.
    fn remove_liver_tokens(&mut self, liver_uid: i64)
        requires
            old(self).wf(),
        ensures
            final(self).wf(),
            forall|t: Seq<char>, u: User|
                final(self).has_pair(t, u) <==> (old(self).has_pair(t, u) && u != User::Liver(
                    liver_uid,
                )),
    {
        let mut kept: Vec<(String, User)> = Vec::new();
        let ghost orig = self.users@;
        let mut k: usize = 0;
        while k < self.users.len()
            invariant
                k <= orig.len(),
                self.users@ == orig,
                tokens_unique(orig),
                forall|t: Seq<char>, u: User|
                    pairs_has(kept@, t, u) <==> exists|i: int|
                        0 <= i < k && (#[trigger] orig[i]).0@ == t && orig[i].1 == u && u
                            != User::Liver(liver_uid),
                forall|i: int|
                    0 <= i < kept@.len() ==> exists|j: int|
                        0 <= j < k && orig[j] == #[trigger] kept@[i],
                tokens_unique(kept@),
            decreases orig.len() - k,
        {
            let keep = !self.users[k].1.is_liver(liver_uid);
            let ghost pre = kept@;
            if keep {
                let e = &self.users[k];
                kept.push((e.0.clone(), e.1));
                proof {
                    assert(kept@[pre.len() as int] == orig[k as int]);
                    assert forall|i: int, j: int|
                        0 <= i < j < kept@.len() implies (#[trigger] kept@[i]).0@ != (
                    #[trigger] kept@[j]).0@ by {
                        if j == pre.len() {
                            let w = choose|w: int| 0 <= w < k && orig[w] == kept@[i];
                            assert(orig[w].0@ != orig[k as int].0@);
                        }
                    }
                }
            }
            proof {
                assert forall|t: Seq<char>, u: User|
                    pairs_has(kept@, t, u) <==> exists|i: int|
                        0 <= i < k + 1 && (#[trigger] orig[i]).0@ == t && orig[i].1 == u && u
                            != User::Liver(liver_uid) by {
                    if pairs_has(kept@, t, u) {
                        let i = choose|i: int|
                            0 <= i < kept@.len() && (#[trigger] kept@[i]).0@ == t && kept@[i].1
                                == u;
                        if i < pre.len() {
                            assert(pairs_has(pre, t, u));
                        } else {
                            assert(kept@[i] == orig[k as int]);
                            assert(orig[k as int].0@ == t && orig[k as int].1 == u && u
                                != User::Liver(liver_uid));
                        }
                    }
                    if exists|i: int|
                        0 <= i < k + 1 && (#[trigger] orig[i]).0@ == t && orig[i].1 == u && u
                            != User::Liver(liver_uid) {
                        let i = choose|i: int|
                            0 <= i < k + 1 && (#[trigger] orig[i]).0@ == t && orig[i].1 == u && u
                                != User::Liver(liver_uid);
                        if i < k {
                            assert(pairs_has(pre, t, u));
                            let w = choose|w: int|
                                0 <= w < pre.len() && (#[trigger] pre[w]).0@ == t && pre[w].1 == u;
                            assert(kept@[w].0@ == t && kept@[w].1 == u);
                        } else {
                            assert(keep);
                            assert(kept@[pre.len() as int].0@ == t);
                        }
                        assert(pairs_has(kept@, t, u));
                    }
                }
            }
            k = k + 1;
        }
        self.users = kept;
        proof {
            assert forall|t: Seq<char>, u: User|
                self.has_pair(t, u) <==> (old(self).has_pair(t, u) && u != User::Liver(
                    liver_uid,
                )) by {
                if self.has_pair(t, u) {
                    let i = choose|i: int|
                        0 <= i < self.rows().len() && (#[trigger] self.rows()[i]).0@ == t
                            && self.rows()[i].1 == u;
                    assert(pairs_has(kept@, t, u));
                    let j = choose|j: int|
                        0 <= j < orig.len() && (#[trigger] orig[j]).0@ == t && orig[j].1 == u && u
                            != User::Liver(liver_uid);
                    assert(old(self).has_pair(t, u));
                }
                if old(self).has_pair(t, u) && u != User::Liver(liver_uid) {
                    let i = choose|i: int|
                        0 <= i < orig.len() && (#[trigger] orig[i]).0@ == t && orig[i].1 == u;
                    assert(0 <= i < orig.len() && orig[i].0@ == t && orig[i].1 == u && u
                        != User::Liver(liver_uid));
                    assert(pairs_has(kept@, t, u));
                    let w = choose|w: int|
                        0 <= w < kept@.len() && (#[trigger] kept@[w]).0@ == t && kept@[w].1 == u;
                    assert(self.rows()[w].0@ == t && self.rows()[w].1 == u);
                }
            }
        }
    }

    /// Issue a fresh token for streamer `liver_uid`, dropping any token the
    /// streamer had first.  The reply carries whether one existed and the
    /// new token; the caller persists the roster and forwards the reply.
    pub fn add_liver(&mut self, liver_uid: i64, _tool: bool) -> (r: Result<TokenInfo, CatalogError>)
        requires
            old(self).wf(),
        ensures
            final(self).wf(),
            liver_uid <= 0 ==> r == Err::<TokenInfo, CatalogError>(CatalogError::InvalidUid)
                && *final(self) == *old(self),
            liver_uid > 0 ==> match r {
                Ok(info) => {
                    &&& info.exist == old(self).spec_has_uid(liver_uid)
                    &&& info.token matches Some(tk) && is_token(tk@) && (forall|
                        t: Seq<char>,
                        u: User,
                    |
                        final(self).has_pair(t, u) <==> ((t == tk@ && u == User::Liver(liver_uid))
                            || (old(self).has_pair(t, u) && u != User::Liver(liver_uid) && t
                            != tk@)))
                },
                Err(_) => false,
            },
    {
        if liver_uid <= 0 {
            return Err(CatalogError::InvalidUid);
        }
        let token = generate_token();
        let exist = self.contains_uid(liver_uid);
        self.remove_liver_tokens(liver_uid);
        let ghost mid = *self;
        let result = self.set_liver_token(token.clone(), liver_uid);
        proof {
            assert(result == Ok::<(), CatalogError>(()));
            assert forall|t: Seq<char>, u: User|
                self.has_pair(t, u) <==> ((t == token@ && u == User::Liver(liver_uid)) || (old(
                    self,
                ).has_pair(t, u) && u != User::Liver(liver_uid) && t != token@)) by {
                assert(self.has_pair(t, u) <==> ((t == token@ && u == User::Liver(liver_uid)) || (
                mid.has_pair(t, u) && t != token@)));
                assert(mid.has_pair(t, u) <==> (old(self).has_pair(t, u) && u != User::Liver(
                    liver_uid,
                )));
            }
        }
        Ok(TokenInfo { exist, token: Some(token) })
    }

    /// Drop every token standing for streamer `liver_uid`.  The reply
    /// carries whether any existed.
    pub fn delete_liver(&mut self, liver_uid: i64, _tool: bool) -> (r: Result<
        TokenInfo,
        CatalogError,
    >)
        requires
            old(self).wf(),
        ensures
            final(self).wf(),
            liver_uid <= 0 ==> r == Err::<TokenInfo, CatalogError>(CatalogError::InvalidUid)
                && *final(self) == *old(self),
            liver_uid > 0 ==> match r {
                Ok(info) => {
                    &&& info.exist == old(self).spec_has_uid(liver_uid)
                    &&& info.token matches None
                    &&& forall|t: Seq<char>, u: User|
                        final(self).has_pair(t, u) <==> (old(self).has_pair(t, u) && u
                            != User::Liver(liver_uid))
                },
                Err(_) => false,
            },
    {
        if liver_uid <= 0 {
            return Err(CatalogError::InvalidUid);
        }
        let exist = self.contains_uid(liver_uid);
        self.remove_liver_tokens(liver_uid);
        Ok(TokenInfo { exist, token: None })
    }

    /// Make sure an admin token exists.  Returns the freshly issued token
    /// if none existed, so the operator can be shown it exactly once; an
    /// existing admin token is never replaced.
    pub fn ensure_admin(&mut self) -> (r: Option<String>)
        requires
            old(self).wf(),
        ensures
            final(self).wf(),
            old(self).spec_has_admin() ==> (r matches None && *final(self) == *old(self)),
            !old(self).spec_has_admin() ==> (r matches Some(tk) && is_token(tk@) && forall|
                t: Seq<char>,
                u: User,
            |
                final(self).has_pair(t, u) <==> ((t == tk@ && u == User::Admin) || (old(
                    self,
                ).has_pair(t, u) && t != tk@))),
    {
        if self.contains_admin_token() {
            None
        } else {
            let token = generate_token();
            self.set_admin_token(token.clone());
            Some(token)
        }
    }
}

/// Whether `rows` holds `token` bound to `user`.
pub open spec fn pairs_has(rows: Seq<(String, User)>, token: Seq<char>, user: User) -> bool {
    exists|i: int|
        0 <= i < rows.len() && (#[trigger] rows[i]).0@ == token && rows[i].1 == user
}

/// Pushing an entry onto a token-unique sequence whose token is fresh keeps
/// it token-unique, and extends the bindings by exactly that entry.
proof fn lemma_pairs_push(rows: Seq<(String, User)>, e: (String, User))
    requires
        tokens_unique(rows),
        !pairs_has_token(rows, e.0@),
    ensures
        tokens_unique(rows.push(e)),
        forall|t: Seq<char>, u: User|
            pairs_has(rows.push(e), t, u) <==> (pairs_has(rows, t, u) || (t == e.0@ && u == e.1)),
{
    let r = rows.push(e);
    assert forall|i: int, j: int|
        0 <= i < j < r.len() implies (#[trigger] r[i]).0@ != (#[trigger] r[j]).0@ by {
        if j == rows.len() {
            assert(r[i] == rows[i]);
            assert(pairs_has_token(rows, rows[i].0@));
        }
    }
    assert forall|t: Seq<char>, u: User|
        pairs_has(r, t, u) <==> (pairs_has(rows, t, u) || (t == e.0@ && u == e.1)) by {
        if pairs_has(r, t, u) {
            let i = choose|i: int| 0 <= i < r.len() && (#[trigger] r[i]).0@ == t && r[i].1 == u;
            if i < rows.len() {
                assert(rows[i].0@ == t && rows[i].1 == u);
            }
        }
        if pairs_has(rows, t, u) {
            let i = choose|i: int|
                0 <= i < rows.len() && (#[trigger] rows[i]).0@ == t && rows[i].1 == u;
            assert(r[i].0@ == t && r[i].1 == u);
        }
        if t == e.0@ && u == e.1 {
            assert(r[rows.len() as int].0@ == t && r[rows.len() as int].1 == u);
        }
    }
}

/// Whether `rows` holds `token` at all.
pub open spec fn pairs_has_token(rows: Seq<(String, User)>, token: Seq<char>) -> bool {
    exists|i: int| 0 <= i < rows.len() && (#[trigger] rows[i]).0@ == token
}

/// Law: issuing a token with `add_liver` keeps the roster holding at most
/// one token per streamer.  Together with `lemma_delete_keeps_uid_unique`
/// this shows that any interleaving of the two mutations, started from a
/// roster with that property, preserves it at every snapshot.
pub proof fn lemma_add_keeps_uid_unique(pre: Config, post: Config, liver_uid: i64, tk: Seq<char>)
    requires
        pre.wf(),
        post.wf(),
        uid_unique(pre.rows()),
        forall|t: Seq<char>, u: User|
            post.has_pair(t, u) <==> ((t == tk && u == User::Liver(liver_uid)) || (pre.has_pair(
                t,
                u,
            ) && u != User::Liver(liver_uid) && t != tk)),
    ensures
        uid_unique(post.rows()),
{
    assert forall|i: int, j: int|
        0 <= i < j < post.rows().len() implies !same_liver(
        (#[trigger] post.rows()[i]).1,
        (#[trigger] post.rows()[j]).1,
    ) by {
        if same_liver(post.rows()[i].1, post.rows()[j].1) {
            let t1 = post.rows()[i].0@;
            let t2 = post.rows()[j].0@;
            let u1 = post.rows()[i].1;
            let u2 = post.rows()[j].1;
            assert(t1 != t2);
            assert(post.has_pair(t1, u1));
            assert(post.has_pair(t2, u2));
            let x = u1->Liver_0;
            assert(u1 == User::Liver(x) && u2 == User::Liver(x));
            if u1 != User::Liver(liver_uid) && u2 != User::Liver(liver_uid) {
                // both bindings predate the mutation: two tokens for one
                // streamer already stood in the old roster
                let a = choose|a: int|
                    0 <= a < pre.rows().len() && (#[trigger] pre.rows()[a]).0@ == t1
                        && pre.rows()[a].1 == u1;
                let b = choose|b: int|
                    0 <= b < pre.rows().len() && (#[trigger] pre.rows()[b]).0@ == t2
                        && pre.rows()[b].1 == u2;
                assert(a != b);
                assert(same_liver(pre.rows()[a].1, pre.rows()[b].1));
            } else {
                // one binding is the fresh token: the other would be an old
                // binding of the same streamer, which the mutation dropped
                assert(x == liver_uid);
                assert(t1 == tk <==> !(t2 == tk));
            }
        }
    }
}

/// Law: dropping a streamer's tokens with `delete_liver` keeps the roster
/// holding at most one token per streamer.
pub proof fn lemma_delete_keeps_uid_unique(pre: Config, post: Config, liver_uid: i64)
    requires
        pre.wf(),
        post.wf(),
        uid_unique(pre.rows()),
        forall|t: Seq<char>, u: User|
            post.has_pair(t, u) <==> (pre.has_pair(t, u) && u != User::Liver(liver_uid)),
    ensures
        uid_unique(post.rows()),
{
    assert forall|i: int, j: int|
        0 <= i < j < post.rows().len() implies !same_liver(
        (#[trigger] post.rows()[i]).1,
        (#[trigger] post.rows()[j]).1,
    ) by {
        if same_liver(post.rows()[i].1, post.rows()[j].1) {
            let t1 = post.rows()[i].0@;
            let t2 = post.rows()[j].0@;
            let u1 = post.rows()[i].1;
            let u2 = post.rows()[j].1;
            assert(t1 != t2);
            assert(post.has_pair(t1, u1));
            assert(post.has_pair(t2, u2));
            let a = choose|a: int|
                0 <= a < pre.rows().len() && (#[trigger] pre.rows()[a]).0@ == t1 && pre.rows()[a].1
                    == u1;
            let b = choose|b: int|
                0 <= b < pre.rows().len() && (#[trigger] pre.rows()[b]).0@ == t2 && pre.rows()[b].1
                    == u2;
            assert(a != b);
            assert(same_liver(pre.rows()[a].1, pre.rows()[b].1));
        }
    }
}

/// Removing a position from a token-unique sequence keeps it token-unique
/// and drops exactly that binding.
proof fn lemma_pairs_remove(rows: Seq<(String, User)>, p: int)
    requires
        0 <= p < rows.len(),
        tokens_unique(rows),
    ensures
        tokens_unique(rows.remove(p)),
        forall|t: Seq<char>, u: User|
            pairs_has(rows.remove(p), t, u) <==> (pairs_has(rows, t, u) && t != rows[p].0@),
{
    let r = rows.remove(p);
    assert forall|i: int, j: int|
        0 <= i < j < r.len() implies (#[trigger] r[i]).0@ != (#[trigger] r[j]).0@ by {
        assert(r[i] == if i < p {
            rows[i]
        } else {
            rows[i + 1]
        });
        assert(r[j] == if j < p {
            rows[j]
        } else {
            rows[j + 1]
        });
    }
    assert forall|t: Seq<char>, u: User|
        pairs_has(r, t, u) <==> (pairs_has(rows, t, u) && t != rows[p].0@) by {
        if pairs_has(r, t, u) {
            let i = choose|i: int| 0 <= i < r.len() && (#[trigger] r[i]).0@ == t && r[i].1 == u;
            if i < p {
                assert(rows[i].0@ == t && rows[i].1 == u);
            } else {
                assert(rows[i + 1].0@ == t && rows[i + 1].1 == u);
            }
        }
        if pairs_has(rows, t, u) && t != rows[p].0@ {
            let i = choose|i: int|
                0 <= i < rows.len() && (#[trigger] rows[i]).0@ == t && rows[i].1 == u;
            if i < p {
                assert(r[i].0@ == t && r[i].1 == u);
            } else {
                assert(r[i - 1].0@ == t && r[i - 1].1 == u);
            }
        }
    }
}

} // verus!
