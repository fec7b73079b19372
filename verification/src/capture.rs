//! The data-center's opt-in set: the streamers whose live signals are
//! recorded.  Only mutations coming in as messages touch it; every
//! mutation is persisted by the caller right after it returns.

use vstd::prelude::*;

use crate::message::ToolMessage;

verus! {

/// The capture set.  Mirrors an on-disk encrypted set of streamer uids;
/// the persistence envelope lives outside this crate.
pub struct Config {
    livers: Vec<i64>,
}

impl Config {
    /// The uids in the set, as a sequence free of duplicates.
    pub closed spec fn view(&self) -> Seq<i64> {
        self.livers@
    }

    /// The set holds each uid at most once.
    pub closed spec fn wf(&self) -> bool {
        forall|i: int, j: int|
            0 <= i < j < self.livers@.len() ==> self.livers@[i] != self.livers@[j]
    }

    /// Whether `liver_uid` is opted in.
    pub open spec fn spec_contains(&self, liver_uid: i64) -> bool {
        self.view().contains(liver_uid)
    }

    pub fn new() -> (r: Self)
        ensures
            r.wf(),
            r.view() == Seq::<i64>::empty(),
    {
        Config { livers: Vec::new() }
    }

    /// Rebuild the set from a loaded list of uids, dropping duplicates.
    pub fn from_list(list: &Vec<i64>) -> (r: Self)
        ensures
            r.wf(),
            forall|u: i64| r.spec_contains(u) <==> list@.contains(u),
    {
        let mut config = Config::new();
        let mut k: usize = 0;
        while k < list.len()
            invariant
                k <= list@.len(),
                config.wf(),
                forall|u: i64|
                    config.spec_contains(u) <==> exists|i: int| 0 <= i < k && list@[i] == u,
            decreases list@.len() - k,
        {
            let uid = list[k];
            let ghost pre = config;
            if !config.contains(uid) {
                config.livers.push(uid);
                proof {
                    lemma_push_keeps_unique(pre.livers@, uid);
                }
            }
            proof {
                assert forall|u: i64|
                    config.spec_contains(u) <==> exists|i: int|
                        0 <= i < k + 1 && list@[i] == u by {
                    lemma_push_contains(pre.livers@, uid, u);
                    if config.spec_contains(u) {
                        if pre.spec_contains(u) {
                            let i = choose|i: int| 0 <= i < k && list@[i] == u;
                            assert(0 <= i < k + 1 && list@[i] == u);
                        } else {
                            assert(u == uid);
                            assert(0 <= k < k + 1 && list@[k as int] == u);
                        }
                    }
                    if exists|i: int| 0 <= i < k + 1 && list@[i] == u {
                        let i = choose|i: int| 0 <= i < k + 1 && list@[i] == u;
                        if i < k {
                            assert(pre.spec_contains(u));
                        } else {
                            assert(u == uid);
                        }
                        assert(config.spec_contains(u));
                    }
                }
            }
            k = k + 1;
        }
        proof {
            assert forall|u: i64| config.spec_contains(u) <==> list@.contains(u) by {
                if list@.contains(u) {
                    let i = choose|i: int| 0 <= i < list@.len() && list@[i] == u;
                    assert(exists|i: int| 0 <= i < list@.len() && list@[i] == u);
                }
            }
        }
        config
    }

    /// The uids as a list, for the persistence layer outside this crate.
    pub fn to_list(&self) -> (r: Vec<i64>)
        ensures
            r@ == self.view(),
    {
        let mut out: Vec<i64> = Vec::new();
        let mut k: usize = 0;
        while k < self.livers.len()
            invariant
                k <= self.livers@.len(),
                out@ == self.livers@.subrange(0, k as int),
            decreases self.livers@.len() - k,
        {
            out.push(self.livers[k]);
            k = k + 1;
        }
        proof {
            assert(self.livers@.subrange(0, self.livers@.len() as int) == self.livers@);
        }
        out
    }

    /// Whether `liver_uid` is opted in.
    pub fn contains(&self, liver_uid: i64) -> (r: bool)
        ensures
            r == self.spec_contains(liver_uid),
    {
        self.find_uid(liver_uid).is_some()
    }

    /// Where `liver_uid` stands in the backing list, if anywhere.
    fn find_uid(&self, liver_uid: i64) -> (r: Option<usize>)
        ensures
            match r {
                Some(i) => i < self.livers@.len() && self.livers@[i as int] == liver_uid,
                None => !self.spec_contains(liver_uid),
            },
    {
        let mut k: usize = 0;
        while k < self.livers.len()
            invariant
                k <= self.livers@.len(),
                forall|i: int| 0 <= i < k ==> self.livers@[i] != liver_uid,
            decreases self.livers@.len() - k,
        {
            if self.livers[k] == liver_uid {
                return Some(k);
            }
            k = k + 1;
        }
        None
    }

    /// Opt a streamer in.  A non-positive uid is rejected and nothing
    /// changes.  The reply for the tool is returned instead of sent: it
    /// carries whether the uid was already present.
    pub fn add_liver(&mut self, liver_uid: i64, tool: bool) -> (r: Option<ToolMessage>)
        requires
            old(self).wf(),
        ensures
            final(self).wf(),
            liver_uid <= 0 ==> final(self).view() == old(self).view(),
            liver_uid > 0 ==> forall|u: i64|
                final(self).spec_contains(u) <==> old(self).spec_contains(u) || u == liver_uid,
            r == (if liver_uid > 0 && tool {
                Some(ToolMessage::DataCenterAddLiver(liver_uid, old(self).spec_contains(liver_uid)))
            } else {
                None::<ToolMessage>
            }),
    {
        if liver_uid <= 0 {
            return None;
        }
        let preexisting = self.contains(liver_uid);
        if !preexisting {
            let ghost pre = self.livers@;
            self.livers.push(liver_uid);
            proof {
                lemma_push_keeps_unique(pre, liver_uid);
                assert forall|u: i64|
                    self.spec_contains(u) <==> pre.contains(u) || u == liver_uid by {
                    lemma_push_contains(pre, liver_uid, u);
                }
            }
        }
        if tool {
            Some(ToolMessage::DataCenterAddLiver(liver_uid, preexisting))
        } else {
            None
        }
    }

    /// Opt a streamer out.  A non-positive uid is rejected and nothing
    /// changes.  The reply for the tool carries whether the uid was
    /// present.
    pub fn delete_liver(&mut self, liver_uid: i64, tool: bool) -> (r: Option<ToolMessage>)
        requires
            old(self).wf(),
        ensures
            final(self).wf(),
            liver_uid <= 0 ==> final(self).view() == old(self).view(),
            liver_uid > 0 ==> forall|u: i64|
                final(self).spec_contains(u) <==> old(self).spec_contains(u) && u != liver_uid,
            r == (if liver_uid > 0 && tool {
                Some(
                    ToolMessage::DataCenterDeleteLiver(
                        liver_uid,
                        old(self).spec_contains(liver_uid),
                    ),
                )
            } else {
                None::<ToolMessage>
            }),
    {
        if liver_uid <= 0 {
            return None;
        }
        let found = self.find_uid(liver_uid);
        let preexisting = match found {
            Some(i) => {
                let ghost pre = self.livers@;
                let _ = self.livers.remove(i);
                proof {
                    lemma_remove_keeps_unique(pre, i as int);
                    assert forall|u: i64|
                        self.spec_contains(u) <==> pre.contains(u) && u != liver_uid by {
                        lemma_remove_contains(pre, i as int, u);
                    }
                    assert(pre.contains(liver_uid));
                }
                true
            },
            None => {
                proof {
                    assert forall|u: i64|
                        self.spec_contains(u) <==> old(self).spec_contains(u) && u
                            != liver_uid by {}
                }
                false
            },
        };
        if tool {
            Some(ToolMessage::DataCenterDeleteLiver(liver_uid, preexisting))
        } else {
            None
        }
    }
}

/// Pushing an element onto a sequence extends what it contains by exactly
/// that element.
pub proof fn lemma_push_contains(s: Seq<i64>, x: i64, u: i64)
    ensures
        s.push(x).contains(u) <==> s.contains(u) || u == x,
{
    if s.push(x).contains(u) {
        let i = choose|i: int| 0 <= i < s.push(x).len() && s.push(x)[i] == u;
        if i < s.len() {
            assert(s[i] == u);
        }
    }
    if s.contains(u) {
        let i = choose|i: int| 0 <= i < s.len() && s[i] == u;
        assert(s.push(x)[i] == u);
    }
    if u == x {
        assert(s.push(x)[s.len() as int] == u);
    }
}

/// Pushing an element that is not yet present keeps a sequence free of
/// duplicates.
pub proof fn lemma_push_keeps_unique(s: Seq<i64>, x: i64)
    requires
        forall|i: int, j: int| 0 <= i < j < s.len() ==> s[i] != s[j],
        !s.contains(x),
    ensures
        forall|i: int, j: int| 0 <= i < j < s.push(x).len() ==> s.push(x)[i] != s.push(x)[j],
{
    assert forall|i: int, j: int|
        0 <= i < j < s.push(x).len() implies s.push(x)[i] != s.push(x)[j] by {
        if j < s.len() {
        } else {
            assert(s.push(x)[i] == s[i]);
            assert(s.contains(s[i]));
        }
    }
}

/// Removing a position keeps a sequence free of duplicates.
pub proof fn lemma_remove_keeps_unique(s: Seq<i64>, p: int)
    requires
        0 <= p < s.len(),
        forall|i: int, j: int| 0 <= i < j < s.len() ==> s[i] != s[j],
    ensures
        forall|i: int, j: int|
            0 <= i < j < s.remove(p).len() ==> s.remove(p)[i] != s.remove(p)[j],
{
    let r = s.remove(p);
    assert forall|i: int, j: int| 0 <= i < j < r.len() implies r[i] != r[j] by {
        assert(r[i] == if i < p {
            s[i]
        } else {
            s[i + 1]
        });
        assert(r[j] == if j < p {
            s[j]
        } else {
            s[j + 1]
        });
    }
}

/// Removing position `p` from a duplicate-free sequence removes exactly the
/// element that stood there.
pub proof fn lemma_remove_contains(s: Seq<i64>, p: int, u: i64)
    requires
        0 <= p < s.len(),
        forall|i: int, j: int| 0 <= i < j < s.len() ==> s[i] != s[j],
    ensures
        s.remove(p).contains(u) <==> s.contains(u) && u != s[p],
{
    let r = s.remove(p);
    if r.contains(u) {
        let i = choose|i: int| 0 <= i < r.len() && r[i] == u;
        if i < p {
            assert(s[i] == u);
        } else {
            assert(s[i + 1] == u);
        }
    }
    if s.contains(u) && u != s[p] {
        let i = choose|i: int| 0 <= i < s.len() && s[i] == u;
        if i < p {
            assert(r[i] == u);
        } else {
            assert(r[i - 1] == u);
        }
    }
}

} // verus!
