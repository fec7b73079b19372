//! The global catalog writer: one row per discovered stream, inserted
//! when first seen and completed with its final duration and counts when
//! the stream's summary is confirmed.

use vstd::prelude::*;

use crate::data::{Live, SummaryData};
use crate::live::AllLiveData;
use crate::table::{has_key, keys_unique, lemma_key_push};
use crate::text::str_eq;

verus! {

/// The key of the catalog table: one row per session.
pub open spec fn live_key() -> spec_fn(Live) -> Seq<char> {
    |r: Live| r.live_id@
}

/// One catalog row after a confirmed end-of-stream aggregate.
pub open spec fn spec_close_live(r: Live, s: SummaryData) -> Live {
    Live {
        duration: Some(s.live_duration_ms),
        like_count: Some(s.like_count),
        watch_count: Some(s.watch_count),
        ..r
    }
}

/// The global `live` table, unique by session.
pub struct CatalogStore {
    lives: Vec<Live>,
}

impl CatalogStore {
    pub closed spec fn rows(&self) -> Seq<Live> {
        self.lives@
    }

    pub open spec fn wf(&self) -> bool {
        keys_unique(self.rows(), live_key())
    }

    pub fn new() -> (r: CatalogStore)
        ensures
            r.wf(),
            r.rows().len() == 0,
    {
        CatalogStore { lives: Vec::new() }
    }

    /// How many rows the catalog holds.
    pub fn len(&self) -> (r: usize)
        ensures
            r == self.rows().len(),
    {
        self.lives.len()
    }

    /// The final duration recorded for a session, if its row is closed.
    pub fn duration_of(&self, live_id: &str) -> (r: Option<i64>)
        ensures
            match r {
                Some(d) => exists|i: int|
                    0 <= i < self.rows().len() && (#[trigger] self.rows()[i]).live_id@ == live_id@
                        && self.rows()[i].duration == Some(d),
                None => true,
            },
    {
        let mut k: usize = 0;
        while k < self.lives.len()
            invariant
                k <= self.lives@.len(),
            decreases self.lives@.len() - k,
        {
            if str_eq(self.lives[k].live_id.as_str(), live_id) {
                proof {
                    assert(self.rows()[k as int].live_id@ == live_id@);
                }
                return match self.lives[k].duration {
                    Some(d) => Some(d),
                    None => None,
                };
            }
            k = k + 1;
        }
        None
    }

    /// Apply one row bound for the catalog: a discovery inserts unless the
    /// session already has a row, a confirmed summary completes every row
    /// of its session.
    pub fn apply(&mut self, data: AllLiveData)
        requires
            old(self).wf(),
        ensures
            final(self).wf(),
            match data {
                AllLiveData::Live(live) => (if has_key(
                    old(self).rows(),
                    live_key(),
                    live.live_id@,
                ) {
                    final(self).rows() == old(self).rows()
                } else {
                    final(self).rows() == old(self).rows().push(live)
                }),
                AllLiveData::Summary(live_id, s) => {
                    &&& final(self).rows().len() == old(self).rows().len()
                    &&& forall|i: int|
                        0 <= i < old(self).rows().len()
                            ==> #[trigger] final(self).rows()[i] == (if old(
                            self,
                        ).rows()[i].live_id@ == live_id@ {
                            spec_close_live(old(self).rows()[i], s)
                        } else {
                            old(self).rows()[i]
                        })
                },
            },
    {
        match data {
            AllLiveData::Live(live) => {
                let ghost pre = self.lives@;
                let seen = self.has_live(live.live_id.as_str());
                if !seen {
                    proof {
                        lemma_key_push(pre, live, live_key());
                    }
                    self.lives.push(live);
                }
            },
            AllLiveData::Summary(live_id, s) => {
                let ghost orig = self.lives@;
                let mut out: Vec<Live> = Vec::new();
                let mut k: usize = 0;
                while k < self.lives.len()
                    invariant
                        k <= orig.len(),
                        self.lives@ == orig,
                        out@.len() == k,
                        forall|i: int|
                            0 <= i < k ==> #[trigger] out@[i] == (if orig[i].live_id@ == live_id@ {
                                spec_close_live(orig[i], s)
                            } else {
                                orig[i]
                            }),
                    decreases orig.len() - k,
                {
                    let row = &self.lives[k];
                    if str_eq(row.live_id.as_str(), live_id.as_str()) {
                        out.push(
                            Live {
                                live_id: row.live_id.clone(),
                                liver_uid: row.liver_uid,
                                nickname: row.nickname.clone(),
                                stream_name: row.stream_name.clone(),
                                start_time: row.start_time,
                                title: crate::data::clone_opt_string(&row.title),
                                live_type: clone_live_type_opt(&row.live_type),
                                portrait: row.portrait,
                                panoramic: row.panoramic,
                                disable_danmaku_show: row.disable_danmaku_show,
                                duration: Some(s.live_duration_ms),
                                like_count: Some(s.like_count.clone()),
                                watch_count: Some(s.watch_count.clone()),
                            },
                        );
                    } else {
                        out.push(
                            Live {
                                live_id: row.live_id.clone(),
                                liver_uid: row.liver_uid,
                                nickname: row.nickname.clone(),
                                stream_name: row.stream_name.clone(),
                                start_time: row.start_time,
                                title: crate::data::clone_opt_string(&row.title),
                                live_type: clone_live_type_opt(&row.live_type),
                                portrait: row.portrait,
                                panoramic: row.panoramic,
                                disable_danmaku_show: row.disable_danmaku_show,
                                duration: row.duration,
                                like_count: crate::data::clone_opt_string(&row.like_count),
                                watch_count: crate::data::clone_opt_string(&row.watch_count),
                            },
                        );
                    }
                    k = k + 1;
                }
                self.lives = out;
                proof {
                    assert forall|i: int, j: int|
                        0 <= i < j < self.lives@.len() implies live_key()(
                        #[trigger] self.lives@[i],
                    ) != live_key()(#[trigger] self.lives@[j]) by {
                        assert(self.lives@[i].live_id@ == orig[i].live_id@);
                        assert(self.lives@[j].live_id@ == orig[j].live_id@);
                        assert(live_key()(orig[i]) != live_key()(orig[j]));
                    }
                }
            },
        }
    }

    fn has_live(&self, live_id: &str) -> (r: bool)
        ensures
            r == has_key(self.rows(), live_key(), live_id@),
    {
        let mut k: usize = 0;
        while k < self.lives.len()
            invariant
                k <= self.lives@.len(),
                forall|i: int| 0 <= i < k ==> (#[trigger] self.lives@[i]).live_id@ != live_id@,
            decreases self.lives@.len() - k,
        {
            if str_eq(self.lives[k].live_id.as_str(), live_id) {
                proof {
                    assert(live_key()(self.lives@[k as int]) == live_id@);
                }
                return true;
            }
            k = k + 1;
        }
        proof {
            if has_key(self.rows(), live_key(), live_id@) {
                let i = choose|i: int|
                    0 <= i < self.rows().len() && live_key()(#[trigger] self.rows()[i]) == live_id@;
                assert(self.rows()[i].live_id@ == live_id@);
            }
        }
        false
    }
}

fn clone_live_type_opt(o: &Option<crate::data::LiveType>) -> (r: Option<crate::data::LiveType>)
    ensures
        r == *o,
{
    match o {
        Some(t) => Some(
            crate::data::LiveType {
                id: t.id,
                name: t.name.clone(),
                category_id: t.category_id,
                category_name: t.category_name.clone(),
            },
        ),
        None => None,
    }
}

} // verus!
