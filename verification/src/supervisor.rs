//! The supervisor of the ingest pipeline: it consumes the discovery
//! loop's live lists and the stop notices of its own tasks, keeps the
//! sets of known, recorded and summarizing streams, and decides which
//! tasks the runtime must start and which rows it must emit.

use vstd::prelude::*;

use crate::capture;
use crate::data::{LiveId, StreamData, StreamerProfile, Title};
use crate::live::{
    entry_captured, entry_id, last_captured_title, list_has_captured_id, list_has_id, Action,
    ActiveEntry, LiveListEntry, LiveMessage,
};
use crate::message::{DataCenterMessage, ToolMessage};
use crate::table::{has_key, keys_unique, lemma_key_push};
use crate::text::str_eq;
use crate::writer::opt_text_same;

verus! {

/// The key of a plain session-id list.
pub open spec fn id_key() -> spec_fn(String) -> Seq<char> {
    |s: String| s@
}

/// The key of the active-stream list.
pub open spec fn active_key() -> spec_fn(ActiveEntry) -> Seq<char> {
    |e: ActiveEntry| e.live_id@
}

/// The title stored for a session, scanning from the most recent entry.
pub open spec fn active_title(s: Seq<ActiveEntry>, id: Seq<char>) -> Option<Option<String>>
    decreases s.len(),
{
    if s.len() == 0 {
        None
    } else if s.last().live_id@ == id {
        Some(s.last().title)
    } else {
        active_title(s.drop_last(), id)
    }
}

/// The supervisor's state: every stream the discovery loop has reported
/// in its current epoch, the streams whose summary finalizer runs, the
/// streams being recorded with their last seen title, and the capture
/// set.
pub struct Supervisor {
    all_lives: Vec<String>,
    all_summaries: Vec<String>,
    lives: Vec<ActiveEntry>,
    config: capture::Config,
}

impl Supervisor {
    pub closed spec fn known(&self) -> Seq<String> {
        self.all_lives@
    }

    pub closed spec fn summarizing(&self) -> Seq<String> {
        self.all_summaries@
    }

    pub closed spec fn active(&self) -> Seq<ActiveEntry> {
        self.lives@
    }

    pub closed spec fn capture(&self) -> Seq<i64> {
        self.config.view()
    }

    /// Each set holds a session at most once, and the capture set is
    /// duplicate-free.
    pub closed spec fn wf(&self) -> bool {
        &&& keys_unique(self.known(), id_key())
        &&& keys_unique(self.summarizing(), id_key())
        &&& keys_unique(self.active(), active_key())
        &&& self.config.wf()
    }

    /// Start supervising with the loaded capture set.
    pub fn new(config: capture::Config) -> (r: Supervisor)
        requires
            config.wf(),
        ensures
            r.wf(),
            r.known().len() == 0,
            r.summarizing().len() == 0,
            r.active().len() == 0,
            r.capture() == config.view(),
    {
        Supervisor {
            all_lives: Vec::new(),
            all_summaries: Vec::new(),
            lives: Vec::new(),
            config,
        }
    }

    /// Whether a session is being recorded.
    pub fn is_active(&self, live_id: &str) -> (r: bool)
        ensures
            r == has_key(self.active(), active_key(), live_id@),
    {
        let mut k: usize = 0;
        while k < self.lives.len()
            invariant
                k <= self.lives@.len(),
                forall|i: int| 0 <= i < k ==> (#[trigger] self.lives@[i]).live_id@ != live_id@,
            decreases self.lives@.len() - k,
        {
            if str_eq(self.lives[k].live_id.as_str(), live_id) {
                proof {
                    assert(active_key()(self.lives@[k as int]) == live_id@);
                }
                return true;
            }
            k = k + 1;
        }
        proof {
            if has_key(self.active(), active_key(), live_id@) {
                let i = choose|i: int|
                    0 <= i < self.lives@.len() && active_key()(#[trigger] self.lives@[i])
                        == live_id@;
                assert(self.lives@[i].live_id@ == live_id@);
            }
        }
        false
    }



    /// The capture set as a list, for the persistence layer outside this
    /// crate.
    pub fn capture_list(&self) -> (r: Vec<i64>)
        ensures
            r@ == self.capture(),
    {
        self.config.to_list()
    }

    /// Whether a session's summary finalizer is running.
    pub fn is_summarizing(&self, live_id: &str) -> (r: bool)
        ensures
            r == has_key(self.summarizing(), id_key(), live_id@),
    {
        ids_contain(&self.all_summaries, live_id)
    }

    /// A stream's recording stopped: forget it.  Returns whether it was
    /// being recorded (a stop for an unknown stream is only worth a
    /// warning).
    pub fn handle_stop_danmaku(&mut self, live_id: &str) -> (r: bool)
        requires
            old(self).wf(),
        ensures
            final(self).wf(),
            r == has_key(old(self).active(), active_key(), live_id@),
            keys_unique(final(self).active(), active_key()),
            forall|id: Seq<char>|
                has_key(final(self).active(), active_key(), id) <==> (has_key(
                    old(self).active(),
                    active_key(),
                    id,
                ) && id != live_id@),
            final(self).known() == old(self).known(),
            final(self).summarizing() == old(self).summarizing(),
            final(self).capture() == old(self).capture(),
    {
        let ghost orig = self.lives@;
        let mut k: usize = 0;
        while k < self.lives.len()
            invariant
                old(self).wf(),
                self.lives@ == orig,
                orig == old(self).lives@,
                k <= orig.len(),
                forall|i: int| 0 <= i < k ==> (#[trigger] orig[i]).live_id@ != live_id@,
                self.all_lives@ == old(self).all_lives@,
                self.all_summaries@ == old(self).all_summaries@,
                self.config == old(self).config,
            decreases orig.len() - k,
        {
            if str_eq(self.lives[k].live_id.as_str(), live_id) {
                let _ = self.lives.remove(k);
                proof {
                    lemma_active_remove(orig, k as int);
                    assert(active_key()(orig[k as int]) == live_id@);
                }
                return true;
            }
            k = k + 1;
        }
        proof {
            if has_key(self.active(), active_key(), live_id@) {
                let i = choose|i: int|
                    0 <= i < orig.len() && active_key()(#[trigger] orig[i]) == live_id@;
                assert(orig[i].live_id@ == live_id@);
            }
        }
        false
    }

    /// A stream's summary finalizer finished: forget it.  Returns whether
    /// one was running.
    pub fn handle_stop_summary(&mut self, live_id: &str) -> (r: bool)
        requires
            old(self).wf(),
        ensures
            final(self).wf(),
            r == has_key(old(self).summarizing(), id_key(), live_id@),
            forall|id: Seq<char>|
                has_key(final(self).summarizing(), id_key(), id) <==> (has_key(
                    old(self).summarizing(),
                    id_key(),
                    id,
                ) && id != live_id@),
            final(self).known() == old(self).known(),
            final(self).active() == old(self).active(),
            final(self).capture() == old(self).capture(),
    {
        let ghost orig = self.all_summaries@;
        let mut k: usize = 0;
        while k < self.all_summaries.len()
            invariant
                old(self).wf(),
                self.all_summaries@ == orig,
                orig == old(self).all_summaries@,
                k <= orig.len(),
                forall|i: int| 0 <= i < k ==> (#[trigger] orig[i])@ != live_id@,
                self.all_lives@ == old(self).all_lives@,
                self.lives@ == old(self).lives@,
                self.config == old(self).config,
            decreases orig.len() - k,
        {
            if str_eq(self.all_summaries[k].as_str(), live_id) {
                let _ = self.all_summaries.remove(k);
                proof {
                    lemma_id_remove(orig, k as int);
                    assert(id_key()(orig[k as int]) == live_id@);
                }
                return true;
            }
            k = k + 1;
        }
        proof {
            if has_key(self.summarizing(), id_key(), live_id@) {
                let i = choose|i: int|
                    0 <= i < orig.len() && id_key()(#[trigger] orig[i]) == live_id@;
                assert(orig[i]@ == live_id@);
            }
        }
        false
    }


    /// Where a session stands in the active list, if anywhere.
    fn find_active(&self, live_id: &str) -> (r: Option<usize>)
        ensures
            match r {
                Some(i) => i < self.active().len() && self.active()[i as int].live_id@ == live_id@,
                None => !has_key(self.active(), active_key(), live_id@),
            },
    {
        let mut k: usize = 0;
        while k < self.lives.len()
            invariant
                k <= self.lives@.len(),
                forall|i: int| 0 <= i < k ==> (#[trigger] self.lives@[i]).live_id@ != live_id@,
            decreases self.lives@.len() - k,
        {
            if str_eq(self.lives[k].live_id.as_str(), live_id) {
                return Some(k);
            }
            k = k + 1;
        }
        proof {
            if has_key(self.active(), active_key(), live_id@) {
                let i = choose|i: int|
                    0 <= i < self.lives@.len() && active_key()(#[trigger] self.lives@[i])
                        == live_id@;
                assert(self.lives@[i].live_id@ == live_id@);
            }
        }
        None
    }

    /// The session ids of one list, each once, in order of first report.
    #[verifier::spinoff_prover]
    fn collect_ids(list: &Vec<LiveListEntry>) -> (r: Vec<String>)
        ensures
            keys_unique(r@, id_key()),
            forall|id: Seq<char>| has_key(r@, id_key(), id) <==> list_has_id(list@, id),
    {
        let mut ids: Vec<String> = Vec::new();
        let mut k: usize = 0;
        while k < list.len()
            invariant
                k <= list@.len(),
                keys_unique(ids@, id_key()),
                forall|id: Seq<char>|
                    has_key(ids@, id_key(), id) <==> (exists|i: int|
                        0 <= i < k && entry_id(#[trigger] list@[i]) == Some(id)),
            decreases list@.len() - k,
        {
            let ghost pre = ids@;
            match &list[k].live_data {
                Some(d) => {
                    if !ids_contain(&ids, d.live_id.as_str()) {
                        proof {
                            lemma_key_push(pre, d.live_id, id_key());
                        }
                        ids.push(d.live_id.clone());
                    }
                },
                None => {},
            }
            proof {
                assert forall|id: Seq<char>|
                    has_key(ids@, id_key(), id) <==> (exists|i: int|
                        0 <= i < k + 1 && entry_id(#[trigger] list@[i]) == Some(id)) by {
                    if has_key(ids@, id_key(), id) {
                        if has_key(pre, id_key(), id) {
                            let i = choose|i: int|
                                0 <= i < k && entry_id(#[trigger] list@[i]) == Some(id);
                            assert(0 <= i < k + 1 && entry_id(list@[i]) == Some(id));
                        } else {
                            assert(entry_id(list@[k as int]) == Some(id));
                        }
                    }
                    if exists|i: int| 0 <= i < k + 1 && entry_id(#[trigger] list@[i]) == Some(id) {
                        let i = choose|i: int|
                            0 <= i < k + 1 && entry_id(#[trigger] list@[i]) == Some(id);
                        if i < k {
                            assert(has_key(pre, id_key(), id));
                            let w = choose|w: int|
                                0 <= w < pre.len() && id_key()(#[trigger] pre[w]) == id;
                            assert(id_key()(ids@[w]) == id);
                        } else {
                            match list@[k as int].live_data {
                                Some(d) => {
                                    if has_key(pre, id_key(), d.live_id@) {
                                        let w = choose|w: int|
                                            0 <= w < pre.len() && id_key()(#[trigger] pre[w])
                                                == d.live_id@;
                                        assert(id_key()(ids@[w]) == id);
                                    } else {
                                        assert(id_key()(ids@[ids@.len() - 1]) == id);
                                    }
                                },
                                None => {},
                            }
                        }
                        assert(has_key(ids@, id_key(), id));
                    }
                }
            }
            k = k + 1;
        }
        proof {
            assert forall|id: Seq<char>|
                has_key(ids@, id_key(), id) <==> list_has_id(list@, id) by {}
        }
        ids
    }

    /// The catalog rows and gift fetches for every stream not seen this
    /// epoch.
    #[verifier::spinoff_prover]
    fn discovery_actions(&self, list: &Vec<LiveListEntry>) -> (r: Vec<Action>)
        ensures
            forall|i: int|
                0 <= i < list@.len() && is_new_entry(#[trigger] list@[i], self.known())
                    ==> discovery_covered(r@, list@[i]),
            forall|k: int|
                0 <= k < r@.len() ==> discovery_action_ok(#[trigger] r@[k], list@, self.known()),
    {
        let mut acts: Vec<Action> = Vec::new();
        let mut k: usize = 0;
        while k < list.len()
            invariant
                k <= list@.len(),
                forall|i: int|
                    0 <= i < k && is_new_entry(#[trigger] list@[i], self.known())
                        ==> discovery_covered(acts@, list@[i]),
                forall|w: int|
                    0 <= w < acts@.len() ==> discovery_action_ok(
                        #[trigger] acts@[w],
                        list@,
                        self.known(),
                    ),
            decreases list@.len() - k,
        {
            let ghost pre = acts@;
            let e = &list[k];
            match &e.live_data {
                Some(d) => {
                    if !ids_contain(&self.all_lives, d.live_id.as_str()) {
                        let row = crate::data::Live::new(e.author_id, d, &e.user);
                        acts.push(Action::EmitLive(row));
                        acts.push(Action::FetchGiftList(d.live_id.clone()));
                        proof {
                            assert(is_new_entry(list@[k as int], self.known()));
                            assert(acts@[pre.len() as int] matches Action::EmitLive(l)
                                && live_matches_entry(l, list@[k as int]));
                            assert(acts@[pre.len() as int + 1] matches Action::FetchGiftList(lid)
                                && entry_id(list@[k as int]) == Some(lid@));
                        }
                    }
                },
                None => {},
            }
            proof {
                assert forall|i: int|
                    0 <= i < k + 1 && is_new_entry(#[trigger] list@[i], self.known())
                        implies discovery_covered(acts@, list@[i]) by {
                    if i < k {
                        assert(discovery_covered(pre, list@[i]));
                        let w1 = choose|w: int|
                            0 <= w < pre.len() && ((#[trigger] pre[w]) matches Action::EmitLive(l)
                                && live_matches_entry(l, list@[i]));
                        let w2 = choose|w: int|
                            0 <= w < pre.len() && ((#[trigger] pre[w])
                                matches Action::FetchGiftList(lid) && entry_id(list@[i]) == Some(
                                lid@,
                            ));
                        assert(acts@[w1] == pre[w1]);
                        assert(acts@[w2] == pre[w2]);
                    }
                }
                assert forall|w: int|
                    0 <= w < acts@.len() implies discovery_action_ok(
                    #[trigger] acts@[w],
                    list@,
                    self.known(),
                ) by {
                    if w < pre.len() {
                        assert(acts@[w] == pre[w]);
                    }
                }
            }
            k = k + 1;
        }
        acts
    }

    /// The streams that left the discovered set start their summary
    /// finalizers, unless one already runs.
    #[verifier::spinoff_prover]
    fn finalize_departed(&mut self, old_known: &Vec<String>) -> (r: Vec<Action>)
        requires
            old(self).wf(),
        ensures
            final(self).wf(),
            final(self).known() == old(self).known(),
            final(self).active() == old(self).active(),
            final(self).capture() == old(self).capture(),
            forall|id: Seq<char>|
                #![trigger has_key(final(self).summarizing(), id_key(), id)]
                has_key(final(self).summarizing(), id_key(), id) <==> (has_key(
                    old(self).summarizing(),
                    id_key(),
                    id,
                ) || (has_key(old_known@, id_key(), id) && !has_key(old(self).known(), id_key(), id))),
            forall|id: Seq<char>|
                has_key(old_known@, id_key(), id) && !has_key(old(self).known(), id_key(), id)
                    && !has_key(old(self).summarizing(), id_key(), id) ==> (exists|k: int|
                    0 <= k < r@.len() && action_starts_summary(#[trigger] r@[k], id)),
            forall|k: int|
                0 <= k < r@.len() ==> ((#[trigger] r@[k]) matches Action::SpawnSummary(lid)
                    && has_key(old_known@, id_key(), lid@) && !has_key(old(self).known(), id_key(), lid@)
                    && !has_key(old(self).summarizing(), id_key(), lid@)),
    {
        let mut acts: Vec<Action> = Vec::new();
        let mut k: usize = 0;
        while k < old_known.len()
            invariant
                old(self).wf(),
                k <= old_known@.len(),
                self.all_lives@ == old(self).all_lives@,
                self.lives@ == old(self).lives@,
                self.config == old(self).config,
                keys_unique(self.all_summaries@, id_key()),
                forall|id: Seq<char>|
                    has_key(self.summarizing(), id_key(), id) <==> (has_key(
                        old(self).summarizing(),
                        id_key(),
                        id,
                    ) || (exists|i: int|
                        0 <= i < k && (#[trigger] old_known@[i])@ == id && !has_key(
                            old(self).known(),
                            id_key(),
                            id,
                        ))),
                forall|id: Seq<char>|
                    (exists|i: int|
                        0 <= i < k && (#[trigger] old_known@[i])@ == id && !has_key(
                            old(self).known(),
                            id_key(),
                            id,
                        )) && !has_key(old(self).summarizing(), id_key(), id) ==> (exists|w: int|
                        0 <= w < acts@.len() && action_starts_summary(#[trigger] acts@[w], id)),
                forall|w: int|
                    0 <= w < acts@.len() ==> ((#[trigger] acts@[w])
                        matches Action::SpawnSummary(lid) && has_key(old_known@, id_key(), lid@)
                        && !has_key(old(self).known(), id_key(), lid@) && !has_key(
                        old(self).summarizing(),
                        id_key(),
                        lid@,
                    )),
            decreases old_known@.len() - k,
        {
            let ghost pre_summ = self.all_summaries@;
            let ghost pre_acts = acts@;
            proof {
                assert(forall|idv: Seq<char>|
                    has_key(pre_summ, id_key(), idv) <==> (has_key(
                        old(self).summarizing(),
                        id_key(),
                        idv,
                    ) || (exists|i: int|
                        0 <= i < k && (#[trigger] old_known@[i])@ == idv && !has_key(
                            old(self).known(),
                            id_key(),
                            idv,
                        ))));
            }
            let id = &old_known[k];
            let in_new = ids_contain(&self.all_lives, id.as_str());
            if !in_new {
                let mut in_summ = false;
                let mut j: usize = 0;
                while j < self.all_summaries.len()
                    invariant
                        j <= self.all_summaries@.len(),
                        in_summ ==> has_key(self.all_summaries@, id_key(), id@),
                        !in_summ ==> forall|i: int|
                            0 <= i < j ==> (#[trigger] self.all_summaries@[i])@ != id@,
                    decreases self.all_summaries@.len() - j,
                {
                    if str_eq(self.all_summaries[j].as_str(), id.as_str()) {
                        proof {
                            assert(id_key()(self.all_summaries@[j as int]) == id@);
                        }
                        in_summ = true;
                        j = self.all_summaries.len();
                    } else {
                        j = j + 1;
                    }
                }
                proof {
                    if !in_summ && has_key(pre_summ, id_key(), id@) {
                        let w = choose|w: int|
                            0 <= w < pre_summ.len() && id_key()(#[trigger] pre_summ[w]) == id@;
                        assert(pre_summ[w]@ == id@);
                    }
                }
                if !in_summ {
                    proof {
                        lemma_key_push(pre_summ, *id, id_key());
                    }
                    self.all_summaries.push(id.clone());
                    acts.push(Action::SpawnSummary(id.clone()));
                    proof {
                        assert(acts@[pre_acts.len() as int] matches Action::SpawnSummary(lid)
                            && lid@ == id@);
                        assert(has_key(old_known@, id_key(), id@)) by {
                            assert(id_key()(old_known@[k as int]) == id@);
                        }
                    }
                }
            }
            proof {
                assert forall|idv: Seq<char>|
                    has_key(self.summarizing(), id_key(), idv) <==> (has_key(
                        old(self).summarizing(),
                        id_key(),
                        idv,
                    ) || (exists|i: int|
                        0 <= i < k + 1 && (#[trigger] old_known@[i])@ == idv && !has_key(
                            old(self).known(),
                            id_key(),
                            idv,
                        ))) by {
                    if has_key(self.summarizing(), id_key(), idv) {
                        if has_key(pre_summ, id_key(), idv) {
                            if exists|i: int|
                                0 <= i < k && (#[trigger] old_known@[i])@ == idv
                                    && !has_key(old(self).known(), id_key(), idv) {
                                let i = choose|i: int|
                                    0 <= i < k && (#[trigger] old_known@[i])@ == idv
                                        && !has_key(old(self).known(), id_key(), idv);
                                assert(0 <= i < k + 1 && old_known@[i]@ == idv);
                            }
                        } else {
                            assert(idv == id@);
                            assert(old_known@[k as int]@ == idv);
                        }
                    }
                    if exists|i: int|
                        0 <= i < k + 1 && (#[trigger] old_known@[i])@ == idv && !has_key(
                            old(self).known(),
                            id_key(),
                            idv,
                        ) {
                        let i = choose|i: int|
                            0 <= i < k + 1 && (#[trigger] old_known@[i])@ == idv
                                && !has_key(old(self).known(), id_key(), idv);
                        if i < k {
                            assert(exists|ii: int|
                                0 <= ii < k && (#[trigger] old_known@[ii])@ == idv
                                    && !has_key(old(self).known(), id_key(), idv));
                            assert(has_key(pre_summ, id_key(), idv));
                            let w = choose|w: int|
                                0 <= w < pre_summ.len() && id_key()(#[trigger] pre_summ[w])
                                    == idv;
                            assert(id_key()(self.all_summaries@[w]) == idv);
                        } else {
                            assert(idv == id@);
                            if has_key(pre_summ, id_key(), idv) {
                                let w = choose|w: int|
                                    0 <= w < pre_summ.len() && id_key()(#[trigger] pre_summ[w])
                                        == idv;
                                assert(id_key()(self.all_summaries@[w]) == idv);
                            } else {
                                assert(id_key()(self.all_summaries@[self.all_summaries@.len()
                                    - 1]) == idv);
                            }
                        }
                        assert(has_key(self.summarizing(), id_key(), idv));
                    }
                }
                assert forall|idv: Seq<char>|
                    (exists|i: int|
                        0 <= i < k + 1 && (#[trigger] old_known@[i])@ == idv && !has_key(
                            old(self).known(),
                            id_key(),
                            idv,
                        )) && !has_key(old(self).summarizing(), id_key(), idv) implies (exists|
                    w: int,
                |
                    0 <= w < acts@.len() && action_starts_summary(#[trigger] acts@[w], idv)) by {
                    let i = choose|i: int|
                        0 <= i < k + 1 && (#[trigger] old_known@[i])@ == idv && !has_key(
                            old(self).known(),
                            id_key(),
                            idv,
                        );
                    if i < k {
                        let w = choose|w: int|
                            0 <= w < pre_acts.len() && action_starts_summary(
                                #[trigger] pre_acts[w],
                                idv,
                            );
                        assert(acts@[w] == pre_acts[w]);
                        assert(action_starts_summary(acts@[w], idv));
                    } else {
                        assert(idv == id@);
                        // the summarizing set did not hold it before this
                        // pass, and this pass only ever adds ids, so the
                        // action was pushed now or an earlier round pushed it
                        if !has_key(pre_summ, id_key(), idv) {
                            assert(action_starts_summary(acts@[pre_acts.len() as int], idv));
                        } else {
                            // it was added by an earlier round of this loop
                            let w = choose|w: int|
                                0 <= w < pre_acts.len() && action_starts_summary(
                                    #[trigger] pre_acts[w],
                                    idv,
                                );
                            assert(acts@[w] == pre_acts[w]);
                        }
                    }
                }
                assert forall|w: int|
                    0 <= w < acts@.len() implies ((#[trigger] acts@[w])
                    matches Action::SpawnSummary(lid) && has_key(old_known@, id_key(), lid@)
                    && !has_key(old(self).known(), id_key(), lid@) && !has_key(
                    old(self).summarizing(),
                    id_key(),
                    lid@,
                )) by {
                    if w < pre_acts.len() {
                        assert(acts@[w] == pre_acts[w]);
                    }
                }
            }
            k = k + 1;
        }
        acts
    }


    /// The recording pass over one live list: start recorders for captured
    /// streams not yet recorded, and send title events where a recorded
    /// stream's title moved.
    #[verifier::spinoff_prover]
    fn update_active(&mut self, list: Vec<LiveListEntry>) -> (r: Vec<Action>)
        requires
            old(self).wf(),
        ensures
            final(self).wf(),
            final(self).known() == old(self).known(),
            final(self).summarizing() == old(self).summarizing(),
            final(self).capture() == old(self).capture(),
            forall|id: Seq<char>|
                #![trigger has_key(final(self).active(), active_key(), id)]
                has_key(final(self).active(), active_key(), id) <==> (has_key(
                    old(self).active(),
                    active_key(),
                    id,
                ) || list_has_captured_id(list@, id, old(self).capture())),
            forall|w: int|
                0 <= w < r@.len() ==> active_action_ok(
                    #[trigger] r@[w],
                    list@,
                    old(self).active(),
                    old(self).capture(),
                ),
            recorders_covered(r@, list@, old(self).active(), old(self).capture()),
            titles_follow_list(final(self).active(), old(self).active(), list@, old(self).capture()),
            title_events_cover(final(self).active(), old(self).active(), r@),
    {
        let ghost pre_active = self.lives@;
        let ghost cap = self.config.view();
        let ghost all = list@;
        let total = list.len();
        let mut rest = list;
        let mut acts: Vec<Action> = Vec::new();
        let mut k: usize = 0;
        while k < total
            invariant
                old(self).wf(),
                k + rest@.len() == total,
                total == all.len(),
                rest@ == all.subrange(k as int, total as int),
                pre_active == old(self).lives@,
                cap == old(self).capture(),
                self.all_lives@ == old(self).all_lives@,
                self.all_summaries@ == old(self).all_summaries@,
                self.config == old(self).config,
                keys_unique(self.lives@, active_key()),
                forall|id: Seq<char>|
                    has_key(self.lives@, active_key(), id) <==> (has_key(
                        pre_active,
                        active_key(),
                        id,
                    ) || list_has_captured_id(all.subrange(0, k as int), id, cap)),
                forall|w: int|
                    0 <= w < acts@.len() ==> active_action_ok(
                        #[trigger] acts@[w],
                        all,
                        pre_active,
                        cap,
                    ),
                forall|id: Seq<char>|
                    list_has_captured_id(all.subrange(0, k as int), id, cap) && !has_key(
                        pre_active,
                        active_key(),
                        id,
                    ) ==> (exists|w: int|
                        0 <= w < acts@.len() && action_spawns(#[trigger] acts@[w], id)),
                titles_follow_list(self.lives@, pre_active, all.subrange(0, k as int), cap),
                title_events_cover(self.lives@, pre_active, acts@),
            decreases total - k,
        {
            let ghost prefix = all.subrange(0, k as int);
            let ghost prefix1 = all.subrange(0, k + 1 as int);
            let ghost pre_items = rest@;
            let ghost cur_pre = self.lives@;
            let ghost acts_pre = acts@;
            let entry = rest.remove(0);
            let ghost e_v = entry;
            proof {
                assert(pre_items[0] == all[k as int]);
                assert(rest@ =~= all.subrange(k + 1, total as int));
                assert(e_v == all[k as int]);
            }
            let LiveListEntry { author_id, user, live_data } = entry;
            match live_data {
                Some(d) => {
                    let ghost eid = d.live_id@;
                    let ghost d_v = d;
                    if self.config.contains(author_id) {
                        proof {
                            assert(entry_captured(e_v, cap) && entry_id(e_v) == Some(eid));
                        }
                        let found = self.find_active(d.live_id.as_str());
                        match found {
                            Some(j) => {
                                let same = opt_title_eq(&self.lives[j].title, &d.title);
                                if !same {
                                    let lid_act = d.live_id.clone();
                                    let t = Title::new(
                                        d.live_id.clone(),
                                        crate::data::clone_opt_string(&d.title),
                                    );
                                    let new_entry = ActiveEntry {
                                        live_id: d.live_id.clone(),
                                        title: crate::data::clone_opt_string(&d.title),
                                    };
                                    let ghost new_v = new_entry;
                                    let _ = self.lives.remove(j);
                                    proof {
                                        lemma_active_remove(cur_pre, j as int);
                                        assert(active_key()(cur_pre[j as int]) == eid);
                                        assert(!has_key(self.lives@, active_key(), eid));
                                        lemma_key_push(self.lives@, new_v, active_key());
                                    }
                                    self.lives.push(new_entry);
                                    acts.push(Action::SendTitle(lid_act, t));
                                    proof {
                                        assert(self.lives@ == cur_pre.remove(j as int).push(
                                            new_v,
                                        ));
                                        assert(acts@ == acts_pre.push(acts@.last()));
                                        assert(acts@.last() matches Action::SendTitle(lid, tt)
                                            && lid@ == eid && tt.live_id@ == eid
                                            && opt_text_same(tt.title, new_v.title));
                                        assert(action_sends_title(acts@.last(), eid, new_v.title));
                                        assert(entry_captured(all[k as int], cap) && entry_id(
                                            all[k as int],
                                        ) == Some(eid));
                                        assert(list_has_captured_id(all, eid, cap));
                                        assert(active_action_ok(
                                            acts@.last(),
                                            all,
                                            pre_active,
                                            cap,
                                        ));
                                        assert(new_v.title == all[k as int].live_data->Some_0.title);
                                        lemma_title_change_step(
                                            all,
                                            k as int,
                                            cap,
                                            pre_active,
                                            cur_pre,
                                            self.lives@,
                                            acts_pre,
                                            acts@,
                                            eid,
                                            j as int,
                                            new_v,
                                        );
                                    }
                                } else {
                                    proof {
                                        assert(self.lives@[j as int].live_id@ == eid);
                                        assert(opt_text_same(
                                            self.lives@[j as int].title,
                                            all[k as int].live_data->Some_0.title,
                                        ));
                                        assert(exists|jj: int|
                                            0 <= jj < self.lives@.len() && (
                                            #[trigger] self.lives@[jj]).live_id@ == eid
                                                && opt_text_same(
                                                self.lives@[jj].title,
                                                all[k as int].live_data->Some_0.title,
                                            ));
                                        lemma_same_title_step(
                                            all,
                                            k as int,
                                            cap,
                                            pre_active,
                                            self.lives@,
                                            acts@,
                                            eid,
                                        );
                                    }
                                }
                            },
                            None => {
                                let new_entry = ActiveEntry {
                                    live_id: d.live_id.clone(),
                                    title: crate::data::clone_opt_string(&d.title),
                                };
                                let ghost new_v = new_entry;
                                let lid_act = d.live_id.clone();
                                proof {
                                    lemma_key_push(cur_pre, new_v, active_key());
                                }
                                self.lives.push(new_entry);
                                acts.push(
                                    Action::SpawnRecorder {
                                        live_id: lid_act,
                                        liver_uid: author_id,
                                        user,
                                        data: d,
                                    },
                                );
                                proof {
                                    assert(self.lives@ == cur_pre.push(new_v));
                                    assert(acts@ == acts_pre.push(acts@.last()));
                                    assert(action_spawns(acts@.last(), eid));
                                    assert(acts@.last() matches Action::SpawnRecorder {
                                        live_id,
                                        liver_uid,
                                        user: u,
                                        data,
                                    } && recorder_matches_entry(
                                        live_id,
                                        liver_uid,
                                        u,
                                        data,
                                        e_v,
                                    ));
                                    assert(0 <= k < all.len() && entry_captured(
                                        all[k as int],
                                        cap,
                                    ));
                                    assert(active_action_ok(acts@.last(), all, pre_active, cap));
                                    assert(new_v.title == all[k as int].live_data->Some_0.title);
                                    lemma_spawn_step(
                                        all,
                                        k as int,
                                        cap,
                                        pre_active,
                                        cur_pre,
                                        self.lives@,
                                        acts_pre,
                                        acts@,
                                        eid,
                                        new_v,
                                    );
                                }
                            },
                        }
                    } else {
                        proof {
                            assert(!entry_captured(e_v, cap));
                            lemma_nochange_step(
                                all,
                                k as int,
                                cap,
                                pre_active,
                                self.lives@,
                                acts@,
                            );
                        }
                    }
                },
                None => {
                    proof {
                        lemma_nochange_step(
                            all,
                            k as int,
                            cap,
                            pre_active,
                            self.lives@,
                            acts@,
                        );
                    }
                },
            }
            k = k + 1;
        }
        proof {
            assert(all.subrange(0, total as int) =~= all);
        }
        acts
    }


    /// One round of the discovery loop.  An empty list is treated as an
    /// upstream hiccup and changes nothing.  Otherwise the known set
    /// becomes the listed sessions; newly seen streams are recorded in the
    /// catalog and have their gift lists fetched; captured streams get a
    /// recorder or a title event; and the sessions that left the list have
    /// their summary finalizers started, unless one already runs.
    #[verifier::rlimit(60)]
    #[verifier::spinoff_prover]
    pub fn handle_live_list(&mut self, list: Vec<LiveListEntry>) -> (r: Vec<Action>)
        requires
            old(self).wf(),
        ensures
            final(self).wf(),
            list@.len() == 0 ==> r@.len() == 0 && *final(self) == *old(self),
            list@.len() > 0 ==> final(self).capture() == old(self).capture(),
            list@.len() > 0 ==> forall|id: Seq<char>|
                has_key(final(self).known(), id_key(), id) <==> list_has_id(list@, id),
            list@.len() > 0 ==> forall|id: Seq<char>|
                #![trigger has_key(final(self).summarizing(), id_key(), id)]
                has_key(final(self).summarizing(), id_key(), id) <==> (has_key(
                    old(self).summarizing(),
                    id_key(),
                    id,
                ) || (has_key(old(self).known(), id_key(), id) && !has_key(
                    final(self).known(),
                    id_key(),
                    id,
                ))),
            list@.len() > 0 ==> forall|id: Seq<char>|
                #![trigger has_key(final(self).active(), active_key(), id)]
                has_key(final(self).active(), active_key(), id) <==> (has_key(
                    old(self).active(),
                    active_key(),
                    id,
                ) || list_has_captured_id(list@, id, old(self).capture())),
            list@.len() > 0 ==> titles_follow_list(
                final(self).active(),
                old(self).active(),
                list@,
                old(self).capture(),
            ),
            list@.len() > 0 ==> title_events_cover(final(self).active(), old(self).active(), r@),
            list@.len() > 0 ==> forall|w: int|
                0 <= w < r@.len() ==> live_list_action_ok(
                    #[trigger] r@[w],
                    list@,
                    old(self).known(),
                    old(self).active(),
                    old(self).summarizing(),
                    old(self).capture(),
                ),
            list@.len() > 0 ==> forall|i: int|
                0 <= i < list@.len() && is_new_entry(#[trigger] list@[i], old(self).known())
                    ==> discovery_covered(r@, list@[i]),
            list@.len() > 0 ==> recorders_covered(
                r@,
                list@,
                old(self).active(),
                old(self).capture(),
            ),
            list@.len() > 0 ==> forall|id: Seq<char>|
                has_key(old(self).known(), id_key(), id) && !list_has_id(list@, id) && !has_key(
                    old(self).summarizing(),
                    id_key(),
                    id,
                ) ==> (exists|w: int|
                    0 <= w < r@.len() && action_starts_summary(#[trigger] r@[w], id)),
    {
        if list.len() == 0 {
            return Vec::new();
        }
        let ghost all = list@;
        let mut acts = self.discovery_actions(&list);
        let ghost d_acts = acts@;
        let new_known = Self::collect_ids(&list);
        let mut a_acts = self.update_active(list);
        let ghost a_seq = a_acts@;
        let ghost nk = new_known@;
        let mut old_known = new_known;
        core::mem::swap(&mut self.all_lives, &mut old_known);
        let mut s_acts = self.finalize_departed(&old_known);
        let ghost s_seq = s_acts@;
        acts.append(&mut a_acts);
        acts.append(&mut s_acts);
        proof {
            assert(acts@ == d_acts + a_seq + s_seq);
            lemma_concat_sound(
                all,
                old(self).known(),
                old(self).active(),
                old(self).summarizing(),
                old(self).capture(),
                self.active(),
                nk,
                d_acts,
                a_seq,
                s_seq,
                acts@,
            );
            lemma_concat_cover(
                all,
                old(self).known(),
                old(self).active(),
                old(self).summarizing(),
                old(self).capture(),
                self.active(),
                nk,
                d_acts,
                a_seq,
                s_seq,
                acts@,
            );
        }
        acts
    }

    /// Apply a roster command to the capture set; the runtime persists the
    /// set and forwards the reply afterwards.
    pub fn handle_command(&mut self, msg: DataCenterMessage) -> (r: Option<ToolMessage>)
        requires
            old(self).wf(),
        ensures
            final(self).wf(),
            final(self).known() == old(self).known(),
            final(self).summarizing() == old(self).summarizing(),
            final(self).active() == old(self).active(),
            match msg {
                DataCenterMessage::AddLiver(uid, tool) => {
                    &&& (uid <= 0 ==> final(self).capture() == old(self).capture())
                    &&& (uid > 0 ==> forall|u: i64|
                        final(self).capture().contains(u) <==> old(self).capture().contains(u)
                            || u == uid)
                    &&& r == (if uid > 0 && tool {
                        Some(ToolMessage::DataCenterAddLiver(uid, old(self).capture().contains(uid)))
                    } else {
                        None::<ToolMessage>
                    })
                },
                DataCenterMessage::DeleteLiver(uid, tool) => {
                    &&& (uid <= 0 ==> final(self).capture() == old(self).capture())
                    &&& (uid > 0 ==> forall|u: i64|
                        final(self).capture().contains(u) <==> old(self).capture().contains(u)
                            && u != uid)
                    &&& r == (if uid > 0 && tool {
                        Some(
                            ToolMessage::DataCenterDeleteLiver(
                                uid,
                                old(self).capture().contains(uid),
                            ),
                        )
                    } else {
                        None::<ToolMessage>
                    })
                },
            },
    {
        match msg {
            DataCenterMessage::AddLiver(uid, tool) => {
                let r = self.config.add_liver(uid, tool);
                proof {
                    assert(uid <= 0 ==> self.capture() == old(self).capture());
                    if uid > 0 {
                        assert forall|u: i64|
                            self.capture().contains(u) <==> old(self).capture().contains(u) || u
                                == uid by {
                            assert(self.config.spec_contains(u) <==> old(self).config.spec_contains(
                                u,
                            ) || u == uid);
                        }
                    }
                    assert(r == (if uid > 0 && tool {
                        Some(
                            ToolMessage::DataCenterAddLiver(
                                uid,
                                old(self).capture().contains(uid),
                            ),
                        )
                    } else {
                        None::<ToolMessage>
                    }));
                }
                r
            },
            DataCenterMessage::DeleteLiver(uid, tool) => {
                let r = self.config.delete_liver(uid, tool);
                proof {
                    assert(uid <= 0 ==> self.capture() == old(self).capture());
                    if uid > 0 {
                        assert forall|u: i64|
                            self.capture().contains(u) <==> old(self).capture().contains(u) && u
                                != uid by {
                            assert(self.config.spec_contains(u) <==> old(self).config.spec_contains(
                                u,
                            ) && u != uid);
                        }
                    }
                    assert(r == (if uid > 0 && tool {
                        Some(
                            ToolMessage::DataCenterDeleteLiver(
                                uid,
                                old(self).capture().contains(uid),
                            ),
                        )
                    } else {
                        None::<ToolMessage>
                    }));
                }
                r
            },
        }
    }
}

/// Removing a position from a unique active list keeps it unique and drops
/// exactly that session.
proof fn lemma_active_remove(s: Seq<ActiveEntry>, p: int)
    requires
        0 <= p < s.len(),
        keys_unique(s, active_key()),
    ensures
        keys_unique(s.remove(p), active_key()),
        forall|id: Seq<char>|
            has_key(s.remove(p), active_key(), id) <==> (has_key(s, active_key(), id) && id
                != active_key()(s[p])),
{
    let r = s.remove(p);
    assert forall|i: int, j: int|
        0 <= i < j < r.len() implies active_key()(#[trigger] r[i]) != active_key()(
        #[trigger] r[j],
    ) by {
        assert(r[i] == if i < p {
            s[i]
        } else {
            s[i + 1]
        });
        assert(r[j] == if j < p {
            s[j]
        } else {
            s[j + 1]
        });
    }
    assert forall|id: Seq<char>|
        has_key(r, active_key(), id) <==> (has_key(s, active_key(), id) && id != active_key()(
            s[p],
        )) by {
        if has_key(r, active_key(), id) {
            let i = choose|i: int| 0 <= i < r.len() && active_key()(#[trigger] r[i]) == id;
            if i < p {
                assert(active_key()(s[i]) == id);
            } else {
                assert(active_key()(s[i + 1]) == id);
            }
        }
        if has_key(s, active_key(), id) && id != active_key()(s[p]) {
            let i = choose|i: int| 0 <= i < s.len() && active_key()(#[trigger] s[i]) == id;
            if i < p {
                assert(active_key()(r[i]) == id);
            } else {
                assert(active_key()(r[i - 1]) == id);
            }
        }
    }
}

/// Removing a position from a unique id list keeps it unique and drops
/// exactly that id.
proof fn lemma_id_remove(s: Seq<String>, p: int)
    requires
        0 <= p < s.len(),
        keys_unique(s, id_key()),
    ensures
        keys_unique(s.remove(p), id_key()),
        forall|id: Seq<char>|
            has_key(s.remove(p), id_key(), id) <==> (has_key(s, id_key(), id) && id != id_key()(
                s[p],
            )),
{
    let r = s.remove(p);
    assert forall|i: int, j: int|
        0 <= i < j < r.len() implies id_key()(#[trigger] r[i]) != id_key()(#[trigger] r[j]) by {
        assert(r[i] == if i < p {
            s[i]
        } else {
            s[i + 1]
        });
        assert(r[j] == if j < p {
            s[j]
        } else {
            s[j + 1]
        });
    }
    assert forall|id: Seq<char>|
        has_key(r, id_key(), id) <==> (has_key(s, id_key(), id) && id != id_key()(s[p])) by {
        if has_key(r, id_key(), id) {
            let i = choose|i: int| 0 <= i < r.len() && id_key()(#[trigger] r[i]) == id;
            if i < p {
                assert(id_key()(s[i]) == id);
            } else {
                assert(id_key()(s[i + 1]) == id);
            }
        }
        if has_key(s, id_key(), id) && id != id_key()(s[p]) {
            let i = choose|i: int| 0 <= i < s.len() && id_key()(#[trigger] s[i]) == id;
            if i < p {
                assert(id_key()(r[i]) == id);
            } else {
                assert(id_key()(r[i - 1]) == id);
            }
        }
    }
}


/// A catalog row carries exactly what a list entry reported.
pub open spec fn live_matches_entry(l: crate::data::Live, e: LiveListEntry) -> bool {
    match e.live_data {
        Some(d) => {
            &&& l.live_id@ == d.live_id@
            &&& l.liver_uid == e.author_id
            &&& l.nickname == e.user.name
            &&& l.stream_name == d.stream_name
            &&& l.start_time == d.create_time
            &&& l.title == d.title
            &&& l.live_type == d.live_type
            &&& l.portrait == Some(d.portrait)
            &&& l.panoramic == Some(d.panoramic)
            &&& l.disable_danmaku_show == Some(d.disable_danmaku_show)
            &&& l.duration is None
            &&& l.like_count is None
            &&& l.watch_count is None
        },
        None => false,
    }
}

/// An entry reports a stream the supervisor has not seen this epoch.
pub open spec fn is_new_entry(e: LiveListEntry, known: Seq<String>) -> bool {
    match entry_id(e) {
        Some(id) => !has_key(known, id_key(), id),
        None => false,
    }
}

/// The discovery actions cover an entry: its catalog row is emitted and
/// its gift catalog is fetched.
pub open spec fn discovery_covered(acts: Seq<Action>, e: LiveListEntry) -> bool {
    &&& exists|k: int|
        0 <= k < acts.len() && ((#[trigger] acts[k]) matches Action::EmitLive(l)
            && live_matches_entry(l, e))
    &&& exists|k: int|
        0 <= k < acts.len() && ((#[trigger] acts[k]) matches Action::FetchGiftList(lid)
            && entry_id(e) == Some(lid@))
}

/// A discovery action is justified by some newly seen entry.
pub open spec fn discovery_action_ok(
    a: Action,
    list: Seq<LiveListEntry>,
    known: Seq<String>,
) -> bool {
    match a {
        Action::EmitLive(l) => exists|i: int|
            0 <= i < list.len() && is_new_entry(#[trigger] list[i], known) && live_matches_entry(
                l,
                list[i],
            ),
        Action::FetchGiftList(lid) => exists|i: int|
            0 <= i < list.len() && is_new_entry(#[trigger] list[i], known) && entry_id(list[i])
                == Some(lid@),
        _ => false,
    }
}

/// A recorder action carries exactly what a captured entry reported.
pub open spec fn recorder_matches_entry(
    live_id: String,
    liver_uid: i64,
    user: StreamerProfile,
    data: StreamData,
    e: LiveListEntry,
) -> bool {
    match e.live_data {
        Some(d) => live_id@ == d.live_id@ && liver_uid == e.author_id && user == e.user && data
            == d,
        None => false,
    }
}

/// An action of the recording pass is justified: a title event goes to a
/// captured stream, a recorder starts only for a stream not yet recorded.
pub open spec fn active_action_ok(
    a: Action,
    list: Seq<LiveListEntry>,
    pre_active: Seq<ActiveEntry>,
    capture: Seq<i64>,
) -> bool {
    match a {
        Action::SendTitle(lid, t) => {
            &&& list_has_captured_id(list, lid@, capture)
            &&& t.live_id@ == lid@
        },
        Action::SpawnRecorder { live_id, liver_uid, user, data } => {
            &&& !has_key(pre_active, active_key(), live_id@)
            &&& exists|i: int|
                0 <= i < list.len() && entry_captured(#[trigger] list[i], capture)
                    && recorder_matches_entry(live_id, liver_uid, user, data, list[i])
        },
        _ => false,
    }
}


/// The stored title of each recorded stream follows the list: if a
/// captured entry reported the session, the title is the last one
/// reported; otherwise it is what it was before the list arrived.
pub open spec fn titles_follow_list(
    cur: Seq<ActiveEntry>,
    pre: Seq<ActiveEntry>,
    list: Seq<LiveListEntry>,
    capture: Seq<i64>,
) -> bool {
    forall|j: int| 0 <= j < cur.len() ==> title_follow_one(#[trigger] cur[j], pre, list, capture)
}

/// One recorded stream's title follows the list.
pub open spec fn title_follow_one(
    e: ActiveEntry,
    pre: Seq<ActiveEntry>,
    list: Seq<LiveListEntry>,
    capture: Seq<i64>,
) -> bool {
    match last_captured_title(list, e.live_id@, capture) {
        Some(t) => opt_text_same(e.title, t),
        None => exists|jj: int|
            0 <= jj < pre.len() && (#[trigger] pre[jj]).live_id@ == e.live_id@ && e.title
                == pre[jj].title,
    }
}

/// Every stream whose stored title moved away from what it was before
/// the list arrived had a title event sent carrying the new title.
pub open spec fn title_events_cover(
    cur: Seq<ActiveEntry>,
    pre: Seq<ActiveEntry>,
    acts: Seq<Action>,
) -> bool {
    forall|j: int| 0 <= j < cur.len() ==> title_event_one(#[trigger] cur[j], pre, acts)
}

/// One stream's title event, owed exactly when its title changed.
pub open spec fn title_event_one(e: ActiveEntry, pre: Seq<ActiveEntry>, acts: Seq<Action>) -> bool {
    (has_key(pre, active_key(), e.live_id@) && !(exists|jj: int|
        0 <= jj < pre.len() && (#[trigger] pre[jj]).live_id@ == e.live_id@ && opt_text_same(
            pre[jj].title,
            e.title,
        ))) ==> exists|w: int|
        0 <= w < acts.len() && action_sends_title(#[trigger] acts[w], e.live_id@, e.title)
}


/// An action of one live-list round is justified: it records a discovery,
/// drives a recorded stream, or finalizes a departed one.
pub open spec fn live_list_action_ok(
    a: Action,
    list: Seq<LiveListEntry>,
    known: Seq<String>,
    pre_active: Seq<ActiveEntry>,
    summarizing: Seq<String>,
    capture: Seq<i64>,
) -> bool {
    ||| discovery_action_ok(a, list, known)
    ||| active_action_ok(a, list, pre_active, capture)
    ||| (a matches Action::SpawnSummary(lid) && has_key(known, id_key(), lid@) && !list_has_id(
        list,
        lid@,
    ) && !has_key(summarizing, id_key(), lid@))
}

/// The recording pass covers every captured stream that was not yet
/// recorded: a recorder starts for it.
pub open spec fn recorders_covered(
    acts: Seq<Action>,
    list: Seq<LiveListEntry>,
    pre_active: Seq<ActiveEntry>,
    capture: Seq<i64>,
) -> bool {
    forall|id: Seq<char>|
        list_has_captured_id(list, id, capture) && !has_key(pre_active, active_key(), id)
            ==> exists|k: int|
            0 <= k < acts.len() && action_spawns(#[trigger] acts[k], id)
}

/// The action starts the summary finalizer for this session.
pub open spec fn action_starts_summary(a: Action, id: Seq<char>) -> bool {
    match a {
        Action::SpawnSummary(lid) => lid@ == id,
        _ => false,
    }
}

/// The action starts a recorder for this session.
pub open spec fn action_spawns(a: Action, id: Seq<char>) -> bool {
    match a {
        Action::SpawnRecorder { live_id, .. } => live_id@ == id,
        _ => false,
    }
}

/// The action sends a title with these characters to this session.
pub open spec fn action_sends_title(a: Action, id: Seq<char>, title: Option<String>) -> bool {
    match a {
        Action::SendTitle(lid, t) => lid@ == id && t.live_id@ == id && opt_text_same(
            t.title,
            title,
        ),
        _ => false,
    }
}



/// Whether two optional titles hold the same characters.
fn opt_title_eq(a: &Option<String>, b: &Option<String>) -> (r: bool)
    ensures
        r == opt_text_same(*a, *b),
{
    match (a, b) {
        (Some(x), Some(y)) => str_eq(x.as_str(), y.as_str()),
        (None, None) => true,
        _ => false,
    }
}



/// When the processed entry is not captured, extending the prefix keeps
/// every per-list invariant of the recording pass.
#[verifier::spinoff_prover]
proof fn lemma_nochange_step(
    all: Seq<LiveListEntry>,
    k: int,
    cap: Seq<i64>,
    pre_active: Seq<ActiveEntry>,
    cur: Seq<ActiveEntry>,
    acts: Seq<Action>,
)
    requires
        0 <= k < all.len(),
        !entry_captured(all[k], cap),
        forall|id: Seq<char>|
            has_key(cur, active_key(), id) <==> (has_key(pre_active, active_key(), id)
                || list_has_captured_id(all.subrange(0, k), id, cap)),
        forall|id: Seq<char>|
            list_has_captured_id(all.subrange(0, k), id, cap) && !has_key(
                pre_active,
                active_key(),
                id,
            ) ==> (exists|w: int| 0 <= w < acts.len() && action_spawns(#[trigger] acts[w], id)),
        titles_follow_list(cur, pre_active, all.subrange(0, k), cap),
    ensures
        forall|id: Seq<char>|
            has_key(cur, active_key(), id) <==> (has_key(pre_active, active_key(), id)
                || list_has_captured_id(all.subrange(0, k + 1), id, cap)),
        forall|id: Seq<char>|
            list_has_captured_id(all.subrange(0, k + 1), id, cap) && !has_key(
                pre_active,
                active_key(),
                id,
            ) ==> (exists|w: int| 0 <= w < acts.len() && action_spawns(#[trigger] acts[w], id)),
        titles_follow_list(cur, pre_active, all.subrange(0, k + 1), cap),
{
    assert forall|id: Seq<char>|
        has_key(cur, active_key(), id) <==> (has_key(pre_active, active_key(), id)
            || list_has_captured_id(all.subrange(0, k + 1), id, cap)) by {
        lemma_captured_push(all, k, cap, id);
    }
    assert forall|id: Seq<char>|
        list_has_captured_id(all.subrange(0, k + 1), id, cap) && !has_key(
            pre_active,
            active_key(),
            id,
        ) implies (exists|w: int|
        0 <= w < acts.len() && action_spawns(#[trigger] acts[w], id)) by {
        lemma_captured_push(all, k, cap, id);
    }
    assert forall|j: int|
        0 <= j < cur.len() implies title_follow_one(
        #[trigger] cur[j],
        pre_active,
        all.subrange(0, k + 1),
        cap,
    ) by {
        lemma_last_title_push(all, k, cap, cur[j].live_id@);
        assert(title_follow_one(cur[j], pre_active, all.subrange(0, k), cap));
    }
}


/// When the captured entry's stream is already recorded with the same
/// title, extending the prefix keeps every invariant of the recording
/// pass.
#[verifier::spinoff_prover]
proof fn lemma_same_title_step(
    all: Seq<LiveListEntry>,
    k: int,
    cap: Seq<i64>,
    pre_active: Seq<ActiveEntry>,
    cur: Seq<ActiveEntry>,
    acts: Seq<Action>,
    eid: Seq<char>,
)
    requires
        0 <= k < all.len(),
        entry_captured(all[k], cap),
        entry_id(all[k]) == Some(eid),
        keys_unique(cur, active_key()),
        exists|j: int|
            0 <= j < cur.len() && (#[trigger] cur[j]).live_id@ == eid && opt_text_same(
                cur[j].title,
                all[k].live_data->Some_0.title,
            ),
        forall|id: Seq<char>|
            has_key(cur, active_key(), id) <==> (has_key(pre_active, active_key(), id)
                || list_has_captured_id(all.subrange(0, k), id, cap)),
        forall|id: Seq<char>|
            list_has_captured_id(all.subrange(0, k), id, cap) && !has_key(
                pre_active,
                active_key(),
                id,
            ) ==> (exists|w: int| 0 <= w < acts.len() && action_spawns(#[trigger] acts[w], id)),
        titles_follow_list(cur, pre_active, all.subrange(0, k), cap),
    ensures
        forall|id: Seq<char>|
            has_key(cur, active_key(), id) <==> (has_key(pre_active, active_key(), id)
                || list_has_captured_id(all.subrange(0, k + 1), id, cap)),
        forall|id: Seq<char>|
            list_has_captured_id(all.subrange(0, k + 1), id, cap) && !has_key(
                pre_active,
                active_key(),
                id,
            ) ==> (exists|w: int| 0 <= w < acts.len() && action_spawns(#[trigger] acts[w], id)),
        titles_follow_list(cur, pre_active, all.subrange(0, k + 1), cap),
{
    let j0 = choose|j: int|
        0 <= j < cur.len() && (#[trigger] cur[j]).live_id@ == eid && opt_text_same(
            cur[j].title,
            all[k].live_data->Some_0.title,
        );
    assert(active_key()(cur[j0]) == eid);
    assert(has_key(cur, active_key(), eid));
    assert forall|id: Seq<char>|
        has_key(cur, active_key(), id) <==> (has_key(pre_active, active_key(), id)
            || list_has_captured_id(all.subrange(0, k + 1), id, cap)) by {
        lemma_captured_push(all, k, cap, id);
    }
    assert forall|id: Seq<char>|
        list_has_captured_id(all.subrange(0, k + 1), id, cap) && !has_key(
            pre_active,
            active_key(),
            id,
        ) implies (exists|w: int|
        0 <= w < acts.len() && action_spawns(#[trigger] acts[w], id)) by {
        lemma_captured_push(all, k, cap, id);
        if id == eid && !list_has_captured_id(all.subrange(0, k), id, cap) {
            // the stream is recorded, so it was recorded before this list
            // or spawned by an earlier entry of it
            assert(has_key(cur, active_key(), eid));
        }
    }
    assert forall|j: int|
        0 <= j < cur.len() implies title_follow_one(
        #[trigger] cur[j],
        pre_active,
        all.subrange(0, k + 1),
        cap,
    ) by {
        lemma_last_title_push(all, k, cap, cur[j].live_id@);
        assert(title_follow_one(cur[j], pre_active, all.subrange(0, k), cap));
        if cur[j].live_id@ == eid {
            assert(active_key()(cur[j]) == active_key()(cur[j0]));
            if j != j0 {
                assert(false);
            }
        }
    }
}

/// When the captured entry's stream is already recorded under another
/// title, the row moves to the entry's title and a title event goes out;
/// every invariant of the recording pass is kept.
#[verifier::spinoff_prover]
proof fn lemma_title_change_step(
    all: Seq<LiveListEntry>,
    k: int,
    cap: Seq<i64>,
    pre_active: Seq<ActiveEntry>,
    cur_pre: Seq<ActiveEntry>,
    cur: Seq<ActiveEntry>,
    acts_pre: Seq<Action>,
    acts: Seq<Action>,
    eid: Seq<char>,
    j0: int,
    new_entry: ActiveEntry,
)
    requires
        0 <= k < all.len(),
        entry_captured(all[k], cap),
        entry_id(all[k]) == Some(eid),
        keys_unique(cur_pre, active_key()),
        keys_unique(cur, active_key()),
        0 <= j0 < cur_pre.len(),
        cur_pre[j0].live_id@ == eid,
        cur == cur_pre.remove(j0).push(new_entry),
        new_entry.live_id@ == eid,
        new_entry.title == all[k].live_data->Some_0.title,
        acts == acts_pre.push(acts.last()),
        acts.len() == acts_pre.len() + 1,
        action_sends_title(acts.last(), eid, new_entry.title),
        active_action_ok(acts.last(), all, pre_active, cap),
        forall|id: Seq<char>|
            has_key(cur_pre, active_key(), id) <==> (has_key(pre_active, active_key(), id)
                || list_has_captured_id(all.subrange(0, k), id, cap)),
        forall|w: int|
            0 <= w < acts_pre.len() ==> active_action_ok(
                #[trigger] acts_pre[w],
                all,
                pre_active,
                cap,
            ),
        forall|id: Seq<char>|
            list_has_captured_id(all.subrange(0, k), id, cap) && !has_key(
                pre_active,
                active_key(),
                id,
            ) ==> (exists|w: int|
                0 <= w < acts_pre.len() && action_spawns(#[trigger] acts_pre[w], id)),
        titles_follow_list(cur_pre, pre_active, all.subrange(0, k), cap),
        title_events_cover(cur_pre, pre_active, acts_pre),
    ensures
        forall|id: Seq<char>|
            has_key(cur, active_key(), id) <==> (has_key(pre_active, active_key(), id)
                || list_has_captured_id(all.subrange(0, k + 1), id, cap)),
        forall|w: int|
            0 <= w < acts.len() ==> active_action_ok(#[trigger] acts[w], all, pre_active, cap),
        forall|id: Seq<char>|
            list_has_captured_id(all.subrange(0, k + 1), id, cap) && !has_key(
                pre_active,
                active_key(),
                id,
            ) ==> (exists|w: int| 0 <= w < acts.len() && action_spawns(#[trigger] acts[w], id)),
        titles_follow_list(cur, pre_active, all.subrange(0, k + 1), cap),
        title_events_cover(cur, pre_active, acts),
{
    let mid = cur_pre.remove(j0);
    lemma_active_remove(cur_pre, j0);
    assert(active_key()(cur_pre[j0]) == eid);
    assert(!has_key(mid, active_key(), eid));
    lemma_key_push(mid, new_entry, active_key());
    assert(active_key()(new_entry) == eid);
    assert(has_key(cur_pre, active_key(), eid));
    assert forall|id: Seq<char>|
        has_key(cur, active_key(), id) <==> (has_key(pre_active, active_key(), id)
            || list_has_captured_id(all.subrange(0, k + 1), id, cap)) by {
        lemma_captured_push(all, k, cap, id);
        assert(has_key(cur, active_key(), id) <==> (has_key(mid, active_key(), id) || id == eid));
        assert(has_key(mid, active_key(), id) <==> (has_key(cur_pre, active_key(), id) && id
            != eid));
    }
    assert forall|w: int|
        0 <= w < acts.len() implies active_action_ok(#[trigger] acts[w], all, pre_active, cap) by {
        if w < acts_pre.len() {
            assert(acts[w] == acts_pre[w]);
        } else {
            assert(acts[w] == acts.last());
        }
    }
    assert forall|id: Seq<char>|
        list_has_captured_id(all.subrange(0, k + 1), id, cap) && !has_key(
            pre_active,
            active_key(),
            id,
        ) implies (exists|w: int|
        0 <= w < acts.len() && action_spawns(#[trigger] acts[w], id)) by {
        lemma_captured_push(all, k, cap, id);
        if list_has_captured_id(all.subrange(0, k), id, cap) {
            let w = choose|w: int|
                0 <= w < acts_pre.len() && action_spawns(#[trigger] acts_pre[w], id);
            assert(acts[w] == acts_pre[w]);
        } else {
            assert(id == eid);
            assert(has_key(cur_pre, active_key(), eid));
            let w = choose|w: int|
                0 <= w < acts_pre.len() && action_spawns(#[trigger] acts_pre[w], id);
            assert(acts[w] == acts_pre[w]);
        }
    }
    assert forall|m: int|
        0 <= m < cur.len() implies title_follow_one(
        #[trigger] cur[m],
        pre_active,
        all.subrange(0, k + 1),
        cap,
    ) by {
        lemma_last_title_push(all, k, cap, cur[m].live_id@);
        if m == cur.len() - 1 {
            assert(cur[m] == new_entry);
            assert(opt_text_same(new_entry.title, all[k].live_data->Some_0.title));
        } else {
            assert(cur[m] == mid[m]);
            let mm: int = if m < j0 {
                m
            } else {
                m + 1
            };
            assert(mid[m] == cur_pre[mm]);
            assert(title_follow_one(cur_pre[mm], pre_active, all.subrange(0, k), cap));
            assert(cur[m].live_id@ != eid);
        }
    }
    assert forall|m: int|
        0 <= m < cur.len() implies title_event_one(#[trigger] cur[m], pre_active, acts) by {
        if m == cur.len() - 1 {
            assert(action_sends_title(acts[acts.len() - 1], eid, new_entry.title));
        } else {
            assert(cur[m] == mid[m]);
            let mm: int = if m < j0 {
                m
            } else {
                m + 1
            };
            assert(mid[m] == cur_pre[mm]);
            assert(title_event_one(cur_pre[mm], pre_active, acts_pre));
            if has_key(pre_active, active_key(), cur[m].live_id@) && !(exists|jj: int|
                0 <= jj < pre_active.len() && (#[trigger] pre_active[jj]).live_id@
                    == cur[m].live_id@ && opt_text_same(pre_active[jj].title, cur[m].title)) {
                let w = choose|w: int|
                    0 <= w < acts_pre.len() && action_sends_title(
                        #[trigger] acts_pre[w],
                        cur_pre[mm].live_id@,
                        cur_pre[mm].title,
                    );
                assert(acts[w] == acts_pre[w]);
            }
        }
    }
}

/// When the captured entry's stream is not yet recorded, a recorder
/// starts and the stream joins the active set; every invariant of the
/// recording pass is kept.
#[verifier::spinoff_prover]
proof fn lemma_spawn_step(
    all: Seq<LiveListEntry>,
    k: int,
    cap: Seq<i64>,
    pre_active: Seq<ActiveEntry>,
    cur_pre: Seq<ActiveEntry>,
    cur: Seq<ActiveEntry>,
    acts_pre: Seq<Action>,
    acts: Seq<Action>,
    eid: Seq<char>,
    new_entry: ActiveEntry,
)
    requires
        0 <= k < all.len(),
        entry_captured(all[k], cap),
        entry_id(all[k]) == Some(eid),
        keys_unique(cur_pre, active_key()),
        !has_key(cur_pre, active_key(), eid),
        cur == cur_pre.push(new_entry),
        new_entry.live_id@ == eid,
        new_entry.title == all[k].live_data->Some_0.title,
        acts == acts_pre.push(acts.last()),
        acts.len() == acts_pre.len() + 1,
        action_spawns(acts.last(), eid),
        active_action_ok(acts.last(), all, pre_active, cap),
        forall|id: Seq<char>|
            has_key(cur_pre, active_key(), id) <==> (has_key(pre_active, active_key(), id)
                || list_has_captured_id(all.subrange(0, k), id, cap)),
        forall|w: int|
            0 <= w < acts_pre.len() ==> active_action_ok(
                #[trigger] acts_pre[w],
                all,
                pre_active,
                cap,
            ),
        forall|id: Seq<char>|
            list_has_captured_id(all.subrange(0, k), id, cap) && !has_key(
                pre_active,
                active_key(),
                id,
            ) ==> (exists|w: int|
                0 <= w < acts_pre.len() && action_spawns(#[trigger] acts_pre[w], id)),
        titles_follow_list(cur_pre, pre_active, all.subrange(0, k), cap),
        title_events_cover(cur_pre, pre_active, acts_pre),
    ensures
        keys_unique(cur, active_key()),
        forall|id: Seq<char>|
            has_key(cur, active_key(), id) <==> (has_key(pre_active, active_key(), id)
                || list_has_captured_id(all.subrange(0, k + 1), id, cap)),
        forall|w: int|
            0 <= w < acts.len() ==> active_action_ok(#[trigger] acts[w], all, pre_active, cap),
        forall|id: Seq<char>|
            list_has_captured_id(all.subrange(0, k + 1), id, cap) && !has_key(
                pre_active,
                active_key(),
                id,
            ) ==> (exists|w: int| 0 <= w < acts.len() && action_spawns(#[trigger] acts[w], id)),
        titles_follow_list(cur, pre_active, all.subrange(0, k + 1), cap),
        title_events_cover(cur, pre_active, acts),
{
    lemma_key_push(cur_pre, new_entry, active_key());
    assert(active_key()(new_entry) == eid);
    assert forall|id: Seq<char>|
        has_key(cur, active_key(), id) <==> (has_key(pre_active, active_key(), id)
            || list_has_captured_id(all.subrange(0, k + 1), id, cap)) by {
        lemma_captured_push(all, k, cap, id);
    }
    assert forall|w: int|
        0 <= w < acts.len() implies active_action_ok(#[trigger] acts[w], all, pre_active, cap) by {
        if w < acts_pre.len() {
            assert(acts[w] == acts_pre[w]);
        } else {
            assert(acts[w] == acts.last());
        }
    }
    assert forall|id: Seq<char>|
        list_has_captured_id(all.subrange(0, k + 1), id, cap) && !has_key(
            pre_active,
            active_key(),
            id,
        ) implies (exists|w: int|
        0 <= w < acts.len() && action_spawns(#[trigger] acts[w], id)) by {
        lemma_captured_push(all, k, cap, id);
        if list_has_captured_id(all.subrange(0, k), id, cap) {
            let w = choose|w: int|
                0 <= w < acts_pre.len() && action_spawns(#[trigger] acts_pre[w], id);
            assert(acts[w] == acts_pre[w]);
        } else {
            assert(id == eid);
            assert(action_spawns(acts[acts.len() - 1], id));
        }
    }
    assert forall|m: int|
        0 <= m < cur.len() implies title_follow_one(
        #[trigger] cur[m],
        pre_active,
        all.subrange(0, k + 1),
        cap,
    ) by {
        lemma_last_title_push(all, k, cap, cur[m].live_id@);
        if m == cur.len() - 1 {
            assert(cur[m] == new_entry);
            assert(opt_text_same(new_entry.title, all[k].live_data->Some_0.title));
        } else {
            assert(cur[m] == cur_pre[m]);
            assert(title_follow_one(cur_pre[m], pre_active, all.subrange(0, k), cap));
            assert(active_key()(cur_pre[m]) != eid);
        }
    }
    assert forall|m: int|
        0 <= m < cur.len() implies title_event_one(#[trigger] cur[m], pre_active, acts) by {
        if m == cur.len() - 1 {
            assert(!has_key(pre_active, active_key(), eid));
        } else {
            assert(cur[m] == cur_pre[m]);
            assert(title_event_one(cur_pre[m], pre_active, acts_pre));
            if has_key(pre_active, active_key(), cur[m].live_id@) && !(exists|jj: int|
                0 <= jj < pre_active.len() && (#[trigger] pre_active[jj]).live_id@
                    == cur[m].live_id@ && opt_text_same(pre_active[jj].title, cur[m].title)) {
                let w = choose|w: int|
                    0 <= w < acts_pre.len() && action_sends_title(
                        #[trigger] acts_pre[w],
                        cur_pre[m].live_id@,
                        cur_pre[m].title,
                    );
                assert(acts[w] == acts_pre[w]);
            }
        }
    }
}


/// Putting the three passes' actions side by side keeps each action
/// justified, and keeps the discovery actions present.
#[verifier::rlimit(60)]
#[verifier::spinoff_prover]
proof fn lemma_concat_sound(
    all: Seq<LiveListEntry>,
    known: Seq<String>,
    pre_active: Seq<ActiveEntry>,
    summarizing: Seq<String>,
    cap: Seq<i64>,
    cur_active: Seq<ActiveEntry>,
    nk: Seq<String>,
    d_acts: Seq<Action>,
    a_seq: Seq<Action>,
    s_seq: Seq<Action>,
    acts: Seq<Action>,
)
    requires
        acts == d_acts + a_seq + s_seq,
        forall|id: Seq<char>| has_key(nk, id_key(), id) <==> list_has_id(all, id),
        forall|i: int|
            0 <= i < all.len() && is_new_entry(#[trigger] all[i], known) ==> discovery_covered(
                d_acts,
                all[i],
            ),
        forall|w: int|
            0 <= w < d_acts.len() ==> discovery_action_ok(#[trigger] d_acts[w], all, known),
        forall|w: int|
            0 <= w < a_seq.len() ==> active_action_ok(#[trigger] a_seq[w], all, pre_active, cap),
        forall|w: int|
            0 <= w < s_seq.len() ==> ((#[trigger] s_seq[w]) matches Action::SpawnSummary(lid)
                && has_key(known, id_key(), lid@) && !has_key(nk, id_key(), lid@) && !has_key(
                summarizing,
                id_key(),
                lid@,
            )),
    ensures
        forall|w: int|
            0 <= w < acts.len() ==> live_list_action_ok(
                #[trigger] acts[w],
                all,
                known,
                pre_active,
                summarizing,
                cap,
            ),
        forall|i: int|
            0 <= i < all.len() && is_new_entry(#[trigger] all[i], known) ==> discovery_covered(
                acts,
                all[i],
            ),
{
    let dn = d_acts.len() as int;
    let an = a_seq.len() as int;
    let sn = s_seq.len() as int;
    assert(forall|w: int| 0 <= w < dn ==> #[trigger] acts[w] == d_acts[w]);
    assert(forall|w: int| 0 <= w < an ==> #[trigger] acts[dn + w] == a_seq[w]);
    assert(forall|w: int| 0 <= w < sn ==> #[trigger] acts[dn + an + w] == s_seq[w]);
    assert forall|w: int|
        0 <= w < acts.len() implies live_list_action_ok(
        #[trigger] acts[w],
        all,
        known,
        pre_active,
        summarizing,
        cap,
    ) by {
        if w < dn {
            assert(acts[w] == d_acts[w]);
        } else if w < dn + an {
            assert(acts[w] == a_seq[w - dn]);
            assert(active_action_ok(a_seq[w - dn], all, pre_active, cap));
        } else {
            assert(acts[w] == s_seq[w - dn - an]);
            let lid = s_seq[w - dn - an]->SpawnSummary_0;
            assert(has_key(nk, id_key(), lid@) <==> list_has_id(all, lid@));
        }
    }
    assert forall|i: int|
        0 <= i < all.len() && is_new_entry(#[trigger] all[i], known) implies discovery_covered(
        acts,
        all[i],
    ) by {
        assert(discovery_covered(d_acts, all[i]));
        let w1 = choose|w: int|
            0 <= w < d_acts.len() && ((#[trigger] d_acts[w]) matches Action::EmitLive(l)
                && live_matches_entry(l, all[i]));
        assert(acts[w1] == d_acts[w1]);
        let w2 = choose|w: int|
            0 <= w < d_acts.len() && ((#[trigger] d_acts[w]) matches Action::FetchGiftList(lid)
                && entry_id(all[i]) == Some(lid@));
        assert(acts[w2] == d_acts[w2]);
    }
}

/// Putting the three passes' actions side by side keeps every owed
/// recorder, title event and summary start present.
#[verifier::rlimit(60)]
#[verifier::spinoff_prover]
proof fn lemma_concat_cover(
    all: Seq<LiveListEntry>,
    known: Seq<String>,
    pre_active: Seq<ActiveEntry>,
    summarizing: Seq<String>,
    cap: Seq<i64>,
    cur_active: Seq<ActiveEntry>,
    nk: Seq<String>,
    d_acts: Seq<Action>,
    a_seq: Seq<Action>,
    s_seq: Seq<Action>,
    acts: Seq<Action>,
)
    requires
        acts == d_acts + a_seq + s_seq,
        forall|id: Seq<char>| has_key(nk, id_key(), id) <==> list_has_id(all, id),
        recorders_covered(a_seq, all, pre_active, cap),
        title_events_cover(cur_active, pre_active, a_seq),
        forall|id: Seq<char>|
            has_key(known, id_key(), id) && !has_key(nk, id_key(), id) && !has_key(
                summarizing,
                id_key(),
                id,
            ) ==> (exists|w: int|
                0 <= w < s_seq.len() && action_starts_summary(#[trigger] s_seq[w], id)),
    ensures
        recorders_covered(acts, all, pre_active, cap),
        title_events_cover(cur_active, pre_active, acts),
        forall|id: Seq<char>|
            has_key(known, id_key(), id) && !list_has_id(all, id) && !has_key(
                summarizing,
                id_key(),
                id,
            ) ==> (exists|w: int|
                0 <= w < acts.len() && action_starts_summary(#[trigger] acts[w], id)),
{
    let dn = d_acts.len() as int;
    let an = a_seq.len() as int;
    let sn = s_seq.len() as int;
    assert(forall|w: int| 0 <= w < dn ==> #[trigger] acts[w] == d_acts[w]);
    assert(forall|w: int| 0 <= w < an ==> #[trigger] acts[dn + w] == a_seq[w]);
    assert(forall|w: int| 0 <= w < sn ==> #[trigger] acts[dn + an + w] == s_seq[w]);
    assert forall|id: Seq<char>|
        list_has_captured_id(all, id, cap) && !has_key(pre_active, active_key(), id) implies (
    exists|w: int| 0 <= w < acts.len() && action_spawns(#[trigger] acts[w], id)) by {
        let w = choose|w: int| 0 <= w < a_seq.len() && action_spawns(#[trigger] a_seq[w], id);
        assert(acts[dn + w] == a_seq[w]);
        assert(action_spawns(acts[dn + w], id));
    }
    assert forall|j: int|
        0 <= j < cur_active.len() implies title_event_one(
        #[trigger] cur_active[j],
        pre_active,
        acts,
    ) by {
        assert(title_event_one(cur_active[j], pre_active, a_seq));
        if has_key(pre_active, active_key(), cur_active[j].live_id@) && !(exists|jj: int|
            0 <= jj < pre_active.len() && (#[trigger] pre_active[jj]).live_id@
                == cur_active[j].live_id@ && opt_text_same(
                pre_active[jj].title,
                cur_active[j].title,
            )) {
            let w = choose|w: int|
                0 <= w < a_seq.len() && action_sends_title(
                    #[trigger] a_seq[w],
                    cur_active[j].live_id@,
                    cur_active[j].title,
                );
            assert(acts[dn + w] == a_seq[w]);
            assert(action_sends_title(
                acts[dn + w],
                cur_active[j].live_id@,
                cur_active[j].title,
            ));
        }
    }
    assert forall|id: Seq<char>|
        has_key(known, id_key(), id) && !list_has_id(all, id) && !has_key(
            summarizing,
            id_key(),
            id,
        ) implies (exists|w: int|
        0 <= w < acts.len() && action_starts_summary(#[trigger] acts[w], id)) by {
        assert(has_key(nk, id_key(), id) <==> list_has_id(all, id));
        let w = choose|w: int|
            0 <= w < s_seq.len() && action_starts_summary(#[trigger] s_seq[w], id);
        assert(acts[dn + an + w] == s_seq[w]);
        assert(action_starts_summary(acts[dn + an + w], id));
    }
}


/// Extending the processed prefix by one entry extends the captured
/// sessions by that entry's, if it is captured.
proof fn lemma_captured_push(list: Seq<LiveListEntry>, k: int, capture: Seq<i64>, id: Seq<char>)
    requires
        0 <= k < list.len(),
    ensures
        list_has_captured_id(list.subrange(0, k + 1), id, capture) <==> (list_has_captured_id(
            list.subrange(0, k),
            id,
            capture,
        ) || (entry_captured(list[k], capture) && entry_id(list[k]) == Some(id))),
{
    let p = list.subrange(0, k);
    let p1 = list.subrange(0, k + 1);
    if list_has_captured_id(p1, id, capture) {
        let i = choose|i: int|
            0 <= i < p1.len() && entry_captured(#[trigger] p1[i], capture) && entry_id(p1[i])
                == Some(id);
        if i < k {
            assert(p[i] == p1[i]);
            assert(list_has_captured_id(p, id, capture));
        } else {
            assert(p1[i] == list[k]);
        }
    }
    if list_has_captured_id(p, id, capture) {
        let i = choose|i: int|
            0 <= i < p.len() && entry_captured(#[trigger] p[i], capture) && entry_id(p[i]) == Some(
                id,
            );
        assert(p1[i] == p[i]);
        assert(list_has_captured_id(p1, id, capture));
    }
    if entry_captured(list[k], capture) && entry_id(list[k]) == Some(id) {
        assert(p1[k] == list[k]);
        assert(list_has_captured_id(p1, id, capture));
    }
}

/// Extending the processed prefix by one entry moves the last captured
/// title to that entry's, for its session.
proof fn lemma_last_title_push(list: Seq<LiveListEntry>, k: int, capture: Seq<i64>, id: Seq<char>)
    requires
        0 <= k < list.len(),
    ensures
        last_captured_title(list.subrange(0, k + 1), id, capture) == (if entry_captured(
            list[k],
            capture,
        ) && entry_id(list[k]) == Some(id) {
            Some(list[k].live_data->Some_0.title)
        } else {
            last_captured_title(list.subrange(0, k), id, capture)
        }),
{
    let p = list.subrange(0, k);
    let p1 = list.subrange(0, k + 1);
    assert(p1.drop_last() =~= p);
    assert(p1.last() == list[k]);
}

/// Whether a plain id list holds this session.
fn ids_contain(v: &Vec<String>, id: &str) -> (r: bool)
    ensures
        r == has_key(v@, id_key(), id@),
{
    let mut k: usize = 0;
    while k < v.len()
        invariant
            k <= v@.len(),
            forall|i: int| 0 <= i < k ==> (#[trigger] v@[i])@ != id@,
        decreases v@.len() - k,
    {
        if str_eq(v[k].as_str(), id) {
            proof {
                assert(id_key()(v@[k as int]) == id@);
            }
            return true;
        }
        k = k + 1;
    }
    proof {
        if has_key(v@, id_key(), id@) {
            let i = choose|i: int| 0 <= i < v@.len() && id_key()(#[trigger] v@[i]) == id@;
            assert(v@[i]@ == id@);
        }
    }
    false
}

} // verus!
