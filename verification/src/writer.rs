//! The per-streamer storage writer, modelled as a state machine over the
//! rows the on-disk store ends up holding.
//!
//! One writer runs per active stream.  It consumes the stream's events in
//! order and maintains one table per entity, with the store's semantics:
//! insert-if-absent under each unique index, append-only histories,
//! title-change suppression, red-packet deduplication, a running maximum
//! of the viewer count, and viewer-count samples gated by the process-wide
//! tick so that at most one sample lands per tick.  The statements that
//! run against the embedded SQL engine are driven from outside by the
//! decisions this machine takes; the tables here say what those
//! statements leave behind.

use vstd::prelude::*;

use crate::data::clone_opt_string;
use crate::data::{
    AuthorChatCall, AuthorChatChangeSoundConfig, AuthorChatEnd, AuthorChatReady, ChatCall,
    ChatEnd, ChatReady, Comment, DisplayInfoSignal, Follow, Gift, JoinClub, LiveId, LiveInfo,
    LiverInfo, Redpack, RedpackItem, Summary, Title, WatchingCount, spec_user_info_opt,
};
use crate::live::LiveData;
use crate::parse::{parse_watching_count, spec_parse_watching};
use crate::table::{
    count_key, has_key, keyed_insert_step, keys_unique, lemma_count_key_absent,
    lemma_count_key_one, lemma_key_push,
};
use crate::text::str_eq;

verus! {

/// How many pending ticks the broadcast channel can hold for one writer.
pub const TICK_CAPACITY: u32 = 100;

/// The key of each keyed table.
pub open spec fn live_info_key() -> spec_fn(LiveInfo) -> Seq<char> {
    |r: LiveInfo| r.live_id@
}

pub open spec fn liver_info_key() -> spec_fn(LiverInfo) -> Seq<char> {
    |r: LiverInfo| r.live_id@
}

pub open spec fn redpack_key() -> spec_fn(Redpack) -> Seq<char> {
    |r: Redpack| r.redpack_id@
}

pub open spec fn chat_call_key() -> spec_fn(ChatCall) -> Seq<char> {
    |r: ChatCall| r.chat_id@
}

pub open spec fn chat_ready_key() -> spec_fn(ChatReady) -> Seq<char> {
    |r: ChatReady| r.chat_id@
}

pub open spec fn chat_end_key() -> spec_fn(ChatEnd) -> Seq<char> {
    |r: ChatEnd| r.chat_id@
}

pub open spec fn author_chat_call_key() -> spec_fn(AuthorChatCall) -> Seq<char> {
    |r: AuthorChatCall| r.author_chat_id@
}

pub open spec fn author_chat_ready_key() -> spec_fn(AuthorChatReady) -> Seq<char> {
    |r: AuthorChatReady| r.author_chat_id@
}

pub open spec fn author_chat_end_key() -> spec_fn(AuthorChatEnd) -> Seq<char> {
    |r: AuthorChatEnd| r.author_chat_id@
}

/// Whether two optional texts hold the same characters.
pub open spec fn opt_text_same(a: Option<String>, b: Option<String>) -> bool {
    match (a, b) {
        (Some(x), Some(y)) => x@ == y@,
        (None, None) => true,
        _ => false,
    }
}

/// The most recently inserted title row of a session, if any.
pub open spec fn last_title(rows: Seq<Title>, live_id: Seq<char>) -> Option<Title>
    decreases rows.len(),
{
    if rows.len() == 0 {
        None
    } else if rows.last().live_id@ == live_id {
        Some(rows.last())
    } else {
        last_title(rows.drop_last(), live_id)
    }
}

/// What a title event does: a title equal to the session's most recent
/// stored one is suppressed, anything else is appended.
pub open spec fn title_step(pre: Seq<Title>, post: Seq<Title>, t: Title) -> bool {
    if (match last_title(pre, t.live_id@) {
        Some(stored) => opt_text_same(stored.title, t.title),
        None => false,
    }) {
        post == pre
    } else {
        post == pre.push(t)
    }
}

/// The summary table with every row of one session dropped.
pub open spec fn drop_summary(rows: Seq<Summary>, live_id: Seq<char>) -> Seq<Summary>
    decreases rows.len(),
{
    if rows.len() == 0 {
        rows
    } else {
        let rest = drop_summary(rows.drop_last(), live_id);
        if rows.last().live_id@ == live_id {
            rest
        } else {
            rest.push(rows.last())
        }
    }
}

/// A row carries this session.
pub open spec fn summary_key() -> spec_fn(Summary) -> Seq<char> {
    |r: Summary| r.live_id@
}

/// One profile row after an end-of-stream count update.
pub open spec fn spec_update_liver_row(
    r: LiverInfo,
    fans_count: Option<i32>,
    medal_name: Option<String>,
    medal_count: Option<i32>,
) -> LiverInfo {
    LiverInfo {
        live_end_fans_count: fans_count,
        medal_name: medal_name,
        live_end_medal_count: medal_count,
        ..r
    }
}

/// The new running maximum after one viewer-count reading.
pub open spec fn spec_new_max(max_watch: Option<i32>, count: Option<i32>) -> Option<i32> {
    match (count, max_watch) {
        (Some(c), None) => Some(c),
        (Some(c), Some(m)) => if c > m {
            Some(c)
        } else {
            Some(m)
        },
        (None, _) => max_watch,
    }
}

/// The writer's whole state, abstractly.
pub ghost struct WriterView {
    pub live_id: Seq<char>,
    pub liver_uid: i64,
    pub live_info: Seq<LiveInfo>,
    pub titles: Seq<Title>,
    pub liver_info: Seq<LiverInfo>,
    pub summaries: Seq<Summary>,
    pub comments: Seq<Comment>,
    pub follows: Seq<Follow>,
    pub gifts: Seq<Gift>,
    pub join_clubs: Seq<JoinClub>,
    pub watching_counts: Seq<WatchingCount>,
    pub redpacks: Seq<Redpack>,
    pub chat_calls: Seq<ChatCall>,
    pub chat_readys: Seq<ChatReady>,
    pub chat_ends: Seq<ChatEnd>,
    pub author_chat_calls: Seq<AuthorChatCall>,
    pub author_chat_readys: Seq<AuthorChatReady>,
    pub author_chat_ends: Seq<AuthorChatEnd>,
    pub author_chat_sound_configs: Seq<AuthorChatChangeSoundConfig>,
    pub banana: Option<String>,
    pub max_watch: Option<i32>,
    pub pending_ticks: u32,
    pub ticks_received: u64,
    pub stopped: bool,
}

/// What one event does to the writer.
pub open spec fn writer_step(pre: WriterView, post: WriterView, data: LiveData) -> bool {
    match data {
        LiveData::LiveInfo(info) => keyed_insert_step(
            pre.live_info,
            post.live_info,
            info,
            live_info_key(),
        ) && post == WriterView { live_info: post.live_info, ..pre },
        LiveData::Title(t) => title_step(pre.titles, post.titles, t) && post == WriterView {
            titles: post.titles,
            ..pre
        },
        LiveData::LiverInfo(info) => keyed_insert_step(
            pre.liver_info,
            post.liver_info,
            info,
            liver_info_key(),
        ) && post == WriterView { liver_info: post.liver_info, ..pre },
        LiveData::UpdateCount(live_id, fans_count, medal_name, medal_count) => {
            &&& post.liver_info.len() == pre.liver_info.len()
            &&& forall|i: int|
                0 <= i < pre.liver_info.len() ==> #[trigger] post.liver_info[i] == (if pre.liver_info[i].live_id@
                    == live_id@ {
                    spec_update_liver_row(pre.liver_info[i], fans_count, medal_name, medal_count)
                } else {
                    pre.liver_info[i]
                })
            &&& post == WriterView { liver_info: post.liver_info, ..pre }
        },
        LiveData::Summary(s) => post.summaries == drop_summary(pre.summaries, s.live_id@).push(
            Summary { watch_online_max_count: pre.max_watch, banana_count: pre.banana, ..s },
        ) && post == WriterView { summaries: post.summaries, ..pre },
        LiveData::Comment(c) => post == WriterView { comments: pre.comments.push(c), ..pre },
        LiveData::Follow(f) => post == WriterView { follows: pre.follows.push(f), ..pre },
        LiveData::Gift(g) => post == WriterView { gifts: pre.gifts.push(g), ..pre },
        LiveData::JoinClub(j) => post == WriterView { join_clubs: pre.join_clubs.push(j), ..pre },
        LiveData::Banana(b) => post == WriterView { banana: b, ..pre },
        LiveData::WatchingCount(info) => {
            let count = spec_parse_watching(info.watching_count@);
            let mw = spec_new_max(pre.max_watch, count);
            if pre.pending_ticks > 0 {
                &&& post.watching_counts.len() == pre.watching_counts.len() + 1
                &&& post.watching_counts.drop_last() == pre.watching_counts
                &&& post.watching_counts.last().live_id@ == pre.live_id
                &&& post.watching_counts.last().watching_count == count
                &&& post == WriterView {
                    watching_counts: post.watching_counts,
                    max_watch: mw,
                    pending_ticks: (pre.pending_ticks - 1) as u32,
                    ..pre
                }
            } else {
                post == WriterView { max_watch: mw, ..pre }
            }
        },
        LiveData::Redpack(list) => {
            &&& redpack_list_step(pre.redpacks, post.redpacks, pre.live_id, list.redpacks@)
            &&& post == WriterView { redpacks: post.redpacks, ..pre }
        },
        LiveData::ChatCall(c) => keyed_insert_step(pre.chat_calls, post.chat_calls, c, chat_call_key())
            && post == WriterView { chat_calls: post.chat_calls, ..pre },
        LiveData::ChatReady(c) => keyed_insert_step(
            pre.chat_readys,
            post.chat_readys,
            c,
            chat_ready_key(),
        ) && post == WriterView { chat_readys: post.chat_readys, ..pre },
        LiveData::ChatEnd(c) => keyed_insert_step(pre.chat_ends, post.chat_ends, c, chat_end_key())
            && post == WriterView { chat_ends: post.chat_ends, ..pre },
        LiveData::AuthorChatCall(c) => keyed_insert_step(
            pre.author_chat_calls,
            post.author_chat_calls,
            c,
            author_chat_call_key(),
        ) && post == WriterView { author_chat_calls: post.author_chat_calls, ..pre },
        LiveData::AuthorChatReady(c) => keyed_insert_step(
            pre.author_chat_readys,
            post.author_chat_readys,
            c,
            author_chat_ready_key(),
        ) && post == WriterView { author_chat_readys: post.author_chat_readys, ..pre },
        LiveData::AuthorChatEnd(c) => keyed_insert_step(
            pre.author_chat_ends,
            post.author_chat_ends,
            c,
            author_chat_end_key(),
        ) && post == WriterView { author_chat_ends: post.author_chat_ends, ..pre },
        LiveData::AuthorChatChangeSoundConfig(c) => post == WriterView {
            author_chat_sound_configs: pre.author_chat_sound_configs.push(c),
            ..pre
        },
        LiveData::Stop => post == WriterView { stopped: true, ..pre },
    }
}

/// What one red-packet list does: packets whose id was already stored are
/// dropped, the rest are appended in order, deduplicated within the list
/// too.
pub open spec fn redpack_list_step(
    pre: Seq<Redpack>,
    post: Seq<Redpack>,
    live_id: Seq<char>,
    items: Seq<RedpackItem>,
) -> bool {
    &&& post.len() >= pre.len()
    &&& post.subrange(0, pre.len() as int) == pre
    &&& forall|k: Seq<char>|
        has_key(post, redpack_key(), k) <==> has_key(pre, redpack_key(), k) || items_have_id(
            items,
            items.len() as int,
            k,
        )
    &&& rows_from_items(post, pre.len() as int, live_id, items)
}

/// Every row from position `from` on matches one of the reported items.
pub open spec fn rows_from_items(
    rows: Seq<Redpack>,
    from: int,
    live_id: Seq<char>,
    items: Seq<RedpackItem>,
) -> bool {
    forall|i: int|
        from <= i < rows.len() ==> exists|j: int|
            0 <= j < items.len() && redpack_matches_item(
                #[trigger] rows[i],
                live_id,
                #[trigger] items[j],
            )
}

/// Some of the first `n` items carries this packet id.
pub open spec fn items_have_id(items: Seq<RedpackItem>, n: int, key: Seq<char>) -> bool {
    exists|j: int| 0 <= j < n && (#[trigger] items[j]).red_pack_id@ == key
}

/// A stored red packet carries exactly what its list item reported.
pub open spec fn redpack_matches_item(r: Redpack, live_id: Seq<char>, item: RedpackItem) -> bool {
    &&& r.redpack_id == item.red_pack_id
    &&& r.live_id@ == live_id
    &&& r.sender_info == spec_user_info_opt(item.sender)
    &&& r.amount == item.redpack_amount
    &&& r.redpack_biz_unit == item.redpack_biz_unit
    &&& r.get_token_latest_time == item.get_token_latest_time_ms
    &&& r.grab_begin_time == item.grab_begin_time_ms
    &&& r.settle_begin_time == item.settle_begin_time
}

/// One writer thread's state.
pub struct WriterState {
    live_id: LiveId,
    liver_uid: i64,
    live_info: Vec<LiveInfo>,
    titles: Vec<Title>,
    liver_info: Vec<LiverInfo>,
    summaries: Vec<Summary>,
    comments: Vec<Comment>,
    follows: Vec<Follow>,
    gifts: Vec<Gift>,
    join_clubs: Vec<JoinClub>,
    watching_counts: Vec<WatchingCount>,
    redpacks: Vec<Redpack>,
    chat_calls: Vec<ChatCall>,
    chat_readys: Vec<ChatReady>,
    chat_ends: Vec<ChatEnd>,
    author_chat_calls: Vec<AuthorChatCall>,
    author_chat_readys: Vec<AuthorChatReady>,
    author_chat_ends: Vec<AuthorChatEnd>,
    author_chat_sound_configs: Vec<AuthorChatChangeSoundConfig>,
    banana: Option<String>,
    max_watch: Option<i32>,
    pending_ticks: u32,
    ticks_received: u64,
    stopped: bool,
}

impl WriterState {
    /// The whole state, abstractly.
    pub closed spec fn view(&self) -> WriterView {
        WriterView {
            live_id: self.live_id@,
            liver_uid: self.liver_uid,
            live_info: self.live_info@,
            titles: self.titles@,
            liver_info: self.liver_info@,
            summaries: self.summaries@,
            comments: self.comments@,
            follows: self.follows@,
            gifts: self.gifts@,
            join_clubs: self.join_clubs@,
            watching_counts: self.watching_counts@,
            redpacks: self.redpacks@,
            chat_calls: self.chat_calls@,
            chat_readys: self.chat_readys@,
            chat_ends: self.chat_ends@,
            author_chat_calls: self.author_chat_calls@,
            author_chat_readys: self.author_chat_readys@,
            author_chat_ends: self.author_chat_ends@,
            author_chat_sound_configs: self.author_chat_sound_configs@,
            banana: self.banana,
            max_watch: self.max_watch,
            pending_ticks: self.pending_ticks,
            ticks_received: self.ticks_received,
            stopped: self.stopped,
        }
    }

    /// The store's unique indices hold, and no more viewer-count samples
    /// have landed (or are still admitted) than ticks were received.
    pub open spec fn wf(&self) -> bool {
        writer_view_wf(self.view())
    }

    /// Open a writer for one session of one streamer.
    pub fn new(live_id: LiveId, liver_uid: i64) -> (r: WriterState)
        ensures
            r.wf(),
            r.view().live_id == live_id@,
            r.view().liver_uid == liver_uid,
            r.view().live_info.len() == 0,
            r.view().titles.len() == 0,
            r.view().liver_info.len() == 0,
            r.view().summaries.len() == 0,
            r.view().comments.len() == 0,
            r.view().follows.len() == 0,
            r.view().gifts.len() == 0,
            r.view().join_clubs.len() == 0,
            r.view().watching_counts.len() == 0,
            r.view().redpacks.len() == 0,
            r.view().chat_calls.len() == 0,
            r.view().chat_readys.len() == 0,
            r.view().chat_ends.len() == 0,
            r.view().author_chat_calls.len() == 0,
            r.view().author_chat_readys.len() == 0,
            r.view().author_chat_ends.len() == 0,
            r.view().author_chat_sound_configs.len() == 0,
            r.view().banana matches None,
            r.view().max_watch matches None,
            r.view().pending_ticks == 0,
            r.view().ticks_received == 0,
            !r.view().stopped,
    {
        WriterState {
            live_id,
            liver_uid,
            live_info: Vec::new(),
            titles: Vec::new(),
            liver_info: Vec::new(),
            summaries: Vec::new(),
            comments: Vec::new(),
            follows: Vec::new(),
            gifts: Vec::new(),
            join_clubs: Vec::new(),
            watching_counts: Vec::new(),
            redpacks: Vec::new(),
            chat_calls: Vec::new(),
            chat_readys: Vec::new(),
            chat_ends: Vec::new(),
            author_chat_calls: Vec::new(),
            author_chat_readys: Vec::new(),
            author_chat_ends: Vec::new(),
            author_chat_sound_configs: Vec::new(),
            banana: None,
            max_watch: None,
            pending_ticks: 0,
            ticks_received: 0,
            stopped: false,
        }
    }

    /// Whether the stream has sent its clean shutdown.
    pub fn is_stopped(&self) -> (r: bool)
        ensures
            r == self.view().stopped,
    {
        self.stopped
    }

    /// The number of viewer-count samples persisted so far.
    pub fn sample_count(&self) -> (r: usize)
        ensures
            r == self.view().watching_counts.len(),
    {
        self.watching_counts.len()
    }

    /// A tick of the process-wide broadcast arrived: admit one more
    /// viewer-count sample, up to the channel's capacity.
    pub fn tick(&mut self)
        requires
            old(self).wf(),
            old(self).view().ticks_received < u64::MAX,
        ensures
            final(self).wf(),
            (final(self).view() == WriterView {
                pending_ticks: (if old(self).view().pending_ticks < TICK_CAPACITY {
                    (old(self).view().pending_ticks + 1) as u32
                } else {
                    old(self).view().pending_ticks
                }),
                ticks_received: (old(self).view().ticks_received + 1) as u64,
                ..old(self).view()
            }),
    {
        if self.pending_ticks < TICK_CAPACITY {
            self.pending_ticks = self.pending_ticks + 1;
        }
        self.ticks_received = self.ticks_received + 1;
    }

    /// Feed one event of the stream to the writer.
    pub fn apply(&mut self, data: LiveData)
        requires
            old(self).wf(),
        ensures
            final(self).wf(),
            writer_step(old(self).view(), final(self).view(), data),
    {
        let ghost pre = self.view();
        match data {
            LiveData::LiveInfo(info) => {
                if !self.has_live_info(info.live_id.as_str()) {
                    proof {
                        lemma_key_push(pre.live_info, info, live_info_key());
                    }
                    self.live_info.push(info);
                }
            },
            LiveData::Title(t) => {
                self.title(t);
            },
            LiveData::LiverInfo(info) => {
                if !self.has_liver_info(info.live_id.as_str()) {
                    proof {
                        lemma_key_push(pre.liver_info, info, liver_info_key());
                    }
                    self.liver_info.push(info);
                }
            },
            LiveData::UpdateCount(live_id, fans_count, medal_name, medal_count) => {
                self.update_count(live_id, fans_count, medal_name, medal_count);
            },
            LiveData::Summary(s) => {
                self.summary(s);
            },
            LiveData::Comment(c) => {
                self.comments.push(c);
            },
            LiveData::Follow(f) => {
                self.follows.push(f);
            },
            LiveData::Gift(g) => {
                self.gifts.push(g);
            },
            LiveData::JoinClub(j) => {
                self.join_clubs.push(j);
            },
            LiveData::Banana(b) => {
                self.banana = b;
            },
            LiveData::WatchingCount(info) => {
                self.watching_count(info);
            },
            LiveData::Redpack(list) => {
                self.redpacks(list.redpacks);
            },
            LiveData::ChatCall(c) => {
                if !self.has_chat_call(c.chat_id.as_str()) {
                    proof {
                        lemma_key_push(pre.chat_calls, c, chat_call_key());
                    }
                    self.chat_calls.push(c);
                }
            },
            LiveData::ChatReady(c) => {
                if !self.has_chat_ready(c.chat_id.as_str()) {
                    proof {
                        lemma_key_push(pre.chat_readys, c, chat_ready_key());
                    }
                    self.chat_readys.push(c);
                }
            },
            LiveData::ChatEnd(c) => {
                if !self.has_chat_end(c.chat_id.as_str()) {
                    proof {
                        lemma_key_push(pre.chat_ends, c, chat_end_key());
                    }
                    self.chat_ends.push(c);
                }
            },
            LiveData::AuthorChatCall(c) => {
                if !self.has_author_chat_call(c.author_chat_id.as_str()) {
                    proof {
                        lemma_key_push(pre.author_chat_calls, c, author_chat_call_key());
                    }
                    self.author_chat_calls.push(c);
                }
            },
            LiveData::AuthorChatReady(c) => {
                if !self.has_author_chat_ready(c.author_chat_id.as_str()) {
                    proof {
                        lemma_key_push(pre.author_chat_readys, c, author_chat_ready_key());
                    }
                    self.author_chat_readys.push(c);
                }
            },
            LiveData::AuthorChatEnd(c) => {
                if !self.has_author_chat_end(c.author_chat_id.as_str()) {
                    proof {
                        lemma_key_push(pre.author_chat_ends, c, author_chat_end_key());
                    }
                    self.author_chat_ends.push(c);
                }
            },
            LiveData::AuthorChatChangeSoundConfig(c) => {
                self.author_chat_sound_configs.push(c);
            },
            LiveData::Stop => {
                self.stopped = true;
            },
        }
    }


    /// How many title rows the store holds.
    pub fn titles_count(&self) -> (r: usize)
        ensures
            r == self.view().titles.len(),
    {
        self.titles.len()
    }

    /// How many red-packet rows the store holds.
    pub fn redpack_count(&self) -> (r: usize)
        ensures
            r == self.view().redpacks.len(),
    {
        self.redpacks.len()
    }

    /// How many end-of-stream aggregates the store holds.
    pub fn summary_count(&self) -> (r: usize)
        ensures
            r == self.view().summaries.len(),
    {
        self.summaries.len()
    }

    /// How many comments the store holds.
    pub fn comment_count(&self) -> (r: usize)
        ensures
            r == self.view().comments.len(),
    {
        self.comments.len()
    }

    /// How many session-description rows the store holds.
    pub fn live_info_count(&self) -> (r: usize)
        ensures
            r == self.view().live_info.len(),
    {
        self.live_info.len()
    }

    /// The running maximum viewer count.
    pub fn max_watch(&self) -> (r: Option<i32>)
        ensures
            r == self.view().max_watch,
    {
        self.max_watch
    }

    /// The duration and maximum viewers of the last stored aggregate.
    pub fn last_summary(&self) -> (r: Option<(i64, Option<i32>)>)
        ensures
            match r {
                Some(pair) => self.view().summaries.len() > 0 && pair.0
                    == self.view().summaries.last().duration && pair.1
                    == self.view().summaries.last().watch_online_max_count,
                None => self.view().summaries.len() == 0,
            },
    {
        if self.summaries.len() == 0 {
            None
        } else {
            let row = &self.summaries[self.summaries.len() - 1];
            Some((row.duration, row.watch_online_max_count))
        }
    }

    /// The characters of the last stored title.
    pub fn last_title_text(&self) -> (r: Option<Option<String>>)
        ensures
            match r {
                Some(t) => self.view().titles.len() > 0 && t == self.view().titles.last().title,
                None => self.view().titles.len() == 0,
            },
    {
        if self.titles.len() == 0 {
            None
        } else {
            Some(clone_opt_string(&self.titles[self.titles.len() - 1].title))
        }
    }

    fn has_live_info(&self, live_id: &str) -> (r: bool)
        ensures
            r == has_key(self.view().live_info, live_info_key(), live_id@),
    {
        let mut k: usize = 0;
        while k < self.live_info.len()
            invariant
                k <= self.live_info@.len(),
                forall|i: int| 0 <= i < k ==> (#[trigger] self.live_info@[i]).live_id@ != live_id@,
            decreases self.live_info@.len() - k,
        {
            if str_eq(self.live_info[k].live_id.as_str(), live_id) {
                proof {
                    assert(live_info_key()(self.live_info@[k as int]) == live_id@);
                }
                return true;
            }
            k = k + 1;
        }
        proof {
            if has_key(self.view().live_info, live_info_key(), live_id@) {
                let i = choose|i: int|
                    0 <= i < self.live_info@.len() && live_info_key()(
                        #[trigger] self.live_info@[i],
                    ) == live_id@;
                assert(self.live_info@[i].live_id@ == live_id@);
            }
        }
        false
    }

    fn has_liver_info(&self, live_id: &str) -> (r: bool)
        ensures
            r == has_key(self.view().liver_info, liver_info_key(), live_id@),
    {
        let mut k: usize = 0;
        while k < self.liver_info.len()
            invariant
                k <= self.liver_info@.len(),
                forall|i: int| 0 <= i < k ==> (#[trigger] self.liver_info@[i]).live_id@ != live_id@,
            decreases self.liver_info@.len() - k,
        {
            if str_eq(self.liver_info[k].live_id.as_str(), live_id) {
                proof {
                    assert(liver_info_key()(self.liver_info@[k as int]) == live_id@);
                }
                return true;
            }
            k = k + 1;
        }
        proof {
            if has_key(self.view().liver_info, liver_info_key(), live_id@) {
                let i = choose|i: int|
                    0 <= i < self.liver_info@.len() && liver_info_key()(
                        #[trigger] self.liver_info@[i],
                    ) == live_id@;
                assert(self.liver_info@[i].live_id@ == live_id@);
            }
        }
        false
    }

    fn has_redpack(&self, redpack_id: &str) -> (r: bool)
        ensures
            r == has_key(self.view().redpacks, redpack_key(), redpack_id@),
    {
        let mut k: usize = 0;
        while k < self.redpacks.len()
            invariant
                k <= self.redpacks@.len(),
                forall|i: int|
                    0 <= i < k ==> (#[trigger] self.redpacks@[i]).redpack_id@ != redpack_id@,
            decreases self.redpacks@.len() - k,
        {
            if str_eq(self.redpacks[k].redpack_id.as_str(), redpack_id) {
                proof {
                    assert(redpack_key()(self.redpacks@[k as int]) == redpack_id@);
                }
                return true;
            }
            k = k + 1;
        }
        proof {
            if has_key(self.view().redpacks, redpack_key(), redpack_id@) {
                let i = choose|i: int|
                    0 <= i < self.redpacks@.len() && redpack_key()(#[trigger] self.redpacks@[i])
                        == redpack_id@;
                assert(self.redpacks@[i].redpack_id@ == redpack_id@);
            }
        }
        false
    }

    fn has_chat_call(&self, chat_id: &str) -> (r: bool)
        ensures
            r == has_key(self.view().chat_calls, chat_call_key(), chat_id@),
    {
        let mut k: usize = 0;
        while k < self.chat_calls.len()
            invariant
                k <= self.chat_calls@.len(),
                forall|i: int| 0 <= i < k ==> (#[trigger] self.chat_calls@[i]).chat_id@ != chat_id@,
            decreases self.chat_calls@.len() - k,
        {
            if str_eq(self.chat_calls[k].chat_id.as_str(), chat_id) {
                proof {
                    assert(chat_call_key()(self.chat_calls@[k as int]) == chat_id@);
                }
                return true;
            }
            k = k + 1;
        }
        proof {
            if has_key(self.view().chat_calls, chat_call_key(), chat_id@) {
                let i = choose|i: int|
                    0 <= i < self.chat_calls@.len() && chat_call_key()(
                        #[trigger] self.chat_calls@[i],
                    ) == chat_id@;
                assert(self.chat_calls@[i].chat_id@ == chat_id@);
            }
        }
        false
    }

    fn has_chat_ready(&self, chat_id: &str) -> (r: bool)
        ensures
            r == has_key(self.view().chat_readys, chat_ready_key(), chat_id@),
    {
        let mut k: usize = 0;
        while k < self.chat_readys.len()
            invariant
                k <= self.chat_readys@.len(),
                forall|i: int| 0 <= i < k ==> (#[trigger] self.chat_readys@[i]).chat_id@ != chat_id@,
            decreases self.chat_readys@.len() - k,
        {
            if str_eq(self.chat_readys[k].chat_id.as_str(), chat_id) {
                proof {
                    assert(chat_ready_key()(self.chat_readys@[k as int]) == chat_id@);
                }
                return true;
            }
            k = k + 1;
        }
        proof {
            if has_key(self.view().chat_readys, chat_ready_key(), chat_id@) {
                let i = choose|i: int|
                    0 <= i < self.chat_readys@.len() && chat_ready_key()(
                        #[trigger] self.chat_readys@[i],
                    ) == chat_id@;
                assert(self.chat_readys@[i].chat_id@ == chat_id@);
            }
        }
        false
    }

    fn has_chat_end(&self, chat_id: &str) -> (r: bool)
        ensures
            r == has_key(self.view().chat_ends, chat_end_key(), chat_id@),
    {
        let mut k: usize = 0;
        while k < self.chat_ends.len()
            invariant
                k <= self.chat_ends@.len(),
                forall|i: int| 0 <= i < k ==> (#[trigger] self.chat_ends@[i]).chat_id@ != chat_id@,
            decreases self.chat_ends@.len() - k,
        {
            if str_eq(self.chat_ends[k].chat_id.as_str(), chat_id) {
                proof {
                    assert(chat_end_key()(self.chat_ends@[k as int]) == chat_id@);
                }
                return true;
            }
            k = k + 1;
        }
        proof {
            if has_key(self.view().chat_ends, chat_end_key(), chat_id@) {
                let i = choose|i: int|
                    0 <= i < self.chat_ends@.len() && chat_end_key()(#[trigger] self.chat_ends@[i])
                        == chat_id@;
                assert(self.chat_ends@[i].chat_id@ == chat_id@);
            }
        }
        false
    }

    fn has_author_chat_call(&self, author_chat_id: &str) -> (r: bool)
        ensures
            r == has_key(self.view().author_chat_calls, author_chat_call_key(), author_chat_id@),
    {
        let mut k: usize = 0;
        while k < self.author_chat_calls.len()
            invariant
                k <= self.author_chat_calls@.len(),
                forall|i: int|
                    0 <= i < k ==> (#[trigger] self.author_chat_calls@[i]).author_chat_id@
                        != author_chat_id@,
            decreases self.author_chat_calls@.len() - k,
        {
            if str_eq(self.author_chat_calls[k].author_chat_id.as_str(), author_chat_id) {
                proof {
                    assert(author_chat_call_key()(self.author_chat_calls@[k as int])
                        == author_chat_id@);
                }
                return true;
            }
            k = k + 1;
        }
        proof {
            if has_key(self.view().author_chat_calls, author_chat_call_key(), author_chat_id@) {
                let i = choose|i: int|
                    0 <= i < self.author_chat_calls@.len() && author_chat_call_key()(
                        #[trigger] self.author_chat_calls@[i],
                    ) == author_chat_id@;
                assert(self.author_chat_calls@[i].author_chat_id@ == author_chat_id@);
            }
        }
        false
    }

    fn has_author_chat_ready(&self, author_chat_id: &str) -> (r: bool)
        ensures
            r == has_key(self.view().author_chat_readys, author_chat_ready_key(), author_chat_id@),
    {
        let mut k: usize = 0;
        while k < self.author_chat_readys.len()
            invariant
                k <= self.author_chat_readys@.len(),
                forall|i: int|
                    0 <= i < k ==> (#[trigger] self.author_chat_readys@[i]).author_chat_id@
                        != author_chat_id@,
            decreases self.author_chat_readys@.len() - k,
        {
            if str_eq(self.author_chat_readys[k].author_chat_id.as_str(), author_chat_id) {
                proof {
                    assert(author_chat_ready_key()(self.author_chat_readys@[k as int])
                        == author_chat_id@);
                }
                return true;
            }
            k = k + 1;
        }
        proof {
            if has_key(self.view().author_chat_readys, author_chat_ready_key(), author_chat_id@) {
                let i = choose|i: int|
                    0 <= i < self.author_chat_readys@.len() && author_chat_ready_key()(
                        #[trigger] self.author_chat_readys@[i],
                    ) == author_chat_id@;
                assert(self.author_chat_readys@[i].author_chat_id@ == author_chat_id@);
            }
        }
        false
    }

    fn has_author_chat_end(&self, author_chat_id: &str) -> (r: bool)
        ensures
            r == has_key(self.view().author_chat_ends, author_chat_end_key(), author_chat_id@),
    {
        let mut k: usize = 0;
        while k < self.author_chat_ends.len()
            invariant
                k <= self.author_chat_ends@.len(),
                forall|i: int|
                    0 <= i < k ==> (#[trigger] self.author_chat_ends@[i]).author_chat_id@
                        != author_chat_id@,
            decreases self.author_chat_ends@.len() - k,
        {
            if str_eq(self.author_chat_ends[k].author_chat_id.as_str(), author_chat_id) {
                proof {
                    assert(author_chat_end_key()(self.author_chat_ends@[k as int])
                        == author_chat_id@);
                }
                return true;
            }
            k = k + 1;
        }
        proof {
            if has_key(self.view().author_chat_ends, author_chat_end_key(), author_chat_id@) {
                let i = choose|i: int|
                    0 <= i < self.author_chat_ends@.len() && author_chat_end_key()(
                        #[trigger] self.author_chat_ends@[i],
                    ) == author_chat_id@;
                assert(self.author_chat_ends@[i].author_chat_id@ == author_chat_id@);
            }
        }
        false
    }

    /// The session's most recent stored title, walking back from the end.
    fn find_last_title(&self, live_id: &str) -> (r: Option<Title>)
        ensures
            (match (r, last_title(self.view().titles, live_id@)) {
                (Some(found), Some(stored)) => found.live_id@ == stored.live_id@ && opt_text_same(
                    found.title,
                    stored.title,
                ),
                (None, None) => true,
                _ => false,
            }),
    {
        proof {
            assert(self.titles@.subrange(0, self.titles@.len() as int) == self.titles@);
        }
        let mut k = self.titles.len();
        while k > 0
            invariant
                k <= self.titles@.len(),
                last_title(self.view().titles, live_id@) == last_title(
                    self.titles@.subrange(0, k as int),
                    live_id@,
                ),
            decreases k,
        {
            let ghost prefix = self.titles@.subrange(0, k as int);
            proof {
                assert(prefix.len() == k);
                assert(prefix.last() == self.titles@[k - 1]);
                assert(prefix.drop_last() == self.titles@.subrange(0, k - 1));
            }
            let row = &self.titles[k - 1];
            if str_eq(row.live_id.as_str(), live_id) {
                return Some(
                    Title {
                        live_id: row.live_id.clone(),
                        save_time: row.save_time,
                        title: clone_opt_string(&row.title),
                    },
                );
            }
            k = k - 1;
        }
        proof {
            assert(self.titles@.subrange(0, 0) =~= Seq::<Title>::empty());
        }
        None
    }

    /// Store a title unless it repeats the session's most recent one.
    fn title(&mut self, t: Title)
        requires
            old(self).wf(),
        ensures
            final(self).wf(),
            title_step(old(self).view().titles, final(self).view().titles, t),
            (final(self).view() == WriterView {
                titles: final(self).view().titles,
                ..old(self).view()
            }),
    {
        let skip = match self.find_last_title(t.live_id.as_str()) {
            Some(stored) => match (&stored.title, &t.title) {
                (Some(a), Some(b)) => str_eq(a.as_str(), b.as_str()),
                (None, None) => true,
                _ => false,
            },
            None => false,
        };
        if !skip {
            self.titles.push(t);
        }
    }

    /// Apply an end-of-stream count update to the session's profile row.
    fn update_count(
        &mut self,
        live_id: LiveId,
        fans_count: Option<i32>,
        medal_name: Option<String>,
        medal_count: Option<i32>,
    )
        requires
            old(self).wf(),
        ensures
            final(self).wf(),
            final(self).view().liver_info.len() == old(self).view().liver_info.len(),
            forall|i: int|
                0 <= i < old(self).view().liver_info.len()
                    ==> #[trigger] final(self).view().liver_info[i] == (if old(
                    self,
                ).view().liver_info[i].live_id@ == live_id@ {
                    spec_update_liver_row(
                        old(self).view().liver_info[i],
                        fans_count,
                        medal_name,
                        medal_count,
                    )
                } else {
                    old(self).view().liver_info[i]
                }),
            (final(self).view() == WriterView {
                liver_info: final(self).view().liver_info,
                ..old(self).view()
            }),
    {
        let ghost orig = self.liver_info@;
        let mut out: Vec<LiverInfo> = Vec::new();
        let mut k: usize = 0;
        while k < self.liver_info.len()
            invariant
                k <= orig.len(),
                self.liver_info@ == orig,
                out@.len() == k,
                forall|i: int|
                    0 <= i < k ==> #[trigger] out@[i] == (if orig[i].live_id@ == live_id@ {
                        spec_update_liver_row(orig[i], fans_count, medal_name, medal_count)
                    } else {
                        orig[i]
                    }),
            decreases orig.len() - k,
        {
            let row = &self.liver_info[k];
            if str_eq(row.live_id.as_str(), live_id.as_str()) {
                out.push(
                    LiverInfo {
                        live_id: row.live_id.clone(),
                        save_time: row.save_time,
                        liver_uid: row.liver_uid,
                        nickname: row.nickname.clone(),
                        avatar: row.avatar.clone(),
                        avatar_frame: row.avatar_frame.clone(),
                        following_count: row.following_count,
                        contribute_count: row.contribute_count,
                        live_begin_fans_count: row.live_begin_fans_count,
                        live_end_fans_count: fans_count,
                        signature: clone_opt_string(&row.signature),
                        verified_text: clone_opt_string(&row.verified_text),
                        is_join_up_college: row.is_join_up_college,
                        medal_name: clone_opt_string(&medal_name),
                        live_begin_medal_count: row.live_begin_medal_count,
                        live_end_medal_count: medal_count,
                    },
                );
            } else {
                out.push(
                    LiverInfo {
                        live_id: row.live_id.clone(),
                        save_time: row.save_time,
                        liver_uid: row.liver_uid,
                        nickname: row.nickname.clone(),
                        avatar: row.avatar.clone(),
                        avatar_frame: row.avatar_frame.clone(),
                        following_count: row.following_count,
                        contribute_count: row.contribute_count,
                        live_begin_fans_count: row.live_begin_fans_count,
                        live_end_fans_count: row.live_end_fans_count,
                        signature: clone_opt_string(&row.signature),
                        verified_text: clone_opt_string(&row.verified_text),
                        is_join_up_college: row.is_join_up_college,
                        medal_name: clone_opt_string(&row.medal_name),
                        live_begin_medal_count: row.live_begin_medal_count,
                        live_end_medal_count: row.live_end_medal_count,
                    },
                );
            }
            k = k + 1;
        }
        self.liver_info = out;
        proof {
            assert forall|i: int|
                0 <= i < orig.len() implies (#[trigger] self.liver_info@[i]).live_id@
                == orig[i].live_id@ by {}
            lemma_update_keeps_unique(orig, self.liver_info@, live_id@);
        }
    }

    /// Upsert the session's end-of-stream aggregate, embedding the running
    /// maximum viewer count and the banana total.
    fn summary(&mut self, s: Summary)
        requires
            old(self).wf(),
        ensures
            final(self).wf(),
            final(self).view().summaries == drop_summary(
                old(self).view().summaries,
                s.live_id@,
            ).push(
                Summary {
                    watch_online_max_count: old(self).view().max_watch,
                    banana_count: old(self).view().banana,
                    ..s
                },
            ),
            (final(self).view() == WriterView {
                summaries: final(self).view().summaries,
                ..old(self).view()
            }),
    {
        let ghost orig = self.summaries@;
        let row = Summary {
            live_id: s.live_id,
            save_time: s.save_time,
            duration: s.duration,
            like_count: s.like_count,
            watch_total_count: s.watch_total_count,
            watch_online_max_count: self.max_watch,
            banana_count: clone_opt_string(&self.banana),
        };
        let ghost target = row.live_id@;
        let mut out: Vec<Summary> = Vec::new();
        let mut k: usize = 0;
        while k < self.summaries.len()
            invariant
                k <= orig.len(),
                self.summaries@ == orig,
                target == row.live_id@,
                out@ == drop_summary(orig.subrange(0, k as int), target),
            decreases orig.len() - k,
        {
            let ghost prefix = orig.subrange(0, k as int);
            proof {
                assert(orig.subrange(0, k + 1).drop_last() == prefix);
                assert(orig.subrange(0, k + 1).last() == orig[k as int]);
            }
            let r = &self.summaries[k];
            if !str_eq(r.live_id.as_str(), row.live_id.as_str()) {
                out.push(
                    Summary {
                        live_id: r.live_id.clone(),
                        save_time: r.save_time,
                        duration: r.duration,
                        like_count: r.like_count.clone(),
                        watch_total_count: r.watch_total_count.clone(),
                        watch_online_max_count: r.watch_online_max_count,
                        banana_count: clone_opt_string(&r.banana_count),
                    },
                );
                proof {
                    assert(out@.drop_last() == drop_summary(prefix, target));
                    assert(out@.last() == orig[k as int]);
                }
            }
            k = k + 1;
        }
        proof {
            assert(orig.subrange(0, orig.len() as int) == orig);
            lemma_drop_keeps_unique(orig, target);
            lemma_drop_summary_drops(orig, target);
            assert(!has_key(drop_summary(orig, target), summary_key(), target)) by {
                if has_key(drop_summary(orig, target), summary_key(), target) {
                    let i = choose|i: int|
                        0 <= i < drop_summary(orig, target).len() && summary_key()(
                            #[trigger] drop_summary(orig, target)[i],
                        ) == target;
                }
            }
            lemma_key_push(drop_summary(orig, target), row, summary_key());
        }
        out.push(row);
        self.summaries = out;
    }

    /// Track a viewer-count reading; persist a sample only when a tick is
    /// pending.
    fn watching_count(&mut self, info: DisplayInfoSignal)
        requires
            old(self).wf(),
        ensures
            final(self).wf(),
            writer_step(old(self).view(), final(self).view(), LiveData::WatchingCount(info)),
    {
        let count = parse_watching_count(info.watching_count.as_str());
        match (count, self.max_watch) {
            (Some(c), None) => {
                self.max_watch = Some(c);
            },
            (Some(c), Some(m)) => {
                if c > m {
                    self.max_watch = Some(c);
                }
            },
            _ => {},
        }
        if self.pending_ticks > 0 {
            self.pending_ticks = self.pending_ticks - 1;
            let row = WatchingCount::new(self.live_id.clone(), count);
            self.watching_counts.push(row);
            proof {
                assert(self.watching_counts@.drop_last() == old(self).view().watching_counts);
            }
        }
    }

    /// Store the unseen packets of one red-packet list, in order.
    fn redpacks(&mut self, items: Vec<RedpackItem>)
        requires
            old(self).wf(),
        ensures
            final(self).wf(),
            redpack_list_step(
                old(self).view().redpacks,
                final(self).view().redpacks,
                old(self).view().live_id,
                items@,
            ),
            (final(self).view() == WriterView {
                redpacks: final(self).view().redpacks,
                ..old(self).view()
            }),
    {
        let total = items.len();
        let ghost all_items = items@;
        let ghost orig = self.redpacks@;
        let mut rest = items;
        let mut k: usize = 0;
        while k < total
            invariant
                k <= total,
                total == all_items.len(),
                rest@ == all_items.subrange(k as int, total as int),
                self.view().redpacks.len() >= orig.len(),
                self.view().redpacks.subrange(0, orig.len() as int) == orig,
                keys_unique(self.view().redpacks, redpack_key()),
                forall|key: Seq<char>|
                    has_key(self.view().redpacks, redpack_key(), key) <==> (has_key(
                        orig,
                        redpack_key(),
                        key,
                    ) || items_have_id(all_items, k as int, key)),
                rows_from_items(
                    self.view().redpacks,
                    orig.len() as int,
                    old(self).view().live_id,
                    all_items,
                ),
                (self.view() == WriterView {
                    redpacks: self.view().redpacks,
                    ..old(self).view()
                }),
            decreases total - k,
        {
            let ghost pre_rows = self.view().redpacks;
            let ghost pre_items = rest@;
            let item = rest.remove(0);
            let ghost item_v = item;
            proof {
                assert(pre_items[0] == all_items[k as int]);
                assert(rest@ =~= all_items.subrange(k + 1, total as int));
                assert(item_v == all_items[k as int]);
            }
            let seen = self.has_redpack(item.red_pack_id.as_str());
            if !seen {
                let r = Redpack::new(self.live_id.clone(), item);
                proof {
                    assert(redpack_key()(r) == item_v.red_pack_id@);
                    assert(redpack_matches_item(r, old(self).view().live_id, item_v));
                    lemma_key_push(pre_rows, r, redpack_key());
                }
                self.redpacks.push(r);
                proof {
                    assert(self.redpacks@ == pre_rows.push(r));
                    assert(self.redpacks@.subrange(0, orig.len() as int) =~= orig);
                    assert(rows_from_items(
                        self.view().redpacks,
                        orig.len() as int,
                        old(self).view().live_id,
                        all_items,
                    )) by {
                        assert forall|i: int|
                            orig.len() <= i < self.view().redpacks.len() implies exists|j: int|
                                0 <= j < all_items.len() && redpack_matches_item(
                                    #[trigger] self.view().redpacks[i],
                                    old(self).view().live_id,
                                    #[trigger] all_items[j],
                                ) by {
                            if i < pre_rows.len() {
                                assert(self.view().redpacks[i] == pre_rows[i]);
                                assert(rows_from_items(
                                    pre_rows,
                                    orig.len() as int,
                                    old(self).view().live_id,
                                    all_items,
                                ));
                                let j = choose|j: int|
                                    0 <= j < all_items.len() && redpack_matches_item(
                                        #[trigger] pre_rows[i],
                                        old(self).view().live_id,
                                        #[trigger] all_items[j],
                                    );
                                assert(redpack_matches_item(
                                    self.view().redpacks[i],
                                    old(self).view().live_id,
                                    all_items[j],
                                ));
                            } else {
                                assert(self.view().redpacks[i] == r);
                                assert(redpack_matches_item(r, old(self).view().live_id, all_items[k as int]));
                            }
                        }
                    }
                }
            }
            proof {
                assert forall|key: Seq<char>|
                    has_key(self.view().redpacks, redpack_key(), key) <==> (has_key(
                        orig,
                        redpack_key(),
                        key,
                    ) || items_have_id(all_items, k + 1, key)) by {
                    if has_key(self.view().redpacks, redpack_key(), key) {
                        if has_key(pre_rows, redpack_key(), key) {
                            if items_have_id(all_items, k as int, key) {
                                let j = choose|j: int|
                                    0 <= j < k && (#[trigger] all_items[j]).red_pack_id@ == key;
                                assert(items_have_id(all_items, k + 1, key));
                            }
                        } else {
                            assert(key == item_v.red_pack_id@);
                            assert(all_items[k as int].red_pack_id@ == key);
                            assert(items_have_id(all_items, k + 1, key));
                        }
                    }
                    if has_key(orig, redpack_key(), key) {
                        assert(has_key(pre_rows, redpack_key(), key));
                        let w = choose|w: int|
                            0 <= w < pre_rows.len() && redpack_key()(#[trigger] pre_rows[w])
                                == key;
                        assert(redpack_key()(self.view().redpacks[w]) == key);
                        assert(has_key(self.view().redpacks, redpack_key(), key));
                    }
                    if items_have_id(all_items, k + 1, key) {
                        let j = choose|j: int|
                            0 <= j < k + 1 && (#[trigger] all_items[j]).red_pack_id@ == key;
                        if j < k {
                            assert(items_have_id(all_items, k as int, key));
                            assert(has_key(pre_rows, redpack_key(), key));
                            let w = choose|w: int|
                                0 <= w < pre_rows.len() && redpack_key()(#[trigger] pre_rows[w])
                                    == key;
                            assert(redpack_key()(self.view().redpacks[w]) == key);
                        } else {
                            assert(key == item_v.red_pack_id@);
                            if seen {
                                let w = choose|w: int|
                                    0 <= w < pre_rows.len() && redpack_key()(
                                        #[trigger] pre_rows[w],
                                    ) == key;
                                assert(redpack_key()(self.view().redpacks[w]) == key);
                            }
                        }
                        assert(has_key(self.view().redpacks, redpack_key(), key));
                    }
                }
            }
            k = k + 1;
        }
        proof {
            assert(self.view().redpacks.len() >= orig.len());
            assert(self.view().redpacks.subrange(0, orig.len() as int) == orig);
            assert(forall|key: Seq<char>|
                has_key(self.view().redpacks, redpack_key(), key) <==> (has_key(
                    orig,
                    redpack_key(),
                    key,
                ) || items_have_id(all_items, all_items.len() as int, key)));
            assert(rows_from_items(
                self.view().redpacks,
                orig.len() as int,
                old(self).view().live_id,
                all_items,
            ));
            assert(redpack_list_step(
                orig,
                self.view().redpacks,
                old(self).view().live_id,
                all_items,
            ));
        }
    }
}

/// The store's unique indices, and the sampling bound.
pub open spec fn writer_view_wf(v: WriterView) -> bool {
    &&& keys_unique(v.live_info, live_info_key())
    &&& keys_unique(v.liver_info, liver_info_key())
    &&& keys_unique(v.summaries, summary_key())
    &&& keys_unique(v.redpacks, redpack_key())
    &&& keys_unique(v.chat_calls, chat_call_key())
    &&& keys_unique(v.chat_readys, chat_ready_key())
    &&& keys_unique(v.chat_ends, chat_end_key())
    &&& keys_unique(v.author_chat_calls, author_chat_call_key())
    &&& keys_unique(v.author_chat_readys, author_chat_ready_key())
    &&& keys_unique(v.author_chat_ends, author_chat_end_key())
    &&& v.watching_counts.len() + v.pending_ticks <= v.ticks_received
}

/// Updating profile rows in place keeps their keys, hence their
/// uniqueness.
proof fn lemma_update_keeps_unique(orig: Seq<LiverInfo>, out: Seq<LiverInfo>, live_id: Seq<char>)
    requires
        keys_unique(orig, liver_info_key()),
        out.len() == orig.len(),
        forall|i: int|
            0 <= i < orig.len() ==> (#[trigger] out[i]).live_id@ == orig[i].live_id@,
    ensures
        keys_unique(out, liver_info_key()),
{
    assert forall|i: int, j: int|
        0 <= i < j < out.len() implies liver_info_key()(#[trigger] out[i]) != liver_info_key()(
        #[trigger] out[j],
    ) by {
        assert(liver_info_key()(orig[i]) != liver_info_key()(orig[j]));
    }
}

/// Law: feeding a writer any number of title events with identical content
/// back to back inserts at most one row — once the first has landed, the
/// rest are suppressed.  Stated for one further event; repetition follows
/// by applying it again to the unchanged table.
pub proof fn lemma_title_idempotent(
    pre: Seq<Title>,
    mid: Seq<Title>,
    post: Seq<Title>,
    t1: Title,
    t2: Title,
)
    requires
        title_step(pre, mid, t1),
        title_step(mid, post, t2),
        t1.live_id@ == t2.live_id@,
        opt_text_same(t1.title, t2.title),
    ensures
        post == mid,
{
    match last_title(pre, t1.live_id@) {
        Some(stored) if opt_text_same(stored.title, t1.title) => {
            assert(mid == pre);
            assert(opt_text_same(stored.title, t2.title));
        },
        _ => {
            assert(mid == pre.push(t1));
            assert(mid.last() == t1);
            assert(last_title(mid, t2.live_id@) == Some(t1));
        },
    }
}

/// Law: for every red-packet id that any list ever carried, the store
/// holds exactly one row with that id, however often the id was repeated.
pub proof fn lemma_redpack_dedup(
    pre: Seq<Redpack>,
    post: Seq<Redpack>,
    live_id: Seq<char>,
    items: Seq<RedpackItem>,
    id: Seq<char>,
)
    requires
        keys_unique(pre, redpack_key()),
        redpack_list_step(pre, post, live_id, items),
        keys_unique(post, redpack_key()),
        has_key(pre, redpack_key(), id) || exists|j: int|
            0 <= j < items.len() && (#[trigger] items[j]).red_pack_id@ == id,
    ensures
        count_key(post, redpack_key(), id) == 1,
{
    assert(has_key(post, redpack_key(), id));
    lemma_count_key_one(post, redpack_key(), id);
}

/// Law: successive end-of-stream aggregates for one session leave exactly
/// one row for it, holding the latest values.
pub proof fn lemma_summary_upsert(
    pre: Seq<Summary>,
    mid: Seq<Summary>,
    post: Seq<Summary>,
    r1: Summary,
    r2: Summary,
)
    requires
        mid == drop_summary(pre, r1.live_id@).push(r1),
        post == drop_summary(mid, r2.live_id@).push(r2),
        r1.live_id@ == r2.live_id@,
    ensures
        post == drop_summary(pre, r2.live_id@).push(r2),
        count_key(post, summary_key(), r2.live_id@) == 1,
        post.last() == r2,
{
    let id = r2.live_id@;
    lemma_drop_summary_drops(pre, id);
    lemma_drop_summary_drops(mid, id);
    lemma_drop_of_dropped(drop_summary(pre, id), r1, id);
    lemma_count_push(drop_summary(pre, id), r2, id);
}

/// Every row that survives a drop stood in the table.
proof fn lemma_drop_sub(rows: Seq<Summary>, id: Seq<char>, k: Seq<char>)
    ensures
        has_key(drop_summary(rows, id), summary_key(), k) ==> has_key(rows, summary_key(), k),
    decreases rows.len(),
{
    if rows.len() > 0 {
        lemma_drop_sub(rows.drop_last(), id, k);
        let d = drop_summary(rows, id);
        if has_key(d, summary_key(), k) {
            let head = drop_summary(rows.drop_last(), id);
            if rows.last().live_id@ == id {
                assert(has_key(head, summary_key(), k));
            } else {
                let i = choose|i: int|
                    0 <= i < d.len() && summary_key()(#[trigger] d[i]) == k;
                if i < head.len() {
                    assert(summary_key()(head[i]) == k);
                    assert(has_key(head, summary_key(), k));
                } else {
                    assert(d[i] == rows.last());
                    assert(summary_key()(rows[rows.len() - 1]) == k);
                }
            }
            if has_key(head, summary_key(), k) {
                let w = choose|w: int|
                    0 <= w < rows.drop_last().len() && summary_key()(
                        #[trigger] rows.drop_last()[w],
                    ) == k;
                assert(summary_key()(rows[w]) == k);
            }
        }
    }
}

/// Dropping a session keeps the remaining keys unique.
proof fn lemma_drop_keeps_unique(rows: Seq<Summary>, id: Seq<char>)
    requires
        keys_unique(rows, summary_key()),
    ensures
        keys_unique(drop_summary(rows, id), summary_key()),
    decreases rows.len(),
{
    if rows.len() > 0 {
        let head = rows.drop_last();
        assert(keys_unique(head, summary_key())) by {
            assert(forall|i: int| 0 <= i < head.len() ==> head[i] == rows[i]);
        }
        lemma_drop_keeps_unique(head, id);
        if rows.last().live_id@ != id {
            let d = drop_summary(head, id);
            assert(!has_key(d, summary_key(), summary_key()(rows.last()))) by {
                if has_key(d, summary_key(), summary_key()(rows.last())) {
                    lemma_drop_sub(head, id, summary_key()(rows.last()));
                    let w = choose|w: int|
                        0 <= w < head.len() && summary_key()(#[trigger] head[w]) == summary_key()(
                            rows.last(),
                        );
                    assert(summary_key()(rows[w]) == summary_key()(rows[rows.len() - 1]));
                }
            }
            lemma_key_push(d, rows.last(), summary_key());
        }
    }
}

/// Dropping a session leaves no row of it.
proof fn lemma_drop_summary_drops(rows: Seq<Summary>, id: Seq<char>)
    ensures
        !has_key(drop_summary(rows, id), summary_key(), id),
        forall|i: int|
            0 <= i < drop_summary(rows, id).len() ==> (#[trigger] drop_summary(rows, id)[i]).live_id@
                != id,
    decreases rows.len(),
{
    if rows.len() > 0 {
        lemma_drop_summary_drops(rows.drop_last(), id);
        if has_key(drop_summary(rows, id), summary_key(), id) {
            let i = choose|i: int|
                0 <= i < drop_summary(rows, id).len() && summary_key()(
                    #[trigger] drop_summary(rows, id)[i],
                ) == id;
            assert(drop_summary(rows, id)[i].live_id@ == id);
        }
    } else {
        if has_key(drop_summary(rows, id), summary_key(), id) {
            let i = choose|i: int|
                0 <= i < drop_summary(rows, id).len() && summary_key()(
                    #[trigger] drop_summary(rows, id)[i],
                ) == id;
        }
    }
}

/// Dropping a session from a table that no longer holds it, even after one
/// row of it was appended, removes only that row.
proof fn lemma_drop_of_dropped(clean: Seq<Summary>, r: Summary, id: Seq<char>)
    requires
        r.live_id@ == id,
        forall|i: int| 0 <= i < clean.len() ==> (#[trigger] clean[i]).live_id@ != id,
    ensures
        drop_summary(clean.push(r), id) == clean,
    decreases clean.len(),
{
    assert(clean.push(r).drop_last() == clean);
    assert(clean.push(r).last() == r);
    lemma_drop_noop(clean, id);
}

/// Dropping a session that a table does not hold changes nothing.
proof fn lemma_drop_noop(rows: Seq<Summary>, id: Seq<char>)
    requires
        forall|i: int| 0 <= i < rows.len() ==> (#[trigger] rows[i]).live_id@ != id,
    ensures
        drop_summary(rows, id) == rows,
    decreases rows.len(),
{
    if rows.len() > 0 {
        assert(forall|i: int|
            0 <= i < rows.drop_last().len() ==> (#[trigger] rows.drop_last()[i]).live_id@ != id);
        lemma_drop_noop(rows.drop_last(), id);
        assert(rows.last().live_id@ != id);
        assert(drop_summary(rows, id) == rows.drop_last().push(rows.last()));
        assert(rows.drop_last().push(rows.last()) == rows);
    }
}

/// Appending the one row of a session to a table free of it makes its
/// count one.
proof fn lemma_count_push(clean: Seq<Summary>, r: Summary, id: Seq<char>)
    requires
        r.live_id@ == id,
        forall|i: int| 0 <= i < clean.len() ==> (#[trigger] clean[i]).live_id@ != id,
    ensures
        count_key(clean.push(r), summary_key(), id) == 1,
{
    assert(!has_key(clean, summary_key(), id)) by {
        if has_key(clean, summary_key(), id) {
            let i = choose|i: int|
                0 <= i < clean.len() && summary_key()(#[trigger] clean[i]) == id;
        }
    }
    lemma_count_key_absent(clean, summary_key(), id);
    assert(clean.push(r).drop_last() == clean);
    assert(clean.push(r).last() == r);
}

/// Law: over any window, the number of persisted viewer-count samples
/// never exceeds the number of ticks received: the bound is part of the
/// writer's invariant, which every event preserves.
pub proof fn lemma_sampling_bound(s: WriterView)
    requires
        writer_view_wf(s),
    ensures
        s.watching_counts.len() <= s.ticks_received,
{
}

} // verus!
