//! The messages that flow through the ingest pipeline: events bound for a
//! stream's writer, rows bound for the global catalog writer, and the
//! messages the supervisor itself receives.

use vstd::prelude::*;

use crate::data::{
    AuthorChatCall, AuthorChatChangeSoundConfig, AuthorChatEnd, AuthorChatReady, ChatCall,
    ChatEnd, ChatReady, Comment, DisplayInfoSignal, Follow, Gift, JoinClub, Live, LiveId,
    LiveInfo, LiverInfo, RedpackListSignal, StreamData, StreamerProfile, Summary, SummaryData,
    Title,
};

verus! {

/// One event bound for a stream's writer.
#[derive(Clone, Debug)]
pub enum LiveData {
    LiveInfo(LiveInfo),
    Title(Title),
    LiverInfo(LiverInfo),
    UpdateCount(LiveId, Option<i32>, Option<String>, Option<i32>),
    Summary(Summary),
    Comment(Comment),
    Follow(Follow),
    Gift(Gift),
    JoinClub(JoinClub),
    Banana(Option<String>),
    WatchingCount(DisplayInfoSignal),
    Redpack(RedpackListSignal),
    ChatCall(ChatCall),
    ChatReady(ChatReady),
    ChatEnd(ChatEnd),
    AuthorChatCall(AuthorChatCall),
    AuthorChatReady(AuthorChatReady),
    AuthorChatEnd(AuthorChatEnd),
    AuthorChatChangeSoundConfig(AuthorChatChangeSoundConfig),
    Stop,
}

/// One row bound for the global catalog writer.
#[derive(Clone, Debug)]
pub enum AllLiveData {
    Live(Live),
    Summary(LiveId, SummaryData),
}

/// One entry of the discovered live list: a streamer, their profile, and
/// the stream they are running if the API reported one.
#[derive(Clone, Debug, Default)]
pub struct LiveListEntry {
    pub author_id: i64,
    pub user: StreamerProfile,
    pub live_data: Option<StreamData>,
}

/// What the supervisor receives.
#[derive(Clone, Debug)]
pub enum LiveMessage {
    LiveList(Vec<LiveListEntry>),
    StopDanmaku(LiveId),
    StopSummary(LiveId),
    Command(crate::message::DataCenterMessage),
}


/// What the supervisor decides to do; the surrounding runtime performs
/// each action (sends the row, spawns the task, persists the set).
#[derive(Clone, Debug)]
pub enum Action {
    /// Record a newly discovered stream in the global catalog.
    EmitLive(Live),
    /// Fetch the gift catalog of a newly discovered stream.
    FetchGiftList(LiveId),
    /// Tell an active stream's writer that the title changed.
    SendTitle(LiveId, Title),
    /// Open a recording pipeline: a chat task and a writer thread.
    SpawnRecorder { live_id: LiveId, liver_uid: i64, user: StreamerProfile, data: StreamData },
    /// Start the global summary finalizer for a stream that left the list.
    SpawnSummary(LiveId),
    /// Persist the capture set after a mutation, and forward the reply.
    SaveConfig(Option<crate::message::ToolMessage>),
}

/// One stream being recorded: its session id and the title last seen.
#[derive(Clone, Debug, Default)]
pub struct ActiveEntry {
    pub live_id: String,
    pub title: Option<String>,
}

/// The session id an entry reports, when it reports a running stream.
pub open spec fn entry_id(e: LiveListEntry) -> Option<Seq<char>> {
    match e.live_data {
        Some(d) => Some(d.live_id@),
        None => None,
    }
}

/// Some entry of the list reports this session.
pub open spec fn list_has_id(list: Seq<LiveListEntry>, id: Seq<char>) -> bool {
    exists|i: int| 0 <= i < list.len() && entry_id(#[trigger] list[i]) == Some(id)
}

/// Whether the entry reports a running stream of an opted-in streamer.
pub open spec fn entry_captured(e: LiveListEntry, capture: Seq<i64>) -> bool {
    entry_id(e) is Some && capture.contains(e.author_id)
}

/// Some captured entry of the list reports this session.
pub open spec fn list_has_captured_id(
    list: Seq<LiveListEntry>,
    id: Seq<char>,
    capture: Seq<i64>,
) -> bool {
    exists|i: int|
        0 <= i < list.len() && entry_captured(#[trigger] list[i], capture) && entry_id(list[i])
            == Some(id)
}

/// The title of the last captured entry reporting this session, if any.
pub open spec fn last_captured_title(
    list: Seq<LiveListEntry>,
    id: Seq<char>,
    capture: Seq<i64>,
) -> Option<Option<String>>
    decreases list.len(),
{
    if list.len() == 0 {
        None
    } else if entry_captured(list.last(), capture) && entry_id(list.last()) == Some(id) {
        Some(list.last().live_data->Some_0.title)
    } else {
        last_captured_title(list.drop_last(), id, capture)
    }
}

} // verus!
