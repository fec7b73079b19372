//! The live-event entities that the pipeline normalizes upstream signals
//! into, and the plain-value shapes in which the upstream collaborators
//! (the site's HTTP API and the chat transport) hand their data over.
//!
//! Every entity carries the `live_id` of its broadcast session and a
//! timestamp in epoch milliseconds.  The constructors here are the whole
//! normalization step; what they compute is stated exactly, except for the
//! clock reading taken at construction time.

use vstd::prelude::*;

verus! {

/// Whether a user is a manager of the live room.
pub type Manager = bool;

/// Identifier of one broadcast session, stable for its lifetime.
pub type LiveId = String;

/// Relies on chrono's UTC clock: the number of milliseconds since the Unix
/// epoch.  Nothing is claimed of a clock reading.
#[verifier::external_body]
pub fn unix_time() -> (r: i64) {
    chrono::Utc::now().timestamp_millis()
}

/// The JSON encoding of a list of 32-bit integers, as serde_json writes
/// it.  The encoding is a function of the numbers alone.
pub uninterp spec fn json_int_list(v: Seq<i32>) -> Seq<char>;

/// Relies on serde_json::to_string: encoding a list of integers depends on
/// the numbers alone, and cannot fail (serde_json fails only on a failing
/// serializer or a map with non-string keys).
#[verifier::external_body]
fn json_i32_list(v: &Vec<i32>) -> (r: String)
    ensures
        r@ == json_int_list(v@),
{
    serde_json::to_string(v).expect("encoding a list of integers cannot fail")
}

/// The first entry of a list of URLs, if any: upstream hands pictures as
/// CDN lists and only the first is kept.
pub open spec fn spec_first_url(urls: Seq<String>) -> Option<String> {
    if urls.len() > 0 {
        Some(urls[0])
    } else {
        None
    }
}

fn first_url(urls: &Vec<String>) -> (r: Option<String>)
    ensures
        r == spec_first_url(urls@),
{
    if urls.len() > 0 {
        Some(urls[0].clone())
    } else {
        None
    }
}

pub(crate) fn clone_opt_string(o: &Option<String>) -> (r: Option<String>)
    ensures
        r == *o,
{
    match o {
        Some(s) => Some(s.clone()),
        None => None,
    }
}

/// What the chat transport reports of a user's room identity.
#[derive(Clone, Copy, Debug, PartialEq, Eq, Structural)]
pub enum ManagerKind {
    Normal,
    Other,
}

/// A user's manager flag: present only when an identity was reported.
pub open spec fn spec_manager(identity: Option<ManagerKind>) -> Option<bool> {
    match identity {
        Some(kind) => Some(kind == ManagerKind::Normal),
        None => None,
    }
}

/// The category a live stream is filed under.
#[derive(Clone, Debug, Default, PartialEq, Eq, Hash)]
pub struct LiveType {
    pub id: i32,
    pub name: String,
    pub category_id: i32,
    pub category_name: String,
}

/// What the site's API reports of one live stream.
#[derive(Clone, Debug, Default)]
pub struct StreamData {
    pub live_id: String,
    pub stream_name: String,
    pub create_time: i64,
    pub title: Option<String>,
    pub cover_urls: Option<Vec<String>>,
    pub live_type: Option<LiveType>,
    pub has_fans_club: bool,
    pub portrait: bool,
    pub panoramic: bool,
    pub disable_danmaku_show: bool,
    pub paid_show_user_buy_status: bool,
}

/// What the site's API reports of a streamer's profile.
#[derive(Clone, Debug, Default)]
pub struct StreamerProfile {
    pub name: String,
    pub head_url: String,
    pub avatar_frame_mobile_img: String,
    pub following_count_value: i32,
    pub contribute_count_value: i32,
    pub fan_count_value: i32,
    pub signature: Option<String>,
    pub verified_text: Option<String>,
    pub is_join_up_college: Option<bool>,
}

/// The site's end-of-stream aggregate for one session.
#[derive(Clone, Debug, Default, PartialEq)]
pub struct SummaryData {
    pub live_duration_ms: i64,
    pub like_count: String,
    pub watch_count: String,
}

impl SummaryData {
    /// Whether two aggregates agree, field for field.
    pub open spec fn spec_same_as(&self, other: &SummaryData) -> bool {
        &&& self.live_duration_ms == other.live_duration_ms
        &&& self.like_count@ == other.like_count@
        &&& self.watch_count@ == other.watch_count@
    }

    /// Whether two fetched aggregates agree, field for field.
    pub fn same_as(&self, other: &SummaryData) -> (r: bool)
        ensures
            r == self.spec_same_as(other),
    {
        self.live_duration_ms == other.live_duration_ms && crate::text::str_eq(
            self.like_count.as_str(),
            other.like_count.as_str(),
        ) && crate::text::str_eq(self.watch_count.as_str(), other.watch_count.as_str())
    }
}

/// One stream's description as recorded in the global catalog store.
#[derive(Clone, Debug, Default)]
pub struct Live {
    pub live_id: LiveId,
    pub liver_uid: i64,
    pub nickname: String,
    pub stream_name: String,
    pub start_time: i64,
    pub title: Option<String>,
    pub live_type: Option<LiveType>,
    pub portrait: Option<bool>,
    pub panoramic: Option<bool>,
    pub disable_danmaku_show: Option<bool>,
    pub duration: Option<i64>,
    pub like_count: Option<String>,
    pub watch_count: Option<String>,
}

impl Live {
    pub fn new(liver_uid: i64, data: &StreamData, info: &StreamerProfile) -> (r: Live)
        ensures
            r.live_id == data.live_id,
            r.liver_uid == liver_uid,
            r.nickname == info.name,
            r.stream_name == data.stream_name,
            r.start_time == data.create_time,
            r.title == data.title,
            r.live_type == data.live_type,
            r.portrait == Some(data.portrait),
            r.panoramic == Some(data.panoramic),
            r.disable_danmaku_show == Some(data.disable_danmaku_show),
            r.duration matches None,
            r.like_count matches None,
            r.watch_count matches None,
    {
        Live {
            live_id: data.live_id.clone(),
            liver_uid,
            nickname: info.name.clone(),
            stream_name: data.stream_name.clone(),
            start_time: data.create_time,
            title: clone_opt_string(&data.title),
            live_type: clone_live_type(&data.live_type),
            portrait: Some(data.portrait),
            panoramic: Some(data.panoramic),
            disable_danmaku_show: Some(data.disable_danmaku_show),
            duration: None,
            like_count: None,
            watch_count: None,
        }
    }
}

fn clone_live_type(o: &Option<LiveType>) -> (r: Option<LiveType>)
    ensures
        r == *o,
{
    match o {
        Some(t) => Some(
            LiveType {
                id: t.id,
                name: t.name.clone(),
                category_id: t.category_id,
                category_name: t.category_name.clone(),
            },
        ),
        None => None,
    }
}

/// Static description of one live session, stored once per `live_id`.
#[derive(Clone, Debug, Default)]
pub struct LiveInfo {
    pub live_id: LiveId,
    pub liver_uid: i64,
    pub liver_info: Option<LiverInfo>,
    pub stream_name: String,
    pub start_time: i64,
    pub title: Option<Vec<Title>>,
    pub cover: Option<String>,
    pub live_type: Option<LiveType>,
    pub has_fans_club: bool,
    pub portrait: bool,
    pub panoramic: bool,
    pub disable_danmaku_show: bool,
    pub paid_show_user_buy_status: bool,
    pub summary: Option<Summary>,
}

impl LiveInfo {
    pub fn new(liver_uid: i64, data: StreamData) -> (r: LiveInfo)
        ensures
            r.live_id == data.live_id,
            r.liver_uid == liver_uid,
            r.liver_info matches None,
            r.stream_name == data.stream_name,
            r.start_time == data.create_time,
            r.title matches None,
            r.cover == (match data.cover_urls {
                Some(urls) => spec_first_url(urls@),
                None => None::<String>,
            }),
            r.live_type == data.live_type,
            r.has_fans_club == data.has_fans_club,
            r.portrait == data.portrait,
            r.panoramic == data.panoramic,
            r.disable_danmaku_show == data.disable_danmaku_show,
            r.paid_show_user_buy_status == data.paid_show_user_buy_status,
            r.summary matches None,
    {
        let cover = match &data.cover_urls {
            Some(urls) => first_url(urls),
            None => None,
        };
        LiveInfo {
            live_id: data.live_id,
            liver_uid,
            liver_info: None,
            stream_name: data.stream_name,
            start_time: data.create_time,
            title: None,
            cover,
            live_type: data.live_type,
            has_fans_club: data.has_fans_club,
            portrait: data.portrait,
            panoramic: data.panoramic,
            disable_danmaku_show: data.disable_danmaku_show,
            paid_show_user_buy_status: data.paid_show_user_buy_status,
            summary: None,
        }
    }
}

/// One observed title of a session; history is append-only and consecutive
/// equal titles are suppressed by the writer.
#[derive(Clone, Debug, Default)]
pub struct Title {
    pub live_id: LiveId,
    pub save_time: i64,
    pub title: Option<String>,
}

impl Title {
    pub fn new(live_id: LiveId, title: Option<String>) -> (r: Title)
        ensures
            r.live_id == live_id,
            r.title == title,
    {
        Title { live_id, save_time: unix_time(), title }
    }
}

/// The streamer's profile as recorded once per session.
#[derive(Clone, Debug, Default)]
pub struct LiverInfo {
    pub live_id: LiveId,
    pub save_time: i64,
    pub liver_uid: i64,
    pub nickname: String,
    pub avatar: String,
    pub avatar_frame: String,
    pub following_count: i32,
    pub contribute_count: i32,
    pub live_begin_fans_count: i32,
    pub live_end_fans_count: Option<i32>,
    pub signature: Option<String>,
    pub verified_text: Option<String>,
    pub is_join_up_college: Option<bool>,
    pub medal_name: Option<String>,
    pub live_begin_medal_count: Option<i32>,
    pub live_end_medal_count: Option<i32>,
}

impl LiverInfo {
    pub fn new(
        live_info: &LiveInfo,
        user_info: StreamerProfile,
        medal_name: Option<String>,
        medal_count: Option<i32>,
    ) -> (r: LiverInfo)
        ensures
            r.live_id == live_info.live_id,
            r.liver_uid == live_info.liver_uid,
            r.nickname == user_info.name,
            r.avatar == user_info.head_url,
            r.avatar_frame == user_info.avatar_frame_mobile_img,
            r.following_count == user_info.following_count_value,
            r.contribute_count == user_info.contribute_count_value,
            r.live_begin_fans_count == user_info.fan_count_value,
            r.live_end_fans_count matches None,
            r.signature == user_info.signature,
            r.verified_text == user_info.verified_text,
            r.is_join_up_college == user_info.is_join_up_college,
            r.medal_name == medal_name,
            r.live_begin_medal_count == medal_count,
            r.live_end_medal_count matches None,
    {
        LiverInfo {
            live_id: live_info.live_id.clone(),
            save_time: unix_time(),
            liver_uid: live_info.liver_uid,
            nickname: user_info.name,
            avatar: user_info.head_url,
            avatar_frame: user_info.avatar_frame_mobile_img,
            following_count: user_info.following_count_value,
            contribute_count: user_info.contribute_count_value,
            live_begin_fans_count: user_info.fan_count_value,
            live_end_fans_count: None,
            signature: user_info.signature,
            verified_text: user_info.verified_text,
            is_join_up_college: user_info.is_join_up_college,
            medal_name,
            live_begin_medal_count: medal_count,
            live_end_medal_count: None,
        }
    }
}

/// The end-of-stream aggregate stored per session, upserted by `live_id`.
#[derive(Clone, Debug, Default)]
pub struct Summary {
    pub live_id: LiveId,
    pub save_time: i64,
    pub duration: i64,
    pub like_count: String,
    pub watch_total_count: String,
    pub watch_online_max_count: Option<i32>,
    pub banana_count: Option<String>,
}

impl Summary {
    pub fn new(live_id: LiveId, summary: SummaryData) -> (r: Summary)
        ensures
            r.live_id == live_id,
            r.duration == summary.live_duration_ms,
            r.like_count == summary.like_count,
            r.watch_total_count == summary.watch_count,
            r.watch_online_max_count matches None,
            r.banana_count matches None,
    {
        Summary {
            live_id,
            save_time: unix_time(),
            duration: summary.live_duration_ms,
            like_count: summary.like_count,
            watch_total_count: summary.watch_count,
            watch_online_max_count: None,
            banana_count: None,
        }
    }
}

/// One gift kind of the site's catalog, keyed by a content hash so that
/// re-observing the same catalog entry inserts nothing new.
#[derive(Clone, Debug, Default, Hash)]
pub struct GiftInfo {
    pub id: Option<i64>,
    pub save_time: Option<i64>,
    pub gift_id: i64,
    pub gift_name: String,
    pub ar_live_name: String,
    pub pay_wallet_type: i32,
    pub gift_price: i32,
    pub webp_pic: Option<String>,
    pub png_pic: Option<String>,
    pub small_png_pic: Option<String>,
    pub allow_batch_send_size_list: Option<String>,
    pub can_combo: bool,
    pub can_draw: bool,
    pub magic_face_id: i32,
    pub vup_ar_id: i32,
    pub description: String,
    pub redpack_price: i32,
    pub corner_marker_text: String,
}

/// A gift kind as the site's API hands it over.
#[derive(Clone, Debug, Default)]
pub struct GiftPayload {
    pub gift_id: i64,
    pub gift_name: String,
    pub ar_live_name: String,
    pub pay_wallet_type: i32,
    pub gift_price: i32,
    pub webp_pic_list: Vec<String>,
    pub png_pic_list: Vec<String>,
    pub small_png_pic_list: Vec<String>,
    pub allow_batch_send_size_list: Vec<i32>,
    pub can_combo: bool,
    pub can_draw: bool,
    pub magic_face_id: i32,
    pub vup_ar_id: i32,
    pub description: String,
    pub redpack_price: i32,
    pub corner_marker_text: String,
}

/// The 64-bit content digest of a gift entry with its `id` and `save_time`
/// still unset.  The digest is a function of the hashed fields alone.
pub uninterp spec fn gift_content_hash(g: GiftInfo) -> i64;

/// `g` with the fields that do not enter the content digest cleared.
pub open spec fn spec_clear_gift(g: GiftInfo) -> GiftInfo {
    GiftInfo { id: None, save_time: None, ..g }
}

/// Relies on highway's `HighwayHasher` under its default all-zero key,
/// fed by the derived `Hash` of `GiftInfo`: the digest depends on the
/// hashed fields alone and is the same in every process.
#[verifier::external_body]
fn gift_info_digest(info: &GiftInfo) -> (r: i64)
    ensures
        r == gift_content_hash(*info),
{
    let mut hasher = highway::HighwayHasher::default();
    std::hash::Hash::hash(info, &mut hasher);
    std::hash::Hasher::finish(&hasher) as i64
}

impl GiftInfo {
    /// Normalize a catalog entry and key it by its content digest.
    pub fn from(gift: GiftPayload) -> (r: GiftInfo)
        ensures
            r.id == Some(gift_content_hash(spec_clear_gift(r))),
            r.save_time matches Some(_),
            r.gift_id == gift.gift_id,
            r.gift_name == gift.gift_name,
            r.ar_live_name == gift.ar_live_name,
            r.pay_wallet_type == gift.pay_wallet_type,
            r.gift_price == gift.gift_price,
            r.webp_pic == spec_first_url(gift.webp_pic_list@),
            r.png_pic == spec_first_url(gift.png_pic_list@),
            r.small_png_pic == spec_first_url(gift.small_png_pic_list@),
            r.allow_batch_send_size_list matches Some(json) && json@ == json_int_list(
                gift.allow_batch_send_size_list@,
            ),
            r.can_combo == gift.can_combo,
            r.can_draw == gift.can_draw,
            r.magic_face_id == gift.magic_face_id,
            r.vup_ar_id == gift.vup_ar_id,
            r.description == gift.description,
            r.redpack_price == gift.redpack_price,
            r.corner_marker_text == gift.corner_marker_text,
    {
        let mut gift_info = GiftInfo {
            id: None,
            save_time: None,
            gift_id: gift.gift_id,
            gift_name: gift.gift_name,
            ar_live_name: gift.ar_live_name,
            pay_wallet_type: gift.pay_wallet_type,
            gift_price: gift.gift_price,
            webp_pic: first_url(&gift.webp_pic_list),
            png_pic: first_url(&gift.png_pic_list),
            small_png_pic: first_url(&gift.small_png_pic_list),
            allow_batch_send_size_list: Some(json_i32_list(&gift.allow_batch_send_size_list)),
            can_combo: gift.can_combo,
            can_draw: gift.can_draw,
            magic_face_id: gift.magic_face_id,
            vup_ar_id: gift.vup_ar_id,
            description: gift.description,
            redpack_price: gift.redpack_price,
            corner_marker_text: gift.corner_marker_text,
        };
        let id = gift_info_digest(&gift_info);
        gift_info.id = Some(id);
        gift_info.save_time = Some(unix_time());
        gift_info
    }
}

/// A fan-club medal a user wears.
#[derive(Clone, Debug, Default, PartialEq)]
pub struct MedalInfo {
    pub uper_uid: i64,
    pub name: String,
    pub level: i32,
}

impl MedalInfo {
    /// The chat transport decodes a user's badge; an absent badge is no
    /// medal.
    pub fn new(uper_uid: i64, name: String, level: i32) -> (r: MedalInfo)
        ensures
            r.uper_uid == uper_uid,
            r.name == name,
            r.level == level,
    {
        MedalInfo { uper_uid, name, level }
    }
}

/// A chat user as the transport reports one.
#[derive(Clone, Debug, Default)]
pub struct SignalUserInfo {
    pub user_id: i64,
    pub nickname: String,
    pub avatar: Vec<String>,
    pub badge: Option<MedalInfo>,
    pub identity: Option<ManagerKind>,
}

/// A chat user as stored with each event.
#[derive(Clone, Debug, Default)]
pub struct UserInfo {
    pub user_id: i64,
    pub nickname: String,
    pub avatar: Option<String>,
    pub medal: Option<MedalInfo>,
    pub manager: Option<Manager>,
}

/// What `UserInfo::from` computes, as a value.
pub open spec fn spec_user_info(info: SignalUserInfo) -> UserInfo {
    UserInfo {
        user_id: info.user_id,
        nickname: info.nickname,
        avatar: spec_first_url(info.avatar@),
        medal: info.badge,
        manager: spec_manager(info.identity),
    }
}

/// The event-side user attached to an optional signal-side user.
pub open spec fn spec_user_info_opt(info: Option<SignalUserInfo>) -> Option<UserInfo> {
    match info {
        Some(u) => Some(spec_user_info(u)),
        None => None,
    }
}

impl UserInfo {
    pub fn from(info: SignalUserInfo) -> (r: UserInfo)
        ensures
            r == spec_user_info(info),
    {
        let manager = match info.identity {
            Some(kind) => Some(kind == ManagerKind::Normal),
            None => None,
        };
        UserInfo {
            user_id: info.user_id,
            nickname: info.nickname,
            avatar: first_url(&info.avatar),
            medal: info.badge,
            manager,
        }
    }
}

fn user_info_opt(info: Option<SignalUserInfo>) -> (r: Option<UserInfo>)
    ensures
        r == spec_user_info_opt(info),
{
    match info {
        Some(u) => Some(UserInfo::from(u)),
        None => None,
    }
}

/// The room display state as the chat transport reports it; only the
/// viewer-count text is read.
#[derive(Clone, Debug, Default)]
pub struct DisplayInfoSignal {
    pub watching_count: String,
}

/// The current red-packet list as the chat transport reports it.
#[derive(Clone, Debug, Default)]
pub struct RedpackListSignal {
    pub redpacks: Vec<RedpackItem>,
}

/// A comment posted in the live room.
#[derive(Clone, Debug, Default)]
pub struct Comment {
    pub live_id: LiveId,
    pub send_time: i64,
    pub user_info: Option<UserInfo>,
    pub content: String,
}

/// A comment as the chat transport reports one.
#[derive(Clone, Debug, Default)]
pub struct CommentSignal {
    pub send_time_ms: i64,
    pub user_info: Option<SignalUserInfo>,
    pub content: String,
}

impl Comment {
    pub fn new(live_id: LiveId, comment: CommentSignal) -> (r: Comment)
        ensures
            r.live_id == live_id,
            r.send_time == comment.send_time_ms,
            r.user_info == spec_user_info_opt(comment.user_info),
            r.content == comment.content,
    {
        Comment {
            live_id,
            send_time: comment.send_time_ms,
            user_info: user_info_opt(comment.user_info),
            content: comment.content,
        }
    }
}

/// A user starting to follow the streamer.
#[derive(Clone, Debug, Default)]
pub struct Follow {
    pub live_id: LiveId,
    pub send_time: i64,
    pub user_info: Option<UserInfo>,
}

/// A follow event as the chat transport reports one.
#[derive(Clone, Debug, Default)]
pub struct FollowSignal {
    pub send_time_ms: i64,
    pub user_info: Option<SignalUserInfo>,
}

impl Follow {
    pub fn new(live_id: LiveId, follow: FollowSignal) -> (r: Follow)
        ensures
            r.live_id == live_id,
            r.send_time == follow.send_time_ms,
            r.user_info == spec_user_info_opt(follow.user_info),
    {
        Follow {
            live_id,
            send_time: follow.send_time_ms,
            user_info: user_info_opt(follow.user_info),
        }
    }
}

/// A gift sent in the live room.
#[derive(Clone, Debug, Default)]
pub struct Gift {
    pub live_id: LiveId,
    pub send_time: i64,
    pub user_info: Option<UserInfo>,
    pub gift_id: i64,
    pub count: i32,
    pub combo: i32,
    pub value: i64,
    pub combo_id: String,
    pub slot_display_duration: i64,
    pub expire_duration: i64,
    pub draw_gift_info: Option<String>,
}

/// A gift event as the chat transport reports one; the draw info arrives
/// already written out as text.
#[derive(Clone, Debug, Default)]
pub struct GiftSignal {
    pub send_time_ms: i64,
    pub user: Option<SignalUserInfo>,
    pub gift_id: i64,
    pub count: i32,
    pub combo: i32,
    pub value: i64,
    pub combo_id: String,
    pub slot_display_duration_ms: i64,
    pub expire_duration_ms: i64,
    pub draw_gift_info: Option<String>,
}

impl Gift {
    pub fn new(live_id: LiveId, gift: GiftSignal) -> (r: Gift)
        ensures
            r.live_id == live_id,
            r.send_time == gift.send_time_ms,
            r.user_info == spec_user_info_opt(gift.user),
            r.gift_id == gift.gift_id,
            r.count == gift.count,
            r.combo == gift.combo,
            r.value == gift.value,
            r.combo_id == gift.combo_id,
            r.slot_display_duration == gift.slot_display_duration_ms,
            r.expire_duration == gift.expire_duration_ms,
            r.draw_gift_info == gift.draw_gift_info,
    {
        Gift {
            live_id,
            send_time: gift.send_time_ms,
            user_info: user_info_opt(gift.user),
            gift_id: gift.gift_id,
            count: gift.count,
            combo: gift.combo,
            value: gift.value,
            combo_id: gift.combo_id,
            slot_display_duration: gift.slot_display_duration_ms,
            expire_duration: gift.expire_duration_ms,
            draw_gift_info: gift.draw_gift_info,
        }
    }
}

/// A user of the site, as chat club events name one.
#[derive(Clone, Debug, Default)]
pub struct AcFunUserInfo {
    pub user_id: i64,
    pub nickname: String,
}

/// A club-event user as the chat transport reports one.
#[derive(Clone, Debug, Default)]
pub struct AcFunUserSignal {
    pub user_id: i64,
    pub name: String,
}

/// What `AcFunUserInfo::from` computes, as a value.
pub open spec fn spec_acfun_user(info: AcFunUserSignal) -> AcFunUserInfo {
    AcFunUserInfo { user_id: info.user_id, nickname: info.name }
}

/// The stored user attached to an optional club-event user.
pub open spec fn spec_acfun_user_opt(info: Option<AcFunUserSignal>) -> Option<AcFunUserInfo> {
    match info {
        Some(u) => Some(spec_acfun_user(u)),
        None => None,
    }
}

impl AcFunUserInfo {
    pub fn from(info: AcFunUserSignal) -> (r: AcFunUserInfo)
        ensures
            r == spec_acfun_user(info),
    {
        AcFunUserInfo { user_id: info.user_id, nickname: info.name }
    }
}

fn acfun_user_opt(info: Option<AcFunUserSignal>) -> (r: Option<AcFunUserInfo>)
    ensures
        r == spec_acfun_user_opt(info),
{
    match info {
        Some(u) => Some(AcFunUserInfo::from(u)),
        None => None,
    }
}

/// A user joining the streamer's fan club.
#[derive(Clone, Debug, Default)]
pub struct JoinClub {
    pub live_id: LiveId,
    pub join_time: i64,
    pub fans_info: Option<AcFunUserInfo>,
    pub uper_info: Option<AcFunUserInfo>,
}

/// A club-join event as the chat transport reports one.
#[derive(Clone, Debug, Default)]
pub struct JoinClubSignal {
    pub join_time_ms: i64,
    pub fans_info: Option<AcFunUserSignal>,
    pub uper_info: Option<AcFunUserSignal>,
}

impl JoinClub {
    pub fn new(live_id: LiveId, join_club: JoinClubSignal) -> (r: JoinClub)
        ensures
            r.live_id == live_id,
            r.join_time == join_club.join_time_ms,
            r.fans_info == spec_acfun_user_opt(join_club.fans_info),
            r.uper_info == spec_acfun_user_opt(join_club.uper_info),
    {
        JoinClub {
            live_id,
            join_time: join_club.join_time_ms,
            fans_info: acfun_user_opt(join_club.fans_info),
            uper_info: acfun_user_opt(join_club.uper_info),
        }
    }
}

/// One sampled viewer count.
#[derive(Clone, Debug, Default)]
pub struct WatchingCount {
    pub live_id: LiveId,
    pub save_time: i64,
    pub watching_count: Option<i32>,
}

impl WatchingCount {
    pub fn new(live_id: LiveId, watching_count: Option<i32>) -> (r: WatchingCount)
        ensures
            r.live_id == live_id,
            r.watching_count == watching_count,
    {
        WatchingCount { live_id, save_time: unix_time(), watching_count }
    }
}

/// One red packet observed in the room, unique by `redpack_id`.
#[derive(Clone, Debug, Default)]
pub struct Redpack {
    pub redpack_id: String,
    pub live_id: LiveId,
    pub save_time: i64,
    pub sender_info: Option<UserInfo>,
    pub amount: i64,
    pub redpack_biz_unit: String,
    pub get_token_latest_time: i64,
    pub grab_begin_time: i64,
    pub settle_begin_time: i64,
}

/// A red packet as the chat transport lists one.
#[derive(Clone, Debug, Default)]
pub struct RedpackItem {
    pub red_pack_id: String,
    pub sender: Option<SignalUserInfo>,
    pub redpack_amount: i64,
    pub redpack_biz_unit: String,
    pub get_token_latest_time_ms: i64,
    pub grab_begin_time_ms: i64,
    pub settle_begin_time: i64,
}

impl Redpack {
    pub fn new(live_id: LiveId, redpack: RedpackItem) -> (r: Redpack)
        ensures
            r.redpack_id == redpack.red_pack_id,
            r.live_id == live_id,
            r.sender_info == spec_user_info_opt(redpack.sender),
            r.amount == redpack.redpack_amount,
            r.redpack_biz_unit == redpack.redpack_biz_unit,
            r.get_token_latest_time == redpack.get_token_latest_time_ms,
            r.grab_begin_time == redpack.grab_begin_time_ms,
            r.settle_begin_time == redpack.settle_begin_time,
    {
        Redpack {
            redpack_id: redpack.red_pack_id,
            live_id,
            save_time: unix_time(),
            sender_info: user_info_opt(redpack.sender),
            amount: redpack.redpack_amount,
            redpack_biz_unit: redpack.redpack_biz_unit,
            get_token_latest_time: redpack.get_token_latest_time_ms,
            grab_begin_time: redpack.grab_begin_time_ms,
            settle_begin_time: redpack.settle_begin_time,
        }
    }
}

/// A viewer calling in to chat.
#[derive(Clone, Debug, Default)]
pub struct ChatCall {
    pub chat_id: String,
    pub live_id: String,
    pub call_time: i64,
}

/// A chat call as the transport reports one; it carries its own `live_id`.
#[derive(Clone, Debug, Default)]
pub struct ChatCallSignal {
    pub chat_id: String,
    pub live_id: String,
    pub call_timestamp_ms: i64,
}

impl ChatCall {
    pub fn from(call: ChatCallSignal) -> (r: ChatCall)
        ensures
            r.chat_id == call.chat_id,
            r.live_id == call.live_id,
            r.call_time == call.call_timestamp_ms,
    {
        ChatCall { chat_id: call.chat_id, live_id: call.live_id, call_time: call.call_timestamp_ms }
    }
}

/// A chat between streamer and viewer becoming ready.
#[derive(Clone, Debug, Default)]
pub struct ChatReady {
    pub chat_id: String,
    pub live_id: LiveId,
    pub save_time: i64,
    pub guest_info: Option<UserInfo>,
    pub media_type: i32,
}

/// A ready chat as the transport reports one.
#[derive(Clone, Debug, Default)]
pub struct ChatReadySignal {
    pub chat_id: String,
    pub guest_user_info: Option<SignalUserInfo>,
    pub media_type: i32,
}

impl ChatReady {
    pub fn new(live_id: LiveId, ready: ChatReadySignal) -> (r: ChatReady)
        ensures
            r.chat_id == ready.chat_id,
            r.live_id == live_id,
            r.guest_info == spec_user_info_opt(ready.guest_user_info),
            r.media_type == ready.media_type,
    {
        ChatReady {
            chat_id: ready.chat_id,
            live_id,
            save_time: unix_time(),
            guest_info: user_info_opt(ready.guest_user_info),
            media_type: ready.media_type,
        }
    }
}

/// A viewer chat ending.
#[derive(Clone, Debug, Default)]
pub struct ChatEnd {
    pub chat_id: String,
    pub live_id: LiveId,
    pub save_time: i64,
    pub end_type: i32,
}

/// An ended chat as the transport reports one.
#[derive(Clone, Debug, Default)]
pub struct ChatEndSignal {
    pub chat_id: String,
    pub end_type: i32,
}

impl ChatEnd {
    pub fn new(live_id: LiveId, end: ChatEndSignal) -> (r: ChatEnd)
        ensures
            r.chat_id == end.chat_id,
            r.live_id == live_id,
            r.end_type == end.end_type,
    {
        ChatEnd { chat_id: end.chat_id, live_id, save_time: unix_time(), end_type: end.end_type }
    }
}

/// One side of a streamer-to-streamer chat.
#[derive(Clone, Debug, Default)]
pub struct AuthorChatPlayerInfo {
    pub player_info: Option<UserInfo>,
    pub live_id: String,
    pub enable_jump_peer_live_room: bool,
}

/// One chat side as the transport reports it.
#[derive(Clone, Debug, Default)]
pub struct AuthorChatPlayerSignal {
    pub player: Option<SignalUserInfo>,
    pub live_id: String,
    pub enable_jump_peer_live_room: bool,
}

/// What `AuthorChatPlayerInfo::from` computes, as a value.
pub open spec fn spec_player_info(info: AuthorChatPlayerSignal) -> AuthorChatPlayerInfo {
    AuthorChatPlayerInfo {
        player_info: spec_user_info_opt(info.player),
        live_id: info.live_id,
        enable_jump_peer_live_room: info.enable_jump_peer_live_room,
    }
}

/// The stored side attached to an optional reported side.
pub open spec fn spec_player_info_opt(info: Option<AuthorChatPlayerSignal>) -> Option<
    AuthorChatPlayerInfo,
> {
    match info {
        Some(p) => Some(spec_player_info(p)),
        None => None,
    }
}

impl AuthorChatPlayerInfo {
    pub fn from(info: AuthorChatPlayerSignal) -> (r: AuthorChatPlayerInfo)
        ensures
            r == spec_player_info(info),
    {
        AuthorChatPlayerInfo {
            player_info: user_info_opt(info.player),
            live_id: info.live_id,
            enable_jump_peer_live_room: info.enable_jump_peer_live_room,
        }
    }
}

fn player_info_opt(info: Option<AuthorChatPlayerSignal>) -> (r: Option<AuthorChatPlayerInfo>)
    ensures
        r == spec_player_info_opt(info),
{
    match info {
        Some(p) => Some(AuthorChatPlayerInfo::from(p)),
        None => None,
    }
}

/// A streamer calling another streamer to chat.
#[derive(Clone, Debug, Default)]
pub struct AuthorChatCall {
    pub author_chat_id: String,
    pub live_id: LiveId,
    pub inviter_info: Option<AuthorChatPlayerInfo>,
    pub call_time: i64,
}

/// A streamer chat call as the transport reports one.
#[derive(Clone, Debug, Default)]
pub struct AuthorChatCallSignal {
    pub author_chat_id: String,
    pub inviter_user_info: Option<AuthorChatPlayerSignal>,
    pub call_timestamp_ms: i64,
}

impl AuthorChatCall {
    pub fn new(live_id: LiveId, call: AuthorChatCallSignal) -> (r: AuthorChatCall)
        ensures
            r.author_chat_id == call.author_chat_id,
            r.live_id == live_id,
            r.inviter_info == spec_player_info_opt(call.inviter_user_info),
            r.call_time == call.call_timestamp_ms,
    {
        AuthorChatCall {
            author_chat_id: call.author_chat_id,
            live_id,
            inviter_info: player_info_opt(call.inviter_user_info),
            call_time: call.call_timestamp_ms,
        }
    }
}

/// A streamer-to-streamer chat becoming ready.
#[derive(Clone, Debug, Default)]
pub struct AuthorChatReady {
    pub author_chat_id: String,
    pub live_id: LiveId,
    pub save_time: i64,
    pub inviter_info: Option<AuthorChatPlayerInfo>,
    pub invitee_info: Option<AuthorChatPlayerInfo>,
}

/// A ready streamer chat as the transport reports one.
#[derive(Clone, Debug, Default)]
pub struct AuthorChatReadySignal {
    pub author_chat_id: String,
    pub inviter_user_info: Option<AuthorChatPlayerSignal>,
    pub invitee_user_info: Option<AuthorChatPlayerSignal>,
}

impl AuthorChatReady {
    pub fn new(live_id: LiveId, ready: AuthorChatReadySignal) -> (r: AuthorChatReady)
        ensures
            r.author_chat_id == ready.author_chat_id,
            r.live_id == live_id,
            r.inviter_info == spec_player_info_opt(ready.inviter_user_info),
            r.invitee_info == spec_player_info_opt(ready.invitee_user_info),
    {
        AuthorChatReady {
            author_chat_id: ready.author_chat_id,
            live_id,
            save_time: unix_time(),
            inviter_info: player_info_opt(ready.inviter_user_info),
            invitee_info: player_info_opt(ready.invitee_user_info),
        }
    }
}

/// A streamer-to-streamer chat ending.
#[derive(Clone, Debug, Default)]
pub struct AuthorChatEnd {
    pub author_chat_id: String,
    pub live_id: LiveId,
    pub save_time: i64,
    pub end_type: i32,
    pub end_live_id: String,
}

/// An ended streamer chat as the transport reports one.
#[derive(Clone, Debug, Default)]
pub struct AuthorChatEndSignal {
    pub author_chat_id: String,
    pub end_type: i32,
    pub end_live_id: String,
}

impl AuthorChatEnd {
    pub fn new(live_id: LiveId, end: AuthorChatEndSignal) -> (r: AuthorChatEnd)
        ensures
            r.author_chat_id == end.author_chat_id,
            r.live_id == live_id,
            r.end_type == end.end_type,
            r.end_live_id == end.end_live_id,
    {
        AuthorChatEnd {
            author_chat_id: end.author_chat_id,
            live_id,
            save_time: unix_time(),
            end_type: end.end_type,
            end_live_id: end.end_live_id,
        }
    }
}

/// A streamer chat changing its sound configuration.
#[derive(Clone, Debug, Default)]
pub struct AuthorChatChangeSoundConfig {
    pub author_chat_id: String,
    pub live_id: LiveId,
    pub save_time: i64,
    pub sound_config_change_type: i32,
}

/// A sound-configuration change as the transport reports one.
#[derive(Clone, Debug, Default)]
pub struct AuthorChatChangeSoundConfigSignal {
    pub author_chat_id: String,
    pub sound_config_change_type: i32,
}

impl AuthorChatChangeSoundConfig {
    pub fn new(live_id: LiveId, config: AuthorChatChangeSoundConfigSignal) -> (r:
        AuthorChatChangeSoundConfig)
        ensures
            r.author_chat_id == config.author_chat_id,
            r.live_id == live_id,
            r.sound_config_change_type == config.sound_config_change_type,
    {
        AuthorChatChangeSoundConfig {
            author_chat_id: config.author_chat_id,
            live_id,
            save_time: unix_time(),
            sound_config_change_type: config.sound_config_change_type,
        }
    }
}

} // verus!
