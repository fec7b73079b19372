//! The query gateway: resolve the requesting principal to a target store,
//! validate the filters, and build the parameterized statement that the
//! read-only pool will run.  A request that fails validation or
//! authorization never yields a plan, so no pool is ever opened for it.

use vstd::prelude::*;

use crate::catalog::User;

verus! {

pub const SEMICOLON: &'static str = ";";

pub const WHERE: &'static str = "\nWHERE";

pub const AND: &'static str = "\nAND";

pub const OR: &'static str = "\nOR";

pub const LEFT_PARENTHESES: &'static str = "\n(";

pub const RIGHT_PARENTHESES: &'static str = "\n)";

pub const LIVE_ID: &'static str = "\nlive_id = ?";

pub const LIVER_UID: &'static str = "\nliver_uid = ?";

pub const USER_ID: &'static str = "\nuser_id = ?";

pub const GIFT_ID: &'static str = "\ngift_id = ?";

pub const START_TIME_START: &'static str = "\nstart_time >= ?";

pub const START_TIME_END: &'static str = "\nstart_time <= ?";

pub const SAVE_TIME_START: &'static str = "\nsave_time >= ?";

pub const SAVE_TIME_END: &'static str = "\nsave_time <= ?";

pub const SEND_TIME_START: &'static str = "\nsend_time >= ?";

pub const SEND_TIME_END: &'static str = "\nsend_time <= ?";

pub const JOIN_TIME_START: &'static str = "\njoin_time >= ?";

pub const JOIN_TIME_END: &'static str = "\njoin_time <= ?";

pub const SELECT_LIVE_INFO: &'static str = "SELECT\nlive_id, liver_uid, stream_name, start_time, cover, live_type_id, live_type_name, live_type_category_id, live_type_category_name, has_fans_club, portrait, panoramic, disable_danmaku_show, paid_show_user_buy_status\nFROM live_info";

pub const SELECT_TITLE: &'static str = "SELECT\nlive_id, save_time, title\nFROM title";

pub const SELECT_LIVER_INFO: &'static str = "SELECT\nlive_id, save_time, liver_uid, nickname, avatar, avatar_frame, following_count, contribute_count, live_begin_fans_count, live_end_fans_count, signature, verified_text, is_join_up_college, medal_name, live_begin_medal_count, live_end_medal_count\nFROM liver_info";

pub const SELECT_SUMMARY: &'static str = "SELECT\nlive_id, save_time, duration, like_count, watch_total_count, watch_online_max_count, banana_count\nFROM summary";

pub const SELECT_COMMENT: &'static str = "SELECT\nlive_id, send_time, user_id, nickname, avatar, medal_uper_uid, medal_name, medal_level, manager, content\nFROM comment";

pub const SELECT_FOLLOW: &'static str = "SELECT\nlive_id, send_time, user_id, nickname, avatar, medal_uper_uid, medal_name, medal_level, manager\nFROM follow";

pub const SELECT_GIFT: &'static str = "SELECT\nlive_id, send_time, user_id, nickname, avatar, medal_uper_uid, medal_name, medal_level, manager, gift_id, count, combo, value, combo_id, slot_display_duration, expire_duration, draw_gift_info\nFROM gift";

pub const SELECT_JOIN_CLUB: &'static str = "SELECT\nlive_id, join_time, fans_uid, fans_nickname, uper_uid, uper_nickname\nFROM join_club";

pub const SELECT_WATCHING_COUNT: &'static str = "SELECT\nlive_id, save_time, watching_count\nFROM watching_count";

pub const SELECT_LIVE: &'static str = "SELECT\nlive_id, liver_uid, nickname, stream_name, start_time, title, live_type_id, live_type_name, live_type_category_id, live_type_category_name, portrait, panoramic, disable_danmaku_show, duration, like_count, watch_count\nFROM live";

pub const SELECT_GIFT_INFO: &'static str = "SELECT\nid, save_time, gift_id, gift_name, ar_live_name, pay_wallet_type, gift_price, webp_pic, png_pic, small_png_pic, allow_batch_send_size_list, can_combo, can_draw, magic_face_id, vup_ar_id, description, redpack_price, corner_marker_text\nFROM gift_info";

/// One positional statement parameter.
#[derive(Clone, Debug, PartialEq)]
pub enum Param {
    Int(i64),
    Text(String),
}

/// Which store a plan runs against.
#[derive(Clone, Copy, Debug, PartialEq, Eq, Structural)]
pub enum DbTarget {
    /// One streamer's store.
    Streamer(i64),
    /// The global stream catalog.
    Catalog,
    /// The global gift catalog.
    Gifts,
}

/// Why a request was refused before any store was touched.
#[derive(Clone, Copy, Debug, PartialEq, Eq, Structural)]
pub enum QueryError {
    /// A filter was ill-shaped: an empty list, a non-positive id, a
    /// negative bound, or an inverted range.
    Validation,
    /// An admin asked without saying whose store.
    AdminNeedsUid,
    /// A streamer asked for somebody else's store.
    StreamerForbidsUid,
    /// An admin-only operation was asked by a streamer.
    NotAdmin,
}

/// A validated, parameterized statement and the store to run it on.
#[derive(Clone, Debug)]
pub struct QueryPlan {
    pub target: DbTarget,
    pub sql: String,
    pub params: Vec<Param>,
}

/// The connective that precedes the next predicate: `WHERE` first, `AND`
/// after.
pub open spec fn spec_connective(first: bool) -> Seq<char> {
    if first {
        WHERE@
    } else {
        AND@
    }
}

/// The text of `n` equality tests on one column, separated by `OR`.
pub open spec fn spec_eq_frags(col: Seq<char>, n: nat) -> Seq<char>
    decreases n,
{
    if n == 0 {
        Seq::<char>::empty()
    } else if n == 1 {
        col
    } else {
        spec_eq_frags(col, (n - 1) as nat) + OR@ + col
    }
}

/// The text a list filter appends: a parenthesized disjunction of
/// equalities, preceded by the right connective.
pub open spec fn spec_vec_clause(first: bool, col: Seq<char>, n: nat) -> Seq<char> {
    spec_connective(first) + LEFT_PARENTHESES@ + spec_eq_frags(col, n) + RIGHT_PARENTHESES@
}

/// The text a scalar filter appends.
pub open spec fn spec_scalar_clause(first: bool, col: Seq<char>) -> Seq<char> {
    spec_connective(first) + col
}

/// The parameters of a text-list filter, in order.
pub open spec fn spec_text_params(vals: Seq<String>) -> Seq<Param>
    decreases vals.len(),
{
    if vals.len() == 0 {
        Seq::<Param>::empty()
    } else {
        spec_text_params(vals.drop_last()).push(Param::Text(vals.last()))
    }
}

/// The parameters of an integer-list filter, in order.
pub open spec fn spec_int_params(vals: Seq<i64>) -> Seq<Param>
    decreases vals.len(),
{
    if vals.len() == 0 {
        Seq::<Param>::empty()
    } else {
        spec_int_params(vals.drop_last()).push(Param::Int(vals.last()))
    }
}

/// Append a text-list filter: `WHERE`/`AND`, then `(col = ? OR ...)`.
fn push_text_filter(
    sql: &mut String,
    params: &mut Vec<Param>,
    first: &mut bool,
    args: &Option<Vec<String>>,
    col: &'static str,
)
    ensures
        match args {
            Some(vals) => if vals@.len() == 0 {
                &&& *final(sql) == *old(sql)
                &&& *final(params) == *old(params)
                &&& *final(first) == *old(first)
            } else {
                &&& final(sql)@ == old(sql)@ + spec_vec_clause(*old(first), col@, vals@.len())
                &&& final(params)@ == old(params)@ + spec_text_params(vals@)
                &&& *final(first) == false
            },
            None => {
                &&& *final(sql) == *old(sql)
                &&& *final(params) == *old(params)
                &&& *final(first) == *old(first)
            },
        },
{
    match args {
        Some(vals) => {
            if vals.len() == 0 {
                // an empty list never passes validation; nothing is built
                return ;
            }
            if *first {
                sql.append(WHERE);
                *first = false;
            } else {
                sql.append(AND);
            }
            sql.append(LEFT_PARENTHESES);
            let ghost base_sql = sql@;
            let ghost base_params = params@;
            let mut k: usize = 0;
            while k < vals.len()
                invariant
                    k <= vals@.len(),
                    sql@ == base_sql + spec_eq_frags(col@, k as nat),
                    params@ == base_params + spec_text_params(vals@.subrange(0, k as int)),
                decreases vals@.len() - k,
            {
                if k > 0 {
                    sql.append(OR);
                }
                sql.append(col);
                params.push(Param::Text(vals[k].clone()));
                proof {
                    assert(vals@.subrange(0, k + 1).drop_last() == vals@.subrange(0, k as int));
                    assert(vals@.subrange(0, k + 1).last() == vals@[k as int]);
                }
                k = k + 1;
            }
            sql.append(RIGHT_PARENTHESES);
            proof {
                assert(vals@.subrange(0, vals@.len() as int) == vals@);
            }
        },
        None => {},
    }
}

/// Append an integer-list filter.
fn push_int_filter(
    sql: &mut String,
    params: &mut Vec<Param>,
    first: &mut bool,
    args: &Option<Vec<i64>>,
    col: &'static str,
)
    ensures
        match args {
            Some(vals) => if vals@.len() == 0 {
                &&& *final(sql) == *old(sql)
                &&& *final(params) == *old(params)
                &&& *final(first) == *old(first)
            } else {
                &&& final(sql)@ == old(sql)@ + spec_vec_clause(*old(first), col@, vals@.len())
                &&& final(params)@ == old(params)@ + spec_int_params(vals@)
                &&& *final(first) == false
            },
            None => {
                &&& *final(sql) == *old(sql)
                &&& *final(params) == *old(params)
                &&& *final(first) == *old(first)
            },
        },
{
    match args {
        Some(vals) => {
            if vals.len() == 0 {
                // an empty list never passes validation; nothing is built
                return ;
            }
            if *first {
                sql.append(WHERE);
                *first = false;
            } else {
                sql.append(AND);
            }
            sql.append(LEFT_PARENTHESES);
            let ghost base_sql = sql@;
            let ghost base_params = params@;
            let mut k: usize = 0;
            while k < vals.len()
                invariant
                    k <= vals@.len(),
                    sql@ == base_sql + spec_eq_frags(col@, k as nat),
                    params@ == base_params + spec_int_params(vals@.subrange(0, k as int)),
                decreases vals@.len() - k,
            {
                if k > 0 {
                    sql.append(OR);
                }
                sql.append(col);
                params.push(Param::Int(vals[k]));
                proof {
                    assert(vals@.subrange(0, k + 1).drop_last() == vals@.subrange(0, k as int));
                    assert(vals@.subrange(0, k + 1).last() == vals@[k as int]);
                }
                k = k + 1;
            }
            sql.append(RIGHT_PARENTHESES);
            proof {
                assert(vals@.subrange(0, vals@.len() as int) == vals@);
            }
        },
        None => {},
    }
}

/// Append a scalar bound filter.
fn push_scalar_filter(
    sql: &mut String,
    params: &mut Vec<Param>,
    first: &mut bool,
    arg: &Option<i64>,
    col: &'static str,
)
    ensures
        match arg {
            Some(v) => {
                &&& final(sql)@ == old(sql)@ + spec_scalar_clause(*old(first), col@)
                &&& final(params)@ == old(params)@.push(Param::Int(*v))
                &&& *final(first) == false
            },
            None => {
                &&& *final(sql) == *old(sql)
                &&& *final(params) == *old(params)
                &&& *final(first) == *old(first)
            },
        },
{
    match arg {
        Some(v) => {
            if *first {
                sql.append(WHERE);
                *first = false;
            } else {
                sql.append(AND);
            }
            sql.append(col);
            params.push(Param::Int(*v));
        },
        None => {},
    }
}

/// A well-shaped text-list filter: absent, or non-empty with non-empty
/// entries.
pub open spec fn valid_text_list(args: Option<Vec<String>>) -> bool {
    match args {
        Some(vals) => vals@.len() > 0 && forall|i: int|
            0 <= i < vals@.len() ==> (#[trigger] vals@[i])@.len() > 0,
        None => true,
    }
}

/// A well-shaped id-list filter: absent, or non-empty with positive ids.
pub open spec fn valid_id_list(args: Option<Vec<i64>>) -> bool {
    match args {
        Some(vals) => vals@.len() > 0 && forall|i: int| 0 <= i < vals@.len() ==> #[trigger] vals@[i]
            > 0,
        None => true,
    }
}

/// A well-shaped bound: absent or non-negative.
pub open spec fn valid_bound(arg: Option<i64>) -> bool {
    match arg {
        Some(v) => v >= 0,
        None => true,
    }
}

/// An ordered range: absent ends impose nothing.
pub open spec fn range_ok(start: Option<i64>, end: Option<i64>) -> bool {
    match (start, end) {
        (Some(s), Some(e)) => s <= e,
        _ => true,
    }
}

fn check_text_list(args: &Option<Vec<String>>) -> (r: bool)
    ensures
        r == valid_text_list(*args),
{
    match args {
        Some(vals) => {
            if vals.len() == 0 {
                return false;
            }
            let mut k: usize = 0;
            while k < vals.len()
                invariant
                    *args == Some(*vals),
                    vals@.len() > 0,
                    k <= vals@.len(),
                    forall|i: int| 0 <= i < k ==> (#[trigger] vals@[i])@.len() > 0,
                decreases vals@.len() - k,
            {
                if vals[k].as_str().is_empty() {
                    proof {
                        assert((vals@[k as int])@.len() == 0);
                    }
                    return false;
                }
                k = k + 1;
            }
            true
        },
        None => true,
    }
}

fn check_id_list(args: &Option<Vec<i64>>) -> (r: bool)
    ensures
        r == valid_id_list(*args),
{
    match args {
        Some(vals) => {
            if vals.len() == 0 {
                return false;
            }
            let mut k: usize = 0;
            while k < vals.len()
                invariant
                    *args == Some(*vals),
                    vals@.len() > 0,
                    k <= vals@.len(),
                    forall|i: int| 0 <= i < k ==> #[trigger] vals@[i] > 0,
                decreases vals@.len() - k,
            {
                if vals[k] <= 0 {
                    proof {
                        assert(vals@[k as int] <= 0);
                    }
                    return false;
                }
                k = k + 1;
            }
            true
        },
        None => true,
    }
}

fn check_bound(arg: &Option<i64>) -> (r: bool)
    ensures
        r == valid_bound(*arg),
{
    match arg {
        Some(v) => *v >= 0,
        None => true,
    }
}

fn check_range(start: &Option<i64>, end: &Option<i64>) -> (r: bool)
    ensures
        r == range_ok(*start, *end),
{
    match (start, end) {
        (Some(s), Some(e)) => *s <= *e,
        _ => true,
    }
}

/// Which streamer store a principal may read.
pub open spec fn spec_resolve_target(user: User, liver_uid: Option<i64>) -> Result<
    DbTarget,
    QueryError,
> {
    match user {
        User::Admin => match liver_uid {
            Some(uid) => if uid > 0 {
                Ok(DbTarget::Streamer(uid))
            } else {
                Err(QueryError::Validation)
            },
            None => Err(QueryError::AdminNeedsUid),
        },
        User::Liver(uid) => match liver_uid {
            Some(_) => Err(QueryError::StreamerForbidsUid),
            None => Ok(DbTarget::Streamer(uid)),
        },
    }
}

/// Resolve the requesting principal to the store it may read: the admin
/// must say whose, a streamer gets exactly its own.
pub fn resolve_db_target(user: User, liver_uid: Option<i64>) -> (r: Result<DbTarget, QueryError>)
    ensures
        r == spec_resolve_target(user, liver_uid),
{
    match user {
        User::Admin => match liver_uid {
            Some(uid) => if uid > 0 {
                Ok(DbTarget::Streamer(uid))
            } else {
                Err(QueryError::Validation)
            },
            None => Err(QueryError::AdminNeedsUid),
        },
        User::Liver(uid) => match liver_uid {
            Some(_) => Err(QueryError::StreamerForbidsUid),
            None => Ok(DbTarget::Streamer(uid)),
        },
    }
}

/// The filters shared by the per-streamer queries.
pub open spec fn simple_filters_ok(
    live_id: Option<Vec<String>>,
    start: Option<i64>,
    end: Option<i64>,
) -> bool {
    &&& valid_text_list(live_id)
    &&& valid_bound(start)
    &&& valid_bound(end)
    &&& range_ok(start, end)
}

/// The statement text of a per-streamer query over `live_id` and a time
/// column.
pub open spec fn spec_simple_sql(
    base: Seq<char>,
    live_id: Option<Vec<String>>,
    start: Option<i64>,
    end: Option<i64>,
    col_ge: Seq<char>,
    col_le: Seq<char>,
) -> Seq<char> {
    let s0 = base;
    let first0 = true;
    let s1 = match live_id {
        Some(vals) => s0 + spec_vec_clause(first0, LIVE_ID@, vals@.len()),
        None => s0,
    };
    let first1 = match live_id {
        Some(vals) => false,
        None => first0,
    };
    let s2 = match start {
        Some(_) => s1 + spec_scalar_clause(first1, col_ge),
        None => s1,
    };
    let first2 = match start {
        Some(_) => false,
        None => first1,
    };
    let s3 = match end {
        Some(_) => s2 + spec_scalar_clause(first2, col_le),
        None => s2,
    };
    s3 + SEMICOLON@
}

/// The parameters of a per-streamer query, in order.
pub open spec fn spec_simple_params(
    live_id: Option<Vec<String>>,
    start: Option<i64>,
    end: Option<i64>,
) -> Seq<Param> {
    let p0 = Seq::<Param>::empty();
    let p1 = match live_id {
        Some(vals) => p0 + spec_text_params(vals@),
        None => p0,
    };
    let p2 = match start {
        Some(s) => p1.push(Param::Int(s)),
        None => p1,
    };
    match end {
        Some(e) => p2.push(Param::Int(e)),
        None => p2,
    }
}

/// Build a per-streamer query plan over `live_id` and one time column.
fn simple_plan(
    user: User,
    live_id: Option<Vec<String>>,
    start: Option<i64>,
    end: Option<i64>,
    liver_uid: Option<i64>,
    base: &'static str,
    col_ge: &'static str,
    col_le: &'static str,
) -> (r: Result<QueryPlan, QueryError>)
    ensures
        !simple_filters_ok(live_id, start, end) ==> r == Err::<QueryPlan, QueryError>(
            QueryError::Validation,
        ),
        (match (start, end) {
            (Some(s), Some(e)) => s > e,
            _ => false,
        }) ==> r == Err::<QueryPlan, QueryError>(QueryError::Validation),
        simple_filters_ok(live_id, start, end) ==> (match spec_resolve_target(user, liver_uid) {
            Ok(target) => r matches Ok(plan) && plan.target == target && plan.sql@
                == spec_simple_sql(base@, live_id, start, end, col_ge@, col_le@) && plan.params@
                == spec_simple_params(live_id, start, end),
            Err(e) => r == Err::<QueryPlan, QueryError>(e),
        }),
{
    if !(check_text_list(&live_id) && check_bound(&start) && check_bound(&end) && check_range(
        &start,
        &end,
    )) {
        return Err(QueryError::Validation);
    }
    let target = match resolve_db_target(user, liver_uid) {
        Ok(t) => t,
        Err(e) => {
            return Err(e);
        },
    };
    let mut sql = String::new();
    sql.append(base);
    let mut params: Vec<Param> = Vec::new();
    let mut first = true;
    push_text_filter(&mut sql, &mut params, &mut first, &live_id, LIVE_ID);
    push_scalar_filter(&mut sql, &mut params, &mut first, &start, col_ge);
    push_scalar_filter(&mut sql, &mut params, &mut first, &end, col_le);
    sql.append(SEMICOLON);
    Ok(QueryPlan { target, sql, params })
}

/// The named query operations of the gateway.
#[derive(Clone, Copy, Debug)]
pub struct QueryRoot;

impl QueryRoot {
    /// The streamer uid a non-admin principal stands for.
    pub fn liver_uid(&self, user: User) -> (r: Result<i64, QueryError>)
        ensures
            r == (match user {
                User::Admin => Err::<i64, QueryError>(QueryError::NotAdmin),
                User::Liver(uid) => Ok::<i64, QueryError>(uid),
            }),
    {
        match user {
            User::Admin => Err(QueryError::NotAdmin),
            User::Liver(uid) => Ok(uid),
        }
    }

    pub fn title(
        &self,
        user: User,
        live_id: Option<Vec<String>>,
        start: Option<i64>,
        end: Option<i64>,
        liver_uid: Option<i64>,
    ) -> (r: Result<QueryPlan, QueryError>)
        ensures
            !simple_filters_ok(live_id, start, end) ==> r == Err::<QueryPlan, QueryError>(
                QueryError::Validation,
            ),
            simple_filters_ok(live_id, start, end) ==> (match spec_resolve_target(
                user,
                liver_uid,
            ) {
                Ok(target) => r matches Ok(plan) && plan.target == target && plan.sql@
                    == spec_simple_sql(
                    SELECT_TITLE@,
                    live_id,
                    start,
                    end,
                    SAVE_TIME_START@,
                    SAVE_TIME_END@,
                ) && plan.params@ == spec_simple_params(live_id, start, end),
                Err(e) => r == Err::<QueryPlan, QueryError>(e),
            }),
    {
        simple_plan(user, live_id, start, end, liver_uid, SELECT_TITLE, SAVE_TIME_START, SAVE_TIME_END)
    }

    pub fn liver_info(
        &self,
        user: User,
        live_id: Option<Vec<String>>,
        start: Option<i64>,
        end: Option<i64>,
        liver_uid: Option<i64>,
    ) -> (r: Result<QueryPlan, QueryError>)
        ensures
            !simple_filters_ok(live_id, start, end) ==> r == Err::<QueryPlan, QueryError>(
                QueryError::Validation,
            ),
            simple_filters_ok(live_id, start, end) ==> (match spec_resolve_target(
                user,
                liver_uid,
            ) {
                Ok(target) => r matches Ok(plan) && plan.target == target && plan.sql@
                    == spec_simple_sql(
                    SELECT_LIVER_INFO@,
                    live_id,
                    start,
                    end,
                    SAVE_TIME_START@,
                    SAVE_TIME_END@,
                ) && plan.params@ == spec_simple_params(live_id, start, end),
                Err(e) => r == Err::<QueryPlan, QueryError>(e),
            }),
    {
        simple_plan(
            user,
            live_id,
            start,
            end,
            liver_uid,
            SELECT_LIVER_INFO,
            SAVE_TIME_START,
            SAVE_TIME_END,
        )
    }

    pub fn live_info(
        &self,
        user: User,
        live_id: Option<Vec<String>>,
        start: Option<i64>,
        end: Option<i64>,
        liver_uid: Option<i64>,
    ) -> (r: Result<QueryPlan, QueryError>)
        ensures
            !simple_filters_ok(live_id, start, end) ==> r == Err::<QueryPlan, QueryError>(
                QueryError::Validation,
            ),
            simple_filters_ok(live_id, start, end) ==> (match spec_resolve_target(
                user,
                liver_uid,
            ) {
                Ok(target) => r matches Ok(plan) && plan.target == target && plan.sql@
                    == spec_simple_sql(
                    SELECT_LIVE_INFO@,
                    live_id,
                    start,
                    end,
                    START_TIME_START@,
                    START_TIME_END@,
                ) && plan.params@ == spec_simple_params(live_id, start, end),
                Err(e) => r == Err::<QueryPlan, QueryError>(e),
            }),
    {
        simple_plan(
            user,
            live_id,
            start,
            end,
            liver_uid,
            SELECT_LIVE_INFO,
            START_TIME_START,
            START_TIME_END,
        )
    }

    pub fn summary(
        &self,
        user: User,
        live_id: Option<Vec<String>>,
        start: Option<i64>,
        end: Option<i64>,
        liver_uid: Option<i64>,
    ) -> (r: Result<QueryPlan, QueryError>)
        ensures
            !simple_filters_ok(live_id, start, end) ==> r == Err::<QueryPlan, QueryError>(
                QueryError::Validation,
            ),
            simple_filters_ok(live_id, start, end) ==> (match spec_resolve_target(
                user,
                liver_uid,
            ) {
                Ok(target) => r matches Ok(plan) && plan.target == target && plan.sql@
                    == spec_simple_sql(
                    SELECT_SUMMARY@,
                    live_id,
                    start,
                    end,
                    SAVE_TIME_START@,
                    SAVE_TIME_END@,
                ) && plan.params@ == spec_simple_params(live_id, start, end),
                Err(e) => r == Err::<QueryPlan, QueryError>(e),
            }),
    {
        simple_plan(
            user,
            live_id,
            start,
            end,
            liver_uid,
            SELECT_SUMMARY,
            SAVE_TIME_START,
            SAVE_TIME_END,
        )
    }

    pub fn follow(
        &self,
        user: User,
        live_id: Option<Vec<String>>,
        start: Option<i64>,
        end: Option<i64>,
        liver_uid: Option<i64>,
    ) -> (r: Result<QueryPlan, QueryError>)
        ensures
            !simple_filters_ok(live_id, start, end) ==> r == Err::<QueryPlan, QueryError>(
                QueryError::Validation,
            ),
            simple_filters_ok(live_id, start, end) ==> (match spec_resolve_target(
                user,
                liver_uid,
            ) {
                Ok(target) => r matches Ok(plan) && plan.target == target && plan.sql@
                    == spec_simple_sql(
                    SELECT_FOLLOW@,
                    live_id,
                    start,
                    end,
                    SEND_TIME_START@,
                    SEND_TIME_END@,
                ) && plan.params@ == spec_simple_params(live_id, start, end),
                Err(e) => r == Err::<QueryPlan, QueryError>(e),
            }),
    {
        simple_plan(
            user,
            live_id,
            start,
            end,
            liver_uid,
            SELECT_FOLLOW,
            SEND_TIME_START,
            SEND_TIME_END,
        )
    }

    pub fn join_club(
        &self,
        user: User,
        live_id: Option<Vec<String>>,
        start: Option<i64>,
        end: Option<i64>,
        liver_uid: Option<i64>,
    ) -> (r: Result<QueryPlan, QueryError>)
        ensures
            !simple_filters_ok(live_id, start, end) ==> r == Err::<QueryPlan, QueryError>(
                QueryError::Validation,
            ),
            simple_filters_ok(live_id, start, end) ==> (match spec_resolve_target(
                user,
                liver_uid,
            ) {
                Ok(target) => r matches Ok(plan) && plan.target == target && plan.sql@
                    == spec_simple_sql(
                    SELECT_JOIN_CLUB@,
                    live_id,
                    start,
                    end,
                    JOIN_TIME_START@,
                    JOIN_TIME_END@,
                ) && plan.params@ == spec_simple_params(live_id, start, end),
                Err(e) => r == Err::<QueryPlan, QueryError>(e),
            }),
    {
        simple_plan(
            user,
            live_id,
            start,
            end,
            liver_uid,
            SELECT_JOIN_CLUB,
            JOIN_TIME_START,
            JOIN_TIME_END,
        )
    }

    pub fn watching_count(
        &self,
        user: User,
        live_id: Option<Vec<String>>,
        start: Option<i64>,
        end: Option<i64>,
        liver_uid: Option<i64>,
    ) -> (r: Result<QueryPlan, QueryError>)
        ensures
            !simple_filters_ok(live_id, start, end) ==> r == Err::<QueryPlan, QueryError>(
                QueryError::Validation,
            ),
            simple_filters_ok(live_id, start, end) ==> (match spec_resolve_target(
                user,
                liver_uid,
            ) {
                Ok(target) => r matches Ok(plan) && plan.target == target && plan.sql@
                    == spec_simple_sql(
                    SELECT_WATCHING_COUNT@,
                    live_id,
                    start,
                    end,
                    SAVE_TIME_START@,
                    SAVE_TIME_END@,
                ) && plan.params@ == spec_simple_params(live_id, start, end),
                Err(e) => r == Err::<QueryPlan, QueryError>(e),
            }),
    {
        simple_plan(
            user,
            live_id,
            start,
            end,
            liver_uid,
            SELECT_WATCHING_COUNT,
            SAVE_TIME_START,
            SAVE_TIME_END,
        )
    }

    /// The comment query also filters by commenting user.
    pub fn comment(
        &self,
        user: User,
        live_id: Option<Vec<String>>,
        user_id: Option<Vec<i64>>,
        start: Option<i64>,
        end: Option<i64>,
        liver_uid: Option<i64>,
    ) -> (r: Result<QueryPlan, QueryError>)
        ensures
            !(simple_filters_ok(live_id, start, end) && valid_id_list(user_id)) ==> r == Err::<
                QueryPlan,
                QueryError,
            >(QueryError::Validation),
            (simple_filters_ok(live_id, start, end) && valid_id_list(user_id)) ==> (match
                spec_resolve_target(user, liver_uid) {
                Ok(target) => r matches Ok(plan) && plan.target == target && plan.params@
                    == spec_comment_params(live_id, user_id, start, end) && plan.sql@
                    == spec_comment_sql(SELECT_COMMENT@, live_id, user_id, start, end),
                Err(e) => r == Err::<QueryPlan, QueryError>(e),
            }),
    {
        if !(check_text_list(&live_id) && check_id_list(&user_id) && check_bound(&start)
            && check_bound(&end) && check_range(&start, &end)) {
            return Err(QueryError::Validation);
        }
        let target = match resolve_db_target(user, liver_uid) {
            Ok(t) => t,
            Err(e) => {
                return Err(e);
            },
        };
        let mut sql = String::new();
        sql.append(SELECT_COMMENT);
        let mut params: Vec<Param> = Vec::new();
        let mut first = true;
        push_text_filter(&mut sql, &mut params, &mut first, &live_id, LIVE_ID);
        push_int_filter(&mut sql, &mut params, &mut first, &user_id, USER_ID);
        push_scalar_filter(&mut sql, &mut params, &mut first, &start, SEND_TIME_START);
        push_scalar_filter(&mut sql, &mut params, &mut first, &end, SEND_TIME_END);
        sql.append(SEMICOLON);
        Ok(QueryPlan { target, sql, params })
    }

    /// The gift query filters by sender and gift kind too.
    pub fn gift(
        &self,
        user: User,
        live_id: Option<Vec<String>>,
        user_id: Option<Vec<i64>>,
        gift_id: Option<Vec<i64>>,
        start: Option<i64>,
        end: Option<i64>,
        liver_uid: Option<i64>,
    ) -> (r: Result<QueryPlan, QueryError>)
        ensures
            !(simple_filters_ok(live_id, start, end) && valid_id_list(user_id) && valid_id_list(
                gift_id,
            )) ==> r == Err::<QueryPlan, QueryError>(QueryError::Validation),
            (simple_filters_ok(live_id, start, end) && valid_id_list(user_id) && valid_id_list(
                gift_id,
            )) ==> (match spec_resolve_target(user, liver_uid) {
                Ok(target) => r matches Ok(plan) && plan.target == target && plan.params@
                    == spec_gift_params(live_id, user_id, gift_id, start, end) && plan.sql@
                    == spec_gift_sql(SELECT_GIFT@, live_id, user_id, gift_id, start, end),
                Err(e) => r == Err::<QueryPlan, QueryError>(e),
            }),
    {
        if !(check_text_list(&live_id) && check_id_list(&user_id) && check_id_list(&gift_id)
            && check_bound(&start) && check_bound(&end) && check_range(&start, &end)) {
            return Err(QueryError::Validation);
        }
        let target = match resolve_db_target(user, liver_uid) {
            Ok(t) => t,
            Err(e) => {
                return Err(e);
            },
        };
        let mut sql = String::new();
        sql.append(SELECT_GIFT);
        let mut params: Vec<Param> = Vec::new();
        let mut first = true;
        push_text_filter(&mut sql, &mut params, &mut first, &live_id, LIVE_ID);
        push_int_filter(&mut sql, &mut params, &mut first, &user_id, USER_ID);
        push_int_filter(&mut sql, &mut params, &mut first, &gift_id, GIFT_ID);
        push_scalar_filter(&mut sql, &mut params, &mut first, &start, SEND_TIME_START);
        push_scalar_filter(&mut sql, &mut params, &mut first, &end, SEND_TIME_END);
        sql.append(SEMICOLON);
        Ok(QueryPlan { target, sql, params })
    }

    /// The catalog query is admin-only: a streamer token is refused before
    /// any store is named.
    pub fn live(
        &self,
        user: User,
        live_id: Option<Vec<String>>,
        liver_uid: Option<Vec<i64>>,
        start: Option<i64>,
        end: Option<i64>,
    ) -> (r: Result<QueryPlan, QueryError>)
        ensures
            user != User::Admin ==> r == Err::<QueryPlan, QueryError>(QueryError::NotAdmin),
            user == User::Admin && !(simple_filters_ok(live_id, start, end) && valid_id_list(
                liver_uid,
            )) ==> r == Err::<QueryPlan, QueryError>(QueryError::Validation),
            user == User::Admin && simple_filters_ok(live_id, start, end) && valid_id_list(
                liver_uid,
            ) ==> (r matches Ok(plan) && plan.target == DbTarget::Catalog && plan.params@
                == spec_comment_params(live_id, liver_uid, start, end) && plan.sql@
                == spec_live_sql(SELECT_LIVE@, live_id, liver_uid, start, end)),
    {
        if !user.is_admin() {
            return Err(QueryError::NotAdmin);
        }
        if !(check_text_list(&live_id) && check_id_list(&liver_uid) && check_bound(&start)
            && check_bound(&end) && check_range(&start, &end)) {
            return Err(QueryError::Validation);
        }
        let mut sql = String::new();
        sql.append(SELECT_LIVE);
        let mut params: Vec<Param> = Vec::new();
        let mut first = true;
        push_text_filter(&mut sql, &mut params, &mut first, &live_id, LIVE_ID);
        push_int_filter(&mut sql, &mut params, &mut first, &liver_uid, LIVER_UID);
        push_scalar_filter(&mut sql, &mut params, &mut first, &start, START_TIME_START);
        push_scalar_filter(&mut sql, &mut params, &mut first, &end, START_TIME_END);
        sql.append(SEMICOLON);
        Ok(QueryPlan { target: DbTarget::Catalog, sql, params })
    }
}

/// The statement text of the comment query.
pub open spec fn spec_comment_sql(
    base: Seq<char>,
    live_id: Option<Vec<String>>,
    user_id: Option<Vec<i64>>,
    start: Option<i64>,
    end: Option<i64>,
) -> Seq<char> {
    spec_two_list_sql(base, live_id, user_id, USER_ID@, start, end, SEND_TIME_START@, SEND_TIME_END@)
}

/// The statement text of the catalog query.
pub open spec fn spec_live_sql(
    base: Seq<char>,
    live_id: Option<Vec<String>>,
    liver_uid: Option<Vec<i64>>,
    start: Option<i64>,
    end: Option<i64>,
) -> Seq<char> {
    spec_two_list_sql(
        base,
        live_id,
        liver_uid,
        LIVER_UID@,
        start,
        end,
        START_TIME_START@,
        START_TIME_END@,
    )
}

/// The statement text of a query with a text list, an integer list and a
/// time range.
pub open spec fn spec_two_list_sql(
    base: Seq<char>,
    live_id: Option<Vec<String>>,
    ids: Option<Vec<i64>>,
    id_col: Seq<char>,
    start: Option<i64>,
    end: Option<i64>,
    col_ge: Seq<char>,
    col_le: Seq<char>,
) -> Seq<char> {
    let s0 = base;
    let first0 = true;
    let s1 = match live_id {
        Some(vals) => s0 + spec_vec_clause(first0, LIVE_ID@, vals@.len()),
        None => s0,
    };
    let first1 = match live_id {
        Some(vals) => false,
        None => first0,
    };
    let s2 = match ids {
        Some(vals) => s1 + spec_vec_clause(first1, id_col, vals@.len()),
        None => s1,
    };
    let first2 = match ids {
        Some(vals) => false,
        None => first1,
    };
    let s3 = match start {
        Some(_) => s2 + spec_scalar_clause(first2, col_ge),
        None => s2,
    };
    let first3 = match start {
        Some(_) => false,
        None => first2,
    };
    let s4 = match end {
        Some(_) => s3 + spec_scalar_clause(first3, col_le),
        None => s3,
    };
    s4 + SEMICOLON@
}

/// The parameters of the comment and catalog queries, in order.
pub open spec fn spec_comment_params(
    live_id: Option<Vec<String>>,
    ids: Option<Vec<i64>>,
    start: Option<i64>,
    end: Option<i64>,
) -> Seq<Param> {
    let p0 = Seq::<Param>::empty();
    let p1 = match live_id {
        Some(vals) => p0 + spec_text_params(vals@),
        None => p0,
    };
    let p2 = match ids {
        Some(vals) => p1 + spec_int_params(vals@),
        None => p1,
    };
    let p3 = match start {
        Some(s) => p2.push(Param::Int(s)),
        None => p2,
    };
    match end {
        Some(e) => p3.push(Param::Int(e)),
        None => p3,
    }
}

/// The parameters of the gift query, in order.
pub open spec fn spec_gift_params(
    live_id: Option<Vec<String>>,
    user_id: Option<Vec<i64>>,
    gift_id: Option<Vec<i64>>,
    start: Option<i64>,
    end: Option<i64>,
) -> Seq<Param> {
    let p0 = Seq::<Param>::empty();
    let p1 = match live_id {
        Some(vals) => p0 + spec_text_params(vals@),
        None => p0,
    };
    let p2 = match user_id {
        Some(vals) => p1 + spec_int_params(vals@),
        None => p1,
    };
    let p3 = match gift_id {
        Some(vals) => p2 + spec_int_params(vals@),
        None => p2,
    };
    let p4 = match start {
        Some(s) => p3.push(Param::Int(s)),
        None => p3,
    };
    match end {
        Some(e) => p4.push(Param::Int(e)),
        None => p4,
    }
}

/// The statement text of the gift query.
pub open spec fn spec_gift_sql(
    base: Seq<char>,
    live_id: Option<Vec<String>>,
    user_id: Option<Vec<i64>>,
    gift_id: Option<Vec<i64>>,
    start: Option<i64>,
    end: Option<i64>,
) -> Seq<char> {
    let s0 = base;
    let first0 = true;
    let s1 = match live_id {
        Some(vals) => s0 + spec_vec_clause(first0, LIVE_ID@, vals@.len()),
        None => s0,
    };
    let first1 = match live_id {
        Some(vals) => false,
        None => first0,
    };
    let s2 = match user_id {
        Some(vals) => s1 + spec_vec_clause(first1, USER_ID@, vals@.len()),
        None => s1,
    };
    let first2 = match user_id {
        Some(vals) => false,
        None => first1,
    };
    let s3 = match gift_id {
        Some(vals) => s2 + spec_vec_clause(first2, GIFT_ID@, vals@.len()),
        None => s2,
    };
    let first3 = match gift_id {
        Some(vals) => false,
        None => first2,
    };
    let s4 = match start {
        Some(_) => s3 + spec_scalar_clause(first3, col_of_send_ge()),
        None => s3,
    };
    let first4 = match start {
        Some(_) => false,
        None => first3,
    };
    let s5 = match end {
        Some(_) => s4 + spec_scalar_clause(first4, col_of_send_le()),
        None => s4,
    };
    s5 + SEMICOLON@
}

/// The lower send-time bound column text.
pub open spec fn col_of_send_ge() -> Seq<char> {
    SEND_TIME_START@
}

/// The upper send-time bound column text.
pub open spec fn col_of_send_le() -> Seq<char> {
    SEND_TIME_END@
}

/// Law: a query over two sessions and a lower time bound produces exactly
/// `WHERE (live_id = ? OR live_id = ?) AND time >= ?;` after its base
/// selection, with the two session ids and the bound as its parameters,
/// in order.
pub proof fn lemma_filter_round_trip(
    a: String,
    b: String,
    start: i64,
    base: Seq<char>,
    vals: Vec<String>,
)
    requires
        vals@ == seq![a, b],
    ensures
        spec_simple_sql(base, Some(vals), Some(start), None, SAVE_TIME_START@, SAVE_TIME_END@)
            == base + WHERE@ + LEFT_PARENTHESES@ + LIVE_ID@ + OR@ + LIVE_ID@ + RIGHT_PARENTHESES@
            + AND@ + SAVE_TIME_START@ + SEMICOLON@,
        spec_simple_params(Some(vals), Some(start), None) == seq![
            Param::Text(a),
            Param::Text(b),
            Param::Int(start),
        ],
{
    assert(vals@.len() == 2);
    assert(spec_eq_frags(LIVE_ID@, 2) == spec_eq_frags(LIVE_ID@, 1) + OR@ + LIVE_ID@);
    assert(spec_eq_frags(LIVE_ID@, 1) == LIVE_ID@);
    assert(spec_vec_clause(true, LIVE_ID@, 2) == WHERE@ + LEFT_PARENTHESES@ + (LIVE_ID@ + OR@
        + LIVE_ID@) + RIGHT_PARENTHESES@);
    assert(base + spec_vec_clause(true, LIVE_ID@, 2) + spec_scalar_clause(false, SAVE_TIME_START@)
        + SEMICOLON@ =~= base + WHERE@ + LEFT_PARENTHESES@ + LIVE_ID@ + OR@ + LIVE_ID@
        + RIGHT_PARENTHESES@ + AND@ + SAVE_TIME_START@ + SEMICOLON@);
    assert(vals@.drop_last() =~= seq![a]);
    assert(seq![a].drop_last() =~= Seq::<String>::empty());
    assert(spec_text_params(Seq::<String>::empty()) =~= Seq::<Param>::empty());
    assert(spec_text_params(seq![a]) =~= seq![Param::Text(a)]) by {
        assert(seq![a].last() == a);
    }
    assert(spec_text_params(vals@) =~= seq![Param::Text(a), Param::Text(b)]) by {
        assert(vals@.last() == b);
        assert(spec_text_params(vals@) == spec_text_params(vals@.drop_last()).push(
            Param::Text(b),
        ));
    }
    assert(Seq::<Param>::empty() + spec_text_params(vals@) =~= seq![
        Param::Text(a),
        Param::Text(b),
    ]);
    assert(spec_simple_params(Some(vals), Some(start), None) =~= seq![
        Param::Text(a),
        Param::Text(b),
        Param::Int(start),
    ]);
}

/// Why a download request was refused.
#[derive(Clone, Copy, Debug, PartialEq, Eq, Structural)]
pub enum DownloadError {
    /// Only a streamer may download, and only its own store.
    AdminToken,
    /// The streamer is live right now.
    Living,
    /// The streamer's store does not exist yet.
    NoDatabase,
}

/// The download gate: a streamer may take its own store home only while
/// not live and only if the store exists.  Whether the streamer is live
/// and whether the store file exists are passed in as plain facts.
pub fn download_check(user: User, living: bool, file_exists: bool) -> (r: Result<
    i64,
    DownloadError,
>)
    ensures
        r == (match user {
            User::Admin => Err::<i64, DownloadError>(DownloadError::AdminToken),
            User::Liver(uid) => if living {
                Err::<i64, DownloadError>(DownloadError::Living)
            } else if !file_exists {
                Err::<i64, DownloadError>(DownloadError::NoDatabase)
            } else {
                Ok::<i64, DownloadError>(uid)
            },
        }),
{
    match user {
        User::Admin => Err(DownloadError::AdminToken),
        User::Liver(uid) => {
            if living {
                Err(DownloadError::Living)
            } else if !file_exists {
                Err(DownloadError::NoDatabase)
            } else {
                Ok(uid)
            }
        },
    }
}

} // verus!
