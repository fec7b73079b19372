use acfunlivedata::auth::Token;
use acfunlivedata::capture;
use acfunlivedata::catalog;
use acfunlivedata::catalog::User;
use acfunlivedata::data::{
    DisplayInfoSignal, RedpackItem, RedpackListSignal, StreamData, StreamerProfile, SummaryData,
    Title,
};
use acfunlivedata::global::CatalogStore;
use acfunlivedata::live::{Action, AllLiveData, LiveData, LiveListEntry};
use acfunlivedata::message::{DataCenterMessage, ToolMessage};
use acfunlivedata::parse::parse_watching_count;
use acfunlivedata::query::{DbTarget, DownloadError, Param, QueryError, QueryRoot};
use acfunlivedata::supervisor::Supervisor;
use acfunlivedata::writer::WriterState;

fn entry(uid: i64, live_id: &str, title: &str) -> LiveListEntry {
    LiveListEntry {
        author_id: uid,
        user: StreamerProfile {
            name: "somebody".to_string(),
            ..Default::default()
        },
        live_data: Some(StreamData {
            live_id: live_id.to_string(),
            stream_name: format!("stream-{live_id}"),
            create_time: 1000,
            title: Some(title.to_string()),
            ..Default::default()
        }),
    }
}

#[test]
fn token_uniqueness_across_reissue() {
    let mut roster = catalog::Config::new();
    let first = roster.add_liver(42, false).unwrap();
    assert!(!first.exist);
    let t1 = first.token.unwrap();
    assert_eq!(t1.len(), 20);
    assert!(matches!(roster.get(&t1), Some(User::Liver(42))));

    let second = roster.add_liver(42, false).unwrap();
    assert!(second.exist);
    let t2 = second.token.unwrap();
    // the old token was replaced: at most one token per streamer
    if t1 != t2 {
        assert!(roster.get(&t1).is_none());
    }
    assert!(matches!(roster.get(&t2), Some(User::Liver(42))));
    assert!(roster.contains_uid(42));

    let gone = roster.delete_liver(42, false).unwrap();
    assert!(gone.exist);
    assert!(!roster.contains_uid(42));
    assert!(roster.get(&t2).is_none());
}

#[test]
fn invalid_uid_is_refused() {
    let mut roster = catalog::Config::new();
    assert!(roster.add_liver(0, false).is_err());
    assert!(roster.delete_liver(-3, true).is_err());
    assert!(!roster.contains_uid(0));
}

#[test]
fn ensure_admin_is_idempotent() {
    let mut roster = catalog::Config::new();
    let token = roster.ensure_admin().unwrap();
    assert_eq!(token.len(), 20);
    assert!(roster.is_admin_token(&token));
    assert!(roster.ensure_admin().is_none());
}

#[test]
fn capture_set_add_delete() {
    let mut set = capture::Config::new();
    assert_eq!(
        set.add_liver(7, true),
        Some(ToolMessage::DataCenterAddLiver(7, false))
    );
    assert_eq!(
        set.add_liver(7, true),
        Some(ToolMessage::DataCenterAddLiver(7, true))
    );
    assert!(set.contains(7));
    assert_eq!(
        set.delete_liver(7, true),
        Some(ToolMessage::DataCenterDeleteLiver(7, true))
    );
    assert!(!set.contains(7));
    assert_eq!(set.add_liver(0, true), None);
}

#[test]
fn title_idempotence() {
    let mut w = WriterState::new("L".to_string(), 42);
    for _ in 0..5 {
        w.apply(LiveData::Title(Title {
            live_id: "L".to_string(),
            save_time: 1,
            title: Some("T".to_string()),
        }));
    }
    assert_eq!(w.titles_count(), 1);
    w.apply(LiveData::Title(Title {
        live_id: "L".to_string(),
        save_time: 2,
        title: Some("T2".to_string()),
    }));
    assert_eq!(w.titles_count(), 2);
    assert_eq!(w.last_title_text(), Some(Some("T2".to_string())));
}

fn redpack_list(ids: &[&str]) -> LiveData {
    LiveData::Redpack(RedpackListSignal {
        redpacks: ids
            .iter()
            .map(|id| RedpackItem {
                red_pack_id: id.to_string(),
                redpack_amount: 100,
                ..Default::default()
            })
            .collect(),
    })
}

#[test]
fn redpack_dedup() {
    let mut w = WriterState::new("L".to_string(), 42);
    w.apply(redpack_list(&["r1", "r1", "r2"]));
    assert_eq!(w.redpack_count(), 2);
    w.apply(redpack_list(&["r2", "r3"]));
    assert_eq!(w.redpack_count(), 3);
}

#[test]
fn summary_upsert_keeps_latest() {
    let mut w = WriterState::new("L".to_string(), 42);
    w.apply(LiveData::Summary(acfunlivedata::data::Summary {
        live_id: "L".to_string(),
        save_time: 1,
        duration: 100,
        like_count: "5".to_string(),
        watch_total_count: "50".to_string(),
        watch_online_max_count: None,
        banana_count: None,
    }));
    w.apply(LiveData::Summary(acfunlivedata::data::Summary {
        live_id: "L".to_string(),
        save_time: 2,
        duration: 250,
        like_count: "6".to_string(),
        watch_total_count: "60".to_string(),
        watch_online_max_count: None,
        banana_count: None,
    }));
    assert_eq!(w.summary_count(), 1);
    assert_eq!(w.last_summary(), Some((250, None)));
}

#[test]
fn watching_count_sampling_bounded_by_ticks() {
    let mut w = WriterState::new("L".to_string(), 42);
    let reading = |n: &str| {
        LiveData::WatchingCount(DisplayInfoSignal {
            watching_count: n.to_string(),
        })
    };
    w.apply(reading("10"));
    assert_eq!(w.sample_count(), 0);
    w.tick();
    w.tick();
    w.apply(reading("20"));
    w.apply(reading("30"));
    w.apply(reading("40"));
    assert_eq!(w.sample_count(), 2);
    assert_eq!(w.max_watch(), Some(40));
}

#[test]
fn watching_count_parsing() {
    assert_eq!(parse_watching_count("123"), Some(123));
    assert_eq!(parse_watching_count("1.25\u{4e07}"), Some(12500));
    assert_eq!(parse_watching_count("3\u{4e07}"), Some(30000));
    assert_eq!(parse_watching_count(""), None);
    assert_eq!(parse_watching_count("12a"), None);
    assert_eq!(parse_watching_count("99999999999"), None);
}

#[test]
fn filter_round_trip() {
    let root = QueryRoot;
    let plan = root
        .title(
            User::Liver(7),
            Some(vec!["A".to_string(), "B".to_string()]),
            Some(10),
            None,
            None,
        )
        .unwrap();
    assert_eq!(plan.target, DbTarget::Streamer(7));
    let expected = format!(
        "{}\nWHERE\n(\nlive_id = ?\nOR\nlive_id = ?\n)\nAND\nsave_time >= ?;",
        acfunlivedata::query::SELECT_TITLE
    );
    assert_eq!(plan.sql, expected);
    assert_eq!(
        plan.params,
        vec![
            Param::Text("A".to_string()),
            Param::Text("B".to_string()),
            Param::Int(10),
        ]
    );
}

#[test]
fn range_guard_rejects_inverted_range() {
    let root = QueryRoot;
    let r = root.title(User::Liver(7), None, Some(10), Some(5), None);
    assert_eq!(r.unwrap_err(), QueryError::Validation);
    let r = root.comment(User::Admin, None, None, Some(9), Some(3), Some(7));
    assert_eq!(r.unwrap_err(), QueryError::Validation);
}

#[test]
fn admin_gate() {
    let root = QueryRoot;
    assert_eq!(
        root.live(User::Liver(7), None, None, None, None).unwrap_err(),
        QueryError::NotAdmin
    );
    assert_eq!(root.liver_uid(User::Admin).unwrap_err(), QueryError::NotAdmin);
    assert_eq!(root.liver_uid(User::Liver(7)).unwrap(), 7);
    assert_eq!(
        root.summary(User::Admin, None, None, None, None).unwrap_err(),
        QueryError::AdminNeedsUid
    );
    assert_eq!(
        root.summary(User::Liver(7), None, None, None, Some(9)).unwrap_err(),
        QueryError::StreamerForbidsUid
    );
}

#[test]
fn opt_in_and_record() {
    // the tool opts streamer 42 in on both servers
    let mut roster = catalog::Config::new();
    let info = roster.add_liver(42, true).unwrap();
    assert!(info.token.is_some());

    let mut set = capture::Config::new();
    let mut sup = Supervisor::new(set);
    let reply = sup.handle_command(DataCenterMessage::AddLiver(42, true));
    assert_eq!(reply, Some(ToolMessage::DataCenterAddLiver(42, false)));

    // the next discovery round reports the stream: a recorder starts
    let acts = sup.handle_live_list(vec![entry(42, "L", "T")]);
    let mut spawned = None;
    let mut emitted_live = false;
    for a in &acts {
        match a {
            Action::SpawnRecorder { live_id, liver_uid, data, .. } => {
                spawned = Some((live_id.clone(), *liver_uid, data.title.clone()));
            }
            Action::EmitLive(l) => {
                emitted_live = l.live_id == "L" && l.liver_uid == 42;
            }
            _ => {}
        }
    }
    assert!(emitted_live);
    let (lid, uid, title) = spawned.expect("a recorder must start");
    assert_eq!(lid, "L");
    assert_eq!(uid, 42);
    assert!(sup.is_active("L"));

    // the writer stores the session row and its first title
    let mut w = WriterState::new(lid, uid);
    w.apply(LiveData::LiveInfo(acfunlivedata::data::LiveInfo::new(
        42,
        StreamData {
            live_id: "L".to_string(),
            ..Default::default()
        },
    )));
    w.apply(LiveData::Title(Title::new("L".to_string(), title)));
    assert_eq!(w.live_info_count(), 1);
    assert_eq!(w.titles_count(), 1);
    assert_eq!(w.last_title_text(), Some(Some("T".to_string())));
}

#[test]
fn title_change_over_two_rounds() {
    let mut sup = Supervisor::new(capture::Config::new());
    sup.handle_command(DataCenterMessage::AddLiver(42, false));
    let mut w = WriterState::new("L".to_string(), 42);

    let acts1 = sup.handle_live_list(vec![entry(42, "L", "T")]);
    for a in acts1 {
        if let Action::SpawnRecorder { data, .. } = a {
            w.apply(LiveData::Title(Title::new("L".to_string(), data.title)));
        }
    }
    let acts2 = sup.handle_live_list(vec![entry(42, "L", "T'")]);
    let mut sent = 0;
    for a in acts2 {
        if let Action::SendTitle(_, t) = a {
            sent += 1;
            w.apply(LiveData::Title(t));
        }
    }
    assert_eq!(sent, 1);
    assert_eq!(w.titles_count(), 2);
    assert_eq!(w.last_title_text(), Some(Some("T'".to_string())));
}

#[test]
fn summary_finalization_for_departed_stream() {
    let mut sup = Supervisor::new(capture::Config::new());
    // uid 7 is not opted in; its stream is discovered, then disappears
    let _ = sup.handle_live_list(vec![entry(7, "S", "x")]);
    assert!(!sup.is_active("S"));
    let acts = sup.handle_live_list(vec![entry(8, "other", "y")]);
    let started = acts.iter().any(|a| match a {
        Action::SpawnSummary(lid) => lid == "S",
        _ => false,
    });
    assert!(started);
    assert!(sup.is_summarizing("S"));

    // two fetches ten seconds apart agree: exactly one upsert closes the row
    let first = SummaryData {
        live_duration_ms: 3600,
        like_count: "5".to_string(),
        watch_count: "100".to_string(),
    };
    let second = SummaryData {
        live_duration_ms: 3600,
        like_count: "5".to_string(),
        watch_count: "100".to_string(),
    };
    assert!(first.same_as(&second));

    let mut store = CatalogStore::new();
    store.apply(AllLiveData::Live(acfunlivedata::data::Live {
        live_id: "S".to_string(),
        liver_uid: 7,
        ..Default::default()
    }));
    // re-discovering the same session inserts nothing
    store.apply(AllLiveData::Live(acfunlivedata::data::Live {
        live_id: "S".to_string(),
        liver_uid: 7,
        ..Default::default()
    }));
    assert_eq!(store.len(), 1);
    store.apply(AllLiveData::Summary("S".to_string(), second));
    assert_eq!(store.len(), 1);
    assert_eq!(store.duration_of("S"), Some(3600));

    assert!(sup.handle_stop_summary("S"));
    assert!(!sup.is_summarizing("S"));
}

#[test]
fn auth_failure_with_unknown_token() {
    let mut roster = catalog::Config::new();
    let admin = roster.ensure_admin().unwrap();
    let gate = Token;
    // a well-shaped token that is not in the roster
    let stranger = "AAAAAAAAAAAAAAAAAAAA".to_string();
    assert!(gate.authorize(&vec![stranger], &roster).is_none());
    // wrong length
    assert!(gate.authorize(&vec!["short".to_string()], &roster).is_none());
    // two tokens
    assert!(gate
        .authorize(&vec![admin.clone(), admin.clone()], &roster)
        .is_none());
    // no token
    assert!(gate.authorize(&vec![], &roster).is_none());
    // the real one
    assert!(matches!(
        gate.authorize(&vec![admin], &roster),
        Some(User::Admin)
    ));
}

#[test]
fn download_gate_while_live() {
    assert_eq!(
        acfunlivedata::query::download_check(User::Liver(42), true, true),
        Err(DownloadError::Living)
    );
    assert_eq!(
        acfunlivedata::query::download_check(User::Liver(42), false, false),
        Err(DownloadError::NoDatabase)
    );
    assert_eq!(
        acfunlivedata::query::download_check(User::Admin, false, true),
        Err(DownloadError::AdminToken)
    );
    assert_eq!(
        acfunlivedata::query::download_check(User::Liver(42), false, true),
        Ok(42)
    );
}

#[test]
fn stop_danmaku_forgets_stream() {
    let mut sup = Supervisor::new(capture::Config::new());
    sup.handle_command(DataCenterMessage::AddLiver(42, false));
    let _ = sup.handle_live_list(vec![entry(42, "L", "T")]);
    assert!(sup.is_active("L"));
    assert!(sup.handle_stop_danmaku("L"));
    assert!(!sup.is_active("L"));
    assert!(!sup.handle_stop_danmaku("L"));
}
