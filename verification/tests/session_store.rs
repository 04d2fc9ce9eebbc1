use sambro_server::models::session::{
    new_session_id, shard_of, Session, SessionManager, SESSION_CAPACITY, SESSION_ID_LEN,
    SESSION_TTL_MILLIS,
};

fn id(text: &str) -> String {
    text.to_string()
}

#[test]
fn ttl_is_one_hour() {
    assert_eq!(SESSION_TTL_MILLIS, 60 * 60 * 1000);
    assert_eq!(SESSION_CAPACITY, 10_000);
}

#[test]
fn created_session_carries_user_and_expiry() {
    let mut store = SessionManager::new();
    let session = store.add_session_at(id("S1"), id("user-1"), 1_000);
    assert_eq!(session.id, "S1");
    assert_eq!(session.user_id, "user-1");
    assert_eq!(session.expires, 3_601_000);
}

#[test]
fn created_session_is_found_right_away() {
    let mut store = SessionManager::new();
    let session = store.add_session_at(id("S1"), id("user-1"), 1_000);
    let found = store.get_session_at(&session.id, 1_000).expect("session must be found");
    assert_eq!(found.id, "S1");
    assert_eq!(found.user_id, "user-1");
    assert_eq!(found.expires, 3_601_000);
}

#[test]
fn session_is_valid_until_the_last_millisecond() {
    let mut store = SessionManager::new();
    store.add_session_at(id("S1"), id("user-1"), 1_000);
    assert!(store.get_session_at(&id("S1"), 3_600_999).is_some());
}

#[test]
fn session_is_expired_at_the_instant_it_expires() {
    let mut store = SessionManager::new();
    store.add_session_at(id("S1"), id("user-1"), 1_000);
    assert!(store.get_session_at(&id("S1"), 3_601_000).is_none());
}

#[test]
fn expired_session_is_evicted_for_good() {
    let mut store = SessionManager::new();
    store.add_session_at(id("S1"), id("user-1"), 1_000);
    assert!(store.get_session_at(&id("S1"), 9_999_999).is_none());
    // Even a clock that went back does not bring the session back.
    assert!(store.get_session_at(&id("S1"), 1_000).is_none());
    assert!(store.get_session_at(&id("S1"), 0).is_none());
}

#[test]
fn lookup_of_unknown_id_finds_nothing() {
    let mut store = SessionManager::new();
    store.add_session_at(id("S1"), id("user-1"), 1_000);
    assert!(store.get_session_at(&id("S2"), 1_000).is_none());
    // and does not disturb what is there
    assert!(store.get_session_at(&id("S1"), 1_000).is_some());
}

#[test]
fn lookup_of_expired_session_leaves_the_others() {
    let mut store = SessionManager::new();
    store.add_session_at(id("old"), id("user-1"), 0);
    store.add_session_at(id("new"), id("user-2"), 5_000_000);
    assert!(store.get_session_at(&id("old"), 4_000_000).is_none());
    let kept = store.get_session_at(&id("new"), 4_000_000).expect("other session stays");
    assert_eq!(kept.user_id, "user-2");
}

#[test]
fn delete_removes_the_session() {
    let mut store = SessionManager::new();
    store.add_session_at(id("S1"), id("user-1"), 1_000);
    store.delete_session(&id("S1"));
    assert!(store.get_session_at(&id("S1"), 1_000).is_none());
}

#[test]
fn delete_twice_is_harmless() {
    let mut store = SessionManager::new();
    store.add_session_at(id("S1"), id("user-1"), 1_000);
    store.add_session_at(id("S2"), id("user-2"), 1_000);
    store.delete_session(&id("S1"));
    store.delete_session(&id("S1"));
    assert!(store.get_session_at(&id("S1"), 1_000).is_none());
    assert_eq!(store.get_session_at(&id("S2"), 1_000).expect("untouched").user_id, "user-2");
}

#[test]
fn delete_of_unknown_id_is_harmless() {
    let mut store = SessionManager::new();
    store.delete_session(&id("nothing"));
    store.add_session_at(id("S1"), id("user-1"), 1_000);
    store.delete_session(&id("nothing"));
    assert!(store.get_session_at(&id("S1"), 1_000).is_some());
}

#[test]
fn same_id_replaces_the_session() {
    let mut store = SessionManager::new();
    store.add_session_at(id("S1"), id("user-1"), 1_000);
    store.add_session_at(id("S1"), id("user-2"), 2_000);
    let found = store.get_session_at(&id("S1"), 2_000).expect("found");
    assert_eq!(found.user_id, "user-2");
    assert_eq!(found.expires, 3_602_000);
}

#[test]
fn fresh_session_has_a_ulid_and_expires_in_an_hour() {
    let mut store = SessionManager::new();
    let before = chrono::Utc::now().timestamp_millis();
    let session = store.add_session(id("user-1"));
    let after = chrono::Utc::now().timestamp_millis();
    assert_eq!(session.user_id, "user-1");
    assert_eq!(session.id.len(), SESSION_ID_LEN);
    assert_eq!(session.id.len(), 52);
    assert!(session.id.chars().all(|c| "0123456789ABCDEFGHJKMNPQRSTVWXYZ".contains(c)));
    assert!(session.expires >= before + SESSION_TTL_MILLIS);
    assert!(session.expires <= after + SESSION_TTL_MILLIS);
}

#[test]
fn fresh_session_is_found_by_the_clock() {
    let mut store = SessionManager::new();
    let session = store.add_session(id("user-1"));
    let found = store.get_session(&session.id).expect("just created");
    assert_eq!(found.id, session.id);
    assert_eq!(found.user_id, "user-1");
    assert_eq!(found.expires, session.expires);
}

#[test]
fn session_created_long_ago_is_not_found_by_the_clock() {
    let mut store = SessionManager::new();
    store.add_session_at(id("S1"), id("user-1"), 0);
    assert!(store.get_session(&id("S1")).is_none());
    assert!(store.get_session_at(&id("S1"), 0).is_none());
}

#[test]
fn many_sessions_of_one_user_are_distinct_and_valid() {
    let mut store = SessionManager::new();
    let mut sessions: Vec<Session> = Vec::new();
    for _ in 0..64 {
        sessions.push(store.add_session(id("user-1")));
    }
    for (i, a) in sessions.iter().enumerate() {
        for b in sessions.iter().skip(i + 1) {
            assert_ne!(a.id, b.id);
        }
    }
    for s in &sessions {
        let found = store.get_session(&s.id).expect("each session is valid on its own");
        assert_eq!(found.user_id, "user-1");
    }
    // ending one leaves the others
    store.delete_session(&sessions[0].id);
    assert!(store.get_session(&sessions[0].id).is_none());
    assert!(store.get_session(&sessions[1].id).is_some());
}

#[test]
fn store_keeps_every_session_up_to_its_capacity() {
    let mut store = SessionManager::new();
    for n in 0..SESSION_CAPACITY {
        store.add_session_at(format!("S{}", n), format!("user-{}", n), 1_000);
    }
    for n in 0..SESSION_CAPACITY {
        let found = store.get_session_at(&format!("S{}", n), 2_000).expect("kept within capacity");
        assert_eq!(found.id, format!("S{}", n));
        assert_eq!(found.user_id, format!("user-{}", n));
        assert_eq!(found.expires, 3_601_000);
    }
}

#[test]
fn store_keeps_sessions_through_deletions_up_to_its_capacity() {
    let mut store = SessionManager::new();
    for n in 0..SESSION_CAPACITY {
        store.add_session_at(format!("A{}", n), format!("user-{}", n), 1_000);
    }
    for n in 0..SESSION_CAPACITY / 2 {
        store.delete_session(&format!("A{}", n));
    }
    for n in 0..SESSION_CAPACITY / 2 {
        store.add_session_at(format!("B{}", n), format!("user-{}", n), 1_000);
    }
    for n in 0..SESSION_CAPACITY / 2 {
        assert!(store.get_session_at(&format!("A{}", n), 2_000).is_none());
        assert!(store.get_session_at(&format!("B{}", n), 2_000).is_some());
    }
    for n in SESSION_CAPACITY / 2..SESSION_CAPACITY {
        assert!(store.get_session_at(&format!("A{}", n), 2_000).is_some());
    }
}

#[test]
fn store_past_its_capacity_never_invents_or_alters_a_session() {
    let mut store = SessionManager::new();
    for n in 0..SESSION_CAPACITY + 500 {
        store.add_session_at(format!("S{}", n), format!("user-{}", n), 1_000);
    }
    for n in 0..SESSION_CAPACITY + 500 {
        if let Some(found) = store.get_session_at(&format!("S{}", n), 2_000) {
            assert_eq!(found.id, format!("S{}", n));
            assert_eq!(found.user_id, format!("user-{}", n));
            assert_eq!(found.expires, 3_601_000);
        }
    }
    assert!(store.get_session_at(&"never added".to_string(), 2_000).is_none());
}

#[test]
fn session_ids_are_long_and_differ() {
    let a = new_session_id();
    let b = new_session_id();
    assert_eq!(a.len(), 52);
    assert!(a.chars().all(|c| "0123456789ABCDEFGHJKMNPQRSTVWXYZ".contains(c)));
    assert_ne!(a, b);
    // the random parts of the two halves differ from each other too
    assert_ne!(a[10..26], a[36..52]);
    assert_ne!(a[10..26], b[10..26]);
}

#[test]
fn shard_depends_on_the_id_alone() {
    assert_eq!(shard_of("", 16), 0);
    assert_eq!(shard_of("whatever", 1), 0);
    // 'A' is 65, 'B' is 66
    assert_eq!(shard_of("A", 16), 1);
    assert_eq!(shard_of("AB", 16), (65 + 66) % 16);
    assert_eq!(shard_of("BA", 16), (65 + 66) % 16);
    assert_eq!(shard_of("é", 7), 233 % 7);
    let id = new_session_id();
    let shard = shard_of(&id, 16);
    assert!(shard < 16);
    assert_eq!(shard_of(&id, 16), shard);
    let expected = id.chars().map(|c| c as usize).sum::<usize>() % 16;
    assert_eq!(shard, expected);
}

#[test]
fn session_under_a_given_id() {
    let mut store = SessionManager::new();
    let id = new_session_id();
    let before = chrono::Utc::now().timestamp_millis();
    let session = store.add_session_under(id.clone(), "user-1".to_string());
    assert_eq!(session.id, id);
    assert_eq!(session.user_id, "user-1");
    assert!(session.expires >= before + SESSION_TTL_MILLIS);
    assert_eq!(store.get_session(&id).expect("found").user_id, "user-1");
}

#[test]
fn sessions_live_in_the_shard_their_id_picks() {
    let mut shards: Vec<SessionManager> = (0..4).map(|_| SessionManager::new()).collect();
    let mut ids = Vec::new();
    for n in 0..40 {
        let id = new_session_id();
        let shard = shard_of(&id, shards.len());
        shards[shard].add_session_under(id.clone(), format!("user-{}", n));
        ids.push(id);
    }
    for (n, id) in ids.iter().enumerate() {
        let shard = shard_of(id, shards.len());
        let found = shards[shard].get_session(id).expect("found where it was added");
        assert_eq!(found.user_id, format!("user-{}", n));
    }
    let shard = shard_of(&ids[0], shards.len());
    shards[shard].delete_session(&ids[0]);
    assert!(shards[shard].get_session(&ids[0]).is_none());
    for id in ids.iter().skip(1) {
        let shard = shard_of(id, shards.len());
        assert!(shards[shard].get_session(id).is_some());
    }
}
