use rustobot::domain::audit::{AuditEvent, AuditLedger};
use rustobot::domain::models::LogSeverity;
use rustobot::error::BotError;

fn event(kind: Option<&str>, id: Option<u128>, severity: LogSeverity, at: i64) -> AuditEvent {
    AuditEvent {
        user_id: Some(1),
        action_type: "test".to_string(),
        entity_type: kind.map(|k| k.to_string()),
        entity_id: id,
        details: None,
        telegram_message_id: None,
        severity,
        created_at: at,
    }
}

#[test]
fn append_numbers_entries_per_entity() {
    let mut ledger = AuditLedger::new();
    let a0 = ledger.append(event(Some("announcement"), Some(10), LogSeverity::Info, 1));
    let b0 = ledger.append(event(Some("announcement"), Some(20), LogSeverity::Info, 2));
    let a1 = ledger.append(event(Some("announcement"), Some(10), LogSeverity::Warning, 3));
    let c0 = ledger.append(event(Some("user"), Some(10), LogSeverity::Info, 4));
    let a2 = ledger.append(event(Some("announcement"), Some(10), LogSeverity::Error, 5));
    assert_eq!((a0.id, a0.sequence), (0, 0));
    assert_eq!((b0.id, b0.sequence), (1, 0));
    assert_eq!((a1.id, a1.sequence), (2, 1));
    assert_eq!((c0.id, c0.sequence), (3, 0));
    assert_eq!((a2.id, a2.sequence), (4, 2));
    assert_eq!(ledger.len(), 5);
    assert_eq!(ledger.get(2), Some(&a1));
    assert_eq!(ledger.get(5), None);
}

#[test]
fn append_keeps_the_event_and_earlier_entries() {
    let mut ledger = AuditLedger::new();
    let first = ledger.append(AuditEvent {
        user_id: None,
        action_type: "verification.submitted".to_string(),
        entity_type: Some("face_verification".to_string()),
        entity_id: Some(77),
        details: Some("first".to_string()),
        telegram_message_id: Some(-5),
        severity: LogSeverity::Critical,
        created_at: 123,
    });
    assert_eq!(first.user_id, None);
    assert_eq!(first.action_type, "verification.submitted");
    assert_eq!(first.entity_type.as_deref(), Some("face_verification"));
    assert_eq!(first.entity_id, Some(77));
    assert_eq!(first.details.as_deref(), Some("first"));
    assert_eq!(first.telegram_message_id, Some(-5));
    assert_eq!(first.severity, LogSeverity::Critical);
    assert_eq!(first.created_at, 123);
    ledger.append(event(None, None, LogSeverity::Info, 124));
    assert_eq!(ledger.get(0), Some(&first));
}

#[test]
fn entries_without_entity_share_one_sequence() {
    let mut ledger = AuditLedger::new();
    let x = ledger.append(event(None, None, LogSeverity::Info, 1));
    let y = ledger.append(event(None, None, LogSeverity::Info, 2));
    let z = ledger.append(event(Some("user"), None, LogSeverity::Info, 3));
    assert_eq!((x.sequence, y.sequence, z.sequence), (0, 1, 0));
}

#[test]
fn about_builds_an_event_for_an_entity() {
    let e = AuditEvent::about(
        Some(3),
        "announcement.created",
        "announcement",
        44,
        Some("note".to_string()),
        LogSeverity::Info,
        99,
    );
    assert_eq!(
        e,
        AuditEvent {
            user_id: Some(3),
            action_type: "announcement.created".to_string(),
            entity_type: Some("announcement".to_string()),
            entity_id: Some(44),
            details: Some("note".to_string()),
            telegram_message_id: None,
            severity: LogSeverity::Info,
            created_at: 99,
        }
    );
}

#[test]
fn query_orders_by_entity_then_sequence() {
    let mut ledger = AuditLedger::new();
    ledger.append(event(Some("announcement"), Some(30), LogSeverity::Info, 1));
    ledger.append(event(Some("announcement"), Some(10), LogSeverity::Info, 2));
    ledger.append(event(None, None, LogSeverity::Info, 3));
    ledger.append(event(Some("announcement"), Some(30), LogSeverity::Info, 4));
    ledger.append(event(Some("announcement"), Some(10), LogSeverity::Info, 5));
    ledger.append(event(Some("user"), Some(10), LogSeverity::Info, 6));
    let all = ledger.query(&None, None, None, None);
    let keys: Vec<(Option<u128>, u64, u128)> =
        all.iter().map(|e| (e.entity_id, e.sequence, e.id)).collect();
    assert_eq!(
        keys,
        vec![
            (None, 0, 2),
            (Some(10), 0, 1),
            (Some(10), 0, 5),
            (Some(10), 1, 4),
            (Some(30), 0, 0),
            (Some(30), 1, 3),
        ]
    );
}

#[test]
fn query_filters_by_every_condition() {
    let mut ledger = AuditLedger::new();
    ledger.append(event(Some("announcement"), Some(1), LogSeverity::Info, 10));
    ledger.append(event(Some("announcement"), Some(1), LogSeverity::Warning, 20));
    ledger.append(event(Some("user"), Some(1), LogSeverity::Error, 30));
    ledger.append(event(Some("announcement"), Some(2), LogSeverity::Critical, 40));

    let by_kind = ledger.query(&Some("announcement".to_string()), None, None, None);
    assert_eq!(by_kind.iter().map(|e| e.id).collect::<Vec<_>>(), vec![0, 1, 3]);

    let by_id = ledger.query(&None, Some(1), None, None);
    assert_eq!(by_id.iter().map(|e| e.id).collect::<Vec<_>>(), vec![0, 2, 1]);

    let by_severity = ledger.query(&None, None, Some(LogSeverity::Warning), None);
    assert_eq!(by_severity.iter().map(|e| e.id).collect::<Vec<_>>(), vec![2, 1, 3]);

    let by_time = ledger.query(&None, None, None, Some((20, 30)));
    assert_eq!(by_time.iter().map(|e| e.id).collect::<Vec<_>>(), vec![2, 1]);

    let combined = ledger.query(
        &Some("announcement".to_string()),
        Some(1),
        Some(LogSeverity::Warning),
        Some((0, 100)),
    );
    assert_eq!(combined.iter().map(|e| e.id).collect::<Vec<_>>(), vec![1]);

    let none = ledger.query(&Some("service".to_string()), None, None, None);
    assert!(none.is_empty());
    let empty_range = ledger.query(&None, None, None, Some((31, 39)));
    assert!(empty_range.is_empty());
    assert_eq!(ledger.len(), 4);
}

#[test]
fn history_of_one_entity_is_numbered_in_order_of_time() {
    let mut ledger = AuditLedger::new();
    for round in 0..5 {
        ledger.append(event(Some("announcement"), Some(8), LogSeverity::Info, round));
        ledger.append(event(Some("announcement"), Some(9), LogSeverity::Info, round));
    }
    let history = ledger.query(&Some("announcement".to_string()), Some(8), None, None);
    assert_eq!(history.len(), 5);
    for (k, entry) in history.iter().enumerate() {
        assert_eq!(entry.sequence, k as u64);
        assert_eq!(entry.created_at, k as i64);
    }
}

#[test]
fn a_ledger_is_restored_from_its_own_entries_only() {
    let mut ledger = AuditLedger::new();
    ledger.append(event(Some("announcement"), Some(1), LogSeverity::Info, 1));
    ledger.append(event(Some("user"), Some(1), LogSeverity::Info, 2));
    ledger.append(event(Some("announcement"), Some(1), LogSeverity::Info, 3));
    let entries = ledger.query(&None, None, None, Some((0, 10)));
    let mut in_order = entries.clone();
    in_order.sort_by_key(|e| e.id);
    let mut restored = AuditLedger::restore(in_order.clone()).unwrap();
    assert_eq!(restored.len(), 3);
    assert_eq!(restored.get(2), ledger.get(2));
    let next = restored.append(event(Some("announcement"), Some(1), LogSeverity::Info, 4));
    assert_eq!((next.id, next.sequence), (3, 2));

    let refused = BotError::ValidationError(
        "entries are not numbered as a ledger numbers them".to_string(),
    );
    let mut swapped = in_order.clone();
    swapped.swap(0, 2);
    assert_eq!(AuditLedger::restore(swapped).err(), Some(refused));
    let mut renumbered = in_order.clone();
    renumbered[2].sequence = 0;
    assert!(AuditLedger::restore(renumbered).is_err());
    let mut gap = in_order.clone();
    gap.remove(0);
    assert!(AuditLedger::restore(gap).is_err());
    assert!(AuditLedger::restore(Vec::new()).is_ok());
}

#[test]
fn query_agrees_with_filtering_and_sorting() {
    let mut ledger = AuditLedger::new();
    let kinds = [None, Some("announcement"), Some("user")];
    let ids = [None, Some(3u128), Some(1), Some(2)];
    let severities =
        [LogSeverity::Info, LogSeverity::Warning, LogSeverity::Error, LogSeverity::Critical];
    let mut state: u64 = 0x9E3779B97F4A7C15;
    let mut all = Vec::new();
    for at in 0..200 {
        state ^= state << 13;
        state ^= state >> 7;
        state ^= state << 17;
        let kind = kinds[(state % 3) as usize];
        let id = ids[((state >> 8) % 4) as usize];
        let severity = severities[((state >> 16) % 4) as usize];
        all.push(ledger.append(event(kind, id, severity, at)));
    }
    for (position, entry) in all.iter().enumerate() {
        let earlier = all[..position]
            .iter()
            .filter(|e| e.entity_type == entry.entity_type && e.entity_id == entry.entity_id)
            .count();
        assert_eq!(entry.id, position as u128);
        assert_eq!(entry.sequence, earlier as u64);
    }
    for kind in [None, Some("announcement".to_string()), Some("service".to_string())] {
        for id in [None, Some(1u128), Some(9)] {
            for least in [None, Some(LogSeverity::Warning), Some(LogSeverity::Critical)] {
                for range in [None, Some((50, 120)), Some((10, 9))] {
                    let mut expected: Vec<_> = all
                        .iter()
                        .filter(|e| kind.is_none() || e.entity_type == kind)
                        .filter(|e| id.is_none() || e.entity_id == id)
                        .filter(|e| least.map_or(true, |l| e.severity.at_least(l)))
                        .filter(|e| range.map_or(true, |(a, b)| a <= e.created_at && e.created_at <= b))
                        .cloned()
                        .collect();
                    expected.sort_by_key(|e| (e.entity_id, e.sequence, e.id));
                    assert_eq!(ledger.query(&kind, id, least, range), expected);
                }
            }
        }
    }
}
