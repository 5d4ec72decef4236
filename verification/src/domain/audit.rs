//! The audit ledger: an append-only record of what was done to which entity.
//!
//! Every entry carries the number of entries recorded before it for the same
//! entity, so the entries of one entity are numbered 0, 1, 2, ... in the order
//! in which they were appended.

use crate::domain::models::{same_text, text_of, AuditLog, LogSeverity};
use crate::error::{BotError, ErrorKind};
use vstd::prelude::*;
use vstd::string::*;

verus! {

/// What identifies the entity an entry is about: its kind and its identifier.
pub struct EntityKey {
    pub kind: Option<Seq<char>>,
    pub id: Option<u128>,
}

/// Something that happened and is to be recorded.
#[derive(Debug, PartialEq, Eq)]
pub struct AuditEvent {
    pub user_id: Option<u128>,
    pub action_type: String,
    pub entity_type: Option<String>,
    pub entity_id: Option<u128>,
    pub details: Option<String>,
    pub telegram_message_id: Option<i64>,
    pub severity: LogSeverity,
    pub created_at: i64,
}

/// What an event says, with its texts as sequences of characters.
pub struct EventView {
    pub user_id: Option<u128>,
    pub action_type: Seq<char>,
    pub entity_type: Option<Seq<char>>,
    pub entity_id: Option<u128>,
    pub details: Option<Seq<char>>,
    pub telegram_message_id: Option<i64>,
    pub severity: LogSeverity,
    pub created_at: i64,
}

impl View for AuditEvent {
    type V = EventView;

    open spec fn view(&self) -> EventView {
        EventView {
            user_id: self.user_id,
            action_type: self.action_type@,
            entity_type: text_of(self.entity_type),
            entity_id: self.entity_id,
            details: text_of(self.details),
            telegram_message_id: self.telegram_message_id,
            severity: self.severity,
            created_at: self.created_at,
        }
    }
}

impl EventView {
    /// The entity the event is about.
    pub open spec fn key(self) -> EntityKey {
        EntityKey { kind: self.entity_type, id: self.entity_id }
    }
}

impl AuditLog {
    /// The entity the entry is about.
    pub open spec fn key(self) -> EntityKey {
        EntityKey { kind: text_of(self.entity_type), id: self.entity_id }
    }

    /// What the entry says, without its numbers.
    pub open spec fn event(self) -> EventView {
        EventView {
            user_id: self.user_id,
            action_type: self.action_type@,
            entity_type: text_of(self.entity_type),
            entity_id: self.entity_id,
            details: text_of(self.details),
            telegram_message_id: self.telegram_message_id,
            severity: self.severity,
            created_at: self.created_at,
        }
    }
}

/// The event that says what `actor_id` did to the entity `entity_id` of the
/// kind `kind`.
pub open spec fn event_about(
    actor_id: Option<u128>,
    action: Seq<char>,
    kind: Seq<char>,
    entity_id: u128,
    details: Option<Seq<char>>,
    severity: LogSeverity,
    now: i64,
) -> EventView {
    EventView {
        user_id: actor_id,
        action_type: action,
        entity_type: Some(kind),
        entity_id: Some(entity_id),
        details,
        telegram_message_id: None,
        severity,
        created_at: now,
    }
}

impl AuditEvent {
    /// The event that says what `actor_id` did to the entity `entity_id` of
    /// the kind `kind`.
    pub fn about(
        actor_id: Option<u128>,
        action: &str,
        kind: &str,
        entity_id: u128,
        details: Option<String>,
        severity: LogSeverity,
        now: i64,
    ) -> (r: AuditEvent)
        ensures
            r@ == event_about(
                actor_id,
                action@,
                kind@,
                entity_id,
                text_of(details),
                severity,
                now,
            ),
    {
        AuditEvent {
            user_id: actor_id,
            action_type: String::from_str(action),
            entity_type: Some(String::from_str(kind)),
            entity_id: Some(entity_id),
            details,
            telegram_message_id: None,
            severity,
            created_at: now,
        }
    }
}

/// Whether `after` is `before` with one more entry for each event of
/// `events` at its end, in their order, each numbered as the ledger numbers
/// its entries.
pub open spec fn gained_all(before: Seq<AuditLog>, after: Seq<AuditLog>, events: Seq<EventView>)
    -> bool {
    &&& after.len() == before.len() + events.len()
    &&& after.take(before.len() as int) == before
    &&& forall|k: int|
        0 <= k < events.len() ==> (#[trigger] after[before.len() + k]).event() == events[k]
    &&& numbered(before) ==> numbered(after)
}

/// Whether `after` is `before` with one more entry at its end, which says
/// what `event` says and is numbered as the ledger numbers its entries.
pub open spec fn gained(before: Seq<AuditLog>, after: Seq<AuditLog>, event: EventView) -> bool {
    &&& after.len() == before.len() + 1
    &&& after.drop_last() == before
    &&& after.last().event() == event
    &&& after.last().id == before.len()
    &&& after.last().sequence == entries_about(before, event.key())
}

/// The number of entries in `entries` that are about the entity `key`.
pub open spec fn entries_about(entries: Seq<AuditLog>, key: EntityKey) -> nat {
    entries.filter(|e: AuditLog| e.key() == key).len()
}

/// Whether every entry of `entries` carries its position as identifier and
/// the number of earlier entries about its entity as sequence number.
pub open spec fn numbered(entries: Seq<AuditLog>) -> bool {
    forall|i: int|
        0 <= i < entries.len() ==> {
            &&& (#[trigger] entries[i]).id == i
            &&& entries[i].sequence == entries_about(entries.take(i), entries[i].key())
        }
}

/// The append-only ledger.
pub struct AuditLedger {
    entries: Vec<AuditLog>,
}

impl View for AuditLedger {
    type V = Seq<AuditLog>;

    /// The entries in the order in which they were appended.
    closed spec fn view(&self) -> Seq<AuditLog> {
        self.entries@
    }
}

impl AuditLedger {
    /// Whether the ledger is one that `new`, `restore` and `append` can have built.
    pub open spec fn wf(&self) -> bool {
        numbered(self@)
    }

    /// The entries about the entity `key`, in the order in which they were appended.
    pub open spec fn history(&self, key: EntityKey) -> Seq<AuditLog> {
        self@.filter(|e: AuditLog| e.key() == key)
    }

    /// An empty ledger.
    pub fn new() -> (r: Self)
        ensures
            r@ == Seq::<AuditLog>::empty(),
            r.wf(),
    {
        AuditLedger { entries: Vec::new() }
    }

    /// The ledger that holds `entries`, where they are numbered as a ledger
    /// numbers its entries; a validation error where they are not.
    pub fn restore(entries: Vec<AuditLog>) -> (r: Result<Self, BotError>)
        ensures
            match r {
                Ok(ledger) => numbered(entries@) && ledger@ == entries@ && ledger.wf(),
                Err(e) => !numbered(entries@) && e.is(
                    ErrorKind::Validation,
                    "entries are not numbered as a ledger numbers them"@,
                ),
            },
    {
        let mut i: usize = 0;
        while i < entries.len()
            invariant
                i <= entries@.len(),
                forall|k: int|
                    0 <= k < i ==> {
                        &&& (#[trigger] entries@[k]).id == k
                        &&& entries@[k].sequence == entries_about(
                            entries@.take(k),
                            entries@[k].key(),
                        )
                    },
            decreases entries@.len() - i,
        {
            let e = &entries[i];
            let earlier = count_about(&entries, i, &e.entity_type, e.entity_id);
            if e.id != i as u128 || e.sequence != earlier as u64 {
                return Err(
                    BotError::ValidationError(
                        String::from_str("entries are not numbered as a ledger numbers them"),
                    ),
                );
            }
            i = i + 1;
        }
        Ok(AuditLedger { entries })
    }

    /// The number of entries.
    pub fn len(&self) -> (r: usize)
        ensures
            r == self@.len(),
    {
        self.entries.len()
    }

    /// The entry at `position`, if the ledger is that long.
    pub fn get(&self, position: usize) -> (r: Option<&AuditLog>)
        ensures
            position < self@.len() ==> r == Some(&self@[position as int]),
            position >= self@.len() ==> r is None,
    {
        if position < self.entries.len() {
            Some(&self.entries[position])
        } else {
            None
        }
    }

    /// Records `event` at the end of the ledger and returns the new entry.
    ///
    /// The entries already in the ledger stay as they are. The new entry
    /// carries the fields of the event, its position in the ledger as
    /// identifier, and as sequence number the number of earlier entries
    /// about the same entity.
    pub fn append(&mut self, event: AuditEvent) -> (r: AuditLog)
        requires
            old(self).wf(),
        ensures
            final(self)@ == old(self)@.push(r),
            gained(old(self)@, final(self)@, event@),
            final(self).wf(),
    {
        let n = self.entries.len();
        let earlier = count_about(&self.entries, n, &event.entity_type, event.entity_id);
        proof {
            assert(self.entries@.take(n as int) == self.entries@);
        }
        let entry = AuditLog {
            id: n as u128,
            user_id: event.user_id,
            action_type: event.action_type,
            entity_type: event.entity_type,
            entity_id: event.entity_id,
            details: event.details,
            telegram_message_id: event.telegram_message_id,
            severity: event.severity,
            created_at: event.created_at,
            sequence: earlier as u64,
        };
        let r = entry.clone();
        proof {
            let before = self.entries@;
            let after = before.push(entry);
            assert forall|j: int| 0 <= j < after.len() implies {
                &&& (#[trigger] after[j]).id == j
                &&& after[j].sequence == entries_about(after.take(j), after[j].key())
            } by {
                if j < before.len() {
                    assert(after.take(j) == before.take(j));
                } else {
                    assert(after.take(j) == before);
                }
            }
        }
        self.entries.push(entry);
        proof {
            assert(self.entries@.drop_last() == old(self).entries@);
        }
        r
    }

    /// The entries that meet every condition given, ordered by entity
    /// identifier, then by sequence number, then by position in the ledger.
    ///
    /// A condition that is `None` excludes nothing. `time_range` holds the
    /// first and the last instant that are still included. Entries without
    /// an entity identifier come first.
    pub fn query(
        &self,
        entity_type: &Option<String>,
        entity_id: Option<u128>,
        min_severity: Option<LogSeverity>,
        time_range: Option<(i64, i64)>,
    ) -> (r: Vec<AuditLog>)
        requires
            self.wf(),
        ensures
            ordered(r@),
            r@.to_multiset() == self@.filter(
                |e: AuditLog|
                    selected(e, text_of(*entity_type), entity_id, min_severity, time_range),
            ).to_multiset(),
    {
        let ghost wanted = |e: AuditLog|
            selected(e, text_of(*entity_type), entity_id, min_severity, time_range);
        let mut out: Vec<AuditLog> = Vec::new();
        let n = self.entries.len();
        let mut i: usize = 0;
        proof {
            reveal(Seq::filter);
            assert(self.entries@.take(0).filter(wanted) == out@);
        }
        while i < n
            invariant
                n == self.entries@.len(),
                i <= n,
                numbered(self.entries@),
                wanted == (|e: AuditLog|
                    selected(e, text_of(*entity_type), entity_id, min_severity, time_range)),
                ordered(out@),
                forall|k: int| 0 <= k < out@.len() ==> (#[trigger] out@[k]).id < i,
                out@.to_multiset() == self.entries@.take(i as int).filter(wanted).to_multiset(),
            decreases n - i,
        {
            let e = &self.entries[i];
            let ghost prefix = self.entries@.take(i as int);
            proof {
                assert(self.entries@.take(i + 1) == prefix.push(*e));
                prefix.lemma_filter_push(*e, wanted);
            }
            if is_selected(e, entity_type, entity_id, min_severity, time_range) {
                let mut p: usize = 0;
                while p < out.len() && !comes_before(e, &out[p])
                    invariant
                        p <= out@.len(),
                        forall|k: int| 0 <= k < p ==> !precedes(*e, #[trigger] out@[k]),
                    decreases out@.len() - p,
                {
                    p = p + 1;
                }
                proof {
                    let before = out@;
                    let after = before.insert(p as int, *e);
                    vstd::seq_lib::to_multiset_insert(before, p as int, *e);
                    vstd::seq_lib::to_multiset_build(prefix.filter(wanted), *e);
                    assert forall|a: int, b: int| 0 <= a < b < after.len() implies precedes(
                        after[a],
                        after[b],
                    ) by {
                        if b < p {
                        } else if b == p {
                            assert(!precedes(*e, before[a]));
                        } else if a < p {
                            assert(precedes(before[a], before[b - 1]));
                        } else if a == p {
                            if b - 1 > p {
                                assert(precedes(before[p as int], before[b - 1]));
                            }
                        } else {
                            assert(precedes(before[a - 1], before[b - 1]));
                        }
                    }
                }
                out.insert(p, e.clone());
            }
            i = i + 1;
        }
        proof {
            assert(self.entries@.take(n as int) == self.entries@);
        }
        out
    }

    /// Among the entries about one entity, a later entry carries a greater
    /// sequence number.
    pub proof fn lemma_sequence_follows_order(&self, i: int, j: int)
        requires
            self.wf(),
            0 <= i < j < self@.len(),
            self@[i].key() == self@[j].key(),
        ensures
            self@[i].sequence < self@[j].sequence,
    {
        let key = self@[i].key();
        let about = |e: AuditLog| e.key() == key;
        let upto_j = self@.take(j);
        assert(upto_j.take(i + 1) == self@.take(i + 1));
        assert(self@.take(i + 1) == self@.take(i).push(self@[i]));
        self@.take(i).lemma_filter_len_push(about, self@[i]);
        upto_j.lemma_filter_take_len(about, i + 1);
    }

    /// The entries about one entity are numbered 0, 1, 2, ... in the order in
    /// which they were appended: ordering them by sequence number gives the
    /// order of the mutations they record.
    pub proof fn lemma_history_is_numbered(&self, key: EntityKey, k: int)
        requires
            self.wf(),
            0 <= k < self.history(key).len(),
        ensures
            self.history(key)[k].sequence == k,
            self.history(key)[k].key() == key,
    {
        lemma_numbered_history(self@, key, k);
    }
}

/// Whether a query with these conditions returns the entry `e`.
pub open spec fn selected(
    e: AuditLog,
    entity_type: Option<Seq<char>>,
    entity_id: Option<u128>,
    min_severity: Option<LogSeverity>,
    time_range: Option<(i64, i64)>,
) -> bool {
    &&& entity_type is Some ==> text_of(e.entity_type) == entity_type
    &&& entity_id is Some ==> e.entity_id == entity_id
    &&& min_severity matches Some(least) ==> e.severity.rank() >= least.rank()
    &&& time_range matches Some(range) ==> range.0 <= e.created_at <= range.1
}

/// The place of an entity identifier in the order of a query's result.
pub open spec fn id_rank(id: Option<u128>) -> int {
    match id {
        None => -1,
        Some(x) => x as int,
    }
}

/// Whether `a` stands before `b` in the result of a query.
pub open spec fn precedes(a: AuditLog, b: AuditLog) -> bool {
    ||| id_rank(a.entity_id) < id_rank(b.entity_id)
    ||| a.entity_id == b.entity_id && a.sequence < b.sequence
    ||| a.entity_id == b.entity_id && a.sequence == b.sequence && a.id < b.id
}

/// Whether each entry of `s` stands before all that follow it.
pub open spec fn ordered(s: Seq<AuditLog>) -> bool {
    forall|i: int, j: int| 0 <= i < j < s.len() ==> precedes(s[i], s[j])
}

fn count_about(
    entries: &Vec<AuditLog>,
    upto: usize,
    entity_type: &Option<String>,
    entity_id: Option<u128>,
) -> (r: usize)
    requires
        upto <= entries@.len(),
    ensures
        r == entries_about(
            entries@.take(upto as int),
            EntityKey { kind: text_of(*entity_type), id: entity_id },
        ),
        r <= upto,
{
    let ghost key = EntityKey { kind: text_of(*entity_type), id: entity_id };
    let ghost about = |e: AuditLog| e.key() == key;
    let mut found: usize = 0;
    let mut i: usize = 0;
    proof {
        reveal(Seq::filter);
        assert(entries@.take(0).filter(about) == Seq::<AuditLog>::empty());
    }
    while i < upto
        invariant
            upto <= entries@.len(),
            i <= upto,
            found <= i,
            found == entries@.take(i as int).filter(about).len(),
            about == (|e: AuditLog| e.key() == key),
            key == (EntityKey { kind: text_of(*entity_type), id: entity_id }),
        decreases upto - i,
    {
        let e = &entries[i];
        let same = same_text(&e.entity_type, entity_type) && e.entity_id == entity_id;
        proof {
            let prefix = entries@.take(i as int);
            assert(entries@.take(i + 1) == prefix.push(entries@[i as int]));
            prefix.lemma_filter_push(entries@[i as int], about);
        }
        if same {
            found = found + 1;
        }
        i = i + 1;
    }
    found
}

fn is_selected(
    e: &AuditLog,
    entity_type: &Option<String>,
    entity_id: Option<u128>,
    min_severity: Option<LogSeverity>,
    time_range: Option<(i64, i64)>,
) -> (r: bool)
    ensures
        r == selected(*e, text_of(*entity_type), entity_id, min_severity, time_range),
{
    let kind_fits = match entity_type {
        Some(_) => same_text(&e.entity_type, entity_type),
        None => true,
    };
    let id_fits = match entity_id {
        Some(id) => e.entity_id == Some(id),
        None => true,
    };
    let severity_fits = match min_severity {
        Some(least) => e.severity.at_least(least),
        None => true,
    };
    let time_fits = match time_range {
        Some(range) => range.0 <= e.created_at && e.created_at <= range.1,
        None => true,
    };
    kind_fits && id_fits && severity_fits && time_fits
}

fn comes_before(a: &AuditLog, b: &AuditLog) -> (r: bool)
    ensures
        r == precedes(*a, *b),
{
    match (a.entity_id, b.entity_id) {
        (None, Some(_)) => true,
        (Some(_), None) => false,
        (None, None) => a.sequence < b.sequence || (a.sequence == b.sequence && a.id < b.id),
        (Some(x), Some(y)) => x < y || (x == y && (a.sequence < b.sequence || (a.sequence
            == b.sequence && a.id < b.id))),
    }
}

proof fn lemma_numbered_history(entries: Seq<AuditLog>, key: EntityKey, k: int)
    requires
        numbered(entries),
        0 <= k < entries.filter(|e: AuditLog| e.key() == key).len(),
    ensures
        entries.filter(|e: AuditLog| e.key() == key)[k].sequence == k,
        entries.filter(|e: AuditLog| e.key() == key)[k].key() == key,
    decreases entries.len(),
{
    let about = |e: AuditLog| e.key() == key;
    if entries.len() > 0 {
        let last = entries.last();
        let init = entries.drop_last();
        assert(entries == init.push(last));
        init.lemma_filter_push(last, about);
        assert(numbered(init)) by {
            assert forall|i: int| 0 <= i < init.len() implies {
                &&& (#[trigger] init[i]).id == i
                &&& init[i].sequence == entries_about(init.take(i), init[i].key())
            } by {
                assert(init.take(i) == entries.take(i));
                assert(init[i] == entries[i]);
            }
        }
        if k < init.filter(about).len() {
            lemma_numbered_history(init, key, k);
        } else {
            assert(last == entries[entries.len() - 1]);
        }
    }
}

} // verus!
