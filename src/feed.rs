use vstd::prelude::*;
use crate::error::HcsError;
use crate::event::{CalProperty, EventRecord, ical_event_to_event, mapped_event, empty_record, lemma_key_kept};

verus! {

/// The components of the first calendar in an iCalendar text, each as its property
/// list, or `None` where the text holds no parseable calendar.
pub uninterp spec fn feed_components(text: Seq<char>) -> Option<Seq<Seq<CalProperty>>>;

/// Relies on `ical::IcalParser` over the text's bytes: the first calendar it yields,
/// if that parses, with each event's properties moved field by field.
#[verifier::external_body]
fn parse_feed(text: &str) -> (r: Option<Vec<Vec<CalProperty>>>)
    ensures
        match r {
            Some(v) => feed_components(text@) == Some(v@.map_values(|c: Vec<CalProperty>| c@)),
            None => feed_components(text@) is None,
        },
{
    let cal = ical::IcalParser::new(text.as_bytes()).next()?.ok()?;
    Some(cal.events.into_iter().map(|e| e.properties.into_iter().map(|p| CalProperty {
        name: p.name,
        params: p.params,
        value: p.value,
    }).collect()).collect())
}

/// The records that the components `cs` map to under `key`, one per component, in order.
pub open spec fn mapped_events(key: String, cs: Seq<Seq<CalProperty>>) -> Seq<EventRecord> {
    Seq::new(cs.len(), |i: int| mapped_event(key, cs[i]))
}

/// The event records of every event component of the feed's first calendar, each
/// tagged with `key`; a feed without a parseable calendar is a `CalError`.
pub fn import_events(key: &String, text: &str) -> (r: Result<Vec<EventRecord>, HcsError>)
    ensures
        match feed_components(text@) {
            None => r == Err::<Vec<EventRecord>, HcsError>(HcsError::CalError {  }),
            Some(cs) => r matches Ok(v) && v@ == mapped_events(*key, cs),
        },
{
    let comps = match parse_feed(text) {
        None => {
            return Err(HcsError::CalError {  });
        },
        Some(c) => c,
    };
    let ghost cs = comps@.map_values(|c: Vec<CalProperty>| c@);
    let mut out: Vec<EventRecord> = Vec::new();
    let mut i: usize = 0;
    while i < comps.len()
        invariant
            i <= comps@.len(),
            cs == comps@.map_values(|c: Vec<CalProperty>| c@),
            out@ =~= mapped_events(*key, cs.subrange(0, i as int)),
        decreases comps@.len() - i,
    {
        let rec = ical_event_to_event(key.clone(), &comps[i]);
        out.push(rec);
        assert(mapped_events(*key, cs.subrange(0, i + 1)) =~= mapped_events(
            *key,
            cs.subrange(0, i as int),
        ).push(rec));
        i += 1;
    }
    assert(cs.subrange(0, comps@.len() as int) =~= cs);
    Ok(out)
}

/// The store's report on a replace-by-key submission.
#[derive(Debug, Clone, Copy, PartialEq, Eq, Structural)]
pub struct ReconciliationResult {
    pub deleted: i64,
    pub inserted: i64,
}

/// The replace-by-key mutation of the events under one key.
pub struct InsertEventQuery;

impl InsertEventQuery {
    /// The counts of the store's reply; an `InsertDataError` where either is missing.
    pub fn counts(deleted: Option<i64>, inserted: Option<i64>) -> (r: Result<
        ReconciliationResult,
        HcsError,
    >)
        ensures
            match (deleted, inserted) {
                (Some(d), Some(i)) => r == Ok::<ReconciliationResult, HcsError>(
                    ReconciliationResult { deleted: d, inserted: i },
                ),
                _ => r == Err::<ReconciliationResult, HcsError>(HcsError::InsertDataError {  }),
            },
    {
        match (deleted, inserted) {
            (Some(d), Some(i)) => Ok(ReconciliationResult { deleted: d, inserted: i }),
            _ => Err(HcsError::InsertDataError {  }),
        }
    }
}

/// The records that remain under other keys once those under `key` are removed.
pub open spec fn rows_outside(store: Seq<EventRecord>, key: Seq<char>) -> Seq<EventRecord> {
    store.filter(outside_key(key))
}

/// Whether a record lies under a key other than `key`.
pub open spec fn outside_key(key: Seq<char>) -> spec_fn(EventRecord) -> bool {
    |e: EventRecord| e.key@ != key
}

/// A replace-by-key submission of `batch` under `key`: the records under `key` are
/// deleted and `batch` is inserted. Gives the new store, the deleted count and the
/// inserted count.
pub open spec fn replace_by_key(store: Seq<EventRecord>, key: Seq<char>, batch: Seq<EventRecord>) -> (
    Seq<EventRecord>,
    int,
    int,
) {
    let kept = rows_outside(store, key);
    (kept + batch, store.len() - kept.len(), batch.len() as int)
}

/// Submitting the same batch twice under its key leaves the store as the first
/// submission left it, and the second deletes exactly what the first inserted.
pub proof fn lemma_replace_idempotent(store: Seq<EventRecord>, key: Seq<char>, batch: Seq<EventRecord>)
    requires
        forall|i: int| 0 <= i < batch.len() ==> (#[trigger] batch[i]).key@ == key,
    ensures
        ({
            let (s1, d1, i1) = replace_by_key(store, key, batch);
            let (s2, d2, i2) = replace_by_key(s1, key, batch);
            s2 == s1 && d2 == i1 && i2 == i1
        }),
{
    let f = outside_key(key);
    let kept = store.filter(f);
    Seq::filter_distributes_over_add(kept, batch, f);
    lemma_filter_rejects_all(batch, f);
    lemma_filter_keeps_all(store, f);
    assert(kept + batch.filter(f) =~= kept);
    assert(kept + batch == (kept + batch).filter(f) + batch);
}

/// Importing the same feed twice under the same key: the second submission of the
/// records `import_events` gives deletes exactly as many as the first inserted,
/// inserts as many again, and leaves the store as the first left it.
pub proof fn lemma_import_idempotent(store: Seq<EventRecord>, key: String, cs: Seq<Seq<CalProperty>>)
    ensures
        ({
            let batch = mapped_events(key, cs);
            let (s1, d1, i1) = replace_by_key(store, key@, batch);
            let (s2, d2, i2) = replace_by_key(s1, key@, batch);
            s2 == s1 && d2 == i1 && i2 == i1
        }),
{
    let batch = mapped_events(key, cs);
    assert forall|i: int| 0 <= i < batch.len() implies (#[trigger] batch[i]).key@ == key@ by {
        lemma_key_kept(empty_record(key), cs[i]);
    }
    lemma_replace_idempotent(store, key@, batch);
}

proof fn lemma_filter_rejects_all(s: Seq<EventRecord>, f: spec_fn(EventRecord) -> bool)
    requires
        forall|i: int| 0 <= i < s.len() ==> !f(#[trigger] s[i]),
    ensures
        s.filter(f) =~= Seq::<EventRecord>::empty(),
    decreases s.len(),
{
    reveal(Seq::filter);
    if s.len() > 0 {
        let rest = s.drop_last();
        assert forall|i: int| 0 <= i < rest.len() implies !f(#[trigger] rest[i]) by {
            assert(rest[i] == s[i]);
        }
        lemma_filter_rejects_all(rest, f);
        assert(!f(s[s.len() - 1]));
    }
}

proof fn lemma_filter_keeps_all(s: Seq<EventRecord>, f: spec_fn(EventRecord) -> bool)
    ensures
        s.filter(f).filter(f) =~= s.filter(f),
    decreases s.len(),
{
    reveal(Seq::filter);
    if s.len() > 0 {
        lemma_filter_keeps_all(s.drop_last(), f);
        let t = s.drop_last().filter(f);
        if f(s.last()) {
            assert(t.push(s.last()).drop_last() =~= t);
        }
    }
}

} // verus!
