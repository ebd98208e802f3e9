use vstd::prelude::*;
use crate::instant::UtcInstant;
use crate::normalize::{normalize, normalized, first_param};
use crate::text::{same_text, opt_chars, copy_opt_text};

verus! {

/// One named field of a calendar component, with its optional parameters.
#[derive(Debug, Clone)]
pub struct CalProperty {
    pub name: String,
    pub params: Option<Vec<(String, Vec<String>)>>,
    pub value: Option<String>,
}

/// The canonical record of one calendar event; every timestamp is an absolute UTC instant.
#[derive(Debug, Clone)]
pub struct EventRecord {
    pub key: String,
    pub calendar_uid: Option<String>,
    pub summary: Option<String>,
    pub description: Option<String>,
    pub location: Option<String>,
    pub organizer: Option<String>,
    pub status: Option<String>,
    pub attach: Option<String>,
    pub start: Option<UtcInstant>,
    pub end: Option<UtcInstant>,
    pub created_at: Option<UtcInstant>,
    pub updated_at: Option<UtcInstant>,
}

/// The record for `key` before any property is applied.
pub open spec fn empty_record(key: String) -> EventRecord {
    EventRecord {
        key,
        calendar_uid: None,
        summary: None,
        description: None,
        location: None,
        organizer: None,
        status: None,
        attach: None,
        start: None,
        end: None,
        created_at: None,
        updated_at: None,
    }
}

/// The instant a timestamp property normalises to.
pub open spec fn property_instant(p: CalProperty) -> Option<UtcInstant> {
    normalized(opt_chars(p.value), first_param(p.params))
}

/// The record after property `p` is applied; `STATUS` lands in `organizer`, and
/// unknown names leave the record as it was.
pub open spec fn apply_property(r: EventRecord, p: CalProperty) -> EventRecord {
    let n = p.name@;
    if n == "ATTACH"@ {
        EventRecord { attach: p.value, ..r }
    } else if n == "UID"@ {
        EventRecord { calendar_uid: p.value, ..r }
    } else if n == "CREATED"@ {
        EventRecord { created_at: property_instant(p), ..r }
    } else if n == "DESCRIPTION"@ {
        EventRecord { description: p.value, ..r }
    } else if n == "DTEND"@ {
        EventRecord { end: property_instant(p), ..r }
    } else if n == "LOCATION"@ {
        EventRecord { location: p.value, ..r }
    } else if n == "ORGANIZER"@ {
        EventRecord { organizer: p.value, ..r }
    } else if n == "DTSTART"@ {
        EventRecord { start: property_instant(p), ..r }
    } else if n == "STATUS"@ {
        EventRecord { organizer: p.value, ..r }
    } else if n == "SUMMARY"@ {
        EventRecord { summary: p.value, ..r }
    } else if n == "LAST-MODIFIED"@ {
        EventRecord { updated_at: property_instant(p), ..r }
    } else {
        r
    }
}

/// The record after the properties `ps` are applied in order.
pub open spec fn apply_properties(r: EventRecord, ps: Seq<CalProperty>) -> EventRecord
    decreases ps.len(),
{
    if ps.len() == 0 {
        r
    } else {
        apply_property(apply_properties(r, ps.drop_last()), ps.last())
    }
}

/// The record that the component `ps` maps to under `key`.
pub open spec fn mapped_event(key: String, ps: Seq<CalProperty>) -> EventRecord {
    apply_properties(empty_record(key), ps)
}

/// Whether a property of this name fills the `organizer` field.
pub open spec fn fills_organizer(n: Seq<char>) -> bool {
    n == "ORGANIZER"@ || n == "STATUS"@
}

proof fn lemma_organizer_set(r: EventRecord, p: CalProperty)
    requires
        fills_organizer(p.name@),
    ensures
        apply_property(r, p).organizer == p.value,
{
    reveal_strlit("ATTACH");
    reveal_strlit("UID");
    reveal_strlit("CREATED");
    reveal_strlit("DESCRIPTION");
    reveal_strlit("DTEND");
    reveal_strlit("LOCATION");
    reveal_strlit("ORGANIZER");
    reveal_strlit("DTSTART");
    reveal_strlit("STATUS");
    assert(p.name@.len() == 9 || p.name@.len() == 6);
    if p.name@.len() == 6 {
        assert(p.name@[0] != "ATTACH"@[0]);
    }
}

proof fn lemma_organizer_kept(r: EventRecord, p: CalProperty)
    requires
        !fills_organizer(p.name@),
    ensures
        apply_property(r, p).organizer == r.organizer,
{
}

/// Of the `ORGANIZER` and `STATUS` properties of a component, the one that comes
/// last decides the record's `organizer`.
pub proof fn lemma_organizer_last_wins(key: String, ps: Seq<CalProperty>, j: int)
    requires
        0 <= j < ps.len(),
        fills_organizer(ps[j].name@),
        forall|m: int| j < m < ps.len() ==> !fills_organizer(#[trigger] ps[m].name@),
    ensures
        mapped_event(key, ps).organizer == ps[j].value,
    decreases ps.len(),
{
    let prev = apply_properties(empty_record(key), ps.drop_last());
    if j == ps.len() - 1 {
        lemma_organizer_set(prev, ps[j]);
    } else {
        let rest = ps.drop_last();
        assert forall|m: int| j < m < rest.len() implies !fills_organizer(
            #[trigger] rest[m].name@,
        ) by {
            assert(rest[m] == ps[m]);
        }
        lemma_organizer_last_wins(key, rest, j);
        assert(!fills_organizer(ps[ps.len() - 1].name@));
        lemma_organizer_kept(prev, ps.last());
    }
}

/// Applying properties never changes a record's key.
pub proof fn lemma_key_kept(r: EventRecord, ps: Seq<CalProperty>)
    ensures
        apply_properties(r, ps).key == r.key,
    decreases ps.len(),
{
    if ps.len() > 0 {
        lemma_key_kept(r, ps.drop_last());
    }
}

impl EventRecord {
    /// A record for `key` with every other field empty.
    pub fn new(key: String) -> (r: EventRecord)
        ensures
            r == empty_record(key),
    {
        EventRecord {
            key,
            calendar_uid: None,
            summary: None,
            description: None,
            location: None,
            organizer: None,
            status: None,
            attach: None,
            start: None,
            end: None,
            created_at: None,
            updated_at: None,
        }
    }

    /// Applies one property to the record.
    pub fn apply(&mut self, p: &CalProperty)
        ensures
            *final(self) == apply_property(*old(self), *p),
    {
        let n = p.name.as_str();
        if same_text(n, "ATTACH") {
            self.attach = copy_opt_text(&p.value);
        } else if same_text(n, "UID") {
            self.calendar_uid = copy_opt_text(&p.value);
        } else if same_text(n, "CREATED") {
            self.created_at = normalize(&p.value, &p.params);
        } else if same_text(n, "DESCRIPTION") {
            self.description = copy_opt_text(&p.value);
        } else if same_text(n, "DTEND") {
            self.end = normalize(&p.value, &p.params);
        } else if same_text(n, "LOCATION") {
            self.location = copy_opt_text(&p.value);
        } else if same_text(n, "ORGANIZER") {
            self.organizer = copy_opt_text(&p.value);
        } else if same_text(n, "DTSTART") {
            self.start = normalize(&p.value, &p.params);
        } else if same_text(n, "STATUS") {
            self.organizer = copy_opt_text(&p.value);
        } else if same_text(n, "SUMMARY") {
            self.summary = copy_opt_text(&p.value);
        } else if same_text(n, "LAST-MODIFIED") {
            self.updated_at = normalize(&p.value, &p.params);
        }
    }
}

/// Maps one calendar component to its event record under `key`, applying each
/// property once, in order; a later property of the same field overrides an earlier one.
pub fn ical_event_to_event(key: String, props: &Vec<CalProperty>) -> (r: EventRecord)
    ensures
        r == mapped_event(key, props@),
{
    let ghost k = key;
    let mut ret = EventRecord::new(key);
    let mut i: usize = 0;
    while i < props.len()
        invariant
            i <= props@.len(),
            ret == apply_properties(empty_record(k), props@.subrange(0, i as int)),
        decreases props@.len() - i,
    {
        ret.apply(&props[i]);
        assert(props@.subrange(0, i + 1).drop_last() =~= props@.subrange(0, i as int));
        i += 1;
    }
    assert(props@.subrange(0, props@.len() as int) =~= props@);
    ret
}

} // verus!
