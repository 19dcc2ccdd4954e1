//! Worker, versioned worker, promise and schedule identifiers, their text
//! forms, their parsing and their wire conversions.

use vstd::prelude::*;
use vstd::string::StringExecFns;
use crate::ids::{
    TemplateId, uuid_text, parse_uuid_text, uuid_to_text, uuid_from_text, lemma_parse_uuid_text,
    lemma_uuid_text_roundtrip, template_id_message, uuid_of_halves, lemma_uuid_halves_roundtrip,
};
use crate::proto;
use crate::text::{decimal_text, push_char, push_i64};

verus! {

/// Splits `s` at every occurrence of `sep`, as `str::split` does: `n` separators
/// give `n + 1` parts, empty parts included.
pub open spec fn split_on(s: Seq<char>, sep: char) -> Seq<Seq<char>>
    decreases s.len(),
{
    if s.len() == 0 {
        seq![Seq::<char>::empty()]
    } else {
        let p = split_on(s.drop_last(), sep);
        if s.last() == sep {
            p.push(Seq::<char>::empty())
        } else {
            p.update(p.len() - 1, p.last().push(s.last()))
        }
    }
}

/// A text without `sep`, followed by `sep` and another text without `sep`,
/// splits into exactly those two texts.
pub proof fn lemma_split_on_two(a: Seq<char>, b: Seq<char>, sep: char)
    requires
        !a.contains(sep),
        !b.contains(sep),
    ensures
        split_on(a + seq![sep] + b, sep) == seq![a, b],
    decreases b.len(),
{
    if b.len() == 0 {
        lemma_split_on_one(a, sep);
        assert(b =~= Seq::<char>::empty());
        assert(a + seq![sep] + b =~= a.push(sep));
        assert(a.push(sep).drop_last() =~= a);
        assert(split_on(a + seq![sep] + b, sep) =~= seq![a, b]);
    } else {
        let s = a + seq![sep] + b;
        assert(s.drop_last() =~= a + seq![sep] + b.drop_last());
        assert(!b.drop_last().contains(sep)) by {
            if b.drop_last().contains(sep) {
                let k = choose|k: int| 0 <= k < b.drop_last().len() && b.drop_last()[k] == sep;
                assert(b[k] == sep);
            }
        }
        lemma_split_on_two(a, b.drop_last(), sep);
        assert(b.last() != sep) by {
            assert(b[b.len() - 1] == b.last());
        }
        assert(b.drop_last().push(b.last()) =~= b);
        assert(split_on(s, sep) =~= seq![a, b]);
    }
}

/// A text without `sep` is a single part.
pub proof fn lemma_split_on_one(a: Seq<char>, sep: char)
    requires
        !a.contains(sep),
    ensures
        split_on(a, sep) == seq![a],
    decreases a.len(),
{
    if a.len() > 0 {
        assert(!a.drop_last().contains(sep)) by {
            if a.drop_last().contains(sep) {
                let k = choose|k: int| 0 <= k < a.drop_last().len() && a.drop_last()[k] == sep;
                assert(a[k] == sep);
            }
        }
        lemma_split_on_one(a.drop_last(), sep);
        assert(a.last() != sep) by {
            assert(a[a.len() - 1] == a.last());
        }
        assert(a.drop_last().push(a.last()) =~= a);
        assert(split_on(a, sep) =~= seq![a]);
    } else {
        assert(a =~= Seq::<char>::empty());
    }
}

/// The parts of `s` around each `:`, as `s.split(':')` yields them.
fn split_at_colons(s: &str) -> (parts: Vec<String>)
    ensures
        parts@.map_values(|p: String| p@) == split_on(s@, ':'),
{
    let mut done: Vec<String> = Vec::new();
    let mut cur = String::new();
    let ghost mut seen: Seq<char> = Seq::empty();
    for c in it: s.chars()
        invariant
            it.seq() == s@,
            seen == s@.take(it.index()),
            done@.map_values(|p: String| p@).push(cur@) == split_on(seen, ':'),
    {
        proof {
            assert(s@.take(it.index() + 1).drop_last() =~= seen);
            assert(s@.take(it.index() + 1).last() == c);
            seen = s@.take(it.index() + 1);
        }
        let ghost before = done@.map_values(|p: String| p@).push(cur@);
        if c == ':' {
            done.push(cur);
            cur = String::new();
            assert(done@.map_values(|p: String| p@).push(cur@) =~= before.push(Seq::empty()));
        } else {
            push_char(&mut cur, c);
            assert(done@.map_values(|p: String| p@).push(cur@) =~= before.update(
                before.len() - 1,
                before.last().push(c),
            ));
        }
    }
    assert(seen =~= s@);
    done.push(cur);
    done
}

/// Identifies a worker: the template it runs and its name.
#[derive(Clone, Debug, PartialEq, Eq, Hash)]
pub struct WorkerId {
    pub template_id: TemplateId,
    pub worker_name: String,
}

impl WorkerId {
    /// `<template id>/<worker name>`.
    pub open spec fn slug_text(self) -> Seq<char> {
        uuid_text(self.template_id.0) + seq!['/'] + self.worker_name@
    }

    /// `<template id>:<worker name>`.
    pub open spec fn redis_key_text(self) -> Seq<char> {
        uuid_text(self.template_id.0) + seq![':'] + self.worker_name@
    }

    /// The slug of the worker: template id and worker name joined by `/`.
    pub fn slug(&self) -> (res: String)
        ensures
            res@ == self.slug_text(),
    {
        let mut s = uuid_to_text(self.template_id.0);
        push_char(&mut s, '/');
        s.append(self.worker_name.as_str());
        s
    }

    /// The text form of the worker id, as `Display` renders it: its slug.
    pub fn to_display_string(&self) -> (res: String)
        ensures
            res@ == self.slug_text(),
    {
        self.slug()
    }

    /// The key of the worker in the key-value store: template id and worker
    /// name joined by `:`.
    pub fn to_redis_key(&self) -> (res: String)
        ensures
            res@ == self.redis_key_text(),
    {
        let mut s = uuid_to_text(self.template_id.0);
        push_char(&mut s, ':');
        s.append(self.worker_name.as_str());
        s
    }

    /// The URI of the worker: `worker://` followed by its slug.
    pub fn uri(&self) -> (res: String)
        ensures
            res@ == "worker://"@ + self.slug_text(),
    {
        let mut s = String::from_str("worker://");
        let slug = self.slug();
        s.append(slug.as_str());
        s
    }

    /// The message form: the template id split into halves, and the name.
    pub fn into_proto(self) -> (res: proto::golem::WorkerId)
        ensures
            res.template_id == Some(template_id_message(self.template_id)),
            res.name == self.worker_name,
    {
        proto::golem::WorkerId {
            template_id: Some(proto::golem::TemplateId::from(self.template_id)),
            name: self.worker_name,
        }
    }

    /// Reads the message form back. The message must carry a template id with a value.
    pub fn from_proto(proto: proto::golem::WorkerId) -> (res: Self)
        requires
            proto.template_id matches Some(t) && t.value is Some,
        ensures
            res.template_id.0 == uuid_of_halves(
                proto.template_id->0.value->0.high_bits,
                proto.template_id->0.value->0.low_bits,
            ),
            res.worker_name == proto.name,
    {
        let t = proto.template_id.unwrap();
        let template_id = match TemplateId::try_from(t) {
            Ok(id) => id,
            Err(_) => {
                assert(false);
                TemplateId(0)
            },
        };
        WorkerId { template_id, worker_name: proto.name }
    }

    /// Reads the message form back, failing with the template id's error when its
    /// value is missing. The message must carry a template id.
    pub fn try_from_proto(value: proto::golem::WorkerId) -> (res: Result<Self, String>)
        requires
            value.template_id is Some,
        ensures
            match value.template_id->0.value {
                Some(u) => res matches Ok(w) && w.template_id.0 == uuid_of_halves(u.high_bits, u.low_bits)
                    && w.worker_name == value.name,
                None => res matches Err(e) && e@ == "Missing field: value"@,
            },
    {
        let t = value.template_id.unwrap();
        match TemplateId::try_from(t) {
            Ok(template_id) => Ok(WorkerId { template_id, worker_name: value.name }),
            Err(e) => Err(e),
        }
    }

    /// Parses `<template id>:<worker name>`, the form that `to_redis_key` produces.
    /// The text must hold exactly one `:`, and the part before it must be a UUID
    /// in one of the forms the `uuid` crate reads.
    pub fn parse(s: &str) -> (res: Result<WorkerId, String>)
        ensures
            ({
                let parts = split_on(s@, ':');
                match res {
                    Ok(w) => {
                        &&& parts.len() == 2
                        &&& parse_uuid_text(parts[0]) == Some(w.template_id.0)
                        &&& w.worker_name@ == parts[1]
                    },
                    Err(e) => if parts.len() == 2 {
                        &&& parse_uuid_text(parts[0]) is None
                        &&& e@ == "invalid template id: "@ + s@ + " - expected uuid"@
                    } else {
                        e@ == "invalid worker id: "@ + s@
                            + " - expected format: <template_id>:<worker_name>"@
                    },
                }
            }),
    {
        let parts = split_at_colons(s);
        if parts.len() == 2 {
            let ghost views = parts@.map_values(|p: String| p@);
            assert(views[0] == parts@[0]@);
            assert(views[1] == parts@[1]@);
            match uuid_from_text(parts[0].as_str()) {
                Some(v) => {
                    proof {
                        lemma_parse_uuid_text(parts@[0]@, v);
                    }
                    let worker_name = parts[1].clone();
                    Ok(WorkerId { template_id: TemplateId(v), worker_name })
                },
                None => {
                    let mut e = String::from_str("invalid template id: ");
                    e.append(s);
                    e.append(" - expected uuid");
                    Err(e)
                },
            }
        } else {
            let mut e = String::from_str("invalid worker id: ");
            e.append(s);
            e.append(" - expected format: <template_id>:<worker_name>");
            Err(e)
        }
    }
}

impl std::str::FromStr for WorkerId {
    type Err = String;

    /// Same as `WorkerId::parse`.
    fn from_str(s: &str) -> (res: Result<Self, String>)
        ensures
            ({
                let parts = split_on(s@, ':');
                match res {
                    Ok(w) => {
                        &&& parts.len() == 2
                        &&& parse_uuid_text(parts[0]) == Some(w.template_id.0)
                        &&& w.worker_name@ == parts[1]
                    },
                    Err(e) => if parts.len() == 2 {
                        &&& parse_uuid_text(parts[0]) is None
                        &&& e@ == "invalid template id: "@ + s@ + " - expected uuid"@
                    } else {
                        e@ == "invalid worker id: "@ + s@
                            + " - expected format: <template_id>:<worker_name>"@
                    },
                }
            }),
    {
        WorkerId::parse(s)
    }
}

/// A worker name without `:` survives the trip through its key text:
/// parsing `to_redis_key` gives the same template id and worker name back.
pub proof fn lemma_redis_key_parses_back(w: WorkerId)
    requires
        !w.worker_name@.contains(':'),
    ensures
        ({
            let parts = split_on(w.redis_key_text(), ':');
            &&& parts.len() == 2
            &&& parse_uuid_text(parts[0]) == Some(w.template_id.0)
            &&& parts[1] == w.worker_name@
        }),
{
    let t = uuid_text(w.template_id.0);
    assert(!t.contains(':')) by {
        if t.contains(':') {
            let k = choose|k: int| 0 <= k < t.len() && t[k] == ':';
            assert(t[k] == ':');
        }
    }
    lemma_split_on_two(t, w.worker_name@, ':');
    lemma_uuid_text_roundtrip(w.template_id.0);
}

impl From<WorkerId> for proto::golem::WorkerId {
    fn from(value: WorkerId) -> (res: Self) {
        value.into_proto()
    }
}

impl vstd::std_specs::convert::FromSpecImpl<WorkerId> for proto::golem::WorkerId {
    open spec fn obeys_from_spec() -> bool {
        true
    }

    open spec fn from_spec(v: WorkerId) -> Self {
        proto::golem::WorkerId { template_id: Some(template_id_message(v.template_id)), name: v.worker_name }
    }
}

/// A worker id survives the trip through its message form.
pub proof fn lemma_worker_id_message_roundtrip(w: WorkerId)
    ensures
        uuid_of_halves(
            template_id_message(w.template_id).value->0.high_bits,
            template_id_message(w.template_id).value->0.low_bits,
        ) == w.template_id.0,
{
    lemma_uuid_halves_roundtrip(w.template_id.0);
}

/// A worker id together with the version of its template.
#[derive(Clone, Debug, PartialEq, Eq, Hash)]
pub struct VersionedWorkerId {
    pub worker_id: WorkerId,
    pub template_version: i32,
}

impl VersionedWorkerId {
    /// `<worker slug>#<template version>`.
    pub open spec fn slug_text(self) -> Seq<char> {
        self.worker_id.slug_text() + seq!['#'] + decimal_text(self.template_version as int)
    }

    /// The slug: the worker's slug, `#`, and the template version in decimal.
    pub fn slug(&self) -> (res: String)
        ensures
            res@ == self.slug_text(),
    {
        let mut s = self.worker_id.slug();
        push_char(&mut s, '#');
        push_i64(&mut s, self.template_version as i64);
        s
    }

    /// The text form, as `Display` renders it: the slug.
    pub fn to_display_string(&self) -> (res: String)
        ensures
            res@ == self.slug_text(),
    {
        self.slug()
    }
}

/// Identifies a promise: the worker that created it and the index of the
/// operation-log entry that did.
#[derive(Clone, Debug, PartialEq, Eq, Hash)]
pub struct PromiseId {
    pub worker_id: WorkerId,
    pub oplog_idx: i32,
}

impl PromiseId {
    /// `<worker key>:<oplog index>`.
    pub open spec fn redis_key_text(self) -> Seq<char> {
        self.worker_id.redis_key_text() + seq![':'] + decimal_text(self.oplog_idx as int)
    }

    /// `<worker slug>/<oplog index>`.
    pub open spec fn display_text(self) -> Seq<char> {
        self.worker_id.slug_text() + seq!['/'] + decimal_text(self.oplog_idx as int)
    }

    /// The key of the promise in the key-value store: the worker's key, `:`, and
    /// the operation-log index in decimal.
    pub fn to_redis_key(&self) -> (res: String)
        ensures
            res@ == self.redis_key_text(),
    {
        let mut s = self.worker_id.to_redis_key();
        push_char(&mut s, ':');
        push_i64(&mut s, self.oplog_idx as i64);
        s
    }

    /// The text form, as `Display` renders it: the worker, `/`, and the index.
    pub fn to_display_string(&self) -> (res: String)
        ensures
            res@ == self.display_text(),
    {
        let mut s = self.worker_id.to_display_string();
        push_char(&mut s, '/');
        push_i64(&mut s, self.oplog_idx as i64);
        s
    }

    /// The message form of the promise id.
    pub fn into_proto(self) -> (res: proto::golem::PromiseId)
        ensures
            res.worker_id matches Some(w) && w.template_id == Some(template_id_message(self.worker_id.template_id))
                && w.name == self.worker_id.worker_name,
            res.oplog_idx == self.oplog_idx,
    {
        proto::golem::PromiseId { worker_id: Some(self.worker_id.into_proto()), oplog_idx: self.oplog_idx }
    }

    /// Reads the message form back: fails with `Missing worker_id` when the worker
    /// is missing, and with the template id's error when its value is. A worker
    /// that is there must carry a template id.
    pub fn try_from_proto(value: proto::golem::PromiseId) -> (res: Result<Self, String>)
        requires
            value.worker_id matches Some(w) ==> w.template_id is Some,
        ensures
            match value.worker_id {
                None => res matches Err(e) && e@ == "Missing worker_id"@,
                Some(w) => match w.template_id->0.value {
                    Some(u) => res matches Ok(p) && p.worker_id.template_id.0 == uuid_of_halves(
                        u.high_bits,
                        u.low_bits,
                    ) && p.worker_id.worker_name == w.name && p.oplog_idx == value.oplog_idx,
                    None => res matches Err(e) && e@ == "Missing field: value"@,
                },
            },
    {
        match value.worker_id {
            None => Err(String::from_str("Missing worker_id")),
            Some(w) => match WorkerId::try_from_proto(w) {
                Ok(worker_id) => Ok(PromiseId { worker_id, oplog_idx: value.oplog_idx }),
                Err(e) => Err(e),
            },
        }
    }
}

impl From<PromiseId> for proto::golem::PromiseId {
    fn from(value: PromiseId) -> (res: Self) {
        value.into_proto()
    }
}

impl vstd::std_specs::convert::FromSpecImpl<PromiseId> for proto::golem::PromiseId {
    open spec fn obeys_from_spec() -> bool {
        true
    }

    open spec fn from_spec(v: PromiseId) -> Self {
        proto::golem::PromiseId {
            worker_id: Some(
                proto::golem::WorkerId {
                    template_id: Some(template_id_message(v.worker_id.template_id)),
                    name: v.worker_id.worker_name,
                },
            ),
            oplog_idx: v.oplog_idx,
        }
    }
}

/// A promise id survives the trip through its message form: the message that
/// `From` makes carries the worker, its template id and its name, and the
/// operation-log index, and the template id's halves join back to the same
/// value, so `PromiseId::try_from_proto` gives the same promise id back.
pub proof fn lemma_promise_id_message_roundtrip(p: PromiseId)
    ensures
        ({
            let m = <proto::golem::PromiseId as vstd::std_specs::convert::FromSpec<PromiseId>>::from_spec(p);
            &&& m.worker_id matches Some(w) && w.template_id matches Some(t) && t.value matches Some(u)
                && uuid_of_halves(u.high_bits, u.low_bits) == p.worker_id.template_id.0
                && w.name == p.worker_id.worker_name
            &&& m.oplog_idx == p.oplog_idx
            &&& (PromiseId {
                worker_id: WorkerId {
                    template_id: TemplateId(
                        uuid_of_halves(
                            m.worker_id->0.template_id->0.value->0.high_bits,
                            m.worker_id->0.template_id->0.value->0.low_bits,
                        ),
                    ),
                    worker_name: m.worker_id->0.name,
                },
                oplog_idx: m.oplog_idx,
            }) == p
        }),
{
    lemma_uuid_halves_roundtrip(p.worker_id.template_id.0);
}

/// A scheduled wake-up of a promise at a timestamp (milliseconds).
#[derive(Debug)]
pub struct ScheduleId {
    pub timestamp: i64,
    pub promise_id: PromiseId,
}

impl ScheduleId {
    /// `<promise>@<timestamp>`.
    pub open spec fn display_text(self) -> Seq<char> {
        self.promise_id.display_text() + seq!['@'] + decimal_text(self.timestamp as int)
    }

    /// The text form, as `Display` renders it: the promise, `@`, and the timestamp.
    pub fn to_display_string(&self) -> (res: String)
        ensures
            res@ == self.display_text(),
    {
        let mut s = self.promise_id.to_display_string();
        push_char(&mut s, '@');
        push_i64(&mut s, self.timestamp);
        s
    }
}

} // verus!
