//! Explore mode: conversation sessions and the answers to failed queries.

use vstd::prelude::*;
use vstd::string::*;

use crate::error::{AppError, STATUS_BAD_REQUEST};
use crate::text::{contains_seq, hex_digits, push_hex_digit, str_contains, to_chars};

verus! {

/// Inactivity after which a session expires: 30 minutes, in milliseconds.
pub const SESSION_TIMEOUT_MS: u64 = 1_800_000;

/// Maximum messages kept in a session's history.
pub const MAX_HISTORY_MESSAGES: usize = 20;

/// One message of a conversation.
#[derive(Debug)]
pub struct ChatMessage {
    pub role: String,
    pub content: String,
}

impl ChatMessage {
    /// An identical copy of the message.
    pub fn duplicate(&self) -> (r: ChatMessage)
        ensures
            r.role@ == self.role@,
            r.content@ == self.content@,
    {
        ChatMessage { role: self.role.clone(), content: self.content.clone() }
    }
}

/// A message as plain text: its role and content.
pub open spec fn message_view(m: ChatMessage) -> (Seq<char>, Seq<char>) {
    (m.role@, m.content@)
}

pub open spec fn messages_view(ms: Seq<ChatMessage>) -> Seq<(Seq<char>, Seq<char>)> {
    ms.map_values(|m: ChatMessage| message_view(m))
}

/// The most recent `MAX_HISTORY_MESSAGES` messages of `ms` (all of them
/// when there are no more).
pub open spec fn keep_recent<T>(ms: Seq<T>) -> Seq<T> {
    if ms.len() > MAX_HISTORY_MESSAGES {
        ms.subrange(ms.len() - MAX_HISTORY_MESSAGES, ms.len() as int)
    } else {
        ms
    }
}

/// An explore session with conversation history. Times are milliseconds
/// of a monotonic clock.
#[derive(Debug)]
pub struct ExploreSession {
    pub created_at: u64,
    pub last_activity: u64,
    pub messages: Vec<ChatMessage>,
}

/// What a session holds, as plain values.
pub struct SessionView {
    pub created_at: u64,
    pub last_activity: u64,
    pub messages: Seq<(Seq<char>, Seq<char>)>,
}

pub open spec fn session_view(s: ExploreSession) -> SessionView {
    SessionView {
        created_at: s.created_at,
        last_activity: s.last_activity,
        messages: messages_view(s.messages@),
    }
}

/// Milliseconds from `then` to `now`, zero when `now` is earlier.
pub open spec fn elapsed(then: u64, now: u64) -> u64 {
    if now >= then {
        (now - then) as u64
    } else {
        0
    }
}

/// A session expires after more than `SESSION_TIMEOUT_MS` of inactivity.
pub open spec fn spec_is_expired(last_activity: u64, now: u64) -> bool {
    elapsed(last_activity, now) > SESSION_TIMEOUT_MS
}

fn copy_messages(ms: &Vec<ChatMessage>, from: usize) -> (r: Vec<ChatMessage>)
    requires
        from <= ms.len(),
    ensures
        messages_view(r@) == messages_view(ms@.subrange(from as int, ms.len() as int)),
{
    let mut out: Vec<ChatMessage> = Vec::new();
    let mut i: usize = from;
    while i < ms.len()
        invariant
            from <= i <= ms.len(),
            messages_view(out@) == messages_view(ms@.subrange(from as int, i as int)),
        decreases ms.len() - i,
    {
        let m = ms[i].duplicate();
        let ghost prev = out@;
        out.push(m);
        assert(messages_view(out@) =~= messages_view(prev).push(message_view(ms@[i as int])));
        assert(ms@.subrange(from as int, i + 1) =~= ms@.subrange(from as int, i as int).push(
            ms@[i as int],
        ));
        i = i + 1;
    }
    out
}

impl ExploreSession {
    pub fn new(now: u64) -> (r: Self)
        ensures
            r.created_at == now,
            r.last_activity == now,
            r.messages@.len() == 0,
    {
        ExploreSession { created_at: now, last_activity: now, messages: Vec::new() }
    }

    pub fn is_expired(&self, now: u64) -> (r: bool)
        ensures
            r == spec_is_expired(self.last_activity, now),
    {
        now >= self.last_activity && now - self.last_activity > SESSION_TIMEOUT_MS
    }

    pub fn touch(&mut self, now: u64)
        ensures
            final(self).last_activity == now,
            final(self).created_at == old(self).created_at,
            final(self).messages@ == old(self).messages@,
    {
        self.last_activity = now;
    }

    /// Replace the history with `new_messages`, keeping only the most
    /// recent ones, and record activity.
    pub fn add_messages(&mut self, new_messages: Vec<ChatMessage>, now: u64)
        ensures
            messages_view(final(self).messages@) == keep_recent(messages_view(new_messages@)),
            final(self).last_activity == now,
            final(self).created_at == old(self).created_at,
    {
        if new_messages.len() > MAX_HISTORY_MESSAGES {
            let start = new_messages.len() - MAX_HISTORY_MESSAGES;
            let kept = copy_messages(&new_messages, start);
            assert(messages_view(new_messages@.subrange(start as int, new_messages@.len() as int))
                =~= messages_view(new_messages@).subrange(
                start as int,
                new_messages@.len() as int,
            ));
            self.messages = kept;
        } else {
            self.messages = new_messages;
        }
        self.touch(now);
    }
}

/// Sessions by identifier; identifiers are distinct and no session holds
/// more than `MAX_HISTORY_MESSAGES` messages.
#[derive(Debug)]
pub struct ExploreSessionManager {
    sessions: Vec<(String, ExploreSession)>,
}

/// The view of a session list: identifiers to sessions.
pub open spec fn sessions_map(v: Seq<(String, ExploreSession)>) -> Map<Seq<char>, SessionView>
    decreases v.len(),
{
    if v.len() == 0 {
        Map::empty()
    } else {
        sessions_map(v.drop_last()).insert(v.last().0@, session_view(v.last().1))
    }
}

pub open spec fn keys_distinct(v: Seq<(String, ExploreSession)>) -> bool {
    forall|i: int, j: int| 0 <= i < j < v.len() ==> v[i].0@ != v[j].0@
}

pub open spec fn histories_bounded(v: Seq<(String, ExploreSession)>) -> bool {
    forall|i: int| 0 <= i < v.len() ==> v[i].1.messages@.len() <= MAX_HISTORY_MESSAGES
}

proof fn lemma_sessions_map_index(v: Seq<(String, ExploreSession)>, i: int)
    requires
        keys_distinct(v),
        0 <= i < v.len(),
    ensures
        sessions_map(v).contains_key(v[i].0@),
        sessions_map(v)[v[i].0@] == session_view(v[i].1),
    decreases v.len(),
{
    if i < v.len() - 1 {
        lemma_sessions_map_index(v.drop_last(), i);
    }
}

proof fn lemma_sessions_map_absent(v: Seq<(String, ExploreSession)>, k: Seq<char>)
    requires
        forall|i: int| 0 <= i < v.len() ==> v[i].0@ != k,
    ensures
        !sessions_map(v).contains_key(k),
    decreases v.len(),
{
    if v.len() > 0 {
        lemma_sessions_map_absent(v.drop_last(), k);
    }
}

proof fn lemma_sessions_map_keys(v: Seq<(String, ExploreSession)>, k: Seq<char>)
    requires
        sessions_map(v).contains_key(k),
    ensures
        exists|i: int| 0 <= i < v.len() && v[i].0@ == k,
    decreases v.len(),
{
    if v.len() > 0 && v.last().0@ != k {
        lemma_sessions_map_keys(v.drop_last(), k);
        let i = choose|i: int| 0 <= i < v.len() - 1 && v.drop_last()[i].0@ == k;
        assert(v[i].0@ == k);
    }
}

proof fn lemma_sessions_map_push(v: Seq<(String, ExploreSession)>, e: (String, ExploreSession))
    ensures
        sessions_map(v.push(e)) == sessions_map(v).insert(e.0@, session_view(e.1)),
{
    assert(v.push(e).drop_last() =~= v);
}

proof fn lemma_sessions_map_remove(v: Seq<(String, ExploreSession)>, i: int)
    requires
        keys_distinct(v),
        0 <= i < v.len(),
    ensures
        sessions_map(v.remove(i)) == sessions_map(v).remove(v[i].0@),
    decreases v.len(),
{
    let k = v[i].0@;
    if i == v.len() - 1 {
        assert(v.remove(i) =~= v.drop_last());
        lemma_sessions_map_absent(v.drop_last(), k);
        assert(sessions_map(v.drop_last()) =~= sessions_map(v).remove(k));
    } else {
        let w = v.drop_last();
        lemma_sessions_map_remove(w, i);
        assert(v.remove(i) =~= w.remove(i).push(v.last()));
        lemma_sessions_map_push(w.remove(i), v.last());
        assert(sessions_map(v.remove(i)) =~= sessions_map(v).remove(k));
    }
}

proof fn lemma_sessions_map_update(v: Seq<(String, ExploreSession)>, i: int, s: ExploreSession)
    requires
        keys_distinct(v),
        0 <= i < v.len(),
    ensures
        sessions_map(v.update(i, (v[i].0, s))) == sessions_map(v).insert(v[i].0@, session_view(s)),
    decreases v.len(),
{
    let k = v[i].0@;
    if i == v.len() - 1 {
        assert(v.update(i, (v[i].0, s)).drop_last() =~= v.drop_last());
        assert(sessions_map(v.update(i, (v[i].0, s))) =~= sessions_map(v).insert(
            k,
            session_view(s),
        ));
    } else {
        let w = v.drop_last();
        lemma_sessions_map_update(w, i, s);
        assert(v.update(i, (v[i].0, s)).drop_last() =~= w.update(i, (v[i].0, s)));
        assert(sessions_map(v.update(i, (v[i].0, s))) =~= sessions_map(v).insert(
            k,
            session_view(s),
        ));
    }
}

/// The sessions of `m` that have not expired at `now`.
pub open spec fn live_sessions(m: Map<Seq<char>, SessionView>, now: u64) -> Map<
    Seq<char>,
    SessionView,
> {
    m.restrict(m.dom().filter(|k: Seq<char>| !spec_is_expired(m[k].last_activity, now)))
}

/// A new, empty session at `now`.
pub open spec fn fresh_session(now: u64) -> SessionView {
    SessionView { created_at: now, last_activity: now, messages: Seq::empty() }
}

/// The store after `create_session`: expired sessions dropped, the new
/// identifier bound to a fresh session.
pub open spec fn spec_after_create(m: Map<Seq<char>, SessionView>, id: Seq<char>, now: u64) -> Map<
    Seq<char>,
    SessionView,
> {
    live_sessions(m, now).insert(id, fresh_session(now))
}

/// The store after `update_session`: the session (created now if it did
/// not exist) holds the most recent messages and was active now.
pub open spec fn spec_after_update(
    m: Map<Seq<char>, SessionView>,
    id: Seq<char>,
    msgs: Seq<(Seq<char>, Seq<char>)>,
    now: u64,
) -> Map<Seq<char>, SessionView> {
    let created = if m.contains_key(id) {
        m[id].created_at
    } else {
        now
    };
    m.insert(id, SessionView { created_at: created, last_activity: now, messages: keep_recent(msgs) })
}

/// The messages `get_messages` gives: those of a live session, or none.
pub open spec fn spec_messages(m: Map<Seq<char>, SessionView>, id: Seq<char>, now: u64) -> Seq<
    (Seq<char>, Seq<char>),
> {
    if m.contains_key(id) && !spec_is_expired(m[id].last_activity, now) {
        m[id].messages
    } else {
        Seq::empty()
    }
}

/// The `n` bytes of `x` in little-endian order.
pub open spec fn le_bytes(x: nat, n: nat) -> Seq<u8>
    decreases n,
{
    if n == 0 {
        Seq::empty()
    } else {
        seq![(x % 256) as u8] + le_bytes(x / 256, (n - 1) as nat)
    }
}

/// The two lowercase hexadecimal digits of a byte.
pub open spec fn hex_byte(b: u8) -> Seq<char> {
    seq![hex_digits()[(b / 16) as int], hex_digits()[(b % 16) as int]]
}

/// The bytes of `bs` written as lowercase hexadecimal, two digits each.
pub open spec fn hex_of(bs: Seq<u8>) -> Seq<char>
    decreases bs.len(),
{
    if bs.len() == 0 {
        Seq::empty()
    } else {
        hex_of(bs.drop_last()) + hex_byte(bs.last())
    }
}

/// The SHA-256 digest of `data`.
pub uninterp spec fn sha256_digest(data: Seq<u8>) -> Seq<u8>;

/// Computes the SHA-256 digest with `sha2::Sha256::digest`. Claimed: the
/// result is `sha256_digest(data)` and, as for every SHA-256 digest, 32
/// bytes long.
#[verifier::external_body]
pub(crate) fn sha256(data: &[u8]) -> (r: Vec<u8>)
    ensures
        r@ == sha256_digest(data@),
        r@.len() == 32,
{
    <sha2::Sha256 as sha2::Digest>::digest(data).to_vec()
}

/// A session identifier: `exp_` and the first sixteen hexadecimal digits
/// of the SHA-256 digest of the 16 little-endian bytes of `stamp_nanos`.
pub open spec fn spec_session_id(stamp_nanos: u128) -> Seq<char> {
    seq!['e', 'x', 'p', '_'] + hex_of(sha256_digest(le_bytes(stamp_nanos as nat, 16)).take(8))
}

fn u128_le_bytes(x: u128) -> (r: Vec<u8>)
    ensures
        r@ == le_bytes(x as nat, 16),
{
    let mut out: Vec<u8> = Vec::new();
    let mut cur: u128 = x;
    let mut i: usize = 0;
    while i < 16
        invariant
            i <= 16,
            out@ + le_bytes(cur as nat, (16 - i) as nat) == le_bytes(x as nat, 16),
        decreases 16 - i,
    {
        let ghost prev = out@;
        let ghost rest = le_bytes(cur as nat, (16 - i) as nat);
        let b: u8 = (cur % 256) as u8;
        out.push(b);
        assert(rest == seq![b] + le_bytes((cur / 256) as nat, (16 - i - 1) as nat));
        cur = cur / 256;
        assert(out@ + le_bytes(cur as nat, (16 - (i + 1)) as nat) =~= prev + rest);
        i = i + 1;
    }
    assert(le_bytes(cur as nat, 0) =~= Seq::<u8>::empty());
    assert(out@ =~= out@ + le_bytes(cur as nat, 0));
    out
}

/// The session identifier derived from a timestamp in nanoseconds.
pub fn session_id_for(stamp_nanos: u128) -> (r: String)
    ensures
        r@ == spec_session_id(stamp_nanos),
        r@.len() == 20,
        r@.subrange(0, 4) == seq!['e', 'x', 'p', '_'],
        forall|i: int| 4 <= i < 20 ==> hex_digits().contains(#[trigger] r@[i]),
{
    let bytes = u128_le_bytes(stamp_nanos);
    let digest = sha256(bytes.as_slice());
    let mut out = String::from_str("exp_");
    proof {
        reveal_strlit("exp_");
    }
    let ghost d = digest@;
    let mut i: usize = 0;
    while i < 8
        invariant
            i <= 8,
            d.len() == 32,
            digest@ == d,
            out@ == seq!['e', 'x', 'p', '_'] + hex_of(d.take(i as int)),
        decreases 8 - i,
    {
        let b = digest[i];
        push_hex_digit(&mut out, b / 16);
        push_hex_digit(&mut out, b % 16);
        assert(d.take(i + 1).drop_last() =~= d.take(i as int));
        assert(hex_of(d.take(i + 1)) == hex_of(d.take(i as int)) + hex_byte(b));
        i = i + 1;
        assert(out@ =~= seq!['e', 'x', 'p', '_'] + hex_of(d.take(i as int)));
    }
    proof {
        lemma_hex_of(d.take(8));
        assert(out@.subrange(0, 4) =~= seq!['e', 'x', 'p', '_']);
        assert forall|i: int| 4 <= i < 20 implies hex_digits().contains(#[trigger] out@[i]) by {
            assert(out@[i] == hex_of(d.take(8))[i - 4]);
        }
    }
    out
}

/// The message a failed explore query is answered with, given the
/// backend's error text, the model used and the backend's host.
pub open spec fn spec_query_failure_message(err: Seq<char>, model: Seq<char>, host: Seq<char>) -> Seq<char> {
    if contains_seq(err, "does not support tools"@) {
        "The model '"@ + model
            + "' doesn't support tool calling. Please select a different model like llama3.1 or qwen3-coder."@
    } else if contains_seq(err, "not found"@) {
        "AI model '"@ + model + "' not found. It may not be pulled on the Ollama server. Try: ollama pull "@
            + model
    } else if contains_seq(err, "connection refused"@) || contains_seq(err, "Connection refused"@) {
        "Cannot connect to AI backend. Is Ollama running at "@ + host + "?"@
    } else if contains_seq(err, "timeout"@) || contains_seq(err, "timed out"@) {
        "AI query timed out. The model may be overloaded or the query too complex."@
    } else {
        "AI query failed: "@ + err
    }
}

/// Explain a failed explore query to the user, by the kind of failure the
/// backend's error text shows.
pub fn query_failure_message(err: &str, model: &str, host: &str) -> (r: String)
    ensures
        r@ == spec_query_failure_message(err@, model@, host@),
{
    if str_contains(err, "does not support tools") {
        let mut m = String::from_str("The model '");
        m.append(model);
        m.append(
            "' doesn't support tool calling. Please select a different model like llama3.1 or qwen3-coder.",
        );
        m
    } else if str_contains(err, "not found") {
        let mut m = String::from_str("AI model '");
        m.append(model);
        m.append("' not found. It may not be pulled on the Ollama server. Try: ollama pull ");
        m.append(model);
        m
    } else if str_contains(err, "connection refused") || str_contains(err, "Connection refused") {
        let mut m = String::from_str("Cannot connect to AI backend. Is Ollama running at ");
        m.append(host);
        m.append("?");
        m
    } else if str_contains(err, "timeout") || str_contains(err, "timed out") {
        String::from_str("AI query timed out. The model may be overloaded or the query too complex.")
    } else {
        let mut m = String::from_str("AI query failed: ");
        m.append(err);
        m
    }
}

/// Message when explore mode has no AI backend configured.
pub const EXPLORE_BACKEND_MISSING: &'static str =
    "Explore mode requires AI backend. Set ANTHROPIC_COMPATIBLE_HOST and ANTHROPIC_COMPATIBLE_MODEL.";

/// Explore mode needs an AI backend: without one every explore request
/// is refused with a 400 saying how to configure it.
pub fn require_explore_backend(configured: bool) -> (r: Result<(), AppError>)
    ensures
        configured <==> r is Ok,
        r matches Err(e) ==> e@.status == STATUS_BAD_REQUEST && e@.message
            == EXPLORE_BACKEND_MISSING@,
{
    if configured {
        Ok(())
    } else {
        Err(AppError::bad_request(EXPLORE_BACKEND_MISSING))
    }
}

/// Request to query the explore assistant.
#[derive(Debug)]
pub struct ExploreQuery {
    pub query: String,
    pub session_id: Option<String>,
    pub model: Option<String>,
}

/// Available models for explore mode.
#[derive(Debug)]
pub struct ModelsResponse {
    pub models: Vec<String>,
    pub default_model: String,
}

/// Session info response.
#[derive(Debug)]
pub struct SessionInfo {
    pub session_id: String,
    pub message_count: usize,
    pub created_at_secs_ago: u64,
    pub last_activity_secs_ago: u64,
}

impl View for ExploreSessionManager {
    type V = Map<Seq<char>, SessionView>;

    closed spec fn view(&self) -> Map<Seq<char>, SessionView> {
        sessions_map(self.sessions@)
    }
}

impl ExploreSessionManager {
    /// The manager's invariant: distinct identifiers, bounded histories.
    pub closed spec fn wf(&self) -> bool {
        keys_distinct(self.sessions@) && histories_bounded(self.sessions@)
    }

    pub fn new() -> (r: Self)
        ensures
            r.wf(),
            r@ == Map::<Seq<char>, SessionView>::empty(),
    {
        ExploreSessionManager { sessions: Vec::new() }
    }

    fn find(&self, id: &str) -> (r: Option<usize>)
        requires
            self.wf(),
        ensures
            match r {
                Some(i) => i < self.sessions@.len() && self.sessions@[i as int].0@ == id@,
                None => !self@.contains_key(id@),
            },
    {
        let idc = to_chars(id);
        let mut i: usize = 0;
        while i < self.sessions.len()
            invariant
                i <= self.sessions@.len(),
                idc@ == id@,
                forall|j: int| 0 <= j < i ==> self.sessions@[j].0@ != id@,
            decreases self.sessions.len() - i,
        {
            let kc = to_chars(self.sessions[i].0.as_str());
            if crate::text::chars_eq(&kc, &idc) {
                return Some(i);
            }
            i = i + 1;
        }
        proof {
            lemma_sessions_map_absent(self.sessions@, id@);
        }
        None
    }

    /// Drop the sessions that have expired at `now`.
    fn retain_live(&mut self, now: u64)
        requires
            old(self).wf(),
        ensures
            final(self).wf(),
            final(self)@ == live_sessions(old(self)@, now),
    {
        let ghost m0 = self@;
        let mut i: usize = 0;
        while i < self.sessions.len()
            invariant
                self.wf(),
                i <= self.sessions@.len(),
                forall|j: int| 0 <= j < i ==> !spec_is_expired(self.sessions@[j].1.last_activity, now),
                forall|k: Seq<char>|
                    #![trigger m0.contains_key(k)]
                    #![trigger self@.contains_key(k)]
                    (self@.contains_key(k) ==> m0.contains_key(k) && self@[k] == m0[k]) && (
                    m0.contains_key(k) && !spec_is_expired(m0[k].last_activity, now)
                        ==> self@.contains_key(k)),
            decreases self.sessions.len() - i,
        {
            if self.sessions[i].1.is_expired(now) {
                let ghost v = self.sessions@;
                proof {
                    lemma_sessions_map_index(v, i as int);
                    lemma_sessions_map_remove(v, i as int);
                }
                let _removed = self.sessions.remove(i);
                assert(self.sessions@ == v.remove(i as int));
                assert forall|a: int, b: int| 0 <= a < b < self.sessions@.len() implies self.sessions@[a].0@
                    != self.sessions@[b].0@ by {
                    let a2 = if a < i { a } else { a + 1 };
                    let b2 = if b < i { b } else { b + 1 };
                    assert(self.sessions@[a] == v[a2]);
                    assert(self.sessions@[b] == v[b2]);
                }
                assert forall|j: int| 0 <= j < self.sessions@.len() implies self.sessions@[j].1.messages@.len()
                    <= MAX_HISTORY_MESSAGES by {
                    let j2 = if j < i { j } else { j + 1 };
                    assert(self.sessions@[j] == v[j2]);
                }
            } else {
                i = i + 1;
            }
        }
        assert forall|k: Seq<char>| self@.contains_key(k) implies !spec_is_expired(
            self@[k].last_activity,
            now,
        ) by {
            lemma_sessions_map_keys(self.sessions@, k);
            let j = choose|j: int| 0 <= j < self.sessions@.len() && self.sessions@[j].0@ == k;
            lemma_sessions_map_index(self.sessions@, j);
        }
        assert(self@ =~= live_sessions(m0, now));
    }

    /// Insert `session` under `id`, replacing any session of that id.
    fn insert(&mut self, id: String, session: ExploreSession)
        requires
            old(self).wf(),
            session.messages@.len() <= MAX_HISTORY_MESSAGES,
        ensures
            final(self).wf(),
            final(self)@ == old(self)@.insert(id@, session_view(session)),
    {
        match self.find(id.as_str()) {
            Some(i) => {
                let ghost v = self.sessions@;
                proof {
                    lemma_sessions_map_update(v, i as int, session);
                }
                let name = self.sessions[i].0.clone();
                self.sessions.set(i, (name, session));
                assert(self.sessions@ == v.update(i as int, (v[i as int].0, session)));
                assert forall|a: int, b: int| 0 <= a < b < self.sessions@.len() implies self.sessions@[a].0@
                    != self.sessions@[b].0@ by {
                    assert(self.sessions@[a].0@ == v[a].0@);
                    assert(self.sessions@[b].0@ == v[b].0@);
                }
            },
            None => {
                let ghost v = self.sessions@;
                proof {
                    lemma_sessions_map_push(v, (id, session));
                }
                assert forall|j: int| 0 <= j < v.len() implies v[j].0@ != id@ by {
                    lemma_sessions_map_index(v, j);
                }
                self.sessions.push((id, session));
            },
        }
    }

    /// Create a session under `session_id_for(stamp_nanos)` at time `now`,
    /// dropping expired sessions first; returns the identifier.
    pub fn create_session(&mut self, now: u64, stamp_nanos: u128) -> (r: String)
        requires
            old(self).wf(),
        ensures
            final(self).wf(),
            r@ == spec_session_id(stamp_nanos),
            r@.len() == 20,
            final(self)@ == spec_after_create(old(self)@, r@, now),
    {
        let id = session_id_for(stamp_nanos);
        self.retain_live(now);
        let s = ExploreSession::new(now);
        assert(session_view(s) == fresh_session(now)) by {
            assert(messages_view(s.messages@) =~= Seq::<(Seq<char>, Seq<char>)>::empty());
        }
        self.insert(id.clone(), s);
        id
    }

    /// The messages of a live session (none for an unknown or expired one).
    pub fn get_messages(&self, session_id: &str, now: u64) -> (r: Vec<ChatMessage>)
        requires
            self.wf(),
        ensures
            messages_view(r@) == spec_messages(self@, session_id@, now),
    {
        match self.find(session_id) {
            Some(i) => {
                proof {
                    lemma_sessions_map_index(self.sessions@, i as int);
                }
                let s = &self.sessions[i].1;
                if s.is_expired(now) {
                    Vec::new()
                } else {
                    let out = copy_messages(&s.messages, 0);
                    assert(s.messages@.subrange(0, s.messages@.len() as int) =~= s.messages@);
                    out
                }
            },
            None => Vec::new(),
        }
    }

    /// Record a conversation's messages (creating the session when needed).
    pub fn update_session(&mut self, session_id: &str, messages: Vec<ChatMessage>, now: u64)
        requires
            old(self).wf(),
        ensures
            final(self).wf(),
            final(self)@ == spec_after_update(old(self)@, session_id@, messages_view(messages@), now),
    {
        let created = match self.find(session_id) {
            Some(i) => {
                proof {
                    lemma_sessions_map_index(self.sessions@, i as int);
                }
                self.sessions[i].1.created_at
            },
            None => now,
        };
        let mut s = ExploreSession::new(created);
        s.add_messages(messages, now);
        assert(s.messages@.len() <= MAX_HISTORY_MESSAGES) by {
            assert(messages_view(s.messages@).len() == s.messages@.len());
        }
        self.insert(String::from_str(session_id), s);
    }

    /// Delete a session; true when there was one.
    pub fn delete_session(&mut self, session_id: &str) -> (r: bool)
        requires
            old(self).wf(),
        ensures
            final(self).wf(),
            r == old(self)@.contains_key(session_id@),
            final(self)@ == old(self)@.remove(session_id@),
    {
        match self.find(session_id) {
            Some(i) => {
                let ghost v = self.sessions@;
                proof {
                    lemma_sessions_map_index(v, i as int);
                    lemma_sessions_map_remove(v, i as int);
                }
                let _removed = self.sessions.remove(i);
                assert(self.sessions@ == v.remove(i as int));
                assert forall|a: int, b: int| 0 <= a < b < self.sessions@.len() implies self.sessions@[a].0@
                    != self.sessions@[b].0@ by {
                    let a2 = if a < i { a } else { a + 1 };
                    let b2 = if b < i { b } else { b + 1 };
                    assert(self.sessions@[a] == v[a2]);
                    assert(self.sessions@[b] == v[b2]);
                }
                assert forall|j: int| 0 <= j < self.sessions@.len() implies self.sessions@[j].1.messages@.len()
                    <= MAX_HISTORY_MESSAGES by {
                    let j2 = if j < i { j } else { j + 1 };
                    assert(self.sessions@[j] == v[j2]);
                }
                true
            },
            None => {
                assert(self@.remove(session_id@) =~= self@);
                false
            },
        }
    }

    /// Info about a live session.
    pub fn get_session_info(&self, session_id: &str, now: u64) -> (r: Option<SessionInfo>)
        requires
            self.wf(),
        ensures
            match r {
                Some(info) => self@.contains_key(session_id@) && !spec_is_expired(
                    self@[session_id@].last_activity,
                    now,
                ) && info.session_id@ == session_id@ && info.message_count
                    == self@[session_id@].messages.len() && info.created_at_secs_ago == elapsed(
                    self@[session_id@].created_at,
                    now,
                ) / 1000 && info.last_activity_secs_ago == elapsed(
                    self@[session_id@].last_activity,
                    now,
                ) / 1000,
                None => !self@.contains_key(session_id@) || spec_is_expired(
                    self@[session_id@].last_activity,
                    now,
                ),
            },
    {
        match self.find(session_id) {
            Some(i) => {
                proof {
                    lemma_sessions_map_index(self.sessions@, i as int);
                }
                let s = &self.sessions[i].1;
                if s.is_expired(now) {
                    None
                } else {
                    let created = if now >= s.created_at {
                        now - s.created_at
                    } else {
                        0
                    };
                    let last = if now >= s.last_activity {
                        now - s.last_activity
                    } else {
                        0
                    };
                    assert(messages_view(s.messages@).len() == s.messages@.len());
                    Some(
                        SessionInfo {
                            session_id: String::from_str(session_id),
                            message_count: s.messages.len(),
                            created_at_secs_ago: created / 1000,
                            last_activity_secs_ago: last / 1000,
                        },
                    )
                }
            },
            None => None,
        }
    }
}

/// What a conversation writes is what it reads back: after its messages
/// are recorded at `now`, the session gives the most recent of them until
/// it expires.
pub proof fn law_read_after_write(
    m: Map<Seq<char>, SessionView>,
    id: Seq<char>,
    msgs: Seq<(Seq<char>, Seq<char>)>,
    now: u64,
    later: u64,
)
    requires
        now <= later <= now + SESSION_TIMEOUT_MS,
    ensures
        spec_messages(spec_after_update(m, id, msgs, now), id, later) == keep_recent(msgs),
{
}

/// A session's history holds at most `MAX_HISTORY_MESSAGES` messages: the
/// most recent ones, in order.
pub proof fn law_history_bounded(msgs: Seq<(Seq<char>, Seq<char>)>)
    ensures
        keep_recent(msgs).len() <= MAX_HISTORY_MESSAGES,
        msgs.len() <= MAX_HISTORY_MESSAGES ==> keep_recent(msgs) == msgs,
        msgs.len() > MAX_HISTORY_MESSAGES ==> keep_recent(msgs) == msgs.subrange(
            msgs.len() - MAX_HISTORY_MESSAGES,
            msgs.len() as int,
        ),
{
}

/// Recording a conversation leaves the other sessions as they were, and
/// keeps the creation time of an existing session.
pub proof fn law_update_is_local(
    m: Map<Seq<char>, SessionView>,
    id: Seq<char>,
    msgs: Seq<(Seq<char>, Seq<char>)>,
    now: u64,
    other: Seq<char>,
)
    requires
        other != id,
    ensures
        spec_after_update(m, id, msgs, now).contains_key(other) == m.contains_key(other),
        m.contains_key(other) ==> spec_after_update(m, id, msgs, now)[other] == m[other],
        m.contains_key(id) ==> spec_after_update(m, id, msgs, now)[id].created_at
            == m[id].created_at,
{
}

/// A deleted session has no messages and no info any more.
pub proof fn law_delete_forgets(m: Map<Seq<char>, SessionView>, id: Seq<char>, now: u64)
    ensures
        spec_messages(m.remove(id), id, now) == Seq::<(Seq<char>, Seq<char>)>::empty(),
        !m.remove(id).contains_key(id),
{
}

/// A new session is live and empty, and creating it drops every session
/// that had expired.
pub proof fn law_create_fresh(m: Map<Seq<char>, SessionView>, id: Seq<char>, now: u64)
    ensures
        spec_after_create(m, id, now).contains_key(id),
        spec_messages(spec_after_create(m, id, now), id, now) == Seq::<
            (Seq<char>, Seq<char>),
        >::empty(),
        forall|k: Seq<char>|
            #[trigger] spec_after_create(m, id, now).contains_key(k) ==> !spec_is_expired(
                spec_after_create(m, id, now)[k].last_activity,
                now,
            ),
{
}

/// `hex_of` writes two hexadecimal digits per byte.
pub proof fn lemma_hex_of(bs: Seq<u8>)
    ensures
        hex_of(bs).len() == 2 * bs.len(),
        forall|i: int| 0 <= i < hex_of(bs).len() ==> hex_digits().contains(#[trigger] hex_of(bs)[i]),
    decreases bs.len(),
{
    if bs.len() > 0 {
        lemma_hex_of(bs.drop_last());
        let b = bs.last();
        let hi = (b / 16) as int;
        let lo = (b % 16) as int;
        assert(hex_digits().len() == 16);
        assert(hex_digits().contains(hex_digits()[hi]));
        assert(hex_digits().contains(hex_digits()[lo]));
        let prev = hex_of(bs.drop_last());
        assert forall|i: int| 0 <= i < hex_of(bs).len() implies hex_digits().contains(
            #[trigger] hex_of(bs)[i],
        ) by {
            if i < prev.len() {
                assert(hex_of(bs)[i] == prev[i]);
            } else if i == prev.len() {
                assert(hex_of(bs)[i] == hex_digits()[hi]);
            } else {
                assert(hex_of(bs)[i] == hex_digits()[lo]);
            }
        }
    }
}

/// No session of a manager holds more than `MAX_HISTORY_MESSAGES`
/// messages.
pub proof fn law_sessions_bounded(m: &ExploreSessionManager)
    requires
        m.wf(),
    ensures
        forall|k: Seq<char>|
            #[trigger] m@.contains_key(k) ==> m@[k].messages.len() <= MAX_HISTORY_MESSAGES,
{
    assert forall|k: Seq<char>| #[trigger] m@.contains_key(k) implies m@[k].messages.len()
        <= MAX_HISTORY_MESSAGES by {
        lemma_sessions_map_keys(m.sessions@, k);
        let j = choose|j: int| 0 <= j < m.sessions@.len() && m.sessions@[j].0@ == k;
        lemma_sessions_map_index(m.sessions@, j);
    }
}

} // verus!
