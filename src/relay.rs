//! Relay client logic: endpoint derivation, command routing, the per-connection
//! terminal session registry, response envelopes and file-content coding.
//! The socket, the pseudo-terminals and the file system are driven by the caller.

use vstd::prelude::*;
use base64::Engine;
use crate::backoff::{backoff_delay, jitter_delay};
use crate::error::{error_detail, error_label, AgentError};
use crate::utils::hex_digits;
use crate::text::{owned, str_eq, trim_end_slashes, trim_trailing_slashes};

verus! {

/// WebSocket scheme for a backend scheme: `http` to `ws`, `https` to `wss`;
/// any other scheme is a configuration error.
pub fn relay_scheme(scheme: &str) -> (r: Result<String, AgentError>)
    ensures
        scheme@ == "http"@ ==> r is Ok && r->Ok_0@ == "ws"@,
        scheme@ == "https"@ ==> r is Ok && r->Ok_0@ == "wss"@,
        scheme@ != "http"@ && scheme@ != "https"@ ==> r is Err && r->Err_0 is ConfigError,
{
    proof {
        reveal_strlit("http");
        reveal_strlit("https");
        assert("http"@.len() != "https"@.len());
    }
    if str_eq(scheme, "http") {
        Ok(owned("ws"))
    } else if str_eq(scheme, "https") {
        Ok(owned("wss"))
    } else {
        Err(AgentError::ConfigError(owned("Invalid backend URL scheme")))
    }
}

/// Relay path under the backend path: trailing slashes dropped, then
/// `/agent-relay/ws` appended.
pub fn relay_path(path: &str) -> (r: String)
    ensures
        r@ == trim_trailing_slashes(path@) + "/agent-relay/ws"@,
{
    trim_end_slashes(path).concat("/agent-relay/ws")
}

/// What happened to the relay connection.
#[derive(Debug, Clone, Copy, PartialEq, Eq, Structural)]
pub enum RelayEvent {
    /// No credential could be had for a connection attempt.
    TokenUnavailable,
    /// The handshake succeeded.
    Connected,
    /// The handshake failed.
    ConnectFailed,
    /// An open connection was closed or failed.
    Disconnected,
    /// Shutdown was signalled.
    Shutdown,
    /// The heartbeat interval elapsed.
    Tick,
    /// A text frame arrived.
    Text,
}

/// What the relay worker does next.
#[derive(Debug, Clone, Copy, PartialEq, Eq, Structural)]
pub enum RelayAction {
    /// Sleep `delay_ms`, then try to connect again.
    Retry { delay_ms: u64 },
    /// Serve the open connection.
    Serve,
    /// Send the heartbeat frame.
    SendPing,
    /// Dispatch the frame that arrived.
    Dispatch,
    /// Send a close frame and stop.
    Close,
}

/// One decision of the relay worker, from the count of consecutive failed
/// attempts and what just happened; the new count comes back with the action.
/// A connection resets the count; a missing credential, a failed handshake or
/// a disconnect retries after the jittered delay for the current count (base
/// 2 s, cap 60 s) and counts one more attempt.
pub fn relay_step(attempt: u32, event: RelayEvent, seed: u64) -> (r: (u32, RelayAction))
    ensures
        event is Connected ==> r == (0u32, RelayAction::Serve),
        event is Shutdown ==> r == (attempt, RelayAction::Close),
        event is Tick ==> r == (attempt, RelayAction::SendPing),
        event is Text ==> r == (attempt, RelayAction::Dispatch),
        (event is TokenUnavailable || event is ConnectFailed || event is Disconnected) ==> r.0 == (
        if attempt == u32::MAX {
            u32::MAX
        } else {
            (attempt + 1) as u32
        }) && r.1 == (RelayAction::Retry { delay_ms: jitter_delay(attempt, 2, 60, seed) }),
{
    match event {
        RelayEvent::Connected => (0, RelayAction::Serve),
        RelayEvent::Shutdown => (attempt, RelayAction::Close),
        RelayEvent::Tick => (attempt, RelayAction::SendPing),
        RelayEvent::Text => (attempt, RelayAction::Dispatch),
        RelayEvent::TokenUnavailable | RelayEvent::ConnectFailed | RelayEvent::Disconnected => {
            let delay_ms = backoff_delay(attempt, 2, 60, seed);
            (attempt.saturating_add(1), RelayAction::Retry { delay_ms })
        },
    }
}

/// Commands and notifications the relay dispatches.
#[derive(Debug, Clone, Copy, PartialEq, Eq, Structural)]
pub enum RelayCommand {
    NewDeployment,
    Pong,
    TerminalCreate,
    TerminalInput,
    TerminalClose,
    FileList,
    FileRead,
    FileWrite,
    FileDelete,
    ScanNetwork,
    Unknown,
}

/// The command a dispatch name stands for.
pub open spec fn command_named(name: Seq<char>) -> RelayCommand {
    if name == "new_deployment"@ {
        RelayCommand::NewDeployment
    } else if name == "pong"@ {
        RelayCommand::Pong
    } else if name == "terminal_create"@ {
        RelayCommand::TerminalCreate
    } else if name == "terminal_input"@ {
        RelayCommand::TerminalInput
    } else if name == "terminal_close"@ {
        RelayCommand::TerminalClose
    } else if name == "file_list"@ {
        RelayCommand::FileList
    } else if name == "file_read"@ {
        RelayCommand::FileRead
    } else if name == "file_write"@ {
        RelayCommand::FileWrite
    } else if name == "file_delete"@ {
        RelayCommand::FileDelete
    } else if name == "scan_network"@ {
        RelayCommand::ScanNetwork
    } else {
        RelayCommand::Unknown
    }
}

/// The dispatch name of an envelope: `command_type` for a `command`, the
/// top-level `type` otherwise.
pub open spec fn dispatch_name(msg_type: Option<Seq<char>>, command_type: Option<Seq<char>>) -> Option<
    Seq<char>,
> {
    if msg_type == Some("command"@) {
        command_type
    } else {
        msg_type
    }
}

/// View of an optional string slice.
pub open spec fn opt_view(s: Option<&str>) -> Option<Seq<char>> {
    match s {
        Some(x) => Some(x@),
        None => None,
    }
}

/// Picks the dispatch name of an envelope (see `dispatch_name`).
pub fn route_name<'a>(msg_type: Option<&'a str>, command_type: Option<&'a str>) -> (r: Option<&'a str>)
    ensures
        opt_view(r) == dispatch_name(opt_view(msg_type), opt_view(command_type)),
{
    match msg_type {
        Some(t) => {
            if str_eq(t, "command") {
                command_type
            } else {
                msg_type
            }
        },
        None => None,
    }
}

/// The command for a dispatch name; no name, or an unknown one, gives `Unknown`.
pub fn parse_command(name: Option<&str>) -> (r: RelayCommand)
    ensures
        r == (match name {
            Some(n) => command_named(n@),
            None => RelayCommand::Unknown,
        }),
{
    let n = match name {
        Some(n) => n,
        None => return RelayCommand::Unknown,
    };
    if str_eq(n, "new_deployment") {
        RelayCommand::NewDeployment
    } else if str_eq(n, "pong") {
        RelayCommand::Pong
    } else if str_eq(n, "terminal_create") {
        RelayCommand::TerminalCreate
    } else if str_eq(n, "terminal_input") {
        RelayCommand::TerminalInput
    } else if str_eq(n, "terminal_close") {
        RelayCommand::TerminalClose
    } else if str_eq(n, "file_list") {
        RelayCommand::FileList
    } else if str_eq(n, "file_read") {
        RelayCommand::FileRead
    } else if str_eq(n, "file_write") {
        RelayCommand::FileWrite
    } else if str_eq(n, "file_delete") {
        RelayCommand::FileDelete
    } else if str_eq(n, "scan_network") {
        RelayCommand::ScanNetwork
    } else {
        RelayCommand::Unknown
    }
}

/// Whether the command is answered with a `response` envelope; notifications,
/// terminal input and close, and unknown commands are not.
pub fn expects_response(c: RelayCommand) -> (r: bool)
    ensures
        r == (c == RelayCommand::TerminalCreate || c == RelayCommand::FileList || c
            == RelayCommand::FileRead || c == RelayCommand::FileWrite || c
            == RelayCommand::FileDelete || c == RelayCommand::ScanNetwork),
{
    match c {
        RelayCommand::TerminalCreate | RelayCommand::FileList | RelayCommand::FileRead
        | RelayCommand::FileWrite | RelayCommand::FileDelete | RelayCommand::ScanNetwork => true,
        _ => false,
    }
}

/// Path argument of a file command: as given, else `/` for a listing and the
/// empty path for the others.
pub fn command_path(c: RelayCommand, path: Option<&str>) -> (r: String)
    ensures
        r@ == (match path {
            Some(p) => p@,
            None => if c == RelayCommand::FileList {
                "/"@
            } else {
                ""@
            },
        }),
{
    match path {
        Some(p) => owned(p),
        None => if c == RelayCommand::FileList {
            owned("/")
        } else {
            owned("")
        },
    }
}

/// Default subnet of a network scan.
pub fn scan_subnet_arg(subnet: Option<&str>) -> (r: String)
    ensures
        r@ == (match subnet {
            Some(s) => s@,
            None => "192.168.1.0/24"@,
        }),
{
    match subnet {
        Some(s) => owned(s),
        None => owned("192.168.1.0/24"),
    }
}

/// Terminal size from the payload, `80 x 24` by default; values are cut to 16 bits.
pub fn terminal_dims(cols: Option<u64>, rows: Option<u64>) -> (r: (u16, u16))
    ensures
        r.0 == (match cols {
            Some(c) => c % 65536,
            None => 80,
        }),
        r.1 == (match rows {
            Some(x) => x % 65536,
            None => 24,
        }),
{
    let c: u64 = match cols {
        Some(c) => c % 65536,
        None => 80,
    };
    let w: u64 = match rows {
        Some(x) => x % 65536,
        None => 24,
    };
    (c as u16, w as u16)
}

/// Session id of a new terminal: the payload's, else the message id.
pub fn terminal_session_id(payload_id: Option<&str>, msg_id: &str) -> (r: String)
    ensures
        r@ == (match payload_id {
            Some(s) => s@,
            None => msg_id@,
        }),
{
    match payload_id {
        Some(s) => owned(s),
        None => owned(msg_id),
    }
}

/// Terminal sessions of one relay connection, keyed by session id.
pub struct SessionRegistry<S> {
    sessions: Vec<(String, S)>,
}

/// No two sessions share an id.
pub open spec fn distinct_ids<S>(s: Seq<(String, S)>) -> bool {
    forall|i: int, j: int| 0 <= i < s.len() && 0 <= j < s.len() && i != j ==> s[i].0@ != s[j].0@
}

impl<S> View for SessionRegistry<S> {
    type V = Set<Seq<char>>;

    /// The active session ids.
    closed spec fn view(&self) -> Set<Seq<char>> {
        Set::new(|k: Seq<char>| exists|i: int| 0 <= i < self.sessions@.len() && self.sessions@[i].0@ == k)
    }
}

impl<S> SessionRegistry<S> {
    pub closed spec fn wf(&self) -> bool {
        distinct_ids(self.sessions@)
    }

    /// The session registered under `id` (meaningful when `id` is active).
    pub closed spec fn session_for(&self, id: Seq<char>) -> S {
        self.sessions@[choose|i: int| 0 <= i < self.sessions@.len() && self.sessions@[i].0@ == id].1
    }

    proof fn lemma_session_at(&self, i: int)
        requires
            self.wf(),
            0 <= i < self.sessions@.len(),
        ensures
            self@.contains(self.sessions@[i].0@),
            self.session_for(self.sessions@[i].0@) == self.sessions@[i].1,
    {
        let k = self.sessions@[i].0@;
        assert(exists|j: int| 0 <= j < self.sessions@.len() && self.sessions@[j].0@ == k);
        let j = choose|j: int| 0 <= j < self.sessions@.len() && self.sessions@[j].0@ == k;
        assert(j == i);
    }

    /// No sessions.
    pub fn new() -> (r: Self)
        ensures
            r.wf(),
            r@ == Set::<Seq<char>>::empty(),
    {
        let r = SessionRegistry { sessions: Vec::new() };
        assert(r@ =~= Set::<Seq<char>>::empty());
        r
    }

    fn find(&self, session_id: &str) -> (r: Option<usize>)
        ensures
            match r {
                Some(i) => i < self.sessions@.len() && self.sessions@[i as int].0@ == session_id@,
                None => !self@.contains(session_id@),
            },
    {
        let mut i: usize = 0;
        while i < self.sessions.len()
            invariant
                i <= self.sessions@.len(),
                forall|j: int| 0 <= j < i ==> self.sessions@[j].0@ != session_id@,
            decreases self.sessions@.len() - i,
        {
            if str_eq(self.sessions[i].0.as_str(), session_id) {
                return Some(i);
            }
            i = i + 1;
        }
        None
    }

    /// True when `session_id` is active.
    pub fn contains(&self, session_id: &str) -> (r: bool)
        ensures
            r == self@.contains(session_id@),
    {
        match self.find(session_id) {
            Some(i) => {
                assert(self@.contains(self.sessions@[i as int].0@));
                true
            },
            None => false,
        }
    }

    /// The session under `session_id`, if active.
    pub fn get(&self, session_id: &str) -> (r: Option<&S>)
        requires
            self.wf(),
        ensures
            match r {
                Some(x) => self@.contains(session_id@) && *x == self.session_for(session_id@),
                None => !self@.contains(session_id@),
            },
    {
        match self.find(session_id) {
            Some(i) => {
                proof {
                    self.lemma_session_at(i as int);
                }
                Some(&self.sessions[i].1)
            },
            None => None,
        }
    }

    fn remove_at(&mut self, i: usize) -> (r: (String, S))
        requires
            old(self).wf(),
            i < old(self).sessions@.len(),
        ensures
            final(self).wf(),
            r.0@ == old(self).sessions@[i as int].0@,
            r.1 == old(self).sessions@[i as int].1,
            final(self)@ == old(self)@.remove(r.0@),
            forall|k: Seq<char>| #[trigger]
                final(self)@.contains(k) ==> final(self).session_for(k) == old(self).session_for(k),
    {
        let ghost s0 = self.sessions@;
        let r = self.sessions.remove(i);
        proof {
            let s1 = self.sessions@;
            assert(s1 =~= s0.remove(i as int));
            assert forall|a: int, b: int|
                0 <= a < s1.len() && 0 <= b < s1.len() && a != b implies s1[a].0@ != s1[b].0@ by {
                let a0 = if a < i { a } else { a + 1 };
                let b0 = if b < i { b } else { b + 1 };
                assert(s1[a] == s0[a0] && s1[b] == s0[b0]);
            }
            assert forall|k: Seq<char>| #[trigger] self@.contains(k) == old(self)@.remove(r.0@).contains(k) by {
                if self@.contains(k) {
                    let j = choose|j: int| 0 <= j < s1.len() && s1[j].0@ == k;
                    let j0 = if j < i { j } else { j + 1 };
                    assert(s1[j] == s0[j0]);
                    assert(old(self)@.contains(k));
                }
                if old(self)@.remove(r.0@).contains(k) {
                    let j0 = choose|j: int| 0 <= j < s0.len() && s0[j].0@ == k;
                    assert(j0 != i);
                    let j = if j0 < i { j0 } else { j0 - 1 };
                    assert(s1[j] == s0[j0]);
                }
            }
            assert(self@ =~= old(self)@.remove(r.0@));
            assert forall|k: Seq<char>| #[trigger] self@.contains(k) implies self.session_for(k)
                == old(self).session_for(k) by {
                let j = choose|j: int| 0 <= j < s1.len() && s1[j].0@ == k;
                let j0 = if j < i { j } else { j + 1 };
                assert(s1[j] == s0[j0]);
                self.lemma_session_at(j);
                old(self).lemma_session_at(j0);
            }
        }
        r
    }

    /// Registers `session` under `session_id`, replacing (and handing back) an
    /// earlier session with that id.
    pub fn insert(&mut self, session_id: String, session: S) -> (r: Option<S>)
        requires
            old(self).wf(),
        ensures
            final(self).wf(),
            final(self)@ == old(self)@.insert(session_id@),
            final(self).session_for(session_id@) == session,
            forall|k: Seq<char>| #[trigger]
                old(self)@.contains(k) && k != session_id@ ==> final(self).session_for(k)
                    == old(self).session_for(k),
            match r {
                Some(x) => old(self)@.contains(session_id@) && x == old(self).session_for(session_id@),
                None => !old(self)@.contains(session_id@),
            },
    {
        let previous = match self.find(session_id.as_str()) {
            Some(i) => {
                proof {
                    self.lemma_session_at(i as int);
                }
                let (_, s) = self.remove_at(i);
                Some(s)
            },
            None => None,
        };
        let ghost s0 = self.sessions@;
        let ghost before = *self;
        let ghost k = session_id@;
        let ghost mid = self@;
        assert(!mid.contains(k));
        self.sessions.push((session_id, session));
        proof {
            let s1 = self.sessions@;
            assert forall|a: int, b: int|
                0 <= a < s1.len() && 0 <= b < s1.len() && a != b implies s1[a].0@ != s1[b].0@ by {
                if a == s0.len() {
                    assert(s1[b] == s0[b]);
                    assert(mid.contains(s0[b].0@));
                } else if b == s0.len() {
                    assert(s1[a] == s0[a]);
                    assert(mid.contains(s0[a].0@));
                } else {
                    assert(s1[a] == s0[a] && s1[b] == s0[b]);
                }
            }
            assert forall|kk: Seq<char>| #[trigger] self@.contains(kk) == mid.insert(k).contains(kk) by {
                if self@.contains(kk) {
                    let j = choose|j: int| 0 <= j < s1.len() && s1[j].0@ == kk;
                    if j < s0.len() {
                        assert(s1[j] == s0[j]);
                    }
                }
                if mid.contains(kk) {
                    let j = choose|j: int| 0 <= j < s0.len() && s0[j].0@ == kk;
                    assert(s1[j] == s0[j]);
                }
                if kk == k {
                    assert(s1[s0.len() as int].0@ == k);
                }
            }
            assert(self@ =~= mid.insert(k));
            assert(mid.insert(k) =~= old(self)@.insert(k));
            self.lemma_session_at(s0.len() as int);
            assert forall|kk: Seq<char>| #[trigger]
                old(self)@.contains(kk) && kk != k implies self.session_for(kk) == old(self).session_for(kk) by {
                assert(mid.contains(kk));
                let j = choose|j: int| 0 <= j < s0.len() && s0[j].0@ == kk;
                assert(s1[j] == s0[j]);
                self.lemma_session_at(j);
                before.lemma_session_at(j);
            }
        }
        previous
    }

    /// Ends the session under `session_id`, handing it back if it was active.
    pub fn remove(&mut self, session_id: &str) -> (r: Option<S>)
        requires
            old(self).wf(),
        ensures
            final(self).wf(),
            final(self)@ == old(self)@.remove(session_id@),
            forall|k: Seq<char>| #[trigger]
                final(self)@.contains(k) ==> final(self).session_for(k) == old(self).session_for(k),
            match r {
                Some(x) => old(self)@.contains(session_id@) && x == old(self).session_for(session_id@),
                None => !old(self)@.contains(session_id@),
            },
    {
        match self.find(session_id) {
            Some(i) => {
                proof {
                    self.lemma_session_at(i as int);
                }
                let (_, s) = self.remove_at(i);
                Some(s)
            },
            None => {
                assert(self@ =~= self@.remove(session_id@));
                None
            },
        }
    }
}

/// A session id stays registered from its creation until it is closed or the
/// connection's registry is dropped: registering other ids and closing other
/// ids never removes it.
pub proof fn lemma_session_persists(before: Set<Seq<char>>, id: Seq<char>, other: Seq<char>)
    requires
        before.contains(id),
        other != id,
    ensures
        before.insert(other).contains(id),
        before.remove(other).contains(id),
        before.insert(id).contains(id),
{
}

/// How one character is written inside a JSON string: quote and backslash are
/// escaped, backspace, form feed, newline, carriage return and tab get their short
/// escapes, other control characters `\u00XX` with lowercase hex; the rest stand
/// as they are.
pub open spec fn json_char_escape(c: char) -> Seq<char> {
    let n = c as int;
    if c == '"' {
        seq!['\\', '"']
    } else if c == '\\' {
        seq!['\\', '\\']
    } else if n == 8 {
        seq!['\\', 'b']
    } else if n == 12 {
        seq!['\\', 'f']
    } else if n == 10 {
        seq!['\\', 'n']
    } else if n == 13 {
        seq!['\\', 'r']
    } else if n == 9 {
        seq!['\\', 't']
    } else if n < 32 {
        seq!['\\', 'u', '0', '0', hex_digits()[n / 16], hex_digits()[n % 16]]
    } else {
        seq![c]
    }
}

/// The escaped characters of a JSON string, without the quotes.
pub open spec fn json_escaped(s: Seq<char>) -> Seq<char>
    decreases s.len(),
{
    if s.len() == 0 {
        Seq::empty()
    } else {
        json_escaped(s.drop_last()) + json_char_escape(s.last())
    }
}

/// JSON text of a string value: the escaped characters between double quotes.
pub open spec fn json_string_of(s: Seq<char>) -> Seq<char> {
    seq!['"'] + json_escaped(s) + seq!['"']
}

/// Relies on `serde_json::to_string` for a `str`: the string between double
/// quotes, each character escaped as `json_char_escape` says (serde_json's
/// `format_escaped_str`). Serializing a string into memory cannot fail.
#[verifier::external_body]
fn json_quote(s: &str) -> (r: String)
    ensures
        r@ == json_string_of(s@),
{
    serde_json::to_string(s).unwrap_or_default()
}

/// A successful response envelope, `result_json` being the result's JSON text.
pub open spec fn ok_envelope(msg_id: Seq<char>, result_json: Seq<char>) -> Seq<char> {
    "{\"type\":\"response\",\"msg_id\":"@ + json_string_of(msg_id) + ",\"result\":"@ + result_json
        + ",\"error\":null}"@
}

/// A failed response envelope carrying the error message.
pub open spec fn error_envelope(msg_id: Seq<char>, message: Seq<char>) -> Seq<char> {
    "{\"type\":\"response\",\"msg_id\":"@ + json_string_of(msg_id) + ",\"result\":null,\"error\":"@
        + json_string_of(message) + "}"@
}

/// The `response` envelope for `msg_id`: the result's JSON text, or the error's message.
pub fn response_envelope(msg_id: &str, result: Result<String, AgentError>) -> (r: String)
    ensures
        match result {
            Ok(j) => r@ == ok_envelope(msg_id@, j@),
            Err(e) => r@ == error_envelope(msg_id@, error_label(e) + error_detail(e)),
        },
{
    let head = owned("{\"type\":\"response\",\"msg_id\":").concat(json_quote(msg_id).as_str());
    match result {
        Ok(j) => head.concat(",\"result\":").concat(j.as_str()).concat(",\"error\":null}"),
        Err(e) => {
            let m = e.to_message();
            head.concat(",\"result\":null,\"error\":").concat(json_quote(m.as_str()).as_str()).concat(
                "}",
            )
        },
    }
}

/// Result of a successful write or delete: `{"ok":true}`.
pub fn ok_result() -> (r: String)
    ensures
        r@ == "{\"ok\":true}"@,
{
    owned("{\"ok\":true}")
}

/// Result of a file read: `{"content":<base64>}`.
pub fn content_result(content_b64: &str) -> (r: String)
    ensures
        r@ == "{\"content\":"@ + json_string_of(content_b64@) + "}"@,
{
    owned("{\"content\":").concat(json_quote(content_b64).as_str()).concat("}")
}

/// Result of a terminal creation: `{"session_id":<id>}`.
pub fn session_result(session_id: &str) -> (r: String)
    ensures
        r@ == "{\"session_id\":"@ + json_string_of(session_id@) + "}"@,
{
    owned("{\"session_id\":").concat(json_quote(session_id).as_str()).concat("}")
}

/// The heartbeat frame, `{"type":"ping"}`.
pub fn ping_message() -> (r: String)
    ensures
        r@ == "{\"type\":\"ping\"}"@,
{
    owned("{\"type\":\"ping\"}")
}

/// Standard base64 of a byte string, with padding.
pub uninterp spec fn base64_of(data: Seq<u8>) -> Seq<char>;

/// What standard base64 decoding gives: the bytes, or nothing for invalid input.
pub uninterp spec fn base64_decoded(text: Seq<char>) -> Option<Seq<u8>>;

/// Relies on base64's `STANDARD.encode`: padded standard base64, a function of
/// the bytes alone. It panics only when the encoded length overflows `usize`.
#[verifier::external_body]
fn b64_encode(data: &[u8]) -> (r: String)
    requires
        data@.len() <= usize::MAX / 2,
    ensures
        r@ == base64_of(data@),
{
    base64::engine::general_purpose::STANDARD.encode(data)
}

#[verifier::external_type_specification]
#[verifier::external_body]
pub struct ExDecodeError(base64::DecodeError);

/// Relies on base64's `STANDARD.decode`: the decoded bytes, or a decode error
/// for input that is not canonical padded standard base64.
#[verifier::external_body]
fn b64_decode(text: &str) -> (r: Result<Vec<u8>, base64::DecodeError>)
    ensures
        match r {
            Ok(v) => base64_decoded(text@) == Some(v@),
            Err(_) => base64_decoded(text@) is None,
        },
{
    base64::engine::general_purpose::STANDARD.decode(text)
}

/// File bytes as carried in relay messages: base64.
pub fn encode_content(data: &[u8]) -> (r: String)
    requires
        data@.len() <= usize::MAX / 2,
    ensures
        r@ == base64_of(data@),
{
    b64_encode(data)
}

/// Bytes of a relay file payload; text that is not valid base64 is a
/// validation error.
pub fn decode_content(content_b64: &str) -> (r: Result<Vec<u8>, AgentError>)
    ensures
        match base64_decoded(content_b64@) {
            Some(v) => r is Ok && r->Ok_0@ == v,
            None => r is Err && r->Err_0 is ValidationError,
        },
{
    match b64_decode(content_b64) {
        Ok(v) => Ok(v),
        Err(_) => Err(AgentError::ValidationError(owned("Invalid base64"))),
    }
}

/// Bytes read from a terminal at a time.
pub const TERMINAL_READ_CHUNK: usize = 4096;

/// A chunk of terminal output: `{"type":"terminal_output","session_id":..,"data":<base64>}`.
pub fn terminal_output_message(session_id: &str, data: &[u8]) -> (r: String)
    requires
        data@.len() <= usize::MAX / 2,
    ensures
        r@ == "{\"type\":\"terminal_output\",\"session_id\":"@ + json_string_of(session_id@)
            + ",\"data\":"@ + json_string_of(base64_of(data@)) + "}"@,
{
    let encoded = b64_encode(data);
    owned("{\"type\":\"terminal_output\",\"session_id\":").concat(json_quote(session_id).as_str()).concat(
        ",\"data\":",
    ).concat(json_quote(encoded.as_str()).as_str()).concat("}")
}

/// The end of a terminal session: `{"type":"terminal_closed","session_id":..}`.
pub fn terminal_closed_message(session_id: &str) -> (r: String)
    ensures
        r@ == "{\"type\":\"terminal_closed\",\"session_id\":"@ + json_string_of(session_id@) + "}"@,
{
    owned("{\"type\":\"terminal_closed\",\"session_id\":").concat(json_quote(session_id).as_str()).concat(
        "}",
    )
}

/// The shell a terminal runs: bash when installed, else sh.
pub fn terminal_shell(bash_present: bool) -> (r: &'static str)
    ensures
        bash_present ==> r@ == "/bin/bash"@,
        !bash_present ==> r@ == "/bin/sh"@,
{
    if bash_present {
        "/bin/bash"
    } else {
        "/bin/sh"
    }
}

} // verus!
