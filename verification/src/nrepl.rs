//! Session protocol of the remote evaluation channel.
//!
//! A connection owns a list of session ids. Requests are handled one at a
//! time by [`Sessions::handle`], which updates the list and says what is to
//! be written back, if anything. An `eval` of a known session is handed out
//! as [`Reaction::Evaluate`]; once the actor has answered, [`eval_response`]
//! builds the reply.

use vstd::prelude::*;
use crate::actor::ReplResponse;

verus! {

/// Where the server listens.
pub const LISTEN_ADDR: &'static str = "127.0.0.1:7888";

/// How long a read on a connection waits for input before the handler tries
/// again, in milliseconds.
pub const READ_TIMEOUT_MILLIS: u64 = 200;

/// The address of a peer: the 32 bits of an IPv4 address or the 128 bits of
/// an IPv6 address, most significant byte first. An IPv4 address and an
/// IPv6 address are never the same peer.
#[derive(Clone, Copy, Debug, PartialEq, Eq, Structural)]
pub enum PeerAddr {
    V4(u32),
    V6(u128),
}

/// A request of the remote evaluation protocol, selected by its `op` field.
#[derive(Debug)]
#[allow(inconsistent_fields)]
pub enum NReplMessage {
    AddMiddleware,
    Clone { id: u64, session: Option<u64> },
    Close { session: u64 },
    Completions,
    Describe,
    Eval {
        code: String,
        session: u64,
        column: Option<u64>,
        file: Option<String>,
        id: u64,
        line: Option<u64>,
    },
    Interrupt,
    LoadFile,
    Lookup,
    LsMiddleware,
    LsSessions,
    SideloaderProvide,
    SideloaderStart,
    Stdin,
    SwapMiddleware,
}

/// Reply to `clone`.
#[derive(Debug)]
pub struct CloneResponse {
    pub id: u64,
    pub new_session: u64,
    pub status: Vec<String>,
}

/// Reply to `eval`.
#[derive(Debug)]
pub struct EvalResponse {
    pub id: u64,
    pub session: u64,
    pub value: String,
    pub status: Vec<String>,
    pub ns: String,
}

/// Reply to `ls-sessions`.
#[derive(Debug)]
pub struct LsSessionsResponse {
    pub sessions: Vec<u64>,
}

/// Reply to `describe`.
#[derive(Debug)]
pub struct DescribeResponse {
    pub aux: Vec<String>,
    pub ops: Vec<String>,
}

/// What the connection handler does after one request.
#[derive(Debug)]
pub enum Reaction {
    /// Write the reply to `clone`.
    Cloned(CloneResponse),
    /// Write the reply to `describe`.
    Described(DescribeResponse),
    /// Write the reply to `ls-sessions`.
    Listed(LsSessionsResponse),
    /// Submit `code` to the actor, wait for its response, and write what
    /// [`eval_response`] makes of it.
    Evaluate { id: u64, session: u64, code: String },
    /// Write nothing.
    Silent,
}

/// The status list that closes every reply that has one: `["done"]`.
pub open spec fn done_status() -> Seq<Seq<char>> {
    seq!["done"@]
}

/// The operations that `describe` announces, in this order.
pub open spec fn supported_ops() -> Seq<Seq<char>> {
    seq!["clone"@, "eval"@, "describe"@, "ls-sessions"@, "close"@]
}

/// Session ids are kept in strictly ascending order.
pub open spec fn ascending(ids: Seq<u64>) -> bool {
    forall|i: int, j: int| 0 <= i < j < ids.len() ==> ids[i] < ids[j]
}

/// The id that the next `clone` hands out: one more than the last id of the
/// list, or 1 for an empty list.
pub open spec fn next_session(ids: Seq<u64>) -> int {
    if ids.len() == 0 {
        1
    } else {
        ids.last() + 1
    }
}

/// The session list after a request.
pub open spec fn sessions_after(ids: Seq<u64>, msg: NReplMessage) -> Seq<u64> {
    match msg {
        NReplMessage::Clone { .. } => ids.push(next_session(ids) as u64),
        NReplMessage::Close { session } => if ids.contains(session) {
            ids.remove(ids.index_of(session))
        } else {
            ids
        },
        _ => ids,
    }
}

/// Whether `r` is the reaction that the protocol prescribes for `msg` on a
/// connection whose session list is `ids`.
pub open spec fn reaction_to(ids: Seq<u64>, msg: NReplMessage, r: Reaction) -> bool {
    match msg {
        NReplMessage::Clone { id, .. } => {
            &&& r matches Reaction::Cloned(c)
            &&& c.id == id
            &&& c.new_session == next_session(ids)
            &&& c.status.deep_view() == done_status()
        },
        NReplMessage::Eval { code, session, id, .. } => if ids.contains(session) {
            r == (Reaction::Evaluate { id, session, code })
        } else {
            r is Silent
        },
        NReplMessage::Describe => {
            &&& r matches Reaction::Described(d)
            &&& d.ops.deep_view() == supported_ops()
            &&& d.aux.deep_view() == Seq::<Seq<char>>::empty()
        },
        NReplMessage::LsSessions => {
            &&& r matches Reaction::Listed(l)
            &&& l.sessions@ == ids
        },
        _ => r is Silent,
    }
}

/// Whether a connection from `peer` is accepted: only from an address on
/// the allow-list.
pub fn admits(whitelist: &Vec<PeerAddr>, peer: PeerAddr) -> (yes: bool)
    ensures
        yes == whitelist@.contains(peer),
{
    let mut i: usize = 0;
    while i < whitelist.len()
        invariant
            i <= whitelist.len(),
            forall|k: int| 0 <= k < i ==> whitelist@[k] != peer,
        decreases whitelist.len() - i,
    {
        if whitelist[i] == peer {
            return true;
        }
        i += 1;
    }
    false
}

/// Sessions are scoped to their connection: an `eval` is dropped without a
/// reply on every connection whose own list does not hold its session,
/// whatever other connections have handed out. A connection that never
/// cloned drops every `eval`.
pub proof fn lemma_sessions_are_scoped(ids: Seq<u64>, msg: NReplMessage, r: Reaction)
    requires
        msg matches NReplMessage::Eval { session, .. } && !ids.contains(session),
        reaction_to(ids, msg, r),
    ensures
        r is Silent,
        sessions_after(ids, msg) == ids,
{
}

/// The sessions of one connection.
pub struct Sessions {
    ids: Vec<u64>,
}

impl View for Sessions {
    type V = Seq<u64>;

    closed spec fn view(&self) -> Seq<u64> {
        self.ids@
    }
}

/// A fresh `["done"]`.
fn done() -> (status: Vec<String>)
    ensures
        status.deep_view() == done_status(),
{
    let mut status: Vec<String> = Vec::new();
    status.push("done".to_owned());
    assert(status.deep_view() =~= done_status());
    status
}

impl Sessions {
    /// The list is strictly ascending, so its last id is its largest and no
    /// id occurs twice.
    pub open spec fn wf(&self) -> bool {
        ascending(self@)
    }

    /// A connection starts without sessions.
    pub fn new() -> (s: Self)
        ensures
            s@ == Seq::<u64>::empty(),
            s.wf(),
    {
        Sessions { ids: Vec::new() }
    }

    /// The session ids, oldest first.
    pub fn ids(&self) -> (ids: &Vec<u64>)
        ensures
            ids@ == self@,
    {
        &self.ids
    }

    /// Whether `session` was handed out on this connection and not closed.
    pub fn contains(&self, session: u64) -> (known: bool)
        requires
            self.wf(),
        ensures
            known == self@.contains(session),
    {
        self.position(session).is_some()
    }

    /// Binary search for `session`.
    fn position(&self, session: u64) -> (at: Option<usize>)
        requires
            self.wf(),
        ensures
            match at {
                Some(i) => i < self@.len() && self@[i as int] == session,
                None => !self@.contains(session),
            },
    {
        let mut lo: usize = 0;
        let mut hi: usize = self.ids.len();
        while lo < hi
            invariant
                lo <= hi <= self.ids.len(),
                ascending(self.ids@),
                forall|k: int| 0 <= k < lo ==> self.ids@[k] < session,
                forall|k: int| hi <= k < self.ids.len() ==> self.ids@[k] > session,
            decreases hi - lo,
        {
            let mid: usize = lo + (hi - lo) / 2;
            let here: u64 = self.ids[mid];
            if here == session {
                return Some(mid);
            } else if here < session {
                lo = mid + 1;
            } else {
                hi = mid;
            }
        }
        None
    }

    /// Handles one request: updates the session list and returns what the
    /// connection handler is to do.
    ///
    /// `clone` appends the next id and replies with it. `eval` is forwarded
    /// only for a session of this connection and is otherwise dropped without
    /// a reply. `close` removes the session if it is there and never replies.
    /// `describe` and `ls-sessions` reply and change nothing. Every other
    /// operation is accepted and ignored.
    ///
    /// A `clone` needs a next id that fits in 64 bits.
    pub fn handle(&mut self, msg: NReplMessage) -> (r: Reaction)
        requires
            old(self).wf(),
            msg is Clone ==> next_session(old(self)@) <= u64::MAX,
        ensures
            final(self).wf(),
            final(self)@ == sessions_after(old(self)@, msg),
            reaction_to(old(self)@, msg, r),
    {
        match msg {
            NReplMessage::Clone { id, session: _ } => {
                let n: usize = self.ids.len();
                let new_session: u64 = if n == 0 {
                    1
                } else {
                    self.ids[n - 1] + 1
                };
                self.ids.push(new_session);
                Reaction::Cloned(CloneResponse { id, new_session, status: done() })
            },
            NReplMessage::Eval { code, session, column: _, file: _, id, line: _ } => {
                if self.contains(session) {
                    Reaction::Evaluate { id, session, code }
                } else {
                    Reaction::Silent
                }
            },
            NReplMessage::Describe => {
                let mut ops: Vec<String> = Vec::new();
                ops.push("clone".to_owned());
                ops.push("eval".to_owned());
                ops.push("describe".to_owned());
                ops.push("ls-sessions".to_owned());
                ops.push("close".to_owned());
                let aux: Vec<String> = Vec::new();
                assert(ops.deep_view() =~= supported_ops());
                assert(aux.deep_view() =~= Seq::<Seq<char>>::empty());
                Reaction::Described(DescribeResponse { aux, ops })
            },
            NReplMessage::LsSessions => {
                Reaction::Listed(LsSessionsResponse { sessions: self.ids.clone() })
            },
            NReplMessage::Close { session } => {
                match self.position(session) {
                    Some(i) => {
                        proof {
                            let j = self@.index_of(session);
                            assert(self@[j] == session);
                            assert(j == i);
                        }
                        self.ids.remove(i);
                    },
                    None => {},
                }
                Reaction::Silent
            },
            _ => Reaction::Silent,
        }
    }
}

/// The text that an `eval` reply carries for a response of the actor: `()`
/// for no value, the value's text, or `Error` for a failed evaluation.
pub open spec fn eval_value(response: ReplResponse) -> Seq<char> {
    match response {
        ReplResponse::Empty => "()"@,
        ReplResponse::Return(s) => s@,
        ReplResponse::Error(_) => "Error"@,
    }
}

/// Builds the reply to an `eval` request from the actor's response.
pub fn eval_response(id: u64, session: u64, response: ReplResponse) -> (r: EvalResponse)
    ensures
        r.id == id,
        r.session == session,
        r.value@ == eval_value(response),
        r.ns@ == "ns"@,
        r.status.deep_view() == done_status(),
{
    let value: String = match response {
        ReplResponse::Empty => "()".to_owned(),
        ReplResponse::Return(s) => s,
        ReplResponse::Error(_) => "Error".to_owned(),
    };
    EvalResponse { id, session, value, ns: "ns".to_owned(), status: done() }
}

} // verus!
