use vstd::prelude::*;
use vstd::multiset::Multiset;

verus! {

/// Event kind of the capability announcement.
pub const KIND_WALLET_CONNECT_INFO: u16 = 13194;

/// Event kind of a client request.
pub const KIND_WALLET_CONNECT_REQUEST: u16 = 23194;

/// Event kind of a response.
pub const KIND_WALLET_CONNECT_RESPONSE: u16 = 23195;

/// Seconds after which a connection is torn down and made afresh.
pub const REFRESH_INTERVAL_SECS: u64 = 900;

/// Seconds a command may run before it is abandoned.
pub const COMMAND_TIMEOUT_SECS: u64 = 60;

/// First delay, in seconds, before reconnecting after a failure.
pub const RECONNECT_BASE_SECS: u64 = 1;

/// Longest delay, in seconds, between reconnection attempts.
pub const RECONNECT_CAP_SECS: u64 = 60;

/// A 32-byte identifier (an event id or an x-only public key) as four
/// big-endian words.
#[derive(Clone, Copy, Debug, PartialEq, Eq, Structural)]
pub struct Id32 {
    pub w0: u64,
    pub w1: u64,
    pub w2: u64,
    pub w3: u64,
}

/// What the session reads of an incoming event before handing it on.
#[derive(Clone, Copy, Debug, PartialEq, Eq, Structural)]
pub struct EventMeta {
    pub id: Id32,
    pub kind: u16,
    pub author: Id32,
    /// Whether the event's id and signature verified.
    pub signature_valid: bool,
}

/// An event is a request from the counterparty, properly signed.
pub open spec fn authenticated(e: EventMeta, counterparty: Id32) -> bool {
    e.kind == KIND_WALLET_CONNECT_REQUEST && e.author == counterparty && e.signature_valid
}

/// Whether an event is a properly signed request of the counterparty.
pub fn is_authenticated(e: &EventMeta, counterparty: Id32) -> (r: bool)
    ensures
        r == authenticated(*e, counterparty),
{
    e.kind == KIND_WALLET_CONNECT_REQUEST && e.author == counterparty && e.signature_valid
}

/// A tag of a response event.
pub enum Tag {
    /// Addresses a public key.
    PubKey(Id32),
    /// Refers back to an event.
    Event(Id32),
    /// Carries a batch entry's correlation identifier.
    Identifier(String),
}

/// The tags of the answer to `request`: the requester's key, the request's
/// id, and the entry's identifier when it has one.
pub open spec fn is_response_tags(t: Seq<Tag>, request: EventMeta, id: Option<Seq<char>>) -> bool {
    &&& t.len() == (if id is Some {
        3int
    } else {
        2int
    })
    &&& t[0] == Tag::PubKey(request.author)
    &&& t[1] == Tag::Event(request.id)
    &&& id matches Some(s) ==> (t[2] matches Tag::Identifier(x) && x@ == s)
}

/// The identifier's characters, if there is one.
pub open spec fn id_view(id: Option<&String>) -> Option<Seq<char>> {
    match id {
        Some(s) => Some(s@),
        None => None,
    }
}

/// Builds the tags of the answer to `request`.
pub fn response_tags(request: &EventMeta, id: Option<&String>) -> (r: Vec<Tag>)
    ensures
        is_response_tags(r@, *request, id_view(id)),
{
    let mut r: Vec<Tag> = Vec::new();
    r.push(Tag::PubKey(request.author));
    r.push(Tag::Event(request.id));
    match id {
        Some(s) => r.push(Tag::Identifier(s.as_str().to_owned())),
        None => {},
    }
    r
}

/// Delay before the reconnection attempt that follows `failures`
/// consecutive failures: doubling from the base, capped.
pub open spec fn reconnect_delay(failures: nat) -> nat
    decreases failures,
{
    if failures == 0 {
        RECONNECT_BASE_SECS as nat
    } else {
        let d = 2 * reconnect_delay((failures - 1) as nat);
        if d > RECONNECT_CAP_SECS {
            RECONNECT_CAP_SECS as nat
        } else {
            d
        }
    }
}

proof fn lemma_reconnect_delay_bounded(failures: nat)
    ensures
        1 <= reconnect_delay(failures) <= RECONNECT_CAP_SECS,
    decreases failures,
{
    if failures > 0 {
        lemma_reconnect_delay_bounded((failures - 1) as nat);
    }
}

/// Seconds to wait before reconnecting after `failures` failed attempts.
pub fn reconnect_delay_secs(failures: u32) -> (r: u64)
    ensures
        r == reconnect_delay(failures as nat),
        1 <= r <= RECONNECT_CAP_SECS,
{
    let mut d: u64 = RECONNECT_BASE_SECS;
    let mut i: u32 = 0;
    while i < failures
        invariant
            i <= failures,
            d == reconnect_delay(i as nat),
            1 <= d <= RECONNECT_CAP_SECS,
        decreases failures - i,
    {
        proof {
            lemma_reconnect_delay_bounded(i as nat);
        }
        d = if 2 * d > RECONNECT_CAP_SECS {
            RECONNECT_CAP_SECS
        } else {
            2 * d
        };
        i = i + 1;
    }
    d
}

/// What happens to the session.
#[derive(Clone, Copy, Debug, PartialEq, Eq, Structural)]
pub enum SessionEvent {
    /// A fresh connection to the relay is up, at time `now`.
    Connected { now: u64 },
    /// Connecting to the relay failed.
    ConnectFailed,
    /// The capability announcement was published and its flag stored.
    AnnouncementStored,
    /// The relay delivered an event.
    Notification(EventMeta),
    /// The forced-refresh timer fired.
    RefreshTimerFired,
    /// The relay pool reported that it shut down.
    RelayShutdown,
    /// A command task finished, failed or timed out.
    TaskFinished(Id32),
}

/// What the session asks its driver to do next.
#[derive(Clone, Copy, Debug, PartialEq, Eq, Structural)]
pub enum SessionAction {
    /// Subscribe to the counterparty's requests from `since` on, and
    /// publish the capability announcement first when `announce` is set.
    Subscribe { since: u64, announce: bool },
    /// Wait this many seconds, then connect again.
    Reconnect { delay_secs: u64 },
    /// Run the command of this event under the command timeout.
    Spawn(Id32),
    /// Log the event and drop it.
    Ignore,
    /// Disconnect, then connect again.
    Disconnect,
    /// Nothing to do.
    Continue,
}

/// The session's state as plain values.
pub struct SessionView {
    pub counterparty: Id32,
    pub announced: bool,
    pub connected: bool,
    pub failures: u32,
    /// Identifiers of the commands being handled, one per running task.
    pub pending: Multiset<Id32>,
}

/// The session's state after one event.
pub open spec fn next_view(s: SessionView, ev: SessionEvent) -> SessionView {
    match ev {
        SessionEvent::Connected { .. } => SessionView { connected: true, failures: 0, ..s },
        SessionEvent::ConnectFailed => SessionView {
            connected: false,
            failures: if s.failures < u32::MAX {
                (s.failures + 1) as u32
            } else {
                s.failures
            },
            ..s
        },
        SessionEvent::AnnouncementStored => SessionView { announced: true, ..s },
        SessionEvent::Notification(e) => if authenticated(e, s.counterparty) {
            SessionView { pending: s.pending.insert(e.id), ..s }
        } else {
            s
        },
        SessionEvent::RefreshTimerFired => SessionView { connected: false, ..s },
        SessionEvent::RelayShutdown => SessionView { connected: false, ..s },
        SessionEvent::TaskFinished(id) => SessionView { pending: s.pending.remove(id), ..s },
    }
}

/// What the session asks for on one event.
pub open spec fn next_action(s: SessionView, ev: SessionEvent) -> SessionAction {
    match ev {
        SessionEvent::Connected { now } => SessionAction::Subscribe {
            since: now,
            announce: !s.announced,
        },
        SessionEvent::ConnectFailed => SessionAction::Reconnect {
            delay_secs: reconnect_delay(s.failures as nat) as u64,
        },
        SessionEvent::AnnouncementStored => SessionAction::Continue,
        SessionEvent::Notification(e) => if authenticated(e, s.counterparty) {
            SessionAction::Spawn(e.id)
        } else {
            SessionAction::Ignore
        },
        SessionEvent::RefreshTimerFired => SessionAction::Disconnect,
        SessionEvent::RelayShutdown => SessionAction::Disconnect,
        SessionEvent::TaskFinished(_) => SessionAction::Continue,
    }
}

/// The session's state after a sequence of events.
pub open spec fn run_events(s: SessionView, evs: Seq<SessionEvent>) -> SessionView
    decreases evs.len(),
{
    if evs.len() == 0 {
        s
    } else {
        next_view(run_events(s, evs.drop_last()), evs.last())
    }
}

/// The session controller's state.
pub struct Session {
    counterparty: Id32,
    announced: bool,
    connected: bool,
    failures: u32,
    pending: Vec<Id32>,
}

impl View for Session {
    type V = SessionView;

    closed spec fn view(&self) -> SessionView {
        SessionView {
            counterparty: self.counterparty,
            announced: self.announced,
            connected: self.connected,
            failures: self.failures,
            pending: self.pending@.to_multiset(),
        }
    }
}

impl Session {
    /// A session that has not connected yet. `announced` is the stored flag
    /// saying the capability announcement was already published.
    pub fn new(counterparty: Id32, announced: bool) -> (r: Session)
        ensures
            r@.counterparty == counterparty,
            r@.announced == announced,
            !r@.connected,
            r@.failures == 0,
            r@.pending == Multiset::<Id32>::empty(),
    {
        broadcast use vstd::seq_lib::group_to_multiset_ensures;

        let r = Session {
            counterparty,
            announced,
            connected: false,
            failures: 0,
            pending: Vec::new(),
        };
        proof {
            vstd::seq_lib::to_multiset_len(r.pending@);
            assert(r@.pending =~= Multiset::<Id32>::empty());
        }
        r
    }

    /// Whether the process may exit: no command is being handled.
    pub fn may_exit(&self) -> (r: bool)
        ensures
            r == (self@.pending.len() == 0),
    {
        proof {
            vstd::seq_lib::to_multiset_len(self.pending@);
        }
        self.pending.len() == 0
    }

    /// Number of commands being handled.
    pub fn in_flight(&self) -> (r: usize)
        ensures
            r == self@.pending.len(),
    {
        proof {
            vstd::seq_lib::to_multiset_len(self.pending@);
        }
        self.pending.len()
    }

    /// Whether a command of this event is being handled.
    pub fn is_in_flight(&self, id: Id32) -> (r: bool)
        ensures
            r == (self@.pending.count(id) > 0),
    {
        let mut i: usize = 0;
        while i < self.pending.len()
            invariant
                i <= self.pending@.len(),
                forall|j: int| 0 <= j < i ==> self.pending@[j] != id,
            decreases self.pending@.len() - i,
        {
            if self.pending[i] == id {
                proof {
                    assert(self.pending@[i as int] == id);
                    vstd::seq_lib::to_multiset_contains(self.pending@, id);
                }
                return true;
            }
            i = i + 1;
        }
        proof {
            vstd::seq_lib::to_multiset_contains(self.pending@, id);
        }
        false
    }

    /// Takes one event, updates the state and says what to do.
    pub fn step(&mut self, ev: SessionEvent) -> (r: SessionAction)
        ensures
            final(self)@ == next_view(old(self)@, ev),
            r == next_action(old(self)@, ev),
    {
        broadcast use vstd::seq_lib::group_to_multiset_ensures;

        match ev {
            SessionEvent::Connected { now } => {
                self.connected = true;
                self.failures = 0;
                SessionAction::Subscribe { since: now, announce: !self.announced }
            },
            SessionEvent::ConnectFailed => {
                let delay_secs = reconnect_delay_secs(self.failures);
                self.connected = false;
                if self.failures < u32::MAX {
                    self.failures = self.failures + 1;
                }
                SessionAction::Reconnect { delay_secs }
            },
            SessionEvent::AnnouncementStored => {
                self.announced = true;
                SessionAction::Continue
            },
            SessionEvent::Notification(e) => {
                if is_authenticated(&e, self.counterparty) {
                    self.pending.push(e.id);
                    SessionAction::Spawn(e.id)
                } else {
                    SessionAction::Ignore
                }
            },
            SessionEvent::RefreshTimerFired => {
                self.connected = false;
                SessionAction::Disconnect
            },
            SessionEvent::RelayShutdown => {
                self.connected = false;
                SessionAction::Disconnect
            },
            SessionEvent::TaskFinished(id) => {
                let mut i: usize = 0;
                while i < self.pending.len()
                    invariant
                        i <= self.pending@.len(),
                        self@ == old(self)@,
                        ev == SessionEvent::TaskFinished(id),
                        forall|j: int| 0 <= j < i ==> self.pending@[j] != id,
                    decreases self.pending@.len() - i,
                {
                    if self.pending[i] == id {
                        let ghost before = self.pending@;
                        self.pending.remove(i);
                        proof {
                            vstd::seq_lib::to_multiset_remove(before, i as int);
                            assert(before[i as int] == id);
                            assert(self@.pending == old(self)@.pending.remove(id));
                            assert(self@.counterparty == old(self)@.counterparty);
                            assert(self@.connected == old(self)@.connected);
                        }
                        return SessionAction::Continue;
                    }
                    i = i + 1;
                }
                proof {
                    vstd::seq_lib::to_multiset_contains(self.pending@, id);
                    assert(self@.pending.remove(id) =~= self@.pending);
                }
                SessionAction::Continue
            },
        }
    }
}

/// An event that fails authentication (wrong kind, wrong author or a bad
/// signature) is dropped: no task starts and nothing enters the in-flight set.
pub proof fn lemma_unauthenticated_event_dropped(s: SessionView, e: EventMeta)
    requires
        !authenticated(e, s.counterparty),
    ensures
        next_view(s, SessionEvent::Notification(e)) == s,
        next_action(s, SessionEvent::Notification(e)) == SessionAction::Ignore,
{
}

/// A command stays in flight, and the process may not exit, until its own
/// task reports that it finished: no other event takes it out.
pub proof fn lemma_in_flight_until_finished(s: SessionView, evs: Seq<SessionEvent>, id: Id32)
    requires
        forall|i: int| 0 <= i < evs.len() ==> evs[i] != SessionEvent::TaskFinished(id),
    ensures
        run_events(s, evs).pending.count(id) >= s.pending.count(id),
        s.pending.count(id) > 0 ==> run_events(s, evs).pending.len() > 0,
    decreases evs.len(),
{
    if evs.len() > 0 {
        lemma_in_flight_until_finished(s, evs.drop_last(), id);
        assert(evs.last() == evs[evs.len() - 1]);
    }
    if s.pending.count(id) > 0 {
        let t = run_events(s, evs).pending;
        assert(t.count(id) > 0);
    }
}

} // verus!
