use vstd::prelude::*;

use crate::data::Token;
use crate::error::{Error, Result};

verus! {

/// The lowest protocol version probed by default.
pub const FIRST_CORE_VERSION: usize = 45;

/// One past the highest protocol version probed by default.
pub const CORE_VERSION_END: usize = 100;

/// The HTTP status of success.
pub const STATUS_OK: u16 = 200;

/// The decimal digit `d` (below ten) as a character.
pub open spec fn digit_char(d: int) -> char {
    ((48 + d) as u8) as char
}

/// The three decimal digits of a status code between 100 and 999.
pub open spec fn status_digits(code: u16) -> Seq<char> {
    let c = code as int;
    seq![digit_char(c / 100), digit_char((c / 10) % 10), digit_char(c % 10)]
}

/// How the HTTP library renders a status code as text.
pub uninterp spec fn status_text_of(code: u16) -> Seq<char>;

/// Relies on reqwest's `StatusCode` (from the `http` crate): `from_u16` accepts
/// the codes from 100 to 999, and its `Display` writes the three digits, a space
/// and the reason phrase (or a placeholder for an unregistered code).
#[verifier::external_body]
fn status_text(code: u16) -> (r: String)
    ensures
        r@ == status_text_of(code),
        100 <= code <= 999 ==> r@.len() > 3 && r@.subrange(0, 3) == status_digits(code),
{
    match reqwest::StatusCode::from_u16(code) {
        Ok(s) => s.to_string(),
        Err(_) => String::new(),
    }
}

/// The error for a response with status `code`: none for success, else an
/// API rejection that names the status.
pub fn check_status(code: u16) -> (r: Result<()>)
    ensures
        code == STATUS_OK <==> r is Ok,
        code != STATUS_OK ==> (r matches Err(Error::InvalidAPIResponse(t)) && t@ == status_text_of(
            code,
        ) && (100 <= code <= 999 ==> t@.len() > 3 && t@.subrange(0, 3) == status_digits(code))),
{
    if code != STATUS_OK {
        return Err(Error::InvalidAPIResponse(status_text(code)));
    }
    Ok(())
}

/// A request for the transport to perform.
pub enum Request {
    /// Form-encoded login with the user's credentials.
    Login { username: String, password: String },
    /// The activity listing, authorised by a bearer value and tagged with a
    /// protocol version (the same request serves as a version probe).
    Activity { auth: String, core_version: usize },
}

/// A logged-in session with the protocol version the service accepted.
#[derive(Clone, Debug)]
pub struct StarRealms {
    pub token: Token,
    core_version: usize,
}

impl StarRealms {
    /// The session's token.
    pub closed spec fn spec_token(&self) -> Token {
        self.token
    }

    /// The protocol version found at bootstrap; it never changes afterwards.
    pub closed spec fn spec_core_version(&self) -> usize {
        self.core_version
    }

    /// The protocol version found at bootstrap.
    pub fn core_version(&self) -> (r: usize)
        ensures
            r == self.spec_core_version(),
    {
        self.core_version
    }

    /// The request that fetches the current activity of this session.
    pub fn activity_request(&self) -> (r: Request)
        ensures
            r matches Request::Activity { auth, core_version } && auth@ == self.spec_token().token2@
                && core_version == self.spec_core_version(),
    {
        Request::Activity { auth: self.token.token2.clone(), core_version: self.core_version }
    }

    /// Whether a response with status `code` to the activity request may be
    /// decoded as an activity; any other status is an API rejection.
    pub fn activity_status(&self, code: u16) -> (r: Result<()>)
        ensures
            code == STATUS_OK <==> r is Ok,
            code != STATUS_OK ==> (r matches Err(Error::InvalidAPIResponse(t)) && t@
                == status_text_of(code)),
    {
        check_status(code)
    }
}

/// Where a bootstrap stands.
#[derive(Clone, Copy, Debug, PartialEq, Eq, Structural)]
pub enum Phase {
    /// The login request is out.
    Login,
    /// Login succeeded; the response body is to be read as a token.
    ReadToken,
    /// The probe with this protocol version is out.
    Probe(usize),
    /// This protocol version was accepted; the session was handed out.
    Found(usize),
    /// No protocol version in the range was accepted.
    Exhausted,
    /// Login was rejected, the transport failed, or an event came out of turn.
    Failed,
}

/// What the transport reports back for the last request.
pub enum Event {
    /// The response arrived with this status.
    Status(u16),
    /// The login response body, decoded.
    Token(Token),
    /// The transport failed, or a body did not decode; its description.
    Transport(String),
}

/// What the transport is to do next.
pub enum Action {
    Send(Request),
    /// Decode the body of the login response as a token and report it.
    ReadToken,
    /// Bootstrap is complete.
    Done(StarRealms),
    /// Bootstrap failed.
    Fail(Error),
}

impl Phase {
    /// A phase after which every event is out of turn.
    pub open spec fn is_terminal(self) -> bool {
        self matches Phase::Found(_) || self matches Phase::Exhausted || self matches Phase::Failed
    }
}

/// The first probing phase of the range `first..end`, or exhaustion when the
/// range is empty.
pub open spec fn probe_from(first: usize, end: usize) -> Phase {
    if first < end {
        Phase::Probe(first)
    } else {
        Phase::Exhausted
    }
}

/// The phase that `event` leads to from `phase`, probing up to `end`.
pub open spec fn next_phase(phase: Phase, first: usize, end: usize, event: Event) -> Phase {
    match phase {
        Phase::Login => match event {
            Event::Status(c) => if c == STATUS_OK {
                Phase::ReadToken
            } else {
                Phase::Failed
            },
            _ => Phase::Failed,
        },
        Phase::ReadToken => match event {
            Event::Token(_) => probe_from(first, end),
            _ => Phase::Failed,
        },
        Phase::Probe(v) => match event {
            Event::Status(c) => if c == STATUS_OK {
                Phase::Found(v)
            } else if v + 1 < end {
                Phase::Probe((v + 1) as usize)
            } else {
                Phase::Exhausted
            },
            _ => Phase::Failed,
        },
        _ => phase,
    }
}

/// The phase reached from `phase` after the events `events`, in order.
pub open spec fn run(phase: Phase, first: usize, end: usize, events: Seq<Event>) -> Phase
    decreases events.len(),
{
    if events.len() == 0 {
        phase
    } else {
        run(next_phase(phase, first, end, events[0]), first, end, events.drop_first())
    }
}

/// Each status as the event that reports it.
pub open spec fn status_events(statuses: Seq<u16>) -> Seq<Event> {
    Seq::new(statuses.len(), |i: int| Event::Status(statuses[i]))
}

/// Once failed, a bootstrap stays failed whatever is reported to it.
pub proof fn lemma_failed_is_final(first: usize, end: usize, events: Seq<Event>)
    ensures
        run(Phase::Failed, first, end, events) == Phase::Failed,
    decreases events.len(),
{
    if events.len() > 0 {
        lemma_failed_is_final(first, end, events.drop_first());
    }
}

/// If no probed version gets a 200 response, probing from any version `v` of
/// the range to its end fails with an unknown protocol version, and no
/// version is adopted on the way.
pub proof fn lemma_no_accepted_version_exhausts(
    v: usize,
    first: usize,
    end: usize,
    statuses: Seq<u16>,
)
    requires
        first <= v < end,
        statuses.len() == end - v,
        forall|i: int| 0 <= i < statuses.len() ==> statuses[i] != STATUS_OK,
    ensures
        run(Phase::Probe(v), first, end, status_events(statuses)) == Phase::Exhausted,
        forall|k: int|
            0 <= k <= statuses.len() ==> !(run(
                Phase::Probe(v),
                first,
                end,
                status_events(statuses).take(k),
            ) is Found),
    decreases statuses.len(),
{
    let evs = status_events(statuses);
    assert(evs[0] == Event::Status(statuses[0]));
    assert(statuses[0] != STATUS_OK);
    assert(evs.len() > 0);
    assert(run(Phase::Probe(v), first, end, evs) == run(
        next_phase(Phase::Probe(v), first, end, evs[0]),
        first,
        end,
        evs.drop_first(),
    ));
    if v + 1 < end {
        assert(next_phase(Phase::Probe(v), first, end, evs[0]) == Phase::Probe((v + 1) as usize));
        let rest = statuses.drop_first();
        lemma_no_accepted_version_exhausts((v + 1) as usize, first, end, rest);
        assert(evs.drop_first() =~= status_events(rest));
        assert forall|k: int| 0 <= k <= statuses.len() implies !(run(
            Phase::Probe(v),
            first,
            end,
            evs.take(k),
        ) is Found) by {
            let t = evs.take(k);
            if k > 0 {
                assert(t.drop_first() =~= status_events(rest).take(k - 1));
                assert(t[0] == evs[0]);
            } else {
                assert(t.len() == 0);
            }
        }
    } else {
        assert(evs.drop_first().len() == 0);
        assert forall|k: int| 0 <= k <= statuses.len() implies !(run(
            Phase::Probe(v),
            first,
            end,
            evs.take(k),
        ) is Found) by {
            let t = evs.take(k);
            if k > 0 {
                assert(t[0] == evs[0]);
                assert(t.drop_first().len() == 0);
                assert(next_phase(Phase::Probe(v), first, end, t[0]) == Phase::Exhausted);
                assert(run(Phase::Probe(v), first, end, t) == run(
                    Phase::Exhausted,
                    first,
                    end,
                    t.drop_first(),
                ));
            } else {
                assert(t.len() == 0);
            }
        }
    }
}

/// A bootstrap whose token was decoded, and whose every probe is refused,
/// ends with an unknown protocol version.
pub proof fn lemma_bootstrap_without_accepted_version_fails(
    first: usize,
    end: usize,
    token: Token,
    statuses: Seq<u16>,
)
    requires
        first <= end,
        statuses.len() == end - first,
        forall|i: int| 0 <= i < statuses.len() ==> statuses[i] != STATUS_OK,
    ensures
        run(
            Phase::ReadToken,
            first,
            end,
            seq![Event::Token(token)] + status_events(statuses),
        ) == Phase::Exhausted,
{
    let evs = seq![Event::Token(token)] + status_events(statuses);
    assert(evs[0] == Event::Token(token));
    assert(evs.drop_first() =~= status_events(statuses));
    assert(run(Phase::ReadToken, first, end, evs) == run(
        probe_from(first, end),
        first,
        end,
        status_events(statuses),
    ));
    if first < end {
        lemma_no_accepted_version_exhausts(first, first, end, statuses);
    } else {
        assert(status_events(statuses).len() == 0);
    }
}

/// A login rejected with any status other than 200 fails the bootstrap, and
/// whatever is reported afterwards, no probe is ever sent: the bootstrap stays
/// failed after every later event.
pub proof fn lemma_rejected_login_never_probes(
    first: usize,
    end: usize,
    code: u16,
    events: Seq<Event>,
)
    requires
        code != STATUS_OK,
    ensures
        forall|k: int|
            1 <= k <= events.len() + 1 ==> run(
                Phase::Login,
                first,
                end,
                (seq![Event::Status(code)] + events).take(k),
            ) == Phase::Failed,
{
    let all = seq![Event::Status(code)] + events;
    assert forall|k: int| 1 <= k <= events.len() + 1 implies run(
        Phase::Login,
        first,
        end,
        all.take(k),
    ) == Phase::Failed by {
        assert(all.take(k)[0] == Event::Status(code));
        lemma_failed_is_final(first, end, all.take(k).drop_first());
    }
}

/// The bootstrap of a session: login (unless a token is given), then probing
/// the protocol versions `first..end` in ascending order until one is accepted.
pub struct Bootstrap {
    token: Token,
    phase: Phase,
    first: usize,
    end: usize,
}

impl Bootstrap {
    pub closed spec fn spec_token(&self) -> Token {
        self.token
    }

    pub closed spec fn spec_phase(&self) -> Phase {
        self.phase
    }

    pub closed spec fn spec_first(&self) -> usize {
        self.first
    }

    pub closed spec fn spec_end(&self) -> usize {
        self.end
    }

    /// The range is well formed, and a probe is only ever out for a version of it.
    pub closed spec fn wf(&self) -> bool {
        &&& self.first <= self.end
        &&& self.phase matches Phase::Probe(v) ==> self.first <= v < self.end
    }

    /// Where the bootstrap stands.
    pub fn phase(&self) -> (r: Phase)
        ensures
            r == self.spec_phase(),
    {
        self.phase
    }

    /// Starts from the bearer value of `self.token`: the first probe, or
    /// exhaustion when the range is empty.
    fn start_probing(&mut self) -> (r: Action)
        requires
            old(self).first <= old(self).end,
        ensures
            final(self).token == old(self).token,
            final(self).first == old(self).first,
            final(self).end == old(self).end,
            final(self).phase == probe_from(old(self).first, old(self).end),
            final(self).wf(),
            final(self).phase matches Phase::Probe(v) ==> (r matches Action::Send(
                Request::Activity { auth, core_version },
            ) && auth@ == final(self).token.token2@ && core_version == v),
            final(self).phase is Exhausted ==> (r matches Action::Fail(Error::UnknownCoreVersion())),
    {
        if self.first < self.end {
            self.phase = Phase::Probe(self.first);
            Action::Send(
                Request::Activity { auth: self.token.token2.clone(), core_version: self.first },
            )
        } else {
            self.phase = Phase::Exhausted;
            Action::Fail(Error::UnknownCoreVersion())
        }
    }

    /// A bootstrap that logs in with `username` and `password` and then probes
    /// `first..end`; the returned action sends the login. The password is not kept.
    pub fn with_credentials(username: &str, password: &str, first: usize, end: usize) -> (r: (
        Bootstrap,
        Action,
    ))
        requires
            first <= end,
        ensures
            r.0.wf(),
            r.0.spec_token().is_blank(),
            r.0.spec_phase() == Phase::Login,
            r.0.spec_first() == first,
            r.0.spec_end() == end,
            r.1 matches Action::Send(Request::Login { username: u, password: p }) && u@
                == username@ && p@ == password@,
    {
        let b = Bootstrap { token: Token::default(), phase: Phase::Login, first, end };
        let a = Action::Send(
            Request::Login { username: username.to_string(), password: password.to_string() },
        );
        (b, a)
    }

    /// A bootstrap from a full token, which goes straight to probing `first..end`.
    pub fn with_token(token: Token, first: usize, end: usize) -> (r: (Bootstrap, Action))
        requires
            first <= end,
        ensures
            r.0.wf(),
            r.0.spec_token() == token,
            r.0.spec_first() == first,
            r.0.spec_end() == end,
            r.0.spec_phase() == probe_from(first, end),
            first < end ==> (r.1 matches Action::Send(Request::Activity { auth, core_version })
                && auth@ == token.token2@ && core_version == first),
            first == end ==> (r.1 matches Action::Fail(Error::UnknownCoreVersion())),
    {
        let mut b = Bootstrap { token, phase: Phase::Login, first, end };
        let a = b.start_probing();
        (b, a)
    }

    /// A bootstrap from the bearer value alone (every other token field empty or
    /// zero), which goes straight to probing `first..end`.
    pub fn with_token2_str(token2: &str, first: usize, end: usize) -> (r: (Bootstrap, Action))
        requires
            first <= end,
        ensures
            r.0.wf(),
            r.0.spec_token().token2@ == token2@,
            r.0.spec_token().username@.len() == 0,
            r.0.spec_token().id == 0,
            r.0.spec_token().token1@.len() == 0,
            r.0.spec_token().purchases@.len() == 0,
            r.0.spec_first() == first,
            r.0.spec_end() == end,
            r.0.spec_phase() == probe_from(first, end),
            first < end ==> (r.1 matches Action::Send(Request::Activity { auth, core_version })
                && auth@ == token2@ && core_version == first),
            first == end ==> (r.1 matches Action::Fail(Error::UnknownCoreVersion())),
    {
        Bootstrap::with_token(Token::from_token2(token2), first, end)
    }

    /// Takes the transport's report on the last request and says what to do next.
    /// A login response other than 200 fails with the status; a decoded token
    /// starts the probes; a probe answered with 200 completes the session with
    /// that version, any other status moves to the next version, and past the
    /// last one the bootstrap fails with an unknown protocol version. A transport
    /// failure ends the bootstrap at once, and so does an event out of turn.
    pub fn step(&mut self, event: Event) -> (r: Action)
        requires
            old(self).wf(),
        ensures
            final(self).wf(),
            final(self).spec_first() == old(self).spec_first(),
            final(self).spec_end() == old(self).spec_end(),
            final(self).spec_phase() == next_phase(
                old(self).spec_phase(),
                old(self).spec_first(),
                old(self).spec_end(),
                event,
            ),
            (old(self).spec_phase() is ReadToken && event is Token) ==> final(self).spec_token()
                == event->Token_0,
            !(old(self).spec_phase() is ReadToken && event is Token) && !(old(self).spec_phase() is Probe
                && final(self).spec_phase() is Found) ==> final(self).spec_token() == old(self).spec_token(),
            old(self).spec_phase().is_terminal() ==> (r matches Action::Fail(Error::Unknown)),
            !old(self).spec_phase().is_terminal() ==> match final(self).spec_phase() {
                Phase::ReadToken => r is ReadToken,
                Phase::Probe(v) => r matches Action::Send(Request::Activity { auth, core_version })
                    && auth@ == final(self).spec_token().token2@ && core_version == v,
                Phase::Found(v) => r matches Action::Done(s) && s.spec_token()
                    == old(self).spec_token() && s.spec_core_version() == v,
                Phase::Exhausted => r matches Action::Fail(Error::UnknownCoreVersion()),
                Phase::Failed => match event {
                    Event::Status(c) => r matches Action::Fail(Error::InvalidAPIResponse(t)) && t@
                        == status_text_of(c) && (100 <= c <= 999 ==> t@.len() > 3 && t@.subrange(
                        0,
                        3,
                    ) == status_digits(c)),
                    Event::Transport(m) => r matches Action::Fail(Error::ReqwestError(e)) && e@
                        == m@,
                    Event::Token(_) => r matches Action::Fail(Error::Unknown),
                },
                Phase::Login => false,
            },
    {
        match self.phase {
            Phase::Login => match event {
                Event::Status(c) => {
                    if c == STATUS_OK {
                        self.phase = Phase::ReadToken;
                        Action::ReadToken
                    } else {
                        self.phase = Phase::Failed;
                        Action::Fail(Error::InvalidAPIResponse(status_text(c)))
                    }
                },
                Event::Token(_) => {
                    self.phase = Phase::Failed;
                    Action::Fail(Error::Unknown)
                },
                Event::Transport(m) => {
                    self.phase = Phase::Failed;
                    Action::Fail(Error::ReqwestError(m))
                },
            },
            Phase::ReadToken => match event {
                Event::Token(t) => {
                    self.token = t;
                    self.start_probing()
                },
                Event::Status(c) => {
                    self.phase = Phase::Failed;
                    Action::Fail(Error::InvalidAPIResponse(status_text(c)))
                },
                Event::Transport(m) => {
                    self.phase = Phase::Failed;
                    Action::Fail(Error::ReqwestError(m))
                },
            },
            Phase::Probe(v) => match event {
                Event::Status(c) => {
                    if c == STATUS_OK {
                        self.phase = Phase::Found(v);
                        let mut token = Token::default();
                        std::mem::swap(&mut token, &mut self.token);
                        Action::Done(StarRealms { token, core_version: v })
                    } else if v + 1 < self.end {
                        self.phase = Phase::Probe(v + 1);
                        Action::Send(
                            Request::Activity {
                                auth: self.token.token2.clone(),
                                core_version: v + 1,
                            },
                        )
                    } else {
                        self.phase = Phase::Exhausted;
                        Action::Fail(Error::UnknownCoreVersion())
                    }
                },
                Event::Token(_) => {
                    self.phase = Phase::Failed;
                    Action::Fail(Error::Unknown)
                },
                Event::Transport(m) => {
                    self.phase = Phase::Failed;
                    Action::Fail(Error::ReqwestError(m))
                },
            },
            _ => Action::Fail(Error::Unknown),
        }
    }
}

} // verus!
