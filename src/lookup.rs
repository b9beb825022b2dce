//! The cache-aside lookup protocol over a fast in-process tier, a durable tier
//! and an upstream provider.
//!
//! A lookup is a small state machine. The caller creates a [`LookupRequest`]
//! for a subject, performs each [`TierAction`] it is handed, and feeds back what
//! happened as a [`TierEvent`], until the action is a terminal one. The machine
//! decides nothing else: it reads the fast tier, then the durable tier, then
//! calls upstream, and says which tiers to fill with the value that answered.

use vstd::prelude::*;

verus! {

/// How far a lookup has got.
#[derive(PartialEq, Eq, Structural, Clone, Copy, Debug)]
pub enum LookupPhase {
    /// Waiting for the answer of the fast tier.
    FastTier,
    /// Waiting for the answer of the durable tier.
    DurableTier,
    /// Waiting for the upstream provider.
    Upstream,
    /// A terminal action has been handed out.
    Done,
}

/// Why an upstream call failed. Both kinds reach the caller of a lookup as the
/// same failure; they differ only in what is logged.
#[derive(PartialEq, Eq, Structural, Clone, Copy, Debug)]
pub enum UpstreamError {
    /// The connection failed or timed out.
    Transport,
    /// The response body did not decode.
    Decode,
}

/// What the tier that was asked answered.
pub enum TierEvent<V> {
    FastHit(V),
    FastMiss,
    DurableHit(V),
    DurableMiss,
    /// The durable tier could not be read; this counts as a miss.
    DurableUnavailable,
    Fetched(V),
    FetchFailed(UpstreamError),
}

/// What the caller must do next.
pub enum TierAction<V> {
    /// Read the fast tier for the subject.
    ReadFast,
    /// Read the durable tier for the subject.
    ReadDurable,
    /// Call the upstream provider for the subject.
    CallUpstream,
    /// Return the value, which the fast tier held.
    Reply(V),
    /// Put the value, which the durable tier held, into the fast tier and
    /// return it.
    BackfillAndReply(V),
    /// Put the value, which upstream returned, into the fast tier, start a
    /// background write of it to the durable tier, and return it.
    WriteThroughAndReply(V),
    /// Return the lookup failure; no tier is written.
    Fail,
}

impl<V> TierAction<V> {
    pub open spec fn is_terminal(self) -> bool {
        match self {
            TierAction::ReadFast | TierAction::ReadDurable | TierAction::CallUpstream => false,
            _ => true,
        }
    }

    /// Whether the caller is done with this lookup.
    pub fn terminal(&self) -> (r: bool)
        ensures
            r == self.is_terminal(),
    {
        match self {
            TierAction::ReadFast | TierAction::ReadDurable | TierAction::CallUpstream => false,
            _ => true,
        }
    }
}

/// The next phase and action after `event` in `phase`. An event that the phase
/// does not wait for ends the lookup with a failure.
pub open spec fn transition<V>(phase: LookupPhase, event: TierEvent<V>) -> (LookupPhase, TierAction<V>) {
    match (phase, event) {
        (LookupPhase::FastTier, TierEvent::FastHit(v)) => (LookupPhase::Done, TierAction::Reply(v)),
        (LookupPhase::FastTier, TierEvent::FastMiss) => (LookupPhase::DurableTier, TierAction::ReadDurable),
        (LookupPhase::DurableTier, TierEvent::DurableHit(v)) => (LookupPhase::Done, TierAction::BackfillAndReply(v)),
        (LookupPhase::DurableTier, TierEvent::DurableMiss) => (LookupPhase::Upstream, TierAction::CallUpstream),
        (LookupPhase::DurableTier, TierEvent::DurableUnavailable) => (LookupPhase::Upstream, TierAction::CallUpstream),
        (LookupPhase::Upstream, TierEvent::Fetched(v)) => (LookupPhase::Done, TierAction::WriteThroughAndReply(v)),
        (LookupPhase::Upstream, TierEvent::FetchFailed(_)) => (LookupPhase::Done, TierAction::Fail),
        _ => (LookupPhase::Done, TierAction::Fail),
    }
}

/// One lookup in progress.
pub struct LookupRequest {
    pub subject: String,
    pub phase: LookupPhase,
}

impl LookupRequest {
    /// Starts a lookup of `subject`; the first action is to read the fast tier.
    pub fn new<V>(subject: String) -> (r: (LookupRequest, TierAction<V>))
        ensures
            r.0.subject@ == subject@,
            r.0.phase == LookupPhase::FastTier,
            r.1 is ReadFast,
    {
        (LookupRequest { subject, phase: LookupPhase::FastTier }, TierAction::ReadFast)
    }

    /// Takes what the last action produced and returns the next action.
    pub fn advance<V>(&mut self, event: TierEvent<V>) -> (r: TierAction<V>)
        ensures
            final(self).subject@ == old(self).subject@,
            (final(self).phase, r) == transition(old(self).phase, event),
    {
        let (phase, action) = match (self.phase, event) {
            (LookupPhase::FastTier, TierEvent::FastHit(v)) => (LookupPhase::Done, TierAction::Reply(v)),
            (LookupPhase::FastTier, TierEvent::FastMiss) => (LookupPhase::DurableTier, TierAction::ReadDurable),
            (LookupPhase::DurableTier, TierEvent::DurableHit(v)) => (LookupPhase::Done, TierAction::BackfillAndReply(v)),
            (LookupPhase::DurableTier, TierEvent::DurableMiss) => (LookupPhase::Upstream, TierAction::CallUpstream),
            (LookupPhase::DurableTier, TierEvent::DurableUnavailable) => (LookupPhase::Upstream, TierAction::CallUpstream),
            (LookupPhase::Upstream, TierEvent::Fetched(v)) => (LookupPhase::Done, TierAction::WriteThroughAndReply(v)),
            (LookupPhase::Upstream, TierEvent::FetchFailed(_)) => (LookupPhase::Done, TierAction::Fail),
            _ => (LookupPhase::Done, TierAction::Fail),
        };
        self.phase = phase;
        action
    }
}

/// The subject under which a domain is looked up: the address `a@<domain>`.
pub open spec fn domain_key(domain: Seq<char>) -> Seq<char> {
    seq!['a', '@'] + domain
}

/// The subject under which `domain` is looked up.
pub fn domain_subject(domain: &str) -> (r: String)
    ensures
        r@ == domain_key(domain@),
{
    let mut s = String::from_str("a@");
    proof {
        reveal_strlit("a@");
    }
    s.append(domain);
    s
}

/// The address of the breach provider's account search for `subject`.
pub fn account_url(base: &str, subject: &str) -> (r: String)
    ensures
        r@ == base@ + "/"@ + subject@ + "?truncateResponse=false"@,
{
    let mut url = String::from_str(base);
    url.append("/");
    url.append(subject);
    url.append("?truncateResponse=false");
    url
}

// ---------------------------------------------------------------------------
// A model of both tiers, to state what a whole lookup does to them.

/// What each tier holds: unexpired entries of the fast tier, and the durable
/// records whose background writes have landed.
pub struct Tiers<V> {
    pub fast: Map<Seq<char>, V>,
    pub durable: Map<Seq<char>, V>,
}

/// The result of a whole lookup: what the caller got, what the tiers hold
/// afterwards, and how many upstream calls it made.
pub struct Served<V> {
    pub reply: Option<V>,
    pub tiers: Tiers<V>,
    pub upstream_calls: nat,
}

/// What the tiers answer to `action` for `subject`, with `fetched` as what the
/// upstream provider returns.
pub open spec fn answer<V>(
    tiers: Tiers<V>,
    subject: Seq<char>,
    action: TierAction<V>,
    fetched: Result<V, UpstreamError>,
) -> TierEvent<V> {
    match action {
        TierAction::ReadFast => if tiers.fast.contains_key(subject) {
            TierEvent::FastHit(tiers.fast[subject])
        } else {
            TierEvent::FastMiss
        },
        TierAction::ReadDurable => if tiers.durable.contains_key(subject) {
            TierEvent::DurableHit(tiers.durable[subject])
        } else {
            TierEvent::DurableMiss
        },
        _ => match fetched {
            Ok(v) => TierEvent::Fetched(v),
            Err(e) => TierEvent::FetchFailed(e),
        },
    }
}

/// The tiers after a terminal action for `subject` has been carried out.
pub open spec fn settle<V>(tiers: Tiers<V>, subject: Seq<char>, action: TierAction<V>) -> Tiers<V> {
    match action {
        TierAction::BackfillAndReply(v) => Tiers { fast: tiers.fast.insert(subject, v), durable: tiers.durable },
        TierAction::WriteThroughAndReply(v) => Tiers {
            fast: tiers.fast.insert(subject, v),
            durable: tiers.durable.insert(subject, v),
        },
        _ => tiers,
    }
}

pub open spec fn reply_of<V>(action: TierAction<V>) -> Option<V> {
    match action {
        TierAction::Reply(v) => Some(v),
        TierAction::BackfillAndReply(v) => Some(v),
        TierAction::WriteThroughAndReply(v) => Some(v),
        _ => None,
    }
}

pub open spec fn phase_rank(phase: LookupPhase) -> nat {
    match phase {
        LookupPhase::FastTier => 3,
        LookupPhase::DurableTier => 2,
        LookupPhase::Upstream => 1,
        LookupPhase::Done => 0,
    }
}

/// Runs the machine from `phase` and `action` against the tiers until a
/// terminal action, counting upstream calls on top of `calls`.
pub open spec fn drive<V>(
    tiers: Tiers<V>,
    subject: Seq<char>,
    phase: LookupPhase,
    action: TierAction<V>,
    fetched: Result<V, UpstreamError>,
    calls: nat,
) -> Served<V>
    decreases phase_rank(phase),
{
    if action.is_terminal() || phase == LookupPhase::Done {
        Served { reply: reply_of(action), tiers: settle(tiers, subject, action), upstream_calls: calls }
    } else {
        let next = transition(phase, answer(tiers, subject, action, fetched));
        let called: nat = if action is CallUpstream { 1 } else { 0 };
        if phase_rank(next.0) < phase_rank(phase) {
            drive(tiers, subject, next.0, next.1, fetched, calls + called)
        } else {
            // not reached: every answer moves the machine to a lower phase
            Served { reply: None, tiers, upstream_calls: calls + called }
        }
    }
}

/// A whole lookup of `subject`, from a fresh request.
pub open spec fn serve<V>(tiers: Tiers<V>, subject: Seq<char>, fetched: Result<V, UpstreamError>) -> Served<V> {
    drive(tiers, subject, LookupPhase::FastTier, TierAction::ReadFast, fetched, 0)
}

/// A lookup of a subject that is in neither tier calls upstream once; on
/// success it returns the value and leaves it in both tiers.
pub proof fn lemma_miss_writes_through<V>(tiers: Tiers<V>, subject: Seq<char>, value: V)
    requires
        !tiers.fast.contains_key(subject),
        !tiers.durable.contains_key(subject),
    ensures
        serve(tiers, subject, Ok(value)).reply == Some(value),
        serve(tiers, subject, Ok(value)).upstream_calls == 1,
        serve(tiers, subject, Ok(value)).tiers.fast.contains_key(subject),
        serve(tiers, subject, Ok(value)).tiers.fast[subject] == value,
        serve(tiers, subject, Ok(value)).tiers.durable.contains_key(subject),
        serve(tiers, subject, Ok(value)).tiers.durable[subject] == value,
{
    reveal_with_fuel(drive, 4);
}

/// Two lookups of a subject in neither tier, with upstream returning `value`,
/// make one upstream call between them and both return `value`.
pub proof fn lemma_repeat_lookup_hits_cache<V>(
    tiers: Tiers<V>,
    subject: Seq<char>,
    value: V,
    fetched_again: Result<V, UpstreamError>,
)
    requires
        !tiers.fast.contains_key(subject),
        !tiers.durable.contains_key(subject),
    ensures
        ({
            let first = serve(tiers, subject, Ok(value));
            let second = serve(first.tiers, subject, fetched_again);
            &&& first.upstream_calls + second.upstream_calls == 1
            &&& first.reply == Some(value)
            &&& second.reply == Some(value)
        }),
{
    reveal_with_fuel(drive, 4);
    lemma_miss_writes_through(tiers, subject, value);
}

/// A subject that only the durable tier holds is answered from it with no
/// upstream call, and the next lookup is answered by the fast tier, with no
/// upstream call either.
pub proof fn lemma_durable_backfills_fast<V>(
    tiers: Tiers<V>,
    subject: Seq<char>,
    fetched: Result<V, UpstreamError>,
    fetched_again: Result<V, UpstreamError>,
)
    requires
        !tiers.fast.contains_key(subject),
        tiers.durable.contains_key(subject),
    ensures
        ({
            let first = serve(tiers, subject, fetched);
            let second = serve(first.tiers, subject, fetched_again);
            &&& first.reply == Some(tiers.durable[subject])
            &&& first.upstream_calls == 0
            &&& first.tiers.fast.contains_key(subject)
            &&& first.tiers.fast[subject] == tiers.durable[subject]
            &&& second.reply == Some(tiers.durable[subject])
            &&& second.upstream_calls == 0
        }),
{
    reveal_with_fuel(drive, 4);
}

/// A failed upstream call leaves both tiers without the subject, so the next
/// lookup calls upstream again.
pub proof fn lemma_failure_leaves_tiers_clean<V>(
    tiers: Tiers<V>,
    subject: Seq<char>,
    error: UpstreamError,
    fetched_again: Result<V, UpstreamError>,
)
    requires
        !tiers.fast.contains_key(subject),
        !tiers.durable.contains_key(subject),
    ensures
        ({
            let first = serve(tiers, subject, Err(error));
            let second = serve(first.tiers, subject, fetched_again);
            &&& first.reply is None
            &&& first.upstream_calls == 1
            &&& first.tiers == tiers
            &&& !first.tiers.fast.contains_key(subject)
            &&& !first.tiers.durable.contains_key(subject)
            &&& second.upstream_calls == 1
        }),
{
    reveal_with_fuel(drive, 4);
}

/// A domain lookup is the lookup of the address `a@<domain>`: whatever the
/// tiers hold and upstream returns, the two give the same reply, tiers and
/// number of upstream calls.
pub proof fn lemma_domain_is_email_lookup<V>(
    tiers: Tiers<V>,
    domain: Seq<char>,
    email: Seq<char>,
    fetched: Result<V, UpstreamError>,
)
    requires
        email == seq!['a', '@'] + domain,
    ensures
        serve(tiers, domain_key(domain), fetched) == serve(tiers, email, fetched),
{
}

} // verus!
