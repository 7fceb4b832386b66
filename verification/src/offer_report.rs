//! Tallies of the outcomes of offering state content to peers.
//!
//! The global report counts every offer of a long-running state bridge. The
//! per-key reports collect the peers of each outcome; the granular one also
//! decides whether the bridge should offer the key to one more peer.
use vstd::prelude::*;

verus! {

/// Number of peers a content key is first offered to, and below which it is
/// not offered at all.
pub const BASE_TOTAL: usize = 2;

/// Outcome of offering a content key to one peer.
#[derive(Clone, Copy, Debug, PartialEq, Eq)]
pub enum OfferTrace {
    /// The peer accepted the content.
    Success,
    /// The offer could not be completed.
    Failed,
    /// The peer declined the content.
    Declined,
}

/// How one attempt to offer a content key to a peer ended.
#[derive(Clone, Copy, Debug, PartialEq, Eq)]
pub enum OfferAttempt {
    /// The peer answered; this is the outcome it reported.
    Answered(OfferTrace),
    /// The request failed.
    Errored,
    /// No answer came in time.
    TimedOut,
}

/// The outcome recorded for an offer attempt: the reported one when the peer
/// answered, a failure otherwise.
pub fn offer_trace_of(attempt: OfferAttempt) -> (trace: OfferTrace)
    ensures
        trace == (match attempt {
            OfferAttempt::Answered(t) => t,
            _ => OfferTrace::Failed,
        }),
{
    match attempt {
        OfferAttempt::Answered(t) => t,
        OfferAttempt::Errored => OfferTrace::Failed,
        OfferAttempt::TimedOut => OfferTrace::Failed,
    }
}

/// Abstract contents of a `GlobalOfferReport`.
pub struct OfferTally {
    pub success: usize,
    pub failed: usize,
    pub declined: usize,
}

/// The tally after one more offer with outcome `trace`.
pub open spec fn tally_after(t: OfferTally, trace: OfferTrace) -> OfferTally {
    match trace {
        OfferTrace::Success => OfferTally { success: (t.success + 1) as usize, ..t },
        OfferTrace::Failed => OfferTally { failed: (t.failed + 1) as usize, ..t },
        OfferTrace::Declined => OfferTally { declined: (t.declined + 1) as usize, ..t },
    }
}

/// The counter of `t` that an offer with outcome `trace` increments.
pub open spec fn tally_count(t: OfferTally, trace: OfferTrace) -> usize {
    match trace {
        OfferTrace::Success => t.success,
        OfferTrace::Failed => t.failed,
        OfferTrace::Declined => t.declined,
    }
}

/// Total and percentages of a global report.
#[derive(Clone, Copy, Debug, PartialEq, Eq)]
pub struct GlobalOfferSummary {
    pub total: usize,
    pub success: usize,
    pub success_percent: usize,
    pub declined: usize,
    pub declined_percent: usize,
    pub failed: usize,
    pub failed_percent: usize,
}

/// The summary of a tally with at least one offer.
pub open spec fn global_summary_of(t: OfferTally) -> GlobalOfferSummary {
    let total = t.success + t.failed + t.declined;
    GlobalOfferSummary {
        total: total as usize,
        success: t.success,
        success_percent: (100 * t.success / total) as usize,
        declined: t.declined,
        declined_percent: (100 * t.declined / total) as usize,
        failed: t.failed,
        failed_percent: (100 * t.failed / total) as usize,
    }
}

/// A tally whose summary can be computed without overflow.
pub open spec fn tally_reportable(t: OfferTally) -> bool {
    &&& t.success + t.failed + t.declined <= usize::MAX
    &&& 100 * t.success <= usize::MAX
    &&& 100 * t.declined <= usize::MAX
    &&& 100 * t.failed <= usize::MAX
}

/// Global report for outcomes of offering state content keys from a
/// long-running state bridge.
pub struct GlobalOfferReport {
    success: usize,
    failed: usize,
    declined: usize,
}

impl View for GlobalOfferReport {
    type V = OfferTally;

    closed spec fn view(&self) -> OfferTally {
        OfferTally { success: self.success, failed: self.failed, declined: self.declined }
    }
}

impl core::default::Default for GlobalOfferReport {
    fn default() -> (r: Self)
        ensures
            r@ == (OfferTally { success: 0, failed: 0, declined: 0 }),
    {
        GlobalOfferReport { success: 0, failed: 0, declined: 0 }
    }
}

impl GlobalOfferReport {
    /// Counts one more offer with outcome `trace`.
    pub fn update(&mut self, trace: &OfferTrace)
        requires
            tally_count(old(self)@, *trace) < usize::MAX,
        ensures
            final(self)@ == tally_after(old(self)@, *trace),
    {
        match trace {
            OfferTrace::Success => self.success = self.success + 1,
            OfferTrace::Failed => self.failed = self.failed + 1,
            OfferTrace::Declined => self.declined = self.declined + 1,
        }
    }

    /// Whether the counts are small enough for `report` to compute the total
    /// and the percentages.
    pub fn is_reportable(&self) -> (b: bool)
        ensures
            b == tally_reportable(self@),
    {
        let max_share: usize = usize::MAX / 100;
        self.success <= usize::MAX - self.failed && self.success + self.failed <= usize::MAX
            - self.declined && self.success <= max_share && self.declined <= max_share
            && self.failed <= max_share
    }

    /// The total and the share of each outcome, in whole percent rounded
    /// down; `None` before any offer.
    pub fn report(&self) -> (summary: Option<GlobalOfferSummary>)
        requires
            tally_reportable(self@),
        ensures
            self@.success + self@.failed + self@.declined == 0 ==> summary is None,
            self@.success + self@.failed + self@.declined != 0 ==> summary == Some(
                global_summary_of(self@),
            ),
    {
        let total = self.success + self.failed + self.declined;
        if total == 0 {
            return None;
        }
        Some(
            GlobalOfferSummary {
                total,
                success: self.success,
                success_percent: 100 * self.success / total,
                declined: self.declined,
                declined_percent: 100 * self.declined / total,
                failed: self.failed,
                failed_percent: 100 * self.failed / total,
            },
        )
    }
}

/// Each offer adds one to the total of the tally, and the reported
/// percentages never add up to more than a hundred.
pub proof fn lemma_global_report_counts(t: OfferTally, trace: OfferTrace)
    requires
        tally_count(t, trace) < usize::MAX,
    ensures
        tally_after(t, trace).success + tally_after(t, trace).failed + tally_after(
            t,
            trace,
        ).declined == t.success + t.failed + t.declined + 1,
        tally_reportable(t) && t.success + t.failed + t.declined != 0 ==> {
            let s = global_summary_of(t);
            s.success_percent + s.declined_percent + s.failed_percent <= 100
        },
{
    if tally_reportable(t) && t.success + t.failed + t.declined != 0 {
        let total = t.success + t.failed + t.declined;
        lemma_floor_shares(t.success as int, t.declined as int, t.failed as int, total as int);
    }
}

/// Rounded-down shares of parts of a whole add up to at most the whole.
proof fn lemma_floor_shares(a: int, b: int, c: int, total: int)
    requires
        a >= 0,
        b >= 0,
        c >= 0,
        total == a + b + c,
        total > 0,
    ensures
        100 * a / total + 100 * b / total + 100 * c / total <= 100,
{
    assert(100 * a / total * total <= 100 * a) by (nonlinear_arith)
        requires
            a >= 0,
            total > 0,
    ;
    assert(100 * b / total * total <= 100 * b) by (nonlinear_arith)
        requires
            b >= 0,
            total > 0,
    ;
    assert(100 * c / total * total <= 100 * c) by (nonlinear_arith)
        requires
            c >= 0,
            total > 0,
    ;
    assert((100 * a / total + 100 * b / total + 100 * c / total) * total <= 100 * total)
        by (nonlinear_arith)
        requires
            100 * a / total * total <= 100 * a,
            100 * b / total * total <= 100 * b,
            100 * c / total * total <= 100 * c,
            total == a + b + c,
    ;
    assert(100 * a / total + 100 * b / total + 100 * c / total <= 100) by (nonlinear_arith)
        requires
            (100 * a / total + 100 * b / total + 100 * c / total) * total <= 100 * total,
            total > 0,
    ;
}

/// The peers an offer of one content key reached, by outcome.
pub struct PeerOffers {
    pub success: Seq<Seq<char>>,
    pub failed: Seq<Seq<char>>,
    pub declined: Seq<Seq<char>>,
}

/// The peers after `peer` answered with `trace`.
pub open spec fn peers_after(p: PeerOffers, peer: Seq<char>, trace: OfferTrace) -> PeerOffers {
    match trace {
        OfferTrace::Success => PeerOffers { success: p.success.push(peer), ..p },
        OfferTrace::Failed => PeerOffers { failed: p.failed.push(peer), ..p },
        OfferTrace::Declined => PeerOffers { declined: p.declined.push(peer), ..p },
    }
}

/// Number of peers that have answered.
pub open spec fn offered(p: PeerOffers) -> nat {
    p.success.len() + p.failed.len() + p.declined.len()
}

/// The peer identities held in a vector.
pub open spec fn peer_seq(v: Vec<String>) -> Seq<Seq<char>> {
    v@.map_values(|s: String| s@)
}

/// Adds `peer` at the end of `v`.
fn push_peer(v: &mut Vec<String>, peer: &String)
    ensures
        peer_seq(*final(v)) == peer_seq(*old(v)).push(peer@),
{
    v.push(peer.clone());
    assert(peer_seq(*v) =~= peer_seq(*old(v)).push(peer@));
}

/// Counts of the answers to offers of one content key.
#[derive(Clone, Copy, Debug, PartialEq, Eq)]
pub struct PeerOfferSummary {
    /// Peers that accepted.
    pub success: usize,
    /// Peers the key is offered to.
    pub total: usize,
    /// Peers that declined.
    pub declined: usize,
    /// Peers the offer failed with.
    pub failed: usize,
}

/// Abstract contents of an `OfferReport`.
pub struct OfferReportModel {
    pub content_key: Seq<u8>,
    pub total: usize,
    pub peers: PeerOffers,
}

/// The summary of a per-key report.
pub open spec fn peer_summary_of(m: OfferReportModel) -> PeerOfferSummary {
    PeerOfferSummary {
        success: m.peers.success.len() as usize,
        total: m.total,
        declined: m.peers.declined.len() as usize,
        failed: m.peers.failed.len() as usize,
    }
}

/// Individual report for outcomes of offering a state content key.
pub struct OfferReport {
    content_key: Vec<u8>,
    /// total number of peers interested in the content key
    total: usize,
    success: Vec<String>,
    failed: Vec<String>,
    declined: Vec<String>,
}

impl View for OfferReport {
    type V = OfferReportModel;

    closed spec fn view(&self) -> OfferReportModel {
        OfferReportModel {
            content_key: self.content_key@,
            total: self.total,
            peers: PeerOffers {
                success: peer_seq(self.success),
                failed: peer_seq(self.failed),
                declined: peer_seq(self.declined),
            },
        }
    }
}

impl OfferReport {
    /// A report for offering `content_key` to `total` interested peers.
    pub fn new(content_key: Vec<u8>, total: usize) -> (r: Self)
        ensures
            r@ == (OfferReportModel {
                content_key: content_key@,
                total,
                peers: PeerOffers {
                    success: Seq::empty(),
                    failed: Seq::empty(),
                    declined: Seq::empty(),
                },
            }),
    {
        let r = OfferReport {
            content_key,
            total,
            success: Vec::new(),
            failed: Vec::new(),
            declined: Vec::new(),
        };
        assert(peer_seq(r.success) =~= Seq::empty());
        assert(peer_seq(r.failed) =~= Seq::empty());
        assert(peer_seq(r.declined) =~= Seq::empty());
        r
    }

    /// Records that `peer` answered with `trace`. Once every interested peer
    /// has answered, returns the summary to report.
    pub fn update(&mut self, peer: &String, trace: &OfferTrace) -> (summary: Option<
        PeerOfferSummary,
    >)
        requires
            offered(old(self)@.peers) < usize::MAX,
        ensures
            final(self)@ == (OfferReportModel {
                peers: peers_after(old(self)@.peers, peer@, *trace),
                ..old(self)@
            }),
            summary == (if final(self)@.total == offered(final(self)@.peers) {
                Some(peer_summary_of(final(self)@))
            } else {
                None
            }),
    {
        match trace {
            OfferTrace::Success => push_peer(&mut self.success, peer),
            OfferTrace::Failed => push_peer(&mut self.failed, peer),
            OfferTrace::Declined => push_peer(&mut self.declined, peer),
        }
        assert(peer_seq(self.success).len() == self.success.len());
        assert(peer_seq(self.failed).len() == self.failed.len());
        assert(peer_seq(self.declined).len() == self.declined.len());
        if self.total == self.success.len() + self.failed.len() + self.declined.len() {
            Some(self.report())
        } else {
            None
        }
    }

    /// How many of the interested peers accepted, declined and failed.
    pub fn report(&self) -> (summary: PeerOfferSummary)
        ensures
            summary == peer_summary_of(self@),
    {
        assert(peer_seq(self.success).len() == self.success.len());
        assert(peer_seq(self.failed).len() == self.failed.len());
        assert(peer_seq(self.declined).len() == self.declined.len());
        PeerOfferSummary {
            success: self.success.len(),
            total: self.total,
            declined: self.declined.len(),
            failed: self.failed.len(),
        }
    }

    /// The content key being offered.
    pub fn content_key(&self) -> (k: &Vec<u8>)
        ensures
            k@ == self@.content_key,
    {
        &self.content_key
    }

    /// The peers that declined the content key.
    pub fn declined_peers(&self) -> (p: &Vec<String>)
        ensures
            peer_seq(*p) == self@.peers.declined,
    {
        &self.declined
    }

    /// The peers the offer failed with.
    pub fn failed_peers(&self) -> (p: &Vec<String>)
        ensures
            peer_seq(*p) == self@.peers.failed,
    {
        &self.failed
    }
}

/// Counts of the answers to offers of one content key, reported when the
/// bridge stops offering it.
#[derive(Clone, Copy, Debug, PartialEq, Eq)]
pub struct GranularOfferSummary {
    /// Peers that accepted.
    pub success: usize,
    /// Peers that answered.
    pub offered: usize,
    /// Peers that declined.
    pub declined: usize,
    /// Peers the offer failed with.
    pub failed: usize,
}

/// What the bridge does after an answer to an offer.
#[derive(Clone, Copy, Debug, PartialEq, Eq)]
pub enum OfferDecision {
    /// Offer the key to one more peer.
    OfferAgain,
    /// Wait for the offers still in flight.
    Wait,
    /// Stop offering the key, and report the summary.
    Finished(GranularOfferSummary),
}

/// Abstract contents of a `GranularOfferReport`.
pub struct GranularReportModel {
    pub content_key: Seq<u8>,
    pub base_total: usize,
    pub total: usize,
    pub peers: PeerOffers,
}

/// The summary of a granular report.
pub open spec fn granular_summary_of(m: GranularReportModel) -> GranularOfferSummary {
    GranularOfferSummary {
        success: m.peers.success.len() as usize,
        offered: offered(m.peers) as usize,
        declined: m.peers.declined.len() as usize,
        failed: m.peers.failed.len() as usize,
    }
}

/// The decision after the answers in `m`: with no success yet, keep offering
/// once the base number of peers has answered and until all of them have;
/// stop once the base number has answered with some success, or once all
/// have answered.
pub open spec fn granular_decision(m: GranularReportModel) -> OfferDecision {
    let len = offered(m.peers);
    if m.peers.success.len() == 0 && len >= m.base_total && len < m.total {
        OfferDecision::OfferAgain
    } else if len >= m.base_total && m.peers.success.len() != 0 {
        OfferDecision::Finished(granular_summary_of(m))
    } else if m.total == len {
        OfferDecision::Finished(granular_summary_of(m))
    } else {
        OfferDecision::Wait
    }
}

/// Report for offering one state content key, which also decides whether to
/// offer it to more peers.
pub struct GranularOfferReport {
    content_key: Vec<u8>,
    /// we will only offer to this total if we have any successful offers
    base_total: usize,
    /// we will keep trying to offer to peers until we have a successful offer or reach this total
    total: usize,
    success: Vec<String>,
    failed: Vec<String>,
    declined: Vec<String>,
}

impl View for GranularOfferReport {
    type V = GranularReportModel;

    closed spec fn view(&self) -> GranularReportModel {
        GranularReportModel {
            content_key: self.content_key@,
            base_total: self.base_total,
            total: self.total,
            peers: PeerOffers {
                success: peer_seq(self.success),
                failed: peer_seq(self.failed),
                declined: peer_seq(self.declined),
            },
        }
    }
}

impl GranularOfferReport {
    /// A report for offering `content_key` to at least `base_total` and at
    /// most `total` peers.
    pub fn new(content_key: Vec<u8>, base_total: usize, total: usize) -> (r: Self)
        ensures
            r@ == (GranularReportModel {
                content_key: content_key@,
                base_total,
                total,
                peers: PeerOffers {
                    success: Seq::empty(),
                    failed: Seq::empty(),
                    declined: Seq::empty(),
                },
            }),
    {
        let r = GranularOfferReport {
            content_key,
            base_total,
            total,
            success: Vec::new(),
            failed: Vec::new(),
            declined: Vec::new(),
        };
        assert(peer_seq(r.success) =~= Seq::empty());
        assert(peer_seq(r.failed) =~= Seq::empty());
        assert(peer_seq(r.declined) =~= Seq::empty());
        r
    }

    /// Records that `peer` answered with `trace`, and decides whether to offer
    /// the key to one more peer.
    pub fn update(&mut self, peer: &String, trace: &OfferTrace) -> (decision: OfferDecision)
        requires
            offered(old(self)@.peers) < usize::MAX,
        ensures
            final(self)@ == (GranularReportModel {
                peers: peers_after(old(self)@.peers, peer@, *trace),
                ..old(self)@
            }),
            decision == granular_decision(final(self)@),
            decision == OfferDecision::OfferAgain ==> offered(final(self)@.peers)
                < final(self)@.total,
            offered(final(self)@.peers) >= final(self)@.base_total
                && final(self)@.peers.success.len() > 0 ==> decision == OfferDecision::Finished(
                granular_summary_of(final(self)@),
            ),
    {
        match trace {
            OfferTrace::Success => push_peer(&mut self.success, peer),
            OfferTrace::Failed => push_peer(&mut self.failed, peer),
            OfferTrace::Declined => push_peer(&mut self.declined, peer),
        }
        assert(peer_seq(self.success).len() == self.success.len());
        assert(peer_seq(self.failed).len() == self.failed.len());
        assert(peer_seq(self.declined).len() == self.declined.len());
        // with no successful offer yet and the base total reached, keep going
        if self.success.len() == 0 && self.len() >= self.base_total && self.len() < self.total {
            return OfferDecision::OfferAgain;
        }
        // with the base total reached and a successful offer, stop
        if self.len() >= self.base_total && self.success.len() != 0 {
            return OfferDecision::Finished(self.report());
        }
        // with the total reached, stop
        if self.total == self.len() {
            return OfferDecision::Finished(self.report());
        }
        OfferDecision::Wait
    }

    /// Number of peers that have answered.
    pub fn len(&self) -> (n: usize)
        requires
            offered(self@.peers) <= usize::MAX,
        ensures
            n == offered(self@.peers),
    {
        assert(peer_seq(self.success).len() == self.success.len());
        assert(peer_seq(self.failed).len() == self.failed.len());
        assert(peer_seq(self.declined).len() == self.declined.len());
        self.success.len() + self.failed.len() + self.declined.len()
    }

    /// How many peers answered, and how many of them accepted, declined and
    /// failed.
    pub fn report(&self) -> (summary: GranularOfferSummary)
        requires
            offered(self@.peers) <= usize::MAX,
        ensures
            summary == granular_summary_of(self@),
    {
        assert(peer_seq(self.success).len() == self.success.len());
        assert(peer_seq(self.failed).len() == self.failed.len());
        assert(peer_seq(self.declined).len() == self.declined.len());
        GranularOfferSummary {
            success: self.success.len(),
            offered: self.len(),
            declined: self.declined.len(),
            failed: self.failed.len(),
        }
    }

    /// The content key being offered.
    pub fn content_key(&self) -> (k: &Vec<u8>)
        ensures
            k@ == self@.content_key,
    {
        &self.content_key
    }
}

/// Whether a content key with `peer_count` interested peers is offered at all.
pub fn should_offer(peer_count: usize) -> (b: bool)
    ensures
        b == (peer_count >= BASE_TOTAL),
{
    peer_count >= BASE_TOTAL
}

/// The bookkeeping of the bridge while it offers one key: `taken` peers have
/// been taken from the `total` interested ones; every answered offer is one of
/// them, at most one further offer is in flight once any has been answered,
/// and at most the first two before that.
pub open spec fn offer_session_inv(m: GranularReportModel, taken: nat) -> bool {
    &&& m.base_total == BASE_TOTAL
    &&& offered(m.peers) <= taken <= m.total
    &&& offered(m.peers) == 0 ==> taken <= BASE_TOTAL
    &&& offered(m.peers) >= 1 ==> taken <= offered(m.peers) + 1
}

/// The bridge starts by taking two of the interested peers; it does so only
/// when there are at least two.
pub proof fn lemma_offer_session_start(content_key: Seq<u8>, total: usize)
    requires
        total >= BASE_TOTAL,
    ensures
        offer_session_inv(
            GranularReportModel {
                content_key,
                base_total: BASE_TOTAL,
                total,
                peers: PeerOffers {
                    success: Seq::empty(),
                    failed: Seq::empty(),
                    declined: Seq::empty(),
                },
            },
            BASE_TOTAL as nat,
        ),
{
}

/// When an offer in flight is answered, and the bridge takes one more peer
/// exactly when told to offer again, the bookkeeping still holds: the bridge
/// never takes more peers than there are interested ones.
pub proof fn lemma_offer_session_step(
    m: GranularReportModel,
    taken: nat,
    peer: Seq<char>,
    trace: OfferTrace,
)
    requires
        offer_session_inv(m, taken),
        offered(m.peers) < taken,
    ensures
        ({
            let next = GranularReportModel { peers: peers_after(m.peers, peer, trace), ..m };
            let again = granular_decision(next) == OfferDecision::OfferAgain;
            offer_session_inv(next, if again { taken + 1 } else { taken })
        }),
{
}

/// Once the base number of peers has answered and one of them accepted, the
/// bridge is never told to offer again.
pub proof fn lemma_no_offer_after_success(m: GranularReportModel, peer: Seq<char>, trace: OfferTrace)
    requires
        offered(m.peers) >= m.base_total,
        m.peers.success.len() != 0,
    ensures
        granular_decision(GranularReportModel { peers: peers_after(m.peers, peer, trace), ..m })
            != OfferDecision::OfferAgain,
{
}

/// Once at least the base number of peers has answered and one of them
/// accepted, the bridge stops offering the key and reports it: the decision
/// is to finish, with the counts of the answers.
pub proof fn lemma_finish_once_accepted(m: GranularReportModel)
    requires
        offered(m.peers) >= m.base_total,
        m.peers.success.len() > 0,
    ensures
        granular_decision(m) == OfferDecision::Finished(
            GranularOfferSummary {
                success: m.peers.success.len() as usize,
                offered: offered(m.peers) as usize,
                declined: m.peers.declined.len() as usize,
                failed: m.peers.failed.len() as usize,
            },
        ),
{
}

/// Without any acceptance, the bridge offers the key again exactly while at
/// least the base number and fewer than all interested peers have answered,
/// finishes once all have answered, and otherwise waits.
pub proof fn lemma_no_acceptance_decisions(m: GranularReportModel)
    requires
        m.peers.success.len() == 0,
    ensures
        (m.base_total <= offered(m.peers) < m.total) <==> granular_decision(m)
            == OfferDecision::OfferAgain,
        offered(m.peers) == m.total ==> granular_decision(m) is Finished,
        offered(m.peers) < m.base_total && offered(m.peers) != m.total ==> granular_decision(m)
            == OfferDecision::Wait,
{
}

} // verus!
