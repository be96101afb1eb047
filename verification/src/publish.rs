//! The publish engine: the continuous background loop and the
//! request-triggered burst.
//!
//! Both are state machines over plain values. Each step either hands the
//! driver the next broker command — a destination stream plus a fully
//! built envelope — or records the outcome the driver observed. The
//! broker I/O, the pacing sleep and the HTTP surface stay outside; the
//! machine is proved for every outcome they can report.

use vstd::prelude::*;
use crate::effects;
use crate::envelope::MessageEnvelope;
use crate::envelope::correlation_chars;
use crate::errors::GenError;
use crate::selection::SelectionPolicy;
use crate::selection::policy_wf;
use crate::selection::selection_spec;

verus! {

/// How many messages one triggered burst publishes.
pub const BURST_SIZE: usize = 10;

/// One publish order for the driver: where to send, and what.
pub struct PublishCommand {
    pub target: String,
    pub envelope: MessageEnvelope,
}

/// Where the background loop stands.
#[derive(Clone, Copy, PartialEq, Eq, Structural, Debug)]
pub enum LoopState {
    /// Not started.
    Idle,
    /// Provisioning runs once, before any publish.
    Provisioning,
    /// Publishing attempts are being issued.
    Running,
    /// Waiting out the fixed inter-attempt interval.
    Pacing,
    /// Cancelled from outside; no further attempts.
    Stopped,
    /// An unrecoverable failure; the process must exit non-zero.
    Fatal,
}

/// The view of the caller-supplied target, when there is one.
pub open spec fn requested_view(requested: Option<&String>) -> Option<Seq<char>> {
    match requested {
        Some(s) => Some(s@),
        None => None,
    }
}

/// Whether a selection policy can fail does not depend on the draw: the
/// failing variants fail for every draw alike.
pub proof fn lemma_selection_err_independent(
    policy: SelectionPolicy,
    d1: u64,
    d2: u64,
    req: Option<Seq<char>>,
)
    ensures
        selection_spec(policy, d1, req) is Ok <==> selection_spec(policy, d2, req) is Ok,
{
}

/// The continuous background publisher: provision once, then repeat
/// select-build-publish-pace until cancelled, treating any broker error
/// as fatal.
pub struct PublishLoop {
    pub policy: SelectionPolicy,
    pub pace_millis: u64,
    pub published: u64,
    pub state: LoopState,
}

impl PublishLoop {
    /// The stored policy admits draw reduction.
    pub open spec fn wf(&self) -> bool {
        policy_wf(self.policy)
    }

    /// A fresh loop, not yet started.
    pub fn new(policy: SelectionPolicy, pace_millis: u64) -> (r: PublishLoop)
        requires
            policy_wf(policy),
        ensures
            r.policy == policy,
            r.pace_millis == pace_millis,
            r.published == 0,
            r.state == LoopState::Idle,
            r.wf(),
    {
        PublishLoop { policy, pace_millis, published: 0, state: LoopState::Idle }
    }

    /// Startup: the one-shot provisioning pass begins.
    pub fn begin_provisioning(&mut self)
        requires
            old(self).state == LoopState::Idle,
        ensures
            *final(self) == (PublishLoop { state: LoopState::Provisioning, ..*old(self) }),
    {
        self.state = LoopState::Provisioning;
    }

    /// Records the provisioning outcome: success starts publishing, an
    /// unrecoverable declare failure is fatal.
    pub fn on_provisioned(&mut self, ok: bool)
        requires
            old(self).state == LoopState::Provisioning,
        ensures
            ok ==> *final(self) == (PublishLoop { state: LoopState::Running, ..*old(self) }),
            !ok ==> *final(self) == (PublishLoop { state: LoopState::Fatal, ..*old(self) }),
    {
        if ok {
            self.state = LoopState::Running;
        } else {
            self.state = LoopState::Fatal;
        }
    }

    /// One attempt from explicit inputs: resolves the target under the
    /// policy for the given draw and builds the envelope from the given
    /// identifier bits, capture time and payload. Fails — fatally, since
    /// the loop cannot progress — exactly when the policy has nothing to
    /// choose from.
    pub fn next_attempt(
        &mut self,
        draw: u64,
        requested: Option<&String>,
        id_bits: u128,
        captured_at: u64,
        payload: Vec<u8>,
    ) -> (r: Result<PublishCommand, GenError>)
        requires
            old(self).state == LoopState::Running,
            old(self).wf(),
        ensures
            final(self).wf(),
            final(self).policy == old(self).policy,
            final(self).pace_millis == old(self).pace_millis,
            final(self).published == old(self).published,
            (match selection_spec(old(self).policy, draw, requested_view(requested)) {
                Ok(name) => {
                    &&& r is Ok
                    &&& r->Ok_0.target@ == name
                    &&& r->Ok_0.envelope.payload@ == payload@
                    &&& r->Ok_0.envelope.captured_at == captured_at
                    &&& r->Ok_0.envelope.correlation_id@ == correlation_chars(id_bits)
                    &&& final(self).state == LoopState::Running
                },
                Err(e) => {
                    &&& r is Err
                    &&& r->Err_0 == e
                    &&& final(self).state == LoopState::Fatal
                },
            }),
    {
        let target = match self.policy.select(draw, requested) {
            Ok(t) => t,
            Err(e) => {
                self.state = LoopState::Fatal;
                return Err(e);
            },
        };
        let envelope = MessageEnvelope::build(payload, id_bits, captured_at);
        Ok(PublishCommand { target, envelope })
    }

    /// One attempt with the effectful inputs drawn here: a random draw, a
    /// fresh identifier, the current time, and `words` words of generated
    /// payload text. Fails exactly when the policy has nothing to choose
    /// from, whatever was drawn.
    pub fn run_attempt(&mut self, words: usize, requested: Option<&String>) -> (r: Result<
        PublishCommand,
        GenError,
    >)
        requires
            old(self).state == LoopState::Running,
            old(self).wf(),
        ensures
            final(self).wf(),
            final(self).policy == old(self).policy,
            final(self).pace_millis == old(self).pace_millis,
            final(self).published == old(self).published,
            r is Ok <==> selection_spec(
                old(self).policy,
                0,
                requested_view(requested),
            ) is Ok,
            r is Ok ==> final(self).state == LoopState::Running && r->Ok_0.envelope.wf() && (
            exists|d: u64|
                selection_spec(old(self).policy, d, requested_view(requested)) == Ok::<
                    Seq<char>,
                    GenError,
                >(r->Ok_0.target@)),
            r is Err ==> final(self).state == LoopState::Fatal && selection_spec(
                old(self).policy,
                0,
                requested_view(requested),
            ) == Err::<Seq<char>, GenError>(r->Err_0),
    {
        let draw = effects::random_u64();
        let id_bits = effects::fresh_uuid_bits();
        let captured_at = effects::capture_timestamp();
        let text = effects::lorem_words(words);
        let payload = vstd::slice::slice_to_vec(text.as_str().as_bytes());
        proof {
            lemma_selection_err_independent(
                self.policy,
                draw,
                0,
                requested_view(requested),
            );
        }
        self.next_attempt(draw, requested, id_bits, captured_at, payload)
    }

    /// Records the publish outcome: success counts the message and moves
    /// to pacing; a broker error on the hot path is fatal.
    pub fn on_publish_result(&mut self, ok: bool) -> (r: Result<(), GenError>)
        requires
            old(self).state == LoopState::Running,
            old(self).published < u64::MAX,
        ensures
            ok ==> *final(self) == (PublishLoop {
                state: LoopState::Pacing,
                published: (old(self).published + 1) as u64,
                ..*old(self)
            }) && r == Ok::<(), GenError>(()),
            !ok ==> *final(self) == (PublishLoop { state: LoopState::Fatal, ..*old(self) }) && r
                == Err::<(), GenError>(GenError::Publish),
    {
        if ok {
            self.published = self.published + 1;
            self.state = LoopState::Pacing;
            Ok(())
        } else {
            self.state = LoopState::Fatal;
            Err(GenError::Publish)
        }
    }

    /// Records that no broker channel could be obtained for an attempt:
    /// fatal, under the same no-retry policy as a publish failure.
    pub fn on_channel_unavailable(&mut self) -> (r: GenError)
        requires
            old(self).state == LoopState::Running,
        ensures
            *final(self) == (PublishLoop { state: LoopState::Fatal, ..*old(self) }),
            r == GenError::PoolExhaustionOrConnect,
    {
        self.state = LoopState::Fatal;
        GenError::PoolExhaustionOrConnect
    }

    /// The fixed pacing interval the driver must sleep before the next
    /// attempt. Pacing bounds throughput; it does not affect correctness.
    pub fn pace_interval_millis(&self) -> (r: u64)
        requires
            self.state == LoopState::Pacing,
        ensures
            r == self.pace_millis,
    {
        self.pace_millis
    }

    /// The pacing sleep has elapsed; the next attempt may start.
    pub fn on_paced(&mut self)
        requires
            old(self).state == LoopState::Pacing,
        ensures
            *final(self) == (PublishLoop { state: LoopState::Running, ..*old(self) }),
    {
        self.state = LoopState::Running;
    }

    /// An external cancellation signal, checked between attempts: the
    /// loop stops cleanly.
    pub fn cancel(&mut self)
        ensures
            *final(self) == (PublishLoop { state: LoopState::Stopped, ..*old(self) }),
    {
        self.state = LoopState::Stopped;
    }
}

/// One request-triggered burst: a bounded number of publishes to the
/// caller-specified stream, no inter-attempt pacing, aborted at the first
/// failure, then one aggregate success indication.
pub struct TriggerBurst {
    pub target: String,
    pub remaining: usize,
    pub succeeded: usize,
    pub aborted: bool,
}

impl TriggerBurst {
    /// The publish counters always account for the whole burst.
    pub open spec fn wf(&self) -> bool {
        self.succeeded + self.remaining == BURST_SIZE
    }

    /// A burst of `BURST_SIZE` publishes aimed at `target`.
    pub fn new(target: String) -> (r: TriggerBurst)
        ensures
            r.target@ == target@,
            r.remaining == BURST_SIZE,
            r.succeeded == 0,
            !r.aborted,
            r.wf(),
    {
        TriggerBurst { target, remaining: BURST_SIZE, succeeded: 0, aborted: false }
    }

    /// The next publish command of the burst, from explicit inputs: the
    /// caller-specified target with a fresh envelope. No validation that
    /// the target was provisioned: an unknown name fails at publish time
    /// with a broker-reported error.
    pub fn next_command(&self, id_bits: u128, captured_at: u64, payload: Vec<u8>) -> (r:
        PublishCommand)
        requires
            self.remaining > 0,
            !self.aborted,
        ensures
            r.target@ == self.target@,
            r.envelope.payload@ == payload@,
            r.envelope.captured_at == captured_at,
            r.envelope.correlation_id@ == correlation_chars(id_bits),
    {
        PublishCommand {
            target: self.target.clone(),
            envelope: MessageEnvelope::build(payload, id_bits, captured_at),
        }
    }

    /// The next publish command with the effectful inputs drawn here: a
    /// fresh identifier, the current time, and `words` words of generated
    /// payload text.
    pub fn run_command(&self, words: usize) -> (r: PublishCommand)
        requires
            self.remaining > 0,
            !self.aborted,
        ensures
            r.target@ == self.target@,
            r.envelope.wf(),
    {
        let id_bits = effects::fresh_uuid_bits();
        let captured_at = effects::capture_timestamp();
        let text = effects::lorem_words(words);
        let payload = vstd::slice::slice_to_vec(text.as_str().as_bytes());
        self.next_command(id_bits, captured_at, payload)
    }

    /// Records one publish outcome: a success is counted, a failure
    /// aborts the remaining burst and the partial failure is reported.
    pub fn on_result(&mut self, ok: bool)
        requires
            old(self).wf(),
            old(self).remaining > 0,
            !old(self).aborted,
        ensures
            final(self).wf(),
            final(self).target@ == old(self).target@,
            ok ==> final(self).remaining == old(self).remaining - 1 && final(self).succeeded
                == old(self).succeeded + 1 && !final(self).aborted,
            !ok ==> final(self).aborted && final(self).remaining == old(self).remaining
                && final(self).succeeded == old(self).succeeded,
    {
        if ok {
            self.remaining = self.remaining - 1;
            self.succeeded = self.succeeded + 1;
        } else {
            self.aborted = true;
        }
    }

    /// Whether the whole burst succeeded: exactly then the endpoint
    /// answers with its "created" status, otherwise with a failure.
    pub fn response_created(&self) -> (r: bool)
        ensures
            r == (!self.aborted && self.remaining == 0),
    {
        !self.aborted && self.remaining == 0
    }
}

} // verus!
