use vstd::prelude::*;

use crate::error::{AppError, ErrorKind};
use crate::value::SnmpValue;

verus! {

#[verifier::external_type_specification]
#[verifier::external_body]
pub struct ExOid<'a>(snmp2::Oid<'a>);

/// The arcs can be put on the wire as an absolute OID.
pub open spec fn oid_encodable(arcs: Seq<u64>) -> bool {
    (arcs.len() == 1 && arcs[0] == 0) || (arcs.len() >= 2 && arcs[0] < 7 && arcs[1] < 40)
}

/// Relies on `snmp2::Oid::from` (asn1-rs `Oid::from`): it accepts the lone
/// arc `0`, or two or more arcs whose first is below 7 and whose second is
/// below 40, and refuses every other sequence.
#[verifier::external_body]
fn encode_oid(arcs: &[u64]) -> (r: Option<snmp2::Oid<'static>>)
    ensures
        r is Some <==> oid_encodable(arcs@),
{
    snmp2::Oid::from(arcs).ok()
}

/// The wire form of an OID for a request; `OidConversion` when the arcs
/// cannot be encoded.
pub fn request_oid(arcs: &Vec<u64>) -> (r: Result<snmp2::Oid<'static>, AppError>)
    ensures
        r is Ok <==> oid_encodable(arcs@),
        r is Err ==> r->Err_0.kind == ErrorKind::OidConversion,
{
    match encode_oid(arcs.as_slice()) {
        Some(oid) => Ok(oid),
        None => Err(AppError::new(ErrorKind::OidConversion)),
    }
}

/// What one attempt at a single-value request came to.
#[derive(Clone, Debug, PartialEq, Eq)]
pub enum AttemptOutcome {
    /// The device replied: its error status and the first value, if any.
    Reply { error_status: u32, value: Option<SnmpValue> },
    /// No reply arrived within the timeout.
    Timeout,
    /// The security context was brought up to date; the request is repeated.
    TimeSyncUpdated,
    /// The reply lacked the boot counter; discovery must run again first.
    EngineBootsMissing,
    /// Any other transport or protocol failure.
    Failed(String),
}

/// The authentication failures the protocol library reports, one for one.
#[derive(Clone, Copy, Debug, PartialEq, Eq, Structural)]
pub enum AuthFailureKind {
    UnsupportedUsm,
    EngineBootsMismatch,
    EngineBootsNotProvided,
    EngineTimeMismatch,
    NotAuthenticated,
    UsernameMismatch,
    EngineIdMismatch,
    SignatureMismatch,
    MessageIdMismatch,
    PrivLengthMismatch,
    KeyLengthMismatch,
    PayloadLengthMismatch,
    ReplyNotEncrypted,
    SecurityNotProvided,
    SecurityNotReady,
    KeyExtensionRequired,
}

/// The failures the protocol library reports for a request, one for one.
#[derive(Clone, Copy, Debug, PartialEq, Eq, Structural)]
pub enum SnmpFailure {
    AsnParse,
    AsnInvalidLen,
    AsnWrongType,
    AsnUnsupportedType,
    AsnEof,
    AsnIntOverflow,
    UnsupportedVersion,
    RequestIdMismatch,
    CommunityMismatch,
    ValueOutOfRange,
    BufferOverflow,
    AuthFailure(AuthFailureKind),
    Crypto,
    AuthUpdated,
    Send,
    Receive,
    Mib,
}

/// What a failed attempt means for the retry decision: a receive failure
/// is a timeout, an updated security context and a missing boot counter
/// are the two recoverable conditions, and anything else fails the request
/// with `message`.
pub open spec fn outcome_of_failure_spec(failure: SnmpFailure, message: String) -> AttemptOutcome {
    match failure {
        SnmpFailure::Receive => AttemptOutcome::Timeout,
        SnmpFailure::AuthUpdated => AttemptOutcome::TimeSyncUpdated,
        SnmpFailure::AuthFailure(AuthFailureKind::EngineBootsNotProvided) => AttemptOutcome::EngineBootsMissing,
        _ => AttemptOutcome::Failed(message),
    }
}

impl AttemptOutcome {
    /// Classifies a failed attempt.
    pub fn from_failure(failure: SnmpFailure, message: String) -> (r: AttemptOutcome)
        ensures
            r == outcome_of_failure_spec(failure, message),
    {
        match failure {
            SnmpFailure::Receive => AttemptOutcome::Timeout,
            SnmpFailure::AuthUpdated => AttemptOutcome::TimeSyncUpdated,
            SnmpFailure::AuthFailure(AuthFailureKind::EngineBootsNotProvided) => {
                AttemptOutcome::EngineBootsMissing
            },
            _ => AttemptOutcome::Failed(message),
        }
    }
}

/// What the caller does next.
#[derive(Debug, PartialEq, Eq)]
pub enum RetrievalStep {
    /// Send the request again on the same session.
    Retry,
    /// Initialize the session again, then send the request again.
    ReinitAndRetry,
    /// The request is over.
    Done(Result<SnmpValue, AppError>),
}

/// The class of a step, without its payload.
#[derive(Clone, Copy, Debug, PartialEq, Eq, Structural)]
pub enum Verdict {
    Retry,
    ReinitAndRetry,
    Succeeded,
    Failed,
}

/// How many protocol-level recoveries one request may go through.
pub const MAX_RECOVERIES: u32 = 5;

/// The retry state of one request: the timeout budget and what has been
/// spent of it, and the recoveries spent, which are bounded on their own.
#[derive(Clone, Copy, Debug, PartialEq, Eq, Structural)]
pub struct Retrieval {
    pub retries: u32,
    pub timeouts: u32,
    pub recoveries: u32,
}

pub open spec fn next_state(s: Retrieval, o: AttemptOutcome) -> Retrieval {
    match o {
        AttemptOutcome::Timeout => if s.timeouts < s.retries {
            Retrieval { timeouts: (s.timeouts + 1) as u32, ..s }
        } else {
            s
        },
        AttemptOutcome::TimeSyncUpdated | AttemptOutcome::EngineBootsMissing => if s.recoveries
            < MAX_RECOVERIES {
            Retrieval { recoveries: (s.recoveries + 1) as u32, ..s }
        } else {
            s
        },
        _ => s,
    }
}

pub open spec fn verdict(s: Retrieval, o: AttemptOutcome) -> Verdict {
    match o {
        AttemptOutcome::Reply { error_status, value } => if error_status == 0 && value is Some {
            Verdict::Succeeded
        } else {
            Verdict::Failed
        },
        AttemptOutcome::Timeout => if s.timeouts < s.retries {
            Verdict::Retry
        } else {
            Verdict::Failed
        },
        AttemptOutcome::TimeSyncUpdated => if s.recoveries < MAX_RECOVERIES {
            Verdict::Retry
        } else {
            Verdict::Failed
        },
        AttemptOutcome::EngineBootsMissing => if s.recoveries < MAX_RECOVERIES {
            Verdict::ReinitAndRetry
        } else {
            Verdict::Failed
        },
        AttemptOutcome::Failed(_) => Verdict::Failed,
    }
}

pub open spec fn step_verdict(step: RetrievalStep) -> Verdict {
    match step {
        RetrievalStep::Retry => Verdict::Retry,
        RetrievalStep::ReinitAndRetry => Verdict::ReinitAndRetry,
        RetrievalStep::Done(Ok(_)) => Verdict::Succeeded,
        RetrievalStep::Done(Err(_)) => Verdict::Failed,
    }
}

/// The state and the verdict after a run of outcomes: the first verdict
/// that ends the request, or `Retry` when none did.
pub open spec fn run(s: Retrieval, outcomes: Seq<AttemptOutcome>) -> (Retrieval, Verdict)
    decreases outcomes.len(),
{
    if outcomes.len() == 0 {
        (s, Verdict::Retry)
    } else {
        let v = verdict(s, outcomes[0]);
        if v == Verdict::Succeeded || v == Verdict::Failed {
            (s, v)
        } else {
            run(next_state(s, outcomes[0]), outcomes.drop_first())
        }
    }
}

impl Retrieval {
    /// A fresh request that may be retried `retries` times after a timeout.
    pub fn new(retries: u32) -> (r: Self)
        ensures
            r == (Retrieval { retries, timeouts: 0, recoveries: 0 }),
    {
        Retrieval { retries, timeouts: 0, recoveries: 0 }
    }

    /// Decides what follows an attempt.
    ///
    /// A reply with a non-zero error status fails naming the status, an
    /// empty reply fails with `OidNotFound`, and a reply with a value
    /// succeeds with it. A timeout is retried while the timeout budget
    /// lasts. The two recoverable protocol conditions are retried, the
    /// second after a new initialization, while the recovery budget lasts,
    /// without touching the timeout budget. Every other failure, and an
    /// exhausted budget, fails as a request error.
    pub fn step(&mut self, outcome: AttemptOutcome) -> (r: RetrievalStep)
        ensures
            *final(self) == next_state(*old(self), outcome),
            step_verdict(r) == verdict(*old(self), outcome),
            match outcome {
                AttemptOutcome::Reply { error_status, value } => {
                    &&& error_status != 0 ==> r == RetrievalStep::Done(
                        Err(AppError { kind: ErrorKind::ErrorStatus(error_status) }),
                    )
                    &&& (error_status == 0 && value is None) ==> r == RetrievalStep::Done(
                        Err(AppError { kind: ErrorKind::OidNotFound }),
                    )
                    &&& (error_status == 0 && value is Some) ==> r == RetrievalStep::Done(
                        Ok(value->Some_0),
                    )
                },
                AttemptOutcome::Failed(msg) => r == RetrievalStep::Done(
                    Err(AppError { kind: ErrorKind::SnmpRequest(msg) }),
                ),
                _ => r matches RetrievalStep::Done(Err(e)) ==> e.kind is SnmpRequest,
            },
    {
        match outcome {
            AttemptOutcome::Reply { error_status, value } => {
                if error_status != 0 {
                    RetrievalStep::Done(Err(AppError::new(ErrorKind::ErrorStatus(error_status))))
                } else {
                    match value {
                        Some(v) => RetrievalStep::Done(Ok(v)),
                        None => RetrievalStep::Done(Err(AppError::new(ErrorKind::OidNotFound))),
                    }
                }
            },
            AttemptOutcome::Timeout => {
                if self.timeouts < self.retries {
                    self.timeouts = self.timeouts + 1;
                    RetrievalStep::Retry
                } else {
                    RetrievalStep::Done(
                        Err(
                            AppError::new(
                                ErrorKind::SnmpRequest(String::from_str("no reply before the timeout")),
                            ),
                        ),
                    )
                }
            },
            AttemptOutcome::TimeSyncUpdated => {
                if self.recoveries < MAX_RECOVERIES {
                    self.recoveries = self.recoveries + 1;
                    RetrievalStep::Retry
                } else {
                    RetrievalStep::Done(
                        Err(
                            AppError::new(
                                ErrorKind::SnmpRequest(String::from_str("security context kept changing")),
                            ),
                        ),
                    )
                }
            },
            AttemptOutcome::EngineBootsMissing => {
                if self.recoveries < MAX_RECOVERIES {
                    self.recoveries = self.recoveries + 1;
                    RetrievalStep::ReinitAndRetry
                } else {
                    RetrievalStep::Done(
                        Err(
                            AppError::new(
                                ErrorKind::SnmpRequest(String::from_str("engine boot counter kept missing")),
                            ),
                        ),
                    )
                }
            },
            AttemptOutcome::Failed(msg) => RetrievalStep::Done(
                Err(AppError::new(ErrorKind::SnmpRequest(msg))),
            ),
        }
    }
}

pub open spec fn repeat_outcome(o: AttemptOutcome, n: nat) -> Seq<AttemptOutcome> {
    Seq::new(n, |i: int| o)
}

proof fn lemma_time_syncs_then(s: Retrieval, k: nat, rest: Seq<AttemptOutcome>)
    requires
        s.recoveries + k <= MAX_RECOVERIES,
    ensures
        run(s, repeat_outcome(AttemptOutcome::TimeSyncUpdated, k) + rest) == run(
            Retrieval { recoveries: (s.recoveries + k) as u32, ..s },
            rest,
        ),
    decreases k,
{
    let os = repeat_outcome(AttemptOutcome::TimeSyncUpdated, k) + rest;
    if k == 0 {
        assert(os =~= rest);
        assert(Retrieval { recoveries: (s.recoveries + k) as u32, ..s } == s);
    } else {
        assert(os[0] == AttemptOutcome::TimeSyncUpdated);
        let k1 = (k - 1) as nat;
        assert(os.drop_first() =~= repeat_outcome(AttemptOutcome::TimeSyncUpdated, k1) + rest);
        lemma_time_syncs_then(next_state(s, AttemptOutcome::TimeSyncUpdated), k1, rest);
    }
}

proof fn lemma_timeouts_exhaust(s: Retrieval, n: nat)
    requires
        s.timeouts <= s.retries,
        n == s.retries - s.timeouts + 1,
    ensures
        run(s, repeat_outcome(AttemptOutcome::Timeout, n)).1 == Verdict::Failed,
    decreases n,
{
    let os = repeat_outcome(AttemptOutcome::Timeout, n);
    assert(os[0] == AttemptOutcome::Timeout);
    if s.timeouts < s.retries {
        let n1 = (n - 1) as nat;
        assert(os.drop_first() =~= repeat_outcome(AttemptOutcome::Timeout, n1));
        lemma_timeouts_exhaust(next_state(s, AttemptOutcome::Timeout), n1);
    }
}

/// Recoverable time-synchronization updates do not spend the timeout
/// budget: up to `MAX_RECOVERIES` of them followed by a reply with a value
/// end in success with no timeout counted. A fresh request that meets
/// nothing but timeouts fails once its `retries` repetitions are spent.
pub proof fn lemma_retry_budgets(retries: u32, k: nat, v: SnmpValue)
    requires
        k <= MAX_RECOVERIES,
    ensures
        ({
            let fresh = Retrieval { retries, timeouts: 0, recoveries: 0 };
            let syncs = repeat_outcome(AttemptOutcome::TimeSyncUpdated, k) + seq![
                AttemptOutcome::Reply { error_status: 0, value: Some(v) },
            ];
            &&& run(fresh, syncs).1 == Verdict::Succeeded
            &&& run(fresh, syncs).0.timeouts == 0
            &&& run(fresh, repeat_outcome(AttemptOutcome::Timeout, retries as nat + 1)).1
                == Verdict::Failed
        }),
{
    let fresh = Retrieval { retries, timeouts: 0, recoveries: 0 };
    let reply = seq![AttemptOutcome::Reply { error_status: 0, value: Some(v) }];
    lemma_time_syncs_then(fresh, k, reply);
    lemma_timeouts_exhaust(fresh, retries as nat + 1);
}

} // verus!
