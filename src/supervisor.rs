use vstd::prelude::*;

use crate::error::{reason_of, KernelError, ServerError, ServerId, VoidRes};
use crate::service::Server;

verus! {

/// Where a supervised service is in its life.
#[derive(Debug, Clone, Copy, PartialEq, Eq, Structural)]
pub enum Phase {
    /// `start` has not returned yet.
    Starting,
    /// `start` succeeded; messages are being processed.
    Running,
    /// The service is done: `start` failed or its channel closed.
    Finished,
}

/// The decisions of the loop that supervises one service, known as `id`.
///
/// `delivered` records every message handed to `process`, in the order it was
/// taken from the channel; `reports` records every failure handed to the error
/// sink, in order.
pub struct Supervisor<M> {
    pub id: ServerId,
    pub phase: Phase,
    pub delivered: Ghost<Seq<M>>,
    pub reports: Ghost<Seq<KernelError>>,
}

/// The state of a supervisor for the service `id` before it is started.
pub open spec fn fresh<M>(id: ServerId) -> Supervisor<M> {
    Supervisor { id, phase: Phase::Starting, delivered: Ghost(Seq::empty()), reports: Ghost(Seq::empty()) }
}

/// What the sink receives when `start` of the service `id` fails with `e`:
/// a start failure naming the service, with the reason of `e`.
pub open spec fn start_failure(e: KernelError, id: ServerId) -> KernelError {
    KernelError::Server(ServerError::StartError(reason_of(e), id))
}

/// What the sink receives when `process` fails with `e`: a runtime or client
/// failure as it is, anything else as a runtime failure with its reason.
pub open spec fn process_failure(e: KernelError) -> KernelError {
    match e {
        KernelError::Server(ServerError::RuntimeError(_)) => e,
        KernelError::Server(ServerError::ClientError(_)) => e,
        _ => KernelError::Server(ServerError::RuntimeError(reason_of(e))),
    }
}

/// Whether `e` is a failure of processing: a runtime or a client failure.
pub open spec fn is_process_failure(e: KernelError) -> bool {
    e matches KernelError::Server(ServerError::RuntimeError(_))
        || e matches KernelError::Server(ServerError::ClientError(_))
}

/// The state after `start` returned `outcome`: a failure is reported and ends
/// the service; success lets messages in.
pub open spec fn on_start<M>(s: Supervisor<M>, outcome: VoidRes) -> Supervisor<M> {
    if s.phase != Phase::Starting {
        s
    } else {
        match outcome {
            Ok(_) => Supervisor { phase: Phase::Running, ..s },
            Err(e) => Supervisor {
                phase: Phase::Finished,
                reports: Ghost(s.reports@.push(start_failure(e, s.id))),
                ..s
            },
        }
    }
}

/// The state after the channel yielded `next`: a message is delivered to
/// `process`; the end of the channel finishes the service.
pub open spec fn on_message<M>(s: Supervisor<M>, next: Option<M>) -> Supervisor<M> {
    if s.phase != Phase::Running {
        s
    } else {
        match next {
            Some(m) => Supervisor { delivered: Ghost(s.delivered@.push(m)), ..s },
            None => Supervisor { phase: Phase::Finished, ..s },
        }
    }
}

/// The state after `process` returned `outcome`: a failure is reported and
/// the service goes on.
pub open spec fn on_processed<M>(s: Supervisor<M>, outcome: VoidRes) -> Supervisor<M> {
    if s.phase != Phase::Running {
        s
    } else {
        match outcome {
            Ok(_) => s,
            Err(e) => Supervisor { reports: Ghost(s.reports@.push(process_failure(e))), ..s },
        }
    }
}

/// The failures among `outcomes`, in order.
pub open spec fn failures(outcomes: Seq<VoidRes>) -> Seq<KernelError>
    decreases outcomes.len(),
{
    if outcomes.len() == 0 {
        Seq::empty()
    } else {
        let rest = failures(outcomes.drop_first());
        match outcomes[0] {
            Ok(_) => rest,
            Err(e) => seq![process_failure(e)] + rest,
        }
    }
}

/// The state after the channel yielded each of `ms` in turn and `process`
/// returned the matching entry of `outcomes` for each.
pub open spec fn on_serving<M>(s: Supervisor<M>, ms: Seq<M>, outcomes: Seq<VoidRes>) -> Supervisor<M>
    recommends
        ms.len() == outcomes.len(),
    decreases ms.len(),
{
    if ms.len() == 0 || outcomes.len() == 0 {
        s
    } else {
        on_serving(
            on_processed(on_message(s, Some(ms[0])), outcomes[0]),
            ms.drop_first(),
            outcomes.drop_first(),
        )
    }
}

/// Messages reach `process` in exactly the order the channel yields them, and
/// a running service keeps running while messages come, whatever `process`
/// returns.
pub proof fn lemma_delivery_in_order<M>(s: Supervisor<M>, ms: Seq<M>, outcomes: Seq<VoidRes>)
    requires
        s.phase == Phase::Running,
        ms.len() == outcomes.len(),
    ensures
        on_serving(s, ms, outcomes).phase == Phase::Running,
        on_serving(s, ms, outcomes).delivered@ == s.delivered@ + ms,
    decreases ms.len(),
{
    if ms.len() > 0 {
        let t = on_processed(on_message(s, Some(ms[0])), outcomes[0]);
        lemma_delivery_in_order(t, ms.drop_first(), outcomes.drop_first());
        assert(s.delivered@.push(ms[0]) + ms.drop_first() =~= s.delivered@ + ms);
    } else {
        assert(s.delivered@ + ms =~= s.delivered@);
    }
}

/// A failure of `process` does not end the service: every failure is reported
/// once, in order, as a runtime or client failure, and the service stays
/// running for the next message.
pub proof fn lemma_failures_not_fatal<M>(s: Supervisor<M>, ms: Seq<M>, outcomes: Seq<VoidRes>)
    requires
        s.phase == Phase::Running,
        ms.len() == outcomes.len(),
    ensures
        on_serving(s, ms, outcomes).phase == Phase::Running,
        on_serving(s, ms, outcomes).reports@ == s.reports@ + failures(outcomes),
        forall|i: int| 0 <= i < failures(outcomes).len() ==> is_process_failure(#[trigger] failures(outcomes)[i]),
    decreases ms.len(),
{
    lemma_failures_are_process_failures(outcomes);
    if ms.len() > 0 {
        let t = on_processed(on_message(s, Some(ms[0])), outcomes[0]);
        lemma_failures_not_fatal(t, ms.drop_first(), outcomes.drop_first());
        match outcomes[0] {
            Ok(_) => {
                assert(t.reports@ == s.reports@);
            },
            Err(e) => {
                assert(s.reports@.push(process_failure(e)) + failures(outcomes.drop_first()) =~= s.reports@ + failures(outcomes));
            },
        }
    } else {
        assert(s.reports@ + failures(outcomes) =~= s.reports@);
    }
}

/// Each failure of `process` reaches the sink as a runtime or client failure.
proof fn lemma_failures_are_process_failures(outcomes: Seq<VoidRes>)
    ensures
        forall|i: int| 0 <= i < failures(outcomes).len() ==> is_process_failure(#[trigger] failures(outcomes)[i]),
    decreases outcomes.len(),
{
    if outcomes.len() > 0 {
        lemma_failures_are_process_failures(outcomes.drop_first());
        let rest = failures(outcomes.drop_first());
        match outcomes[0] {
            Ok(_) => {},
            Err(e) => {
                assert forall|i: int| 0 <= i < failures(outcomes).len() implies is_process_failure(
                    #[trigger] failures(outcomes)[i],
                ) by {
                    if i > 0 {
                        assert(failures(outcomes)[i] == rest[i - 1]);
                    }
                }
            },
        }
    }
}

/// Once a supervisor is finished, nothing the channel or the service does
/// changes it.
pub proof fn lemma_finished_is_final<M>(s: Supervisor<M>, ms: Seq<M>, outcomes: Seq<VoidRes>)
    requires
        s.phase == Phase::Finished,
    ensures
        on_serving(s, ms, outcomes) == s,
    decreases ms.len(),
{
    if ms.len() > 0 && outcomes.len() > 0 {
        lemma_finished_is_final(s, ms.drop_first(), outcomes.drop_first());
    }
}

/// Nothing reaches `process` before `start` has succeeded: until then neither
/// a message nor an outcome of `process` changes the supervisor.
pub proof fn lemma_nothing_before_start<M>(id: ServerId, next: Option<M>, outcome: VoidRes)
    ensures
        on_message(fresh::<M>(id), next) == fresh::<M>(id),
        on_processed(fresh::<M>(id), outcome) == fresh::<M>(id),
        on_start(fresh::<M>(id), Ok(())).delivered@.len() == 0,
{
}

/// A failed start ends the service at once: exactly one failure is reported,
/// a start failure that names the service and carries the reason it failed
/// with, and no message sent afterwards ever reaches `process`.
pub proof fn lemma_start_failure_isolated<M>(id: ServerId, e: KernelError, ms: Seq<M>, outcomes: Seq<VoidRes>)
    ensures
        on_start(fresh::<M>(id), Err(e)).phase == Phase::Finished,
        on_serving(on_start(fresh::<M>(id), Err(e)), ms, outcomes).delivered@.len() == 0,
        on_serving(on_start(fresh::<M>(id), Err(e)), ms, outcomes).reports@
            == seq![KernelError::Server(ServerError::StartError(reason_of(e), id))],
{
    let t = on_start(fresh::<M>(id), Err(e));
    assert(t.reports@ =~= seq![KernelError::Server(ServerError::StartError(reason_of(e), id))]);
    lemma_finished_is_final(t, ms, outcomes);
}

/// The end of the channel, which comes once every handle is dropped, finishes
/// a running service without reporting anything; it is the only event that
/// finishes one.
pub proof fn lemma_closure_ends_cleanly<M>(s: Supervisor<M>, m: M, outcome: VoidRes)
    requires
        s.phase == Phase::Running,
    ensures
        on_message(s, None).phase == Phase::Finished,
        on_message(s, None).reports == s.reports,
        on_message(s, None).delivered == s.delivered,
        on_message(s, Some(m)).phase == Phase::Running,
        on_processed(s, outcome).phase == Phase::Running,
{
}

impl<M> Supervisor<M> {
    pub fn new(id: ServerId) -> (r: Self)
        ensures
            r == fresh::<M>(id),
    {
        Supervisor { id, phase: Phase::Starting, delivered: Ghost(Seq::empty()), reports: Ghost(Seq::empty()) }
    }

    pub fn is_finished(&self) -> (r: bool)
        ensures
            r == (self.phase == Phase::Finished),
    {
        self.phase == Phase::Finished
    }

    /// Takes the outcome of `start`; returns the failure to report, if any.
    pub fn started(&mut self, outcome: VoidRes) -> (report: Option<KernelError>)
        requires
            old(self).phase == Phase::Starting,
        ensures
            *final(self) == on_start(*old(self), outcome),
            report == match outcome {
                Ok(_) => None,
                Err(e) => Some(start_failure(e, old(self).id)),
            },
    {
        match outcome {
            Ok(()) => {
                self.phase = Phase::Running;
                None
            },
            Err(e) => {
                let report = KernelError::Server(ServerError::StartError(e.into_reason(), self.id.clone()));
                self.phase = Phase::Finished;
                self.reports = Ghost(self.reports@.push(report));
                Some(report)
            },
        }
    }

    /// Takes what the channel yielded; returns the message to process, if any.
    pub fn received(&mut self, next: Option<M>) -> (work: Option<M>)
        requires
            old(self).phase == Phase::Running,
        ensures
            *final(self) == on_message(*old(self), next),
            work == next,
    {
        match next {
            Some(m) => {
                self.delivered = Ghost(self.delivered@.push(m));
                Some(m)
            },
            None => {
                self.phase = Phase::Finished;
                None
            },
        }
    }

    /// Takes the outcome of `process`; returns the failure to report, if any.
    pub fn processed(&mut self, outcome: VoidRes) -> (report: Option<KernelError>)
        requires
            old(self).phase == Phase::Running,
        ensures
            *final(self) == on_processed(*old(self), outcome),
            report == match outcome {
                Ok(_) => None,
                Err(e) => Some(process_failure(e)),
            },
    {
        match outcome {
            Ok(()) => None,
            Err(e) => {
                let report = match e {
                    KernelError::Server(ServerError::RuntimeError(r)) => KernelError::Server(ServerError::RuntimeError(r)),
                    KernelError::Server(ServerError::ClientError(r)) => KernelError::Server(ServerError::ClientError(r)),
                    other => KernelError::Server(ServerError::RuntimeError(other.into_reason())),
                };
                self.reports = Ghost(self.reports@.push(report));
                Some(report)
            },
        }
    }

    /// Starts `server`; returns the failure to hand to the error sink, if any.
    /// A failed start finishes the supervisor before any message is processed.
    pub fn begin<S: Server<M>>(&mut self, server: &mut S) -> (report: Option<KernelError>)
        requires
            old(self).phase == Phase::Starting,
        ensures
            exists|outcome: VoidRes|
                *final(self) == on_start(*old(self), outcome) && report == match outcome {
                    Ok(_) => None,
                    Err(e) => Some(start_failure(e, old(self).id)),
                },
    {
        let outcome = server.start();
        self.started(outcome)
    }

    /// Handles what the channel yielded: a message goes to `server.process`,
    /// the end of the channel finishes the supervisor. Returns the failure to
    /// hand to the error sink, if any.
    pub fn serve<S: Server<M>>(&mut self, server: &mut S, next: Option<M>) -> (report: Option<KernelError>)
        requires
            old(self).phase == Phase::Running,
        ensures
            next is None ==> *final(self) == on_message(*old(self), next) && report is None,
            next is Some ==> exists|outcome: VoidRes|
                *final(self) == on_processed(on_message(*old(self), next), outcome) && report == match outcome {
                    Ok(_) => None,
                    Err(e) => Some(process_failure(e)),
                },
    {
        match self.received(next) {
            Some(m) => {
                let outcome = server.process(m);
                self.processed(outcome)
            },
            None => None,
        }
    }
}

} // verus!
