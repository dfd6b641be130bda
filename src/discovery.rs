//! Discovery of the register identifiers that a virtual CPU exposes.
//!
//! The hypervisor lists registers only into a list that the caller sized
//! beforehand. Discovery therefore probes with a fixed capacity; when that
//! is too small the hypervisor reports the true count, and discovery asks
//! once more with exactly that capacity. A second failure is fatal. The
//! machine here makes these decisions; its caller performs each request
//! and hands back the reply.
use vstd::prelude::*;

verus! {

/// The capacity of the first request.
pub const PROBE_CAPACITY: usize = 500;

/// The hypervisor's answer to a request for the register list.
pub enum ListReply<E> {
    /// The list fit: these are the identifiers.
    Listed(Vec<u64>),
    /// The request failed; `reported_count` is the number of registers that
    /// the hypervisor reported alongside the failure.
    Failed { reported_count: usize, error: E },
}

/// Where discovery stands.
#[derive(Clone, Copy, Debug, PartialEq, Eq, Structural)]
pub enum Discovery {
    /// The first request, of the given capacity, is out.
    Probing { capacity: usize },
    /// The second request, sized to the reported count, is out.
    Resizing { capacity: usize },
    /// Discovery has ended.
    Finished,
}

/// What the caller does next.
pub enum DiscoveryStep<E> {
    /// Ask for the register list with room for `capacity` identifiers.
    Request { capacity: usize },
    /// Discovery is complete: these are the identifiers.
    Done(Vec<u64>),
    /// The request sized to the reported count failed too.
    ResizeFailed(E),
}

/// The next state, and what to do, after a reply in a given state.
pub open spec fn next_step<E>(state: Discovery, reply: ListReply<E>) -> (Discovery, DiscoveryStep<E>) {
    match reply {
        ListReply::Listed(ids) => (Discovery::Finished, DiscoveryStep::Done(ids)),
        ListReply::Failed { reported_count, error } => match state {
            Discovery::Probing { .. } => (
                Discovery::Resizing { capacity: reported_count },
                DiscoveryStep::Request { capacity: reported_count },
            ),
            _ => (Discovery::Finished, DiscoveryStep::ResizeFailed(error)),
        },
    }
}

impl Discovery {
    /// Starts discovery with a first request of the given capacity.
    pub fn start(capacity: usize) -> (r: (Discovery, usize))
        ensures
            r.0 == (Discovery::Probing { capacity }),
            r.1 == capacity,
    {
        (Discovery::Probing { capacity }, capacity)
    }

    /// Whether a request is still out.
    pub open spec fn is_waiting(self) -> bool {
        !(self is Finished)
    }

    /// Takes the reply to the request that is out, and says what to do next.
    pub fn on_reply<E>(&mut self, reply: ListReply<E>) -> (r: DiscoveryStep<E>)
        requires
            old(self).is_waiting(),
        ensures
            (*final(self), r) == next_step(*old(self), reply),
    {
        match reply {
            ListReply::Listed(ids) => {
                *self = Discovery::Finished;
                DiscoveryStep::Done(ids)
            },
            ListReply::Failed { reported_count, error } => match *self {
                Discovery::Probing { .. } => {
                    *self = Discovery::Resizing { capacity: reported_count };
                    DiscoveryStep::Request { capacity: reported_count }
                },
                _ => {
                    *self = Discovery::Finished;
                    DiscoveryStep::ResizeFailed(error)
                },
            },
        }
    }
}

/// How a hypervisor that exposes `ids` answers a request of `capacity`: the
/// list if it fits, else a failure that reports how many there are.
pub open spec fn listing_reply<E>(ids: Vec<u64>, capacity: usize, error: E) -> ListReply<E> {
    if capacity >= ids.len() {
        ListReply::Listed(ids)
    } else {
        ListReply::Failed { reported_count: ids.len() as usize, error }
    }
}

/// Runs discovery from `state`, with a request of `capacity` out, against a
/// hypervisor that exposes `ids`, for at most `fuel` further requests. Gives
/// the final step and the number of requests made.
pub open spec fn run_discovery<E>(
    state: Discovery,
    capacity: usize,
    ids: Vec<u64>,
    error: E,
    fuel: nat,
) -> (DiscoveryStep<E>, nat)
    decreases fuel,
{
    let (next, step) = next_step(state, listing_reply(ids, capacity, error));
    match step {
        DiscoveryStep::Request { capacity: c } => if fuel == 0 {
            (step, 1)
        } else {
            let (last, n) = run_discovery(next, c, ids, error, (fuel - 1) as nat);
            (last, n + 1)
        },
        _ => (step, 1),
    }
}

/// Against a hypervisor whose registers do not fit the probe, discovery
/// makes exactly two requests and ends with all the identifiers; when they
/// fit, one request is enough. `fuel` is the number of further requests
/// allowed after the probe.
pub proof fn lemma_discovery_resizes_once<E>(capacity: usize, ids: Vec<u64>, error: E, fuel: nat)
    requires
        ids.len() <= usize::MAX,
        fuel >= 1,
    ensures
        capacity < ids.len() ==> run_discovery(
            Discovery::Probing { capacity },
            capacity,
            ids,
            error,
            fuel,
        ) == (DiscoveryStep::<E>::Done(ids), 2nat),
        capacity >= ids.len() ==> run_discovery(
            Discovery::Probing { capacity },
            capacity,
            ids,
            error,
            fuel,
        ) == (DiscoveryStep::<E>::Done(ids), 1nat),
{
    reveal_with_fuel(run_discovery, 3);
}

} // verus!
