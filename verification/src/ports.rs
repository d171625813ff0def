//! Port ranges: which block of ports a new workspace gets.
//!
//! Only the first port of a range is ever probed; the rest of the range is
//! taken to be free with it.

use vstd::prelude::*;
use vstd::string::*;
use std::collections::HashSet;
use crate::error::{AppError, ErrorKind, ErrorView};

verus! {

/// The number of ports in the range of one workspace.
pub const PORT_RANGE_SIZE: u16 = 10;

/// The first port that a range may start at.
pub const PORT_START: u16 = 3000;

/// The bound below which every range starts.
pub const PORT_MAX: u16 = 65000;

/// Whether a range may start at `port`: the candidates are `PORT_START`,
/// `PORT_START + PORT_RANGE_SIZE`, and so on, below `PORT_MAX`.
pub open spec fn is_candidate(port: int) -> bool {
    &&& PORT_START <= port < PORT_MAX
    &&& (port - PORT_START) % (PORT_RANGE_SIZE as int) == 0
}

/// Whether `port` is a candidate that no workspace owns and that was not found
/// bound by another program.
pub open spec fn is_free(port: u16, allocated: Set<u16>, busy: Set<u16>) -> bool {
    is_candidate(port as int) && !allocated.contains(port) && !busy.contains(port)
}

/// Whether `port` is the lowest free candidate.
pub open spec fn is_first_free(port: u16, allocated: Set<u16>, busy: Set<u16>) -> bool {
    &&& is_free(port, allocated, busy)
    &&& forall|lower: u16| lower < port ==> !is_free(lower, allocated, busy)
}

/// The lowest free candidate, if there is a free one.
pub open spec fn first_free(allocated: Set<u16>, busy: Set<u16>) -> Option<u16> {
    if exists|port: u16| is_first_free(port, allocated, busy) {
        Some(choose|port: u16| is_first_free(port, allocated, busy))
    } else {
        None
    }
}

/// The lowest free candidate is what `first_free` gives.
pub proof fn lemma_first_free_found(port: u16, allocated: Set<u16>, busy: Set<u16>)
    requires
        is_first_free(port, allocated, busy),
    ensures
        first_free(allocated, busy) == Some(port),
{
    let chosen = choose|p: u16| is_first_free(p, allocated, busy);
    assert(is_first_free(chosen, allocated, busy));
    if chosen < port {
        assert(!is_free(chosen, allocated, busy));
    }
    if port < chosen {
        assert(!is_free(port, allocated, busy));
    }
}

/// What `first_free` says of the two sets, whichever way it answers.
pub proof fn lemma_first_free(allocated: Set<u16>, busy: Set<u16>)
    ensures
        match first_free(allocated, busy) {
            Some(port) => is_first_free(port, allocated, busy),
            None => forall|port: u16| !is_free(port, allocated, busy),
        },
{
    if first_free(allocated, busy) is None {
        assert forall|port: u16| !is_free(port, allocated, busy) by {
            if is_free(port, allocated, busy) {
                lemma_some_port_is_first(port, allocated, busy);
            }
        }
    }
}

/// Below a free candidate, or at it, lies the lowest free one.
pub proof fn lemma_some_port_is_first(port: u16, allocated: Set<u16>, busy: Set<u16>)
    requires
        is_free(port, allocated, busy),
    ensures
        exists|first: u16| first <= port && is_first_free(first, allocated, busy),
    decreases port,
{
    if exists|lower: u16| lower < port && is_free(lower, allocated, busy) {
        let lower = choose|lower: u16| lower < port && is_free(lower, allocated, busy);
        lemma_some_port_is_first(lower, allocated, busy);
    } else {
        assert(is_first_free(port, allocated, busy));
    }
}

/// The error of an allocation that found no free candidate.
pub open spec fn no_port_available() -> ErrorView {
    ErrorView { kind: ErrorKind::ResourceExhausted, message: "No available port range found"@ }
}

/// Picks the port range of a new workspace: the lowest candidate that is
/// neither in `allocated`, the ports that workspaces own, nor in `busy`, the
/// candidates that a bind probe found taken. Nothing is recorded: the caller
/// adds the port to the allocated ones while it still holds the table.
pub fn allocate_port_range(allocated: &HashSet<u16>, busy: &HashSet<u16>) -> (port: Result<
    u16,
    AppError,
>)
    ensures
        match port {
            Ok(p) => first_free(allocated@, busy@) == Some(p),
            Err(e) => first_free(allocated@, busy@) is None && e@ == no_port_available(),
        },
{
    let mut port: u16 = PORT_START;
    while port < PORT_MAX
        invariant
            PORT_START <= port <= PORT_MAX,
            (port - PORT_START) % (PORT_RANGE_SIZE as int) == 0,
            forall|lower: u16| lower < port ==> !is_free(lower, allocated@, busy@),
        decreases PORT_MAX - port,
    {
        if !allocated.contains(&port) && !busy.contains(&port) {
            proof {
                lemma_first_free_found(port, allocated@, busy@);
            }
            return Ok(port);
        }
        port += PORT_RANGE_SIZE;
    }
    proof {
        lemma_first_free(allocated@, busy@);
    }
    Err(AppError::new(ErrorKind::ResourceExhausted, "No available port range found"))
}

} // verus!
