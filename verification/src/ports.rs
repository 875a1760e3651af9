//! Listener acquisition policy: bind to the requested port, and when it is
//! occupied either fail at once or walk upward one port at a time until a
//! free port is found, depending on the fallback flag.

use vstd::prelude::*;

verus! {

/// Why acquiring a listening port failed.
#[derive(Clone, Copy, Debug, PartialEq, Eq, Structural)]
pub enum AcquireError {
    /// The requested port is occupied and fallback is disabled.
    AddrInUse,
    /// Fallback walked past the largest port without finding a free one.
    Exhausted,
    /// Binding failed for a reason other than the address being in use.
    BindFailed,
}

/// What one attempt to bind a port reported.
#[derive(Clone, Copy, Debug, PartialEq, Eq, Structural)]
pub enum BindOutcome {
    /// The port was bound successfully.
    Bound,
    /// The address is already in use.
    AddrInUse,
    /// Any other bind error (permission denied, invalid address, ...).
    OtherError,
}

/// The decision taken after one bind attempt.
#[derive(Clone, Copy, Debug, PartialEq, Eq, Structural)]
pub enum PortAction {
    /// Keep the bound listener; the payload is the effective port.
    Accept(u16),
    /// Try again on the next port.
    Retry(u16),
    /// Give up with the given error.
    Fail(AcquireError),
}

/// One step of the listener-acquisition loop: given the port just attempted,
/// the fallback flag, and the outcome of the bind attempt, decide whether to
/// accept the listener, retry on the next port, or fail.
pub fn port_step(port: u16, allow_fallback: bool, outcome: BindOutcome) -> (r: PortAction)
    ensures
        outcome == BindOutcome::Bound ==> r == PortAction::Accept(port),
        outcome == BindOutcome::AddrInUse && !allow_fallback ==> r == PortAction::Fail(
            AcquireError::AddrInUse,
        ),
        outcome == BindOutcome::AddrInUse && allow_fallback && port < u16::MAX ==> r
            == PortAction::Retry((port + 1) as u16),
        outcome == BindOutcome::AddrInUse && allow_fallback && port == u16::MAX ==> r
            == PortAction::Fail(AcquireError::Exhausted),
        outcome == BindOutcome::OtherError ==> r == PortAction::Fail(AcquireError::BindFailed),
{
    match outcome {
        BindOutcome::Bound => PortAction::Accept(port),
        BindOutcome::AddrInUse => {
            if !allow_fallback {
                PortAction::Fail(AcquireError::AddrInUse)
            } else if port < u16::MAX {
                PortAction::Retry(port + 1)
            } else {
                PortAction::Fail(AcquireError::Exhausted)
            }
        },
        BindOutcome::OtherError => PortAction::Fail(AcquireError::BindFailed),
    }
}

/// Whether `ports` lists `p`.
fn contains_port(ports: &Vec<u16>, p: u16) -> (r: bool)
    ensures
        r == ports@.contains(p),
{
    let mut i: usize = 0;
    while i < ports.len()
        invariant
            i <= ports@.len(),
            forall|j: int| 0 <= j < i ==> ports@[j] != p,
        decreases ports@.len() - i,
    {
        if ports[i] == p {
            return true;
        }
        i += 1;
    }
    false
}

/// Select the effective port, given the set of occupied ports.
///
/// Models the acquisition loop against a known occupancy: the requested port
/// is taken when free; when it is occupied, fallback (if enabled) yields the
/// smallest free port reachable by successive increments, and disabled
/// fallback fails at once with an address-in-use error.
pub fn select_port(requested: u16, allow_fallback: bool, occupied: &Vec<u16>) -> (r: Result<
    u16,
    AcquireError,
>)
    ensures
        !occupied@.contains(requested) ==> r == Ok::<u16, AcquireError>(requested),
        r == Err::<u16, AcquireError>(AcquireError::AddrInUse) <==> (occupied@.contains(requested)
            && !allow_fallback),
        r matches Ok(p) ==> {
            &&& !occupied@.contains(p)
            &&& p >= requested
            &&& forall|q: u16| requested <= q < p ==> occupied@.contains(q)
        },
        r == Err::<u16, AcquireError>(AcquireError::Exhausted) <==> (allow_fallback && forall|
            q: u16,
        |
            q >= requested ==> occupied@.contains(q)),
        r != Err::<u16, AcquireError>(AcquireError::BindFailed),
{
    let mut port = requested;
    loop
        invariant
            requested <= port,
            forall|q: u16| requested <= q < port ==> occupied@.contains(q),
            allow_fallback || port == requested,
        decreases u16::MAX - port,
    {
        let outcome = if contains_port(occupied, port) {
            BindOutcome::AddrInUse
        } else {
            BindOutcome::Bound
        };
        match port_step(port, allow_fallback, outcome) {
            PortAction::Accept(p) => {
                return Ok(p);
            },
            PortAction::Retry(next) => {
                port = next;
            },
            PortAction::Fail(e) => {
                return Err(e);
            },
        }
    }
}

} // verus!
