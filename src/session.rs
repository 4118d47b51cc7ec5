//! Decisions of a USB session: endpoint selection during setup, the
//! configuration workaround, and what each bulk read leads to.

use vstd::prelude::*;
use crate::report::{PenState, decode_report, pen_state_of};
use crate::emitter::{PenEvent, batch_of, event_batch};

verus! {

/// Failures of the driver, each contained to one device.
#[derive(Clone, Copy, Debug, PartialEq, Eq, Structural)]
pub enum DriverError {
    /// The device descriptor could not be read at discovery.
    Identity,
    /// Opening, detaching the kernel driver or claiming an interface failed.
    Setup,
    /// No interface of the configuration has an endpoint.
    NoEndpoint,
    /// A read found no data within its timeout.
    TransportTimeout,
    /// The device went away.
    TransportDisconnect,
    /// Any other transport fault.
    TransportOther,
}

/// How a bulk read failed.
#[derive(Clone, Copy, Debug, PartialEq, Eq, Structural)]
pub enum TransportError {
    Timeout,
    Disconnect,
    Other,
}

/// What the read loop does after one read.
#[derive(Debug)]
pub enum SessionStep {
    /// No data came in time: read again.
    Wait,
    /// A frame came: inject these events, then read again.
    Emit(Vec<PenEvent>),
    /// A transient fault: report it, then read again.
    Skip(TransportError),
    /// The session is over.
    End(DriverError),
}

/// The configuration value after which the device needs a pause and a
/// second setting of the configuration.
pub const REASSERTED_CONFIGURATION: u8 = 1;

/// The read endpoint: the first endpoint of the first interface that has one.
pub open spec fn first_endpoint(interfaces: Seq<Seq<u8>>) -> Option<u8>
    decreases interfaces.len(),
{
    if interfaces.len() == 0 {
        None
    } else if interfaces[0].len() > 0 {
        Some(interfaces[0][0])
    } else {
        first_endpoint(interfaces.drop_first())
    }
}

/// Whether a step ends the session.
pub open spec fn ends_session(s: SessionStep) -> bool {
    s is End
}

/// Whether the active configuration reported by the opened device calls for
/// the pause and the second setting of configuration 1.
pub fn should_reassert_configuration(active: Option<u8>) -> (r: bool)
    ensures
        r == (active == Some(REASSERTED_CONFIGURATION)),
{
    match active {
        Some(c) => c == REASSERTED_CONFIGURATION,
        None => false,
    }
}

/// Whether an interface's kernel driver must be detached before the
/// interface is claimed, from the answer to the query whether one is active
/// (`None` when the query failed, which is fatal to the session).
pub fn needs_detach(kernel_driver_active: Option<bool>) -> (r: Result<bool, DriverError>)
    ensures
        kernel_driver_active matches Some(a) ==> r == Ok::<bool, DriverError>(a),
        kernel_driver_active is None ==> r == Err::<bool, DriverError>(DriverError::Setup),
{
    match kernel_driver_active {
        Some(active) => Ok(active),
        None => Err(DriverError::Setup),
    }
}

/// Picks the read endpoint from the endpoint addresses of each interface, in
/// interface order; fails with `NoEndpoint` when no interface has one.
pub fn select_endpoint(interfaces: &Vec<Vec<u8>>) -> (r: Result<u8, DriverError>)
    ensures
        first_endpoint(interfaces@.map_values(|v: Vec<u8>| v@)) matches Some(e) ==> r == Ok::<u8, DriverError>(e),
        first_endpoint(interfaces@.map_values(|v: Vec<u8>| v@)) is None ==> r == Err::<u8, DriverError>(DriverError::NoEndpoint),
{
    let ghost all = interfaces@.map_values(|v: Vec<u8>| v@);
    assert(all.subrange(0, all.len() as int) =~= all);
    let mut i: usize = 0;
    while i < interfaces.len()
        invariant
            0 <= i <= interfaces@.len(),
            all == interfaces@.map_values(|v: Vec<u8>| v@),
            first_endpoint(all) == first_endpoint(all.subrange(i as int, all.len() as int)),
        decreases interfaces@.len() - i,
    {
        let ghost rest = all.subrange(i as int, all.len() as int);
        assert(rest.drop_first() =~= all.subrange(i + 1, all.len() as int));
        if interfaces[i].len() > 0 {
            return Ok(interfaces[i][0]);
        }
        i = i + 1;
    }
    assert(all.subrange(i as int, all.len() as int).len() == 0);
    Err(DriverError::NoEndpoint)
}

/// What one bulk read leads to. A timeout never ends the session, a
/// disconnect always does, any other fault is reported and the loop goes on,
/// and a frame is decoded into its event batch.
pub fn handle_read(read: Result<(), TransportError>, frame: [u8; 12]) -> (r: SessionStep)
    ensures
        read == Err::<(), TransportError>(TransportError::Timeout) ==> r is Wait,
        read == Err::<(), TransportError>(TransportError::Disconnect) ==> (r matches SessionStep::End(e) && e == DriverError::TransportDisconnect),
        read == Err::<(), TransportError>(TransportError::Other) ==> (r matches SessionStep::Skip(e) && e == TransportError::Other),
        read is Ok ==> (r matches SessionStep::Emit(events) && events@ == batch_of(pen_state_of(frame@))),
        ends_session(r) <==> read == Err::<(), TransportError>(TransportError::Disconnect),
{
    match read {
        Err(TransportError::Timeout) => SessionStep::Wait,
        Err(TransportError::Disconnect) => SessionStep::End(DriverError::TransportDisconnect),
        Err(e) => SessionStep::Skip(e),
        Ok(()) => {
            let pen: PenState = decode_report(frame);
            SessionStep::Emit(event_batch(&pen))
        },
    }
}

} // verus!
