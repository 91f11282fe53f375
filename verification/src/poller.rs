use vstd::prelude::*;
use crate::intensity::IntensitySnapshot;
use crate::regional::{
    decode_regional, sp_decode, sp_first_snapshot, DecodeError, ProviderError, RegionalResult,
    RegionalResultV,
};

verus! {

/// A fetch attempt that produced no usable body: endpoint unreachable,
/// timeout, non-2xx status or an unreadable response. Carries detail enough
/// to log; never silently replaced by a placeholder value.
#[derive(Clone, Debug, PartialEq, Eq)]
pub struct TransportError {
    pub detail: String,
}

/// A fault local to one tick: logged, the tick is skipped, the channel is
/// left unchanged, and polling continues on the next interval.
pub enum TickFault {
    Transport(TransportError),
    Decode(DecodeError),
}

/// What one tick of the poller decides.
pub enum TickAction {
    /// A fresh snapshot: write it to the latest-value channel.
    Publish(IntensitySnapshot),
    /// Skip this tick and keep polling.
    Skip(TickFault),
    /// The provider's own structured error: a configuration mistake, fatal
    /// to the poller, which halts rather than retry forever.
    Halt(ProviderError),
}

/// One tick of the poller, given the outcome of the fetch: decode the body,
/// halt on the provider's own error shape, publish the first window's
/// snapshot, and treat an empty data or window list as a tick-local decode
/// fault.
pub fn poll_tick(fetched: Result<String, TransportError>) -> (r: TickAction)
    ensures
        match fetched {
            Err(t) => r == TickAction::Skip(TickFault::Transport(t)),
            Ok(body) => match sp_decode(body@) {
                Err(e) => r == TickAction::Skip(TickFault::Decode(e)),
                Ok(res) => match res {
                    RegionalResultV::Error(pe) => r matches TickAction::Halt(h) && h@ == pe,
                    RegionalResultV::Data(items) => match sp_first_snapshot(
                        RegionalResultV::Data(items),
                    ) {
                        Some(s) => r == TickAction::Publish(s),
                        None => r == TickAction::Skip(TickFault::Decode(DecodeError::EmptyData)),
                    },
                },
            },
        },
{
    match fetched {
        Err(t) => TickAction::Skip(TickFault::Transport(t)),
        Ok(body) => match decode_regional(body.as_str()) {
            Err(e) => TickAction::Skip(TickFault::Decode(e)),
            Ok(res) => match res {
                RegionalResult::Error(pe) => TickAction::Halt(pe),
                d @ RegionalResult::Data(_) => match d.first_snapshot() {
                    Some(s) => TickAction::Publish(s),
                    None => TickAction::Skip(TickFault::Decode(DecodeError::EmptyData)),
                },
            },
        },
    }
}

} // verus!
