use vstd::prelude::*;

use core::marker::PhantomData;
use crate::config::WifiDeviceId;
use crate::error::EspError;
use crate::netif::IpInfo;

verus! {

/// Marker for the process-wide system event loop.
pub struct System;

/// A notification the radio or the IP stack posts on the event loop.
#[derive(Clone, Copy, Debug, PartialEq, Eq, Structural)]
pub enum WifiEvent {
    /// A role finished associating (for the station role: joined the network).
    AssociationSuccess(WifiDeviceId),
    /// A role lost its association; the second field is the firmware's reason
    /// code.
    AssociationLost(WifiDeviceId, u16),
    /// The radio finished a scan.
    ScanDone,
    /// The IP stack assigned an address to the station interface.
    IpAcquired(IpInfo),
    /// The firmware reported an unrecoverable fault.
    RadioFault,
}

/// The publish side of the event dispatcher: events are queued in posting
/// order and handed to the driver in that same order.  The loop keeps no
/// history: an event once delivered is gone.
pub struct EspEventLoop<T> {
    queue: Vec<WifiEvent>,
    marker: PhantomData<T>,
}

/// The singleton system loop.
pub type EspSystemEventLoop = EspEventLoop<System>;

impl<T> View for EspEventLoop<T> {
    type V = Seq<WifiEvent>;

    closed spec fn view(&self) -> Seq<WifiEvent> {
        self.queue@
    }
}

impl EspEventLoop<System> {
    /// Obtain the system loop handle.  In this model the underlying loop
    /// always initializes, so the call always succeeds, with no events
    /// pending.
    pub fn take() -> (r: Result<Self, EspError>)
        ensures
            r is Ok,
            r is Ok ==> (r->Ok_0)@ == Seq::<WifiEvent>::empty(),
    {
        Ok(EspEventLoop { queue: Vec::new(), marker: PhantomData })
    }
}

impl<T> EspEventLoop<T> {
    /// A producer posts an event; it joins the back of the queue.
    pub fn post(&mut self, ev: WifiEvent)
        ensures
            final(self)@ == old(self)@.push(ev),
    {
        self.queue.push(ev);
    }

    /// The dispatcher takes the oldest pending event, if any.
    pub fn next_event(&mut self) -> (r: Option<WifiEvent>)
        ensures
            old(self)@.len() == 0 ==> r is None && final(self)@ == old(self)@,
            old(self)@.len() > 0 ==> r == Some(old(self)@.first()) && final(self)@ == old(self)@.remove(
                0,
            ),
    {
        if self.queue.len() == 0 {
            None
        } else {
            Some(self.queue.remove(0))
        }
    }

    /// How many events are pending.
    pub fn pending(&self) -> (r: usize)
        ensures
            r == self@.len(),
    {
        self.queue.len()
    }
}

} // verus!
