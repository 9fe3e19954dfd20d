use vstd::prelude::*;

use crate::error::EspError;

verus! {

/// An IPv4 quantity, held as its four octets.
#[derive(Clone, Copy, Debug, PartialEq, Eq, Structural)]
pub struct Ipv4Addr {
    pub o0: u8,
    pub o1: u8,
    pub o2: u8,
    pub o3: u8,
}

/// The interface's assigned IP configuration.  Absent until the external IP
/// stack assigns an address.
#[derive(Clone, Copy, Debug, PartialEq, Eq, Structural)]
pub struct IpInfo {
    pub ip: Ipv4Addr,
    pub netmask: Ipv4Addr,
    pub gateway: Ipv4Addr,
}

/// Read-only handle on a network interface's IP configuration.  Written only
/// through [`EspNetif::assign_ip`], the internal update path that the
/// IP-acquired event triggers.
pub struct EspNetif {
    assigned: Option<IpInfo>,
}

impl View for EspNetif {
    type V = Option<IpInfo>;

    closed spec fn view(&self) -> Option<IpInfo> {
        self.assigned
    }
}

impl EspNetif {
    /// A fresh interface handle with no address yet.
    pub fn new() -> (r: Self)
        ensures
            r@ is None,
    {
        EspNetif { assigned: None }
    }

    /// The assigned IP configuration, or `InvalidState` while no address has
    /// been assigned.
    pub fn get_ip_info(&self) -> (r: Result<IpInfo, EspError>)
        ensures
            self@ is Some ==> r == Ok::<IpInfo, EspError>(self@->0),
            self@ is None ==> r == Err::<IpInfo, EspError>(EspError::InvalidState),
    {
        match self.assigned {
            Some(info) => Ok(info),
            None => Err(EspError::InvalidState),
        }
    }

    /// Internal update path: the IP stack reports an assignment.
    pub fn assign_ip(&mut self, info: IpInfo)
        ensures
            final(self)@ == Some(info),
    {
        self.assigned = Some(info);
    }

    /// Internal update path: the assignment is gone (interface went down).
    pub fn clear_ip(&mut self)
        ensures
            final(self)@ is None,
    {
        self.assigned = None;
    }
}

} // verus!
