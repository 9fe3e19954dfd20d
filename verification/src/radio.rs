use vstd::prelude::*;

use crate::claim::{claim_grants, pool_after_claim, pool_after_release};
use crate::config::{ApModel, AccessPointInfo, aps_model};
use crate::error::EspError;

verus! {

/// The physical Wi-Fi radio, as the unclaimed pool it rests in.  At most one
/// [`RadioPeripheralHandle`] is live at a time; its view is `true` exactly
/// while a claim is live.
pub struct Modem {
    claimed: bool,
}

/// What the claimed radio sees of the world: the networks in range and how
/// long the firmware takes to report a scan.  The embedder (or a test) sets
/// these; the driver only reads them.
pub struct RadioPeripheralHandle {
    pub networks_in_range: Vec<AccessPointInfo>,
    pub scan_duration_ms: u64,
}

/// Mathematical image of a [`RadioPeripheralHandle`].
#[verifier::ext_equal]
pub ghost struct RadioEnv {
    pub networks: Seq<ApModel>,
    pub scan_duration_ms: u64,
}

impl View for RadioPeripheralHandle {
    type V = RadioEnv;

    open spec fn view(&self) -> RadioEnv {
        RadioEnv {
            networks: aps_model(self.networks_in_range@),
            scan_duration_ms: self.scan_duration_ms,
        }
    }
}

impl View for Modem {
    type V = bool;

    closed spec fn view(&self) -> bool {
        self.claimed
    }
}

impl Modem {
    /// The radio at process start: unclaimed.
    pub fn new() -> (r: Self)
        ensures
            !r@,
    {
        Modem { claimed: false }
    }

    /// Claim the radio exclusively.  Refused with `ResourceUnavailable`
    /// exactly while an earlier claim is live; a granted claim hands out a
    /// handle that sees no networks until the embedder reports some.
    pub fn claim(&mut self) -> (r: Result<RadioPeripheralHandle, EspError>)
        ensures
            final(self)@ == pool_after_claim(old(self)@),
            r is Ok <==> claim_grants(old(self)@),
            !claim_grants(old(self)@) ==> r == Err::<RadioPeripheralHandle, EspError>(
                EspError::ResourceUnavailable,
            ),
            r is Ok ==> (r->Ok_0)@ == (RadioEnv {
                networks: Seq::empty(),
                scan_duration_ms: 0u64,
            }),
    {
        if self.claimed {
            Err(EspError::ResourceUnavailable)
        } else {
            self.claimed = true;
            let handle = RadioPeripheralHandle { networks_in_range: Vec::new(), scan_duration_ms: 0 };
            proof {
                assert(handle@.networks =~= Seq::<ApModel>::empty());
            }
            Ok(handle)
        }
    }

    /// Return a handle to the pool; afterwards a new claim succeeds.
    pub fn release(&mut self, handle: RadioPeripheralHandle)
        ensures
            final(self)@ == pool_after_release(old(self)@),
    {
        let _ = handle;
        self.claimed = false;
    }
}

} // verus!
