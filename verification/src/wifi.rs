use vstd::prelude::*;

use crate::config::{AccessPointInfo, Configuration, ScanConfig, WifiDeviceId, aps_model};
use crate::driver::{
    ConnectionState, DriverView, SCAN_TIMEOUT_MS, WifiDriver, connect_ok, disconnect_ok,
    opt_nvs_view, persist_accepted, persisted_map, radio_active, restored_config,
    state_after_connect, state_after_start, view_after_event,
};
use crate::config::{filter_matching, valid_configuration};
use crate::error::EspError;
use crate::eventloop::{EspSystemEventLoop, WifiEvent};
use crate::netif::{EspNetif, IpInfo};
use crate::nvs::{EspNvs, NvsDefault, NvsView};
use crate::radio::{Modem, RadioPeripheralHandle};
use crate::claim::pool_after_release;

verus! {

/// The facade an application uses: the driver composed with the station
/// interface handle, delegating the whole start/stop/connect/scan surface and
/// routing IP events to the interface.
pub struct EspWifi {
    drv: WifiDriver,
    sta_netif: EspNetif,
}

/// Mathematical image of an [`EspWifi`].
#[verifier::ext_equal]
pub ghost struct WifiView {
    pub drv: DriverView,
    pub netif: Option<IpInfo>,
}

impl View for EspWifi {
    type V = WifiView;

    closed spec fn view(&self) -> WifiView {
        WifiView { drv: self.drv@, netif: self.sta_netif@ }
    }
}

/// The interface's IP state after one notification: an acquired address is
/// recorded, a lost station association clears it.
pub open spec fn netif_after_event(n: Option<IpInfo>, ev: WifiEvent) -> Option<IpInfo> {
    match ev {
        WifiEvent::IpAcquired(info) => Some(info),
        WifiEvent::AssociationLost(dev, _) => if dev == WifiDeviceId::Sta {
            None
        } else {
            n
        },
        _ => n,
    }
}

impl EspWifi {
    /// The facade's internal well-formedness.
    pub closed spec fn wf(&self) -> bool {
        self.drv.wf()
    }

    /// Build the facade around an exclusively claimed radio handle; the
    /// interface has no address yet, and a supplied store's persisted
    /// configuration is restored, as in [`WifiDriver::new`].
    pub fn new(
        radio: RadioPeripheralHandle,
        sysloop: EspSystemEventLoop,
        nvs: Option<EspNvs<NvsDefault>>,
    ) -> (r: Result<EspWifi, EspError>)
        requires
            nvs is Some ==> nvs->0.wf(),
        ensures
            r is Ok,
            r is Ok ==> (r->Ok_0).wf() && (r->Ok_0)@ == (WifiView {
                drv: DriverView {
                    state: ConnectionState::Stopped,
                    scan_active: false,
                    scan_done: false,
                    scan_request: None,
                    results: Seq::empty(),
                    config: restored_config(opt_nvs_view(nvs)),
                    callbacks_registered: false,
                    rx_queue: Seq::empty(),
                    tx_queue: Seq::empty(),
                    events: sysloop@,
                    radio: radio@,
                    nvs: opt_nvs_view(nvs),
                },
                netif: None,
            }),
    {
        let drv = match WifiDriver::new(radio, sysloop, nvs) {
            Ok(d) => d,
            Err(e) => {
                return Err(e);
            },
        };
        Ok(EspWifi { drv, sta_netif: EspNetif::new() })
    }

    /// Shared view of the driver.
    pub fn driver(&self) -> (r: &WifiDriver)
        ensures
            r@ == self@.drv,
    {
        &self.drv
    }

    /// Exclusive access to the driver, for its mutating surface.
    pub fn driver_mut(&mut self) -> (r: &mut WifiDriver)
        ensures
            (*r)@ == old(self)@.drv,
            (*r).wf() == old(self).wf(),
            final(self)@ == (WifiView { drv: (*final(r))@, netif: old(self)@.netif }),
            final(self).wf() == (*final(r)).wf(),
    {
        &mut self.drv
    }

    /// Delegates to [`WifiDriver::start`].
    pub fn start(&mut self) -> (r: Result<(), EspError>)
        requires
            old(self).wf(),
        ensures
            final(self).wf(),
            r == Ok::<(), EspError>(()),
            final(self)@ == (WifiView {
                drv: DriverView {
                    state: state_after_start(old(self)@.drv.state),
                    ..old(self)@.drv
                },
                netif: old(self)@.netif,
            }),
    {
        self.drv.start()
    }

    /// Delegates to [`WifiDriver::stop`].
    pub fn stop(&mut self) -> (r: Result<(), EspError>)
        requires
            old(self).wf(),
        ensures
            final(self).wf(),
            r == Ok::<(), EspError>(()),
            final(self)@ == (WifiView {
                drv: DriverView {
                    state: ConnectionState::Stopped,
                    scan_active: false,
                    scan_request: None,
                    ..old(self)@.drv
                },
                netif: old(self)@.netif,
            }),
    {
        self.drv.stop()
    }

    /// Delegates to [`WifiDriver::connect`].
    pub fn connect(&mut self) -> (r: Result<(), EspError>)
        requires
            old(self).wf(),
        ensures
            final(self).wf(),
            connect_ok(old(self)@.drv.state) ==> r == Ok::<(), EspError>(()) && final(self)@
                == (WifiView {
                drv: DriverView {
                    state: state_after_connect(old(self)@.drv.state),
                    ..old(self)@.drv
                },
                netif: old(self)@.netif,
            }),
            !connect_ok(old(self)@.drv.state) ==> r == Err::<(), EspError>(EspError::InvalidState)
                && final(self)@ == old(self)@,
    {
        self.drv.connect()
    }

    /// Delegates to [`WifiDriver::disconnect`].
    pub fn disconnect(&mut self) -> (r: Result<(), EspError>)
        requires
            old(self).wf(),
        ensures
            final(self).wf(),
            disconnect_ok(old(self)@.drv.state) ==> r == Ok::<(), EspError>(()) && final(self)@
                == (WifiView {
                drv: DriverView { state: ConnectionState::Started, ..old(self)@.drv },
                netif: old(self)@.netif,
            }),
            !disconnect_ok(old(self)@.drv.state) ==> r == Err::<(), EspError>(
                EspError::InvalidState,
            ) && final(self)@ == old(self)@,
    {
        self.drv.disconnect()
    }

    /// Delegates to [`WifiDriver::set_configuration`].
    pub fn set_configuration(&mut self, conf: Configuration) -> (r: Result<(), EspError>)
        requires
            old(self).wf(),
        ensures
            final(self).wf(),
            !valid_configuration(conf@) ==> r == Err::<(), EspError>(EspError::InvalidConfig)
                && final(self)@ == old(self)@,
            valid_configuration(conf@) && old(self)@.drv.nvs is None ==> r == Ok::<(), EspError>(())
                && final(self)@ == (WifiView {
                drv: DriverView { config: Some(conf@), ..old(self)@.drv },
                netif: old(self)@.netif,
            }),
            valid_configuration(conf@) && old(self)@.drv.nvs is Some && persist_accepted(
                old(self)@.drv.nvs,
            ) ==> r == Ok::<(), EspError>(()) && final(self)@ == (WifiView {
                drv: DriverView {
                    config: Some(conf@),
                    nvs: Some(
                        NvsView {
                            map: persisted_map((old(self)@.drv.nvs->0).map, conf@),
                            ..old(self)@.drv.nvs->0
                        },
                    ),
                    ..old(self)@.drv
                },
                netif: old(self)@.netif,
            }),
            valid_configuration(conf@) && old(self)@.drv.nvs is Some && !persist_accepted(
                old(self)@.drv.nvs,
            ) ==> r == Err::<(), EspError>(EspError::StorageError) && final(self)@ == (WifiView {
                drv: DriverView { config: Some(conf@), ..old(self)@.drv },
                netif: old(self)@.netif,
            }),
    {
        self.drv.set_configuration(conf)
    }

    /// Delegates to [`WifiDriver::start_scan`].
    pub fn start_scan(&mut self, conf: &ScanConfig, block: bool) -> (r: Result<(), EspError>)
        requires
            old(self).wf(),
        ensures
            final(self).wf(),
            final(self)@.netif == old(self)@.netif,
            !(radio_active(old(self)@.drv.state) && !old(self)@.drv.scan_active) ==> r == Err::<
                (),
                EspError,
            >(EspError::InvalidState) && final(self)@ == old(self)@,
            radio_active(old(self)@.drv.state) && !old(self)@.drv.scan_active && block && old(
                self,
            )@.drv.radio.scan_duration_ms > SCAN_TIMEOUT_MS ==> r == Err::<(), EspError>(
                EspError::Timeout,
            ) && final(self)@ == old(self)@,
            radio_active(old(self)@.drv.state) && !old(self)@.drv.scan_active && block && old(
                self,
            )@.drv.radio.scan_duration_ms <= SCAN_TIMEOUT_MS ==> r == Ok::<(), EspError>(())
                && final(self)@.drv == (DriverView {
                scan_active: false,
                scan_done: true,
                scan_request: None,
                results: filter_matching(old(self)@.drv.radio.networks, conf@),
                ..old(self)@.drv
            }),
            radio_active(old(self)@.drv.state) && !old(self)@.drv.scan_active && !block ==> r
                == Ok::<(), EspError>(()) && final(self)@.drv == (DriverView {
                scan_active: true,
                scan_done: false,
                scan_request: Some(conf@),
                results: Seq::empty(),
                ..old(self)@.drv
            }),
    {
        self.drv.start_scan(conf, block)
    }

    /// Delegates to [`WifiDriver::stop_scan`].
    pub fn stop_scan(&mut self) -> (r: Result<(), EspError>)
        requires
            old(self).wf(),
        ensures
            final(self).wf(),
            r == Ok::<(), EspError>(()),
            final(self)@ == (WifiView {
                drv: DriverView { scan_active: false, scan_request: None, ..old(self)@.drv },
                netif: old(self)@.netif,
            }),
    {
        self.drv.stop_scan()
    }

    /// Delegates to [`WifiDriver::is_scan_done`].
    pub fn is_scan_done(&self) -> (r: Result<bool, EspError>)
        ensures
            r == Ok::<bool, EspError>(self@.drv.scan_done),
    {
        self.drv.is_scan_done()
    }

    /// Delegates to [`WifiDriver::get_scan_result`]: the buffered results, in
    /// reported order, drained on retrieval.
    pub fn get_scan_result(&mut self) -> (r: Result<Vec<AccessPointInfo>, EspError>)
        requires
            old(self).wf(),
        ensures
            final(self).wf(),
            r is Ok,
            r is Ok ==> aps_model((r->Ok_0)@) == old(self)@.drv.results,
            final(self)@ == (WifiView {
                drv: DriverView { results: Seq::empty(), ..old(self)@.drv },
                netif: old(self)@.netif,
            }),
    {
        self.drv.get_scan_result()
    }

    /// Read-only view of the station interface handle.
    pub fn sta_netif(&self) -> (r: &EspNetif)
        ensures
            r@ == self@.netif,
    {
        &self.sta_netif
    }

    /// A producer posts a notification on the underlying loop.
    pub fn post_event(&mut self, ev: WifiEvent)
        requires
            old(self).wf(),
        ensures
            final(self).wf(),
            final(self)@ == (WifiView {
                drv: DriverView { events: old(self)@.drv.events.push(ev), ..old(self)@.drv },
                netif: old(self)@.netif,
            }),
    {
        self.drv.post_event(ev);
    }

    /// Apply the oldest pending notification: the driver's state machine
    /// moves as in [`WifiDriver::process_one`], and the interface records an
    /// acquired address or forgets it when the station association is lost.
    pub fn process_one(&mut self) -> (r: Result<Option<WifiEvent>, EspError>)
        requires
            old(self).wf(),
        ensures
            final(self).wf(),
            old(self)@.drv.events.len() == 0 ==> r == Ok::<Option<WifiEvent>, EspError>(None)
                && final(self)@ == old(self)@,
            old(self)@.drv.events.len() > 0 ==> final(self)@.drv == view_after_event(
                (DriverView { events: old(self)@.drv.events.remove(0), ..old(self)@.drv }),
                old(self)@.drv.events.first(),
            ) && final(self)@.netif == netif_after_event(
                old(self)@.netif,
                old(self)@.drv.events.first(),
            ) && (if old(self)@.drv.events.first() == WifiEvent::RadioFault {
                r == Err::<Option<WifiEvent>, EspError>(EspError::RadioFault)
            } else {
                r == Ok::<Option<WifiEvent>, EspError>(Some(old(self)@.drv.events.first()))
            }),
    {
        let r = self.drv.process_one();
        match &r {
            Ok(Some(WifiEvent::IpAcquired(info))) => {
                self.sta_netif.assign_ip(*info);
            },
            Ok(Some(WifiEvent::AssociationLost(dev, _))) => {
                if *dev == WifiDeviceId::Sta {
                    self.sta_netif.clear_ip();
                }
            },
            _ => {},
        }
        r
    }

    /// Destroy the facade: the driver is destroyed as in
    /// [`WifiDriver::shutdown`], releasing the radio claim, and the
    /// configuration store is handed back.
    pub fn shutdown(self, modem: &mut Modem) -> (r: Option<EspNvs<NvsDefault>>)
        requires
            self.wf(),
        ensures
            final(modem)@ == pool_after_release(old(modem)@),
            self@.drv.nvs is Some <==> r is Some,
            r is Some ==> (r->0).wf() && (r->0)@ == self@.drv.nvs->0,
    {
        let EspWifi { drv, sta_netif } = self;
        let _ = sta_netif;
        drv.shutdown(modem)
    }
}

} // verus!
