use vstd::prelude::*;

use crate::codec::{
    ap_opt_model, client_opt_model, decode_ap, decode_client, encode_ap, encode_client,
    spec_decode_ap, spec_decode_client, spec_encode_ap, spec_encode_client,
};
use crate::config::{
    AccessPointConfiguration, AccessPointInfo, ApCfgModel, ApModel, ClientConfiguration,
    ClientModel, ConfigModel, Configuration, ScanCfgModel, ScanConfig, WifiDeviceId, aps_model,
    clone_scan_config, filter_matching, scan_filter, valid_configuration, validate_configuration,
};
use crate::error::EspError;
use crate::eventloop::{EspSystemEventLoop, WifiEvent};
use crate::nvs::{EspNvs, NvsDefault, NvsView};
use crate::radio::{Modem, RadioEnv, RadioPeripheralHandle};
use crate::claim::pool_after_release;

verus! {

/// Position of the connection state machine.  A live driver inhabits
/// `Stopped`, `Started`, `Connecting` or `Connected`; `Uninitialized` is the
/// position before construction and after destruction, `Scanning` is the
/// orthogonal sub-state that [`WifiDriver`] carries as a flag beside the main
/// position, and `Disconnecting` is the teardown moment, which this model
/// completes within the call that starts it.
#[derive(Clone, Copy, Debug, PartialEq, Eq, Structural)]
pub enum ConnectionState {
    Uninitialized,
    Stopped,
    Started,
    Scanning,
    Connecting,
    Connected,
    Disconnecting,
}

/// One inbound frame awaiting the receive callback.
pub struct RxFrame {
    pub device: WifiDeviceId,
    pub payload: Vec<u8>,
}

/// Mathematical image of an [`RxFrame`].
#[verifier::ext_equal]
pub ghost struct RxFrameModel {
    pub device: WifiDeviceId,
    pub payload: Seq<u8>,
}

impl View for RxFrame {
    type V = RxFrameModel;

    open spec fn view(&self) -> RxFrameModel {
        RxFrameModel { device: self.device, payload: self.payload@ }
    }
}

/// One delivery attempt's outcome awaiting the transmit-completion callback.
pub struct TxDone {
    pub device: WifiDeviceId,
    pub payload: Vec<u8>,
    pub success: bool,
}

/// Mathematical image of a [`TxDone`].
#[verifier::ext_equal]
pub ghost struct TxDoneModel {
    pub device: WifiDeviceId,
    pub payload: Seq<u8>,
    pub success: bool,
}

impl View for TxDone {
    type V = TxDoneModel;

    open spec fn view(&self) -> TxDoneModel {
        TxDoneModel { device: self.device, payload: self.payload@, success: self.success }
    }
}

/// Bound of each frame queue: a fuller queue exerts backpressure.
pub const FRAME_QUEUE_CAP: usize = 16;

/// Bound on a blocking scan, in milliseconds.  The underlying firmware gives
/// no figure, so this crate fixes one: a radio that takes longer to report
/// is treated as unresponsive and the blocking call fails with `Timeout`.
pub const SCAN_TIMEOUT_MS: u64 = 10000;

/// Key under which the station part of the configuration is persisted.
pub const STA_CONFIG_KEY: &'static str = "sta_cfg";

/// Key under which the access-point part of the configuration is persisted.
pub const AP_CONFIG_KEY: &'static str = "ap_cfg";

/// The persisted station key, as a spec value.
pub open spec fn sta_key() -> Seq<char> {
    STA_CONFIG_KEY@
}

/// The persisted access-point key, as a spec value.
pub open spec fn ap_key() -> Seq<char> {
    AP_CONFIG_KEY@
}

/// Mathematical image of a whole [`WifiDriver`].
#[verifier::ext_equal]
pub ghost struct DriverView {
    pub state: ConnectionState,
    pub scan_active: bool,
    pub scan_done: bool,
    pub scan_request: Option<ScanCfgModel>,
    pub results: Seq<ApModel>,
    pub config: Option<ConfigModel>,
    pub callbacks_registered: bool,
    pub rx_queue: Seq<RxFrameModel>,
    pub tx_queue: Seq<TxDoneModel>,
    pub events: Seq<WifiEvent>,
    pub radio: RadioEnv,
    pub nvs: Option<NvsView>,
}

/// The models of a pending scan request, if any.
pub open spec fn opt_scan_model(c: Option<ScanConfig>) -> Option<ScanCfgModel> {
    match c {
        Some(x) => Some(x@),
        None => None,
    }
}

/// The model of a staged configuration, if any.
pub open spec fn opt_config_model(c: Option<Configuration>) -> Option<ConfigModel> {
    match c {
        Some(x) => Some(x@),
        None => None,
    }
}

/// The view of an optional namespace store.
pub open spec fn opt_nvs_view(n: Option<EspNvs<NvsDefault>>) -> Option<NvsView> {
    match n {
        Some(x) => Some(x@),
        None => None,
    }
}

/// The models of queued inbound frames, element by element.
pub open spec fn rx_models(v: Seq<RxFrame>) -> Seq<RxFrameModel> {
    v.map_values(|f: RxFrame| f@)
}

/// The models of queued delivery outcomes, element by element.
pub open spec fn tx_models(v: Seq<TxDone>) -> Seq<TxDoneModel> {
    v.map_values(|f: TxDone| f@)
}

/// Position after `start`: `Stopped` powers up; `start` is idempotent
/// anywhere else.
pub open spec fn state_after_start(s: ConnectionState) -> ConnectionState {
    if s == ConnectionState::Stopped {
        ConnectionState::Started
    } else {
        s
    }
}

/// Position after `stop`: always `Stopped`.
pub open spec fn state_after_stop(s: ConnectionState) -> ConnectionState {
    ConnectionState::Stopped
}

/// Whether `connect` is accepted in position `s`.
pub open spec fn connect_ok(s: ConnectionState) -> bool {
    s == ConnectionState::Started || s == ConnectionState::Connecting || s
        == ConnectionState::Connected
}

/// Position after an accepted `connect`: association begins from `Started`;
/// a call while already `Connecting` or `Connected` changes nothing.
pub open spec fn state_after_connect(s: ConnectionState) -> ConnectionState {
    if s == ConnectionState::Started {
        ConnectionState::Connecting
    } else {
        s
    }
}

/// Whether `disconnect` is accepted in position `s`.
pub open spec fn disconnect_ok(s: ConnectionState) -> bool {
    s == ConnectionState::Connecting || s == ConnectionState::Connected
}

/// Position after an accepted `disconnect`.
pub open spec fn state_after_disconnect(s: ConnectionState) -> ConnectionState {
    if disconnect_ok(s) {
        ConnectionState::Started
    } else {
        s
    }
}

/// Whether the radio is powered in position `s`.
pub open spec fn radio_active(s: ConnectionState) -> bool {
    s == ConnectionState::Started || s == ConnectionState::Connecting || s
        == ConnectionState::Connected
}

/// Position after one event-loop notification.  Only station association
/// events move the main position; a firmware fault forces `Stopped`.
pub open spec fn state_after_event(s: ConnectionState, ev: WifiEvent) -> ConnectionState {
    match ev {
        WifiEvent::AssociationSuccess(dev) => if dev == WifiDeviceId::Sta && s
            == ConnectionState::Connecting {
            ConnectionState::Connected
        } else {
            s
        },
        WifiEvent::AssociationLost(dev, _) => if dev == WifiDeviceId::Sta && (s
            == ConnectionState::Connecting || s == ConnectionState::Connected) {
            ConnectionState::Started
        } else {
            s
        },
        WifiEvent::RadioFault => ConnectionState::Stopped,
        _ => s,
    }
}

/// The whole driver after one event-loop notification is applied.
pub open spec fn view_after_event(v: DriverView, ev: WifiEvent) -> DriverView {
    match ev {
        WifiEvent::ScanDone => if v.scan_active && v.scan_request is Some {
            DriverView {
                scan_active: false,
                scan_done: true,
                scan_request: None,
                results: filter_matching(v.radio.networks, v.scan_request->0),
                ..v
            }
        } else {
            v
        },
        WifiEvent::RadioFault => DriverView {
            state: ConnectionState::Stopped,
            scan_active: false,
            scan_request: None,
            ..v
        },
        _ => DriverView { state: state_after_event(v.state, ev), ..v },
    }
}

/// The station part the store holds, if its record decodes and is valid.
pub open spec fn restored_client(v: NvsView) -> Option<ClientModel> {
    if v.map.contains_key(sta_key()) {
        spec_decode_client(v.map[sta_key()])
    } else {
        None
    }
}

/// The access-point part the store holds, if its record decodes and is
/// valid.
pub open spec fn restored_ap(v: NvsView) -> Option<ApCfgModel> {
    if v.map.contains_key(ap_key()) {
        spec_decode_ap(v.map[ap_key()])
    } else {
        None
    }
}

/// The configuration a fresh driver restores from an optional store: the
/// roles whose records are present, well formed and internally consistent.
pub open spec fn restored_config(nvs: Option<NvsView>) -> Option<ConfigModel> {
    match nvs {
        None => None,
        Some(v) => match (restored_client(v), restored_ap(v)) {
            (Some(c), Some(a)) => Some(ConfigModel::Mixed(c, a)),
            (Some(c), None) => Some(ConfigModel::Client(c)),
            (None, Some(a)) => Some(ConfigModel::AccessPoint(a)),
            (None, None) => None,
        },
    }
}

/// The store's map after a configuration is persisted: the record of each
/// configured role is written, the record of an unconfigured role removed.
pub open spec fn persisted_map(m: Map<Seq<char>, Seq<u8>>, c: ConfigModel) -> Map<
    Seq<char>,
    Seq<u8>,
> {
    match c {
        ConfigModel::Client(cl) => m.insert(sta_key(), spec_encode_client(cl)).remove(ap_key()),
        ConfigModel::AccessPoint(ap) => m.remove(sta_key()).insert(ap_key(), spec_encode_ap(ap)),
        ConfigModel::Mixed(cl, ap) => m.insert(sta_key(), spec_encode_client(cl)).insert(
            ap_key(),
            spec_encode_ap(ap),
        ),
    }
}

/// Whether the driver's store accepts the persistence writes.
pub open spec fn persist_accepted(nvs: Option<NvsView>) -> bool {
    match nvs {
        None => true,
        Some(v) => v.read_write,
    }
}

/// The Wi-Fi driver: owns the claimed radio, the registered event queue, the
/// optional configuration store, and the connection state machine that
/// event-loop notifications drive.
pub struct WifiDriver {
    state: ConnectionState,
    scan_active: bool,
    scan_done: bool,
    scan_request: Option<ScanConfig>,
    scan_results: Vec<AccessPointInfo>,
    configuration: Option<Configuration>,
    callbacks_registered: bool,
    rx_queue: Vec<RxFrame>,
    tx_queue: Vec<TxDone>,
    sysloop: EspSystemEventLoop,
    radio: RadioPeripheralHandle,
    nvs: Option<EspNvs<NvsDefault>>,
}

impl View for WifiDriver {
    type V = DriverView;

    closed spec fn view(&self) -> DriverView {
        DriverView {
            state: self.state,
            scan_active: self.scan_active,
            scan_done: self.scan_done,
            scan_request: opt_scan_model(self.scan_request),
            results: aps_model(self.scan_results@),
            config: opt_config_model(self.configuration),
            callbacks_registered: self.callbacks_registered,
            rx_queue: rx_models(self.rx_queue@),
            tx_queue: tx_models(self.tx_queue@),
            events: self.sysloop@,
            radio: self.radio@,
            nvs: opt_nvs_view(self.nvs),
        }
    }
}

fn zero_buf(n: usize) -> (r: Vec<u8>)
    ensures
        r@.len() == n,
{
    let mut out: Vec<u8> = Vec::new();
    let mut i: usize = 0;
    while i < n
        invariant
            i <= n,
            out@.len() == i,
        decreases n - i,
    {
        out.push(0);
        i += 1;
    }
    out
}

fn read_client_part(store: &EspNvs<NvsDefault>) -> (r: Option<ClientConfiguration>)
    requires
        store.wf(),
    ensures
        client_opt_model(r) == restored_client(store@),
{
    match store.len(STA_CONFIG_KEY) {
        Ok(Some(n)) => {
            let mut buf = zero_buf(n);
            match store.get_raw(STA_CONFIG_KEY, &mut buf) {
                Ok(Some(_)) => decode_client(&buf),
                _ => None,
            }
        },
        _ => None,
    }
}

fn read_ap_part(store: &EspNvs<NvsDefault>) -> (r: Option<AccessPointConfiguration>)
    requires
        store.wf(),
    ensures
        ap_opt_model(r) == restored_ap(store@),
{
    match store.len(AP_CONFIG_KEY) {
        Ok(Some(n)) => {
            let mut buf = zero_buf(n);
            match store.get_raw(AP_CONFIG_KEY, &mut buf) {
                Ok(Some(_)) => decode_ap(&buf),
                _ => None,
            }
        },
        _ => None,
    }
}

impl WifiDriver {
    /// The driver's internal well-formedness: its store, if any, is well
    /// formed.
    pub closed spec fn wf(&self) -> bool {
        self.nvs is Some ==> self.nvs->0.wf()
    }

    /// Build a driver around an exclusively claimed radio handle, register it
    /// with the system event loop, and, when a configuration store is
    /// supplied, restore the configuration persisted there.  A fresh driver
    /// is `Stopped`, not scanning, with empty queues.
    pub fn new(
        radio: RadioPeripheralHandle,
        sysloop: EspSystemEventLoop,
        nvs: Option<EspNvs<NvsDefault>>,
    ) -> (r: Result<WifiDriver, EspError>)
        requires
            nvs is Some ==> nvs->0.wf(),
        ensures
            r is Ok,
            r is Ok ==> (r->Ok_0).wf() && (r->Ok_0)@ == (DriverView {
                state: ConnectionState::Stopped,
                scan_active: false,
                scan_done: false,
                scan_request: None,
                results: Seq::empty(),
                config: restored_config(opt_nvs_view(nvs)),
                callbacks_registered: false,
                rx_queue: Seq::empty(),
                tx_queue: Seq::empty(),
                events: sysloop@,
                radio: radio@,
                nvs: opt_nvs_view(nvs),
            }),
    {
        let configuration: Option<Configuration> = match &nvs {
            None => None,
            Some(store) => {
                let cli = read_client_part(store);
                let ap = read_ap_part(store);
                match (cli, ap) {
                    (Some(c), Some(a)) => Some(Configuration::Mixed(c, a)),
                    (Some(c), None) => Some(Configuration::Client(c)),
                    (None, Some(a)) => Some(Configuration::AccessPoint(a)),
                    (None, None) => None,
                }
            },
        };
        let drv = WifiDriver {
            state: ConnectionState::Stopped,
            scan_active: false,
            scan_done: false,
            scan_request: None,
            scan_results: Vec::new(),
            configuration,
            callbacks_registered: false,
            rx_queue: Vec::new(),
            tx_queue: Vec::new(),
            sysloop,
            radio,
            nvs,
        };
        proof {
            assert(aps_model(drv.scan_results@) =~= Seq::<ApModel>::empty());
            assert(rx_models(drv.rx_queue@) =~= Seq::<RxFrameModel>::empty());
            assert(tx_models(drv.tx_queue@) =~= Seq::<TxDoneModel>::empty());
        }
        Ok(drv)
    }

    /// Transition `Stopped` to `Started`, powering the radio up in the
    /// configured modes; idempotent anywhere else.  Never fails: the driver
    /// holds its radio handle for its whole lifetime.
    pub fn start(&mut self) -> (r: Result<(), EspError>)
        requires
            old(self).wf(),
        ensures
            final(self).wf(),
            r == Ok::<(), EspError>(()),
            final(self)@ == (DriverView { state: state_after_start(old(self)@.state), ..old(self)@ }),
    {
        if self.state == ConnectionState::Stopped {
            self.state = ConnectionState::Started;
        }
        Ok(())
    }

    /// Tear down any association and scan and return to `Stopped`.  Always
    /// safe to call.
    pub fn stop(&mut self) -> (r: Result<(), EspError>)
        requires
            old(self).wf(),
        ensures
            final(self).wf(),
            r == Ok::<(), EspError>(()),
            final(self)@ == (DriverView {
                state: ConnectionState::Stopped,
                scan_active: false,
                scan_request: None,
                ..old(self)@
            }),
    {
        self.state = ConnectionState::Stopped;
        self.scan_active = false;
        self.scan_request = None;
        Ok(())
    }

    /// Begin association.  Accepted from `Started` (association starts) and,
    /// as a no-op, while already `Connecting` or `Connected`; refused with
    /// `InvalidState` anywhere else.  Completion arrives as an association
    /// event on the loop.
    pub fn connect(&mut self) -> (r: Result<(), EspError>)
        requires
            old(self).wf(),
        ensures
            final(self).wf(),
            connect_ok(old(self)@.state) ==> r == Ok::<(), EspError>(()) && final(self)@
                == (DriverView { state: state_after_connect(old(self)@.state), ..old(self)@ }),
            !connect_ok(old(self)@.state) ==> r == Err::<(), EspError>(EspError::InvalidState)
                && final(self)@ == old(self)@,
    {
        if self.state == ConnectionState::Started {
            self.state = ConnectionState::Connecting;
            Ok(())
        } else if self.state == ConnectionState::Connecting || self.state
            == ConnectionState::Connected {
            Ok(())
        } else {
            Err(EspError::InvalidState)
        }
    }

    /// End association and return to `Started`.  Accepted from `Connecting`
    /// and `Connected`; refused with `InvalidState` anywhere else.
    pub fn disconnect(&mut self) -> (r: Result<(), EspError>)
        requires
            old(self).wf(),
        ensures
            final(self).wf(),
            disconnect_ok(old(self)@.state) ==> r == Ok::<(), EspError>(()) && final(self)@
                == (DriverView { state: ConnectionState::Started, ..old(self)@ }),
            !disconnect_ok(old(self)@.state) ==> r == Err::<(), EspError>(EspError::InvalidState)
                && final(self)@ == old(self)@,
    {
        if self.state == ConnectionState::Connecting || self.state == ConnectionState::Connected {
            self.state = ConnectionState::Started;
            Ok(())
        } else {
            Err(EspError::InvalidState)
        }
    }

    /// Stage a configuration; it takes effect on the next `start` or
    /// `connect`.  An internally inconsistent configuration is refused with
    /// `InvalidConfig` and changes nothing.  A consistent one is staged, and
    /// persisted when a store is attached: each configured role's record is
    /// written, the other role's removed, so a later driver restores exactly
    /// this configuration.  A read-only store leaves the staged configuration
    /// in place but reports `StorageError`.
    pub fn set_configuration(&mut self, conf: Configuration) -> (r: Result<(), EspError>)
        requires
            old(self).wf(),
        ensures
            final(self).wf(),
            !valid_configuration(conf@) ==> r == Err::<(), EspError>(EspError::InvalidConfig)
                && final(self)@ == old(self)@,
            valid_configuration(conf@) && old(self)@.nvs is None ==> r == Ok::<(), EspError>(())
                && final(self)@ == (DriverView { config: Some(conf@), ..old(self)@ }),
            valid_configuration(conf@) && old(self)@.nvs is Some && persist_accepted(
                old(self)@.nvs,
            ) ==> r == Ok::<(), EspError>(()) && final(self)@ == (DriverView {
                config: Some(conf@),
                nvs: Some(
                    NvsView {
                        map: persisted_map((old(self)@.nvs->0).map, conf@),
                        ..old(self)@.nvs->0
                    },
                ),
                ..old(self)@
            }),
            valid_configuration(conf@) && old(self)@.nvs is Some && !persist_accepted(
                old(self)@.nvs,
            ) ==> r == Err::<(), EspError>(EspError::StorageError) && final(self)@ == (DriverView {
                config: Some(conf@),
                ..old(self)@
            }),
    {
        if !validate_configuration(&conf) {
            return Err(EspError::InvalidConfig);
        }
        let mut storage_ok = true;
        match (&conf, &mut self.nvs) {
            (_, None) => {},
            (Configuration::Client(c), Some(store)) => {
                let enc = encode_client(c);
                let r1 = store.set_raw(STA_CONFIG_KEY, enc.as_slice());
                let r2 = store.remove(AP_CONFIG_KEY);
                storage_ok = r1.is_ok() && r2.is_ok();
            },
            (Configuration::AccessPoint(a), Some(store)) => {
                let r1 = store.remove(STA_CONFIG_KEY);
                let enc = encode_ap(a);
                let r2 = store.set_raw(AP_CONFIG_KEY, enc.as_slice());
                storage_ok = r1.is_ok() && r2.is_ok();
            },
            (Configuration::Mixed(c, a), Some(store)) => {
                let enc_c = encode_client(c);
                let r1 = store.set_raw(STA_CONFIG_KEY, enc_c.as_slice());
                let enc_a = encode_ap(a);
                let r2 = store.set_raw(AP_CONFIG_KEY, enc_a.as_slice());
                storage_ok = r1.is_ok() && r2.is_ok();
            },
        }
        self.configuration = Some(conf);
        if storage_ok {
            Ok(())
        } else {
            Err(EspError::StorageError)
        }
    }

    /// Scan for networks.  Accepted only while the radio is powered and no
    /// scan is active; otherwise refused with `InvalidState`.  A blocking
    /// call waits for the radio, bounded by [`SCAN_TIMEOUT_MS`]: an
    /// unresponsive radio gives `Timeout` and changes nothing, a responsive
    /// one buffers the matching networks before returning.  A non-blocking
    /// call records the request and returns; the results are buffered when
    /// the loop's scan-done event is processed.
    pub fn start_scan(&mut self, conf: &ScanConfig, block: bool) -> (r: Result<(), EspError>)
        requires
            old(self).wf(),
        ensures
            final(self).wf(),
            !(radio_active(old(self)@.state) && !old(self)@.scan_active) ==> r == Err::<
                (),
                EspError,
            >(EspError::InvalidState) && final(self)@ == old(self)@,
            radio_active(old(self)@.state) && !old(self)@.scan_active && block && old(self)@.radio.scan_duration_ms > SCAN_TIMEOUT_MS ==> r == Err::<(), EspError>(
                EspError::Timeout,
            ) && final(self)@ == old(self)@,
            radio_active(old(self)@.state) && !old(self)@.scan_active && block && old(self)@.radio.scan_duration_ms <= SCAN_TIMEOUT_MS ==> r == Ok::<(), EspError>(()) && final(self)@ == (DriverView {
                scan_active: false,
                scan_done: true,
                scan_request: None,
                results: filter_matching(old(self)@.radio.networks, conf@),
                ..old(self)@
            }),
            radio_active(old(self)@.state) && !old(self)@.scan_active && !block ==> r == Ok::<
                (),
                EspError,
            >(()) && final(self)@ == (DriverView {
                scan_active: true,
                scan_done: false,
                scan_request: Some(conf@),
                results: Seq::empty(),
                ..old(self)@
            }),
    {
        let powered = self.state == ConnectionState::Started || self.state
            == ConnectionState::Connecting || self.state == ConnectionState::Connected;
        if !powered || self.scan_active {
            return Err(EspError::InvalidState);
        }
        if block {
            if self.radio.scan_duration_ms > SCAN_TIMEOUT_MS {
                return Err(EspError::Timeout);
            }
            self.scan_results = scan_filter(&self.radio.networks_in_range, conf);
            self.scan_active = false;
            self.scan_done = true;
            self.scan_request = None;
            Ok(())
        } else {
            self.scan_active = true;
            self.scan_done = false;
            self.scan_request = Some(clone_scan_config(conf));
            self.scan_results = Vec::new();
            proof {
                assert(aps_model(self.scan_results@) =~= Seq::<ApModel>::empty());
            }
            Ok(())
        }
    }

    /// Cancel an in-flight scan; a no-op if none is active.  Buffered results
    /// stay available.
    pub fn stop_scan(&mut self) -> (r: Result<(), EspError>)
        requires
            old(self).wf(),
        ensures
            final(self).wf(),
            r == Ok::<(), EspError>(()),
            final(self)@ == (DriverView { scan_active: false, scan_request: None, ..old(self)@ }),
    {
        self.scan_active = false;
        self.scan_request = None;
        Ok(())
    }

    /// Whether a finished scan's results are ready.  Never blocks.
    pub fn is_scan_done(&self) -> (r: Result<bool, EspError>)
        ensures
            r == Ok::<bool, EspError>(self@.scan_done),
    {
        Ok(self.scan_done)
    }

    /// Drain the buffered scan results: the caller receives them in the
    /// radio's reported order, and a second call without a new scan in
    /// between receives an empty sequence, not an error.
    pub fn get_scan_result(&mut self) -> (r: Result<Vec<AccessPointInfo>, EspError>)
        requires
            old(self).wf(),
        ensures
            final(self).wf(),
            r is Ok,
            r is Ok ==> aps_model((r->Ok_0)@) == drain_output(old(self)@),
            final(self)@ == view_after_drain(old(self)@),
    {
        let mut out: Vec<AccessPointInfo> = Vec::new();
        core::mem::swap(&mut out, &mut self.scan_results);
        proof {
            assert(aps_model(self.scan_results@) =~= Seq::<ApModel>::empty());
        }
        Ok(out)
    }

    /// The staged configuration, if one is staged or was restored.
    pub fn get_configuration(&self) -> (r: Option<&Configuration>)
        ensures
            match r {
                Some(c) => self@.config == Some(c@),
                None => self@.config is None,
            },
    {
        self.configuration.as_ref()
    }

    /// Whether the station is associated.  Never blocks.
    pub fn is_connected(&self) -> (r: Result<bool, EspError>)
        ensures
            r == Ok::<bool, EspError>(self@.state == ConnectionState::Connected),
    {
        Ok(self.state == ConnectionState::Connected)
    }

    /// Whether the station role is configured and associated.  Never blocks.
    pub fn is_sta_connected(&self) -> (r: Result<bool, EspError>)
        ensures
            r == Ok::<bool, EspError>(
                self@.state == ConnectionState::Connected && (self@.config matches Some(c)
                    && (c is Client || c is Mixed)),
            ),
    {
        let has_sta = match &self.configuration {
            Some(Configuration::Client(_)) => true,
            Some(Configuration::Mixed(_, _)) => true,
            _ => false,
        };
        Ok(self.state == ConnectionState::Connected && has_sta)
    }

    /// Whether the radio is powered (`Started` or beyond).  Never blocks.
    pub fn is_started(&self) -> (r: Result<bool, EspError>)
        ensures
            r == Ok::<bool, EspError>(radio_active(self@.state)),
    {
        Ok(
            self.state == ConnectionState::Started || self.state == ConnectionState::Connecting
                || self.state == ConnectionState::Connected,
        )
    }

    /// Arm the frame-callback channel.  The embedder's two closures stay on
    /// its side of the queue: the driver records inbound frames and delivery
    /// outcomes, and the embedder drains them in order and invokes its
    /// closures, so no caller code runs on the event loop's context.
    /// Accepted at most once per driver, before `start`; refused with
    /// `InvalidState` afterwards.
    pub fn set_callbacks(&mut self) -> (r: Result<(), EspError>)
        requires
            old(self).wf(),
        ensures
            final(self).wf(),
            !old(self)@.callbacks_registered && old(self)@.state == ConnectionState::Stopped ==> r
                == Ok::<(), EspError>(()) && final(self)@ == (DriverView {
                callbacks_registered: true,
                ..old(self)@
            }),
            !(!old(self)@.callbacks_registered && old(self)@.state == ConnectionState::Stopped)
                ==> r == Err::<(), EspError>(EspError::InvalidState) && final(self)@ == old(self)@,
    {
        if !self.callbacks_registered && self.state == ConnectionState::Stopped {
            self.callbacks_registered = true;
            Ok(())
        } else {
            Err(EspError::InvalidState)
        }
    }

    /// The radio reports one inbound frame.  It joins the receive queue
    /// exactly when the callback channel is armed, the radio is powered and
    /// the queue is not full; the result says whether it was accepted
    /// (backpressure otherwise).
    pub fn deliver_rx_frame(&mut self, device: WifiDeviceId, payload: Vec<u8>) -> (accepted: bool)
        requires
            old(self).wf(),
        ensures
            final(self).wf(),
            accepted == (old(self)@.callbacks_registered && radio_active(old(self)@.state) && old(self)@.rx_queue.len() < FRAME_QUEUE_CAP),
            accepted ==> final(self)@ == (DriverView {
                rx_queue: old(self)@.rx_queue.push(
                    RxFrameModel { device: device, payload: payload@ },
                ),
                ..old(self)@
            }),
            !accepted ==> final(self)@ == old(self)@,
    {
        let powered = self.state == ConnectionState::Started || self.state
            == ConnectionState::Connecting || self.state == ConnectionState::Connected;
        if self.callbacks_registered && powered && self.rx_queue.len() < FRAME_QUEUE_CAP {
            self.rx_queue.push(RxFrame { device, payload });
            proof {
                assert(rx_models(self.rx_queue@) =~= rx_models(old(self).rx_queue@).push(
                    RxFrameModel { device: device, payload: payload@ },
                ));
            }
            true
        } else {
            false
        }
    }

    /// The owning context drains the queued inbound frames, in arrival
    /// order, to invoke the embedder's receive callback on each.
    pub fn take_rx_frames(&mut self) -> (r: Vec<RxFrame>)
        requires
            old(self).wf(),
        ensures
            final(self).wf(),
            rx_models(r@) == old(self)@.rx_queue,
            final(self)@ == (DriverView { rx_queue: Seq::empty(), ..old(self)@ }),
    {
        let mut out: Vec<RxFrame> = Vec::new();
        core::mem::swap(&mut out, &mut self.rx_queue);
        proof {
            assert(rx_models(self.rx_queue@) =~= Seq::<RxFrameModel>::empty());
        }
        out
    }

    /// The radio reports the outcome of one outbound frame.  It joins the
    /// completion queue under the same conditions as an inbound frame.
    pub fn deliver_tx_done(&mut self, device: WifiDeviceId, payload: Vec<u8>, success: bool) -> (accepted:
        bool)
        requires
            old(self).wf(),
        ensures
            final(self).wf(),
            accepted == (old(self)@.callbacks_registered && radio_active(old(self)@.state) && old(self)@.tx_queue.len() < FRAME_QUEUE_CAP),
            accepted ==> final(self)@ == (DriverView {
                tx_queue: old(self)@.tx_queue.push(
                    TxDoneModel { device: device, payload: payload@, success: success },
                ),
                ..old(self)@
            }),
            !accepted ==> final(self)@ == old(self)@,
    {
        let powered = self.state == ConnectionState::Started || self.state
            == ConnectionState::Connecting || self.state == ConnectionState::Connected;
        if self.callbacks_registered && powered && self.tx_queue.len() < FRAME_QUEUE_CAP {
            self.tx_queue.push(TxDone { device, payload, success });
            proof {
                assert(tx_models(self.tx_queue@) =~= tx_models(old(self).tx_queue@).push(
                    TxDoneModel { device: device, payload: payload@, success: success },
                ));
            }
            true
        } else {
            false
        }
    }

    /// The owning context drains the queued delivery outcomes, in submission
    /// order, to invoke the embedder's transmit-completion callback on each.
    pub fn take_tx_completions(&mut self) -> (r: Vec<TxDone>)
        requires
            old(self).wf(),
        ensures
            final(self).wf(),
            tx_models(r@) == old(self)@.tx_queue,
            final(self)@ == (DriverView { tx_queue: Seq::empty(), ..old(self)@ }),
    {
        let mut out: Vec<TxDone> = Vec::new();
        core::mem::swap(&mut out, &mut self.tx_queue);
        proof {
            assert(tx_models(self.tx_queue@) =~= Seq::<TxDoneModel>::empty());
        }
        out
    }

    /// A producer (the radio or the IP stack) posts a notification on the
    /// driver's event loop.
    pub fn post_event(&mut self, ev: WifiEvent)
        requires
            old(self).wf(),
        ensures
            final(self).wf(),
            final(self)@ == (DriverView { events: old(self)@.events.push(ev), ..old(self)@ }),
    {
        self.sysloop.post(ev);
    }

    /// Apply the oldest pending notification to the state machine and hand
    /// it back, in posting order.  `Ok(None)` when nothing is pending.  A
    /// firmware fault forces `Stopped` and surfaces as `RadioFault` here, on
    /// the next observed event.
    pub fn process_one(&mut self) -> (r: Result<Option<WifiEvent>, EspError>)
        requires
            old(self).wf(),
        ensures
            final(self).wf(),
            old(self)@.events.len() == 0 ==> r == Ok::<Option<WifiEvent>, EspError>(None) && final(self)@ == old(self)@,
            old(self)@.events.len() > 0 ==> final(self)@ == view_after_event(
                (DriverView { events: old(self)@.events.remove(0), ..old(self)@ }),
                old(self)@.events.first(),
            ) && (if old(self)@.events.first() == WifiEvent::RadioFault {
                r == Err::<Option<WifiEvent>, EspError>(EspError::RadioFault)
            } else {
                r == Ok::<Option<WifiEvent>, EspError>(Some(old(self)@.events.first()))
            }),
    {
        let ev = match self.sysloop.next_event() {
            None => {
                return Ok(None);
            },
            Some(ev) => ev,
        };
        match ev {
            WifiEvent::ScanDone => {
                if self.scan_active {
                    let filtered = match &self.scan_request {
                        Some(req) => Some(scan_filter(&self.radio.networks_in_range, req)),
                        None => None,
                    };
                    if let Some(results) = filtered {
                        self.scan_results = results;
                        self.scan_active = false;
                        self.scan_done = true;
                        self.scan_request = None;
                    }
                }
                Ok(Some(ev))
            },
            WifiEvent::RadioFault => {
                self.state = ConnectionState::Stopped;
                self.scan_active = false;
                self.scan_request = None;
                Err(EspError::RadioFault)
            },
            WifiEvent::AssociationSuccess(dev) => {
                if dev == WifiDeviceId::Sta && self.state == ConnectionState::Connecting {
                    self.state = ConnectionState::Connected;
                }
                Ok(Some(ev))
            },
            WifiEvent::AssociationLost(dev, _) => {
                if dev == WifiDeviceId::Sta && (self.state == ConnectionState::Connecting
                    || self.state == ConnectionState::Connected) {
                    self.state = ConnectionState::Started;
                }
                Ok(Some(ev))
            },
            WifiEvent::IpAcquired(_) => Ok(Some(ev)),
        }
    }

    /// Destroy the driver: cancel whatever is in flight, drop the pending
    /// callback work undelivered, release the radio claim back to its pool,
    /// and hand the configuration store back to the caller.  Nothing of the
    /// driver survives, so no frame callback can fire afterwards.
    pub fn shutdown(self, modem: &mut Modem) -> (r: Option<EspNvs<NvsDefault>>)
        requires
            self.wf(),
        ensures
            final(modem)@ == pool_after_release(old(modem)@),
            self@.nvs is Some <==> r is Some,
            r is Some ==> (r->0).wf() && (r->0)@ == self@.nvs->0,
    {
        let WifiDriver { radio, nvs, .. } = self;
        modem.release(radio);
        nvs
    }
}

/// Whether position `s` is engaged in an association (`Connecting` or
/// `Connected`).
pub open spec fn engaged(s: ConnectionState) -> bool {
    s == ConnectionState::Connecting || s == ConnectionState::Connected
}

/// Law: for every sequence of driver operations, the machine is never
/// engaged in an association without an accepted `connect` from `Started`.
/// Each step below preserves non-engagement except `connect`, which engages
/// only from `Started`; by induction over any operation sequence, `start`
/// and `stop` calls alone never reach `Connecting` or `Connected`.
pub proof fn lemma_engagement_only_via_connect(s: ConnectionState, ev: WifiEvent)
    ensures
        !engaged(s) ==> !engaged(state_after_start(s)),
        !engaged(s) ==> !engaged(state_after_stop(s)),
        !engaged(s) ==> !engaged(state_after_disconnect(s)),
        !engaged(s) ==> !engaged(state_after_event(s, ev)),
        engaged(state_after_connect(s)) ==> engaged(s) || s == ConnectionState::Started,
{
}

/// One driver call that only powers the radio up or down.
pub ghost enum PowerOp {
    Start,
    Stop,
}

/// The position after one power call.
pub open spec fn state_after_power_op(s: ConnectionState, op: PowerOp) -> ConnectionState {
    match op {
        PowerOp::Start => state_after_start(s),
        PowerOp::Stop => state_after_stop(s),
    }
}

/// The position after a whole sequence of power calls, applied in order.
pub open spec fn state_after_power_ops(s: ConnectionState, ops: Seq<PowerOp>) -> ConnectionState
    decreases ops.len(),
{
    if ops.len() == 0 {
        s
    } else {
        state_after_power_ops(state_after_power_op(s, ops.first()), ops.drop_first())
    }
}

/// Law: no sequence of `start` and `stop` calls, of any length, ever enters
/// `Connecting` or `Connected` from a non-engaged position; only an accepted
/// `connect` from `Started` does.
pub proof fn lemma_power_ops_never_engage(s: ConnectionState, ops: Seq<PowerOp>)
    requires
        !engaged(s),
    ensures
        !engaged(state_after_power_ops(s, ops)),
    decreases ops.len(),
{
    if ops.len() > 0 {
        lemma_power_ops_never_engage(state_after_power_op(s, ops.first()), ops.drop_first());
    }
}

/// The driver after `get_scan_result` drains it.
pub open spec fn view_after_drain(v: DriverView) -> DriverView {
    DriverView { results: Seq::empty(), ..v }
}

/// What `get_scan_result` hands out of a driver in state `v`.
pub open spec fn drain_output(v: DriverView) -> Seq<ApModel> {
    v.results
}

/// Law: scan results drain on retrieval.  A second `get_scan_result`
/// without an intervening scan returns the empty sequence, not an error.
pub proof fn lemma_scan_results_drain(v: DriverView)
    ensures
        drain_output(view_after_drain(v)) =~= Seq::<ApModel>::empty(),
{
}

/// Law: persistence round trip.  After a valid configuration is persisted
/// into a store, a fresh driver built over that store restores exactly that
/// configuration.
pub proof fn lemma_persist_then_restore(v: NvsView, c: ConfigModel)
    requires
        valid_configuration(c),
    ensures
        restored_config(Some(NvsView { map: persisted_map(v.map, c), ..v })) == Some(c),
{
    reveal_strlit("sta_cfg");
    reveal_strlit("ap_cfg");
    assert(sta_key().len() == 7);
    assert(ap_key().len() == 6);
    assert(sta_key() != ap_key());
    let m = persisted_map(v.map, c);
    match c {
        ConfigModel::Client(cl) => {
            crate::codec::lemma_client_round_trip(cl);
            assert(m.contains_key(sta_key()) && m[sta_key()] == spec_encode_client(cl));
            assert(!m.contains_key(ap_key()));
        },
        ConfigModel::AccessPoint(ap) => {
            crate::codec::lemma_ap_round_trip(ap);
            assert(m.contains_key(ap_key()) && m[ap_key()] == spec_encode_ap(ap));
            assert(!m.contains_key(sta_key()));
        },
        ConfigModel::Mixed(cl, ap) => {
            crate::codec::lemma_client_round_trip(cl);
            crate::codec::lemma_ap_round_trip(ap);
            assert(m.contains_key(sta_key()) && m[sta_key()] == spec_encode_client(cl));
            assert(m.contains_key(ap_key()) && m[ap_key()] == spec_encode_ap(ap));
        },
    }
}

} // verus!
