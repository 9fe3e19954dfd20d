use vstd::prelude::*;

verus! {

/// Which logical radio role a frame or a callback pertains to.
#[derive(Clone, Copy, Debug, PartialEq, Eq, Structural)]
pub enum WifiDeviceId {
    Ap,
    Sta,
}

/// Security mode of a network or of a configuration.
#[derive(Clone, Copy, Debug, PartialEq, Eq, Structural)]
pub enum AuthMethod {
    Open,
    Wep,
    Wpa,
    Wpa2Personal,
    Wpa3Personal,
}

/// Longest SSID the radio accepts, in bytes.
pub const MAX_SSID_LEN: usize = 32;

/// Longest passphrase the radio accepts, in bytes.
pub const MAX_PASSWORD_LEN: usize = 64;

/// Shortest passphrase a secured mode accepts, in bytes.
pub const MIN_PASSWORD_LEN: usize = 8;

/// A BSSID is always six bytes.
pub const BSSID_LEN: usize = 6;

/// Lowest valid radio channel.
pub const MIN_CHANNEL: u8 = 1;

/// Highest valid radio channel.
pub const MAX_CHANNEL: u8 = 14;

/// Result record of a scan: one network the radio reported.
#[derive(Clone, Debug, PartialEq, Eq)]
pub struct AccessPointInfo {
    pub ssid: Vec<u8>,
    pub bssid: Vec<u8>,
    pub channel: u8,
    pub signal_strength: i8,
    pub auth_method: AuthMethod,
}

/// Mathematical image of an [`AccessPointInfo`].
#[verifier::ext_equal]
pub ghost struct ApModel {
    pub ssid: Seq<u8>,
    pub bssid: Seq<u8>,
    pub channel: u8,
    pub signal_strength: i8,
    pub auth_method: AuthMethod,
}

impl View for AccessPointInfo {
    type V = ApModel;

    open spec fn view(&self) -> ApModel {
        ApModel {
            ssid: self.ssid@,
            bssid: self.bssid@,
            channel: self.channel,
            signal_strength: self.signal_strength,
            auth_method: self.auth_method,
        }
    }
}

impl AccessPointInfo {
    /// A record is well formed when its SSID fits the radio and its BSSID has
    /// the fixed hardware width.
    pub open spec fn wf(&self) -> bool {
        self.ssid@.len() <= MAX_SSID_LEN && self.bssid@.len() == BSSID_LEN
    }
}

/// The models of a whole result sequence, element by element.
pub open spec fn aps_model(v: Seq<AccessPointInfo>) -> Seq<ApModel> {
    v.map_values(|a: AccessPointInfo| a@)
}

/// How long the radio dwells on each channel during a scan.
#[derive(Clone, Copy, Debug, PartialEq, Eq, Structural)]
pub enum ScanType {
    Active { min_ms: u32, max_ms: u32 },
    Passive { dwell_ms: u32 },
}

impl Default for ScanType {
    /// An active scan with no extra dwell time.
    fn default() -> (r: Self)
        ensures
            r == (ScanType::Active { min_ms: 0u32, max_ms: 0u32 }),
    {
        ScanType::Active { min_ms: 0, max_ms: 0 }
    }
}

/// A scan request: optional target BSSID, SSID and channel, the scan kind,
/// and whether hidden networks are reported.  Immutable once handed to a
/// scan request.
#[derive(Clone, Debug, PartialEq, Eq)]
pub struct ScanConfig {
    pub bssid: Option<Vec<u8>>,
    pub ssid: Option<Vec<u8>>,
    pub channel: Option<u8>,
    pub scan_type: ScanType,
    pub show_hidden: bool,
}

/// Mathematical image of a [`ScanConfig`].
#[verifier::ext_equal]
pub ghost struct ScanCfgModel {
    pub bssid: Option<Seq<u8>>,
    pub ssid: Option<Seq<u8>>,
    pub channel: Option<u8>,
    pub scan_type: ScanType,
    pub show_hidden: bool,
}

impl View for ScanConfig {
    type V = ScanCfgModel;

    open spec fn view(&self) -> ScanCfgModel {
        ScanCfgModel {
            bssid: match self.bssid {
                Some(b) => Some(b@),
                None => None,
            },
            ssid: match self.ssid {
                Some(s) => Some(s@),
                None => None,
            },
            channel: self.channel,
            scan_type: self.scan_type,
            show_hidden: self.show_hidden,
        }
    }
}

impl Default for ScanConfig {
    /// No filter at all: every visible network matches.
    fn default() -> (r: Self)
        ensures
            r@ == (ScanCfgModel {
                bssid: None,
                ssid: None,
                channel: None,
                scan_type: ScanType::Active { min_ms: 0u32, max_ms: 0u32 },
                show_hidden: false,
            }),
    {
        ScanConfig {
            bssid: None,
            ssid: None,
            channel: None,
            scan_type: ScanType::Active { min_ms: 0, max_ms: 0 },
            show_hidden: false,
        }
    }
}

/// Whether one reported network satisfies a scan request's filters.
pub open spec fn scan_matches(ap: ApModel, cfg: ScanCfgModel) -> bool {
    &&& (cfg.bssid is Some ==> ap.bssid == cfg.bssid->0)
    &&& (cfg.ssid is Some ==> ap.ssid == cfg.ssid->0)
    &&& (cfg.channel is Some ==> ap.channel == cfg.channel->0)
    &&& (cfg.show_hidden || ap.ssid.len() > 0)
}

/// The networks of `nets` that satisfy `cfg`, in their reported order.
pub open spec fn filter_matching(nets: Seq<ApModel>, cfg: ScanCfgModel) -> Seq<ApModel>
    decreases nets.len(),
{
    if nets.len() == 0 {
        Seq::empty()
    } else {
        let rest = filter_matching(nets.drop_last(), cfg);
        if scan_matches(nets.last(), cfg) {
            rest.push(nets.last())
        } else {
            rest
        }
    }
}

/// Byte-wise equality of two byte strings.
pub fn bytes_eq(a: &Vec<u8>, b: &Vec<u8>) -> (r: bool)
    ensures
        r == (a@ == b@),
{
    if a.len() != b.len() {
        return false;
    }
    let mut i: usize = 0;
    while i < a.len()
        invariant
            i <= a.len(),
            a@.len() == b@.len(),
            forall|j: int| 0 <= j < i ==> a@[j] == b@[j],
        decreases a.len() - i,
    {
        if a[i] != b[i] {
            return false;
        }
        i += 1;
    }
    proof {
        assert(a@ =~= b@);
    }
    true
}

/// An owned copy of a byte string.
pub fn clone_bytes(v: &Vec<u8>) -> (r: Vec<u8>)
    ensures
        r@ == v@,
{
    let mut out: Vec<u8> = Vec::new();
    let mut i: usize = 0;
    while i < v.len()
        invariant
            i <= v.len(),
            out@ == v@.subrange(0, i as int),
        decreases v.len() - i,
    {
        out.push(v[i]);
        assert(out@ =~= v@.subrange(0, i + 1 as int));
        i += 1;
    }
    proof {
        assert(out@ =~= v@) by {
            assert(v@.subrange(0, v@.len() as int) =~= v@);
        }
    }
    out
}

/// An owned copy of a scan record, equal to the original in the model.
pub fn clone_ap(a: &AccessPointInfo) -> (r: AccessPointInfo)
    ensures
        r@ == a@,
{
    AccessPointInfo {
        ssid: clone_bytes(&a.ssid),
        bssid: clone_bytes(&a.bssid),
        channel: a.channel,
        signal_strength: a.signal_strength,
        auth_method: a.auth_method,
    }
}

/// An owned copy of a scan request, equal to the original in the model.
pub fn clone_scan_config(c: &ScanConfig) -> (r: ScanConfig)
    ensures
        r@ == c@,
{
    ScanConfig {
        bssid: match &c.bssid {
            Some(b) => Some(clone_bytes(b)),
            None => None,
        },
        ssid: match &c.ssid {
            Some(s) => Some(clone_bytes(s)),
            None => None,
        },
        channel: c.channel,
        scan_type: c.scan_type,
        show_hidden: c.show_hidden,
    }
}

/// Whether one reported network satisfies a scan request's filters.
pub fn ap_matches(ap: &AccessPointInfo, cfg: &ScanConfig) -> (r: bool)
    ensures
        r == scan_matches(ap@, cfg@),
{
    let bssid_ok = match &cfg.bssid {
        Some(b) => bytes_eq(&ap.bssid, b),
        None => true,
    };
    let ssid_ok = match &cfg.ssid {
        Some(s) => bytes_eq(&ap.ssid, s),
        None => true,
    };
    let channel_ok = match cfg.channel {
        Some(c) => ap.channel == c,
        None => true,
    };
    let hidden_ok = cfg.show_hidden || ap.ssid.len() > 0;
    bssid_ok && ssid_ok && channel_ok && hidden_ok
}

/// The networks among `nets` that satisfy `cfg`, in reported order.
pub fn scan_filter(nets: &Vec<AccessPointInfo>, cfg: &ScanConfig) -> (r: Vec<AccessPointInfo>)
    ensures
        aps_model(r@) == filter_matching(aps_model(nets@), cfg@),
{
    let mut out: Vec<AccessPointInfo> = Vec::new();
    let mut i: usize = 0;
    while i < nets.len()
        invariant
            i <= nets.len(),
            aps_model(out@) == filter_matching(aps_model(nets@.subrange(0, i as int)), cfg@),
        decreases nets.len() - i,
    {
        let ghost pre = aps_model(nets@.subrange(0, i as int));
        let ghost now = aps_model(nets@.subrange(0, i + 1 as int));
        proof {
            assert(now.drop_last() =~= pre);
            assert(now.last() == nets@[i as int]@);
        }
        if ap_matches(&nets[i], cfg) {
            out.push(clone_ap(&nets[i]));
            proof {
                assert(aps_model(out@) =~= filter_matching(pre, cfg@).push(nets@[i as int]@));
            }
        } else {
            proof {
                assert(filter_matching(now, cfg@) == filter_matching(pre, cfg@));
            }
        }
        i += 1;
    }
    proof {
        assert(nets@.subrange(0, nets@.len() as int) =~= nets@);
    }
    out
}

/// Station (client) operating parameters.
#[derive(Clone, Debug, PartialEq, Eq)]
pub struct ClientConfiguration {
    pub ssid: Vec<u8>,
    pub password: Vec<u8>,
    pub auth_method: AuthMethod,
}

/// Access-point operating parameters.
#[derive(Clone, Debug, PartialEq, Eq)]
pub struct AccessPointConfiguration {
    pub ssid: Vec<u8>,
    pub ssid_hidden: bool,
    pub channel: u8,
    pub auth_method: AuthMethod,
    pub password: Vec<u8>,
}

/// Desired operating mode of the driver: station, access point, or both.
#[derive(Clone, Debug, PartialEq, Eq)]
pub enum Configuration {
    Client(ClientConfiguration),
    AccessPoint(AccessPointConfiguration),
    Mixed(ClientConfiguration, AccessPointConfiguration),
}

/// Mathematical image of a [`ClientConfiguration`].
#[verifier::ext_equal]
pub ghost struct ClientModel {
    pub ssid: Seq<u8>,
    pub password: Seq<u8>,
    pub auth_method: AuthMethod,
}

/// Mathematical image of an [`AccessPointConfiguration`].
#[verifier::ext_equal]
pub ghost struct ApCfgModel {
    pub ssid: Seq<u8>,
    pub ssid_hidden: bool,
    pub channel: u8,
    pub auth_method: AuthMethod,
    pub password: Seq<u8>,
}

/// Mathematical image of a [`Configuration`].
#[verifier::ext_equal]
pub ghost enum ConfigModel {
    Client(ClientModel),
    AccessPoint(ApCfgModel),
    Mixed(ClientModel, ApCfgModel),
}

impl View for ClientConfiguration {
    type V = ClientModel;

    open spec fn view(&self) -> ClientModel {
        ClientModel { ssid: self.ssid@, password: self.password@, auth_method: self.auth_method }
    }
}

impl View for AccessPointConfiguration {
    type V = ApCfgModel;

    open spec fn view(&self) -> ApCfgModel {
        ApCfgModel {
            ssid: self.ssid@,
            ssid_hidden: self.ssid_hidden,
            channel: self.channel,
            auth_method: self.auth_method,
            password: self.password@,
        }
    }
}

impl View for Configuration {
    type V = ConfigModel;

    open spec fn view(&self) -> ConfigModel {
        match self {
            Configuration::Client(c) => ConfigModel::Client(c@),
            Configuration::AccessPoint(a) => ConfigModel::AccessPoint(a@),
            Configuration::Mixed(c, a) => ConfigModel::Mixed(c@, a@),
        }
    }
}

/// An SSID must be present and fit the radio.
pub open spec fn valid_ssid(s: Seq<u8>) -> bool {
    1 <= s.len() <= MAX_SSID_LEN
}

/// An open network carries no passphrase; a secured one carries one of the
/// length the firmware accepts.
pub open spec fn valid_password(auth: AuthMethod, p: Seq<u8>) -> bool {
    if auth == AuthMethod::Open {
        p.len() == 0
    } else {
        MIN_PASSWORD_LEN <= p.len() <= MAX_PASSWORD_LEN
    }
}

/// Internal consistency of a station part.
pub open spec fn valid_client(c: ClientModel) -> bool {
    valid_ssid(c.ssid) && valid_password(c.auth_method, c.password)
}

/// Internal consistency of an access-point part.
pub open spec fn valid_ap_cfg(a: ApCfgModel) -> bool {
    &&& valid_ssid(a.ssid)
    &&& valid_password(a.auth_method, a.password)
    &&& MIN_CHANNEL <= a.channel <= MAX_CHANNEL
}

/// Internal consistency of a whole configuration.
pub open spec fn valid_configuration(c: ConfigModel) -> bool {
    match c {
        ConfigModel::Client(cl) => valid_client(cl),
        ConfigModel::AccessPoint(ap) => valid_ap_cfg(ap),
        ConfigModel::Mixed(cl, ap) => valid_client(cl) && valid_ap_cfg(ap),
    }
}

pub fn check_ssid(s: &Vec<u8>) -> (r: bool)
    ensures
        r == valid_ssid(s@),
{
    1 <= s.len() && s.len() <= MAX_SSID_LEN
}

pub fn check_password(auth: AuthMethod, p: &Vec<u8>) -> (r: bool)
    ensures
        r == valid_password(auth, p@),
{
    if auth == AuthMethod::Open {
        p.len() == 0
    } else {
        MIN_PASSWORD_LEN <= p.len() && p.len() <= MAX_PASSWORD_LEN
    }
}

pub fn check_client(c: &ClientConfiguration) -> (r: bool)
    ensures
        r == valid_client(c@),
{
    check_ssid(&c.ssid) && check_password(c.auth_method, &c.password)
}

pub fn check_ap_cfg(a: &AccessPointConfiguration) -> (r: bool)
    ensures
        r == valid_ap_cfg(a@),
{
    check_ssid(&a.ssid) && check_password(a.auth_method, &a.password) && MIN_CHANNEL <= a.channel
        && a.channel <= MAX_CHANNEL
}

/// Whether a configuration is internally consistent, exactly as
/// [`valid_configuration`] states.
pub fn validate_configuration(c: &Configuration) -> (r: bool)
    ensures
        r == valid_configuration(c@),
{
    match c {
        Configuration::Client(cl) => check_client(cl),
        Configuration::AccessPoint(ap) => check_ap_cfg(ap),
        Configuration::Mixed(cl, ap) => check_client(cl) && check_ap_cfg(ap),
    }
}

} // verus!
