use esp_wifi_hal::codec::{decode_ap, decode_client, encode_ap, encode_client};
use esp_wifi_hal::config::{
    AccessPointConfiguration, AuthMethod, ClientConfiguration, Configuration,
};
use esp_wifi_hal::driver::WifiDriver;
use esp_wifi_hal::error::EspError;
use esp_wifi_hal::eventloop::EspSystemEventLoop;
use esp_wifi_hal::nvs::{EspNvs, EspNvsPartition, NvsDefault, NvsFlash};
use esp_wifi_hal::radio::Modem;

fn client(ssid: &[u8]) -> ClientConfiguration {
    ClientConfiguration {
        ssid: ssid.to_vec(),
        password: b"hunter2hunter2".to_vec(),
        auth_method: AuthMethod::Wpa2Personal,
    }
}

fn access_point(ssid: &[u8]) -> AccessPointConfiguration {
    AccessPointConfiguration {
        ssid: ssid.to_vec(),
        ssid_hidden: true,
        channel: 11,
        auth_method: AuthMethod::Wpa3Personal,
        password: b"longenough".to_vec(),
    }
}

fn store(read_write: bool) -> EspNvs<NvsDefault> {
    let mut flash = NvsFlash::new();
    let part = EspNvsPartition::take(&mut flash).unwrap();
    EspNvs::new(&part, "wifi", read_write).unwrap()
}

#[test]
fn client_record_round_trips() {
    let c = client(b"net-A");
    let bytes = encode_client(&c);
    assert_eq!(bytes[1] as usize, 5);
    assert_eq!(decode_client(&bytes), Some(c));
}

#[test]
fn ap_record_round_trips() {
    let a = access_point(b"cell-7");
    let bytes = encode_ap(&a);
    assert_eq!(bytes[1], 11);
    assert_eq!(bytes[2], 1);
    assert_eq!(decode_ap(&bytes), Some(a));
}

#[test]
fn malformed_records_decode_to_none() {
    assert_eq!(decode_client(&vec![]), None);
    assert_eq!(decode_client(&vec![9, 0]), None); // unknown auth tag
    assert_eq!(decode_client(&vec![0, 200, 1]), None); // ssid length past end
    assert_eq!(decode_ap(&vec![0, 6, 0]), None); // too short
    // decodes but is internally inconsistent: empty ssid
    assert_eq!(decode_client(&vec![0, 0]), None);
}

#[test]
fn invalid_configurations_are_refused() {
    let mut modem = Modem::new();
    let handle = modem.claim().unwrap();
    let sysloop = EspSystemEventLoop::take().unwrap();
    let mut drv = WifiDriver::new(handle, sysloop, None).unwrap();

    // empty SSID
    let mut c = client(b"");
    assert_eq!(
        drv.set_configuration(Configuration::Client(c.clone())),
        Err(EspError::InvalidConfig)
    );
    // SSID over 32 bytes
    c.ssid = vec![b'x'; 33];
    assert_eq!(
        drv.set_configuration(Configuration::Client(c.clone())),
        Err(EspError::InvalidConfig)
    );
    // secured mode with a short passphrase
    c.ssid = b"ok".to_vec();
    c.password = b"short".to_vec();
    assert_eq!(
        drv.set_configuration(Configuration::Client(c.clone())),
        Err(EspError::InvalidConfig)
    );
    // open mode must carry no passphrase
    c.auth_method = AuthMethod::Open;
    c.password = b"something".to_vec();
    assert_eq!(
        drv.set_configuration(Configuration::Client(c.clone())),
        Err(EspError::InvalidConfig)
    );
    // open mode without a passphrase is fine
    c.password = Vec::new();
    assert_eq!(drv.set_configuration(Configuration::Client(c)), Ok(()));
    // an access point needs a valid channel
    let mut a = access_point(b"cell");
    a.channel = 0;
    assert_eq!(
        drv.set_configuration(Configuration::AccessPoint(a.clone())),
        Err(EspError::InvalidConfig)
    );
    a.channel = 15;
    assert_eq!(
        drv.set_configuration(Configuration::AccessPoint(a)),
        Err(EspError::InvalidConfig)
    );
    assert!(drv.get_configuration().is_some());
}

#[test]
fn configuration_survives_a_driver_restart() {
    let mut modem = Modem::new();
    let handle = modem.claim().unwrap();
    let sysloop = EspSystemEventLoop::take().unwrap();
    let mut drv = WifiDriver::new(handle, sysloop, Some(store(true))).unwrap();
    assert!(drv.get_configuration().is_none());

    let conf = Configuration::Mixed(client(b"net-A"), access_point(b"cell-7"));
    drv.set_configuration(conf.clone()).unwrap();

    let returned = drv.shutdown(&mut modem).unwrap();
    let handle = modem.claim().unwrap();
    let sysloop = EspSystemEventLoop::take().unwrap();
    let drv = WifiDriver::new(handle, sysloop, Some(returned)).unwrap();
    assert_eq!(drv.get_configuration(), Some(&conf));
}

#[test]
fn replacing_the_mode_removes_the_other_roles_record() {
    let mut modem = Modem::new();
    let handle = modem.claim().unwrap();
    let sysloop = EspSystemEventLoop::take().unwrap();
    let mut drv = WifiDriver::new(handle, sysloop, Some(store(true))).unwrap();
    drv.set_configuration(Configuration::Mixed(client(b"net-A"), access_point(b"cell-7")))
        .unwrap();
    let ap_only = Configuration::AccessPoint(access_point(b"cell-7"));
    drv.set_configuration(ap_only.clone()).unwrap();

    let returned = drv.shutdown(&mut modem).unwrap();
    let handle = modem.claim().unwrap();
    let sysloop = EspSystemEventLoop::take().unwrap();
    let drv = WifiDriver::new(handle, sysloop, Some(returned)).unwrap();
    assert_eq!(drv.get_configuration(), Some(&ap_only));
}

#[test]
fn read_only_store_keeps_staging_but_reports_the_failure() {
    let mut modem = Modem::new();
    let handle = modem.claim().unwrap();
    let sysloop = EspSystemEventLoop::take().unwrap();
    let mut drv = WifiDriver::new(handle, sysloop, Some(store(false))).unwrap();
    let conf = Configuration::Client(client(b"net-A"));
    assert_eq!(
        drv.set_configuration(conf.clone()),
        Err(EspError::StorageError)
    );
    assert_eq!(drv.get_configuration(), Some(&conf));
}

#[test]
fn without_a_store_configuration_is_volatile() {
    let mut modem = Modem::new();
    let handle = modem.claim().unwrap();
    let sysloop = EspSystemEventLoop::take().unwrap();
    let mut drv = WifiDriver::new(handle, sysloop, None).unwrap();
    let conf = Configuration::Client(client(b"net-A"));
    assert_eq!(drv.set_configuration(conf), Ok(()));
    assert!(drv.shutdown(&mut modem).is_none());
    let handle = modem.claim().unwrap();
    let sysloop = EspSystemEventLoop::take().unwrap();
    let drv = WifiDriver::new(handle, sysloop, None).unwrap();
    assert!(drv.get_configuration().is_none());
}
