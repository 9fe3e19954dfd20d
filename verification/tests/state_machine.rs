use esp_wifi_hal::config::{AccessPointConfiguration, AuthMethod, ClientConfiguration, Configuration, WifiDeviceId};
use esp_wifi_hal::error::EspError;
use esp_wifi_hal::eventloop::{EspSystemEventLoop, WifiEvent};
use esp_wifi_hal::netif::{IpInfo, Ipv4Addr};
use esp_wifi_hal::radio::Modem;
use esp_wifi_hal::wifi::EspWifi;

fn station_config(ssid: &[u8]) -> Configuration {
    Configuration::Client(ClientConfiguration {
        ssid: ssid.to_vec(),
        password: b"password1".to_vec(),
        auth_method: AuthMethod::Wpa2Personal,
    })
}

fn fresh_wifi(modem: &mut Modem) -> EspWifi {
    let handle = modem.claim().unwrap();
    let sysloop = EspSystemEventLoop::take().unwrap();
    EspWifi::new(handle, sysloop, None).unwrap()
}

#[test]
fn station_scenario_connect_then_disconnect() {
    let mut modem = Modem::new();
    let mut wifi = fresh_wifi(&mut modem);
    wifi.set_configuration(station_config(b"net-A")).unwrap();

    wifi.start().unwrap();
    assert!(wifi.driver().is_started().unwrap());
    assert!(!wifi.driver().is_connected().unwrap());

    wifi.connect().unwrap();
    assert!(!wifi.driver().is_connected().unwrap());

    wifi.post_event(WifiEvent::AssociationSuccess(WifiDeviceId::Sta));
    let ev = wifi.process_one().unwrap();
    assert_eq!(ev, Some(WifiEvent::AssociationSuccess(WifiDeviceId::Sta)));
    assert!(wifi.driver().is_connected().unwrap());
    assert!(wifi.driver().is_sta_connected().unwrap());

    wifi.disconnect().unwrap();
    assert!(!wifi.driver().is_connected().unwrap());
    assert!(wifi.driver().is_started().unwrap());
}

#[test]
fn start_stop_sequences_never_connect() {
    let mut modem = Modem::new();
    let mut wifi = fresh_wifi(&mut modem);
    for _ in 0..3 {
        wifi.start().unwrap();
        assert!(!wifi.driver().is_connected().unwrap());
        wifi.start().unwrap();
        assert!(!wifi.driver().is_connected().unwrap());
        wifi.stop().unwrap();
        assert!(!wifi.driver().is_started().unwrap());
        assert!(!wifi.driver().is_connected().unwrap());
    }
}

#[test]
fn connect_requires_started() {
    let mut modem = Modem::new();
    let mut wifi = fresh_wifi(&mut modem);
    assert_eq!(wifi.connect(), Err(EspError::InvalidState));
    wifi.start().unwrap();
    assert_eq!(wifi.connect(), Ok(()));
    // a second connect while already connecting is a no-op success
    assert_eq!(wifi.connect(), Ok(()));
}

#[test]
fn disconnect_requires_engagement() {
    let mut modem = Modem::new();
    let mut wifi = fresh_wifi(&mut modem);
    assert_eq!(wifi.disconnect(), Err(EspError::InvalidState));
    wifi.start().unwrap();
    assert_eq!(wifi.disconnect(), Err(EspError::InvalidState));
    wifi.connect().unwrap();
    assert_eq!(wifi.disconnect(), Ok(()));
}

#[test]
fn failed_association_returns_to_started() {
    let mut modem = Modem::new();
    let mut wifi = fresh_wifi(&mut modem);
    wifi.start().unwrap();
    wifi.connect().unwrap();
    wifi.post_event(WifiEvent::AssociationLost(WifiDeviceId::Sta, 205));
    let ev = wifi.process_one().unwrap();
    assert_eq!(ev, Some(WifiEvent::AssociationLost(WifiDeviceId::Sta, 205)));
    assert!(!wifi.driver().is_connected().unwrap());
    assert!(wifi.driver().is_started().unwrap());
}

#[test]
fn ap_events_do_not_move_station_state() {
    let mut modem = Modem::new();
    let mut wifi = fresh_wifi(&mut modem);
    wifi.start().unwrap();
    wifi.connect().unwrap();
    wifi.post_event(WifiEvent::AssociationSuccess(WifiDeviceId::Ap));
    wifi.process_one().unwrap();
    assert!(!wifi.driver().is_connected().unwrap());
}

#[test]
fn radio_fault_forces_stopped_and_surfaces_on_next_event() {
    let mut modem = Modem::new();
    let mut wifi = fresh_wifi(&mut modem);
    wifi.start().unwrap();
    wifi.connect().unwrap();
    wifi.post_event(WifiEvent::RadioFault);
    assert_eq!(wifi.process_one(), Err(EspError::RadioFault));
    assert!(!wifi.driver().is_started().unwrap());
    assert!(!wifi.driver().is_connected().unwrap());
}

#[test]
fn events_are_processed_in_posting_order() {
    let mut modem = Modem::new();
    let mut wifi = fresh_wifi(&mut modem);
    wifi.start().unwrap();
    wifi.connect().unwrap();
    wifi.post_event(WifiEvent::AssociationSuccess(WifiDeviceId::Sta));
    wifi.post_event(WifiEvent::AssociationLost(WifiDeviceId::Sta, 1));
    assert_eq!(
        wifi.process_one(),
        Ok(Some(WifiEvent::AssociationSuccess(WifiDeviceId::Sta)))
    );
    assert!(wifi.driver().is_connected().unwrap());
    assert_eq!(
        wifi.process_one(),
        Ok(Some(WifiEvent::AssociationLost(WifiDeviceId::Sta, 1)))
    );
    assert!(!wifi.driver().is_connected().unwrap());
    assert_eq!(wifi.process_one(), Ok(None));
}

#[test]
fn ip_info_follows_acquisition_and_loss() {
    let mut modem = Modem::new();
    let mut wifi = fresh_wifi(&mut modem);
    wifi.start().unwrap();
    wifi.connect().unwrap();
    assert_eq!(
        wifi.sta_netif().get_ip_info(),
        Err(EspError::InvalidState)
    );
    let info = IpInfo {
        ip: Ipv4Addr { o0: 192, o1: 168, o2: 1, o3: 20 },
        netmask: Ipv4Addr { o0: 255, o1: 255, o2: 255, o3: 0 },
        gateway: Ipv4Addr { o0: 192, o1: 168, o2: 1, o3: 1 },
    };
    wifi.post_event(WifiEvent::AssociationSuccess(WifiDeviceId::Sta));
    wifi.post_event(WifiEvent::IpAcquired(info));
    wifi.process_one().unwrap();
    wifi.process_one().unwrap();
    assert_eq!(wifi.sta_netif().get_ip_info(), Ok(info));
    wifi.post_event(WifiEvent::AssociationLost(WifiDeviceId::Sta, 8));
    wifi.process_one().unwrap();
    assert_eq!(
        wifi.sta_netif().get_ip_info(),
        Err(EspError::InvalidState)
    );
}

#[test]
fn radio_claim_is_exclusive_until_shutdown() {
    let mut modem = Modem::new();
    let wifi = fresh_wifi(&mut modem);
    assert_eq!(modem.claim().err(), Some(EspError::ResourceUnavailable));
    let store = wifi.shutdown(&mut modem);
    assert!(store.is_none());
    assert!(modem.claim().is_ok());
}

#[test]
fn is_sta_connected_needs_a_station_role() {
    let mut modem = Modem::new();
    let mut wifi = fresh_wifi(&mut modem);
    wifi.set_configuration(Configuration::AccessPoint(AccessPointConfiguration {
        ssid: b"cell".to_vec(),
        ssid_hidden: false,
        channel: 6,
        auth_method: AuthMethod::Open,
        password: Vec::new(),
    }))
    .unwrap();
    wifi.start().unwrap();
    wifi.connect().unwrap();
    wifi.post_event(WifiEvent::AssociationSuccess(WifiDeviceId::Sta));
    wifi.process_one().unwrap();
    assert!(wifi.driver().is_connected().unwrap());
    assert!(!wifi.driver().is_sta_connected().unwrap());
}
