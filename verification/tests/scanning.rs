use esp_wifi_hal::config::{
    AccessPointInfo, AuthMethod, ScanConfig, ScanType, WifiDeviceId,
};
use esp_wifi_hal::driver::{WifiDriver, FRAME_QUEUE_CAP, SCAN_TIMEOUT_MS};
use esp_wifi_hal::error::EspError;
use esp_wifi_hal::eventloop::{EspSystemEventLoop, WifiEvent};
use esp_wifi_hal::radio::{Modem, RadioPeripheralHandle};
use esp_wifi_hal::wifi::EspWifi;

fn ap(ssid: &[u8], bssid: [u8; 6], channel: u8) -> AccessPointInfo {
    AccessPointInfo {
        ssid: ssid.to_vec(),
        bssid: bssid.to_vec(),
        channel,
        signal_strength: -42,
        auth_method: AuthMethod::Wpa2Personal,
    }
}

fn driver_with_env(networks: Vec<AccessPointInfo>, scan_duration_ms: u64) -> (Modem, WifiDriver) {
    let mut modem = Modem::new();
    let mut handle: RadioPeripheralHandle = modem.claim().unwrap();
    handle.networks_in_range = networks;
    handle.scan_duration_ms = scan_duration_ms;
    let sysloop = EspSystemEventLoop::take().unwrap();
    let drv = WifiDriver::new(handle, sysloop, None).unwrap();
    (modem, drv)
}

#[test]
fn blocking_scan_with_no_networks_returns_empty_not_timeout() {
    let (_modem, mut drv) = driver_with_env(Vec::new(), 0);
    drv.start().unwrap();
    assert_eq!(drv.start_scan(&ScanConfig::default(), true), Ok(()));
    assert!(drv.is_scan_done().unwrap());
    let results = drv.get_scan_result().unwrap();
    assert!(results.is_empty());
}

#[test]
fn scan_results_drain_on_retrieval() {
    let nets = vec![ap(b"alpha", [1, 1, 1, 1, 1, 1], 1)];
    let (_modem, mut drv) = driver_with_env(nets, 0);
    drv.start().unwrap();
    drv.start_scan(&ScanConfig::default(), true).unwrap();
    let first = drv.get_scan_result().unwrap();
    assert_eq!(first.len(), 1);
    let second = drv.get_scan_result().unwrap();
    assert!(second.is_empty());
}

#[test]
fn scan_requires_a_powered_radio() {
    let (_modem, mut drv) = driver_with_env(Vec::new(), 0);
    assert_eq!(
        drv.start_scan(&ScanConfig::default(), true),
        Err(EspError::InvalidState)
    );
}

#[test]
fn scan_refused_while_one_is_active() {
    let (_modem, mut drv) = driver_with_env(Vec::new(), 0);
    drv.start().unwrap();
    drv.start_scan(&ScanConfig::default(), false).unwrap();
    assert_eq!(
        drv.start_scan(&ScanConfig::default(), false),
        Err(EspError::InvalidState)
    );
}

#[test]
fn unresponsive_radio_times_a_blocking_scan_out() {
    let nets = vec![ap(b"alpha", [1, 1, 1, 1, 1, 1], 1)];
    let (_modem, mut drv) = driver_with_env(nets, SCAN_TIMEOUT_MS + 1);
    drv.start().unwrap();
    assert_eq!(
        drv.start_scan(&ScanConfig::default(), true),
        Err(EspError::Timeout)
    );
    assert!(!drv.is_scan_done().unwrap());
}

#[test]
fn non_blocking_scan_completes_on_scan_done_event() {
    let nets = vec![
        ap(b"alpha", [1, 1, 1, 1, 1, 1], 1),
        ap(b"beta", [2, 2, 2, 2, 2, 2], 6),
    ];
    let (_modem, mut drv) = driver_with_env(nets, 0);
    drv.start().unwrap();
    drv.start_scan(&ScanConfig::default(), false).unwrap();
    assert!(!drv.is_scan_done().unwrap());
    drv.post_event(WifiEvent::ScanDone);
    assert_eq!(drv.process_one(), Ok(Some(WifiEvent::ScanDone)));
    assert!(drv.is_scan_done().unwrap());
    let results = drv.get_scan_result().unwrap();
    assert_eq!(results.len(), 2);
    assert_eq!(results[0].ssid, b"alpha".to_vec());
    assert_eq!(results[1].ssid, b"beta".to_vec());
}

#[test]
fn stop_scan_cancels_an_active_scan() {
    let nets = vec![ap(b"alpha", [1, 1, 1, 1, 1, 1], 1)];
    let (_modem, mut drv) = driver_with_env(nets, 0);
    drv.start().unwrap();
    drv.start_scan(&ScanConfig::default(), false).unwrap();
    drv.stop_scan().unwrap();
    drv.post_event(WifiEvent::ScanDone);
    drv.process_one().unwrap();
    assert!(!drv.is_scan_done().unwrap());
    assert!(drv.get_scan_result().unwrap().is_empty());
    // stop_scan with no scan active is a no-op success
    assert_eq!(drv.stop_scan(), Ok(()));
}

#[test]
fn channel_filter_keeps_reported_order() {
    let nets = vec![
        ap(b"alpha", [1, 1, 1, 1, 1, 1], 6),
        ap(b"beta", [2, 2, 2, 2, 2, 2], 1),
        ap(b"gamma", [3, 3, 3, 3, 3, 3], 6),
    ];
    let (_modem, mut drv) = driver_with_env(nets, 0);
    drv.start().unwrap();
    let cfg = ScanConfig { channel: Some(6), ..ScanConfig::default() };
    drv.start_scan(&cfg, true).unwrap();
    let results = drv.get_scan_result().unwrap();
    assert_eq!(results.len(), 2);
    assert_eq!(results[0].ssid, b"alpha".to_vec());
    assert_eq!(results[1].ssid, b"gamma".to_vec());
}

#[test]
fn ssid_and_bssid_filters_match_exactly() {
    let nets = vec![
        ap(b"alpha", [1, 1, 1, 1, 1, 1], 6),
        ap(b"alpha", [2, 2, 2, 2, 2, 2], 11),
        ap(b"beta", [3, 3, 3, 3, 3, 3], 6),
    ];
    let (_modem, mut drv) = driver_with_env(nets, 0);
    drv.start().unwrap();
    let cfg = ScanConfig { ssid: Some(b"alpha".to_vec()), ..ScanConfig::default() };
    drv.start_scan(&cfg, true).unwrap();
    assert_eq!(drv.get_scan_result().unwrap().len(), 2);
    let cfg = ScanConfig {
        bssid: Some(vec![2, 2, 2, 2, 2, 2]),
        ..ScanConfig::default()
    };
    drv.start_scan(&cfg, true).unwrap();
    let results = drv.get_scan_result().unwrap();
    assert_eq!(results.len(), 1);
    assert_eq!(results[0].channel, 11);
}

#[test]
fn hidden_networks_need_show_hidden() {
    let nets = vec![
        ap(b"", [1, 1, 1, 1, 1, 1], 1),
        ap(b"beta", [2, 2, 2, 2, 2, 2], 1),
    ];
    let (_modem, mut drv) = driver_with_env(nets, 0);
    drv.start().unwrap();
    drv.start_scan(&ScanConfig::default(), true).unwrap();
    assert_eq!(drv.get_scan_result().unwrap().len(), 1);
    let cfg = ScanConfig {
        show_hidden: true,
        scan_type: ScanType::Passive { dwell_ms: 120 },
        ..ScanConfig::default()
    };
    drv.start_scan(&cfg, true).unwrap();
    assert_eq!(drv.get_scan_result().unwrap().len(), 2);
}

#[test]
fn frames_flow_only_through_an_armed_powered_driver() {
    let (_modem, mut drv) = driver_with_env(Vec::new(), 0);
    // not armed, not started: dropped
    assert!(!drv.deliver_rx_frame(WifiDeviceId::Sta, vec![1]));
    drv.set_callbacks().unwrap();
    // armed but stopped: still dropped
    assert!(!drv.deliver_rx_frame(WifiDeviceId::Sta, vec![1]));
    drv.start().unwrap();
    assert!(drv.deliver_rx_frame(WifiDeviceId::Sta, vec![1, 2]));
    assert!(drv.deliver_tx_done(WifiDeviceId::Ap, vec![3], true));
    let rx = drv.take_rx_frames();
    assert_eq!(rx.len(), 1);
    assert_eq!(rx[0].device, WifiDeviceId::Sta);
    assert_eq!(rx[0].payload, vec![1, 2]);
    let tx = drv.take_tx_completions();
    assert_eq!(tx.len(), 1);
    assert!(tx[0].success);
    assert!(drv.take_rx_frames().is_empty());
}

#[test]
fn full_rx_queue_exerts_backpressure() {
    let (_modem, mut drv) = driver_with_env(Vec::new(), 0);
    drv.set_callbacks().unwrap();
    drv.start().unwrap();
    for i in 0..FRAME_QUEUE_CAP {
        assert!(drv.deliver_rx_frame(WifiDeviceId::Sta, vec![i as u8]));
    }
    assert!(!drv.deliver_rx_frame(WifiDeviceId::Sta, vec![99]));
    let rx = drv.take_rx_frames();
    assert_eq!(rx.len(), FRAME_QUEUE_CAP);
    // arrival order is kept
    for (i, frame) in rx.iter().enumerate() {
        assert_eq!(frame.payload, vec![i as u8]);
    }
    assert!(drv.deliver_rx_frame(WifiDeviceId::Sta, vec![99]));
}

#[test]
fn set_callbacks_is_once_and_before_start() {
    let (_modem, mut drv) = driver_with_env(Vec::new(), 0);
    assert_eq!(drv.set_callbacks(), Ok(()));
    assert_eq!(drv.set_callbacks(), Err(EspError::InvalidState));
    let (_modem2, mut drv2) = driver_with_env(Vec::new(), 0);
    drv2.start().unwrap();
    assert_eq!(drv2.set_callbacks(), Err(EspError::InvalidState));
}

#[test]
fn disconnect_then_shutdown_fires_no_late_callback() {
    let mut modem = Modem::new();
    let mut handle = modem.claim().unwrap();
    handle.networks_in_range = Vec::new();
    let sysloop = EspSystemEventLoop::take().unwrap();
    let mut drv = WifiDriver::new(handle, sysloop, None).unwrap();
    drv.set_callbacks().unwrap();
    drv.start().unwrap();
    drv.connect().unwrap();
    assert!(drv.deliver_rx_frame(WifiDeviceId::Sta, vec![1]));
    drv.disconnect().unwrap();
    // destruction drops the pending callback work and releases the radio:
    // the driver is consumed, so nothing can deliver a frame afterwards.
    let store = drv.shutdown(&mut modem);
    assert!(store.is_none());
    assert!(modem.claim().is_ok());
}

#[test]
fn facade_blocking_scan_returns_empty_before_timeout() {
    let mut modem = Modem::new();
    let handle = modem.claim().unwrap();
    let sysloop = EspSystemEventLoop::take().unwrap();
    let mut wifi = EspWifi::new(handle, sysloop, None).unwrap();
    wifi.start().unwrap();
    assert_eq!(wifi.start_scan(&ScanConfig::default(), true), Ok(()));
    assert!(wifi.is_scan_done().unwrap());
    assert!(wifi.get_scan_result().unwrap().is_empty());
    assert!(wifi.get_scan_result().unwrap().is_empty());
    wifi.stop_scan().unwrap();
}

#[test]
fn facade_hands_out_the_driver_for_frame_work() {
    let mut modem = Modem::new();
    let handle = modem.claim().unwrap();
    let sysloop = EspSystemEventLoop::take().unwrap();
    let mut wifi = EspWifi::new(handle, sysloop, None).unwrap();
    wifi.driver_mut().set_callbacks().unwrap();
    wifi.start().unwrap();
    assert!(wifi.driver_mut().deliver_rx_frame(WifiDeviceId::Ap, vec![4, 2]));
    let rx = wifi.driver_mut().take_rx_frames();
    assert_eq!(rx.len(), 1);
    assert_eq!(rx[0].device, WifiDeviceId::Ap);
}
