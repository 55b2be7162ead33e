use modem_manager_rs::cellular::config::{get_timestamp_from_nitz_response, get_timestamp_from_ntp_response};

#[test]
fn cellular_test_convert_ntp_time_to_unix_timestamp() {
    let dt_str = "1970/01/01,00:00:00+00";
    let ts = get_timestamp_from_ntp_response(dt_str);
    assert!(ts.is_ok());
    assert_eq!(ts.unwrap(), 0);

    let dt_str = "2025/11/11,19:39:05+00";
    let ts = get_timestamp_from_ntp_response(dt_str);
    assert!(ts.is_ok());
    assert_eq!(ts.unwrap(), 1762889945);
}

#[test]
fn cellular_test_convert_ntp_time_to_unix_timestamp_ignore_timezone() {
    let dt_str = "2025/11/11,19:39:05+04";
    let ts = get_timestamp_from_ntp_response(dt_str);
    assert!(ts.is_ok());
    assert_eq!(ts.unwrap(), 1762889945);

    let dt_str = "2025/11/11,19:39:05-04";
    let ts = get_timestamp_from_ntp_response(dt_str);
    assert!(ts.is_ok());
    assert_eq!(ts.unwrap(), 1762889945);
}

#[test]
fn cellular_test_convert_nitz_time_to_unix_timestamp() {
    let dt_str = "1970/01/01,00:00:00+00,0";
    let ts = get_timestamp_from_nitz_response(dt_str);
    assert!(ts.is_ok());
    assert_eq!(ts.unwrap(), 0);

    let dt_str = "2025/11/11,19:39:05+00,1";
    let ts = get_timestamp_from_nitz_response(dt_str);
    assert!(ts.is_ok());
    assert_eq!(ts.unwrap(), 1762889945);
}

#[test]
fn cellular_test_convert_nitz_time_to_unix_timestamp_ignore_timezone() {
    let dt_str = "2025/11/11,19:39:05+04,0";
    let ts = get_timestamp_from_nitz_response(dt_str);
    assert!(ts.is_ok());
    assert_eq!(ts.unwrap(), 1762889945);

    let dt_str = "2025/11/11,19:39:05-04,1";
    let ts = get_timestamp_from_nitz_response(dt_str);
    assert!(ts.is_ok());
    assert_eq!(ts.unwrap(), 1762889945);
}

#[test]
fn config_test_convert_ntp_time_to_unix_timestamp() {
    let dt_str = "1970/01/01,00:00:00+00";
    let ts = get_timestamp_from_ntp_response(dt_str);
    assert!(ts.is_ok());
    assert_eq!(ts.unwrap(), 0);

    let dt_str = "2025/11/11,19:39:05+00";
    let ts = get_timestamp_from_ntp_response(dt_str);
    assert!(ts.is_ok());
    assert_eq!(ts.unwrap(), 1762889945);
}

#[test]
fn config_test_convert_ntp_time_to_unix_timestamp_ignore_timezone() {
    let dt_str = "2025/11/11,19:39:05+04";
    let ts = get_timestamp_from_ntp_response(dt_str);
    assert!(ts.is_ok());
    assert_eq!(ts.unwrap(), 1762889945);

    let dt_str = "2025/11/11,19:39:05-04";
    let ts = get_timestamp_from_ntp_response(dt_str);
    assert!(ts.is_ok());
    assert_eq!(ts.unwrap(), 1762889945);
}

#[test]
fn config_test_convert_nitz_time_to_unix_timestamp() {
    let dt_str = "1970/01/01,00:00:00+00,0";
    let ts = get_timestamp_from_nitz_response(dt_str);
    assert!(ts.is_ok());
    assert_eq!(ts.unwrap(), 0);

    let dt_str = "2025/11/11,19:39:05+00,1";
    let ts = get_timestamp_from_nitz_response(dt_str);
    assert!(ts.is_ok());
    assert_eq!(ts.unwrap(), 1762889945);
}

#[test]
fn config_test_convert_nitz_time_to_unix_timestamp_ignore_timezone() {
    let dt_str = "2025/11/11,19:39:05+04,0";
    let ts = get_timestamp_from_nitz_response(dt_str);
    assert!(ts.is_ok());
    assert_eq!(ts.unwrap(), 1762889945);

    let dt_str = "2025/11/11,19:39:05-04,1";
    let ts = get_timestamp_from_nitz_response(dt_str);
    assert!(ts.is_ok());
    assert_eq!(ts.unwrap(), 1762889945);
}
