use modem_manager_rs::quectel_atat::types::{
    Band, EmtcBands, GsmBands, ModemConfiguration, NbIotBands, RadioAccessTechnology,
    SslAuthenticationMode, SslCheckHostEnable, SslCipherSuiteEnum, SslConfiguration,
    SslIgnoreLocalTime, SslSniEnable, SslVersion,
};

#[test]
fn test_new_defaults() {
    let cfg = ModemConfiguration::new();
    assert_eq!(cfg.get_rat_order().as_str(), "020301");

    assert_eq!(
        cfg.get_band_string(RadioAccessTechnology::GSM).unwrap().as_str(),
        "0"
    );
    assert_eq!(
        cfg.get_band_string(RadioAccessTechnology::EMTC).unwrap().as_str(),
        "0"
    );
    assert_eq!(
        cfg.get_band_string(RadioAccessTechnology::NbIoT).unwrap().as_str(),
        "0"
    );
}

#[test]
fn test_set_rat_order_valid() {
    let mut cfg = ModemConfiguration::new();
    let order = [
        RadioAccessTechnology::EMTC,
        RadioAccessTechnology::NbIoT,
        RadioAccessTechnology::GSM,
    ];
    assert!(cfg.set_rat_order(&order).is_ok());
    assert_eq!(cfg.get_rat_order().as_str(), "020301");
}

#[test]
fn test_set_rat_order_errors() {
    let mut cfg = ModemConfiguration::new();

    assert!(cfg.set_rat_order(&[]).is_err());

    let too_many = [
        RadioAccessTechnology::GSM,
        RadioAccessTechnology::EMTC,
        RadioAccessTechnology::NbIoT,
        RadioAccessTechnology::GSM,
    ];
    assert!(cfg.set_rat_order(&too_many).is_err());

    let dup = [RadioAccessTechnology::EMTC, RadioAccessTechnology::EMTC];
    assert!(cfg.set_rat_order(&dup).is_err());
}

#[test]
fn test_set_bands_gsm_and_emtc() {
    let mut cfg = ModemConfiguration::new();

    cfg.set_bands(
        RadioAccessTechnology::GSM,
        &[GsmBands::Gsm900MHz, GsmBands::Gsm1800MHz],
    )
    .unwrap();
    assert_eq!(
        cfg.get_band_string(RadioAccessTechnology::GSM).unwrap().as_str(),
        "3"
    );

    cfg.set_bands(
        RadioAccessTechnology::EMTC,
        &[EmtcBands::Band1, EmtcBands::Band3],
    )
    .unwrap();
    assert_eq!(
        cfg.get_band_string(RadioAccessTechnology::EMTC).unwrap().as_str(),
        "5"
    );
}

#[test]
fn test_set_bands_nbiot_any() {
    let mut cfg = ModemConfiguration::new();

    cfg.set_bands(RadioAccessTechnology::NbIoT, &[NbIotBands::Any])
        .unwrap();

    let expected_val = NbIotBands::all_bands_mask();
    let expected_hex = format!("{:x}", expected_val);
    let actual = cfg.get_band_string(RadioAccessTechnology::NbIoT).unwrap();
    assert_eq!(actual.as_str(), expected_hex);
}

#[test]
fn test_set_bands_empty_rejected() {
    let mut cfg = ModemConfiguration::new();
    assert!(cfg
        .set_bands::<EmtcBands>(RadioAccessTechnology::EMTC, &[])
        .is_err());
}

#[test]
fn test_set_bands_any_with_extra_ignored() {
    let mut cfg = ModemConfiguration::new();

    cfg.set_bands(
        RadioAccessTechnology::NbIoT,
        &[NbIotBands::Any, NbIotBands::Band1, NbIotBands::Band3],
    )
    .unwrap();

    let expected_val = NbIotBands::all_bands_mask();
    let expected_hex = format!("{:x}", expected_val);
    let actual = cfg.get_band_string(RadioAccessTechnology::NbIoT).unwrap();
    assert_eq!(actual.as_str(), expected_hex);
}

#[test]
fn test_set_bands_nochange_is_zero() {
    let mut cfg = ModemConfiguration::new();

    cfg.set_bands(RadioAccessTechnology::EMTC, &[EmtcBands::NoChange])
        .unwrap();

    assert_eq!(
        cfg.get_band_string(RadioAccessTechnology::EMTC).unwrap().as_str(),
        "0"
    );
}

#[test]
fn test_get_band_string_overflow() {
    let mut cfg = ModemConfiguration::new();

    cfg.emtc_bands = 1u128 << 100;
    assert!(cfg.get_band_string(RadioAccessTechnology::EMTC).is_err());
}

#[test]
fn test_ssl_config_defaults() {
    let ssl_config = SslConfiguration::new();
    assert_eq!(ssl_config.get_context_id(), 2);
    assert_eq!(ssl_config.get_ca_cert_filename(), "");
    assert_eq!(ssl_config.get_ssl_version(), SslVersion::Tls1_2);
    assert_eq!(ssl_config.get_cipher_suite(), None);
    assert_eq!(
        ssl_config.get_auth_mode(),
        SslAuthenticationMode::ServerOnly
    );
    assert_eq!(ssl_config.get_sni_enable(), SslSniEnable::Enable);
    assert_eq!(
        ssl_config.get_checkhost_enable(),
        SslCheckHostEnable::Disable
    );
    assert_eq!(
        ssl_config.get_ignore_localtime(),
        SslIgnoreLocalTime::Ignore
    );
}

#[test]
fn test_ssl_config_builder_pattern() {
    let mut ssl_config = SslConfiguration::new();
    ssl_config
        .set_context_id(3)
        .unwrap()
        .set_ca_cert("cacert.pem")
        .unwrap()
        .set_ssl_version(SslVersion::Tls1_0)
        .set_cipher_suite(SslCipherSuiteEnum::TlsRsaWithAes256CbcSha)
        .set_auth_mode(SslAuthenticationMode::Mutual)
        .set_sni(false)
        .set_check_host(true)
        .set_ignore_localtime(false);

    assert_eq!(ssl_config.get_context_id(), 3);
    assert_eq!(ssl_config.get_ca_cert_filename(), "cacert.pem");
    assert_eq!(ssl_config.get_ssl_version(), SslVersion::Tls1_0);
    assert!(ssl_config.get_cipher_suite().is_some());
    assert_eq!(ssl_config.get_auth_mode(), SslAuthenticationMode::Mutual);
    assert_eq!(ssl_config.get_sni_enable(), SslSniEnable::Disable);
    assert_eq!(
        ssl_config.get_checkhost_enable(),
        SslCheckHostEnable::Enable
    );
    assert_eq!(ssl_config.get_ignore_localtime(), SslIgnoreLocalTime::Care);
}

#[test]
fn test_ssl_config_invalid_context_id() {
    let mut ssl_config = SslConfiguration::new();
    assert!(ssl_config.set_context_id(6).is_err());
    assert_eq!(ssl_config.get_context_id(), 2);
}

#[test]
fn test_ssl_config_empty_cert() {
    let mut ssl_config = SslConfiguration::new();
    assert!(ssl_config.set_ca_cert("").is_ok());
    assert_eq!(ssl_config.get_ca_cert_filename(), "");
}

#[test]
fn test_ssl_config_cipher_suite_all() {
    let mut ssl_config = SslConfiguration::new();
    ssl_config.set_cipher_suite(SslCipherSuiteEnum::TlsRsaWithAes256CbcSha);
    assert!(ssl_config.get_cipher_suite().is_some());

    ssl_config.set_cipher_suite_all();
    assert_eq!(ssl_config.get_cipher_suite(), None);
}

#[test]
fn band_string_limit_is_two_to_the_96() {
    let mut cfg = ModemConfiguration::new();
    cfg.emtc_bands = (1u128 << 96) - 1;
    let s = cfg.get_band_string(RadioAccessTechnology::EMTC).unwrap();
    assert_eq!(s, "f".repeat(24));
    assert_eq!(u128::from_str_radix(&s, 16), Ok(cfg.emtc_bands));
    cfg.emtc_bands = 1u128 << 96;
    assert_eq!(cfg.get_band_string(RadioAccessTechnology::EMTC), Err(()));
    cfg.nb_bands = 0x80000;
    let s = cfg.get_band_string(RadioAccessTechnology::NbIoT).unwrap();
    assert_eq!(s, "80000");
    assert_eq!(u128::from_str_radix(&s, 16), Ok(0x80000));
    cfg.gsm_bands = 0;
    assert_eq!(cfg.get_band_string(RadioAccessTechnology::GSM).unwrap(), "0");
    assert_eq!(cfg.get_band_string(RadioAccessTechnology::Default), Err(()));
}
