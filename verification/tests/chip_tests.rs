use modem_manager_rs::cellular::ModemMode;
use modem_manager_rs::chip::{
    classify_cops_act, classify_network_act, get_iotop_mode, ChipModel, ModemRevision, SetupCommand,
};
use modem_manager_rs::quectel_atat::types::{ModemConfiguration, RadioAccessTechnology};
use modem_manager_rs::ModemError;

#[test]
fn classify_revisions() {
    assert_eq!(
        ChipModel::Bg95.classify_revision("Revision: BG95M3LAR02A03_01.200.01.200"),
        ModemRevision::R200
    );
    assert_eq!(
        ChipModel::Bg95.classify_revision("BG95M3LAR02A03_01.014.01.014"),
        ModemRevision::R014
    );
    assert_eq!(
        ChipModel::Bg95.classify_revision("BG95M3LAR02A03_01.012.01.012"),
        ModemRevision::R012
    );
    assert_eq!(ChipModel::Bg95.classify_revision("BG95M3LAR02A03_A0.301.A0.301"), ModemRevision::Unknown);
    assert_eq!(
        ChipModel::Bg96.classify_revision("BG96MAR02A07M1G_01.018.01.018"),
        ModemRevision::R018
    );
    assert_eq!(
        ChipModel::Eg916u.classify_revision("EG916QGLLGR01A05M04_01.200"),
        ModemRevision::Eg916u
    );
    assert_eq!(ChipModel::Eg916u.classify_revision("BG95"), ModemRevision::Unknown);
}

#[test]
fn mqtt_close_quirk_only_on_bg95_r200() {
    assert!(ChipModel::Bg95.needs_explicit_mqtt_close(ModemRevision::R200));
    assert!(!ChipModel::Bg95.needs_explicit_mqtt_close(ModemRevision::R012));
    assert!(!ChipModel::Bg96.needs_explicit_mqtt_close(ModemRevision::R200));
    assert!(!ChipModel::Eg916u.needs_explicit_mqtt_close(ModemRevision::R200));
}

#[test]
fn chip_masks_and_names() {
    assert_eq!(ChipModel::Bg95.name(), "BG95");
    assert_eq!(ChipModel::Eg916u.name(), "EG916U");
    assert_eq!(ChipModel::Bg96.emtc_all_bands_mask(), 0xB0E189F);
    assert_eq!(ChipModel::Eg916u.nb_all_bands_mask(), 0);
    assert_eq!(ChipModel::Bg95.nb_all_bands_mask(), 0x1001C200000000490E189F);
}

#[test]
fn attach_classification() {
    assert_eq!(classify_network_act("SEARCH"), None);
    assert_eq!(classify_network_act("No Service"), None);
    assert_eq!(classify_network_act("eMTC"), Some(ModemMode::LTEM));
    assert_eq!(classify_network_act("eMTC LTE"), Some(ModemMode::LTEM));
    assert_eq!(classify_network_act("GPRS"), Some(ModemMode::EDGE));
    assert_eq!(classify_network_act("EDGE"), Some(ModemMode::EDGE));
    assert_eq!(classify_network_act("NBIoT"), Some(ModemMode::NBIoT));
    assert_eq!(classify_network_act("WCDMA"), None);
    assert_eq!(classify_cops_act(Some(7)), Some(ModemMode::LTEM));
    assert_eq!(classify_cops_act(Some(8)), Some(ModemMode::LTEM));
    assert_eq!(classify_cops_act(Some(9)), Some(ModemMode::NBIoT));
    assert_eq!(classify_cops_act(Some(0)), Some(ModemMode::EDGE));
    assert_eq!(classify_cops_act(Some(3)), Some(ModemMode::EDGE));
    assert_eq!(classify_cops_act(Some(2)), None);
    assert_eq!(classify_cops_act(None), None);
}

#[test]
fn iotop_mode_from_rat_order() {
    let mut cfg = ModemConfiguration::new();
    assert_eq!(get_iotop_mode(&cfg), Ok(2));
    cfg.set_rat_order(&[RadioAccessTechnology::EMTC]).unwrap();
    assert_eq!(get_iotop_mode(&cfg), Ok(0));
    cfg.set_rat_order(&[RadioAccessTechnology::GSM, RadioAccessTechnology::NbIoT]).unwrap();
    assert_eq!(get_iotop_mode(&cfg), Ok(1));
    cfg.set_rat_order(&[RadioAccessTechnology::GSM]).unwrap();
    assert_eq!(get_iotop_mode(&cfg), Err(ModemError::NotSupported));
}

#[test]
fn bg95_configuration_plan() {
    let cfg = ModemConfiguration::new();
    let plan = ChipModel::Bg95.configuration_plan(&cfg);
    assert!(plan.required);
    assert!(plan.then_fail.is_none());
    assert_eq!(plan.commands.len(), 5);
    match &plan.commands[0] {
        SetupCommand::Bands(b) => {
            assert_eq!(b.param, "band");
            assert_eq!(b.gsm_band_mask, b"0".to_vec());
        }
        _ => panic!("first command must set the bands"),
    }
    match &plan.commands[1] {
        SetupCommand::RatSequence(r) => assert_eq!(r.rat_searching_sequence, b"020301".to_vec()),
        _ => panic!("second command must set the search sequence"),
    }
    match &plan.commands[4] {
        SetupCommand::IotOpMode(m) => assert_eq!(m.mode, 2),
        _ => panic!("last command must set the iotop mode"),
    }
}

#[test]
fn gsm_only_plan_stops_before_iotop() {
    let mut cfg = ModemConfiguration::new();
    cfg.set_rat_order(&[RadioAccessTechnology::GSM]).unwrap();
    let plan = ChipModel::Bg96.configuration_plan(&cfg);
    assert_eq!(plan.commands.len(), 4);
    assert_eq!(plan.then_fail, Some(ModemError::NotSupported));
    let eg = ChipModel::Eg916u.configuration_plan(&cfg);
    assert_eq!(eg.commands.len(), 1);
    assert!(!eg.required);
}
