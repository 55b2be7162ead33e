//! What differs between the supported Quectel chips (BG95, BG96, EG916U):
//! their band masks, how a firmware version is classified, how a network
//! attach shows up, and which configuration commands they take.

use vstd::prelude::*;
use crate::cellular::ModemMode;
use crate::quectel_atat::types::{ModemConfiguration, RadioAccessTechnology};
use crate::quectel_atat::{
    ConfigureBands, ConfigureIotOpMode, ConfigureRatSearchingMode, ConfigureRatSearchingSequence,
    ConfigureServiceDomain,
};
use crate::quectel_atat::types::{band_string, rat_order_code, rat_order_string, ConfigurationEffect};
use crate::text::chars_occur_at;
use crate::text::{chars_contain, str_contains, str_eq};
use crate::ModemError;
use vstd::utf8::encode_utf8;

verus! {

/// Firmware revision, for revision-specific quirks.
#[derive(Clone, Copy, Debug, PartialEq, Eq, Structural)]
pub enum ModemRevision {
    R200,
    R018,
    R014,
    R012,
    /// Quectel EG916U (LTE Cat 1bis)
    Eg916u,
    Unknown,
}

/// The chip the driver talks to.
#[derive(Clone, Copy, Debug, PartialEq, Eq, Structural)]
pub enum ChipModel {
    /// Cat-M / NB-IoT / GSM
    Bg95,
    /// Cat-M / NB-IoT / GSM
    Bg96,
    /// LTE Cat 1bis / GSM
    Eg916u,
}

/// Display name of a chip.
pub open spec fn chip_name(c: ChipModel) -> Seq<char> {
    match c {
        ChipModel::Bg95 => "BG95"@,
        ChipModel::Bg96 => "BG96"@,
        ChipModel::Eg916u => "EG916U"@,
    }
}

/// The chip this build drives; its band tables are the ones that
/// `ModemConfiguration::set_bands` checks band lists against.
pub const ACTIVE_CHIP: ChipModel = ChipModel::Bg95;

/// The eMTC (LTE for EG916U) mask that "any band" stands for.
pub open spec fn emtc_all_bands(c: ChipModel) -> u128 {
    match c {
        ChipModel::Bg95 => 0x100182000000004F0E189Fu128,
        ChipModel::Bg96 => 0xB0E189Fu128,
        ChipModel::Eg916u => 0x800800B5u128,
    }
}

/// The NB-IoT mask that "any band" stands for (none on EG916U).
pub open spec fn nb_all_bands(c: ChipModel) -> u128 {
    match c {
        ChipModel::Bg95 => 0x1001C200000000490E189Fu128,
        ChipModel::Bg96 => 0xB0E189Fu128,
        ChipModel::Eg916u => 0u128,
    }
}

/// How a firmware version string (`AT+QGMR`) is classified.
pub open spec fn revision_of(c: ChipModel, version: Seq<char>) -> ModemRevision {
    match c {
        ChipModel::Bg95 => if chars_contain(version, "BG95M3LAR02A03_01.200.01.200"@) {
            ModemRevision::R200
        } else if chars_contain(version, "BG95M3LAR02A03_01.014.01.014"@) {
            ModemRevision::R014
        } else if chars_contain(version, "BG95M3LAR02A03_01.012.01.012"@) {
            ModemRevision::R012
        } else {
            ModemRevision::Unknown
        },
        ChipModel::Bg96 => if chars_contain(version, "BG96MAR02A07M1G_01.018.00.000"@)
            || chars_contain(version, "BG96MAR02A07M1G_01.018.01.018"@) {
            ModemRevision::R018
        } else {
            ModemRevision::Unknown
        },
        ChipModel::Eg916u => if chars_contain(version, "EG916"@) {
            ModemRevision::Eg916u
        } else {
            ModemRevision::Unknown
        },
    }
}

/// The attach state a BG95/BG96 `AT+QNWINFO` access technology shows:
/// `None` while searching or for an unknown technology; `eMTC` (and any
/// LTE technology) is LTE-M.
pub open spec fn network_act_mode(act: Seq<char>) -> Option<ModemMode> {
    if act == "SEARCH"@ || chars_contain(act, "No Service"@) {
        None
    } else if act == "eMTC"@ || chars_contain(act, "LTE"@) {
        Some(ModemMode::LTEM)
    } else if chars_contain(act, "GSM"@) || chars_contain(act, "GPRS"@) || chars_contain(
        act,
        "EDGE"@,
    ) {
        Some(ModemMode::EDGE)
    } else if chars_contain(act, "NBIoT"@) {
        Some(ModemMode::NBIoT)
    } else {
        None
    }
}

/// The attach state an EG916U `AT+COPS?` access technology code shows:
/// 7 and 8 LTE, 9 NB-IoT, 0 and 3 GSM; `None` for anything else.
pub open spec fn cops_act_mode(act: Option<u8>) -> Option<ModemMode> {
    match act {
        Some(7) | Some(8) => Some(ModemMode::LTEM),
        Some(9) => Some(ModemMode::NBIoT),
        Some(0) | Some(3) => Some(ModemMode::EDGE),
        _ => None,
    }
}

/// The `iotopmode` a search sequence asks for: eMTC (`02`) only 0, NB-IoT
/// (`03`) only 1, both 2; neither is not supported.
pub open spec fn iotop_mode(rat_order: Seq<char>) -> Result<u8, ModemError> {
    match (chars_contain(rat_order, "02"@), chars_contain(rat_order, "03"@)) {
        (true, false) => Ok(0u8),
        (false, true) => Ok(1u8),
        (true, true) => Ok(2u8),
        (false, false) => Err(ModemError::NotSupported),
    }
}

/// What a BG95/BG96 attach poll sees in the `AT+QNWINFO` access
/// technology: nothing while it reads `SEARCH` or contains `No Service`;
/// otherwise LTE-M for `eMTC` or any LTE technology, then the 2G mode EDGE
/// for any GSM, GPRS or EDGE technology, then NB-IoT; and nothing for a
/// text that names none of them.
pub proof fn law_network_act_classes(act: Seq<char>)
    ensures
        (act == "SEARCH"@ || chars_contain(act, "No Service"@)) ==> network_act_mode(act) is None,
        !(act == "SEARCH"@ || chars_contain(act, "No Service"@)) && (act == "eMTC"@ || chars_contain(
            act,
            "LTE"@,
        )) ==> network_act_mode(act) == Some(ModemMode::LTEM),
        !(act == "SEARCH"@ || chars_contain(act, "No Service"@)) && !(act == "eMTC"@ || chars_contain(
            act,
            "LTE"@,
        )) && (chars_contain(act, "GSM"@) || chars_contain(act, "GPRS"@) || chars_contain(act, "EDGE"@))
            ==> network_act_mode(act) == Some(ModemMode::EDGE),
        !(act == "SEARCH"@ || chars_contain(act, "No Service"@)) && !(act == "eMTC"@ || chars_contain(
            act,
            "LTE"@,
        )) && !(chars_contain(act, "GSM"@) || chars_contain(act, "GPRS"@) || chars_contain(act, "EDGE"@))
            && chars_contain(act, "NBIoT"@) ==> network_act_mode(act) == Some(ModemMode::NBIoT),
        !(act == "eMTC"@ || chars_contain(act, "LTE"@) || chars_contain(act, "GSM"@) || chars_contain(
            act,
            "GPRS"@,
        ) || chars_contain(act, "EDGE"@) || chars_contain(act, "NBIoT"@)) ==> network_act_mode(act) is None,
        network_act_mode(act) != Some(ModemMode::GPRS) && network_act_mode(act) != Some(
            ModemMode::Unknown,
        ),
{
}

/// What an EG916U attach poll sees in the `AT+COPS?` access technology
/// code: LTE-M for 7 (eMTC) and 8, NB-IoT for 9, the 2G mode EDGE for 0
/// (GSM) and 3 (EGPRS), and nothing for any other code or none.
pub proof fn law_cops_act_classes(act: Option<u8>)
    ensures
        (act == Some(7u8) || act == Some(8u8)) <==> cops_act_mode(act) == Some(ModemMode::LTEM),
        act == Some(9u8) <==> cops_act_mode(act) == Some(ModemMode::NBIoT),
        (act == Some(0u8) || act == Some(3u8)) <==> cops_act_mode(act) == Some(ModemMode::EDGE),
        cops_act_mode(act) is None <==> !(act == Some(7u8) || act == Some(8u8) || act == Some(9u8)
            || act == Some(0u8) || act == Some(3u8)),
{
}

impl ChipModel {
    /// Display name of the chip.
    pub fn name(&self) -> (s: &'static str)
        ensures
            s@ == chip_name(*self),
    {
        match self {
            ChipModel::Bg95 => "BG95",
            ChipModel::Bg96 => "BG96",
            ChipModel::Eg916u => "EG916U",
        }
    }

    /// All-bands mask for eMTC "any".
    pub fn emtc_all_bands_mask(&self) -> (m: u128)
        ensures
            m == emtc_all_bands(*self),
    {
        match self {
            ChipModel::Bg95 => 0x100182000000004F0E189F,
            ChipModel::Bg96 => 0xB0E189F,
            ChipModel::Eg916u => 0x800800B5,
        }
    }

    /// All-bands mask for NB-IoT "any".
    pub fn nb_all_bands_mask(&self) -> (m: u128)
        ensures
            m == nb_all_bands(*self),
    {
        match self {
            ChipModel::Bg95 => 0x1001C200000000490E189F,
            ChipModel::Bg96 => 0xB0E189F,
            ChipModel::Eg916u => 0,
        }
    }

    /// Classify an `AT+QGMR` firmware version.
    pub fn classify_revision(&self, version: &str) -> (r: ModemRevision)
        ensures
            r == revision_of(*self, version@),
    {
        match self {
            ChipModel::Bg95 => {
                if str_contains(version, "BG95M3LAR02A03_01.200.01.200") {
                    ModemRevision::R200
                } else if str_contains(version, "BG95M3LAR02A03_01.014.01.014") {
                    ModemRevision::R014
                } else if str_contains(version, "BG95M3LAR02A03_01.012.01.012") {
                    ModemRevision::R012
                } else {
                    ModemRevision::Unknown
                }
            },
            ChipModel::Bg96 => {
                if str_contains(version, "BG96MAR02A07M1G_01.018.00.000") {
                    ModemRevision::R018
                } else if str_contains(version, "BG96MAR02A07M1G_01.018.01.018") {
                    ModemRevision::R018
                } else {
                    ModemRevision::Unknown
                }
            },
            ChipModel::Eg916u => {
                if str_contains(version, "EG916") {
                    ModemRevision::Eg916u
                } else {
                    ModemRevision::Unknown
                }
            },
        }
    }

    /// Whether an MQTT disconnect must also wait for the status URC and
    /// close explicitly: only BG95 R200 firmware needs it.
    pub fn needs_explicit_mqtt_close(&self, rev: ModemRevision) -> (r: bool)
        ensures
            r == (*self == ChipModel::Bg95 && rev == ModemRevision::R200),
    {
        match self {
            ChipModel::Bg95 => rev == ModemRevision::R200,
            _ => false,
        }
    }
}

/// The attach state of a BG95/BG96 `AT+QNWINFO` reply.
pub fn classify_network_act(act: &str) -> (m: Option<ModemMode>)
    ensures
        m == network_act_mode(act@),
{
    if str_eq(act, "SEARCH") || str_contains(act, "No Service") {
        None
    } else if str_eq(act, "eMTC") || str_contains(act, "LTE") {
        Some(ModemMode::LTEM)
    } else if str_contains(act, "GSM") || str_contains(act, "GPRS") || str_contains(act, "EDGE") {
        Some(ModemMode::EDGE)
    } else if str_contains(act, "NBIoT") {
        Some(ModemMode::NBIoT)
    } else {
        None
    }
}

/// The attach state of an EG916U `AT+COPS?` reply.
pub fn classify_cops_act(act: Option<u8>) -> (m: Option<ModemMode>)
    ensures
        m == cops_act_mode(act),
{
    match act {
        Some(7) | Some(8) => Some(ModemMode::LTEM),
        Some(9) => Some(ModemMode::NBIoT),
        Some(0) | Some(3) => Some(ModemMode::EDGE),
        _ => None,
    }
}

/// The `AT+QCFG="iotopmode"` value of a configuration (Cat-M / NB-IoT chips).
pub fn get_iotop_mode(configuration: &ModemConfiguration) -> (r: Result<u8, ModemError>)
    ensures
        r == iotop_mode(configuration.rat_order@),
{
    let rat = configuration.get_rat_order();
    let rat_order = rat.as_str();
    match (str_contains(rat_order, "02"), str_contains(rat_order, "03")) {
        (true, false) => Ok(0),
        (false, true) => Ok(1),
        (true, true) => Ok(2),
        (false, false) => Err(ModemError::NotSupported),
    }
}

/// One command of the modem configuration sequence.
#[derive(Clone, Debug)]
pub enum SetupCommand {
    Bands(ConfigureBands),
    RatSequence(ConfigureRatSearchingSequence),
    ScanMode(ConfigureRatSearchingMode),
    ServiceDomain(ConfigureServiceDomain),
    IotOpMode(ConfigureIotOpMode),
}

/// What configuring the modem takes: the commands to send in order, an
/// error to end with once they are all sent, and whether a refused command
/// ends the configuration with `NotResponding` (else it is ignored).
#[derive(Clone, Debug)]
pub struct ConfigurationPlan {
    pub commands: Vec<SetupCommand>,
    pub then_fail: Option<ModemError>,
    pub required: bool,
}

/// A band mask as the bytes of its band string.
pub open spec fn band_bytes(mask: u128) -> Seq<u8> {
    encode_utf8(band_string(mask).unwrap())
}

/// The band masks of a configuration all fit the band command.
pub open spec fn bands_fit(c: ModemConfiguration) -> bool {
    &&& band_string(c.gsm_bands as u128) is Some
    &&& band_string(c.emtc_bands) is Some
    &&& band_string(c.nb_bands) is Some
}

/// `AT+QCFG="band"` with the configuration's three masks.
pub open spec fn is_bands_command(cmd: SetupCommand, c: ModemConfiguration) -> bool {
    cmd matches SetupCommand::Bands(b) && b.param@ == "band"@ && b.gsm_band_mask@ == band_bytes(c.gsm_bands as u128) && b.emtc_band_mask@ == band_bytes(c.emtc_bands) && b.nbiot_band_mask@ == band_bytes(c.nb_bands) && b.effect == ConfigurationEffect::Immediately
}

/// `AT+QCFG="nwscanseq"` with the configuration's search sequence.
pub open spec fn is_rat_sequence_command(cmd: SetupCommand, c: ModemConfiguration) -> bool {
    cmd matches SetupCommand::RatSequence(r) && r.param@ == "nwscanseq"@
        && r.rat_searching_sequence@ == encode_utf8(c.rat_order@) && r.effect
        == ConfigurationEffect::Immediately
}

/// `AT+QCFG="nwscanmode",0`: automatic (GSM and LTE).
pub open spec fn is_scan_mode_command(cmd: SetupCommand) -> bool {
    cmd matches SetupCommand::ScanMode(m) && m.param@ == "nwscanmode"@ && m.rat_searching_mode
        == 0 && m.effect == ConfigurationEffect::Immediately
}

/// `AT+QCFG="servicedomain",1`: packet switched only.
pub open spec fn is_service_domain_command(cmd: SetupCommand) -> bool {
    cmd matches SetupCommand::ServiceDomain(d) && d.param@ == "servicedomain"@ && d.service_domain
        == 1 && d.effect == ConfigurationEffect::Immediately
}

/// `AT+QCFG="iotopmode",<mode>`.
pub open spec fn is_iotop_command(cmd: SetupCommand, mode: u8) -> bool {
    cmd matches SetupCommand::IotOpMode(m) && m.param@ == "iotopmode"@ && m.mode == mode
        && m.effect == ConfigurationEffect::Immediately
}

/// The configuration sequence of the chip.
///
/// BG95 and BG96 take the band masks, the search sequence, automatic scan
/// mode, packet-switched service domain and the `iotopmode` that the search
/// sequence asks for; when it asks for neither eMTC nor NB-IoT the first
/// four are sent and the configuration fails with `NotSupported`. EG916U
/// takes only the service domain, and a refusal of it is ignored.
pub open spec fn is_configuration_plan(
    chip: ChipModel,
    c: ModemConfiguration,
    p: ConfigurationPlan,
) -> bool {
    match chip {
        ChipModel::Eg916u => {
            &&& p.commands@.len() == 1
            &&& is_service_domain_command(p.commands@[0])
            &&& p.then_fail is None
            &&& !p.required
        },
        _ => {
            &&& p.required
            &&& is_bands_command(p.commands@[0], c)
            &&& is_rat_sequence_command(p.commands@[1], c)
            &&& is_scan_mode_command(p.commands@[2])
            &&& is_service_domain_command(p.commands@[3])
            &&& match iotop_mode(c.rat_order@) {
                Ok(mode) => {
                    &&& p.commands@.len() == 5
                    &&& is_iotop_command(p.commands@[4], mode)
                    &&& p.then_fail is None
                },
                Err(e) => p.commands@.len() == 4 && p.then_fail == Some(e),
            }
        },
    }
}

/// The band string of `rat` as bytes.
fn band_mask_bytes(c: &ModemConfiguration, rat: RadioAccessTechnology) -> (v: Vec<u8>)
    requires
        bands_fit(*c),
        rat != RadioAccessTechnology::Default,
    ensures
        rat == RadioAccessTechnology::GSM ==> v@ == band_bytes(c.gsm_bands as u128),
        rat == RadioAccessTechnology::EMTC ==> v@ == band_bytes(c.emtc_bands),
        rat == RadioAccessTechnology::NbIoT ==> v@ == band_bytes(c.nb_bands),
{
    match c.get_band_string(rat) {
        Ok(s) => s.as_str().as_bytes_vec(),
        Err(_) => Vec::new(),
    }
}

impl ChipModel {
    /// The configuration sequence of the chip for `configuration`.
    pub fn configuration_plan(&self, configuration: &ModemConfiguration) -> (p: ConfigurationPlan)
        requires
            bands_fit(*configuration),
            encode_utf8(configuration.rat_order@).len() <= 8,
        ensures
            is_configuration_plan(*self, *configuration, p),
    {
        let mut commands: Vec<SetupCommand> = Vec::new();
        let service = SetupCommand::ServiceDomain(
            ConfigureServiceDomain {
                param: "servicedomain".to_owned(),
                service_domain: 1,
                effect: ConfigurationEffect::Immediately,
            },
        );
        match self {
            ChipModel::Eg916u => {
                commands.push(service);
                ConfigurationPlan { commands, then_fail: None, required: false }
            },
            _ => {
                let bands = ConfigureBands {
                    param: "band".to_owned(),
                    gsm_band_mask: band_mask_bytes(configuration, RadioAccessTechnology::GSM),
                    emtc_band_mask: band_mask_bytes(configuration, RadioAccessTechnology::EMTC),
                    nbiot_band_mask: band_mask_bytes(configuration, RadioAccessTechnology::NbIoT),
                    effect: ConfigurationEffect::Immediately,
                };
                commands.push(SetupCommand::Bands(bands));
                let order = configuration.get_rat_order();
                commands.push(
                    SetupCommand::RatSequence(
                        ConfigureRatSearchingSequence {
                            param: "nwscanseq".to_owned(),
                            rat_searching_sequence: order.as_str().as_bytes_vec(),
                            effect: ConfigurationEffect::Immediately,
                        },
                    ),
                );
                commands.push(
                    SetupCommand::ScanMode(
                        ConfigureRatSearchingMode {
                            param: "nwscanmode".to_owned(),
                            rat_searching_mode: 0,
                            effect: ConfigurationEffect::Immediately,
                        },
                    ),
                );
                commands.push(service);
                match get_iotop_mode(configuration) {
                    Ok(mode) => {
                        commands.push(
                            SetupCommand::IotOpMode(
                                ConfigureIotOpMode {
                                    param: "iotopmode".to_owned(),
                                    mode,
                                    effect: ConfigurationEffect::Immediately,
                                },
                            ),
                        );
                        ConfigurationPlan { commands, then_fail: None, required: true }
                    },
                    Err(e) => ConfigurationPlan { commands, then_fail: Some(e), required: true },
                }
            },
        }
    }
}

/// A search sequence holds the two-character code `0d` exactly when one of
/// its technologies has that code (codes never combine into another one).
proof fn lemma_sequence_contains_code(rats: Seq<RadioAccessTechnology>, d: char)
    requires
        d == '2' || d == '3',
    ensures
        chars_contain(rat_order_string(rats), seq!['0', d]) <==> exists|i: int|
            0 <= i < rats.len() && rat_order_code(#[trigger] rats[i]) == seq!['0', d],
        rat_order_string(rats).len() == 2 * rats.len(),
    decreases rats.len(),
{
    let needle = seq!['0', d];
    if rats.len() == 0 {
        assert forall|i: int| !chars_occur_at(rat_order_string(rats), needle, i) by {}
    } else {
        let init = rats.drop_last();
        lemma_sequence_contains_code(init, d);
        let s = rat_order_string(init);
        let c = rat_order_code(rats.last());
        let t = rat_order_string(rats);
        assert(t == s + c);
        assert(c.len() == 2 && c[0] == '0');
        if chars_contain(t, needle) {
            let i = choose|i: int| chars_occur_at(t, needle, i);
            if i + 2 <= s.len() {
                assert(s.subrange(i, i + 2) =~= t.subrange(i, i + 2));
                assert(chars_occur_at(s, needle, i));
                let j = choose|j: int| 0 <= j < init.len() && rat_order_code(#[trigger] init[j]) == needle;
                assert(rats[j] == init[j]);
            } else if i == s.len() - 1 {
                assert(t[i + 1] == t.subrange(i, i + 2)[1]);
                assert(false);
            } else {
                assert(i == s.len());
                assert(t.subrange(i, i + 2) =~= c);
                assert(rats[rats.len() - 1] == rats.last());
            }
        }
        if exists|i: int| 0 <= i < rats.len() && rat_order_code(#[trigger] rats[i]) == needle {
            let i = choose|i: int| 0 <= i < rats.len() && rat_order_code(#[trigger] rats[i]) == needle;
            if i < rats.len() - 1 {
                assert(init[i] == rats[i]);
                let k = choose|k: int| chars_occur_at(s, needle, k);
                assert(s.subrange(k, k + 2) =~= t.subrange(k, k + 2));
                assert(chars_occur_at(t, needle, k));
            } else {
                assert(t.subrange(s.len() as int, s.len() + 2 as int) =~= c);
                assert(chars_occur_at(t, needle, s.len() as int));
            }
        }
    }
}

/// A technology is listed exactly when its code is.
proof fn lemma_listed_iff_code(rats: Seq<RadioAccessTechnology>, t: RadioAccessTechnology, d: char)
    requires
        (t == RadioAccessTechnology::EMTC && d == '2') || (t == RadioAccessTechnology::NbIoT && d
            == '3'),
    ensures
        rats.contains(t) <==> exists|i: int|
            0 <= i < rats.len() && rat_order_code(#[trigger] rats[i]) == seq!['0', d],
{
    if rats.contains(t) {
        let i = choose|i: int| 0 <= i < rats.len() && rats[i] == t;
        assert(rat_order_code(rats[i]) == seq!['0', d]);
    }
    if exists|i: int| 0 <= i < rats.len() && rat_order_code(#[trigger] rats[i]) == seq!['0', d] {
        let i = choose|i: int| 0 <= i < rats.len() && rat_order_code(#[trigger] rats[i]) == seq!['0', d];
        assert(rat_order_code(rats[i])[1] == d);
        assert(rats[i] == t);
    }
}

/// A search sequence contains `02` exactly when it lists eMTC, and `03`
/// exactly when it lists NB-IoT.
proof fn lemma_sequence_contains_tech(rats: Seq<RadioAccessTechnology>)
    ensures
        chars_contain(rat_order_string(rats), "02"@) == rats.contains(RadioAccessTechnology::EMTC),
        chars_contain(rat_order_string(rats), "03"@) == rats.contains(RadioAccessTechnology::NbIoT),
{
    reveal_strlit("02");
    reveal_strlit("03");
    assert("02"@ =~= seq!['0', '2']);
    assert("03"@ =~= seq!['0', '3']);
    lemma_sequence_contains_code(rats, '2');
    lemma_sequence_contains_code(rats, '3');
    lemma_listed_iff_code(rats, RadioAccessTechnology::EMTC, '2');
    lemma_listed_iff_code(rats, RadioAccessTechnology::NbIoT, '3');
}

/// The `iotopmode` sent for a search sequence set with `set_rat_order`
/// follows the technologies it lists: eMTC only 0, NB-IoT only 1, both 2,
/// and neither (GSM only) is not supported.
pub proof fn law_iotop_mode_follows_rat_order(rats: Seq<RadioAccessTechnology>)
    ensures
        iotop_mode(rat_order_string(rats)) == match (
            rats.contains(RadioAccessTechnology::EMTC),
            rats.contains(RadioAccessTechnology::NbIoT),
        ) {
            (true, false) => Ok::<u8, ModemError>(0u8),
            (false, true) => Ok::<u8, ModemError>(1u8),
            (true, true) => Ok::<u8, ModemError>(2u8),
            (false, false) => Err::<u8, ModemError>(ModemError::NotSupported),
        },
{
    lemma_sequence_contains_tech(rats);
}

} // verus!
