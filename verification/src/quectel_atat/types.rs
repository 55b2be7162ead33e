//! Parameter types of the Quectel AT command set, and the two configuration
//! builders (`ModemConfiguration`, `SslConfiguration`) that are turned into
//! AT commands by the driver.

use vstd::prelude::*;
use crate::chip::{emtc_all_bands, nb_all_bands, ChipModel, ACTIVE_CHIP};

verus! {

/// Echo on
#[derive(Debug, Clone, Copy, PartialEq, Eq, Structural)]
pub enum EchoOn {
    /// Unit does not echo the characters in command mode
    Off,
    /// Unit echoes the characters in command mode. (default)
    On,
}

impl EchoOn {
    /// Numeric value of the parameter on the wire.
    pub fn code(&self) -> (c: u8)
        ensures
            c == (match self {
                EchoOn::Off => 0u8,
                EchoOn::On => 1u8,
            }),
    {
        match self {
            EchoOn::Off => 0,
            EchoOn::On => 1,
        }
    }
}

/// Functionality level of UE
#[derive(Debug, Clone, Copy, PartialEq, Eq, Structural)]
pub enum FunctionalityLevelOfUE {
    /// Minimum functionality
    Minimum,
    /// Full functionality (default)
    Full,
    /// Disable modem both transmit and receive RF circuits
    DisableRF,
}

impl FunctionalityLevelOfUE {
    /// Numeric value of the parameter on the wire.
    pub fn code(&self) -> (c: u8)
        ensures
            c == (match self {
                FunctionalityLevelOfUE::Minimum => 0u8,
                FunctionalityLevelOfUE::Full => 1u8,
                FunctionalityLevelOfUE::DisableRF => 4u8,
            }),
    {
        match self {
            FunctionalityLevelOfUE::Minimum => 0,
            FunctionalityLevelOfUE::Full => 1,
            FunctionalityLevelOfUE::DisableRF => 4,
        }
    }
}

/// When a configuration command takes effect
#[derive(Debug, Clone, Copy, PartialEq, Eq, Structural)]
pub enum ConfigurationEffect {
    /// After reboot
    AfterReboot,
    /// immediately
    Immediately,
}

impl ConfigurationEffect {
    /// Numeric value of the parameter on the wire.
    pub fn code(&self) -> (c: u8)
        ensures
            c == (match self {
                ConfigurationEffect::AfterReboot => 0u8,
                ConfigurationEffect::Immediately => 1u8,
            }),
    {
        match self {
            ConfigurationEffect::AfterReboot => 0,
            ConfigurationEffect::Immediately => 1,
        }
    }
}

/// Power down mode
#[derive(Debug, Clone, Copy, PartialEq, Eq, Structural)]
pub enum PowerDownMode {
    /// Immediately power down
    Immediate,
    /// Normal power down (default)
    Normal,
}

impl PowerDownMode {
    /// Numeric value of the parameter on the wire.
    pub fn code(&self) -> (c: u8)
        ensures
            c == (match self {
                PowerDownMode::Immediate => 0u8,
                PowerDownMode::Normal => 1u8,
            }),
    {
        match self {
            PowerDownMode::Immediate => 0,
            PowerDownMode::Normal => 1,
        }
    }
}

#[derive(Debug, Clone, Copy, PartialEq, Eq, Structural)]
pub enum GnssState {
    Off,
    On,
}

impl GnssState {
    /// Numeric value of the parameter on the wire.
    pub fn code(&self) -> (c: u8)
        ensures
            c == (match self {
                GnssState::Off => 0u8,
                GnssState::On => 1u8,
            }),
    {
        match self {
            GnssState::Off => 0,
            GnssState::On => 1,
        }
    }
}

#[derive(Debug, Clone, Copy, PartialEq, Eq, Structural)]
pub enum GnssOperatingMode {
    StandAlone,
    MsBased,
    MsAssisted,
    SpeedOptimal,
}

impl GnssOperatingMode {
    /// Numeric value of the parameter on the wire.
    pub fn code(&self) -> (c: u8)
        ensures
            c == (match self {
                GnssOperatingMode::StandAlone => 1u8,
                GnssOperatingMode::MsBased => 2u8,
                GnssOperatingMode::MsAssisted => 3u8,
                GnssOperatingMode::SpeedOptimal => 4u8,
            }),
    {
        match self {
            GnssOperatingMode::StandAlone => 1,
            GnssOperatingMode::MsBased => 2,
            GnssOperatingMode::MsAssisted => 3,
            GnssOperatingMode::SpeedOptimal => 4,
        }
    }
}

#[derive(Debug, Clone, Copy, PartialEq, Eq, Structural)]
pub enum GnssConstellation {
    GLONASS,
    BeiDou,
    Galileo,
    QZSS,
    Variable,
}

impl GnssConstellation {
    /// Numeric value of the parameter on the wire.
    pub fn code(&self) -> (c: u8)
        ensures
            c == (match self {
                GnssConstellation::GLONASS => 1u8,
                GnssConstellation::BeiDou => 2u8,
                GnssConstellation::Galileo => 3u8,
                GnssConstellation::QZSS => 4u8,
                GnssConstellation::Variable => 5u8,
            }),
    {
        match self {
            GnssConstellation::GLONASS => 1,
            GnssConstellation::BeiDou => 2,
            GnssConstellation::Galileo => 3,
            GnssConstellation::QZSS => 4,
            GnssConstellation::Variable => 5,
        }
    }
}

/// Authentication method for PDP context
#[derive(Debug, Clone, Copy, PartialEq, Eq, Structural)]
pub enum AuthenticationMethod {
    /// No authentication
    NoAuth,
    /// PAP (Password Authentication Protocol)
    PAP,
    /// CHAP (Challenge Handshake Authentication Protocol)
    CHAP,
    /// PAP or CHAP
    PAPorCHAP,
}

impl AuthenticationMethod {
    /// Numeric value of the parameter on the wire.
    pub fn code(&self) -> (c: u8)
        ensures
            c == (match self {
                AuthenticationMethod::NoAuth => 0u8,
                AuthenticationMethod::PAP => 1u8,
                AuthenticationMethod::CHAP => 2u8,
                AuthenticationMethod::PAPorCHAP => 3u8,
            }),
    {
        match self {
            AuthenticationMethod::NoAuth => 0,
            AuthenticationMethod::PAP => 1,
            AuthenticationMethod::CHAP => 2,
            AuthenticationMethod::PAPorCHAP => 3,
        }
    }
}

/// Radio access technology
#[derive(Copy, Clone, Debug, PartialEq, Eq, Structural)]
pub enum RadioAccessTechnology {
    GSM,
    EMTC,
    NbIoT,
    Default,
}

impl RadioAccessTechnology {
    /// Numeric value of the technology.
    pub fn code(&self) -> (c: u8)
        ensures
            c == rat_code(*self),
    {
        match self {
            RadioAccessTechnology::GSM => 1,
            RadioAccessTechnology::EMTC => 2,
            RadioAccessTechnology::NbIoT => 3,
            RadioAccessTechnology::Default => 0,
        }
    }
}

/// Numeric value of a radio access technology.
pub open spec fn rat_code(r: RadioAccessTechnology) -> u8 {
    match r {
        RadioAccessTechnology::GSM => 1u8,
        RadioAccessTechnology::EMTC => 2u8,
        RadioAccessTechnology::NbIoT => 3u8,
        RadioAccessTechnology::Default => 0u8,
    }
}

} // verus!

verus! {

/// GSM bands
#[derive(Copy, Clone, Debug, PartialEq, Eq, Structural)]
pub enum GsmBands {
    Gsm900MHz,
    Gsm1800MHz,
    Gsm850MHz,
    Gsm1900MHz,
    NoChange,
    Any,
}

/// eMTC (LTE Cat-M) bands of the BG95
#[derive(Copy, Clone, Debug, PartialEq, Eq, Structural)]
pub enum EmtcBands {
    Band1,
    Band2,
    Band3,
    Band4,
    Band5,
    Band8,
    Band12,
    Band13,
    Band18,
    Band19,
    Band20,
    Band25,
    Band26,
    Band27,
    Band28,
    Band31,
    Band66,
    Band72,
    Band73,
    Band85,
    NoChange,
    Any,
}

/// NB-IoT bands of the BG95
#[derive(Copy, Clone, Debug, PartialEq, Eq, Structural)]
pub enum NbIotBands {
    Band1,
    Band2,
    Band3,
    Band4,
    Band5,
    Band8,
    Band12,
    Band13,
    Band18,
    Band19,
    Band20,
    Band25,
    Band28,
    Band31,
    Band66,
    Band71,
    Band72,
    Band73,
    Band85,
    NoChange,
    Any,
}

/// Band number standing for "leave the current mask unchanged".
pub const BAND_NO_CHANGE: u8 = 0;

/// Band number standing for "every band of the technology".
pub const BAND_ANY: u8 = 255;

/// A radio access technology band identifier.
///
/// `as_u8` is the band number (`0` for "no change", `255` for "any"), and
/// `all_bands_mask` the mask with the bit `n - 1` set for every real band
/// `n` of the technology.
pub trait Band: Sized {
    /// Band number of a band.
    spec fn band_number(self) -> u8;

    /// Mask of every valid band of the technology.
    spec fn spec_all_bands_mask() -> u128;

    fn all_bands_mask() -> (m: u128)
        ensures
            m == Self::spec_all_bands_mask(),
    ;

    fn as_u8(self) -> (n: u8)
        ensures
            n == self.band_number(),
    ;

    fn no_change() -> (b: Self)
        ensures
            b.band_number() == BAND_NO_CHANGE,
    ;

    fn any() -> (b: Self)
        ensures
            b.band_number() == BAND_ANY,
    ;
}

pub open spec fn gsm_band_number(b: GsmBands) -> u8 {
    match b {
        GsmBands::Gsm900MHz => 1u8,
        GsmBands::Gsm1800MHz => 2u8,
        GsmBands::Gsm850MHz => 3u8,
        GsmBands::Gsm1900MHz => 4u8,
        GsmBands::NoChange => 0u8,
        GsmBands::Any => 255u8,
    }
}

pub open spec fn emtc_band_number(b: EmtcBands) -> u8 {
    match b {
        EmtcBands::Band1 => 1u8,
        EmtcBands::Band2 => 2u8,
        EmtcBands::Band3 => 3u8,
        EmtcBands::Band4 => 4u8,
        EmtcBands::Band5 => 5u8,
        EmtcBands::Band8 => 8u8,
        EmtcBands::Band12 => 12u8,
        EmtcBands::Band13 => 13u8,
        EmtcBands::Band18 => 18u8,
        EmtcBands::Band19 => 19u8,
        EmtcBands::Band20 => 20u8,
        EmtcBands::Band25 => 25u8,
        EmtcBands::Band26 => 26u8,
        EmtcBands::Band27 => 27u8,
        EmtcBands::Band28 => 28u8,
        EmtcBands::Band31 => 31u8,
        EmtcBands::Band66 => 66u8,
        EmtcBands::Band72 => 72u8,
        EmtcBands::Band73 => 73u8,
        EmtcBands::Band85 => 85u8,
        EmtcBands::NoChange => 0u8,
        EmtcBands::Any => 255u8,
    }
}

pub open spec fn nb_band_number(b: NbIotBands) -> u8 {
    match b {
        NbIotBands::Band1 => 1u8,
        NbIotBands::Band2 => 2u8,
        NbIotBands::Band3 => 3u8,
        NbIotBands::Band4 => 4u8,
        NbIotBands::Band5 => 5u8,
        NbIotBands::Band8 => 8u8,
        NbIotBands::Band12 => 12u8,
        NbIotBands::Band13 => 13u8,
        NbIotBands::Band18 => 18u8,
        NbIotBands::Band19 => 19u8,
        NbIotBands::Band20 => 20u8,
        NbIotBands::Band25 => 25u8,
        NbIotBands::Band28 => 28u8,
        NbIotBands::Band31 => 31u8,
        NbIotBands::Band66 => 66u8,
        NbIotBands::Band71 => 71u8,
        NbIotBands::Band72 => 72u8,
        NbIotBands::Band73 => 73u8,
        NbIotBands::Band85 => 85u8,
        NbIotBands::NoChange => 0u8,
        NbIotBands::Any => 255u8,
    }
}

/// Mask of every GSM band.
pub const GSM_ALL_BANDS_MASK: u128 = 0xF;


impl Band for GsmBands {
    open spec fn band_number(self) -> u8 {
        gsm_band_number(self)
    }

    open spec fn spec_all_bands_mask() -> u128 {
        GSM_ALL_BANDS_MASK
    }

    fn all_bands_mask() -> (m: u128) {
        GSM_ALL_BANDS_MASK
    }

    fn as_u8(self) -> (n: u8) {
        match self {
            GsmBands::Gsm900MHz => 1,
            GsmBands::Gsm1800MHz => 2,
            GsmBands::Gsm850MHz => 3,
            GsmBands::Gsm1900MHz => 4,
            GsmBands::NoChange => 0,
            GsmBands::Any => 255,
        }
    }

    fn no_change() -> (b: Self) {
        GsmBands::NoChange
    }

    fn any() -> (b: Self) {
        GsmBands::Any
    }
}

impl Band for EmtcBands {
    open spec fn band_number(self) -> u8 {
        emtc_band_number(self)
    }

    open spec fn spec_all_bands_mask() -> u128 {
        emtc_all_bands(ACTIVE_CHIP)
    }

    fn all_bands_mask() -> (m: u128) {
        ACTIVE_CHIP.emtc_all_bands_mask()
    }

    fn as_u8(self) -> (n: u8) {
        match self {
            EmtcBands::Band1 => 1,
            EmtcBands::Band2 => 2,
            EmtcBands::Band3 => 3,
            EmtcBands::Band4 => 4,
            EmtcBands::Band5 => 5,
            EmtcBands::Band8 => 8,
            EmtcBands::Band12 => 12,
            EmtcBands::Band13 => 13,
            EmtcBands::Band18 => 18,
            EmtcBands::Band19 => 19,
            EmtcBands::Band20 => 20,
            EmtcBands::Band25 => 25,
            EmtcBands::Band26 => 26,
            EmtcBands::Band27 => 27,
            EmtcBands::Band28 => 28,
            EmtcBands::Band31 => 31,
            EmtcBands::Band66 => 66,
            EmtcBands::Band72 => 72,
            EmtcBands::Band73 => 73,
            EmtcBands::Band85 => 85,
            EmtcBands::NoChange => 0,
            EmtcBands::Any => 255,
        }
    }

    fn no_change() -> (b: Self) {
        EmtcBands::NoChange
    }

    fn any() -> (b: Self) {
        EmtcBands::Any
    }
}

impl Band for NbIotBands {
    open spec fn band_number(self) -> u8 {
        nb_band_number(self)
    }

    open spec fn spec_all_bands_mask() -> u128 {
        nb_all_bands(ACTIVE_CHIP)
    }

    fn all_bands_mask() -> (m: u128) {
        ACTIVE_CHIP.nb_all_bands_mask()
    }

    fn as_u8(self) -> (n: u8) {
        match self {
            NbIotBands::Band1 => 1,
            NbIotBands::Band2 => 2,
            NbIotBands::Band3 => 3,
            NbIotBands::Band4 => 4,
            NbIotBands::Band5 => 5,
            NbIotBands::Band8 => 8,
            NbIotBands::Band12 => 12,
            NbIotBands::Band13 => 13,
            NbIotBands::Band18 => 18,
            NbIotBands::Band19 => 19,
            NbIotBands::Band20 => 20,
            NbIotBands::Band25 => 25,
            NbIotBands::Band28 => 28,
            NbIotBands::Band31 => 31,
            NbIotBands::Band66 => 66,
            NbIotBands::Band71 => 71,
            NbIotBands::Band72 => 72,
            NbIotBands::Band73 => 73,
            NbIotBands::Band85 => 85,
            NbIotBands::NoChange => 0,
            NbIotBands::Any => 255,
        }
    }

    fn no_change() -> (b: Self) {
        NbIotBands::NoChange
    }

    fn any() -> (b: Self) {
        NbIotBands::Any
    }
}

/// The bit of a band in a band mask: bit `n - 1` for band `n`.
pub open spec fn band_bit(n: u8) -> u128
    recommends
        1 <= n <= 128,
{
    1u128 << ((n - 1) as u128)
}

/// The mask with the bit of every band number of `numbers` set.
pub open spec fn bands_mask(numbers: Seq<u8>) -> u128
    decreases numbers.len(),
{
    if numbers.len() == 0 {
        0
    } else {
        bands_mask(numbers.drop_last()) | band_bit(numbers.last())
    }
}

/// The band numbers of a list of bands.
pub open spec fn band_numbers<T: Band>(bands: Seq<T>) -> Seq<u8> {
    bands.map_values(|b: T| b.band_number())
}

/// A band list whose numbers are all summed into a mask (neither "any"
/// first nor a lone "no change").
pub open spec fn is_explicit_band_list(numbers: Seq<u8>) -> bool {
    &&& numbers.len() > 0
    &&& numbers[0] != BAND_ANY
    &&& !(numbers.len() == 1 && numbers[0] == BAND_NO_CHANGE)
}

/// The mask that a band list selects, given the mask of every valid band;
/// `None` when the list is refused (empty, or naming a band outside `all`).
pub open spec fn requested_mask(numbers: Seq<u8>, all: u128) -> Option<u128> {
    if numbers.len() == 0 {
        None
    } else if numbers[0] == BAND_ANY {
        Some(all)
    } else if numbers.len() == 1 && numbers[0] == BAND_NO_CHANGE {
        Some(0)
    } else if (!all) & bands_mask(numbers) != 0 {
        None
    } else {
        Some(bands_mask(numbers))
    }
}

/// The bit of band `n` is the one bit of the masks of bands whose numbers
/// equal `n`.
proof fn lemma_band_bits(n: u8, k: u8)
    requires
        1 <= n <= 128,
        1 <= k <= 128,
    ensures
        band_bit(n) & band_bit(k) != 0 <==> n == k,
        band_bit(n) != 0,
{
    let x = (n - 1) as u128;
    let y = (k - 1) as u128;
    assert((1u128 << x) & (1u128 << y) != 0 <==> x == y) by (bit_vector)
        requires
            x < 128,
            y < 128,
    ;
    assert(1u128 << x != 0) by (bit_vector)
        requires
            x < 128,
    ;
}

/// A mask built from band numbers has the bit of band `k` set exactly when
/// `k` is one of the numbers.
proof fn lemma_bands_mask_bits(numbers: Seq<u8>, k: u8)
    requires
        1 <= k <= 128,
        forall|i: int| 0 <= i < numbers.len() ==> 1 <= #[trigger] numbers[i] <= 128,
    ensures
        bands_mask(numbers) & band_bit(k) != 0 <==> numbers.contains(k),
    decreases numbers.len(),
{
    if numbers.len() == 0 {
        let b = band_bit(k);
        assert(0u128 & b == 0) by (bit_vector);
    } else {
        let init = numbers.drop_last();
        let last = numbers.last();
        assert forall|i: int| 0 <= i < init.len() implies 1 <= #[trigger] init[i] <= 128 by {
            assert(init[i] == numbers[i]);
        }
        lemma_bands_mask_bits(init, k);
        lemma_band_bits(last, k);
        let a = bands_mask(init);
        let b = band_bit(last);
        let c = band_bit(k);
        assert((a | b) & c != 0 <==> (a & c != 0 || b & c != 0)) by (bit_vector);
        assert(numbers =~= init.push(last));
        if init.contains(k) {
            let i = choose|i: int| 0 <= i < init.len() && init[i] == k;
            assert(numbers[i] == k);
        }
        if numbers.contains(k) {
            let i = choose|i: int| 0 <= i < numbers.len() && numbers[i] == k;
            if i < init.len() {
                assert(init[i] == k);
            }
        }
    }
}

/// An explicit band list selects exactly its bands: when accepted, the mask
/// has the bit `k - 1` set exactly for the bands `k` of the list; it is
/// accepted exactly when every listed band is one of `all`. "Any" first
/// selects every band of `all`, and a lone "no change" selects none.
pub proof fn law_band_list_mask(numbers: Seq<u8>, all: u128, k: u8)
    requires
        1 <= k <= 128,
    ensures
        numbers.len() == 0 ==> requested_mask(numbers, all) is None,
        numbers.len() > 0 && numbers[0] == BAND_ANY ==> requested_mask(numbers, all) == Some(all),
        numbers == seq![BAND_NO_CHANGE] ==> requested_mask(numbers, all) == Some(0u128),
        is_explicit_band_list(numbers) && (forall|i: int| 0 <= i < numbers.len() ==> 1 <= #[trigger] numbers[i] <= 128)
            ==> {
            &&& (requested_mask(numbers, all) matches Some(m) ==> (m & band_bit(k) != 0 <==> numbers.contains(k)))
            &&& (requested_mask(numbers, all) is Some ==> (numbers.contains(k) ==> all & band_bit(k) != 0))
            &&& ((forall|j: u8| 1 <= j <= 128 && #[trigger] numbers.contains(j) ==> all & band_bit(j) != 0)
                ==> requested_mask(numbers, all) is Some)
        },
{
    if is_explicit_band_list(numbers) && (forall|i: int| 0 <= i < numbers.len() ==> 1 <= #[trigger] numbers[i] <= 128) {
        let m = bands_mask(numbers);
        lemma_bands_mask_bits(numbers, k);
        if requested_mask(numbers, all) is Some && numbers.contains(k) {
            let b = band_bit(k);
            assert((!all) & m == 0 && m & b != 0 ==> all & b != 0) by (bit_vector);
        }
        if forall|j: u8| 1 <= j <= 128 && #[trigger] numbers.contains(j) ==> all & band_bit(j) != 0 {
            lemma_mask_within(numbers, all);
        }
    }
}

/// A mask of bands that are all in `all` has no bit outside `all`.
proof fn lemma_mask_within(numbers: Seq<u8>, all: u128)
    requires
        forall|i: int| 0 <= i < numbers.len() ==> 1 <= #[trigger] numbers[i] <= 128,
        forall|j: u8| 1 <= j <= 128 && #[trigger] numbers.contains(j) ==> all & band_bit(j) != 0,
    ensures
        (!all) & bands_mask(numbers) == 0,
    decreases numbers.len(),
{
    if numbers.len() == 0 {
        assert((!all) & 0u128 == 0) by (bit_vector);
    } else {
        let init = numbers.drop_last();
        let last = numbers.last();
        assert forall|i: int| 0 <= i < init.len() implies 1 <= #[trigger] init[i] <= 128 by {
            assert(init[i] == numbers[i]);
        }
        assert forall|j: u8| 1 <= j <= 128 && #[trigger] init.contains(j) implies all & band_bit(j) != 0 by {
            let i = choose|i: int| 0 <= i < init.len() && init[i] == j;
            assert(numbers[i] == j);
            assert(numbers.contains(j));
        }
        lemma_mask_within(init, all);
        assert(numbers[numbers.len() - 1] == last);
        assert(numbers.contains(last));
        let a = bands_mask(init);
        let x = (last - 1) as u128;
        assert(x < 128);
        assert(band_bit(last) == 1u128 << x);
        assert(all & (1u128 << x) != 0);
        assert((!all) & a == 0 && all & (1u128 << x) != 0 && x < 128 ==> (!all) & (a | (1u128 << x)) == 0)
            by (bit_vector);
    }
}

/// Modem radio configuration: the band masks of each technology and the
/// order in which technologies are searched.
pub struct ModemConfiguration {
    /// GSM band mask
    pub gsm_bands: u8,
    /// eMTC band mask
    pub emtc_bands: u128,
    /// NB-IoT band mask
    pub nb_bands: u128,
    /// RAT search sequence, e.g. `020301` for eMTC, NB-IoT, GSM
    pub rat_order: String,
}

/// The two-digit code of a technology in a search sequence.
pub open spec fn rat_order_code(r: RadioAccessTechnology) -> Seq<char> {
    match r {
        RadioAccessTechnology::GSM => seq!['0', '1'],
        RadioAccessTechnology::EMTC => seq!['0', '2'],
        RadioAccessTechnology::NbIoT => seq!['0', '3'],
        RadioAccessTechnology::Default => seq!['0', '0'],
    }
}

/// The search sequence string of a list of technologies.
pub open spec fn rat_order_string(rats: Seq<RadioAccessTechnology>) -> Seq<char>
    decreases rats.len(),
{
    if rats.len() == 0 {
        Seq::empty()
    } else {
        rat_order_string(rats.drop_last()) + rat_order_code(rats.last())
    }
}

/// A technology list that `set_rat_order` accepts: one to three
/// technologies, none repeated.
pub open spec fn is_valid_rat_order(rats: Seq<RadioAccessTechnology>) -> bool {
    &&& 1 <= rats.len() <= 3
    &&& forall|i: int, j: int| 0 <= i < j < rats.len() ==> rats[i] != rats[j]
}

/// Lower-case hexadecimal digit of a value below 16.
pub open spec fn hex_lower_char(d: nat) -> char {
    if d < 10 {
        ((d + 48) as u8) as char
    } else {
        ((d - 10 + 97) as u8) as char
    }
}

/// Lower-case hexadecimal rendering of a number, without leading zeros
/// (`"0"` for zero).
pub open spec fn hex_lower(v: nat) -> Seq<char>
    decreases v,
{
    if v < 16 {
        seq![hex_lower_char(v)]
    } else {
        hex_lower(v / 16).push(hex_lower_char(v % 16))
    }
}

/// Longest band string the modem accepts.
pub const BAND_STRING_MAX_DIGITS: usize = 24;

/// The band mask configured for a technology; `None` for `Default`.
pub open spec fn configured_mask(c: ModemConfiguration, rat: RadioAccessTechnology) -> Option<u128> {
    match rat {
        RadioAccessTechnology::GSM => Some(c.gsm_bands as u128),
        RadioAccessTechnology::EMTC => Some(c.emtc_bands),
        RadioAccessTechnology::NbIoT => Some(c.nb_bands),
        RadioAccessTechnology::Default => None,
    }
}

/// The band string `get_band_string` gives for a mask; `None` when it is
/// longer than the modem accepts.
pub open spec fn band_string(v: u128) -> Option<Seq<char>> {
    if hex_lower(v as nat).len() <= BAND_STRING_MAX_DIGITS {
        Some(hex_lower(v as nat))
    } else {
        None
    }
}

fn hex_lower_digit(d: u8) -> (c: char)
    requires
        d < 16,
    ensures
        c == hex_lower_char(d as nat),
{
    if d < 10 {
        (d + 48) as char
    } else {
        (d - 10 + 97) as char
    }
}

/// Appends the lower-case hexadecimal rendering of `v` to `s`.
fn push_hex_lower(s: &mut String, v: u128)
    ensures
        final(s)@ == old(s)@ + hex_lower(v as nat),
    decreases v,
{
    if v >= 16 {
        push_hex_lower(s, v / 16);
    }
    let d = (v % 16) as u8;
    crate::support::string_push(s, hex_lower_digit(d));
    proof {
        assert(old(s)@ + hex_lower(v as nat) =~= (if v >= 16 { old(s)@ + hex_lower((v / 16) as nat) } else { old(s)@ }).push(hex_lower_char(d as nat)));
    }
}

/// Number of hexadecimal digits of `v` (one for zero).
fn hex_digit_count(v: u128) -> (n: usize)
    ensures
        n == hex_lower(v as nat).len(),
        n <= 32,
    decreases v,
{
    proof {
        lemma_hex_lower_len_bound(v as nat);
    }
    if v < 16 {
        1
    } else {
        let k = hex_digit_count(v / 16);
        k + 1
    }
}

/// A number below `16^k` has at most `k` hexadecimal digits.
proof fn lemma_hex_lower_len_bound(v: nat)
    ensures
        v <= u128::MAX ==> hex_lower(v).len() <= 32,
        hex_lower(v).len() >= 1,
    decreases v,
{
    if v >= 16 {
        lemma_hex_lower_len_bound(v / 16);
        if v <= u128::MAX {
            lemma_hex_len_pow(v);
        }
    }
}

/// Number of hexadecimal digits against powers of sixteen.
proof fn lemma_hex_len_pow(v: nat)
    requires
        v <= u128::MAX,
    ensures
        hex_lower(v).len() <= 32,
{
    reveal_with_fuel(pow16, 33);
    assert(pow16(32) == 0x1_0000_0000_0000_0000_0000_0000_0000_0000nat);
    lemma_hex_len_below(v, 32);
}

proof fn lemma_hex_len_below(v: nat, k: nat)
    requires
        k >= 1,
        v < pow16(k),
    ensures
        hex_lower(v).len() <= k,
    decreases k,
{
    if v >= 16 {
        assert(k >= 2) by {
            if k == 1 {
                assert(pow16(1) == 16 * pow16(0));
            }
        }
        assert(pow16(k) == 16 * pow16((k - 1) as nat));
        assert(v / 16 < pow16((k - 1) as nat)) by (nonlinear_arith)
            requires
                v < 16 * pow16((k - 1) as nat),
        ;
        lemma_hex_len_below(v / 16, (k - 1) as nat);
    }
}

/// A mask that selects only bands of `all` is no larger than `all`.
proof fn lemma_submask_le(m: u128, all: u128)
    requires
        (!all) & m == 0,
    ensures
        m <= all,
{
    assert((!all) & m == 0 ==> m <= all) by (bit_vector);
}

/// A mask no larger than `all`, where `all` has at most 24 hexadecimal
/// digits, renders as a band string.
proof fn lemma_mask_renders(m: u128, all: u128)
    requires
        m <= all,
        all < 0x1_0000_0000_0000_0000_0000_0000u128,
    ensures
        band_string(m) == Some(hex_lower(m as nat)),
{
    reveal_with_fuel(pow16, 25);
    assert(pow16(24) == 0x1_0000_0000_0000_0000_0000_0000nat);
    lemma_hex_len_below(m as nat, 24);
}

/// Every band mask that `set_bands` accepts, with the band tables of any
/// chip, fits the band command: read back with `get_band_string`, it gives
/// its lower-case hexadecimal rendering (for GSM, after being kept in the
/// 8-bit GSM field).
pub proof fn law_accepted_band_masks_render(numbers: Seq<u8>, chip: ChipModel)
    ensures
        requested_mask(numbers, GSM_ALL_BANDS_MASK) matches Some(m) ==> (m as u8) as u128 == m
            && band_string(m) == Some(hex_lower(m as nat)),
        requested_mask(numbers, emtc_all_bands(chip)) matches Some(m) ==> band_string(m) == Some(
            hex_lower(m as nat),
        ),
        requested_mask(numbers, nb_all_bands(chip)) matches Some(m) ==> band_string(m) == Some(
            hex_lower(m as nat),
        ),
{
    let alls = seq![GSM_ALL_BANDS_MASK, emtc_all_bands(chip), nb_all_bands(chip)];
    assert forall|i: int| 0 <= i < 3 implies (requested_mask(numbers, #[trigger] alls[i]) matches Some(m)
        ==> m <= alls[i] && band_string(m) == Some(hex_lower(m as nat))) by {
        let all = alls[i];
        if let Some(m) = requested_mask(numbers, all) {
            if numbers[0] != BAND_ANY && !(numbers.len() == 1 && numbers[0] == BAND_NO_CHANGE) {
                lemma_submask_le(m, all);
            }
            lemma_mask_renders(m, all);
        }
    }
    assert(alls[0] == GSM_ALL_BANDS_MASK);
    assert(alls[1] == emtc_all_bands(chip));
    assert(alls[2] == nb_all_bands(chip));
}

pub open spec fn pow16(k: nat) -> nat
    decreases k,
{
    if k == 0 {
        1
    } else {
        16 * pow16((k - 1) as nat)
    }
}

/// Value of a hexadecimal digit (`0`-`9`, `a`-`f`); 0 for anything else.
pub open spec fn hex_char_value(c: char) -> nat {
    if '0' <= c && c <= '9' {
        (c as int - 48) as nat
    } else if 'a' <= c && c <= 'f' {
        (c as int - 87) as nat
    } else {
        0
    }
}

/// The number a string of hexadecimal digits reads as, most significant
/// digit first.
pub open spec fn hex_value(s: Seq<char>) -> nat
    decreases s.len(),
{
    if s.len() == 0 {
        0
    } else {
        16 * hex_value(s.drop_last()) + hex_char_value(s.last())
    }
}

proof fn lemma_hex_char_roundtrip(d: nat)
    requires
        d < 16,
    ensures
        hex_char_value(hex_lower_char(d)) == d,
        d > 0 ==> hex_lower_char(d) != '0',
{
    if d < 10 {
        assert(((d + 48) as u8) as char as int == d + 48);
    } else {
        assert(((d - 10 + 97) as u8) as char as int == d + 87);
    }
}

/// Reading a rendering back gives the number, and a rendering of a
/// non-zero number does not start with `0`.
proof fn lemma_hex_lower_reads_back(v: nat)
    ensures
        hex_value(hex_lower(v)) == v,
        v > 0 ==> hex_lower(v)[0] != '0',
        hex_lower(v).len() >= 1,
    decreases v,
{
    lemma_hex_char_roundtrip(v % 16);
    if v < 16 {
        let s = hex_lower(v);
        assert(s.drop_last() =~= Seq::<char>::empty());
        assert(hex_value(s.drop_last()) == 0);
    } else {
        lemma_hex_lower_reads_back(v / 16);
        let s = hex_lower(v);
        assert(s.drop_last() =~= hex_lower(v / 16));
        assert(s[0] == hex_lower(v / 16)[0]);
        assert(v == 16 * (v / 16) + v % 16);
    }
}

/// A rendering of at most `k` digits is of a number below `16^k`.
proof fn lemma_hex_len_above(v: nat, k: nat)
    requires
        hex_lower(v).len() <= k,
    ensures
        v < pow16(k),
    decreases v,
{
    lemma_hex_lower_len_bound(v);
    if v < 16 {
        assert(k >= 1);
        lemma_pow16_at_least_16(k);
    } else {
        lemma_hex_lower_len_bound(v / 16);
        assert(hex_lower(v).len() == hex_lower(v / 16).len() + 1);
        lemma_hex_len_above(v / 16, (k - 1) as nat);
        assert(pow16(k) == 16 * pow16((k - 1) as nat));
        assert(v < 16 * pow16((k - 1) as nat)) by (nonlinear_arith)
            requires
                v / 16 < pow16((k - 1) as nat),
        ;
    }
}

proof fn lemma_pow16_at_least_16(k: nat)
    requires
        k >= 1,
    ensures
        pow16(k) >= 16,
    decreases k,
{
    assert(pow16(k) == 16 * pow16((k - 1) as nat));
    if k > 1 {
        lemma_pow16_at_least_16((k - 1) as nat);
    } else {
        assert(pow16(0) == 1);
    }
}

/// A band string exists exactly for masks below `2^96` (at most 24
/// hexadecimal digits); it has no leading zeros and reads back, as a
/// hexadecimal number, as the mask.
pub proof fn law_band_string_exact(m: u128)
    ensures
        band_string(m) is Some <==> m < 0x1_0000_0000_0000_0000_0000_0000u128,
        band_string(m) matches Some(s) ==> hex_value(s) == m && (s.len() == 1 || s[0] != '0'),
{
    reveal_with_fuel(pow16, 25);
    assert(pow16(24) == 0x1_0000_0000_0000_0000_0000_0000nat);
    lemma_hex_lower_reads_back(m as nat);
    if m < 0x1_0000_0000_0000_0000_0000_0000u128 {
        lemma_hex_len_below(m as nat, 24);
    }
    if hex_lower(m as nat).len() <= 24 {
        lemma_hex_len_above(m as nat, 24);
    }
}

} // verus!

verus! {

/// The search-sequence code of a technology as its two characters.
fn push_rat_order_code(s: &mut String, r: RadioAccessTechnology)
    ensures
        final(s)@ == old(s)@ + rat_order_code(r),
{
    crate::support::string_push(s, '0');
    let d = match r {
        RadioAccessTechnology::GSM => '1',
        RadioAccessTechnology::EMTC => '2',
        RadioAccessTechnology::NbIoT => '3',
        RadioAccessTechnology::Default => '0',
    };
    crate::support::string_push(s, d);
    assert(final(s)@ =~= old(s)@ + rat_order_code(r));
}

/// The search sequence of a new configuration: eMTC, then NB-IoT, then GSM.
pub open spec fn default_rat_order() -> Seq<char> {
    seq!['0', '2', '0', '3', '0', '1']
}

impl ModemConfiguration {
    /// A configuration with no band restriction and the search sequence
    /// eMTC, NB-IoT, GSM (`020301`).
    pub fn new() -> (c: Self)
        ensures
            c.gsm_bands == 0,
            c.emtc_bands == 0,
            c.nb_bands == 0,
            c.rat_order@ == default_rat_order(),
    {
        let mut rat_order = String::new();
        push_rat_order_code(&mut rat_order, RadioAccessTechnology::EMTC);
        push_rat_order_code(&mut rat_order, RadioAccessTechnology::NbIoT);
        push_rat_order_code(&mut rat_order, RadioAccessTechnology::GSM);
        assert(rat_order@ =~= default_rat_order());
        ModemConfiguration { gsm_bands: 0, emtc_bands: 0, nb_bands: 0, rat_order }
    }

    /// Select the bands of technology `rat`.
    ///
    /// A list starting with "any" selects every band of the technology; a
    /// lone "no change" clears the mask; any other list selects exactly the
    /// listed bands, and is refused if it names a band the technology does
    /// not have. An empty list and the `Default` technology are refused.
    pub fn set_bands<T: Band + Copy>(&mut self, rat: RadioAccessTechnology, bands: &[T]) -> (r:
        Result<(), ()>)
        requires
            is_explicit_band_list(band_numbers(bands@)) ==> forall|i: int|
                0 <= i < bands@.len() ==> 1 <= #[trigger] band_numbers(bands@)[i] <= 128,
        ensures
            match (requested_mask(band_numbers(bands@), T::spec_all_bands_mask()), rat) {
                (Some(m), RadioAccessTechnology::GSM) => {
                    &&& r is Ok
                    &&& *final(self) == ModemConfiguration { gsm_bands: m as u8, ..*old(self) }
                },
                (Some(m), RadioAccessTechnology::EMTC) => {
                    &&& r is Ok
                    &&& *final(self) == ModemConfiguration { emtc_bands: m, ..*old(self) }
                },
                (Some(m), RadioAccessTechnology::NbIoT) => {
                    &&& r is Ok
                    &&& *final(self) == ModemConfiguration { nb_bands: m, ..*old(self) }
                },
                _ => {
                    &&& r is Err
                    &&& *final(self) == *old(self)
                },
            },
    {
        let ghost numbers = band_numbers(bands@);
        if bands.len() == 0 {
            return Err(());
        }
        let mut mask: u128 = 0;
        let first = bands[0].as_u8();
        if first == BAND_ANY {
            mask = T::all_bands_mask();
        } else if bands.len() == 1 && first == BAND_NO_CHANGE {
            mask = 0;
        } else {
            let mut i: usize = 0;
            while i < bands.len()
                invariant
                    i <= bands@.len(),
                    numbers == band_numbers(bands@),
                    is_explicit_band_list(numbers),
                    forall|k: int| 0 <= k < bands@.len() ==> 1 <= #[trigger] numbers[k] <= 128,
                    mask == bands_mask(numbers.take(i as int)),
                decreases bands@.len() - i,
            {
                let n = bands[i].as_u8();
                assert(n == numbers[i as int]);
                let bit: u128 = 1u128 << ((n - 1) as u128);
                mask = mask | bit;
                assert(numbers.take(i + 1).drop_last() =~= numbers.take(i as int));
                i = i + 1;
            }
            assert(numbers.take(bands@.len() as int) =~= numbers);
            if (!T::all_bands_mask() & mask) != 0 {
                return Err(());
            }
        }
        match rat {
            RadioAccessTechnology::GSM => self.gsm_bands = mask as u8,
            RadioAccessTechnology::EMTC => self.emtc_bands = mask,
            RadioAccessTechnology::NbIoT => self.nb_bands = mask,
            RadioAccessTechnology::Default => return Err(()),
        }
        Ok(())
    }

    /// Set the order in which technologies are searched.
    ///
    /// Refused (and nothing changed) unless one to three technologies are
    /// given, none twice.
    pub fn set_rat_order(&mut self, rat: &[RadioAccessTechnology]) -> (r: Result<(), ()>)
        ensures
            is_valid_rat_order(rat@) ==> {
                &&& r is Ok
                &&& final(self).rat_order@ == rat_order_string(rat@)
                &&& final(self).gsm_bands == old(self).gsm_bands
                &&& final(self).emtc_bands == old(self).emtc_bands
                &&& final(self).nb_bands == old(self).nb_bands
            },
            !is_valid_rat_order(rat@) ==> r is Err && *final(self) == *old(self),
    {
        if rat.len() == 0 || rat.len() > 3 {
            return Err(());
        }
        let mut rat_string = String::new();
        let mut seen: Vec<bool> = vec![false, false, false, false];
        let mut i: usize = 0;
        while i < rat.len()
            invariant
                i <= rat@.len(),
                1 <= rat@.len() <= 3,
                seen@.len() == 4,
                rat_string@ == rat_order_string(rat@.take(i as int)),
                forall|j: int| 0 <= j < i ==> #[trigger] seen@[rat_code(rat@[j]) as int],
                forall|k: int|
                    0 <= k < 4 && #[trigger] seen@[k] ==> exists|j: int|
                        0 <= j < i && rat_code(rat@[j]) == k,
                forall|a: int, b: int| 0 <= a < b < i ==> rat@[a] != rat@[b],
            decreases rat@.len() - i,
        {
            let r = rat[i];
            let idx = r.code() as usize;
            if seen[idx] {
                proof {
                    let j = choose|j: int| 0 <= j < i && rat_code(rat@[j]) == idx;
                    assert(rat@[j] == rat@[i as int]);
                }
                return Err(());
            }
            seen.set(idx, true);
            push_rat_order_code(&mut rat_string, r);
            proof {
                assert(rat@.take(i + 1).drop_last() =~= rat@.take(i as int));
                assert forall|a: int, b: int| 0 <= a < b < i + 1 implies rat@[a] != rat@[b] by {
                    if b == i {
                        assert(seen@[rat_code(rat@[a]) as int]);
                    }
                }
            }
            i = i + 1;
        }
        assert(rat@.take(rat@.len() as int) =~= rat@);
        self.rat_order = rat_string;
        Ok(())
    }

    /// The band mask of `rat` as the hexadecimal string the modem expects.
    ///
    /// Refused for `Default` and for masks longer than 24 digits.
    pub fn get_band_string(&self, rat: RadioAccessTechnology) -> (r: Result<String, ()>)
        ensures
            match configured_mask(*self, rat) {
                Some(v) => match band_string(v) {
                    Some(s) => r matches Ok(x) && x@ == s,
                    None => r is Err,
                },
                None => r is Err,
            },
    {
        let value: u128 = match rat {
            RadioAccessTechnology::GSM => self.gsm_bands as u128,
            RadioAccessTechnology::EMTC => self.emtc_bands,
            RadioAccessTechnology::NbIoT => self.nb_bands,
            RadioAccessTechnology::Default => return Err(()),
        };
        let digits = hex_digit_count(value);
        if digits > BAND_STRING_MAX_DIGITS {
            return Err(());
        }
        let mut s = String::new();
        push_hex_lower(&mut s, value);
        assert(s@ =~= hex_lower(value as nat));
        Ok(s)
    }

    /// The technology search sequence.
    pub fn get_rat_order(&self) -> (s: String)
        ensures
            s@ == self.rat_order@,
    {
        self.rat_order.clone()
    }
}

} // verus!

verus! {

#[derive(Copy, Clone, Debug, PartialEq, Eq, Structural)]
pub enum MqttVersion {
    /// MQTT Version 3.1 (default)
    V3_1,
    /// MQTT Version 3.1.1
    V3_1_1,
}

impl MqttVersion {
    /// Numeric value of the parameter on the wire.
    pub fn code(&self) -> (c: u8)
        ensures
            c == (match self {
                MqttVersion::V3_1 => 3u8,
                MqttVersion::V3_1_1 => 4u8,
            }),
    {
        match self {
            MqttVersion::V3_1 => 3,
            MqttVersion::V3_1_1 => 4,
        }
    }
}

#[derive(Copy, Clone, Debug, PartialEq, Eq, Structural)]
pub enum MqttSslEnable {
    /// Use normal TCP connection for MQTT (default)
    False,
    /// Use SSL TCP secure connection for MQTT
    True,
}

impl MqttSslEnable {
    /// Numeric value of the parameter on the wire.
    pub fn code(&self) -> (c: u8)
        ensures
            c == (match self {
                MqttSslEnable::False => 0u8,
                MqttSslEnable::True => 1u8,
            }),
    {
        match self {
            MqttSslEnable::False => 0,
            MqttSslEnable::True => 1,
        }
    }
}

#[derive(Copy, Clone, Debug, PartialEq, Eq, Structural)]
pub enum SslVersion {
    /// SSL 3.0
    Ssl3_0,
    /// TLS 1.0
    Tls1_0,
    /// TLS 1.1
    Tls1_1,
    /// TLS 1.2
    Tls1_2,
    /// Every version
    All,
}

impl SslVersion {
    /// Numeric value of the parameter on the wire.
    pub fn code(&self) -> (c: u8)
        ensures
            c == (match self {
                SslVersion::Ssl3_0 => 0u8,
                SslVersion::Tls1_0 => 1u8,
                SslVersion::Tls1_1 => 2u8,
                SslVersion::Tls1_2 => 3u8,
                SslVersion::All => 4u8,
            }),
    {
        match self {
            SslVersion::Ssl3_0 => 0,
            SslVersion::Tls1_0 => 1,
            SslVersion::Tls1_1 => 2,
            SslVersion::Tls1_2 => 3,
            SslVersion::All => 4,
        }
    }
}

#[derive(Copy, Clone, Debug, PartialEq, Eq, Structural)]
pub enum SslAuthenticationMode {
    /// No authentication
    NoAuth,
    /// Manage server authentication only
    ServerOnly,
    /// Manage mutual authentication (server and client) if requested by server
    Mutual,
}

impl SslAuthenticationMode {
    /// Numeric value of the parameter on the wire.
    pub fn code(&self) -> (c: u8)
        ensures
            c == (match self {
                SslAuthenticationMode::NoAuth => 0u8,
                SslAuthenticationMode::ServerOnly => 1u8,
                SslAuthenticationMode::Mutual => 2u8,
            }),
    {
        match self {
            SslAuthenticationMode::NoAuth => 0,
            SslAuthenticationMode::ServerOnly => 1,
            SslAuthenticationMode::Mutual => 2,
        }
    }
}

#[derive(Copy, Clone, Debug, PartialEq, Eq, Structural)]
pub enum SslIgnoreLocalTime {
    /// Care about validity check for certification
    Care,
    /// Ignore validity check for certification
    Ignore,
}

impl SslIgnoreLocalTime {
    /// Numeric value of the parameter on the wire.
    pub fn code(&self) -> (c: u8)
        ensures
            c == (match self {
                SslIgnoreLocalTime::Care => 0u8,
                SslIgnoreLocalTime::Ignore => 1u8,
            }),
    {
        match self {
            SslIgnoreLocalTime::Care => 0,
            SslIgnoreLocalTime::Ignore => 1,
        }
    }
}

#[derive(Copy, Clone, Debug, PartialEq, Eq, Structural)]
pub enum SslSniEnable {
    /// Disable Server Name Indication
    Disable,
    /// Enable Server Name Indication
    Enable,
}

impl SslSniEnable {
    /// Numeric value of the parameter on the wire.
    pub fn code(&self) -> (c: u8)
        ensures
            c == (match self {
                SslSniEnable::Disable => 0u8,
                SslSniEnable::Enable => 1u8,
            }),
    {
        match self {
            SslSniEnable::Disable => 0,
            SslSniEnable::Enable => 1,
        }
    }
}

#[derive(Copy, Clone, Debug, PartialEq, Eq, Structural)]
pub enum SslCheckHostEnable {
    /// Disable hostname validation
    Disable,
    /// Enable hostname validation
    Enable,
}

impl SslCheckHostEnable {
    /// Numeric value of the parameter on the wire.
    pub fn code(&self) -> (c: u8)
        ensures
            c == (match self {
                SslCheckHostEnable::Disable => 0u8,
                SslCheckHostEnable::Enable => 1u8,
            }),
    {
        match self {
            SslCheckHostEnable::Disable => 0,
            SslCheckHostEnable::Enable => 1,
        }
    }
}

/// Cipher suites as the hexadecimal text the modem expects, e.g. `0x0035`.
pub type SslCipherSuites = Vec<u8>;

#[derive(Copy, Clone, Debug, PartialEq, Eq, Structural)]
pub enum SslCipherSuiteEnum {
    /// TLS_RSA_WITH_AES_256_CBC_SHA
    TlsRsaWithAes256CbcSha,
    /// TLS_RSA_WITH_AES_128_CBC_SHA
    TlsRsaWithAes128CbcSha,
    /// TLS_RSA_WITH_RC4_128_SHA
    TlsRsaWithRc4_128Sha,
    /// TLS_RSA_WITH_RC4_128_MD5
    TlsRsaWithRc4_128Md5,
    /// TLS_RSA_WITH_3DES_EDE_CBC_SHA
    TlsRsaWith3desEdeCbcSha,
    /// TLS_RSA_WITH_AES_256_CBC_SHA256
    TlsRsaWithAes256CbcSha256,
    /// TLS_ECDHE_RSA_WITH_RC4_128_SHA
    TlsEcdheRsaWithRc4_128Sha,
    /// TLS_ECDHE_RSA_WITH_3DES_EDE_CBC_SHA
    TlsEcdheRsaWith3desEdeCbcSha,
    /// TLS_ECDHE_RSA_WITH_AES_128_CBC_SHA
    TlsEcdheRsaWithAes128CbcSha,
    /// TLS_ECDHE_RSA_WITH_AES_256_CBC_SHA
    TlsEcdheRsaWithAes256CbcSha,
    /// TLS_ECDHE_RSA_WITH_AES_128_CBC_SHA256
    TlsEcdheRsaWithAes128CbcSha256,
    /// TLS_ECDHE_RSA_WITH_AES_256_CBC_SHA384
    TlsEcdheRsaWithAes256CbcSha384,
    /// TLS_ECDHE_RSA_WITH_AES_128_GCM_SHA256
    TlsEcdheRsaWithAes128GcmSha256,
    /// Support all
    SupportAll,
}

/// IANA number of a cipher suite (`0xFFFF` for "all").
pub open spec fn cipher_suite_code(s: SslCipherSuiteEnum) -> u16 {
    match s {
        SslCipherSuiteEnum::TlsRsaWithAes256CbcSha => 0x0035u16,
        SslCipherSuiteEnum::TlsRsaWithAes128CbcSha => 0x002Fu16,
        SslCipherSuiteEnum::TlsRsaWithRc4_128Sha => 0x0005u16,
        SslCipherSuiteEnum::TlsRsaWithRc4_128Md5 => 0x0004u16,
        SslCipherSuiteEnum::TlsRsaWith3desEdeCbcSha => 0x000Au16,
        SslCipherSuiteEnum::TlsRsaWithAes256CbcSha256 => 0x003Du16,
        SslCipherSuiteEnum::TlsEcdheRsaWithRc4_128Sha => 0xC011u16,
        SslCipherSuiteEnum::TlsEcdheRsaWith3desEdeCbcSha => 0xC012u16,
        SslCipherSuiteEnum::TlsEcdheRsaWithAes128CbcSha => 0xC013u16,
        SslCipherSuiteEnum::TlsEcdheRsaWithAes256CbcSha => 0xC014u16,
        SslCipherSuiteEnum::TlsEcdheRsaWithAes128CbcSha256 => 0xC027u16,
        SslCipherSuiteEnum::TlsEcdheRsaWithAes256CbcSha384 => 0xC028u16,
        SslCipherSuiteEnum::TlsEcdheRsaWithAes128GcmSha256 => 0xC02Fu16,
        SslCipherSuiteEnum::SupportAll => 0xFFFFu16,
    }
}

/// Upper-case hexadecimal digit (as an ASCII byte) of a value below 16.
pub open spec fn hex_upper_byte(d: nat) -> u8 {
    if d < 10 {
        (d + 48) as u8
    } else {
        (d - 10 + 65) as u8
    }
}

/// `0x` followed by the four upper-case hexadecimal digits of `v`.
pub open spec fn hex_u16_text(v: u16) -> Seq<u8> {
    seq![
        48u8,
        120u8,
        hex_upper_byte((v / 4096) as nat),
        hex_upper_byte(((v / 256) % 16) as nat),
        hex_upper_byte(((v / 16) % 16) as nat),
        hex_upper_byte((v % 16) as nat),
    ]
}

fn hex_upper(d: u16) -> (b: u8)
    requires
        d < 16,
    ensures
        b == hex_upper_byte(d as nat),
{
    if d < 10 {
        (d + 48) as u8
    } else {
        (d - 10 + 65) as u8
    }
}

impl SslCipherSuiteEnum {
    /// IANA number of the cipher suite.
    pub fn code(&self) -> (c: u16)
        ensures
            c == cipher_suite_code(*self),
    {
        match self {
            SslCipherSuiteEnum::TlsRsaWithAes256CbcSha => 0x0035,
            SslCipherSuiteEnum::TlsRsaWithAes128CbcSha => 0x002F,
            SslCipherSuiteEnum::TlsRsaWithRc4_128Sha => 0x0005,
            SslCipherSuiteEnum::TlsRsaWithRc4_128Md5 => 0x0004,
            SslCipherSuiteEnum::TlsRsaWith3desEdeCbcSha => 0x000A,
            SslCipherSuiteEnum::TlsRsaWithAes256CbcSha256 => 0x003D,
            SslCipherSuiteEnum::TlsEcdheRsaWithRc4_128Sha => 0xC011,
            SslCipherSuiteEnum::TlsEcdheRsaWith3desEdeCbcSha => 0xC012,
            SslCipherSuiteEnum::TlsEcdheRsaWithAes128CbcSha => 0xC013,
            SslCipherSuiteEnum::TlsEcdheRsaWithAes256CbcSha => 0xC014,
            SslCipherSuiteEnum::TlsEcdheRsaWithAes128CbcSha256 => 0xC027,
            SslCipherSuiteEnum::TlsEcdheRsaWithAes256CbcSha384 => 0xC028,
            SslCipherSuiteEnum::TlsEcdheRsaWithAes128GcmSha256 => 0xC02F,
            SslCipherSuiteEnum::SupportAll => 0xFFFF,
        }
    }

    /// The cipher suite as the modem's hexadecimal text: `0x` and four
    /// upper-case digits.
    pub fn to_bytes(&self) -> (b: SslCipherSuites)
        ensures
            b@ == hex_u16_text(cipher_suite_code(*self)),
    {
        let v = self.code();
        let mut b: Vec<u8> = Vec::new();
        b.push(48u8);
        b.push(120u8);
        b.push(hex_upper(v / 4096));
        b.push(hex_upper((v / 256) % 16));
        b.push(hex_upper((v / 16) % 16));
        b.push(hex_upper(v % 16));
        assert(b@ =~= hex_u16_text(cipher_suite_code(*self)));
        b
    }
}

/// Number of bytes of the UTF-8 encoding of a text.
pub open spec fn utf8_len(s: Seq<char>) -> nat {
    vstd::utf8::encode_utf8(s).len()
}

/// Longest file name the modem file system accepts.
pub const FILENAME_MAX_LEN: usize = 80;

/// The SSL/TLS settings an `SslConfiguration` holds.
pub ghost struct SslConfigurationView {
    pub context_id: u8,
    pub ca_cert_filename: Seq<char>,
    pub client_cert_filename: Seq<char>,
    pub client_key_filename: Seq<char>,
    pub ssl_version: SslVersion,
    pub cipher_suite: Option<Seq<u8>>,
    pub auth_mode: SslAuthenticationMode,
    pub sni_enable: SslSniEnable,
    pub checkhost_enable: SslCheckHostEnable,
    pub ignore_localtime: SslIgnoreLocalTime,
}

/// SSL/TLS configuration for secure connections, set up builder-style and
/// applied to the modem by the driver.
#[derive(Debug)]
pub struct SslConfiguration {
    context_id: u8,
    ca_cert_filename: String,
    client_cert_filename: String,
    client_key_filename: String,
    ssl_version: SslVersion,
    cipher_suite: Option<SslCipherSuites>,
    auth_mode: SslAuthenticationMode,
    sni_enable: SslSniEnable,
    checkhost_enable: SslCheckHostEnable,
    ignore_localtime: SslIgnoreLocalTime,
}

impl View for SslConfiguration {
    type V = SslConfigurationView;

    closed spec fn view(&self) -> SslConfigurationView {
        SslConfigurationView {
            context_id: self.context_id,
            ca_cert_filename: self.ca_cert_filename@,
            client_cert_filename: self.client_cert_filename@,
            client_key_filename: self.client_key_filename@,
            ssl_version: self.ssl_version,
            cipher_suite: match self.cipher_suite {
                Some(v) => Some(v@),
                None => None,
            },
            auth_mode: self.auth_mode,
            sni_enable: self.sni_enable,
            checkhost_enable: self.checkhost_enable,
            ignore_localtime: self.ignore_localtime,
        }
    }
}

/// The settings of a new `SslConfiguration`.
pub open spec fn default_ssl_configuration() -> SslConfigurationView {
    SslConfigurationView {
        context_id: 2,
        ca_cert_filename: Seq::empty(),
        client_cert_filename: Seq::empty(),
        client_key_filename: Seq::empty(),
        ssl_version: SslVersion::Tls1_2,
        cipher_suite: None,
        auth_mode: SslAuthenticationMode::ServerOnly,
        sni_enable: SslSniEnable::Enable,
        checkhost_enable: SslCheckHostEnable::Disable,
        ignore_localtime: SslIgnoreLocalTime::Ignore,
    }
}

/// The settings an `SslConfiguration` can hold: a context id of 0 to 5 and
/// file names of at most 80 bytes.
pub open spec fn valid_ssl_configuration(v: SslConfigurationView) -> bool {
    &&& v.context_id <= 5
    &&& utf8_len(v.ca_cert_filename) <= FILENAME_MAX_LEN
    &&& utf8_len(v.client_cert_filename) <= FILENAME_MAX_LEN
    &&& utf8_len(v.client_key_filename) <= FILENAME_MAX_LEN
}

impl SslConfiguration {
    #[verifier::type_invariant]
    closed spec fn inv(&self) -> bool {
        valid_ssl_configuration(self@)
    }

    /// A new SSL configuration: context 2, no certificates, TLS 1.2, every
    /// cipher suite, server authentication, SNI on, host check off, and
    /// certificate dates ignored.
    pub fn new() -> (c: Self)
        ensures
            c@ == default_ssl_configuration(),
    {
        let c = SslConfiguration {
            context_id: 2,
            ca_cert_filename: String::new(),
            client_cert_filename: String::new(),
            client_key_filename: String::new(),
            ssl_version: SslVersion::Tls1_2,
            cipher_suite: None,
            auth_mode: SslAuthenticationMode::ServerOnly,
            sni_enable: SslSniEnable::Enable,
            checkhost_enable: SslCheckHostEnable::Disable,
            ignore_localtime: SslIgnoreLocalTime::Ignore,
        };
        assert(vstd::utf8::encode_utf8(Seq::<char>::empty()) =~= Seq::<u8>::empty()) by {
            reveal_with_fuel(vstd::utf8::encode_utf8, 1);
        }
        c
    }

    /// Set the SSL context id; refused (and nothing changed) above 5.
    pub fn set_context_id(&mut self, id: u8) -> (r: Result<&mut Self, ()>)
        ensures
            id <= 5 ==> (r matches Ok(m) && m@ == (SslConfigurationView {
                context_id: id,
                ..old(self)@
            }) && *final(self) == *final(m)),
            id > 5 ==> r is Err && final(self)@ == old(self)@,
    {
        if id > 5 {
            return Err(());
        }
        proof {
            use_type_invariant(&*self);
        }
        self.context_id = id;
        Ok(self)
    }

    /// Set the CA certificate file name; refused (and nothing changed) when
    /// longer than 80 bytes. An empty name means no CA certificate.
    pub fn set_ca_cert(&mut self, filename: &str) -> (r: Result<&mut Self, ()>)
        ensures
            utf8_len(filename@) <= FILENAME_MAX_LEN ==> (r matches Ok(m) && m@ == (
            SslConfigurationView { ca_cert_filename: filename@, ..old(self)@ }) && *final(self)
                == *final(m)),
            utf8_len(filename@) > FILENAME_MAX_LEN ==> r is Err && final(self)@ == old(self)@,
    {
        if filename.as_bytes().len() > FILENAME_MAX_LEN {
            return Err(());
        }
        proof {
            use_type_invariant(&*self);
        }
        self.ca_cert_filename = filename.to_owned();
        Ok(self)
    }

    /// Set the client certificate file name (mutual TLS); refused (and
    /// nothing changed) when longer than 80 bytes.
    pub fn set_client_cert(&mut self, filename: &str) -> (r: Result<&mut Self, ()>)
        ensures
            utf8_len(filename@) <= FILENAME_MAX_LEN ==> (r matches Ok(m) && m@ == (
            SslConfigurationView { client_cert_filename: filename@, ..old(self)@ })
                && *final(self) == *final(m)),
            utf8_len(filename@) > FILENAME_MAX_LEN ==> r is Err && final(self)@ == old(self)@,
    {
        if filename.as_bytes().len() > FILENAME_MAX_LEN {
            return Err(());
        }
        proof {
            use_type_invariant(&*self);
        }
        self.client_cert_filename = filename.to_owned();
        Ok(self)
    }

    /// Set the client private key file name (mutual TLS); refused (and
    /// nothing changed) when longer than 80 bytes.
    pub fn set_client_key(&mut self, filename: &str) -> (r: Result<&mut Self, ()>)
        ensures
            utf8_len(filename@) <= FILENAME_MAX_LEN ==> (r matches Ok(m) && m@ == (
            SslConfigurationView { client_key_filename: filename@, ..old(self)@ })
                && *final(self) == *final(m)),
            utf8_len(filename@) > FILENAME_MAX_LEN ==> r is Err && final(self)@ == old(self)@,
    {
        if filename.as_bytes().len() > FILENAME_MAX_LEN {
            return Err(());
        }
        proof {
            use_type_invariant(&*self);
        }
        self.client_key_filename = filename.to_owned();
        Ok(self)
    }

    /// Set the SSL/TLS protocol version.
    pub fn set_ssl_version(&mut self, version: SslVersion) -> (r: &mut Self)
        ensures
            r@ == (SslConfigurationView { ssl_version: version, ..old(self)@ }),
            *final(self) == *final(r),
    {
        proof {
            use_type_invariant(&*self);
        }
        self.ssl_version = version;
        self
    }

    /// Use exactly one cipher suite.
    pub fn set_cipher_suite(&mut self, suite: SslCipherSuiteEnum) -> (r: &mut Self)
        ensures
            r@ == (SslConfigurationView {
                cipher_suite: Some(hex_u16_text(cipher_suite_code(suite))),
                ..old(self)@
            }),
            *final(self) == *final(r),
    {
        proof {
            use_type_invariant(&*self);
        }
        self.cipher_suite = Some(suite.to_bytes());
        self
    }

    /// Use every cipher suite the modem supports.
    pub fn set_cipher_suite_all(&mut self) -> (r: &mut Self)
        ensures
            r@ == (SslConfigurationView { cipher_suite: None, ..old(self)@ }),
            *final(self) == *final(r),
    {
        proof {
            use_type_invariant(&*self);
        }
        self.cipher_suite = None;
        self
    }

    /// Set the authentication mode.
    pub fn set_auth_mode(&mut self, mode: SslAuthenticationMode) -> (r: &mut Self)
        ensures
            r@ == (SslConfigurationView { auth_mode: mode, ..old(self)@ }),
            *final(self) == *final(r),
    {
        proof {
            use_type_invariant(&*self);
        }
        self.auth_mode = mode;
        self
    }

    /// Enable or disable Server Name Indication.
    pub fn set_sni(&mut self, enable: bool) -> (r: &mut Self)
        ensures
            r@ == (SslConfigurationView {
                sni_enable: if enable {
                    SslSniEnable::Enable
                } else {
                    SslSniEnable::Disable
                },
                ..old(self)@
            }),
            *final(self) == *final(r),
    {
        proof {
            use_type_invariant(&*self);
        }
        self.sni_enable = if enable {
            SslSniEnable::Enable
        } else {
            SslSniEnable::Disable
        };
        self
    }

    /// Enable or disable hostname validation.
    pub fn set_check_host(&mut self, enable: bool) -> (r: &mut Self)
        ensures
            r@ == (SslConfigurationView {
                checkhost_enable: if enable {
                    SslCheckHostEnable::Enable
                } else {
                    SslCheckHostEnable::Disable
                },
                ..old(self)@
            }),
            *final(self) == *final(r),
    {
        proof {
            use_type_invariant(&*self);
        }
        self.checkhost_enable = if enable {
            SslCheckHostEnable::Enable
        } else {
            SslCheckHostEnable::Disable
        };
        self
    }

    /// Choose whether certificate validity dates are ignored.
    pub fn set_ignore_localtime(&mut self, ignore: bool) -> (r: &mut Self)
        ensures
            r@ == (SslConfigurationView {
                ignore_localtime: if ignore {
                    SslIgnoreLocalTime::Ignore
                } else {
                    SslIgnoreLocalTime::Care
                },
                ..old(self)@
            }),
            *final(self) == *final(r),
    {
        proof {
            use_type_invariant(&*self);
        }
        self.ignore_localtime = if ignore {
            SslIgnoreLocalTime::Ignore
        } else {
            SslIgnoreLocalTime::Care
        };
        self
    }

    /// The SSL context id (0 to 5).
    pub fn get_context_id(&self) -> (id: u8)
        ensures
            id == self@.context_id,
            id <= 5,
    {
        proof {
            use_type_invariant(self);
        }
        self.context_id
    }

    /// The CA certificate file name (empty when none is set).
    pub fn get_ca_cert_filename(&self) -> (s: &str)
        ensures
            s@ == self@.ca_cert_filename,
            utf8_len(s@) <= FILENAME_MAX_LEN,
    {
        proof {
            use_type_invariant(self);
        }
        self.ca_cert_filename.as_str()
    }

    /// The client certificate file name (empty when none is set).
    pub fn get_client_cert_filename(&self) -> (s: &str)
        ensures
            s@ == self@.client_cert_filename,
            utf8_len(s@) <= FILENAME_MAX_LEN,
    {
        proof {
            use_type_invariant(self);
        }
        self.client_cert_filename.as_str()
    }

    /// The client private key file name (empty when none is set).
    pub fn get_client_key_filename(&self) -> (s: &str)
        ensures
            s@ == self@.client_key_filename,
            utf8_len(s@) <= FILENAME_MAX_LEN,
    {
        proof {
            use_type_invariant(self);
        }
        self.client_key_filename.as_str()
    }

    /// The SSL/TLS version.
    pub fn get_ssl_version(&self) -> (v: SslVersion)
        ensures
            v == self@.ssl_version,
    {
        self.ssl_version
    }

    /// The cipher suite text, `None` when every suite is allowed.
    pub fn get_cipher_suite(&self) -> (c: Option<SslCipherSuites>)
        ensures
            match c {
                Some(v) => self@.cipher_suite == Some(v@),
                None => self@.cipher_suite is None,
            },
    {
        match &self.cipher_suite {
            Some(v) => {
                let mut out: Vec<u8> = Vec::new();
                let mut i: usize = 0;
                while i < v.len()
                    invariant
                        i <= v@.len(),
                        out@ == v@.take(i as int),
                    decreases v@.len() - i,
                {
                    out.push(v[i]);
                    assert(v@.take(i + 1) =~= v@.take(i as int).push(v@[i as int]));
                    i = i + 1;
                }
                assert(v@.take(v@.len() as int) =~= v@);
                Some(out)
            },
            None => None,
        }
    }

    /// The authentication mode.
    pub fn get_auth_mode(&self) -> (m: SslAuthenticationMode)
        ensures
            m == self@.auth_mode,
    {
        self.auth_mode
    }

    /// The Server Name Indication setting.
    pub fn get_sni_enable(&self) -> (s: SslSniEnable)
        ensures
            s == self@.sni_enable,
    {
        self.sni_enable
    }

    /// The hostname validation setting.
    pub fn get_checkhost_enable(&self) -> (s: SslCheckHostEnable)
        ensures
            s == self@.checkhost_enable,
    {
        self.checkhost_enable
    }

    /// The certificate date validation setting.
    pub fn get_ignore_localtime(&self) -> (s: SslIgnoreLocalTime)
        ensures
            s == self@.ignore_localtime,
    {
        self.ignore_localtime
    }
}

impl Clone for SslConfiguration {
    fn clone(&self) -> (c: Self)
        ensures
            c@ == self@,
    {
        proof {
            use_type_invariant(self);
        }
        SslConfiguration {
            context_id: self.context_id,
            ca_cert_filename: self.ca_cert_filename.clone(),
            client_cert_filename: self.client_cert_filename.clone(),
            client_key_filename: self.client_key_filename.clone(),
            ssl_version: self.ssl_version,
            cipher_suite: self.get_cipher_suite(),
            auth_mode: self.auth_mode,
            sni_enable: self.sni_enable,
            checkhost_enable: self.checkhost_enable,
            ignore_localtime: self.ignore_localtime,
        }
    }
}

impl Default for SslConfiguration {
    fn default() -> (c: Self)
        ensures
            c@ == default_ssl_configuration(),
    {
        Self::new()
    }
}

} // verus!
