//! PFP header: 4 bytes, fixed offsets, read by bit operations only.
//!
//! ```text
//! Byte 0-1: Family-Magic (0xCF14, big-endian)
//! Byte 2:   Modality(bit 0-1) RiskLevel(2-3) BodyStance(4-5) ProximityEdge(6-7)
//! Byte 3:   OutputDest(bit 0) OverrideFlag(1) ReplayEnable(2) Reserved(3-7, zero)
//! ```
//!
//! Every error path of the decision engine ends in `Decision::Reject`.

use vstd::prelude::*;

use crate::text::{decimal, hex_upper_fixed, push_decimal, push_hex_upper_fixed};

verus! {

/// Family magic of the CI-144 protocol family, high byte.
pub const MAGIC_HI: u8 = 0xCF;

/// Family magic of the CI-144 protocol family, low byte.
pub const MAGIC_LO: u8 = 0x14;

/// Family magic as a big-endian 16-bit value.
pub const FAMILY_MAGIC: u16 = 0xCF14;

/// Bits 3..7 of byte 3: the reserved field of a PFP header.
pub open spec fn reserved_field(b3: u8) -> u8 {
    (b3 >> 3u8) & 0x1fu8
}

/// Big-endian 16-bit value of two bytes.
pub open spec fn be16(hi: u8, lo: u8) -> int {
    hi as int * 256 + lo as int
}

/// Whether four bytes form a valid PFP header: family magic 0xCF14 and
/// reserved bits all zero.
pub open spec fn is_valid_pfp(b: Seq<u8>) -> bool {
    &&& b.len() == 4
    &&& b[0] == MAGIC_HI
    &&& b[1] == MAGIC_LO
    &&& reserved_field(b[3]) == 0
}

/// The error an invalid PFP header is refused with: a wrong family magic
/// first, else non-zero reserved bits.
pub open spec fn pfp_error(b: Seq<u8>) -> TuckError {
    if !(b[0] == MAGIC_HI && b[1] == MAGIC_LO) {
        TuckError::InvalidFamilyMagic(be16(b[0], b[1]) as u16)
    } else {
        TuckError::ReservedBitsNonZero(reserved_field(b[3]))
    }
}

// ---------------------------------------------------------------------------
// Field enums
// ---------------------------------------------------------------------------

/// Operation modality (bits 0-1 of byte 2).
#[derive(Debug, Clone, Copy, PartialEq, Eq, Structural)]
pub enum Modality {
    /// Cognitive operation (thinking, reasoning, memory retrieval).
    Cognitive,
    /// Render operation (text, image or speech generation).
    Render,
    /// Executive operation (tool call, physical action, API call).
    Executive,
    /// Sensor feed (camera, microphone, tactile, IMU).
    SensorFeed,
}

/// Risk level (bits 2-3 of byte 2), the core decision input.
#[derive(Debug, Clone, Copy, PartialEq, Eq, Structural)]
pub enum RiskLevel {
    /// Low risk (read-only, information query).
    Low,
    /// Medium risk (state change, external call).
    Medium,
    /// Critical risk (irreversible, financial, physical action).
    Critical,
    /// Catastrophic risk (physical harm, data loss, system crash).
    Catastrophic,
}

/// Body stance (bits 4-5 of byte 2).
#[derive(Debug, Clone, Copy, PartialEq, Eq, Structural)]
pub enum BodyStance {
    /// Seated (stable, low kinetic energy).
    Seated,
    /// Standing (medium kinetic energy).
    Standing,
    /// Moving (high kinetic energy).
    Moving,
    /// Unknown (sensor unavailable).
    Unknown,
}

/// Proximity edge / hazardous environment (bits 6-7 of byte 2).
#[derive(Debug, Clone, Copy, PartialEq, Eq, Structural)]
pub enum ProximityEdge {
    /// Safe environment.
    Safe,
    /// Approaching a hazard.
    Warning,
    /// Dangerous environment.
    Danger,
    /// Critical edge: immediate stop.
    CriticalEdge,
}

/// Output destination (bit 0 of byte 3).
#[derive(Debug, Clone, Copy, PartialEq, Eq, Structural)]
pub enum OutputDest {
    /// Output stays inside the local system.
    Internal,
    /// Output leaves the local system.
    External,
}

/// Override flag (bit 1 of byte 3).
#[derive(Debug, Clone, Copy, PartialEq, Eq, Structural)]
pub enum OverrideFlag {
    /// Processed by local policy.
    Normal,
    /// Hard override: catastrophic scenario passes unconditionally.
    HardOverride,
}

/// Replay protection enable (bit 2 of byte 3).
#[derive(Debug, Clone, Copy, PartialEq, Eq, Structural)]
pub enum ReplayEnable {
    /// Replay protection disabled.
    Disabled,
    /// Replay protection enabled.
    Enabled,
}

impl Modality {
    /// The modality a field value denotes (3 and above are `SensorFeed`).
    pub open spec fn spec_from_bits(v: u8) -> Modality {
        if v == 0 { Modality::Cognitive }
        else if v == 1 { Modality::Render }
        else if v == 2 { Modality::Executive }
        else { Modality::SensorFeed }
    }

    /// The field value of a modality.
    pub open spec fn spec_bits(self) -> u8 {
        match self {
            Modality::Cognitive => 0,
            Modality::Render => 1,
            Modality::Executive => 2,
            Modality::SensorFeed => 3,
        }
    }

    /// The modality a field value denotes.
    pub fn from_bits(v: u8) -> (m: Modality)
        ensures m == Self::spec_from_bits(v),
    {
        if v == 0 { Modality::Cognitive }
        else if v == 1 { Modality::Render }
        else if v == 2 { Modality::Executive }
        else { Modality::SensorFeed }
    }

    /// The field value of this modality.
    pub fn bits(self) -> (b: u8)
        ensures b == self.spec_bits(),
    {
        match self {
            Modality::Cognitive => 0,
            Modality::Render => 1,
            Modality::Executive => 2,
            Modality::SensorFeed => 3,
        }
    }

    /// The variant name, as the audit trail records it.
    pub fn name(self) -> (s: &'static str)
        ensures s@ == self.spec_name(),
    {
        match self {
            Modality::Cognitive => "Cognitive",
            Modality::Render => "Render",
            Modality::Executive => "Executive",
            Modality::SensorFeed => "SensorFeed",
        }
    }

    /// The variant name.
    pub open spec fn spec_name(self) -> Seq<char> {
        match self {
            Modality::Cognitive => "Cognitive"@,
            Modality::Render => "Render"@,
            Modality::Executive => "Executive"@,
            Modality::SensorFeed => "SensorFeed"@,
        }
    }
}

impl RiskLevel {
    /// The risk level a field value denotes (3 and above are `Catastrophic`).
    pub open spec fn spec_from_bits(v: u8) -> RiskLevel {
        if v == 0 { RiskLevel::Low }
        else if v == 1 { RiskLevel::Medium }
        else if v == 2 { RiskLevel::Critical }
        else { RiskLevel::Catastrophic }
    }

    /// The field value of a risk level.
    pub open spec fn spec_bits(self) -> u8 {
        match self {
            RiskLevel::Low => 0,
            RiskLevel::Medium => 1,
            RiskLevel::Critical => 2,
            RiskLevel::Catastrophic => 3,
        }
    }

    /// The risk level a field value denotes.
    pub fn from_bits(v: u8) -> (r: RiskLevel)
        ensures r == Self::spec_from_bits(v),
    {
        if v == 0 { RiskLevel::Low }
        else if v == 1 { RiskLevel::Medium }
        else if v == 2 { RiskLevel::Critical }
        else { RiskLevel::Catastrophic }
    }

    /// The field value of this risk level.
    pub fn bits(self) -> (b: u8)
        ensures b == self.spec_bits(),
    {
        match self {
            RiskLevel::Low => 0,
            RiskLevel::Medium => 1,
            RiskLevel::Critical => 2,
            RiskLevel::Catastrophic => 3,
        }
    }

    /// The variant name.
    pub open spec fn spec_name(self) -> Seq<char> {
        match self {
            RiskLevel::Low => "Low"@,
            RiskLevel::Medium => "Medium"@,
            RiskLevel::Critical => "Critical"@,
            RiskLevel::Catastrophic => "Catastrophic"@,
        }
    }

    /// The variant name, as the audit trail records it.
    pub fn name(self) -> (s: &'static str)
        ensures s@ == self.spec_name(),
    {
        match self {
            RiskLevel::Low => "Low",
            RiskLevel::Medium => "Medium",
            RiskLevel::Critical => "Critical",
            RiskLevel::Catastrophic => "Catastrophic",
        }
    }
}

impl BodyStance {
    /// The stance a field value denotes (3 and above are `Unknown`).
    pub open spec fn spec_from_bits(v: u8) -> BodyStance {
        if v == 0 { BodyStance::Seated }
        else if v == 1 { BodyStance::Standing }
        else if v == 2 { BodyStance::Moving }
        else { BodyStance::Unknown }
    }

    /// The field value of a stance.
    pub open spec fn spec_bits(self) -> u8 {
        match self {
            BodyStance::Seated => 0,
            BodyStance::Standing => 1,
            BodyStance::Moving => 2,
            BodyStance::Unknown => 3,
        }
    }

    /// The stance a field value denotes.
    pub fn from_bits(v: u8) -> (r: BodyStance)
        ensures r == Self::spec_from_bits(v),
    {
        if v == 0 { BodyStance::Seated }
        else if v == 1 { BodyStance::Standing }
        else if v == 2 { BodyStance::Moving }
        else { BodyStance::Unknown }
    }

    /// The field value of this stance.
    pub fn bits(self) -> (b: u8)
        ensures b == self.spec_bits(),
    {
        match self {
            BodyStance::Seated => 0,
            BodyStance::Standing => 1,
            BodyStance::Moving => 2,
            BodyStance::Unknown => 3,
        }
    }
}

impl ProximityEdge {
    /// The proximity a field value denotes (3 and above are `CriticalEdge`).
    pub open spec fn spec_from_bits(v: u8) -> ProximityEdge {
        if v == 0 { ProximityEdge::Safe }
        else if v == 1 { ProximityEdge::Warning }
        else if v == 2 { ProximityEdge::Danger }
        else { ProximityEdge::CriticalEdge }
    }

    /// The field value of a proximity.
    pub open spec fn spec_bits(self) -> u8 {
        match self {
            ProximityEdge::Safe => 0,
            ProximityEdge::Warning => 1,
            ProximityEdge::Danger => 2,
            ProximityEdge::CriticalEdge => 3,
        }
    }

    /// The proximity a field value denotes.
    pub fn from_bits(v: u8) -> (r: ProximityEdge)
        ensures r == Self::spec_from_bits(v),
    {
        if v == 0 { ProximityEdge::Safe }
        else if v == 1 { ProximityEdge::Warning }
        else if v == 2 { ProximityEdge::Danger }
        else { ProximityEdge::CriticalEdge }
    }

    /// The field value of this proximity.
    pub fn bits(self) -> (b: u8)
        ensures b == self.spec_bits(),
    {
        match self {
            ProximityEdge::Safe => 0,
            ProximityEdge::Warning => 1,
            ProximityEdge::Danger => 2,
            ProximityEdge::CriticalEdge => 3,
        }
    }
}

impl OutputDest {
    /// The destination a field value denotes (1 and above are `External`).
    pub open spec fn spec_from_bits(v: u8) -> OutputDest {
        if v == 0 { OutputDest::Internal } else { OutputDest::External }
    }

    /// The field value of a destination.
    pub open spec fn spec_bits(self) -> u8 {
        match self {
            OutputDest::Internal => 0,
            OutputDest::External => 1,
        }
    }

    /// The destination a field value denotes.
    pub fn from_bits(v: u8) -> (r: OutputDest)
        ensures r == Self::spec_from_bits(v),
    {
        if v == 0 { OutputDest::Internal } else { OutputDest::External }
    }

    /// The field value of this destination.
    pub fn bits(self) -> (b: u8)
        ensures b == self.spec_bits(),
    {
        match self {
            OutputDest::Internal => 0,
            OutputDest::External => 1,
        }
    }
}

impl OverrideFlag {
    /// The flag a field value denotes (1 and above are `HardOverride`).
    pub open spec fn spec_from_bits(v: u8) -> OverrideFlag {
        if v == 0 { OverrideFlag::Normal } else { OverrideFlag::HardOverride }
    }

    /// The field value of a flag.
    pub open spec fn spec_bits(self) -> u8 {
        match self {
            OverrideFlag::Normal => 0,
            OverrideFlag::HardOverride => 1,
        }
    }

    /// The flag a field value denotes.
    pub fn from_bits(v: u8) -> (r: OverrideFlag)
        ensures r == Self::spec_from_bits(v),
    {
        if v == 0 { OverrideFlag::Normal } else { OverrideFlag::HardOverride }
    }

    /// The field value of this flag.
    pub fn bits(self) -> (b: u8)
        ensures b == self.spec_bits(),
    {
        match self {
            OverrideFlag::Normal => 0,
            OverrideFlag::HardOverride => 1,
        }
    }

    /// The variant name.
    pub open spec fn spec_name(self) -> Seq<char> {
        match self {
            OverrideFlag::Normal => "Normal"@,
            OverrideFlag::HardOverride => "HardOverride"@,
        }
    }

    /// The variant name, as the audit trail records it.
    pub fn name(self) -> (s: &'static str)
        ensures s@ == self.spec_name(),
    {
        match self {
            OverrideFlag::Normal => "Normal",
            OverrideFlag::HardOverride => "HardOverride",
        }
    }
}

impl ReplayEnable {
    /// The setting a field value denotes (1 and above are `Enabled`).
    pub open spec fn spec_from_bits(v: u8) -> ReplayEnable {
        if v == 0 { ReplayEnable::Disabled } else { ReplayEnable::Enabled }
    }

    /// The field value of a setting.
    pub open spec fn spec_bits(self) -> u8 {
        match self {
            ReplayEnable::Disabled => 0,
            ReplayEnable::Enabled => 1,
        }
    }

    /// The setting a field value denotes.
    pub fn from_bits(v: u8) -> (r: ReplayEnable)
        ensures r == Self::spec_from_bits(v),
    {
        if v == 0 { ReplayEnable::Disabled } else { ReplayEnable::Enabled }
    }

    /// The field value of this setting.
    pub fn bits(self) -> (b: u8)
        ensures b == self.spec_bits(),
    {
        match self {
            ReplayEnable::Disabled => 0,
            ReplayEnable::Enabled => 1,
        }
    }
}

impl From<u8> for Modality {
    fn from(value: u8) -> Self {
        Modality::from_bits(value)
    }
}

impl vstd::std_specs::convert::FromSpecImpl<u8> for Modality {
    open spec fn obeys_from_spec() -> bool {
        true
    }

    open spec fn from_spec(v: u8) -> Self {
        Modality::spec_from_bits(v)
    }
}

impl From<u8> for RiskLevel {
    fn from(value: u8) -> Self {
        RiskLevel::from_bits(value)
    }
}

impl vstd::std_specs::convert::FromSpecImpl<u8> for RiskLevel {
    open spec fn obeys_from_spec() -> bool {
        true
    }

    open spec fn from_spec(v: u8) -> Self {
        RiskLevel::spec_from_bits(v)
    }
}

impl From<u8> for BodyStance {
    fn from(value: u8) -> Self {
        BodyStance::from_bits(value)
    }
}

impl vstd::std_specs::convert::FromSpecImpl<u8> for BodyStance {
    open spec fn obeys_from_spec() -> bool {
        true
    }

    open spec fn from_spec(v: u8) -> Self {
        BodyStance::spec_from_bits(v)
    }
}

impl From<u8> for ProximityEdge {
    fn from(value: u8) -> Self {
        ProximityEdge::from_bits(value)
    }
}

impl vstd::std_specs::convert::FromSpecImpl<u8> for ProximityEdge {
    open spec fn obeys_from_spec() -> bool {
        true
    }

    open spec fn from_spec(v: u8) -> Self {
        ProximityEdge::spec_from_bits(v)
    }
}

impl From<u8> for OutputDest {
    fn from(value: u8) -> Self {
        OutputDest::from_bits(value)
    }
}

impl vstd::std_specs::convert::FromSpecImpl<u8> for OutputDest {
    open spec fn obeys_from_spec() -> bool {
        true
    }

    open spec fn from_spec(v: u8) -> Self {
        OutputDest::spec_from_bits(v)
    }
}

impl From<u8> for OverrideFlag {
    fn from(value: u8) -> Self {
        OverrideFlag::from_bits(value)
    }
}

impl vstd::std_specs::convert::FromSpecImpl<u8> for OverrideFlag {
    open spec fn obeys_from_spec() -> bool {
        true
    }

    open spec fn from_spec(v: u8) -> Self {
        OverrideFlag::spec_from_bits(v)
    }
}

impl From<u8> for ReplayEnable {
    fn from(value: u8) -> Self {
        ReplayEnable::from_bits(value)
    }
}

impl vstd::std_specs::convert::FromSpecImpl<u8> for ReplayEnable {
    open spec fn obeys_from_spec() -> bool {
        true
    }

    open spec fn from_spec(v: u8) -> Self {
        ReplayEnable::spec_from_bits(v)
    }
}

// ---------------------------------------------------------------------------
// Field extraction from raw bytes
// ---------------------------------------------------------------------------

/// Modality encoded in byte 2.
pub open spec fn spec_modality(b2: u8) -> Modality {
    Modality::spec_from_bits(b2 & 3u8)
}

/// Risk level encoded in byte 2.
pub open spec fn spec_risk(b2: u8) -> RiskLevel {
    RiskLevel::spec_from_bits((b2 >> 2u8) & 3u8)
}

/// Body stance encoded in byte 2.
pub open spec fn spec_body_stance(b2: u8) -> BodyStance {
    BodyStance::spec_from_bits((b2 >> 4u8) & 3u8)
}

/// Proximity edge encoded in byte 2.
pub open spec fn spec_proximity(b2: u8) -> ProximityEdge {
    ProximityEdge::spec_from_bits((b2 >> 6u8) & 3u8)
}

/// Output destination encoded in byte 3.
pub open spec fn spec_output_dest(b3: u8) -> OutputDest {
    OutputDest::spec_from_bits(b3 & 1u8)
}

/// Override flag encoded in byte 3.
pub open spec fn spec_override(b3: u8) -> OverrideFlag {
    OverrideFlag::spec_from_bits((b3 >> 1u8) & 1u8)
}

/// Replay-enable setting encoded in byte 3.
pub open spec fn spec_replay(b3: u8) -> ReplayEnable {
    ReplayEnable::spec_from_bits((b3 >> 2u8) & 1u8)
}

/// Effective risk level (Rule 6): when replay protection is disabled the
/// risk is forced to `Medium`, whatever the Risk-Level field says.
pub open spec fn spec_effective_risk(b: Seq<u8>) -> RiskLevel {
    match spec_replay(b[3]) {
        ReplayEnable::Enabled => spec_risk(b[2]),
        ReplayEnable::Disabled => RiskLevel::Medium,
    }
}

// ---------------------------------------------------------------------------
// Errors
// ---------------------------------------------------------------------------

/// Tuck error type; every error path of Tuck ends in a rejection.
#[derive(Debug)]
pub enum TuckError {
    /// Invalid family magic (not 0xCF14); carries the big-endian value read.
    InvalidFamilyMagic(u16),
    /// Reserved bits are non-zero; carries the reserved field.
    ReservedBitsNonZero(u8),
    /// Policy error (missing, invalid).
    PolicyError(String),
    /// Audit log write failure.
    AuditError(String),
    /// Credential error.
    CredentialError(String),
}

impl TuckError {
    /// The error's message.
    pub open spec fn spec_text(self) -> Seq<char> {
        match self {
            TuckError::InvalidFamilyMagic(m) => "invalid family magic: 0x"@ + hex_upper_fixed(m as nat, 4)
                + ", expected 0xCF14"@,
            TuckError::ReservedBitsNonZero(v) => "reserved bits non-zero: "@ + decimal(v as nat),
            TuckError::PolicyError(m) => "policy error: "@ + m@,
            TuckError::AuditError(m) => "audit error: "@ + m@,
            TuckError::CredentialError(m) => "credential error: "@ + m@,
        }
    }

    /// The error's message.
    pub fn to_string(&self) -> (s: String)
        ensures
            s@ == self.spec_text(),
    {
        match self {
            TuckError::InvalidFamilyMagic(m) => {
                let mut s = String::from_str("invalid family magic: 0x");
                push_hex_upper_fixed(&mut s, *m as u64, 4);
                s.append(", expected 0xCF14");
                s
            },
            TuckError::ReservedBitsNonZero(v) => {
                let mut s = String::from_str("reserved bits non-zero: ");
                push_decimal(&mut s, *v as u64);
                s
            },
            TuckError::PolicyError(m) => {
                let mut s = String::from_str("policy error: ");
                s.append(m.as_str());
                s
            },
            TuckError::AuditError(m) => {
                let mut s = String::from_str("audit error: ");
                s.append(m.as_str());
                s
            },
            TuckError::CredentialError(m) => {
                let mut s = String::from_str("credential error: ");
                s.append(m.as_str());
                s
            },
        }
    }
}

// ---------------------------------------------------------------------------
// PFP header
// ---------------------------------------------------------------------------

/// Physical Feature Protocol header: 4 bytes, validated on construction.
#[derive(Debug, Clone, Copy, PartialEq, Eq)]
pub struct PfpHeader {
    raw: [u8; 4],
}

impl View for PfpHeader {
    type V = Seq<u8>;

    closed spec fn view(&self) -> Seq<u8> {
        self.raw@
    }
}

impl PfpHeader {
    #[verifier::type_invariant]
    spec fn inv(self) -> bool {
        is_valid_pfp(self.raw@)
    }

    /// Parse a PFP header, checking the family magic first and then the
    /// reserved bits.
    pub fn from_bytes(bytes: [u8; 4]) -> (r: Result<PfpHeader, TuckError>)
        ensures
            r is Ok <==> is_valid_pfp(bytes@),
            r matches Ok(h) ==> h@ == bytes@,
            r matches Err(e) ==> e == pfp_error(bytes@),
            r matches Err(e) ==> match e {
                TuckError::InvalidFamilyMagic(m) => !(bytes[0] == MAGIC_HI && bytes[1] == MAGIC_LO)
                    && m as int == be16(bytes[0], bytes[1]),
                TuckError::ReservedBitsNonZero(v) => bytes[0] == MAGIC_HI && bytes[1] == MAGIC_LO
                    && v == reserved_field(bytes[3]) && v != 0,
                _ => false,
            },
    {
        if !(bytes[0] == MAGIC_HI && bytes[1] == MAGIC_LO) {
            let magic: u16 = (bytes[0] as u16) * 256 + (bytes[1] as u16);
            return Err(TuckError::InvalidFamilyMagic(magic));
        }
        let reserved: u8 = (bytes[3] >> 3u8) & 0x1fu8;
        if reserved != 0 {
            return Err(TuckError::ReservedBitsNonZero(reserved));
        }
        Ok(PfpHeader { raw: bytes })
    }

    /// The raw bytes.
    pub fn as_bytes(&self) -> (b: &[u8; 4])
        ensures
            b@ == self@,
            is_valid_pfp(self@),
    {
        proof {
            use_type_invariant(self);
        }
        &self.raw
    }

    /// Operation modality (bits 0-1 of byte 2).
    pub fn modality(&self) -> (m: Modality)
        ensures
            m == spec_modality(self@[2]),
    {
        Modality::from_bits(self.raw[2] & 3u8)
    }

    /// Risk level (bits 2-3 of byte 2).
    pub fn risk_level(&self) -> (r: RiskLevel)
        ensures
            r == spec_risk(self@[2]),
    {
        RiskLevel::from_bits((self.raw[2] >> 2u8) & 3u8)
    }

    /// Body stance (bits 4-5 of byte 2).
    pub fn body_stance(&self) -> (r: BodyStance)
        ensures
            r == spec_body_stance(self@[2]),
    {
        BodyStance::from_bits((self.raw[2] >> 4u8) & 3u8)
    }

    /// Proximity edge (bits 6-7 of byte 2).
    pub fn proximity_edge(&self) -> (r: ProximityEdge)
        ensures
            r == spec_proximity(self@[2]),
    {
        ProximityEdge::from_bits((self.raw[2] >> 6u8) & 3u8)
    }

    /// Output destination (bit 0 of byte 3).
    pub fn output_dest(&self) -> (r: OutputDest)
        ensures
            r == spec_output_dest(self@[3]),
    {
        OutputDest::from_bits(self.raw[3] & 1u8)
    }

    /// Override flag (bit 1 of byte 3).
    pub fn override_flag(&self) -> (r: OverrideFlag)
        ensures
            r == spec_override(self@[3]),
    {
        OverrideFlag::from_bits((self.raw[3] >> 1u8) & 1u8)
    }

    /// Replay enable (bit 2 of byte 3).
    pub fn replay_enable(&self) -> (r: ReplayEnable)
        ensures
            r == spec_replay(self@[3]),
    {
        ReplayEnable::from_bits((self.raw[3] >> 2u8) & 1u8)
    }

    /// Effective risk level after the Rule 6 downgrade.
    pub fn effective_risk_level(&self) -> (r: RiskLevel)
        ensures
            r == spec_effective_risk(self@),
    {
        match self.replay_enable() {
            ReplayEnable::Enabled => self.risk_level(),
            ReplayEnable::Disabled => RiskLevel::Medium,
        }
    }
}

// ---------------------------------------------------------------------------
// Decision and policy
// ---------------------------------------------------------------------------

/// Outcome of the hard real-time decision.
#[derive(Debug, Clone, Copy, PartialEq, Eq, Structural)]
pub enum Decision {
    /// The frame continues.
    Pass,
    /// The frame is dropped.
    Reject,
    /// The frame waits for a human; confirmed passes, timeout rejects.
    NeedHumanConfirm,
    /// Catastrophic risk with hard override: unconditional pass.
    HardOverridePass,
}

impl Decision {
    /// The variant name.
    pub open spec fn spec_name(self) -> Seq<char> {
        match self {
            Decision::Pass => "Pass"@,
            Decision::Reject => "Reject"@,
            Decision::NeedHumanConfirm => "NeedHumanConfirm"@,
            Decision::HardOverridePass => "HardOverridePass"@,
        }
    }

    /// The variant name, as the audit trail records it.
    pub fn name(self) -> (s: &'static str)
        ensures s@ == self.spec_name(),
    {
        match self {
            Decision::Pass => "Pass",
            Decision::Reject => "Reject",
            Decision::NeedHumanConfirm => "NeedHumanConfirm",
            Decision::HardOverridePass => "HardOverridePass",
        }
    }
}

/// Security policy: the decision for each risk level.
#[derive(Debug, Clone, Copy, PartialEq, Eq, Structural)]
pub struct SecurityPolicy {
    /// Decision for LOW risk.
    pub low: Decision,
    /// Decision for MEDIUM risk.
    pub medium: Decision,
    /// Decision for CRITICAL risk.
    pub critical: Decision,
    /// Decision for CATASTROPHIC risk without override.
    pub catastrophic: Decision,
    /// Decision for CATASTROPHIC risk with hard override.
    pub catastrophic_override: Decision,
    /// Whether external output needs an additional check.
    pub external_additional_check: bool,
}

impl SecurityPolicy {
    /// The default policy: LOW and MEDIUM pass, CRITICAL waits for a human,
    /// CATASTROPHIC is rejected unless hard-overridden.
    pub open spec fn spec_default() -> SecurityPolicy {
        SecurityPolicy {
            low: Decision::Pass,
            medium: Decision::Pass,
            critical: Decision::NeedHumanConfirm,
            catastrophic: Decision::Reject,
            catastrophic_override: Decision::HardOverridePass,
            external_additional_check: true,
        }
    }
}

impl Default for SecurityPolicy {
    fn default() -> (p: Self)
        ensures
            p == SecurityPolicy::spec_default(),
    {
        SecurityPolicy {
            low: Decision::Pass,
            medium: Decision::Pass,
            critical: Decision::NeedHumanConfirm,
            catastrophic: Decision::Reject,
            catastrophic_override: Decision::HardOverridePass,
            external_additional_check: true,
        }
    }
}

/// The decision a policy takes for a valid header's bytes.
pub open spec fn spec_decide(b: Seq<u8>, p: SecurityPolicy) -> Decision {
    let eff = spec_effective_risk(b);
    if eff == RiskLevel::Catastrophic && spec_override(b[3]) == OverrideFlag::HardOverride {
        p.catastrophic_override
    } else {
        match eff {
            RiskLevel::Low => p.low,
            RiskLevel::Medium => p.medium,
            RiskLevel::Critical => p.critical,
            RiskLevel::Catastrophic => p.catastrophic,
        }
    }
}

/// The decision for raw bytes: the first four bytes decide when they form a
/// valid header; anything else is rejected.
pub open spec fn spec_decide_bytes(b: Seq<u8>, p: SecurityPolicy) -> Decision {
    if b.len() >= 4 && is_valid_pfp(b.subrange(0, 4)) {
        spec_decide(b.subrange(0, 4), p)
    } else {
        Decision::Reject
    }
}

/// Decide on a header under a policy (no allocation, no locking).
pub fn decide(pfp: &PfpHeader, policy: &SecurityPolicy) -> (d: Decision)
    ensures
        d == spec_decide(pfp@, *policy),
{
    let effective_risk = pfp.effective_risk_level();
    let hard = match pfp.override_flag() {
        OverrideFlag::HardOverride => true,
        OverrideFlag::Normal => false,
    };
    match effective_risk {
        RiskLevel::Low => policy.low,
        RiskLevel::Medium => policy.medium,
        RiskLevel::Critical => policy.critical,
        RiskLevel::Catastrophic => if hard { policy.catastrophic_override } else { policy.catastrophic },
    }
}

/// Decide from raw bytes; fail-closed on short or invalid input.
pub fn decide_from_bytes(bytes: &[u8], policy: &SecurityPolicy) -> (d: Decision)
    ensures
        d == spec_decide_bytes(bytes@, *policy),
{
    if bytes.len() < 4 {
        return Decision::Reject;
    }
    let arr: [u8; 4] = [bytes[0], bytes[1], bytes[2], bytes[3]];
    assert(arr@ =~= bytes@.subrange(0, 4));
    match PfpHeader::from_bytes(arr) {
        Ok(pfp) => decide(&pfp, policy),
        Err(_) => Decision::Reject,
    }
}

// ---------------------------------------------------------------------------
// Laws
// ---------------------------------------------------------------------------

/// Fail-closed: any input that is shorter than four bytes or whose first four
/// bytes are not a valid PFP header is rejected, under every policy.
pub proof fn law_fail_closed(b: Seq<u8>, p: SecurityPolicy)
    requires
        !(b.len() >= 4 && is_valid_pfp(b.subrange(0, 4))),
    ensures
        spec_decide_bytes(b, p) == Decision::Reject,
{
}

/// Rule 6: with replay protection disabled, the effective risk is MEDIUM and
/// the decision is the policy's MEDIUM decision, whatever the Risk-Level and
/// the Override-Flag say.
pub proof fn law_replay_disabled_is_medium(b: Seq<u8>, p: SecurityPolicy)
    requires
        is_valid_pfp(b),
        spec_replay(b[3]) == ReplayEnable::Disabled,
    ensures
        spec_effective_risk(b) == RiskLevel::Medium,
        spec_decide(b, p) == p.medium,
{
}

/// The hard override is honoured exactly when the effective risk is
/// CATASTROPHIC and the Override-Flag is set: then the policy's override
/// decision is taken.
pub proof fn law_hard_override(b: Seq<u8>, p: SecurityPolicy)
    requires
        is_valid_pfp(b),
        spec_effective_risk(b) == RiskLevel::Catastrophic,
        spec_override(b[3]) == OverrideFlag::HardOverride,
    ensures
        spec_decide(b, p) == p.catastrophic_override,
{
}

/// Under the default policy no header passes unconfirmed at CRITICAL or
/// CATASTROPHIC effective risk unless it is hard-overridden: CRITICAL needs a
/// human, CATASTROPHIC without override is rejected, and CATASTROPHIC with
/// override is a hard-override pass.
pub proof fn law_default_policy_table(b: Seq<u8>)
    requires
        is_valid_pfp(b),
    ensures
        spec_effective_risk(b) == RiskLevel::Low ==> spec_decide(b, SecurityPolicy::spec_default()) == Decision::Pass,
        spec_effective_risk(b) == RiskLevel::Medium ==> spec_decide(b, SecurityPolicy::spec_default()) == Decision::Pass,
        spec_effective_risk(b) == RiskLevel::Critical ==> spec_decide(b, SecurityPolicy::spec_default()) == Decision::NeedHumanConfirm,
        spec_effective_risk(b) == RiskLevel::Catastrophic && spec_override(b[3]) == OverrideFlag::Normal
            ==> spec_decide(b, SecurityPolicy::spec_default()) == Decision::Reject,
        spec_effective_risk(b) == RiskLevel::Catastrophic && spec_override(b[3]) == OverrideFlag::HardOverride
            ==> spec_decide(b, SecurityPolicy::spec_default()) == Decision::HardOverridePass,
{
}

/// Bytes after the fourth never change a decision.
pub proof fn law_trailing_bytes_ignored(b: Seq<u8>, extra: Seq<u8>, p: SecurityPolicy)
    requires
        b.len() == 4,
    ensures
        spec_decide_bytes(b + extra, p) == spec_decide_bytes(b, p),
{
    assert((b + extra).subrange(0, 4) =~= b);
    assert(b.subrange(0, 4) =~= b);
}

} // verus!
