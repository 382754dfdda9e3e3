//! Closed string-backed enumeration sets.
//!
//! Each enumeration declares its closed set of wire tags once. Encoding a
//! variant always yields its declared tag; decoding matches the received
//! string against the declared tags exactly — no case folding, no trimming —
//! and yields `None` on anything else.

use vstd::prelude::*;

use crate::json::str_eq;

verus! {

/// Status of an authorization request.
#[derive(Clone, Copy, Debug, PartialEq, Eq, Structural)]
pub enum AuthorizationStatusEnumType {
    Accepted,
    Blocked,
    ConcurrentTx,
    Expired,
    Invalid,
    NoCredit,
    NotAllowedTypeEVSE,
    NotAtThisLocation,
    NotAtThisTime,
    Unknown,
}

impl Default for AuthorizationStatusEnumType {
    /// Default variant for default-constructed records.
    fn default() -> (r: Self)
        ensures
            r == AuthorizationStatusEnumType::Accepted,
    {
        AuthorizationStatusEnumType::Accepted
    }
}

impl AuthorizationStatusEnumType {
    /// The exact wire tag of each variant.
    pub open spec fn spec_tag(self) -> Seq<char> {
        match self {
            Self::Accepted => "Accepted"@,
            Self::Blocked => "Blocked"@,
            Self::ConcurrentTx => "ConcurrentTx"@,
            Self::Expired => "Expired"@,
            Self::Invalid => "Invalid"@,
            Self::NoCredit => "NoCredit"@,
            Self::NotAllowedTypeEVSE => "NotAllowedTypeEVSE"@,
            Self::NotAtThisLocation => "NotAtThisLocation"@,
            Self::NotAtThisTime => "NotAtThisTime"@,
            Self::Unknown => "Unknown"@,
        }
    }

    /// The variant carrying a tag, if the tag is in the declared set.
    pub open spec fn spec_of_tag(s: Seq<char>) -> Option<Self> {
        if s == "Accepted"@ {
            Some(Self::Accepted)
        } else if s == "Blocked"@ {
            Some(Self::Blocked)
        } else if s == "ConcurrentTx"@ {
            Some(Self::ConcurrentTx)
        } else if s == "Expired"@ {
            Some(Self::Expired)
        } else if s == "Invalid"@ {
            Some(Self::Invalid)
        } else if s == "NoCredit"@ {
            Some(Self::NoCredit)
        } else if s == "NotAllowedTypeEVSE"@ {
            Some(Self::NotAllowedTypeEVSE)
        } else if s == "NotAtThisLocation"@ {
            Some(Self::NotAtThisLocation)
        } else if s == "NotAtThisTime"@ {
            Some(Self::NotAtThisTime)
        } else if s == "Unknown"@ {
            Some(Self::Unknown)
        } else {
            None
        }
    }

    /// Encode: the declared tag, a total injective mapping.
    pub fn tag(self) -> (r: &'static str)
        ensures
            r@ == self.spec_tag(),
    {
        match self {
            Self::Accepted => "Accepted",
            Self::Blocked => "Blocked",
            Self::ConcurrentTx => "ConcurrentTx",
            Self::Expired => "Expired",
            Self::Invalid => "Invalid",
            Self::NoCredit => "NoCredit",
            Self::NotAllowedTypeEVSE => "NotAllowedTypeEVSE",
            Self::NotAtThisLocation => "NotAtThisLocation",
            Self::NotAtThisTime => "NotAtThisTime",
            Self::Unknown => "Unknown",
        }
    }

    /// Decode: exact match against the declared set, `None` on anything else.
    pub fn from_tag(s: &str) -> (r: Option<Self>)
        ensures
            r == Self::spec_of_tag(s@),
    {
        if str_eq(s, "Accepted") {
            Some(Self::Accepted)
        } else if str_eq(s, "Blocked") {
            Some(Self::Blocked)
        } else if str_eq(s, "ConcurrentTx") {
            Some(Self::ConcurrentTx)
        } else if str_eq(s, "Expired") {
            Some(Self::Expired)
        } else if str_eq(s, "Invalid") {
            Some(Self::Invalid)
        } else if str_eq(s, "NoCredit") {
            Some(Self::NoCredit)
        } else if str_eq(s, "NotAllowedTypeEVSE") {
            Some(Self::NotAllowedTypeEVSE)
        } else if str_eq(s, "NotAtThisLocation") {
            Some(Self::NotAtThisLocation)
        } else if str_eq(s, "NotAtThisTime") {
            Some(Self::NotAtThisTime)
        } else if str_eq(s, "Unknown") {
            Some(Self::Unknown)
        } else {
            None
        }
    }
}

/// Decoding the tag an encode produced yields the encoded variant back:
/// the declared tags are pairwise distinct, so the mapping is injective.
pub proof fn lemma_authorization_status_round_trip(v: AuthorizationStatusEnumType)
    ensures
        AuthorizationStatusEnumType::spec_of_tag(v.spec_tag()) == Some(v),
{
    reveal_strlit("Accepted");
    reveal_strlit("Blocked");
    reveal_strlit("ConcurrentTx");
    reveal_strlit("Expired");
    reveal_strlit("Invalid");
    reveal_strlit("NoCredit");
    reveal_strlit("NotAllowedTypeEVSE");
    reveal_strlit("NotAtThisLocation");
    reveal_strlit("NotAtThisTime");
    reveal_strlit("Unknown");
    assert("Accepted"@.len() == 8 && "Accepted"@[0] == 'A');
    assert("Blocked"@.len() == 7 && "Blocked"@[0] == 'B');
    assert("ConcurrentTx"@.len() == 12 && "ConcurrentTx"@[0] == 'C');
    assert("Expired"@.len() == 7 && "Expired"@[0] == 'E');
    assert("Invalid"@.len() == 7 && "Invalid"@[0] == 'I');
    assert("NoCredit"@.len() == 8 && "NoCredit"@[0] == 'N');
    assert("NotAllowedTypeEVSE"@.len() == 18 && "NotAllowedTypeEVSE"@[0] == 'N');
    assert("NotAtThisLocation"@.len() == 17 && "NotAtThisLocation"@[0] == 'N');
    assert("NotAtThisTime"@.len() == 13 && "NotAtThisTime"@[0] == 'N');
    assert("Unknown"@.len() == 7 && "Unknown"@[0] == 'U');
    match v {
        AuthorizationStatusEnumType::Accepted => {},
        AuthorizationStatusEnumType::Blocked => {},
        AuthorizationStatusEnumType::ConcurrentTx => {},
        AuthorizationStatusEnumType::Expired => {},
        AuthorizationStatusEnumType::Invalid => {},
        AuthorizationStatusEnumType::NoCredit => {},
        AuthorizationStatusEnumType::NotAllowedTypeEVSE => {},
        AuthorizationStatusEnumType::NotAtThisLocation => {},
        AuthorizationStatusEnumType::NotAtThisTime => {},
        AuthorizationStatusEnumType::Unknown => {},
    }
}

/// Outcome of clearing one variable monitor.
#[derive(Clone, Copy, Debug, PartialEq, Eq, Structural)]
pub enum ClearMonitoringStatusEnumType {
    Accepted,
    Rejected,
    NotFound,
}

impl Default for ClearMonitoringStatusEnumType {
    /// Default variant for default-constructed records.
    fn default() -> (r: Self)
        ensures
            r == ClearMonitoringStatusEnumType::Accepted,
    {
        ClearMonitoringStatusEnumType::Accepted
    }
}

impl ClearMonitoringStatusEnumType {
    /// The exact wire tag of each variant.
    pub open spec fn spec_tag(self) -> Seq<char> {
        match self {
            Self::Accepted => "Accepted"@,
            Self::Rejected => "Rejected"@,
            Self::NotFound => "NotFound"@,
        }
    }

    /// The variant carrying a tag, if the tag is in the declared set.
    pub open spec fn spec_of_tag(s: Seq<char>) -> Option<Self> {
        if s == "Accepted"@ {
            Some(Self::Accepted)
        } else if s == "Rejected"@ {
            Some(Self::Rejected)
        } else if s == "NotFound"@ {
            Some(Self::NotFound)
        } else {
            None
        }
    }

    /// Encode: the declared tag, a total injective mapping.
    pub fn tag(self) -> (r: &'static str)
        ensures
            r@ == self.spec_tag(),
    {
        match self {
            Self::Accepted => "Accepted",
            Self::Rejected => "Rejected",
            Self::NotFound => "NotFound",
        }
    }

    /// Decode: exact match against the declared set, `None` on anything else.
    pub fn from_tag(s: &str) -> (r: Option<Self>)
        ensures
            r == Self::spec_of_tag(s@),
    {
        if str_eq(s, "Accepted") {
            Some(Self::Accepted)
        } else if str_eq(s, "Rejected") {
            Some(Self::Rejected)
        } else if str_eq(s, "NotFound") {
            Some(Self::NotFound)
        } else {
            None
        }
    }
}

/// Decoding the tag an encode produced yields the encoded variant back.
pub proof fn lemma_clear_monitoring_status_round_trip(v: ClearMonitoringStatusEnumType)
    ensures
        ClearMonitoringStatusEnumType::spec_of_tag(v.spec_tag()) == Some(v),
{
    reveal_strlit("Accepted");
    reveal_strlit("Rejected");
    reveal_strlit("NotFound");
    assert("Accepted"@.len() == 8 && "Accepted"@[0] == 'A');
    assert("Rejected"@.len() == 8 && "Rejected"@[0] == 'R');
    assert("NotFound"@.len() == 8 && "NotFound"@[0] == 'N');
    match v {
        ClearMonitoringStatusEnumType::Accepted => {},
        ClearMonitoringStatusEnumType::Rejected => {},
        ClearMonitoringStatusEnumType::NotFound => {},
    }
}

/// Kind of a transaction event notice.
#[derive(Clone, Copy, Debug, PartialEq, Eq, Structural)]
pub enum TransactionEventEnumType {
    Ended,
    Started,
    Updated,
}

impl Default for TransactionEventEnumType {
    /// Default variant for default-constructed records.
    fn default() -> (r: Self)
        ensures
            r == TransactionEventEnumType::Ended,
    {
        TransactionEventEnumType::Ended
    }
}

impl TransactionEventEnumType {
    /// The exact wire tag of each variant.
    pub open spec fn spec_tag(self) -> Seq<char> {
        match self {
            Self::Ended => "Ended"@,
            Self::Started => "Started"@,
            Self::Updated => "Updated"@,
        }
    }

    /// The variant carrying a tag, if the tag is in the declared set.
    pub open spec fn spec_of_tag(s: Seq<char>) -> Option<Self> {
        if s == "Ended"@ {
            Some(Self::Ended)
        } else if s == "Started"@ {
            Some(Self::Started)
        } else if s == "Updated"@ {
            Some(Self::Updated)
        } else {
            None
        }
    }

    /// Encode: the declared tag, a total injective mapping.
    pub fn tag(self) -> (r: &'static str)
        ensures
            r@ == self.spec_tag(),
    {
        match self {
            Self::Ended => "Ended",
            Self::Started => "Started",
            Self::Updated => "Updated",
        }
    }

    /// Decode: exact match against the declared set, `None` on anything else.
    pub fn from_tag(s: &str) -> (r: Option<Self>)
        ensures
            r == Self::spec_of_tag(s@),
    {
        if str_eq(s, "Ended") {
            Some(Self::Ended)
        } else if str_eq(s, "Started") {
            Some(Self::Started)
        } else if str_eq(s, "Updated") {
            Some(Self::Updated)
        } else {
            None
        }
    }
}

/// Decoding the tag an encode produced yields the encoded variant back.
pub proof fn lemma_transaction_event_round_trip(v: TransactionEventEnumType)
    ensures
        TransactionEventEnumType::spec_of_tag(v.spec_tag()) == Some(v),
{
    reveal_strlit("Ended");
    reveal_strlit("Started");
    reveal_strlit("Updated");
    assert("Ended"@.len() == 5 && "Ended"@[0] == 'E');
    assert("Started"@.len() == 7 && "Started"@[0] == 'S');
    assert("Updated"@.len() == 7 && "Updated"@[0] == 'U');
    match v {
        TransactionEventEnumType::Ended => {},
        TransactionEventEnumType::Started => {},
        TransactionEventEnumType::Updated => {},
    }
}

/// Mode of energy transfer requested by the EV.
#[derive(Clone, Copy, Debug, PartialEq, Eq, Structural)]
pub enum EnergyTransferModeEnumType {
    DC,
    ACSinglePhase,
    ACTwoPhase,
    ACThreePhase,
}

impl Default for EnergyTransferModeEnumType {
    /// Default variant for default-constructed records.
    fn default() -> (r: Self)
        ensures
            r == EnergyTransferModeEnumType::DC,
    {
        EnergyTransferModeEnumType::DC
    }
}

impl EnergyTransferModeEnumType {
    /// The exact wire tag of each variant.
    pub open spec fn spec_tag(self) -> Seq<char> {
        match self {
            Self::DC => "DC"@,
            Self::ACSinglePhase => "AC_single_phase"@,
            Self::ACTwoPhase => "AC_two_phase"@,
            Self::ACThreePhase => "AC_three_phase"@,
        }
    }

    /// The variant carrying a tag, if the tag is in the declared set.
    pub open spec fn spec_of_tag(s: Seq<char>) -> Option<Self> {
        if s == "DC"@ {
            Some(Self::DC)
        } else if s == "AC_single_phase"@ {
            Some(Self::ACSinglePhase)
        } else if s == "AC_two_phase"@ {
            Some(Self::ACTwoPhase)
        } else if s == "AC_three_phase"@ {
            Some(Self::ACThreePhase)
        } else {
            None
        }
    }

    /// Encode: the declared tag, a total injective mapping.
    pub fn tag(self) -> (r: &'static str)
        ensures
            r@ == self.spec_tag(),
    {
        match self {
            Self::DC => "DC",
            Self::ACSinglePhase => "AC_single_phase",
            Self::ACTwoPhase => "AC_two_phase",
            Self::ACThreePhase => "AC_three_phase",
        }
    }

    /// Decode: exact match against the declared set, `None` on anything else.
    pub fn from_tag(s: &str) -> (r: Option<Self>)
        ensures
            r == Self::spec_of_tag(s@),
    {
        if str_eq(s, "DC") {
            Some(Self::DC)
        } else if str_eq(s, "AC_single_phase") {
            Some(Self::ACSinglePhase)
        } else if str_eq(s, "AC_two_phase") {
            Some(Self::ACTwoPhase)
        } else if str_eq(s, "AC_three_phase") {
            Some(Self::ACThreePhase)
        } else {
            None
        }
    }
}

/// Decoding the tag an encode produced yields the encoded variant back.
pub proof fn lemma_energy_transfer_mode_round_trip(v: EnergyTransferModeEnumType)
    ensures
        EnergyTransferModeEnumType::spec_of_tag(v.spec_tag()) == Some(v),
{
    reveal_strlit("DC");
    reveal_strlit("AC_single_phase");
    reveal_strlit("AC_two_phase");
    reveal_strlit("AC_three_phase");
    assert("DC"@.len() == 2 && "DC"@[0] == 'D');
    assert("AC_single_phase"@.len() == 15 && "AC_single_phase"@[0] == 'A');
    assert("AC_two_phase"@.len() == 12 && "AC_two_phase"@[0] == 'A');
    assert("AC_three_phase"@.len() == 14 && "AC_three_phase"@[0] == 'A');
    match v {
        EnergyTransferModeEnumType::DC => {},
        EnergyTransferModeEnumType::ACSinglePhase => {},
        EnergyTransferModeEnumType::ACTwoPhase => {},
        EnergyTransferModeEnumType::ACThreePhase => {},
    }
}

/// Kind of credential an identity token carries.
#[derive(Clone, Copy, Debug, PartialEq, Eq, Structural)]
pub enum IdTokenEnumType {
    Central,
    EMaid,
    ISO14443,
    ISO15693,
    KeyCode,
    Local,
    MacAddress,
    NoAuthorization,
}

impl Default for IdTokenEnumType {
    /// Default variant for default-constructed records.
    fn default() -> (r: Self)
        ensures
            r == IdTokenEnumType::Central,
    {
        IdTokenEnumType::Central
    }
}

impl IdTokenEnumType {
    /// The exact wire tag of each variant.
    pub open spec fn spec_tag(self) -> Seq<char> {
        match self {
            Self::Central => "Central"@,
            Self::EMaid => "eMAID"@,
            Self::ISO14443 => "ISO14443"@,
            Self::ISO15693 => "ISO15693"@,
            Self::KeyCode => "KeyCode"@,
            Self::Local => "Local"@,
            Self::MacAddress => "MacAddress"@,
            Self::NoAuthorization => "NoAuthorization"@,
        }
    }

    /// The variant carrying a tag, if the tag is in the declared set.
    pub open spec fn spec_of_tag(s: Seq<char>) -> Option<Self> {
        if s == "Central"@ {
            Some(Self::Central)
        } else if s == "eMAID"@ {
            Some(Self::EMaid)
        } else if s == "ISO14443"@ {
            Some(Self::ISO14443)
        } else if s == "ISO15693"@ {
            Some(Self::ISO15693)
        } else if s == "KeyCode"@ {
            Some(Self::KeyCode)
        } else if s == "Local"@ {
            Some(Self::Local)
        } else if s == "MacAddress"@ {
            Some(Self::MacAddress)
        } else if s == "NoAuthorization"@ {
            Some(Self::NoAuthorization)
        } else {
            None
        }
    }

    /// Encode: the declared tag, a total injective mapping.
    pub fn tag(self) -> (r: &'static str)
        ensures
            r@ == self.spec_tag(),
    {
        match self {
            Self::Central => "Central",
            Self::EMaid => "eMAID",
            Self::ISO14443 => "ISO14443",
            Self::ISO15693 => "ISO15693",
            Self::KeyCode => "KeyCode",
            Self::Local => "Local",
            Self::MacAddress => "MacAddress",
            Self::NoAuthorization => "NoAuthorization",
        }
    }

    /// Decode: exact match against the declared set, `None` on anything else.
    pub fn from_tag(s: &str) -> (r: Option<Self>)
        ensures
            r == Self::spec_of_tag(s@),
    {
        if str_eq(s, "Central") {
            Some(Self::Central)
        } else if str_eq(s, "eMAID") {
            Some(Self::EMaid)
        } else if str_eq(s, "ISO14443") {
            Some(Self::ISO14443)
        } else if str_eq(s, "ISO15693") {
            Some(Self::ISO15693)
        } else if str_eq(s, "KeyCode") {
            Some(Self::KeyCode)
        } else if str_eq(s, "Local") {
            Some(Self::Local)
        } else if str_eq(s, "MacAddress") {
            Some(Self::MacAddress)
        } else if str_eq(s, "NoAuthorization") {
            Some(Self::NoAuthorization)
        } else {
            None
        }
    }
}

/// Decoding the tag an encode produced yields the encoded variant back.
pub proof fn lemma_id_token_kind_round_trip(v: IdTokenEnumType)
    ensures
        IdTokenEnumType::spec_of_tag(v.spec_tag()) == Some(v),
{
    reveal_strlit("Central");
    reveal_strlit("eMAID");
    reveal_strlit("ISO14443");
    reveal_strlit("ISO15693");
    reveal_strlit("KeyCode");
    reveal_strlit("Local");
    reveal_strlit("MacAddress");
    reveal_strlit("NoAuthorization");
    assert("Central"@.len() == 7 && "Central"@[0] == 'C');
    assert("eMAID"@.len() == 5 && "eMAID"@[0] == 'e');
    assert("ISO14443"@.len() == 8 && "ISO14443"@[0] == 'I' && "ISO14443"@[4] == '4');
    assert("ISO15693"@.len() == 8 && "ISO15693"@[0] == 'I' && "ISO15693"@[4] == '5');
    assert("KeyCode"@.len() == 7 && "KeyCode"@[0] == 'K');
    assert("Local"@.len() == 5 && "Local"@[0] == 'L');
    assert("MacAddress"@.len() == 10 && "MacAddress"@[0] == 'M');
    assert("NoAuthorization"@.len() == 15 && "NoAuthorization"@[0] == 'N');
    match v {
        IdTokenEnumType::Central => {},
        IdTokenEnumType::EMaid => {},
        IdTokenEnumType::ISO14443 => {},
        IdTokenEnumType::ISO15693 => {},
        IdTokenEnumType::KeyCode => {},
        IdTokenEnumType::Local => {},
        IdTokenEnumType::MacAddress => {},
        IdTokenEnumType::NoAuthorization => {},
    }
}

/// Format of a personal message's content.
#[derive(Clone, Copy, Debug, PartialEq, Eq, Structural)]
pub enum MessageFormatEnumType {
    ASCII,
    HTML,
    URI,
    UTF8,
}

impl Default for MessageFormatEnumType {
    /// Default variant for default-constructed records.
    fn default() -> (r: Self)
        ensures
            r == MessageFormatEnumType::ASCII,
    {
        MessageFormatEnumType::ASCII
    }
}

impl MessageFormatEnumType {
    /// The exact wire tag of each variant.
    pub open spec fn spec_tag(self) -> Seq<char> {
        match self {
            Self::ASCII => "ASCII"@,
            Self::HTML => "HTML"@,
            Self::URI => "URI"@,
            Self::UTF8 => "UTF8"@,
        }
    }

    /// The variant carrying a tag, if the tag is in the declared set.
    pub open spec fn spec_of_tag(s: Seq<char>) -> Option<Self> {
        if s == "ASCII"@ {
            Some(Self::ASCII)
        } else if s == "HTML"@ {
            Some(Self::HTML)
        } else if s == "URI"@ {
            Some(Self::URI)
        } else if s == "UTF8"@ {
            Some(Self::UTF8)
        } else {
            None
        }
    }

    /// Encode: the declared tag, a total injective mapping.
    pub fn tag(self) -> (r: &'static str)
        ensures
            r@ == self.spec_tag(),
    {
        match self {
            Self::ASCII => "ASCII",
            Self::HTML => "HTML",
            Self::URI => "URI",
            Self::UTF8 => "UTF8",
        }
    }

    /// Decode: exact match against the declared set, `None` on anything else.
    pub fn from_tag(s: &str) -> (r: Option<Self>)
        ensures
            r == Self::spec_of_tag(s@),
    {
        if str_eq(s, "ASCII") {
            Some(Self::ASCII)
        } else if str_eq(s, "HTML") {
            Some(Self::HTML)
        } else if str_eq(s, "URI") {
            Some(Self::URI)
        } else if str_eq(s, "UTF8") {
            Some(Self::UTF8)
        } else {
            None
        }
    }
}

/// Decoding the tag an encode produced yields the encoded variant back.
pub proof fn lemma_message_format_round_trip(v: MessageFormatEnumType)
    ensures
        MessageFormatEnumType::spec_of_tag(v.spec_tag()) == Some(v),
{
    reveal_strlit("ASCII");
    reveal_strlit("HTML");
    reveal_strlit("URI");
    reveal_strlit("UTF8");
    assert("ASCII"@.len() == 5 && "ASCII"@[0] == 'A');
    assert("HTML"@.len() == 4 && "HTML"@[0] == 'H');
    assert("URI"@.len() == 3 && "URI"@[0] == 'U');
    assert("UTF8"@.len() == 4 && "UTF8"@[0] == 'U');
    match v {
        MessageFormatEnumType::ASCII => {},
        MessageFormatEnumType::HTML => {},
        MessageFormatEnumType::URI => {},
        MessageFormatEnumType::UTF8 => {},
    }
}

/// Why a transaction event was sent.
#[derive(Clone, Copy, Debug, PartialEq, Eq, Structural)]
pub enum TriggerReasonEnumType {
    Authorized,
    CablePluggedIn,
    ChargingRateChanged,
    ChargingStateChanged,
    Deauthorized,
    EnergyLimitReached,
    EVCommunicationLost,
    EVConnectTimeout,
    MeterValueClock,
    MeterValuePeriodic,
    TimeLimitReached,
    Trigger,
    UnlockCommand,
    StopAuthorized,
    EVDeparted,
    EVDetected,
    RemoteStop,
    RemoteStart,
    AbnormalCondition,
    SignedDataReceived,
    ResetCommand,
}

impl Default for TriggerReasonEnumType {
    /// Default variant for default-constructed records.
    fn default() -> (r: Self)
        ensures
            r == TriggerReasonEnumType::Authorized,
    {
        TriggerReasonEnumType::Authorized
    }
}

impl TriggerReasonEnumType {
    /// The exact wire tag of each variant.
    pub open spec fn spec_tag(self) -> Seq<char> {
        match self {
            Self::Authorized => "Authorized"@,
            Self::CablePluggedIn => "CablePluggedIn"@,
            Self::ChargingRateChanged => "ChargingRateChanged"@,
            Self::ChargingStateChanged => "ChargingStateChanged"@,
            Self::Deauthorized => "Deauthorized"@,
            Self::EnergyLimitReached => "EnergyLimitReached"@,
            Self::EVCommunicationLost => "EVCommunicationLost"@,
            Self::EVConnectTimeout => "EVConnectTimeout"@,
            Self::MeterValueClock => "MeterValueClock"@,
            Self::MeterValuePeriodic => "MeterValuePeriodic"@,
            Self::TimeLimitReached => "TimeLimitReached"@,
            Self::Trigger => "Trigger"@,
            Self::UnlockCommand => "UnlockCommand"@,
            Self::StopAuthorized => "StopAuthorized"@,
            Self::EVDeparted => "EVDeparted"@,
            Self::EVDetected => "EVDetected"@,
            Self::RemoteStop => "RemoteStop"@,
            Self::RemoteStart => "RemoteStart"@,
            Self::AbnormalCondition => "AbnormalCondition"@,
            Self::SignedDataReceived => "SignedDataReceived"@,
            Self::ResetCommand => "ResetCommand"@,
        }
    }

    /// The variant carrying a tag, if the tag is in the declared set.
    pub open spec fn spec_of_tag(s: Seq<char>) -> Option<Self> {
        if s == "Authorized"@ {
            Some(Self::Authorized)
        } else if s == "CablePluggedIn"@ {
            Some(Self::CablePluggedIn)
        } else if s == "ChargingRateChanged"@ {
            Some(Self::ChargingRateChanged)
        } else if s == "ChargingStateChanged"@ {
            Some(Self::ChargingStateChanged)
        } else if s == "Deauthorized"@ {
            Some(Self::Deauthorized)
        } else if s == "EnergyLimitReached"@ {
            Some(Self::EnergyLimitReached)
        } else if s == "EVCommunicationLost"@ {
            Some(Self::EVCommunicationLost)
        } else if s == "EVConnectTimeout"@ {
            Some(Self::EVConnectTimeout)
        } else if s == "MeterValueClock"@ {
            Some(Self::MeterValueClock)
        } else if s == "MeterValuePeriodic"@ {
            Some(Self::MeterValuePeriodic)
        } else if s == "TimeLimitReached"@ {
            Some(Self::TimeLimitReached)
        } else if s == "Trigger"@ {
            Some(Self::Trigger)
        } else if s == "UnlockCommand"@ {
            Some(Self::UnlockCommand)
        } else if s == "StopAuthorized"@ {
            Some(Self::StopAuthorized)
        } else if s == "EVDeparted"@ {
            Some(Self::EVDeparted)
        } else if s == "EVDetected"@ {
            Some(Self::EVDetected)
        } else if s == "RemoteStop"@ {
            Some(Self::RemoteStop)
        } else if s == "RemoteStart"@ {
            Some(Self::RemoteStart)
        } else if s == "AbnormalCondition"@ {
            Some(Self::AbnormalCondition)
        } else if s == "SignedDataReceived"@ {
            Some(Self::SignedDataReceived)
        } else if s == "ResetCommand"@ {
            Some(Self::ResetCommand)
        } else {
            None
        }
    }

    /// Encode: the declared tag, a total injective mapping.
    pub fn tag(self) -> (r: &'static str)
        ensures
            r@ == self.spec_tag(),
    {
        match self {
            Self::Authorized => "Authorized",
            Self::CablePluggedIn => "CablePluggedIn",
            Self::ChargingRateChanged => "ChargingRateChanged",
            Self::ChargingStateChanged => "ChargingStateChanged",
            Self::Deauthorized => "Deauthorized",
            Self::EnergyLimitReached => "EnergyLimitReached",
            Self::EVCommunicationLost => "EVCommunicationLost",
            Self::EVConnectTimeout => "EVConnectTimeout",
            Self::MeterValueClock => "MeterValueClock",
            Self::MeterValuePeriodic => "MeterValuePeriodic",
            Self::TimeLimitReached => "TimeLimitReached",
            Self::Trigger => "Trigger",
            Self::UnlockCommand => "UnlockCommand",
            Self::StopAuthorized => "StopAuthorized",
            Self::EVDeparted => "EVDeparted",
            Self::EVDetected => "EVDetected",
            Self::RemoteStop => "RemoteStop",
            Self::RemoteStart => "RemoteStart",
            Self::AbnormalCondition => "AbnormalCondition",
            Self::SignedDataReceived => "SignedDataReceived",
            Self::ResetCommand => "ResetCommand",
        }
    }

    /// Decode: exact match against the declared set, `None` on anything else.
    pub fn from_tag(s: &str) -> (r: Option<Self>)
        ensures
            r == Self::spec_of_tag(s@),
    {
        if str_eq(s, "Authorized") {
            Some(Self::Authorized)
        } else if str_eq(s, "CablePluggedIn") {
            Some(Self::CablePluggedIn)
        } else if str_eq(s, "ChargingRateChanged") {
            Some(Self::ChargingRateChanged)
        } else if str_eq(s, "ChargingStateChanged") {
            Some(Self::ChargingStateChanged)
        } else if str_eq(s, "Deauthorized") {
            Some(Self::Deauthorized)
        } else if str_eq(s, "EnergyLimitReached") {
            Some(Self::EnergyLimitReached)
        } else if str_eq(s, "EVCommunicationLost") {
            Some(Self::EVCommunicationLost)
        } else if str_eq(s, "EVConnectTimeout") {
            Some(Self::EVConnectTimeout)
        } else if str_eq(s, "MeterValueClock") {
            Some(Self::MeterValueClock)
        } else if str_eq(s, "MeterValuePeriodic") {
            Some(Self::MeterValuePeriodic)
        } else if str_eq(s, "TimeLimitReached") {
            Some(Self::TimeLimitReached)
        } else if str_eq(s, "Trigger") {
            Some(Self::Trigger)
        } else if str_eq(s, "UnlockCommand") {
            Some(Self::UnlockCommand)
        } else if str_eq(s, "StopAuthorized") {
            Some(Self::StopAuthorized)
        } else if str_eq(s, "EVDeparted") {
            Some(Self::EVDeparted)
        } else if str_eq(s, "EVDetected") {
            Some(Self::EVDetected)
        } else if str_eq(s, "RemoteStop") {
            Some(Self::RemoteStop)
        } else if str_eq(s, "RemoteStart") {
            Some(Self::RemoteStart)
        } else if str_eq(s, "AbnormalCondition") {
            Some(Self::AbnormalCondition)
        } else if str_eq(s, "SignedDataReceived") {
            Some(Self::SignedDataReceived)
        } else if str_eq(s, "ResetCommand") {
            Some(Self::ResetCommand)
        } else {
            None
        }
    }
}

/// Decoding the tag an encode produced yields the encoded variant back.
pub proof fn lemma_trigger_reason_round_trip(v: TriggerReasonEnumType)
    ensures
        TriggerReasonEnumType::spec_of_tag(v.spec_tag()) == Some(v),
{
    reveal_strlit("Authorized");
    reveal_strlit("CablePluggedIn");
    reveal_strlit("ChargingRateChanged");
    reveal_strlit("ChargingStateChanged");
    reveal_strlit("Deauthorized");
    reveal_strlit("EnergyLimitReached");
    reveal_strlit("EVCommunicationLost");
    reveal_strlit("EVConnectTimeout");
    reveal_strlit("MeterValueClock");
    reveal_strlit("MeterValuePeriodic");
    reveal_strlit("TimeLimitReached");
    reveal_strlit("Trigger");
    reveal_strlit("UnlockCommand");
    reveal_strlit("StopAuthorized");
    reveal_strlit("EVDeparted");
    reveal_strlit("EVDetected");
    reveal_strlit("RemoteStop");
    reveal_strlit("RemoteStart");
    reveal_strlit("AbnormalCondition");
    reveal_strlit("SignedDataReceived");
    reveal_strlit("ResetCommand");
    assert("Authorized"@.len() == 10 && "Authorized"@[0] == 'A');
    assert("CablePluggedIn"@.len() == 14 && "CablePluggedIn"@[0] == 'C');
    assert("ChargingRateChanged"@.len() == 19 && "ChargingRateChanged"@[0] == 'C');
    assert("ChargingStateChanged"@.len() == 20 && "ChargingStateChanged"@[0] == 'C');
    assert("Deauthorized"@.len() == 12 && "Deauthorized"@[0] == 'D');
    assert("EnergyLimitReached"@.len() == 18 && "EnergyLimitReached"@[0] == 'E');
    assert("EVCommunicationLost"@.len() == 19 && "EVCommunicationLost"@[0] == 'E');
    assert("EVConnectTimeout"@.len() == 16 && "EVConnectTimeout"@[0] == 'E');
    assert("MeterValueClock"@.len() == 15 && "MeterValueClock"@[0] == 'M');
    assert("MeterValuePeriodic"@.len() == 18 && "MeterValuePeriodic"@[0] == 'M');
    assert("TimeLimitReached"@.len() == 16 && "TimeLimitReached"@[0] == 'T');
    assert("Trigger"@.len() == 7 && "Trigger"@[0] == 'T');
    assert("UnlockCommand"@.len() == 13 && "UnlockCommand"@[0] == 'U');
    assert("StopAuthorized"@.len() == 14 && "StopAuthorized"@[0] == 'S');
    assert("EVDeparted"@.len() == 10 && "EVDeparted"@[0] == 'E' && "EVDeparted"@[4] == 'p');
    assert("EVDetected"@.len() == 10 && "EVDetected"@[0] == 'E' && "EVDetected"@[4] == 't');
    assert("RemoteStop"@.len() == 10 && "RemoteStop"@[0] == 'R');
    assert("RemoteStart"@.len() == 11 && "RemoteStart"@[0] == 'R');
    assert("AbnormalCondition"@.len() == 17 && "AbnormalCondition"@[0] == 'A');
    assert("SignedDataReceived"@.len() == 18 && "SignedDataReceived"@[0] == 'S');
    assert("ResetCommand"@.len() == 12 && "ResetCommand"@[0] == 'R');
    match v {
        TriggerReasonEnumType::Authorized => {},
        TriggerReasonEnumType::CablePluggedIn => {},
        TriggerReasonEnumType::ChargingRateChanged => {},
        TriggerReasonEnumType::ChargingStateChanged => {},
        TriggerReasonEnumType::Deauthorized => {},
        TriggerReasonEnumType::EnergyLimitReached => {},
        TriggerReasonEnumType::EVCommunicationLost => {},
        TriggerReasonEnumType::EVConnectTimeout => {},
        TriggerReasonEnumType::MeterValueClock => {},
        TriggerReasonEnumType::MeterValuePeriodic => {},
        TriggerReasonEnumType::TimeLimitReached => {},
        TriggerReasonEnumType::Trigger => {},
        TriggerReasonEnumType::UnlockCommand => {},
        TriggerReasonEnumType::StopAuthorized => {},
        TriggerReasonEnumType::EVDeparted => {},
        TriggerReasonEnumType::EVDetected => {},
        TriggerReasonEnumType::RemoteStop => {},
        TriggerReasonEnumType::RemoteStart => {},
        TriggerReasonEnumType::AbnormalCondition => {},
        TriggerReasonEnumType::SignedDataReceived => {},
        TriggerReasonEnumType::ResetCommand => {},
    }
}

} // verus!
