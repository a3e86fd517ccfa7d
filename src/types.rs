use vstd::prelude::*;

verus! {

/// Identifier byte of a control command.
#[derive(Debug, Clone, Copy, PartialEq, Eq, Hash, Structural)]
pub enum ControlCommandIdentifiers {
    MicMode,
    ButtonSendMode,
    VoiceTrigger,
    SingleClickMode,
    DoubleClickMode,
    ClickHoldMode,
    DoubleClickInterval,
    ClickHoldInterval,
    ListeningModeConfigs,
    OneBudAncMode,
    CrownRotationDirection,
    ListeningMode,
    AutoAnswerMode,
    ChimeVolume,
    VolumeSwipeInterval,
    CallManagementConfig,
    VolumeSwipeMode,
    AdaptiveVolumeConfig,
    SoftwareMuteConfig,
    ConversationDetectConfig,
    Ssl,
    HearingAid,
    AutoAncStrength,
    HpsGainSwipe,
    HrmState,
    InCaseToneConfig,
    SiriMultitoneConfig,
    HearingAssistConfig,
    AllowOffOption,
    StemConfig,
    SleepDetectionConfig,
    AllowAutoConnect,
    EarDetectionConfig,
    AutomaticConnectionConfig,
    OwnsConnection,
}

/// The wire byte of each control command identifier.
pub open spec fn control_id_byte(id: ControlCommandIdentifiers) -> u8 {
    match id {
        ControlCommandIdentifiers::MicMode => 0x01,
        ControlCommandIdentifiers::ButtonSendMode => 0x05,
        ControlCommandIdentifiers::VoiceTrigger => 0x12,
        ControlCommandIdentifiers::SingleClickMode => 0x14,
        ControlCommandIdentifiers::DoubleClickMode => 0x15,
        ControlCommandIdentifiers::ClickHoldMode => 0x16,
        ControlCommandIdentifiers::DoubleClickInterval => 0x17,
        ControlCommandIdentifiers::ClickHoldInterval => 0x18,
        ControlCommandIdentifiers::ListeningModeConfigs => 0x1A,
        ControlCommandIdentifiers::OneBudAncMode => 0x1B,
        ControlCommandIdentifiers::CrownRotationDirection => 0x1C,
        ControlCommandIdentifiers::ListeningMode => 0x0D,
        ControlCommandIdentifiers::AutoAnswerMode => 0x1E,
        ControlCommandIdentifiers::ChimeVolume => 0x1F,
        ControlCommandIdentifiers::VolumeSwipeInterval => 0x23,
        ControlCommandIdentifiers::CallManagementConfig => 0x24,
        ControlCommandIdentifiers::VolumeSwipeMode => 0x25,
        ControlCommandIdentifiers::AdaptiveVolumeConfig => 0x26,
        ControlCommandIdentifiers::SoftwareMuteConfig => 0x27,
        ControlCommandIdentifiers::ConversationDetectConfig => 0x28,
        ControlCommandIdentifiers::Ssl => 0x29,
        ControlCommandIdentifiers::HearingAid => 0x2C,
        ControlCommandIdentifiers::AutoAncStrength => 0x2E,
        ControlCommandIdentifiers::HpsGainSwipe => 0x2F,
        ControlCommandIdentifiers::HrmState => 0x30,
        ControlCommandIdentifiers::InCaseToneConfig => 0x31,
        ControlCommandIdentifiers::SiriMultitoneConfig => 0x32,
        ControlCommandIdentifiers::HearingAssistConfig => 0x33,
        ControlCommandIdentifiers::AllowOffOption => 0x34,
        ControlCommandIdentifiers::StemConfig => 0x39,
        ControlCommandIdentifiers::SleepDetectionConfig => 0x35,
        ControlCommandIdentifiers::AllowAutoConnect => 0x36,
        ControlCommandIdentifiers::EarDetectionConfig => 0x0A,
        ControlCommandIdentifiers::AutomaticConnectionConfig => 0x20,
        ControlCommandIdentifiers::OwnsConnection => 0x06,
    }
}

/// A byte names a control command when some identifier has it as its wire byte.
pub open spec fn is_control_id_byte(b: u8) -> bool {
    exists|id: ControlCommandIdentifiers| control_id_byte(id) == b
}

/// The identifier that a wire byte names, if any.
pub open spec fn control_id_of(b: u8) -> Option<ControlCommandIdentifiers> {
    if b == 0x01 {
        Some(ControlCommandIdentifiers::MicMode)
    } else if b == 0x05 {
        Some(ControlCommandIdentifiers::ButtonSendMode)
    } else if b == 0x12 {
        Some(ControlCommandIdentifiers::VoiceTrigger)
    } else if b == 0x14 {
        Some(ControlCommandIdentifiers::SingleClickMode)
    } else if b == 0x15 {
        Some(ControlCommandIdentifiers::DoubleClickMode)
    } else if b == 0x16 {
        Some(ControlCommandIdentifiers::ClickHoldMode)
    } else if b == 0x17 {
        Some(ControlCommandIdentifiers::DoubleClickInterval)
    } else if b == 0x18 {
        Some(ControlCommandIdentifiers::ClickHoldInterval)
    } else if b == 0x1A {
        Some(ControlCommandIdentifiers::ListeningModeConfigs)
    } else if b == 0x1B {
        Some(ControlCommandIdentifiers::OneBudAncMode)
    } else if b == 0x1C {
        Some(ControlCommandIdentifiers::CrownRotationDirection)
    } else if b == 0x0D {
        Some(ControlCommandIdentifiers::ListeningMode)
    } else if b == 0x1E {
        Some(ControlCommandIdentifiers::AutoAnswerMode)
    } else if b == 0x1F {
        Some(ControlCommandIdentifiers::ChimeVolume)
    } else if b == 0x23 {
        Some(ControlCommandIdentifiers::VolumeSwipeInterval)
    } else if b == 0x24 {
        Some(ControlCommandIdentifiers::CallManagementConfig)
    } else if b == 0x25 {
        Some(ControlCommandIdentifiers::VolumeSwipeMode)
    } else if b == 0x26 {
        Some(ControlCommandIdentifiers::AdaptiveVolumeConfig)
    } else if b == 0x27 {
        Some(ControlCommandIdentifiers::SoftwareMuteConfig)
    } else if b == 0x28 {
        Some(ControlCommandIdentifiers::ConversationDetectConfig)
    } else if b == 0x29 {
        Some(ControlCommandIdentifiers::Ssl)
    } else if b == 0x2C {
        Some(ControlCommandIdentifiers::HearingAid)
    } else if b == 0x2E {
        Some(ControlCommandIdentifiers::AutoAncStrength)
    } else if b == 0x2F {
        Some(ControlCommandIdentifiers::HpsGainSwipe)
    } else if b == 0x30 {
        Some(ControlCommandIdentifiers::HrmState)
    } else if b == 0x31 {
        Some(ControlCommandIdentifiers::InCaseToneConfig)
    } else if b == 0x32 {
        Some(ControlCommandIdentifiers::SiriMultitoneConfig)
    } else if b == 0x33 {
        Some(ControlCommandIdentifiers::HearingAssistConfig)
    } else if b == 0x34 {
        Some(ControlCommandIdentifiers::AllowOffOption)
    } else if b == 0x39 {
        Some(ControlCommandIdentifiers::StemConfig)
    } else if b == 0x35 {
        Some(ControlCommandIdentifiers::SleepDetectionConfig)
    } else if b == 0x36 {
        Some(ControlCommandIdentifiers::AllowAutoConnect)
    } else if b == 0x0A {
        Some(ControlCommandIdentifiers::EarDetectionConfig)
    } else if b == 0x20 {
        Some(ControlCommandIdentifiers::AutomaticConnectionConfig)
    } else if b == 0x06 {
        Some(ControlCommandIdentifiers::OwnsConnection)
    } else {
        None
    }
}

/// Every identifier is read back from its own wire byte.
pub proof fn lemma_control_id_round_trip(id: ControlCommandIdentifiers)
    ensures
        control_id_of(control_id_byte(id)) == Some(id),
{
}

/// The name of each identifier, for display.
pub open spec fn control_id_name(id: ControlCommandIdentifiers) -> Seq<char> {
    match id {
        ControlCommandIdentifiers::MicMode => "Mic Mode"@,
        ControlCommandIdentifiers::ButtonSendMode => "Button Send Mode"@,
        ControlCommandIdentifiers::VoiceTrigger => "Voice Trigger"@,
        ControlCommandIdentifiers::SingleClickMode => "Single Click Mode"@,
        ControlCommandIdentifiers::DoubleClickMode => "Double Click Mode"@,
        ControlCommandIdentifiers::ClickHoldMode => "Click Hold Mode"@,
        ControlCommandIdentifiers::DoubleClickInterval => "Double Click Interval"@,
        ControlCommandIdentifiers::ClickHoldInterval => "Click Hold Interval"@,
        ControlCommandIdentifiers::ListeningModeConfigs => "Listening Mode Configs"@,
        ControlCommandIdentifiers::OneBudAncMode => "One Bud ANC Mode"@,
        ControlCommandIdentifiers::CrownRotationDirection => "Crown Rotation Direction"@,
        ControlCommandIdentifiers::ListeningMode => "Listening Mode"@,
        ControlCommandIdentifiers::AutoAnswerMode => "Auto Answer Mode"@,
        ControlCommandIdentifiers::ChimeVolume => "Chime Volume"@,
        ControlCommandIdentifiers::VolumeSwipeInterval => "Volume Swipe Interval"@,
        ControlCommandIdentifiers::CallManagementConfig => "Call Management Config"@,
        ControlCommandIdentifiers::VolumeSwipeMode => "Volume Swipe Mode"@,
        ControlCommandIdentifiers::AdaptiveVolumeConfig => "Adaptive Volume Config"@,
        ControlCommandIdentifiers::SoftwareMuteConfig => "Software Mute Config"@,
        ControlCommandIdentifiers::ConversationDetectConfig => "Conversation Detect Config"@,
        ControlCommandIdentifiers::Ssl => "SSL"@,
        ControlCommandIdentifiers::HearingAid => "Hearing Aid"@,
        ControlCommandIdentifiers::AutoAncStrength => "Auto ANC Strength"@,
        ControlCommandIdentifiers::HpsGainSwipe => "HPS Gain Swipe"@,
        ControlCommandIdentifiers::HrmState => "HRM State"@,
        ControlCommandIdentifiers::InCaseToneConfig => "In Case Tone Config"@,
        ControlCommandIdentifiers::SiriMultitoneConfig => "Siri Multitone Config"@,
        ControlCommandIdentifiers::HearingAssistConfig => "Hearing Assist Config"@,
        ControlCommandIdentifiers::AllowOffOption => "Allow Off Option"@,
        ControlCommandIdentifiers::StemConfig => "Stem Config"@,
        ControlCommandIdentifiers::SleepDetectionConfig => "Sleep Detection Config"@,
        ControlCommandIdentifiers::AllowAutoConnect => "Allow Auto Connect"@,
        ControlCommandIdentifiers::EarDetectionConfig => "Ear Detection Config"@,
        ControlCommandIdentifiers::AutomaticConnectionConfig => "Automatic Connection Config"@,
        ControlCommandIdentifiers::OwnsConnection => "Owns Connection"@,
    }
}

impl ControlCommandIdentifiers {
    /// The identifier's name, for display.
    pub fn name(self) -> (r: &'static str)
        ensures
            r@ == control_id_name(self),
    {
        match self {
            ControlCommandIdentifiers::MicMode => "Mic Mode",
            ControlCommandIdentifiers::ButtonSendMode => "Button Send Mode",
            ControlCommandIdentifiers::VoiceTrigger => "Voice Trigger",
            ControlCommandIdentifiers::SingleClickMode => "Single Click Mode",
            ControlCommandIdentifiers::DoubleClickMode => "Double Click Mode",
            ControlCommandIdentifiers::ClickHoldMode => "Click Hold Mode",
            ControlCommandIdentifiers::DoubleClickInterval => "Double Click Interval",
            ControlCommandIdentifiers::ClickHoldInterval => "Click Hold Interval",
            ControlCommandIdentifiers::ListeningModeConfigs => "Listening Mode Configs",
            ControlCommandIdentifiers::OneBudAncMode => "One Bud ANC Mode",
            ControlCommandIdentifiers::CrownRotationDirection => "Crown Rotation Direction",
            ControlCommandIdentifiers::ListeningMode => "Listening Mode",
            ControlCommandIdentifiers::AutoAnswerMode => "Auto Answer Mode",
            ControlCommandIdentifiers::ChimeVolume => "Chime Volume",
            ControlCommandIdentifiers::VolumeSwipeInterval => "Volume Swipe Interval",
            ControlCommandIdentifiers::CallManagementConfig => "Call Management Config",
            ControlCommandIdentifiers::VolumeSwipeMode => "Volume Swipe Mode",
            ControlCommandIdentifiers::AdaptiveVolumeConfig => "Adaptive Volume Config",
            ControlCommandIdentifiers::SoftwareMuteConfig => "Software Mute Config",
            ControlCommandIdentifiers::ConversationDetectConfig => "Conversation Detect Config",
            ControlCommandIdentifiers::Ssl => "SSL",
            ControlCommandIdentifiers::HearingAid => "Hearing Aid",
            ControlCommandIdentifiers::AutoAncStrength => "Auto ANC Strength",
            ControlCommandIdentifiers::HpsGainSwipe => "HPS Gain Swipe",
            ControlCommandIdentifiers::HrmState => "HRM State",
            ControlCommandIdentifiers::InCaseToneConfig => "In Case Tone Config",
            ControlCommandIdentifiers::SiriMultitoneConfig => "Siri Multitone Config",
            ControlCommandIdentifiers::HearingAssistConfig => "Hearing Assist Config",
            ControlCommandIdentifiers::AllowOffOption => "Allow Off Option",
            ControlCommandIdentifiers::StemConfig => "Stem Config",
            ControlCommandIdentifiers::SleepDetectionConfig => "Sleep Detection Config",
            ControlCommandIdentifiers::AllowAutoConnect => "Allow Auto Connect",
            ControlCommandIdentifiers::EarDetectionConfig => "Ear Detection Config",
            ControlCommandIdentifiers::AutomaticConnectionConfig => "Automatic Connection Config",
            ControlCommandIdentifiers::OwnsConnection => "Owns Connection",
        }
    }

    pub fn to_u8(self) -> (r: u8)
        ensures
            r == control_id_byte(self),
    {
        match self {
            ControlCommandIdentifiers::MicMode => 0x01,
            ControlCommandIdentifiers::ButtonSendMode => 0x05,
            ControlCommandIdentifiers::VoiceTrigger => 0x12,
            ControlCommandIdentifiers::SingleClickMode => 0x14,
            ControlCommandIdentifiers::DoubleClickMode => 0x15,
            ControlCommandIdentifiers::ClickHoldMode => 0x16,
            ControlCommandIdentifiers::DoubleClickInterval => 0x17,
            ControlCommandIdentifiers::ClickHoldInterval => 0x18,
            ControlCommandIdentifiers::ListeningModeConfigs => 0x1A,
            ControlCommandIdentifiers::OneBudAncMode => 0x1B,
            ControlCommandIdentifiers::CrownRotationDirection => 0x1C,
            ControlCommandIdentifiers::ListeningMode => 0x0D,
            ControlCommandIdentifiers::AutoAnswerMode => 0x1E,
            ControlCommandIdentifiers::ChimeVolume => 0x1F,
            ControlCommandIdentifiers::VolumeSwipeInterval => 0x23,
            ControlCommandIdentifiers::CallManagementConfig => 0x24,
            ControlCommandIdentifiers::VolumeSwipeMode => 0x25,
            ControlCommandIdentifiers::AdaptiveVolumeConfig => 0x26,
            ControlCommandIdentifiers::SoftwareMuteConfig => 0x27,
            ControlCommandIdentifiers::ConversationDetectConfig => 0x28,
            ControlCommandIdentifiers::Ssl => 0x29,
            ControlCommandIdentifiers::HearingAid => 0x2C,
            ControlCommandIdentifiers::AutoAncStrength => 0x2E,
            ControlCommandIdentifiers::HpsGainSwipe => 0x2F,
            ControlCommandIdentifiers::HrmState => 0x30,
            ControlCommandIdentifiers::InCaseToneConfig => 0x31,
            ControlCommandIdentifiers::SiriMultitoneConfig => 0x32,
            ControlCommandIdentifiers::HearingAssistConfig => 0x33,
            ControlCommandIdentifiers::AllowOffOption => 0x34,
            ControlCommandIdentifiers::StemConfig => 0x39,
            ControlCommandIdentifiers::SleepDetectionConfig => 0x35,
            ControlCommandIdentifiers::AllowAutoConnect => 0x36,
            ControlCommandIdentifiers::EarDetectionConfig => 0x0A,
            ControlCommandIdentifiers::AutomaticConnectionConfig => 0x20,
            ControlCommandIdentifiers::OwnsConnection => 0x06,
        }
    }

    /// The identifier whose wire byte is `value`, if there is one.
    pub fn from_u8(value: u8) -> (r: Option<Self>)
        ensures
            r == control_id_of(value),
            r matches Some(id) ==> control_id_byte(id) == value,
            r is None <==> !is_control_id_byte(value),
    {
        let r = match value {
            0x01 => Some(Self::MicMode),
            0x05 => Some(Self::ButtonSendMode),
            0x12 => Some(Self::VoiceTrigger),
            0x14 => Some(Self::SingleClickMode),
            0x15 => Some(Self::DoubleClickMode),
            0x16 => Some(Self::ClickHoldMode),
            0x17 => Some(Self::DoubleClickInterval),
            0x18 => Some(Self::ClickHoldInterval),
            0x1A => Some(Self::ListeningModeConfigs),
            0x1B => Some(Self::OneBudAncMode),
            0x1C => Some(Self::CrownRotationDirection),
            0x0D => Some(Self::ListeningMode),
            0x1E => Some(Self::AutoAnswerMode),
            0x1F => Some(Self::ChimeVolume),
            0x23 => Some(Self::VolumeSwipeInterval),
            0x24 => Some(Self::CallManagementConfig),
            0x25 => Some(Self::VolumeSwipeMode),
            0x26 => Some(Self::AdaptiveVolumeConfig),
            0x27 => Some(Self::SoftwareMuteConfig),
            0x28 => Some(Self::ConversationDetectConfig),
            0x29 => Some(Self::Ssl),
            0x2C => Some(Self::HearingAid),
            0x2E => Some(Self::AutoAncStrength),
            0x2F => Some(Self::HpsGainSwipe),
            0x30 => Some(Self::HrmState),
            0x31 => Some(Self::InCaseToneConfig),
            0x32 => Some(Self::SiriMultitoneConfig),
            0x33 => Some(Self::HearingAssistConfig),
            0x34 => Some(Self::AllowOffOption),
            0x39 => Some(Self::StemConfig),
            0x35 => Some(Self::SleepDetectionConfig),
            0x36 => Some(Self::AllowAutoConnect),
            0x0A => Some(Self::EarDetectionConfig),
            0x20 => Some(Self::AutomaticConnectionConfig),
            0x06 => Some(Self::OwnsConnection),
            _ => None,
        };
        proof {
            if let Some(id) = r {
                assert(control_id_byte(id) == value);
            }
        }
        r
    }
}

/// Kind of a proximity (Low-Energy) key.
#[derive(Debug, Clone, Copy, PartialEq, Eq, Hash, Structural)]
pub enum ProximityKeyType {
    Irk,
    EncKey,
}

pub open spec fn proximity_key_byte(k: ProximityKeyType) -> u8 {
    match k {
        ProximityKeyType::Irk => 0x01,
        ProximityKeyType::EncKey => 0x04,
    }
}

impl ProximityKeyType {
    pub fn to_u8(self) -> (r: u8)
        ensures
            r == proximity_key_byte(self),
    {
        match self {
            ProximityKeyType::Irk => 0x01,
            ProximityKeyType::EncKey => 0x04,
        }
    }

    /// The key kind whose wire byte is `value`, if there is one.
    pub fn from_u8(value: u8) -> (r: Option<Self>)
        ensures
            r == (if value == 0x01 {
                Some(ProximityKeyType::Irk)
            } else if value == 0x04 {
                Some(ProximityKeyType::EncKey)
            } else {
                None
            }),
    {
        match value {
            0x01 => Some(Self::Irk),
            0x04 => Some(Self::EncKey),
            _ => None,
        }
    }
}

#[derive(Debug, Clone, Copy, PartialEq, Eq, Structural)]
pub enum StemPressType {
    SinglePress,
    DoublePress,
    TriplePress,
    LongPress,
}

#[derive(Debug, Clone, Copy, PartialEq, Eq, Structural)]
pub enum StemPressBudType {
    Left,
    Right,
}

/// What an audio source is playing.
#[derive(Debug, Clone, Copy, PartialEq, Eq, Structural)]
pub enum AudioSourceType {
    NoAudio,
    Call,
    Media,
}

impl AudioSourceType {
    /// The kind whose wire byte is `value`, if there is one.
    pub fn from_u8(value: u8) -> (r: Option<Self>)
        ensures
            r == audio_source_type_of(value),
    {
        match value {
            0x00 => Some(Self::NoAudio),
            0x01 => Some(Self::Call),
            0x02 => Some(Self::Media),
            _ => None,
        }
    }
}

pub open spec fn audio_source_type_of(b: u8) -> Option<AudioSourceType> {
    if b == 0 {
        Some(AudioSourceType::NoAudio)
    } else if b == 1 {
        Some(AudioSourceType::Call)
    } else if b == 2 {
        Some(AudioSourceType::Media)
    } else {
        None
    }
}

#[derive(Debug, Clone, Copy, PartialEq, Eq, Structural)]
pub enum BatteryComponent {
    Left,
    Right,
    Case,
}

pub open spec fn battery_component_of(b: u8) -> Option<BatteryComponent> {
    if b == 0x04 {
        Some(BatteryComponent::Left)
    } else if b == 0x02 {
        Some(BatteryComponent::Right)
    } else if b == 0x08 {
        Some(BatteryComponent::Case)
    } else {
        None
    }
}

#[derive(Debug, Clone, Copy, PartialEq, Eq, Structural)]
pub enum BatteryStatus {
    Charging,
    NotCharging,
    Disconnected,
}

pub open spec fn battery_status_of(b: u8) -> Option<BatteryStatus> {
    if b == 0x01 {
        Some(BatteryStatus::Charging)
    } else if b == 0x02 {
        Some(BatteryStatus::NotCharging)
    } else if b == 0x04 {
        Some(BatteryStatus::Disconnected)
    } else {
        None
    }
}

#[derive(Debug, Clone, Copy, PartialEq, Eq, Structural)]
pub enum EarDetectionStatus {
    InEar,
    OutOfEar,
    InCase,
    Disconnected,
}

/// An ear-detection byte; unknown bytes read as out of ear.
pub open spec fn ear_status_of(b: u8) -> EarDetectionStatus {
    if b == 0 {
        EarDetectionStatus::InEar
    } else if b == 1 {
        EarDetectionStatus::OutOfEar
    } else if b == 2 {
        EarDetectionStatus::InCase
    } else if b == 3 {
        EarDetectionStatus::Disconnected
    } else {
        EarDetectionStatus::OutOfEar
    }
}

/// Last known value of one control command.
#[derive(Debug, Clone, PartialEq, Eq)]
pub struct ControlCommandStatus {
    pub identifier: ControlCommandIdentifiers,
    pub value: Vec<u8>,
}

#[derive(Debug, Clone, PartialEq, Eq)]
pub struct AudioSource {
    pub mac: String,
    pub kind: AudioSourceType,
}

#[derive(Debug, Clone, Copy, PartialEq, Eq, Structural)]
pub struct BatteryInfo {
    pub component: BatteryComponent,
    pub level: u8,
    pub status: BatteryStatus,
}

#[derive(Debug, Clone, PartialEq, Eq)]
pub struct ConnectedDevice {
    pub mac: String,
    pub info1: u8,
    pub info2: u8,
    pub kind: Option<String>,
}

/// What a received packet tells the host.
#[derive(Debug, Clone)]
pub enum AACPEvent {
    BatteryInfo(Vec<BatteryInfo>),
    ControlCommand(ControlCommandStatus),
    EarDetection(Vec<EarDetectionStatus>, Vec<EarDetectionStatus>),
    ConversationalAwareness(u8),
    ProximityKeys(Vec<(u8, Vec<u8>)>),
    AudioSource(AudioSource),
    ConnectedDevices(Vec<ConnectedDevice>, Vec<ConnectedDevice>),
    OwnershipToFalseRequest,
}

/// Low-Energy identity resolving key and encryption key, as lower-case hex.
#[derive(Debug, Clone, PartialEq, Eq)]
pub struct AirPodsLEKeys {
    pub irk: String,
    pub enc_key: String,
}

/// Identity and version strings that a device reports about itself.
#[derive(Debug, Clone, PartialEq, Eq)]
pub struct AirPodsInformation {
    pub name: String,
    pub model_number: String,
    pub manufacturer: String,
    pub serial_number: String,
    pub version1: String,
    pub version2: String,
    pub hardware_revision: String,
    pub updater_identifier: String,
    pub left_serial_number: String,
    pub right_serial_number: String,
    pub version3: String,
    pub le_keys: AirPodsLEKeys,
}

#[derive(Debug, Clone, Copy, PartialEq, Eq, Structural)]
pub enum DeviceType {
    AirPods,
    Nothing,
}

#[derive(Debug, Clone, PartialEq, Eq)]
pub enum DeviceInformation {
    AirPods(AirPodsInformation),
}

/// The persisted record of one known device.
#[derive(Debug, Clone, PartialEq, Eq)]
pub struct DeviceData {
    pub name: String,
    pub type_: DeviceType,
    pub information: Option<DeviceInformation>,
}

/// Why a request could not be made.
#[derive(Debug, Clone, Copy, PartialEq, Eq, Structural)]
pub enum AacpError {
    /// No session is open to send on.
    NotConnected,
    /// A MAC address is not six two-digit hex groups joined by colons.
    InvalidAddress,
}

} // verus!
