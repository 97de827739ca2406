//! Operation codes and the framing rule that their bits carry.

use vstd::prelude::*;
use crate::error::CodeSpace;
use crate::error::UndefinedCode;
use crate::registry::CodeRegistry;
use crate::registry::TypedIdentifier;
use crate::registry::checked;

verus! {

/// The operation codes: the first byte of a message, which names its kind.
#[derive(Debug, Clone, Copy, PartialEq, Eq, Structural)]
pub enum OpCode {
    /// General Acknowledgement.
    GeneralAck,
    /// General No Ack.
    GeneralNack,
    /// Bus Halt.
    BusHalt,
    /// Bus ON
    BusResume,
    /// DCC track off.
    DccTrackPoweredOff,
    /// DCC track on.
    DccTrackPoweredOn,
    /// DCC emergency stop.
    DccEmergencyStopEngaged,
    /// Perform reboot on all nodes.
    RestartAllNodes,
    /// DCC request track off.
    DccTrackPowerOff,
    /// DCC request track on.
    DccTrackPowerOn,
    /// DCC request emergency stop.
    DccEmergencyStop,
    /// Request Command Station Status.
    DccQueryCommandStationStatus,
    /// Query node number.
    QueryNodeInfo,
    /// Request node parameters.
    QueryNodeParameters,
    /// Request module name.
    QueryModuleName,
    /// Release Engine.
    DccReleaseSession,
    /// Query engine.
    DccQueryLocoStatus,
    /// Session keep alive.
    DccSessionKeepAlive,
    /// Debug message with one data byte.
    DebugMsg1,
    /// Extended opcode with zero additional bytes.
    ExtOpCode,
    /// Request engine session.
    DccRequestNewSession,
    /// Query Consist.
    DccQueryConsist,
    /// Set Node Number.
    SetNodeNumber,
    /// Allocate loco to activity.
    DccAllocateLocoToActivity,
    /// Set CAB session mode.
    DccSetThrottleMode,
    /// Consist Engine.
    DccConsistAddLoco,
    /// Removes a loco from a consist.
    DccConsistRemoveLoco,
    /// Set Engine Speed/Dir.
    DccSetLocoThrottle,
    /// Set Engine Flags.
    DccSetLocoFlags,
    /// Set Engine function on.
    DccLocoFunctionOn,
    /// Set Engine function off.
    DccLocoFunctionOff,
    /// Service mode status.
    DccServiceModeStatus,
    /// Reset to manufacturer settings.
    ResetModuleToFactory,
    /// Request node number.
    RequestNewNodeNumber,
    /// Node number release.
    NodeNumberReleased,
    /// Node number acknowledge.
    NodeNumberAck,
    /// Set node into learn mode.
    PutNodeIntoLearnMode,
    /// Release node from learn mode.
    ReleaseNodeFromLearnMode,
    /// Clear all events from a node.
    ForgetAllLearnedEvents,
    /// Read the number of event slots available in a node.
    QueryAvailableEventSlots,
    /// Read back all stored events in a node.
    QueryAllLearnedEvents,
    /// Request to read number of stored events.
    QueryLearnedEventCount,
    /// Write acknowledge.
    WriteAck,
    /// Request node data event.
    QueryNodeData,
    /// Request device data -short mode.
    RequestDeviceDataShortMode,
    /// Put node into bootloading mode.
    RebootIntoBootloader,
    /// Force a self enumeration cycle for use with CAN.
    ForceCanEnumeration,
    /// Reset module's CPU.
    RestartNode,
    /// Extended opcode with 1 additional byte.
    ExtOpCode1,
    /// Set Engine functions.
    DccSetLocoFunctions,
    /// Get engine session.
    DccQueryLocoSession,
    /// Command Station Error report.
    DccCommandStationError,
    /// Error messages from nodes during configuration.
    NodeConfigurationError,
    /// Event space left reply from node.
    AvailableEventSlots,
    /// Request read of a node variable.
    QueryNodeVariable,
    /// Request read of stored event by event index.
    QueryLearnedEventByIndex,
    /// Request read of a node parameter by index.
    QueryNodeParameterByIndex,
    /// Number of events stored by node.
    LearnedEventCount,
    /// Set the CAN_ID in the node.
    SetNodeCanId,
    /// Request a change to a module's operating mode.
    PutNodeIntoMode,
    /// Request service discovery.
    ServiceDiscoveryQuery,
    /// Extended opcode with 2 additional bytes.
    ExtOpCode2,
    /// Request 3-byte DCC Packet.
    DccSendRawPacket3,
    /// Write CV (byte) in OPS mode.
    DccWriteCvByteInOpsMode,
    /// Write CV (bit) in OPS mode.
    DcWriteCvBitInOpsMode,
    /// Read CV.
    DccReadCv,
    /// Report CV.
    DccCvValue,
    /// Request diagnostic data.
    QueryDiagnosticData,
    /// Set a NV value with read back.
    SetNodeVariable,
    /// Accessory ON long event.
    LongEventAccessoryOn,
    /// Accessory OFF long event.
    LongEventAccessoryOff,
    /// Accessory Request Event.
    QueryLongEventAccessoryState,
    /// Accessory Response Event.
    LongEventAccessoryStateOn,
    /// Accessory Response Event (AROF).
    LongEventAccessoryStateOff,
    /// Unlearn an event in learn mode.
    ForgetLearnedEvent,
    /// Set a node variable.
    LegacySetNodeVariable,
    /// Response to a request for a node variable value.
    NodeVariableValue,
    /// Accessory Short ON.
    ShortEventAccessoryOn,
    /// Accessory Short OFF.
    ShortEventAccessoryOff,
    /// Accessory Short Request Event.
    QueryShortEventAccessoryState,
    /// Response to request for individual node parameter RQNPN.
    NodeParameterValue,
    /// Request for read of an event variable.
    QueryEventVariable,
    /// Accessory Short Response Event.
    ShortEventAccessoryStateOn,
    /// Accessory Short Response Event.
    ShortEventAccessoryStateOff,
    /// Extended opcode with 3 additional bytes.
    ExtOpCode3,
    /// Request 4-byte DCC Packet.
    DccSendRawPacket4,
    /// Write CV in Service mode.
    DccWriteCvInServiceMode,
    /// Heartbeat from module.
    Heartbeat,
    /// Service discovery response.
    ServiceDiscoveryResponse,
    /// Generic Response.
    GenericResponse,
    /// Accessory ON.
    LongEventAccessoryOn1,
    /// Accessory OFF.
    LongEventAccessoryOff1,
    /// Read event variable in learn mode.
    QueryEventVariableInLearnMode,
    /// Accessory Response Event.
    LongEventAccessoryStateOn1,
    /// Accessory Response Event.
    LongEventAccessoryStateOff1,
    /// Response to request for read of EV value.
    EventVariableValue,
    /// Response to Query Node - QNN.
    NodeInfo,
    /// Accessory Short ON.
    ShortEventAccessoryOn1,
    /// Accessory Short OFF.
    ShortEventAccessoryOff1,
    /// Accessory Short Response Event.
    ShortEventAccessoryStateOn1,
    /// Accessory Short Response Event with one data byte.
    ShortEventAccessoryStateOff1,
    /// Extended opcode with 4 additional bytes.
    ExtOpCode4,
    /// Request 5-byte DCC Packet.
    DccSendRawPacket5,
    /// Write CV (byte) in OPS mode by address.
    DccWriteCvByteInOpsModeByAddress,
    /// Send data to the DCC CAB which is controlling a particular loco.
    DccSendDataToCab,
    /// Diagnostic data response.
    DiagnosticData,
    /// Fast Clock.
    FastClock,
    /// Accessory ON.
    LongEventAccessoryOn2,
    /// Accessory OFF.
    LongEventAccessoryOff2,
    /// Teach an event in learn mode.
    TeachEvent,
    /// Response to a request for an EV value in a node in learn mode.
    EventVariableValueInLearnMode,
    /// Accessory Response Event.
    LongEventAccessoryStateOn2,
    /// Accessory Response Event.
    LongEventAccessoryStateOff2,
    /// Accessory Short ON.
    ShortEventAccessoryOn2,
    /// Accessory Short OFF.
    ShortEventAccessoryOff2,
    /// Accessory Short Response Event ON with two data bytes.
    ShortEventAccessoryStateOn2,
    /// Accessory Short Response Event OFF with two data bytes.
    ShortEventAccessoryStateOff2,
    /// Extended opcode with 5 additional bytes.
    ExtOpCode5,
    /// Request 6-byte DCC Packet.
    DccSendRawPacket6,
    /// Engine report.
    DccLocoReport,
    /// Response to request for node name string.
    ModuleName,
    /// Command Station status report.
    DccCommandStationStatus,
    /// Event Acknowledge.
    EventAck,
    /// Extended service discovery response.
    ExtendedServiceDiscoveryResponse,
    /// Streaming protocol (RFC0005).
    StreamPacket,
    /// Response to request for node parameters.
    NodeParametersReport,
    /// Accessory ON.
    LongEventAccessoryOn3,
    /// Accessory OFF.
    LongEventAccessoryOff3,
    /// Response to request to read node events.
    LearnedEventResponse,
    /// Accessory Response Event.
    LongEventAccessoryStateOn3,
    /// Accessory Response Event.
    LongEventAccessoryStateOff3,
    /// Teach an event in learn mode using event indexing.
    TeachEventByIndex,
    /// Accessory node data event.
    DataEventAccessory,
    /// Accessory node data Response.
    NodeDataEventResponse,
    /// Accessory Short ON.
    ShortEventAccessoryOn3,
    /// Accessory Short OFF.
    ShortEventAccessoryOff3,
    /// Device data event (short mode).
    DeviceDataEventShortMode,
    /// Device data response (short mode).
    DeviceDataResponseShortMode,
    /// Write data.
    WriteData,
    /// Accessory Short Response Event.
    ShortEventAccessoryStateOn3,
    /// Accessory Short Response Event.
    ShortEventAccessoryStateOff3,
    /// Extended opcode with 6 additional bytes.
    ExtOpCode6,
}

impl TypedIdentifier for OpCode {
    open spec fn code(self) -> u8 {
        match self {
            OpCode::GeneralAck => 0,
            OpCode::GeneralNack => 1,
            OpCode::BusHalt => 2,
            OpCode::BusResume => 3,
            OpCode::DccTrackPoweredOff => 4,
            OpCode::DccTrackPoweredOn => 5,
            OpCode::DccEmergencyStopEngaged => 6,
            OpCode::RestartAllNodes => 7,
            OpCode::DccTrackPowerOff => 8,
            OpCode::DccTrackPowerOn => 9,
            OpCode::DccEmergencyStop => 10,
            OpCode::DccQueryCommandStationStatus => 12,
            OpCode::QueryNodeInfo => 13,
            OpCode::QueryNodeParameters => 16,
            OpCode::QueryModuleName => 17,
            OpCode::DccReleaseSession => 33,
            OpCode::DccQueryLocoStatus => 34,
            OpCode::DccSessionKeepAlive => 35,
            OpCode::DebugMsg1 => 48,
            OpCode::ExtOpCode => 63,
            OpCode::DccRequestNewSession => 64,
            OpCode::DccQueryConsist => 65,
            OpCode::SetNodeNumber => 66,
            OpCode::DccAllocateLocoToActivity => 67,
            OpCode::DccSetThrottleMode => 68,
            OpCode::DccConsistAddLoco => 69,
            OpCode::DccConsistRemoveLoco => 70,
            OpCode::DccSetLocoThrottle => 71,
            OpCode::DccSetLocoFlags => 72,
            OpCode::DccLocoFunctionOn => 73,
            OpCode::DccLocoFunctionOff => 74,
            OpCode::DccServiceModeStatus => 76,
            OpCode::ResetModuleToFactory => 79,
            OpCode::RequestNewNodeNumber => 80,
            OpCode::NodeNumberReleased => 81,
            OpCode::NodeNumberAck => 82,
            OpCode::PutNodeIntoLearnMode => 83,
            OpCode::ReleaseNodeFromLearnMode => 84,
            OpCode::ForgetAllLearnedEvents => 85,
            OpCode::QueryAvailableEventSlots => 86,
            OpCode::QueryAllLearnedEvents => 87,
            OpCode::QueryLearnedEventCount => 88,
            OpCode::WriteAck => 89,
            OpCode::QueryNodeData => 90,
            OpCode::RequestDeviceDataShortMode => 91,
            OpCode::RebootIntoBootloader => 92,
            OpCode::ForceCanEnumeration => 93,
            OpCode::RestartNode => 94,
            OpCode::ExtOpCode1 => 95,
            OpCode::DccSetLocoFunctions => 96,
            OpCode::DccQueryLocoSession => 97,
            OpCode::DccCommandStationError => 99,
            OpCode::NodeConfigurationError => 111,
            OpCode::AvailableEventSlots => 112,
            OpCode::QueryNodeVariable => 113,
            OpCode::QueryLearnedEventByIndex => 114,
            OpCode::QueryNodeParameterByIndex => 115,
            OpCode::LearnedEventCount => 116,
            OpCode::SetNodeCanId => 117,
            OpCode::PutNodeIntoMode => 118,
            OpCode::ServiceDiscoveryQuery => 120,
            OpCode::ExtOpCode2 => 127,
            OpCode::DccSendRawPacket3 => 128,
            OpCode::DccWriteCvByteInOpsMode => 130,
            OpCode::DcWriteCvBitInOpsMode => 131,
            OpCode::DccReadCv => 132,
            OpCode::DccCvValue => 133,
            OpCode::QueryDiagnosticData => 135,
            OpCode::SetNodeVariable => 142,
            OpCode::LongEventAccessoryOn => 144,
            OpCode::LongEventAccessoryOff => 145,
            OpCode::QueryLongEventAccessoryState => 146,
            OpCode::LongEventAccessoryStateOn => 147,
            OpCode::LongEventAccessoryStateOff => 148,
            OpCode::ForgetLearnedEvent => 149,
            OpCode::LegacySetNodeVariable => 150,
            OpCode::NodeVariableValue => 151,
            OpCode::ShortEventAccessoryOn => 152,
            OpCode::ShortEventAccessoryOff => 153,
            OpCode::QueryShortEventAccessoryState => 154,
            OpCode::NodeParameterValue => 155,
            OpCode::QueryEventVariable => 156,
            OpCode::ShortEventAccessoryStateOn => 157,
            OpCode::ShortEventAccessoryStateOff => 158,
            OpCode::ExtOpCode3 => 159,
            OpCode::DccSendRawPacket4 => 160,
            OpCode::DccWriteCvInServiceMode => 162,
            OpCode::Heartbeat => 171,
            OpCode::ServiceDiscoveryResponse => 172,
            OpCode::GenericResponse => 175,
            OpCode::LongEventAccessoryOn1 => 176,
            OpCode::LongEventAccessoryOff1 => 177,
            OpCode::QueryEventVariableInLearnMode => 178,
            OpCode::LongEventAccessoryStateOn1 => 179,
            OpCode::LongEventAccessoryStateOff1 => 180,
            OpCode::EventVariableValue => 181,
            OpCode::NodeInfo => 182,
            OpCode::ShortEventAccessoryOn1 => 184,
            OpCode::ShortEventAccessoryOff1 => 185,
            OpCode::ShortEventAccessoryStateOn1 => 189,
            OpCode::ShortEventAccessoryStateOff1 => 190,
            OpCode::ExtOpCode4 => 191,
            OpCode::DccSendRawPacket5 => 192,
            OpCode::DccWriteCvByteInOpsModeByAddress => 193,
            OpCode::DccSendDataToCab => 194,
            OpCode::DiagnosticData => 199,
            OpCode::FastClock => 207,
            OpCode::LongEventAccessoryOn2 => 208,
            OpCode::LongEventAccessoryOff2 => 209,
            OpCode::TeachEvent => 210,
            OpCode::EventVariableValueInLearnMode => 211,
            OpCode::LongEventAccessoryStateOn2 => 212,
            OpCode::LongEventAccessoryStateOff2 => 213,
            OpCode::ShortEventAccessoryOn2 => 216,
            OpCode::ShortEventAccessoryOff2 => 217,
            OpCode::ShortEventAccessoryStateOn2 => 221,
            OpCode::ShortEventAccessoryStateOff2 => 222,
            OpCode::ExtOpCode5 => 223,
            OpCode::DccSendRawPacket6 => 224,
            OpCode::DccLocoReport => 225,
            OpCode::ModuleName => 226,
            OpCode::DccCommandStationStatus => 227,
            OpCode::EventAck => 230,
            OpCode::ExtendedServiceDiscoveryResponse => 231,
            OpCode::StreamPacket => 233,
            OpCode::NodeParametersReport => 239,
            OpCode::LongEventAccessoryOn3 => 240,
            OpCode::LongEventAccessoryOff3 => 241,
            OpCode::LearnedEventResponse => 242,
            OpCode::LongEventAccessoryStateOn3 => 243,
            OpCode::LongEventAccessoryStateOff3 => 244,
            OpCode::TeachEventByIndex => 245,
            OpCode::DataEventAccessory => 246,
            OpCode::NodeDataEventResponse => 247,
            OpCode::ShortEventAccessoryOn3 => 248,
            OpCode::ShortEventAccessoryOff3 => 249,
            OpCode::DeviceDataEventShortMode => 250,
            OpCode::DeviceDataResponseShortMode => 251,
            OpCode::WriteData => 252,
            OpCode::ShortEventAccessoryStateOn3 => 253,
            OpCode::ShortEventAccessoryStateOff3 => 254,
            OpCode::ExtOpCode6 => 255,
        }
    }

    open spec fn decode(code: u8) -> Option<Self> {
        match code {
            0 => Some(OpCode::GeneralAck),
            1 => Some(OpCode::GeneralNack),
            2 => Some(OpCode::BusHalt),
            3 => Some(OpCode::BusResume),
            4 => Some(OpCode::DccTrackPoweredOff),
            5 => Some(OpCode::DccTrackPoweredOn),
            6 => Some(OpCode::DccEmergencyStopEngaged),
            7 => Some(OpCode::RestartAllNodes),
            8 => Some(OpCode::DccTrackPowerOff),
            9 => Some(OpCode::DccTrackPowerOn),
            10 => Some(OpCode::DccEmergencyStop),
            12 => Some(OpCode::DccQueryCommandStationStatus),
            13 => Some(OpCode::QueryNodeInfo),
            16 => Some(OpCode::QueryNodeParameters),
            17 => Some(OpCode::QueryModuleName),
            33 => Some(OpCode::DccReleaseSession),
            34 => Some(OpCode::DccQueryLocoStatus),
            35 => Some(OpCode::DccSessionKeepAlive),
            48 => Some(OpCode::DebugMsg1),
            63 => Some(OpCode::ExtOpCode),
            64 => Some(OpCode::DccRequestNewSession),
            65 => Some(OpCode::DccQueryConsist),
            66 => Some(OpCode::SetNodeNumber),
            67 => Some(OpCode::DccAllocateLocoToActivity),
            68 => Some(OpCode::DccSetThrottleMode),
            69 => Some(OpCode::DccConsistAddLoco),
            70 => Some(OpCode::DccConsistRemoveLoco),
            71 => Some(OpCode::DccSetLocoThrottle),
            72 => Some(OpCode::DccSetLocoFlags),
            73 => Some(OpCode::DccLocoFunctionOn),
            74 => Some(OpCode::DccLocoFunctionOff),
            76 => Some(OpCode::DccServiceModeStatus),
            79 => Some(OpCode::ResetModuleToFactory),
            80 => Some(OpCode::RequestNewNodeNumber),
            81 => Some(OpCode::NodeNumberReleased),
            82 => Some(OpCode::NodeNumberAck),
            83 => Some(OpCode::PutNodeIntoLearnMode),
            84 => Some(OpCode::ReleaseNodeFromLearnMode),
            85 => Some(OpCode::ForgetAllLearnedEvents),
            86 => Some(OpCode::QueryAvailableEventSlots),
            87 => Some(OpCode::QueryAllLearnedEvents),
            88 => Some(OpCode::QueryLearnedEventCount),
            89 => Some(OpCode::WriteAck),
            90 => Some(OpCode::QueryNodeData),
            91 => Some(OpCode::RequestDeviceDataShortMode),
            92 => Some(OpCode::RebootIntoBootloader),
            93 => Some(OpCode::ForceCanEnumeration),
            94 => Some(OpCode::RestartNode),
            95 => Some(OpCode::ExtOpCode1),
            96 => Some(OpCode::DccSetLocoFunctions),
            97 => Some(OpCode::DccQueryLocoSession),
            99 => Some(OpCode::DccCommandStationError),
            111 => Some(OpCode::NodeConfigurationError),
            112 => Some(OpCode::AvailableEventSlots),
            113 => Some(OpCode::QueryNodeVariable),
            114 => Some(OpCode::QueryLearnedEventByIndex),
            115 => Some(OpCode::QueryNodeParameterByIndex),
            116 => Some(OpCode::LearnedEventCount),
            117 => Some(OpCode::SetNodeCanId),
            118 => Some(OpCode::PutNodeIntoMode),
            120 => Some(OpCode::ServiceDiscoveryQuery),
            127 => Some(OpCode::ExtOpCode2),
            128 => Some(OpCode::DccSendRawPacket3),
            130 => Some(OpCode::DccWriteCvByteInOpsMode),
            131 => Some(OpCode::DcWriteCvBitInOpsMode),
            132 => Some(OpCode::DccReadCv),
            133 => Some(OpCode::DccCvValue),
            135 => Some(OpCode::QueryDiagnosticData),
            142 => Some(OpCode::SetNodeVariable),
            144 => Some(OpCode::LongEventAccessoryOn),
            145 => Some(OpCode::LongEventAccessoryOff),
            146 => Some(OpCode::QueryLongEventAccessoryState),
            147 => Some(OpCode::LongEventAccessoryStateOn),
            148 => Some(OpCode::LongEventAccessoryStateOff),
            149 => Some(OpCode::ForgetLearnedEvent),
            150 => Some(OpCode::LegacySetNodeVariable),
            151 => Some(OpCode::NodeVariableValue),
            152 => Some(OpCode::ShortEventAccessoryOn),
            153 => Some(OpCode::ShortEventAccessoryOff),
            154 => Some(OpCode::QueryShortEventAccessoryState),
            155 => Some(OpCode::NodeParameterValue),
            156 => Some(OpCode::QueryEventVariable),
            157 => Some(OpCode::ShortEventAccessoryStateOn),
            158 => Some(OpCode::ShortEventAccessoryStateOff),
            159 => Some(OpCode::ExtOpCode3),
            160 => Some(OpCode::DccSendRawPacket4),
            162 => Some(OpCode::DccWriteCvInServiceMode),
            171 => Some(OpCode::Heartbeat),
            172 => Some(OpCode::ServiceDiscoveryResponse),
            175 => Some(OpCode::GenericResponse),
            176 => Some(OpCode::LongEventAccessoryOn1),
            177 => Some(OpCode::LongEventAccessoryOff1),
            178 => Some(OpCode::QueryEventVariableInLearnMode),
            179 => Some(OpCode::LongEventAccessoryStateOn1),
            180 => Some(OpCode::LongEventAccessoryStateOff1),
            181 => Some(OpCode::EventVariableValue),
            182 => Some(OpCode::NodeInfo),
            184 => Some(OpCode::ShortEventAccessoryOn1),
            185 => Some(OpCode::ShortEventAccessoryOff1),
            189 => Some(OpCode::ShortEventAccessoryStateOn1),
            190 => Some(OpCode::ShortEventAccessoryStateOff1),
            191 => Some(OpCode::ExtOpCode4),
            192 => Some(OpCode::DccSendRawPacket5),
            193 => Some(OpCode::DccWriteCvByteInOpsModeByAddress),
            194 => Some(OpCode::DccSendDataToCab),
            199 => Some(OpCode::DiagnosticData),
            207 => Some(OpCode::FastClock),
            208 => Some(OpCode::LongEventAccessoryOn2),
            209 => Some(OpCode::LongEventAccessoryOff2),
            210 => Some(OpCode::TeachEvent),
            211 => Some(OpCode::EventVariableValueInLearnMode),
            212 => Some(OpCode::LongEventAccessoryStateOn2),
            213 => Some(OpCode::LongEventAccessoryStateOff2),
            216 => Some(OpCode::ShortEventAccessoryOn2),
            217 => Some(OpCode::ShortEventAccessoryOff2),
            221 => Some(OpCode::ShortEventAccessoryStateOn2),
            222 => Some(OpCode::ShortEventAccessoryStateOff2),
            223 => Some(OpCode::ExtOpCode5),
            224 => Some(OpCode::DccSendRawPacket6),
            225 => Some(OpCode::DccLocoReport),
            226 => Some(OpCode::ModuleName),
            227 => Some(OpCode::DccCommandStationStatus),
            230 => Some(OpCode::EventAck),
            231 => Some(OpCode::ExtendedServiceDiscoveryResponse),
            233 => Some(OpCode::StreamPacket),
            239 => Some(OpCode::NodeParametersReport),
            240 => Some(OpCode::LongEventAccessoryOn3),
            241 => Some(OpCode::LongEventAccessoryOff3),
            242 => Some(OpCode::LearnedEventResponse),
            243 => Some(OpCode::LongEventAccessoryStateOn3),
            244 => Some(OpCode::LongEventAccessoryStateOff3),
            245 => Some(OpCode::TeachEventByIndex),
            246 => Some(OpCode::DataEventAccessory),
            247 => Some(OpCode::NodeDataEventResponse),
            248 => Some(OpCode::ShortEventAccessoryOn3),
            249 => Some(OpCode::ShortEventAccessoryOff3),
            250 => Some(OpCode::DeviceDataEventShortMode),
            251 => Some(OpCode::DeviceDataResponseShortMode),
            252 => Some(OpCode::WriteData),
            253 => Some(OpCode::ShortEventAccessoryStateOn3),
            254 => Some(OpCode::ShortEventAccessoryStateOff3),
            255 => Some(OpCode::ExtOpCode6),
            _ => None,
        }
    }

    open spec fn space() -> CodeSpace {
        CodeSpace::OpCode
    }

    proof fn lemma_decode_inverts_code(i: Self, code: u8) {
    }
}

impl CodeRegistry for OpCode {
    fn to_code(self) -> (c: u8) {
        match self {
            OpCode::GeneralAck => 0,
            OpCode::GeneralNack => 1,
            OpCode::BusHalt => 2,
            OpCode::BusResume => 3,
            OpCode::DccTrackPoweredOff => 4,
            OpCode::DccTrackPoweredOn => 5,
            OpCode::DccEmergencyStopEngaged => 6,
            OpCode::RestartAllNodes => 7,
            OpCode::DccTrackPowerOff => 8,
            OpCode::DccTrackPowerOn => 9,
            OpCode::DccEmergencyStop => 10,
            OpCode::DccQueryCommandStationStatus => 12,
            OpCode::QueryNodeInfo => 13,
            OpCode::QueryNodeParameters => 16,
            OpCode::QueryModuleName => 17,
            OpCode::DccReleaseSession => 33,
            OpCode::DccQueryLocoStatus => 34,
            OpCode::DccSessionKeepAlive => 35,
            OpCode::DebugMsg1 => 48,
            OpCode::ExtOpCode => 63,
            OpCode::DccRequestNewSession => 64,
            OpCode::DccQueryConsist => 65,
            OpCode::SetNodeNumber => 66,
            OpCode::DccAllocateLocoToActivity => 67,
            OpCode::DccSetThrottleMode => 68,
            OpCode::DccConsistAddLoco => 69,
            OpCode::DccConsistRemoveLoco => 70,
            OpCode::DccSetLocoThrottle => 71,
            OpCode::DccSetLocoFlags => 72,
            OpCode::DccLocoFunctionOn => 73,
            OpCode::DccLocoFunctionOff => 74,
            OpCode::DccServiceModeStatus => 76,
            OpCode::ResetModuleToFactory => 79,
            OpCode::RequestNewNodeNumber => 80,
            OpCode::NodeNumberReleased => 81,
            OpCode::NodeNumberAck => 82,
            OpCode::PutNodeIntoLearnMode => 83,
            OpCode::ReleaseNodeFromLearnMode => 84,
            OpCode::ForgetAllLearnedEvents => 85,
            OpCode::QueryAvailableEventSlots => 86,
            OpCode::QueryAllLearnedEvents => 87,
            OpCode::QueryLearnedEventCount => 88,
            OpCode::WriteAck => 89,
            OpCode::QueryNodeData => 90,
            OpCode::RequestDeviceDataShortMode => 91,
            OpCode::RebootIntoBootloader => 92,
            OpCode::ForceCanEnumeration => 93,
            OpCode::RestartNode => 94,
            OpCode::ExtOpCode1 => 95,
            OpCode::DccSetLocoFunctions => 96,
            OpCode::DccQueryLocoSession => 97,
            OpCode::DccCommandStationError => 99,
            OpCode::NodeConfigurationError => 111,
            OpCode::AvailableEventSlots => 112,
            OpCode::QueryNodeVariable => 113,
            OpCode::QueryLearnedEventByIndex => 114,
            OpCode::QueryNodeParameterByIndex => 115,
            OpCode::LearnedEventCount => 116,
            OpCode::SetNodeCanId => 117,
            OpCode::PutNodeIntoMode => 118,
            OpCode::ServiceDiscoveryQuery => 120,
            OpCode::ExtOpCode2 => 127,
            OpCode::DccSendRawPacket3 => 128,
            OpCode::DccWriteCvByteInOpsMode => 130,
            OpCode::DcWriteCvBitInOpsMode => 131,
            OpCode::DccReadCv => 132,
            OpCode::DccCvValue => 133,
            OpCode::QueryDiagnosticData => 135,
            OpCode::SetNodeVariable => 142,
            OpCode::LongEventAccessoryOn => 144,
            OpCode::LongEventAccessoryOff => 145,
            OpCode::QueryLongEventAccessoryState => 146,
            OpCode::LongEventAccessoryStateOn => 147,
            OpCode::LongEventAccessoryStateOff => 148,
            OpCode::ForgetLearnedEvent => 149,
            OpCode::LegacySetNodeVariable => 150,
            OpCode::NodeVariableValue => 151,
            OpCode::ShortEventAccessoryOn => 152,
            OpCode::ShortEventAccessoryOff => 153,
            OpCode::QueryShortEventAccessoryState => 154,
            OpCode::NodeParameterValue => 155,
            OpCode::QueryEventVariable => 156,
            OpCode::ShortEventAccessoryStateOn => 157,
            OpCode::ShortEventAccessoryStateOff => 158,
            OpCode::ExtOpCode3 => 159,
            OpCode::DccSendRawPacket4 => 160,
            OpCode::DccWriteCvInServiceMode => 162,
            OpCode::Heartbeat => 171,
            OpCode::ServiceDiscoveryResponse => 172,
            OpCode::GenericResponse => 175,
            OpCode::LongEventAccessoryOn1 => 176,
            OpCode::LongEventAccessoryOff1 => 177,
            OpCode::QueryEventVariableInLearnMode => 178,
            OpCode::LongEventAccessoryStateOn1 => 179,
            OpCode::LongEventAccessoryStateOff1 => 180,
            OpCode::EventVariableValue => 181,
            OpCode::NodeInfo => 182,
            OpCode::ShortEventAccessoryOn1 => 184,
            OpCode::ShortEventAccessoryOff1 => 185,
            OpCode::ShortEventAccessoryStateOn1 => 189,
            OpCode::ShortEventAccessoryStateOff1 => 190,
            OpCode::ExtOpCode4 => 191,
            OpCode::DccSendRawPacket5 => 192,
            OpCode::DccWriteCvByteInOpsModeByAddress => 193,
            OpCode::DccSendDataToCab => 194,
            OpCode::DiagnosticData => 199,
            OpCode::FastClock => 207,
            OpCode::LongEventAccessoryOn2 => 208,
            OpCode::LongEventAccessoryOff2 => 209,
            OpCode::TeachEvent => 210,
            OpCode::EventVariableValueInLearnMode => 211,
            OpCode::LongEventAccessoryStateOn2 => 212,
            OpCode::LongEventAccessoryStateOff2 => 213,
            OpCode::ShortEventAccessoryOn2 => 216,
            OpCode::ShortEventAccessoryOff2 => 217,
            OpCode::ShortEventAccessoryStateOn2 => 221,
            OpCode::ShortEventAccessoryStateOff2 => 222,
            OpCode::ExtOpCode5 => 223,
            OpCode::DccSendRawPacket6 => 224,
            OpCode::DccLocoReport => 225,
            OpCode::ModuleName => 226,
            OpCode::DccCommandStationStatus => 227,
            OpCode::EventAck => 230,
            OpCode::ExtendedServiceDiscoveryResponse => 231,
            OpCode::StreamPacket => 233,
            OpCode::NodeParametersReport => 239,
            OpCode::LongEventAccessoryOn3 => 240,
            OpCode::LongEventAccessoryOff3 => 241,
            OpCode::LearnedEventResponse => 242,
            OpCode::LongEventAccessoryStateOn3 => 243,
            OpCode::LongEventAccessoryStateOff3 => 244,
            OpCode::TeachEventByIndex => 245,
            OpCode::DataEventAccessory => 246,
            OpCode::NodeDataEventResponse => 247,
            OpCode::ShortEventAccessoryOn3 => 248,
            OpCode::ShortEventAccessoryOff3 => 249,
            OpCode::DeviceDataEventShortMode => 250,
            OpCode::DeviceDataResponseShortMode => 251,
            OpCode::WriteData => 252,
            OpCode::ShortEventAccessoryStateOn3 => 253,
            OpCode::ShortEventAccessoryStateOff3 => 254,
            OpCode::ExtOpCode6 => 255,
        }
    }

    fn try_from_code(code: u8) -> (r: Result<Self, UndefinedCode>) {
        assert(Self::space() == CodeSpace::OpCode);
        match code {
            0 => Ok(OpCode::GeneralAck),
            1 => Ok(OpCode::GeneralNack),
            2 => Ok(OpCode::BusHalt),
            3 => Ok(OpCode::BusResume),
            4 => Ok(OpCode::DccTrackPoweredOff),
            5 => Ok(OpCode::DccTrackPoweredOn),
            6 => Ok(OpCode::DccEmergencyStopEngaged),
            7 => Ok(OpCode::RestartAllNodes),
            8 => Ok(OpCode::DccTrackPowerOff),
            9 => Ok(OpCode::DccTrackPowerOn),
            10 => Ok(OpCode::DccEmergencyStop),
            12 => Ok(OpCode::DccQueryCommandStationStatus),
            13 => Ok(OpCode::QueryNodeInfo),
            16 => Ok(OpCode::QueryNodeParameters),
            17 => Ok(OpCode::QueryModuleName),
            33 => Ok(OpCode::DccReleaseSession),
            34 => Ok(OpCode::DccQueryLocoStatus),
            35 => Ok(OpCode::DccSessionKeepAlive),
            48 => Ok(OpCode::DebugMsg1),
            63 => Ok(OpCode::ExtOpCode),
            64 => Ok(OpCode::DccRequestNewSession),
            65 => Ok(OpCode::DccQueryConsist),
            66 => Ok(OpCode::SetNodeNumber),
            67 => Ok(OpCode::DccAllocateLocoToActivity),
            68 => Ok(OpCode::DccSetThrottleMode),
            69 => Ok(OpCode::DccConsistAddLoco),
            70 => Ok(OpCode::DccConsistRemoveLoco),
            71 => Ok(OpCode::DccSetLocoThrottle),
            72 => Ok(OpCode::DccSetLocoFlags),
            73 => Ok(OpCode::DccLocoFunctionOn),
            74 => Ok(OpCode::DccLocoFunctionOff),
            76 => Ok(OpCode::DccServiceModeStatus),
            79 => Ok(OpCode::ResetModuleToFactory),
            80 => Ok(OpCode::RequestNewNodeNumber),
            81 => Ok(OpCode::NodeNumberReleased),
            82 => Ok(OpCode::NodeNumberAck),
            83 => Ok(OpCode::PutNodeIntoLearnMode),
            84 => Ok(OpCode::ReleaseNodeFromLearnMode),
            85 => Ok(OpCode::ForgetAllLearnedEvents),
            86 => Ok(OpCode::QueryAvailableEventSlots),
            87 => Ok(OpCode::QueryAllLearnedEvents),
            88 => Ok(OpCode::QueryLearnedEventCount),
            89 => Ok(OpCode::WriteAck),
            90 => Ok(OpCode::QueryNodeData),
            91 => Ok(OpCode::RequestDeviceDataShortMode),
            92 => Ok(OpCode::RebootIntoBootloader),
            93 => Ok(OpCode::ForceCanEnumeration),
            94 => Ok(OpCode::RestartNode),
            95 => Ok(OpCode::ExtOpCode1),
            96 => Ok(OpCode::DccSetLocoFunctions),
            97 => Ok(OpCode::DccQueryLocoSession),
            99 => Ok(OpCode::DccCommandStationError),
            111 => Ok(OpCode::NodeConfigurationError),
            112 => Ok(OpCode::AvailableEventSlots),
            113 => Ok(OpCode::QueryNodeVariable),
            114 => Ok(OpCode::QueryLearnedEventByIndex),
            115 => Ok(OpCode::QueryNodeParameterByIndex),
            116 => Ok(OpCode::LearnedEventCount),
            117 => Ok(OpCode::SetNodeCanId),
            118 => Ok(OpCode::PutNodeIntoMode),
            120 => Ok(OpCode::ServiceDiscoveryQuery),
            127 => Ok(OpCode::ExtOpCode2),
            128 => Ok(OpCode::DccSendRawPacket3),
            130 => Ok(OpCode::DccWriteCvByteInOpsMode),
            131 => Ok(OpCode::DcWriteCvBitInOpsMode),
            132 => Ok(OpCode::DccReadCv),
            133 => Ok(OpCode::DccCvValue),
            135 => Ok(OpCode::QueryDiagnosticData),
            142 => Ok(OpCode::SetNodeVariable),
            144 => Ok(OpCode::LongEventAccessoryOn),
            145 => Ok(OpCode::LongEventAccessoryOff),
            146 => Ok(OpCode::QueryLongEventAccessoryState),
            147 => Ok(OpCode::LongEventAccessoryStateOn),
            148 => Ok(OpCode::LongEventAccessoryStateOff),
            149 => Ok(OpCode::ForgetLearnedEvent),
            150 => Ok(OpCode::LegacySetNodeVariable),
            151 => Ok(OpCode::NodeVariableValue),
            152 => Ok(OpCode::ShortEventAccessoryOn),
            153 => Ok(OpCode::ShortEventAccessoryOff),
            154 => Ok(OpCode::QueryShortEventAccessoryState),
            155 => Ok(OpCode::NodeParameterValue),
            156 => Ok(OpCode::QueryEventVariable),
            157 => Ok(OpCode::ShortEventAccessoryStateOn),
            158 => Ok(OpCode::ShortEventAccessoryStateOff),
            159 => Ok(OpCode::ExtOpCode3),
            160 => Ok(OpCode::DccSendRawPacket4),
            162 => Ok(OpCode::DccWriteCvInServiceMode),
            171 => Ok(OpCode::Heartbeat),
            172 => Ok(OpCode::ServiceDiscoveryResponse),
            175 => Ok(OpCode::GenericResponse),
            176 => Ok(OpCode::LongEventAccessoryOn1),
            177 => Ok(OpCode::LongEventAccessoryOff1),
            178 => Ok(OpCode::QueryEventVariableInLearnMode),
            179 => Ok(OpCode::LongEventAccessoryStateOn1),
            180 => Ok(OpCode::LongEventAccessoryStateOff1),
            181 => Ok(OpCode::EventVariableValue),
            182 => Ok(OpCode::NodeInfo),
            184 => Ok(OpCode::ShortEventAccessoryOn1),
            185 => Ok(OpCode::ShortEventAccessoryOff1),
            189 => Ok(OpCode::ShortEventAccessoryStateOn1),
            190 => Ok(OpCode::ShortEventAccessoryStateOff1),
            191 => Ok(OpCode::ExtOpCode4),
            192 => Ok(OpCode::DccSendRawPacket5),
            193 => Ok(OpCode::DccWriteCvByteInOpsModeByAddress),
            194 => Ok(OpCode::DccSendDataToCab),
            199 => Ok(OpCode::DiagnosticData),
            207 => Ok(OpCode::FastClock),
            208 => Ok(OpCode::LongEventAccessoryOn2),
            209 => Ok(OpCode::LongEventAccessoryOff2),
            210 => Ok(OpCode::TeachEvent),
            211 => Ok(OpCode::EventVariableValueInLearnMode),
            212 => Ok(OpCode::LongEventAccessoryStateOn2),
            213 => Ok(OpCode::LongEventAccessoryStateOff2),
            216 => Ok(OpCode::ShortEventAccessoryOn2),
            217 => Ok(OpCode::ShortEventAccessoryOff2),
            221 => Ok(OpCode::ShortEventAccessoryStateOn2),
            222 => Ok(OpCode::ShortEventAccessoryStateOff2),
            223 => Ok(OpCode::ExtOpCode5),
            224 => Ok(OpCode::DccSendRawPacket6),
            225 => Ok(OpCode::DccLocoReport),
            226 => Ok(OpCode::ModuleName),
            227 => Ok(OpCode::DccCommandStationStatus),
            230 => Ok(OpCode::EventAck),
            231 => Ok(OpCode::ExtendedServiceDiscoveryResponse),
            233 => Ok(OpCode::StreamPacket),
            239 => Ok(OpCode::NodeParametersReport),
            240 => Ok(OpCode::LongEventAccessoryOn3),
            241 => Ok(OpCode::LongEventAccessoryOff3),
            242 => Ok(OpCode::LearnedEventResponse),
            243 => Ok(OpCode::LongEventAccessoryStateOn3),
            244 => Ok(OpCode::LongEventAccessoryStateOff3),
            245 => Ok(OpCode::TeachEventByIndex),
            246 => Ok(OpCode::DataEventAccessory),
            247 => Ok(OpCode::NodeDataEventResponse),
            248 => Ok(OpCode::ShortEventAccessoryOn3),
            249 => Ok(OpCode::ShortEventAccessoryOff3),
            250 => Ok(OpCode::DeviceDataEventShortMode),
            251 => Ok(OpCode::DeviceDataResponseShortMode),
            252 => Ok(OpCode::WriteData),
            253 => Ok(OpCode::ShortEventAccessoryStateOn3),
            254 => Ok(OpCode::ShortEventAccessoryStateOff3),
            255 => Ok(OpCode::ExtOpCode6),
            _ => Err(UndefinedCode { space: CodeSpace::OpCode, value: code }),
        }
    }
}

impl From<OpCode> for u8 {
    /// The wire byte of `value`.
    fn from(value: OpCode) -> (c: u8) {
        value.to_code()
    }
}

impl vstd::std_specs::convert::FromSpecImpl<OpCode> for u8 {
    open spec fn obeys_from_spec() -> bool {
        true
    }

    open spec fn from_spec(value: OpCode) -> u8 {
        value.code()
    }
}

impl TryFrom<u8> for OpCode {
    type Error = UndefinedCode;

    /// The checked conversion of `code`.
    fn try_from(code: u8) -> (r: Result<OpCode, UndefinedCode>) {
        OpCode::try_from_code(code)
    }
}

impl vstd::std_specs::convert::TryFromSpecImpl<u8> for OpCode {
    open spec fn obeys_try_from_spec() -> bool {
        true
    }

    open spec fn try_from_spec(code: u8) -> Result<OpCode, UndefinedCode> {
        checked::<OpCode>(code)
    }
}

/// The number of data bytes that follow an operation code in a frame. The
/// three most significant bits of the code give it, read as a number, for
/// every byte alike: for one that names no operation too, since a frame
/// has to be cut to length before its meaning is looked at.
pub open spec fn data_bytes(code: u8) -> nat {
    (code / 32) as nat
}

/// The number of data bytes that follow the operation code `code`.
pub fn data_byte_count(code: u8) -> (n: u8)
    ensures
        n == data_bytes(code),
        n == code >> 5,
        n <= 7,
{
    assert(code >> 5 == code / 32) by (bit_vector);
    code >> 5
}

impl OpCode {
    /// The number of data bytes that follow this operation code.
    pub fn data_byte_count(self) -> (n: u8)
        ensures
            n == data_bytes(self.code()),
            n <= 7,
    {
        data_byte_count(self.to_code())
    }
}

/// All the codes of one band of 32 have the same number of data bytes, the
/// number of the band, and the eight bands cover every byte.
pub proof fn lemma_data_bytes_bands(code: u8)
    ensures
        data_bytes(code) <= 7,
        32 * data_bytes(code) <= code < 32 * data_bytes(code) + 32,
{
}

} // verus!
