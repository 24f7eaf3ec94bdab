//! Error result codes that the module reports: `+CME ERROR`, `+CMS ERROR`
//! and the plain `ERROR`.

use crate::text::{chars_of, spells, strip_prefix, trim, trimmed};
use vstd::prelude::*;

verus! {

/// An error result code of the module.
#[derive(Debug, Clone, Copy, PartialEq, Eq, Structural)]
pub enum UbloxError {
    Generic,
    Cme(CmeError),
    Cms(CmsError),
}

/// Message service error result codes +CMS ERROR
#[derive(Debug, Clone, Copy, PartialEq, Eq, Structural)]
pub enum CmsError {
    Empty,
    Unknown,
}

/// Mobile termination error result codes +CME ERROR
#[derive(Debug, Clone, Copy, PartialEq, Eq, Structural)]
pub enum CmeError {
    PhoneFailure,
    NoConnectionToPhone,
    PhoneAdaptorLinkReserved,
    OperationNotAllowed,
    OperationNotSupported,
    PhSimPinRequired,
    PhFsimPinRequired,
    PhFsimPukRequired,
    SimNotInserted,
    SimPinRequired,
    SimPukRequired,
    SimFailure,
    SimBusy,
    SimWrong,
    IncorrectPassword,
    SimPin2Required,
    SimPuk2Required,
    MemoryFull,
    InvalidIndex,
    NetworkNotFound,
    MemoryFailure,
    TextStringTooLong,
    InvalidCharactersInTextString,
    DialStringTooLong,
    InvalidCharactersInDialString,
    NoNetworkService,
    NetworkTimeout,
    NetworkNotAllowedEmergencyCallsOnly,
    NetworkPersonalisationPinRequired,
    NetworkPersonalisationPukRequired,
    NetworkSubsetPersonalisationPinRequired,
    NetworkSubsetPersonalisationPukRequired,
    ServiceProviderPersonalisationPinRequired,
    ServiceProviderPersonalisationPukRequired,
    CorporatePersonalisationPinRequired,
    CorporatePersonalisationPukRequired,
    IncorrectParameters,
    CommandImplementedButCurrentlyDisabled,
    CommandAbortedByUser,
    NotAttachedToNetworkDueToMtFunctionalityRestrictions,
    ModemNotAllowedMtRestrictedToEmergencyCallsOnly,
    OperationNotAllowedBecauseOfMtFunctionalityRestrictions,
    FixedDialNumberOnlyAllowedCalledNumberIsNotAFixedDialNumber,
    TemporarilyOutOfServiceDueToOtherMtUsage,
    Unknown,
    IllegalMs,
    IllegalMe,
    GprsServicesNotAllowed,
    GprsAndNonGprsServicesNotAllowed,
    PlmnNotAllowed,
    LocationAreaNotAllowed,
    RoamingNotAllowedInThisLocationArea,
    GprsServicesNotAllowedInThisPlmn,
    NoSuitableCellsInLocationArea,
    Congestion,
    NotAuthorizedForThisCsg,
    InsufficientResources,
    MissingOrUnknownApn,
    UnknownPdpAddressOrPdpType,
    UserAuthenticationFailed,
    RequestRejectedByServingGwOrPdnGw,
    RequestRejectedUnspecified,
    ServiceOptionNotSupported,
    RequestedServiceOptionNotSubscribed,
    ServiceOptionTemporarilyOutOfOrder,
    NsApiAlreadyUsed,
    EpsQoSNotAccepted,
    NetworkFailure,
    FeatureNotSupported,
    SemanticErrorInTheTftOperation,
    SyntacticalErrorInTheTftOperation,
    UnknownPdpContext,
    SemanticErrorsInPacketFilterS,
    SyntacticalErrorsInPacketFilterS,
    PdpContextWithoutTftAlreadyActivated,
    PtiMismatch,
    UnspecifiedGprsError,
    PdpAuthenticationFailure,
    InvalidMobileClass,
    EsmInformationNotReceived,
    PdnConnectionDoesNotExist,
    MultiplePdnConnectionsForAGivenApnNotAllowed,
    UserBusy,
    UplinkBusyFlowControl,
    BearerHandlingNotSupported,
    MaximumNumberOfEpsBearersReached,
    RequestedApnNotSupportedInCurrentRatAndPlmnCombination,
    ImsiUnknownInVlr,
    LastPdnDisconnectionNotAllowed,
    SemanticallyIncorrectMessage,
    MandatoryInformationElementError,
    InformationElementNonExistentOrNotImplemented,
    ConditionalIeError,
    ProtocolErrorUnspecified,
    OperatorDeterminedBarring,
    MaximumNumberOfPdpContextsReached,
    RequestRejectedBearerControlModeViolation,
    InvalidPtiValue,
    InvalidMandatoryIe,
    MessageTypeNonExistent,
    MessageTypeNotCompatible,
    IeNonExistent,
    MessageNotCompatible,
    InvalidErrorMapping,
    InternalError,
    SimBlocked,
    MeFailure,
    SmsServiceOfMeReserved,
    InvalidPduModeParameter,
    InvalidTextModeParameter,
    USimNotInserted,
    USimPinRequired,
    PhUSimPinRequired,
    USimFailure,
    USimBusy,
    USimWrong,
    USimPukRequired,
    USimPin2Required,
    USimPuk2Required,
    InvalidMemoryIndex,
    SmscAddressUnknown,
    NoCnmaAcknowledgementExpected,
    UnknownError,
    VoiceCallActive,
    IncorrectSecurityCode,
    MaxAttemptsReached,
    UnassignedUnallocatedNumber,
    NoRouteToDestination,
    ChannelUnacceptable,
    NormalCallClearing,
    NoUserResponding,
    UserAlertingNoAnswer,
    CallRejected,
    NumberChanged,
    NonSelectedUserClearing,
    DestinationOutOfOrder,
    InvalidNumberFormatIncompleteNumber,
    FacilityRejected,
    ResponseToStatusEnquiry,
    NormalUnspecified,
    NoCircuitChannelAvailable,
    NetworkOutOfOrder,
    TemporaryFailure,
    SwitchingEquipmentCongestion,
    AccessInformationDiscarded,
    RequestedCircuitChannelNotAvailable,
    ResourcesUnavailableUnspecified,
    QualityOfServiceUnavailable,
    RequestedFacilityNotSubscribed,
    IncomingCallsBarredWithinTheCug,
    CollisionWithNetworkInitiatedRequest,
    BearerCapabilityNotAuthorized,
    BearerCapabilityNotPresentlyAvailable,
    UnsupportedQciValue,
    ServiceOrOptionNotAvailableUnspecified,
    BearerServiceNotImplemented,
    AcmEqualToOrGreaterThanAcMmax,
    RequestedFacilityNotImplemented,
    OnlyRestrictedDigitalInformationBearerCapabilityIsAvailable,
    ServiceOrOptionNotImplementedUnspecified,
    InvalidTransactionIdentifierValue,
    UserNotMemberOfCug,
    IncompatibleDestination,
    InvalidTransitNetworkSelection,
    InvalidMandatoryInformation,
    MessageTypeNonExistentOrNotImplemented,
    MessageTypeNotCompatibleWithProtocolState,
    MessageNotCompatibleWithProtocolState,
    RecoveryOnTimerExpiry,
    ApnRestrictionValueIncompatibleWithActiveEpsBearerContext,
    InterworkingUnspecified,
    NetworkError,
    InvalidEpsBearerIdentity,
    EmmErrorUnspecified,
    EsmErrorUnspecified,
    NumberNotAllowed,
    CcbsPossible,
    WrongGpioIdentifier,
    SetGpioDefaultError,
    SelectGpioModeError,
    ReadGpioError,
    WriteGpioError,
    GpioBusy,
    WrongAdcIdentifier,
    ReadAdcError,
    IPv4OnlyAllowed,
    IPv6OnlyAllowed,
    WrongRingerIdentifier,
    LlcOrSndcpFailure,
    RegularDeactivation,
    ReactivationRequested,
    SingleAddressBearersOnlyAllowed,
    ApnRestrictionValIncompatibleWithPdpContext,
    PdpActivationRejected,
    GprsGenericOperationError,
    GprsInvalidApn,
    GprsAuthenticationFailure,
    GprsQoSParametersInconsistent,
    GprsNetworkFailure,
    GprsContextBusy,
    CsdGenericOperationError,
    CsdUndefinedProfile,
    CsdContextBusy,
    PlmnScanNotAllowed,
    FfsError,
    PdpTypeIPv4OnlyAllowed,
    PdpTypeIPv6OnlyAllowed,
    FileNotFound,
    CannotOpenFile,
    TacValueNotAllowed,
    OtpFailure,
    WrongCheckDigit,
    BufferFull,
    FfsInitializing,
    FfsAlreadyOpenFile,
    FfsNotOpenFile,
    FfsFileNotFound,
    FfsFileAlreadyCreated,
    FfsIllegalId,
    FfsIllegalFileHandle,
    FfsIllegalType,
    FfsIllegalMode,
    FfsFileRange,
    FfsOperationNotPossible,
    FfsWriteError,
    FfsUserIdError,
    FfsInternalFatalError,
    FfsMemoryResourceError,
    FfsMaximumNumberOfFilesExceeded,
    FfsMemoryNotAvailable,
    FfsInvalidFilename,
    FfsStreamingNotEnabled,
    FfsOperationNotAllowedOnStaticFile,
    FfsMemoryTableInconsistency,
    FfsNotAFactoryDefaultFile,
    FfsRequestedMemoryTemporaryNotAvailable,
    FfsOperationNotAllowedForADirectory,
    FfsDirectorySpaceNotAvailable,
    FfsTooManyStreamingFilesOpen,
    FfsRequestedDynamicMemoryTemporaryNotAvailable,
    FfsUserProvidedANullParameterInsteadOfASuitableBuffer,
    FfsTimeout,
}

/// Whether the text `s` names the error `e`: each error is reported either
/// by its numeric code (some by more than one) or by its verbose text.
pub open spec fn cme_named(e: CmeError, s: Seq<char>) -> bool {
    match e {
        CmeError::PhoneFailure => s == "0"@ || s == "Phone failure"@,
        CmeError::NoConnectionToPhone => s == "1"@ || s == "No connection to phone"@,
        CmeError::PhoneAdaptorLinkReserved => s == "2"@ || s == "Phone-adaptor link reserved"@,
        CmeError::OperationNotAllowed => s == "3"@ || s == "302"@ || s == "Operation not allowed"@,
        CmeError::OperationNotSupported => s == "4"@ || s == "303"@ || s == "Operation not supported"@,
        CmeError::PhSimPinRequired => s == "5"@ || s == "PH-SIM PIN required"@,
        CmeError::PhFsimPinRequired => s == "6"@ || s == "PH-FSIM PIN required"@,
        CmeError::PhFsimPukRequired => s == "7"@ || s == "PH-FSIM PUK required"@,
        CmeError::SimNotInserted => s == "10"@ || s == "SIM not inserted"@,
        CmeError::SimPinRequired => s == "11"@ || s == "SIM PIN required"@,
        CmeError::SimPukRequired => s == "12"@ || s == "SIM PUK required"@,
        CmeError::SimFailure => s == "13"@ || s == "SIM failure"@,
        CmeError::SimBusy => s == "14"@ || s == "SIM busy"@,
        CmeError::SimWrong => s == "15"@ || s == "SIM wrong"@,
        CmeError::IncorrectPassword => s == "16"@ || s == "Incorrect password"@,
        CmeError::SimPin2Required => s == "17"@ || s == "SIM PIN2 required"@,
        CmeError::SimPuk2Required => s == "18"@ || s == "SIM PUK2 required"@,
        CmeError::MemoryFull => s == "20"@ || s == "322"@ || s == "Memory full"@,
        CmeError::InvalidIndex => s == "21"@ || s == "Invalid index"@,
        CmeError::NetworkNotFound => s == "22"@ || s == "Network not found"@,
        CmeError::MemoryFailure => s == "23"@ || s == "320"@ || s == "Memory failure"@,
        CmeError::TextStringTooLong => s == "24"@ || s == "Text string too long"@,
        CmeError::InvalidCharactersInTextString => s == "25"@ || s == "Invalid characters in text string"@,
        CmeError::DialStringTooLong => s == "26"@ || s == "Dial string too long"@,
        CmeError::InvalidCharactersInDialString => s == "27"@ || s == "Invalid characters in dial string"@,
        CmeError::NoNetworkService => s == "30"@ || s == "331"@ || s == "No network service"@,
        CmeError::NetworkTimeout => s == "31"@ || s == "332"@ || s == "Network timeout"@,
        CmeError::NetworkNotAllowedEmergencyCallsOnly => s == "32"@ || s == "Network not allowed - emergency calls only"@,
        CmeError::NetworkPersonalisationPinRequired => s == "40"@ || s == "Network personalisation PIN required"@,
        CmeError::NetworkPersonalisationPukRequired => s == "41"@ || s == "Network personalisation PUK required"@,
        CmeError::NetworkSubsetPersonalisationPinRequired => s == "42"@ || s == "Network subset personalisation PIN required"@,
        CmeError::NetworkSubsetPersonalisationPukRequired => s == "43"@ || s == "Network subset personalisation PUK required"@,
        CmeError::ServiceProviderPersonalisationPinRequired => s == "44"@ || s == "Service provider personalisation PIN required"@,
        CmeError::ServiceProviderPersonalisationPukRequired => s == "45"@ || s == "Service provider personalisation PUK required"@,
        CmeError::CorporatePersonalisationPinRequired => s == "46"@ || s == "Corporate personalisation PIN required"@,
        CmeError::CorporatePersonalisationPukRequired => s == "47"@ || s == "Corporate personalisation PUK required"@,
        CmeError::IncorrectParameters => s == "50"@ || s == "Incorrect parameters"@,
        CmeError::CommandImplementedButCurrentlyDisabled => s == "51"@ || s == "Command implemented but currently disabled"@,
        CmeError::CommandAbortedByUser => s == "52"@ || s == "Command aborted by user"@,
        CmeError::NotAttachedToNetworkDueToMtFunctionalityRestrictions => s == "53"@ || s == "Not attached to network due to MT functionality restrictions"@,
        CmeError::ModemNotAllowedMtRestrictedToEmergencyCallsOnly => s == "54"@ || s == "Modem not allowed - MT restricted to emergency calls only"@,
        CmeError::OperationNotAllowedBecauseOfMtFunctionalityRestrictions => s == "55"@ || s == "Operation not allowed because of MT functionality restrictions"@,
        CmeError::FixedDialNumberOnlyAllowedCalledNumberIsNotAFixedDialNumber => s == "56"@ || s == "Fixed dial number only allowed - called number is not a fixed dial number"@,
        CmeError::TemporarilyOutOfServiceDueToOtherMtUsage => s == "57"@ || s == "Temporarily out of service due to other MT usage"@,
        CmeError::Unknown => s == "100"@ || s == "Unknown"@,
        CmeError::IllegalMs => s == "103"@ || s == "Illegal MS"@,
        CmeError::IllegalMe => s == "106"@ || s == "Illegal ME"@,
        CmeError::GprsServicesNotAllowed => s == "107"@ || s == "GPRS services not allowed"@,
        CmeError::GprsAndNonGprsServicesNotAllowed => s == "108"@ || s == "GPRS and non GPRS services not allowed"@,
        CmeError::PlmnNotAllowed => s == "111"@ || s == "PLMN not allowed"@,
        CmeError::LocationAreaNotAllowed => s == "112"@ || s == "Location area not allowed"@,
        CmeError::RoamingNotAllowedInThisLocationArea => s == "113"@ || s == "Roaming not allowed in this location area"@,
        CmeError::GprsServicesNotAllowedInThisPlmn => s == "114"@ || s == "GPRS services not allowed in this PLMN"@,
        CmeError::NoSuitableCellsInLocationArea => s == "115"@ || s == "No Suitable Cells In Location Area"@,
        CmeError::Congestion => s == "122"@ || s == "170"@ || s == "Congestion"@,
        CmeError::NotAuthorizedForThisCsg => s == "125"@ || s == "Not authorized for this CSG"@,
        CmeError::InsufficientResources => s == "126"@ || s == "Insufficient resources"@,
        CmeError::MissingOrUnknownApn => s == "127"@ || s == "Missing or unknown APN"@,
        CmeError::UnknownPdpAddressOrPdpType => s == "128"@ || s == "1549"@ || s == "Unknown PDP address or PDP type"@,
        CmeError::UserAuthenticationFailed => s == "129"@ || s == "User authentication failed"@,
        CmeError::RequestRejectedByServingGwOrPdnGw => s == "130"@ || s == "Request rejected by Serving GW or PDN GW"@,
        CmeError::RequestRejectedUnspecified => s == "131"@ || s == "Request rejected, unspecified"@,
        CmeError::ServiceOptionNotSupported => s == "132"@ || s == "Service option not supported"@,
        CmeError::RequestedServiceOptionNotSubscribed => s == "133"@ || s == "Requested service option not subscribed"@,
        CmeError::ServiceOptionTemporarilyOutOfOrder => s == "134"@ || s == "Service option temporarily out of order"@,
        CmeError::NsApiAlreadyUsed => s == "135"@ || s == "NS-api already used"@,
        CmeError::EpsQoSNotAccepted => s == "137"@ || s == "EPS QoS not accepted"@,
        CmeError::NetworkFailure => s == "138"@ || s == "168"@ || s == "Network failure"@,
        CmeError::FeatureNotSupported => s == "140"@ || s == "Feature not supported"@,
        CmeError::SemanticErrorInTheTftOperation => s == "141"@ || s == "Semantic error in the TFT operation"@,
        CmeError::SyntacticalErrorInTheTftOperation => s == "142"@ || s == "Syntactical error in the TFT operation"@,
        CmeError::UnknownPdpContext => s == "143"@ || s == "Unknown PDP context"@,
        CmeError::SemanticErrorsInPacketFilterS => s == "144"@ || s == "Semantic errors in packet filter(s)"@,
        CmeError::SyntacticalErrorsInPacketFilterS => s == "145"@ || s == "Syntactical errors in packet filter(s)"@,
        CmeError::PdpContextWithoutTftAlreadyActivated => s == "146"@ || s == "PDP context without TFT already activated"@,
        CmeError::PtiMismatch => s == "147"@ || s == "PTI mismatch"@,
        CmeError::UnspecifiedGprsError => s == "148"@ || s == "Unspecified GPRS error"@,
        CmeError::PdpAuthenticationFailure => s == "149"@ || s == "PDP authentication failure"@,
        CmeError::InvalidMobileClass => s == "150"@ || s == "Invalid mobile class"@,
        CmeError::EsmInformationNotReceived => s == "153"@ || s == "ESM information not received"@,
        CmeError::PdnConnectionDoesNotExist => s == "154"@ || s == "PDN connection does not exist"@,
        CmeError::MultiplePdnConnectionsForAGivenApnNotAllowed => s == "155"@ || s == "Multiple PDN connections for a given APN not allowed"@,
        CmeError::UserBusy => s == "156"@ || s == "1017"@ || s == "User Busy"@,
        CmeError::UplinkBusyFlowControl => s == "159"@ || s == "Uplink Busy/ Flow Control"@,
        CmeError::BearerHandlingNotSupported => s == "160"@ || s == "Bearer handling not supported"@,
        CmeError::MaximumNumberOfEpsBearersReached => s == "165"@ || s == "Maximum number of EPS bearers reached"@,
        CmeError::RequestedApnNotSupportedInCurrentRatAndPlmnCombination => s == "166"@ || s == "179"@ || s == "Requested APN not supported in current RAT and PLMN combination"@,
        CmeError::ImsiUnknownInVlr => s == "169"@ || s == "IMSI unknown in VLR"@,
        CmeError::LastPdnDisconnectionNotAllowed => s == "171"@ || s == "1149"@ || s == "Last PDN disconnection not allowed"@,
        CmeError::SemanticallyIncorrectMessage => s == "172"@ || s == "189"@ || s == "1095"@ || s == "Semantically incorrect message"@,
        CmeError::MandatoryInformationElementError => s == "173"@ || s == "Mandatory information element error"@,
        CmeError::InformationElementNonExistentOrNotImplemented => s == "174"@ || s == "1099"@ || s == "Information element non-existent or not implemented"@,
        CmeError::ConditionalIeError => s == "175"@ || s == "194"@ || s == "1100"@ || s == "Conditional IE error"@,
        CmeError::ProtocolErrorUnspecified => s == "176"@ || s == "197"@ || s == "1111"@ || s == "Protocol error, unspecified"@ || s == "Protocol error unspecified"@,
        CmeError::OperatorDeterminedBarring => s == "177"@ || s == "1008"@ || s == "Operator determined barring"@,
        CmeError::MaximumNumberOfPdpContextsReached => s == "178"@ || s == "Maximum number of PDP contexts reached"@,
        CmeError::RequestRejectedBearerControlModeViolation => s == "180"@ || s == "Request rejected, bearer control mode violation"@,
        CmeError::InvalidPtiValue => s == "181"@ || s == "Invalid PTI value"@,
        CmeError::InvalidMandatoryIe => s == "190"@ || s == "Invalid mandatory IE"@,
        CmeError::MessageTypeNonExistent => s == "191"@ || s == "Message type non existent"@,
        CmeError::MessageTypeNotCompatible => s == "192"@ || s == "Message type not compatible"@,
        CmeError::IeNonExistent => s == "193"@ || s == "IE non existent"@,
        CmeError::MessageNotCompatible => s == "195"@ || s == "Message not compatible"@,
        CmeError::InvalidErrorMapping => s == "254"@ || s == "Invalid error mapping"@,
        CmeError::InternalError => s == "255"@ || s == "Internal error"@,
        CmeError::SimBlocked => s == "262"@ || s == "SIM blocked"@,
        CmeError::MeFailure => s == "300"@ || s == "ME failure"@,
        CmeError::SmsServiceOfMeReserved => s == "301"@ || s == "SMS service of ME reserved"@,
        CmeError::InvalidPduModeParameter => s == "304"@ || s == "Invalid PDU mode parameter"@,
        CmeError::InvalidTextModeParameter => s == "305"@ || s == "Invalid text mode parameter"@,
        CmeError::USimNotInserted => s == "310"@ || s == "(U)SIM not inserted"@,
        CmeError::USimPinRequired => s == "311"@ || s == "(U)SIM PIN required"@,
        CmeError::PhUSimPinRequired => s == "312"@ || s == "PH-(U)SIM PIN required"@,
        CmeError::USimFailure => s == "313"@ || s == "(U)SIM failure"@,
        CmeError::USimBusy => s == "314"@ || s == "(U)SIM busy"@,
        CmeError::USimWrong => s == "315"@ || s == "(U)SIM wrong"@,
        CmeError::USimPukRequired => s == "316"@ || s == "(U)SIM PUK required"@,
        CmeError::USimPin2Required => s == "317"@ || s == "(U)SIM PIN2 required"@,
        CmeError::USimPuk2Required => s == "318"@ || s == "(U)SIM PUK2 required"@,
        CmeError::InvalidMemoryIndex => s == "321"@ || s == "Invalid memory index"@,
        CmeError::SmscAddressUnknown => s == "330"@ || s == "SMSC address unknown"@,
        CmeError::NoCnmaAcknowledgementExpected => s == "340"@ || s == "No +CNMA acknowledgement expected"@,
        CmeError::UnknownError => s == "500"@ || s == "Unknown error"@,
        CmeError::VoiceCallActive => s == "608"@ || s == "Voice call active"@,
        CmeError::IncorrectSecurityCode => s == "701"@ || s == "Incorrect security code"@,
        CmeError::MaxAttemptsReached => s == "702"@ || s == "Max attempts reached"@,
        CmeError::UnassignedUnallocatedNumber => s == "1001"@ || s == "Unassigned (unallocated) number"@,
        CmeError::NoRouteToDestination => s == "1003"@ || s == "No route to destination"@,
        CmeError::ChannelUnacceptable => s == "1006"@ || s == "Channel unacceptable"@,
        CmeError::NormalCallClearing => s == "1016"@ || s == "Normal call clearing"@,
        CmeError::NoUserResponding => s == "1018"@ || s == "No user responding"@,
        CmeError::UserAlertingNoAnswer => s == "1019"@ || s == "User alerting, no answer"@,
        CmeError::CallRejected => s == "1021"@ || s == "Call rejected"@,
        CmeError::NumberChanged => s == "1022"@ || s == "Number changed"@,
        CmeError::NonSelectedUserClearing => s == "1026"@ || s == "Non selected user clearing"@,
        CmeError::DestinationOutOfOrder => s == "1027"@ || s == "Destination out of order"@,
        CmeError::InvalidNumberFormatIncompleteNumber => s == "1028"@ || s == "Invalid number format (incomplete number)"@,
        CmeError::FacilityRejected => s == "1029"@ || s == "Facility rejected"@,
        CmeError::ResponseToStatusEnquiry => s == "1030"@ || s == "Response to STATUS ENQUIRY"@,
        CmeError::NormalUnspecified => s == "1031"@ || s == "Normal, unspecified"@,
        CmeError::NoCircuitChannelAvailable => s == "1034"@ || s == "No circuit/channel available"@,
        CmeError::NetworkOutOfOrder => s == "1038"@ || s == "Network out of order"@,
        CmeError::TemporaryFailure => s == "1041"@ || s == "Temporary failure"@,
        CmeError::SwitchingEquipmentCongestion => s == "1042"@ || s == "Switching equipment congestion"@,
        CmeError::AccessInformationDiscarded => s == "1043"@ || s == "Access information discarded"@,
        CmeError::RequestedCircuitChannelNotAvailable => s == "1044"@ || s == "requested circuit/channel not available"@,
        CmeError::ResourcesUnavailableUnspecified => s == "1047"@ || s == "Resources unavailable, unspecified"@,
        CmeError::QualityOfServiceUnavailable => s == "1049"@ || s == "Quality of service unavailable"@,
        CmeError::RequestedFacilityNotSubscribed => s == "1050"@ || s == "Requested facility not subscribed"@,
        CmeError::IncomingCallsBarredWithinTheCug => s == "1055"@ || s == "Incoming calls barred within the CUG"@,
        CmeError::CollisionWithNetworkInitiatedRequest => s == "1056"@ || s == "Collision with network initiated request"@,
        CmeError::BearerCapabilityNotAuthorized => s == "1057"@ || s == "Bearer capability not authorized"@,
        CmeError::BearerCapabilityNotPresentlyAvailable => s == "1058"@ || s == "Bearer capability not presently available"@,
        CmeError::UnsupportedQciValue => s == "1059"@ || s == "Unsupported QCI value"@,
        CmeError::ServiceOrOptionNotAvailableUnspecified => s == "1063"@ || s == "Service or option not available, unspecified"@,
        CmeError::BearerServiceNotImplemented => s == "1065"@ || s == "Bearer service not implemented"@,
        CmeError::AcmEqualToOrGreaterThanAcMmax => s == "1068"@ || s == "ACM equal to or greater than ACMmax"@,
        CmeError::RequestedFacilityNotImplemented => s == "1069"@ || s == "Requested facility not implemented"@,
        CmeError::OnlyRestrictedDigitalInformationBearerCapabilityIsAvailable => s == "1070"@ || s == "Only restricted digital information bearer capability is available"@,
        CmeError::ServiceOrOptionNotImplementedUnspecified => s == "1079"@ || s == "Service or option not implemented, unspecified"@,
        CmeError::InvalidTransactionIdentifierValue => s == "1081"@ || s == "1546"@ || s == "Invalid transaction identifier value"@,
        CmeError::UserNotMemberOfCug => s == "1087"@ || s == "User not member of CUG"@,
        CmeError::IncompatibleDestination => s == "1088"@ || s == "Incompatible destination"@,
        CmeError::InvalidTransitNetworkSelection => s == "1091"@ || s == "Invalid transit network selection"@,
        CmeError::InvalidMandatoryInformation => s == "1096"@ || s == "Invalid mandatory information"@,
        CmeError::MessageTypeNonExistentOrNotImplemented => s == "1097"@ || s == "Message type non-existent or not implemented"@,
        CmeError::MessageTypeNotCompatibleWithProtocolState => s == "1098"@ || s == "Message type not compatible with protocol state"@,
        CmeError::MessageNotCompatibleWithProtocolState => s == "1101"@ || s == "Message not compatible with protocol state"@,
        CmeError::RecoveryOnTimerExpiry => s == "1102"@ || s == "Recovery on timer expiry"@,
        CmeError::ApnRestrictionValueIncompatibleWithActiveEpsBearerContext => s == "1112"@ || s == "APN restriction value incompatible with active EPS bearer context"@,
        CmeError::InterworkingUnspecified => s == "1127"@ || s == "Interworking, unspecified"@,
        CmeError::NetworkError => s == "1142"@ || s == "Network Error"@,
        CmeError::InvalidEpsBearerIdentity => s == "1143"@ || s == "Invalid EPS bearer identity"@,
        CmeError::EmmErrorUnspecified => s == "1243"@ || s == "Emm Error Unspecified"@,
        CmeError::EsmErrorUnspecified => s == "1244"@ || s == "Esm Error Unspecified"@,
        CmeError::NumberNotAllowed => s == "1279"@ || s == "Number not allowed"@,
        CmeError::CcbsPossible => s == "1283"@ || s == "CCBS possible"@,
        CmeError::WrongGpioIdentifier => s == "1500"@ || s == "Wrong GPIO identifier"@,
        CmeError::SetGpioDefaultError => s == "1501"@ || s == "Set GPIO default error"@,
        CmeError::SelectGpioModeError => s == "1502"@ || s == "Select GPIO mode error"@,
        CmeError::ReadGpioError => s == "1503"@ || s == "Read GPIO error"@,
        CmeError::WriteGpioError => s == "1504"@ || s == "Write GPIO error"@,
        CmeError::GpioBusy => s == "1505"@ || s == "GPIO busy"@,
        CmeError::WrongAdcIdentifier => s == "1520"@ || s == "Wrong ADC identifier"@,
        CmeError::ReadAdcError => s == "1521"@ || s == "Read ADC error"@,
        CmeError::IPv4OnlyAllowed => s == "1530"@ || s == "IPv4 only allowed"@,
        CmeError::IPv6OnlyAllowed => s == "1531"@ || s == "IPv6 only allowed"@,
        CmeError::WrongRingerIdentifier => s == "1540"@ || s == "Wrong ringer identifier"@,
        CmeError::LlcOrSndcpFailure => s == "1542"@ || s == "LLC or SNDCP failure"@,
        CmeError::RegularDeactivation => s == "1543"@ || s == "Regular deactivation"@,
        CmeError::ReactivationRequested => s == "1544"@ || s == "Reactivation requested"@,
        CmeError::SingleAddressBearersOnlyAllowed => s == "1545"@ || s == "Single address bearers only allowed"@,
        CmeError::ApnRestrictionValIncompatibleWithPdpContext => s == "1547"@ || s == "APN restriction val incompatible with PDP context"@,
        CmeError::PdpActivationRejected => s == "1548"@ || s == "PDP activation rejected"@,
        CmeError::GprsGenericOperationError => s == "1550"@ || s == "GPRS generic operation error"@,
        CmeError::GprsInvalidApn => s == "1551"@ || s == "GPRS invalid APN"@,
        CmeError::GprsAuthenticationFailure => s == "1552"@ || s == "GPRS authentication failure"@,
        CmeError::GprsQoSParametersInconsistent => s == "1553"@ || s == "GPRS QoS parameters inconsistent"@,
        CmeError::GprsNetworkFailure => s == "1554"@ || s == "GPRS network failure"@,
        CmeError::GprsContextBusy => s == "1555"@ || s == "GPRS context busy"@,
        CmeError::CsdGenericOperationError => s == "1556"@ || s == "CSD generic operation error"@,
        CmeError::CsdUndefinedProfile => s == "1557"@ || s == "CSD undefined profile"@,
        CmeError::CsdContextBusy => s == "1558"@ || s == "CSD context busy"@,
        CmeError::PlmnScanNotAllowed => s == "1559"@ || s == "PLMN scan not allowed"@,
        CmeError::FfsError => s == "1600"@ || s == "FFS error"@,
        CmeError::PdpTypeIPv4OnlyAllowed => s == "1560"@ || s == "PDP type IPv4 only allowed"@,
        CmeError::PdpTypeIPv6OnlyAllowed => s == "1561"@ || s == "PDP type IPv6 only allowed"@,
        CmeError::FileNotFound => s == "1612"@ || s == "FILE NOT FOUND"@,
        CmeError::CannotOpenFile => s == "1613"@ || s == "Cannot open file"@,
        CmeError::TacValueNotAllowed => s == "1614"@ || s == "TAC value not allowed"@,
        CmeError::OtpFailure => s == "1615"@ || s == "OTP failure"@,
        CmeError::WrongCheckDigit => s == "1616"@ || s == "Wrong Check Digit"@,
        CmeError::BufferFull => s == "1620"@ || s == "Buffer full"@,
        CmeError::FfsInitializing => s == "1621"@ || s == "FFS initializing"@,
        CmeError::FfsAlreadyOpenFile => s == "1622"@ || s == "FFS already open file"@,
        CmeError::FfsNotOpenFile => s == "1623"@ || s == "FFS not open file"@,
        CmeError::FfsFileNotFound => s == "1624"@ || s == "FFS file not found"@,
        CmeError::FfsFileAlreadyCreated => s == "1625"@ || s == "FFS file already created"@,
        CmeError::FfsIllegalId => s == "1626"@ || s == "FFS illegal id"@,
        CmeError::FfsIllegalFileHandle => s == "1627"@ || s == "FFS illegal file handle"@,
        CmeError::FfsIllegalType => s == "1628"@ || s == "FFS illegal type"@,
        CmeError::FfsIllegalMode => s == "1629"@ || s == "FFS illegal mode"@,
        CmeError::FfsFileRange => s == "1630"@ || s == "FFS file range"@,
        CmeError::FfsOperationNotPossible => s == "1631"@ || s == "FFS operation not possible"@,
        CmeError::FfsWriteError => s == "1632"@ || s == "FFS write error"@,
        CmeError::FfsUserIdError => s == "1633"@ || s == "FFS user id error"@,
        CmeError::FfsInternalFatalError => s == "1634"@ || s == "FFS internal fatal error"@,
        CmeError::FfsMemoryResourceError => s == "1635"@ || s == "FFS memory resource error"@,
        CmeError::FfsMaximumNumberOfFilesExceeded => s == "1636"@ || s == "FFS maximum number of files exceeded"@,
        CmeError::FfsMemoryNotAvailable => s == "1637"@ || s == "FFS memory not available"@,
        CmeError::FfsInvalidFilename => s == "1638"@ || s == "FFS invalid filename"@,
        CmeError::FfsStreamingNotEnabled => s == "1639"@ || s == "FFS streaming not enabled"@,
        CmeError::FfsOperationNotAllowedOnStaticFile => s == "1640"@ || s == "FFS operation not allowed on static file"@,
        CmeError::FfsMemoryTableInconsistency => s == "1641"@ || s == "FFS memory table inconsistency"@,
        CmeError::FfsNotAFactoryDefaultFile => s == "1642"@ || s == "FFS not a factory default file"@,
        CmeError::FfsRequestedMemoryTemporaryNotAvailable => s == "1643"@ || s == "FFS requested memory temporary not available"@,
        CmeError::FfsOperationNotAllowedForADirectory => s == "1644"@ || s == "FFS operation not allowed for a directory"@,
        CmeError::FfsDirectorySpaceNotAvailable => s == "1645"@ || s == "FFS directory space not available"@,
        CmeError::FfsTooManyStreamingFilesOpen => s == "1646"@ || s == "FFS too many streaming files open"@,
        CmeError::FfsRequestedDynamicMemoryTemporaryNotAvailable => s == "1647"@ || s == "FFS requested dynamic memory temporary not available"@,
        CmeError::FfsUserProvidedANullParameterInsteadOfASuitableBuffer => s == "1648"@ || s == "FFS user provided a NULL parameter instead of a suitable buffer"@,
        CmeError::FfsTimeout => s == "1649"@ || s == "FFS timeout"@,
    }
}

/// The first error of the lookup group 0 of `parse` that the text `t`
/// names, in the order of the table, if any.
pub open spec fn cme_in_group_0(t: Seq<char>) -> Option<CmeError> {
    if t == "0"@ || t == "Phone failure"@ {
        Some(CmeError::PhoneFailure)
    } else if t == "1"@ || t == "No connection to phone"@ {
        Some(CmeError::NoConnectionToPhone)
    } else if t == "2"@ || t == "Phone-adaptor link reserved"@ {
        Some(CmeError::PhoneAdaptorLinkReserved)
    } else if t == "3"@ || t == "302"@ || t == "Operation not allowed"@ {
        Some(CmeError::OperationNotAllowed)
    } else if t == "4"@ || t == "303"@ || t == "Operation not supported"@ {
        Some(CmeError::OperationNotSupported)
    } else if t == "5"@ || t == "PH-SIM PIN required"@ {
        Some(CmeError::PhSimPinRequired)
    } else if t == "6"@ || t == "PH-FSIM PIN required"@ {
        Some(CmeError::PhFsimPinRequired)
    } else if t == "7"@ || t == "PH-FSIM PUK required"@ {
        Some(CmeError::PhFsimPukRequired)
    } else if t == "10"@ || t == "SIM not inserted"@ {
        Some(CmeError::SimNotInserted)
    } else if t == "11"@ || t == "SIM PIN required"@ {
        Some(CmeError::SimPinRequired)
    } else if t == "12"@ || t == "SIM PUK required"@ {
        Some(CmeError::SimPukRequired)
    } else if t == "13"@ || t == "SIM failure"@ {
        Some(CmeError::SimFailure)
    } else if t == "14"@ || t == "SIM busy"@ {
        Some(CmeError::SimBusy)
    } else if t == "15"@ || t == "SIM wrong"@ {
        Some(CmeError::SimWrong)
    } else if t == "16"@ || t == "Incorrect password"@ {
        Some(CmeError::IncorrectPassword)
    } else if t == "17"@ || t == "SIM PIN2 required"@ {
        Some(CmeError::SimPin2Required)
    } else if t == "18"@ || t == "SIM PUK2 required"@ {
        Some(CmeError::SimPuk2Required)
    } else if t == "20"@ || t == "322"@ || t == "Memory full"@ {
        Some(CmeError::MemoryFull)
    } else if t == "21"@ || t == "Invalid index"@ {
        Some(CmeError::InvalidIndex)
    } else if t == "22"@ || t == "Network not found"@ {
        Some(CmeError::NetworkNotFound)
    } else if t == "23"@ || t == "320"@ || t == "Memory failure"@ {
        Some(CmeError::MemoryFailure)
    } else if t == "24"@ || t == "Text string too long"@ {
        Some(CmeError::TextStringTooLong)
    } else if t == "25"@ || t == "Invalid characters in text string"@ {
        Some(CmeError::InvalidCharactersInTextString)
    } else if t == "26"@ || t == "Dial string too long"@ {
        Some(CmeError::DialStringTooLong)
    } else if t == "27"@ || t == "Invalid characters in dial string"@ {
        Some(CmeError::InvalidCharactersInDialString)
    } else {
        None
    }
}

/// The first error of the lookup group 1 of `parse` that the text `t`
/// names, in the order of the table, if any.
pub open spec fn cme_in_group_1(t: Seq<char>) -> Option<CmeError> {
    if t == "30"@ || t == "331"@ || t == "No network service"@ {
        Some(CmeError::NoNetworkService)
    } else if t == "31"@ || t == "332"@ || t == "Network timeout"@ {
        Some(CmeError::NetworkTimeout)
    } else if t == "32"@ || t == "Network not allowed - emergency calls only"@ {
        Some(CmeError::NetworkNotAllowedEmergencyCallsOnly)
    } else if t == "40"@ || t == "Network personalisation PIN required"@ {
        Some(CmeError::NetworkPersonalisationPinRequired)
    } else if t == "41"@ || t == "Network personalisation PUK required"@ {
        Some(CmeError::NetworkPersonalisationPukRequired)
    } else if t == "42"@ || t == "Network subset personalisation PIN required"@ {
        Some(CmeError::NetworkSubsetPersonalisationPinRequired)
    } else if t == "43"@ || t == "Network subset personalisation PUK required"@ {
        Some(CmeError::NetworkSubsetPersonalisationPukRequired)
    } else if t == "44"@ || t == "Service provider personalisation PIN required"@ {
        Some(CmeError::ServiceProviderPersonalisationPinRequired)
    } else if t == "45"@ || t == "Service provider personalisation PUK required"@ {
        Some(CmeError::ServiceProviderPersonalisationPukRequired)
    } else if t == "46"@ || t == "Corporate personalisation PIN required"@ {
        Some(CmeError::CorporatePersonalisationPinRequired)
    } else if t == "47"@ || t == "Corporate personalisation PUK required"@ {
        Some(CmeError::CorporatePersonalisationPukRequired)
    } else if t == "50"@ || t == "Incorrect parameters"@ {
        Some(CmeError::IncorrectParameters)
    } else if t == "51"@ || t == "Command implemented but currently disabled"@ {
        Some(CmeError::CommandImplementedButCurrentlyDisabled)
    } else if t == "52"@ || t == "Command aborted by user"@ {
        Some(CmeError::CommandAbortedByUser)
    } else if t == "53"@ || t == "Not attached to network due to MT functionality restrictions"@ {
        Some(CmeError::NotAttachedToNetworkDueToMtFunctionalityRestrictions)
    } else if t == "54"@ || t == "Modem not allowed - MT restricted to emergency calls only"@ {
        Some(CmeError::ModemNotAllowedMtRestrictedToEmergencyCallsOnly)
    } else if t == "55"@ || t == "Operation not allowed because of MT functionality restrictions"@ {
        Some(CmeError::OperationNotAllowedBecauseOfMtFunctionalityRestrictions)
    } else if t == "56"@ || t == "Fixed dial number only allowed - called number is not a fixed dial number"@ {
        Some(CmeError::FixedDialNumberOnlyAllowedCalledNumberIsNotAFixedDialNumber)
    } else if t == "57"@ || t == "Temporarily out of service due to other MT usage"@ {
        Some(CmeError::TemporarilyOutOfServiceDueToOtherMtUsage)
    } else if t == "100"@ || t == "Unknown"@ {
        Some(CmeError::Unknown)
    } else if t == "103"@ || t == "Illegal MS"@ {
        Some(CmeError::IllegalMs)
    } else if t == "106"@ || t == "Illegal ME"@ {
        Some(CmeError::IllegalMe)
    } else if t == "107"@ || t == "GPRS services not allowed"@ {
        Some(CmeError::GprsServicesNotAllowed)
    } else if t == "108"@ || t == "GPRS and non GPRS services not allowed"@ {
        Some(CmeError::GprsAndNonGprsServicesNotAllowed)
    } else if t == "111"@ || t == "PLMN not allowed"@ {
        Some(CmeError::PlmnNotAllowed)
    } else {
        None
    }
}

/// The first error of the lookup group 2 of `parse` that the text `t`
/// names, in the order of the table, if any.
pub open spec fn cme_in_group_2(t: Seq<char>) -> Option<CmeError> {
    if t == "112"@ || t == "Location area not allowed"@ {
        Some(CmeError::LocationAreaNotAllowed)
    } else if t == "113"@ || t == "Roaming not allowed in this location area"@ {
        Some(CmeError::RoamingNotAllowedInThisLocationArea)
    } else if t == "114"@ || t == "GPRS services not allowed in this PLMN"@ {
        Some(CmeError::GprsServicesNotAllowedInThisPlmn)
    } else if t == "115"@ || t == "No Suitable Cells In Location Area"@ {
        Some(CmeError::NoSuitableCellsInLocationArea)
    } else if t == "122"@ || t == "170"@ || t == "Congestion"@ {
        Some(CmeError::Congestion)
    } else if t == "125"@ || t == "Not authorized for this CSG"@ {
        Some(CmeError::NotAuthorizedForThisCsg)
    } else if t == "126"@ || t == "Insufficient resources"@ {
        Some(CmeError::InsufficientResources)
    } else if t == "127"@ || t == "Missing or unknown APN"@ {
        Some(CmeError::MissingOrUnknownApn)
    } else if t == "128"@ || t == "1549"@ || t == "Unknown PDP address or PDP type"@ {
        Some(CmeError::UnknownPdpAddressOrPdpType)
    } else if t == "129"@ || t == "User authentication failed"@ {
        Some(CmeError::UserAuthenticationFailed)
    } else if t == "130"@ || t == "Request rejected by Serving GW or PDN GW"@ {
        Some(CmeError::RequestRejectedByServingGwOrPdnGw)
    } else if t == "131"@ || t == "Request rejected, unspecified"@ {
        Some(CmeError::RequestRejectedUnspecified)
    } else if t == "132"@ || t == "Service option not supported"@ {
        Some(CmeError::ServiceOptionNotSupported)
    } else if t == "133"@ || t == "Requested service option not subscribed"@ {
        Some(CmeError::RequestedServiceOptionNotSubscribed)
    } else if t == "134"@ || t == "Service option temporarily out of order"@ {
        Some(CmeError::ServiceOptionTemporarilyOutOfOrder)
    } else if t == "135"@ || t == "NS-api already used"@ {
        Some(CmeError::NsApiAlreadyUsed)
    } else if t == "137"@ || t == "EPS QoS not accepted"@ {
        Some(CmeError::EpsQoSNotAccepted)
    } else if t == "138"@ || t == "168"@ || t == "Network failure"@ {
        Some(CmeError::NetworkFailure)
    } else if t == "140"@ || t == "Feature not supported"@ {
        Some(CmeError::FeatureNotSupported)
    } else if t == "141"@ || t == "Semantic error in the TFT operation"@ {
        Some(CmeError::SemanticErrorInTheTftOperation)
    } else if t == "142"@ || t == "Syntactical error in the TFT operation"@ {
        Some(CmeError::SyntacticalErrorInTheTftOperation)
    } else if t == "143"@ || t == "Unknown PDP context"@ {
        Some(CmeError::UnknownPdpContext)
    } else if t == "144"@ || t == "Semantic errors in packet filter(s)"@ {
        Some(CmeError::SemanticErrorsInPacketFilterS)
    } else if t == "145"@ || t == "Syntactical errors in packet filter(s)"@ {
        Some(CmeError::SyntacticalErrorsInPacketFilterS)
    } else if t == "146"@ || t == "PDP context without TFT already activated"@ {
        Some(CmeError::PdpContextWithoutTftAlreadyActivated)
    } else {
        None
    }
}

/// The first error of the lookup group 3 of `parse` that the text `t`
/// names, in the order of the table, if any.
pub open spec fn cme_in_group_3(t: Seq<char>) -> Option<CmeError> {
    if t == "147"@ || t == "PTI mismatch"@ {
        Some(CmeError::PtiMismatch)
    } else if t == "148"@ || t == "Unspecified GPRS error"@ {
        Some(CmeError::UnspecifiedGprsError)
    } else if t == "149"@ || t == "PDP authentication failure"@ {
        Some(CmeError::PdpAuthenticationFailure)
    } else if t == "150"@ || t == "Invalid mobile class"@ {
        Some(CmeError::InvalidMobileClass)
    } else if t == "153"@ || t == "ESM information not received"@ {
        Some(CmeError::EsmInformationNotReceived)
    } else if t == "154"@ || t == "PDN connection does not exist"@ {
        Some(CmeError::PdnConnectionDoesNotExist)
    } else if t == "155"@ || t == "Multiple PDN connections for a given APN not allowed"@ {
        Some(CmeError::MultiplePdnConnectionsForAGivenApnNotAllowed)
    } else if t == "156"@ || t == "1017"@ || t == "User Busy"@ {
        Some(CmeError::UserBusy)
    } else if t == "159"@ || t == "Uplink Busy/ Flow Control"@ {
        Some(CmeError::UplinkBusyFlowControl)
    } else if t == "160"@ || t == "Bearer handling not supported"@ {
        Some(CmeError::BearerHandlingNotSupported)
    } else if t == "165"@ || t == "Maximum number of EPS bearers reached"@ {
        Some(CmeError::MaximumNumberOfEpsBearersReached)
    } else if t == "166"@ || t == "179"@ || t == "Requested APN not supported in current RAT and PLMN combination"@ {
        Some(CmeError::RequestedApnNotSupportedInCurrentRatAndPlmnCombination)
    } else if t == "169"@ || t == "IMSI unknown in VLR"@ {
        Some(CmeError::ImsiUnknownInVlr)
    } else if t == "171"@ || t == "1149"@ || t == "Last PDN disconnection not allowed"@ {
        Some(CmeError::LastPdnDisconnectionNotAllowed)
    } else if t == "172"@ || t == "189"@ || t == "1095"@ || t == "Semantically incorrect message"@ {
        Some(CmeError::SemanticallyIncorrectMessage)
    } else if t == "173"@ || t == "Mandatory information element error"@ {
        Some(CmeError::MandatoryInformationElementError)
    } else if t == "174"@ || t == "1099"@ || t == "Information element non-existent or not implemented"@ {
        Some(CmeError::InformationElementNonExistentOrNotImplemented)
    } else if t == "175"@ || t == "194"@ || t == "1100"@ || t == "Conditional IE error"@ {
        Some(CmeError::ConditionalIeError)
    } else if t == "176"@ || t == "197"@ || t == "1111"@ || t == "Protocol error, unspecified"@ || t == "Protocol error unspecified"@ {
        Some(CmeError::ProtocolErrorUnspecified)
    } else if t == "177"@ || t == "1008"@ || t == "Operator determined barring"@ {
        Some(CmeError::OperatorDeterminedBarring)
    } else if t == "178"@ || t == "Maximum number of PDP contexts reached"@ {
        Some(CmeError::MaximumNumberOfPdpContextsReached)
    } else if t == "180"@ || t == "Request rejected, bearer control mode violation"@ {
        Some(CmeError::RequestRejectedBearerControlModeViolation)
    } else if t == "181"@ || t == "Invalid PTI value"@ {
        Some(CmeError::InvalidPtiValue)
    } else if t == "190"@ || t == "Invalid mandatory IE"@ {
        Some(CmeError::InvalidMandatoryIe)
    } else if t == "191"@ || t == "Message type non existent"@ {
        Some(CmeError::MessageTypeNonExistent)
    } else {
        None
    }
}

/// The first error of the lookup group 4 of `parse` that the text `t`
/// names, in the order of the table, if any.
pub open spec fn cme_in_group_4(t: Seq<char>) -> Option<CmeError> {
    if t == "192"@ || t == "Message type not compatible"@ {
        Some(CmeError::MessageTypeNotCompatible)
    } else if t == "193"@ || t == "IE non existent"@ {
        Some(CmeError::IeNonExistent)
    } else if t == "195"@ || t == "Message not compatible"@ {
        Some(CmeError::MessageNotCompatible)
    } else if t == "254"@ || t == "Invalid error mapping"@ {
        Some(CmeError::InvalidErrorMapping)
    } else if t == "255"@ || t == "Internal error"@ {
        Some(CmeError::InternalError)
    } else if t == "262"@ || t == "SIM blocked"@ {
        Some(CmeError::SimBlocked)
    } else if t == "300"@ || t == "ME failure"@ {
        Some(CmeError::MeFailure)
    } else if t == "301"@ || t == "SMS service of ME reserved"@ {
        Some(CmeError::SmsServiceOfMeReserved)
    } else if t == "304"@ || t == "Invalid PDU mode parameter"@ {
        Some(CmeError::InvalidPduModeParameter)
    } else if t == "305"@ || t == "Invalid text mode parameter"@ {
        Some(CmeError::InvalidTextModeParameter)
    } else if t == "310"@ || t == "(U)SIM not inserted"@ {
        Some(CmeError::USimNotInserted)
    } else if t == "311"@ || t == "(U)SIM PIN required"@ {
        Some(CmeError::USimPinRequired)
    } else if t == "312"@ || t == "PH-(U)SIM PIN required"@ {
        Some(CmeError::PhUSimPinRequired)
    } else if t == "313"@ || t == "(U)SIM failure"@ {
        Some(CmeError::USimFailure)
    } else if t == "314"@ || t == "(U)SIM busy"@ {
        Some(CmeError::USimBusy)
    } else if t == "315"@ || t == "(U)SIM wrong"@ {
        Some(CmeError::USimWrong)
    } else if t == "316"@ || t == "(U)SIM PUK required"@ {
        Some(CmeError::USimPukRequired)
    } else if t == "317"@ || t == "(U)SIM PIN2 required"@ {
        Some(CmeError::USimPin2Required)
    } else if t == "318"@ || t == "(U)SIM PUK2 required"@ {
        Some(CmeError::USimPuk2Required)
    } else if t == "321"@ || t == "Invalid memory index"@ {
        Some(CmeError::InvalidMemoryIndex)
    } else if t == "330"@ || t == "SMSC address unknown"@ {
        Some(CmeError::SmscAddressUnknown)
    } else if t == "340"@ || t == "No +CNMA acknowledgement expected"@ {
        Some(CmeError::NoCnmaAcknowledgementExpected)
    } else if t == "500"@ || t == "Unknown error"@ {
        Some(CmeError::UnknownError)
    } else if t == "608"@ || t == "Voice call active"@ {
        Some(CmeError::VoiceCallActive)
    } else if t == "701"@ || t == "Incorrect security code"@ {
        Some(CmeError::IncorrectSecurityCode)
    } else {
        None
    }
}

/// The first error of the lookup group 5 of `parse` that the text `t`
/// names, in the order of the table, if any.
pub open spec fn cme_in_group_5(t: Seq<char>) -> Option<CmeError> {
    if t == "702"@ || t == "Max attempts reached"@ {
        Some(CmeError::MaxAttemptsReached)
    } else if t == "1001"@ || t == "Unassigned (unallocated) number"@ {
        Some(CmeError::UnassignedUnallocatedNumber)
    } else if t == "1003"@ || t == "No route to destination"@ {
        Some(CmeError::NoRouteToDestination)
    } else if t == "1006"@ || t == "Channel unacceptable"@ {
        Some(CmeError::ChannelUnacceptable)
    } else if t == "1016"@ || t == "Normal call clearing"@ {
        Some(CmeError::NormalCallClearing)
    } else if t == "1018"@ || t == "No user responding"@ {
        Some(CmeError::NoUserResponding)
    } else if t == "1019"@ || t == "User alerting, no answer"@ {
        Some(CmeError::UserAlertingNoAnswer)
    } else if t == "1021"@ || t == "Call rejected"@ {
        Some(CmeError::CallRejected)
    } else if t == "1022"@ || t == "Number changed"@ {
        Some(CmeError::NumberChanged)
    } else if t == "1026"@ || t == "Non selected user clearing"@ {
        Some(CmeError::NonSelectedUserClearing)
    } else if t == "1027"@ || t == "Destination out of order"@ {
        Some(CmeError::DestinationOutOfOrder)
    } else if t == "1028"@ || t == "Invalid number format (incomplete number)"@ {
        Some(CmeError::InvalidNumberFormatIncompleteNumber)
    } else if t == "1029"@ || t == "Facility rejected"@ {
        Some(CmeError::FacilityRejected)
    } else if t == "1030"@ || t == "Response to STATUS ENQUIRY"@ {
        Some(CmeError::ResponseToStatusEnquiry)
    } else if t == "1031"@ || t == "Normal, unspecified"@ {
        Some(CmeError::NormalUnspecified)
    } else if t == "1034"@ || t == "No circuit/channel available"@ {
        Some(CmeError::NoCircuitChannelAvailable)
    } else if t == "1038"@ || t == "Network out of order"@ {
        Some(CmeError::NetworkOutOfOrder)
    } else if t == "1041"@ || t == "Temporary failure"@ {
        Some(CmeError::TemporaryFailure)
    } else if t == "1042"@ || t == "Switching equipment congestion"@ {
        Some(CmeError::SwitchingEquipmentCongestion)
    } else if t == "1043"@ || t == "Access information discarded"@ {
        Some(CmeError::AccessInformationDiscarded)
    } else if t == "1044"@ || t == "requested circuit/channel not available"@ {
        Some(CmeError::RequestedCircuitChannelNotAvailable)
    } else if t == "1047"@ || t == "Resources unavailable, unspecified"@ {
        Some(CmeError::ResourcesUnavailableUnspecified)
    } else if t == "1049"@ || t == "Quality of service unavailable"@ {
        Some(CmeError::QualityOfServiceUnavailable)
    } else if t == "1050"@ || t == "Requested facility not subscribed"@ {
        Some(CmeError::RequestedFacilityNotSubscribed)
    } else if t == "1055"@ || t == "Incoming calls barred within the CUG"@ {
        Some(CmeError::IncomingCallsBarredWithinTheCug)
    } else {
        None
    }
}

/// The first error of the lookup group 6 of `parse` that the text `t`
/// names, in the order of the table, if any.
pub open spec fn cme_in_group_6(t: Seq<char>) -> Option<CmeError> {
    if t == "1056"@ || t == "Collision with network initiated request"@ {
        Some(CmeError::CollisionWithNetworkInitiatedRequest)
    } else if t == "1057"@ || t == "Bearer capability not authorized"@ {
        Some(CmeError::BearerCapabilityNotAuthorized)
    } else if t == "1058"@ || t == "Bearer capability not presently available"@ {
        Some(CmeError::BearerCapabilityNotPresentlyAvailable)
    } else if t == "1059"@ || t == "Unsupported QCI value"@ {
        Some(CmeError::UnsupportedQciValue)
    } else if t == "1063"@ || t == "Service or option not available, unspecified"@ {
        Some(CmeError::ServiceOrOptionNotAvailableUnspecified)
    } else if t == "1065"@ || t == "Bearer service not implemented"@ {
        Some(CmeError::BearerServiceNotImplemented)
    } else if t == "1068"@ || t == "ACM equal to or greater than ACMmax"@ {
        Some(CmeError::AcmEqualToOrGreaterThanAcMmax)
    } else if t == "1069"@ || t == "Requested facility not implemented"@ {
        Some(CmeError::RequestedFacilityNotImplemented)
    } else if t == "1070"@ || t == "Only restricted digital information bearer capability is available"@ {
        Some(CmeError::OnlyRestrictedDigitalInformationBearerCapabilityIsAvailable)
    } else if t == "1079"@ || t == "Service or option not implemented, unspecified"@ {
        Some(CmeError::ServiceOrOptionNotImplementedUnspecified)
    } else if t == "1081"@ || t == "1546"@ || t == "Invalid transaction identifier value"@ {
        Some(CmeError::InvalidTransactionIdentifierValue)
    } else if t == "1087"@ || t == "User not member of CUG"@ {
        Some(CmeError::UserNotMemberOfCug)
    } else if t == "1088"@ || t == "Incompatible destination"@ {
        Some(CmeError::IncompatibleDestination)
    } else if t == "1091"@ || t == "Invalid transit network selection"@ {
        Some(CmeError::InvalidTransitNetworkSelection)
    } else if t == "1096"@ || t == "Invalid mandatory information"@ {
        Some(CmeError::InvalidMandatoryInformation)
    } else if t == "1097"@ || t == "Message type non-existent or not implemented"@ {
        Some(CmeError::MessageTypeNonExistentOrNotImplemented)
    } else if t == "1098"@ || t == "Message type not compatible with protocol state"@ {
        Some(CmeError::MessageTypeNotCompatibleWithProtocolState)
    } else if t == "1101"@ || t == "Message not compatible with protocol state"@ {
        Some(CmeError::MessageNotCompatibleWithProtocolState)
    } else if t == "1102"@ || t == "Recovery on timer expiry"@ {
        Some(CmeError::RecoveryOnTimerExpiry)
    } else if t == "1112"@ || t == "APN restriction value incompatible with active EPS bearer context"@ {
        Some(CmeError::ApnRestrictionValueIncompatibleWithActiveEpsBearerContext)
    } else if t == "1127"@ || t == "Interworking, unspecified"@ {
        Some(CmeError::InterworkingUnspecified)
    } else if t == "1142"@ || t == "Network Error"@ {
        Some(CmeError::NetworkError)
    } else if t == "1143"@ || t == "Invalid EPS bearer identity"@ {
        Some(CmeError::InvalidEpsBearerIdentity)
    } else if t == "1243"@ || t == "Emm Error Unspecified"@ {
        Some(CmeError::EmmErrorUnspecified)
    } else if t == "1244"@ || t == "Esm Error Unspecified"@ {
        Some(CmeError::EsmErrorUnspecified)
    } else {
        None
    }
}

/// The first error of the lookup group 7 of `parse` that the text `t`
/// names, in the order of the table, if any.
pub open spec fn cme_in_group_7(t: Seq<char>) -> Option<CmeError> {
    if t == "1279"@ || t == "Number not allowed"@ {
        Some(CmeError::NumberNotAllowed)
    } else if t == "1283"@ || t == "CCBS possible"@ {
        Some(CmeError::CcbsPossible)
    } else if t == "1500"@ || t == "Wrong GPIO identifier"@ {
        Some(CmeError::WrongGpioIdentifier)
    } else if t == "1501"@ || t == "Set GPIO default error"@ {
        Some(CmeError::SetGpioDefaultError)
    } else if t == "1502"@ || t == "Select GPIO mode error"@ {
        Some(CmeError::SelectGpioModeError)
    } else if t == "1503"@ || t == "Read GPIO error"@ {
        Some(CmeError::ReadGpioError)
    } else if t == "1504"@ || t == "Write GPIO error"@ {
        Some(CmeError::WriteGpioError)
    } else if t == "1505"@ || t == "GPIO busy"@ {
        Some(CmeError::GpioBusy)
    } else if t == "1520"@ || t == "Wrong ADC identifier"@ {
        Some(CmeError::WrongAdcIdentifier)
    } else if t == "1521"@ || t == "Read ADC error"@ {
        Some(CmeError::ReadAdcError)
    } else if t == "1530"@ || t == "IPv4 only allowed"@ {
        Some(CmeError::IPv4OnlyAllowed)
    } else if t == "1531"@ || t == "IPv6 only allowed"@ {
        Some(CmeError::IPv6OnlyAllowed)
    } else if t == "1540"@ || t == "Wrong ringer identifier"@ {
        Some(CmeError::WrongRingerIdentifier)
    } else if t == "1542"@ || t == "LLC or SNDCP failure"@ {
        Some(CmeError::LlcOrSndcpFailure)
    } else if t == "1543"@ || t == "Regular deactivation"@ {
        Some(CmeError::RegularDeactivation)
    } else if t == "1544"@ || t == "Reactivation requested"@ {
        Some(CmeError::ReactivationRequested)
    } else if t == "1545"@ || t == "Single address bearers only allowed"@ {
        Some(CmeError::SingleAddressBearersOnlyAllowed)
    } else if t == "1547"@ || t == "APN restriction val incompatible with PDP context"@ {
        Some(CmeError::ApnRestrictionValIncompatibleWithPdpContext)
    } else if t == "1548"@ || t == "PDP activation rejected"@ {
        Some(CmeError::PdpActivationRejected)
    } else if t == "1550"@ || t == "GPRS generic operation error"@ {
        Some(CmeError::GprsGenericOperationError)
    } else if t == "1551"@ || t == "GPRS invalid APN"@ {
        Some(CmeError::GprsInvalidApn)
    } else if t == "1552"@ || t == "GPRS authentication failure"@ {
        Some(CmeError::GprsAuthenticationFailure)
    } else if t == "1553"@ || t == "GPRS QoS parameters inconsistent"@ {
        Some(CmeError::GprsQoSParametersInconsistent)
    } else if t == "1554"@ || t == "GPRS network failure"@ {
        Some(CmeError::GprsNetworkFailure)
    } else if t == "1555"@ || t == "GPRS context busy"@ {
        Some(CmeError::GprsContextBusy)
    } else {
        None
    }
}

/// The first error of the lookup group 8 of `parse` that the text `t`
/// names, in the order of the table, if any.
pub open spec fn cme_in_group_8(t: Seq<char>) -> Option<CmeError> {
    if t == "1556"@ || t == "CSD generic operation error"@ {
        Some(CmeError::CsdGenericOperationError)
    } else if t == "1557"@ || t == "CSD undefined profile"@ {
        Some(CmeError::CsdUndefinedProfile)
    } else if t == "1558"@ || t == "CSD context busy"@ {
        Some(CmeError::CsdContextBusy)
    } else if t == "1559"@ || t == "PLMN scan not allowed"@ {
        Some(CmeError::PlmnScanNotAllowed)
    } else if t == "1600"@ || t == "FFS error"@ {
        Some(CmeError::FfsError)
    } else if t == "1560"@ || t == "PDP type IPv4 only allowed"@ {
        Some(CmeError::PdpTypeIPv4OnlyAllowed)
    } else if t == "1561"@ || t == "PDP type IPv6 only allowed"@ {
        Some(CmeError::PdpTypeIPv6OnlyAllowed)
    } else if t == "1612"@ || t == "FILE NOT FOUND"@ {
        Some(CmeError::FileNotFound)
    } else if t == "1613"@ || t == "Cannot open file"@ {
        Some(CmeError::CannotOpenFile)
    } else if t == "1614"@ || t == "TAC value not allowed"@ {
        Some(CmeError::TacValueNotAllowed)
    } else if t == "1615"@ || t == "OTP failure"@ {
        Some(CmeError::OtpFailure)
    } else if t == "1616"@ || t == "Wrong Check Digit"@ {
        Some(CmeError::WrongCheckDigit)
    } else if t == "1620"@ || t == "Buffer full"@ {
        Some(CmeError::BufferFull)
    } else if t == "1621"@ || t == "FFS initializing"@ {
        Some(CmeError::FfsInitializing)
    } else if t == "1622"@ || t == "FFS already open file"@ {
        Some(CmeError::FfsAlreadyOpenFile)
    } else if t == "1623"@ || t == "FFS not open file"@ {
        Some(CmeError::FfsNotOpenFile)
    } else if t == "1624"@ || t == "FFS file not found"@ {
        Some(CmeError::FfsFileNotFound)
    } else if t == "1625"@ || t == "FFS file already created"@ {
        Some(CmeError::FfsFileAlreadyCreated)
    } else if t == "1626"@ || t == "FFS illegal id"@ {
        Some(CmeError::FfsIllegalId)
    } else if t == "1627"@ || t == "FFS illegal file handle"@ {
        Some(CmeError::FfsIllegalFileHandle)
    } else if t == "1628"@ || t == "FFS illegal type"@ {
        Some(CmeError::FfsIllegalType)
    } else if t == "1629"@ || t == "FFS illegal mode"@ {
        Some(CmeError::FfsIllegalMode)
    } else if t == "1630"@ || t == "FFS file range"@ {
        Some(CmeError::FfsFileRange)
    } else if t == "1631"@ || t == "FFS operation not possible"@ {
        Some(CmeError::FfsOperationNotPossible)
    } else if t == "1632"@ || t == "FFS write error"@ {
        Some(CmeError::FfsWriteError)
    } else {
        None
    }
}

/// The first error of the lookup group 9 of `parse` that the text `t`
/// names, in the order of the table, if any.
pub open spec fn cme_in_group_9(t: Seq<char>) -> Option<CmeError> {
    if t == "1633"@ || t == "FFS user id error"@ {
        Some(CmeError::FfsUserIdError)
    } else if t == "1634"@ || t == "FFS internal fatal error"@ {
        Some(CmeError::FfsInternalFatalError)
    } else if t == "1635"@ || t == "FFS memory resource error"@ {
        Some(CmeError::FfsMemoryResourceError)
    } else if t == "1636"@ || t == "FFS maximum number of files exceeded"@ {
        Some(CmeError::FfsMaximumNumberOfFilesExceeded)
    } else if t == "1637"@ || t == "FFS memory not available"@ {
        Some(CmeError::FfsMemoryNotAvailable)
    } else if t == "1638"@ || t == "FFS invalid filename"@ {
        Some(CmeError::FfsInvalidFilename)
    } else if t == "1639"@ || t == "FFS streaming not enabled"@ {
        Some(CmeError::FfsStreamingNotEnabled)
    } else if t == "1640"@ || t == "FFS operation not allowed on static file"@ {
        Some(CmeError::FfsOperationNotAllowedOnStaticFile)
    } else if t == "1641"@ || t == "FFS memory table inconsistency"@ {
        Some(CmeError::FfsMemoryTableInconsistency)
    } else if t == "1642"@ || t == "FFS not a factory default file"@ {
        Some(CmeError::FfsNotAFactoryDefaultFile)
    } else if t == "1643"@ || t == "FFS requested memory temporary not available"@ {
        Some(CmeError::FfsRequestedMemoryTemporaryNotAvailable)
    } else if t == "1644"@ || t == "FFS operation not allowed for a directory"@ {
        Some(CmeError::FfsOperationNotAllowedForADirectory)
    } else if t == "1645"@ || t == "FFS directory space not available"@ {
        Some(CmeError::FfsDirectorySpaceNotAvailable)
    } else if t == "1646"@ || t == "FFS too many streaming files open"@ {
        Some(CmeError::FfsTooManyStreamingFilesOpen)
    } else if t == "1647"@ || t == "FFS requested dynamic memory temporary not available"@ {
        Some(CmeError::FfsRequestedDynamicMemoryTemporaryNotAvailable)
    } else if t == "1648"@ || t == "FFS user provided a NULL parameter instead of a suitable buffer"@ {
        Some(CmeError::FfsUserProvidedANullParameterInsteadOfASuitableBuffer)
    } else if t == "1649"@ || t == "FFS timeout"@ {
        Some(CmeError::FfsTimeout)
    } else {
        None
    }
}

/// The error that the text `t` names: the first match in the table of
/// error texts, group by group, if any.
pub open spec fn cme_of(t: Seq<char>) -> Option<CmeError> {
    match cme_in_group_0(t) {
        Some(e) => Some(e),
        None => match cme_in_group_1(t) {
        Some(e) => Some(e),
        None => match cme_in_group_2(t) {
        Some(e) => Some(e),
        None => match cme_in_group_3(t) {
        Some(e) => Some(e),
        None => match cme_in_group_4(t) {
        Some(e) => Some(e),
        None => match cme_in_group_5(t) {
        Some(e) => Some(e),
        None => match cme_in_group_6(t) {
        Some(e) => Some(e),
        None => match cme_in_group_7(t) {
        Some(e) => Some(e),
        None => match cme_in_group_8(t) {
        Some(e) => Some(e),
        None => match cme_in_group_9(t) {
        Some(e) => Some(e),
        None => None,
    },
    },
    },
    },
    },
    },
    },
    },
    },
    }
}

/// Surrounding white space never changes the error that a text names: the
/// text and its trimmed text name the same one, so `CmeError::from_str`
/// gives the same result for both.
pub proof fn lemma_cme_ignores_surrounding_white_space(s: Seq<char>)
    ensures
        trim(trim(s)) == trim(s),
        cme_of(trim(trim(s))) == cme_of(trim(s)),
        forall|e: CmeError| cme_named(e, trim(trim(s))) == cme_named(e, trim(s)),
{
    crate::text::lemma_trim_idempotent(s);
}

/// Which of the lookup groups of `parse` tries the error `e`.
pub open spec fn cme_group(e: CmeError) -> int {
    match e {
        CmeError::PhoneFailure => 0,
        CmeError::NoConnectionToPhone => 0,
        CmeError::PhoneAdaptorLinkReserved => 0,
        CmeError::OperationNotAllowed => 0,
        CmeError::OperationNotSupported => 0,
        CmeError::PhSimPinRequired => 0,
        CmeError::PhFsimPinRequired => 0,
        CmeError::PhFsimPukRequired => 0,
        CmeError::SimNotInserted => 0,
        CmeError::SimPinRequired => 0,
        CmeError::SimPukRequired => 0,
        CmeError::SimFailure => 0,
        CmeError::SimBusy => 0,
        CmeError::SimWrong => 0,
        CmeError::IncorrectPassword => 0,
        CmeError::SimPin2Required => 0,
        CmeError::SimPuk2Required => 0,
        CmeError::MemoryFull => 0,
        CmeError::InvalidIndex => 0,
        CmeError::NetworkNotFound => 0,
        CmeError::MemoryFailure => 0,
        CmeError::TextStringTooLong => 0,
        CmeError::InvalidCharactersInTextString => 0,
        CmeError::DialStringTooLong => 0,
        CmeError::InvalidCharactersInDialString => 0,
        CmeError::NoNetworkService => 1,
        CmeError::NetworkTimeout => 1,
        CmeError::NetworkNotAllowedEmergencyCallsOnly => 1,
        CmeError::NetworkPersonalisationPinRequired => 1,
        CmeError::NetworkPersonalisationPukRequired => 1,
        CmeError::NetworkSubsetPersonalisationPinRequired => 1,
        CmeError::NetworkSubsetPersonalisationPukRequired => 1,
        CmeError::ServiceProviderPersonalisationPinRequired => 1,
        CmeError::ServiceProviderPersonalisationPukRequired => 1,
        CmeError::CorporatePersonalisationPinRequired => 1,
        CmeError::CorporatePersonalisationPukRequired => 1,
        CmeError::IncorrectParameters => 1,
        CmeError::CommandImplementedButCurrentlyDisabled => 1,
        CmeError::CommandAbortedByUser => 1,
        CmeError::NotAttachedToNetworkDueToMtFunctionalityRestrictions => 1,
        CmeError::ModemNotAllowedMtRestrictedToEmergencyCallsOnly => 1,
        CmeError::OperationNotAllowedBecauseOfMtFunctionalityRestrictions => 1,
        CmeError::FixedDialNumberOnlyAllowedCalledNumberIsNotAFixedDialNumber => 1,
        CmeError::TemporarilyOutOfServiceDueToOtherMtUsage => 1,
        CmeError::Unknown => 1,
        CmeError::IllegalMs => 1,
        CmeError::IllegalMe => 1,
        CmeError::GprsServicesNotAllowed => 1,
        CmeError::GprsAndNonGprsServicesNotAllowed => 1,
        CmeError::PlmnNotAllowed => 1,
        CmeError::LocationAreaNotAllowed => 2,
        CmeError::RoamingNotAllowedInThisLocationArea => 2,
        CmeError::GprsServicesNotAllowedInThisPlmn => 2,
        CmeError::NoSuitableCellsInLocationArea => 2,
        CmeError::Congestion => 2,
        CmeError::NotAuthorizedForThisCsg => 2,
        CmeError::InsufficientResources => 2,
        CmeError::MissingOrUnknownApn => 2,
        CmeError::UnknownPdpAddressOrPdpType => 2,
        CmeError::UserAuthenticationFailed => 2,
        CmeError::RequestRejectedByServingGwOrPdnGw => 2,
        CmeError::RequestRejectedUnspecified => 2,
        CmeError::ServiceOptionNotSupported => 2,
        CmeError::RequestedServiceOptionNotSubscribed => 2,
        CmeError::ServiceOptionTemporarilyOutOfOrder => 2,
        CmeError::NsApiAlreadyUsed => 2,
        CmeError::EpsQoSNotAccepted => 2,
        CmeError::NetworkFailure => 2,
        CmeError::FeatureNotSupported => 2,
        CmeError::SemanticErrorInTheTftOperation => 2,
        CmeError::SyntacticalErrorInTheTftOperation => 2,
        CmeError::UnknownPdpContext => 2,
        CmeError::SemanticErrorsInPacketFilterS => 2,
        CmeError::SyntacticalErrorsInPacketFilterS => 2,
        CmeError::PdpContextWithoutTftAlreadyActivated => 2,
        CmeError::PtiMismatch => 3,
        CmeError::UnspecifiedGprsError => 3,
        CmeError::PdpAuthenticationFailure => 3,
        CmeError::InvalidMobileClass => 3,
        CmeError::EsmInformationNotReceived => 3,
        CmeError::PdnConnectionDoesNotExist => 3,
        CmeError::MultiplePdnConnectionsForAGivenApnNotAllowed => 3,
        CmeError::UserBusy => 3,
        CmeError::UplinkBusyFlowControl => 3,
        CmeError::BearerHandlingNotSupported => 3,
        CmeError::MaximumNumberOfEpsBearersReached => 3,
        CmeError::RequestedApnNotSupportedInCurrentRatAndPlmnCombination => 3,
        CmeError::ImsiUnknownInVlr => 3,
        CmeError::LastPdnDisconnectionNotAllowed => 3,
        CmeError::SemanticallyIncorrectMessage => 3,
        CmeError::MandatoryInformationElementError => 3,
        CmeError::InformationElementNonExistentOrNotImplemented => 3,
        CmeError::ConditionalIeError => 3,
        CmeError::ProtocolErrorUnspecified => 3,
        CmeError::OperatorDeterminedBarring => 3,
        CmeError::MaximumNumberOfPdpContextsReached => 3,
        CmeError::RequestRejectedBearerControlModeViolation => 3,
        CmeError::InvalidPtiValue => 3,
        CmeError::InvalidMandatoryIe => 3,
        CmeError::MessageTypeNonExistent => 3,
        CmeError::MessageTypeNotCompatible => 4,
        CmeError::IeNonExistent => 4,
        CmeError::MessageNotCompatible => 4,
        CmeError::InvalidErrorMapping => 4,
        CmeError::InternalError => 4,
        CmeError::SimBlocked => 4,
        CmeError::MeFailure => 4,
        CmeError::SmsServiceOfMeReserved => 4,
        CmeError::InvalidPduModeParameter => 4,
        CmeError::InvalidTextModeParameter => 4,
        CmeError::USimNotInserted => 4,
        CmeError::USimPinRequired => 4,
        CmeError::PhUSimPinRequired => 4,
        CmeError::USimFailure => 4,
        CmeError::USimBusy => 4,
        CmeError::USimWrong => 4,
        CmeError::USimPukRequired => 4,
        CmeError::USimPin2Required => 4,
        CmeError::USimPuk2Required => 4,
        CmeError::InvalidMemoryIndex => 4,
        CmeError::SmscAddressUnknown => 4,
        CmeError::NoCnmaAcknowledgementExpected => 4,
        CmeError::UnknownError => 4,
        CmeError::VoiceCallActive => 4,
        CmeError::IncorrectSecurityCode => 4,
        CmeError::MaxAttemptsReached => 5,
        CmeError::UnassignedUnallocatedNumber => 5,
        CmeError::NoRouteToDestination => 5,
        CmeError::ChannelUnacceptable => 5,
        CmeError::NormalCallClearing => 5,
        CmeError::NoUserResponding => 5,
        CmeError::UserAlertingNoAnswer => 5,
        CmeError::CallRejected => 5,
        CmeError::NumberChanged => 5,
        CmeError::NonSelectedUserClearing => 5,
        CmeError::DestinationOutOfOrder => 5,
        CmeError::InvalidNumberFormatIncompleteNumber => 5,
        CmeError::FacilityRejected => 5,
        CmeError::ResponseToStatusEnquiry => 5,
        CmeError::NormalUnspecified => 5,
        CmeError::NoCircuitChannelAvailable => 5,
        CmeError::NetworkOutOfOrder => 5,
        CmeError::TemporaryFailure => 5,
        CmeError::SwitchingEquipmentCongestion => 5,
        CmeError::AccessInformationDiscarded => 5,
        CmeError::RequestedCircuitChannelNotAvailable => 5,
        CmeError::ResourcesUnavailableUnspecified => 5,
        CmeError::QualityOfServiceUnavailable => 5,
        CmeError::RequestedFacilityNotSubscribed => 5,
        CmeError::IncomingCallsBarredWithinTheCug => 5,
        CmeError::CollisionWithNetworkInitiatedRequest => 6,
        CmeError::BearerCapabilityNotAuthorized => 6,
        CmeError::BearerCapabilityNotPresentlyAvailable => 6,
        CmeError::UnsupportedQciValue => 6,
        CmeError::ServiceOrOptionNotAvailableUnspecified => 6,
        CmeError::BearerServiceNotImplemented => 6,
        CmeError::AcmEqualToOrGreaterThanAcMmax => 6,
        CmeError::RequestedFacilityNotImplemented => 6,
        CmeError::OnlyRestrictedDigitalInformationBearerCapabilityIsAvailable => 6,
        CmeError::ServiceOrOptionNotImplementedUnspecified => 6,
        CmeError::InvalidTransactionIdentifierValue => 6,
        CmeError::UserNotMemberOfCug => 6,
        CmeError::IncompatibleDestination => 6,
        CmeError::InvalidTransitNetworkSelection => 6,
        CmeError::InvalidMandatoryInformation => 6,
        CmeError::MessageTypeNonExistentOrNotImplemented => 6,
        CmeError::MessageTypeNotCompatibleWithProtocolState => 6,
        CmeError::MessageNotCompatibleWithProtocolState => 6,
        CmeError::RecoveryOnTimerExpiry => 6,
        CmeError::ApnRestrictionValueIncompatibleWithActiveEpsBearerContext => 6,
        CmeError::InterworkingUnspecified => 6,
        CmeError::NetworkError => 6,
        CmeError::InvalidEpsBearerIdentity => 6,
        CmeError::EmmErrorUnspecified => 6,
        CmeError::EsmErrorUnspecified => 6,
        CmeError::NumberNotAllowed => 7,
        CmeError::CcbsPossible => 7,
        CmeError::WrongGpioIdentifier => 7,
        CmeError::SetGpioDefaultError => 7,
        CmeError::SelectGpioModeError => 7,
        CmeError::ReadGpioError => 7,
        CmeError::WriteGpioError => 7,
        CmeError::GpioBusy => 7,
        CmeError::WrongAdcIdentifier => 7,
        CmeError::ReadAdcError => 7,
        CmeError::IPv4OnlyAllowed => 7,
        CmeError::IPv6OnlyAllowed => 7,
        CmeError::WrongRingerIdentifier => 7,
        CmeError::LlcOrSndcpFailure => 7,
        CmeError::RegularDeactivation => 7,
        CmeError::ReactivationRequested => 7,
        CmeError::SingleAddressBearersOnlyAllowed => 7,
        CmeError::ApnRestrictionValIncompatibleWithPdpContext => 7,
        CmeError::PdpActivationRejected => 7,
        CmeError::GprsGenericOperationError => 7,
        CmeError::GprsInvalidApn => 7,
        CmeError::GprsAuthenticationFailure => 7,
        CmeError::GprsQoSParametersInconsistent => 7,
        CmeError::GprsNetworkFailure => 7,
        CmeError::GprsContextBusy => 7,
        CmeError::CsdGenericOperationError => 8,
        CmeError::CsdUndefinedProfile => 8,
        CmeError::CsdContextBusy => 8,
        CmeError::PlmnScanNotAllowed => 8,
        CmeError::FfsError => 8,
        CmeError::PdpTypeIPv4OnlyAllowed => 8,
        CmeError::PdpTypeIPv6OnlyAllowed => 8,
        CmeError::FileNotFound => 8,
        CmeError::CannotOpenFile => 8,
        CmeError::TacValueNotAllowed => 8,
        CmeError::OtpFailure => 8,
        CmeError::WrongCheckDigit => 8,
        CmeError::BufferFull => 8,
        CmeError::FfsInitializing => 8,
        CmeError::FfsAlreadyOpenFile => 8,
        CmeError::FfsNotOpenFile => 8,
        CmeError::FfsFileNotFound => 8,
        CmeError::FfsFileAlreadyCreated => 8,
        CmeError::FfsIllegalId => 8,
        CmeError::FfsIllegalFileHandle => 8,
        CmeError::FfsIllegalType => 8,
        CmeError::FfsIllegalMode => 8,
        CmeError::FfsFileRange => 8,
        CmeError::FfsOperationNotPossible => 8,
        CmeError::FfsWriteError => 8,
        CmeError::FfsUserIdError => 9,
        CmeError::FfsInternalFatalError => 9,
        CmeError::FfsMemoryResourceError => 9,
        CmeError::FfsMaximumNumberOfFilesExceeded => 9,
        CmeError::FfsMemoryNotAvailable => 9,
        CmeError::FfsInvalidFilename => 9,
        CmeError::FfsStreamingNotEnabled => 9,
        CmeError::FfsOperationNotAllowedOnStaticFile => 9,
        CmeError::FfsMemoryTableInconsistency => 9,
        CmeError::FfsNotAFactoryDefaultFile => 9,
        CmeError::FfsRequestedMemoryTemporaryNotAvailable => 9,
        CmeError::FfsOperationNotAllowedForADirectory => 9,
        CmeError::FfsDirectorySpaceNotAvailable => 9,
        CmeError::FfsTooManyStreamingFilesOpen => 9,
        CmeError::FfsRequestedDynamicMemoryTemporaryNotAvailable => 9,
        CmeError::FfsUserProvidedANullParameterInsteadOfASuitableBuffer => 9,
        CmeError::FfsTimeout => 9,
    }
}

impl CmeError {
    fn parse_group_0(t: &[char]) -> (r: Option<CmeError>)
        ensures
            r == cme_in_group_0(t@),
            match r {
                Some(e) => cme_named(e, t@),
                None => forall|e: CmeError| cme_group(e) == 0 ==> !cme_named(e, t@),
            },
    {
        if spells(t, "0") || spells(t, "Phone failure") {
            return Some(CmeError::PhoneFailure);
        }
        if spells(t, "1") || spells(t, "No connection to phone") {
            return Some(CmeError::NoConnectionToPhone);
        }
        if spells(t, "2") || spells(t, "Phone-adaptor link reserved") {
            return Some(CmeError::PhoneAdaptorLinkReserved);
        }
        if spells(t, "3") || spells(t, "302") || spells(t, "Operation not allowed") {
            return Some(CmeError::OperationNotAllowed);
        }
        if spells(t, "4") || spells(t, "303") || spells(t, "Operation not supported") {
            return Some(CmeError::OperationNotSupported);
        }
        if spells(t, "5") || spells(t, "PH-SIM PIN required") {
            return Some(CmeError::PhSimPinRequired);
        }
        if spells(t, "6") || spells(t, "PH-FSIM PIN required") {
            return Some(CmeError::PhFsimPinRequired);
        }
        if spells(t, "7") || spells(t, "PH-FSIM PUK required") {
            return Some(CmeError::PhFsimPukRequired);
        }
        if spells(t, "10") || spells(t, "SIM not inserted") {
            return Some(CmeError::SimNotInserted);
        }
        if spells(t, "11") || spells(t, "SIM PIN required") {
            return Some(CmeError::SimPinRequired);
        }
        if spells(t, "12") || spells(t, "SIM PUK required") {
            return Some(CmeError::SimPukRequired);
        }
        if spells(t, "13") || spells(t, "SIM failure") {
            return Some(CmeError::SimFailure);
        }
        if spells(t, "14") || spells(t, "SIM busy") {
            return Some(CmeError::SimBusy);
        }
        if spells(t, "15") || spells(t, "SIM wrong") {
            return Some(CmeError::SimWrong);
        }
        if spells(t, "16") || spells(t, "Incorrect password") {
            return Some(CmeError::IncorrectPassword);
        }
        if spells(t, "17") || spells(t, "SIM PIN2 required") {
            return Some(CmeError::SimPin2Required);
        }
        if spells(t, "18") || spells(t, "SIM PUK2 required") {
            return Some(CmeError::SimPuk2Required);
        }
        if spells(t, "20") || spells(t, "322") || spells(t, "Memory full") {
            return Some(CmeError::MemoryFull);
        }
        if spells(t, "21") || spells(t, "Invalid index") {
            return Some(CmeError::InvalidIndex);
        }
        if spells(t, "22") || spells(t, "Network not found") {
            return Some(CmeError::NetworkNotFound);
        }
        if spells(t, "23") || spells(t, "320") || spells(t, "Memory failure") {
            return Some(CmeError::MemoryFailure);
        }
        if spells(t, "24") || spells(t, "Text string too long") {
            return Some(CmeError::TextStringTooLong);
        }
        if spells(t, "25") || spells(t, "Invalid characters in text string") {
            return Some(CmeError::InvalidCharactersInTextString);
        }
        if spells(t, "26") || spells(t, "Dial string too long") {
            return Some(CmeError::DialStringTooLong);
        }
        if spells(t, "27") || spells(t, "Invalid characters in dial string") {
            return Some(CmeError::InvalidCharactersInDialString);
        }
        None
    }

    fn parse_group_1(t: &[char]) -> (r: Option<CmeError>)
        ensures
            r == cme_in_group_1(t@),
            match r {
                Some(e) => cme_named(e, t@),
                None => forall|e: CmeError| cme_group(e) == 1 ==> !cme_named(e, t@),
            },
    {
        if spells(t, "30") || spells(t, "331") || spells(t, "No network service") {
            return Some(CmeError::NoNetworkService);
        }
        if spells(t, "31") || spells(t, "332") || spells(t, "Network timeout") {
            return Some(CmeError::NetworkTimeout);
        }
        if spells(t, "32") || spells(t, "Network not allowed - emergency calls only") {
            return Some(CmeError::NetworkNotAllowedEmergencyCallsOnly);
        }
        if spells(t, "40") || spells(t, "Network personalisation PIN required") {
            return Some(CmeError::NetworkPersonalisationPinRequired);
        }
        if spells(t, "41") || spells(t, "Network personalisation PUK required") {
            return Some(CmeError::NetworkPersonalisationPukRequired);
        }
        if spells(t, "42") || spells(t, "Network subset personalisation PIN required") {
            return Some(CmeError::NetworkSubsetPersonalisationPinRequired);
        }
        if spells(t, "43") || spells(t, "Network subset personalisation PUK required") {
            return Some(CmeError::NetworkSubsetPersonalisationPukRequired);
        }
        if spells(t, "44") || spells(t, "Service provider personalisation PIN required") {
            return Some(CmeError::ServiceProviderPersonalisationPinRequired);
        }
        if spells(t, "45") || spells(t, "Service provider personalisation PUK required") {
            return Some(CmeError::ServiceProviderPersonalisationPukRequired);
        }
        if spells(t, "46") || spells(t, "Corporate personalisation PIN required") {
            return Some(CmeError::CorporatePersonalisationPinRequired);
        }
        if spells(t, "47") || spells(t, "Corporate personalisation PUK required") {
            return Some(CmeError::CorporatePersonalisationPukRequired);
        }
        if spells(t, "50") || spells(t, "Incorrect parameters") {
            return Some(CmeError::IncorrectParameters);
        }
        if spells(t, "51") || spells(t, "Command implemented but currently disabled") {
            return Some(CmeError::CommandImplementedButCurrentlyDisabled);
        }
        if spells(t, "52") || spells(t, "Command aborted by user") {
            return Some(CmeError::CommandAbortedByUser);
        }
        if spells(t, "53") || spells(t, "Not attached to network due to MT functionality restrictions") {
            return Some(CmeError::NotAttachedToNetworkDueToMtFunctionalityRestrictions);
        }
        if spells(t, "54") || spells(t, "Modem not allowed - MT restricted to emergency calls only") {
            return Some(CmeError::ModemNotAllowedMtRestrictedToEmergencyCallsOnly);
        }
        if spells(t, "55") || spells(t, "Operation not allowed because of MT functionality restrictions") {
            return Some(CmeError::OperationNotAllowedBecauseOfMtFunctionalityRestrictions);
        }
        if spells(t, "56") || spells(t, "Fixed dial number only allowed - called number is not a fixed dial number") {
            return Some(CmeError::FixedDialNumberOnlyAllowedCalledNumberIsNotAFixedDialNumber);
        }
        if spells(t, "57") || spells(t, "Temporarily out of service due to other MT usage") {
            return Some(CmeError::TemporarilyOutOfServiceDueToOtherMtUsage);
        }
        if spells(t, "100") || spells(t, "Unknown") {
            return Some(CmeError::Unknown);
        }
        if spells(t, "103") || spells(t, "Illegal MS") {
            return Some(CmeError::IllegalMs);
        }
        if spells(t, "106") || spells(t, "Illegal ME") {
            return Some(CmeError::IllegalMe);
        }
        if spells(t, "107") || spells(t, "GPRS services not allowed") {
            return Some(CmeError::GprsServicesNotAllowed);
        }
        if spells(t, "108") || spells(t, "GPRS and non GPRS services not allowed") {
            return Some(CmeError::GprsAndNonGprsServicesNotAllowed);
        }
        if spells(t, "111") || spells(t, "PLMN not allowed") {
            return Some(CmeError::PlmnNotAllowed);
        }
        None
    }

    fn parse_group_2(t: &[char]) -> (r: Option<CmeError>)
        ensures
            r == cme_in_group_2(t@),
            match r {
                Some(e) => cme_named(e, t@),
                None => forall|e: CmeError| cme_group(e) == 2 ==> !cme_named(e, t@),
            },
    {
        if spells(t, "112") || spells(t, "Location area not allowed") {
            return Some(CmeError::LocationAreaNotAllowed);
        }
        if spells(t, "113") || spells(t, "Roaming not allowed in this location area") {
            return Some(CmeError::RoamingNotAllowedInThisLocationArea);
        }
        if spells(t, "114") || spells(t, "GPRS services not allowed in this PLMN") {
            return Some(CmeError::GprsServicesNotAllowedInThisPlmn);
        }
        if spells(t, "115") || spells(t, "No Suitable Cells In Location Area") {
            return Some(CmeError::NoSuitableCellsInLocationArea);
        }
        if spells(t, "122") || spells(t, "170") || spells(t, "Congestion") {
            return Some(CmeError::Congestion);
        }
        if spells(t, "125") || spells(t, "Not authorized for this CSG") {
            return Some(CmeError::NotAuthorizedForThisCsg);
        }
        if spells(t, "126") || spells(t, "Insufficient resources") {
            return Some(CmeError::InsufficientResources);
        }
        if spells(t, "127") || spells(t, "Missing or unknown APN") {
            return Some(CmeError::MissingOrUnknownApn);
        }
        if spells(t, "128") || spells(t, "1549") || spells(t, "Unknown PDP address or PDP type") {
            return Some(CmeError::UnknownPdpAddressOrPdpType);
        }
        if spells(t, "129") || spells(t, "User authentication failed") {
            return Some(CmeError::UserAuthenticationFailed);
        }
        if spells(t, "130") || spells(t, "Request rejected by Serving GW or PDN GW") {
            return Some(CmeError::RequestRejectedByServingGwOrPdnGw);
        }
        if spells(t, "131") || spells(t, "Request rejected, unspecified") {
            return Some(CmeError::RequestRejectedUnspecified);
        }
        if spells(t, "132") || spells(t, "Service option not supported") {
            return Some(CmeError::ServiceOptionNotSupported);
        }
        if spells(t, "133") || spells(t, "Requested service option not subscribed") {
            return Some(CmeError::RequestedServiceOptionNotSubscribed);
        }
        if spells(t, "134") || spells(t, "Service option temporarily out of order") {
            return Some(CmeError::ServiceOptionTemporarilyOutOfOrder);
        }
        if spells(t, "135") || spells(t, "NS-api already used") {
            return Some(CmeError::NsApiAlreadyUsed);
        }
        if spells(t, "137") || spells(t, "EPS QoS not accepted") {
            return Some(CmeError::EpsQoSNotAccepted);
        }
        if spells(t, "138") || spells(t, "168") || spells(t, "Network failure") {
            return Some(CmeError::NetworkFailure);
        }
        if spells(t, "140") || spells(t, "Feature not supported") {
            return Some(CmeError::FeatureNotSupported);
        }
        if spells(t, "141") || spells(t, "Semantic error in the TFT operation") {
            return Some(CmeError::SemanticErrorInTheTftOperation);
        }
        if spells(t, "142") || spells(t, "Syntactical error in the TFT operation") {
            return Some(CmeError::SyntacticalErrorInTheTftOperation);
        }
        if spells(t, "143") || spells(t, "Unknown PDP context") {
            return Some(CmeError::UnknownPdpContext);
        }
        if spells(t, "144") || spells(t, "Semantic errors in packet filter(s)") {
            return Some(CmeError::SemanticErrorsInPacketFilterS);
        }
        if spells(t, "145") || spells(t, "Syntactical errors in packet filter(s)") {
            return Some(CmeError::SyntacticalErrorsInPacketFilterS);
        }
        if spells(t, "146") || spells(t, "PDP context without TFT already activated") {
            return Some(CmeError::PdpContextWithoutTftAlreadyActivated);
        }
        None
    }

    fn parse_group_3(t: &[char]) -> (r: Option<CmeError>)
        ensures
            r == cme_in_group_3(t@),
            match r {
                Some(e) => cme_named(e, t@),
                None => forall|e: CmeError| cme_group(e) == 3 ==> !cme_named(e, t@),
            },
    {
        if spells(t, "147") || spells(t, "PTI mismatch") {
            return Some(CmeError::PtiMismatch);
        }
        if spells(t, "148") || spells(t, "Unspecified GPRS error") {
            return Some(CmeError::UnspecifiedGprsError);
        }
        if spells(t, "149") || spells(t, "PDP authentication failure") {
            return Some(CmeError::PdpAuthenticationFailure);
        }
        if spells(t, "150") || spells(t, "Invalid mobile class") {
            return Some(CmeError::InvalidMobileClass);
        }
        if spells(t, "153") || spells(t, "ESM information not received") {
            return Some(CmeError::EsmInformationNotReceived);
        }
        if spells(t, "154") || spells(t, "PDN connection does not exist") {
            return Some(CmeError::PdnConnectionDoesNotExist);
        }
        if spells(t, "155") || spells(t, "Multiple PDN connections for a given APN not allowed") {
            return Some(CmeError::MultiplePdnConnectionsForAGivenApnNotAllowed);
        }
        if spells(t, "156") || spells(t, "1017") || spells(t, "User Busy") {
            return Some(CmeError::UserBusy);
        }
        if spells(t, "159") || spells(t, "Uplink Busy/ Flow Control") {
            return Some(CmeError::UplinkBusyFlowControl);
        }
        if spells(t, "160") || spells(t, "Bearer handling not supported") {
            return Some(CmeError::BearerHandlingNotSupported);
        }
        if spells(t, "165") || spells(t, "Maximum number of EPS bearers reached") {
            return Some(CmeError::MaximumNumberOfEpsBearersReached);
        }
        if spells(t, "166") || spells(t, "179") || spells(t, "Requested APN not supported in current RAT and PLMN combination") {
            return Some(CmeError::RequestedApnNotSupportedInCurrentRatAndPlmnCombination);
        }
        if spells(t, "169") || spells(t, "IMSI unknown in VLR") {
            return Some(CmeError::ImsiUnknownInVlr);
        }
        if spells(t, "171") || spells(t, "1149") || spells(t, "Last PDN disconnection not allowed") {
            return Some(CmeError::LastPdnDisconnectionNotAllowed);
        }
        if spells(t, "172") || spells(t, "189") || spells(t, "1095") || spells(t, "Semantically incorrect message") {
            return Some(CmeError::SemanticallyIncorrectMessage);
        }
        if spells(t, "173") || spells(t, "Mandatory information element error") {
            return Some(CmeError::MandatoryInformationElementError);
        }
        if spells(t, "174") || spells(t, "1099") || spells(t, "Information element non-existent or not implemented") {
            return Some(CmeError::InformationElementNonExistentOrNotImplemented);
        }
        if spells(t, "175") || spells(t, "194") || spells(t, "1100") || spells(t, "Conditional IE error") {
            return Some(CmeError::ConditionalIeError);
        }
        if spells(t, "176") || spells(t, "197") || spells(t, "1111") || spells(t, "Protocol error, unspecified") || spells(t, "Protocol error unspecified") {
            return Some(CmeError::ProtocolErrorUnspecified);
        }
        if spells(t, "177") || spells(t, "1008") || spells(t, "Operator determined barring") {
            return Some(CmeError::OperatorDeterminedBarring);
        }
        if spells(t, "178") || spells(t, "Maximum number of PDP contexts reached") {
            return Some(CmeError::MaximumNumberOfPdpContextsReached);
        }
        if spells(t, "180") || spells(t, "Request rejected, bearer control mode violation") {
            return Some(CmeError::RequestRejectedBearerControlModeViolation);
        }
        if spells(t, "181") || spells(t, "Invalid PTI value") {
            return Some(CmeError::InvalidPtiValue);
        }
        if spells(t, "190") || spells(t, "Invalid mandatory IE") {
            return Some(CmeError::InvalidMandatoryIe);
        }
        if spells(t, "191") || spells(t, "Message type non existent") {
            return Some(CmeError::MessageTypeNonExistent);
        }
        None
    }

    fn parse_group_4(t: &[char]) -> (r: Option<CmeError>)
        ensures
            r == cme_in_group_4(t@),
            match r {
                Some(e) => cme_named(e, t@),
                None => forall|e: CmeError| cme_group(e) == 4 ==> !cme_named(e, t@),
            },
    {
        if spells(t, "192") || spells(t, "Message type not compatible") {
            return Some(CmeError::MessageTypeNotCompatible);
        }
        if spells(t, "193") || spells(t, "IE non existent") {
            return Some(CmeError::IeNonExistent);
        }
        if spells(t, "195") || spells(t, "Message not compatible") {
            return Some(CmeError::MessageNotCompatible);
        }
        if spells(t, "254") || spells(t, "Invalid error mapping") {
            return Some(CmeError::InvalidErrorMapping);
        }
        if spells(t, "255") || spells(t, "Internal error") {
            return Some(CmeError::InternalError);
        }
        if spells(t, "262") || spells(t, "SIM blocked") {
            return Some(CmeError::SimBlocked);
        }
        if spells(t, "300") || spells(t, "ME failure") {
            return Some(CmeError::MeFailure);
        }
        if spells(t, "301") || spells(t, "SMS service of ME reserved") {
            return Some(CmeError::SmsServiceOfMeReserved);
        }
        if spells(t, "304") || spells(t, "Invalid PDU mode parameter") {
            return Some(CmeError::InvalidPduModeParameter);
        }
        if spells(t, "305") || spells(t, "Invalid text mode parameter") {
            return Some(CmeError::InvalidTextModeParameter);
        }
        if spells(t, "310") || spells(t, "(U)SIM not inserted") {
            return Some(CmeError::USimNotInserted);
        }
        if spells(t, "311") || spells(t, "(U)SIM PIN required") {
            return Some(CmeError::USimPinRequired);
        }
        if spells(t, "312") || spells(t, "PH-(U)SIM PIN required") {
            return Some(CmeError::PhUSimPinRequired);
        }
        if spells(t, "313") || spells(t, "(U)SIM failure") {
            return Some(CmeError::USimFailure);
        }
        if spells(t, "314") || spells(t, "(U)SIM busy") {
            return Some(CmeError::USimBusy);
        }
        if spells(t, "315") || spells(t, "(U)SIM wrong") {
            return Some(CmeError::USimWrong);
        }
        if spells(t, "316") || spells(t, "(U)SIM PUK required") {
            return Some(CmeError::USimPukRequired);
        }
        if spells(t, "317") || spells(t, "(U)SIM PIN2 required") {
            return Some(CmeError::USimPin2Required);
        }
        if spells(t, "318") || spells(t, "(U)SIM PUK2 required") {
            return Some(CmeError::USimPuk2Required);
        }
        if spells(t, "321") || spells(t, "Invalid memory index") {
            return Some(CmeError::InvalidMemoryIndex);
        }
        if spells(t, "330") || spells(t, "SMSC address unknown") {
            return Some(CmeError::SmscAddressUnknown);
        }
        if spells(t, "340") || spells(t, "No +CNMA acknowledgement expected") {
            return Some(CmeError::NoCnmaAcknowledgementExpected);
        }
        if spells(t, "500") || spells(t, "Unknown error") {
            return Some(CmeError::UnknownError);
        }
        if spells(t, "608") || spells(t, "Voice call active") {
            return Some(CmeError::VoiceCallActive);
        }
        if spells(t, "701") || spells(t, "Incorrect security code") {
            return Some(CmeError::IncorrectSecurityCode);
        }
        None
    }

    fn parse_group_5(t: &[char]) -> (r: Option<CmeError>)
        ensures
            r == cme_in_group_5(t@),
            match r {
                Some(e) => cme_named(e, t@),
                None => forall|e: CmeError| cme_group(e) == 5 ==> !cme_named(e, t@),
            },
    {
        if spells(t, "702") || spells(t, "Max attempts reached") {
            return Some(CmeError::MaxAttemptsReached);
        }
        if spells(t, "1001") || spells(t, "Unassigned (unallocated) number") {
            return Some(CmeError::UnassignedUnallocatedNumber);
        }
        if spells(t, "1003") || spells(t, "No route to destination") {
            return Some(CmeError::NoRouteToDestination);
        }
        if spells(t, "1006") || spells(t, "Channel unacceptable") {
            return Some(CmeError::ChannelUnacceptable);
        }
        if spells(t, "1016") || spells(t, "Normal call clearing") {
            return Some(CmeError::NormalCallClearing);
        }
        if spells(t, "1018") || spells(t, "No user responding") {
            return Some(CmeError::NoUserResponding);
        }
        if spells(t, "1019") || spells(t, "User alerting, no answer") {
            return Some(CmeError::UserAlertingNoAnswer);
        }
        if spells(t, "1021") || spells(t, "Call rejected") {
            return Some(CmeError::CallRejected);
        }
        if spells(t, "1022") || spells(t, "Number changed") {
            return Some(CmeError::NumberChanged);
        }
        if spells(t, "1026") || spells(t, "Non selected user clearing") {
            return Some(CmeError::NonSelectedUserClearing);
        }
        if spells(t, "1027") || spells(t, "Destination out of order") {
            return Some(CmeError::DestinationOutOfOrder);
        }
        if spells(t, "1028") || spells(t, "Invalid number format (incomplete number)") {
            return Some(CmeError::InvalidNumberFormatIncompleteNumber);
        }
        if spells(t, "1029") || spells(t, "Facility rejected") {
            return Some(CmeError::FacilityRejected);
        }
        if spells(t, "1030") || spells(t, "Response to STATUS ENQUIRY") {
            return Some(CmeError::ResponseToStatusEnquiry);
        }
        if spells(t, "1031") || spells(t, "Normal, unspecified") {
            return Some(CmeError::NormalUnspecified);
        }
        if spells(t, "1034") || spells(t, "No circuit/channel available") {
            return Some(CmeError::NoCircuitChannelAvailable);
        }
        if spells(t, "1038") || spells(t, "Network out of order") {
            return Some(CmeError::NetworkOutOfOrder);
        }
        if spells(t, "1041") || spells(t, "Temporary failure") {
            return Some(CmeError::TemporaryFailure);
        }
        if spells(t, "1042") || spells(t, "Switching equipment congestion") {
            return Some(CmeError::SwitchingEquipmentCongestion);
        }
        if spells(t, "1043") || spells(t, "Access information discarded") {
            return Some(CmeError::AccessInformationDiscarded);
        }
        if spells(t, "1044") || spells(t, "requested circuit/channel not available") {
            return Some(CmeError::RequestedCircuitChannelNotAvailable);
        }
        if spells(t, "1047") || spells(t, "Resources unavailable, unspecified") {
            return Some(CmeError::ResourcesUnavailableUnspecified);
        }
        if spells(t, "1049") || spells(t, "Quality of service unavailable") {
            return Some(CmeError::QualityOfServiceUnavailable);
        }
        if spells(t, "1050") || spells(t, "Requested facility not subscribed") {
            return Some(CmeError::RequestedFacilityNotSubscribed);
        }
        if spells(t, "1055") || spells(t, "Incoming calls barred within the CUG") {
            return Some(CmeError::IncomingCallsBarredWithinTheCug);
        }
        None
    }

    fn parse_group_6(t: &[char]) -> (r: Option<CmeError>)
        ensures
            r == cme_in_group_6(t@),
            match r {
                Some(e) => cme_named(e, t@),
                None => forall|e: CmeError| cme_group(e) == 6 ==> !cme_named(e, t@),
            },
    {
        if spells(t, "1056") || spells(t, "Collision with network initiated request") {
            return Some(CmeError::CollisionWithNetworkInitiatedRequest);
        }
        if spells(t, "1057") || spells(t, "Bearer capability not authorized") {
            return Some(CmeError::BearerCapabilityNotAuthorized);
        }
        if spells(t, "1058") || spells(t, "Bearer capability not presently available") {
            return Some(CmeError::BearerCapabilityNotPresentlyAvailable);
        }
        if spells(t, "1059") || spells(t, "Unsupported QCI value") {
            return Some(CmeError::UnsupportedQciValue);
        }
        if spells(t, "1063") || spells(t, "Service or option not available, unspecified") {
            return Some(CmeError::ServiceOrOptionNotAvailableUnspecified);
        }
        if spells(t, "1065") || spells(t, "Bearer service not implemented") {
            return Some(CmeError::BearerServiceNotImplemented);
        }
        if spells(t, "1068") || spells(t, "ACM equal to or greater than ACMmax") {
            return Some(CmeError::AcmEqualToOrGreaterThanAcMmax);
        }
        if spells(t, "1069") || spells(t, "Requested facility not implemented") {
            return Some(CmeError::RequestedFacilityNotImplemented);
        }
        if spells(t, "1070") || spells(t, "Only restricted digital information bearer capability is available") {
            return Some(CmeError::OnlyRestrictedDigitalInformationBearerCapabilityIsAvailable);
        }
        if spells(t, "1079") || spells(t, "Service or option not implemented, unspecified") {
            return Some(CmeError::ServiceOrOptionNotImplementedUnspecified);
        }
        if spells(t, "1081") || spells(t, "1546") || spells(t, "Invalid transaction identifier value") {
            return Some(CmeError::InvalidTransactionIdentifierValue);
        }
        if spells(t, "1087") || spells(t, "User not member of CUG") {
            return Some(CmeError::UserNotMemberOfCug);
        }
        if spells(t, "1088") || spells(t, "Incompatible destination") {
            return Some(CmeError::IncompatibleDestination);
        }
        if spells(t, "1091") || spells(t, "Invalid transit network selection") {
            return Some(CmeError::InvalidTransitNetworkSelection);
        }
        if spells(t, "1096") || spells(t, "Invalid mandatory information") {
            return Some(CmeError::InvalidMandatoryInformation);
        }
        if spells(t, "1097") || spells(t, "Message type non-existent or not implemented") {
            return Some(CmeError::MessageTypeNonExistentOrNotImplemented);
        }
        if spells(t, "1098") || spells(t, "Message type not compatible with protocol state") {
            return Some(CmeError::MessageTypeNotCompatibleWithProtocolState);
        }
        if spells(t, "1101") || spells(t, "Message not compatible with protocol state") {
            return Some(CmeError::MessageNotCompatibleWithProtocolState);
        }
        if spells(t, "1102") || spells(t, "Recovery on timer expiry") {
            return Some(CmeError::RecoveryOnTimerExpiry);
        }
        if spells(t, "1112") || spells(t, "APN restriction value incompatible with active EPS bearer context") {
            return Some(CmeError::ApnRestrictionValueIncompatibleWithActiveEpsBearerContext);
        }
        if spells(t, "1127") || spells(t, "Interworking, unspecified") {
            return Some(CmeError::InterworkingUnspecified);
        }
        if spells(t, "1142") || spells(t, "Network Error") {
            return Some(CmeError::NetworkError);
        }
        if spells(t, "1143") || spells(t, "Invalid EPS bearer identity") {
            return Some(CmeError::InvalidEpsBearerIdentity);
        }
        if spells(t, "1243") || spells(t, "Emm Error Unspecified") {
            return Some(CmeError::EmmErrorUnspecified);
        }
        if spells(t, "1244") || spells(t, "Esm Error Unspecified") {
            return Some(CmeError::EsmErrorUnspecified);
        }
        None
    }

    fn parse_group_7(t: &[char]) -> (r: Option<CmeError>)
        ensures
            r == cme_in_group_7(t@),
            match r {
                Some(e) => cme_named(e, t@),
                None => forall|e: CmeError| cme_group(e) == 7 ==> !cme_named(e, t@),
            },
    {
        if spells(t, "1279") || spells(t, "Number not allowed") {
            return Some(CmeError::NumberNotAllowed);
        }
        if spells(t, "1283") || spells(t, "CCBS possible") {
            return Some(CmeError::CcbsPossible);
        }
        if spells(t, "1500") || spells(t, "Wrong GPIO identifier") {
            return Some(CmeError::WrongGpioIdentifier);
        }
        if spells(t, "1501") || spells(t, "Set GPIO default error") {
            return Some(CmeError::SetGpioDefaultError);
        }
        if spells(t, "1502") || spells(t, "Select GPIO mode error") {
            return Some(CmeError::SelectGpioModeError);
        }
        if spells(t, "1503") || spells(t, "Read GPIO error") {
            return Some(CmeError::ReadGpioError);
        }
        if spells(t, "1504") || spells(t, "Write GPIO error") {
            return Some(CmeError::WriteGpioError);
        }
        if spells(t, "1505") || spells(t, "GPIO busy") {
            return Some(CmeError::GpioBusy);
        }
        if spells(t, "1520") || spells(t, "Wrong ADC identifier") {
            return Some(CmeError::WrongAdcIdentifier);
        }
        if spells(t, "1521") || spells(t, "Read ADC error") {
            return Some(CmeError::ReadAdcError);
        }
        if spells(t, "1530") || spells(t, "IPv4 only allowed") {
            return Some(CmeError::IPv4OnlyAllowed);
        }
        if spells(t, "1531") || spells(t, "IPv6 only allowed") {
            return Some(CmeError::IPv6OnlyAllowed);
        }
        if spells(t, "1540") || spells(t, "Wrong ringer identifier") {
            return Some(CmeError::WrongRingerIdentifier);
        }
        if spells(t, "1542") || spells(t, "LLC or SNDCP failure") {
            return Some(CmeError::LlcOrSndcpFailure);
        }
        if spells(t, "1543") || spells(t, "Regular deactivation") {
            return Some(CmeError::RegularDeactivation);
        }
        if spells(t, "1544") || spells(t, "Reactivation requested") {
            return Some(CmeError::ReactivationRequested);
        }
        if spells(t, "1545") || spells(t, "Single address bearers only allowed") {
            return Some(CmeError::SingleAddressBearersOnlyAllowed);
        }
        if spells(t, "1547") || spells(t, "APN restriction val incompatible with PDP context") {
            return Some(CmeError::ApnRestrictionValIncompatibleWithPdpContext);
        }
        if spells(t, "1548") || spells(t, "PDP activation rejected") {
            return Some(CmeError::PdpActivationRejected);
        }
        if spells(t, "1550") || spells(t, "GPRS generic operation error") {
            return Some(CmeError::GprsGenericOperationError);
        }
        if spells(t, "1551") || spells(t, "GPRS invalid APN") {
            return Some(CmeError::GprsInvalidApn);
        }
        if spells(t, "1552") || spells(t, "GPRS authentication failure") {
            return Some(CmeError::GprsAuthenticationFailure);
        }
        if spells(t, "1553") || spells(t, "GPRS QoS parameters inconsistent") {
            return Some(CmeError::GprsQoSParametersInconsistent);
        }
        if spells(t, "1554") || spells(t, "GPRS network failure") {
            return Some(CmeError::GprsNetworkFailure);
        }
        if spells(t, "1555") || spells(t, "GPRS context busy") {
            return Some(CmeError::GprsContextBusy);
        }
        None
    }

    fn parse_group_8(t: &[char]) -> (r: Option<CmeError>)
        ensures
            r == cme_in_group_8(t@),
            match r {
                Some(e) => cme_named(e, t@),
                None => forall|e: CmeError| cme_group(e) == 8 ==> !cme_named(e, t@),
            },
    {
        if spells(t, "1556") || spells(t, "CSD generic operation error") {
            return Some(CmeError::CsdGenericOperationError);
        }
        if spells(t, "1557") || spells(t, "CSD undefined profile") {
            return Some(CmeError::CsdUndefinedProfile);
        }
        if spells(t, "1558") || spells(t, "CSD context busy") {
            return Some(CmeError::CsdContextBusy);
        }
        if spells(t, "1559") || spells(t, "PLMN scan not allowed") {
            return Some(CmeError::PlmnScanNotAllowed);
        }
        if spells(t, "1600") || spells(t, "FFS error") {
            return Some(CmeError::FfsError);
        }
        if spells(t, "1560") || spells(t, "PDP type IPv4 only allowed") {
            return Some(CmeError::PdpTypeIPv4OnlyAllowed);
        }
        if spells(t, "1561") || spells(t, "PDP type IPv6 only allowed") {
            return Some(CmeError::PdpTypeIPv6OnlyAllowed);
        }
        if spells(t, "1612") || spells(t, "FILE NOT FOUND") {
            return Some(CmeError::FileNotFound);
        }
        if spells(t, "1613") || spells(t, "Cannot open file") {
            return Some(CmeError::CannotOpenFile);
        }
        if spells(t, "1614") || spells(t, "TAC value not allowed") {
            return Some(CmeError::TacValueNotAllowed);
        }
        if spells(t, "1615") || spells(t, "OTP failure") {
            return Some(CmeError::OtpFailure);
        }
        if spells(t, "1616") || spells(t, "Wrong Check Digit") {
            return Some(CmeError::WrongCheckDigit);
        }
        if spells(t, "1620") || spells(t, "Buffer full") {
            return Some(CmeError::BufferFull);
        }
        if spells(t, "1621") || spells(t, "FFS initializing") {
            return Some(CmeError::FfsInitializing);
        }
        if spells(t, "1622") || spells(t, "FFS already open file") {
            return Some(CmeError::FfsAlreadyOpenFile);
        }
        if spells(t, "1623") || spells(t, "FFS not open file") {
            return Some(CmeError::FfsNotOpenFile);
        }
        if spells(t, "1624") || spells(t, "FFS file not found") {
            return Some(CmeError::FfsFileNotFound);
        }
        if spells(t, "1625") || spells(t, "FFS file already created") {
            return Some(CmeError::FfsFileAlreadyCreated);
        }
        if spells(t, "1626") || spells(t, "FFS illegal id") {
            return Some(CmeError::FfsIllegalId);
        }
        if spells(t, "1627") || spells(t, "FFS illegal file handle") {
            return Some(CmeError::FfsIllegalFileHandle);
        }
        if spells(t, "1628") || spells(t, "FFS illegal type") {
            return Some(CmeError::FfsIllegalType);
        }
        if spells(t, "1629") || spells(t, "FFS illegal mode") {
            return Some(CmeError::FfsIllegalMode);
        }
        if spells(t, "1630") || spells(t, "FFS file range") {
            return Some(CmeError::FfsFileRange);
        }
        if spells(t, "1631") || spells(t, "FFS operation not possible") {
            return Some(CmeError::FfsOperationNotPossible);
        }
        if spells(t, "1632") || spells(t, "FFS write error") {
            return Some(CmeError::FfsWriteError);
        }
        None
    }

    fn parse_group_9(t: &[char]) -> (r: Option<CmeError>)
        ensures
            r == cme_in_group_9(t@),
            match r {
                Some(e) => cme_named(e, t@),
                None => forall|e: CmeError| cme_group(e) == 9 ==> !cme_named(e, t@),
            },
    {
        if spells(t, "1633") || spells(t, "FFS user id error") {
            return Some(CmeError::FfsUserIdError);
        }
        if spells(t, "1634") || spells(t, "FFS internal fatal error") {
            return Some(CmeError::FfsInternalFatalError);
        }
        if spells(t, "1635") || spells(t, "FFS memory resource error") {
            return Some(CmeError::FfsMemoryResourceError);
        }
        if spells(t, "1636") || spells(t, "FFS maximum number of files exceeded") {
            return Some(CmeError::FfsMaximumNumberOfFilesExceeded);
        }
        if spells(t, "1637") || spells(t, "FFS memory not available") {
            return Some(CmeError::FfsMemoryNotAvailable);
        }
        if spells(t, "1638") || spells(t, "FFS invalid filename") {
            return Some(CmeError::FfsInvalidFilename);
        }
        if spells(t, "1639") || spells(t, "FFS streaming not enabled") {
            return Some(CmeError::FfsStreamingNotEnabled);
        }
        if spells(t, "1640") || spells(t, "FFS operation not allowed on static file") {
            return Some(CmeError::FfsOperationNotAllowedOnStaticFile);
        }
        if spells(t, "1641") || spells(t, "FFS memory table inconsistency") {
            return Some(CmeError::FfsMemoryTableInconsistency);
        }
        if spells(t, "1642") || spells(t, "FFS not a factory default file") {
            return Some(CmeError::FfsNotAFactoryDefaultFile);
        }
        if spells(t, "1643") || spells(t, "FFS requested memory temporary not available") {
            return Some(CmeError::FfsRequestedMemoryTemporaryNotAvailable);
        }
        if spells(t, "1644") || spells(t, "FFS operation not allowed for a directory") {
            return Some(CmeError::FfsOperationNotAllowedForADirectory);
        }
        if spells(t, "1645") || spells(t, "FFS directory space not available") {
            return Some(CmeError::FfsDirectorySpaceNotAvailable);
        }
        if spells(t, "1646") || spells(t, "FFS too many streaming files open") {
            return Some(CmeError::FfsTooManyStreamingFilesOpen);
        }
        if spells(t, "1647") || spells(t, "FFS requested dynamic memory temporary not available") {
            return Some(CmeError::FfsRequestedDynamicMemoryTemporaryNotAvailable);
        }
        if spells(t, "1648") || spells(t, "FFS user provided a NULL parameter instead of a suitable buffer") {
            return Some(CmeError::FfsUserProvidedANullParameterInsteadOfASuitableBuffer);
        }
        if spells(t, "1649") || spells(t, "FFS timeout") {
            return Some(CmeError::FfsTimeout);
        }
        None
    }

    /// The error that the text `s`, without surrounding white space, names.
    pub fn parse(s: &[char]) -> (r: Option<CmeError>)
        ensures
            r == cme_of(trim(s@)),
            match r {
                Some(e) => cme_named(e, trim(s@)),
                None => forall|e: CmeError| !cme_named(e, trim(s@)),
            },
    {
        let t = trimmed(s);
        let t = t.as_slice();
        match Self::parse_group_0(t) {
            Some(e) => {
                return Some(e);
            },
            None => {},
        }
        match Self::parse_group_1(t) {
            Some(e) => {
                return Some(e);
            },
            None => {},
        }
        match Self::parse_group_2(t) {
            Some(e) => {
                return Some(e);
            },
            None => {},
        }
        match Self::parse_group_3(t) {
            Some(e) => {
                return Some(e);
            },
            None => {},
        }
        match Self::parse_group_4(t) {
            Some(e) => {
                return Some(e);
            },
            None => {},
        }
        match Self::parse_group_5(t) {
            Some(e) => {
                return Some(e);
            },
            None => {},
        }
        match Self::parse_group_6(t) {
            Some(e) => {
                return Some(e);
            },
            None => {},
        }
        match Self::parse_group_7(t) {
            Some(e) => {
                return Some(e);
            },
            None => {},
        }
        match Self::parse_group_8(t) {
            Some(e) => {
                return Some(e);
            },
            None => {},
        }
        match Self::parse_group_9(t) {
            Some(e) => {
                return Some(e);
            },
            None => {},
        }
        proof {
            assert forall|e: CmeError| !cme_named(e, t@) by {
                assert(0 <= cme_group(e) < 10);
            }
        }
        None
    }
}

impl CmsError {
    /// The message service error that the text `s` names: no text names one.
    pub fn parse(s: &[char]) -> (r: Option<CmsError>)
        ensures
            r is None,
    {
        None
    }
}

/// The prefix of a mobile termination error result.
pub open spec fn cme_prefix() -> Seq<char> {
    "+CME ERROR:"@
}

/// The prefix of a message service error result.
pub open spec fn cms_prefix() -> Seq<char> {
    "+CMS ERROR:"@
}

/// Whether `p` is a prefix of `s`.
pub open spec fn has_prefix(s: Seq<char>, p: Seq<char>) -> bool {
    p.len() <= s.len() && s.subrange(0, p.len() as int) == p
}

/// Whether `r` is the error result that the response text `s` reports: the
/// trimmed text starts with `+CME ERROR:` or `+CMS ERROR:` and then names the
/// error (a text that names no error gives `Unknown`); any other text is the
/// generic error.
pub open spec fn reports(s: Seq<char>, r: UbloxError) -> bool {
    let t = trim(s);
    if has_prefix(t, cme_prefix()) {
        let rest = trim(t.subrange(cme_prefix().len() as int, t.len() as int));
        match r {
            UbloxError::Cme(e) => cme_named(e, rest) || (e == CmeError::Unknown && forall|f: CmeError|
                !cme_named(f, rest)),
            _ => false,
        }
    } else if has_prefix(t, cms_prefix()) {
        r == UbloxError::Cms(CmsError::Unknown)
    } else {
        r == UbloxError::Generic
    }
}

impl UbloxError {
    /// The error result that the response text `s` reports.
    pub fn parse(s: &[char]) -> (r: UbloxError)
        ensures
            reports(s@, r),
    {
        let t = trimmed(s);
        proof {
            reveal_strlit("+CME ERROR:");
            reveal_strlit("+CMS ERROR:");
        }
        match strip_prefix(t.as_slice(), "+CME ERROR:") {
            Some(rest) => {
                return match CmeError::parse(rest.as_slice()) {
                    Some(e) => UbloxError::Cme(e),
                    None => UbloxError::Cme(CmeError::Unknown),
                };
            },
            None => {},
        }
        match strip_prefix(t.as_slice(), "+CMS ERROR:") {
            Some(rest) => {
                return match CmsError::parse(rest.as_slice()) {
                    Some(e) => UbloxError::Cms(e),
                    None => UbloxError::Cms(CmsError::Unknown),
                };
            },
            None => {},
        }
        UbloxError::Generic
    }

    /// The error result that the response text `s` reports.
    pub fn parse_str(s: &str) -> (r: UbloxError)
        ensures
            reports(s@, r),
    {
        let c = chars_of(s);
        Self::parse(c.as_slice())
    }
}

impl core::str::FromStr for UbloxError {
    // This error will always get mapped to `atat::Error::Parse`
    type Err = ();

    fn from_str(s: &str) -> (r: Result<Self, Self::Err>)
        ensures
            r matches Ok(e) && reports(s@, e),
    {
        Ok(UbloxError::parse_str(s))
    }
}

impl core::str::FromStr for CmeError {
    type Err = ();

    fn from_str(s: &str) -> (r: Result<Self, Self::Err>)
        ensures
            r == match cme_of(trim(s@)) {
                Some(e) => Ok::<CmeError, ()>(e),
                None => Err(()),
            },
            match r {
                Ok(e) => cme_named(e, trim(s@)),
                Err(_) => forall|e: CmeError| !cme_named(e, trim(s@)),
            },
    {
        let c = chars_of(s);
        match CmeError::parse(c.as_slice()) {
            Some(e) => Ok(e),
            None => Err(()),
        }
    }
}

impl core::str::FromStr for CmsError {
    type Err = ();

    fn from_str(s: &str) -> (r: Result<Self, Self::Err>)
        ensures
            r == Err::<CmsError, ()>(()),
    {
        let c = chars_of(s);
        match CmsError::parse(c.as_slice()) {
            Some(e) => Ok(e),
            None => Err(()),
        }
    }
}

} // verus!
