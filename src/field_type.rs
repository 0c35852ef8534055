//! The IANA registry of IPFIX information elements.
use vstd::prelude::*;

verus! {

/// Identifiers that the registry leaves unassigned in `0 ..= 491`: `65 ..= 69`, `97` and
/// `105 ..= 127` (kept for NetFlow v9), `416` and `419`; everything above `491`.
pub open spec fn is_known_id(v: u16) -> bool {
    &&& v <= 491
    &&& !(65 <= v <= 69)
    &&& v != 97
    &&& !(105 <= v <= 127)
    &&& v != 416
    &&& v != 419
}

/// An information element, from http://www.iana.org/assignments/ipfix/ipfix.xml
#[derive(Clone, Copy, Debug, PartialEq, Eq, Structural, Hash, PartialOrd, Ord)]
pub enum FieldType {
    Reserved,
    OctetDeltaCount,
    PacketDeltaCount,
    DeltaFlowCount,
    ProtocolIdentifier,
    IPClassOfService,
    TcpControlBits,
    SourceTransportPort,
    SourceIPv4Address,
    SourceIPv4PrefixLength,
    IngressInterface,
    DestinationTransportPort,
    DestinationIPv4Address,
    DestinationIPv4PrefixLength,
    EgressInterface,
    IpNextHopIPv4Address,
    BgpSourceAsNumber,
    BgpDestinationAsNumber,
    BgpNextHopIPv4Address,
    PostMCastPacketDeltaCount,
    PostMCastOctetDeltaCount,
    FlowEndSysUpTime,
    FlowStartSysUpTime,
    PostOctetDeltaCount,
    PostPacketDeltaCount,
    MinimumIpTotalLength,
    MaximumIpTotalLength,
    SourceIPv6Address,
    DestinationIPv6Address,
    SourceIPv6PrefixLength,
    DestinationIPv6PrefixLength,
    FlowLabelIPv6,
    IcmpTypeCodeIPv4,
    IgmpType,
    SamplingInterval,
    SamplingAlgorithm,
    FlowActiveTimeout,
    FlowIdleTimeout,
    EngineType,
    EngineId,
    ExportedOctetTotalCount,
    ExportedMessageTotalCount,
    ExportedFlowRecordTotalCount,
    Ipv4RouterSc,
    SourceIPv4Prefix,
    DestinationIPv4Prefix,
    MplsTopLabelType,
    MplsTopLabelIPv4Address,
    SamplerId,
    SamplerMode,
    SamplerRandomInterval,
    ClassId,
    MinimumTTL,
    MaximumTTL,
    FragmentIdentification,
    PostIpClassOfService,
    SourceMacAddress,
    PostDestinationMacAddress,
    VlanId,
    PostVlanId,
    IPVersion,
    FlowDirection,
    IpNextHopIPv6Address,
    BgpNextHopIPv6Address,
    Ipv6ExtensionHeaders,
    MplsTopLabelStackSection,
    MplsLabelStackSection2,
    MplsLabelStackSection3,
    MplsLabelStackSection4,
    MplsLabelStackSection5,
    MplsLabelStackSection6,
    MplsLabelStackSection7,
    MplsLabelStackSection8,
    MplsLabelStackSection9,
    MplsLabelStackSection10,
    DestinationMacAddress,
    PostSourceMacAddress,
    InterfaceName,
    InterfaceDescription,
    SamplerName,
    OctetTotalCount,
    PacketTotalCount,
    FlagsAndSamplerId,
    FragmentOffset,
    ForwardingStatus,
    MplsVpnRouteDistinguisher,
    MplsTopLabelPrefixLength,
    SrcTrafficIndex,
    DstTrafficIndex,
    ApplicationDescription,
    ApplicationId,
    ApplicationName,
    PostIpDiffServCodePoint,
    MulticastReplicationFactor,
    ClassName,
    ClassificationEngineId,
    Layer2packetSectionOffset,
    Layer2packetSectionSize,
    Layer2packetSectionData,
    BgpNextAdjacentAsNumber,
    BgpPrevAdjacentAsNumber,
    ExporterIPv4Address,
    ExporterIPv6Address,
    DroppedOctetDeltaCount,
    DroppedPacketDeltaCount,
    DroppedOctetTotalCount,
    DroppedPacketTotalCount,
    FlowEndReason,
    CommonPropertiesId,
    ObservationPointId,
    IcmpTypeCodeIPv6,
    MplsTopLabelIPv6Address,
    LineCardId,
    PortId,
    MeteringProcessId,
    ExportingProcessId,
    TemplateId,
    WlanChannelId,
    WlanSSID,
    FlowId,
    ObservationDomainId,
    FlowStartSeconds,
    FlowEndSeconds,
    FlowStartMilliseconds,
    FlowEndMilliseconds,
    FlowStartMicroseconds,
    FlowEndMicroseconds,
    FlowStartNanoseconds,
    FlowEndNanoseconds,
    FlowStartDeltaMicroseconds,
    FlowEndDeltaMicroseconds,
    SystemInitTimeMilliseconds,
    FlowDurationMilliseconds,
    FlowDurationMicroseconds,
    ObservedFlowTotalCount,
    IgnoredPacketTotalCount,
    IgnoredOctetTotalCount,
    NotSentFlowTotalCount,
    NotSentPacketTotalCount,
    NotSentOctetTotalCount,
    DestinationIPv6Prefix,
    SourceIPv6Prefix,
    PostOctetTotalCount,
    PostPacketTotalCount,
    FlowKeyIndicator,
    PostMCastPacketTotalCount,
    PostMCastOctetTotalCount,
    IcmpTypeIPv4,
    IcmpCodeIPv4,
    IcmpTypeIPv6,
    IcmpCodeIPv6,
    UdpSourcePort,
    UdpDestinationPort,
    TcpSourcePort,
    TcpDestinationPort,
    TcpSequenceNumber,
    TcpAcknowledgementNumber,
    TcpWindowSize,
    TcpUrgentPointer,
    TcpHeaderLength,
    IpHeaderLength,
    TotalLengthIPv4,
    PayloadLengthIPv6,
    IpTTL,
    NextHeaderIPv6,
    MplsPayloadLength,
    IpDiffServCodePoint,
    IpPrecedence,
    FragmentFlags,
    OctetDeltaSumOfSquares,
    OctetTotalSumOfSquares,
    MplsTopLabelTTL,
    MplsLabelStackLength,
    MplsLabelStackDepth,
    MplsTopLabelExp,
    IPPayloadLength,
    UdpMessageLength,
    IsMulticast,
    IPv4IHL,
    IPv4Options,
    TcpOptions,
    PaddingOctets,
    CollectorIPv4Address,
    CollectorIPv6Address,
    ExportInterface,
    ExportProtocolVersion,
    ExportTransportProtocol,
    CollectorTransportPort,
    ExporterTransportPort,
    TcpSynTotalCount,
    TcpFinTotalCount,
    TcpRstTotalCount,
    TcpPshTotalCount,
    TcpAckTotalCount,
    TcpUrgTotalCount,
    IpTotalLength,
    PostNATSourceIPv4Address,
    PostNATDestinationIPv4Address,
    PostNAPTSourceTransportPort,
    PostNAPTDestinationTransportPort,
    NatOriginatingAddressRealm,
    NatEvent,
    InitiatorOctets,
    ResponderOctets,
    FirewallEvent,
    IngressVRFID,
    EgressVRFID,
    VRFname,
    PostMplsTopLabelExp,
    TcpWindowScale,
    BiflowDirection,
    EthernetHeaderLength,
    EthernetPayloadLength,
    EthernetTotalLength,
    Dot1qVlanId,
    Dot1qPriority,
    Dot1qCustomerVlanId,
    Dot1qCustomerPriority,
    MetroEvcId,
    MetroEvcType,
    PseudoWireId,
    PseudoWireType,
    PseudoWireControlWord,
    IngressPhysicalInterface,
    EgressPhysicalInterface,
    PostDot1qVlanId,
    PostDot1qCustomerVlanId,
    EthernetType,
    PostIpPrecedence,
    CollectionTimeMilliseconds,
    ExportSctpStreamId,
    MaxExportSeconds,
    MaxFlowEndSeconds,
    MessageMD5Checksum,
    MessageScope,
    MinExportSeconds,
    MinFlowStartSeconds,
    OpaqueOctets,
    SessionScope,
    MaxFlowEndMicroseconds,
    MaxFlowEndMilliseconds,
    MaxFlowEndNanoseconds,
    MinFlowStartMicroseconds,
    MinFlowStartMilliseconds,
    MinFlowStartNanoseconds,
    CollectorCertificate,
    ExporterCertificate,
    DataRecordsReliability,
    ObservationPointType,
    NewConnectionDeltaCount,
    ConnectionSumDurationSeconds,
    ConnectionTransactionId,
    PostNATSourceIPv6Address,
    PostNATDestinationIPv6Address,
    NatPoolId,
    NatPoolName,
    AnonymizationFlags,
    AnonymizationTechnique,
    InformationElementIndex,
    P2PTechnology,
    TunnelTechnology,
    EncryptedTechnology,
    BasicList,
    SubTemplateList,
    SubTemplateMultiList,
    BgpValidityState,
    IPSecSPI,
    GreKey,
    NatType,
    InitiatorPackets,
    ResponderPackets,
    ObservationDomainName,
    SelectionSequenceId,
    SelectorId,
    InformationElementId,
    SelectorAlgorithm,
    SamplingPacketInterval,
    SamplingPacketSpace,
    SamplingTimeInterval,
    SamplingTimeSpace,
    SamplingSize,
    SamplingPopulation,
    SamplingProbability,
    DataLinkFrameSize,
    IpHeaderPacketSection,
    IpPayloadPacketSection,
    DataLinkFrameSection,
    MplsLabelStackSection,
    MplsPayloadPacketSection,
    SelectorIdTotalPktsObserved,
    SelectorIdTotalPktsSelected,
    AbsoluteError,
    RelativeError,
    ObservationTimeSeconds,
    ObservationTimeMilliseconds,
    ObservationTimeMicroseconds,
    ObservationTimeNanoseconds,
    DigestHashValue,
    HashIPPayloadOffset,
    HashIPPayloadSize,
    HashOutputRangeMin,
    HashOutputRangeMax,
    HashSelectedRangeMin,
    HashSelectedRangeMax,
    HashDigestOutput,
    HashInitialiserValue,
    SelectorName,
    UpperCILimit,
    LowerCILimit,
    ConfidenceLevel,
    InformationElementDataType,
    InformationElementDescription,
    InformationElementName,
    InformationElementRangeBegin,
    InformationElementRangeEnd,
    InformationElementSemantics,
    InformationElementUnits,
    PrivateEnterpriseNumber,
    VirtualStationInterfaceId,
    VirtualStationInterfaceName,
    VirtualStationUUID,
    VirtualStationName,
    Layer2SegmentId,
    Layer2OctetDeltaCount,
    Layer2OctetTotalCount,
    IngressUnicastPacketTotalCount,
    IngressMulticastPacketTotalCount,
    IngressBroadcastPacketTotalCount,
    EgressUnicastPacketTotalCount,
    EgressBroadcastPacketTotalCount,
    MonitoringIntervalStartMilliSeconds,
    MonitoringIntervalEndMilliSeconds,
    PortRangeStart,
    PortRangeEnd,
    PortRangeStepSize,
    PortRangeNumPorts,
    StaMacAddress,
    StaIPv4Address,
    WtpMacAddress,
    IngressInterfaceType,
    EgressInterfaceType,
    RtpSequenceNumber,
    UserName,
    ApplicationCategoryName,
    ApplicationSubCategoryName,
    ApplicationGroupName,
    OriginalFlowsPresent,
    OriginalFlowsInitiated,
    OriginalFlowsCompleted,
    DistinctCountOfSourceIPAddress,
    DistinctCountOfDestinationIPAddress,
    DistinctCountOfSourceIPv4Address,
    DistinctCountOfDestinationIPv4Address,
    DistinctCountOfSourceIPv6Address,
    DistinctCountOfDestinationIPv6Address,
    ValueDistributionMethod,
    Rfc3550JitterMilliseconds,
    Rfc3550JitterMicroseconds,
    Rfc3550JitterNanoseconds,
    Dot1qDEI,
    Dot1qCustomerDEI,
    FlowSelectorAlgorithm,
    FlowSelectedOctetDeltaCount,
    FlowSelectedPacketDeltaCount,
    FlowSelectedFlowDeltaCount,
    SelectorIDTotalFlowsObserved,
    SelectorIDTotalFlowsSelected,
    SamplingFlowInterval,
    SamplingFlowSpacing,
    FlowSamplingTimeInterval,
    FlowSamplingTimeSpacing,
    HashFlowDomain,
    TransportOctetDeltaCount,
    TransportPacketDeltaCount,
    OriginalExporterIPv4Address,
    OriginalExporterIPv6Address,
    OriginalObservationDomainId,
    IntermediateProcessId,
    IgnoredDataRecordTotalCount,
    DataLinkFrameType,
    SectionOffset,
    SectionExportedOctets,
    Dot1qServiceInstanceTag,
    Dot1qServiceInstanceId,
    Dot1qServiceInstancePriority,
    Dot1qCustomerSourceMacAddress,
    Dot1qCustomerDestinationMacAddress,
    PostLayer2OctetDeltaCount,
    PostMCastLayer2OctetDeltaCount,
    PostLayer2OctetTotalCount,
    PostMCastLayer2OctetTotalCount,
    MinimumLayer2TotalLength,
    MaximumLayer2TotalLength,
    DroppedLayer2OctetDeltaCount,
    DroppedLayer2OctetTotalCount,
    IgnoredLayer2OctetTotalCount,
    NotSentLayer2OctetTotalCount,
    Layer2OctetDeltaSumOfSquares,
    Layer2OctetTotalSumOfSquares,
    Layer2FrameDeltaCount,
    Layer2FrameTotalCount,
    PseudoWireDestinationIPv4Address,
    IgnoredLayer2FrameTotalCount,
    MibObjectValueInteger,
    MibObjectValueOctetString,
    MibObjectValueOID,
    MibObjectValueBits,
    MibObjectValueIPAddress,
    MibObjectValueCounter,
    MibObjectValueGauge,
    MibObjectValueTimeTicks,
    MibObjectValueUnsigned,
    MibObjectValueTable,
    MibObjectValueRow,
    MibObjectIdentifier,
    MibSubIdentifier,
    MibIndexIndicator,
    MibCaptureTimeSemantics,
    MibContextEngineID,
    MibContextName,
    MibObjectName,
    MibObjectDescription,
    MibObjectSyntax,
    MibModuleName,
    MobileIMSI,
    MobileMSISDN,
    HttpStatusCode,
    SourceTransportPortsLimit,
    HttpRequestMethod,
    HttpRequestHost,
    HttpRequestTarget,
    HttpMessageVersion,
    NatInstanceID,
    InternalAddressRealm,
    ExternalAddressRealm,
    NatQuotaExceededEvent,
    NatThresholdEvent,
    HttpUserAgent,
    HttpContentType,
    HttpReasonPhrase,
    MaxSessionEntries,
    MaxBIBEntries,
    MaxEntriesPerUser,
    MaxSubscribers,
    MaxFragmentsPendingReassembly,
    AddressPoolHighThreshold,
    AddressPoolLowThreshold,
    AddressPortMappingHighThreshold,
    AddressPortMappingLowThreshold,
    AddressPortMappingPerUserHighThreshold,
    GlobalAddressMappingHighThreshold,
    VpnIdentifier,
    BgpCommunity,
    BgpSourceCommunityList,
    BgpDestinationCommunityList,
    BgpExtendedCommunity,
    BgpSourceExtendedCommunityList,
    BgpDestinationExtendedCommunityList,
    BgpLargeCommunity,
    BgpSourceLargeCommunityList,
    BgpDestinationLargeCommunityList,
}

impl FieldType {
    /// The element's IANA identifier.
    pub open spec fn spec_id(self) -> u16 {
        match self {
            FieldType::Reserved => 0,
            FieldType::OctetDeltaCount => 1,
            FieldType::PacketDeltaCount => 2,
            FieldType::DeltaFlowCount => 3,
            FieldType::ProtocolIdentifier => 4,
            FieldType::IPClassOfService => 5,
            FieldType::TcpControlBits => 6,
            FieldType::SourceTransportPort => 7,
            FieldType::SourceIPv4Address => 8,
            FieldType::SourceIPv4PrefixLength => 9,
            FieldType::IngressInterface => 10,
            FieldType::DestinationTransportPort => 11,
            FieldType::DestinationIPv4Address => 12,
            FieldType::DestinationIPv4PrefixLength => 13,
            FieldType::EgressInterface => 14,
            FieldType::IpNextHopIPv4Address => 15,
            FieldType::BgpSourceAsNumber => 16,
            FieldType::BgpDestinationAsNumber => 17,
            FieldType::BgpNextHopIPv4Address => 18,
            FieldType::PostMCastPacketDeltaCount => 19,
            FieldType::PostMCastOctetDeltaCount => 20,
            FieldType::FlowEndSysUpTime => 21,
            FieldType::FlowStartSysUpTime => 22,
            FieldType::PostOctetDeltaCount => 23,
            FieldType::PostPacketDeltaCount => 24,
            FieldType::MinimumIpTotalLength => 25,
            FieldType::MaximumIpTotalLength => 26,
            FieldType::SourceIPv6Address => 27,
            FieldType::DestinationIPv6Address => 28,
            FieldType::SourceIPv6PrefixLength => 29,
            FieldType::DestinationIPv6PrefixLength => 30,
            FieldType::FlowLabelIPv6 => 31,
            FieldType::IcmpTypeCodeIPv4 => 32,
            FieldType::IgmpType => 33,
            FieldType::SamplingInterval => 34,
            FieldType::SamplingAlgorithm => 35,
            FieldType::FlowActiveTimeout => 36,
            FieldType::FlowIdleTimeout => 37,
            FieldType::EngineType => 38,
            FieldType::EngineId => 39,
            FieldType::ExportedOctetTotalCount => 40,
            FieldType::ExportedMessageTotalCount => 41,
            FieldType::ExportedFlowRecordTotalCount => 42,
            FieldType::Ipv4RouterSc => 43,
            FieldType::SourceIPv4Prefix => 44,
            FieldType::DestinationIPv4Prefix => 45,
            FieldType::MplsTopLabelType => 46,
            FieldType::MplsTopLabelIPv4Address => 47,
            FieldType::SamplerId => 48,
            FieldType::SamplerMode => 49,
            FieldType::SamplerRandomInterval => 50,
            FieldType::ClassId => 51,
            FieldType::MinimumTTL => 52,
            FieldType::MaximumTTL => 53,
            FieldType::FragmentIdentification => 54,
            FieldType::PostIpClassOfService => 55,
            FieldType::SourceMacAddress => 56,
            FieldType::PostDestinationMacAddress => 57,
            FieldType::VlanId => 58,
            FieldType::PostVlanId => 59,
            FieldType::IPVersion => 60,
            FieldType::FlowDirection => 61,
            FieldType::IpNextHopIPv6Address => 62,
            FieldType::BgpNextHopIPv6Address => 63,
            FieldType::Ipv6ExtensionHeaders => 64,
            FieldType::MplsTopLabelStackSection => 70,
            FieldType::MplsLabelStackSection2 => 71,
            FieldType::MplsLabelStackSection3 => 72,
            FieldType::MplsLabelStackSection4 => 73,
            FieldType::MplsLabelStackSection5 => 74,
            FieldType::MplsLabelStackSection6 => 75,
            FieldType::MplsLabelStackSection7 => 76,
            FieldType::MplsLabelStackSection8 => 77,
            FieldType::MplsLabelStackSection9 => 78,
            FieldType::MplsLabelStackSection10 => 79,
            FieldType::DestinationMacAddress => 80,
            FieldType::PostSourceMacAddress => 81,
            FieldType::InterfaceName => 82,
            FieldType::InterfaceDescription => 83,
            FieldType::SamplerName => 84,
            FieldType::OctetTotalCount => 85,
            FieldType::PacketTotalCount => 86,
            FieldType::FlagsAndSamplerId => 87,
            FieldType::FragmentOffset => 88,
            FieldType::ForwardingStatus => 89,
            FieldType::MplsVpnRouteDistinguisher => 90,
            FieldType::MplsTopLabelPrefixLength => 91,
            FieldType::SrcTrafficIndex => 92,
            FieldType::DstTrafficIndex => 93,
            FieldType::ApplicationDescription => 94,
            FieldType::ApplicationId => 95,
            FieldType::ApplicationName => 96,
            FieldType::PostIpDiffServCodePoint => 98,
            FieldType::MulticastReplicationFactor => 99,
            FieldType::ClassName => 100,
            FieldType::ClassificationEngineId => 101,
            FieldType::Layer2packetSectionOffset => 102,
            FieldType::Layer2packetSectionSize => 103,
            FieldType::Layer2packetSectionData => 104,
            FieldType::BgpNextAdjacentAsNumber => 128,
            FieldType::BgpPrevAdjacentAsNumber => 129,
            FieldType::ExporterIPv4Address => 130,
            FieldType::ExporterIPv6Address => 131,
            FieldType::DroppedOctetDeltaCount => 132,
            FieldType::DroppedPacketDeltaCount => 133,
            FieldType::DroppedOctetTotalCount => 134,
            FieldType::DroppedPacketTotalCount => 135,
            FieldType::FlowEndReason => 136,
            FieldType::CommonPropertiesId => 137,
            FieldType::ObservationPointId => 138,
            FieldType::IcmpTypeCodeIPv6 => 139,
            FieldType::MplsTopLabelIPv6Address => 140,
            FieldType::LineCardId => 141,
            FieldType::PortId => 142,
            FieldType::MeteringProcessId => 143,
            FieldType::ExportingProcessId => 144,
            FieldType::TemplateId => 145,
            FieldType::WlanChannelId => 146,
            FieldType::WlanSSID => 147,
            FieldType::FlowId => 148,
            FieldType::ObservationDomainId => 149,
            FieldType::FlowStartSeconds => 150,
            FieldType::FlowEndSeconds => 151,
            FieldType::FlowStartMilliseconds => 152,
            FieldType::FlowEndMilliseconds => 153,
            FieldType::FlowStartMicroseconds => 154,
            FieldType::FlowEndMicroseconds => 155,
            FieldType::FlowStartNanoseconds => 156,
            FieldType::FlowEndNanoseconds => 157,
            FieldType::FlowStartDeltaMicroseconds => 158,
            FieldType::FlowEndDeltaMicroseconds => 159,
            FieldType::SystemInitTimeMilliseconds => 160,
            FieldType::FlowDurationMilliseconds => 161,
            FieldType::FlowDurationMicroseconds => 162,
            FieldType::ObservedFlowTotalCount => 163,
            FieldType::IgnoredPacketTotalCount => 164,
            FieldType::IgnoredOctetTotalCount => 165,
            FieldType::NotSentFlowTotalCount => 166,
            FieldType::NotSentPacketTotalCount => 167,
            FieldType::NotSentOctetTotalCount => 168,
            FieldType::DestinationIPv6Prefix => 169,
            FieldType::SourceIPv6Prefix => 170,
            FieldType::PostOctetTotalCount => 171,
            FieldType::PostPacketTotalCount => 172,
            FieldType::FlowKeyIndicator => 173,
            FieldType::PostMCastPacketTotalCount => 174,
            FieldType::PostMCastOctetTotalCount => 175,
            FieldType::IcmpTypeIPv4 => 176,
            FieldType::IcmpCodeIPv4 => 177,
            FieldType::IcmpTypeIPv6 => 178,
            FieldType::IcmpCodeIPv6 => 179,
            FieldType::UdpSourcePort => 180,
            FieldType::UdpDestinationPort => 181,
            FieldType::TcpSourcePort => 182,
            FieldType::TcpDestinationPort => 183,
            FieldType::TcpSequenceNumber => 184,
            FieldType::TcpAcknowledgementNumber => 185,
            FieldType::TcpWindowSize => 186,
            FieldType::TcpUrgentPointer => 187,
            FieldType::TcpHeaderLength => 188,
            FieldType::IpHeaderLength => 189,
            FieldType::TotalLengthIPv4 => 190,
            FieldType::PayloadLengthIPv6 => 191,
            FieldType::IpTTL => 192,
            FieldType::NextHeaderIPv6 => 193,
            FieldType::MplsPayloadLength => 194,
            FieldType::IpDiffServCodePoint => 195,
            FieldType::IpPrecedence => 196,
            FieldType::FragmentFlags => 197,
            FieldType::OctetDeltaSumOfSquares => 198,
            FieldType::OctetTotalSumOfSquares => 199,
            FieldType::MplsTopLabelTTL => 200,
            FieldType::MplsLabelStackLength => 201,
            FieldType::MplsLabelStackDepth => 202,
            FieldType::MplsTopLabelExp => 203,
            FieldType::IPPayloadLength => 204,
            FieldType::UdpMessageLength => 205,
            FieldType::IsMulticast => 206,
            FieldType::IPv4IHL => 207,
            FieldType::IPv4Options => 208,
            FieldType::TcpOptions => 209,
            FieldType::PaddingOctets => 210,
            FieldType::CollectorIPv4Address => 211,
            FieldType::CollectorIPv6Address => 212,
            FieldType::ExportInterface => 213,
            FieldType::ExportProtocolVersion => 214,
            FieldType::ExportTransportProtocol => 215,
            FieldType::CollectorTransportPort => 216,
            FieldType::ExporterTransportPort => 217,
            FieldType::TcpSynTotalCount => 218,
            FieldType::TcpFinTotalCount => 219,
            FieldType::TcpRstTotalCount => 220,
            FieldType::TcpPshTotalCount => 221,
            FieldType::TcpAckTotalCount => 222,
            FieldType::TcpUrgTotalCount => 223,
            FieldType::IpTotalLength => 224,
            FieldType::PostNATSourceIPv4Address => 225,
            FieldType::PostNATDestinationIPv4Address => 226,
            FieldType::PostNAPTSourceTransportPort => 227,
            FieldType::PostNAPTDestinationTransportPort => 228,
            FieldType::NatOriginatingAddressRealm => 229,
            FieldType::NatEvent => 230,
            FieldType::InitiatorOctets => 231,
            FieldType::ResponderOctets => 232,
            FieldType::FirewallEvent => 233,
            FieldType::IngressVRFID => 234,
            FieldType::EgressVRFID => 235,
            FieldType::VRFname => 236,
            FieldType::PostMplsTopLabelExp => 237,
            FieldType::TcpWindowScale => 238,
            FieldType::BiflowDirection => 239,
            FieldType::EthernetHeaderLength => 240,
            FieldType::EthernetPayloadLength => 241,
            FieldType::EthernetTotalLength => 242,
            FieldType::Dot1qVlanId => 243,
            FieldType::Dot1qPriority => 244,
            FieldType::Dot1qCustomerVlanId => 245,
            FieldType::Dot1qCustomerPriority => 246,
            FieldType::MetroEvcId => 247,
            FieldType::MetroEvcType => 248,
            FieldType::PseudoWireId => 249,
            FieldType::PseudoWireType => 250,
            FieldType::PseudoWireControlWord => 251,
            FieldType::IngressPhysicalInterface => 252,
            FieldType::EgressPhysicalInterface => 253,
            FieldType::PostDot1qVlanId => 254,
            FieldType::PostDot1qCustomerVlanId => 255,
            FieldType::EthernetType => 256,
            FieldType::PostIpPrecedence => 257,
            FieldType::CollectionTimeMilliseconds => 258,
            FieldType::ExportSctpStreamId => 259,
            FieldType::MaxExportSeconds => 260,
            FieldType::MaxFlowEndSeconds => 261,
            FieldType::MessageMD5Checksum => 262,
            FieldType::MessageScope => 263,
            FieldType::MinExportSeconds => 264,
            FieldType::MinFlowStartSeconds => 265,
            FieldType::OpaqueOctets => 266,
            FieldType::SessionScope => 267,
            FieldType::MaxFlowEndMicroseconds => 268,
            FieldType::MaxFlowEndMilliseconds => 269,
            FieldType::MaxFlowEndNanoseconds => 270,
            FieldType::MinFlowStartMicroseconds => 271,
            FieldType::MinFlowStartMilliseconds => 272,
            FieldType::MinFlowStartNanoseconds => 273,
            FieldType::CollectorCertificate => 274,
            FieldType::ExporterCertificate => 275,
            FieldType::DataRecordsReliability => 276,
            FieldType::ObservationPointType => 277,
            FieldType::NewConnectionDeltaCount => 278,
            FieldType::ConnectionSumDurationSeconds => 279,
            FieldType::ConnectionTransactionId => 280,
            FieldType::PostNATSourceIPv6Address => 281,
            FieldType::PostNATDestinationIPv6Address => 282,
            FieldType::NatPoolId => 283,
            FieldType::NatPoolName => 284,
            FieldType::AnonymizationFlags => 285,
            FieldType::AnonymizationTechnique => 286,
            FieldType::InformationElementIndex => 287,
            FieldType::P2PTechnology => 288,
            FieldType::TunnelTechnology => 289,
            FieldType::EncryptedTechnology => 290,
            FieldType::BasicList => 291,
            FieldType::SubTemplateList => 292,
            FieldType::SubTemplateMultiList => 293,
            FieldType::BgpValidityState => 294,
            FieldType::IPSecSPI => 295,
            FieldType::GreKey => 296,
            FieldType::NatType => 297,
            FieldType::InitiatorPackets => 298,
            FieldType::ResponderPackets => 299,
            FieldType::ObservationDomainName => 300,
            FieldType::SelectionSequenceId => 301,
            FieldType::SelectorId => 302,
            FieldType::InformationElementId => 303,
            FieldType::SelectorAlgorithm => 304,
            FieldType::SamplingPacketInterval => 305,
            FieldType::SamplingPacketSpace => 306,
            FieldType::SamplingTimeInterval => 307,
            FieldType::SamplingTimeSpace => 308,
            FieldType::SamplingSize => 309,
            FieldType::SamplingPopulation => 310,
            FieldType::SamplingProbability => 311,
            FieldType::DataLinkFrameSize => 312,
            FieldType::IpHeaderPacketSection => 313,
            FieldType::IpPayloadPacketSection => 314,
            FieldType::DataLinkFrameSection => 315,
            FieldType::MplsLabelStackSection => 316,
            FieldType::MplsPayloadPacketSection => 317,
            FieldType::SelectorIdTotalPktsObserved => 318,
            FieldType::SelectorIdTotalPktsSelected => 319,
            FieldType::AbsoluteError => 320,
            FieldType::RelativeError => 321,
            FieldType::ObservationTimeSeconds => 322,
            FieldType::ObservationTimeMilliseconds => 323,
            FieldType::ObservationTimeMicroseconds => 324,
            FieldType::ObservationTimeNanoseconds => 325,
            FieldType::DigestHashValue => 326,
            FieldType::HashIPPayloadOffset => 327,
            FieldType::HashIPPayloadSize => 328,
            FieldType::HashOutputRangeMin => 329,
            FieldType::HashOutputRangeMax => 330,
            FieldType::HashSelectedRangeMin => 331,
            FieldType::HashSelectedRangeMax => 332,
            FieldType::HashDigestOutput => 333,
            FieldType::HashInitialiserValue => 334,
            FieldType::SelectorName => 335,
            FieldType::UpperCILimit => 336,
            FieldType::LowerCILimit => 337,
            FieldType::ConfidenceLevel => 338,
            FieldType::InformationElementDataType => 339,
            FieldType::InformationElementDescription => 340,
            FieldType::InformationElementName => 341,
            FieldType::InformationElementRangeBegin => 342,
            FieldType::InformationElementRangeEnd => 343,
            FieldType::InformationElementSemantics => 344,
            FieldType::InformationElementUnits => 345,
            FieldType::PrivateEnterpriseNumber => 346,
            FieldType::VirtualStationInterfaceId => 347,
            FieldType::VirtualStationInterfaceName => 348,
            FieldType::VirtualStationUUID => 349,
            FieldType::VirtualStationName => 350,
            FieldType::Layer2SegmentId => 351,
            FieldType::Layer2OctetDeltaCount => 352,
            FieldType::Layer2OctetTotalCount => 353,
            FieldType::IngressUnicastPacketTotalCount => 354,
            FieldType::IngressMulticastPacketTotalCount => 355,
            FieldType::IngressBroadcastPacketTotalCount => 356,
            FieldType::EgressUnicastPacketTotalCount => 357,
            FieldType::EgressBroadcastPacketTotalCount => 358,
            FieldType::MonitoringIntervalStartMilliSeconds => 359,
            FieldType::MonitoringIntervalEndMilliSeconds => 360,
            FieldType::PortRangeStart => 361,
            FieldType::PortRangeEnd => 362,
            FieldType::PortRangeStepSize => 363,
            FieldType::PortRangeNumPorts => 364,
            FieldType::StaMacAddress => 365,
            FieldType::StaIPv4Address => 366,
            FieldType::WtpMacAddress => 367,
            FieldType::IngressInterfaceType => 368,
            FieldType::EgressInterfaceType => 369,
            FieldType::RtpSequenceNumber => 370,
            FieldType::UserName => 371,
            FieldType::ApplicationCategoryName => 372,
            FieldType::ApplicationSubCategoryName => 373,
            FieldType::ApplicationGroupName => 374,
            FieldType::OriginalFlowsPresent => 375,
            FieldType::OriginalFlowsInitiated => 376,
            FieldType::OriginalFlowsCompleted => 377,
            FieldType::DistinctCountOfSourceIPAddress => 378,
            FieldType::DistinctCountOfDestinationIPAddress => 379,
            FieldType::DistinctCountOfSourceIPv4Address => 380,
            FieldType::DistinctCountOfDestinationIPv4Address => 381,
            FieldType::DistinctCountOfSourceIPv6Address => 382,
            FieldType::DistinctCountOfDestinationIPv6Address => 383,
            FieldType::ValueDistributionMethod => 384,
            FieldType::Rfc3550JitterMilliseconds => 385,
            FieldType::Rfc3550JitterMicroseconds => 386,
            FieldType::Rfc3550JitterNanoseconds => 387,
            FieldType::Dot1qDEI => 388,
            FieldType::Dot1qCustomerDEI => 389,
            FieldType::FlowSelectorAlgorithm => 390,
            FieldType::FlowSelectedOctetDeltaCount => 391,
            FieldType::FlowSelectedPacketDeltaCount => 392,
            FieldType::FlowSelectedFlowDeltaCount => 393,
            FieldType::SelectorIDTotalFlowsObserved => 394,
            FieldType::SelectorIDTotalFlowsSelected => 395,
            FieldType::SamplingFlowInterval => 396,
            FieldType::SamplingFlowSpacing => 397,
            FieldType::FlowSamplingTimeInterval => 398,
            FieldType::FlowSamplingTimeSpacing => 399,
            FieldType::HashFlowDomain => 400,
            FieldType::TransportOctetDeltaCount => 401,
            FieldType::TransportPacketDeltaCount => 402,
            FieldType::OriginalExporterIPv4Address => 403,
            FieldType::OriginalExporterIPv6Address => 404,
            FieldType::OriginalObservationDomainId => 405,
            FieldType::IntermediateProcessId => 406,
            FieldType::IgnoredDataRecordTotalCount => 407,
            FieldType::DataLinkFrameType => 408,
            FieldType::SectionOffset => 409,
            FieldType::SectionExportedOctets => 410,
            FieldType::Dot1qServiceInstanceTag => 411,
            FieldType::Dot1qServiceInstanceId => 412,
            FieldType::Dot1qServiceInstancePriority => 413,
            FieldType::Dot1qCustomerSourceMacAddress => 414,
            FieldType::Dot1qCustomerDestinationMacAddress => 415,
            FieldType::PostLayer2OctetDeltaCount => 417,
            FieldType::PostMCastLayer2OctetDeltaCount => 418,
            FieldType::PostLayer2OctetTotalCount => 420,
            FieldType::PostMCastLayer2OctetTotalCount => 421,
            FieldType::MinimumLayer2TotalLength => 422,
            FieldType::MaximumLayer2TotalLength => 423,
            FieldType::DroppedLayer2OctetDeltaCount => 424,
            FieldType::DroppedLayer2OctetTotalCount => 425,
            FieldType::IgnoredLayer2OctetTotalCount => 426,
            FieldType::NotSentLayer2OctetTotalCount => 427,
            FieldType::Layer2OctetDeltaSumOfSquares => 428,
            FieldType::Layer2OctetTotalSumOfSquares => 429,
            FieldType::Layer2FrameDeltaCount => 430,
            FieldType::Layer2FrameTotalCount => 431,
            FieldType::PseudoWireDestinationIPv4Address => 432,
            FieldType::IgnoredLayer2FrameTotalCount => 433,
            FieldType::MibObjectValueInteger => 434,
            FieldType::MibObjectValueOctetString => 435,
            FieldType::MibObjectValueOID => 436,
            FieldType::MibObjectValueBits => 437,
            FieldType::MibObjectValueIPAddress => 438,
            FieldType::MibObjectValueCounter => 439,
            FieldType::MibObjectValueGauge => 440,
            FieldType::MibObjectValueTimeTicks => 441,
            FieldType::MibObjectValueUnsigned => 442,
            FieldType::MibObjectValueTable => 443,
            FieldType::MibObjectValueRow => 444,
            FieldType::MibObjectIdentifier => 445,
            FieldType::MibSubIdentifier => 446,
            FieldType::MibIndexIndicator => 447,
            FieldType::MibCaptureTimeSemantics => 448,
            FieldType::MibContextEngineID => 449,
            FieldType::MibContextName => 450,
            FieldType::MibObjectName => 451,
            FieldType::MibObjectDescription => 452,
            FieldType::MibObjectSyntax => 453,
            FieldType::MibModuleName => 454,
            FieldType::MobileIMSI => 455,
            FieldType::MobileMSISDN => 456,
            FieldType::HttpStatusCode => 457,
            FieldType::SourceTransportPortsLimit => 458,
            FieldType::HttpRequestMethod => 459,
            FieldType::HttpRequestHost => 460,
            FieldType::HttpRequestTarget => 461,
            FieldType::HttpMessageVersion => 462,
            FieldType::NatInstanceID => 463,
            FieldType::InternalAddressRealm => 464,
            FieldType::ExternalAddressRealm => 465,
            FieldType::NatQuotaExceededEvent => 466,
            FieldType::NatThresholdEvent => 467,
            FieldType::HttpUserAgent => 468,
            FieldType::HttpContentType => 469,
            FieldType::HttpReasonPhrase => 470,
            FieldType::MaxSessionEntries => 471,
            FieldType::MaxBIBEntries => 472,
            FieldType::MaxEntriesPerUser => 473,
            FieldType::MaxSubscribers => 474,
            FieldType::MaxFragmentsPendingReassembly => 475,
            FieldType::AddressPoolHighThreshold => 476,
            FieldType::AddressPoolLowThreshold => 477,
            FieldType::AddressPortMappingHighThreshold => 478,
            FieldType::AddressPortMappingLowThreshold => 479,
            FieldType::AddressPortMappingPerUserHighThreshold => 480,
            FieldType::GlobalAddressMappingHighThreshold => 481,
            FieldType::VpnIdentifier => 482,
            FieldType::BgpCommunity => 483,
            FieldType::BgpSourceCommunityList => 484,
            FieldType::BgpDestinationCommunityList => 485,
            FieldType::BgpExtendedCommunity => 486,
            FieldType::BgpSourceExtendedCommunityList => 487,
            FieldType::BgpDestinationExtendedCommunityList => 488,
            FieldType::BgpLargeCommunity => 489,
            FieldType::BgpSourceLargeCommunityList => 490,
            FieldType::BgpDestinationLargeCommunityList => 491,
        }
    }

    /// The element's IANA identifier.
    pub fn id(&self) -> (r: u16)
        ensures
            r == self.spec_id(),
    {
        match self {
            FieldType::Reserved => 0,
            FieldType::OctetDeltaCount => 1,
            FieldType::PacketDeltaCount => 2,
            FieldType::DeltaFlowCount => 3,
            FieldType::ProtocolIdentifier => 4,
            FieldType::IPClassOfService => 5,
            FieldType::TcpControlBits => 6,
            FieldType::SourceTransportPort => 7,
            FieldType::SourceIPv4Address => 8,
            FieldType::SourceIPv4PrefixLength => 9,
            FieldType::IngressInterface => 10,
            FieldType::DestinationTransportPort => 11,
            FieldType::DestinationIPv4Address => 12,
            FieldType::DestinationIPv4PrefixLength => 13,
            FieldType::EgressInterface => 14,
            FieldType::IpNextHopIPv4Address => 15,
            FieldType::BgpSourceAsNumber => 16,
            FieldType::BgpDestinationAsNumber => 17,
            FieldType::BgpNextHopIPv4Address => 18,
            FieldType::PostMCastPacketDeltaCount => 19,
            FieldType::PostMCastOctetDeltaCount => 20,
            FieldType::FlowEndSysUpTime => 21,
            FieldType::FlowStartSysUpTime => 22,
            FieldType::PostOctetDeltaCount => 23,
            FieldType::PostPacketDeltaCount => 24,
            FieldType::MinimumIpTotalLength => 25,
            FieldType::MaximumIpTotalLength => 26,
            FieldType::SourceIPv6Address => 27,
            FieldType::DestinationIPv6Address => 28,
            FieldType::SourceIPv6PrefixLength => 29,
            FieldType::DestinationIPv6PrefixLength => 30,
            FieldType::FlowLabelIPv6 => 31,
            FieldType::IcmpTypeCodeIPv4 => 32,
            FieldType::IgmpType => 33,
            FieldType::SamplingInterval => 34,
            FieldType::SamplingAlgorithm => 35,
            FieldType::FlowActiveTimeout => 36,
            FieldType::FlowIdleTimeout => 37,
            FieldType::EngineType => 38,
            FieldType::EngineId => 39,
            FieldType::ExportedOctetTotalCount => 40,
            FieldType::ExportedMessageTotalCount => 41,
            FieldType::ExportedFlowRecordTotalCount => 42,
            FieldType::Ipv4RouterSc => 43,
            FieldType::SourceIPv4Prefix => 44,
            FieldType::DestinationIPv4Prefix => 45,
            FieldType::MplsTopLabelType => 46,
            FieldType::MplsTopLabelIPv4Address => 47,
            FieldType::SamplerId => 48,
            FieldType::SamplerMode => 49,
            FieldType::SamplerRandomInterval => 50,
            FieldType::ClassId => 51,
            FieldType::MinimumTTL => 52,
            FieldType::MaximumTTL => 53,
            FieldType::FragmentIdentification => 54,
            FieldType::PostIpClassOfService => 55,
            FieldType::SourceMacAddress => 56,
            FieldType::PostDestinationMacAddress => 57,
            FieldType::VlanId => 58,
            FieldType::PostVlanId => 59,
            FieldType::IPVersion => 60,
            FieldType::FlowDirection => 61,
            FieldType::IpNextHopIPv6Address => 62,
            FieldType::BgpNextHopIPv6Address => 63,
            FieldType::Ipv6ExtensionHeaders => 64,
            FieldType::MplsTopLabelStackSection => 70,
            FieldType::MplsLabelStackSection2 => 71,
            FieldType::MplsLabelStackSection3 => 72,
            FieldType::MplsLabelStackSection4 => 73,
            FieldType::MplsLabelStackSection5 => 74,
            FieldType::MplsLabelStackSection6 => 75,
            FieldType::MplsLabelStackSection7 => 76,
            FieldType::MplsLabelStackSection8 => 77,
            FieldType::MplsLabelStackSection9 => 78,
            FieldType::MplsLabelStackSection10 => 79,
            FieldType::DestinationMacAddress => 80,
            FieldType::PostSourceMacAddress => 81,
            FieldType::InterfaceName => 82,
            FieldType::InterfaceDescription => 83,
            FieldType::SamplerName => 84,
            FieldType::OctetTotalCount => 85,
            FieldType::PacketTotalCount => 86,
            FieldType::FlagsAndSamplerId => 87,
            FieldType::FragmentOffset => 88,
            FieldType::ForwardingStatus => 89,
            FieldType::MplsVpnRouteDistinguisher => 90,
            FieldType::MplsTopLabelPrefixLength => 91,
            FieldType::SrcTrafficIndex => 92,
            FieldType::DstTrafficIndex => 93,
            FieldType::ApplicationDescription => 94,
            FieldType::ApplicationId => 95,
            FieldType::ApplicationName => 96,
            FieldType::PostIpDiffServCodePoint => 98,
            FieldType::MulticastReplicationFactor => 99,
            FieldType::ClassName => 100,
            FieldType::ClassificationEngineId => 101,
            FieldType::Layer2packetSectionOffset => 102,
            FieldType::Layer2packetSectionSize => 103,
            FieldType::Layer2packetSectionData => 104,
            FieldType::BgpNextAdjacentAsNumber => 128,
            FieldType::BgpPrevAdjacentAsNumber => 129,
            FieldType::ExporterIPv4Address => 130,
            FieldType::ExporterIPv6Address => 131,
            FieldType::DroppedOctetDeltaCount => 132,
            FieldType::DroppedPacketDeltaCount => 133,
            FieldType::DroppedOctetTotalCount => 134,
            FieldType::DroppedPacketTotalCount => 135,
            FieldType::FlowEndReason => 136,
            FieldType::CommonPropertiesId => 137,
            FieldType::ObservationPointId => 138,
            FieldType::IcmpTypeCodeIPv6 => 139,
            FieldType::MplsTopLabelIPv6Address => 140,
            FieldType::LineCardId => 141,
            FieldType::PortId => 142,
            FieldType::MeteringProcessId => 143,
            FieldType::ExportingProcessId => 144,
            FieldType::TemplateId => 145,
            FieldType::WlanChannelId => 146,
            FieldType::WlanSSID => 147,
            FieldType::FlowId => 148,
            FieldType::ObservationDomainId => 149,
            FieldType::FlowStartSeconds => 150,
            FieldType::FlowEndSeconds => 151,
            FieldType::FlowStartMilliseconds => 152,
            FieldType::FlowEndMilliseconds => 153,
            FieldType::FlowStartMicroseconds => 154,
            FieldType::FlowEndMicroseconds => 155,
            FieldType::FlowStartNanoseconds => 156,
            FieldType::FlowEndNanoseconds => 157,
            FieldType::FlowStartDeltaMicroseconds => 158,
            FieldType::FlowEndDeltaMicroseconds => 159,
            FieldType::SystemInitTimeMilliseconds => 160,
            FieldType::FlowDurationMilliseconds => 161,
            FieldType::FlowDurationMicroseconds => 162,
            FieldType::ObservedFlowTotalCount => 163,
            FieldType::IgnoredPacketTotalCount => 164,
            FieldType::IgnoredOctetTotalCount => 165,
            FieldType::NotSentFlowTotalCount => 166,
            FieldType::NotSentPacketTotalCount => 167,
            FieldType::NotSentOctetTotalCount => 168,
            FieldType::DestinationIPv6Prefix => 169,
            FieldType::SourceIPv6Prefix => 170,
            FieldType::PostOctetTotalCount => 171,
            FieldType::PostPacketTotalCount => 172,
            FieldType::FlowKeyIndicator => 173,
            FieldType::PostMCastPacketTotalCount => 174,
            FieldType::PostMCastOctetTotalCount => 175,
            FieldType::IcmpTypeIPv4 => 176,
            FieldType::IcmpCodeIPv4 => 177,
            FieldType::IcmpTypeIPv6 => 178,
            FieldType::IcmpCodeIPv6 => 179,
            FieldType::UdpSourcePort => 180,
            FieldType::UdpDestinationPort => 181,
            FieldType::TcpSourcePort => 182,
            FieldType::TcpDestinationPort => 183,
            FieldType::TcpSequenceNumber => 184,
            FieldType::TcpAcknowledgementNumber => 185,
            FieldType::TcpWindowSize => 186,
            FieldType::TcpUrgentPointer => 187,
            FieldType::TcpHeaderLength => 188,
            FieldType::IpHeaderLength => 189,
            FieldType::TotalLengthIPv4 => 190,
            FieldType::PayloadLengthIPv6 => 191,
            FieldType::IpTTL => 192,
            FieldType::NextHeaderIPv6 => 193,
            FieldType::MplsPayloadLength => 194,
            FieldType::IpDiffServCodePoint => 195,
            FieldType::IpPrecedence => 196,
            FieldType::FragmentFlags => 197,
            FieldType::OctetDeltaSumOfSquares => 198,
            FieldType::OctetTotalSumOfSquares => 199,
            FieldType::MplsTopLabelTTL => 200,
            FieldType::MplsLabelStackLength => 201,
            FieldType::MplsLabelStackDepth => 202,
            FieldType::MplsTopLabelExp => 203,
            FieldType::IPPayloadLength => 204,
            FieldType::UdpMessageLength => 205,
            FieldType::IsMulticast => 206,
            FieldType::IPv4IHL => 207,
            FieldType::IPv4Options => 208,
            FieldType::TcpOptions => 209,
            FieldType::PaddingOctets => 210,
            FieldType::CollectorIPv4Address => 211,
            FieldType::CollectorIPv6Address => 212,
            FieldType::ExportInterface => 213,
            FieldType::ExportProtocolVersion => 214,
            FieldType::ExportTransportProtocol => 215,
            FieldType::CollectorTransportPort => 216,
            FieldType::ExporterTransportPort => 217,
            FieldType::TcpSynTotalCount => 218,
            FieldType::TcpFinTotalCount => 219,
            FieldType::TcpRstTotalCount => 220,
            FieldType::TcpPshTotalCount => 221,
            FieldType::TcpAckTotalCount => 222,
            FieldType::TcpUrgTotalCount => 223,
            FieldType::IpTotalLength => 224,
            FieldType::PostNATSourceIPv4Address => 225,
            FieldType::PostNATDestinationIPv4Address => 226,
            FieldType::PostNAPTSourceTransportPort => 227,
            FieldType::PostNAPTDestinationTransportPort => 228,
            FieldType::NatOriginatingAddressRealm => 229,
            FieldType::NatEvent => 230,
            FieldType::InitiatorOctets => 231,
            FieldType::ResponderOctets => 232,
            FieldType::FirewallEvent => 233,
            FieldType::IngressVRFID => 234,
            FieldType::EgressVRFID => 235,
            FieldType::VRFname => 236,
            FieldType::PostMplsTopLabelExp => 237,
            FieldType::TcpWindowScale => 238,
            FieldType::BiflowDirection => 239,
            FieldType::EthernetHeaderLength => 240,
            FieldType::EthernetPayloadLength => 241,
            FieldType::EthernetTotalLength => 242,
            FieldType::Dot1qVlanId => 243,
            FieldType::Dot1qPriority => 244,
            FieldType::Dot1qCustomerVlanId => 245,
            FieldType::Dot1qCustomerPriority => 246,
            FieldType::MetroEvcId => 247,
            FieldType::MetroEvcType => 248,
            FieldType::PseudoWireId => 249,
            FieldType::PseudoWireType => 250,
            FieldType::PseudoWireControlWord => 251,
            FieldType::IngressPhysicalInterface => 252,
            FieldType::EgressPhysicalInterface => 253,
            FieldType::PostDot1qVlanId => 254,
            FieldType::PostDot1qCustomerVlanId => 255,
            FieldType::EthernetType => 256,
            FieldType::PostIpPrecedence => 257,
            FieldType::CollectionTimeMilliseconds => 258,
            FieldType::ExportSctpStreamId => 259,
            FieldType::MaxExportSeconds => 260,
            FieldType::MaxFlowEndSeconds => 261,
            FieldType::MessageMD5Checksum => 262,
            FieldType::MessageScope => 263,
            FieldType::MinExportSeconds => 264,
            FieldType::MinFlowStartSeconds => 265,
            FieldType::OpaqueOctets => 266,
            FieldType::SessionScope => 267,
            FieldType::MaxFlowEndMicroseconds => 268,
            FieldType::MaxFlowEndMilliseconds => 269,
            FieldType::MaxFlowEndNanoseconds => 270,
            FieldType::MinFlowStartMicroseconds => 271,
            FieldType::MinFlowStartMilliseconds => 272,
            FieldType::MinFlowStartNanoseconds => 273,
            FieldType::CollectorCertificate => 274,
            FieldType::ExporterCertificate => 275,
            FieldType::DataRecordsReliability => 276,
            FieldType::ObservationPointType => 277,
            FieldType::NewConnectionDeltaCount => 278,
            FieldType::ConnectionSumDurationSeconds => 279,
            FieldType::ConnectionTransactionId => 280,
            FieldType::PostNATSourceIPv6Address => 281,
            FieldType::PostNATDestinationIPv6Address => 282,
            FieldType::NatPoolId => 283,
            FieldType::NatPoolName => 284,
            FieldType::AnonymizationFlags => 285,
            FieldType::AnonymizationTechnique => 286,
            FieldType::InformationElementIndex => 287,
            FieldType::P2PTechnology => 288,
            FieldType::TunnelTechnology => 289,
            FieldType::EncryptedTechnology => 290,
            FieldType::BasicList => 291,
            FieldType::SubTemplateList => 292,
            FieldType::SubTemplateMultiList => 293,
            FieldType::BgpValidityState => 294,
            FieldType::IPSecSPI => 295,
            FieldType::GreKey => 296,
            FieldType::NatType => 297,
            FieldType::InitiatorPackets => 298,
            FieldType::ResponderPackets => 299,
            FieldType::ObservationDomainName => 300,
            FieldType::SelectionSequenceId => 301,
            FieldType::SelectorId => 302,
            FieldType::InformationElementId => 303,
            FieldType::SelectorAlgorithm => 304,
            FieldType::SamplingPacketInterval => 305,
            FieldType::SamplingPacketSpace => 306,
            FieldType::SamplingTimeInterval => 307,
            FieldType::SamplingTimeSpace => 308,
            FieldType::SamplingSize => 309,
            FieldType::SamplingPopulation => 310,
            FieldType::SamplingProbability => 311,
            FieldType::DataLinkFrameSize => 312,
            FieldType::IpHeaderPacketSection => 313,
            FieldType::IpPayloadPacketSection => 314,
            FieldType::DataLinkFrameSection => 315,
            FieldType::MplsLabelStackSection => 316,
            FieldType::MplsPayloadPacketSection => 317,
            FieldType::SelectorIdTotalPktsObserved => 318,
            FieldType::SelectorIdTotalPktsSelected => 319,
            FieldType::AbsoluteError => 320,
            FieldType::RelativeError => 321,
            FieldType::ObservationTimeSeconds => 322,
            FieldType::ObservationTimeMilliseconds => 323,
            FieldType::ObservationTimeMicroseconds => 324,
            FieldType::ObservationTimeNanoseconds => 325,
            FieldType::DigestHashValue => 326,
            FieldType::HashIPPayloadOffset => 327,
            FieldType::HashIPPayloadSize => 328,
            FieldType::HashOutputRangeMin => 329,
            FieldType::HashOutputRangeMax => 330,
            FieldType::HashSelectedRangeMin => 331,
            FieldType::HashSelectedRangeMax => 332,
            FieldType::HashDigestOutput => 333,
            FieldType::HashInitialiserValue => 334,
            FieldType::SelectorName => 335,
            FieldType::UpperCILimit => 336,
            FieldType::LowerCILimit => 337,
            FieldType::ConfidenceLevel => 338,
            FieldType::InformationElementDataType => 339,
            FieldType::InformationElementDescription => 340,
            FieldType::InformationElementName => 341,
            FieldType::InformationElementRangeBegin => 342,
            FieldType::InformationElementRangeEnd => 343,
            FieldType::InformationElementSemantics => 344,
            FieldType::InformationElementUnits => 345,
            FieldType::PrivateEnterpriseNumber => 346,
            FieldType::VirtualStationInterfaceId => 347,
            FieldType::VirtualStationInterfaceName => 348,
            FieldType::VirtualStationUUID => 349,
            FieldType::VirtualStationName => 350,
            FieldType::Layer2SegmentId => 351,
            FieldType::Layer2OctetDeltaCount => 352,
            FieldType::Layer2OctetTotalCount => 353,
            FieldType::IngressUnicastPacketTotalCount => 354,
            FieldType::IngressMulticastPacketTotalCount => 355,
            FieldType::IngressBroadcastPacketTotalCount => 356,
            FieldType::EgressUnicastPacketTotalCount => 357,
            FieldType::EgressBroadcastPacketTotalCount => 358,
            FieldType::MonitoringIntervalStartMilliSeconds => 359,
            FieldType::MonitoringIntervalEndMilliSeconds => 360,
            FieldType::PortRangeStart => 361,
            FieldType::PortRangeEnd => 362,
            FieldType::PortRangeStepSize => 363,
            FieldType::PortRangeNumPorts => 364,
            FieldType::StaMacAddress => 365,
            FieldType::StaIPv4Address => 366,
            FieldType::WtpMacAddress => 367,
            FieldType::IngressInterfaceType => 368,
            FieldType::EgressInterfaceType => 369,
            FieldType::RtpSequenceNumber => 370,
            FieldType::UserName => 371,
            FieldType::ApplicationCategoryName => 372,
            FieldType::ApplicationSubCategoryName => 373,
            FieldType::ApplicationGroupName => 374,
            FieldType::OriginalFlowsPresent => 375,
            FieldType::OriginalFlowsInitiated => 376,
            FieldType::OriginalFlowsCompleted => 377,
            FieldType::DistinctCountOfSourceIPAddress => 378,
            FieldType::DistinctCountOfDestinationIPAddress => 379,
            FieldType::DistinctCountOfSourceIPv4Address => 380,
            FieldType::DistinctCountOfDestinationIPv4Address => 381,
            FieldType::DistinctCountOfSourceIPv6Address => 382,
            FieldType::DistinctCountOfDestinationIPv6Address => 383,
            FieldType::ValueDistributionMethod => 384,
            FieldType::Rfc3550JitterMilliseconds => 385,
            FieldType::Rfc3550JitterMicroseconds => 386,
            FieldType::Rfc3550JitterNanoseconds => 387,
            FieldType::Dot1qDEI => 388,
            FieldType::Dot1qCustomerDEI => 389,
            FieldType::FlowSelectorAlgorithm => 390,
            FieldType::FlowSelectedOctetDeltaCount => 391,
            FieldType::FlowSelectedPacketDeltaCount => 392,
            FieldType::FlowSelectedFlowDeltaCount => 393,
            FieldType::SelectorIDTotalFlowsObserved => 394,
            FieldType::SelectorIDTotalFlowsSelected => 395,
            FieldType::SamplingFlowInterval => 396,
            FieldType::SamplingFlowSpacing => 397,
            FieldType::FlowSamplingTimeInterval => 398,
            FieldType::FlowSamplingTimeSpacing => 399,
            FieldType::HashFlowDomain => 400,
            FieldType::TransportOctetDeltaCount => 401,
            FieldType::TransportPacketDeltaCount => 402,
            FieldType::OriginalExporterIPv4Address => 403,
            FieldType::OriginalExporterIPv6Address => 404,
            FieldType::OriginalObservationDomainId => 405,
            FieldType::IntermediateProcessId => 406,
            FieldType::IgnoredDataRecordTotalCount => 407,
            FieldType::DataLinkFrameType => 408,
            FieldType::SectionOffset => 409,
            FieldType::SectionExportedOctets => 410,
            FieldType::Dot1qServiceInstanceTag => 411,
            FieldType::Dot1qServiceInstanceId => 412,
            FieldType::Dot1qServiceInstancePriority => 413,
            FieldType::Dot1qCustomerSourceMacAddress => 414,
            FieldType::Dot1qCustomerDestinationMacAddress => 415,
            FieldType::PostLayer2OctetDeltaCount => 417,
            FieldType::PostMCastLayer2OctetDeltaCount => 418,
            FieldType::PostLayer2OctetTotalCount => 420,
            FieldType::PostMCastLayer2OctetTotalCount => 421,
            FieldType::MinimumLayer2TotalLength => 422,
            FieldType::MaximumLayer2TotalLength => 423,
            FieldType::DroppedLayer2OctetDeltaCount => 424,
            FieldType::DroppedLayer2OctetTotalCount => 425,
            FieldType::IgnoredLayer2OctetTotalCount => 426,
            FieldType::NotSentLayer2OctetTotalCount => 427,
            FieldType::Layer2OctetDeltaSumOfSquares => 428,
            FieldType::Layer2OctetTotalSumOfSquares => 429,
            FieldType::Layer2FrameDeltaCount => 430,
            FieldType::Layer2FrameTotalCount => 431,
            FieldType::PseudoWireDestinationIPv4Address => 432,
            FieldType::IgnoredLayer2FrameTotalCount => 433,
            FieldType::MibObjectValueInteger => 434,
            FieldType::MibObjectValueOctetString => 435,
            FieldType::MibObjectValueOID => 436,
            FieldType::MibObjectValueBits => 437,
            FieldType::MibObjectValueIPAddress => 438,
            FieldType::MibObjectValueCounter => 439,
            FieldType::MibObjectValueGauge => 440,
            FieldType::MibObjectValueTimeTicks => 441,
            FieldType::MibObjectValueUnsigned => 442,
            FieldType::MibObjectValueTable => 443,
            FieldType::MibObjectValueRow => 444,
            FieldType::MibObjectIdentifier => 445,
            FieldType::MibSubIdentifier => 446,
            FieldType::MibIndexIndicator => 447,
            FieldType::MibCaptureTimeSemantics => 448,
            FieldType::MibContextEngineID => 449,
            FieldType::MibContextName => 450,
            FieldType::MibObjectName => 451,
            FieldType::MibObjectDescription => 452,
            FieldType::MibObjectSyntax => 453,
            FieldType::MibModuleName => 454,
            FieldType::MobileIMSI => 455,
            FieldType::MobileMSISDN => 456,
            FieldType::HttpStatusCode => 457,
            FieldType::SourceTransportPortsLimit => 458,
            FieldType::HttpRequestMethod => 459,
            FieldType::HttpRequestHost => 460,
            FieldType::HttpRequestTarget => 461,
            FieldType::HttpMessageVersion => 462,
            FieldType::NatInstanceID => 463,
            FieldType::InternalAddressRealm => 464,
            FieldType::ExternalAddressRealm => 465,
            FieldType::NatQuotaExceededEvent => 466,
            FieldType::NatThresholdEvent => 467,
            FieldType::HttpUserAgent => 468,
            FieldType::HttpContentType => 469,
            FieldType::HttpReasonPhrase => 470,
            FieldType::MaxSessionEntries => 471,
            FieldType::MaxBIBEntries => 472,
            FieldType::MaxEntriesPerUser => 473,
            FieldType::MaxSubscribers => 474,
            FieldType::MaxFragmentsPendingReassembly => 475,
            FieldType::AddressPoolHighThreshold => 476,
            FieldType::AddressPoolLowThreshold => 477,
            FieldType::AddressPortMappingHighThreshold => 478,
            FieldType::AddressPortMappingLowThreshold => 479,
            FieldType::AddressPortMappingPerUserHighThreshold => 480,
            FieldType::GlobalAddressMappingHighThreshold => 481,
            FieldType::VpnIdentifier => 482,
            FieldType::BgpCommunity => 483,
            FieldType::BgpSourceCommunityList => 484,
            FieldType::BgpDestinationCommunityList => 485,
            FieldType::BgpExtendedCommunity => 486,
            FieldType::BgpSourceExtendedCommunityList => 487,
            FieldType::BgpDestinationExtendedCommunityList => 488,
            FieldType::BgpLargeCommunity => 489,
            FieldType::BgpSourceLargeCommunityList => 490,
            FieldType::BgpDestinationLargeCommunityList => 491,
        }
    }

    /// The element registered under `v`, if any.
    pub fn from_u16(v: u16) -> (r: Option<FieldType>)
        ensures
            r is Some <==> is_known_id(v),
            r matches Some(f) ==> f.spec_id() == v,
    {
        if v <= 31 {
            Self::from_u16_upto_31(v)
        } else if v <= 63 {
            Self::from_u16_upto_63(v)
        } else if v <= 95 {
            Self::from_u16_upto_95(v)
        } else if v <= 127 {
            Self::from_u16_upto_127(v)
        } else if v <= 159 {
            Self::from_u16_upto_159(v)
        } else if v <= 191 {
            Self::from_u16_upto_191(v)
        } else if v <= 223 {
            Self::from_u16_upto_223(v)
        } else if v <= 255 {
            Self::from_u16_upto_255(v)
        } else if v <= 287 {
            Self::from_u16_upto_287(v)
        } else if v <= 319 {
            Self::from_u16_upto_319(v)
        } else if v <= 351 {
            Self::from_u16_upto_351(v)
        } else if v <= 383 {
            Self::from_u16_upto_383(v)
        } else if v <= 415 {
            Self::from_u16_upto_415(v)
        } else if v <= 447 {
            Self::from_u16_upto_447(v)
        } else if v <= 479 {
            Self::from_u16_upto_479(v)
        } else if v <= 491 {
            Self::from_u16_upto_491(v)
        } else {
            None
        }
    }

    #[verifier::rlimit(40)]
    fn from_u16_upto_31(v: u16) -> (r: Option<FieldType>)
        requires
            0 <= v <= 31,
        ensures
            r is Some <==> is_known_id(v),
            r matches Some(f) ==> f.spec_id() == v,
    {
        match v {
            0 => Some(FieldType::Reserved),
            1 => Some(FieldType::OctetDeltaCount),
            2 => Some(FieldType::PacketDeltaCount),
            3 => Some(FieldType::DeltaFlowCount),
            4 => Some(FieldType::ProtocolIdentifier),
            5 => Some(FieldType::IPClassOfService),
            6 => Some(FieldType::TcpControlBits),
            7 => Some(FieldType::SourceTransportPort),
            8 => Some(FieldType::SourceIPv4Address),
            9 => Some(FieldType::SourceIPv4PrefixLength),
            10 => Some(FieldType::IngressInterface),
            11 => Some(FieldType::DestinationTransportPort),
            12 => Some(FieldType::DestinationIPv4Address),
            13 => Some(FieldType::DestinationIPv4PrefixLength),
            14 => Some(FieldType::EgressInterface),
            15 => Some(FieldType::IpNextHopIPv4Address),
            16 => Some(FieldType::BgpSourceAsNumber),
            17 => Some(FieldType::BgpDestinationAsNumber),
            18 => Some(FieldType::BgpNextHopIPv4Address),
            19 => Some(FieldType::PostMCastPacketDeltaCount),
            20 => Some(FieldType::PostMCastOctetDeltaCount),
            21 => Some(FieldType::FlowEndSysUpTime),
            22 => Some(FieldType::FlowStartSysUpTime),
            23 => Some(FieldType::PostOctetDeltaCount),
            24 => Some(FieldType::PostPacketDeltaCount),
            25 => Some(FieldType::MinimumIpTotalLength),
            26 => Some(FieldType::MaximumIpTotalLength),
            27 => Some(FieldType::SourceIPv6Address),
            28 => Some(FieldType::DestinationIPv6Address),
            29 => Some(FieldType::SourceIPv6PrefixLength),
            30 => Some(FieldType::DestinationIPv6PrefixLength),
            31 => Some(FieldType::FlowLabelIPv6),
            _ => None,
        }
    }

    #[verifier::rlimit(40)]
    fn from_u16_upto_63(v: u16) -> (r: Option<FieldType>)
        requires
            32 <= v <= 63,
        ensures
            r is Some <==> is_known_id(v),
            r matches Some(f) ==> f.spec_id() == v,
    {
        match v {
            32 => Some(FieldType::IcmpTypeCodeIPv4),
            33 => Some(FieldType::IgmpType),
            34 => Some(FieldType::SamplingInterval),
            35 => Some(FieldType::SamplingAlgorithm),
            36 => Some(FieldType::FlowActiveTimeout),
            37 => Some(FieldType::FlowIdleTimeout),
            38 => Some(FieldType::EngineType),
            39 => Some(FieldType::EngineId),
            40 => Some(FieldType::ExportedOctetTotalCount),
            41 => Some(FieldType::ExportedMessageTotalCount),
            42 => Some(FieldType::ExportedFlowRecordTotalCount),
            43 => Some(FieldType::Ipv4RouterSc),
            44 => Some(FieldType::SourceIPv4Prefix),
            45 => Some(FieldType::DestinationIPv4Prefix),
            46 => Some(FieldType::MplsTopLabelType),
            47 => Some(FieldType::MplsTopLabelIPv4Address),
            48 => Some(FieldType::SamplerId),
            49 => Some(FieldType::SamplerMode),
            50 => Some(FieldType::SamplerRandomInterval),
            51 => Some(FieldType::ClassId),
            52 => Some(FieldType::MinimumTTL),
            53 => Some(FieldType::MaximumTTL),
            54 => Some(FieldType::FragmentIdentification),
            55 => Some(FieldType::PostIpClassOfService),
            56 => Some(FieldType::SourceMacAddress),
            57 => Some(FieldType::PostDestinationMacAddress),
            58 => Some(FieldType::VlanId),
            59 => Some(FieldType::PostVlanId),
            60 => Some(FieldType::IPVersion),
            61 => Some(FieldType::FlowDirection),
            62 => Some(FieldType::IpNextHopIPv6Address),
            63 => Some(FieldType::BgpNextHopIPv6Address),
            _ => None,
        }
    }

    #[verifier::rlimit(40)]
    fn from_u16_upto_95(v: u16) -> (r: Option<FieldType>)
        requires
            64 <= v <= 95,
        ensures
            r is Some <==> is_known_id(v),
            r matches Some(f) ==> f.spec_id() == v,
    {
        match v {
            64 => Some(FieldType::Ipv6ExtensionHeaders),
            70 => Some(FieldType::MplsTopLabelStackSection),
            71 => Some(FieldType::MplsLabelStackSection2),
            72 => Some(FieldType::MplsLabelStackSection3),
            73 => Some(FieldType::MplsLabelStackSection4),
            74 => Some(FieldType::MplsLabelStackSection5),
            75 => Some(FieldType::MplsLabelStackSection6),
            76 => Some(FieldType::MplsLabelStackSection7),
            77 => Some(FieldType::MplsLabelStackSection8),
            78 => Some(FieldType::MplsLabelStackSection9),
            79 => Some(FieldType::MplsLabelStackSection10),
            80 => Some(FieldType::DestinationMacAddress),
            81 => Some(FieldType::PostSourceMacAddress),
            82 => Some(FieldType::InterfaceName),
            83 => Some(FieldType::InterfaceDescription),
            84 => Some(FieldType::SamplerName),
            85 => Some(FieldType::OctetTotalCount),
            86 => Some(FieldType::PacketTotalCount),
            87 => Some(FieldType::FlagsAndSamplerId),
            88 => Some(FieldType::FragmentOffset),
            89 => Some(FieldType::ForwardingStatus),
            90 => Some(FieldType::MplsVpnRouteDistinguisher),
            91 => Some(FieldType::MplsTopLabelPrefixLength),
            92 => Some(FieldType::SrcTrafficIndex),
            93 => Some(FieldType::DstTrafficIndex),
            94 => Some(FieldType::ApplicationDescription),
            95 => Some(FieldType::ApplicationId),
            _ => None,
        }
    }

    #[verifier::rlimit(40)]
    fn from_u16_upto_127(v: u16) -> (r: Option<FieldType>)
        requires
            96 <= v <= 127,
        ensures
            r is Some <==> is_known_id(v),
            r matches Some(f) ==> f.spec_id() == v,
    {
        match v {
            96 => Some(FieldType::ApplicationName),
            98 => Some(FieldType::PostIpDiffServCodePoint),
            99 => Some(FieldType::MulticastReplicationFactor),
            100 => Some(FieldType::ClassName),
            101 => Some(FieldType::ClassificationEngineId),
            102 => Some(FieldType::Layer2packetSectionOffset),
            103 => Some(FieldType::Layer2packetSectionSize),
            104 => Some(FieldType::Layer2packetSectionData),
            _ => None,
        }
    }

    #[verifier::rlimit(40)]
    fn from_u16_upto_159(v: u16) -> (r: Option<FieldType>)
        requires
            128 <= v <= 159,
        ensures
            r is Some <==> is_known_id(v),
            r matches Some(f) ==> f.spec_id() == v,
    {
        match v {
            128 => Some(FieldType::BgpNextAdjacentAsNumber),
            129 => Some(FieldType::BgpPrevAdjacentAsNumber),
            130 => Some(FieldType::ExporterIPv4Address),
            131 => Some(FieldType::ExporterIPv6Address),
            132 => Some(FieldType::DroppedOctetDeltaCount),
            133 => Some(FieldType::DroppedPacketDeltaCount),
            134 => Some(FieldType::DroppedOctetTotalCount),
            135 => Some(FieldType::DroppedPacketTotalCount),
            136 => Some(FieldType::FlowEndReason),
            137 => Some(FieldType::CommonPropertiesId),
            138 => Some(FieldType::ObservationPointId),
            139 => Some(FieldType::IcmpTypeCodeIPv6),
            140 => Some(FieldType::MplsTopLabelIPv6Address),
            141 => Some(FieldType::LineCardId),
            142 => Some(FieldType::PortId),
            143 => Some(FieldType::MeteringProcessId),
            144 => Some(FieldType::ExportingProcessId),
            145 => Some(FieldType::TemplateId),
            146 => Some(FieldType::WlanChannelId),
            147 => Some(FieldType::WlanSSID),
            148 => Some(FieldType::FlowId),
            149 => Some(FieldType::ObservationDomainId),
            150 => Some(FieldType::FlowStartSeconds),
            151 => Some(FieldType::FlowEndSeconds),
            152 => Some(FieldType::FlowStartMilliseconds),
            153 => Some(FieldType::FlowEndMilliseconds),
            154 => Some(FieldType::FlowStartMicroseconds),
            155 => Some(FieldType::FlowEndMicroseconds),
            156 => Some(FieldType::FlowStartNanoseconds),
            157 => Some(FieldType::FlowEndNanoseconds),
            158 => Some(FieldType::FlowStartDeltaMicroseconds),
            159 => Some(FieldType::FlowEndDeltaMicroseconds),
            _ => None,
        }
    }

    #[verifier::rlimit(40)]
    fn from_u16_upto_191(v: u16) -> (r: Option<FieldType>)
        requires
            160 <= v <= 191,
        ensures
            r is Some <==> is_known_id(v),
            r matches Some(f) ==> f.spec_id() == v,
    {
        match v {
            160 => Some(FieldType::SystemInitTimeMilliseconds),
            161 => Some(FieldType::FlowDurationMilliseconds),
            162 => Some(FieldType::FlowDurationMicroseconds),
            163 => Some(FieldType::ObservedFlowTotalCount),
            164 => Some(FieldType::IgnoredPacketTotalCount),
            165 => Some(FieldType::IgnoredOctetTotalCount),
            166 => Some(FieldType::NotSentFlowTotalCount),
            167 => Some(FieldType::NotSentPacketTotalCount),
            168 => Some(FieldType::NotSentOctetTotalCount),
            169 => Some(FieldType::DestinationIPv6Prefix),
            170 => Some(FieldType::SourceIPv6Prefix),
            171 => Some(FieldType::PostOctetTotalCount),
            172 => Some(FieldType::PostPacketTotalCount),
            173 => Some(FieldType::FlowKeyIndicator),
            174 => Some(FieldType::PostMCastPacketTotalCount),
            175 => Some(FieldType::PostMCastOctetTotalCount),
            176 => Some(FieldType::IcmpTypeIPv4),
            177 => Some(FieldType::IcmpCodeIPv4),
            178 => Some(FieldType::IcmpTypeIPv6),
            179 => Some(FieldType::IcmpCodeIPv6),
            180 => Some(FieldType::UdpSourcePort),
            181 => Some(FieldType::UdpDestinationPort),
            182 => Some(FieldType::TcpSourcePort),
            183 => Some(FieldType::TcpDestinationPort),
            184 => Some(FieldType::TcpSequenceNumber),
            185 => Some(FieldType::TcpAcknowledgementNumber),
            186 => Some(FieldType::TcpWindowSize),
            187 => Some(FieldType::TcpUrgentPointer),
            188 => Some(FieldType::TcpHeaderLength),
            189 => Some(FieldType::IpHeaderLength),
            190 => Some(FieldType::TotalLengthIPv4),
            191 => Some(FieldType::PayloadLengthIPv6),
            _ => None,
        }
    }

    #[verifier::rlimit(40)]
    fn from_u16_upto_223(v: u16) -> (r: Option<FieldType>)
        requires
            192 <= v <= 223,
        ensures
            r is Some <==> is_known_id(v),
            r matches Some(f) ==> f.spec_id() == v,
    {
        match v {
            192 => Some(FieldType::IpTTL),
            193 => Some(FieldType::NextHeaderIPv6),
            194 => Some(FieldType::MplsPayloadLength),
            195 => Some(FieldType::IpDiffServCodePoint),
            196 => Some(FieldType::IpPrecedence),
            197 => Some(FieldType::FragmentFlags),
            198 => Some(FieldType::OctetDeltaSumOfSquares),
            199 => Some(FieldType::OctetTotalSumOfSquares),
            200 => Some(FieldType::MplsTopLabelTTL),
            201 => Some(FieldType::MplsLabelStackLength),
            202 => Some(FieldType::MplsLabelStackDepth),
            203 => Some(FieldType::MplsTopLabelExp),
            204 => Some(FieldType::IPPayloadLength),
            205 => Some(FieldType::UdpMessageLength),
            206 => Some(FieldType::IsMulticast),
            207 => Some(FieldType::IPv4IHL),
            208 => Some(FieldType::IPv4Options),
            209 => Some(FieldType::TcpOptions),
            210 => Some(FieldType::PaddingOctets),
            211 => Some(FieldType::CollectorIPv4Address),
            212 => Some(FieldType::CollectorIPv6Address),
            213 => Some(FieldType::ExportInterface),
            214 => Some(FieldType::ExportProtocolVersion),
            215 => Some(FieldType::ExportTransportProtocol),
            216 => Some(FieldType::CollectorTransportPort),
            217 => Some(FieldType::ExporterTransportPort),
            218 => Some(FieldType::TcpSynTotalCount),
            219 => Some(FieldType::TcpFinTotalCount),
            220 => Some(FieldType::TcpRstTotalCount),
            221 => Some(FieldType::TcpPshTotalCount),
            222 => Some(FieldType::TcpAckTotalCount),
            223 => Some(FieldType::TcpUrgTotalCount),
            _ => None,
        }
    }

    #[verifier::rlimit(40)]
    fn from_u16_upto_255(v: u16) -> (r: Option<FieldType>)
        requires
            224 <= v <= 255,
        ensures
            r is Some <==> is_known_id(v),
            r matches Some(f) ==> f.spec_id() == v,
    {
        match v {
            224 => Some(FieldType::IpTotalLength),
            225 => Some(FieldType::PostNATSourceIPv4Address),
            226 => Some(FieldType::PostNATDestinationIPv4Address),
            227 => Some(FieldType::PostNAPTSourceTransportPort),
            228 => Some(FieldType::PostNAPTDestinationTransportPort),
            229 => Some(FieldType::NatOriginatingAddressRealm),
            230 => Some(FieldType::NatEvent),
            231 => Some(FieldType::InitiatorOctets),
            232 => Some(FieldType::ResponderOctets),
            233 => Some(FieldType::FirewallEvent),
            234 => Some(FieldType::IngressVRFID),
            235 => Some(FieldType::EgressVRFID),
            236 => Some(FieldType::VRFname),
            237 => Some(FieldType::PostMplsTopLabelExp),
            238 => Some(FieldType::TcpWindowScale),
            239 => Some(FieldType::BiflowDirection),
            240 => Some(FieldType::EthernetHeaderLength),
            241 => Some(FieldType::EthernetPayloadLength),
            242 => Some(FieldType::EthernetTotalLength),
            243 => Some(FieldType::Dot1qVlanId),
            244 => Some(FieldType::Dot1qPriority),
            245 => Some(FieldType::Dot1qCustomerVlanId),
            246 => Some(FieldType::Dot1qCustomerPriority),
            247 => Some(FieldType::MetroEvcId),
            248 => Some(FieldType::MetroEvcType),
            249 => Some(FieldType::PseudoWireId),
            250 => Some(FieldType::PseudoWireType),
            251 => Some(FieldType::PseudoWireControlWord),
            252 => Some(FieldType::IngressPhysicalInterface),
            253 => Some(FieldType::EgressPhysicalInterface),
            254 => Some(FieldType::PostDot1qVlanId),
            255 => Some(FieldType::PostDot1qCustomerVlanId),
            _ => None,
        }
    }

    #[verifier::rlimit(40)]
    fn from_u16_upto_287(v: u16) -> (r: Option<FieldType>)
        requires
            256 <= v <= 287,
        ensures
            r is Some <==> is_known_id(v),
            r matches Some(f) ==> f.spec_id() == v,
    {
        match v {
            256 => Some(FieldType::EthernetType),
            257 => Some(FieldType::PostIpPrecedence),
            258 => Some(FieldType::CollectionTimeMilliseconds),
            259 => Some(FieldType::ExportSctpStreamId),
            260 => Some(FieldType::MaxExportSeconds),
            261 => Some(FieldType::MaxFlowEndSeconds),
            262 => Some(FieldType::MessageMD5Checksum),
            263 => Some(FieldType::MessageScope),
            264 => Some(FieldType::MinExportSeconds),
            265 => Some(FieldType::MinFlowStartSeconds),
            266 => Some(FieldType::OpaqueOctets),
            267 => Some(FieldType::SessionScope),
            268 => Some(FieldType::MaxFlowEndMicroseconds),
            269 => Some(FieldType::MaxFlowEndMilliseconds),
            270 => Some(FieldType::MaxFlowEndNanoseconds),
            271 => Some(FieldType::MinFlowStartMicroseconds),
            272 => Some(FieldType::MinFlowStartMilliseconds),
            273 => Some(FieldType::MinFlowStartNanoseconds),
            274 => Some(FieldType::CollectorCertificate),
            275 => Some(FieldType::ExporterCertificate),
            276 => Some(FieldType::DataRecordsReliability),
            277 => Some(FieldType::ObservationPointType),
            278 => Some(FieldType::NewConnectionDeltaCount),
            279 => Some(FieldType::ConnectionSumDurationSeconds),
            280 => Some(FieldType::ConnectionTransactionId),
            281 => Some(FieldType::PostNATSourceIPv6Address),
            282 => Some(FieldType::PostNATDestinationIPv6Address),
            283 => Some(FieldType::NatPoolId),
            284 => Some(FieldType::NatPoolName),
            285 => Some(FieldType::AnonymizationFlags),
            286 => Some(FieldType::AnonymizationTechnique),
            287 => Some(FieldType::InformationElementIndex),
            _ => None,
        }
    }

    #[verifier::rlimit(40)]
    fn from_u16_upto_319(v: u16) -> (r: Option<FieldType>)
        requires
            288 <= v <= 319,
        ensures
            r is Some <==> is_known_id(v),
            r matches Some(f) ==> f.spec_id() == v,
    {
        match v {
            288 => Some(FieldType::P2PTechnology),
            289 => Some(FieldType::TunnelTechnology),
            290 => Some(FieldType::EncryptedTechnology),
            291 => Some(FieldType::BasicList),
            292 => Some(FieldType::SubTemplateList),
            293 => Some(FieldType::SubTemplateMultiList),
            294 => Some(FieldType::BgpValidityState),
            295 => Some(FieldType::IPSecSPI),
            296 => Some(FieldType::GreKey),
            297 => Some(FieldType::NatType),
            298 => Some(FieldType::InitiatorPackets),
            299 => Some(FieldType::ResponderPackets),
            300 => Some(FieldType::ObservationDomainName),
            301 => Some(FieldType::SelectionSequenceId),
            302 => Some(FieldType::SelectorId),
            303 => Some(FieldType::InformationElementId),
            304 => Some(FieldType::SelectorAlgorithm),
            305 => Some(FieldType::SamplingPacketInterval),
            306 => Some(FieldType::SamplingPacketSpace),
            307 => Some(FieldType::SamplingTimeInterval),
            308 => Some(FieldType::SamplingTimeSpace),
            309 => Some(FieldType::SamplingSize),
            310 => Some(FieldType::SamplingPopulation),
            311 => Some(FieldType::SamplingProbability),
            312 => Some(FieldType::DataLinkFrameSize),
            313 => Some(FieldType::IpHeaderPacketSection),
            314 => Some(FieldType::IpPayloadPacketSection),
            315 => Some(FieldType::DataLinkFrameSection),
            316 => Some(FieldType::MplsLabelStackSection),
            317 => Some(FieldType::MplsPayloadPacketSection),
            318 => Some(FieldType::SelectorIdTotalPktsObserved),
            319 => Some(FieldType::SelectorIdTotalPktsSelected),
            _ => None,
        }
    }

    #[verifier::rlimit(40)]
    fn from_u16_upto_351(v: u16) -> (r: Option<FieldType>)
        requires
            320 <= v <= 351,
        ensures
            r is Some <==> is_known_id(v),
            r matches Some(f) ==> f.spec_id() == v,
    {
        match v {
            320 => Some(FieldType::AbsoluteError),
            321 => Some(FieldType::RelativeError),
            322 => Some(FieldType::ObservationTimeSeconds),
            323 => Some(FieldType::ObservationTimeMilliseconds),
            324 => Some(FieldType::ObservationTimeMicroseconds),
            325 => Some(FieldType::ObservationTimeNanoseconds),
            326 => Some(FieldType::DigestHashValue),
            327 => Some(FieldType::HashIPPayloadOffset),
            328 => Some(FieldType::HashIPPayloadSize),
            329 => Some(FieldType::HashOutputRangeMin),
            330 => Some(FieldType::HashOutputRangeMax),
            331 => Some(FieldType::HashSelectedRangeMin),
            332 => Some(FieldType::HashSelectedRangeMax),
            333 => Some(FieldType::HashDigestOutput),
            334 => Some(FieldType::HashInitialiserValue),
            335 => Some(FieldType::SelectorName),
            336 => Some(FieldType::UpperCILimit),
            337 => Some(FieldType::LowerCILimit),
            338 => Some(FieldType::ConfidenceLevel),
            339 => Some(FieldType::InformationElementDataType),
            340 => Some(FieldType::InformationElementDescription),
            341 => Some(FieldType::InformationElementName),
            342 => Some(FieldType::InformationElementRangeBegin),
            343 => Some(FieldType::InformationElementRangeEnd),
            344 => Some(FieldType::InformationElementSemantics),
            345 => Some(FieldType::InformationElementUnits),
            346 => Some(FieldType::PrivateEnterpriseNumber),
            347 => Some(FieldType::VirtualStationInterfaceId),
            348 => Some(FieldType::VirtualStationInterfaceName),
            349 => Some(FieldType::VirtualStationUUID),
            350 => Some(FieldType::VirtualStationName),
            351 => Some(FieldType::Layer2SegmentId),
            _ => None,
        }
    }

    #[verifier::rlimit(40)]
    fn from_u16_upto_383(v: u16) -> (r: Option<FieldType>)
        requires
            352 <= v <= 383,
        ensures
            r is Some <==> is_known_id(v),
            r matches Some(f) ==> f.spec_id() == v,
    {
        match v {
            352 => Some(FieldType::Layer2OctetDeltaCount),
            353 => Some(FieldType::Layer2OctetTotalCount),
            354 => Some(FieldType::IngressUnicastPacketTotalCount),
            355 => Some(FieldType::IngressMulticastPacketTotalCount),
            356 => Some(FieldType::IngressBroadcastPacketTotalCount),
            357 => Some(FieldType::EgressUnicastPacketTotalCount),
            358 => Some(FieldType::EgressBroadcastPacketTotalCount),
            359 => Some(FieldType::MonitoringIntervalStartMilliSeconds),
            360 => Some(FieldType::MonitoringIntervalEndMilliSeconds),
            361 => Some(FieldType::PortRangeStart),
            362 => Some(FieldType::PortRangeEnd),
            363 => Some(FieldType::PortRangeStepSize),
            364 => Some(FieldType::PortRangeNumPorts),
            365 => Some(FieldType::StaMacAddress),
            366 => Some(FieldType::StaIPv4Address),
            367 => Some(FieldType::WtpMacAddress),
            368 => Some(FieldType::IngressInterfaceType),
            369 => Some(FieldType::EgressInterfaceType),
            370 => Some(FieldType::RtpSequenceNumber),
            371 => Some(FieldType::UserName),
            372 => Some(FieldType::ApplicationCategoryName),
            373 => Some(FieldType::ApplicationSubCategoryName),
            374 => Some(FieldType::ApplicationGroupName),
            375 => Some(FieldType::OriginalFlowsPresent),
            376 => Some(FieldType::OriginalFlowsInitiated),
            377 => Some(FieldType::OriginalFlowsCompleted),
            378 => Some(FieldType::DistinctCountOfSourceIPAddress),
            379 => Some(FieldType::DistinctCountOfDestinationIPAddress),
            380 => Some(FieldType::DistinctCountOfSourceIPv4Address),
            381 => Some(FieldType::DistinctCountOfDestinationIPv4Address),
            382 => Some(FieldType::DistinctCountOfSourceIPv6Address),
            383 => Some(FieldType::DistinctCountOfDestinationIPv6Address),
            _ => None,
        }
    }

    #[verifier::rlimit(40)]
    fn from_u16_upto_415(v: u16) -> (r: Option<FieldType>)
        requires
            384 <= v <= 415,
        ensures
            r is Some <==> is_known_id(v),
            r matches Some(f) ==> f.spec_id() == v,
    {
        match v {
            384 => Some(FieldType::ValueDistributionMethod),
            385 => Some(FieldType::Rfc3550JitterMilliseconds),
            386 => Some(FieldType::Rfc3550JitterMicroseconds),
            387 => Some(FieldType::Rfc3550JitterNanoseconds),
            388 => Some(FieldType::Dot1qDEI),
            389 => Some(FieldType::Dot1qCustomerDEI),
            390 => Some(FieldType::FlowSelectorAlgorithm),
            391 => Some(FieldType::FlowSelectedOctetDeltaCount),
            392 => Some(FieldType::FlowSelectedPacketDeltaCount),
            393 => Some(FieldType::FlowSelectedFlowDeltaCount),
            394 => Some(FieldType::SelectorIDTotalFlowsObserved),
            395 => Some(FieldType::SelectorIDTotalFlowsSelected),
            396 => Some(FieldType::SamplingFlowInterval),
            397 => Some(FieldType::SamplingFlowSpacing),
            398 => Some(FieldType::FlowSamplingTimeInterval),
            399 => Some(FieldType::FlowSamplingTimeSpacing),
            400 => Some(FieldType::HashFlowDomain),
            401 => Some(FieldType::TransportOctetDeltaCount),
            402 => Some(FieldType::TransportPacketDeltaCount),
            403 => Some(FieldType::OriginalExporterIPv4Address),
            404 => Some(FieldType::OriginalExporterIPv6Address),
            405 => Some(FieldType::OriginalObservationDomainId),
            406 => Some(FieldType::IntermediateProcessId),
            407 => Some(FieldType::IgnoredDataRecordTotalCount),
            408 => Some(FieldType::DataLinkFrameType),
            409 => Some(FieldType::SectionOffset),
            410 => Some(FieldType::SectionExportedOctets),
            411 => Some(FieldType::Dot1qServiceInstanceTag),
            412 => Some(FieldType::Dot1qServiceInstanceId),
            413 => Some(FieldType::Dot1qServiceInstancePriority),
            414 => Some(FieldType::Dot1qCustomerSourceMacAddress),
            415 => Some(FieldType::Dot1qCustomerDestinationMacAddress),
            _ => None,
        }
    }

    #[verifier::rlimit(40)]
    fn from_u16_upto_447(v: u16) -> (r: Option<FieldType>)
        requires
            416 <= v <= 447,
        ensures
            r is Some <==> is_known_id(v),
            r matches Some(f) ==> f.spec_id() == v,
    {
        match v {
            417 => Some(FieldType::PostLayer2OctetDeltaCount),
            418 => Some(FieldType::PostMCastLayer2OctetDeltaCount),
            420 => Some(FieldType::PostLayer2OctetTotalCount),
            421 => Some(FieldType::PostMCastLayer2OctetTotalCount),
            422 => Some(FieldType::MinimumLayer2TotalLength),
            423 => Some(FieldType::MaximumLayer2TotalLength),
            424 => Some(FieldType::DroppedLayer2OctetDeltaCount),
            425 => Some(FieldType::DroppedLayer2OctetTotalCount),
            426 => Some(FieldType::IgnoredLayer2OctetTotalCount),
            427 => Some(FieldType::NotSentLayer2OctetTotalCount),
            428 => Some(FieldType::Layer2OctetDeltaSumOfSquares),
            429 => Some(FieldType::Layer2OctetTotalSumOfSquares),
            430 => Some(FieldType::Layer2FrameDeltaCount),
            431 => Some(FieldType::Layer2FrameTotalCount),
            432 => Some(FieldType::PseudoWireDestinationIPv4Address),
            433 => Some(FieldType::IgnoredLayer2FrameTotalCount),
            434 => Some(FieldType::MibObjectValueInteger),
            435 => Some(FieldType::MibObjectValueOctetString),
            436 => Some(FieldType::MibObjectValueOID),
            437 => Some(FieldType::MibObjectValueBits),
            438 => Some(FieldType::MibObjectValueIPAddress),
            439 => Some(FieldType::MibObjectValueCounter),
            440 => Some(FieldType::MibObjectValueGauge),
            441 => Some(FieldType::MibObjectValueTimeTicks),
            442 => Some(FieldType::MibObjectValueUnsigned),
            443 => Some(FieldType::MibObjectValueTable),
            444 => Some(FieldType::MibObjectValueRow),
            445 => Some(FieldType::MibObjectIdentifier),
            446 => Some(FieldType::MibSubIdentifier),
            447 => Some(FieldType::MibIndexIndicator),
            _ => None,
        }
    }

    #[verifier::rlimit(40)]
    fn from_u16_upto_479(v: u16) -> (r: Option<FieldType>)
        requires
            448 <= v <= 479,
        ensures
            r is Some <==> is_known_id(v),
            r matches Some(f) ==> f.spec_id() == v,
    {
        match v {
            448 => Some(FieldType::MibCaptureTimeSemantics),
            449 => Some(FieldType::MibContextEngineID),
            450 => Some(FieldType::MibContextName),
            451 => Some(FieldType::MibObjectName),
            452 => Some(FieldType::MibObjectDescription),
            453 => Some(FieldType::MibObjectSyntax),
            454 => Some(FieldType::MibModuleName),
            455 => Some(FieldType::MobileIMSI),
            456 => Some(FieldType::MobileMSISDN),
            457 => Some(FieldType::HttpStatusCode),
            458 => Some(FieldType::SourceTransportPortsLimit),
            459 => Some(FieldType::HttpRequestMethod),
            460 => Some(FieldType::HttpRequestHost),
            461 => Some(FieldType::HttpRequestTarget),
            462 => Some(FieldType::HttpMessageVersion),
            463 => Some(FieldType::NatInstanceID),
            464 => Some(FieldType::InternalAddressRealm),
            465 => Some(FieldType::ExternalAddressRealm),
            466 => Some(FieldType::NatQuotaExceededEvent),
            467 => Some(FieldType::NatThresholdEvent),
            468 => Some(FieldType::HttpUserAgent),
            469 => Some(FieldType::HttpContentType),
            470 => Some(FieldType::HttpReasonPhrase),
            471 => Some(FieldType::MaxSessionEntries),
            472 => Some(FieldType::MaxBIBEntries),
            473 => Some(FieldType::MaxEntriesPerUser),
            474 => Some(FieldType::MaxSubscribers),
            475 => Some(FieldType::MaxFragmentsPendingReassembly),
            476 => Some(FieldType::AddressPoolHighThreshold),
            477 => Some(FieldType::AddressPoolLowThreshold),
            478 => Some(FieldType::AddressPortMappingHighThreshold),
            479 => Some(FieldType::AddressPortMappingLowThreshold),
            _ => None,
        }
    }

    #[verifier::rlimit(40)]
    fn from_u16_upto_491(v: u16) -> (r: Option<FieldType>)
        requires
            480 <= v <= 491,
        ensures
            r is Some <==> is_known_id(v),
            r matches Some(f) ==> f.spec_id() == v,
    {
        match v {
            480 => Some(FieldType::AddressPortMappingPerUserHighThreshold),
            481 => Some(FieldType::GlobalAddressMappingHighThreshold),
            482 => Some(FieldType::VpnIdentifier),
            483 => Some(FieldType::BgpCommunity),
            484 => Some(FieldType::BgpSourceCommunityList),
            485 => Some(FieldType::BgpDestinationCommunityList),
            486 => Some(FieldType::BgpExtendedCommunity),
            487 => Some(FieldType::BgpSourceExtendedCommunityList),
            488 => Some(FieldType::BgpDestinationExtendedCommunityList),
            489 => Some(FieldType::BgpLargeCommunity),
            490 => Some(FieldType::BgpSourceLargeCommunityList),
            491 => Some(FieldType::BgpDestinationLargeCommunityList),
            _ => None,
        }
    }
}

/// Why a flow ended: the values of the `flowEndReason` element.
#[derive(Clone, Copy, Debug, PartialEq, Eq, Structural)]
pub enum EndReason {
    IdleTimeout,
    ActiveTimeout,
    EndOfFlowDetected,
    ForcedEnd,
    LackOfResources,
}

impl EndReason {
    /// The value that stands for the reason on the wire.
    pub open spec fn spec_code(self) -> u8 {
        match self {
            EndReason::IdleTimeout => 1,
            EndReason::ActiveTimeout => 2,
            EndReason::EndOfFlowDetected => 3,
            EndReason::ForcedEnd => 4,
            EndReason::LackOfResources => 5,
        }
    }

    /// The reason that the wire value `v` stands for, if any.
    pub fn from_u8(v: u8) -> (r: Option<EndReason>)
        ensures
            r is Some <==> 1 <= v <= 5,
            r matches Some(e) ==> e.spec_code() == v,
    {
        match v {
            1 => Some(EndReason::IdleTimeout),
            2 => Some(EndReason::ActiveTimeout),
            3 => Some(EndReason::EndOfFlowDetected),
            4 => Some(EndReason::ForcedEnd),
            5 => Some(EndReason::LackOfResources),
            _ => None,
        }
    }
}

} // verus!
