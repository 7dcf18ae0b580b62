//! The errors of the message-level encoding traits in [`crate::network::encode`].
use vstd::prelude::*;

verus! {

/// Every way in which writing or reading a message field can fail, named by
/// the field.
#[derive(PartialEq, Eq, Structural, Debug, Clone, Copy)]
pub enum Error {
    MessageMagic,
    MessageMagicReverse,
    MessageCommand,
    MessagePayLoadLen,
    MessagePayLoad,
    MessageChecksum,

    GetHeadersVersion,
    GetHeadersLocatorsCount,
    GetHeadersLocators,
    GetHeadersLocator,
    GetHeadersStop,

    VersionVersion,
    VersionServices,
    VersionTimestamp,
    VersionReceiver,
    VersionSender,
    VersionNonce,
    VersionUserAgent,
    VersionUserAgentLen,
    VersionStartHeight,
    VersionRelay,

    NetworkAddrTime,
    NetworkAddrServices,
    NetworkAddrIp,
    NetworkAddrPort,

    TimedNetworkAddrTime,

    Service,
    IpAddr,
}

} // verus!
