//! A typed binary codec for the PPPoE and PPP protocol family.
//!
//! The crate models PPPoE discovery and session frames, PPP protocol
//! multiplexing, and the control-protocol payloads LCP, PAP, CHAP, IPCP and
//! IPv6CP. Every message type carries an exact wire specification
//! (a spec function from its abstract value to the byte sequence the
//! protocols mandate), and the encoders and decoders are verified against
//! those specifications, including the lossless round trip from a value to
//! bytes and back.
#![verifier::loop_isolation(false)]

pub mod chap;
pub mod de;
pub mod error;
pub mod ipcp;
pub mod ipv6cp;
pub mod lcp;
pub mod pap;
pub mod ppp;
pub mod pppoe;
pub mod ser;
pub mod types;

pub use chap::CHAP_CHALLENGE;
pub use chap::CHAP_FAILURE;
pub use chap::CHAP_RESPONSE;
pub use chap::CHAP_SUCCESS;
pub use chap::ChapChallenge;
pub use chap::ChapData;
pub use chap::ChapFailure;
pub use chap::ChapPkt;
pub use chap::ChapResponse;
pub use chap::ChapSuccess;
pub use de::Deserialize;
pub use de::Reader;
pub use error::Error;
pub use ipcp::IPCP_CODE_REJECT;
pub use ipcp::IPCP_CONFIGURE_ACK;
pub use ipcp::IPCP_CONFIGURE_NAK;
pub use ipcp::IPCP_CONFIGURE_REJECT;
pub use ipcp::IPCP_CONFIGURE_REQUEST;
pub use ipcp::IPCP_TERMINATE_ACK;
pub use ipcp::IPCP_TERMINATE_REQUEST;
pub use ipcp::IpcpCodeReject;
pub use ipcp::IpcpConfigureAck;
pub use ipcp::IpcpConfigureNak;
pub use ipcp::IpcpConfigureReject;
pub use ipcp::IpcpConfigureRequest;
pub use ipcp::IpcpData;
pub use ipcp::IpcpOpt;
pub use ipcp::IpcpOption;
pub use ipcp::IpcpPkt;
pub use ipcp::IpcpTerminateAck;
pub use ipcp::IpcpTerminateRequest;
pub use ipcp::OPT_IP_ADDRESS;
pub use ipcp::OPT_IP_COMPRESSION_PROTOCOL;
pub use ipcp::OPT_PRIMARY_DNS;
pub use ipcp::OPT_SECONDARY_DNS;
pub use ipv6cp::IPV6CP_CODE_REJECT;
pub use ipv6cp::IPV6CP_CONFIGURE_ACK;
pub use ipv6cp::IPV6CP_CONFIGURE_NAK;
pub use ipv6cp::IPV6CP_CONFIGURE_REJECT;
pub use ipv6cp::IPV6CP_CONFIGURE_REQUEST;
pub use ipv6cp::IPV6CP_TERMINATE_ACK;
pub use ipv6cp::IPV6CP_TERMINATE_REQUEST;
pub use ipv6cp::Ipv6cpCodeReject;
pub use ipv6cp::Ipv6cpConfigureAck;
pub use ipv6cp::Ipv6cpConfigureNak;
pub use ipv6cp::Ipv6cpConfigureReject;
pub use ipv6cp::Ipv6cpConfigureRequest;
pub use ipv6cp::Ipv6cpData;
pub use ipv6cp::Ipv6cpOpt;
pub use ipv6cp::Ipv6cpOption;
pub use ipv6cp::Ipv6cpPkt;
pub use ipv6cp::Ipv6cpTerminateAck;
pub use ipv6cp::Ipv6cpTerminateRequest;
pub use ipv6cp::OPT_INTERFACE_IDENTIFIER;
pub use lcp::LCP_CODE_REJECT;
pub use lcp::LCP_CONFIGURE_ACK;
pub use lcp::LCP_CONFIGURE_NAK;
pub use lcp::LCP_CONFIGURE_REJECT;
pub use lcp::LCP_CONFIGURE_REQUEST;
pub use lcp::LCP_DISCARD_REQUEST;
pub use lcp::LCP_ECHO_REPLY;
pub use lcp::LCP_ECHO_REQUEST;
pub use lcp::LCP_PROTOCOL_REJECT;
pub use lcp::LCP_TERMINATE_ACK;
pub use lcp::LCP_TERMINATE_REQUEST;
pub use lcp::LcpCodeReject;
pub use lcp::LcpConfigureAck;
pub use lcp::LcpConfigureNak;
pub use lcp::LcpConfigureReject;
pub use lcp::LcpConfigureRequest;
pub use lcp::LcpData;
pub use lcp::LcpDiscardRequest;
pub use lcp::LcpEchoReply;
pub use lcp::LcpEchoRequest;
pub use lcp::LcpOpt;
pub use lcp::LcpOption;
pub use lcp::LcpPkt;
pub use lcp::LcpProtocolReject;
pub use lcp::LcpTerminateAck;
pub use lcp::LcpTerminateRequest;
pub use lcp::OPT_ADDR_CTL_FIELD_COMPRESSION;
pub use lcp::OPT_AUTHENTICATION_PROTOCOL;
pub use lcp::OPT_MAGIC_NUMBER;
pub use lcp::OPT_MRU;
pub use lcp::OPT_PROTOCOL_FIELD_COMPRESSION;
pub use lcp::OPT_QUALITY_PROTOCOL;
pub use pap::PAP_AUTH_ACK;
pub use pap::PAP_AUTH_NAK;
pub use pap::PAP_AUTH_REQUEST;
pub use pap::PapAuthenticateAck;
pub use pap::PapAuthenticateNak;
pub use pap::PapAuthenticateRequest;
pub use pap::PapData;
pub use pap::PapPkt;
pub use ppp::AuthProto;
pub use ppp::AuthProtocol;
pub use ppp::CHAP;
pub use ppp::CHAP_MD5;
pub use ppp::ChapAlgorithm;
pub use ppp::IPCP;
pub use ppp::IPV6CP;
pub use ppp::IpCompressionProto;
pub use ppp::IpCompressionProtocol;
pub use ppp::LCP;
pub use ppp::LQR;
pub use ppp::PAP;
pub use ppp::PppData;
pub use ppp::PppPkt;
pub use ppp::QualityProto;
pub use ppp::QualityProtocol;
pub use ppp::VAN_JACOBSON;
pub use ppp::VanJacobsonConfig;
pub use pppoe::EtherType;
pub use pppoe::MacAddr;
pub use pppoe::PppoeCode;
pub use pppoe::PppoeData;
pub use pppoe::PppoePadi;
pub use pppoe::PppoePado;
pub use pppoe::PppoePadr;
pub use pppoe::PppoePads;
pub use pppoe::PppoePadt;
pub use pppoe::PppoePkt;
pub use pppoe::PppoeTag;
pub use pppoe::PppoeVal;
pub use ser::Serialize;
pub use types::Ipv4Addr;
pub use types::VerType;
