//! Typed representation of the network-plugin configuration exchange.
//! These documents are consumed and produced verbatim; this crate does
//! not interpret plugin-specific fields. The wire encoding (and the
//! plugin-specific opaque fields it may carry) lives with the embedding
//! program; here are the typed shapes and the error-code rules.

use crate::text::spec_dec_u64;
use vstd::prelude::*;
use vstd::string::*;

verus! {

/// A versioned object of the plugin-configuration exchange. Many objects
/// there are reused, but only the top-level object generally specifies a
/// version; this wrapper allows reusing the corresponding type
/// definitions.
#[derive(Debug, PartialEq, Eq)]
pub struct Versioned<T> {
    /// Semantic Version 2.0 of the specification to which this object
    /// conforms.
    pub cni_version: String,
    pub payload: T,
}

/// Common DNS information.
#[derive(Debug, PartialEq, Eq)]
pub struct DnsConfiguration {
    /// A priority-ordered list of DNS nameserver addresses that this
    /// network is aware of.
    pub nameservers: Vec<String>,
    /// The local domain used for short hostname lookups
    pub domain: Option<String>,
    /// List of priority-ordered search domains for short hostname
    /// lookups. Will be preferred over `domain` by most resolvers.
    pub search: Vec<String>,
    /// List of options that can be passed to the resolver.
    pub options: Vec<String>,
}

/// Result of a network-plugin invocation.
#[derive(Debug)]
pub struct PluginResult {
    /// Specific network interfaces the plugin created.
    pub interfaces: Vec<Interface>,
    pub ips: Vec<IpConfiguration>,
    pub routes: Vec<RouteConfiguration>,
    pub dns: Option<DnsConfiguration>,
}

/// A network interface created by a network plugin.
#[derive(Debug)]
pub struct Interface {
    /// Network interface name.
    pub name: String,
    /// The hardware address of the interface. If L2 addresses are not
    /// meaningful for the plugin then this field is optional.
    pub mac: Option<String>,
    /// Container/namespace-based environments should return the full
    /// filesystem path to the network namespace of that sandbox;
    /// hypervisor/VM-based plugins an ID unique to the virtualized
    /// sandbox the interface was created in.
    pub sandbox: String,
}

/// IP configuration information provided by a network plugin.
#[derive(Debug)]
pub struct IpConfiguration {
    /// IP address range in CIDR notation
    pub address: String,
    /// The default gateway for this subnet, if one exists.
    pub gateway: Option<String>,
    /// Index into the interface list of a plugin result indicating which
    /// interface this IP configuration should be applied to.
    pub interface: usize,
}

/// IP routing configuration. Routes are expected to be added with a 0
/// metric.
#[derive(Debug)]
pub struct RouteConfiguration {
    /// Destination subnet specified in CIDR notation.
    pub destination: String,
    /// IP of the gateway. If omitted, a default gateway is assumed (as
    /// determined by the plugin).
    pub gateway: Option<String>,
}

/// Abbreviated form of [`PluginResult`] returned by IP-allocation
/// plugins.
#[derive(Debug)]
pub struct IpamResult {
    /// IP configuration
    pub ips: Vec<IpamIpConfiguration>,
    /// Route configuration.
    pub routes: Vec<RouteConfiguration>,
    /// Common DNS information.
    pub dns: Option<DnsConfiguration>,
}

/// Version of [`IpConfiguration`] that omits fields that should not be
/// returned by IP-allocation plugins.
#[derive(Debug)]
pub struct IpamIpConfiguration {
    /// IP address range in CIDR notation
    pub address: String,
    /// The default gateway for this subnet, if one exists.
    pub gateway: Option<String>,
}

/// A network-plugin error. Note that plugins may also log unstructured
/// information to stderr.
#[derive(Debug, Clone, PartialEq, Eq)]
pub struct Error {
    pub code: ErrorCode,
    pub message: String,
    pub details: Option<String>,
}

/// A well-known network-plugin error code.
#[derive(Debug, Copy, Clone, PartialEq, Eq)]
pub enum ErrorCode {
    IncompatibleCniVersion,
    UnsupportedConfigurationField,
    ContainerUnknown,
    InvalidEnvironmentVariable,
    Io,
    Decode,
    InvalidNetworkConfiguration,
    Transient,
    Reserved(u32),
    Plugin(u32),
}

/// The error code that a numeric wire value stands for: 1 through 7 and
/// 11 are well known, 8, 9 and 12 through 99 are reserved, everything
/// else is plugin-specific.
pub open spec fn spec_error_code_of(value: u32) -> ErrorCode {
    if value == 1 {
        ErrorCode::IncompatibleCniVersion
    } else if value == 2 {
        ErrorCode::UnsupportedConfigurationField
    } else if value == 3 {
        ErrorCode::ContainerUnknown
    } else if value == 4 {
        ErrorCode::InvalidEnvironmentVariable
    } else if value == 5 {
        ErrorCode::Io
    } else if value == 6 {
        ErrorCode::Decode
    } else if value == 7 {
        ErrorCode::InvalidNetworkConfiguration
    } else if value == 11 {
        ErrorCode::Transient
    } else if value == 8 || value == 9 || (12 <= value && value <= 99) {
        ErrorCode::Reserved(value)
    } else {
        ErrorCode::Plugin(1)
    }
}

impl ErrorCode {
    /// Decodes a numeric error code from the wire.
    pub fn from_code(value: u32) -> (r: ErrorCode)
        ensures
            r == spec_error_code_of(value),
    {
        match value {
            1 => ErrorCode::IncompatibleCniVersion,
            2 => ErrorCode::UnsupportedConfigurationField,
            3 => ErrorCode::ContainerUnknown,
            4 => ErrorCode::InvalidEnvironmentVariable,
            5 => ErrorCode::Io,
            6 => ErrorCode::Decode,
            7 => ErrorCode::InvalidNetworkConfiguration,
            11 => ErrorCode::Transient,
            8 | 9 => ErrorCode::Reserved(value),
            _ => {
                if 12 <= value && value <= 99 {
                    ErrorCode::Reserved(value)
                } else {
                    ErrorCode::Plugin(1)
                }
            },
        }
    }

    /// Human-readable description of the code.
    pub fn description(&self) -> (r: String)
        ensures
            r@ == spec_error_code_description(*self),
    {
        match self {
            ErrorCode::IncompatibleCniVersion => "Incompatible CNI version".to_owned(),
            ErrorCode::UnsupportedConfigurationField => {
                "Unsupported field in network configuration".to_owned()
            },
            ErrorCode::ContainerUnknown => "Container unknown or does not exist".to_owned(),
            ErrorCode::InvalidEnvironmentVariable => {
                "Invalid necessary environment variables".to_owned()
            },
            ErrorCode::Io => "I/O failure".to_owned(),
            ErrorCode::Decode => "Failed to decode content".to_owned(),
            ErrorCode::InvalidNetworkConfiguration => "Invalid network config".to_owned(),
            ErrorCode::Transient => "Try again later".to_owned(),
            ErrorCode::Reserved(code) => {
                let mut r = "reserved error ".to_owned();
                let num = crate::text::dec_u64(*code as u64);
                r.append(num.as_str());
                r
            },
            ErrorCode::Plugin(code) => {
                let mut r = "plugin-specific error ".to_owned();
                let num = crate::text::dec_u64(*code as u64);
                r.append(num.as_str());
                r
            },
        }
    }
}

/// View of [`ErrorCode::description`] results.
pub open spec fn spec_error_code_description(c: ErrorCode) -> Seq<char> {
    match c {
        ErrorCode::IncompatibleCniVersion => "Incompatible CNI version"@,
        ErrorCode::UnsupportedConfigurationField => "Unsupported field in network configuration"@,
        ErrorCode::ContainerUnknown => "Container unknown or does not exist"@,
        ErrorCode::InvalidEnvironmentVariable => "Invalid necessary environment variables"@,
        ErrorCode::Io => "I/O failure"@,
        ErrorCode::Decode => "Failed to decode content"@,
        ErrorCode::InvalidNetworkConfiguration => "Invalid network config"@,
        ErrorCode::Transient => "Try again later"@,
        ErrorCode::Reserved(code) => "reserved error "@ + spec_dec_u64(code as nat),
        ErrorCode::Plugin(code) => "plugin-specific error "@ + spec_dec_u64(code as nat),
    }
}

/// View of [`Error::message`] results: the code's description, the
/// message, and the details when there are any.
pub open spec fn spec_cni_error_message(e: Error) -> Seq<char> {
    "CNI error ("@ + spec_error_code_description(e.code) + "): "@ + e.message@ + (
    match e.details {
        Some(d) => " ("@ + d@ + ")"@,
        None => Seq::empty(),
    })
}

impl Error {
    /// Human-readable description of the plugin error.
    pub fn message(&self) -> (r: String)
        ensures
            r@ == spec_cni_error_message(*self),
    {
        let mut r = "CNI error (".to_owned();
        let desc = self.code.description();
        r.append(desc.as_str());
        r.append("): ");
        r.append(self.message.as_str());
        match &self.details {
            Some(d) => {
                r.append(" (");
                r.append(d.as_str());
                r.append(")");
            },
            None => {},
        }
        proof {
            assert(r@ =~= spec_cni_error_message(*self));
        }
        r
    }
}

/// Reports whether a flag is switched off; companion predicate for fields
/// that are serialized only when set.
pub fn is_false(v: &bool) -> (r: bool)
    ensures
        r == !*v,
{
    !*v
}

} // verus!
