use vstd::prelude::*;

verus! {

/// Options of the system resolver, each one bit of its option word.
#[derive(Debug, Clone, Copy, PartialEq, Eq, Structural)]
pub enum ResolverOption {
    /// address initialized
    Init,
    /// print debug messages
    Debug,
    /// use virtual circuit
    UseVC,
    /// ignore truncation errors
    IgnTc,
    /// recursion desired
    Recurse,
    /// use default domain name
    DefNames,
    /// Keep TCP socket open
    StayOpen,
    /// search up local domain tree
    DNSrch,
    /// shuts off HOSTALIASES feature
    NoAliases,
    /// rotate ns list after each query
    Rotate,
    /// Use EDNS0.
    UseEDNS0,
    /// one outstanding request at a time
    SngLkup,
    /// one outstanding request at a time, but open new socket for each request
    SngLkupReop,
    /// use DNSSEC using OK bit in OPT
    UseDNSSEC,
    /// Do not look up unqualified name as a TLD.
    NoTLDQuery,
    /// No automatic configuration reload
    NoReload,
    /// Request AD bit, keep it in responses
    TrustAD,
    /// Default values: recursion, default domain name and search
    Default,
}

impl ResolverOption {
    /// The bits that the option stands for in the option word.
    pub open spec fn spec_bits(self) -> u64 {
        match self {
            ResolverOption::Init => 0x1,
            ResolverOption::Debug => 0x2,
            ResolverOption::UseVC => 0x8,
            ResolverOption::IgnTc => 0x20,
            ResolverOption::Recurse => 0x40,
            ResolverOption::DefNames => 0x80,
            ResolverOption::StayOpen => 0x100,
            ResolverOption::DNSrch => 0x200,
            ResolverOption::NoAliases => 0x1000,
            ResolverOption::Rotate => 0x4000,
            ResolverOption::UseEDNS0 => 0x100000,
            ResolverOption::SngLkup => 0x200000,
            ResolverOption::SngLkupReop => 0x400000,
            ResolverOption::UseDNSSEC => 0x800000,
            ResolverOption::NoTLDQuery => 0x1000000,
            ResolverOption::NoReload => 0x2000000,
            ResolverOption::TrustAD => 0x4000000,
            ResolverOption::Default => 0x2c0,
        }
    }

    /// The bits that the option stands for in the option word.
    pub fn bits(&self) -> (r: u64)
        ensures
            r == self.spec_bits(),
    {
        match self {
            ResolverOption::Init => 0x1,
            ResolverOption::Debug => 0x2,
            ResolverOption::UseVC => 0x8,
            ResolverOption::IgnTc => 0x20,
            ResolverOption::Recurse => 0x40,
            ResolverOption::DefNames => 0x80,
            ResolverOption::StayOpen => 0x100,
            ResolverOption::DNSrch => 0x200,
            ResolverOption::NoAliases => 0x1000,
            ResolverOption::Rotate => 0x4000,
            ResolverOption::UseEDNS0 => 0x100000,
            ResolverOption::SngLkup => 0x200000,
            ResolverOption::SngLkupReop => 0x400000,
            ResolverOption::UseDNSSEC => 0x800000,
            ResolverOption::NoTLDQuery => 0x1000000,
            ResolverOption::NoReload => 0x2000000,
            ResolverOption::TrustAD => 0x4000000,
            ResolverOption::Default => 0x2c0,
        }
    }
}

/// The option word with an option's bits set, or cleared.
pub fn set_option(options: u64, option: ResolverOption, value: bool) -> (r: u64)
    ensures
        value ==> r == options | option.spec_bits(),
        !value ==> r == options & !option.spec_bits(),
{
    if value {
        options | option.bits()
    } else {
        options & !option.bits()
    }
}

} // verus!
