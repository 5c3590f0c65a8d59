//! DNS-SD service discovery events.
//!
//! libcups reports browse and resolve results through callbacks; the events
//! handed on to the caller are assembled here from what a callback received.

use vstd::prelude::*;
use vstd::string::StringSliceAdditionalSpecFns;
use crate::error::Error;
use crate::text::first_nul;
use crate::text::nul_position;
use crate::text::trim_dots;
use crate::text::trim_trailing_dots;

verus! {

/// `cups_dnssd_flags_t` bit set when a browsed service was added.
pub const CUPS_DNSSD_FLAGS_ADD: u32 = 1;
/// `cups_dnssd_flags_t` bit set when an error occurred.
pub const CUPS_DNSSD_FLAGS_ERROR: u32 = 2;

/// A service that appeared or went away while browsing.
#[derive(Clone, Debug, Eq, PartialEq)]
pub struct DnssdBrowseEvent {
    pub added: bool,
    pub interface_index: u32,
    pub name: String,
    pub service_type: String,
    pub domain: String,
}

/// Where a resolved service can be reached.
#[derive(Clone, Debug, Eq, PartialEq)]
pub struct DnssdResolveEvent {
    pub name: String,
    pub service_type: String,
    pub domain: String,
    pub interface_index: u32,
    pub full_name: String,
    pub hostname: String,
    pub port: u16,
    pub txt: Vec<(String, String)>,
}

/// A TXT record entry that has both a key and a value.
pub open spec fn complete_entry(entry: (Option<String>, Option<String>)) -> Option<(String, String)> {
    match entry {
        (Some(k), Some(v)) => Some((k, v)),
        _ => None,
    }
}

impl DnssdBrowseEvent {
    /// The event for a browse callback, or `None` when the callback lacked a
    /// name, a service type or a domain.
    pub fn from_callback(
        flags: u32,
        interface_index: u32,
        name: Option<String>,
        service_type: Option<String>,
        domain: Option<String>,
    ) -> (r: Option<DnssdBrowseEvent>)
        ensures
            (name is None || service_type is None || domain is None) ==> r is None,
            (name is Some && service_type is Some && domain is Some) ==> (r matches Some(e) && {
                &&& e.added == (flags & CUPS_DNSSD_FLAGS_ADD != 0)
                &&& e.added == (flags & 1u32 != 0)
                &&& e.interface_index == interface_index
                &&& Some(e.name) == name
                &&& Some(e.service_type) == service_type
                &&& Some(e.domain) == domain
            }),
    {
        match (name, service_type, domain) {
            (Some(name), Some(service_type), Some(domain)) => Some(
                DnssdBrowseEvent {
                    added: flags & CUPS_DNSSD_FLAGS_ADD != 0,
                    interface_index,
                    name,
                    service_type,
                    domain,
                },
            ),
            _ => None,
        }
    }
}

impl DnssdResolveEvent {
    /// The event for a resolve callback on `service`, or `None` when the
    /// callback reported an error or lacked the full name or the host name.
    ///
    /// The host name loses its trailing dots; TXT entries missing a key or a
    /// value are left out.
    pub fn from_callback(
        service: &DnssdBrowseEvent,
        flags: u32,
        interface_index: u32,
        full_name: Option<String>,
        hostname: Option<&str>,
        port: u16,
        txt: &[(Option<String>, Option<String>)],
    ) -> (r: Option<DnssdResolveEvent>)
        ensures
            (full_name is None || hostname is None || flags & CUPS_DNSSD_FLAGS_ERROR != 0) ==> r is None,
            flags & 2u32 != 0 ==> r is None,
            (full_name is Some && hostname is Some && flags & CUPS_DNSSD_FLAGS_ERROR == 0) ==> (
            r matches Some(e) && {
                &&& e.name == service.name
                &&& e.service_type == service.service_type
                &&& e.domain == service.domain
                &&& e.interface_index == interface_index
                &&& Some(e.full_name) == full_name
                &&& e.hostname@ == trim_dots(hostname.unwrap()@)
                &&& e.port == port
                &&& e.txt@ == txt@.filter_map(|entry: (Option<String>, Option<String>)| complete_entry(entry))
            }),
    {
        if flags & CUPS_DNSSD_FLAGS_ERROR != 0 {
            return None;
        }
        let full_name = match full_name {
            Some(f) => f,
            None => return None,
        };
        let host = match hostname {
            Some(h) => h,
            None => return None,
        };
        let ghost f = |entry: (Option<String>, Option<String>)| complete_entry(entry);
        let mut entries: Vec<(String, String)> = Vec::new();
        let mut i: usize = 0;
        while i < txt.len()
            invariant
                i <= txt@.len(),
                f == (|entry: (Option<String>, Option<String>)| complete_entry(entry)),
                entries@ == txt@.take(i as int).filter_map(f),
            decreases txt@.len() - i,
        {
            proof {
                assert(txt@.take(i + 1).drop_last() =~= txt@.take(i as int));
                assert(txt@.take(i + 1).last() == txt@[i as int]);
            }
            match &txt[i] {
                (Some(k), Some(v)) => {
                    entries.push((k.clone(), v.clone()));
                },
                _ => {},
            }
            i = i + 1;
        }
        assert(txt@.take(txt@.len() as int) =~= txt@);
        Some(
            DnssdResolveEvent {
                name: service.name.clone(),
                service_type: service.service_type.clone(),
                domain: service.domain.clone(),
                interface_index,
                full_name,
                hostname: trim_trailing_dots(host),
                port,
                txt: entries,
            },
        )
    }
}

/// `r` is the outcome of checking `strings`, in order, for a zero byte: the
/// position of the first such byte in the first string holding one, or `Ok`.
pub open spec fn first_nul_outcome(r: Result<(), Error>, strings: Seq<Seq<u8>>) -> bool {
    if exists|i: int| 0 <= i < strings.len() && first_nul(#[trigger] strings[i]) is Some {
        let i = choose|i: int| 0 <= i < strings.len() && first_nul(#[trigger] strings[i]) is Some
            && forall|j: int| 0 <= j < i ==> first_nul(#[trigger] strings[j]) is None;
        r matches Err(Error::InteriorNul(p)) && Some(p as int) == first_nul(strings[i])
    } else {
        r is Ok
    }
}

proof fn lemma_first_nul_outcome_at(r: Result<(), Error>, strings: Seq<Seq<u8>>, k: int)
    requires
        0 <= k < strings.len(),
        first_nul(strings[k]) is Some,
        forall|j: int| 0 <= j < k ==> first_nul(#[trigger] strings[j]) is None,
        r matches Err(Error::InteriorNul(p)) && Some(p as int) == first_nul(strings[k]),
    ensures
        first_nul_outcome(r, strings),
{
    let c = choose|i: int| 0 <= i < strings.len() && first_nul(#[trigger] strings[i]) is Some
        && forall|j: int| 0 <= j < i ==> first_nul(#[trigger] strings[j]) is None;
    assert(0 <= k < strings.len() && first_nul(strings[k]) is Some);
    if c < k {
        assert(first_nul(strings[c]) is None);
    }
    if k < c {
        assert(first_nul(strings[k]) is None);
    }
}

/// Checks the arguments of a browse before they are handed to libcups: the
/// service types, then the domain when there is one, must hold no zero byte.
pub fn check_browse_request(service_types: &str, domain: Option<&str>) -> (r: Result<(), Error>)
    ensures
        first_nul_outcome(
            r,
            match domain {
                Some(d) => seq![service_types.spec_bytes(), d.spec_bytes()],
                None => seq![service_types.spec_bytes()],
            },
        ),
{
    let ghost strings = match domain {
        Some(d) => seq![service_types.spec_bytes(), d.spec_bytes()],
        None => seq![service_types.spec_bytes()],
    };
    if let Some(p) = nul_position(service_types) {
        proof {
            lemma_first_nul_outcome_at(Err(Error::InteriorNul(p)), strings, 0);
        }
        return Err(Error::InteriorNul(p));
    }
    if let Some(d) = domain {
        if let Some(p) = nul_position(d) {
            proof {
                lemma_first_nul_outcome_at(Err(Error::InteriorNul(p)), strings, 1);
            }
            return Err(Error::InteriorNul(p));
        }
    }
    Ok(())
}

/// The byte strings a resolve hands libcups: the service's name, service type
/// and domain.
pub open spec fn resolve_strings(service: DnssdBrowseEvent) -> Seq<Seq<u8>> {
    seq![
        vstd::utf8::encode_utf8(service.name@),
        vstd::utf8::encode_utf8(service.service_type@),
        vstd::utf8::encode_utf8(service.domain@),
    ]
}

/// The message of a resolve libcups refused for `service`.
pub open spec fn resolve_failure_message(service: DnssdBrowseEvent) -> Seq<char> {
    "failed to resolve DNS-SD service '"@ + service.name@ + "'"@
}

impl DnssdBrowseEvent {
    /// Checks a browsed service before it is resolved: its name, service
    /// type and domain, in that order, must hold no zero byte.
    pub fn check_resolve_request(&self) -> (r: Result<(), Error>)
        ensures
            first_nul_outcome(r, resolve_strings(*self)),
    {
        let ghost strings = resolve_strings(*self);
        if let Some(p) = nul_position(self.name.as_str()) {
            proof {
                lemma_first_nul_outcome_at(Err(Error::InteriorNul(p)), strings, 0);
            }
            return Err(Error::InteriorNul(p));
        }
        if let Some(p) = nul_position(self.service_type.as_str()) {
            proof {
                lemma_first_nul_outcome_at(Err(Error::InteriorNul(p)), strings, 1);
            }
            return Err(Error::InteriorNul(p));
        }
        if let Some(p) = nul_position(self.domain.as_str()) {
            proof {
                lemma_first_nul_outcome_at(Err(Error::InteriorNul(p)), strings, 2);
            }
            return Err(Error::InteriorNul(p));
        }
        Ok(())
    }

    /// The error for a resolve of this service that libcups refused.
    pub fn resolve_failure(&self) -> (r: Error)
        ensures
            r matches Error::NetworkError(m) && m@ == resolve_failure_message(*self),
    {
        let mut message = String::from_str("failed to resolve DNS-SD service '");
        message.append(self.name.as_str());
        message.append("'");
        proof {
            reveal_strlit("failed to resolve DNS-SD service '");
            reveal_strlit("'");
        }
        Error::NetworkError(message)
    }
}

} // verus!
