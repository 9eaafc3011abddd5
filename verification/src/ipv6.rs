//! IPv6 addresses as eight 16-bit segments.

use vstd::prelude::*;

verus! {

/// An IPv6 address, held as its eight 16-bit segments in network order.
#[derive(Clone, Copy, Debug, PartialEq, Eq)]
pub struct Ipv6Address {
    pub segments: [u16; 8],
}

impl View for Ipv6Address {
    type V = Seq<u16>;

    open spec fn view(&self) -> Seq<u16> {
        self.segments@
    }
}

impl Ipv6Address {
    /// Builds an address out of its eight segments.
    pub fn new(segments: [u16; 8]) -> (r: Ipv6Address)
        ensures
            r@ == segments@,
    {
        Ipv6Address { segments }
    }

    /// The eight segments of the address.
    pub fn segments(&self) -> (r: [u16; 8])
        ensures
            r@ == self@,
    {
        self.segments
    }

    /// Whether two addresses have the same segments.
    pub fn same_as(&self, other: &Ipv6Address) -> (r: bool)
        ensures
            r == (self@ == other@),
    {
        let mut i: usize = 0;
        while i < 8
            invariant
                i <= 8,
                self@.len() == 8,
                other@.len() == 8,
                forall|j: int| 0 <= j < i ==> self@[j] == other@[j],
            decreases 8 - i,
        {
            if self.segments[i] != other.segments[i] {
                return false;
            }
            i = i + 1;
        }
        assert(self@ =~= other@);
        true
    }
}


/// The text that the standard library's `Display` for `Ipv6Addr` writes for the
/// address with these segments (RFC 5952 form).
pub uninterp spec fn ipv6_text(segments: Seq<u16>) -> Seq<char>;

/// The segments that the standard library's `FromStr` for `Ipv6Addr` reads
/// from this text, or `None` where it refuses the text.
pub uninterp spec fn ipv6_parse(text: Seq<char>) -> Option<Seq<u16>>;

/// Formats an address with the standard library (`Display for core::net::Ipv6Addr`).
/// Its text is named `ipv6_text` of the segments; nothing more of it is stated.
#[verifier::external_body]
pub(crate) fn ipv6_to_string(addr: &Ipv6Address) -> (r: String)
    ensures
        r@ == ipv6_text(addr@),
{
    core::net::Ipv6Addr::from(addr.segments).to_string()
}

/// Parses an address with the standard library (`FromStr for core::net::Ipv6Addr`).
/// Its outcome is named `ipv6_parse` of the text; nothing more of it is stated.
#[verifier::external_body]
pub(crate) fn ipv6_from_str(text: &str) -> (r: Option<Ipv6Address>)
    ensures
        match ipv6_parse(text@) {
            Some(segs) => r matches Some(a) && a@ == segs,
            None => r is None,
        },
{
    match text.parse::<core::net::Ipv6Addr>() {
        Ok(a) => Some(Ipv6Address { segments: a.segments() }),
        Err(_) => None,
    }
}

impl Ipv6Address {
    /// The address as text, in the standard library's notation.
    pub fn to_text(&self) -> (r: String)
        ensures
            r@ == ipv6_text(self@),
    {
        ipv6_to_string(self)
    }

    /// Reads an address from text, in the standard library's notation.
    pub fn parse(text: &str) -> (r: Option<Ipv6Address>)
        ensures
            match ipv6_parse(text@) {
                Some(segs) => r matches Some(a) && a@ == segs,
                None => r is None,
            },
    {
        ipv6_from_str(text)
    }
}

} // verus!
