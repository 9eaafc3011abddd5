//! MAC address parsing and EUI-64 interface identifiers.

use vstd::prelude::*;
use crate::ipv6::Ipv6Address;
use crate::text::{chars_of, push_char, push_str, split_on, lemma_split_on_nonempty, lemma_split_on_prefix, has_no, lemma_split_on_single, lemma_split_on_append};

verus! {

/// The value of a hexadecimal digit, either case.
pub open spec fn hex_digit_value(c: char) -> Option<nat> {
    if '0' <= c && c <= '9' {
        Some((c as nat - '0' as nat) as nat)
    } else if 'a' <= c && c <= 'f' {
        Some((c as nat - 'a' as nat + 10) as nat)
    } else if 'A' <= c && c <= 'F' {
        Some((c as nat - 'A' as nat + 10) as nat)
    } else {
        None
    }
}

pub open spec fn all_hex_digits(s: Seq<char>) -> bool {
    forall|i: int| 0 <= i < s.len() ==> (#[trigger] hex_digit_value(s[i])) is Some
}

/// The number that a string of hexadecimal digits denotes.
pub open spec fn hex_digits_value(s: Seq<char>) -> nat
    decreases s.len(),
{
    if s.len() == 0 {
        0
    } else {
        hex_digits_value(s.drop_last()) * 16 + hex_digit_value(s.last()).unwrap()
    }
}

/// What `u8::from_str_radix(s, 16)` accepts: an optional `+`, then one or more
/// hexadecimal digits whose value fits in a byte.
pub open spec fn parse_hex_byte(s: Seq<char>) -> Option<u8> {
    let digits = if s.len() > 0 && s[0] == '+' { s.drop_first() } else { s };
    if digits.len() > 0 && all_hex_digits(digits) && hex_digits_value(digits) < 256 {
        Some(hex_digits_value(digits) as u8)
    } else {
        None
    }
}

/// Why a MAC address was refused.
#[derive(Clone, Copy, Debug, PartialEq, Eq, Structural)]
pub enum MacError {
    /// Some colon-separated field is not a hexadecimal byte.
    InvalidFormat,
    /// Every field is a byte, but there are not exactly six of them.
    WrongLength,
}

/// The bytes of a colon-separated MAC address: a format error if any field is
/// not a hexadecimal byte, else a length error unless there are six fields.
pub open spec fn mac_bytes(s: Seq<char>) -> Result<Seq<u8>, MacError> {
    let parts = split_on(s, ':');
    if exists|i: int| 0 <= i < parts.len() && (#[trigger] parse_hex_byte(parts[i])) is None {
        Err(MacError::InvalidFormat)
    } else if parts.len() != 6 {
        Err(MacError::WrongLength)
    } else {
        Ok(parts.map_values(|p: Seq<char>| parse_hex_byte(p).unwrap()))
    }
}

pub proof fn lemma_hex_digits_value_grows(s: Seq<char>, k: int)
    requires
        0 <= k <= s.len(),
        all_hex_digits(s),
    ensures
        hex_digits_value(s.take(k)) <= hex_digits_value(s),
    decreases s.len() - k,
{
    if k < s.len() {
        lemma_hex_digits_value_grows(s, k + 1);
        assert(s.take(k + 1).drop_last() =~= s.take(k));
        assert(hex_digit_value(s[k]) is Some);
    } else {
        assert(s.take(k) =~= s);
    }
}

/// Parses one field of a MAC address as `u8::from_str_radix(field, 16)` does.
pub fn parse_hex_byte_exec(field: &Vec<char>) -> (r: Option<u8>)
    ensures
        r == parse_hex_byte(field@),
{
    let n = field.len();
    let start: usize = if n > 0 && field[0] == '+' { 1 } else { 0 };
    let ghost digits = if field@.len() > 0 && field@[0] == '+' { field@.drop_first() } else { field@ };
    assert(digits =~= field@.subrange(start as int, n as int));
    if start >= n {
        return None;
    }
    let mut acc: u32 = 0;
    let mut i: usize = start;
    while i < n
        invariant
            start <= i <= n,
            n == field@.len(),
            digits =~= field@.subrange(start as int, n as int),
            digits == (if field@.len() > 0 && field@[0] == '+' { field@.drop_first() } else { field@ }),
            all_hex_digits(digits.take(i - start)),
            acc as nat == hex_digits_value(digits.take(i - start)),
            acc < 256,
        decreases n - i,
    {
        let c = field[i];
        let d: u32 = if '0' <= c && c <= '9' {
            (c as u32) - ('0' as u32)
        } else if 'a' <= c && c <= 'f' {
            (c as u32) - ('a' as u32) + 10
        } else if 'A' <= c && c <= 'F' {
            (c as u32) - ('A' as u32) + 10
        } else {
            assert(digits[i - start] == c);
            assert(!all_hex_digits(digits));
            return None;
        };
        proof {
            assert(digits.take(i - start + 1).drop_last() =~= digits.take(i - start));
            assert(digits.take(i - start + 1).last() == c);
        }
        let next = acc * 16 + d;
        if next >= 256 {
            proof {
                assert(hex_digits_value(digits.take(i - start + 1)) == next);
                if all_hex_digits(digits) {
                    lemma_hex_digits_value_grows(digits, i - start + 1);
                }
            }
            return None;
        }
        acc = next;
        i = i + 1;
        proof {
            assert forall|j: int| 0 <= j < digits.take(i - start).len() implies
                (#[trigger] hex_digit_value(digits.take(i - start)[j])) is Some by {
                if j < i - 1 - start {
                    assert(digits.take(i - start)[j] == digits.take(i - 1 - start)[j]);
                }
            }
        }
    }
    assert(digits.take(n - start) =~= digits);
    Some(acc as u8)
}


/// The EUI-64 address built from a prefix and a MAC address: the prefix's
/// first four segments, then the MAC with `ff:fe` in its middle and the
/// universal/local bit of its first byte flipped.
pub open spec fn eui64_segments(prefix: Seq<u16>, b: Seq<u8>) -> Seq<u16> {
    seq![
        prefix[0],
        prefix[1],
        prefix[2],
        prefix[3],
        ((b[0] ^ 2u8) as int * 256 + b[1] as int) as u16,
        (b[2] as int * 256 + 0xff) as u16,
        (0xfe * 256 + b[3] as int) as u16,
        (b[4] as int * 256 + b[5] as int) as u16,
    ]
}

/// The MAC address that an EUI-64 interface identifier (the last four
/// segments of an address) was built from.
pub open spec fn mac_of_interface_id(s: Seq<u16>) -> Seq<u8> {
    seq![
        ((s[4] / 256) as u8) ^ 2u8,
        (s[4] % 256) as u8,
        (s[5] / 256) as u8,
        (s[6] % 256) as u8,
        (s[7] / 256) as u8,
        (s[7] % 256) as u8,
    ]
}

/// An EUI-64 address keeps the first four segments of its prefix, carries
/// `ff:fe` in the middle of its interface identifier, and gives back the MAC
/// address it was built from.
pub proof fn law_eui64_keeps_prefix_and_mac(prefix: Seq<u16>, mac: Seq<u8>)
    requires
        prefix.len() == 8,
        mac.len() == 6,
    ensures
        eui64_segments(prefix, mac).len() == 8,
        eui64_segments(prefix, mac).take(4) == prefix.take(4),
        eui64_segments(prefix, mac)[5] % 256 == 0xff,
        eui64_segments(prefix, mac)[6] / 256 == 0xfe,
        mac_of_interface_id(eui64_segments(prefix, mac)) == mac,
{
    let s = eui64_segments(prefix, mac);
    let b0 = mac[0];
    let f: u8 = b0 ^ 2u8;
    assert((f ^ 2u8) == b0) by (bit_vector)
        requires
            f == b0 ^ 2u8,
    ;
    assert(s[4] == f as int * 256 + mac[1] as int);
    assert(s[4] / 256 == f as int);
    assert(s[4] % 256 == mac[1] as int);
    assert(s[5] / 256 == mac[2] as int);
    assert(s[6] % 256 == mac[3] as int);
    assert(s[7] / 256 == mac[4] as int);
    assert(s[7] % 256 == mac[5] as int);
    assert(s.take(4) =~= prefix.take(4));
    assert(mac_of_interface_id(s) =~= mac);
}

/// Parses a colon-separated MAC address into its bytes.
pub fn parse_mac(mac: &str) -> (r: Result<Vec<u8>, MacError>)
    ensures
        match mac_bytes(mac@) {
            Ok(b) => r matches Ok(v) && v@ == b,
            Err(e) => r == Err::<Vec<u8>, MacError>(e),
        },
{
    let chars = chars_of(mac);
    let n = chars.len();
    let ghost s = mac@;
    let mut cur: Vec<char> = Vec::new();
    let mut bytes: Vec<u8> = Vec::new();
    let mut i: usize = 0;
    proof {
        assert(s.take(0) =~= Seq::<char>::empty());
    }
    while i < n
        invariant
            chars@ == s,
            s == mac@,
            n == s.len(),
            i <= n,
            split_on(s.take(i as int), ':').len() == bytes@.len() + 1,
            cur@ == split_on(s.take(i as int), ':').last(),
            forall|j: int|
                0 <= j < bytes@.len() ==> parse_hex_byte(
                    #[trigger] split_on(s.take(i as int), ':')[j],
                ) == Some(bytes@[j]),
        decreases n - i,
    {
        let c = chars[i];
        let ghost before = split_on(s.take(i as int), ':');
        proof {
            assert(s.take(i + 1).drop_last() =~= s.take(i as int));
            assert(s.take(i + 1).last() == c);
        }
        if c == ':' {
            let parsed = parse_hex_byte_exec(&cur);
            match parsed {
                None => {
                    proof {
                        lemma_split_on_prefix(s, ':', i + 1, n as int);
                        assert(s.take(n as int) =~= s);
                        let full = split_on(s, ':');
                        let k = before.len() - 1;
                        assert(split_on(s.take(i + 1), ':') == before.push(Seq::<char>::empty()));
                        assert(split_on(s.take(i + 1), ':')[k] == cur@);
                        assert(full[k] == cur@);
                        assert(parse_hex_byte(full[k]) is None);
                    }
                    return Err(MacError::InvalidFormat);
                },
                Some(b) => {
                    bytes.push(b);
                    cur = Vec::new();
                    proof {
                        let after = split_on(s.take(i + 1), ':');
                        assert(after == before.push(Seq::<char>::empty()));
                        assert(cur@ =~= after.last());
                        assert forall|j: int| 0 <= j < bytes@.len() implies parse_hex_byte(
                            #[trigger] after[j],
                        ) == Some(bytes@[j]) by {
                            if j < bytes@.len() - 1 {
                                assert(after[j] == before[j]);
                            }
                        }
                    }
                },
            }
        } else {
            cur.push(c);
            proof {
                let after = split_on(s.take(i + 1), ':');
                assert(after == before.update(before.len() - 1, before.last().push(c)));
                assert(cur@ =~= after.last());
                assert forall|j: int| 0 <= j < bytes@.len() implies parse_hex_byte(
                    #[trigger] after[j],
                ) == Some(bytes@[j]) by {
                    assert(after[j] == before[j]);
                }
            }
        }
        i = i + 1;
    }
    proof {
        assert(s.take(n as int) =~= s);
    }
    let ghost full = split_on(s, ':');
    match parse_hex_byte_exec(&cur) {
        None => {
            assert(parse_hex_byte(full[full.len() - 1]) is None);
            Err(MacError::InvalidFormat)
        },
        Some(b) => {
            bytes.push(b);
            assert forall|j: int| 0 <= j < full.len() implies parse_hex_byte(#[trigger] full[j])
                == Some(bytes@[j]) by {}
            if bytes.len() != 6 {
                Err(MacError::WrongLength)
            } else {
                assert(bytes@ =~= full.map_values(|p: Seq<char>| parse_hex_byte(p).unwrap()));
                Ok(bytes)
            }
        },
    }
}

/// Builds the EUI-64 address of a MAC address under an IPv6 prefix.
pub fn generate_eui64_from_mac(mac: &str, ipv6_prefix: Ipv6Address) -> (r: Result<
    Ipv6Address,
    MacError,
>)
    ensures
        match mac_bytes(mac@) {
            Ok(b) => r matches Ok(a) && a@ == eui64_segments(ipv6_prefix@, b),
            Err(e) => r == Err::<Ipv6Address, MacError>(e),
        },
{
    let bytes = match parse_mac(mac) {
        Ok(b) => b,
        Err(e) => return Err(e),
    };
    let p = ipv6_prefix.segments;
    let first: u8 = bytes[0] ^ 0x02;
    let segments: [u16; 8] = [
        p[0],
        p[1],
        p[2],
        p[3],
        (first as u16) * 256 + (bytes[1] as u16),
        (bytes[2] as u16) * 256 + 0xff,
        0xfe * 256 + (bytes[3] as u16),
        (bytes[4] as u16) * 256 + (bytes[5] as u16),
    ];
    let r = Ipv6Address::new(segments);
    assert(r@ =~= eui64_segments(ipv6_prefix@, bytes@));
    Ok(r)
}


/// The lower-case hexadecimal digit for a value below sixteen.
pub open spec fn hex_lower_digit(n: u8) -> char {
    if n < 10 {
        (('0' as u8) + n) as char
    } else {
        (('a' as u8) + n - 10) as char
    }
}

/// A byte as two lower-case hexadecimal digits, high nibble first.
pub open spec fn hex_byte_text(b: u8) -> Seq<char> {
    seq![hex_lower_digit(b / 16), hex_lower_digit(b % 16)]
}

/// Bytes as lower-case hexadecimal text, two digits per byte, in order.
pub open spec fn hex_encode(bytes: Seq<u8>) -> Seq<char>
    decreases bytes.len(),
{
    if bytes.len() == 0 {
        Seq::<char>::empty()
    } else {
        hex_encode(bytes.drop_last()) + hex_byte_text(bytes.last())
    }
}

pub proof fn lemma_hex_encode_len(bytes: Seq<u8>)
    ensures
        hex_encode(bytes).len() == 2 * bytes.len(),
    decreases bytes.len(),
{
    if bytes.len() > 0 {
        lemma_hex_encode_len(bytes.drop_last());
    }
}

/// Every character of `hex_encode(bytes)` is a lower-case hexadecimal digit.
pub proof fn lemma_hex_encode_digits(bytes: Seq<u8>)
    ensures
        all_hex_digits(hex_encode(bytes)),
    decreases bytes.len(),
{
    if bytes.len() > 0 {
        lemma_hex_encode_digits(bytes.drop_last());
        let prev = hex_encode(bytes.drop_last());
        let last = hex_byte_text(bytes.last());
        lemma_hex_lower_digit_value((bytes.last() / 16) as u8);
        lemma_hex_lower_digit_value((bytes.last() % 16) as u8);
        assert forall|i: int| 0 <= i < (prev + last).len() implies (#[trigger] hex_digit_value(
            (prev + last)[i],
        )) is Some by {
            if i < prev.len() {
                assert((prev + last)[i] == prev[i]);
            } else {
                assert((prev + last)[i] == last[i - prev.len()]);
            }
        }
    }
}

pub proof fn lemma_hex_lower_digit_value(n: u8)
    requires
        n < 16,
    ensures
        hex_digit_value(hex_lower_digit(n)) == Some(n as nat),
{
}

/// Two hexadecimal digits read back give the byte they were written from.
pub proof fn lemma_hex_byte_roundtrip(b: u8)
    ensures
        parse_hex_byte(hex_byte_text(b)) == Some(b),
{
    let t = hex_byte_text(b);
    lemma_hex_lower_digit_value((b / 16) as u8);
    lemma_hex_lower_digit_value((b % 16) as u8);
    assert(t.drop_last() =~= seq![hex_lower_digit(b / 16)]);
    assert(t.drop_last().drop_last() =~= Seq::<char>::empty());
    assert(hex_digits_value(t.drop_last().drop_last()) == 0);
    assert(t.drop_last().last() == hex_lower_digit(b / 16));
    assert(hex_digits_value(t.drop_last()) == (b / 16) as nat);
    assert(t.last() == hex_lower_digit(b % 16));
    assert(hex_digits_value(t) == (b / 16) as nat * 16 + (b % 16) as nat);
    assert(t[0] != '+');
}

/// Appends the two lower-case hexadecimal digits of a byte.
pub fn push_hex_byte(s: &mut String, b: u8)
    ensures
        final(s)@ == old(s)@ + hex_byte_text(b),
{
    let hi = b / 16;
    let lo = b % 16;
    let c_hi: char = if hi < 10 { (('0' as u8) + hi) as char } else { (('a' as u8) + hi - 10) as char };
    let c_lo: char = if lo < 10 { (('0' as u8) + lo) as char } else { (('a' as u8) + lo - 10) as char };
    push_char(s, c_hi);
    push_char(s, c_lo);
    assert(final(s)@ =~= old(s)@ + hex_byte_text(b));
}

/// Encodes bytes as lower-case hexadecimal text (the outside crate `hex`, `hex::encode`):
/// two digits per byte, high nibble first, bytes in order.
#[verifier::external_body]
fn hex_encode_bytes(bytes: &[u8]) -> (r: String)
    ensures
        r@ == hex_encode(bytes@),
{
    hex::encode(bytes)
}

/// `n` bytes drawn by the thread-local generator of the outside crate `rand`
/// (`Rng::fill`); nothing is known of their values.
#[verifier::external_body]
fn random_bytes(n: usize) -> (v: Vec<u8>)
    ensures
        v.len() == n,
{
    let mut v = vec![0u8; n];
    rand::Rng::fill(&mut rand::thread_rng(), &mut v[..]);
    v
}

/// A random suffix for machine names: four random bytes as eight lower-case
/// hexadecimal digits.
pub fn gen_rand_postfix() -> (r: String)
    ensures
        exists|b: Seq<u8>| b.len() == 4 && r@ == #[trigger] hex_encode(b),
        r@.len() == 8,
        all_hex_digits(r@),
{
    let bytes = random_bytes(4);
    let r = hex_encode_bytes(bytes.as_slice());
    proof {
        lemma_hex_encode_len(bytes@);
        lemma_hex_encode_digits(bytes@);
    }
    r
}

/// The text of a QEMU-range MAC address: `52:54:00:` then three bytes in
/// two-digit lower-case hexadecimal, colon separated.
pub open spec fn qemu_mac_text(b: Seq<u8>) -> Seq<char> {
    seq!['5', '2', ':', '5', '4', ':', '0', '0', ':'] + hex_byte_text(b[0]) + seq![':']
        + hex_byte_text(b[1]) + seq![':'] + hex_byte_text(b[2])
}

/// The QEMU-range MAC address with the three given trailing bytes.
pub fn qemu_mac_from_bytes(b0: u8, b1: u8, b2: u8) -> (r: String)
    ensures
        r@ == qemu_mac_text(seq![b0, b1, b2]),
{
    let mut s = String::new();
    push_str(&mut s, "52:54:00:");
    push_hex_byte(&mut s, b0);
    push_char(&mut s, ':');
    push_hex_byte(&mut s, b1);
    push_char(&mut s, ':');
    push_hex_byte(&mut s, b2);
    proof {
        reveal_strlit("52:54:00:");
        assert(s@ =~= qemu_mac_text(seq![b0, b1, b2]));
    }
    s
}

/// One byte drawn uniformly by the thread-local generator of the outside crate
/// `rand` (`Rng::gen_range(0..=255)`); nothing is known of its value.
#[verifier::external_body]
fn random_byte() -> (r: u8) {
    rand::Rng::gen_range(&mut rand::thread_rng(), 0..=255u8)
}

/// A random MAC address in the range QEMU uses (`52:54:00:xx:xx:xx`).
pub fn gen_mac_address_qemu() -> (r: String)
    ensures
        exists|b: Seq<u8>| b.len() == 3 && r@ == #[trigger] qemu_mac_text(b),
{
    let b0 = random_byte();
    let b1 = random_byte();
    let b2 = random_byte();
    let r = qemu_mac_from_bytes(b0, b1, b2);
    assert(seq![b0, b1, b2].len() == 3);
    r
}

/// A random port for SSH forwarding, drawn by the outside crate `rand`
/// (`Rng::gen_range(20000..30000)`): at least 20000 and below 30000.
#[verifier::external_body]
fn random_port_candidate() -> (r: u16)
    ensures
        20000 <= r < 30000,
{
    rand::Rng::gen_range(&mut rand::thread_rng(), 20000..30000u16)
}

/// How many ports are tried before the search for a free one gives up.
pub const PORT_ATTEMPTS: u32 = 100;

/// The next port to try for SSH forwarding, after `attempts` ports were
/// tried and found taken: a random port in `20000..30000`, or none once
/// `PORT_ATTEMPTS` ports were tried.
pub fn next_port_attempt(attempts: u32) -> (r: Option<u16>)
    ensures
        attempts >= PORT_ATTEMPTS ==> r is None,
        attempts < PORT_ATTEMPTS ==> (r matches Some(p) && 20000 <= p < 30000),
{
    if attempts >= PORT_ATTEMPTS {
        None
    } else {
        Some(random_port_candidate())
    }
}

/// Every MAC address that `gen_mac_address_qemu` can produce parses back to
/// `52:54:00` followed by the three bytes it was made from.
pub proof fn lemma_qemu_mac_parses(b: Seq<u8>)
    requires
        b.len() == 3,
    ensures
        mac_bytes(qemu_mac_text(b)) == Ok::<Seq<u8>, MacError>(
            seq![0x52u8, 0x54u8, 0x00u8, b[0], b[1], b[2]],
        ),
{
    let h52 = hex_byte_text(0x52u8);
    let h54 = hex_byte_text(0x54u8);
    let h00 = hex_byte_text(0x00u8);
    let h0 = hex_byte_text(b[0]);
    let h1 = hex_byte_text(b[1]);
    let h2 = hex_byte_text(b[2]);
    assert(h52 =~= seq!['5', '2']);
    assert(h54 =~= seq!['5', '4']);
    assert(h00 =~= seq!['0', '0']);
    let c = seq![':'];
    let t = qemu_mac_text(b);
    assert(t =~= h52 + c + h54 + c + h00 + c + h0 + c + h1 + c + h2);
    lemma_hex_lower_digit_value((b[0] / 16) as u8);
    lemma_hex_lower_digit_value((b[0] % 16) as u8);
    lemma_hex_lower_digit_value((b[1] / 16) as u8);
    lemma_hex_lower_digit_value((b[1] % 16) as u8);
    lemma_hex_lower_digit_value((b[2] / 16) as u8);
    lemma_hex_lower_digit_value((b[2] % 16) as u8);
    assert(has_no(h0, ':'));
    assert(has_no(h1, ':'));
    assert(has_no(h2, ':'));
    assert(has_no(h52, ':'));
    assert(has_no(h54, ':'));
    assert(has_no(h00, ':'));
    lemma_split_on_single(h52, ':');
    lemma_split_on_append(h52, h54, ':');
    lemma_split_on_append(h52 + c + h54, h00, ':');
    lemma_split_on_append(h52 + c + h54 + c + h00, h0, ':');
    lemma_split_on_append(h52 + c + h54 + c + h00 + c + h0, h1, ':');
    lemma_split_on_append(h52 + c + h54 + c + h00 + c + h0 + c + h1, h2, ':');
    let parts = split_on(t, ':');
    assert(parts =~= seq![h52, h54, h00, h0, h1, h2]);
    lemma_hex_byte_roundtrip(0x52u8);
    lemma_hex_byte_roundtrip(0x54u8);
    lemma_hex_byte_roundtrip(0x00u8);
    lemma_hex_byte_roundtrip(b[0]);
    lemma_hex_byte_roundtrip(b[1]);
    lemma_hex_byte_roundtrip(b[2]);
    assert(forall|i: int| 0 <= i < parts.len() ==> (#[trigger] parse_hex_byte(parts[i])) is Some);
    assert(parts.map_values(|p: Seq<char>| parse_hex_byte(p).unwrap()) =~= seq![
        0x52u8,
        0x54u8,
        0x00u8,
        b[0],
        b[1],
        b[2],
    ]);
}


/// A program to run and its arguments.
#[derive(Debug)]
pub struct CommandLine {
    pub program: String,
    pub args: Vec<String>,
}

impl View for CommandLine {
    type V = (Seq<char>, Seq<Seq<char>>);

    open spec fn view(&self) -> (Seq<char>, Seq<Seq<char>>) {
        (self.program@, self.args.deep_view())
    }
}

/// The views of a list of commands.
pub open spec fn commands_view(v: Seq<CommandLine>) -> Seq<(Seq<char>, Seq<Seq<char>>)> {
    v.map_values(|c: CommandLine| c@)
}

pub proof fn lemma_commands_view_push(v: Seq<CommandLine>, c: CommandLine)
    ensures
        commands_view(v.push(c)) == commands_view(v).push(c@),
{
    assert(commands_view(v.push(c)) =~= commands_view(v).push(c@));
}


/// The command that is run in place of `cmd`: `echo` without arguments in a
/// dry run, else `cmd` itself.
pub fn effective_command(cmd: CommandLine, dryrun: bool) -> (r: CommandLine)
    ensures
        r@ == (if dryrun {
            ("echo"@, Seq::<Seq<char>>::empty())
        } else {
            cmd@
        }),
{
    if dryrun {
        let r = CommandLine { program: crate::text::owned("echo"), args: Vec::new() };
        assert(r.args.deep_view() =~= Seq::<Seq<char>>::empty());
        r
    } else {
        cmd
    }
}

/// Major, minor and patch numbers, and whether a pre-release is named, of the
/// version that the outside crate `semver` reads from a text; none where it
/// refuses the text.
pub uninterp spec fn semver_fields(text: Seq<char>) -> Option<(u64, u64, u64, bool)>;

/// Reads a version with `semver::Version::parse`. Its outcome is named
/// `semver_fields` of the text; nothing more of it is stated.
#[verifier::external_body]
fn parse_semver(text: &str) -> (r: Option<(u64, u64, u64, bool)>)
    ensures
        r == semver_fields(text@),
{
    match semver::Version::parse(text) {
        Ok(v) => Some((v.major, v.minor, v.patch, !v.pre.is_empty())),
        Err(_) => None,
    }
}

/// Whether a version ranks below `major.minor.patch` in SemVer precedence:
/// a lower number triple, or the same triple with a pre-release.
pub open spec fn semver_below(v: (u64, u64, u64, bool), major: u64, minor: u64, patch: u64) -> bool {
    ||| v.0 < major
    ||| v.0 == major && v.1 < minor
    ||| v.0 == major && v.1 == minor && v.2 < patch
    ||| v.0 == major && v.1 == minor && v.2 == patch && v.3
}

/// A text without its newline characters.
pub open spec fn without_newlines(s: Seq<char>) -> Seq<char> {
    s.filter(|c: char| c != '\n')
}

/// Whether the `virt-install --version` output names a version of at least
/// 3.0.0 (which knows `--osinfo`), after its newlines are dropped; none where
/// the text is not a version.
pub fn version_has_osinfo(version_output: &str) -> (r: Option<bool>)
    ensures
        r == (match semver_fields(without_newlines(version_output@)) {
            None => None,
            Some(f) => Some(!semver_below(f, 3, 0, 0)),
        }),
{
    let chars = chars_of(version_output);
    let ghost pred = |c: char| c != '\n';
    let mut kept: Vec<char> = Vec::new();
    let mut i: usize = 0;
    proof {
        reveal(Seq::filter);
        assert(version_output@.take(0) =~= Seq::<char>::empty());
    }
    while i < chars.len()
        invariant
            chars@ == version_output@,
            i <= chars.len(),
            pred == (|c: char| c != '\n'),
            kept@ == version_output@.take(i as int).filter(pred),
        decreases chars.len() - i,
    {
        proof {
            assert(version_output@.take(i + 1) =~= version_output@.take(i as int).push(chars@[i as int]));
            crate::text::lemma_filter_push(version_output@.take(i as int), chars@[i as int], pred);
        }
        if chars[i] != '\n' {
            kept.push(chars[i]);
        }
        i = i + 1;
    }
    assert(version_output@.take(chars.len() as int) =~= version_output@);
    let text = crate::text::string_from_chars(&kept);
    match parse_semver(text.as_str()) {
        None => None,
        Some(f) => {
            let below = f.0 < 3 || (f.0 == 3 && f.1 < 0) || (f.0 == 3 && f.1 == 0 && f.2 < 0) || (f.0 == 3
                && f.1 == 0 && f.2 == 0 && f.3);
            Some(!below)
        },
    }
}

/// SemVer precedence against `major.minor.patch`: a version ranks below it
/// when its numbers are lexicographically smaller, or equal with a
/// pre-release; a version with a larger number never ranks below it.
pub proof fn law_semver_below_order(v: (u64, u64, u64, bool), major: u64, minor: u64, patch: u64)
    ensures
        v.0 < major ==> semver_below(v, major, minor, patch),
        v.0 > major ==> !semver_below(v, major, minor, patch),
        v.0 == major && v.1 < minor ==> semver_below(v, major, minor, patch),
        v.0 == major && v.1 > minor ==> !semver_below(v, major, minor, patch),
        v.0 == major && v.1 == minor && v.2 < patch ==> semver_below(v, major, minor, patch),
        v.0 == major && v.1 == minor && v.2 > patch ==> !semver_below(v, major, minor, patch),
        v.0 == major && v.1 == minor && v.2 == patch ==> (semver_below(v, major, minor, patch) <==> v.3),
{
}

/// `virt-install` takes `--osinfo` from 3.0.0 on: every release numbered 3
/// or higher (3.2.0, 4.1.0, ...) is not below 3.0.0, every 2.x is, and so is
/// every pre-release of 3.0.0.
pub proof fn law_osinfo_from_three(f: (u64, u64, u64, bool))
    ensures
        f.0 >= 3 && !f.3 ==> !semver_below(f, 3, 0, 0),
        f.0 > 3 || (f.0 == 3 && (f.1 > 0 || f.2 > 0)) ==> !semver_below(f, 3, 0, 0),
        f.0 < 3 ==> semver_below(f, 3, 0, 0),
        f.0 == 3 && f.1 == 0 && f.2 == 0 && f.3 ==> semver_below(f, 3, 0, 0),
{
}

} // verus!
