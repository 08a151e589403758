use vstd::prelude::*;
use vstd::string::StringSliceAdditionalSpecFns;

use crate::hexfmt::{hex_bytes_of, hex_chars_of, hex_encode, hex_val, is_hex_digit};

verus! {

/// The digit part of an address text: the text with a leading "0x" stripped.
pub open spec fn addr_digits(s: Seq<u8>) -> Seq<u8> {
    if s.len() >= 2 && s[0] == 48 && s[1] == 120 {
        s.skip(2)
    } else {
        s
    }
}

/// A well-formed chain address text: an optional "0x" prefix followed by
/// exactly 40 hex digits of either case.
pub open spec fn valid_chain_address(s: Seq<u8>) -> bool {
    addr_digits(s).len() == 40 && (forall|i: int|
        0 <= i < 40 ==> is_hex_digit(#[trigger] addr_digits(s)[i]))
}

/// The 20 bytes that a well-formed address text denotes.
pub open spec fn address_bytes_of(s: Seq<u8>) -> Seq<u8> {
    hex_bytes_of(addr_digits(s))
}

/// A parsed 20-byte chain address.
pub struct ChainAddress {
    bytes: Vec<u8>,
}

impl View for ChainAddress {
    type V = Seq<u8>;

    closed spec fn view(&self) -> Seq<u8> {
        self.bytes@
    }
}

impl ChainAddress {
    /// A well-formed address holds exactly 20 bytes.
    pub open spec fn wf(&self) -> bool {
        self@.len() == 20
    }

    /// The sentinel zero address: the wildcard meaning "no owner filter".
    pub fn zero() -> (r: ChainAddress)
        ensures
            r.wf(),
            forall|i: int| 0 <= i < 20 ==> r@[i] == 0u8,
    {
        let mut bytes: Vec<u8> = Vec::new();
        let mut i: usize = 0;
        while i < 20
            invariant
                i <= 20,
                bytes@.len() == i,
                forall|j: int| 0 <= j < i ==> bytes@[j] == 0u8,
            decreases 20 - i,
        {
            bytes.push(0);
            i += 1;
        }
        ChainAddress { bytes }
    }

    /// Wraps 20 raw bytes, as decoded from a transport-level address value.
    pub fn from_bytes(bytes: Vec<u8>) -> (r: Option<ChainAddress>)
        ensures
            r is Some <==> bytes@.len() == 20,
            r matches Some(a) ==> a@ == bytes@ && a.wf(),
    {
        if bytes.len() == 20 {
            Some(ChainAddress { bytes })
        } else {
            None
        }
    }

    /// A copy of the 20 address bytes.
    pub fn to_bytes(&self) -> (r: Vec<u8>)
        ensures
            r@ == self@,
    {
        let mut out: Vec<u8> = Vec::new();
        let mut i: usize = 0;
        while i < self.bytes.len()
            invariant
                i <= self.bytes@.len(),
                out@ == self.bytes@.take(i as int),
            decreases self.bytes@.len() - i,
        {
            out.push(self.bytes[i]);
            proof {
                assert(self.bytes@.take(i + 1) =~= self.bytes@.take(i as int).push(
                    self.bytes@[i as int],
                ));
            }
            i += 1;
        }
        proof {
            assert(self.bytes@.take(self.bytes@.len() as int) =~= self.bytes@);
        }
        out
    }

    /// Parses an address text: an optional "0x" prefix followed by exactly
    /// 40 hex digits. Anything else is malformed.
    pub fn parse(s: &str) -> (r: Option<ChainAddress>)
        ensures
            r is Some <==> valid_chain_address(s.spec_bytes()),
            r matches Some(a) ==> a@ == address_bytes_of(s.spec_bytes()) && a.wf(),
    {
        let b = s.as_bytes();
        let n = b.len();
        let off: usize = if n >= 2 && b[0] == 48 && b[1] == 120 {
            2
        } else {
            0
        };
        proof {
            assert(addr_digits(s.spec_bytes()) =~= b@.skip(off as int));
        }
        if n - off != 40 {
            return None;
        }
        let mut bytes: Vec<u8> = Vec::new();
        let mut i: usize = 0;
        while i < 20
            invariant
                i <= 20,
                off + 40 == n,
                n == b@.len(),
                b@ == s.spec_bytes(),
                addr_digits(s.spec_bytes()) == b@.skip(off as int),
                off == 0 || off == 2,
                bytes@.len() == i,
                forall|j: int| 0 <= j < 2 * i ==> is_hex_digit(#[trigger] b@.skip(off as int)[j]),
                forall|j: int|
                    0 <= j < i ==> bytes@[j] == (hex_val(b@.skip(off as int)[2 * j]) * 16 + hex_val(
                        b@.skip(off as int)[2 * j + 1],
                    )) as u8,
            decreases 20 - i,
        {
            let hi = b[off + 2 * i];
            let lo = b[off + 2 * i + 1];
            let hv = match hex_digit_value(hi) {
                Some(v) => v,
                None => {
                    proof {
                        assert(addr_digits(s.spec_bytes())[2 * i] == hi);
                        assert(!valid_chain_address(s.spec_bytes()));
                    }
                    return None;
                },
            };
            let lv = match hex_digit_value(lo) {
                Some(v) => v,
                None => {
                    proof {
                        assert(addr_digits(s.spec_bytes())[2 * i + 1] == lo);
                        assert(!valid_chain_address(s.spec_bytes()));
                    }
                    return None;
                },
            };
            bytes.push(hv * 16 + lv);
            i += 1;
        }
        proof {
            assert(bytes@ =~= address_bytes_of(s.spec_bytes()));
        }
        Some(ChainAddress { bytes })
    }

    /// Renders the address as "0x" followed by 40 lowercase hex digits.
    pub fn to_hex_string(&self) -> (r: String)
        requires
            self.wf(),
        ensures
            r@ == seq!['0', 'x'] + hex_chars_of(self@),
            r@.len() == 42,
    {
        let digits = hex_encode(self.bytes.as_slice());
        let r = String::from_str("0x").concat(digits.as_str());
        proof {
            reveal_strlit("0x");
            assert("0x"@ =~= seq!['0', 'x']);
        }
        r
    }
}

/// The numeric value of a hex digit byte, or nothing if `b` is no hex digit.
fn hex_digit_value(b: u8) -> (r: Option<u8>)
    ensures
        r is Some <==> is_hex_digit(b),
        r matches Some(v) ==> v == hex_val(b) && v < 16,
{
    if 48 <= b && b <= 57 {
        Some(b - 48)
    } else if 97 <= b && b <= 102 {
        Some(b - 87)
    } else if 65 <= b && b <= 70 {
        Some(b - 55)
    } else {
        None
    }
}

} // verus!
