//! MAC addresses written as six colon-separated hexadecimal octets
//! (`02:00:5e:10:00:01`), as the provisioning configuration gives them.
use vstd::prelude::*;
use vstd::string::StringSliceAdditionalSpecFns;

verus! {

#[derive(Debug, Clone, Copy, PartialEq, Eq, Structural)]
pub enum MacAddressError {
    /// A part between colons is not a hexadecimal number below 256.
    InvalidOctet,
    /// The address does not have six parts; the number it has.
    WrongOctetCount(usize),
}

pub open spec fn hex_digit(c: u8) -> Option<nat> {
    if 48 <= c <= 57 {
        Some((c - 48) as nat)
    } else if 97 <= c <= 102 {
        Some((c - 87) as nat)
    } else if 65 <= c <= 70 {
        Some((c - 55) as nat)
    } else {
        None
    }
}

/// The number that hexadecimal digits denote, if they all are digits.
pub open spec fn hex_value(d: Seq<u8>) -> Option<nat>
    decreases d.len(),
{
    if d.len() == 0 {
        Some(0)
    } else {
        match (hex_value(d.drop_last()), hex_digit(d.last())) {
            (Some(v), Some(h)) => Some(v * 16 + h),
            _ => None,
        }
    }
}

/// One octet as `u8::from_str_radix(_, 16)` reads it: an optional `+`,
/// then at least one hexadecimal digit, denoting at most 255.
pub open spec fn octet_of(p: Seq<u8>) -> Option<u8> {
    let digits = if p.len() > 0 && p[0] == 43 {
        p.drop_first()
    } else {
        p
    };
    if digits.len() == 0 {
        None
    } else {
        match hex_value(digits) {
            Some(v) => if v <= 255 {
                Some(v as u8)
            } else {
                None
            },
            None => None,
        }
    }
}

/// The parts of the first `n` bytes split at colons: the finished parts and
/// the one still open.
pub open spec fn split_upto(b: Seq<u8>, n: nat) -> (Seq<Seq<u8>>, Seq<u8>)
    decreases n,
{
    if n == 0 {
        (Seq::empty(), Seq::empty())
    } else {
        let (done, open) = split_upto(b, (n - 1) as nat);
        if b[n - 1] == 58 {
            (done.push(open), Seq::empty())
        } else {
            (done, open.push(b[n - 1]))
        }
    }
}

/// The parts of `b` between colons, empty ones included.
pub open spec fn colon_parts(b: Seq<u8>) -> Seq<Seq<u8>> {
    let (done, open) = split_upto(b, b.len());
    done.push(open)
}

pub open spec fn mac_of(text: Seq<u8>) -> Result<Seq<u8>, MacAddressError> {
    let parts = colon_parts(text);
    if exists|i: int| 0 <= i < parts.len() && #[trigger] octet_of(parts[i]) is None {
        Err(MacAddressError::InvalidOctet)
    } else if parts.len() != 6 {
        Err(MacAddressError::WrongOctetCount(parts.len() as usize))
    } else {
        Ok(Seq::new(6, |i: int| octet_of(parts[i])->Some_0))
    }
}

proof fn lemma_hex_value_grows(d: Seq<u8>, k: nat)
    requires
        k <= d.len(),
        hex_value(d) is Some,
    ensures
        hex_value(d.subrange(0, k as int)) is Some,
        hex_value(d.subrange(0, k as int))->Some_0 <= hex_value(d)->Some_0,
    decreases d.len(),
{
    if k < d.len() {
        assert(d.drop_last().subrange(0, k as int) =~= d.subrange(0, k as int));
        lemma_hex_value_grows(d.drop_last(), k);
    } else {
        assert(d.subrange(0, k as int) =~= d);
    }
}

fn hex_digit_of(c: u8) -> (r: Option<u8>)
    ensures
        match hex_digit(c) {
            Some(h) => r == Some(h as u8),
            None => r is None,
        },
{
    if 48 <= c && c <= 57 {
        Some(c - 48)
    } else if 97 <= c && c <= 102 {
        Some(c - 87)
    } else if 65 <= c && c <= 70 {
        Some(c - 55)
    } else {
        None
    }
}

/// Reads one octet; see `octet_of`.
pub fn parse_octet(p: &[u8]) -> (r: Option<u8>)
    ensures
        r == octet_of(p@),
{
    let start: usize = if p.len() > 0 && p[0] == 43 {
        1
    } else {
        0
    };
    let ghost digits = p@.subrange(start as int, p@.len() as int);
    assert(digits =~= (if p@.len() > 0 && p@[0] == 43 {
        p@.drop_first()
    } else {
        p@
    }));
    if start == p.len() {
        return None;
    }
    let mut value: u32 = 0;
    let mut i: usize = start;
    while i < p.len()
        invariant
            start <= i <= p@.len(),
            digits == p@.subrange(start as int, p@.len() as int),
            digits == (if p@.len() > 0 && p@[0] == 43 {
                p@.drop_first()
            } else {
                p@
            }),
            digits.len() > 0,
            hex_value(p@.subrange(start as int, i as int)) == Some(value as nat),
            value <= 255,
        decreases p@.len() - i,
    {
        let ghost before = p@.subrange(start as int, i as int);
        let ghost after = p@.subrange(start as int, i + 1);
        assert(after.drop_last() =~= before);
        assert(after.last() == p@[i as int]);
        match hex_digit_of(p[i]) {
            Some(h) => {
                let next = value * 16 + h as u32;
                if next > 255 {
                    assert(hex_value(after) == Some(next as nat));
                    proof {
                        if hex_value(digits) is Some {
                            assert(digits.subrange(0, i + 1 - start) =~= after);
                            lemma_hex_value_grows(digits, (i + 1 - start) as nat);
                        }
                    }
                    return None;
                }
                value = next;
            },
            None => {
                proof {
                    if hex_value(digits) is Some {
                        assert(digits.subrange(0, i + 1 - start) =~= after);
                        lemma_hex_value_grows(digits, (i + 1 - start) as nat);
                    }
                }
                return None;
            },
        }
        i = i + 1;
    }
    assert(p@.subrange(start as int, i as int) =~= digits);
    Some(value as u8)
}

/// Splits bytes at every colon; see `colon_parts`.
pub fn split_colons(b: &[u8]) -> (r: Vec<Vec<u8>>)
    ensures
        r@.len() == colon_parts(b@).len(),
        forall|i: int| 0 <= i < r@.len() ==> #[trigger] r@[i]@ == colon_parts(b@)[i],
{
    let mut done: Vec<Vec<u8>> = Vec::new();
    let mut open: Vec<u8> = Vec::new();
    let mut i: usize = 0;
    while i < b.len()
        invariant
            i <= b@.len(),
            done@.len() == split_upto(b@, i as nat).0.len(),
            forall|k: int| 0 <= k < done@.len() ==> #[trigger] done@[k]@ == split_upto(b@, i as nat).0[k],
            open@ == split_upto(b@, i as nat).1,
        decreases b@.len() - i,
    {
        if b[i] == 58 {
            let finished = open;
            done.push(finished);
            open = Vec::new();
        } else {
            open.push(b[i]);
        }
        i = i + 1;
    }
    done.push(open);
    done
}

/// A MAC address of six octets.
#[derive(Debug, Clone, PartialEq, Eq)]
pub struct MACAddress(Vec<u8>);

impl MACAddress {
    pub closed spec fn spec_octets(&self) -> Seq<u8> {
        self.0@
    }

    /// Parses `xx:xx:xx:xx:xx:xx`. Every part must be an octet
    /// (`InvalidOctet` otherwise, checked first), and there must be six.
    pub fn parse(s: &str) -> (r: Result<MACAddress, MacAddressError>)
        ensures
            match mac_of(s.spec_bytes()) {
                Ok(octets) => r is Ok && r->Ok_0.spec_octets() == octets,
                Err(e) => r == Err::<MACAddress, MacAddressError>(e),
            },
    {
        let bytes = s.as_bytes();
        let parts = split_colons(bytes);
        let ghost spec_parts = colon_parts(bytes@);
        let mut octets: Vec<u8> = Vec::new();
        let mut i: usize = 0;
        while i < parts.len()
            invariant
                i <= parts@.len(),
                parts@.len() == spec_parts.len(),
                bytes@ == s.spec_bytes(),
                spec_parts == colon_parts(bytes@),
                forall|k: int| 0 <= k < parts@.len() ==> #[trigger] parts@[k]@ == spec_parts[k],
                octets@.len() == i,
                forall|k: int| 0 <= k < i ==> #[trigger] octet_of(spec_parts[k]) == Some(octets@[k]),
            decreases parts@.len() - i,
        {
            match parse_octet(parts[i].as_slice()) {
                Some(o) => octets.push(o),
                None => {
                    assert(octet_of(spec_parts[i as int]) is None);
                    assert(bytes@ == s.spec_bytes());
                    assert(exists|k: int|
                        0 <= k < spec_parts.len() && #[trigger] octet_of(spec_parts[k]) is None);
                    return Err(MacAddressError::InvalidOctet);
                },
            }
            i = i + 1;
        }
        if parts.len() != 6 {
            return Err(MacAddressError::WrongOctetCount(parts.len()));
        }
        assert(octets@ =~= Seq::new(6, |k: int| octet_of(spec_parts[k])->Some_0));
        Ok(MACAddress(octets))
    }

    /// The six octets.
    pub fn addr(&self) -> (r: &[u8])
        ensures
            r@ == self.spec_octets(),
    {
        self.0.as_slice()
    }
}

} // verus!
