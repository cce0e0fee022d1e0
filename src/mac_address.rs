//! Link-layer (MAC) addresses.

use vstd::prelude::*;
use crate::utility::{clone_into_array, hex_byte, push_hex_byte};

verus! {

/// The bytes of `b` as two hexadecimal digits each, separated by `sep`.
pub open spec fn hex_joined(b: Seq<u8>, sep: char) -> Seq<char>
    decreases b.len(),
{
    if b.len() == 0 {
        Seq::empty()
    } else if b.len() == 1 {
        hex_byte(b[0])
    } else {
        hex_joined(b.drop_last(), sep).push(sep) + hex_byte(b.last())
    }
}

/// A six-byte link-layer address.
#[derive(Debug, Clone, Copy, PartialEq, Eq)]
pub struct MacAddress {
    pub mac_raw: [u8; 6],
}

impl MacAddress {
    /// The address held by six bytes.
    pub fn new(mac_in_u8: &[u8]) -> (r: MacAddress)
        requires
            mac_in_u8@.len() == 6,
        ensures
            r.mac_raw@ == mac_in_u8@,
    {
        MacAddress { mac_raw: clone_into_array(mac_in_u8) }
    }

    /// The usual text of the address: `e0:b9:e5:30:ef:98`.
    pub fn mac(&self) -> (r: String)
        ensures
            r@ == hex_joined(self.mac_raw@, ':'),
    {
        let mut s = String::new();
        let mut i: usize = 0;
        while i < 6
            invariant
                i <= 6,
                self.mac_raw@.len() == 6,
                s@ == hex_joined(self.mac_raw@.subrange(0, i as int), ':'),
            decreases 6 - i,
        {
            let ghost before = s@;
            if i > 0 {
                s.push(':');
            }
            push_hex_byte(&mut s, self.mac_raw[i]);
            i = i + 1;
            proof {
                let p = self.mac_raw@.subrange(0, i as int);
                assert(p.drop_last() =~= self.mac_raw@.subrange(0, i - 1));
                assert(s@ =~= hex_joined(p, ':'));
            }
        }
        proof {
            assert(self.mac_raw@.subrange(0, 6) =~= self.mac_raw@);
        }
        s
    }
}

} // verus!
