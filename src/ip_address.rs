//! Network-layer addresses and their usual text forms.

use vstd::prelude::*;
use crate::utility::{copy_range, decimal, hex, push_decimal, push_hex};

verus! {

/// The bytes of `b` in decimal, separated by dots.
pub open spec fn dotted(b: Seq<u8>) -> Seq<char>
    decreases b.len(),
{
    if b.len() == 0 {
        Seq::empty()
    } else if b.len() == 1 {
        decimal(b[0] as nat)
    } else {
        dotted(b.drop_last()).push('.') + decimal(b.last() as nat)
    }
}

/// An IPv4 address, as the bytes that carry it.
#[derive(Debug, Clone, PartialEq, Eq)]
pub struct IPv4Address {
    pub ip_raw: Vec<u8>,
}

impl IPv4Address {
    /// The address carried by these bytes.
    pub fn new(ip_in_u8: &[u8]) -> (r: IPv4Address)
        ensures
            r.ip_raw@ == ip_in_u8@,
    {
        IPv4Address { ip_raw: copy_range(ip_in_u8, 0, ip_in_u8.len()) }
    }

    /// Dotted-decimal text: `192.168.1.76`.
    pub fn ipv4(&self) -> (r: String)
        ensures
            r@ == dotted(self.ip_raw@),
    {
        let mut s = String::new();
        let n = self.ip_raw.len();
        let mut i: usize = 0;
        while i < n
            invariant
                i <= n == self.ip_raw@.len(),
                s@ == dotted(self.ip_raw@.subrange(0, i as int)),
            decreases n - i,
        {
            if i > 0 {
                s.push('.');
            }
            push_decimal(&mut s, self.ip_raw[i] as u64);
            i = i + 1;
            proof {
                let p = self.ip_raw@.subrange(0, i as int);
                assert(p.drop_last() =~= self.ip_raw@.subrange(0, i - 1));
                assert(s@ =~= dotted(p));
            }
        }
        proof {
            assert(self.ip_raw@.subrange(0, n as int) =~= self.ip_raw@);
        }
        s
    }
}

/// The groups of `g` in hexadecimal, separated by colons.
pub open spec fn hex_groups(g: Seq<u16>) -> Seq<char>
    decreases g.len(),
{
    if g.len() == 0 {
        Seq::empty()
    } else if g.len() == 1 {
        hex(g[0] as nat)
    } else {
        hex_groups(g.drop_last()).push(':') + hex(g.last() as nat)
    }
}

/// Reading `g` from the left: the longest run of zero groups so far (its
/// first, on ties), and the run of zero groups that ends here, each as
/// (start, length).
pub open spec fn zero_runs(g: Seq<u16>) -> (nat, nat, nat, nat)
    decreases g.len(),
{
    if g.len() == 0 {
        (0, 0, 0, 0)
    } else {
        let (best_start, best_len, cur_start, cur_len) = zero_runs(g.drop_last());
        let i = (g.len() - 1) as nat;
        if g.last() == 0 {
            let start = if cur_len == 0 {
                i
            } else {
                cur_start
            };
            let len = cur_len + 1;
            if len > best_len {
                (start, len, start, len)
            } else {
                (best_start, best_len, start, len)
            }
        } else {
            (best_start, best_len, 0, 0)
        }
    }
}

/// Whether the groups are those of an IPv4-mapped address `::ffff:a.b.c.d`.
pub open spec fn is_v4_mapped(g: Seq<u16>) -> bool {
    g.len() == 8 && g[0] == 0 && g[1] == 0 && g[2] == 0 && g[3] == 0 && g[4] == 0 && g[5]
        == 0xffff
}

/// The text of an IPv6 address with groups `g` (RFC 5952): IPv4-mapped
/// addresses as `::ffff:a.b.c.d`; otherwise groups in lowercase hexadecimal
/// without leading zeros, with the first longest run of two or more zero
/// groups written `::`.
pub open spec fn ipv6_text(g: Seq<u16>) -> Seq<char> {
    if is_v4_mapped(g) {
        "::ffff:"@ + dotted(
            seq![
                (g[6] / 256) as u8,
                (g[6] % 256) as u8,
                (g[7] / 256) as u8,
                (g[7] % 256) as u8,
            ],
        )
    } else {
        let (best_start, best_len, cur_start, cur_len) = zero_runs(g);
        if best_len > 1 {
            hex_groups(g.subrange(0, best_start as int)) + "::"@ + hex_groups(
                g.subrange((best_start + best_len) as int, g.len() as int),
            )
        } else {
            hex_groups(g)
        }
    }
}

/// The runs of zero groups lie within the groups.
pub proof fn lemma_zero_runs_bounds(g: Seq<u16>)
    ensures
        zero_runs(g).0 + zero_runs(g).1 <= g.len(),
        zero_runs(g).2 + zero_runs(g).3 <= g.len(),
    decreases g.len(),
{
    if g.len() > 0 {
        lemma_zero_runs_bounds(g.drop_last());
    }
}

/// Appends the groups `g[from..to]` in hexadecimal, separated by colons.
fn push_hex_groups(s: &mut String, g: &[u16; 8], from: usize, to: usize)
    requires
        from <= to <= 8,
    ensures
        final(s)@ == old(s)@ + hex_groups(g@.subrange(from as int, to as int)),
{
    let ghost start = s@;
    let mut i: usize = from;
    while i < to
        invariant
            from <= i <= to <= 8,
            g@.len() == 8,
            s@ == start + hex_groups(g@.subrange(from as int, i as int)),
        decreases to - i,
    {
        if i > from {
            s.push(':');
        }
        push_hex(s, g[i] as u64);
        i = i + 1;
        proof {
            let p = g@.subrange(from as int, i as int);
            assert(p.drop_last() =~= g@.subrange(from as int, i - 1));
            assert(s@ =~= start + hex_groups(p));
        }
    }
}

/// An IPv6 address, as its eight 16-bit groups.
#[derive(Debug, Clone, Copy, PartialEq, Eq)]
pub struct IPv6Address {
    pub segments: [u16; 8],
}

impl IPv6Address {
    /// The address carried by sixteen bytes in network order.
    pub fn new(ip_in_u8: &[u8]) -> (r: IPv6Address)
        requires
            ip_in_u8@.len() == 16,
        ensures
            forall|i: int|
                0 <= i < 8 ==> r.segments@[i] as nat == ip_in_u8@[2 * i] as nat * 256
                    + ip_in_u8@[2 * i + 1] as nat,
    {
        let mut segments: [u16; 8] = [0u16; 8];
        let mut i: usize = 0;
        while i < 8
            invariant
                i <= 8,
                ip_in_u8@.len() == 16,
                segments@.len() == 8,
                forall|j: int|
                    0 <= j < i ==> segments@[j] as nat == ip_in_u8@[2 * j] as nat * 256
                        + ip_in_u8@[2 * j + 1] as nat,
            decreases 8 - i,
        {
            segments[i] = ip_in_u8[2 * i] as u16 * 256 + ip_in_u8[2 * i + 1] as u16;
            i = i + 1;
        }
        IPv6Address { segments }
    }

    /// The text of the address, as `std::net::Ipv6Addr` writes it.
    pub fn ipv6(&self) -> (r: String)
        ensures
            r@ == ipv6_text(self.segments@),
    {
        let g = &self.segments;
        let mut s = String::new();
        if g[0] == 0 && g[1] == 0 && g[2] == 0 && g[3] == 0 && g[4] == 0 && g[5] == 0xffff {
            crate::utility::push_str(&mut s, "::ffff:");
            let quad: [u8; 4] = [
                (g[6] / 256) as u8,
                (g[6] % 256) as u8,
                (g[7] / 256) as u8,
                (g[7] % 256) as u8,
            ];
            let v4 = IPv4Address::new(&quad);
            let text = v4.ipv4();
            crate::utility::push_str(&mut s, text.as_str());
            proof {
                assert(quad@ =~= seq![
                    (g@[6] / 256) as u8,
                    (g@[6] % 256) as u8,
                    (g@[7] / 256) as u8,
                    (g@[7] % 256) as u8,
                ]);
            }
            return s;
        }
        let mut best_start: usize = 0;
        let mut best_len: usize = 0;
        let mut cur_start: usize = 0;
        let mut cur_len: usize = 0;
        let mut i: usize = 0;
        while i < 8
            invariant
                i <= 8,
                g@.len() == 8,
                (best_start as nat, best_len as nat, cur_start as nat, cur_len as nat)
                    == zero_runs(g@.subrange(0, i as int)),
                best_start + best_len <= i,
                cur_start + cur_len <= i,
            decreases 8 - i,
        {
            proof {
                assert(g@.subrange(0, i + 1).drop_last() =~= g@.subrange(0, i as int));
            }
            if g[i] == 0 {
                if cur_len == 0 {
                    cur_start = i;
                }
                cur_len = cur_len + 1;
                if cur_len > best_len {
                    best_start = cur_start;
                    best_len = cur_len;
                }
            } else {
                cur_start = 0;
                cur_len = 0;
            }
            i = i + 1;
        }
        proof {
            assert(g@.subrange(0, 8) =~= g@);
        }
        if best_len > 1 {
            push_hex_groups(&mut s, g, 0, best_start);
            s.push(':');
            s.push(':');
            push_hex_groups(&mut s, g, best_start + best_len, 8);
            proof {
                reveal_strlit("::");
                assert(s@ =~= ipv6_text(g@));
            }
        } else {
            push_hex_groups(&mut s, g, 0, 8);
            proof {
                assert(g@.subrange(0, 8) =~= g@);
            }
        }
        s
    }
}

} // verus!
