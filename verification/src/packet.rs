//! The word reader: assembles 64-bit `Gfx` packets from a byte stream,
//! honouring the configured endianness and word size.
//!
//! Bytes are fetched `wordsize` at a time; each group is byte-reversed when
//! the configured endianness is little-endian, and the 8-byte packet is then
//! assembled from the normalized bytes in big-endian packet order (high half
//! first). A truncated trailing group, and a trailing residue of fewer than
//! 8 normalized bytes, are discarded.

use vstd::prelude::*;
use vstd::arithmetic::div_mod::{
    lemma_fundamental_div_mod,
    lemma_fundamental_div_mod_converse,
    lemma_mod_bound,
};
use vstd::arithmetic::mul::{
    lemma_mul_inequality,
    lemma_mul_is_commutative,
    lemma_mul_is_distributive_add_other_way,
};

verus! {

/// A fixed 64-bit graphics command word, as two 32-bit halves.
/// The 8 high bits of `w0` are the opcode.
#[derive(Clone, Copy, PartialEq, Eq, Structural, Debug)]
pub struct Packet {
    pub w0: u32,
    pub w1: u32,
}

/// Byte order of the input stream.
#[derive(Clone, Copy, PartialEq, Eq, Structural, Debug)]
pub enum Endian {
    Big,
    Little,
}

/// Number of bytes per word group of the input stream.
#[derive(Clone, Copy, PartialEq, Eq, Structural, Debug)]
pub enum WordSize {
    W1,
    W2,
    W4,
    W8,
}

/// The opcode of a packet: its 8 high bits.
pub open spec fn spec_opcode(p: Packet) -> u32 {
    (p.w0 >> 24) & 0xff
}

impl Packet {
    /// The opcode of this packet.
    pub fn opcode(&self) -> (r: u32)
        ensures
            r == spec_opcode(*self),
    {
        (self.w0 >> 24) & 0xff
    }
}

impl WordSize {
    /// The group size in bytes: 1, 2, 4 or 8.
    pub open spec fn spec_bytes(self) -> int {
        match self {
            WordSize::W1 => 1,
            WordSize::W2 => 2,
            WordSize::W4 => 4,
            WordSize::W8 => 8,
        }
    }

    /// The group size in bytes: 1, 2, 4 or 8.
    pub fn bytes(&self) -> (n: usize)
        ensures
            n == self.spec_bytes(),
    {
        match self {
            WordSize::W1 => 1,
            WordSize::W2 => 2,
            WordSize::W4 => 4,
            WordSize::W8 => 8,
        }
    }
}

impl Endian {
    /// The opposite byte order.
    pub open spec fn spec_flip(self) -> Endian {
        match self {
            Endian::Big => Endian::Little,
            Endian::Little => Endian::Big,
        }
    }

    /// The opposite byte order.
    pub fn flip(&self) -> (r: Endian)
        ensures
            r == self.spec_flip(),
    {
        match self {
            Endian::Big => Endian::Little,
            Endian::Little => Endian::Big,
        }
    }
}

/// The length of a stream truncated to whole groups of `g` bytes.
pub open spec fn trunc_len(n: int, g: int) -> int
    recommends
        1 <= g,
{
    (n / g) * g
}

/// Truncating to whole groups shortens the stream and leaves a multiple of
/// the group size.
proof fn lemma_trunc_len(n: int, g: int)
    requires
        1 <= g,
        0 <= n,
    ensures
        0 <= trunc_len(n, g) <= n,
        trunc_len(n, g) % g == 0,
        trunc_len(n, g) / g == n / g,
        trunc_len(trunc_len(n, g), g) == trunc_len(n, g),
{
    lemma_fundamental_div_mod(n, g);
    lemma_mod_bound(n, g);
    lemma_mul_is_commutative(n / g, g);
    lemma_fundamental_div_mod_converse(trunc_len(n, g), g, n / g, 0);
}

/// Each full group of `g` bytes reversed; the truncated trailing group
/// dropped.
pub open spec fn swap_groups(b: Seq<u8>, g: int) -> Seq<u8>
    recommends
        1 <= g,
{
    Seq::new(trunc_len(b.len() as int, g) as nat, |i: int| b[(i / g) * g + (g - 1 - i % g)])
}

/// The byte stream normalized to big-endian order: groups reversed when the
/// stream is little-endian, and the truncated trailing group dropped.
pub open spec fn normalize(b: Seq<u8>, e: Endian, g: int) -> Seq<u8>
    recommends
        1 <= g,
{
    match e {
        Endian::Big => b.take(trunc_len(b.len() as int, g)),
        Endian::Little => swap_groups(b, g),
    }
}

/// A 32-bit big-endian word read from four consecutive bytes.
pub open spec fn be32(b: Seq<u8>, j: int) -> u32
    recommends
        0 <= j,
        j + 4 <= b.len(),
{
    ((b[j] as int) * 0x1000000 + (b[j + 1] as int) * 0x10000 + (b[j + 2] as int) * 0x100 + (b[j + 3]
        as int)) as u32
}

/// The packets held by a normalized (big-endian) byte sequence; a trailing
/// residue of fewer than 8 bytes is discarded.
pub open spec fn packets_of(nb: Seq<u8>) -> Seq<Packet> {
    Seq::new((nb.len() / 8) as nat, |k: int| Packet { w0: be32(nb, 8 * k), w1: be32(nb, 8 * k + 4) })
}

/// The packets decoded from a raw byte stream under the given endianness and
/// word size.
pub open spec fn spec_read(b: Seq<u8>, e: Endian, w: WordSize) -> Seq<Packet> {
    packets_of(normalize(b, e, w.spec_bytes()))
}

/// Builds the normalized byte vector for a raw stream.
fn normalized_bytes(data: &[u8], e: Endian, w: WordSize) -> (r: Vec<u8>)
    ensures
        r@ == normalize(data@, e, w.spec_bytes()),
{
    let g: usize = w.bytes();
    let groups: usize = data.len() / g;
    let ghost gi: int = w.spec_bytes();
    let ghost l: int = trunc_len(data@.len() as int, gi);
    proof {
        lemma_trunc_len(data@.len() as int, gi);
        assert(normalize(data@, e, gi).len() == l);
    }
    let mut r: Vec<u8> = Vec::new();
    let mut q: usize = 0;
    while q < groups
        invariant
            g == gi,
            groups == data@.len() as int / gi,
            l == groups * gi <= data@.len(),
            data@.len() <= usize::MAX,
            q <= groups,
            normalize(data@, e, gi).len() == l,
            r@.len() == q * gi,
            r@ =~= normalize(data@, e, gi).take((q * gi) as int),
        decreases groups - q,
    {
        let mut rr: usize = 0;
        proof {
            lemma_mul_inequality(q as int + 1, groups as int, gi);
            lemma_mul_is_distributive_add_other_way(gi, q as int, 1);
        }
        while rr < g
            invariant
                g == gi,
                groups == data@.len() as int / gi,
                l == groups * gi <= data@.len(),
                data@.len() <= usize::MAX,
                q < groups,
                (q + 1) * gi <= l,
                (q + 1) * gi == q * gi + gi,
                rr <= g,
                normalize(data@, e, gi).len() == l,
                r@.len() == q * gi + rr,
                r@ =~= normalize(data@, e, gi).take((q * gi + rr) as int),
            decreases g - rr,
        {
            let ghost i: int = q * gi + rr;
            proof {
                lemma_fundamental_div_mod_converse(i, gi, q as int, rr as int);
            }
            let src: usize = match e {
                Endian::Big => q * g + rr,
                Endian::Little => q * g + (g - 1 - rr),
            };
            proof {
                if e is Little {
                    lemma_fundamental_div_mod_converse(
                        q * gi + (gi - 1 - rr),
                        gi,
                        q as int,
                        gi - 1 - rr,
                    );
                }
                assert(normalize(data@, e, gi)[i] == data@[src as int]);
            }
            let byte: u8 = data[src];
            r.push(byte);
            rr = rr + 1;
        }
        q = q + 1;
    }
    proof {
        assert(r@ =~= normalize(data@, e, gi));
    }
    r
}

/// Reads all packets from a raw byte stream: groups of `wordsize` bytes are
/// byte-reversed when the stream is little-endian, then every 8 normalized
/// bytes form one packet, high half first. The trailing residue is
/// discarded, as is a truncated trailing group.
pub fn read_packets(data: &[u8], e: Endian, w: WordSize) -> (r: Vec<Packet>)
    ensures
        r@ == spec_read(data@, e, w),
{
    let nb = normalized_bytes(data, e, w);
    let n: usize = nb.len() / 8;
    proof {
        lemma_trunc_len(nb@.len() as int, 8);
    }
    let mut r: Vec<Packet> = Vec::new();
    let mut k: usize = 0;
    while k < n
        invariant
            n == nb@.len() / 8,
            n * 8 <= nb@.len(),
            nb@.len() <= usize::MAX,
            k <= n,
            nb@ == normalize(data@, e, w.spec_bytes()),
            r@ =~= packets_of(nb@).take(k as int),
        decreases n - k,
    {
        proof {
            lemma_mul_inequality(k as int + 1, n as int, 8);
        }
        let j: usize = 8 * k;
        let w0: u32 = (nb[j] as u32) * 0x1000000 + (nb[j + 1] as u32) * 0x10000 + (nb[j + 2]
            as u32) * 0x100 + (nb[j + 3] as u32);
        let w1: u32 = (nb[j + 4] as u32) * 0x1000000 + (nb[j + 5] as u32) * 0x10000 + (nb[j + 6]
            as u32) * 0x100 + (nb[j + 7] as u32);
        r.push(Packet { w0, w1 });
        k = k + 1;
    }
    proof {
        assert(r@ =~= packets_of(nb@));
    }
    r
}

/// Reversing each word group twice gives back the stream, up to the
/// discarded truncated trailing group.
proof fn lemma_swap_groups_involution(b: Seq<u8>, g: int)
    requires
        1 <= g,
    ensures
        swap_groups(swap_groups(b, g), g) =~= b.take(trunc_len(b.len() as int, g)),
{
    let l = trunc_len(b.len() as int, g);
    lemma_trunc_len(b.len() as int, g);
    let s = swap_groups(b, g);
    assert(s.len() == l);
    lemma_trunc_len(l, g);
    assert(trunc_len(s.len() as int, g) == l);
    let t = b.len() as int / g;
    assert forall|i: int| 0 <= i < l implies swap_groups(s, g)[i] == b[i] by {
        let q = i / g;
        let rr = i % g;
        lemma_fundamental_div_mod(i, g);
        lemma_mod_bound(i, g);
        lemma_mul_is_commutative(q, g);
        assert(q * g <= i < t * g);
        vstd::arithmetic::mul::lemma_mul_strict_inequality_converse(q, t, g);
        lemma_mul_inequality(q + 1, t, g);
        assert((q + 1) * g == q * g + g) by {
            lemma_mul_is_distributive_add_other_way(g, q, 1);
        }
        let j = q * g + (g - 1 - rr);
        lemma_fundamental_div_mod_converse(j, g, q, g - 1 - rr);
        assert(swap_groups(s, g)[i] == s[j]);
        assert(s[j] == b[q * g + (g - 1 - (g - 1 - rr))]);
        assert(q * g + (g - 1 - (g - 1 - rr)) == i);
    }
}

/// Endianness and word size commute: decoding a stream as little-endian
/// yields the same packets as decoding its group-wise byte-swapped
/// equivalent as big-endian, and the other way round.
pub proof fn lemma_endian_flip(b: Seq<u8>, e: Endian, w: WordSize)
    ensures
        spec_read(b, e, w) == spec_read(swap_groups(b, w.spec_bytes()), e.spec_flip(), w),
{
    let g = w.spec_bytes();
    let l = trunc_len(b.len() as int, g);
    lemma_trunc_len(b.len() as int, g);
    let s = swap_groups(b, g);
    assert(s.len() == l);
    lemma_trunc_len(l, g);
    match e {
        Endian::Big => {
            lemma_swap_groups_involution(b, g);
            assert(normalize(s, Endian::Little, g) =~= normalize(b, Endian::Big, g));
        },
        Endian::Little => {
            assert(normalize(s, Endian::Big, g) =~= s.take(s.len() as int));
            assert(s.take(s.len() as int) =~= s);
        },
    }
    assert(normalize(b, e, g) == normalize(s, e.spec_flip(), g));
}


/// A stream holds at least 8 bytes for every packet read from it.
pub proof fn lemma_read_len(b: Seq<u8>, e: Endian, w: WordSize)
    ensures
        8 * spec_read(b, e, w).len() <= b.len(),
{
    let g = w.spec_bytes();
    lemma_trunc_len(b.len() as int, g);
    let nb = normalize(b, e, g);
    assert(nb.len() <= b.len());
    lemma_trunc_len(nb.len() as int, 8);
}

} // verus!
