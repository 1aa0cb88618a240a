//! The integer part of the terrain noise: a table-driven checksum of the
//! corner coordinates seeds a xorshift generator.
use vstd::prelude::*;

verus! {

/// Reflected polynomial of the checksum.
pub const CRC_POLY: u32 = 0xEDB88320;

/// Starting state of the xorshift generator before a seed is mixed in.
pub const XOR_INIT: u32 = 2463534242;

pub open spec fn crc_shift(c: u32) -> u32 {
    if c & 1 != 0 {
        CRC_POLY ^ (c >> 1)
    } else {
        c >> 1
    }
}

pub open spec fn crc_shifts(c: u32, k: nat) -> u32
    decreases k,
{
    if k == 0 {
        c
    } else {
        crc_shift(crc_shifts(c, (k - 1) as nat))
    }
}

/// Entry `n` of the checksum table: eight shift steps, low byte kept.
pub open spec fn crc_entry(n: u32) -> u8 {
    crc_shifts(n, 8) as u8
}

pub open spec fn crc_byte(crc: u32, b: u32) -> u32 {
    (crc >> 8) ^ (crc_entry((crc ^ b) & 0xff) as u32)
}

/// One word folds in four bytes, taken at shifts of 0, 1, 2 and 3 bits.
pub open spec fn crc_word(crc: u32, v: u32) -> u32 {
    crc_byte(crc_byte(crc_byte(crc_byte(crc, v), v >> 1), v >> 2), v >> 3)
}

pub open spec fn crc_fold(s: Seq<u32>) -> u32
    decreases s.len(),
{
    if s.len() == 0 {
        0xffffffff
    } else {
        crc_word(crc_fold(s.drop_last()), s.last())
    }
}

/// The checksum of a sequence of words.
pub open spec fn crc32(s: Seq<u32>) -> u32 {
    crc_fold(s) ^ 0xffffffff
}

pub open spec fn xorshift(x: u32) -> u32 {
    let x1 = x ^ (x << 13);
    let x2 = x1 ^ (x1 >> 17);
    x2 ^ (x2 << 5)
}

/// Generator state right after seeding.
pub open spec fn seeded_state(seed: u32) -> u32 {
    if 0 < seed {
        xorshift(xorshift(XOR_INIT ^ seed))
    } else {
        xorshift(XOR_INIT)
    }
}

/// The raw noise value at integer corner `(x, y)` of channel `bit`.
pub open spec fn corner_noise(x: u32, y: u32, bit: u32) -> u32 {
    xorshift(seeded_state(crc32(seq![x, y, bit])))
}

/// Entry `n` of the checksum table.
pub fn crc_table_entry(n: u32) -> (r: u8)
    ensures
        r == crc_entry(n),
{
    let mut c: u32 = n;
    let mut k: u32 = 0;
    while k < 8
        invariant
            k <= 8,
            c == crc_shifts(n, k as nat),
        decreases 8 - k,
    {
        c = if c & 1 != 0 {
            CRC_POLY ^ (c >> 1)
        } else {
            c >> 1
        };
        k += 1;
    }
    c as u8
}

/// The full 256-entry checksum table.
pub fn make_crc_table() -> (r: Vec<u8>)
    ensures
        r@.len() == 256,
        forall|i: int| 0 <= i < 256 ==> r@[i] == crc_entry(i as u32),
{
    let mut table: Vec<u8> = Vec::new();
    let mut n: u32 = 0;
    while n < 256
        invariant
            n <= 256,
            table@.len() == n,
            forall|i: int| 0 <= i < n ==> table@[i] == crc_entry(i as u32),
        decreases 256 - n,
    {
        table.push(crc_table_entry(n));
        n += 1;
    }
    table
}

/// Checksum of `data`, four table steps per word.
pub fn crc32_gp(data: &[u32]) -> (r: u32)
    ensures
        r == crc32(data@),
{
    let table = make_crc_table();
    let mut crc: u32 = 0xffffffff;
    let mut i: usize = 0;
    while i < data.len()
        invariant
            i <= data@.len(),
            table@.len() == 256,
            forall|k: int| 0 <= k < 256 ==> table@[k] == crc_entry(k as u32),
            crc == crc_fold(data@.subrange(0, i as int)),
        decreases data@.len() - i,
    {
        let val = data[i];
        let ghost start = crc;
        let mut j: u32 = 0;
        while j < 4
            invariant
                j <= 4,
                table@.len() == 256,
                forall|k: int| 0 <= k < 256 ==> table@[k] == crc_entry(k as u32),
                j == 0 ==> crc == start,
                j == 1 ==> crc == crc_byte(start, val),
                j == 2 ==> crc == crc_byte(crc_byte(start, val), val >> 1),
                j == 3 ==> crc == crc_byte(crc_byte(crc_byte(start, val), val >> 1), val >> 2),
                j == 4 ==> crc == crc_word(start, val),
            decreases 4 - j,
        {
            let idx: u32 = (crc ^ (val >> j)) & 0xff;
            assert(idx < 256) by (bit_vector)
                requires
                    idx == (crc ^ (val >> j)) & 0xff,
            ;
            assert(val >> 0u32 == val) by (bit_vector);
            crc = (crc >> 8) ^ table[idx as usize] as u32;
            j += 1;
        }
        assert(data@.subrange(0, i + 1).drop_last() == data@.subrange(0, i as int));
        i += 1;
    }
    assert(data@.subrange(0, data@.len() as int) == data@);
    crc ^ 0xffffffff
}

/// A 32-bit xorshift generator.
pub struct Xor128 {
    pub x: u32,
}

impl Xor128 {
    /// A generator seeded with `seed`; a zero seed skips the mixing step.
    pub fn new(seed: u32) -> (r: Xor128)
        ensures
            r.x == seeded_state(seed),
    {
        let mut ret = Xor128 { x: XOR_INIT };
        if 0 < seed {
            ret.x = ret.x ^ seed;
            ret.nexti();
        }
        ret.nexti();
        ret
    }

    /// Advances the state and returns it.
    pub fn nexti(&mut self) -> (r: u32)
        ensures
            final(self).x == xorshift(old(self).x),
            r == final(self).x,
    {
        let x1 = self.x ^ (self.x << 13);
        let x2 = x1 ^ (x1 >> 17);
        self.x = x2 ^ (x2 << 5);
        self.x
    }
}

/// The raw noise value at integer corner `(x, y)` of channel `bit`:
/// checksum of the three words, used as the seed, first draw returned.
pub fn noise_bits(x: u32, y: u32, bit: u32) -> (r: u32)
    ensures
        r == corner_noise(x, y, bit),
{
    let v: Vec<u32> = vec![x, y, bit];
    assert(v@ == seq![x, y, bit]);
    let seed = crc32_gp(v.as_slice());
    let mut rs = Xor128::new(seed);
    rs.nexti()
}

} // verus!
