//! Byte-level helpers shared by the verifiers.
//!
//! Ownership predicates, addresses and hashes are opaque byte strings
//! compared for exact equality; pegged-token amounts are little-endian
//! 128-bit values carried in cell data.

use vstd::prelude::*;

use crate::config::UDT_LEN;
use crate::error::Error;

verus! {

/// 256 to the power `e`: the number of byte strings of length `e`.
pub open spec fn pow256(e: nat) -> int
    decreases e,
{
    if e == 0 {
        1
    } else {
        256 * pow256((e - 1) as nat)
    }
}

pub proof fn lemma_pow256_positive(e: nat)
    ensures
        pow256(e) >= 1,
    decreases e,
{
    if e > 0 {
        lemma_pow256_positive((e - 1) as nat);
    }
}

pub proof fn lemma_pow256_unfold8()
    ensures
        pow256(7nat) == 0x100_0000_0000_0000int,
        pow256(8nat) == 0x1_0000_0000_0000_0000int,
{
    reveal_with_fuel(pow256, 9);
}

pub proof fn lemma_pow256_unfold16()
    ensures
        pow256(15nat) == 0x100_0000_0000_0000_0000_0000_0000_0000int,
        pow256(16nat) == 0x1_0000_0000_0000_0000_0000_0000_0000_0000int,
{
    reveal_with_fuel(pow256, 17);
}

pub proof fn lemma_pow256_increases(e1: nat, e2: nat)
    requires
        e1 <= e2,
    ensures
        pow256(e1) <= pow256(e2),
    decreases e2,
{
    if e1 < e2 {
        lemma_pow256_increases(e1, (e2 - 1) as nat);
        lemma_pow256_positive((e2 - 1) as nat);
    }
}

/// The value of a byte string read as a little-endian integer.
pub open spec fn le_bytes_value(s: Seq<u8>) -> int
    decreases s.len(),
{
    if s.len() == 0 {
        0
    } else {
        s[0] + 256 * le_bytes_value(s.subrange(1, s.len() as int))
    }
}

/// The value of a byte string read as a big-endian integer.
pub open spec fn be_bytes_value(s: Seq<u8>) -> int
    decreases s.len(),
{
    if s.len() == 0 {
        0
    } else {
        256 * be_bytes_value(s.drop_last()) + s.last()
    }
}

pub proof fn lemma_le_bytes_value_bound(s: Seq<u8>)
    ensures
        0 <= le_bytes_value(s) < pow256(s.len()),
    decreases s.len(),
{
    if s.len() > 0 {
        lemma_le_bytes_value_bound(s.subrange(1, s.len() as int));
    }
}

pub proof fn lemma_be_bytes_value_bound(s: Seq<u8>)
    ensures
        0 <= be_bytes_value(s) < pow256(s.len()),
    decreases s.len(),
{
    if s.len() > 0 {
        lemma_be_bytes_value_bound(s.drop_last());
    }
}

/// Exact bytewise equality of two opaque byte strings.
pub fn bytes_eq(a: &Vec<u8>, b: &Vec<u8>) -> (r: bool)
    ensures
        r == (a@ == b@),
{
    if a.len() != b.len() {
        return false;
    }
    let n = a.len();
    let mut i: usize = 0;
    while i < n
        invariant
            n == a@.len() == b@.len(),
            i <= n,
            forall|j: int| 0 <= j < i ==> a@[j] == b@[j],
        decreases n - i,
    {
        if a[i] != b[i] {
            return false;
        }
        i += 1;
    }
    proof {
        assert(a@ =~= b@);
    }
    true
}

/// Add two token amounts, saturating at the largest representable amount.
pub fn saturating_add_u128(a: u128, b: u128) -> (r: u128)
    ensures
        r == (if a + b > u128::MAX {
            u128::MAX as int
        } else {
            a + b
        }),
{
    if b > u128::MAX - a {
        u128::MAX
    } else {
        a + b
    }
}

/// Copy `count` bytes starting at `from` out of a byte string.
pub fn copy_range(data: &Vec<u8>, from: usize, count: usize) -> (r: Vec<u8>)
    requires
        from + count <= data@.len(),
    ensures
        r@ == data@.subrange(from as int, from + count),
{
    let n = data.len();
    let mut r: Vec<u8> = Vec::new();
    let mut i: usize = 0;
    while i < count
        invariant
            n == data@.len(),
            from + count <= n,
            i <= count,
            r@ =~= data@.subrange(from as int, from + i),
        decreases count - i,
    {
        r.push(data[from + i]);
        i += 1;
        proof {
            assert(r@ =~= data@.subrange(from as int, from + i));
        }
    }
    proof {
        assert(r@ =~= data@.subrange(from as int, from + count));
    }
    r
}

/// What reading a pegged-token amount from cell data yields: the
/// little-endian value when the data is exactly one `u128` wide, an encoding
/// rejection otherwise.
pub open spec fn spec_read_udt_amount(data: Seq<u8>) -> Result<u128, Error> {
    if data.len() == UDT_LEN {
        Ok(le_bytes_value(data) as u128)
    } else {
        Err(Error::Encoding)
    }
}

/// Read a pegged-token amount: cell data must hold exactly one
/// little-endian `u128`.
pub fn read_udt_amount(data: &Vec<u8>) -> (r: Result<u128, Error>)
    ensures
        r == spec_read_udt_amount(data@),
        r matches Ok(v) ==> v == le_bytes_value(data@),
{
    if data.len() != UDT_LEN {
        return Err(Error::Encoding);
    }
    let n = data.len();
    let mut acc: u128 = 0;
    let mut i: usize = n;
    while i > 0
        invariant
            n == data@.len() == UDT_LEN,
            i <= n,
            acc == le_bytes_value(data@.subrange(i as int, n as int)),
            acc < pow256((n - i) as nat),
        decreases i,
    {
        proof {
            lemma_pow256_unfold16();
            lemma_pow256_increases((n - i) as nat, 15nat);
            lemma_pow256_increases((n - i + 1) as nat, 16nat);
        }
        i -= 1;
        acc = acc * 256 + data[i] as u128;
        proof {
            let s = data@.subrange(i as int, n as int);
            assert(s.subrange(1, s.len() as int) =~= data@.subrange(i + 1, n as int));
            assert(acc == s[0] + 256 * le_bytes_value(s.subrange(1, s.len() as int)));
        }
    }
    proof {
        assert(data@.subrange(0, n as int) =~= data@);
    }
    Ok(acc)
}

/// Read `count` bytes starting at `from` as a big-endian integer.
pub fn read_be_value(data: &Vec<u8>, from: usize, count: usize) -> (r: u64)
    requires
        from + count <= data@.len(),
        count <= 8,
    ensures
        r == be_bytes_value(data@.subrange(from as int, from + count)),
{
    let n = data.len();
    let mut acc: u64 = 0;
    let mut i: usize = 0;
    while i < count
        invariant
            n == data@.len(),
            from + count <= n,
            count <= 8,
            i <= count,
            acc == be_bytes_value(data@.subrange(from as int, from + i)),
            acc < pow256(i as nat),
        decreases count - i,
    {
        proof {
            lemma_pow256_unfold8();
            lemma_pow256_increases(i as nat, 7nat);
            lemma_pow256_increases((i + 1) as nat, 8nat);
        }
        acc = acc * 256 + data[from + i] as u64;
        i += 1;
        proof {
            let s = data@.subrange(from as int, from + i);
            assert(s.drop_last() =~= data@.subrange(from as int, from + i - 1));
            assert(s.last() == data@[from + i - 1]);
            assert(acc == 256 * be_bytes_value(s.drop_last()) + s.last());
        }
    }
    acc
}

} // verus!
