//! Big-endian integers, as every wire format of this crate writes them.
use vstd::prelude::*;

verus! {

/// The number of values that `n` bytes can hold: 256 to the `n`.
pub open spec fn radix(n: nat) -> nat
    decreases n,
{
    if n == 0 {
        1
    } else {
        256 * radix((n - 1) as nat)
    }
}

/// The number that the bytes `s` spell, most significant byte first.
pub open spec fn be_value(s: Seq<u8>) -> nat
    decreases s.len(),
{
    if s.len() == 0 {
        0
    } else {
        be_value(s.drop_last()) * 256 + s.last() as nat
    }
}

/// The `n` low bytes of `x`, most significant byte first.
pub open spec fn be_bytes(x: nat, n: nat) -> Seq<u8>
    decreases n,
{
    if n == 0 {
        Seq::empty()
    } else {
        be_bytes(x / 256, (n - 1) as nat).push((x % 256) as u8)
    }
}

/// `radix` grows with the number of bytes.
pub proof fn lemma_radix_grows(m: nat, n: nat)
    requires
        m <= n,
    ensures
        1 <= radix(m) <= radix(n),
    decreases n,
{
    if n == 0 {
    } else if m < n {
        lemma_radix_grows(m, (n - 1) as nat);
    } else {
        lemma_radix_grows((m - 1) as nat, (n - 1) as nat);
    }
}

/// The values of `radix` at the widths this crate uses.
pub proof fn lemma_radix_values()
    ensures
        radix(1) == 0x100,
        radix(2) == 0x1_0000,
        radix(4) == 0x1_0000_0000,
        radix(8) == 0x1_0000_0000_0000_0000,
        radix(16) == 0x1_0000_0000_0000_0000_0000_0000_0000_0000,
{
    reveal_with_fuel(radix, 17);
}

/// `be_bytes(x, n)` has `n` bytes.
pub proof fn lemma_be_bytes_len(x: nat, n: nat)
    ensures
        be_bytes(x, n).len() == n,
    decreases n,
{
    if n > 0 {
        lemma_be_bytes_len(x / 256, (n - 1) as nat);
    }
}

/// What `n` bytes spell is below 256 to the `n`.
pub proof fn lemma_be_value_bound(s: Seq<u8>)
    ensures
        be_value(s) < radix(s.len()),
    decreases s.len(),
{
    if s.len() > 0 {
        lemma_be_value_bound(s.drop_last());
    }
}

/// Reading back what was written gives the number that was written, as
/// long as it fits in the bytes.
pub proof fn lemma_be_value_of_bytes(x: nat, n: nat)
    requires
        x < radix(n),
    ensures
        be_value(be_bytes(x, n)) == x,
    decreases n,
{
    if n > 0 {
        let rest = be_bytes(x / 256, (n - 1) as nat);
        lemma_be_value_of_bytes(x / 256, (n - 1) as nat);
        assert(be_bytes(x, n).drop_last() =~= rest);
    }
}

/// The two bytes of a port or a length.
pub proof fn lemma_be_bytes_u16(x: u16)
    ensures
        be_bytes(x as nat, 2) == seq![(x / 256) as u8, (x % 256) as u8],
{
    reveal_with_fuel(be_bytes, 3);
    assert(be_bytes(x as nat, 2) =~= seq![(x / 256) as u8, (x % 256) as u8]);
}

/// Reads the `n` bytes of `buf` that start at `at` as one big-endian
/// number.
pub fn read_be(buf: &[u8], at: usize, n: usize) -> (x: u128)
    requires
        n <= 16,
        at + n <= buf@.len(),
    ensures
        x as nat == be_value(buf@.subrange(at as int, at + n)),
        x < radix(n as nat),
{
    let total = buf.len();
    let mut acc: u128 = 0;
    let mut i: usize = 0;
    proof {
        lemma_radix_values();
    }
    while i < n
        invariant
            i <= n <= 16,
            total == buf@.len(),
            at + n <= buf@.len(),
            acc as nat == be_value(buf@.subrange(at as int, at + i)),
            acc < radix(i as nat),
        decreases n - i,
    {
        let b = buf[at + i];
        proof {
            let next = buf@.subrange(at as int, at + i + 1);
            assert(next.drop_last() =~= buf@.subrange(at as int, at + i));
            assert(next.last() == b);
            lemma_be_value_bound(next);
            lemma_radix_grows((i + 1) as nat, 16);
            lemma_radix_values();
        }
        acc = acc * 256 + b as u128;
        i = i + 1;
    }
    acc
}

/// Reads the two bytes at `at` as a big-endian `u16`.
pub fn read_u16(buf: &[u8], at: usize) -> (x: u16)
    requires
        at + 2 <= buf@.len(),
    ensures
        x as nat == be_value(buf@.subrange(at as int, at + 2)),
{
    proof {
        lemma_radix_values();
    }
    read_be(buf, at, 2) as u16
}

/// Reads the four bytes at `at` as a big-endian `u32`.
pub fn read_u32(buf: &[u8], at: usize) -> (x: u32)
    requires
        at + 4 <= buf@.len(),
    ensures
        x as nat == be_value(buf@.subrange(at as int, at + 4)),
{
    proof {
        lemma_radix_values();
    }
    read_be(buf, at, 4) as u32
}

/// Reads the sixteen bytes at `at` as a big-endian `u128`.
pub fn read_u128(buf: &[u8], at: usize) -> (x: u128)
    requires
        at + 16 <= buf@.len(),
    ensures
        x as nat == be_value(buf@.subrange(at as int, at + 16)),
{
    read_be(buf, at, 16)
}

/// Whether two byte strings are the same. Its running time depends on
/// where they differ: credentials are never compared with it.
pub fn same_bytes(a: &[u8], b: &[u8]) -> (same: bool)
    ensures
        same == (a@ == b@),
{
    if a.len() != b.len() {
        return false;
    }
    let mut i: usize = 0;
    while i < a.len()
        invariant
            i <= a@.len(),
            a@.len() == b@.len(),
            a@.subrange(0, i as int) == b@.subrange(0, i as int),
        decreases a@.len() - i,
    {
        if a[i] != b[i] {
            return false;
        }
        assert(a@.subrange(0, i + 1) =~= a@.subrange(0, i as int).push(a@[i as int]));
        assert(b@.subrange(0, i + 1) =~= b@.subrange(0, i as int).push(b@[i as int]));
        i = i + 1;
    }
    assert(a@ =~= a@.subrange(0, i as int));
    assert(b@ =~= b@.subrange(0, i as int));
    true
}

/// Appends the `n` low bytes of `x` to `out`, most significant first.
pub fn put_be(out: &mut Vec<u8>, x: u128, n: usize)
    requires
        n <= 16,
    ensures
        final(out)@ == old(out)@ + be_bytes(x as nat, n as nat),
    decreases n,
{
    if n > 0 {
        put_be(out, x / 256, n - 1);
        out.push((x % 256) as u8);
        assert(out@ =~= old(out)@ + be_bytes(x as nat, n as nat));
    } else {
        assert(out@ =~= old(out)@ + be_bytes(x as nat, n as nat));
    }
}

} // verus!
