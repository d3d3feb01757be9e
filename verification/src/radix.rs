//! Numbers written in base 256: what a run of bytes spells in either byte order,
//! and the bytes that spell a number.

use crate::endian::Endian;
use vstd::arithmetic::div_mod::{lemma_fundamental_div_mod, lemma_mod_breakdown};
use vstd::prelude::*;

verus! {

/// 256 to the power `n`: the count of numbers that `n` bytes can spell.
pub open spec fn pow256(n: nat) -> nat
    decreases n,
{
    if n == 0 {
        1
    } else {
        256 * pow256((n - 1) as nat)
    }
}

/// The number that `bytes` spell with the least significant byte first.
pub open spec fn le_value(bytes: Seq<u8>) -> nat
    decreases bytes.len(),
{
    if bytes.len() == 0 {
        0
    } else {
        bytes.first() as nat + 256 * le_value(bytes.drop_first())
    }
}

/// The number that `bytes` spell with the most significant byte first.
pub open spec fn be_value(bytes: Seq<u8>) -> nat
    decreases bytes.len(),
{
    if bytes.len() == 0 {
        0
    } else {
        256 * be_value(bytes.drop_last()) + bytes.last() as nat
    }
}

/// The `len` bytes that spell `value`, least significant byte first. Where `value`
/// needs more than `len` bytes, its higher digits are left out.
pub open spec fn le_bytes(value: nat, len: nat) -> Seq<u8>
    decreases len,
{
    if len == 0 {
        Seq::empty()
    } else {
        seq![(value % 256) as u8] + le_bytes(value / 256, (len - 1) as nat)
    }
}

/// The `len` bytes that spell `value`, most significant byte first. Where `value`
/// needs more than `len` bytes, its higher digits are left out.
pub open spec fn be_bytes(value: nat, len: nat) -> Seq<u8>
    decreases len,
{
    if len == 0 {
        Seq::empty()
    } else {
        be_bytes(value / 256, (len - 1) as nat).push((value % 256) as u8)
    }
}

/// The number that `bytes` spell in the byte order `endian`.
pub open spec fn value_of(bytes: Seq<u8>, endian: Endian) -> nat {
    match endian {
        Endian::Little => le_value(bytes),
        Endian::Big => be_value(bytes),
    }
}

/// The `len` bytes that spell `value` in the byte order `endian`.
pub open spec fn bytes_of(value: nat, len: nat, endian: Endian) -> Seq<u8> {
    match endian {
        Endian::Little => le_bytes(value, len),
        Endian::Big => be_bytes(value, len),
    }
}

/// The two's complement reading of `image`, a number that `len` bytes spell: the
/// upper half of the range stands for the negative numbers.
pub open spec fn signed_of(image: nat, len: nat) -> int {
    if 2 * image < pow256(len) {
        image as int
    } else {
        image - pow256(len)
    }
}

/// The number that stands for `value` in two's complement on `len` bytes.
pub open spec fn image_of(value: int, len: nat) -> nat {
    if value >= 0 {
        value as nat
    } else {
        (value + pow256(len)) as nat
    }
}

/// The powers of 256 at the widths of the machine integers.
pub proof fn lemma_pow256_widths()
    ensures
        pow256(0) == 1,
        pow256(1) == 0x100,
        pow256(2) == 0x1_0000,
        pow256(4) == 0x1_0000_0000,
        pow256(8) == 0x1_0000_0000_0000_0000,
        pow256(16) == 0x1_0000_0000_0000_0000_0000_0000_0000_0000,
{
    reveal_with_fuel(pow256, 3);
    assert(pow256(2) == 0x1_0000);
    assert(pow256(4) == 0x1_0000 * pow256(2));
    assert(pow256(6) == 0x1_0000 * pow256(4));
    assert(pow256(8) == 0x1_0000 * pow256(6));
    assert(pow256(10) == 0x1_0000 * pow256(8));
    assert(pow256(12) == 0x1_0000 * pow256(10));
    assert(pow256(14) == 0x1_0000 * pow256(12));
    assert(pow256(16) == 0x1_0000 * pow256(14));
}

/// More bytes spell more numbers.
pub proof fn lemma_pow256_monotonic(m: nat, n: nat)
    requires
        m <= n,
    ensures
        0 < pow256(m) <= pow256(n),
    decreases n,
{
    if n == 0 {
    } else if m == n {
        lemma_pow256_monotonic((m - 1) as nat, (n - 1) as nat);
    } else {
        lemma_pow256_monotonic(m, (n - 1) as nat);
    }
}

/// What `n` bytes spell is below `pow256(n)`, in either order.
pub proof fn lemma_value_bound(bytes: Seq<u8>, endian: Endian)
    ensures
        value_of(bytes, endian) < pow256(bytes.len()),
    decreases bytes.len(),
{
    if bytes.len() > 0 {
        match endian {
            Endian::Little => lemma_value_bound(bytes.drop_first(), endian),
            Endian::Big => lemma_value_bound(bytes.drop_last(), endian),
        }
    }
}

/// `bytes_of` gives as many bytes as it is asked for.
pub proof fn lemma_bytes_len(value: nat, len: nat, endian: Endian)
    ensures
        bytes_of(value, len, endian).len() == len,
    decreases len,
{
    if len > 0 {
        lemma_bytes_len(value / 256, (len - 1) as nat, endian);
    }
}

/// Reading back the `len` bytes written for `value` gives `value` without the
/// digits that did not fit: `value` itself where it is below `pow256(len)`.
pub proof fn lemma_value_of_bytes(value: nat, len: nat, endian: Endian)
    ensures
        value_of(bytes_of(value, len, endian), endian) == value % pow256(len),
        value < pow256(len) ==> value_of(bytes_of(value, len, endian), endian) == value,
    decreases len,
{
    lemma_pow256_monotonic(0, len);
    if len == 0 {
    } else {
        let rest = (len - 1) as nat;
        lemma_pow256_monotonic(0, rest);
        lemma_value_of_bytes(value / 256, rest, endian);
        lemma_bytes_len(value / 256, rest, endian);
        let bytes = bytes_of(value, len, endian);
        match endian {
            Endian::Little => {
                assert(bytes.drop_first() == le_bytes(value / 256, rest));
            },
            Endian::Big => {
                assert(bytes.drop_last() == be_bytes(value / 256, rest));
            },
        }
        lemma_mod_breakdown(value as int, 256, pow256(rest) as int);
    }
    if value < pow256(len) {
        vstd::arithmetic::div_mod::lemma_small_mod(value, pow256(len));
    }
}

/// Writing the number that `bytes` spell on as many bytes gives `bytes` again.
pub proof fn lemma_bytes_of_value(bytes: Seq<u8>, endian: Endian)
    ensures
        bytes_of(value_of(bytes, endian), bytes.len(), endian) == bytes,
    decreases bytes.len(),
{
    if bytes.len() > 0 {
        let value = value_of(bytes, endian);
        match endian {
            Endian::Little => {
                let rest = bytes.drop_first();
                lemma_bytes_of_value(rest, endian);
                lemma_fundamental_div_mod(value as int, 256);
                assert(value % 256 == bytes.first() && value / 256 == le_value(rest)) by {
                    lemma_digit_split(le_value(rest), bytes.first());
                }
                assert(seq![bytes.first()] + rest == bytes);
            },
            Endian::Big => {
                let rest = bytes.drop_last();
                lemma_bytes_of_value(rest, endian);
                assert(value % 256 == bytes.last() && value / 256 == be_value(rest)) by {
                    lemma_digit_split(be_value(rest), bytes.last());
                }
                assert(rest.push(bytes.last()) == bytes);
            },
        }
    }
}

/// A number of the form `256 * high + low` with `low` a byte has `low` as its last
/// digit and `high` as the rest.
proof fn lemma_digit_split(high: nat, low: u8)
    ensures
        (256 * high + low) % 256 == low,
        (256 * high + low) / 256 == high,
{
    vstd::arithmetic::div_mod::lemma_fundamental_div_mod_converse(
        256 * high + low,
        256,
        high as int,
        low as int,
    );
}

/// The two's complement image of a number that fits `len` bytes reads back as
/// that number, and lies below `pow256(len)`.
pub proof fn lemma_signed_round_trip(value: int, len: nat)
    requires
        -(pow256(len) as int) <= 2 * value < pow256(len),
    ensures
        image_of(value, len) < pow256(len),
        signed_of(image_of(value, len), len) == value,
{
}

/// The two's complement reading of a number below `pow256(len)` fits `len` bytes
/// as a signed number, and has that number as its image.
pub proof fn lemma_image_round_trip(image: nat, len: nat)
    requires
        image < pow256(len),
    ensures
        -(pow256(len) as int) <= 2 * signed_of(image, len) < pow256(len),
        image_of(signed_of(image, len), len) == image,
{
}

/// Reads the number that `bytes` spell in the byte order `endian`.
pub fn parse(bytes: &[u8], endian: Endian) -> (value: u128)
    requires
        bytes@.len() <= 16,
    ensures
        value == value_of(bytes@, endian),
        value < pow256(bytes@.len()),
{
    let len = bytes.len();
    let mut value: u128 = 0;
    proof {
        lemma_pow256_widths();
        lemma_value_bound(bytes@, endian);
    }
    match endian {
        Endian::Little => {
            let mut i: usize = len;
            while i > 0
                invariant
                    i <= len,
                    len == bytes@.len(),
                    len <= 16,
                    value == le_value(bytes@.skip(i as int)),
                    pow256(16) == 0x1_0000_0000_0000_0000_0000_0000_0000_0000,
                decreases i,
            {
                proof {
                    let tail = bytes@.skip(i as int);
                    let next = bytes@.skip(i - 1);
                    assert(next.drop_first() == tail);
                    lemma_value_bound(tail, Endian::Little);
                    lemma_value_bound(next, Endian::Little);
                    lemma_pow256_monotonic(next.len(), 16);
                }
                i = i - 1;
                value = value * 256 + bytes[i] as u128;
            }
            assert(bytes@.skip(0) == bytes@);
        },
        Endian::Big => {
            let mut i: usize = 0;
            while i < len
                invariant
                    i <= len,
                    len == bytes@.len(),
                    len <= 16,
                    value == be_value(bytes@.take(i as int)),
                    pow256(16) == 0x1_0000_0000_0000_0000_0000_0000_0000_0000,
                decreases len - i,
            {
                proof {
                    let head = bytes@.take(i as int);
                    let next = bytes@.take(i + 1);
                    assert(next.drop_last() == head);
                    lemma_value_bound(head, Endian::Big);
                    lemma_value_bound(next, Endian::Big);
                    lemma_pow256_monotonic(next.len(), 16);
                }
                value = value * 256 + bytes[i] as u128;
                i = i + 1;
            }
            assert(bytes@.take(len as int) == bytes@);
        },
    }
    value
}

/// Writes `value` on `N` bytes in the byte order `endian`. Where `value` needs
/// more than `N` bytes, its higher digits are left out.
pub fn spell<const N: usize>(value: u128, endian: Endian) -> (bytes: [u8; N])
    ensures
        bytes@ == bytes_of(value as nat, N as nat, endian),
{
    let mut bytes = [0u8; N];
    let mut rest = value;
    let mut i: usize = 0;
    match endian {
        Endian::Little => {
            while i < N
                invariant
                    i <= N,
                    bytes@.len() == N,
                    bytes@.take(i as int) + le_bytes(rest as nat, (N - i) as nat) == le_bytes(
                        value as nat,
                        N as nat,
                    ),
                decreases N - i,
            {
                let ghost before = bytes@;
                bytes[i] = (rest % 256) as u8;
                proof {
                    let digit = (rest % 256) as u8;
                    let tail = le_bytes((rest / 256) as nat, (N - i - 1) as nat);
                    assert(bytes@.take(i + 1) == before.take(i as int).push(digit));
                    assert(before.take(i as int).push(digit) + tail == before.take(i as int) + (
                    seq![digit] + tail));
                }
                rest = rest / 256;
                i = i + 1;
            }
            assert(bytes@.take(N as int) == bytes@);
        },
        Endian::Big => {
            while i < N
                invariant
                    i <= N,
                    bytes@.len() == N,
                    be_bytes(rest as nat, (N - i) as nat) + bytes@.skip(N - i) == be_bytes(
                        value as nat,
                        N as nat,
                    ),
                decreases N - i,
            {
                let ghost before = bytes@;
                bytes[N - 1 - i] = (rest % 256) as u8;
                proof {
                    let digit = (rest % 256) as u8;
                    let head = be_bytes((rest / 256) as nat, (N - i - 1) as nat);
                    assert(bytes@.skip(N - i - 1) == seq![digit] + before.skip(N - i));
                    assert(head.push(digit) + before.skip(N - i) == head + (seq![digit]
                        + before.skip(N - i)));
                }
                rest = rest / 256;
                i = i + 1;
            }
            assert(bytes@.skip(0) == bytes@);
        },
    }
    bytes
}

} // verus!
