//! Byte-level layout: the padding rule and the little-endian form of integers.

use vstd::prelude::*;

verus! {

/// The padded size of `len` bytes: `len` rounded up to a multiple of four.
pub open spec fn pad(len: nat) -> nat {
    ((len + 3) / 4 * 4) as nat
}

/// Computes the padded size of `len` bytes as `(len + 3) & !3`.
pub fn pad_size(len: usize) -> (padded: usize)
    requires
        len + 3 <= usize::MAX,
    ensures
        padded == pad(len as nat),
        len <= padded < len + 4,
        padded % 4 == 0,
{
    let biased: usize = len + 3;
    assert(biased & !3usize == biased / 4 * 4) by (bit_vector);
    biased & !3
}

/// The padded size of `len` bytes, where a `usize` can hold it.
pub fn checked_pad_size(len: usize) -> (padded: Option<usize>)
    ensures
        padded == if pad(len as nat) <= usize::MAX {
            Some(pad(len as nat) as usize)
        } else {
            None
        },
{
    if len <= usize::MAX - 3 {
        Some(pad_size(len))
    } else {
        None
    }
}

/// Padding rounds up: the padded size is a multiple of four, not below the
/// size itself and less than four above it.
pub proof fn lemma_pad_rounds_up(len: nat)
    ensures
        pad(len) % 4 == 0,
        len <= pad(len) < len + 4,
{
}

/// No multiple of four lies between a size and its padded size: the padded
/// size is the next multiple of four.
pub proof fn lemma_pad_is_least(len: nat, multiple: nat)
    requires
        multiple % 4 == 0,
        len <= multiple,
    ensures
        pad(len) <= multiple,
{
}

/// Padding is idempotent: a padded size is its own padded size.
pub proof fn lemma_pad_idempotent(len: nat)
    ensures
        pad(pad(len)) == pad(len),
{
}

/// The first `width` bytes of `value`, least significant first.
pub open spec fn le_bytes(value: nat, width: nat) -> Seq<u8>
    decreases width,
{
    if width == 0 {
        Seq::empty()
    } else {
        seq![(value % 256) as u8] + le_bytes(value / 256, (width - 1) as nat)
    }
}

/// The number whose little-endian form is `bytes`.
pub open spec fn le_value(bytes: Seq<u8>) -> nat
    decreases bytes.len(),
{
    if bytes.len() == 0 {
        0
    } else {
        bytes[0] as nat + 256 * le_value(bytes.skip(1))
    }
}

/// The least number that `width` bytes cannot hold.
pub open spec fn le_limit(width: nat) -> nat
    decreases width,
{
    if width == 0 {
        1
    } else {
        256 * le_limit((width - 1) as nat)
    }
}

/// The little-endian form of a number has the width asked for.
pub proof fn lemma_le_bytes_len(value: nat, width: nat)
    ensures
        le_bytes(value, width).len() == width,
    decreases width,
{
    if width > 0 {
        lemma_le_bytes_len(value / 256, (width - 1) as nat);
    }
}

/// What `width` bytes hold is below the limit of that width.
pub proof fn lemma_le_value_bound(bytes: Seq<u8>)
    ensures
        le_value(bytes) < le_limit(bytes.len()),
    decreases bytes.len(),
{
    if bytes.len() > 0 {
        lemma_le_value_bound(bytes.skip(1));
    }
}

/// Decoding the little-endian form of a number that fits gives the number back.
pub proof fn lemma_le_value_of_bytes(value: nat, width: nat)
    requires
        value < le_limit(width),
    ensures
        le_value(le_bytes(value, width)) == value,
    decreases width,
{
    if width > 0 {
        let rest = le_bytes(value / 256, (width - 1) as nat);
        lemma_le_value_of_bytes(value / 256, (width - 1) as nat);
        assert(le_bytes(value, width).skip(1) =~= rest);
    }
}

/// Encoding what a run of bytes holds, at the width of the run, gives the run back.
pub proof fn lemma_le_bytes_of_value(bytes: Seq<u8>)
    ensures
        le_bytes(le_value(bytes), bytes.len()) == bytes,
    decreases bytes.len(),
{
    if bytes.len() > 0 {
        let rest = bytes.skip(1);
        lemma_le_bytes_of_value(rest);
        let value = le_value(bytes);
        assert(value % 256 == bytes[0] as nat);
        assert(value / 256 == le_value(rest));
        assert(le_bytes(value, bytes.len()) =~= bytes);
    }
}

/// The limits of the widths in use.
pub proof fn lemma_le_limits()
    ensures
        le_limit(1) == 0x100,
        le_limit(2) == 0x1_0000,
        le_limit(4) == 0x1_0000_0000,
        le_limit(8) == 0x1_0000_0000_0000_0000,
{
    reveal_with_fuel(le_limit, 9);
}

/// Appends the first `width` bytes of `value`, least significant first.
pub fn put_le(out: &mut Vec<u8>, value: u64, width: usize)
    requires
        width <= 8,
    ensures
        final(out)@ == old(out)@ + le_bytes(value as nat, width as nat),
{
    let mut rest: u64 = value;
    let mut done: usize = 0;
    while done < width
        invariant
            done <= width <= 8,
            out@ + le_bytes(rest as nat, (width - done) as nat) == old(out)@ + le_bytes(
                value as nat,
                width as nat,
            ),
        decreases width - done,
    {
        let ghost before = out@;
        out.push((rest % 256) as u8);
        proof {
            let tail = le_bytes((rest / 256) as nat, (width - done - 1) as nat);
            assert(le_bytes(rest as nat, (width - done) as nat) == seq![(rest % 256) as u8] + tail);
            assert(out@ + tail =~= before + (seq![(rest % 256) as u8] + tail));
        }
        rest = rest / 256;
        done = done + 1;
    }
    assert(le_bytes(rest as nat, 0) =~= Seq::<u8>::empty());
    assert(out@ + Seq::<u8>::empty() =~= out@);
}

/// Reads the number whose little-endian form is `bytes`.
pub fn get_le(bytes: &[u8]) -> (value: u64)
    requires
        bytes@.len() <= 8,
    ensures
        value == le_value(bytes@),
{
    let mut value: u64 = 0;
    let mut left: usize = bytes.len();
    proof {
        assert(bytes@.skip(left as int) =~= Seq::<u8>::empty());
    }
    while left > 0
        invariant
            left <= bytes@.len() <= 8,
            value == le_value(bytes@.skip(left as int)),
        decreases left,
    {
        proof {
            let tail = bytes@.skip(left as int);
            let longer = bytes@.skip(left - 1);
            assert(longer.skip(1) =~= tail);
            assert(longer[0] == bytes@[left - 1]);
            lemma_le_value_bound(tail);
            lemma_le_limit_monotonic(tail.len(), 7);
            reveal_with_fuel(le_limit, 8);
        }
        left = left - 1;
        value = value * 256 + bytes[left] as u64;
    }
    proof {
        assert(bytes@.skip(0) =~= bytes@);
    }
    value
}

/// A wider run of bytes has a limit that is at least as large.
pub proof fn lemma_le_limit_monotonic(narrow: nat, wide: nat)
    requires
        narrow <= wide,
    ensures
        le_limit(narrow) <= le_limit(wide),
    decreases wide,
{
    if narrow < wide {
        lemma_le_limit_monotonic(narrow, (wide - 1) as nat);
    }
}

} // verus!
