//! The mathematical model of a packed bit buffer: a sequence of bytes in which
//! flag `i` lives in byte `i / 8`, at bit `i % 8`.
use vstd::prelude::*;

verus! {

/// The single-bit mask that selects flag `i` inside its byte.
pub open spec fn bit_mask(i: int) -> u8 {
    1u8 << ((i % 8) as u8)
}

/// Whether flag `i` addresses a byte that exists in `bytes`.
pub open spec fn in_range(bytes: Seq<u8>, i: int) -> bool {
    0 <= i && i / 8 < bytes.len()
}

/// Whether flag `i` is present: it is in range and its bit is one.
pub open spec fn has_bit(bytes: Seq<u8>, i: int) -> bool {
    in_range(bytes, i) && bytes[i / 8] & bit_mask(i) == bit_mask(i)
}

/// The buffer after raising flag `i`; an out-of-range flag leaves it as it is.
pub open spec fn with_bit_set(bytes: Seq<u8>, i: int) -> Seq<u8> {
    if in_range(bytes, i) {
        bytes.update(i / 8, bytes[i / 8] | bit_mask(i))
    } else {
        bytes
    }
}

/// The buffer after lowering flag `i`; an out-of-range flag leaves it as it is.
pub open spec fn with_bit_cleared(bytes: Seq<u8>, i: int) -> Seq<u8> {
    if in_range(bytes, i) {
        bytes.update(i / 8, bytes[i / 8] & !bit_mask(i))
    } else {
        bytes
    }
}

/// A buffer of `n` zero bytes.
pub open spec fn zeroed(n: nat) -> Seq<u8> {
    Seq::new(n, |k: int| 0u8)
}

/// Raising bit `k` of a byte changes bit `k` alone.
pub proof fn lemma_byte_or_mask(b: u8, k: u8, j: u8)
    requires
        k < 8,
        j < 8,
    ensures
        ((b | (1u8 << k)) & (1u8 << j) == (1u8 << j)) == (j == k || b & (1u8 << j) == (1u8
            << j)),
{
    assert(((b | (1u8 << k)) & (1u8 << j) == (1u8 << j)) == (j == k || b & (1u8 << j) == (1u8
        << j))) by (bit_vector)
        requires
            k < 8,
            j < 8,
    ;
}

/// Lowering bit `k` of a byte changes bit `k` alone.
pub proof fn lemma_byte_and_not_mask(b: u8, k: u8, j: u8)
    requires
        k < 8,
        j < 8,
    ensures
        ((b & !(1u8 << k)) & (1u8 << j) == (1u8 << j)) == (j != k && b & (1u8 << j) == (1u8
            << j)),
{
    assert(((b & !(1u8 << k)) & (1u8 << j) == (1u8 << j)) == (j != k && b & (1u8 << j) == (1u8
        << j))) by (bit_vector)
        requires
            k < 8,
            j < 8,
    ;
}

/// A zero byte has no bit raised.
pub proof fn lemma_zero_byte(j: u8)
    requires
        j < 8,
    ensures
        0u8 & (1u8 << j) != (1u8 << j),
{
    assert(0u8 & (1u8 << j) != (1u8 << j)) by (bit_vector)
        requires
            j < 8,
    ;
}

/// Raising flag `i` makes flag `i` present if it is in range and leaves every
/// other flag as it was.
pub proof fn lemma_has_after_set(bytes: Seq<u8>, i: int, j: int)
    ensures
        has_bit(with_bit_set(bytes, i), j) == ((j == i && in_range(bytes, i)) || has_bit(
            bytes,
            j,
        )),
        with_bit_set(bytes, i).len() == bytes.len(),
{
    if in_range(bytes, i) && in_range(bytes, j) && i / 8 == j / 8 {
        lemma_byte_or_mask(bytes[i / 8], (i % 8) as u8, (j % 8) as u8);
    }
}

/// Lowering flag `i` makes flag `i` absent and leaves every other flag as it
/// was.
pub proof fn lemma_has_after_clear(bytes: Seq<u8>, i: int, j: int)
    ensures
        has_bit(with_bit_cleared(bytes, i), j) == (j != i && has_bit(bytes, j)),
        with_bit_cleared(bytes, i).len() == bytes.len(),
{
    if in_range(bytes, i) && in_range(bytes, j) && i / 8 == j / 8 {
        lemma_byte_and_not_mask(bytes[i / 8], (i % 8) as u8, (j % 8) as u8);
    }
}

/// No flag is present in a zeroed buffer.
pub proof fn lemma_zeroed_has_none(n: nat, j: int)
    ensures
        !has_bit(zeroed(n), j),
{
    if in_range(zeroed(n), j) {
        lemma_zero_byte((j % 8) as u8);
    }
}

/// Lowering a bit that is already low leaves the byte as it is.
pub proof fn lemma_byte_and_not_mask_absent(b: u8, k: u8)
    requires
        k < 8,
        b & (1u8 << k) != (1u8 << k),
    ensures
        b & !(1u8 << k) == b,
{
    assert(b & !(1u8 << k) == b) by (bit_vector)
        requires
            k < 8,
            b & (1u8 << k) != (1u8 << k),
    ;
}

/// Raising a bit twice gives the same byte as raising it once.
pub proof fn lemma_byte_or_mask_twice(b: u8, k: u8)
    requires
        k < 8,
    ensures
        (b | (1u8 << k)) | (1u8 << k) == b | (1u8 << k),
{
    assert((b | (1u8 << k)) | (1u8 << k) == b | (1u8 << k)) by (bit_vector)
        requires
            k < 8,
    ;
}

/// After raising an in-range flag it is present, and every other flag is
/// present exactly when it was before; in particular a flag that was absent
/// stays absent.
pub proof fn lemma_set_then_has(bytes: Seq<u8>, i: int)
    requires
        in_range(bytes, i),
    ensures
        has_bit(with_bit_set(bytes, i), i),
        forall|j: int|
            j != i ==> #[trigger] has_bit(with_bit_set(bytes, i), j) == has_bit(bytes, j),
{
    lemma_has_after_set(bytes, i, i);
    assert forall|j: int| j != i implies #[trigger] has_bit(with_bit_set(bytes, i), j) == has_bit(
        bytes,
        j,
    ) by {
        lemma_has_after_set(bytes, i, j);
    }
}

/// Raising one in-range flag in a zeroed buffer makes that flag, and no
/// other, present.
pub proof fn lemma_set_on_zeroed(n: nat, i: int)
    requires
        in_range(zeroed(n), i),
    ensures
        forall|j: int| #[trigger] has_bit(with_bit_set(zeroed(n), i), j) == (j == i),
{
    assert forall|j: int| #[trigger] has_bit(with_bit_set(zeroed(n), i), j) == (j == i) by {
        lemma_has_after_set(zeroed(n), i, j);
        lemma_zeroed_has_none(n, j);
    }
}

/// Lowering a flag after raising it leaves it absent, and lowering a flag that
/// is absent leaves the buffer unchanged.
pub proof fn lemma_clear_after_set(bytes: Seq<u8>, i: int)
    ensures
        !has_bit(with_bit_cleared(with_bit_set(bytes, i), i), i),
        !has_bit(bytes, i) ==> with_bit_cleared(bytes, i) == bytes,
{
    lemma_has_after_clear(with_bit_set(bytes, i), i, i);
    if in_range(bytes, i) && !has_bit(bytes, i) {
        lemma_byte_and_not_mask_absent(bytes[i / 8], (i % 8) as u8);
        assert(with_bit_cleared(bytes, i) =~= bytes);
    }
}

/// Raising the same flag twice gives the same buffer as raising it once.
pub proof fn lemma_set_idempotent(bytes: Seq<u8>, i: int)
    ensures
        with_bit_set(with_bit_set(bytes, i), i) == with_bit_set(bytes, i),
{
    if in_range(bytes, i) {
        lemma_byte_or_mask_twice(bytes[i / 8], (i % 8) as u8);
        assert(with_bit_set(with_bit_set(bytes, i), i) =~= with_bit_set(bytes, i));
    }
}

/// A zeroed buffer holds no flag at all.
pub proof fn lemma_zeroed_is_empty(n: nat)
    ensures
        forall|j: int| !#[trigger] has_bit(zeroed(n), j),
{
    assert forall|j: int| !#[trigger] has_bit(zeroed(n), j) by {
        lemma_zeroed_has_none(n, j);
    }
}

/// A flag whose byte lies outside the buffer is absent, and raising or
/// lowering it leaves every byte unchanged.
pub proof fn lemma_out_of_range_untouched(bytes: Seq<u8>, i: int)
    requires
        !in_range(bytes, i),
    ensures
        !has_bit(bytes, i),
        with_bit_set(bytes, i) == bytes,
        with_bit_cleared(bytes, i) == bytes,
{
}

} // verus!
