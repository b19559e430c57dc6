//! Frame-level machinery shared by the command builder and every response
//! parser: the wraparound checksum, the shape of a valid frame, and the
//! sliding-window scan that finds the first valid frame in a noisy buffer.

use vstd::prelude::*;

verus! {

/// A byte that can begin a frame: a device address on the shared bus.
pub open spec fn valid_address_byte(b: u8) -> bool {
    crate::MIN_ADDRESS <= b && b <= crate::MAX_ADDRESS
}

#[verifier::when_used_as_spec(valid_address_byte)]
pub fn is_valid_address(b: u8) -> (r: bool)
    ensures
        r == valid_address_byte(b),
{
    crate::MIN_ADDRESS <= b && b <= crate::MAX_ADDRESS
}

/// Wraparound (mod-256) sum of a byte sequence: the protocol's checksum.
pub open spec fn checksum_of(s: Seq<u8>) -> u8
    decreases s.len(),
{
    if s.len() == 0 {
        0
    } else {
        ((checksum_of(s.drop_last()) + s.last()) % 256) as u8
    }
}

/// A frame body followed by its checksum byte.
pub open spec fn framed(body: Seq<u8>) -> Seq<u8> {
    body.push(checksum_of(body))
}

/// Wraparound sum of `data[start..end]`.
pub fn checksum_range(data: &[u8], start: usize, end: usize) -> (r: u8)
    requires
        start <= end <= data@.len(),
    ensures
        r == checksum_of(data@.subrange(start as int, end as int)),
{
    let mut sum: u8 = 0;
    let mut k: usize = start;
    proof {
        assert(data@.subrange(start as int, start as int) =~= Seq::<u8>::empty());
    }
    while k < end
        invariant
            start <= k <= end <= data@.len(),
            sum == checksum_of(data@.subrange(start as int, k as int)),
        decreases end - k,
    {
        proof {
            let prefix = data@.subrange(start as int, k as int + 1);
            assert(prefix.drop_last() =~= data@.subrange(start as int, k as int));
            assert(prefix.last() == data@[k as int]);
        }
        sum = sum.wrapping_add(data[k]);
        k += 1;
    }
    sum
}

/// Wraparound sum of all bytes: the checksum appended to a frame body.
pub fn calculate_checksum(bytes: &[u8]) -> (r: u8)
    ensures
        r == checksum_of(bytes@),
{
    let r = checksum_range(bytes, 0, bytes.len());
    proof {
        assert(bytes@.subrange(0, bytes@.len() as int) =~= bytes@);
    }
    r
}

/// A structurally valid response frame of the given shape starting at offset
/// `i`: the byte there is an address on the bus, `frame_len` bytes remain, the
/// byte at `i + sum_len` is the wraparound sum of the `sum_len` bytes before
/// it, and (for shapes that demand it) the final frame byte is zero.
pub open spec fn frame_at(
    data: Seq<u8>,
    i: int,
    frame_len: int,
    sum_len: int,
    zero_end: bool,
) -> bool {
    &&& 0 <= i
    &&& i + frame_len <= data.len()
    &&& valid_address_byte(data[i])
    &&& data[i + sum_len] == checksum_of(data.subrange(i, i + sum_len))
    &&& (zero_end ==> data[i + frame_len - 1] == 0)
}

/// The frame at offset `i` is the first valid frame of its shape in the
/// buffer: no earlier offset starts one.
pub open spec fn first_frame_at(
    data: Seq<u8>,
    i: int,
    frame_len: int,
    sum_len: int,
    zero_end: bool,
) -> bool {
    &&& frame_at(data, i, frame_len, sum_len, zero_end)
    &&& forall|j: int| 0 <= j < i ==> !frame_at(data, j, frame_len, sum_len, zero_end)
}

/// Scans offsets in increasing order and returns the first offset at which a
/// structurally valid frame of the given shape starts, tolerating arbitrary
/// leading noise; `None` when no offset qualifies.
pub fn find_frame(data: &[u8], frame_len: usize, sum_len: usize, zero_end: bool) -> (r: Option<
    usize,
>)
    requires
        0 < sum_len < frame_len,
    ensures
        match r {
            Some(i) => {
                &&& i + frame_len <= data@.len()
                &&& i + frame_len <= usize::MAX
                &&& frame_at(data@, i as int, frame_len as int, sum_len as int, zero_end)
                &&& forall|j: int|
                    0 <= j < i ==> !frame_at(data@, j, frame_len as int, sum_len as int, zero_end)
            },
            None => forall|j: int| !frame_at(data@, j, frame_len as int, sum_len as int, zero_end),
        },
{
    let mut idx: usize = 0;
    while idx < data.len()
        invariant
            0 < sum_len < frame_len,
            idx <= data@.len(),
            forall|j: int|
                0 <= j < idx ==> !frame_at(data@, j, frame_len as int, sum_len as int, zero_end),
        decreases data@.len() - idx,
    {
        if is_valid_address(data[idx]) && data.len() - idx >= frame_len {
            let sum = checksum_range(data, idx, idx + sum_len);
            let checksum_ok = data[idx + sum_len] == sum;
            let tail_ok = !zero_end || data[idx + frame_len - 1] == 0;
            if checksum_ok && tail_ok {
                return Some(idx);
            }
            assert(!frame_at(data@, idx as int, frame_len as int, sum_len as int, zero_end));
        } else {
            assert(!frame_at(data@, idx as int, frame_len as int, sum_len as int, zero_end));
        }
        idx += 1;
    }
    None
}

/// Law: bytes outside the address range in front of a buffer never change
/// which frames the buffer holds.  A frame starts in the combined buffer
/// exactly where one starts in the bare buffer, shifted by the prefix length,
/// and carries the same bytes; so every parser decodes the same value with or
/// without such a prefix.
pub proof fn lemma_unsynced_prefix(
    noise: Seq<u8>,
    data: Seq<u8>,
    frame_len: int,
    sum_len: int,
    zero_end: bool,
)
    requires
        0 < sum_len < frame_len,
        forall|k: int| 0 <= k < noise.len() ==> !valid_address_byte(#[trigger] noise[k]),
    ensures
        forall|i: int|
            #[trigger] frame_at(noise + data, i, frame_len, sum_len, zero_end) <==> (noise.len()
                <= i && frame_at(data, i - noise.len(), frame_len, sum_len, zero_end)),
        forall|i: int|
            #[trigger] frame_at(noise + data, i, frame_len, sum_len, zero_end) ==> (noise
                + data).subrange(i, i + frame_len) == data.subrange(
                i - noise.len(),
                i - noise.len() + frame_len,
            ),
{
    let n = noise.len() as int;
    let joined = noise + data;
    assert forall|i: int|
        #[trigger] frame_at(joined, i, frame_len, sum_len, zero_end) <==> (n <= i && frame_at(
            data,
            i - n,
            frame_len,
            sum_len,
            zero_end,
        )) by {
        if 0 <= i && i + frame_len <= joined.len() {
            if i < n {
                assert(joined[i] == noise[i]);
                assert(!valid_address_byte(joined[i]));
            } else {
                assert(joined.subrange(i, i + sum_len) =~= data.subrange(
                    i - n,
                    i - n + sum_len,
                ));
            }
        }
        if n <= i && frame_at(data, i - n, frame_len, sum_len, zero_end) {
            assert(joined.subrange(i, i + sum_len) =~= data.subrange(i - n, i - n + sum_len));
        }
    }
    assert forall|i: int|
        #[trigger] frame_at(joined, i, frame_len, sum_len, zero_end) implies joined.subrange(
        i,
        i + frame_len,
    ) == data.subrange(i - n, i - n + frame_len) by {
        assert(joined.subrange(i, i + frame_len) =~= data.subrange(i - n, i - n + frame_len));
    }
}

/// Law: corrupting the checksum byte of a buffer that is exactly one valid
/// frame leaves a buffer with no valid frame at all, however well-formed the
/// rest of the frame still is.
pub proof fn lemma_corrupt_checksum(
    data: Seq<u8>,
    frame_len: int,
    sum_len: int,
    zero_end: bool,
    bad: u8,
)
    requires
        0 < sum_len < frame_len,
        data.len() == frame_len,
        frame_at(data, 0, frame_len, sum_len, zero_end),
        bad != data[sum_len],
    ensures
        forall|i: int| !frame_at(data.update(sum_len, bad), i, frame_len, sum_len, zero_end),
{
    let corrupt = data.update(sum_len, bad);
    assert forall|i: int| !frame_at(corrupt, i, frame_len, sum_len, zero_end) by {
        if 0 <= i && i + frame_len <= corrupt.len() {
            assert(i == 0);
            assert(corrupt.subrange(0, sum_len) =~= data.subrange(0, sum_len));
            assert(corrupt[sum_len] != checksum_of(corrupt.subrange(0, sum_len)));
        }
    }
}

/// Flipping any single bit of a byte changes it, so a single bit error in the
/// checksum byte falls under `lemma_corrupt_checksum`.
pub proof fn lemma_bit_flip_changes_byte(b: u8, k: u8)
    requires
        k < 8,
    ensures
        b ^ (1u8 << k) != b,
{
    assert(b ^ (1u8 << k) != b) by (bit_vector)
        requires
            k < 8,
    ;
}

} // verus!
