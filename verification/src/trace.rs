//! The record that the fault controller writes for each faulting address.
//!
//! A record is one line of ASCII text: the address in lower-case hexadecimal
//! behind the prefix `0x`, a tab, the word `vfa`, and a line feed. It is
//! built in a buffer of fixed size, so that a signal handler can produce it
//! without allocating.

use vstd::prelude::*;
use vstd::slice::slice_subrange;

verus! {

/// The longest record: two bytes of prefix, sixteen digits, five bytes of
/// suffix, and one to spare.
pub const LINE_CAPACITY: usize = 24;

/// The ASCII character for one hexadecimal digit.
pub open spec fn hex_digit(d: int) -> u8
    recommends
        0 <= d < 16,
{
    if d < 10 {
        (48 + d) as u8
    } else {
        (87 + d) as u8
    }
}

/// The hexadecimal digits of `n`, most significant first, without leading
/// zeros; zero is the single digit `0`.
pub open spec fn hex_digits(n: nat) -> Seq<u8>
    decreases n,
{
    if n < 16 {
        seq![hex_digit(n as int)]
    } else {
        hex_digits(n / 16).push(hex_digit((n % 16) as int))
    }
}

/// The text of the record for the faulting address `vfa`.
pub open spec fn address_line_text(vfa: nat) -> Seq<u8> {
    seq![48u8, 120u8] + hex_digits(vfa) + seq![9u8, 118u8, 102u8, 97u8, 10u8]
}

/// One record, held in a fixed buffer.
#[derive(Clone, Copy, Debug)]
pub struct AddressLine {
    bytes: [u8; 24],
    len: usize,
}

impl View for AddressLine {
    type V = Seq<u8>;

    /// The bytes of the record.
    closed spec fn view(&self) -> Seq<u8> {
        self.bytes@.take(self.len as int)
    }
}

impl AddressLine {
    #[verifier::type_invariant]
    spec fn inv(self) -> bool {
        self.len <= 24
    }

    /// The number of bytes in the record.
    pub fn len(&self) -> (n: usize)
        ensures
            n == self@.len(),
    {
        proof {
            use_type_invariant(self);
        }
        self.len
    }

    /// The bytes of the record, ready to be written to the sink.
    pub fn as_bytes(&self) -> (bytes: &[u8])
        ensures
            bytes@ == self@,
    {
        proof {
            use_type_invariant(self);
        }
        slice_subrange(self.bytes.as_slice(), 0, self.len)
    }
}

fn digit_char(d: u64) -> (c: u8)
    requires
        d < 16,
    ensures
        c == hex_digit(d as int),
{
    if d < 10 {
        (48 + d) as u8
    } else {
        (87 + d) as u8
    }
}

/// Builds the record for the faulting address `vfa`.
pub fn address_line(vfa: usize) -> (line: AddressLine)
    ensures
        line@ == address_line_text(vfa as nat),
{
    // The digits are produced from the least significant one, so they are
    // first collected at the right end of a scratch buffer.
    let mut scratch: [u8; 16] = [0u8; 16];
    let mut n: u64 = vfa as u64;
    let mut idx: usize = 16;
    assert(u64::MAX >> 0u64 == u64::MAX) by (bit_vector);
    loop
        invariant_except_break
            1 <= idx <= 16,
            n <= (u64::MAX >> ((4 * (16 - idx)) as u64)),
            hex_digits(vfa as nat) == hex_digits(n as nat) + scratch@.subrange(idx as int, 16),
        ensures
            0 <= idx < 16,
            hex_digits(vfa as nat) == scratch@.subrange(idx as int, 16),
        decreases idx,
    {
        let d: u64 = n % 16;
        let rest: u64 = n / 16;
        let ghost before = scratch@;
        idx = idx - 1;
        scratch[idx] = digit_char(d);
        assert(scratch@.subrange(idx as int, 16) == seq![hex_digit(d as int)] + before.subrange(
            idx + 1,
            16,
        ));
        if rest == 0 {
            break ;
        }
        assert(idx >= 1 && rest <= (u64::MAX >> ((4 * (16 - idx)) as u64))) by {
            let shift: u64 = (4 * (16 - (idx + 1))) as u64;
            assert(n <= (u64::MAX >> shift) && shift <= 60 && shift % 4 == 0 && n / 16 != 0 ==> shift
                < 60 && n / 16 <= (u64::MAX >> ((shift + 4) as u64))) by (bit_vector);
        }
        n = rest;
    }
    let count: usize = 16 - idx;
    let mut bytes: [u8; 24] = [0u8; 24];
    bytes[0] = 48;
    bytes[1] = 120;
    let mut i: usize = 0;
    while i < count
        invariant
            0 <= idx < 16,
            count == 16 - idx,
            i <= count,
            bytes@.take(2) == seq![48u8, 120u8],
            bytes@.subrange(2, 2 + i) == scratch@.subrange(idx as int, idx + i),
        decreases count - i,
    {
        let ghost before = bytes@;
        bytes[2 + i] = scratch[idx + i];
        assert(bytes@.take(2) == before.take(2));
        assert(bytes@.subrange(2, 2 + i + 1) == before.subrange(2, 2 + i).push(
            scratch@[idx + i],
        ));
        assert(scratch@.subrange(idx as int, idx + i + 1) == scratch@.subrange(
            idx as int,
            idx + i,
        ).push(scratch@[idx + i]));
        i = i + 1;
    }
    let ghost head = bytes@;
    let end: usize = 2 + count;
    bytes[end] = 9;
    bytes[end + 1] = 118;
    bytes[end + 2] = 102;
    bytes[end + 3] = 97;
    bytes[end + 4] = 10;
    let line = AddressLine { bytes, len: end + 5 };
    proof {
        let text = address_line_text(vfa as nat);
        assert(line@.len() == text.len());
        assert forall|j: int| 0 <= j < text.len() implies line@[j] == text[j] by {
            if j < 2 {
                assert(head.take(2)[j] == head[j]);
            } else if j < end {
                assert(head.subrange(2, 2 + count)[j - 2] == head[j]);
            }
        }
        assert(line@ =~= text);
    }
    line
}

} // verus!
