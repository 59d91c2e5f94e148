//! A byte buffer of 64-bit numbers in variable-length quantity encoding, for
//! keeping a large sparse set compactly.
//!
//! A number is cut into groups of seven bits, lowest group first, one group
//! per byte. The highest bit of a byte is set in the last byte of a number
//! and clear in all bytes before it.

use vlq_rust::{ReadVlqExt, WriteVlqExt};
use vstd::arithmetic::power2::*;
use vstd::prelude::*;
use vstd::slice::slice_subrange;

verus! {

/// A number takes at most this many bytes.
pub const MAX_ENCODED_LEN: usize = 10;

/// The bytes of a number: all groups of seven bits but the last with the
/// highest bit clear, lowest group first, then the last group with the
/// highest bit set.
pub open spec fn vlq_bytes(value: u64) -> Seq<u8>
    decreases value,
{
    if value < 0x80 {
        seq![(0x80 + value) as u8]
    } else {
        seq![(value % 0x80) as u8] + vlq_bytes(value / 0x80)
    }
}

/// What reading a number from the start of `bytes` gives when `value` has
/// been gathered so far and `shift` is the weight of the next group: the
/// number, and how many of the bytes belong to it.
///
/// Reading fails where the bytes end before a byte with the highest bit set,
/// and where a group, or the number with it, does not fit into 64 bits. The
/// weight is kept in 64 bits too: from the eleventh byte on it is zero.
pub open spec fn vlq_value_from(bytes: Seq<u8>, shift: nat, value: nat) -> Option<(u64, nat)>
    decreases bytes.len(),
{
    if bytes.len() == 0 {
        None
    } else {
        let group = (bytes[0] % 0x80) as nat * shift;
        if group > u64::MAX || value + group > u64::MAX {
            None
        } else if bytes[0] >= 0x80 {
            Some(((value + group) as u64, 1nat))
        } else {
            match vlq_value_from(
                bytes.drop_first(),
                (shift * 0x80) % 0x1_0000_0000_0000_0000,
                value + group,
            ) {
                Some((number, used)) => Some((number, used + 1)),
                None => None,
            }
        }
    }
}

/// The number that `bytes` starts with and how many of the bytes belong to
/// it, if it starts with a number.
pub open spec fn vlq_value(bytes: Seq<u8>) -> Option<(u64, nat)> {
    vlq_value_from(bytes, 1, 0)
}

/// `bytes` with `patch` written over it from index `at` on, growing where
/// `patch` reaches beyond its end.
pub open spec fn overwritten(bytes: Seq<u8>, at: int, patch: Seq<u8>) -> Seq<u8> {
    bytes.subrange(0, at) + patch + if at + patch.len() < bytes.len() {
        bytes.subrange(at + patch.len(), bytes.len() as int)
    } else {
        Seq::<u8>::empty()
    }
}

/// A number below `2^(7 k)` takes at most `k` bytes.
proof fn lemma_vlq_bytes_len(value: u64, groups: nat)
    requires
        groups >= 1,
        (value as nat) < pow2(7 * groups),
    ensures
        1 <= vlq_bytes(value).len() <= groups,
    decreases value,
{
    lemma2_to64();
    if value >= 0x80 {
        if groups == 1 {
            assert(false);
        }
        lemma_pow2_adds(7, (7 * (groups - 1)) as nat);
        assert(pow2(7 * groups) == 0x80 * pow2((7 * (groups - 1)) as nat));
        lemma_vlq_bytes_len(value / 0x80, (groups - 1) as nat);
    }
}

/// Every number takes between one and ten bytes.
pub proof fn lemma_vlq_bytes_short(value: u64)
    ensures
        1 <= vlq_bytes(value).len() <= MAX_ENCODED_LEN,
{
    lemma2_to64();
    lemma_pow2_strictly_increases(64, 70);
    lemma_vlq_bytes_len(value, 10);
}

/// Calls `WriteVlqExt::write_vlq` of `vlq_rust` on an empty `Vec<u8>`, to which
/// writing does not fail. The bytes that it appended are those of the
/// encoding: the seven-bit groups of the number from the lowest on, the last
/// one marked by its highest bit.
#[verifier::external_body]
fn vlq_encode(value: u64) -> (bytes: Vec<u8>)
    ensures
        bytes@ == vlq_bytes(value),
{
    let mut bytes: Vec<u8> = Vec::new();
    let _ = bytes.write_vlq(value);
    bytes
}

/// Calls `ReadVlqExt::read_vlq` of `vlq_rust` for a `u64` on a cursor at the
/// start of `bytes`. It reads byte by byte up to the first byte with the
/// highest bit set, adding each group of seven bits with its weight, and
/// fails where the bytes run out or the number outgrows 64 bits. On success
/// the number comes back with the position of the cursor, which is the
/// number of bytes read.
#[verifier::external_body]
fn vlq_decode(bytes: &[u8]) -> (read: Option<(u64, usize)>)
    ensures
        match read {
            Some((value, used)) => vlq_value(bytes@) == Some((value, used as nat)),
            None => vlq_value(bytes@) is None,
        },
{
    let mut reader = std::io::Cursor::new(bytes);
    let read: std::io::Result<u64> = reader.read_vlq();
    match read {
        Ok(value) => Some((value, reader.position() as usize)),
        Err(_) => None,
    }
}

/// A number takes at least one byte and no more bytes than there are.
pub proof fn lemma_vlq_value_used(bytes: Seq<u8>, shift: nat, value: nat)
    ensures
        vlq_value_from(bytes, shift, value) matches Some((_, used)) ==> 1 <= used <= bytes.len(),
    decreases bytes.len(),
{
    if bytes.len() > 0 {
        lemma_vlq_value_used(
            bytes.drop_first(),
            (shift * 0x80) % 0x1_0000_0000_0000_0000,
            value + (bytes[0] % 0x80) as nat * shift,
        );
    }
}

/// Reading the bytes of a number with `value` gathered so far and `shift` the
/// weight of the next group adds the number at that weight, as long as the
/// sum fits into 64 bits, and takes exactly the bytes of the number.
proof fn lemma_vlq_value_of_bytes(number: u64, rest: Seq<u8>, shift: nat, value: nat)
    requires
        value + number * shift <= u64::MAX,
    ensures
        vlq_value_from(vlq_bytes(number) + rest, shift, value) == Some(
            ((value + number * shift) as u64, vlq_bytes(number).len()),
        ),
    decreases number,
{
    let bytes = vlq_bytes(number) + rest;
    if number < 0x80 {
        assert(bytes[0] == 0x80 + number);
        assert((bytes[0] % 0x80) as nat == number);
    } else {
        let low = (number % 0x80) as nat;
        let high = (number / 0x80) as nat;
        assert(bytes[0] == low);
        assert(bytes.drop_first() =~= vlq_bytes((number / 0x80) as u64) + rest);
        assert(number == 0x80 * high + low);
        assert(low * shift <= number * shift) by (nonlinear_arith)
            requires
                low <= number,
        ;
        assert(0x80 * shift <= number * shift) by (nonlinear_arith)
            requires
                0x80 <= number,
        ;
        assert(number * shift == low * shift + high * (shift * 0x80)) by (nonlinear_arith)
            requires
                number == 0x80 * high + low,
        ;
        assert((shift * 0x80) % 0x1_0000_0000_0000_0000 == shift * 0x80);
        lemma_vlq_value_of_bytes((number / 0x80) as u64, rest, shift * 0x80, value + low * shift);
    }
}

/// Round trip: what is read from the bytes of a number, whatever follows
/// them, is that number, and exactly its bytes are taken.
pub proof fn lemma_vlq_round_trip(number: u64, rest: Seq<u8>)
    ensures
        vlq_value(vlq_bytes(number) + rest) == Some((number, vlq_bytes(number).len())),
{
    assert(number * 1 == number);
    lemma_vlq_value_of_bytes(number, rest, 1, 0);
}

/// What is written at an index is read from that index: after the bytes of a
/// number have been written over a buffer from `at` on, the number that
/// starts at `at` is the one written.
pub proof fn lemma_written_is_read(bytes: Seq<u8>, at: int, number: u64)
    requires
        0 <= at <= bytes.len(),
    ensures
        vlq_value(overwritten(bytes, at, vlq_bytes(number)).skip(at)) == Some(
            (number, vlq_bytes(number).len()),
        ),
{
    let patch = vlq_bytes(number);
    let rest = if at + patch.len() < bytes.len() {
        bytes.subrange(at + patch.len(), bytes.len() as int)
    } else {
        Seq::<u8>::empty()
    };
    assert(overwritten(bytes, at, patch).skip(at) =~= patch + rest);
    lemma_vlq_round_trip(number, rest);
}

/// What a buffer stands for: its bytes, and the index at which the next
/// number is written or read.
pub ghost struct ByteCursor {
    pub bytes: Seq<u8>,
    pub position: nat,
}

/// A growable buffer of numbers in variable-length encoding with one cursor,
/// at which numbers are both written and read.
pub struct VariableLengthU64Array {
    data: Vec<u8>,
    position: usize,
}

impl View for VariableLengthU64Array {
    type V = ByteCursor;

    closed spec fn view(&self) -> ByteCursor {
        ByteCursor { bytes: self.data@, position: self.position as nat }
    }
}

impl VariableLengthU64Array {
    /// The cursor stands inside the buffer or at its end.
    pub open spec fn wf(&self) -> bool {
        self@.position <= self@.bytes.len()
    }

    /// An empty buffer with its cursor at the start.
    pub fn new() -> (array: Self)
        ensures
            array.wf(),
            array@.bytes == Seq::<u8>::empty(),
            array@.position == 0,
    {
        let data: Vec<u8> = Vec::new();
        Self { data, position: 0 }
    }

    /// A buffer that holds `data`, with its cursor at the start.
    pub fn from_bytes(data: Vec<u8>) -> (array: Self)
        ensures
            array.wf(),
            array@.bytes == data@,
            array@.position == 0,
    {
        Self { data, position: 0 }
    }

    /// The bytes of the buffer.
    pub fn data(&self) -> (data: &Vec<u8>)
        ensures
            data@ == self@.bytes,
    {
        &self.data
    }

    /// The index at which the cursor stands.
    pub fn position(&self) -> (position: usize)
        ensures
            position == self@.position,
    {
        self.position
    }

    /// Writes a number at the cursor, over what stands there and beyond the
    /// end where the buffer is too short, and moves the cursor behind it.
    /// Returns the number of bytes written.
    pub fn write(&mut self, data: u64) -> (written: usize)
        requires
            old(self).wf(),
            old(self)@.position + MAX_ENCODED_LEN <= usize::MAX,
        ensures
            final(self).wf(),
            final(self)@.bytes == overwritten(
                old(self)@.bytes,
                old(self)@.position as int,
                vlq_bytes(data),
            ),
            final(self)@.position == old(self)@.position + vlq_bytes(data).len(),
            written == vlq_bytes(data).len(),
    {
        let encoded = vlq_encode(data);
        proof {
            lemma_vlq_bytes_short(data);
        }
        let prev_cursor_pos = self.position;
        let mut i: usize = 0;
        while i < encoded.len()
            invariant
                i <= encoded.len() <= MAX_ENCODED_LEN,
                prev_cursor_pos + MAX_ENCODED_LEN <= usize::MAX,
                prev_cursor_pos <= old(self).data.len(),
                self.position == prev_cursor_pos,
                self.data@ == overwritten(
                    old(self).data@,
                    prev_cursor_pos as int,
                    encoded@.take(i as int),
                ),
            decreases encoded.len() - i,
        {
            let at = prev_cursor_pos + i;
            if at < self.data.len() {
                self.data[at] = encoded[i];
            } else {
                self.data.push(encoded[i]);
            }
            proof {
                assert(encoded@.take(i + 1) =~= encoded@.take(i as int).push(encoded[i as int]));
                assert(self.data@ =~= overwritten(
                    old(self).data@,
                    prev_cursor_pos as int,
                    encoded@.take(i + 1),
                ));
            }
            i = i + 1;
        }
        proof {
            assert(encoded@.take(i as int) =~= encoded@);
        }
        self.position = prev_cursor_pos + encoded.len();
        encoded.len()
    }

    /// Moves the cursor back to the start, so that what was written can be
    /// read.
    pub fn rewind(&mut self)
        ensures
            final(self)@.bytes == old(self)@.bytes,
            final(self)@.position == 0,
            final(self).wf(),
    {
        self.position = 0;
    }

    /// The bytes from the cursor on.
    pub open spec fn unread(&self) -> Seq<u8> {
        self@.bytes.skip(self@.position as int)
    }

    /// Reads the number at the cursor and moves the cursor behind it. Where no
    /// number starts at the cursor, nothing is read and the cursor stays.
    pub fn try_read(&mut self) -> (read: Option<u64>)
        requires
            old(self).wf(),
        ensures
            final(self).wf(),
            final(self)@.bytes == old(self)@.bytes,
            match read {
                Some(value) => vlq_value(old(self).unread()) == Some(
                    (value, (final(self)@.position - old(self)@.position) as nat),
                ) && final(self)@.position > old(self)@.position,
                None => vlq_value(old(self).unread()) is None && final(self)@.position == old(
                    self,
                )@.position,
            },
    {
        let unread = slice_subrange(self.data.as_slice(), self.position, self.data.len());
        proof {
            assert(unread@ =~= self.unread());
            lemma_vlq_value_used(unread@, 1, 0);
        }
        match vlq_decode(unread) {
            Some((value, used)) => {
                self.position = self.position + used;
                Some(value)
            },
            None => None,
        }
    }

    /// Reads the number at the cursor and moves the cursor behind it.
    pub fn read(&mut self) -> (value: u64)
        requires
            old(self).wf(),
            vlq_value(old(self).unread()) is Some,
        ensures
            final(self).wf(),
            final(self)@.bytes == old(self)@.bytes,
            final(self)@.position > old(self)@.position,
            vlq_value(old(self).unread()) == Some(
                (value, (final(self)@.position - old(self)@.position) as nat),
            ),
    {
        self.try_read().unwrap()
    }
}

} // verus!
