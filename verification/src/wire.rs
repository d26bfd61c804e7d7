//! Byte-level building blocks shared by every driver message: little-endian
//! integers of a given width, packed UTF-16 strings, and in-place patches of
//! a buffer.
use vstd::prelude::*;

verus! {

/// `256^n`.
pub open spec fn pow256(n: nat) -> nat
    decreases n,
{
    if n == 0 {
        1
    } else {
        256 * pow256((n - 1) as nat)
    }
}

/// The `width` low-order bytes of `value`, least significant first.
pub open spec fn le_bytes(value: nat, width: nat) -> Seq<u8>
    decreases width,
{
    if width == 0 {
        Seq::empty()
    } else {
        seq![(value % 256) as u8] + le_bytes(value / 256, (width - 1) as nat)
    }
}

/// The number whose little-endian digits are `bytes`.
pub open spec fn le_value(bytes: Seq<u8>) -> nat
    decreases bytes.len(),
{
    if bytes.len() == 0 {
        0
    } else {
        bytes[0] as nat + 256 * le_value(bytes.skip(1))
    }
}

/// `base` with the bytes of `patch` laid over it from index `at` on.
pub open spec fn overwrite(base: Seq<u8>, at: int, patch: Seq<u8>) -> Seq<u8> {
    Seq::new(
        base.len(),
        |i: int|
            if at <= i < at + patch.len() {
                patch[i - at]
            } else {
                base[i]
            },
    )
}

/// The bytes of a UTF-16 string: two per code unit, low byte first, no
/// terminator.
pub open spec fn units_bytes(units: Seq<u16>) -> Seq<u8> {
    Seq::new(
        2 * units.len(),
        |i: int|
            if i % 2 == 0 {
                (units[i / 2] % 256) as u8
            } else {
                (units[i / 2] / 256) as u8
            },
    )
}

/// The code units packed in `bytes`. An odd trailing byte is the low half of
/// a last unit whose high half is zero.
pub open spec fn bytes_units(bytes: Seq<u8>) -> Seq<u16> {
    Seq::new(
        ((bytes.len() + 1) / 2) as nat,
        |i: int|
            if 2 * i + 1 < bytes.len() {
                (bytes[2 * i] as int + 256 * (bytes[2 * i + 1] as int)) as u16
            } else {
                bytes[2 * i] as u16
            },
    )
}

/// The powers of 256 that bound the fields of a message.
pub proof fn lemma_pow256_values()
    ensures
        pow256(0) == 1,
        pow256(1) == 0x100,
        pow256(2) == 0x1_0000,
        pow256(4) == 0x1_0000_0000,
        pow256(8) == 0x1_0000_0000_0000_0000,
{
    reveal_with_fuel(pow256, 9);
}

/// An encoding is as long as its width.
pub proof fn lemma_le_bytes_len(value: nat, width: nat)
    ensures
        le_bytes(value, width).len() == width,
    decreases width,
{
    if width > 0 {
        lemma_le_bytes_len(value / 256, (width - 1) as nat);
    }
}

/// Decoding undoes encoding for every value that fits the width.
pub proof fn lemma_le_value_of_bytes(value: nat, width: nat)
    requires
        value < pow256(width),
    ensures
        le_value(le_bytes(value, width)) == value,
    decreases width,
{
    if width > 0 {
        let rest = le_bytes(value / 256, (width - 1) as nat);
        let all = le_bytes(value, width);
        lemma_le_bytes_len(value, width);
        lemma_le_value_of_bytes(value / 256, (width - 1) as nat);
        assert(all.skip(1) =~= rest);
    }
}

/// Encoding undoes decoding, and a decoded value fits the width it came from.
pub proof fn lemma_le_bytes_of_value(bytes: Seq<u8>)
    ensures
        le_value(bytes) < pow256(bytes.len()),
        le_bytes(le_value(bytes), bytes.len()) == bytes,
    decreases bytes.len(),
{
    if bytes.len() > 0 {
        let rest = bytes.skip(1);
        lemma_le_bytes_of_value(rest);
        let v = le_value(bytes);
        assert(v % 256 == bytes[0] as nat);
        assert(v / 256 == le_value(rest));
        assert(le_bytes(v, bytes.len()) =~= bytes);
    }
}

/// Widening an encoding pads it with zero bytes.
pub proof fn lemma_le_bytes_widen(value: nat, width: nat, extra: nat)
    requires
        value < pow256(width),
    ensures
        le_bytes(value, width + extra) == le_bytes(value, width) + Seq::new(extra, |i: int| 0u8),
    decreases width,
{
    let zeros = Seq::new(extra, |i: int| 0u8);
    if width == 0 {
        lemma_le_bytes_zero(extra);
        assert(le_bytes(value, width) + zeros =~= zeros);
    } else {
        lemma_le_bytes_widen(value / 256, (width - 1) as nat, extra);
        assert(le_bytes(value, width + extra) =~= le_bytes(value, width) + zeros);
    }
}

/// Zero encodes as zero bytes.
pub proof fn lemma_le_bytes_zero(width: nat)
    ensures
        le_bytes(0, width) == Seq::new(width, |i: int| 0u8),
    decreases width,
{
    if width > 0 {
        lemma_le_bytes_zero((width - 1) as nat);
        lemma_le_bytes_len(0, width);
    }
    assert(le_bytes(0, width) =~= Seq::new(width, |i: int| 0u8));
}

/// Unpacking a packed string gives the string back.
pub proof fn lemma_units_round_trip(units: Seq<u16>)
    ensures
        bytes_units(units_bytes(units)) == units,
{
    let bytes = units_bytes(units);
    assert forall|i: int| 0 <= i < units.len() implies bytes_units(bytes)[i] == units[i] by {
        let u = units[i] as int;
        assert(bytes[2 * i] == (u % 256) as u8);
        assert(bytes[2 * i + 1] == (u / 256) as u8);
        assert(u == u % 256 + 256 * (u / 256));
    }
    assert(bytes_units(bytes) =~= units);
}

/// Two patches, the second right behind the first, are one patch.
pub proof fn lemma_overwrite_twice(base: Seq<u8>, at: int, first: Seq<u8>, second: Seq<u8>)
    requires
        0 <= at,
        at + first.len() + second.len() <= base.len(),
    ensures
        overwrite(overwrite(base, at, first), at + first.len(), second) == overwrite(
            base,
            at,
            first + second,
        ),
{
    assert(overwrite(overwrite(base, at, first), at + first.len(), second) =~= overwrite(
        base,
        at,
        first + second,
    ));
}

/// An entry and its string, written behind the entries and the strings
/// that a buffer holds already, extend both.
pub proof fn lemma_entry_and_string_written(
    before: Seq<u8>,
    entry_at: int,
    entry: Seq<u8>,
    strings_at: int,
    string_at: int,
    string: Seq<u8>,
)
    requires
        0 <= entry_at,
        entry_at + entry.len() <= strings_at <= string_at,
        string_at + string.len() <= before.len(),
    ensures
        ({
            let after = overwrite(overwrite(before, entry_at, entry), string_at, string);
            &&& after.len() == before.len()
            &&& after.subrange(0, entry_at + entry.len()) == before.subrange(0, entry_at) + entry
            &&& after.subrange(strings_at, string_at + string.len()) == before.subrange(
                strings_at,
                string_at,
            ) + string
        }),
{
    let after = overwrite(overwrite(before, entry_at, entry), string_at, string);
    assert(after.subrange(0, entry_at + entry.len()) =~= before.subrange(0, entry_at) + entry);
    assert(after.subrange(strings_at, string_at + string.len()) =~= before.subrange(
        strings_at,
        string_at,
    ) + string);
}

/// Total length in bytes of the first `n` of `strings`, packed.
pub open spec fn packed_len(strings: Seq<Seq<u16>>, n: int) -> nat
    decreases n,
{
    if n <= 0 {
        0
    } else {
        packed_len(strings, n - 1) + 2 * strings[n - 1].len()
    }
}

/// The first `n` of `strings`, packed one behind the other.
pub open spec fn packed_strings(strings: Seq<Seq<u16>>, n: int) -> Seq<u8>
    decreases n,
{
    if n <= 0 {
        Seq::empty()
    } else {
        packed_strings(strings, n - 1) + units_bytes(strings[n - 1])
    }
}

/// Packed strings take the sum of their lengths.
pub proof fn lemma_packed_strings_len(strings: Seq<Seq<u16>>, n: int)
    ensures
        packed_strings(strings, n).len() == packed_len(strings, n),
    decreases n,
{
    if n > 0 {
        lemma_packed_strings_len(strings, n - 1);
    }
}

/// More strings take no less room.
pub proof fn lemma_packed_len_monotone(strings: Seq<Seq<u16>>, m: int, n: int)
    requires
        m <= n,
    ensures
        packed_len(strings, m) <= packed_len(strings, n),
    decreases n,
{
    if m < n && n > 0 {
        lemma_packed_len_monotone(strings, m, n - 1);
    }
}

/// The string that starts at the offset of the `i`-th and has its length is
/// the `i`-th.
pub proof fn lemma_packed_string_at(strings: Seq<Seq<u16>>, n: int, i: int)
    requires
        0 <= i < n,
    ensures
        packed_len(strings, i) + 2 * strings[i].len() <= packed_len(strings, n),
        packed_strings(strings, n).subrange(
            packed_len(strings, i) as int,
            (packed_len(strings, i) + 2 * strings[i].len()) as int,
        ) == units_bytes(strings[i]),
    decreases n,
{
    lemma_packed_strings_len(strings, n - 1);
    lemma_packed_strings_len(strings, n);
    if i == n - 1 {
        assert(packed_strings(strings, n).subrange(
            packed_len(strings, i) as int,
            (packed_len(strings, i) + 2 * strings[i].len()) as int,
        ) =~= units_bytes(strings[i]));
    } else {
        lemma_packed_string_at(strings, n - 1, i);
        assert(packed_strings(strings, n).subrange(
            packed_len(strings, i) as int,
            (packed_len(strings, i) + 2 * strings[i].len()) as int,
        ) =~= packed_strings(strings, n - 1).subrange(
            packed_len(strings, i) as int,
            (packed_len(strings, i) + 2 * strings[i].len()) as int,
        ));
    }
}

/// The signed number that four little-endian bytes stand for.
pub open spec fn signed32(raw: nat) -> i32 {
    if raw < 0x8000_0000 {
        raw as i32
    } else {
        (raw - 0x1_0000_0000) as i32
    }
}

/// The unsigned number that stands for a signed one in four bytes.
pub open spec fn unsigned32(value: i32) -> nat {
    if value >= 0 {
        value as nat
    } else {
        (value + 0x1_0000_0000) as nat
    }
}

/// The signed number that shares its thirty-two bits with `raw`.
#[verifier::when_used_as_spec(spec_to_signed32)]
pub fn to_signed32(raw: u32) -> (value: i32)
    ensures
        value == signed32(raw as nat),
        unsigned32(value) == raw,
{
    if raw < 0x8000_0000 {
        raw as i32
    } else {
        (raw as i64 - 0x1_0000_0000) as i32
    }
}

/// The signed number that shares its thirty-two bits with `raw`.
pub open spec fn spec_to_signed32(raw: u32) -> i32 {
    signed32(raw as nat)
}

/// The unsigned number that shares its thirty-two bits with `value`.
pub fn to_unsigned32(value: i32) -> (raw: u32)
    ensures
        raw == unsigned32(value),
        signed32(raw as nat) == value,
{
    if value >= 0 {
        value as u32
    } else {
        (value as i64 + 0x1_0000_0000) as u32
    }
}

/// Number of bytes in a machine word: the width of every `usize` field of a
/// driver message.
pub open spec fn word() -> nat {
    (usize::BITS / 8) as nat
}

/// Number of bytes in a machine word.
pub fn word_size() -> (w: usize)
    ensures
        w == word(),
        w == 4 || w == 8,
{
    core::mem::size_of::<usize>()
}

/// Writes the `width` low-order bytes of `value` into `buffer` at
/// `offset`, least significant first.
pub fn put_le(buffer: &mut Vec<u8>, offset: usize, value: u128, width: usize)
    requires
        offset + width <= old(buffer)@.len(),
    ensures
        final(buffer)@ == overwrite(old(buffer)@, offset as int, le_bytes(value as nat, width as nat)),
{
    let mut rest: u128 = value;
    let mut i: usize = 0;
    let size: usize = buffer.len();
    while i < width
        invariant
            i <= width,
            offset + width <= buffer@.len(),
            buffer@.len() == size,
            buffer@.len() == old(buffer)@.len(),
            buffer@.subrange(offset as int, offset + i) + le_bytes(rest as nat, (width - i) as nat)
                == le_bytes(value as nat, width as nat),
            forall|k: int|
                0 <= k < buffer@.len() && !(offset <= k < offset + i) ==> buffer@[k] == old(
                    buffer,
                )@[k],
        decreases width - i,
    {
        let ghost before = buffer@;
        let ghost tail = le_bytes(rest as nat, (width - i) as nat);
        buffer[offset + i] = (rest % 256) as u8;
        proof {
            let next = le_bytes((rest / 256) as nat, (width - i - 1) as nat);
            assert(tail == seq![(rest % 256) as u8] + next);
            assert(buffer@.subrange(offset as int, offset + i + 1) =~= before.subrange(
                offset as int,
                offset + i,
            ) + seq![(rest % 256) as u8]);
            assert(buffer@.subrange(offset as int, offset + i + 1) + next =~= before.subrange(
                offset as int,
                offset + i,
            ) + tail);
        }
        rest = rest / 256;
        i += 1;
    }
    proof {
        let patch = le_bytes(value as nat, width as nat);
        lemma_le_bytes_len(value as nat, width as nat);
        assert(le_bytes(rest as nat, 0) =~= Seq::<u8>::empty());
        assert(buffer@.subrange(offset as int, offset + width) =~= patch);
        assert forall|k: int| 0 <= k < buffer@.len() implies buffer@[k] == overwrite(
            old(buffer)@,
            offset as int,
            patch,
        )[k] by {
            if offset <= k < offset + width {
                assert(buffer@[k] == buffer@.subrange(offset as int, offset + width)[k - offset]);
            }
        }
        assert(buffer@ =~= overwrite(old(buffer)@, offset as int, patch));
    }
}

/// Reads the little-endian integer that occupies `width` bytes of `buffer`
/// from `offset` on.
pub fn get_le(buffer: &[u8], offset: usize, width: usize) -> (value: u64)
    requires
        width <= 8,
        offset + width <= buffer@.len(),
    ensures
        value == le_value(buffer@.subrange(offset as int, offset + width)),
        value < pow256(width as nat),
{
    let mut value: u64 = 0;
    let mut i: usize = width;
    let size: usize = buffer.len();
    let ghost field = buffer@.subrange(offset as int, offset + width);
    proof {
        assert(field.skip(width as int) =~= Seq::<u8>::empty());
    }
    while i > 0
        invariant
            i <= width <= 8,
            offset + width <= buffer@.len(),
            buffer@.len() == size,
            field == buffer@.subrange(offset as int, offset + width),
            value == le_value(field.skip(i as int)),
        decreases i,
    {
        i -= 1;
        proof {
            let here = field.skip(i as int);
            assert(here.skip(1) =~= field.skip(i + 1));
            assert(here[0] == buffer@[offset + i]);
            lemma_le_bytes_of_value(here);
            lemma_le_bytes_of_value(field.skip(i + 1));
            lemma_pow256_monotone(here.len(), 8);
            lemma_pow256_values();
        }
        value = value * 256 + buffer[offset + i] as u64;
    }
    proof {
        assert(field.skip(0) =~= field);
        lemma_le_bytes_of_value(field);
    }
    value
}

/// Appends the `width` low-order bytes of `value` to `buffer`, least
/// significant first.
pub fn append_le(buffer: &mut Vec<u8>, value: u128, width: usize)
    ensures
        final(buffer)@ == old(buffer)@ + le_bytes(value as nat, width as nat),
{
    let mut rest: u128 = value;
    let mut i: usize = 0;
    proof {
        assert(buffer@ + le_bytes(value as nat, width as nat) =~= old(buffer)@ + le_bytes(
            value as nat,
            width as nat,
        ));
    }
    while i < width
        invariant
            i <= width,
            buffer@ + le_bytes(rest as nat, (width - i) as nat) == old(buffer)@ + le_bytes(
                value as nat,
                width as nat,
            ),
        decreases width - i,
    {
        let ghost before = buffer@;
        let ghost tail = le_bytes(rest as nat, (width - i) as nat);
        buffer.push((rest % 256) as u8);
        proof {
            let next = le_bytes((rest / 256) as nat, (width - i - 1) as nat);
            assert(tail == seq![(rest % 256) as u8] + next);
            assert(buffer@ + next =~= before + tail);
        }
        rest = rest / 256;
        i += 1;
    }
    proof {
        assert(buffer@ + le_bytes(rest as nat, 0) =~= buffer@);
    }
}

/// The `width` low-order bytes of `value`, most significant first.
pub open spec fn be_bytes(value: nat, width: nat) -> Seq<u8> {
    Seq::new(width, |i: int| le_bytes(value, width)[width - 1 - i])
}

/// Appends the `width` low-order bytes of `value` to `buffer`, most
/// significant first.
pub fn append_be(buffer: &mut Vec<u8>, value: u128, width: usize)
    ensures
        final(buffer)@ == old(buffer)@ + be_bytes(value as nat, width as nat),
{
    let mut digits: Vec<u8> = Vec::new();
    append_le(&mut digits, value, width);
    proof {
        lemma_le_bytes_len(value as nat, width as nat);
        assert(digits@ =~= le_bytes(value as nat, width as nat));
    }
    let mut i: usize = width;
    while i > 0
        invariant
            i <= width,
            digits@ == le_bytes(value as nat, width as nat),
            digits@.len() == width,
            buffer@.len() == old(buffer)@.len() + (width - i),
            forall|k: int| 0 <= k < old(buffer)@.len() ==> buffer@[k] == old(buffer)@[k],
            forall|k: int|
                old(buffer)@.len() <= k < buffer@.len() ==> #[trigger] buffer@[k] == digits@[width
                    - 1 - (k - old(buffer)@.len())],
        decreases i,
    {
        i -= 1;
        buffer.push(digits[i]);
    }
    proof {
        assert(buffer@ =~= old(buffer)@ + be_bytes(value as nat, width as nat));
    }
}

/// Appends a string to `buffer`: two bytes per code unit, low byte first.
pub fn append_units(buffer: &mut Vec<u8>, string: &[u16])
    ensures
        final(buffer)@ == old(buffer)@ + units_bytes(string@),
{
    let mut i: usize = 0;
    while i < string.len()
        invariant
            i <= string@.len(),
            buffer@.len() == old(buffer)@.len() + 2 * i,
            forall|k: int| 0 <= k < old(buffer)@.len() ==> buffer@[k] == old(buffer)@[k],
            forall|k: int|
                0 <= k < 2 * i ==> buffer@[old(buffer)@.len() + k] == units_bytes(string@)[k],
        decreases string@.len() - i,
    {
        let unit: u16 = string[i];
        buffer.push((unit % 256) as u8);
        buffer.push((unit / 256) as u8);
        i += 1;
    }
    proof {
        assert(buffer@ =~= old(buffer)@ + units_bytes(string@));
    }
}

/// A larger exponent gives no smaller power.
pub proof fn lemma_pow256_monotone(small: nat, large: nat)
    requires
        small <= large,
    ensures
        pow256(small) <= pow256(large),
    decreases large,
{
    if small < large {
        lemma_pow256_monotone(small, (large - 1) as nat);
    }
}

/// Inserts a string into `buffer` at a given `byte_offset`: two bytes per
/// code unit, low byte first.
pub fn write_string_to_buffer(buffer: &mut Vec<u8>, byte_offset: usize, string: &[u16])
    requires
        byte_offset + 2 * string@.len() <= old(buffer)@.len(),
    ensures
        final(buffer)@ == overwrite(old(buffer)@, byte_offset as int, units_bytes(string@)),
{
    let mut i: usize = 0;
    let size: usize = buffer.len();
    while i < string.len()
        invariant
            i <= string@.len(),
            byte_offset + 2 * string@.len() <= buffer@.len(),
            buffer@.len() == size,
            buffer@.len() == old(buffer)@.len(),
            forall|k: int|
                0 <= k < buffer@.len() ==> buffer@[k] == if byte_offset <= k < byte_offset + 2 * i {
                    units_bytes(string@)[k - byte_offset]
                } else {
                    old(buffer)@[k]
                },
        decreases string@.len() - i,
    {
        let unit: u16 = string[i];
        buffer[byte_offset + 2 * i] = (unit % 256) as u8;
        buffer[byte_offset + 2 * i + 1] = (unit / 256) as u8;
        i += 1;
    }
    proof {
        assert(buffer@ =~= overwrite(old(buffer)@, byte_offset as int, units_bytes(string@)));
    }
}

/// Unpacks the UTF-16 code units stored in `buffer`, low byte first.
pub fn buffer_to_units(buffer: &[u8]) -> (units: Vec<u16>)
    ensures
        units@ == bytes_units(buffer@),
{
    let mut units: Vec<u16> = Vec::new();
    let size: usize = buffer.len();
    let count: usize = size / 2 + size % 2;
    let mut i: usize = 0;
    while i < count
        invariant
            i <= count,
            count == (buffer@.len() + 1) / 2,
            buffer@.len() == size,
            units@.len() == i,
            forall|k: int| 0 <= k < i ==> units@[k] == bytes_units(buffer@)[k],
        decreases count - i,
    {
        let low: u16 = buffer[2 * i] as u16;
        let unit: u16 = if 2 * i + 1 < buffer.len() {
            low + 256 * (buffer[2 * i + 1] as u16)
        } else {
            low
        };
        units.push(unit);
        i += 1;
    }
    proof {
        assert(units@ =~= bytes_units(buffer@));
    }
    units
}

} // verus!
