//! The exclusion configuration: the images whose traffic goes around the
//! tunnel, laid out for the driver.
//!
//! The buffer holds a header, one entry per image, and the images' device
//! paths as packed UTF-16. An entry names its path by the offset into the
//! string region and the length, both in bytes.
use crate::wire::{
    le_bytes, le_value, lemma_entry_and_string_written, lemma_le_bytes_len,
    lemma_le_bytes_widen, lemma_le_value_of_bytes, lemma_overwrite_twice,
    lemma_packed_len_monotone, lemma_packed_string_at, lemma_packed_strings_len,
    lemma_pow256_values, overwrite, packed_len, packed_strings, pow256, put_le, units_bytes,
    word, word_size, write_string_to_buffer,
};
use vstd::prelude::*;

verus! {

/// The device paths held by a list of paths.
pub open spec fn paths_of(paths: Seq<Vec<u16>>) -> Seq<Seq<u16>> {
    Seq::new(paths.len(), |i: int| paths[i]@)
}

/// Length of the header: the number of entries and the total length, a word
/// each.
pub open spec fn config_header_len() -> nat {
    2 * word()
}

/// Length of one entry: the offset of the name in a word, and its length in
/// sixteen bits, padded to a word.
pub open spec fn config_entry_len() -> nat {
    2 * word()
}

/// Total length of the configuration buffer for `apps`.
pub open spec fn config_size(apps: Seq<Seq<u16>>) -> nat {
    config_header_len() + config_entry_len() * apps.len() + packed_len(apps, apps.len() as int)
}

/// The length field of an entry for a name of `units` code units: its length
/// in bytes as far as sixteen bits hold it.
pub open spec fn name_length_field(units: nat) -> nat {
    (2 * units) % 0x1_0000
}

/// The entry of the `i`-th application.
pub open spec fn config_entry(apps: Seq<Seq<u16>>, i: int) -> Seq<u8> {
    le_bytes(packed_len(apps, i), word()) + le_bytes(name_length_field(apps[i].len()), word())
}

/// The entries of the first `n` applications.
pub open spec fn config_entries(apps: Seq<Seq<u16>>, n: int) -> Seq<u8>
    decreases n,
{
    if n <= 0 {
        Seq::empty()
    } else {
        config_entries(apps, n - 1) + config_entry(apps, n - 1)
    }
}

/// The header of a buffer with `count` entries and `total` bytes.
pub open spec fn config_header(count: nat, total: nat) -> Seq<u8> {
    le_bytes(count, word()) + le_bytes(total, word())
}

/// The configuration buffer for `apps`: header, entries, names.
pub open spec fn config_bytes(apps: Seq<Seq<u16>>) -> Seq<u8> {
    config_header(apps.len(), config_size(apps)) + config_entries(apps, apps.len() as int)
        + packed_strings(apps, apps.len() as int)
}

/// An entry is the offset of the name in a word, the length of the name in
/// two bytes, and zeros up to the end of the second word, as long as offset
/// and length fit their fields.
pub proof fn lemma_config_entry_layout(apps: Seq<Seq<u16>>, i: int)
    requires
        packed_len(apps, i) < pow256(word()),
    ensures
        config_entry(apps, i) == le_bytes(packed_len(apps, i), word()) + le_bytes(
            name_length_field(apps[i].len()),
            2,
        ) + Seq::new((word() - 2) as nat, |k: int| 0u8),
        le_value(le_bytes(packed_len(apps, i), word())) == packed_len(apps, i),
        le_value(le_bytes(name_length_field(apps[i].len()), 2)) == name_length_field(
            apps[i].len(),
        ),
{
    lemma_pow256_values();
    lemma_le_bytes_widen(name_length_field(apps[i].len()), 2, (word() - 2) as nat);
    lemma_le_value_of_bytes(packed_len(apps, i), word());
    lemma_le_value_of_bytes(name_length_field(apps[i].len()), 2);
    assert(config_entry(apps, i) =~= le_bytes(packed_len(apps, i), word()) + le_bytes(
        name_length_field(apps[i].len()),
        2,
    ) + Seq::new((word() - 2) as nat, |k: int| 0u8));
}

/// The name that an entry points at is the application's path, as long as
/// its length in bytes fits sixteen bits.
pub proof fn lemma_config_entry_names_its_path(apps: Seq<Seq<u16>>, i: int)
    requires
        0 <= i < apps.len(),
        2 * apps[i].len() <= u16::MAX,
    ensures
        name_length_field(apps[i].len()) == 2 * apps[i].len(),
        packed_strings(apps, apps.len() as int).subrange(
            packed_len(apps, i) as int,
            (packed_len(apps, i) + name_length_field(apps[i].len())) as int,
        ) == units_bytes(apps[i]),
{
    lemma_packed_string_at(apps, apps.len() as int, i);
}

/// The entries of `n` applications take `n` times the length of one.
pub proof fn lemma_config_entries_len(apps: Seq<Seq<u16>>, n: int)
    requires
        0 <= n,
    ensures
        config_entries(apps, n).len() == config_entry_len() * n,
    decreases n,
{
    if n > 0 {
        lemma_config_entries_len(apps, n - 1);
        lemma_le_bytes_len(packed_len(apps, n - 1), word());
        lemma_le_bytes_len(name_length_field(apps[n - 1].len()), word());
        assert(config_entry_len() * n == config_entry_len() * (n - 1) + config_entry_len())
            by (nonlinear_arith);
    } else {
        assert(config_entry_len() * 0 == 0);
    }
}

/// The buffer is as long as its header says.
pub proof fn lemma_config_bytes_len(apps: Seq<Seq<u16>>)
    ensures
        config_bytes(apps).len() == config_size(apps),
{
    lemma_config_entries_len(apps, apps.len() as int);
    lemma_packed_strings_len(apps, apps.len() as int);
    lemma_le_bytes_len(apps.len(), word());
    lemma_le_bytes_len(config_size(apps), word());
}

/// The bytes at the place of the `i`-th entry are that entry.
pub proof fn lemma_config_entry_at(apps: Seq<Seq<u16>>, n: int, i: int)
    requires
        0 <= i < n,
    ensures
        config_entry_len() * (i + 1) <= config_entries(apps, n).len(),
        config_entries(apps, n).subrange(config_entry_len() * i, config_entry_len() * (i + 1))
            == config_entry(apps, i),
    decreases n,
{
    let len = config_entry_len() as int;
    lemma_config_entries_len(apps, n - 1);
    lemma_config_entries_len(apps, n);
    lemma_le_bytes_len(packed_len(apps, n - 1), word());
    lemma_le_bytes_len(name_length_field(apps[n - 1].len()), word());
    assert(len * (i + 1) == len * i + len) by (nonlinear_arith);
    assert(len * (i + 1) <= len * n) by (nonlinear_arith)
        requires
            i + 1 <= n,
            len >= 0,
    ;
    if i == n - 1 {
        assert(config_entries(apps, n).subrange(len * i, len * (i + 1)) =~= config_entry(apps, i));
    } else {
        lemma_config_entry_at(apps, n - 1, i);
        assert(len * (i + 1) <= len * (n - 1)) by (nonlinear_arith)
            requires
                i + 1 <= n - 1,
                len >= 0,
        ;
        assert(config_entries(apps, n).subrange(len * i, len * (i + 1)) =~= config_entries(
            apps,
            n - 1,
        ).subrange(len * i, len * (i + 1)));
    }
}

/// Where the names begin in a configuration buffer: behind the header and
/// the entries.
pub open spec fn config_names_start(count: nat) -> nat {
    config_header_len() + config_entry_len() * count
}

/// What a reader of the buffer finds: at the place of the `i`-th entry the
/// offset and the length of a name, and at that offset among the names,
/// with that length, the path of the `i`-th application. This holds for
/// every buffer that fits in memory and every path whose length in bytes
/// fits sixteen bits.
#[verifier::rlimit(30)]
pub proof fn lemma_config_can_be_read_back(apps: Seq<Seq<u16>>, i: int)
    requires
        0 <= i < apps.len(),
        config_size(apps) <= usize::MAX,
        2 * apps[i].len() <= u16::MAX,
    ensures
        ({
            let buffer = config_bytes(apps);
            let at = config_header_len() + config_entry_len() * i;
            let offset = le_value(buffer.subrange(at, at + word()));
            let length = le_value(buffer.subrange(at + word(), at + word() + 2));
            let names = config_names_start(apps.len()) as int;
            &&& offset == packed_len(apps, i)
            &&& length == 2 * apps[i].len()
            &&& names + offset + length <= buffer.len()
            &&& buffer.subrange(names + offset, names + offset + length) == units_bytes(apps[i])
        }),
{
    let w = word() as int;
    let n = apps.len() as int;
    let buffer = config_bytes(apps);
    let entries = config_entries(apps, n);
    let strings = packed_strings(apps, n);
    let at = config_header_len() + config_entry_len() * i;
    let names = config_names_start(apps.len()) as int;
    let offset = packed_len(apps, i);
    let length = name_length_field(apps[i].len());
    lemma_config_bytes_len(apps);
    lemma_config_entries_len(apps, n);
    lemma_packed_strings_len(apps, n);
    lemma_config_entry_at(apps, n, i);
    lemma_packed_string_at(apps, n, i);
    lemma_packed_len_monotone(apps, i, n);
    lemma_pow256_values();
    lemma_config_entry_layout(apps, i);
    lemma_le_bytes_len(apps.len(), word());
    lemma_le_bytes_len(config_size(apps), word());
    lemma_le_bytes_len(offset, word());
    lemma_le_bytes_len(length, 2);
    let entry = config_entry(apps, i);
    assert(config_entry_len() * (i + 1) == config_entry_len() * i + config_entry_len())
        by (nonlinear_arith);
    assert(buffer.subrange(at, at + 2 * w) =~= entries.subrange(
        config_entry_len() * i,
        config_entry_len() * (i + 1),
    ));
    assert(buffer.subrange(at, at + w) =~= entry.subrange(0, w));
    assert(buffer.subrange(at + w, at + w + 2) =~= entry.subrange(w, w + 2));
    assert(entry.subrange(0, w) =~= le_bytes(offset, word()));
    assert(entry.subrange(w, w + 2) =~= le_bytes(length, 2));
    assert(buffer.subrange(names + offset, names + offset + length) =~= strings.subrange(
        offset as int,
        (offset + length) as int,
    ));
}

/// The header of a configuration buffer that fits in memory names the
/// number of its entries and its own length.
pub proof fn lemma_config_header_fields(apps: Seq<Seq<u16>>)
    requires
        config_size(apps) <= usize::MAX,
    ensures
        le_value(config_bytes(apps).subrange(0, word() as int)) == apps.len(),
        le_value(config_bytes(apps).subrange(word() as int, 2 * word() as int)) == config_bytes(
            apps,
        ).len(),
{
    let w = word() as int;
    let buffer = config_bytes(apps);
    lemma_config_bytes_len(apps);
    lemma_pow256_values();
    lemma_le_bytes_len(apps.len(), word());
    lemma_le_bytes_len(config_size(apps), word());
    assert(config_entry_len() * apps.len() >= apps.len()) by (nonlinear_arith)
        requires
            config_entry_len() >= 1,
    ;
    lemma_le_value_of_bytes(apps.len(), word());
    lemma_le_value_of_bytes(config_size(apps), word());
    assert(buffer.subrange(0, w) =~= le_bytes(apps.len(), word()));
    assert(buffer.subrange(w, 2 * w) =~= le_bytes(config_size(apps), word()));
}

/// The total length of the configuration buffer for `apps`, unless it
/// exceeds what a `usize` holds.
pub fn checked_config_size(apps: &Vec<Vec<u16>>) -> (size: Option<usize>)
    ensures
        match size {
            Some(total) => total == config_size(paths_of(apps@)),
            None => config_size(paths_of(apps@)) > usize::MAX,
        },
{
    let w: usize = word_size();
    let count: usize = apps.len();
    let ghost names = paths_of(apps@);
    let mut total: usize = 2 * w;
    let mut i: usize = 0;
    proof {
        assert(config_entry_len() * 0 == 0);
    }
    while i < count
        invariant
            i <= count,
            count == apps@.len(),
            names == paths_of(apps@),
            w == word(),
            total == config_header_len() + config_entry_len() * i + packed_len(names, i as int),
        decreases count - i,
    {
        proof {
            lemma_packed_len_monotone(names, i + 1, count as int);
            assert(names[i as int] == apps@[i as int]@);
            assert(config_entry_len() * (i + 1) == config_entry_len() * i + config_entry_len())
                by (nonlinear_arith);
            assert(config_entry_len() * (i + 1) <= config_entry_len() * count)
                by (nonlinear_arith)
                requires
                    i + 1 <= count,
            ;
        }
        let step: usize = match apps[i].len().checked_mul(2) {
            Some(bytes) => match bytes.checked_add(2 * w) {
                Some(step) => step,
                None => {
                    return None;
                },
            },
            None => {
                return None;
            },
        };
        total = match total.checked_add(step) {
            Some(next) => next,
            None => {
                return None;
            },
        };
        i += 1;
    }
    Some(total)
}

/// Writes the two fields of one entry at `offset`.
fn put_config_entry(buffer: &mut Vec<u8>, offset: usize, name_offset: usize, name_length: usize)
    requires
        offset + 2 * word() <= old(buffer)@.len(),
    ensures
        final(buffer)@ == overwrite(
            old(buffer)@,
            offset as int,
            le_bytes(name_offset as nat, word()) + le_bytes(name_length as nat, word()),
        ),
{
    let w: usize = word_size();
    let size: usize = buffer.len();
    proof {
        lemma_le_bytes_len(name_offset as nat, word());
        lemma_le_bytes_len(name_length as nat, word());
    }
    put_le(buffer, offset, name_offset as u128, w);
    put_le(buffer, offset + w, name_length as u128, w);
    proof {
        lemma_overwrite_twice(
            old(buffer)@,
            offset as int,
            le_bytes(name_offset as nat, word()),
            le_bytes(name_length as nat, word()),
        );
    }
}

/// The entries of more applications take no less room.
pub proof fn lemma_config_entries_grow(apps: Seq<Seq<u16>>, m: int, n: int)
    requires
        0 <= m <= n,
    ensures
        config_entries(apps, m).len() <= config_entries(apps, n).len(),
    decreases n,
{
    if m < n {
        lemma_config_entries_grow(apps, m, n - 1);
    }
}

/// Create a buffer containing a header and one entry per application,
/// followed by the applications' paths.
#[verifier::rlimit(30)]
pub fn make_process_config(apps: &Vec<Vec<u16>>) -> (buffer: Vec<u8>)
    requires
        config_size(paths_of(apps@)) <= usize::MAX,
    ensures
        buffer@ == config_bytes(paths_of(apps@)),
        buffer@.len() == config_size(paths_of(apps@)),
{
    let w: usize = word_size();
    let count: usize = apps.len();
    let ghost names = paths_of(apps@);
    let mut total_string_size: usize = 0;
    let mut i: usize = 0;
    proof {
        lemma_config_entries_len(names, count as int);
    }
    while i < count
        invariant
            i <= count,
            count == apps@.len(),
            names == paths_of(apps@),
            total_string_size == packed_len(names, i as int),
            packed_len(names, count as int) <= usize::MAX,
        decreases count - i,
    {
        proof {
            lemma_packed_len_monotone(names, i + 1, count as int);
            assert(names[i as int] == apps@[i as int]@);
        }
        total_string_size = total_string_size + 2 * apps[i].len();
        i += 1;
    }
    let entries_size: usize = 2 * w * count;
    let strings_start: usize = 2 * w + entries_size;
    let total: usize = strings_start + total_string_size;
    let mut buffer: Vec<u8> = vec![0u8; total];
    put_le(&mut buffer, 0, count as u128, w);
    put_le(&mut buffer, w, total as u128, w);
    let ghost header = config_header(count as nat, total as nat);
    proof {
        lemma_le_bytes_len(count as nat, w as nat);
        lemma_le_bytes_len(total as nat, w as nat);
        assert(buffer@.subrange(0, 2 * w) =~= header + config_entries(names, 0));
        assert(buffer@.subrange(strings_start as int, strings_start as int) =~= packed_strings(
            names,
            0,
        ));
    }
    let mut entry_offset: usize = 2 * w;
    let mut string_offset: usize = 0;
    let mut i: usize = 0;
    while i < count
        invariant
            i <= count,
            count == apps@.len(),
            names == paths_of(apps@),
            w == word(),
            header.len() == 2 * w,
            entry_offset == 2 * w + config_entries(names, i as int).len(),
            strings_start == 2 * w + config_entries(names, count as int).len(),
            total == strings_start + packed_len(names, count as int),
            buffer@.len() == total,
            string_offset == packed_len(names, i as int),
            buffer@.subrange(0, entry_offset as int) == header + config_entries(names, i as int),
            buffer@.subrange(strings_start as int, strings_start + string_offset)
                == packed_strings(names, i as int),
        decreases count - i,
    {
        let app: &Vec<u16> = &apps[i];
        proof {
            lemma_packed_len_monotone(names, i + 1, count as int);
            lemma_config_entries_grow(names, i + 1, count as int);
            lemma_le_bytes_len(packed_len(names, i as int), word());
            lemma_le_bytes_len(name_length_field(app@.len()), word());
            assert(names[i as int] == app@);
        }
        let name_length: usize = (2 * app.len()) % 0x1_0000;
        let ghost before = buffer@;
        put_config_entry(&mut buffer, entry_offset, string_offset, name_length);
        write_string_to_buffer(&mut buffer, strings_start + string_offset, app.as_slice());
        proof {
            let fields = config_entry(names, i as int);
            let packed = units_bytes(app@);
            lemma_entry_and_string_written(
                before,
                entry_offset as int,
                fields,
                strings_start as int,
                strings_start + string_offset,
                packed,
            );
            assert(header + config_entries(names, i as int) + fields =~= header + config_entries(
                names,
                i + 1,
            ));
        }
        entry_offset = entry_offset + 2 * w;
        string_offset = string_offset + 2 * app.len();
        i += 1;
    }
    proof {
        assert(buffer@ =~= buffer@.subrange(0, strings_start as int) + buffer@.subrange(
            strings_start as int,
            total as int,
        ));
        lemma_config_bytes_len(names);
    }
    buffer
}

} // verus!
