//! The process registry: which processes run, who started whom, and from
//! which image, laid out for the driver.
use crate::config::name_length_field;
use crate::error::{IoError, IoErrorKind};
use crate::wire::{
    le_bytes, le_value, lemma_entry_and_string_written, lemma_le_bytes_len,
    lemma_le_bytes_widen, lemma_le_value_of_bytes, lemma_overwrite_twice,
    lemma_packed_len_monotone, lemma_packed_string_at, lemma_packed_strings_len,
    lemma_pow256_values, overwrite, packed_len, packed_strings, pow256, put_le, units_bytes,
    word, word_size, write_string_to_buffer,
};
use std::collections::HashMap;
use vstd::prelude::*;

verus! {

/// One process as the driver is told of it.
#[derive(Clone, Debug, PartialEq, Eq)]
pub struct ProcessInfo {
    pub pid: u32,
    /// The process that started this one, or zero if that is not known.
    pub parent_pid: u32,
    /// When the process was created, in units of 100 ns. Zero if unknown.
    pub creation_time: u64,
    /// Device path of the image, as UTF-16. Empty if unknown.
    pub device_path: Vec<u16>,
}

/// A process as a mathematical value.
pub struct ProcessInfoView {
    pub pid: u32,
    pub parent_pid: u32,
    pub creation_time: u64,
    pub device_path: Seq<u16>,
}

impl View for ProcessInfo {
    type V = ProcessInfoView;

    open spec fn view(&self) -> ProcessInfoView {
        ProcessInfoView {
            pid: self.pid,
            parent_pid: self.parent_pid,
            creation_time: self.creation_time,
            device_path: self.device_path@,
        }
    }
}

/// The processes held by a list.
pub open spec fn infos_of(processes: Seq<ProcessInfo>) -> Seq<ProcessInfoView> {
    Seq::new(processes.len(), |i: int| processes[i]@)
}

/// The image paths of a list of processes.
pub open spec fn image_paths(processes: Seq<ProcessInfoView>) -> Seq<Seq<u16>> {
    Seq::new(processes.len(), |i: int| processes[i].device_path)
}

/// Length of the registry's header: the number of entries and the total
/// length, a word each.
pub open spec fn registry_header_len() -> nat {
    2 * word()
}

/// Length of one entry: the process, its parent and the offset of the image
/// name in a word each, and the name's length in sixteen bits, padded to a
/// word.
pub open spec fn registry_entry_len() -> nat {
    4 * word()
}

/// Total length of the registry buffer for `processes`.
pub open spec fn registry_size(processes: Seq<ProcessInfoView>) -> nat {
    registry_header_len() + registry_entry_len() * processes.len() + packed_len(
        image_paths(processes),
        processes.len() as int,
    )
}

/// Where the entry of the `i`-th process says its image name starts: behind
/// the names before it, or at zero if it has none.
pub open spec fn image_name_offset(processes: Seq<ProcessInfoView>, i: int) -> nat {
    if processes[i].device_path.len() == 0 {
        0
    } else {
        packed_len(image_paths(processes), i)
    }
}

/// The entry of the `i`-th process.
pub open spec fn registry_entry(processes: Seq<ProcessInfoView>, i: int) -> Seq<u8> {
    le_bytes(processes[i].pid as nat, word()) + le_bytes(processes[i].parent_pid as nat, word())
        + le_bytes(image_name_offset(processes, i), word()) + le_bytes(
        name_length_field(processes[i].device_path.len()),
        word(),
    )
}

/// The entries of the first `n` processes.
pub open spec fn registry_entries(processes: Seq<ProcessInfoView>, n: int) -> Seq<u8>
    decreases n,
{
    if n <= 0 {
        Seq::empty()
    } else {
        registry_entries(processes, n - 1) + registry_entry(processes, n - 1)
    }
}

/// The header of a buffer with `count` entries and `total` bytes.
pub open spec fn registry_header(count: nat, total: nat) -> Seq<u8> {
    le_bytes(count, word()) + le_bytes(total, word())
}

/// The registry buffer for `processes`: header, entries, image names.
pub open spec fn registry_bytes(processes: Seq<ProcessInfoView>) -> Seq<u8> {
    registry_header(processes.len(), registry_size(processes)) + registry_entries(
        processes,
        processes.len() as int,
    ) + packed_strings(image_paths(processes), processes.len() as int)
}

/// Every entry takes four words.
pub proof fn lemma_registry_entry_len(processes: Seq<ProcessInfoView>, i: int)
    ensures
        registry_entry(processes, i).len() == registry_entry_len(),
{
    lemma_le_bytes_len(processes[i].pid as nat, word());
    lemma_le_bytes_len(processes[i].parent_pid as nat, word());
    lemma_le_bytes_len(image_name_offset(processes, i), word());
    lemma_le_bytes_len(name_length_field(processes[i].device_path.len()), word());
}

/// The entries of `n` processes take `n` times the length of one.
pub proof fn lemma_registry_entries_len(processes: Seq<ProcessInfoView>, n: int)
    requires
        0 <= n,
    ensures
        registry_entries(processes, n).len() == registry_entry_len() * n,
    decreases n,
{
    if n > 0 {
        lemma_registry_entries_len(processes, n - 1);
        lemma_registry_entry_len(processes, n - 1);
        assert(registry_entry_len() * n == registry_entry_len() * (n - 1) + registry_entry_len())
            by (nonlinear_arith);
    } else {
        assert(registry_entry_len() * 0 == 0);
    }
}

/// The bytes at the place of the `i`-th entry are that entry.
pub proof fn lemma_registry_entry_at(processes: Seq<ProcessInfoView>, n: int, i: int)
    requires
        0 <= i < n,
    ensures
        registry_entry_len() * (i + 1) <= registry_entries(processes, n).len(),
        registry_entries(processes, n).subrange(
            registry_entry_len() * i,
            registry_entry_len() * (i + 1),
        ) == registry_entry(processes, i),
    decreases n,
{
    let len = registry_entry_len() as int;
    lemma_registry_entries_len(processes, n - 1);
    lemma_registry_entries_len(processes, n);
    lemma_registry_entry_len(processes, n - 1);
    assert(len * (i + 1) == len * i + len) by (nonlinear_arith);
    assert(len * (i + 1) <= len * n) by (nonlinear_arith)
        requires
            i + 1 <= n,
            len >= 0,
    ;
    if i == n - 1 {
        assert(registry_entries(processes, n).subrange(len * i, len * (i + 1))
            =~= registry_entry(processes, i));
    } else {
        lemma_registry_entry_at(processes, n - 1, i);
        assert(len * (i + 1) <= len * (n - 1)) by (nonlinear_arith)
            requires
                i + 1 <= n - 1,
                len >= 0,
        ;
        assert(registry_entries(processes, n).subrange(len * i, len * (i + 1))
            =~= registry_entries(processes, n - 1).subrange(len * i, len * (i + 1)));
    }
}

/// The total length of the registry buffer for `processes`, unless it
/// exceeds what a `usize` holds.
pub fn checked_registry_size(processes: &Vec<ProcessInfo>) -> (size: Option<usize>)
    ensures
        match size {
            Some(total) => total == registry_size(infos_of(processes@)),
            None => registry_size(infos_of(processes@)) > usize::MAX,
        },
{
    let w: usize = word_size();
    let count: usize = processes.len();
    let ghost infos = infos_of(processes@);
    let ghost names = image_paths(infos);
    let mut total: usize = 2 * w;
    let mut i: usize = 0;
    proof {
        assert(registry_entry_len() * 0 == 0);
    }
    while i < count
        invariant
            i <= count,
            count == processes@.len(),
            infos == infos_of(processes@),
            names == image_paths(infos),
            w == word(),
            total == registry_header_len() + registry_entry_len() * i + packed_len(names, i as int),
        decreases count - i,
    {
        proof {
            lemma_packed_len_monotone(names, i + 1, count as int);
            assert(names[i as int] == processes@[i as int].device_path@);
            assert(registry_entry_len() * (i + 1) == registry_entry_len() * i
                + registry_entry_len()) by (nonlinear_arith);
            assert(registry_entry_len() * (i + 1) <= registry_entry_len() * count)
                by (nonlinear_arith)
                requires
                    i + 1 <= count,
            ;
        }
        let step: usize = match processes[i].device_path.len().checked_mul(2) {
            Some(bytes) => match bytes.checked_add(4 * w) {
                Some(step) => step,
                None => {
                    return None;
                },
            },
            None => {
                return None;
            },
        };
        total = match total.checked_add(step) {
            Some(next) => next,
            None => {
                return None;
            },
        };
        i += 1;
    }
    Some(total)
}

/// Writes the four fields of one entry at `offset`.
fn put_registry_entry(
    buffer: &mut Vec<u8>,
    offset: usize,
    pid: u32,
    parent_pid: u32,
    name_offset: usize,
    name_size: usize,
)
    requires
        offset + 4 * word() <= old(buffer)@.len(),
    ensures
        final(buffer)@ == overwrite(
            old(buffer)@,
            offset as int,
            le_bytes(pid as nat, word()) + le_bytes(parent_pid as nat, word()) + le_bytes(
                name_offset as nat,
                word(),
            ) + le_bytes(name_size as nat, word()),
        ),
{
    let w: usize = word_size();
    let size: usize = buffer.len();
    let ghost f0 = le_bytes(pid as nat, word());
    let ghost f1 = le_bytes(parent_pid as nat, word());
    let ghost f2 = le_bytes(name_offset as nat, word());
    let ghost f3 = le_bytes(name_size as nat, word());
    proof {
        lemma_le_bytes_len(pid as nat, word());
        lemma_le_bytes_len(parent_pid as nat, word());
        lemma_le_bytes_len(name_offset as nat, word());
        lemma_le_bytes_len(name_size as nat, word());
    }
    put_le(buffer, offset, pid as u128, w);
    put_le(buffer, offset + w, parent_pid as u128, w);
    proof {
        lemma_overwrite_twice(old(buffer)@, offset as int, f0, f1);
    }
    put_le(buffer, offset + 2 * w, name_offset as u128, w);
    proof {
        lemma_overwrite_twice(old(buffer)@, offset as int, f0 + f1, f2);
    }
    put_le(buffer, offset + 3 * w, name_size as u128, w);
    proof {
        lemma_overwrite_twice(old(buffer)@, offset as int, f0 + f1 + f2, f3);
    }
}

/// The entries of more processes take no less room.
pub proof fn lemma_registry_entries_grow(processes: Seq<ProcessInfoView>, m: int, n: int)
    requires
        0 <= m <= n,
    ensures
        registry_entries(processes, m).len() <= registry_entries(processes, n).len(),
    decreases n,
{
    if m < n {
        lemma_registry_entries_grow(processes, m, n - 1);
    }
}

/// Lays the processes out for the driver: a header, one entry per process,
/// and the image names.
#[verifier::rlimit(30)]
pub fn serialize_process_tree(processes: Vec<ProcessInfo>) -> (buffer: Result<Vec<u8>, IoError>)
    requires
        registry_size(infos_of(processes@)) <= usize::MAX,
    ensures
        buffer is Ok,
        buffer->Ok_0@ == registry_bytes(infos_of(processes@)),
{
    let w: usize = word_size();
    let count: usize = processes.len();
    let ghost infos = infos_of(processes@);
    let ghost names = image_paths(infos);
    let mut total_string_size: usize = 0;
    let mut i: usize = 0;
    proof {
        lemma_registry_entries_len(infos, count as int);
    }
    while i < count
        invariant
            i <= count,
            count == processes@.len(),
            infos == infos_of(processes@),
            names == image_paths(infos),
            total_string_size == packed_len(names, i as int),
            packed_len(names, count as int) <= usize::MAX,
        decreases count - i,
    {
        proof {
            lemma_packed_len_monotone(names, i + 1, count as int);
            assert(names[i as int] == processes@[i as int].device_path@);
        }
        total_string_size = total_string_size + 2 * processes[i].device_path.len();
        i += 1;
    }
    let entries_size: usize = 4 * w * count;
    let strings_start: usize = 2 * w + entries_size;
    let total: usize = strings_start + total_string_size;
    let mut buffer: Vec<u8> = vec![0u8; total];
    put_le(&mut buffer, 0, count as u128, w);
    put_le(&mut buffer, w, total as u128, w);
    let ghost header = registry_header(count as nat, total as nat);
    proof {
        lemma_le_bytes_len(count as nat, w as nat);
        lemma_le_bytes_len(total as nat, w as nat);
        assert(buffer@.subrange(0, 2 * w) =~= header + registry_entries(infos, 0));
        assert(buffer@.subrange(strings_start as int, strings_start as int) =~= packed_strings(
            names,
            0,
        ));
    }
    let mut entry_offset: usize = 2 * w;
    let mut string_offset: usize = 0;
    let mut i: usize = 0;
    while i < count
        invariant
            i <= count,
            count == processes@.len(),
            infos == infos_of(processes@),
            names == image_paths(infos),
            w == word(),
            header.len() == 2 * w,
            entry_offset == 2 * w + registry_entries(infos, i as int).len(),
            strings_start == 2 * w + registry_entries(infos, count as int).len(),
            total == strings_start + packed_len(names, count as int),
            buffer@.len() == total,
            string_offset == packed_len(names, i as int),
            buffer@.subrange(0, entry_offset as int) == header + registry_entries(infos, i as int),
            buffer@.subrange(strings_start as int, strings_start + string_offset)
                == packed_strings(names, i as int),
        decreases count - i,
    {
        let entry: &ProcessInfo = &processes[i];
        proof {
            lemma_packed_len_monotone(names, i + 1, count as int);
            lemma_registry_entries_grow(infos, i + 1, count as int);
            lemma_registry_entry_len(infos, i as int);
            assert(infos[i as int] == entry@);
            assert(names[i as int] == entry.device_path@);
        }
        let mut image_name_size: usize = 0;
        let mut image_name_offset: usize = 0;
        if !entry.device_path.is_empty() {
            image_name_size = (2 * entry.device_path.len()) % 0x1_0000;
            image_name_offset = string_offset;
        }
        let ghost before = buffer@;
        put_registry_entry(
            &mut buffer,
            entry_offset,
            entry.pid,
            entry.parent_pid,
            image_name_offset,
            image_name_size,
        );
        write_string_to_buffer(
            &mut buffer,
            strings_start + string_offset,
            entry.device_path.as_slice(),
        );
        proof {
            let fields = registry_entry(infos, i as int);
            let packed = units_bytes(entry.device_path@);
            lemma_entry_and_string_written(
                before,
                entry_offset as int,
                fields,
                strings_start as int,
                strings_start + string_offset,
                packed,
            );
            assert(header + registry_entries(infos, i as int) + fields =~= header
                + registry_entries(infos, i + 1));
        }
        entry_offset = entry_offset + 4 * w;
        string_offset = string_offset + 2 * entry.device_path.len();
        i += 1;
    }
    proof {
        assert(buffer@ =~= buffer@.subrange(0, strings_start as int) + buffer@.subrange(
            strings_start as int,
            total as int,
        ));
    }
    Ok(buffer)
}

/// The header of a registry buffer that fits in memory names the number of
/// its entries and its own length.
pub proof fn lemma_registry_header_fields(processes: Seq<ProcessInfoView>)
    requires
        registry_size(processes) <= usize::MAX,
    ensures
        registry_bytes(processes).len() == registry_size(processes),
        le_value(registry_bytes(processes).subrange(0, word() as int)) == processes.len(),
        le_value(registry_bytes(processes).subrange(word() as int, 2 * word() as int))
            == registry_bytes(processes).len(),
{
    let w = word() as int;
    let n = processes.len() as int;
    let buffer = registry_bytes(processes);
    lemma_registry_entries_len(processes, n);
    lemma_packed_strings_len(image_paths(processes), n);
    lemma_pow256_values();
    lemma_le_bytes_len(processes.len(), word());
    lemma_le_bytes_len(registry_size(processes), word());
    assert(registry_entry_len() * processes.len() >= processes.len()) by (nonlinear_arith)
        requires
            registry_entry_len() >= 1,
    ;
    lemma_le_value_of_bytes(processes.len(), word());
    lemma_le_value_of_bytes(registry_size(processes), word());
    assert(buffer.subrange(0, w) =~= le_bytes(processes.len(), word()));
    assert(buffer.subrange(w, 2 * w) =~= le_bytes(registry_size(processes), word()));
}

/// The process named by the `k`-th entry of a registry buffer.
pub open spec fn registry_pid(buffer: Seq<u8>, k: int) -> nat {
    let at = registry_header_len() + registry_entry_len() * k;
    le_value(buffer.subrange(at, at + word()))
}

/// The parent named by the `k`-th entry of a registry buffer.
pub open spec fn registry_parent_pid(buffer: Seq<u8>, k: int) -> nat {
    let at = registry_header_len() + registry_entry_len() * k + word();
    le_value(buffer.subrange(at, at + word()))
}

/// The entries of a registry buffer name the processes and their parents in
/// the order of the list.
pub proof fn lemma_registry_fields(processes: Seq<ProcessInfoView>, k: int)
    requires
        0 <= k < processes.len(),
    ensures
        registry_pid(registry_bytes(processes), k) == processes[k].pid,
        registry_parent_pid(registry_bytes(processes), k) == processes[k].parent_pid,
{
    let w = word() as int;
    let n = processes.len() as int;
    let buffer = registry_bytes(processes);
    let entries = registry_entries(processes, n);
    let entry = registry_entry(processes, k);
    let at = registry_header_len() + registry_entry_len() * k;
    lemma_registry_entry_at(processes, n, k);
    lemma_registry_entries_len(processes, n);
    lemma_registry_entry_len(processes, k);
    lemma_le_bytes_len(processes.len(), word());
    lemma_le_bytes_len(registry_size(processes), word());
    lemma_le_bytes_len(processes[k].pid as nat, word());
    lemma_le_bytes_len(processes[k].parent_pid as nat, word());
    lemma_pow256_values();
    lemma_le_value_of_bytes(processes[k].pid as nat, word());
    lemma_le_value_of_bytes(processes[k].parent_pid as nat, word());
    assert(registry_entry_len() * (k + 1) == registry_entry_len() * k + registry_entry_len())
        by (nonlinear_arith);
    assert(buffer.subrange(at, at + 4 * w) =~= entries.subrange(
        registry_entry_len() * k,
        registry_entry_len() * (k + 1),
    ));
    assert(buffer.subrange(at, at + w) =~= buffer.subrange(at, at + 4 * w).subrange(0, w));
    assert(buffer.subrange(at + w, at + w + w) =~= buffer.subrange(at, at + 4 * w).subrange(
        w,
        2 * w,
    ));
    assert(entry.subrange(0, w) =~= le_bytes(processes[k].pid as nat, word()));
    assert(entry.subrange(w, 2 * w) =~= le_bytes(processes[k].parent_pid as nat, word()));
}

/// Where the image names begin in a registry buffer: behind the header and
/// the entries.
pub open spec fn registry_names_start(count: nat) -> nat {
    registry_header_len() + registry_entry_len() * count
}

/// The `k`-th entry stands in the buffer behind the header and the entries
/// before it.
pub proof fn lemma_registry_entry_in_buffer(processes: Seq<ProcessInfoView>, k: int)
    requires
        0 <= k < processes.len(),
    ensures
        ({
            let at = registry_header_len() + registry_entry_len() * k;
            &&& at + registry_entry_len() <= registry_names_start(processes.len())
            &&& registry_names_start(processes.len()) <= registry_bytes(processes).len()
            &&& registry_bytes(processes).subrange(at, at + registry_entry_len())
                == registry_entry(processes, k)
        }),
{
    let n = processes.len() as int;
    let buffer = registry_bytes(processes);
    let entries = registry_entries(processes, n);
    let at = registry_header_len() + registry_entry_len() * k;
    lemma_registry_entry_at(processes, n, k);
    lemma_registry_entries_len(processes, n);
    lemma_le_bytes_len(processes.len(), word());
    lemma_le_bytes_len(registry_size(processes), word());
    assert(registry_entry_len() * (k + 1) == registry_entry_len() * k + registry_entry_len())
        by (nonlinear_arith);
    assert(buffer.subrange(at, at + registry_entry_len()) =~= entries.subrange(
        registry_entry_len() * k,
        registry_entry_len() * (k + 1),
    ));
}

/// The last two fields of an entry are the offset of the image name, in a
/// word, and its length, in two bytes.
pub proof fn lemma_registry_entry_name_fields(processes: Seq<ProcessInfoView>, k: int)
    requires
        image_name_offset(processes, k) < pow256(word()),
    ensures
        ({
            let w = word() as int;
            let entry = registry_entry(processes, k);
            &&& entry.len() == 4 * w
            &&& le_value(entry.subrange(2 * w, 3 * w)) == image_name_offset(processes, k)
            &&& le_value(entry.subrange(3 * w, 3 * w + 2)) == name_length_field(
                processes[k].device_path.len(),
            )
        }),
{
    let w = word() as int;
    let entry = registry_entry(processes, k);
    let offset = image_name_offset(processes, k);
    let length = name_length_field(processes[k].device_path.len());
    lemma_pow256_values();
    lemma_registry_entry_len(processes, k);
    lemma_le_bytes_len(processes[k].pid as nat, word());
    lemma_le_bytes_len(processes[k].parent_pid as nat, word());
    lemma_le_bytes_len(offset, word());
    lemma_le_bytes_len(length, word());
    lemma_le_bytes_len(length, 2);
    lemma_le_bytes_widen(length, 2, (word() - 2) as nat);
    lemma_le_value_of_bytes(offset, word());
    lemma_le_value_of_bytes(length, 2);
    assert(entry.subrange(2 * w, 3 * w) =~= le_bytes(offset, word()));
    assert(entry.subrange(3 * w, 3 * w + 2) =~= le_bytes(length, word()).subrange(0, 2));
    assert(le_bytes(length, word()).subrange(0, 2) =~= le_bytes(length, 2));
}

/// The device path of the `k`-th process stands among the names at the
/// offset of the names before it.
pub proof fn lemma_registry_name_in_buffer(processes: Seq<ProcessInfoView>, k: int)
    requires
        0 <= k < processes.len(),
    ensures
        ({
            let names = registry_names_start(processes.len()) as int;
            let offset = packed_len(image_paths(processes), k) as int;
            let length = 2 * processes[k].device_path.len() as int;
            &&& names + offset + length <= registry_bytes(processes).len()
            &&& registry_bytes(processes).subrange(names + offset, names + offset + length)
                == units_bytes(processes[k].device_path)
        }),
{
    let n = processes.len() as int;
    let buffer = registry_bytes(processes);
    let paths = image_paths(processes);
    let strings = packed_strings(paths, n);
    let names = registry_names_start(processes.len()) as int;
    let offset = packed_len(paths, k) as int;
    let length = 2 * processes[k].device_path.len() as int;
    lemma_registry_entries_len(processes, n);
    lemma_packed_strings_len(paths, n);
    lemma_packed_string_at(paths, n, k);
    lemma_le_bytes_len(processes.len(), word());
    lemma_le_bytes_len(registry_size(processes), word());
    assert(buffer.subrange(names + offset, names + offset + length) =~= strings.subrange(
        offset,
        offset + length,
    ));
}

/// What a reader of the buffer finds in the `k`-th entry behind the process
/// and its parent: the offset and the length of the image name, and at that
/// offset among the names, with that length, the device path of the `k`-th
/// process. This holds for every buffer that fits in memory and every path
/// whose length in bytes fits sixteen bits.
#[verifier::rlimit(30)]
pub proof fn lemma_registry_can_be_read_back(processes: Seq<ProcessInfoView>, k: int)
    requires
        0 <= k < processes.len(),
        registry_size(processes) <= usize::MAX,
        2 * processes[k].device_path.len() <= u16::MAX,
    ensures
        ({
            let buffer = registry_bytes(processes);
            let at = registry_header_len() + registry_entry_len() * k;
            let offset = le_value(buffer.subrange(at + 2 * word(), at + 3 * word()));
            let length = le_value(buffer.subrange(at + 3 * word(), at + 3 * word() + 2));
            let names = registry_names_start(processes.len()) as int;
            &&& offset == image_name_offset(processes, k)
            &&& length == 2 * processes[k].device_path.len()
            &&& names + offset + length <= buffer.len()
            &&& buffer.subrange(names + offset, names + offset + length) == units_bytes(
                processes[k].device_path,
            )
        }),
{
    let w = word() as int;
    let buffer = registry_bytes(processes);
    let entry = registry_entry(processes, k);
    let at = registry_header_len() + registry_entry_len() * k;
    let names = registry_names_start(processes.len()) as int;
    lemma_pow256_values();
    lemma_packed_len_monotone(image_paths(processes), k, processes.len() as int);
    lemma_registry_entry_in_buffer(processes, k);
    lemma_registry_entry_name_fields(processes, k);
    lemma_registry_name_in_buffer(processes, k);
    assert(buffer.subrange(at + 2 * w, at + 3 * w) =~= buffer.subrange(at, at + 4 * w).subrange(
        2 * w,
        3 * w,
    ));
    assert(buffer.subrange(at + 3 * w, at + 3 * w + 2) =~= buffer.subrange(
        at,
        at + 4 * w,
    ).subrange(3 * w, 3 * w + 2));
    if processes[k].device_path.len() == 0 {
        assert(buffer.subrange(names, names) =~= units_bytes(processes[k].device_path));
    }
}

/// The system's code for an argument that is not acceptable.
pub const ERROR_INVALID_PARAMETER: i32 = 87;

/// What the snapshot of the process table holds for one process.
#[derive(Clone, Debug, PartialEq, Eq)]
pub enum SnapshotItem {
    /// The snapshot could not be read at this place.
    Unreadable(IoError),
    /// A process that could not be opened.
    Unopened { pid: u32, parent_pid: u32, error: IoError },
    /// A process that was opened, with its creation time and the device path
    /// of its image as far as they could be had.
    Opened { pid: u32, parent_pid: u32, creation_time: Option<u64>, device_path: Option<Vec<u16>> },
}

/// An item of a snapshot as a mathematical value.
pub enum SnapshotItemView {
    Unreadable(IoError),
    Unopened { pid: u32, parent_pid: u32, error: IoError },
    Opened { pid: u32, parent_pid: u32, creation_time: Option<u64>, device_path: Option<Seq<u16>> },
}

impl View for SnapshotItem {
    type V = SnapshotItemView;

    open spec fn view(&self) -> SnapshotItemView {
        match self {
            SnapshotItem::Unreadable(error) => SnapshotItemView::Unreadable(*error),
            SnapshotItem::Unopened { pid, parent_pid, error } => SnapshotItemView::Unopened {
                pid: *pid,
                parent_pid: *parent_pid,
                error: *error,
            },
            SnapshotItem::Opened {
                pid,
                parent_pid,
                creation_time,
                device_path,
            } => SnapshotItemView::Opened {
                pid: *pid,
                parent_pid: *parent_pid,
                creation_time: *creation_time,
                device_path: match device_path {
                    Some(path) => Some(path@),
                    None => None,
                },
            },
        }
    }
}

/// The items held by a snapshot.
pub open spec fn items_of(snapshot: Seq<SnapshotItem>) -> Seq<SnapshotItemView> {
    Seq::new(snapshot.len(), |i: int| snapshot[i]@)
}

/// Whether a process that cannot be opened for this reason is left out
/// without further ado: protected system processes answer so.
pub open spec fn spec_open_failure_is_skipped(error: IoError) -> bool {
    ||| error.spec_kind() == IoErrorKind::PermissionDenied
    ||| error.spec_kind() == IoErrorKind::InvalidInput
    ||| (error.spec_kind() == IoErrorKind::Other && error.spec_raw_os_error() == Some(
        ERROR_INVALID_PARAMETER,
    ))
}

/// Whether a process that cannot be opened for this reason is left out
/// without further ado.
#[verifier::when_used_as_spec(spec_open_failure_is_skipped)]
pub fn open_failure_is_skipped(error: IoError) -> (skipped: bool)
    ensures
        skipped == spec_open_failure_is_skipped(error),
{
    match error.kind() {
        IoErrorKind::PermissionDenied => true,
        IoErrorKind::InvalidInput => true,
        IoErrorKind::Other => match error.raw_os_error() {
            Some(code) => code == ERROR_INVALID_PARAMETER,
            None => false,
        },
        _ => false,
    }
}

/// The failure with which an item ends the construction, if it does.
pub open spec fn item_failure(item: SnapshotItemView) -> Option<IoError> {
    match item {
        SnapshotItemView::Unreadable(error) => Some(error),
        SnapshotItemView::Unopened { error, .. } => if spec_open_failure_is_skipped(error) {
            None
        } else {
            Some(error)
        },
        SnapshotItemView::Opened { .. } => None,
    }
}

/// The first failure among the first `n` items.
pub open spec fn first_failure(items: Seq<SnapshotItemView>, n: int) -> Option<IoError>
    decreases n,
{
    if n <= 0 {
        None
    } else {
        match first_failure(items, n - 1) {
            Some(error) => Some(error),
            None => item_failure(items[n - 1]),
        }
    }
}

/// The process that an item stands for, if it was opened.
pub open spec fn opened_pid(item: SnapshotItemView) -> Option<u32> {
    match item {
        SnapshotItemView::Opened { pid, .. } => Some(pid),
        _ => None,
    }
}

/// The creation time recorded for an item: zero where none was obtained.
pub open spec fn created(item: SnapshotItemView) -> u64 {
    match item {
        SnapshotItemView::Opened { creation_time: Some(time), .. } => time,
        _ => 0,
    }
}

/// The last among the first `n` items that is an opened process `pid`.
pub open spec fn last_opened(items: Seq<SnapshotItemView>, pid: u32, n: int) -> Option<int>
    decreases n,
{
    if n <= 0 {
        None
    } else if opened_pid(items[n - 1]) == Some(pid) {
        Some(n - 1)
    } else {
        last_opened(items, pid, n - 1)
    }
}

/// Whether the `i`-th item goes into the tree: it was opened, and no later
/// item is an opened process of the same id.
pub open spec fn retained(items: Seq<SnapshotItemView>, i: int) -> bool {
    match opened_pid(items[i]) {
        Some(pid) => last_opened(items, pid, items.len() as int) == Some(i),
        None => false,
    }
}

/// Whether the process that the `i`-th item names as its parent was created
/// after it: then the parent's id was recycled, and the two are unrelated.
pub open spec fn parent_is_younger(items: Seq<SnapshotItemView>, i: int) -> bool {
    match items[i] {
        SnapshotItemView::Opened { parent_pid, .. } => parent_pid != 0 && match last_opened(
            items,
            parent_pid,
            items.len() as int,
        ) {
            Some(j) => created(items[j]) > created(items[i]),
            None => false,
        },
        _ => false,
    }
}

/// The tree's record of the `i`-th item.
pub open spec fn record(items: Seq<SnapshotItemView>, i: int) -> ProcessInfoView {
    match items[i] {
        SnapshotItemView::Opened { pid, parent_pid, device_path, .. } => ProcessInfoView {
            pid,
            parent_pid: if parent_is_younger(items, i) {
                0
            } else {
                parent_pid
            },
            creation_time: created(items[i]),
            device_path: match device_path {
                Some(path) => path,
                None => Seq::empty(),
            },
        },
        _ => ProcessInfoView { pid: 0, parent_pid: 0, creation_time: 0, device_path: Seq::empty() },
    }
}

/// The records of those of the first `n` items that go into the tree, in
/// the order of the snapshot.
pub open spec fn tree_prefix(items: Seq<SnapshotItemView>, n: int) -> Seq<ProcessInfoView>
    decreases n,
{
    if n <= 0 {
        Seq::empty()
    } else if retained(items, n - 1) {
        tree_prefix(items, n - 1).push(record(items, n - 1))
    } else {
        tree_prefix(items, n - 1)
    }
}

/// The process tree of a snapshot.
pub open spec fn process_tree(items: Seq<SnapshotItemView>) -> Seq<ProcessInfoView> {
    tree_prefix(items, items.len() as int)
}

/// No process names a parent that was created after it.
pub open spec fn no_younger_parent(tree: Seq<ProcessInfoView>) -> bool {
    forall|child: int, parent: int|
        0 <= child < tree.len() && 0 <= parent < tree.len() && tree[child].parent_pid != 0
            && #[trigger] tree[parent].pid == #[trigger] tree[child].parent_pid
            ==> tree[parent].creation_time <= tree[child].creation_time
}

/// Once an item has failed, the first failure stays the same however many
/// more items are looked at.
pub proof fn lemma_first_failure_stays(items: Seq<SnapshotItemView>, m: int, n: int)
    requires
        0 <= m <= n,
        first_failure(items, m) is Some,
    ensures
        first_failure(items, n) == first_failure(items, m),
    decreases n,
{
    if m < n {
        lemma_first_failure_stays(items, m, n - 1);
    }
}

/// The last opened item of a process is one of the items, and is an opened
/// item of that process.
pub proof fn lemma_last_opened_is_opened(items: Seq<SnapshotItemView>, pid: u32, n: int)
    requires
        last_opened(items, pid, n) is Some,
    ensures
        0 <= last_opened(items, pid, n)->Some_0 < n,
        opened_pid(items[last_opened(items, pid, n)->Some_0]) == Some(pid),
    decreases n,
{
    if n > 0 && opened_pid(items[n - 1]) != Some(pid) {
        lemma_last_opened_is_opened(items, pid, n - 1);
    }
}

/// Every record of the tree is the record of an item that goes into it.
pub proof fn lemma_tree_member(items: Seq<SnapshotItemView>, n: int, k: int) -> (i: int)
    requires
        0 <= n <= items.len(),
        0 <= k < tree_prefix(items, n).len(),
    ensures
        0 <= i < n,
        retained(items, i),
        tree_prefix(items, n)[k] == record(items, i),
    decreases n,
{
    if retained(items, n - 1) && k == tree_prefix(items, n - 1).len() {
        n - 1
    } else {
        lemma_tree_member(items, n - 1, k)
    }
}

/// In the tree of any snapshot, no process names a parent that was created
/// after it: where the snapshot says so, the parent's id is cleared.
pub proof fn lemma_tree_has_no_younger_parent(items: Seq<SnapshotItemView>)
    ensures
        no_younger_parent(process_tree(items)),
{
    let tree = process_tree(items);
    let n = items.len() as int;
    assert forall|child: int, parent: int|
        0 <= child < tree.len() && 0 <= parent < tree.len() && tree[child].parent_pid != 0
            && #[trigger] tree[parent].pid == #[trigger] tree[child].parent_pid implies tree[parent].creation_time
        <= tree[child].creation_time by {
        let i = lemma_tree_member(items, n, child);
        let j = lemma_tree_member(items, n, parent);
        assert(opened_pid(items[j]) == Some(tree[parent].pid));
        assert(last_opened(items, tree[parent].pid, n) == Some(j));
        assert(!parent_is_younger(items, i));
    }
}

/// Where the record of the `i`-th item stands in the tree: behind the
/// records of the items before it.
pub open spec fn tree_position(items: Seq<SnapshotItemView>, i: int) -> int {
    tree_prefix(items, i).len() as int
}

/// The record of an item that goes into the tree stands at its position.
pub proof fn lemma_tree_position(items: Seq<SnapshotItemView>, n: int, i: int)
    requires
        0 <= i < n <= items.len(),
        retained(items, i),
    ensures
        0 <= tree_position(items, i) < tree_prefix(items, n).len(),
        tree_prefix(items, n)[tree_position(items, i)] == record(items, i),
    decreases n,
{
    if i < n - 1 {
        lemma_tree_position(items, n - 1, i);
    }
}

/// Recycled process ids do no harm: where the snapshot shows a parent
/// that was created after its child, the registry built from the snapshot
/// names no parent for the child.
pub proof fn lemma_recycled_parent_is_cleared(
    items: Seq<SnapshotItemView>,
    child: int,
    parent: int,
)
    requires
        0 <= child < items.len(),
        0 <= parent < items.len(),
        retained(items, child),
        retained(items, parent),
        items[child] matches SnapshotItemView::Opened { parent_pid, .. } && opened_pid(
            items[parent],
        ) == Some(parent_pid),
        created(items[parent]) > created(items[child]),
    ensures
        0 <= tree_position(items, child) < process_tree(items).len(),
        process_tree(items)[tree_position(items, child)].parent_pid == 0,
        registry_parent_pid(registry_bytes(process_tree(items)), tree_position(items, child)) == 0,
{
    lemma_tree_position(items, items.len() as int, child);
    lemma_registry_fields(process_tree(items), tree_position(items, child));
}

/// The creation time recorded for an item: zero where none was obtained.
fn creation_time_of(item: &SnapshotItem) -> (time: u64)
    ensures
        time == created(item@),
{
    match item {
        SnapshotItem::Opened { creation_time: Some(time), .. } => *time,
        _ => 0,
    }
}

/// List process identifiers, their parents, and their device paths.
///
/// Processes that could not be opened because they are protected are left
/// out; any other failure ends the construction. Of two items for one
/// process the later counts. A parent that is younger than its child is no
/// parent: its id was recycled, and the child's parent is cleared.
pub fn build_process_tree(snapshot: &Vec<SnapshotItem>) -> (tree: Result<Vec<ProcessInfo>, IoError>)
    ensures
        match tree {
            Ok(list) => {
                &&& first_failure(items_of(snapshot@), snapshot@.len() as int) is None
                &&& infos_of(list@) == process_tree(items_of(snapshot@))
                &&& no_younger_parent(infos_of(list@))
            },
            Err(error) => first_failure(items_of(snapshot@), snapshot@.len() as int) == Some(error),
        },
{
    let ghost items = items_of(snapshot@);
    let count: usize = snapshot.len();
    let mut index: HashMap<u32, usize> = HashMap::new();
    let mut i: usize = 0;
    while i < count
        invariant
            i <= count,
            count == snapshot@.len(),
            items == items_of(snapshot@),
            first_failure(items, i as int) is None,
            forall|pid: u32|
                index@.contains_key(pid) <==> (#[trigger] last_opened(items, pid, i as int)) is Some,
            forall|pid: u32|
                index@.contains_key(pid) ==> index@[pid] as int == (#[trigger] last_opened(
                    items,
                    pid,
                    i as int,
                ))->Some_0,
        decreases count - i,
    {
        proof {
            assert(items[i as int] == snapshot@[i as int]@);
        }
        let ghost known = index@;
        match &snapshot[i] {
            SnapshotItem::Unreadable(error) => {
                proof {
                    lemma_first_failure_stays(items, i + 1, count as int);
                }
                return Err(*error);
            },
            SnapshotItem::Unopened { error, .. } => {
                if !open_failure_is_skipped(*error) {
                    proof {
                        lemma_first_failure_stays(items, i + 1, count as int);
                    }
                    return Err(*error);
                }
            },
            SnapshotItem::Opened { pid, .. } => {
                index.insert(*pid, i);
            },
        }
        proof {
            assert forall|pid: u32|
                index@.contains_key(pid) <==> (#[trigger] last_opened(items, pid, i + 1)) is Some by {
                assert(known.contains_key(pid) <==> last_opened(items, pid, i as int) is Some);
            }
            assert forall|pid: u32| index@.contains_key(pid) implies index@[pid] as int == (
            #[trigger] last_opened(items, pid, i + 1))->Some_0 by {
                assert(known.contains_key(pid) <==> last_opened(items, pid, i as int) is Some);
                if known.contains_key(pid) {
                    assert(known[pid] as int == last_opened(items, pid, i as int)->Some_0);
                }
            }
        }
        i += 1;
    }
    let mut tree: Vec<ProcessInfo> = Vec::new();
    let mut i: usize = 0;
    proof {
        assert(infos_of(tree@) =~= tree_prefix(items, 0));
    }
    while i < count
        invariant
            i <= count,
            count == snapshot@.len(),
            items == items_of(snapshot@),
            forall|pid: u32|
                index@.contains_key(pid) <==> (#[trigger] last_opened(items, pid, count as int))
                    is Some,
            forall|pid: u32|
                index@.contains_key(pid) ==> index@[pid] as int == (#[trigger] last_opened(
                    items,
                    pid,
                    count as int,
                ))->Some_0,
            infos_of(tree@) == tree_prefix(items, i as int),
        decreases count - i,
    {
        proof {
            assert(items[i as int] == snapshot@[i as int]@);
        }
        let ghost before = infos_of(tree@);
        match &snapshot[i] {
            SnapshotItem::Opened { pid, parent_pid, creation_time, device_path } => {
                let last: Option<&usize> = index.get(pid);
                let is_last: bool = match last {
                    Some(j) => *j == i,
                    None => false,
                };
                proof {
                    assert(is_last == retained(items, i as int));
                }
                if is_last {
                    let own_time: u64 = creation_time_of(&snapshot[i]);
                    let mut parent: u32 = *parent_pid;
                    if parent != 0 {
                        match index.get(parent_pid) {
                            Some(j) => {
                                proof {
                                    lemma_last_opened_is_opened(items, *parent_pid, count as int);
                                    assert(items[*j as int] == snapshot@[*j as int]@);
                                }
                                if creation_time_of(&snapshot[*j]) > own_time {
                                    parent = 0;
                                }
                            },
                            None => {},
                        }
                    }
                    let path: Vec<u16> = match device_path {
                        Some(path) => path.clone(),
                        None => Vec::new(),
                    };
                    let info = ProcessInfo {
                        pid: *pid,
                        parent_pid: parent,
                        creation_time: own_time,
                        device_path: path,
                    };
                    proof {
                        assert(info@ == record(items, i as int));
                    }
                    tree.push(info);
                    proof {
                        assert(infos_of(tree@) =~= before.push(record(items, i as int)));
                    }
                }
            },
            _ => {},
        }
        i += 1;
    }
    proof {
        lemma_tree_has_no_younger_parent(items);
    }
    Ok(tree)
}

} // verus!
