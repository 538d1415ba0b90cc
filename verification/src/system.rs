//! Reading the status output of a remote host.

use crate::models::DiskInfo;
use crate::models::MemoryInfo;
use crate::models::ProcessInfo;
use crate::text::chars_of;
use crate::text::parse_u64;
use crate::text::same_text;
use crate::text::spec_split;
use crate::text::spec_trim;
use crate::text::split;
use crate::text::string_of;
use crate::text::trim_chars;
use crate::text::same_chars;
use crate::text::spec_parse_u64;
use crate::text::spec_words;
use crate::text::words;
use vstd::prelude::*;

verus! {

/// The number in word `i` of `words`; zero where there is no such word or
/// it spells no number.
pub open spec fn spec_cpu_field(words: Seq<Seq<char>>, i: int) -> nat {
    if 0 <= i < words.len() {
        match spec_parse_u64(words[i]) {
            Some(v) => v as nat,
            None => 0,
        }
    } else {
        0
    }
}

/// All time: user, nice, system, idle, iowait, irq, softirq and steal.
pub open spec fn spec_cpu_total(words: Seq<Seq<char>>) -> nat {
    spec_cpu_field(words, 1) + spec_cpu_field(words, 2) + spec_cpu_field(words, 3)
        + spec_cpu_field(words, 4) + spec_cpu_field(words, 5) + spec_cpu_field(words, 6)
        + spec_cpu_field(words, 7) + spec_cpu_field(words, 8)
}

/// Time spent working: all time but idle and iowait.
pub open spec fn spec_cpu_work(words: Seq<Seq<char>>) -> nat {
    spec_cpu_field(words, 1) + spec_cpu_field(words, 2) + spec_cpu_field(words, 3)
        + spec_cpu_field(words, 6) + spec_cpu_field(words, 7) + spec_cpu_field(words, 8)
}

/// The total and the working time of the aggregate `cpu` line of
/// `/proc/stat`. The line must have at least five words, the first of
/// them `cpu`, and the total must fit in a `u64`.
pub open spec fn spec_parse_cpu_stats(line: Seq<char>) -> Option<(u64, u64)> {
    let w = spec_words(line);
    if w.len() < 5 || w[0] != "cpu"@ || spec_cpu_total(w) > u64::MAX {
        None
    } else {
        Some((spec_cpu_total(w) as u64, spec_cpu_work(w) as u64))
    }
}

/// The counter in column `i`, zero where the column is absent or no number.
fn cpu_field(w: &Vec<Vec<char>>, i: usize, Ghost(model): Ghost<Seq<Seq<char>>>) -> (value: u64)
    requires
        w@.len() == model.len(),
        forall|k: int| 0 <= k < w@.len() ==> (#[trigger] w@[k])@ == model[k],
    ensures
        value == spec_cpu_field(model, i as int),
{
    if i < w.len() {
        match parse_u64(&w[i]) {
            Some(v) => v,
            None => 0,
        }
    } else {
        0
    }
}

/// Reads the aggregate `cpu` line of `/proc/stat`: the total time and
/// the time spent working.
pub fn parse_cpu_stats(line: &str) -> (stats: Option<(u64, u64)>)
    ensures
        stats == spec_parse_cpu_stats(line@),
{
    let chars = chars_of(line);
    let w = words(&chars);
    let ghost model = spec_words(line@);
    if w.len() < 5 {
        return None;
    }
    let cpu = chars_of("cpu");
    if !same_chars(&w[0], &cpu) {
        return None;
    }
    let user = cpu_field(&w, 1, Ghost(model));
    let nice = cpu_field(&w, 2, Ghost(model));
    let system = cpu_field(&w, 3, Ghost(model));
    let idle = cpu_field(&w, 4, Ghost(model));
    let iowait = cpu_field(&w, 5, Ghost(model));
    let irq = cpu_field(&w, 6, Ghost(model));
    let softirq = cpu_field(&w, 7, Ghost(model));
    let steal = cpu_field(&w, 8, Ghost(model));
    let work: u128 = user as u128 + nice as u128 + system as u128 + irq as u128 + softirq as u128
        + steal as u128;
    let total: u128 = work + idle as u128 + iowait as u128;
    if total > u64::MAX as u128 {
        return None;
    }
    Some((total as u64, work as u64))
}

/// The cells of a row as texts.
pub open spec fn spec_cells(row: Vec<String>) -> Seq<Seq<char>> {
    Seq::new(row@.len(), |i: int| row@[i]@)
}

/// The row that a line of a table gives: the line without surrounding
/// white space, cut at every `|`. A line that is empty then, or has
/// fewer than `min` cells, gives none.
pub open spec fn spec_row_of(line: Seq<char>, min: nat) -> Option<Seq<Seq<char>>> {
    let t = spec_trim(line);
    if t.len() == 0 || spec_split(t, '|').len() < min {
        None
    } else {
        Some(spec_split(t, '|'))
    }
}

/// The rows that the first `n` lines give, in order.
pub open spec fn spec_rows_first(lines: Seq<Seq<char>>, min: nat, n: int) -> Seq<Seq<Seq<char>>>
    decreases n,
{
    if n <= 0 {
        Seq::empty()
    } else {
        match spec_row_of(lines[n - 1], min) {
            Some(row) => spec_rows_first(lines, min, n - 1).push(row),
            None => spec_rows_first(lines, min, n - 1),
        }
    }
}

/// The rows of a table whose lines hold cells separated by `|`.
pub open spec fn spec_table_rows(raw: Seq<char>, min: nat) -> Seq<Seq<Seq<char>>> {
    let lines = spec_split(raw, '\n');
    spec_rows_first(lines, min, lines.len() as int)
}

/// The rows of a table: one for each line that is not blank and has at
/// least `min_columns` cells.
pub fn table_rows(raw: &str, min_columns: usize) -> (rows: Vec<Vec<String>>)
    ensures
        rows@.len() == spec_table_rows(raw@, min_columns as nat).len(),
        forall|r: int|
            0 <= r < rows@.len() ==> spec_cells(#[trigger] rows@[r]) == spec_table_rows(
                raw@,
                min_columns as nat,
            )[r],
{
    let chars = chars_of(raw);
    let lines = split(&chars, '\n');
    let ghost model = spec_split(raw@, '\n');
    let mut rows: Vec<Vec<String>> = Vec::new();
    let mut i: usize = 0;
    while i < lines.len()
        invariant
            i <= lines@.len(),
            lines@.len() == model.len(),
            forall|k: int| 0 <= k < lines@.len() ==> (#[trigger] lines@[k])@ == model[k],
            rows@.len() == spec_rows_first(model, min_columns as nat, i as int).len(),
            forall|r: int|
                0 <= r < rows@.len() ==> spec_cells(#[trigger] rows@[r]) == spec_rows_first(
                    model,
                    min_columns as nat,
                    i as int,
                )[r],
        decreases lines@.len() - i,
    {
        let t = trim_chars(&lines[i]);
        if t.len() > 0 {
            let cells = split(&t, '|');
            if cells.len() >= min_columns {
                let mut row: Vec<String> = Vec::new();
                let mut c: usize = 0;
                while c < cells.len()
                    invariant
                        c <= cells@.len(),
                        row@.len() == c,
                        forall|k: int| 0 <= k < c ==> (#[trigger] row@[k])@ == cells@[k]@,
                    decreases cells@.len() - c,
                {
                    row.push(string_of(&cells[c]));
                    c += 1;
                }
                assert(spec_cells(row) =~= spec_split(t@, '|'));
                rows.push(row);
            }
        }
        i += 1;
    }
    rows
}

/// Whether `out` is what `mapper` made of the first `n` rows: each row
/// was handed to it, in order, and `out` holds what it gave, rows for
/// which it gave nothing left out.
pub open spec fn spec_mapped<T, F: Fn(Vec<String>) -> Option<T>>(
    mapper: F,
    rows: Seq<Vec<String>>,
    n: int,
    out: Seq<T>,
) -> bool
    decreases n,
{
    if n <= 0 {
        out.len() == 0
    } else {
        ||| mapper.ensures((rows[n - 1],), None) && spec_mapped(mapper, rows, n - 1, out)
        ||| out.len() > 0 && mapper.ensures((rows[n - 1],), Some(out.last())) && spec_mapped(
            mapper,
            rows,
            n - 1,
            out.drop_last(),
        )
    }
}

/// Reads a table of lines with cells separated by `|`: every line that
/// is not blank and has at least `min_columns` cells is handed to
/// `mapper`, and what it makes of them is collected in order.
pub fn parse_table<T, F: Fn(Vec<String>) -> Option<T>>(raw: &str, mapper: F, min_columns: usize) -> (out:
    Vec<T>)
    requires
        forall|row: Vec<String>| mapper.requires((row,)),
    ensures
        exists|rows: Seq<Vec<String>>|
            {
                &&& rows.len() == spec_table_rows(raw@, min_columns as nat).len()
                &&& forall|r: int|
                    0 <= r < rows.len() ==> spec_cells(#[trigger] rows[r]) == spec_table_rows(
                        raw@,
                        min_columns as nat,
                    )[r]
                &&& spec_mapped(mapper, rows, rows.len() as int, out@)
            },
{
    let mut rows = table_rows(raw, min_columns);
    let ghost all = rows@;
    let mut out: Vec<T> = Vec::new();
    let total = rows.len();
    let mut i: usize = 0;
    while i < total
        invariant
            i <= total,
            total == all.len(),
            rows@ == all.skip(i as int),
            forall|row: Vec<String>| mapper.requires((row,)),
            spec_mapped(mapper, all, i as int, out@),
        decreases total - i,
    {
        let row = rows.remove(0);
        assert(row == all[i as int]);
        assert(rows@ =~= all.skip(i + 1));
        let ghost before = out@;
        match mapper(row) {
            Some(item) => {
                out.push(item);
                assert(out@.drop_last() =~= before);
            },
            None => {},
        }
        i += 1;
    }
    assert(spec_mapped(mapper, all, all.len() as int, out@));
    out
}

/// Whether `disk` holds the six cells of a row of the mount table:
/// file system, size, used, available, percentage and mount point.
pub open spec fn spec_disk_of(disk: DiskInfo, row: Seq<Seq<char>>) -> bool {
    &&& row.len() >= 6
    &&& disk.filesystem@ == row[0]
    &&& disk.size@ == row[1]
    &&& disk.used@ == row[2]
    &&& disk.avail@ == row[3]
    &&& disk.percent@ == row[4]
    &&& disk.mount@ == row[5]
}

/// Whether `process` holds the five cells of a row of the process
/// table: process number, command, processor share, memory share and
/// memory in use.
pub open spec fn spec_process_of(process: ProcessInfo, row: Seq<Seq<char>>) -> bool {
    &&& row.len() >= 5
    &&& process.pid@ == row[0]
    &&& process.command@ == row[1]
    &&& process.cpu@ == row[2]
    &&& process.memory@ == row[3]
    &&& process.memory_percent@ == row[4]
}

/// The mounted file systems that the mount table names, one for each
/// row of at least six cells, in order.
pub fn parse_mounts(raw: &str) -> (mounts: Vec<DiskInfo>)
    ensures
        mounts@.len() == spec_table_rows(raw@, 6).len(),
        forall|i: int|
            0 <= i < mounts@.len() ==> spec_disk_of(#[trigger] mounts@[i], spec_table_rows(raw@, 6)[i]),
{
    let rows = table_rows(raw, 6);
    let ghost model = spec_table_rows(raw@, 6);
    proof {
        lemma_rows_wide(raw@, 6);
    }
    let mut mounts: Vec<DiskInfo> = Vec::new();
    let mut i: usize = 0;
    while i < rows.len()
        invariant
            i <= rows@.len(),
            rows@.len() == model.len(),
            forall|r: int| 0 <= r < rows@.len() ==> spec_cells(#[trigger] rows@[r]) == model[r],
            forall|r: int| 0 <= r < model.len() ==> (#[trigger] model[r]).len() >= 6,
            mounts@.len() == i,
            forall|k: int| 0 <= k < i ==> spec_disk_of(#[trigger] mounts@[k], model[k]),
        decreases rows@.len() - i,
    {
        let row = &rows[i];
        assert(spec_cells(*row) == model[i as int]);
        assert(row@.len() == model[i as int].len());
        let disk = DiskInfo {
            filesystem: row[0].clone(),
            size: row[1].clone(),
            used: row[2].clone(),
            avail: row[3].clone(),
            percent: row[4].clone(),
            mount: row[5].clone(),
        };
        assert(spec_disk_of(disk, model[i as int])) by {
            assert(spec_cells(*row)[0] == row@[0]@);
            assert(spec_cells(*row)[1] == row@[1]@);
            assert(spec_cells(*row)[2] == row@[2]@);
            assert(spec_cells(*row)[3] == row@[3]@);
            assert(spec_cells(*row)[4] == row@[4]@);
            assert(spec_cells(*row)[5] == row@[5]@);
        }
        mounts.push(disk);
        i += 1;
    }
    mounts
}

/// The processes that the process table names, one for each row of at
/// least five cells, in order.
pub fn parse_processes(raw: &str) -> (processes: Vec<ProcessInfo>)
    ensures
        processes@.len() == spec_table_rows(raw@, 5).len(),
        forall|i: int|
            0 <= i < processes@.len() ==> spec_process_of(
                #[trigger] processes@[i],
                spec_table_rows(raw@, 5)[i],
            ),
{
    let rows = table_rows(raw, 5);
    let ghost model = spec_table_rows(raw@, 5);
    proof {
        lemma_rows_wide(raw@, 5);
    }
    let mut processes: Vec<ProcessInfo> = Vec::new();
    let mut i: usize = 0;
    while i < rows.len()
        invariant
            i <= rows@.len(),
            rows@.len() == model.len(),
            forall|r: int| 0 <= r < rows@.len() ==> spec_cells(#[trigger] rows@[r]) == model[r],
            forall|r: int| 0 <= r < model.len() ==> (#[trigger] model[r]).len() >= 5,
            processes@.len() == i,
            forall|k: int| 0 <= k < i ==> spec_process_of(#[trigger] processes@[k], model[k]),
        decreases rows@.len() - i,
    {
        let row = &rows[i];
        assert(spec_cells(*row) == model[i as int]);
        assert(row@.len() == model[i as int].len());
        let process = ProcessInfo {
            pid: row[0].clone(),
            command: row[1].clone(),
            cpu: row[2].clone(),
            memory: row[3].clone(),
            memory_percent: row[4].clone(),
        };
        assert(spec_process_of(process, model[i as int])) by {
            assert(spec_cells(*row)[0] == row@[0]@);
            assert(spec_cells(*row)[1] == row@[1]@);
            assert(spec_cells(*row)[2] == row@[2]@);
            assert(spec_cells(*row)[3] == row@[3]@);
            assert(spec_cells(*row)[4] == row@[4]@);
        }
        processes.push(process);
        i += 1;
    }
    processes
}

/// Every row of a table has at least the asked number of cells.
proof fn lemma_rows_wide(raw: Seq<char>, min: nat)
    ensures
        forall|r: int|
            0 <= r < spec_table_rows(raw, min).len() ==> (#[trigger] spec_table_rows(
                raw,
                min,
            )[r]).len() >= min,
{
    let lines = spec_split(raw, '\n');
    lemma_rows_first_wide(lines, min, lines.len() as int);
}

/// Every row among the first `n` lines has at least the asked number of cells.
proof fn lemma_rows_first_wide(lines: Seq<Seq<char>>, min: nat, n: int)
    ensures
        forall|r: int|
            0 <= r < spec_rows_first(lines, min, n).len() ==> (#[trigger] spec_rows_first(
                lines,
                min,
                n,
            )[r]).len() >= min,
    decreases n,
{
    if n > 0 {
        lemma_rows_first_wide(lines, min, n - 1);
        let prev = spec_rows_first(lines, min, n - 1);
        let cur = spec_rows_first(lines, min, n);
        assert forall|r: int| 0 <= r < cur.len() implies (#[trigger] cur[r]).len() >= min by {
            if r < prev.len() {
                assert(cur[r] == prev[r]);
            }
        }
    }
}

/// Index of the first mount at or after `from` whose mount point is
/// the root, or the number of mounts.
pub open spec fn spec_root_index(mounts: Seq<DiskInfo>, from: int) -> int
    decreases mounts.len() - from,
{
    if from < 0 || from >= mounts.len() {
        mounts.len() as int
    } else if mounts[from].mount@ == "/"@ {
        from
    } else {
        spec_root_index(mounts, from + 1)
    }
}

/// Index of the disk to show for a host: the first that is mounted at
/// the root, or the first of all where none is; none for no mounts.
pub fn root_disk(mounts: &Vec<DiskInfo>) -> (index: Option<usize>)
    ensures
        index == (if mounts@.len() == 0 {
            None
        } else if spec_root_index(mounts@, 0) < mounts@.len() {
            Some(spec_root_index(mounts@, 0) as usize)
        } else {
            Some(0usize)
        }),
{
    if mounts.len() == 0 {
        return None;
    }
    let mut i: usize = 0;
    while i < mounts.len()
        invariant
            i <= mounts@.len(),
            spec_root_index(mounts@, i as int) == spec_root_index(mounts@, 0),
        decreases mounts@.len() - i,
    {
        if same_text(mounts[i].mount.as_str(), "/") {
            return Some(i);
        }
        i += 1;
    }
    Some(0)
}

/// The memory figures that the memory line names: usage, total, used
/// and available, separated by `|`. A line with fewer parts gives none.
pub fn parse_memory(raw: &str) -> (memory: Option<MemoryInfo>)
    ensures
        match memory {
            Some(m) => {
                let parts = spec_split(raw@, '|');
                &&& parts.len() >= 4
                &&& m.usage@ == parts[0]
                &&& m.total@ == parts[1]
                &&& m.used@ == parts[2]
                &&& m.available@ == parts[3]
                &&& m.top_processes@.len() == 0
            },
            None => spec_split(raw@, '|').len() < 4,
        },
{
    let chars = chars_of(raw);
    let parts = split(&chars, '|');
    if parts.len() < 4 {
        return None;
    }
    Some(
        MemoryInfo {
            usage: string_of(&parts[0]),
            total: string_of(&parts[1]),
            used: string_of(&parts[2]),
            available: string_of(&parts[3]),
            top_processes: Vec::new(),
        },
    )
}

/// The first word of `text`, or `fallback` where it has none.
pub fn first_word_or(text: &str, fallback: &str) -> (word: String)
    ensures
        word@ == (if spec_words(text@).len() > 0 {
            spec_words(text@)[0]
        } else {
            fallback@
        }),
{
    let chars = chars_of(text);
    let w = words(&chars);
    if w.len() > 0 {
        string_of(&w[0])
    } else {
        let mut out = String::new();
        out.append(fallback);
        assert(out@ =~= fallback@);
        out
    }
}

/// The address to show for a host: the first that it printed, or `N/A`.
pub fn parse_ip(raw: &str) -> (ip: String)
    ensures
        ip@ == (if spec_words(raw@).len() > 0 {
            spec_words(raw@)[0]
        } else {
            "N/A"@
        }),
{
    first_word_or(raw, "N/A")
}

/// The uptime to show for a host: what it printed, or `N/A` for
/// nothing.
pub fn parse_uptime(raw: &str) -> (uptime: String)
    ensures
        uptime@ == (if raw@.len() == 0 {
            "N/A"@
        } else {
            raw@
        }),
{
    let mut out = String::new();
    if raw.unicode_len() == 0 {
        out.append("N/A");
        assert(out@ =~= "N/A"@);
    } else {
        out.append(raw);
        assert(out@ =~= raw@);
    }
    out
}

} // verus!
