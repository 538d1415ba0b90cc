//! Commands sent to a remote host and what is made of their output.

use crate::models::FileEntry;
use crate::records::file_name;
use crate::records::spec_file_name;
use crate::text::chars_of;
use crate::text::contains;
use crate::text::contains_chars;
use crate::text::has_substring;
use crate::text::spec_split;
use crate::text::spec_trim;
use crate::text::split;
use crate::text::string_of;
use crate::text::trim;
use crate::text::trim_chars;
use vstd::prelude::*;

verus! {

/// The command that finds the files under `path` whose names hold
/// `query`.
pub fn search_command(path: &str, query: &str) -> (command: String)
    ensures
        command@ == "find '"@ + path@ + "' -name '*"@ + query@ + "*'"@,
{
    let mut command = String::new();
    command.append("find '");
    command.append(path);
    command.append("' -name '*");
    command.append(query);
    command.append("*'");
    assert(command@ =~= "find '"@ + path@ + "' -name '*"@ + query@ + "*'"@);
    command
}

/// The names found in the first `n` lines of the output of a search:
/// the file name of each line that is not blank.
pub open spec fn spec_found_first(lines: Seq<Seq<char>>, n: int) -> Seq<Seq<char>>
    decreases n,
{
    if n <= 0 {
        Seq::empty()
    } else if spec_trim(lines[n - 1]).len() == 0 {
        spec_found_first(lines, n - 1)
    } else {
        spec_found_first(lines, n - 1).push(spec_file_name(spec_trim(lines[n - 1])))
    }
}

/// The names found by a search.
pub open spec fn spec_found(output: Seq<char>) -> Seq<Seq<char>> {
    let lines = spec_split(output, '\n');
    spec_found_first(lines, lines.len() as int)
}

/// Whether `entry` is what a search shows for a name: the name and
/// nothing else.
pub open spec fn spec_found_entry(entry: FileEntry, name: Seq<char>) -> bool {
    &&& entry.name@ == name
    &&& !entry.is_dir
    &&& entry.size == 0
    &&& entry.mtime == 0
    &&& entry.permissions == 0
    &&& entry.uid == 0
    &&& entry.owner@.len() == 0
}

/// The entries that a search found: one for each line of its output
/// that is not blank, named after the file of that line.
pub fn search_entries(output: &str) -> (entries: Vec<FileEntry>)
    ensures
        entries@.len() == spec_found(output@).len(),
        forall|i: int|
            0 <= i < entries@.len() ==> spec_found_entry(#[trigger] entries@[i], spec_found(output@)[i]),
{
    let chars = chars_of(output);
    let lines = split(&chars, '\n');
    let ghost model = spec_split(output@, '\n');
    let mut entries: Vec<FileEntry> = Vec::new();
    let mut i: usize = 0;
    while i < lines.len()
        invariant
            i <= lines@.len(),
            lines@.len() == model.len(),
            forall|k: int| 0 <= k < lines@.len() ==> (#[trigger] lines@[k])@ == model[k],
            entries@.len() == spec_found_first(model, i as int).len(),
            forall|k: int|
                0 <= k < entries@.len() ==> spec_found_entry(
                    #[trigger] entries@[k],
                    spec_found_first(model, i as int)[k],
                ),
        decreases lines@.len() - i,
    {
        let line = trim_chars(&lines[i]);
        if line.len() > 0 {
            let text = string_of(&line);
            let name = file_name(text.as_str());
            entries.push(
                FileEntry {
                    name,
                    is_dir: false,
                    size: 0,
                    mtime: 0,
                    permissions: 0,
                    uid: 0,
                    owner: String::new(),
                },
            );
        }
        i += 1;
    }
    entries
}

/// `c` in upper case, where it is one of the lower-case letters `a` to
/// `z`.
pub open spec fn spec_upper(c: char) -> char {
    if 'a' <= c <= 'z' {
        ((c as u8) - 32) as char
    } else {
        c
    }
}

/// `s` with its letters `a` to `z` in upper case.
pub open spec fn spec_to_upper(s: Seq<char>) -> Seq<char> {
    Seq::new(s.len(), |i: int| spec_upper(s[i]))
}

/// The text with its ASCII letters in upper case.
fn to_upper(s: &Vec<char>) -> (out: Vec<char>)
    ensures
        out@ == spec_to_upper(s@),
{
    let mut out: Vec<char> = Vec::new();
    let mut i: usize = 0;
    while i < s.len()
        invariant
            i <= s.len(),
            out@ == spec_to_upper(s@).take(i as int),
        decreases s.len() - i,
    {
        let c = s[i];
        let u = if c >= 'a' && c <= 'z' {
            ((c as u8) - 32) as char
        } else {
            c
        };
        out.push(u);
        i += 1;
        assert(out@ =~= spec_to_upper(s@).take(i as int));
    }
    assert(spec_to_upper(s@).take(s@.len() as int) =~= spec_to_upper(s@));
    out
}

/// The operating system that the answer to `uname -s` names, if it
/// names one: none for an empty answer and for the shell's complaint
/// that there is no such command; `Windows` for the Unix layers on
/// Windows; the answer itself otherwise. Letters are compared without
/// regard to case.
pub open spec fn spec_classify_uname(output: Seq<char>) -> Option<Seq<char>> {
    let os = spec_trim(output);
    let upper = spec_to_upper(os);
    if os.len() == 0 || has_substring(upper, "COMMAND NOT FOUND"@) {
        None
    } else if has_substring(upper, "MINGW"@) || has_substring(upper, "CYGWIN"@) || has_substring(
        upper,
        "MSYS"@,
    ) {
        Some("Windows"@)
    } else {
        Some(os)
    }
}

/// The operating system that the output of `uname` names, if it names one.
pub fn classify_uname(output: &str) -> (os: Option<String>)
    ensures
        match spec_classify_uname(output@) {
            Some(name) => os matches Some(o) && o@ == name,
            None => os is None,
        },
{
    let chars = chars_of(output);
    let name = trim_chars(&chars);
    let upper = to_upper(&name);
    if name.len() == 0 || contains_chars(&upper, &chars_of("COMMAND NOT FOUND")) {
        return None;
    }
    if contains_chars(&upper, &chars_of("MINGW")) || contains_chars(&upper, &chars_of("CYGWIN"))
        || contains_chars(&upper, &chars_of("MSYS")) {
        let mut w = String::new();
        w.append("Windows");
        assert(w@ =~= "Windows"@);
        return Some(w);
    }
    Some(string_of(&name))
}

/// The operating system that the answer to the Windows version command
/// names: `Windows` where it says so, `Unknown` otherwise.
pub fn classify_ver(output: &str) -> (os: String)
    ensures
        os@ == (if has_substring(output@, "Microsoft Windows"@) {
            "Windows"@
        } else {
            "Unknown"@
        }),
{
    let mut os = String::new();
    if contains(output, "Microsoft Windows") {
        os.append("Windows");
        assert(os@ =~= "Windows"@);
    } else {
        os.append("Unknown");
        assert(os@ =~= "Unknown"@);
    }
    os
}

/// The working directory that `pwd` printed.
pub fn working_directory(output: &str) -> (dir: String)
    ensures
        dir@ == spec_trim(output@),
{
    trim(output)
}

} // verus!
