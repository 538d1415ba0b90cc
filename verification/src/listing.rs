//! Listing a remote directory.
//!
//! The transport lists raw entries. A listing leaves out `.` and `..`
//! and names that are no text, names the owner of each entry, and puts
//! directories first and names in ascending order. Owners are resolved
//! by a remote command, once per user; what cannot be resolved is shown
//! as `root` for user zero and as `-` otherwise.

use crate::models::FileEntry;
use crate::text::chars_of;
use crate::text::decimal;
use crate::text::join2;
use crate::text::spec_decimal;
use crate::text::spec_trim;
use crate::text::trim;
use crate::tree::is_dot;
use crate::tree::spec_is_dot;
use std::collections::HashMap;
use vstd::prelude::*;

verus! {

/// One entry as the transport lists it.
#[derive(Debug, Clone)]
pub struct RawEntry {
    /// The file name, where it is valid text.
    pub name: Option<String>,
    pub is_dir: bool,
    pub size: Option<u64>,
    pub mtime: Option<u64>,
    pub perm: Option<u32>,
    pub uid: Option<u32>,
}

/// The owner shown for a user that cannot be resolved.
pub open spec fn spec_default_owner(uid: u32) -> Seq<char> {
    if uid == 0 {
        "root"@
    } else {
        "-"@
    }
}

/// The owner shown for a numeric id whose name is not known.
pub fn default_owner(uid: u32) -> (owner: String)
    ensures
        owner@ == spec_default_owner(uid),
{
    let mut owner = String::new();
    if uid == 0 {
        owner.append("root");
        assert(owner@ =~= "root"@);
    } else {
        owner.append("-");
        assert(owner@ =~= "-"@);
    }
    owner
}

/// The command that prints the name of a user.
pub fn owner_command(uid: u32) -> (command: String)
    ensures
        command@ == "id -nu "@ + spec_decimal(uid as nat),
{
    let number = decimal(uid as u64);
    join2("id -nu ", number.as_str())
}

/// The owner to show for `uid`, given what the command printed, if it
/// ran: its output without surrounding white space, or the default
/// where that is empty.
pub open spec fn spec_owner_from(uid: u32, output: Option<Seq<char>>) -> Seq<char> {
    match output {
        Some(text) => if spec_trim(text).len() > 0 {
            spec_trim(text)
        } else {
            spec_default_owner(uid)
        },
        None => spec_default_owner(uid),
    }
}

/// The owner's name from what the lookup printed; the default where it printed
/// nothing or did not run.
pub fn owner_from_output(uid: u32, output: Option<&str>) -> (owner: String)
    ensures
        owner@ == spec_owner_from(
            uid,
            match output {
                Some(t) => Some(t@),
                None => None,
            },
        ),
{
    match output {
        Some(text) => {
            let name = trim(text);
            if name.as_str().unicode_len() > 0 {
                name
            } else {
                default_owner(uid)
            }
        },
        None => default_owner(uid),
    }
}

/// The names of the users resolved so far.
pub struct OwnerCache {
    names: HashMap<u32, String>,
}

impl OwnerCache {
    /// Whether `uid` is resolved.
    pub closed spec fn knows(&self, uid: u32) -> bool {
        self.names@.contains_key(uid)
    }

    /// The name kept for `uid`.
    pub closed spec fn name_of(&self, uid: u32) -> Seq<char>
        recommends
            self.knows(uid),
    {
        self.names@[uid]@
    }

    /// The owner shown for `uid`: the resolved name, or the default.
    pub open spec fn spec_owner(&self, uid: u32) -> Seq<char> {
        if self.knows(uid) {
            self.name_of(uid)
        } else {
            spec_default_owner(uid)
        }
    }

    /// A cache that knows no owner yet.
    pub fn new() -> (cache: Self)
        ensures
            forall|uid: u32| !cache.knows(uid),
    {
        OwnerCache { names: HashMap::new() }
    }

    /// Whether `uid` is resolved.
    pub fn contains(&self, uid: u32) -> (known: bool)
        ensures
            known == self.knows(uid),
    {
        self.names.contains_key(&uid)
    }

    /// The owner to show for `uid`.
    pub fn owner(&self, uid: u32) -> (owner: String)
        ensures
            owner@ == self.spec_owner(uid),
    {
        match self.names.get(&uid) {
            Some(name) => name.clone(),
            None => default_owner(uid),
        }
    }

    /// Keeps `name` for `uid`, unless the user is resolved already.
    pub fn record(&mut self, uid: u32, name: String)
        ensures
            final(self).knows(uid),
            old(self).knows(uid) ==> final(self).name_of(uid) == old(self).name_of(uid),
            !old(self).knows(uid) ==> final(self).name_of(uid) == name@,
            forall|other: u32|
                other != uid ==> final(self).knows(other) == old(self).knows(other) && (old(
                    self,
                ).knows(other) ==> final(self).name_of(other) == old(self).name_of(other)),
    {
        if !self.names.contains_key(&uid) {
            self.names.insert(uid, name);
        }
    }
}

/// Whether a raw entry appears in a listing: it has a name that is
/// text and is neither `.` nor `..`.
pub open spec fn spec_listed(raw: RawEntry) -> bool {
    raw.name matches Some(name) && !spec_is_dot(name@)
}

/// Whether the entry is shown: `.` and `..` are not, nor is one without a
/// name.
pub fn is_listed(raw: &RawEntry) -> (listed: bool)
    ensures
        listed == spec_listed(*raw),
{
    match &raw.name {
        Some(name) => !is_dot(name.as_str()),
        None => false,
    }
}

/// The user of a raw entry; zero where the transport names none.
pub open spec fn spec_uid(raw: RawEntry) -> u32 {
    match raw.uid {
        Some(uid) => uid,
        None => 0,
    }
}

/// An entry of a listing as a mathematical value.
pub ghost struct EntryModel {
    pub name: Seq<char>,
    pub is_dir: bool,
    pub size: u64,
    pub mtime: i64,
    pub permissions: u32,
    pub uid: u32,
    pub owner: Seq<char>,
}

/// The value of an entry.
pub open spec fn spec_model(entry: FileEntry) -> EntryModel {
    EntryModel {
        name: entry.name@,
        is_dir: entry.is_dir,
        size: entry.size,
        mtime: entry.mtime,
        permissions: entry.permissions,
        uid: entry.uid,
        owner: entry.owner@,
    }
}

/// The values of the entries of a listing, in its order.
pub open spec fn spec_models(entries: Seq<FileEntry>) -> Seq<EntryModel> {
    Seq::new(entries.len(), |i: int| spec_model(entries[i]))
}

/// What a listing shows for `raw` with this owner: what the transport
/// gave, zero where it gave nothing, and a time beyond the range of the
/// record as the latest time the record can hold.
pub open spec fn spec_show(raw: RawEntry, owner: Seq<char>) -> EntryModel {
    EntryModel {
        name: match raw.name {
            Some(name) => name@,
            None => Seq::<char>::empty(),
        },
        is_dir: raw.is_dir,
        size: match raw.size {
            Some(s) => s,
            None => 0,
        },
        mtime: match raw.mtime {
            Some(t) => if t <= i64::MAX {
                t as i64
            } else {
                i64::MAX
            },
            None => 0,
        },
        permissions: match raw.perm {
            Some(p) => p,
            None => 0,
        },
        uid: spec_uid(raw),
        owner,
    }
}

/// The entry that a listing shows for a raw entry, with the owner the
/// cache names. A time beyond the range of the record is shown as the
/// latest time the record can hold.
pub fn show_entry(raw: &RawEntry, cache: &OwnerCache) -> (entry: FileEntry)
    requires
        spec_listed(*raw),
    ensures
        spec_model(entry) == spec_show(*raw, cache.spec_owner(spec_uid(*raw))),
{
    let uid = match raw.uid {
        Some(uid) => uid,
        None => 0,
    };
    let name = match &raw.name {
        Some(name) => name.clone(),
        None => String::new(),
    };
    FileEntry {
        name,
        is_dir: raw.is_dir,
        size: match raw.size {
            Some(s) => s,
            None => 0,
        },
        mtime: match raw.mtime {
            Some(t) => if t <= 9223372036854775807 {
                t as i64
            } else {
                9223372036854775807
            },
            None => 0,
        },
        permissions: match raw.perm {
            Some(p) => p,
            None => 0,
        },
        uid,
        owner: cache.owner(uid),
    }
}

/// Whether `a` comes before `b`, or equals it, in the order of the
/// characters' code points, from position `from` on.
pub open spec fn spec_text_le(a: Seq<char>, b: Seq<char>, from: int) -> bool
    decreases a.len() - from,
{
    if from < 0 || from >= a.len() {
        true
    } else if from >= b.len() {
        false
    } else if (a[from] as u32) < (b[from] as u32) {
        true
    } else if (a[from] as u32) > (b[from] as u32) {
        false
    } else {
        spec_text_le(a, b, from + 1)
    }
}

/// The order of a listing: directories before files, and names in
/// ascending order among each.
pub open spec fn spec_entry_le(a: FileEntry, b: FileEntry) -> bool {
    if a.is_dir == b.is_dir {
        spec_text_le(a.name@, b.name@, 0)
    } else {
        a.is_dir
    }
}

/// Whether each entry of `s` is in order with its successor.
pub open spec fn spec_sorted(s: Seq<FileEntry>) -> bool {
    forall|i: int| 0 <= i < s.len() - 1 ==> spec_entry_le(#[trigger] s[i], s[i + 1])
}

/// Of two texts one is at most the other.
proof fn lemma_text_total(a: Seq<char>, b: Seq<char>, from: int)
    requires
        0 <= from,
        from <= a.len(),
        from <= b.len(),
    ensures
        spec_text_le(a, b, from) || spec_text_le(b, a, from),
    decreases a.len() - from,
{
    if from < a.len() && from < b.len() && (a[from] as u32) == (b[from] as u32) {
        lemma_text_total(a, b, from + 1);
    }
}

/// Of two entries one is at most the other.
proof fn lemma_entry_total(a: FileEntry, b: FileEntry)
    ensures
        spec_entry_le(a, b) || spec_entry_le(b, a),
{
    lemma_text_total(a.name@, b.name@, 0);
}

/// Whether `a` is at most `b`, character by character.
fn text_le(a: &Vec<char>, b: &Vec<char>) -> (le: bool)
    ensures
        le == spec_text_le(a@, b@, 0),
{
    let mut i: usize = 0;
    while i < a.len()
        invariant
            i <= a.len(),
            i <= b.len(),
            spec_text_le(a@, b@, i as int) == spec_text_le(a@, b@, 0),
        decreases a.len() - i,
    {
        if i >= b.len() {
            return false;
        }
        let x = a[i] as u32;
        let y = b[i] as u32;
        if x < y {
            return true;
        }
        if x > y {
            return false;
        }
        i += 1;
    }
    true
}

/// Whether `a` comes no later than `b` in a listing.
fn entry_le(a: &FileEntry, b: &FileEntry) -> (le: bool)
    ensures
        le == spec_entry_le(*a, *b),
{
    if a.is_dir == b.is_dir {
        let x = chars_of(a.name.as_str());
        let y = chars_of(b.name.as_str());
        text_le(&x, &y)
    } else {
        a.is_dir
    }
}

/// Puts the entries of a listing in order: directories first, names
/// ascending. The result holds the same entries, each as often as it was
/// given.
pub fn sort_entries(entries: Vec<FileEntry>) -> (sorted: Vec<FileEntry>)
    ensures
        spec_sorted(sorted@),
        sorted@.to_multiset() == entries@.to_multiset(),
        spec_models(sorted@).to_multiset() == spec_models(entries@).to_multiset(),
{
    let mut rest = entries;
    let mut out: Vec<FileEntry> = Vec::new();
    assert(out@.to_multiset().add(rest@.to_multiset()) =~= entries@.to_multiset()) by {
        assert(out@ =~= Seq::<FileEntry>::empty());
        out@.to_multiset_ensures();
        assert(out@.to_multiset().len() == 0);
    }
    assert(spec_models(out@).to_multiset().add(spec_models(rest@).to_multiset()) =~= spec_models(
        entries@,
    ).to_multiset()) by {
        assert(spec_models(out@) =~= Seq::<EntryModel>::empty());
        spec_models(out@).to_multiset_ensures();
        assert(spec_models(out@).to_multiset().len() == 0);
    }
    while rest.len() > 0
        invariant
            spec_sorted(out@),
            out@.to_multiset().add(rest@.to_multiset()) == entries@.to_multiset(),
            spec_models(out@).to_multiset().add(spec_models(rest@).to_multiset()) == spec_models(
                entries@,
            ).to_multiset(),
        decreases rest@.len(),
    {
        let ghost before = rest@;
        let ghost placed = out@;
        let item = rest.pop().unwrap();
        assert(before =~= rest@.push(item));
        let mut pos: usize = 0;
        while pos < out.len() && !entry_le(&item, &out[pos])
            invariant
                pos <= out@.len(),
                out@ == placed,
                forall|k: int| 0 <= k < pos ==> spec_entry_le(#[trigger] out@[k], item),
            decreases out@.len() - pos,
        {
            proof {
                lemma_entry_total(item, out@[pos as int]);
            }
            pos += 1;
        }
        out.insert(pos, item);
        proof {
            assert(out@ == placed.insert(pos as int, item));
            assert forall|i: int| 0 <= i < out@.len() - 1 implies spec_entry_le(
                #[trigger] out@[i],
                out@[i + 1],
            ) by {
                if i + 1 < pos {
                    assert(out@[i] == placed[i]);
                    assert(out@[i + 1] == placed[i + 1]);
                } else if i + 1 == pos {
                    assert(out@[i] == placed[i]);
                } else if i == pos {
                    assert(out@[i + 1] == placed[i]);
                } else {
                    assert(out@[i] == placed[i - 1]);
                    assert(out@[i + 1] == placed[i]);
                }
            }
            vstd::seq_lib::to_multiset_insert(placed, pos as int, item);
            vstd::seq_lib::to_multiset_build(rest@, item);
            assert(out@.to_multiset() =~= placed.to_multiset().insert(item));
            assert(before.to_multiset() =~= rest@.to_multiset().insert(item));
            assert(out@.to_multiset().add(rest@.to_multiset()) =~= placed.to_multiset().add(
                before.to_multiset(),
            ));
            let m = spec_model(item);
            assert(spec_models(out@) =~= spec_models(placed).insert(pos as int, m));
            assert(spec_models(before) =~= spec_models(rest@).push(m));
            vstd::seq_lib::to_multiset_insert(spec_models(placed), pos as int, m);
            vstd::seq_lib::to_multiset_build(spec_models(rest@), m);
            assert(spec_models(out@).to_multiset() =~= spec_models(placed).to_multiset().insert(m));
            assert(spec_models(before).to_multiset() =~= spec_models(rest@).to_multiset().insert(
                m,
            ));
            assert(spec_models(out@).to_multiset().add(spec_models(rest@).to_multiset())
                =~= spec_models(placed).to_multiset().add(spec_models(before).to_multiset()));
        }
    }
    assert(out@.to_multiset() =~= entries@.to_multiset()) by {
        assert(rest@ =~= Seq::<FileEntry>::empty());
        rest@.to_multiset_ensures();
        assert(rest@.to_multiset().len() == 0);
    }
    assert(spec_models(out@).to_multiset() =~= spec_models(entries@).to_multiset()) by {
        assert(spec_models(rest@) =~= Seq::<EntryModel>::empty());
        spec_models(rest@).to_multiset_ensures();
        assert(spec_models(rest@).to_multiset().len() == 0);
    }
    out
}

/// What is shown for the first `n` raw entries, in their order: one entry
/// for each that is listed, with its owner from the cache.
pub open spec fn spec_shown(raw: Seq<RawEntry>, n: int, cache: OwnerCache) -> Seq<EntryModel>
    decreases n,
{
    if n <= 0 {
        Seq::<EntryModel>::empty()
    } else if spec_listed(raw[n - 1]) {
        spec_shown(raw, n - 1, cache).push(
            spec_show(raw[n - 1], cache.spec_owner(spec_uid(raw[n - 1]))),
        )
    } else {
        spec_shown(raw, n - 1, cache)
    }
}

/// The listing of a directory: what is shown for the raw entries, each
/// listed entry once, put in listing order.
pub fn list_entries(raw: &Vec<RawEntry>, cache: &OwnerCache) -> (listing: Vec<FileEntry>)
    ensures
        spec_sorted(listing@),
        spec_models(listing@).to_multiset() == spec_shown(
            raw@,
            raw@.len() as int,
            *cache,
        ).to_multiset(),
{
    let mut shown: Vec<FileEntry> = Vec::new();
    let mut i: usize = 0;
    assert(spec_models(shown@) =~= spec_shown(raw@, 0, *cache));
    while i < raw.len()
        invariant
            i <= raw@.len(),
            spec_models(shown@) == spec_shown(raw@, i as int, *cache),
        decreases raw@.len() - i,
    {
        let ghost before = shown@;
        if is_listed(&raw[i]) {
            let entry = show_entry(&raw[i], cache);
            shown.push(entry);
            assert(spec_models(shown@) =~= spec_models(before).push(spec_model(entry)));
        }
        i += 1;
    }
    sort_entries(shown)
}

/// Whether one of the first `n` raw entries is listed and belongs to
/// `uid`.
pub open spec fn spec_wanted(raw: Seq<RawEntry>, n: int, uid: u32) -> bool
    decreases n,
{
    if n <= 0 {
        false
    } else {
        spec_wanted(raw, n - 1, uid) || (spec_listed(raw[n - 1]) && spec_uid(raw[n - 1]) == uid)
    }
}

/// The users of the listed entries that the cache has not resolved, each
/// once: those whose names are still to be asked for.
pub fn unresolved_owners(raw: &Vec<RawEntry>, cache: &OwnerCache) -> (uids: Vec<u32>)
    ensures
        forall|i: int, j: int| 0 <= i < j < uids@.len() ==> uids@[i] != uids@[j],
        forall|uid: u32|
            #![trigger uids@.contains(uid)]
            uids@.contains(uid) ==> !cache.knows(uid) && spec_wanted(raw@, raw@.len() as int, uid),
        forall|uid: u32|
            #![trigger spec_wanted(raw@, raw@.len() as int, uid)]
            spec_wanted(raw@, raw@.len() as int, uid) && !cache.knows(uid) ==> uids@.contains(uid),
{
    let mut uids: Vec<u32> = Vec::new();
    let mut i: usize = 0;
    while i < raw.len()
        invariant
            i <= raw@.len(),
            forall|a: int, b: int| 0 <= a < b < uids@.len() ==> uids@[a] != uids@[b],
            forall|uid: u32|
                #![trigger uids@.contains(uid)]
                uids@.contains(uid) ==> !cache.knows(uid) && spec_wanted(raw@, i as int, uid),
            forall|uid: u32|
                #![trigger spec_wanted(raw@, i as int, uid)]
                spec_wanted(raw@, i as int, uid) && !cache.knows(uid) ==> uids@.contains(uid),
        decreases raw@.len() - i,
    {
        let ghost before = uids@;
        let ghost mut added: Option<u32> = None;
        if is_listed(&raw[i]) {
            let uid = match raw[i].uid {
                Some(uid) => uid,
                None => 0,
            };
            if !cache.contains(uid) && !has_uid(&uids, uid) {
                uids.push(uid);
                proof {
                    added = Some(uid);
                }
            }
        }
        proof {
            let after = uids@;
            assert(added matches Some(u) ==> after == before.push(u) && !before.contains(u)
                && !cache.knows(u) && spec_listed(raw@[i as int]) && spec_uid(raw@[i as int]) == u);
            assert(added is None ==> after == before);
            assert forall|uid: u32| #![trigger after.contains(uid)] after.contains(uid) implies
                !cache.knows(uid) && spec_wanted(raw@, i + 1, uid) by {
                let j = after.index_of(uid);
                assert(0 <= j < after.len() && after[j] == uid);
                if j < before.len() {
                    assert(before[j] == uid);
                    assert(before.contains(uid));
                    assert(spec_wanted(raw@, i as int, uid));
                }
            }
            assert forall|uid: u32|
                #![trigger spec_wanted(raw@, i + 1, uid)]
                spec_wanted(raw@, i + 1, uid) && !cache.knows(uid) implies after.contains(uid) by {
                if spec_wanted(raw@, i as int, uid) {
                    assert(before.contains(uid));
                    let j = before.index_of(uid);
                    assert(0 <= j < before.len() && before[j] == uid);
                    assert(after[j] == uid);
                } else {
                    assert(spec_listed(raw@[i as int]) && spec_uid(raw@[i as int]) == uid);
                    if added is Some {
                        assert(after[before.len() as int] == uid);
                    } else {
                        assert(before.contains(uid));
                    }
                }
            }
        }
        i += 1;
    }
    uids
}

/// Whether `uid` is among `uids`.
fn has_uid(uids: &Vec<u32>, uid: u32) -> (found: bool)
    ensures
        found == uids@.contains(uid),
{
    let mut i: usize = 0;
    while i < uids.len()
        invariant
            i <= uids@.len(),
            forall|k: int| 0 <= k < i ==> uids@[k] != uid,
        decreases uids@.len() - i,
    {
        if uids[i] == uid {
            return true;
        }
        i += 1;
    }
    false
}

} // verus!
