//! The SD file list: which names are listed, their order (by name, ignoring
//! ASCII case), finding an entry again, and what the state shows after a
//! rescan or a viewer page.

use vstd::prelude::*;
use vstd::view::View as _;
use vstd::multiset::Multiset;
use crate::dashboard::{DashboardState, FileEntry, View};
use crate::files::lower;

verus! {

broadcast use vstd::seq_lib::group_to_multiset_ensures;

/// A name in ASCII lower case.
pub open spec fn lower_seq(s: Seq<char>) -> Seq<char> {
    s.map_values(|c: char| lower(c))
}

/// Lexicographic order of character sequences by code point (the order of
/// `str`'s comparison).
pub open spec fn lex_le(a: Seq<char>, b: Seq<char>) -> bool
    decreases a.len(),
{
    if a.len() == 0 {
        true
    } else if b.len() == 0 {
        false
    } else if a[0] != b[0] {
        (a[0] as int) < (b[0] as int)
    } else {
        lex_le(a.drop_first(), b.drop_first())
    }
}

/// Any two names compare one way or the other.
pub proof fn lex_le_total(a: Seq<char>, b: Seq<char>)
    ensures
        lex_le(a, b) || lex_le(b, a),
    decreases a.len(),
{
    if a.len() > 0 && b.len() > 0 {
        if a[0] == b[0] {
            lex_le_total(a.drop_first(), b.drop_first());
        } else {
            assert((a[0] as int) != (b[0] as int));
        }
    }
}

/// The order is transitive.
pub proof fn lex_le_transitive(a: Seq<char>, b: Seq<char>, c: Seq<char>)
    requires
        lex_le(a, b),
        lex_le(b, c),
    ensures
        lex_le(a, c),
    decreases a.len(),
{
    if a.len() > 0 && b.len() > 0 && c.len() > 0 && a[0] == b[0] && b[0] == c[0] {
        lex_le_transitive(a.drop_first(), b.drop_first(), c.drop_first());
    }
}

/// `a` sorts no later than `b` by name, ignoring ASCII case.
pub open spec fn name_le(a: FileEntry, b: FileEntry) -> bool {
    lex_le(lower_seq(a.name@), lower_seq(b.name@))
}

/// The list is in name order, ignoring ASCII case.
pub open spec fn sorted_by_name(files: Seq<FileEntry>) -> bool {
    forall|i: int, j: int| 0 <= i < j < files.len() ==> name_le(#[trigger] files[i], #[trigger] files[j])
}

fn lower_char(c: char) -> (l: char)
    ensures
        l == lower(c),
{
    if 'A' <= c && c <= 'Z' {
        ((c as u32 + 32) as u8) as char
    } else {
        c
    }
}

/// Compares two names ignoring ASCII case.
pub fn names_in_order(a: &str, b: &str) -> (r: bool)
    ensures
        r == lex_le(lower_seq(a@), lower_seq(b@)),
{
    let n = a.unicode_len();
    let m = b.unicode_len();
    let ghost la = lower_seq(a@);
    let ghost lb = lower_seq(b@);
    assert(la.subrange(0, n as int) =~= la);
    assert(lb.subrange(0, m as int) =~= lb);
    let mut i: usize = 0;
    while i < n && i < m
        invariant
            n == a@.len(),
            m == b@.len(),
            la == lower_seq(a@),
            lb == lower_seq(b@),
            i <= n,
            i <= m,
            forall|k: int| 0 <= k < i ==> #[trigger] la[k] == lb[k],
            lex_le(la, lb) == lex_le(la.subrange(i as int, n as int), lb.subrange(i as int, m as int)),
        decreases n - i,
    {
        let ca = lower_char(a.get_char(i));
        let cb = lower_char(b.get_char(i));
        assert(la.subrange(i as int, n as int)[0] == ca);
        assert(lb.subrange(i as int, m as int)[0] == cb);
        if ca != cb {
            return (ca as u32) < (cb as u32);
        }
        assert(la.subrange(i as int, n as int).drop_first() =~= la.subrange(i + 1, n as int));
        assert(lb.subrange(i as int, m as int).drop_first() =~= lb.subrange(i + 1, m as int));
        i = i + 1;
    }
    if i == n {
        assert(la.subrange(i as int, n as int).len() == 0);
        true
    } else {
        assert(lb.subrange(i as int, m as int).len() == 0);
        false
    }
}

/// Entries whose name is `key`, ignoring ASCII case.
pub open spec fn named_like(key: Seq<char>) -> spec_fn(FileEntry) -> bool {
    |e: FileEntry| lower_seq(e.name@) == key
}

/// Entries whose names compare equal come in the same order in both lists.
pub open spec fn same_order_of_equals(a: Seq<FileEntry>, b: Seq<FileEntry>) -> bool {
    forall|key: Seq<char>| #[trigger] a.filter(named_like(key)) == b.filter(named_like(key))
}

proof fn lex_le_reflexive(a: Seq<char>)
    ensures
        lex_le(a, a),
    decreases a.len(),
{
    if a.len() > 0 {
        lex_le_reflexive(a.drop_first());
    }
}

proof fn filter_push(s: Seq<FileEntry>, x: FileEntry, key: Seq<char>)
    ensures
        s.push(x).filter(named_like(key)) == (if lower_seq(x.name@) == key {
            s.filter(named_like(key)).push(x)
        } else {
            s.filter(named_like(key))
        }),
{
    reveal(Seq::filter);
    assert(s.push(x).drop_last() =~= s);
}

proof fn filter_none(s: Seq<FileEntry>, key: Seq<char>)
    requires
        forall|m: int| 0 <= m < s.len() ==> lower_seq(#[trigger] s[m].name@) != key,
    ensures
        s.filter(named_like(key)) == Seq::<FileEntry>::empty(),
    decreases s.len(),
{
    reveal(Seq::filter);
    if s.len() > 0 {
        filter_none(s.drop_last(), key);
        assert(lower_seq(s[s.len() - 1].name@) != key);
    }
}

/// Inserting `x` right after the last entry that sorts no later than it
/// appends `x` to the entries named like it and leaves the others alone.
proof fn insertion_keeps_equal_order(out: Seq<FileEntry>, j: int, x: FileEntry, key: Seq<char>)
    requires
        0 <= j <= out.len(),
        forall|m: int| j <= m < out.len() ==> !name_le(#[trigger] out[m], x),
    ensures
        out.insert(j, x).filter(named_like(key)) == (if lower_seq(x.name@) == key {
            out.filter(named_like(key)).push(x)
        } else {
            out.filter(named_like(key))
        }),
{
    let p = named_like(key);
    let a = out.subrange(0, j);
    let b = out.subrange(j, out.len() as int);
    assert(out =~= a + b);
    assert(out.insert(j, x) =~= a.push(x) + b);
    Seq::filter_distributes_over_add(a, b, p);
    Seq::filter_distributes_over_add(a.push(x), b, p);
    filter_push(a, x, key);
    if lower_seq(x.name@) == key {
        assert forall|m: int| 0 <= m < b.len() implies lower_seq(#[trigger] b[m].name@) != key by {
            assert(b[m] == out[j + m]);
            if lower_seq(b[m].name@) == key {
                lex_le_reflexive(key);
            }
        }
        filter_none(b, key);
        assert(b.filter(p) =~= Seq::<FileEntry>::empty());
        assert(a.filter(p).push(x) + b.filter(p) =~= (a.filter(p) + b.filter(p)).push(x));
    }
}

/// Sorts the file list by name ignoring ASCII case; entries whose names
/// compare equal keep their order.
pub fn sort_files(files: Vec<FileEntry>) -> (sorted: Vec<FileEntry>)
    ensures
        sorted_by_name(sorted@),
        sorted@.to_multiset() == files@.to_multiset(),
        sorted@.len() == files@.len(),
        same_order_of_equals(sorted@, files@),
{
    let ghost input0 = files@;
    let mut input = files;
    let mut out: Vec<FileEntry> = Vec::new();
    assert(input0.subrange(0, 0) =~= Seq::<FileEntry>::empty());
    assert(input0.subrange(0, input0.len() as int) =~= input0);
    proof {
        assert forall|key: Seq<char>| #[trigger] out@.filter(named_like(key)) == input0.subrange(
            0,
            0,
        ).filter(named_like(key)) by {
            reveal(Seq::filter);
        }
    }
    while input.len() > 0
        invariant
            sorted_by_name(out@),
            out@.to_multiset().add(input@.to_multiset()) == input0.to_multiset(),
            out@.len() + input@.len() == input0.len(),
            input@ == input0.subrange(out@.len() as int, input0.len() as int),
            forall|key: Seq<char>| #[trigger] out@.filter(named_like(key)) == input0.subrange(
                0,
                out@.len() as int,
            ).filter(named_like(key)),
        decreases input@.len(),
    {
        let ghost before_in = input@;
        let ghost before_out = out@;
        let x = input.remove(0);
        assert(input@ == before_in.remove(0));
        let mut j = out.len();
        while j > 0 && !names_in_order(out[j - 1].name.as_str(), x.name.as_str())
            invariant
                j <= out@.len(),
                out@ == before_out,
                sorted_by_name(out@),
                forall|m: int| j <= m < out@.len() ==> !name_le(#[trigger] out@[m], x),
            decreases j,
        {
            j = j - 1;
        }
        proof {
            assert forall|m: int| j <= m < out@.len() implies name_le(x, #[trigger] out@[m]) by {
                lex_le_total(lower_seq(x.name@), lower_seq(out@[m].name@));
            }
            if j > 0 {
                assert(name_le(out@[j - 1], x));
                assert forall|m: int| 0 <= m < j implies name_le(#[trigger] out@[m], x) by {
                    if m < j - 1 {
                        lex_le_transitive(
                            lower_seq(out@[m].name@),
                            lower_seq(out@[j - 1].name@),
                            lower_seq(x.name@),
                        );
                    }
                }
            }
        }
        out.insert(j, x);
        proof {
            let s = before_out.insert(j as int, x);
            assert(out@ == s);
            assert forall|p: int, q: int| 0 <= p < q < s.len() implies name_le(
                #[trigger] s[p],
                #[trigger] s[q],
            ) by {
                if q < j {
                } else if q == j {
                    assert(s[p] == before_out[p]);
                } else if p == j {
                    assert(s[q] == before_out[q - 1]);
                } else if p < j {
                    assert(s[q] == before_out[q - 1]);
                    assert(s[p] == before_out[p]);
                } else {
                    assert(s[q] == before_out[q - 1]);
                    assert(s[p] == before_out[p - 1]);
                }
            }
            assert(before_in.remove(0).to_multiset() == before_in.to_multiset().remove(
                before_in[0],
            ));
            assert(s.to_multiset() == before_out.to_multiset().insert(x));
            assert(out@.to_multiset().add(input@.to_multiset()) =~= before_out.to_multiset().add(
                before_in.to_multiset(),
            ));
            let c = before_out.len() as int;
            assert(x == input0[c]);
            assert(input0.subrange(0, c + 1) =~= input0.subrange(0, c).push(x));
            assert(input@ =~= input0.subrange(c + 1, input0.len() as int));
            assert forall|key: Seq<char>| #[trigger] out@.filter(named_like(key)) == input0.subrange(
                0,
                out@.len() as int,
            ).filter(named_like(key)) by {
                insertion_keeps_equal_order(before_out, j as int, x, key);
                filter_push(input0.subrange(0, c), x, key);
            }
        }
    }
    assert(input@.to_multiset() =~= Multiset::<FileEntry>::empty());
    assert(out@.to_multiset() =~= input0.to_multiset());
    assert(input0.subrange(0, out@.len() as int) =~= input0);
    out
}

/// A name the touch board lists: no hidden file or hidden directory on its
/// path.
pub open spec fn spec_visible_name(name: Seq<char>) -> bool {
    !(name.len() > 0 && name[0] == '.') && !(exists|i: int|
        0 <= i < name.len() - 1 && #[trigger] name[i] == '/' && name[i + 1] == '.')
}

pub fn visible_name(name: &str) -> (r: bool)
    ensures
        r == spec_visible_name(name@),
{
    let n = name.unicode_len();
    if n > 0 && name.get_char(0) == '.' {
        return false;
    }
    let mut i: usize = 0;
    while n > 0 && i < n - 1
        invariant
            n == name@.len(),
            i <= n,
            forall|k: int| 0 <= k < i && k < n - 1 ==> !(#[trigger] name@[k] == '/' && name@[k + 1] == '.'),
        decreases n - i,
    {
        if name.get_char(i) == '/' && name.get_char(i + 1) == '.' {
            return false;
        }
        i = i + 1;
    }
    true
}

/// Index of the first entry named `name`.
pub fn find_file(files: &Vec<FileEntry>, name: &str) -> (r: Option<usize>)
    ensures
        r matches Some(i) ==> i < files@.len() && files@[i as int].name@ == name@ && forall|k: int|
            0 <= k < i ==> #[trigger] files@[k].name@ != name@,
        r is None ==> forall|k: int| 0 <= k < files@.len() ==> #[trigger] files@[k].name@ != name@,
{
    let target = String::from_str(name);
    let mut i: usize = 0;
    while i < files.len()
        invariant
            i <= files@.len(),
            target@ == name@,
            forall|k: int| 0 <= k < i ==> #[trigger] files@[k].name@ != name@,
        decreases files@.len() - i,
    {
        if files[i].name == target {
            return Some(i);
        }
        i = i + 1;
    }
    None
}

/// The selection after a rescan: kept, but never past the last entry.
pub open spec fn clamped_index(index: usize, len: nat) -> usize {
    let last: int = if len > 0 {
        len - 1
    } else {
        0
    };
    if index > last {
        last as usize
    } else {
        index
    }
}

/// The reflective board rescanned the card: the new list, the selection
/// clamped to it.
pub fn files_refreshed(state: &mut DashboardState, files: Vec<FileEntry>)
    ensures
        *final(state) == (DashboardState {
            files,
            file_index: clamped_index(old(state).file_index, files@.len()),
            ..*old(state)
        }),
{
    let last = if files.len() > 0 {
        files.len() - 1
    } else {
        0
    };
    let index = if state.file_index > last {
        last
    } else {
        state.file_index
    };
    state.files = files;
    state.file_index = index;
}

/// The touch board remounted and rescanned the card: it is mounted and
/// healthy, its sizes in KiB, the new list, the selection clamped to it.
pub fn storage_refreshed(
    state: &mut DashboardState,
    capacity_bytes: u64,
    free_bytes: u64,
    files: Vec<FileEntry>,
)
    ensures
        *final(state) == (DashboardState {
            files,
            file_index: clamped_index(old(state).file_index, files@.len()),
            storage: crate::telemetry::StorageTelemetry {
                mounted: true,
                health: crate::telemetry::Health::Healthy,
                total_kib: capacity_bytes / 1024,
                free_kib: free_bytes / 1024,
                ..old(state).storage
            },
            ..*old(state)
        }),
{
    state.storage.mounted = true;
    state.storage.health = crate::telemetry::Health::Healthy;
    state.storage.total_kib = capacity_bytes / 1024;
    state.storage.free_kib = free_bytes / 1024;
    files_refreshed(state, files);
}

/// Where a viewer page starts: the requested offset, but not past the end.
pub fn viewer_start(offset: u64, size: u64) -> (start: u64)
    ensures
        start == (if offset < size {
            offset
        } else {
            size
        }),
{
    if offset < size {
        offset
    } else {
        size
    }
}

/// A page of `name` was read at `offset`: the viewer shows it, and the next
/// page starts after the `consumed` bytes.
pub fn viewer_page_loaded(
    state: &mut DashboardState,
    name: String,
    size: u64,
    offset: u64,
    preview: String,
    consumed: u64,
)
    ensures
        *final(state) == (DashboardState {
            viewer_name: name,
            viewer_size: size,
            viewer_offset: offset,
            viewer_next_offset: (if offset + consumed > u64::MAX {
                u64::MAX as int
            } else {
                offset + consumed
            }) as u64,
            viewer_preview: preview,
            view: View::Viewer,
            ..*old(state)
        }),
{
    state.viewer_name = name;
    state.viewer_size = size;
    state.viewer_offset = offset;
    state.viewer_next_offset = offset.saturating_add(consumed);
    state.viewer_preview = preview;
    state.view = View::Viewer;
}

/// The card scan lists at most this many files.
pub const MAX_LISTED: usize = 128;

/// The card scan descends at most this many directories deep.
pub const MAX_DEPTH: u8 = 4;

/// Whether the card scan goes on at `depth` with `listed` files found: it
/// stops below four levels and at 128 files.
pub fn scan_may_continue(depth: u8, listed: usize) -> (r: bool)
    ensures
        r == (depth <= MAX_DEPTH && listed < MAX_LISTED),
{
    depth <= MAX_DEPTH && listed < MAX_LISTED
}

} // verus!
