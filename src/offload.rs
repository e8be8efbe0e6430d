//! Values stored out of line: sidecar names, and moving values between a
//! document and its sidecars.

use vstd::prelude::*;

use crate::entry::{EntryModel, TestVectorData, TestVectorEntry};
use crate::error::TvError;
use crate::json::{JsonData, JsonValue};
use crate::text::{decimal, push_decimal, push_str};

verus! {

/// The characters after the last `/` of a path.
pub open spec fn last_component(p: Seq<char>) -> Seq<char>
    decreases p.len(),
{
    if p.len() == 0 {
        p
    } else if p.last() == '/' {
        Seq::empty()
    } else {
        last_component(p.drop_last()).push(p.last())
    }
}

/// The path without its trailing separators and `.` components: `dir/a/`
/// and `dir/a/.` both become `dir/a`.
pub open spec fn trimmed(p: Seq<char>) -> Seq<char>
    decreases p.len(),
{
    if p.len() > 0 && p.last() == '/' {
        trimmed(p.drop_last())
    } else if p.len() >= 2 && p.last() == '.' && p[p.len() - 2] == '/' {
        trimmed(p.drop_last())
    } else {
        p
    }
}

/// The file name of a path: its last component once trailing separators and
/// `.` components are skipped.
pub open spec fn file_name(p: Seq<char>) -> Seq<char> {
    last_component(trimmed(p))
}

/// Whether a path names a file: its file name is neither empty, `.` nor `..`.
pub open spec fn has_file_name(p: Seq<char>) -> bool {
    let c = file_name(p);
    c.len() > 0 && c != seq!['.'] && c != seq!['.', '.']
}

/// The sibling of `p` whose name is the file name of `p` followed by
/// `suffix`; a path that names no file stays as it is.
pub open spec fn with_suffix(p: Seq<char>, suffix: Seq<char>) -> Seq<char> {
    if has_file_name(p) {
        trimmed(p) + suffix
    } else {
        p
    }
}

/// The suffix that names the sidecar of the entry at `index`.
pub open spec fn sidecar_suffix(index: nat) -> Seq<char> {
    seq!['_', 'o', 'f', 'f', 'l', 'o', 'a', 'd', 'e', 'd', '_', 'v', 'a', 'l', 'u', 'e', '_']
        + decimal(index) + seq!['.', 'z', 's', 't', 'd']
}

/// The sidecar file of the entry at `index` of the file at `p`.
pub open spec fn sidecar_path(p: Seq<char>, index: nat) -> Seq<char> {
    with_suffix(p, sidecar_suffix(index))
}

proof fn lemma_last_component(p: Seq<char>, k: int)
    requires
        0 <= k <= p.len(),
        k == 0 || p[k - 1] == '/',
        forall|j: int| k <= j < p.len() ==> p[j] != '/',
    ensures
        last_component(p) == p.subrange(k, p.len() as int),
    decreases p.len(),
{
    if p.len() == k {
        if p.len() > 0 {
            assert(p.last() == '/');
        }
        assert(p.subrange(k, p.len() as int) =~= Seq::<char>::empty());
    } else {
        lemma_last_component(p.drop_last(), k);
        assert(p.subrange(k, p.len() as int) =~= p.drop_last().subrange(k, p.len() - 1).push(
            p.last(),
        ));
    }
}

/// Appends `suffix` to the file name of `path`, giving a sibling of the
/// file; a path that names no file is returned as it is.
pub fn append_suffix_to_filename(path: &str, suffix: &str) -> (r: String)
    ensures
        r@ == with_suffix(path@, suffix@),
{
    let n = path.unicode_len();
    let mut end = n;
    assert(path@.subrange(0, n as int) =~= path@);
    while end > 0 && (path.get_char(end - 1) == '/' || (end >= 2 && path.get_char(end - 1) == '.'
        && path.get_char(end - 2) == '/'))
        invariant
            0 <= end <= n,
            n == path@.len(),
            trimmed(path@) == trimmed(path@.subrange(0, end as int)),
        decreases end,
    {
        assert(path@.subrange(0, end as int).drop_last() =~= path@.subrange(0, end - 1));
        end -= 1;
    }
    let ghost t = path@.subrange(0, end as int);
    assert(trimmed(t) == t);
    let mut start = end;
    while start > 0 && path.get_char(start - 1) != '/'
        invariant
            0 <= start <= end <= n,
            n == path@.len(),
            t == path@.subrange(0, end as int),
            forall|j: int| start <= j < end ==> t[j] != '/',
        decreases start,
    {
        start -= 1;
    }
    proof {
        lemma_last_component(t, start as int);
    }
    let len = end - start;
    let is_dot = len == 1 && path.get_char(start) == '.';
    let is_dot_dot = len == 2 && path.get_char(start) == '.' && path.get_char(start + 1) == '.';
    proof {
        let c = file_name(path@);
        assert(c == t.subrange(start as int, end as int));
        if len == 1 && !is_dot {
            assert(c[0] != '.');
            assert(c != seq!['.']);
        }
        if len == 2 && !is_dot_dot {
            assert(c[0] != '.' || c[1] != '.');
            assert(c != seq!['.', '.']);
        }
        if is_dot {
            assert(c =~= seq!['.']);
        }
        if is_dot_dot {
            assert(c =~= seq!['.', '.']);
        }
    }
    if len > 0 && !is_dot && !is_dot_dot {
        let mut r = crate::text::substring(path, 0, end);
        push_str(&mut r, suffix);
        r
    } else {
        path.to_owned()
    }
}

/// The path of the sidecar that holds the value of the entry at `index`.
pub fn offloaded_value_path(tv_file_path: &str, index: usize) -> (r: String)
    ensures
        r@ == sidecar_path(tv_file_path@, index as nat),
{
    let mut suffix = String::new();
    push_str(&mut suffix, "_offloaded_value_");
    push_decimal(&mut suffix, index);
    push_str(&mut suffix, ".zstd");
    proof {
        reveal_strlit("_offloaded_value_");
        reveal_strlit(".zstd");
        assert(suffix@ =~= sidecar_suffix(index as nat));
    }
    append_suffix_to_filename(tv_file_path, suffix.as_str())
}

/// A value taken out of a document, with the position of its entry and the
/// sidecar that holds it.
#[derive(Debug)]
pub struct OffloadedValue {
    pub index: usize,
    pub path: String,
    pub value: JsonValue,
}

/// The entries with the value of each offloaded one replaced by null.
pub open spec fn stripped(entries: Seq<EntryModel>) -> Seq<EntryModel> {
    Seq::new(
        entries.len(),
        |i: int|
            if entries[i].offload {
                EntryModel { value: JsonData::Null, ..entries[i] }
            } else {
                entries[i]
            },
    )
}

/// What the sidecars of a document hold, by position: the value of each
/// offloaded entry.
pub open spec fn sidecar_values(entries: Seq<EntryModel>) -> Seq<Option<JsonData>> {
    Seq::new(
        entries.len(),
        |i: int|
            if entries[i].offload {
                Some(entries[i].value)
            } else {
                None
            },
    )
}

/// The entries with the value of each offloaded one taken from `values` at
/// its position.
pub open spec fn restored(entries: Seq<EntryModel>, values: Seq<Option<JsonData>>) -> Seq<
    EntryModel,
> {
    Seq::new(
        entries.len(),
        |i: int|
            if entries[i].offload {
                EntryModel { value: values[i]->Some_0, ..entries[i] }
            } else {
                entries[i]
            },
    )
}

/// Whether every offloaded entry has a value in `values` at its position.
pub open spec fn all_resolved(entries: Seq<EntryModel>, values: Seq<Option<JsonData>>) -> bool {
    forall|i: int|
        0 <= i < entries.len() && (#[trigger] entries[i]).offload ==> i < values.len()
            && values[i] is Some
}

/// The positions of the offloaded entries, in order.
pub open spec fn offload_positions(entries: Seq<EntryModel>) -> Seq<int>
    decreases entries.len(),
{
    if entries.len() == 0 {
        Seq::empty()
    } else {
        let before = offload_positions(entries.drop_last());
        if entries.last().offload {
            before.push(entries.len() - 1)
        } else {
            before
        }
    }
}

/// The models of what the sidecars hold, by position.
pub open spec fn options_view(values: Seq<Option<JsonValue>>) -> Seq<Option<JsonData>> {
    Seq::new(
        values.len(),
        |i: int|
            match values[i] {
                Some(v) => Some(v@),
                None => None,
            },
    )
}

impl TestVectorData {
    /// Takes the value of every offloaded entry out of the document, leaving
    /// null in its place, and lists each with the sidecar that is to hold it,
    /// in the order of the entries.
    pub fn save_offloaded_values(&mut self, tv_file_path: &str) -> (r: Vec<OffloadedValue>)
        ensures
            final(self)@ == stripped(old(self)@),
            r.len() == offload_positions(old(self)@).len(),
            forall|k: int|
                #![trigger r[k]]
                0 <= k < r.len() ==> {
                    let i = r[k].index as int;
                    &&& i == offload_positions(old(self)@)[k]
                    &&& r[k].value@ == old(self)@[i].value
                    &&& r[k].path@ == sidecar_path(tv_file_path@, i as nat)
                },
    {
        let ghost before = self@;
        let mut kept: Vec<TestVectorEntry> = Vec::new();
        let mut out: Vec<OffloadedValue> = Vec::new();
        let mut i: usize = 0;
        while i < self.entries.len()
            invariant
                0 <= i <= self.entries.len(),
                self@ == before,
                kept.len() == i,
                forall|j: int| 0 <= j < i ==> (#[trigger] kept[j])@ == stripped(before)[j],
                out.len() == offload_positions(before.subrange(0, i as int)).len(),
                forall|k: int|
                    #![trigger out[k]]
                    0 <= k < out.len() ==> {
                        let x = out[k].index as int;
                        &&& x == offload_positions(before.subrange(0, i as int))[k]
                        &&& out[k].value@ == before[x].value
                        &&& out[k].path@ == sidecar_path(tv_file_path@, x as nat)
                    },
            decreases self.entries.len() - i,
        {
            let entry = &self.entries[i];
            assert(entry@ == before[i as int]);
            assert(before.subrange(0, i + 1).drop_last() =~= before.subrange(0, i as int));
            if entry.offload {
                out.push(
                    OffloadedValue {
                        index: i,
                        path: offloaded_value_path(tv_file_path, i),
                        value: entry.value.duplicate(),
                    },
                );
                let mut copy = entry.duplicate();
                copy.value = JsonValue::Null;
                kept.push(copy);
            } else {
                kept.push(entry.duplicate());
            }
            i += 1;
        }
        self.entries = kept;
        assert(before.subrange(0, i as int) =~= before);
        assert(self@ =~= stripped(before));
        out
    }

    /// Puts back the value of every offloaded entry: `offloaded[i]` is what
    /// the sidecar of the entry at position `i` holds, if it could be read.
    /// Fails, leaving the document as it was, when an offloaded entry has no
    /// value there.
    pub fn load_offloaded_values(&mut self, offloaded: &Vec<Option<JsonValue>>) -> (r: Result<
        (),
        TvError,
    >)
        ensures
            r is Ok <==> all_resolved(old(self)@, options_view(offloaded@)),
            r is Err ==> r->Err_0 is Load && final(self)@ == old(self)@,
            r is Ok ==> final(self)@ == restored(old(self)@, options_view(offloaded@)),
    {
        let ghost before = self@;
        let ghost values = options_view(offloaded@);
        let mut i: usize = 0;
        while i < self.entries.len()
            invariant
                0 <= i <= self.entries.len(),
                self@ == before,
                values == options_view(offloaded@),
                forall|j: int|
                    0 <= j < i && (#[trigger] before[j]).offload ==> j < values.len()
                        && values[j] is Some,
            decreases self.entries.len() - i,
        {
            if self.entries[i].offload && (i >= offloaded.len() || offloaded[i].is_none()) {
                assert(before[i as int].offload);
                let mut message = String::new();
                push_str(&mut message, "offloaded value is missing or unreadable, entry index ");
                push_decimal(&mut message, i);
                return Err(TvError::Load { message });
            }
            i += 1;
        }
        let mut entries: Vec<TestVectorEntry> = Vec::new();
        let mut i: usize = 0;
        while i < self.entries.len()
            invariant
                0 <= i <= self.entries.len(),
                self@ == before,
                values == options_view(offloaded@),
                all_resolved(before, values),
                entries.len() == i,
                forall|j: int| 0 <= j < i ==> (#[trigger] entries[j])@ == restored(before, values)[j],
            decreases self.entries.len() - i,
        {
            let entry = &self.entries[i];
            assert(entry@ == before[i as int]);
            let mut copy = entry.duplicate();
            if entry.offload {
                assert(before[i as int].offload);
                match &offloaded[i] {
                    Some(v) => {
                        copy.value = v.duplicate();
                    },
                    None => {},
                }
            }
            entries.push(copy);
            i += 1;
        }
        self.entries = entries;
        assert(self@ =~= restored(before, values));
        Ok(())
    }
}

} // verus!
