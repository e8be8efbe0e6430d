//! Entries, the ordered documents that hold them, and their models.

use vstd::prelude::*;

use crate::json::{JsonData, JsonValue};

verus! {

/// Whether an entry is a constant to replay or an output to check.
#[derive(Clone, Copy, Debug, PartialEq, Eq, Structural)]
pub enum TestVectorEntryType {
    Const,
    Output,
}

/// The model of an optional string.
pub open spec fn opt_view(o: Option<String>) -> Option<Seq<char>> {
    match o {
        Some(s) => Some(s@),
        None => None,
    }
}

/// Equality of two optional strings by their contents.
pub fn opt_string_eq(a: &Option<String>, b: &Option<String>) -> (r: bool)
    ensures
        r == (opt_view(*a) == opt_view(*b)),
{
    match a {
        Some(x) => match b {
            Some(y) => *x == *y,
            None => false,
        },
        None => b.is_none(),
    }
}

/// A copy of an optional string.
pub fn opt_string_copy(a: &Option<String>) -> (r: Option<String>)
    ensures
        opt_view(r) == opt_view(*a),
{
    match a {
        Some(x) => Some(x.clone()),
        None => None,
    }
}

/// One observed value at one call site.
#[derive(Debug)]
pub struct TestVectorEntry {
    pub entry_type: TestVectorEntryType,
    pub description: Option<String>,
    pub name: Option<String>,
    pub value: JsonValue,
    pub code_location: Option<String>,
    pub test_vec_set_code_location: Option<String>,
    pub offload: bool,
}

/// The model of a [`TestVectorEntry`].
pub struct EntryModel {
    pub entry_type: TestVectorEntryType,
    pub description: Option<Seq<char>>,
    pub name: Option<Seq<char>>,
    pub value: JsonData,
    pub code_location: Option<Seq<char>>,
    pub test_vec_set_code_location: Option<Seq<char>>,
    pub offload: bool,
}

impl View for TestVectorEntry {
    type V = EntryModel;

    open spec fn view(&self) -> EntryModel {
        EntryModel {
            entry_type: self.entry_type,
            description: opt_view(self.description),
            name: opt_view(self.name),
            value: self.value@,
            code_location: opt_view(self.code_location),
            test_vec_set_code_location: opt_view(self.test_vec_set_code_location),
            offload: self.offload,
        }
    }
}

impl TestVectorEntry {
    /// Equality of every field.
    pub fn equals(&self, other: &TestVectorEntry) -> (r: bool)
        ensures
            r == (self@ == other@),
    {
        self.entry_type == other.entry_type && opt_string_eq(&self.description, &other.description)
            && opt_string_eq(&self.name, &other.name) && self.value.equals(&other.value)
            && opt_string_eq(&self.code_location, &other.code_location) && opt_string_eq(
            &self.test_vec_set_code_location,
            &other.test_vec_set_code_location,
        ) && self.offload == other.offload
    }

    /// A copy of the entry.
    pub fn duplicate(&self) -> (r: TestVectorEntry)
        ensures
            r@ == self@,
    {
        TestVectorEntry {
            entry_type: self.entry_type,
            description: opt_string_copy(&self.description),
            name: opt_string_copy(&self.name),
            value: self.value.duplicate(),
            code_location: opt_string_copy(&self.code_location),
            test_vec_set_code_location: opt_string_copy(&self.test_vec_set_code_location),
            offload: self.offload,
        }
    }
}

/// An ordered sequence of entries: the content of one test vector file.
#[derive(Debug)]
pub struct TestVectorData {
    pub entries: Vec<TestVectorEntry>,
}

/// The models of a run of entries, in order.
pub open spec fn entries_view(entries: Seq<TestVectorEntry>) -> Seq<EntryModel> {
    Seq::new(entries.len(), |i: int| entries[i]@)
}

impl View for TestVectorData {
    type V = Seq<EntryModel>;

    open spec fn view(&self) -> Seq<EntryModel> {
        entries_view(self.entries@)
    }
}

impl TestVectorData {
    /// A document with no entries.
    pub fn new() -> (r: TestVectorData)
        ensures
            r@ == Seq::<EntryModel>::empty(),
    {
        let r = TestVectorData { entries: Vec::new() };
        assert(r@ =~= Seq::<EntryModel>::empty());
        r
    }

    /// Equality of the two entry sequences, element by element.
    pub fn equals(&self, other: &TestVectorData) -> (r: bool)
        ensures
            r == (self@ == other@),
    {
        if self.entries.len() != other.entries.len() {
            assert(self@.len() != other@.len());
            return false;
        }
        let mut i: usize = 0;
        while i < self.entries.len()
            invariant
                0 <= i <= self.entries.len(),
                self.entries.len() == other.entries.len(),
                forall|k: int| 0 <= k < i ==> (#[trigger] self.entries[k])@ == other.entries[k]@,
            decreases self.entries.len() - i,
        {
            if !self.entries[i].equals(&other.entries[i]) {
                assert(self@[i as int] != other@[i as int]);
                return false;
            }
            i += 1;
        }
        assert(self@ =~= other@);
        true
    }

    /// A copy of the document.
    pub fn duplicate(&self) -> (r: TestVectorData)
        ensures
            r@ == self@,
    {
        let mut out: Vec<TestVectorEntry> = Vec::new();
        let mut i: usize = 0;
        while i < self.entries.len()
            invariant
                0 <= i <= self.entries.len(),
                out.len() == i,
                forall|k: int| 0 <= k < i ==> (#[trigger] out[k])@ == self.entries[k]@,
            decreases self.entries.len() - i,
        {
            out.push(self.entries[i].duplicate());
            i += 1;
        }
        let r = TestVectorData { entries: out };
        assert(r@ =~= self@);
        r
    }
}

} // verus!
