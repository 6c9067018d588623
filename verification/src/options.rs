//! The option mapping that accompanies an audio call: names bound to loosely
//! typed values, and the decoders that read one name out of it.

use vstd::prelude::*;
use crate::text::same_text;

verus! {

/// The value bound to an option name, as the host supplied it.
#[derive(Debug, Clone, PartialEq, Eq)]
pub enum OptionValue {
    /// The marker that stands for "not provided".
    Absent,
    /// A string.
    Text(String),
    /// A single-precision number, carried as its IEEE 754 bit pattern.
    Number(u32),
    /// A value that is neither the marker, nor a string, nor a number.
    Other,
}

/// What an [`OptionValue`] holds, as mathematical values.
pub enum ValueView {
    Absent,
    Text(Seq<char>),
    Number(u32),
    Other,
}

impl View for OptionValue {
    type V = ValueView;

    open spec fn view(&self) -> ValueView {
        match self {
            OptionValue::Absent => ValueView::Absent,
            OptionValue::Text(text) => ValueView::Text(text@),
            OptionValue::Number(bits) => ValueView::Number(*bits),
            OptionValue::Other => ValueView::Other,
        }
    }
}

/// One binding of an option mapping.
#[derive(Debug, Clone, PartialEq, Eq)]
pub struct OptionEntry {
    pub key: String,
    pub value: OptionValue,
}

/// An option mapping: each name is bound at most once, and the names keep the
/// order in which they were first bound.
#[derive(Debug, PartialEq, Eq)]
pub struct OptionMap {
    entries: Vec<OptionEntry>,
}

/// The names of a list of bindings, in order.
pub open spec fn entry_keys(entries: Seq<OptionEntry>) -> Seq<Seq<char>> {
    Seq::new(entries.len(), |i: int| entries[i].key@)
}

/// The mapping that a list of bindings stands for; a later binding of a name
/// overrides an earlier one.
pub open spec fn entry_map(entries: Seq<OptionEntry>) -> Map<Seq<char>, ValueView>
    decreases entries.len(),
{
    if entries.len() == 0 {
        Map::empty()
    } else {
        entry_map(entries.drop_last()).insert(entries.last().key@, entries.last().value@)
    }
}

/// No name occurs twice in `keys`.
pub open spec fn distinct(keys: Seq<Seq<char>>) -> bool {
    forall|i: int, j: int| 0 <= i < j < keys.len() ==> keys[i] != keys[j]
}

/// A name that no binding carries is not in the mapping.
proof fn lemma_unbound(entries: Seq<OptionEntry>, key: Seq<char>)
    requires
        forall|i: int| 0 <= i < entries.len() ==> entries[i].key@ != key,
    ensures
        !entry_map(entries).contains_key(key),
    decreases entries.len(),
{
    if entries.len() > 0 {
        lemma_unbound(entries.drop_last(), key);
    }
}

/// Where names are distinct, the mapping gives each name the value of its
/// one binding.
proof fn lemma_bound(entries: Seq<OptionEntry>, at: int)
    requires
        distinct(entry_keys(entries)),
        0 <= at < entries.len(),
    ensures
        entry_map(entries).contains_key(entries[at].key@),
        entry_map(entries)[entries[at].key@] == entries[at].value@,
    decreases entries.len(),
{
    let front = entries.drop_last();
    if at < entries.len() - 1 {
        assert(entry_keys(entries)[at] != entry_keys(entries)[entries.len() - 1]);
        assert forall|i: int, j: int| 0 <= i < j < front.len() implies entry_keys(front)[i]
            != entry_keys(front)[j] by {
            assert(entry_keys(entries)[i] != entry_keys(entries)[j]);
        }
        lemma_bound(front, at);
    }
}

/// Replacing the value of one binding replaces it in the mapping.
proof fn lemma_rebound(entries: Seq<OptionEntry>, at: int, entry: OptionEntry)
    requires
        distinct(entry_keys(entries)),
        0 <= at < entries.len(),
        entry.key@ == entries[at].key@,
    ensures
        entry_keys(entries.update(at, entry)) == entry_keys(entries),
        entry_map(entries.update(at, entry)) == entry_map(entries).insert(entry.key@, entry.value@),
    decreases entries.len(),
{
    let changed = entries.update(at, entry);
    let front = entries.drop_last();
    if at == entries.len() - 1 {
        assert(changed.drop_last() =~= front);
    } else {
        assert(entry_keys(entries)[at] != entry_keys(entries)[entries.len() - 1]);
        assert forall|i: int, j: int| 0 <= i < j < front.len() implies entry_keys(front)[i]
            != entry_keys(front)[j] by {
            assert(entry_keys(entries)[i] != entry_keys(entries)[j]);
        }
        lemma_rebound(front, at, entry);
        assert(changed.drop_last() =~= front.update(at, entry));
    }
}

impl View for OptionMap {
    type V = Map<Seq<char>, ValueView>;

    open spec fn view(&self) -> Map<Seq<char>, ValueView> {
        entry_map(self.bindings())
    }
}

impl OptionMap {
    /// The names bound, in the order in which they were first bound.
    pub open spec fn key_seq(&self) -> Seq<Seq<char>> {
        entry_keys(self.bindings())
    }

    /// The invariant of the type: no name is bound twice.
    #[verifier::type_invariant]
    spec fn well_formed(&self) -> bool {
        distinct(entry_keys(self.entries@))
    }

    /// The bindings themselves; the other spec functions read them.
    pub closed spec fn bindings(&self) -> Seq<OptionEntry> {
        self.entries@
    }

    /// The mapping without a binding.
    pub fn new() -> (options: OptionMap)
        ensures
            options@ == Map::<Seq<char>, ValueView>::empty(),
            options.key_seq() == Seq::<Seq<char>>::empty(),
    {
        let entries: Vec<OptionEntry> = Vec::new();
        OptionMap { entries }
    }

    /// How many names are bound.
    pub fn len(&self) -> (n: usize)
        ensures
            n == self.key_seq().len(),
    {
        self.entries.len()
    }

    /// Where `key` is bound among the bindings, if anywhere.
    fn position(&self, key: &str) -> (found: Option<usize>)
        ensures
            match found {
                Some(at) => at < self.key_seq().len() && self.key_seq()[at as int] == key@,
                None => forall|i: int| 0 <= i < self.key_seq().len() ==> self.key_seq()[i] != key@,
            },
    {
        let mut i: usize = 0;
        while i < self.entries.len()
            invariant
                i <= self.entries.len(),
                forall|j: int| 0 <= j < i ==> self.key_seq()[j] != key@,
            decreases self.entries.len() - i,
        {
            if same_text(self.entries[i].key.as_str(), key) {
                return Some(i);
            }
            i = i + 1;
        }
        None
    }

    /// The value bound to `key`, if the name is bound.
    pub fn get(&self, key: &str) -> (found: Option<&OptionValue>)
        ensures
            match found {
                Some(value) => self@.contains_key(key@) && self@[key@] == value@,
                None => !self@.contains_key(key@),
            },
    {
        match self.position(key) {
            Some(at) => {
                proof {
                    use_type_invariant(self);
                    lemma_bound(self.entries@, at as int);
                }
                Some(&self.entries[at].value)
            },
            None => {
                proof {
                    assert forall|i: int| 0 <= i < self.entries@.len() implies self.entries@[i].key@
                        != key@ by {
                        assert(self.key_seq()[i] != key@);
                    }
                    lemma_unbound(self.entries@, key@);
                }
                None
            },
        }
    }

    /// Binds `key` to `value`. A name already bound keeps its place and
    /// takes the new value; a new name goes to the end.
    pub fn insert(&mut self, key: String, value: OptionValue)
        ensures
            final(self)@ == old(self)@.insert(key@, value@),
            final(self).key_seq() == if old(self)@.contains_key(key@) {
                old(self).key_seq()
            } else {
                old(self).key_seq().push(key@)
            },
    {
        let found = self.position(key.as_str());
        let entry = OptionEntry { key, value };
        proof {
            use_type_invariant(&*self);
        }
        let ghost before = self.entries@;
        let mut entries: Vec<OptionEntry> = Vec::new();
        core::mem::swap(&mut self.entries, &mut entries);
        match found {
            Some(at) => {
                proof {
                    lemma_bound(before, at as int);
                    lemma_rebound(before, at as int, entry);
                }
                entries.set(at, entry);
            },
            None => {
                proof {
                    assert forall|i: int| 0 <= i < before.len() implies before[i].key@
                        != entry.key@ by {
                        assert(entry_keys(before)[i] != entry.key@);
                    }
                    lemma_unbound(before, entry.key@);
                    let after = before.push(entry);
                    assert(after.drop_last() =~= before);
                    assert(entry_keys(after) =~= entry_keys(before).push(entry.key@));
                }
                entries.push(entry);
            },
        }
        core::mem::swap(&mut self.entries, &mut entries);
    }

    /// The names bound, in the order in which they were first bound. No name
    /// comes twice.
    pub fn keys(&self) -> (names: Vec<String>)
        ensures
            crate::text::texts(names@) == self.key_seq(),
            distinct(self.key_seq()),
    {
        proof {
            use_type_invariant(self);
        }
        let mut names: Vec<String> = Vec::new();
        let mut i: usize = 0;
        while i < self.entries.len()
            invariant
                i <= self.entries.len(),
                names@.len() == i,
                forall|j: int| 0 <= j < i ==> names@[j]@ == self.entries@[j].key@,
            decreases self.entries.len() - i,
        {
            names.push(self.entries[i].key.clone());
            i = i + 1;
        }
        names
    }
}

} // verus!
