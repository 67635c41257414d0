//! The mnemonic index: short aliases, each naming one snippet file.
//!
//! An alias is stored in normal form (trimmed, lower-cased). The index is a
//! finite map from alias to file path; binding an alias to a path first drops
//! every other alias of that path, so an index built by `set_mnemonic` and
//! `remove_mnemonic` alone never names a path twice.

use crate::store::{loaded_or, StoreError, StoreRead};
use crate::text::{normalize, normalized, str_eq};
use vstd::prelude::*;

verus! {

/// The mathematical content of an index: alias to file path.
pub type Index = Map<Seq<char>, Seq<char>>;

/// Why an alias could not be bound.
#[derive(Clone, Copy, Debug, PartialEq, Eq, Structural)]
pub enum MnemonicError {
    /// The alias is empty once normalised.
    EmptyMnemonic,
    /// The alias already names another file.
    Conflict,
}

/// One alias and the snippet file it names.
#[derive(Debug)]
pub struct MnemonicEntry {
    pub mnemonic: String,
    pub file_path: String,
}

/// The persisted alias index.
#[derive(Debug)]
pub struct PromptsMeta {
    entries: Vec<MnemonicEntry>,
}

/// The aliases that name `path`.
pub open spec fn mnemonics_for(index: Index, path: Seq<char>) -> Set<Seq<char>> {
    Set::new(|m: Seq<char>| index.contains_key(m) && index[m] == path)
}

/// Whether the alias `m` names a file other than `path`.
pub open spec fn bound_elsewhere(index: Index, m: Seq<char>, path: Seq<char>) -> bool {
    index.contains_key(m) && index[m] != path
}

/// The index without the aliases of `path`.
pub open spec fn without_path(index: Index, path: Seq<char>) -> Index {
    Map::new(|m: Seq<char>| index.contains_key(m) && index[m] != path, |m: Seq<char>| index[m])
}

/// The index in which `m` is the one alias of `path`.
pub open spec fn with_binding(index: Index, m: Seq<char>, path: Seq<char>) -> Index {
    without_path(index, path).insert(m, path)
}

/// No path has two aliases.
pub open spec fn one_to_one(index: Index) -> bool {
    forall|a: Seq<char>, b: Seq<char>|
        index.contains_key(a) && index.contains_key(b) && index[a] == index[b] ==> a == b
}

/// What binding the alias `m`, taken as written, to `path` does: the next
/// index, or the reason for leaving the index as it is.
pub open spec fn bind_outcome(index: Index, m: Seq<char>, path: Seq<char>) -> Result<
    Index,
    MnemonicError,
> {
    if m.len() == 0 {
        Err(MnemonicError::EmptyMnemonic)
    } else if bound_elsewhere(index, m, path) {
        Err(MnemonicError::Conflict)
    } else {
        Ok(with_binding(index, m, path))
    }
}

/// What binding the alias written `mnemonic` to `path` does, the alias
/// being normalised first.
pub open spec fn set_outcome(index: Index, mnemonic: Seq<char>, path: Seq<char>) -> Result<
    Index,
    MnemonicError,
> {
    bind_outcome(index, normalized(mnemonic), path)
}

/// The path that the alias `m`, taken as written, names.
pub open spec fn lookup_outcome(index: Index, m: Seq<char>) -> Option<Seq<char>> {
    if index.contains_key(m) {
        Some(index[m])
    } else {
        None
    }
}

/// The path that the alias written `mnemonic` names, the alias being
/// normalised first.
pub open spec fn find_outcome(index: Index, mnemonic: Seq<char>) -> Option<Seq<char>> {
    lookup_outcome(index, normalized(mnemonic))
}

/// The map that a list of entries stands for; of two entries with one alias
/// the later one counts.
spec fn index_of(entries: Seq<MnemonicEntry>) -> Index
    decreases entries.len(),
{
    if entries.len() == 0 {
        Map::empty()
    } else {
        index_of(entries.drop_last()).insert(entries.last().mnemonic@, entries.last().file_path@)
    }
}

/// No alias occurs in two entries.
spec fn aliases_distinct(entries: Seq<MnemonicEntry>) -> bool {
    forall|i: int, j: int|
        0 <= i < j < entries.len() ==> entries[i].mnemonic@ != entries[j].mnemonic@
}

proof fn lemma_index_of_keys(entries: Seq<MnemonicEntry>, m: Seq<char>)
    ensures
        index_of(entries).contains_key(m) <==> exists|i: int|
            0 <= i < entries.len() && #[trigger] entries[i].mnemonic@ == m,
    decreases entries.len(),
{
    if entries.len() > 0 {
        let front = entries.drop_last();
        lemma_index_of_keys(front, m);
        if index_of(entries).contains_key(m) {
            if entries.last().mnemonic@ == m {
                assert(entries[entries.len() - 1].mnemonic@ == m);
            } else {
                let i = choose|i: int| 0 <= i < front.len() && #[trigger] front[i].mnemonic@ == m;
                assert(entries[i].mnemonic@ == m);
            }
        }
        if exists|i: int| 0 <= i < entries.len() && #[trigger] entries[i].mnemonic@ == m {
            let i = choose|i: int| 0 <= i < entries.len() && #[trigger] entries[i].mnemonic@ == m;
            if i < front.len() {
                assert(front[i].mnemonic@ == m);
            }
        }
    }
}

proof fn lemma_index_of_entry(entries: Seq<MnemonicEntry>, i: int)
    requires
        aliases_distinct(entries),
        0 <= i < entries.len(),
    ensures
        index_of(entries).contains_key(entries[i].mnemonic@),
        index_of(entries)[entries[i].mnemonic@] == entries[i].file_path@,
    decreases entries.len(),
{
    let front = entries.drop_last();
    if i < entries.len() - 1 {
        assert(aliases_distinct(front)) by {
            assert forall|a: int, b: int| 0 <= a < b < front.len() implies front[a].mnemonic@
                != front[b].mnemonic@ by {
                assert(front[a] == entries[a] && front[b] == entries[b]);
            }
        }
        lemma_index_of_entry(front, i);
        assert(front[i] == entries[i]);
    }
}

proof fn lemma_index_of_remove(entries: Seq<MnemonicEntry>, i: int)
    requires
        aliases_distinct(entries),
        0 <= i < entries.len(),
    ensures
        aliases_distinct(entries.remove(i)),
        index_of(entries.remove(i)) == index_of(entries).remove(entries[i].mnemonic@),
    decreases entries.len(),
{
    let rest = entries.remove(i);
    assert forall|a: int, b: int| 0 <= a < b < rest.len() implies rest[a].mnemonic@
        != rest[b].mnemonic@ by {
        let a0 = if a < i { a } else { a + 1 };
        let b0 = if b < i { b } else { b + 1 };
        assert(rest[a] == entries[a0] && rest[b] == entries[b0]);
    }
    let front = entries.drop_last();
    if i == entries.len() - 1 {
        assert(rest =~= front);
        lemma_index_of_keys(front, entries[i].mnemonic@);
        if index_of(front).contains_key(entries[i].mnemonic@) {
            let j = choose|j: int|
                0 <= j < front.len() && #[trigger] front[j].mnemonic@ == entries[i].mnemonic@;
            assert(front[j] == entries[j]);
        }
        assert(index_of(front) =~= index_of(entries).remove(entries[i].mnemonic@));
    } else {
        assert(aliases_distinct(front)) by {
            assert forall|a: int, b: int| 0 <= a < b < front.len() implies front[a].mnemonic@
                != front[b].mnemonic@ by {
                assert(front[a] == entries[a] && front[b] == entries[b]);
            }
        }
        lemma_index_of_remove(front, i);
        assert(rest.drop_last() =~= front.remove(i));
        assert(rest.last() == entries.last());
        assert(front[i] == entries[i]);
        assert(entries.last().mnemonic@ != entries[i].mnemonic@);
        assert(index_of(rest) =~= index_of(entries).remove(entries[i].mnemonic@));
    }
}

impl View for PromptsMeta {
    type V = Index;

    closed spec fn view(&self) -> Index {
        index_of(self.entries@)
    }
}

impl Default for PromptsMeta {
    fn default() -> (meta: PromptsMeta)
        ensures
            meta@ == Index::empty(),
    {
        PromptsMeta::new()
    }
}

impl PromptsMeta {
    #[verifier::type_invariant]
    spec fn aliases_occur_once(&self) -> bool {
        aliases_distinct(self.entries@)
    }

    /// An index without aliases.
    pub fn new() -> (meta: PromptsMeta)
        ensures
            meta@ == Index::empty(),
    {
        PromptsMeta { entries: Vec::new() }
    }

    /// Number of aliases in the index.
    pub fn len(&self) -> (n: usize)
        ensures
            n == self@.len(),
            self@.dom().finite(),
    {
        proof {
            use_type_invariant(self);
            lemma_index_of_len(self.entries@);
        }
        self.entries.len()
    }

    /// Every binding once, as (alias, path), in no particular order.
    pub fn pairs(&self) -> (out: Vec<(String, String)>)
        ensures
            out@.len() == self@.len(),
            forall|i: int|
                0 <= i < out@.len() ==> self@.contains_key(#[trigger] out@[i].0@)
                    && self@[out@[i].0@] == out@[i].1@,
            forall|i: int, j: int| 0 <= i < j < out@.len() ==> out@[i].0@ != out@[j].0@,
            forall|m: Seq<char>|
                self@.contains_key(m) ==> exists|i: int|
                    0 <= i < out@.len() && #[trigger] out@[i].0@ == m,
    {
        proof {
            use_type_invariant(self);
            lemma_index_of_len(self.entries@);
        }
        let mut out: Vec<(String, String)> = Vec::new();
        let mut i: usize = 0;
        while i < self.entries.len()
            invariant
                0 <= i <= self.entries.len(),
                out@.len() == i,
                forall|j: int|
                    0 <= j < i ==> (#[trigger] out@[j]).0@ == self.entries@[j].mnemonic@
                        && out@[j].1@ == self.entries@[j].file_path@,
            decreases self.entries.len() - i,
        {
            let e: &MnemonicEntry = &self.entries[i];
            out.push((e.mnemonic.clone(), e.file_path.clone()));
            i = i + 1;
        }
        proof {
            assert forall|j: int| 0 <= j < out@.len() implies self@.contains_key(
                #[trigger] out@[j].0@,
            ) && self@[out@[j].0@] == out@[j].1@ by {
                lemma_index_of_entry(self.entries@, j);
            }
            assert forall|m: Seq<char>| self@.contains_key(m) implies exists|j: int|
                0 <= j < out@.len() && #[trigger] out@[j].0@ == m by {
                lemma_index_of_keys(self.entries@, m);
                let j = choose|j: int|
                    0 <= j < self.entries@.len() && #[trigger] self.entries@[j].mnemonic@ == m;
                assert(out@[j].0@ == m);
            }
        }
        out
    }

    /// Records that `mnemonic`, taken as written, names `file_path`,
    /// replacing what it named before.
    pub fn insert(&mut self, mnemonic: String, file_path: String)
        ensures
            final(self)@ == old(self)@.insert(mnemonic@, file_path@),
    {
        let mut entries: Vec<MnemonicEntry> = self.take_entries();
        drop_alias(&mut entries, mnemonic.as_str());
        proof {
            assert(old(self)@.remove(mnemonic@).insert(mnemonic@, file_path@) =~= old(
                self,
            )@.insert(mnemonic@, file_path@));
        }
        push_entry(&mut entries, mnemonic, file_path);
        *self = PromptsMeta { entries };
    }

    /// Moves the entries out, leaving the index empty.
    fn take_entries(&mut self) -> (entries: Vec<MnemonicEntry>)
        ensures
            aliases_distinct(entries@),
            index_of(entries@) == old(self)@,
            final(self)@ == Index::empty(),
    {
        let mut taken: PromptsMeta = PromptsMeta::new();
        std::mem::swap(self, &mut taken);
        proof {
            use_type_invariant(&taken);
        }
        taken.entries
    }
}

/// Removes the entry of the alias `m`, if there is one.
fn drop_alias(entries: &mut Vec<MnemonicEntry>, m: &str)
    requires
        aliases_distinct(old(entries)@),
    ensures
        aliases_distinct(final(entries)@),
        index_of(final(entries)@) == index_of(old(entries)@).remove(m@),
        forall|j: int| 0 <= j < final(entries)@.len() ==> final(entries)@[j].mnemonic@ != m@,
{
    let mut i: usize = 0;
    while i < entries.len()
        invariant
            0 <= i <= entries.len(),
            aliases_distinct(entries@),
            forall|j: int| 0 <= j < i ==> entries@[j].mnemonic@ != m@,
            index_of(entries@).remove(m@) == index_of(old(entries)@).remove(m@),
        decreases entries.len() - i,
    {
        if str_eq(entries[i].mnemonic.as_str(), m) {
            proof {
                lemma_index_of_remove(entries@, i as int);
                assert(index_of(entries@.remove(i as int)).remove(m@) =~= index_of(
                    entries@,
                ).remove(m@));
            }
            entries.remove(i);
        } else {
            i = i + 1;
        }
    }
    proof {
        lemma_index_of_keys(entries@, m@);
        assert(index_of(entries@).remove(m@) =~= index_of(entries@));
    }
}

/// Removes every entry whose path is `path`.
fn drop_path(entries: &mut Vec<MnemonicEntry>, path: &str)
    requires
        aliases_distinct(old(entries)@),
    ensures
        aliases_distinct(final(entries)@),
        index_of(final(entries)@) == without_path(index_of(old(entries)@), path@),
{
    let mut i: usize = 0;
    while i < entries.len()
        invariant
            0 <= i <= entries.len(),
            aliases_distinct(entries@),
            forall|j: int| 0 <= j < i ==> entries@[j].file_path@ != path@,
            without_path(index_of(entries@), path@) == without_path(
                index_of(old(entries)@),
                path@,
            ),
        decreases entries.len() - i,
    {
        if str_eq(entries[i].file_path.as_str(), path) {
            proof {
                lemma_index_of_remove(entries@, i as int);
                lemma_index_of_entry(entries@, i as int);
                assert(without_path(index_of(entries@.remove(i as int)), path@) =~= without_path(
                    index_of(entries@),
                    path@,
                ));
            }
            entries.remove(i);
        } else {
            i = i + 1;
        }
    }
    proof {
        let index = index_of(entries@);
        assert forall|m: Seq<char>| index.contains_key(m) implies index[m] != path@ by {
            lemma_index_of_keys(entries@, m);
            let j = choose|j: int| 0 <= j < entries@.len() && #[trigger] entries@[j].mnemonic@ == m;
            lemma_index_of_entry(entries@, j);
        }
        assert(without_path(index, path@) =~= index);
    }
}

/// Adds an entry for an alias that has none.
fn push_entry(entries: &mut Vec<MnemonicEntry>, mnemonic: String, file_path: String)
    requires
        aliases_distinct(old(entries)@),
        !index_of(old(entries)@).contains_key(mnemonic@),
    ensures
        aliases_distinct(final(entries)@),
        index_of(final(entries)@) == index_of(old(entries)@).insert(mnemonic@, file_path@),
{
    proof {
        lemma_index_of_keys(entries@, mnemonic@);
    }
    let ghost before = entries@;
    entries.push(MnemonicEntry { mnemonic, file_path });
    proof {
        assert(entries@.drop_last() =~= before);
        assert forall|a: int, b: int| 0 <= a < b < entries@.len() implies entries@[a].mnemonic@
            != entries@[b].mnemonic@ by {
            if b < before.len() {
                assert(entries@[a] == before[a] && entries@[b] == before[b]);
            } else {
                assert(entries@[a] == before[a]);
            }
        }
    }
}

proof fn lemma_index_of_len(entries: Seq<MnemonicEntry>)
    requires
        aliases_distinct(entries),
    ensures
        index_of(entries).dom().finite(),
        index_of(entries).len() == entries.len(),
    decreases entries.len(),
{
    if entries.len() > 0 {
        let front = entries.drop_last();
        assert(aliases_distinct(front)) by {
            assert forall|a: int, b: int| 0 <= a < b < front.len() implies front[a].mnemonic@
                != front[b].mnemonic@ by {
                assert(front[a] == entries[a] && front[b] == entries[b]);
            }
        }
        lemma_index_of_len(front);
        lemma_index_of_keys(front, entries.last().mnemonic@);
        if index_of(front).contains_key(entries.last().mnemonic@) {
            let j = choose|j: int|
                0 <= j < front.len() && #[trigger] front[j].mnemonic@ == entries.last().mnemonic@;
            assert(front[j] == entries[j]);
        }
    }
}

/// The index to work with, given what reading the index file came to: a
/// missing file gives the empty index, a useless one is an error.
pub fn get_prompts_meta(read: StoreRead<PromptsMeta>) -> (r: Result<PromptsMeta, StoreError>)
    ensures
        match read {
            StoreRead::Missing => r is Ok && r->Ok_0@ == Index::empty(),
            StoreRead::Unreadable(why) => r == Err::<PromptsMeta, StoreError>(
                StoreError::ReadFailed(why),
            ),
            StoreRead::Malformed(why) => r == Err::<PromptsMeta, StoreError>(
                StoreError::ParseFailed(why),
            ),
            StoreRead::Loaded(meta) => r == Ok::<PromptsMeta, StoreError>(meta),
        },
{
    loaded_or(read, PromptsMeta::new())
}

/// Position of the entry of the alias `m`.
fn position_of(entries: &Vec<MnemonicEntry>, m: &str) -> (at: Option<usize>)
    requires
        aliases_distinct(entries@),
    ensures
        match at {
            Some(i) => i < entries@.len() && entries@[i as int].mnemonic@ == m@ && index_of(
                entries@,
            ).contains_key(m@) && index_of(entries@)[m@] == entries@[i as int].file_path@,
            None => !index_of(entries@).contains_key(m@),
        },
{
    let mut i: usize = 0;
    while i < entries.len()
        invariant
            0 <= i <= entries.len(),
            aliases_distinct(entries@),
            forall|j: int| 0 <= j < i ==> entries@[j].mnemonic@ != m@,
        decreases entries.len() - i,
    {
        if str_eq(entries[i].mnemonic.as_str(), m) {
            proof {
                lemma_index_of_entry(entries@, i as int);
            }
            return Some(i);
        }
        i = i + 1;
    }
    proof {
        lemma_index_of_keys(entries@, m@);
    }
    None
}

/// Binds the alias `m`, taken as written, to `file_path`. An empty alias,
/// and one that names another file, are refused and leave the index as it
/// was; otherwise every alias of `file_path` gives way to this one.
pub fn bind(meta: &mut PromptsMeta, m: String, file_path: &str) -> (r: Result<(), MnemonicError>)
    ensures
        match bind_outcome(old(meta)@, m@, file_path@) {
            Ok(next) => r == Ok::<(), MnemonicError>(()) && final(meta)@ == next,
            Err(e) => r == Err::<(), MnemonicError>(e) && final(meta)@ == old(meta)@,
        },
{
    if m.as_str().is_empty() {
        return Err(MnemonicError::EmptyMnemonic);
    }
    proof {
        use_type_invariant(&*meta);
    }
    match position_of(&meta.entries, m.as_str()) {
        Some(i) => {
            if !str_eq(meta.entries[i].file_path.as_str(), file_path) {
                return Err(MnemonicError::Conflict);
            }
        },
        None => {},
    }
    let mut entries: Vec<MnemonicEntry> = meta.take_entries();
    drop_path(&mut entries, file_path);
    push_entry(&mut entries, m, file_path.to_owned());
    *meta = PromptsMeta { entries };
    Ok(())
}

/// The normal form of the alias written `mnemonic` (trimmed, lower-cased),
/// or the refusal of an alias that is empty in that form.
pub fn normal_form(mnemonic: &str) -> (r: Result<String, MnemonicError>)
    ensures
        match r {
            Ok(m) => m@ == normalized(mnemonic@) && m@.len() > 0,
            Err(e) => e == MnemonicError::EmptyMnemonic && normalized(mnemonic@).len() == 0,
        },
{
    let m: String = normalize(mnemonic);
    if m.as_str().is_empty() {
        Err(MnemonicError::EmptyMnemonic)
    } else {
        Ok(m)
    }
}

/// Binds the alias written `mnemonic` to `file_path`: normalises the alias
/// (trims it, lower-cases it) and binds that, as `bind` does.
pub fn set_mnemonic(meta: &mut PromptsMeta, mnemonic: &str, file_path: &str) -> (r: Result<
    (),
    MnemonicError,
>)
    ensures
        match set_outcome(old(meta)@, mnemonic@, file_path@) {
            Ok(next) => r == Ok::<(), MnemonicError>(()) && final(meta)@ == next,
            Err(e) => r == Err::<(), MnemonicError>(e) && final(meta)@ == old(meta)@,
        },
{
    bind(meta, normalize(mnemonic), file_path)
}

/// Drops every alias of `file_path`.
pub fn remove_mnemonic(meta: &mut PromptsMeta, file_path: &str)
    ensures
        final(meta)@ == without_path(old(meta)@, file_path@),
{
    let mut entries: Vec<MnemonicEntry> = meta.take_entries();
    drop_path(&mut entries, file_path);
    *meta = PromptsMeta { entries };
}

/// The path that the alias `m`, taken as written, names, if it names one.
pub fn lookup(meta: &PromptsMeta, m: &str) -> (r: Option<String>)
    ensures
        match lookup_outcome(meta@, m@) {
            Some(path) => r is Some && r->0@ == path,
            None => r is None,
        },
{
    proof {
        use_type_invariant(meta);
    }
    match position_of(&meta.entries, m) {
        Some(i) => Some(meta.entries[i].file_path.clone()),
        None => None,
    }
}

/// The path that the alias written `mnemonic` names, if it names one: the
/// alias is normalised and then looked up.
pub fn find_by_mnemonic(meta: &PromptsMeta, mnemonic: &str) -> (r: Option<String>)
    ensures
        match find_outcome(meta@, mnemonic@) {
            Some(path) => r is Some && r->0@ == path,
            None => r is None,
        },
{
    let m: String = normalize(mnemonic);
    lookup(meta, m.as_str())
}

/// An alias of `file_path`, if it has one. Where the index names the path
/// more than once, which alias comes back is left open.
pub fn get_mnemonic_for_file(meta: &PromptsMeta, file_path: &str) -> (r: Option<String>)
    ensures
        match r {
            Some(m) => mnemonics_for(meta@, file_path@).contains(m@),
            None => forall|m: Seq<char>| !mnemonics_for(meta@, file_path@).contains(m),
        },
{
    proof {
        use_type_invariant(meta);
    }
    let mut i: usize = 0;
    while i < meta.entries.len()
        invariant
            0 <= i <= meta.entries.len(),
            aliases_distinct(meta.entries@),
            forall|j: int| 0 <= j < i ==> meta.entries@[j].file_path@ != file_path@,
        decreases meta.entries.len() - i,
    {
        if str_eq(meta.entries[i].file_path.as_str(), file_path) {
            proof {
                lemma_index_of_entry(meta.entries@, i as int);
            }
            return Some(meta.entries[i].mnemonic.clone());
        }
        i = i + 1;
    }
    proof {
        assert forall|m: Seq<char>| !mnemonics_for(meta@, file_path@).contains(m) by {
            if meta@.contains_key(m) {
                lemma_index_of_keys(meta.entries@, m);
                let j = choose|j: int|
                    0 <= j < meta.entries@.len() && #[trigger] meta.entries@[j].mnemonic@ == m;
                lemma_index_of_entry(meta.entries@, j);
            }
        }
    }
    None
}

/// A successful binding can be looked up, and binding it again changes
/// nothing.
pub proof fn law_set_then_find(index: Index, mnemonic: Seq<char>, path: Seq<char>)
    requires
        set_outcome(index, mnemonic, path) is Ok,
    ensures
        find_outcome(set_outcome(index, mnemonic, path)->Ok_0, mnemonic) == Some(path),
        set_outcome(set_outcome(index, mnemonic, path)->Ok_0, mnemonic, path) == set_outcome(
            index,
            mnemonic,
            path,
        ),
{
    let m = normalized(mnemonic);
    let next = with_binding(index, m, path);
    assert(with_binding(next, m, path) =~= next);
}

/// An alias bound to one path cannot be bound to another: the attempt is a
/// conflict, and the alias still names the first path.
pub proof fn law_rebinding_conflicts(
    index: Index,
    mnemonic: Seq<char>,
    first: Seq<char>,
    second: Seq<char>,
)
    requires
        set_outcome(index, mnemonic, first) is Ok,
        first != second,
    ensures
        set_outcome(set_outcome(index, mnemonic, first)->Ok_0, mnemonic, second) == Err::<
            Index,
            MnemonicError,
        >(MnemonicError::Conflict),
        find_outcome(set_outcome(index, mnemonic, first)->Ok_0, mnemonic) == Some(first),
{
}

/// Binding a second alias to a path replaces the first: the path then has
/// the second alias alone, and the first names nothing. The two aliases must
/// differ in normal form.
pub proof fn law_second_alias_replaces_first(
    index: Index,
    first: Seq<char>,
    second: Seq<char>,
    path: Seq<char>,
)
    requires
        normalized(first) != normalized(second),
        set_outcome(index, first, path) is Ok,
        set_outcome(set_outcome(index, first, path)->Ok_0, second, path) is Ok,
    ensures
        ({
            let last = set_outcome(set_outcome(index, first, path)->Ok_0, second, path)->Ok_0;
            &&& mnemonics_for(last, path) == set![normalized(second)]
            &&& find_outcome(last, first) is None
        }),
{
    let last = set_outcome(set_outcome(index, first, path)->Ok_0, second, path)->Ok_0;
    assert(mnemonics_for(last, path) =~= set![normalized(second)]);
}

/// After a successful binding the path has exactly that alias.
pub proof fn law_set_leaves_one_alias(index: Index, mnemonic: Seq<char>, path: Seq<char>)
    requires
        set_outcome(index, mnemonic, path) is Ok,
    ensures
        mnemonics_for(set_outcome(index, mnemonic, path)->Ok_0, path) == set![normalized(mnemonic)],
{
    let next = set_outcome(index, mnemonic, path)->Ok_0;
    assert(mnemonics_for(next, path) =~= set![normalized(mnemonic)]);
}

/// Removing a path leaves it without alias, keeps every alias of another
/// path as it was, and adds none.
pub proof fn law_remove_only_that_path(index: Index, path: Seq<char>)
    ensures
        mnemonics_for(without_path(index, path), path) == Set::<Seq<char>>::empty(),
        forall|m: Seq<char>|
            index.contains_key(m) && index[m] != path ==> #[trigger] without_path(
                index,
                path,
            ).contains_key(m) && without_path(index, path)[m] == index[m],
        forall|m: Seq<char>| #[trigger]
            without_path(index, path).contains_key(m) ==> index.contains_key(m),
{
    assert(mnemonics_for(without_path(index, path), path) =~= Set::<Seq<char>>::empty());
}

/// The empty index names no path twice, and neither binding nor removing
/// makes an index do so.
pub proof fn law_one_to_one_is_kept(index: Index, mnemonic: Seq<char>, path: Seq<char>)
    requires
        one_to_one(index),
    ensures
        one_to_one(Index::empty()),
        one_to_one(without_path(index, path)),
        set_outcome(index, mnemonic, path) is Ok ==> one_to_one(
            set_outcome(index, mnemonic, path)->Ok_0,
        ),
{
}

} // verus!
