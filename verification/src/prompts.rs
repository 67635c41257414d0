//! The snippet repository as the rest of the library sees it: the records
//! made from the files that a walk of the snippet folder found.

use crate::paths::{
    extension, extension_of, file_stem, file_stem_of, parent, parent_of, relative_to, strip_prefix,
};
use crate::text::{hex_of, str_eq, to_hex};
use std::collections::hash_map::DefaultHasher;
use vstd::prelude::*;
use vstd::std_specs::hash::DefaultHasherAdditionalSpecFns;

verus! {

/// One snippet.
#[derive(Clone, Debug)]
pub struct Prompt {
    /// Key for user interfaces: a hash of the path, in hexadecimal.
    pub id: String,
    /// File name without extension.
    pub title: String,
    /// Text of the file; empty where the file could not be read.
    pub content: String,
    /// Folder of the file below the root, or the default label.
    pub category: String,
    pub file_path: String,
}

/// A snippet, as the contracts see it.
pub struct PromptView {
    pub id: Seq<char>,
    pub title: Seq<char>,
    pub content: Seq<char>,
    pub category: Seq<char>,
    pub file_path: Seq<char>,
}

impl View for Prompt {
    type V = PromptView;

    open spec fn view(&self) -> PromptView {
        PromptView {
            id: self.id@,
            title: self.title@,
            content: self.content@,
            category: self.category@,
            file_path: self.file_path@,
        }
    }
}

/// One entry that a walk of the snippet folder came by.
#[derive(Clone, Debug)]
pub struct WalkedFile {
    /// Path of the entry, as the walk gave it.
    pub path: String,
    /// Text of the file; `None` where it was not or could not be read.
    pub content: Option<String>,
}

/// What hashing a string writes into a hasher, as `Hash::hash` of `str`
/// does it.
pub uninterp spec fn hash_writes(s: Seq<char>) -> Seq<Seq<u8>>;

/// The hash that a fresh default hasher of `std` gives a string.
pub open spec fn default_hash_of(s: Seq<char>) -> u64 {
    DefaultHasher::spec_finish(hash_writes(s))
}

/// Calls `Hash::hash` of `str` on a default hasher. Trusted: the hasher then
/// holds what it held and, behind that, writes that depend on `s` alone.
#[verifier::external_body]
fn feed(s: &str, hasher: &mut DefaultHasher)
    ensures
        final(hasher)@ == old(hasher)@ + hash_writes(s@),
{
    std::hash::Hash::hash(s, hasher);
}

/// The stable hash of a path that snippet ids are made of: that of a fresh
/// default hasher.
pub fn md5_hash(s: &str) -> (h: u64)
    ensures
        h == default_hash_of(s@),
{
    let mut hasher: DefaultHasher = DefaultHasher::new();
    feed(s, &mut hasher);
    proof {
        assert(Seq::<Seq<u8>>::empty() + hash_writes(s@) =~= hash_writes(s@));
    }
    std::hash::Hasher::finish(&hasher)
}

/// The category of files that lie directly in the root.
pub open spec fn default_category() -> Seq<char> {
    "默认"@
}

/// Whether a file with this extension is a snippet.
pub open spec fn recognized_extension(extension: Option<Seq<char>>) -> bool {
    extension == Some("md"@) || extension == Some("txt"@)
}

/// The folder of the file at `path`, relative to `root`; `None` where the
/// path has no parent or does not lie under `root`.
pub open spec fn below_root_of(path: Seq<char>, root: Seq<char>) -> Option<Seq<char>> {
    match parent_of(path) {
        Some(dir) => relative_to(dir, root),
        None => None,
    }
}

/// The category of a file, given its folder relative to the root: that
/// folder, or the default label where it is empty or cannot be told.
pub open spec fn category_label(below_root: Option<Seq<char>>) -> Seq<char> {
    match below_root {
        Some(below) => if below.len() == 0 {
            default_category()
        } else {
            below
        },
        None => default_category(),
    }
}

/// No file is without category.
pub proof fn law_category_is_never_empty(below_root: Option<Seq<char>>)
    ensures
        category_label(below_root).len() > 0,
{
    reveal_strlit("默认");
}

/// What an optional text stands for: itself, or the empty text.
pub open spec fn text_or_empty(text: Option<String>) -> Seq<char> {
    match text {
        Some(t) => t@,
        None => Seq::<char>::empty(),
    }
}

/// The same for a text that is already a sequence.
pub open spec fn seq_or_empty(text: Option<Seq<char>>) -> Seq<char> {
    match text {
        Some(t) => t,
        None => Seq::<char>::empty(),
    }
}

/// The snippet made of the parts of a file: its path, the hash of the path,
/// the stem of its name, its folder relative to the root, and its text.
pub open spec fn prompt_of_parts(
    file_path: Seq<char>,
    hash: u64,
    stem: Option<Seq<char>>,
    below_root: Option<Seq<char>>,
    content: Seq<char>,
) -> PromptView {
    PromptView {
        id: hex_of(hash as nat),
        title: seq_or_empty(stem),
        content,
        category: category_label(below_root),
        file_path,
    }
}

/// The snippet that the file `file` under `root` is.
pub open spec fn prompt_of(root: Seq<char>, file: WalkedFile) -> PromptView {
    prompt_of_parts(
        file.path@,
        default_hash_of(file.path@),
        file_stem_of(file.path@),
        below_root_of(file.path@, root),
        text_or_empty(file.content),
    )
}

/// Whether the walked entry is a snippet file.
pub open spec fn is_prompt(file: WalkedFile) -> bool {
    recognized_extension(extension_of(file.path@))
}

/// The snippets among `files`, in the order of the walk.
pub open spec fn prompts_of(root: Seq<char>, files: Seq<WalkedFile>) -> Seq<PromptView>
    decreases files.len(),
{
    if files.len() == 0 {
        Seq::<PromptView>::empty()
    } else if is_prompt(files.last()) {
        prompts_of(root, files.drop_last()).push(prompt_of(root, files.last()))
    } else {
        prompts_of(root, files.drop_last())
    }
}

/// The views of a list of snippets.
pub open spec fn prompt_views(prompts: Seq<Prompt>) -> Seq<PromptView> {
    prompts.map_values(|p: Prompt| p@)
}

/// Why a scan did not run.
#[derive(Clone, Copy, Debug, PartialEq, Eq, Structural)]
pub enum ScanError {
    /// The folder to scan does not exist.
    FolderMissing,
}

/// Whether a file with the extension `extension` is a snippet.
pub fn is_recognized(extension: Option<&str>) -> (r: bool)
    ensures
        r == match extension {
            Some(e) => e@ == "md"@ || e@ == "txt"@,
            None => false,
        },
{
    match extension {
        Some(e) => str_eq(e, "md") || str_eq(e, "txt"),
        None => false,
    }
}

/// Whether the file at `path` is a snippet, by its extension.
pub fn is_prompt_file(path: &str) -> (r: bool)
    ensures
        r == recognized_extension(extension_of(path@)),
{
    match extension(path) {
        Some(e) => is_recognized(Some(e.as_str())),
        None => is_recognized(None),
    }
}

/// The category of a file, given its folder relative to the root.
pub fn category_from(below_root: Option<String>) -> (category: String)
    ensures
        category@ == category_label(
            match below_root {
                Some(b) => Some(b@),
                None => None,
            },
        ),
        category@.len() > 0,
{
    proof {
        reveal_strlit("默认");
    }
    match below_root {
        Some(b) => if b.as_str().is_empty() {
            "默认".to_owned()
        } else {
            b
        },
        None => "默认".to_owned(),
    }
}

/// The category of the file at `path` under `root`.
pub fn category_for(path: &str, root: &str) -> (category: String)
    ensures
        category@ == category_label(below_root_of(path@, root@)),
        category@.len() > 0,
{
    let below: Option<String> = match parent(path) {
        Some(dir) => strip_prefix(dir.as_str(), root),
        None => None,
    };
    category_from(below)
}

/// Makes a snippet of the parts of a file: its path, the hash of the path,
/// the stem of its name, its folder relative to the root, and its text,
/// `None` standing for a file that could not be read.
pub fn prompt_from_parts(
    file_path: String,
    hash: u64,
    stem: Option<String>,
    below_root: Option<String>,
    content: Option<String>,
) -> (prompt: Prompt)
    ensures
        prompt@ == prompt_of_parts(
            file_path@,
            hash,
            match stem {
                Some(s) => Some(s@),
                None => None,
            },
            match below_root {
                Some(b) => Some(b@),
                None => None,
            },
            text_or_empty(content),
        ),
{
    let id: String = to_hex(hash);
    let title: String = match stem {
        Some(s) => s,
        None => String::new(),
    };
    let category: String = category_from(below_root);
    let content: String = match content {
        Some(text) => text,
        None => String::new(),
    };
    Prompt { id, title, content, category, file_path }
}

/// Makes the snippet of a walked file under `root`.
pub fn prompt_for(root: &str, file: WalkedFile) -> (prompt: Prompt)
    ensures
        prompt@ == prompt_of(root@, file),
{
    let hash: u64 = md5_hash(file.path.as_str());
    let stem: Option<String> = file_stem(file.path.as_str());
    let below: Option<String> = match parent(file.path.as_str()) {
        Some(dir) => strip_prefix(dir.as_str(), root),
        None => None,
    };
    prompt_from_parts(file.path, hash, stem, below, file.content)
}

/// Makes the snippet records of a folder from what a walk of it found.
/// `folder_exists` says whether the folder was there to walk; `files` are
/// the entries of the walk, in its order. Entries that are not snippet
/// files are passed over.
pub fn scan_prompts(folder: &str, folder_exists: bool, files: Vec<WalkedFile>) -> (r: Result<
    Vec<Prompt>,
    ScanError,
>)
    ensures
        match r {
            Ok(prompts) => folder_exists && prompt_views(prompts@) == prompts_of(folder@, files@),
            Err(e) => !folder_exists && e == ScanError::FolderMissing,
        },
{
    if !folder_exists {
        return Err(ScanError::FolderMissing);
    }
    let mut prompts: Vec<Prompt> = Vec::new();
    let ghost all = files@;
    for file in it: files
        invariant
            it.seq() == all,
            prompt_views(prompts@) == prompts_of(folder@, all.take(it.index())),
    {
        proof {
            let next = all.take(it.index() + 1);
            assert(next.drop_last() =~= all.take(it.index()));
            assert(next.last() == file);
        }
        if is_prompt_file(file.path.as_str()) {
            let ghost before = prompts@;
            let prompt: Prompt = prompt_for(folder, file);
            prompts.push(prompt);
            proof {
                assert(prompt_views(prompts@) =~= prompt_views(before).push(prompt@));
            }
        }
    }
    proof {
        assert(all.take(all.len() as int) =~= all);
    }
    Ok(prompts)
}

} // verus!
