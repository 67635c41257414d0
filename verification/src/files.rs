//! Names and checks for the snippet files and folders that the application
//! creates, renames and deletes.

use crate::prompts::default_category;
use crate::text::{decimal_of, str_eq, to_decimal};
use vstd::prelude::*;
use vstd::string::*;

verus! {

/// Why a file or folder operation was not begun.
#[derive(Clone, Copy, Debug, PartialEq, Eq, Structural)]
pub enum FolderError {
    /// The folder does not exist, or is no folder.
    FolderMissing,
    /// The folder to create in does not exist.
    ParentMissing,
    /// The folder has no parent to rename it in.
    NoParent,
    /// There is already something under the new name.
    TargetExists,
}

/// Whether snippets of this category go into a folder of their own: those
/// with a category other than the default label do.
pub fn in_subfolder(category: &str) -> (r: bool)
    ensures
        r == (category@.len() > 0 && category@ != default_category()),
{
    !category.is_empty() && !str_eq(category, "默认")
}

/// The extension under which a snippet is saved: the one it had, `md` for a
/// new snippet and for one that had none.
pub fn extension_for(original: Option<String>) -> (extension: String)
    ensures
        extension@ == match original {
            Some(e) => e@,
            None => "md"@,
        },
{
    match original {
        Some(e) => e,
        None => "md".to_owned(),
    }
}

/// The file name of a snippet: title, a dot, and the extension.
pub fn file_name_for(title: &str, extension: &str) -> (name: String)
    ensures
        name@ == title@ + "."@ + extension@,
{
    let mut name: String = title.to_owned();
    name.append(".");
    name.append(extension);
    name
}

/// The `attempt`-th name to try for something new: the stem alone at first,
/// then the stem, a space and the number of the attempt; the suffix behind.
pub open spec fn numbered_name(stem: Seq<char>, attempt: nat, suffix: Seq<char>) -> Seq<char> {
    if attempt == 1 {
        stem + suffix
    } else {
        stem + " "@ + decimal_of(attempt) + suffix
    }
}

fn numbered(stem: &str, attempt: u32, suffix: &str) -> (name: String)
    ensures
        name@ == numbered_name(stem@, attempt as nat, suffix@),
{
    let mut name: String = stem.to_owned();
    if attempt != 1 {
        name.append(" ");
        let number: String = to_decimal(attempt as u64);
        name.append(number.as_str());
    }
    name.append(suffix);
    name
}

/// The `attempt`-th file name to try for a new snippet.
pub fn default_file_name(attempt: u32) -> (name: String)
    ensures
        name@ == numbered_name("新建提示词"@, attempt as nat, ".md"@),
{
    numbered("新建提示词", attempt, ".md")
}

/// The `attempt`-th name to try for a new folder.
pub fn default_folder_name(attempt: u32) -> (name: String)
    ensures
        name@ == numbered_name("新建文件夹"@, attempt as nat, ""@),
{
    numbered("新建文件夹", attempt, "")
}

/// Whether something can be created in a folder: the folder must exist.
pub fn check_parent(parent_exists: bool) -> (r: Result<(), FolderError>)
    ensures
        r == if parent_exists {
            Ok::<(), FolderError>(())
        } else {
            Err::<(), FolderError>(FolderError::ParentMissing)
        },
{
    if parent_exists {
        Ok(())
    } else {
        Err(FolderError::ParentMissing)
    }
}

/// Whether a path names a folder to work on: it must exist and be a folder.
pub fn check_folder(exists: bool, is_folder: bool) -> (r: Result<(), FolderError>)
    ensures
        r == if exists && is_folder {
            Ok::<(), FolderError>(())
        } else {
            Err::<(), FolderError>(FolderError::FolderMissing)
        },
{
    if exists && is_folder {
        Ok(())
    } else {
        Err(FolderError::FolderMissing)
    }
}

/// Whether a folder can be renamed: it must be a folder that exists, have a
/// parent, and the new name must be free there. The first that fails is
/// reported.
pub fn check_rename(exists: bool, is_folder: bool, has_parent: bool, target_exists: bool) -> (r:
    Result<(), FolderError>)
    ensures
        r == if !(exists && is_folder) {
            Err::<(), FolderError>(FolderError::FolderMissing)
        } else if !has_parent {
            Err::<(), FolderError>(FolderError::NoParent)
        } else if target_exists {
            Err::<(), FolderError>(FolderError::TargetExists)
        } else {
            Ok::<(), FolderError>(())
        },
{
    if !(exists && is_folder) {
        Err(FolderError::FolderMissing)
    } else if !has_parent {
        Err(FolderError::NoParent)
    } else if target_exists {
        Err(FolderError::TargetExists)
    } else {
        Ok(())
    }
}

/// The folder to open in the file manager for a path: the folder that holds
/// it where it is a file with a parent, the path itself otherwise.
pub fn folder_to_open(path: String, is_file: bool, parent: Option<String>) -> (folder: String)
    ensures
        folder == match parent {
            Some(p) => if is_file {
                p
            } else {
                path
            },
            None => path,
        },
{
    match parent {
        Some(p) => if is_file {
            p
        } else {
            path
        },
        None => path,
    }
}

} // verus!
