use prompt_manager::prompts::{
    category_for, category_from, is_prompt_file, is_recognized, md5_hash, prompt_for,
    prompt_from_parts, scan_prompts, ScanError, WalkedFile,
};
use std::hash::{Hash, Hasher};

fn walked(path: &str, content: Option<&str>) -> WalkedFile {
    WalkedFile { path: path.to_string(), content: content.map(|c| c.to_string()) }
}

fn std_hash(s: &str) -> u64 {
    let mut hasher = std::collections::hash_map::DefaultHasher::new();
    s.hash(&mut hasher);
    hasher.finish()
}

#[test]
fn scan_gives_root_files_the_default_category_and_others_their_folder() {
    let files = vec![walked("root/a.md", Some("alpha")), walked("root/sub/b.txt", Some("beta"))];
    let prompts = scan_prompts("root", true, files).unwrap();
    assert_eq!(prompts.len(), 2);
    assert_eq!(prompts[0].title, "a");
    assert_eq!(prompts[0].category, "默认");
    assert_eq!(prompts[0].content, "alpha");
    assert_eq!(prompts[0].file_path, "root/a.md");
    assert_eq!(prompts[1].title, "b");
    assert_eq!(prompts[1].category, "sub");
    assert_eq!(prompts[1].content, "beta");
    assert_eq!(prompts[1].file_path, "root/sub/b.txt");
}

#[test]
fn scan_passes_over_what_is_no_snippet_file() {
    let files = vec![
        walked("root", None),
        walked("root/notes.md", Some("n")),
        walked("root/image.png", None),
        walked("root/sub", None),
        walked("root/README", None),
        walked("root/sub/x.txt", Some("x")),
        walked("root/upper.MD", None),
        walked("root/.md", None),
    ];
    let prompts = scan_prompts("root", true, files).unwrap();
    let paths: Vec<&str> = prompts.iter().map(|p| p.file_path.as_str()).collect();
    assert_eq!(paths, vec!["root/notes.md", "root/sub/x.txt"]);
}

#[test]
fn scan_of_a_missing_folder_is_an_error() {
    let files = vec![walked("root/a.md", Some("alpha"))];
    match scan_prompts("root", false, files) {
        Err(e) => assert_eq!(e, ScanError::FolderMissing),
        Ok(_) => panic!("a missing folder cannot be scanned"),
    }
}

#[test]
fn scan_of_an_empty_folder_is_empty() {
    assert!(scan_prompts("root", true, vec![]).unwrap().is_empty());
}

#[test]
fn unreadable_file_has_empty_content() {
    let prompts = scan_prompts("root", true, vec![walked("root/a.md", None)]).unwrap();
    assert_eq!(prompts.len(), 1);
    assert_eq!(prompts[0].content, "");
    assert_eq!(prompts[0].title, "a");
}

#[test]
fn id_is_the_hash_of_the_path_in_hexadecimal() {
    let prompt = prompt_for("root", walked("root/sub/b.txt", Some("beta")));
    assert_eq!(prompt.id, format!("{:x}", std_hash("root/sub/b.txt")));
    let other = prompt_for("root", walked("root/sub/c.txt", Some("beta")));
    assert_ne!(prompt.id, other.id);
}

#[test]
fn hash_is_that_of_the_default_hasher() {
    for s in ["", "a", "root/a.md", "C:\\prompts\\代码\\x.md"] {
        assert_eq!(md5_hash(s), std_hash(s));
    }
    assert_eq!(md5_hash("same"), md5_hash("same"));
    assert_ne!(md5_hash("one"), md5_hash("two"));
}

#[test]
fn nested_folders_make_the_category() {
    assert_eq!(category_for("root/a/b/c.md", "root"), "a/b");
    assert_eq!(category_for("root/c.md", "root"), "默认");
    assert_eq!(category_for("/abs/root/x/c.md", "/abs/root"), "x");
    // A root with a closing separator is the same root.
    assert_eq!(category_for("root/x/c.md", "root/"), "x");
}

#[test]
fn file_outside_the_root_gets_the_default_category() {
    assert_eq!(category_for("elsewhere/c.md", "root"), "默认");
    assert_eq!(category_for("rooted/c.md", "root"), "默认");
    assert_eq!(category_for("", "root"), "默认");
}

#[test]
fn category_from_parts() {
    assert_eq!(category_from(Some("work".to_string())), "work");
    assert_eq!(category_from(Some(String::new())), "默认");
    assert_eq!(category_from(None), "默认");
}

#[test]
fn recognized_extensions_are_md_and_txt_as_written() {
    assert!(is_recognized(Some("md")));
    assert!(is_recognized(Some("txt")));
    assert!(!is_recognized(Some("MD")));
    assert!(!is_recognized(Some("markdown")));
    assert!(!is_recognized(Some("")));
    assert!(!is_recognized(None));
    assert!(is_prompt_file("a/b.md"));
    assert!(is_prompt_file("b.tar.txt"));
    // A closing separator does not change the file name.
    assert!(is_prompt_file("a/b.md/"));
    assert!(!is_prompt_file("a.md/b"));
    assert!(!is_prompt_file("md"));
    assert!(!is_prompt_file(".txt"));
}

#[test]
fn title_is_the_file_name_without_its_last_extension() {
    assert_eq!(prompt_for("r", walked("r/plain.md", None)).title, "plain");
    assert_eq!(prompt_for("r", walked("r/two.parts.txt", None)).title, "two.parts");
    assert_eq!(prompt_for("r", walked("r/带 空格.md", None)).title, "带 空格");
}

#[test]
fn prompt_from_parts_fills_the_gaps() {
    let p = prompt_from_parts("some/path.md".to_string(), 0x2a, None, None, None);
    assert_eq!(p.id, "2a");
    assert_eq!(p.title, "");
    assert_eq!(p.category, "默认");
    assert_eq!(p.content, "");
    assert_eq!(p.file_path, "some/path.md");
    let q = prompt_from_parts(
        "r/k/t.md".to_string(),
        0,
        Some("t".to_string()),
        Some("k".to_string()),
        Some("body".to_string()),
    );
    assert_eq!((q.id.as_str(), q.title.as_str(), q.category.as_str(), q.content.as_str()),
        ("0", "t", "k", "body"));
}
