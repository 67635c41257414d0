use prompt_manager::config::AppConfig;
use prompt_manager::listing::{get_all_mnemonics, list_items, sort_by_title, MnemonicItem};
use prompt_manager::mnemonics::{set_mnemonic, PromptsMeta};
use prompt_manager::prompts::WalkedFile;

fn walked(path: &str, content: Option<&str>) -> WalkedFile {
    WalkedFile { path: path.to_string(), content: content.map(|c| c.to_string()) }
}

fn item(mnemonic: &str, title: &str, content: &str) -> MnemonicItem {
    MnemonicItem {
        mnemonic: mnemonic.to_string(),
        title: title.to_string(),
        content: content.to_string(),
    }
}

fn rows(items: &[MnemonicItem]) -> Vec<(String, String, String)> {
    items.iter().map(|i| (i.mnemonic.clone(), i.title.clone(), i.content.clone())).collect()
}

fn row(mnemonic: &str, title: &str, content: &str) -> (String, String, String) {
    (mnemonic.to_string(), title.to_string(), content.to_string())
}

fn config_with_folder(folder: &str) -> AppConfig {
    AppConfig { prompts_folder: folder.to_string(), ..AppConfig::default() }
}

#[test]
fn list_is_ordered_by_title_and_carries_the_aliases() {
    let mut meta = PromptsMeta::new();
    set_mnemonic(&mut meta, "zz", "root/zeta.md").unwrap();
    set_mnemonic(&mut meta, "al", "root/sub/alpha.txt").unwrap();
    let files = vec![
        walked("root/zeta.md", Some("z text")),
        walked("root/mid.md", Some("m text")),
        walked("root/picture.png", None),
        walked("root/sub/alpha.txt", None),
    ];
    let items = get_all_mnemonics(&config_with_folder("root"), &meta, files);
    assert_eq!(
        rows(&items),
        vec![row("al", "alpha", ""), row("", "mid", "m text"), row("zz", "zeta", "z text")]
    );
}

#[test]
fn list_is_empty_without_a_snippet_folder() {
    let meta = PromptsMeta::new();
    let files = vec![walked("root/a.md", Some("a"))];
    assert!(get_all_mnemonics(&AppConfig::default(), &meta, files).is_empty());
}

#[test]
fn unsorted_list_follows_the_walk() {
    let meta = PromptsMeta::new();
    let files = vec![walked("r/b.md", Some("1")), walked("r/x.bin", None), walked("r/a.md", Some("2"))];
    assert_eq!(rows(&list_items(&meta, files)), vec![row("", "b", "1"), row("", "a", "2")]);
}

#[test]
fn sort_orders_by_code_point() {
    let sorted = sort_by_title(vec![
        item("", "b", ""),
        item("", "a", ""),
        item("", "B", ""),
        item("", "", ""),
        item("", "ab", ""),
        item("", "提示", ""),
        item("", "é", ""),
        item("", "a", "second a"),
    ]);
    let titles: Vec<&str> = sorted.iter().map(|i| i.title.as_str()).collect();
    assert_eq!(titles, vec!["", "B", "a", "a", "ab", "b", "é", "提示"]);
}

#[test]
fn sort_keeps_the_order_of_equal_titles() {
    let sorted = sort_by_title(vec![
        item("3", "same", "c"),
        item("x", "other", ""),
        item("1", "same", "a"),
        item("2", "same", "b"),
        item("y", "zz", ""),
    ]);
    assert_eq!(
        rows(&sorted),
        vec![
            row("x", "other", ""),
            row("3", "same", "c"),
            row("1", "same", "a"),
            row("2", "same", "b"),
            row("y", "zz", ""),
        ]
    );
}

#[test]
fn sort_agrees_with_the_stable_sort_of_std() {
    let titles = ["m", "c", "m", "", "zz", "c", "a", "m", "Zz", "ab", "a"];
    let items: Vec<MnemonicItem> =
        titles.iter().enumerate().map(|(i, t)| item(&i.to_string(), t, "")).collect();
    let mut expected = rows(&items);
    expected.sort_by(|a, b| a.1.cmp(&b.1));
    assert_eq!(rows(&sort_by_title(items)), expected);
}

#[test]
fn sort_of_nothing_and_of_one() {
    assert!(sort_by_title(vec![]).is_empty());
    assert_eq!(rows(&sort_by_title(vec![item("m", "t", "c")])), vec![row("m", "t", "c")]);
}
