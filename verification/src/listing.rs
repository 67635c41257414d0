//! The quick-insert list: every snippet with its alias, ordered by title.

use crate::config::AppConfig;
use crate::mnemonics::{get_mnemonic_for_file, mnemonics_for, Index, PromptsMeta};
use crate::paths::{file_stem, file_stem_of};
use crate::prompts::{is_prompt, is_prompt_file, seq_or_empty, text_or_empty, WalkedFile};
use crate::text::{
    lemma_lex_less_asymmetric, lemma_lex_less_irreflexive, lemma_lex_less_total,
    lemma_lex_not_less_transitive, lex_less, str_less,
};
use vstd::prelude::*;

verus! {

/// One line of the quick-insert list.
#[derive(Clone, Debug)]
pub struct MnemonicItem {
    /// Alias of the snippet; empty where it has none.
    pub mnemonic: String,
    pub title: String,
    pub content: String,
}

/// The items whose title is `title`.
pub open spec fn title_is(title: Seq<char>) -> spec_fn(MnemonicItem) -> bool {
    |item: MnemonicItem| item.title@ == title
}

/// No item comes before an earlier one by title.
pub open spec fn titles_ascending(items: Seq<MnemonicItem>) -> bool {
    forall|i: int, j: int|
        0 <= i < j < items.len() ==> !lex_less(
            #[trigger] items[j].title@,
            #[trigger] items[i].title@,
        )
}

/// `output` is `input` sorted by title, items of one title staying in the
/// order they had.
pub open spec fn stably_sorted_by_title(
    input: Seq<MnemonicItem>,
    output: Seq<MnemonicItem>,
) -> bool {
    &&& output.len() == input.len()
    &&& titles_ascending(output)
    &&& forall|title: Seq<char>| #[trigger]
        output.filter(title_is(title)) == input.filter(title_is(title))
}

/// Whether `item` is the line for the walked file `file` under the index
/// `index`: its title and text, and an alias of it or, where it has none,
/// the empty alias.
pub open spec fn lists_file(index: Index, file: WalkedFile, item: MnemonicItem) -> bool {
    &&& item.title@ == seq_or_empty(file_stem_of(file.path@))
    &&& item.content@ == text_or_empty(file.content)
    &&& mnemonics_for(index, file.path@).contains(item.mnemonic@) || (item.mnemonic@.len() == 0
        && forall|m: Seq<char>| !mnemonics_for(index, file.path@).contains(m))
}

/// The snippet files among `files`, in their order.
pub open spec fn prompt_files(files: Seq<WalkedFile>) -> Seq<WalkedFile> {
    files.filter(|f: WalkedFile| is_prompt(f))
}

/// Whether `items` are the lines for the snippet files among `files`, one
/// for each, in the order of the files.
pub open spec fn lists_files(
    index: Index,
    files: Seq<WalkedFile>,
    items: Seq<MnemonicItem>,
) -> bool {
    &&& items.len() == prompt_files(files).len()
    &&& forall|i: int|
        0 <= i < items.len() ==> lists_file(index, prompt_files(files)[i], #[trigger] items[i])
}

/// Position at which an item titled `title` goes into `sorted`: behind the
/// items that come before it, ahead of the rest.
fn insertion_point(sorted: &Vec<MnemonicItem>, title: &str) -> (at: usize)
    ensures
        at <= sorted@.len(),
        forall|j: int| 0 <= j < at ==> lex_less(#[trigger] sorted@[j].title@, title@),
        at < sorted@.len() ==> !lex_less(sorted@[at as int].title@, title@),
{
    let mut at: usize = 0;
    while at < sorted.len()
        invariant
            at <= sorted@.len(),
            forall|j: int| 0 <= j < at ==> lex_less(#[trigger] sorted@[j].title@, title@),
        decreases sorted@.len() - at,
    {
        if !str_less(sorted[at].title.as_str(), title) {
            return at;
        }
        at = at + 1;
    }
    at
}

proof fn lemma_insert_keeps_ascending(sorted: Seq<MnemonicItem>, at: int, item: MnemonicItem)
    requires
        titles_ascending(sorted),
        0 <= at <= sorted.len(),
        forall|j: int| 0 <= j < at ==> lex_less(#[trigger] sorted[j].title@, item.title@),
        at < sorted.len() ==> !lex_less(sorted[at].title@, item.title@),
    ensures
        titles_ascending(sorted.insert(at, item)),
{
    let out = sorted.insert(at, item);
    assert forall|i: int, j: int| 0 <= i < j < out.len() implies !lex_less(
        #[trigger] out[j].title@,
        #[trigger] out[i].title@,
    ) by {
        if j == at {
            assert(out[i] == sorted[i]);
            lemma_lex_less_asymmetric(sorted[i].title@, item.title@);
        } else if i == at {
            assert(out[j] == sorted[j - 1]);
            if j - 1 > at {
                lemma_lex_not_less_transitive(
                    item.title@,
                    sorted[at].title@,
                    sorted[j - 1].title@,
                );
            }
        } else {
            let i0 = if i < at { i } else { i - 1 };
            let j0 = if j < at { j } else { j - 1 };
            assert(out[i] == sorted[i0] && out[j] == sorted[j0]);
        }
    }
}

proof fn lemma_insert_keeps_titles(
    sorted: Seq<MnemonicItem>,
    at: int,
    item: MnemonicItem,
    title: Seq<char>,
)
    requires
        0 <= at <= sorted.len(),
        forall|j: int| 0 <= j < at ==> lex_less(#[trigger] sorted[j].title@, item.title@),
    ensures
        sorted.insert(at, item).filter(title_is(title)) == (seq![item] + sorted).filter(
            title_is(title),
        ),
{
    let pred = title_is(title);
    let front = sorted.take(at);
    let back = sorted.skip(at);
    assert(sorted.insert(at, item) =~= front + (seq![item] + back));
    assert(sorted =~= front + back);
    Seq::filter_distributes_over_add(front, seq![item] + back, pred);
    Seq::filter_distributes_over_add(front, back, pred);
    back.lemma_filter_prepend(item, pred);
    sorted.lemma_filter_prepend(item, pred);
    if pred(item) {
        assert(front.all(|x: MnemonicItem| !pred(x))) by {
            assert forall|k: int| 0 <= k < front.len() implies !pred(#[trigger] front[k]) by {
                assert(front[k] == sorted[k]);
                lemma_lex_less_irreflexive(item.title@);
            }
        }
        front.lemma_all_neg_filter_empty(pred);
        assert(front.filter(pred) =~= Seq::<MnemonicItem>::empty());
        assert(front.filter(pred) + (seq![item] + back.filter(pred)) =~= seq![item] + (front.filter(
            pred,
        ) + back.filter(pred)));
    } else {
        assert(front.filter(pred) + (Seq::<MnemonicItem>::empty() + back.filter(pred))
            =~= Seq::<MnemonicItem>::empty() + (front.filter(pred) + back.filter(pred)));
    }
}

/// Sorts the items by title, ascending; items of one title keep their order.
pub fn sort_by_title(items: Vec<MnemonicItem>) -> (sorted: Vec<MnemonicItem>)
    ensures
        stably_sorted_by_title(items@, sorted@),
{
    let ghost input = items@;
    let mut rest: Vec<MnemonicItem> = items;
    let mut sorted: Vec<MnemonicItem> = Vec::new();
    proof {
        assert(input.take(input.len() as int) =~= input);
        assert(input.skip(input.len() as int) =~= Seq::<MnemonicItem>::empty());
        assert forall|title: Seq<char>| #[trigger]
            sorted@.filter(title_is(title)) == input.skip(input.len() as int).filter(
                title_is(title),
            ) by {
            assert(sorted@ =~= input.skip(input.len() as int));
        }
    }
    while rest.len() > 0
        invariant
            rest@ == input.take(rest@.len() as int),
            rest@.len() <= input.len(),
            sorted@.len() + rest@.len() == input.len(),
            titles_ascending(sorted@),
            forall|title: Seq<char>| #[trigger]
                sorted@.filter(title_is(title)) == input.skip(rest@.len() as int).filter(
                    title_is(title),
                ),
        decreases rest@.len(),
    {
        let ghost before = sorted@;
        let ghost remaining = rest@.len() as int;
        let item: MnemonicItem = rest.pop().unwrap();
        let at: usize = insertion_point(&sorted, item.title.as_str());
        proof {
            assert(item == input[remaining - 1]);
            assert(rest@ =~= input.take(remaining - 1));
            lemma_insert_keeps_ascending(before, at as int, item);
            assert(input.skip(remaining - 1) =~= seq![item] + input.skip(remaining));
            assert forall|title: Seq<char>| #[trigger]
                before.insert(at as int, item).filter(title_is(title)) == input.skip(
                    remaining - 1,
                ).filter(title_is(title)) by {
                lemma_insert_keeps_titles(before, at as int, item, title);
                before.lemma_filter_prepend(item, title_is(title));
                input.skip(remaining).lemma_filter_prepend(item, title_is(title));
                assert(before.filter(title_is(title)) == input.skip(remaining).filter(
                    title_is(title),
                ));
            }
        }
        sorted.insert(at, item);
    }
    proof {
        assert(input.skip(0) =~= input);
    }
    sorted
}

/// The last item of an ascending list with the items of one title as in
/// another: its title, which is the greatest, occurs in the other list.
proof fn lemma_greatest_title_is_shared(a: Seq<MnemonicItem>, b: Seq<MnemonicItem>)
    requires
        a.len() > 0,
        titles_ascending(b),
        a.filter(title_is(a.last().title@)) == b.filter(title_is(a.last().title@)),
    ensures
        b.len() > 0,
        !lex_less(b.last().title@, a.last().title@),
{
    let pred = title_is(a.last().title@);
    assert(a =~= a.drop_last().push(a.last()));
    a.drop_last().lemma_filter_push(a.last(), pred);
    let shared = b.filter(pred);
    assert(shared.len() > 0);
    b.lemma_filter_pred(pred, 0);
    assert(shared.contains(shared[0]));
    b.lemma_filter_contains_rev(pred, shared[0]);
    let j = choose|j: int| 0 <= j < b.len() && b[j] == shared[0];
    if j < b.len() - 1 {
        assert(!lex_less(b[b.len() - 1].title@, b[j].title@));
    } else {
        lemma_lex_less_irreflexive(b[j].title@);
    }
}

/// Two ascending lists in which the items of every title are the same, in
/// the same order, are one list.
proof fn lemma_ascending_lists_agree(a: Seq<MnemonicItem>, b: Seq<MnemonicItem>)
    requires
        a.len() == b.len(),
        titles_ascending(a),
        titles_ascending(b),
        forall|title: Seq<char>| #[trigger] a.filter(title_is(title)) == b.filter(title_is(title)),
    ensures
        a == b,
    decreases a.len(),
{
    if a.len() == 0 {
        assert(a =~= b);
    } else {
        let front_a = a.drop_last();
        let front_b = b.drop_last();
        assert(a =~= front_a.push(a.last()));
        assert(b =~= front_b.push(b.last()));
        let top = a.last().title@;
        assert(a.filter(title_is(top)) == b.filter(title_is(top)));
        assert(a.filter(title_is(b.last().title@)) == b.filter(title_is(b.last().title@)));
        lemma_greatest_title_is_shared(a, b);
        lemma_greatest_title_is_shared(b, a);
        lemma_lex_less_total(top, b.last().title@);
        front_a.lemma_filter_push(a.last(), title_is(top));
        front_b.lemma_filter_push(b.last(), title_is(top));
        assert(a.last() == a.filter(title_is(top)).last());
        assert(b.last() == b.filter(title_is(top)).last());
        assert forall|title: Seq<char>| #[trigger]
            front_a.filter(title_is(title)) == front_b.filter(title_is(title)) by {
            assert(a.filter(title_is(title)) == b.filter(title_is(title)));
            front_a.lemma_filter_push(a.last(), title_is(title));
            front_b.lemma_filter_push(b.last(), title_is(title));
            if title == top {
                assert(front_a.filter(title_is(title)) =~= a.filter(title_is(title)).drop_last());
                assert(front_b.filter(title_is(title)) =~= b.filter(title_is(title)).drop_last());
            }
        }
        assert(titles_ascending(front_a)) by {
            assert forall|i: int, j: int| 0 <= i < j < front_a.len() implies !lex_less(
                #[trigger] front_a[j].title@,
                #[trigger] front_a[i].title@,
            ) by {
                assert(front_a[i] == a[i] && front_a[j] == a[j]);
            }
        }
        assert(titles_ascending(front_b)) by {
            assert forall|i: int, j: int| 0 <= i < j < front_b.len() implies !lex_less(
                #[trigger] front_b[j].title@,
                #[trigger] front_b[i].title@,
            ) by {
                assert(front_b[i] == b[i] && front_b[j] == b[j]);
            }
        }
        lemma_ascending_lists_agree(front_a, front_b);
    }
}

/// Sorting by title has one result: two lists that are both `input` sorted
/// by title, items of one title in the order they had, are the same list.
pub proof fn law_sorted_list_is_unique(
    input: Seq<MnemonicItem>,
    first: Seq<MnemonicItem>,
    second: Seq<MnemonicItem>,
)
    requires
        stably_sorted_by_title(input, first),
        stably_sorted_by_title(input, second),
    ensures
        first == second,
{
    assert forall|title: Seq<char>| #[trigger]
        first.filter(title_is(title)) == second.filter(title_is(title)) by {
        assert(first.filter(title_is(title)) == input.filter(title_is(title)));
        assert(second.filter(title_is(title)) == input.filter(title_is(title)));
    }
    lemma_ascending_lists_agree(first, second);
}

/// Makes the lines for the snippet files among `files`, in the order of the
/// files; the other entries are passed over.
pub fn list_items(meta: &PromptsMeta, files: Vec<WalkedFile>) -> (items: Vec<MnemonicItem>)
    ensures
        lists_files(meta@, files@, items@),
{
    let ghost all = files@;
    let ghost keep = |f: WalkedFile| is_prompt(f);
    let mut items: Vec<MnemonicItem> = Vec::new();
    proof {
        assert(all.take(0) =~= Seq::<WalkedFile>::empty());
        Seq::<WalkedFile>::empty().lemma_filter_len(keep);
    }
    for file in it: files
        invariant
            it.seq() == all,
            keep == |f: WalkedFile| is_prompt(f),
            lists_files(meta@, all.take(it.index()), items@),
    {
        proof {
            let seen = all.take(it.index());
            assert(all.take(it.index() + 1) =~= seen.push(file));
            seen.lemma_filter_push(file, keep);
        }
        if is_prompt_file(file.path.as_str()) {
            let mnemonic: String = match get_mnemonic_for_file(meta, file.path.as_str()) {
                Some(m) => m,
                None => String::new(),
            };
            let title: String = match file_stem(file.path.as_str()) {
                Some(stem) => stem,
                None => String::new(),
            };
            let content: String = match file.content {
                Some(text) => text,
                None => String::new(),
            };
            items.push(MnemonicItem { mnemonic, title, content });
        }
    }
    proof {
        assert(all.take(all.len() as int) =~= all);
    }
    items
}

/// The quick-insert list: a line for every snippet file among `files`, by
/// title. Without a snippet folder in the settings the list is empty,
/// whatever `files` holds.
pub fn get_all_mnemonics(config: &AppConfig, meta: &PromptsMeta, files: Vec<WalkedFile>) -> (items:
    Vec<MnemonicItem>)
    ensures
        config.prompts_folder@.len() == 0 ==> items@.len() == 0,
        config.prompts_folder@.len() > 0 ==> exists|unsorted: Seq<MnemonicItem>|
            lists_files(meta@, files@, unsorted) && #[trigger] stably_sorted_by_title(
                unsorted,
                items@,
            ),
{
    if config.prompts_folder.as_str().is_empty() {
        return Vec::new();
    }
    let unsorted: Vec<MnemonicItem> = list_items(meta, files);
    sort_by_title(unsorted)
}

} // verus!
