//! The log of a branch: its entries, and the name of the file that keeps
//! them.

use vstd::prelude::*;
use vstd::string::StringExecFns;
use crate::text::{decimal, decimal_string, lemma_chars_within_bytes, push_char};

verus! {

/// A branch name in which every slash is replaced by two underscores, so
/// that it names one file.
pub open spec fn flattened(branch: Seq<char>) -> Seq<char>
    decreases branch.len(),
{
    if branch.len() == 0 {
        Seq::<char>::empty()
    } else if branch.last() == '/' {
        flattened(branch.drop_last()) + seq!['_', '_']
    } else {
        flattened(branch.drop_last()).push(branch.last())
    }
}

/// The name of the file that holds the log of a branch.
pub open spec fn file_name(branch: Seq<char>) -> Seq<char> {
    flattened(branch) + ".json"@
}

/// Computes the name of the file that holds the log of a branch.
pub fn branch_file_name(branch: &str) -> (name: String)
    ensures
        name@ == file_name(branch@),
{
    let bytes = branch.as_bytes().len();
    proof {
        lemma_chars_within_bytes(branch@);
    }
    let mut name = String::new();
    let mut i: usize = 0;
    assert(branch@.take(0) =~= Seq::<char>::empty());
    for ch in it: branch.chars()
        invariant
            i == it.index(),
            it.seq() == branch@,
            branch@.len() <= bytes,
            name@ == flattened(branch@.take(i as int)),
    {
        proof {
            assert(branch@.take(i + 1).drop_last() =~= branch@.take(i as int));
            assert(branch@.take(i + 1).last() == ch);
        }
        let ghost before = name@;
        if ch == '/' {
            push_char(&mut name, '_');
            push_char(&mut name, '_');
            assert(name@ =~= before + seq!['_', '_']);
        } else {
            push_char(&mut name, ch);
        }
        i = i + 1;
    }
    assert(branch@.take(branch@.len() as int) =~= branch@);
    name.append(".json");
    name
}

/// One entry of a log. What `created_at` is, is for the caller to say: the
/// log only keeps it.
#[derive(Debug)]
pub struct LogItem<T> {
    pub id: String,
    pub created_at: T,
    pub text: String,
}

/// An entry as a plain value.
pub struct LogItemModel<T> {
    pub id: Seq<char>,
    pub created_at: T,
    pub text: Seq<char>,
}

impl<T> View for LogItem<T> {
    type V = LogItemModel<T>;

    open spec fn view(&self) -> LogItemModel<T> {
        LogItemModel { id: self.id@, created_at: self.created_at, text: self.text@ }
    }
}

/// The log of a branch, oldest entry first.
#[derive(Debug)]
pub struct BranchLogFile<T> {
    pub branch: String,
    pub items: Vec<LogItem<T>>,
}

/// The entries as plain values.
pub open spec fn item_models<T>(items: Seq<LogItem<T>>) -> Seq<LogItemModel<T>> {
    items.map_values(|it: LogItem<T>| it@)
}

/// The place of the first entry with the given id, or the number of
/// entries where there is none.
pub open spec fn first_with_id<T>(items: Seq<LogItemModel<T>>, id: Seq<char>) -> int
    decreases items.len(),
{
    if items.len() == 0 {
        0
    } else if items[0].id == id {
        0
    } else {
        1 + first_with_id(items.drop_first(), id)
    }
}

/// The entries without those that have the given id.
pub open spec fn without_id<T>(items: Seq<LogItemModel<T>>, id: Seq<char>) -> Seq<LogItemModel<T>>
    decreases items.len(),
{
    if items.len() == 0 {
        items
    } else if items.last().id == id {
        without_id(items.drop_last(), id)
    } else {
        without_id(items.drop_last(), id).push(items.last())
    }
}

/// `first_with_id` names an entry with the id, and none before it has it.
pub proof fn lemma_first_with_id<T>(items: Seq<LogItemModel<T>>, id: Seq<char>)
    ensures
        0 <= first_with_id(items, id) <= items.len(),
        first_with_id(items, id) < items.len() ==> items[first_with_id(items, id)].id == id,
        forall|i: int| 0 <= i < first_with_id(items, id) ==> (#[trigger] items[i]).id != id,
    decreases items.len(),
{
    if items.len() > 0 && items[0].id != id {
        lemma_first_with_id(items.drop_first(), id);
        let k = first_with_id(items.drop_first(), id);
        assert forall|i: int| 0 <= i < 1 + k implies (#[trigger] items[i]).id != id by {
            if i > 0 {
                assert(items.drop_first()[i - 1] == items[i]);
            }
        }
        if k < items.drop_first().len() {
            assert(items.drop_first()[k] == items[k + 1]);
        }
    }
}

/// What is left of a log has none of the entries with the id, and keeps
/// all others in their order.
pub proof fn lemma_without_id<T>(items: Seq<LogItemModel<T>>, id: Seq<char>)
    ensures
        without_id(items, id).len() <= items.len(),
        forall|i: int|
            0 <= i < without_id(items, id).len() ==> (#[trigger] without_id(items, id)[i]).id
                != id,
        without_id(items, id).len() == items.len() <==> forall|i: int|
            0 <= i < items.len() ==> (#[trigger] items[i]).id != id,
        without_id(items, id).len() == items.len() ==> without_id(items, id) == items,
    decreases items.len(),
{
    if items.len() > 0 {
        lemma_without_id(items.drop_last(), id);
        if items.last().id != id {
            if without_id(items, id).len() == items.len() {
                assert(without_id(items.drop_last(), id) == items.drop_last());
                assert(items.drop_last().push(items.last()) =~= items);
                assert forall|i: int| 0 <= i < items.len() implies (#[trigger] items[i]).id
                    != id by {
                    if i < items.len() - 1 {
                        assert(items.drop_last()[i] == items[i]);
                    }
                }
            } else {
                if forall|i: int| 0 <= i < items.len() ==> (#[trigger] items[i]).id != id {
                    assert forall|i: int| 0 <= i < items.drop_last().len() implies (
                    #[trigger] items.drop_last()[i]).id != id by {
                        assert(items.drop_last()[i] == items[i]);
                    }
                }
            }
        } else {
            assert(items[items.len() - 1].id == id);
        }
    }
}

impl<T> BranchLogFile<T> {
    /// The empty log of a branch.
    pub fn new(branch: &str) -> (file: Self)
        ensures
            file.branch@ == branch@,
            file.items@.len() == 0,
    {
        BranchLogFile { branch: branch.to_owned(), items: Vec::new() }
    }

    /// Adds an entry made at `now_ms`, in milliseconds since the epoch:
    /// the time is its id.
    pub fn append_text(&mut self, now_ms: i64, created_at: T, text: &str)
        ensures
            final(self).branch == old(self).branch,
            item_models(final(self).items@) == item_models(old(self).items@).push(
                LogItemModel { id: decimal(now_ms as int), created_at, text: text@ },
            ),
    {
        let item = LogItem { id: decimal_string(now_ms), created_at, text: text.to_owned() };
        let ghost model = item@;
        self.items.push(item);
        assert(item_models(self.items@) =~= item_models(old(self).items@).push(model));
    }

    /// Replaces the text of the first entry with the given id. Returns
    /// whether there is one.
    pub fn update_text_by_id(&mut self, id: &str, text: &str) -> (found: bool)
        ensures
            final(self).branch == old(self).branch,
            found == (first_with_id(item_models(old(self).items@), id@) < old(self).items@.len()),
            found ==> item_models(final(self).items@) == item_models(old(self).items@).update(
                first_with_id(item_models(old(self).items@), id@),
                LogItemModel {
                    text: text@,
                    ..item_models(old(self).items@)[first_with_id(
                        item_models(old(self).items@),
                        id@,
                    )]
                },
            ),
            !found ==> item_models(final(self).items@) == item_models(old(self).items@),
    {
        let wanted = id.to_owned();
        let ghost models = item_models(self.items@);
        let mut i: usize = 0;
        while i < self.items.len()
            invariant
                i <= self.items@.len(),
                self.items@ == old(self).items@,
                self.branch == old(self).branch,
                models == item_models(self.items@),
                wanted@ == id@,
                forall|k: int| 0 <= k < i ==> (#[trigger] models[k]).id != id@,
            decreases self.items@.len() - i,
        {
            if self.items[i].id == wanted {
                proof {
                    lemma_first_with_id(models, id@);
                    let first = first_with_id(models, id@);
                    assert(models[i as int].id == id@);
                    if first < i {
                        assert(models[first].id == id@);
                    }
                    if first > i {
                        assert(models[i as int].id != id@);
                    }
                }
                let mut item = self.items.remove(i);
                item.text = text.to_owned();
                self.items.insert(i, item);
                assert(item_models(self.items@) =~= models.update(
                    i as int,
                    LogItemModel { text: text@, ..models[i as int] },
                ));
                return true;
            }
            i += 1;
        }
        proof {
            lemma_first_with_id(models, id@);
            let first = first_with_id(models, id@);
            if first < models.len() {
                assert(models[first].id == id@);
            }
        }
        false
    }

    /// Removes the entries with the given id. Returns whether there was
    /// one.
    pub fn delete_by_id(&mut self, id: &str) -> (found: bool)
        ensures
            final(self).branch == old(self).branch,
            item_models(final(self).items@) == without_id(item_models(old(self).items@), id@),
            found == (final(self).items@.len() != old(self).items@.len()),
    {
        let wanted = id.to_owned();
        let mut rest: Vec<LogItem<T>> = Vec::new();
        std::mem::swap(&mut self.items, &mut rest);
        let total = rest.len();
        // Taken from the end, so that no entry is moved twice.
        let mut kept_reversed: Vec<LogItem<T>> = Vec::new();
        let ghost all = item_models(rest@);
        assert(all.skip(all.len() as int) =~= Seq::<LogItemModel<T>>::empty());
        while rest.len() > 0
            invariant
                self.branch == old(self).branch,
                wanted@ == id@,
                all == item_models(old(self).items@),
                rest@.len() <= all.len() == total,
                item_models(rest@) == all.take(rest@.len() as int),
                kept_reversed@.len() <= all.len() - rest@.len(),
                without_id(all, id@) == without_id(item_models(rest@), id@) + item_models(
                    kept_reversed@,
                ).reverse(),
            decreases rest@.len(),
        {
            let ghost before = item_models(rest@);
            let ghost kept = item_models(kept_reversed@);
            let item = rest.pop().unwrap();
            assert(item_models(rest@) =~= before.drop_last());
            assert(before.last() == item@);
            if item.id != wanted {
                kept_reversed.push(item);
                assert(item_models(kept_reversed@) =~= kept.push(before.last()));
                assert(item_models(kept_reversed@).reverse() =~= seq![before.last()]
                    + kept.reverse());
                assert(without_id(before.drop_last(), id@).push(before.last()) + kept.reverse()
                    =~= without_id(before.drop_last(), id@) + item_models(
                    kept_reversed@,
                ).reverse());
            }
        }
        assert(without_id(item_models(rest@), id@) =~= Seq::<LogItemModel<T>>::empty());
        let ghost kept = item_models(kept_reversed@);
        assert(without_id(all, id@) =~= kept.reverse());
        while kept_reversed.len() > 0
            invariant
                self.branch == old(self).branch,
                kept_reversed@.len() <= kept.len() <= total,
                item_models(kept_reversed@) == kept.take(kept_reversed@.len() as int),
                item_models(self.items@) == kept.reverse().take(kept.len() - kept_reversed@.len()),
            decreases kept_reversed@.len(),
        {
            let ghost shown = item_models(self.items@);
            let ghost left = item_models(kept_reversed@);
            let item = kept_reversed.pop().unwrap();
            assert(item_models(kept_reversed@) =~= left.drop_last());
            let ghost model = item@;
            self.items.push(item);
            assert(item_models(self.items@) =~= shown.push(model));
            assert(left.last() == model);
            assert(left.last() == kept[left.len() - 1]);
            assert(kept.reverse()[kept.len() - left.len()] == kept[left.len() - 1]);
            assert(kept.reverse().take(kept.len() - kept_reversed@.len()) =~= shown.push(model));
        }
        assert(kept.reverse().take(kept.len() as int) =~= kept.reverse());
        self.items.len() != total
    }
}

} // verus!
