//! Lists of addresses and of texts.

use crate::address::Address;
use crate::text::Text;
use vstd::prelude::*;

verus! {

/// The part of `all` that begins at `start` and holds at most `limit` items.
pub open spec fn page<T>(all: Seq<T>, start: u32, limit: u32) -> Seq<T> {
    if start >= all.len() {
        Seq::empty()
    } else if start + limit >= all.len() {
        all.skip(start as int)
    } else {
        all.subrange(start as int, start + limit)
    }
}

/// The test that everything but `item` passes.
pub open spec fn other_than<T>(item: T) -> spec_fn(T) -> bool {
    |x: T| x != item
}

/// The items of `all` other than `item`, in order.
pub open spec fn without<T>(all: Seq<T>, item: T) -> Seq<T> {
    all.filter(other_than(item))
}

/// One step of a filter that runs from the front.
pub proof fn lemma_filter_step<T>(all: Seq<T>, pred: spec_fn(T) -> bool, i: int)
    requires
        0 <= i < all.len(),
    ensures
        all.take(i + 1).filter(pred) == if pred(all[i]) {
            all.take(i).filter(pred).push(all[i])
        } else {
            all.take(i).filter(pred)
        },
{
    reveal(Seq::filter);
    assert(all.take(i + 1).drop_last() =~= all.take(i));
    assert(all.take(i + 1).last() == all[i]);
}

/// What is left of a list without one of its items.
pub proof fn lemma_without<T>(all: Seq<T>, item: T, x: T)
    ensures
        without(all, item).contains(x) <==> all.contains(x) && x != item,
    decreases all.len(),
{
    reveal(Seq::filter);
    if all.len() > 0 {
        let rest = all.drop_last();
        lemma_without(rest, item, x);
        assert(all =~= rest.push(all.last()));
        lemma_push(rest, all.last(), x);
        lemma_push(without(rest, item), all.last(), x);
    }
}

/// What is on a list with one more item.
pub proof fn lemma_push<T>(all: Seq<T>, item: T, x: T)
    ensures
        all.push(item).contains(x) <==> all.contains(x) || x == item,
{
    let longer = all.push(item);
    assert(longer[all.len() as int] == item);
    if all.contains(x) {
        let i = choose|i: int| 0 <= i < all.len() && all[i] == x;
        assert(longer[i] == x);
    }
    if longer.contains(x) {
        let i = choose|i: int| 0 <= i < longer.len() && longer[i] == x;
        if i < all.len() {
            assert(all[i] == x);
        }
    }
}

/// A list without one of its items still holds nothing twice.
pub proof fn lemma_without_once<T>(all: Seq<T>, item: T)
    requires
        all.no_duplicates(),
    ensures
        without(all, item).no_duplicates(),
    decreases all.len(),
{
    reveal(Seq::filter);
    if all.len() > 0 {
        let rest = all.drop_last();
        lemma_without_once(rest, item);
        lemma_without(rest, item, all.last());
        assert(!rest.contains(all.last())) by {
            if rest.contains(all.last()) {
                let i = choose|i: int| 0 <= i < rest.len() && rest[i] == all.last();
                assert(all[i] == all[all.len() - 1]);
            }
        }
        lemma_push_once(without(rest, item), all.last());
    }
}

/// A list with one new item still holds nothing twice.
pub proof fn lemma_push_once<T>(all: Seq<T>, item: T)
    requires
        all.no_duplicates(),
        !all.contains(item),
    ensures
        all.push(item).no_duplicates(),
{
    let longer = all.push(item);
    assert forall|i: int, j: int| 0 <= i < longer.len() && 0 <= j < longer.len() && i
        != j implies longer[i] != longer[j] by {
        if i < all.len() {
            assert(all.contains(all[i]));
        }
        if j < all.len() {
            assert(all.contains(all[j]));
        }
    }
}

/// Puts `item` at the end of `list`.
pub fn push<T: DeepView>(list: &mut Vec<T>, item: T)
    ensures
        final(list).deep_view() == old(list).deep_view().push(item.deep_view()),
{
    let ghost before = list.deep_view();
    let ghost added = item.deep_view();
    list.push(item);
    assert(list.deep_view() =~= before.push(added));
}

/// A copy of a list of addresses.
pub fn copy_addresses(list: &Vec<Address>) -> (r: Vec<Address>)
    ensures
        r.deep_view() == list.deep_view(),
{
    let mut copy: Vec<Address> = Vec::new();
    let mut i: usize = 0;
    assert(copy.deep_view() =~= list.deep_view().take(0));
    while i < list.len()
        invariant
            i <= list.len(),
            copy.deep_view() == list.deep_view().take(i as int),
        decreases list.len() - i,
    {
        push(&mut copy, list[i]);
        assert(list.deep_view().take(i + 1) =~= list.deep_view().take(i as int).push(
            list[i as int].deep_view(),
        ));
        i += 1;
    }
    assert(list.deep_view().take(i as int) =~= list.deep_view());
    copy
}

/// A copy of a list of texts.
pub fn copy_texts(list: &Vec<Text>) -> (r: Vec<Text>)
    ensures
        r.deep_view() == list.deep_view(),
{
    let mut copy: Vec<Text> = Vec::new();
    let mut i: usize = 0;
    assert(copy.deep_view() =~= list.deep_view().take(0));
    while i < list.len()
        invariant
            i <= list.len(),
            copy.deep_view() == list.deep_view().take(i as int),
        decreases list.len() - i,
    {
        push(&mut copy, list[i].clone());
        assert(list.deep_view().take(i + 1) =~= list.deep_view().take(i as int).push(
            list[i as int].deep_view(),
        ));
        i += 1;
    }
    assert(list.deep_view().take(i as int) =~= list.deep_view());
    copy
}

/// A copy of an optional text.
pub fn copy_optional(text: &Option<Text>) -> (r: Option<Text>)
    ensures
        r.deep_view() == text.deep_view(),
{
    match text {
        Some(t) => Some(t.clone()),
        None => None,
    }
}

/// A copy of an optional list of texts.
pub fn copy_tags(tags: &Option<Vec<Text>>) -> (r: Option<Vec<Text>>)
    ensures
        r.deep_view() == tags.deep_view(),
{
    match tags {
        Some(list) => Some(copy_texts(list)),
        None => None,
    }
}

/// Whether `address` is on the list.
pub fn has_address(list: &Vec<Address>, address: &Address) -> (r: bool)
    ensures
        r == list.deep_view().contains(*address),
{
    let mut i: usize = 0;
    while i < list.len()
        invariant
            i <= list.len(),
            forall|j: int| 0 <= j < i ==> list.deep_view()[j] != *address,
        decreases list.len() - i,
    {
        if list[i] == *address {
            assert(list.deep_view()[i as int] == *address);
            return true;
        }
        i += 1;
    }
    false
}

/// Whether `text` is on the list.
pub fn has_text(list: &Vec<Text>, text: &Text) -> (r: bool)
    ensures
        r == list.deep_view().contains(text@),
{
    let mut i: usize = 0;
    while i < list.len()
        invariant
            i <= list.len(),
            forall|j: int| 0 <= j < i ==> list.deep_view()[j] != text@,
        decreases list.len() - i,
    {
        if list[i].same(text) {
            assert(list.deep_view()[i as int] == text@);
            return true;
        }
        i += 1;
    }
    false
}

/// The addresses of the list other than `address`.
pub fn without_address(list: &Vec<Address>, address: &Address) -> (r: Vec<Address>)
    ensures
        r.deep_view() == without(list.deep_view(), *address),
{
    let ghost all = list.deep_view();
    let ghost other = other_than(*address);
    let mut kept: Vec<Address> = Vec::new();
    let mut i: usize = 0;
    assert(kept.deep_view() =~= all.take(0).filter(other)) by {
        reveal(Seq::filter);
    }
    while i < list.len()
        invariant
            i <= list.len(),
            all == list.deep_view(),
            other == other_than(*address),
            kept.deep_view() == all.take(i as int).filter(other),
        decreases list.len() - i,
    {
        proof {
            lemma_filter_step(all, other, i as int);
        }
        if list[i] != *address {
            push(&mut kept, list[i]);
        }
        i += 1;
    }
    assert(all.take(i as int) =~= all);
    kept
}

/// The texts of the list other than `text`.
pub fn without_text(list: &Vec<Text>, text: &Text) -> (r: Vec<Text>)
    ensures
        r.deep_view() == without(list.deep_view(), text@),
{
    let ghost all = list.deep_view();
    let ghost other = other_than(text@);
    let mut kept: Vec<Text> = Vec::new();
    let mut i: usize = 0;
    assert(kept.deep_view() =~= all.take(0).filter(other)) by {
        reveal(Seq::filter);
    }
    while i < list.len()
        invariant
            i <= list.len(),
            all == list.deep_view(),
            other == other_than(text@),
            kept.deep_view() == all.take(i as int).filter(other),
        decreases list.len() - i,
    {
        proof {
            lemma_filter_step(all, other, i as int);
        }
        if !list[i].same(text) {
            push(&mut kept, list[i].clone());
        }
        i += 1;
    }
    assert(all.take(i as int) =~= all);
    kept
}

} // verus!
