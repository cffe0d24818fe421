//! Search of catalog items by name, case-insensitively.
use vstd::prelude::*;
use crate::types::ItemInfo;
use crate::outside::{contains_text, is_infix, lower_of, to_lowercase};

verus! {

/// Most results of a search with a query.
pub const MAX_SEARCH_RESULTS: usize = 50;

/// Items listed for an empty query.
pub const MAX_BROWSE_RESULTS: usize = 30;

/// The lower-cased query `q` occurs in the lower-cased name, English name
/// or Russian name of the item.
pub open spec fn item_matches(item: ItemInfo, q: Seq<char>) -> bool {
    ||| is_infix(q, lower_of(item.name@))
    ||| (item.name_en is Some && is_infix(q, lower_of(item.name_en.unwrap()@)))
    ||| (item.name_ru is Some && is_infix(q, lower_of(item.name_ru.unwrap()@)))
}

/// At most the first `n` elements.
pub open spec fn first_n<A>(s: Seq<A>, n: int) -> Seq<A> {
    if s.len() <= n { s } else { s.take(n) }
}

/// The result of a search for the lower-cased query `q` over `items`.
pub open spec fn search_result(items: Seq<ItemInfo>, q: Seq<char>) -> Seq<ItemInfo> {
    if q.len() == 0 {
        first_n(items, MAX_BROWSE_RESULTS as int)
    } else {
        first_n(items.filter(|it: ItemInfo| item_matches(it, q)), MAX_SEARCH_RESULTS as int)
    }
}

fn name_matches(name: &str, q: &str) -> (r: bool)
    ensures
        r == is_infix(q@, lower_of(name@)),
{
    let lowered = to_lowercase(name);
    contains_text(lowered.as_str(), q)
}

fn item_matches_query(item: &ItemInfo, q: &str) -> (r: bool)
    ensures
        r == item_matches(*item, q@),
{
    if name_matches(item.name.as_str(), q) {
        return true;
    }
    if let Some(n) = &item.name_en {
        if name_matches(n.as_str(), q) {
            return true;
        }
    }
    if let Some(n) = &item.name_ru {
        if name_matches(n.as_str(), q) {
            return true;
        }
    }
    false
}

/// Search with an already lower-cased query `q`: the first thirty items
/// when it is empty, else the first fifty items whose lower-cased name,
/// English name or Russian name contains it, in the order given.
pub fn search_items_lowered(items: &Vec<ItemInfo>, q: &str) -> (r: Vec<ItemInfo>)
    ensures
        r@ == search_result(items@, q@),
{
    let mut out: Vec<ItemInfo> = Vec::new();
    let mut i: usize = 0;
    if q.is_empty() {
        while i < items.len() && i < MAX_BROWSE_RESULTS
            invariant
                i <= items@.len(),
                i <= MAX_BROWSE_RESULTS,
                out@ == items@.take(i as int),
            decreases items@.len() - i,
        {
            out.push(items[i].duplicate());
            assert(items@.take(i + 1) == items@.take(i as int).push(items@[i as int]));
            i += 1;
        }
        assert(out@ == first_n(items@, MAX_BROWSE_RESULTS as int));
        return out;
    }
    let ghost pred = |it: ItemInfo| item_matches(it, q@);
    while i < items.len()
        invariant
            i <= items@.len(),
            pred == (|it: ItemInfo| item_matches(it, q@)),
            out@ == first_n(items@.take(i as int).filter(pred), MAX_SEARCH_RESULTS as int),
        decreases items@.len() - i,
    {
        let ghost d = items@;
        let ghost before = d.take(i as int).filter(pred);
        assert(d.take(i + 1).drop_last() == d.take(i as int));
        assert(d.take(i + 1).last() == d[i as int]);
        proof {
            reveal(Seq::filter);
        }
        if item_matches_query(&items[i], q) {
            assert(d.take(i + 1).filter(pred) == before.push(d[i as int]));
            if out.len() < MAX_SEARCH_RESULTS {
                out.push(items[i].duplicate());
            } else {
                assert(before.push(d[i as int]).take(MAX_SEARCH_RESULTS as int) == before.take(
                    MAX_SEARCH_RESULTS as int,
                ));
            }
        } else {
            assert(d.take(i + 1).filter(pred) == before);
        }
        i += 1;
    }
    assert(items@.take(items@.len() as int) == items@);
    out
}

/// Case-insensitive search of `items` for `query` (see
/// `search_items_lowered`).
pub fn search_items(items: &Vec<ItemInfo>, query: &str) -> (r: Vec<ItemInfo>)
    ensures
        r@ == search_result(items@, lower_of(query@)),
{
    let q = to_lowercase(query);
    search_items_lowered(items, q.as_str())
}

} // verus!
