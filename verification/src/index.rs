//! The symbol index: substring queries against the (company name,
//! ticker) pairs cached for the active exchange.

use vstd::prelude::*;
use vstd::string::*;

use crate::text::{contains_at, contains_seq, lower, pair_views, str_contains, to_lowercase};

verus! {

/// One line of search output: the ticker, a separator, and the folded
/// company name.
pub open spec fn entry_line(name: Seq<char>, symbol: Seq<char>) -> Seq<char> {
    symbol + ": "@ + lower(name) + "\n"@
}

/// Whether an entry is selected: the folded needle occurs in the
/// folded company name.
pub open spec fn entry_matches(name: Seq<char>, needle: Seq<char>) -> bool {
    contains_seq(lower(name), lower(needle))
}

/// The lines of all selected entries, in cache order.
pub open spec fn search_lines(cache: Seq<(Seq<char>, Seq<char>)>, needle: Seq<char>) -> Seq<char>
    decreases cache.len(),
{
    if cache.len() == 0 {
        Seq::empty()
    } else {
        (if entry_matches(cache[0].0, needle) {
            entry_line(cache[0].0, cache[0].1)
        } else {
            Seq::<char>::empty()
        }) + search_lines(cache.drop_first(), needle)
    }
}

/// The lines of every entry, in cache order.
pub open spec fn all_lines(cache: Seq<(Seq<char>, Seq<char>)>) -> Seq<char>
    decreases cache.len(),
{
    if cache.len() == 0 {
        Seq::empty()
    } else {
        entry_line(cache[0].0, cache[0].1) + all_lines(cache.drop_first())
    }
}

/// Searching is insensitive to the case of the needle: two needles
/// that fold to the same characters select the same lines.
pub proof fn lemma_search_case_insensitive(
    cache: Seq<(Seq<char>, Seq<char>)>,
    n1: Seq<char>,
    n2: Seq<char>,
)
    requires
        lower(n1) == lower(n2),
    ensures
        search_lines(cache, n1) == search_lines(cache, n2),
    decreases cache.len(),
{
    if cache.len() > 0 {
        lemma_search_case_insensitive(cache.drop_first(), n1, n2);
    }
}

/// A needle and its folded form select the same lines.
pub proof fn lemma_search_folded_needle(cache: Seq<(Seq<char>, Seq<char>)>, needle: Seq<char>)
    ensures
        search_lines(cache, needle) == search_lines(cache, lower(needle)),
{
    crate::text::lemma_lower_idempotent(needle);
    lemma_search_case_insensitive(cache, needle, lower(needle));
}

/// The empty needle selects every entry: searching with it yields the
/// line of each cached pair, in order.
pub proof fn lemma_search_empty_needle(cache: Seq<(Seq<char>, Seq<char>)>)
    ensures
        search_lines(cache, Seq::<char>::empty()) == all_lines(cache),
    decreases cache.len(),
{
    if cache.len() > 0 {
        assert(lower(Seq::<char>::empty()) =~= Seq::<char>::empty());
        assert(lower(cache[0].0).subrange(0, 0) =~= lower(Seq::<char>::empty()));
        assert(contains_at(lower(cache[0].0), lower(Seq::<char>::empty()), 0));
        lemma_search_empty_needle(cache.drop_first());
    }
}

/// Scans the cached pairs and renders the line of every entry whose
/// folded name contains the folded needle.
pub fn search_pairs(companies: &Vec<(String, String)>, needle: &str) -> (r: String)
    ensures
        r@ == search_lines(pair_views(companies@), needle@),
{
    let ghost cache = pair_views(companies@);
    let needle_low = to_lowercase(needle);
    let n = companies.len();
    let mut r = String::new();
    let mut i: usize = 0;
    proof {
        assert(cache.skip(0) =~= cache);
    }
    while i < n
        invariant
            i <= n,
            n == companies@.len(),
            cache == pair_views(companies@),
            needle_low@ == lower(needle@),
            r@ + search_lines(cache.skip(i as int), needle@) == search_lines(cache, needle@),
        decreases n - i,
    {
        proof {
            assert(cache.skip(i as int)[0] == cache[i as int]);
            assert(cache.skip(i as int).drop_first() =~= cache.skip(i + 1));
        }
        let name_low = to_lowercase(companies[i].0.as_str());
        let ghost r_before = r@;
        if str_contains(name_low.as_str(), needle_low.as_str()) {
            r.append(companies[i].1.as_str());
            r.append(": ");
            r.append(name_low.as_str());
            r.append("\n");
            proof {
                assert(r@ =~= r_before + entry_line(cache[i as int].0, cache[i as int].1));
            }
        }
        proof {
            assert(r@ + search_lines(cache.skip(i + 1), needle@) =~= r_before + search_lines(
                cache.skip(i as int),
                needle@,
            ));
        }
        i = i + 1;
    }
    proof {
        assert(cache.skip(n as int) =~= Seq::<(Seq<char>, Seq<char>)>::empty());
        assert(r@ + search_lines(cache.skip(n as int), needle@) =~= r@);
    }
    r
}

} // verus!
