//! Citation markers: finding `[FUR:<message_id>]` in a response.

use vstd::prelude::*;
use crate::text::{contains_text, texts};

verus! {

/// The citation marker as a regular expression; its first group is the
/// message id, made of lowercase hexadecimal digits and dashes.
pub const CITATION_PATTERN: &'static str = r"\[FUR:([a-f0-9\-]+)\]";

/// What a search of `haystack` for `pattern` with the `regex` crate finds: for
/// each match, from left to right, the text of capture group `group`, or
/// `None` where that group took no part in the match. `None` as a whole when
/// the pattern does not compile.
pub uninterp spec fn regex_group_captures(
    pattern: Seq<char>,
    haystack: Seq<char>,
    group: nat,
) -> Option<Seq<Option<Seq<char>>>>;

/// The character sequences held by the result of a search.
pub open spec fn captures_view(found: Option<Vec<Option<String>>>) -> Option<
    Seq<Option<Seq<char>>>,
> {
    match found {
        None => None,
        Some(v) => Some(
            v@.map_values(
                |o: Option<String>|
                    match o {
                        Some(s) => Some(s@),
                        None => None,
                    },
            ),
        ),
    }
}

/// Compiles `pattern` with `regex::Regex::new`, walks `haystack` with
/// `Regex::captures_iter` and takes group `group` of each match with
/// `Captures::get`. Trusted: the result is the search named
/// `regex_group_captures`, a function of the three arguments alone; a pattern
/// that does not compile gives `None`.
#[verifier::external_body]
fn group_captures(pattern: &str, haystack: &str, group: usize) -> (found: Option<
    Vec<Option<String>>,
>)
    ensures
        captures_view(found) == regex_group_captures(pattern@, haystack@, group as nat),
{
    match regex::Regex::new(pattern) {
        Ok(re) => Some(
            re.captures_iter(haystack).map(|c| c.get(group).map(|m| m.as_str().to_string())).collect(),
        ),
        Err(_) => None,
    }
}

/// The captured texts of `found` in the order of their first occurrence, each
/// once.
pub open spec fn distinct_captures(found: Seq<Option<Seq<char>>>) -> Seq<Seq<char>>
    decreases found.len(),
{
    if found.len() == 0 {
        Seq::empty()
    } else {
        let before = distinct_captures(found.drop_last());
        match found.last() {
            Some(id) => if before.contains(id) {
                before
            } else {
                before.push(id)
            },
            None => before,
        }
    }
}

/// The citations that a search result amounts to: nothing when the search
/// could not be made, else its distinct captures.
pub open spec fn citations_of(found: Option<Seq<Option<Seq<char>>>>) -> Seq<Seq<char>> {
    match found {
        None => Seq::empty(),
        Some(items) => distinct_captures(items),
    }
}

/// The citations of a response: the distinct message ids of its markers.
pub open spec fn extracted(response: Seq<char>) -> Seq<Seq<char>> {
    citations_of(regex_group_captures(CITATION_PATTERN@, response, 1))
}

/// The distinct captures hold exactly the captured texts, and none twice.
pub proof fn lemma_distinct_captures(found: Seq<Option<Seq<char>>>)
    ensures
        distinct_captures(found).no_duplicates(),
        forall|id: Seq<char>| #[trigger]
            distinct_captures(found).contains(id) <==> found.contains(Some(id)),
    decreases found.len(),
{
    let out = distinct_captures(found);
    if found.len() > 0 {
        let init = found.drop_last();
        let before = distinct_captures(init);
        lemma_distinct_captures(init);
        assert forall|id: Seq<char>| #[trigger] out.contains(id) <==> found.contains(
            Some(id),
        ) by {
            if found.contains(Some(id)) {
                let k = choose|k: int| 0 <= k < found.len() && found[k] == Some(id);
                if k < found.len() - 1 {
                    assert(init[k] == Some(id));
                    assert(init.contains(Some(id)));
                    assert(before.contains(id));
                    let j = choose|j: int| 0 <= j < before.len() && before[j] == id;
                    assert(out[j] == id);
                } else {
                    assert(found.last() == Some(id));
                    if before.contains(id) {
                    } else {
                        assert(out[out.len() - 1] == id);
                    }
                }
            }
            if out.contains(id) {
                let j = choose|j: int| 0 <= j < out.len() && out[j] == id;
                if j < before.len() {
                    assert(before[j] == id);
                    assert(before.contains(id));
                    assert(init.contains(Some(id)));
                    let k = choose|k: int| 0 <= k < init.len() && init[k] == Some(id);
                    assert(found[k] == Some(id));
                } else {
                    assert(found[found.len() - 1] == Some(id));
                }
            }
        }
        assert(out.no_duplicates()) by {
            assert forall|i: int, j: int|
                0 <= i < out.len() && 0 <= j < out.len() && i != j implies out[i] != out[j] by {
                if i < before.len() && j < before.len() {
                    assert(before[i] != before[j]);
                } else if i < before.len() {
                    assert(before.contains(before[i]));
                } else if j < before.len() {
                    assert(before.contains(before[j]));
                }
            }
        }
    }
}

/// Turns a search result into citations: drops the matches without a
/// capture, and keeps of each id only the first occurrence.
pub fn collect_citations(found: Option<Vec<Option<String>>>) -> (out: Vec<String>)
    ensures
        texts(out@) == citations_of(captures_view(found)),
        texts(out@).no_duplicates(),
        found is Some ==> forall|id: Seq<char>| #[trigger]
            texts(out@).contains(id) <==> captures_view(found)->0.contains(Some(id)),
{
    let mut out: Vec<String> = Vec::new();
    match found {
        None => {
            assert(texts(out@) =~= Seq::<Seq<char>>::empty());
        },
        Some(items) => {
            let ghost all = captures_view(Some(items))->0;
            let mut i: usize = 0;
            assert(all.take(0) =~= Seq::<Option<Seq<char>>>::empty());
            assert(texts(out@) =~= Seq::<Seq<char>>::empty());
            while i < items.len()
                invariant
                    i <= items.len(),
                    all == captures_view(Some(items))->0,
                    texts(out@) == distinct_captures(all.take(i as int)),
                decreases items.len() - i,
            {
                let ghost before = texts(out@);
                assert(all.take(i + 1).drop_last() =~= all.take(i as int));
                assert(all.take(i + 1).last() == all[i as int]);
                match &items[i] {
                    Some(id) => {
                        if !contains_text(out.as_slice(), id.as_str()) {
                            out.push(id.clone());
                            assert(texts(out@) =~= before.push(id@));
                        }
                    },
                    None => {},
                }
                i += 1;
            }
            assert(all.take(i as int) =~= all);
            proof {
                lemma_distinct_captures(all);
            }
        },
    }
    out
}

/// The citations of a response: the message ids of its `[FUR:<id>]` markers,
/// each once, in the order in which they first appear.
pub fn extract_fur_citations(response: &str) -> (out: Vec<String>)
    ensures
        texts(out@) == extracted(response@),
        texts(out@).no_duplicates(),
{
    collect_citations(group_captures(CITATION_PATTERN, response, 1))
}

} // verus!
