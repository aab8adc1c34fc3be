//! The grounding rule: a response must cite, and cite only what it was given.

use vstd::prelude::*;
use crate::citation::extracted;
use crate::failure::{unit_view, Failure, FailureView};
use crate::fur_atom::{atom_views, message_ids, FurAtom, FurAtomView};
use crate::text::{same_text, texts};

verus! {

/// The first of `citations` that is not among `ids`, if there is one.
pub open spec fn first_unknown(citations: Seq<Seq<char>>, ids: Seq<Seq<char>>) -> Option<
    Seq<char>,
>
    decreases citations.len(),
{
    if citations.len() == 0 {
        None
    } else if !ids.contains(citations[0]) {
        Some(citations[0])
    } else {
        first_unknown(citations.drop_first(), ids)
    }
}

/// The result of validating a run of citations against the message ids of the material:
/// no citation at all is a violation, and so is the first citation that names
/// no atom.
pub open spec fn validated(citations: Seq<Seq<char>>, ids: Seq<Seq<char>>) -> Result<
    (),
    FailureView,
> {
    if citations.len() == 0 {
        Err(FailureView::NoCitations)
    } else {
        match first_unknown(citations, ids) {
            Some(id) => Err(FailureView::UnknownCitation(id)),
            None => Ok(()),
        }
    }
}

/// `first_unknown` finds nothing exactly when every citation is an id, and
/// what it finds is a citation that is no id and has only ids before it.
pub proof fn lemma_first_unknown(citations: Seq<Seq<char>>, ids: Seq<Seq<char>>)
    ensures
        first_unknown(citations, ids) is None <==> forall|i: int|
            0 <= i < citations.len() ==> ids.contains(#[trigger] citations[i]),
        first_unknown(citations, ids) matches Some(id) ==> exists|i: int|
            0 <= i < citations.len() && #[trigger] citations[i] == id && !ids.contains(id)
                && forall|j: int| 0 <= j < i ==> ids.contains(#[trigger] citations[j]),
    decreases citations.len(),
{
    if citations.len() == 0 {
    } else if !ids.contains(citations[0]) {
        assert(citations[0] == citations[0]);
    } else {
        let rest = citations.drop_first();
        lemma_first_unknown(rest, ids);
        assert(forall|i: int| 0 <= i < rest.len() ==> rest[i] == citations[i + 1]);
        if first_unknown(rest, ids) is None {
            assert forall|i: int| 0 <= i < citations.len() implies ids.contains(
                #[trigger] citations[i],
            ) by {
                if i > 0 {
                    assert(rest[i - 1] == citations[i]);
                }
            }
        } else {
            let id = first_unknown(rest, ids)->0;
            let k = choose|i: int|
                0 <= i < rest.len() && #[trigger] rest[i] == id && !ids.contains(id)
                    && forall|j: int| 0 <= j < i ==> ids.contains(#[trigger] rest[j]);
            assert(citations[k + 1] == id);
            assert forall|j: int| 0 <= j < k + 1 implies ids.contains(
                #[trigger] citations[j],
            ) by {
                if j > 0 {
                    assert(rest[j - 1] == citations[j]);
                }
            }
            assert(!(forall|i: int|
                0 <= i < citations.len() ==> ids.contains(#[trigger] citations[i])));
        }
    }
}

/// Validation succeeds exactly when there is at least one citation and
/// every citation is the message id of an atom.
pub proof fn lemma_validated_iff_grounded(citations: Seq<Seq<char>>, ids: Seq<Seq<char>>)
    ensures
        validated(citations, ids) is Ok <==> (citations.len() > 0 && forall|i: int|
            0 <= i < citations.len() ==> ids.contains(#[trigger] citations[i])),
{
    lemma_first_unknown(citations, ids);
}

fn is_message_id(atoms: &[FurAtom], id: &str) -> (found: bool)
    ensures
        found == message_ids(atom_views(atoms@)).contains(id@),
{
    let ghost ids = message_ids(atom_views(atoms@));
    let mut i: usize = 0;
    while i < atoms.len()
        invariant
            i <= atoms.len(),
            ids == message_ids(atom_views(atoms@)),
            forall|j: int| 0 <= j < i ==> ids[j] != id@,
        decreases atoms.len() - i,
    {
        if same_text(atoms[i].message_id.as_str(), id) {
            assert(ids[i as int] == id@);
            return true;
        }
        i += 1;
    }
    false
}

/// Checks a response's citations against the material it was given.
///
/// Fails with `NoCitations` when there is none, and with `UnknownCitation`
/// naming the first citation that is not the message id of any atom.
pub fn validate_citations(citations: &[String], atoms: &[FurAtom]) -> (r: Result<(), Failure>)
    ensures
        unit_view(r) == validated(texts(citations@), message_ids(atom_views(atoms@))),
        r is Ok <==> (citations@.len() > 0 && forall|i: int|
            0 <= i < citations@.len() ==> message_ids(atom_views(atoms@)).contains(
                #[trigger] citations@[i]@,
            )),
{
    let ghost cs = texts(citations@);
    let ghost ids = message_ids(atom_views(atoms@));
    proof {
        lemma_validated_iff_grounded(cs, ids);
        assert(forall|i: int| 0 <= i < cs.len() ==> cs[i] == citations@[i]@);
    }
    if citations.len() == 0 {
        return Err(Failure::NoCitations);
    }
    let mut i: usize = 0;
    assert(cs.skip(0) =~= cs);
    while i < citations.len()
        invariant
            i <= citations.len(),
            cs == texts(citations@),
            ids == message_ids(atom_views(atoms@)),
            first_unknown(cs, ids) == first_unknown(cs.skip(i as int), ids),
        decreases citations.len() - i,
    {
        let ghost rest = cs.skip(i as int);
        assert(rest[0] == cs[i as int]);
        assert(rest.drop_first() =~= cs.skip(i + 1));
        if !is_message_id(atoms, citations[i].as_str()) {
            return Err(Failure::UnknownCitation(citations[i].clone()));
        }
        i += 1;
    }
    proof {
        assert(cs.skip(i as int).len() == 0);
        lemma_validated_iff_grounded(cs, ids);
        assert forall|i: int| 0 <= i < citations@.len() implies ids.contains(
            #[trigger] citations@[i]@,
        ) by {
            assert(cs[i] == citations@[i]@);
        }
    }
    Ok(())
}

/// Validating the citations extracted from a response succeeds exactly when
/// the response cites at least one message id and every id it cites is the
/// message id of an atom.
pub proof fn lemma_citation_completeness(response: Seq<char>, atoms: Seq<FurAtomView>)
    ensures
        validated(extracted(response), message_ids(atoms)) is Ok <==> (extracted(response).len() > 0
            && forall|i: int|
            0 <= i < extracted(response).len() ==> message_ids(atoms).contains(
                #[trigger] extracted(response)[i],
            )),
{
    lemma_validated_iff_grounded(extracted(response), message_ids(atoms));
}

/// A failed validation is one of the two grounding violations: no citation at
/// all, or a citation that names no atom.
pub proof fn lemma_validation_failures(citations: Seq<Seq<char>>, ids: Seq<Seq<char>>)
    ensures
        validated(citations, ids) matches Err(why) ==> why.is_grounding_violation(),
        validated(citations, ids) == Err::<(), FailureView>(FailureView::NoCitations)
            <==> citations.len() == 0,
        validated(citations, ids) matches Err(FailureView::UnknownCitation(id))
            ==> citations.contains(id) && !ids.contains(id),
{
    lemma_first_unknown(citations, ids);
}

} // verus!
