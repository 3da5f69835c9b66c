//! Flattening a failed result's cause chain into a backtrace-like list of
//! strings, and the trusted view of the error-chaining facility.
//!
//! An error value owns an ordered chain of causes, outermost (most recently
//! attached) first; `chain_of` names the display strings of that chain.

use vstd::prelude::*;

verus! {

/// The error-chaining facility's error type, opaque here: everything the
/// contracts say of a value of it goes through `chain_of`.
#[verifier::external_type_specification]
#[verifier::external_body]
pub struct ExAnyhowError(anyhow::Error);

/// The display strings of an error's cause chain, outermost cause first.
/// The first entry is the error's own top-level message.
pub uninterp spec fn chain_of(e: anyhow::Error) -> Seq<Seq<char>>;

/// Relies on anyhow::Error::chain: it visits every error in the cause
/// chain, beginning with the error itself; each cause is rendered with its
/// display string. The chain therefore holds at least one entry.
#[verifier::external_body]
pub(crate) fn chain_strings(e: &anyhow::Error) -> (r: Vec<String>)
    ensures
        r.deep_view() == chain_of(*e),
        r.deep_view().len() >= 1,
{
    e.chain().map(|cause| cause.to_string()).collect()
}

/// Relies on anyhow::Error::context: the returned error displays `note`
/// and keeps the original error as its source, so its cause chain is
/// `note` followed by the original chain, unchanged.
#[verifier::external_body]
pub(crate) fn attach_context(e: anyhow::Error, note: String) -> (r: anyhow::Error)
    ensures
        chain_of(r) == seq![note@] + chain_of(e),
{
    e.context(note)
}

/// The causes a flattening keeps from a chain tail: every entry whose text
/// is nonempty, in their original relative order.
pub open spec fn nonempty_causes(chain: Seq<Seq<char>>) -> Seq<Seq<char>>
    decreases chain.len(),
{
    if chain.len() == 0 {
        Seq::empty()
    } else {
        let rest = nonempty_causes(chain.drop_last());
        if chain.last().len() > 0 {
            rest.push(chain.last())
        } else {
            rest
        }
    }
}

/// What flattening a failure's chain yields: the nonempty causes after the
/// first entry, the top-level message at index 0 being excluded.
pub open spec fn flattened_chain(chain: Seq<Seq<char>>) -> Seq<Seq<char>> {
    if chain.len() == 0 {
        Seq::empty()
    } else {
        nonempty_causes(chain.skip(1))
    }
}

/// Converts a result into the list of its failure's cause strings: empty on
/// success; on failure, the display strings of the cause chain excluding
/// the top-level message (index 0) and excluding any empty string, in
/// their original order.
pub fn backtrace_anyhow<T>(err: Result<T, anyhow::Error>) -> (r: Vec<String>)
    ensures
        err is Ok ==> r.deep_view() == Seq::<Seq<char>>::empty(),
        err is Err ==> r.deep_view() == flattened_chain(chain_of(err->Err_0)),
{
    let mut errmsg: Vec<String> = Vec::new();
    match err {
        Result::Ok(_) => {
            proof {
                assert(errmsg.deep_view() =~= Seq::<Seq<char>>::empty());
            }
            errmsg
        },
        Result::Err(e) => {
            let causes = chain_strings(&e);
            proof {
                assert(nonempty_causes(causes.deep_view().subrange(1, 1)) =~= Seq::<
                    Seq<char>,
                >::empty());
                assert(errmsg.deep_view() =~= Seq::<Seq<char>>::empty());
            }
            let mut i: usize = 1;
            while i < causes.len()
                invariant
                    1 <= i <= causes@.len(),
                    causes.deep_view() == chain_of(e),
                    causes.deep_view().len() >= 1,
                    errmsg.deep_view() == nonempty_causes(
                        causes.deep_view().subrange(1, i as int),
                    ),
                decreases causes@.len() - i,
            {
                let ghost prefix = causes.deep_view().subrange(1, i as int);
                let ghost cur = causes.deep_view().subrange(1, i as int + 1);
                proof {
                    assert(cur.drop_last() =~= prefix);
                    assert(cur.last() == causes.deep_view()[i as int]);
                    assert(causes.deep_view()[i as int] == causes@[i as int]@);
                }
                if !causes[i].as_str().is_empty() {
                    let cause = causes[i].clone();
                    errmsg.push(cause);
                    proof {
                        assert(errmsg.deep_view() =~= nonempty_causes(prefix).push(
                            causes@[i as int]@,
                        ));
                    }
                } else {
                    proof {
                        assert(errmsg.deep_view() =~= nonempty_causes(cur));
                    }
                }
                i = i + 1;
            }
            proof {
                assert(causes.deep_view().subrange(1, causes.deep_view().len() as int)
                    =~= causes.deep_view().skip(1));
            }
            errmsg
        },
    }
}

/// Law: a flattened chain keeps exactly the nonempty entries after the
/// first one — every kept cause is nonempty, every nonempty cause past
/// index 0 is kept, and at most all entries but the first are kept.
pub proof fn lemma_flattened_chain_members(chain: Seq<Seq<char>>)
    requires
        chain.len() >= 1,
    ensures
        forall|j: int|
            0 <= j < flattened_chain(chain).len() ==> #[trigger] flattened_chain(
                chain,
            )[j].len() > 0,
        forall|i: int|
            1 <= i < chain.len() && chain[i].len() > 0 ==> flattened_chain(chain).contains(
                #[trigger] chain[i],
            ),
        flattened_chain(chain).len() <= chain.len() - 1,
{
    let tail = chain.skip(1);
    let pred = |c: Seq<char>| c.len() > 0;
    lemma_nonempty_causes_is_filter(tail);
    tail.lemma_filter_len(pred);
    assert forall|j: int|
        0 <= j < flattened_chain(chain).len() implies #[trigger] flattened_chain(
        chain,
    )[j].len() > 0 by {
        tail.lemma_filter_pred(pred, j);
    }
    assert forall|i: int|
        1 <= i < chain.len() && chain[i].len() > 0 implies flattened_chain(chain).contains(
        #[trigger] chain[i],
    ) by {
        assert(tail[i - 1] == chain[i]);
        tail.lemma_filter_contains(pred, i - 1);
    }
}

/// The kept causes are precisely the filtering of the chain tail by
/// nonemptiness.
pub proof fn lemma_nonempty_causes_is_filter(chain: Seq<Seq<char>>)
    ensures
        nonempty_causes(chain) == chain.filter(|c: Seq<char>| c.len() > 0),
    decreases chain.len(),
{
    reveal(Seq::filter);
    if chain.len() > 0 {
        lemma_nonempty_causes_is_filter(chain.drop_last());
    }
}

/// The causes kept from a chain with one entry put in front: the front
/// entry is kept first exactly when it is nonempty, and the rest are kept
/// as before.
pub proof fn lemma_nonempty_causes_prepend(head: Seq<char>, rest: Seq<Seq<char>>)
    ensures
        nonempty_causes(seq![head] + rest) == (if head.len() > 0 {
            seq![head] + nonempty_causes(rest)
        } else {
            nonempty_causes(rest)
        }),
    decreases rest.len(),
{
    let whole = seq![head] + rest;
    if rest.len() == 0 {
        reveal_with_fuel(nonempty_causes, 2);
        assert(rest =~= Seq::<Seq<char>>::empty());
        assert(whole.drop_last() =~= Seq::<Seq<char>>::empty());
        assert(whole.last() == head);
        if head.len() > 0 {
            assert(nonempty_causes(whole) =~= seq![head] + nonempty_causes(rest));
        }
    } else {
        assert(whole.drop_last() =~= seq![head] + rest.drop_last());
        lemma_nonempty_causes_prepend(head, rest.drop_last());
        assert(whole.last() == rest.last());
        if head.len() > 0 {
            if rest.last().len() > 0 {
                assert((seq![head] + nonempty_causes(rest.drop_last())).push(rest.last())
                    =~= seq![head] + nonempty_causes(rest.drop_last()).push(rest.last()));
            }
            assert(nonempty_causes(whole) =~= seq![head] + nonempty_causes(rest));
        }
    }
}

/// Law: the note a wrap attaches becomes the chain's top-level entry, so a
/// flattening done right after the wrap excludes it and yields exactly the
/// nonempty causes of the whole original chain, its top message included.
pub proof fn lemma_flatten_after_wrap(note: Seq<char>, original: Seq<Seq<char>>)
    ensures
        flattened_chain(seq![note] + original) == nonempty_causes(original),
{
    assert((seq![note] + original).skip(1) =~= original);
}

/// Law: once a wrapped failure is wrapped again on its way up, a
/// flattening excludes only the newest note, and the earlier nonempty note
/// appears first, closest to the original causes that follow it.
pub proof fn lemma_note_first_after_rewrap(outer: Seq<char>, note: Seq<char>, original: Seq<
    Seq<char>,
>)
    requires
        note.len() > 0,
    ensures
        flattened_chain(seq![outer] + (seq![note] + original)) == seq![note] + nonempty_causes(
            original,
        ),
        flattened_chain(seq![outer] + (seq![note] + original))[0] == note,
{
    lemma_flatten_after_wrap(outer, seq![note] + original);
    lemma_nonempty_causes_prepend(note, original);
}

/// Law: flattening is a pure read — it is a function of the cause chain
/// alone, so flattening the same failure twice yields the same sequence.
pub proof fn lemma_flatten_repeatable(first: Seq<Seq<char>>, second: Seq<Seq<char>>)
    requires
        first == second,
    ensures
        flattened_chain(first) == flattened_chain(second),
{
}

} // verus!
