//! The review session: a queue of the questions due, graded one at a time.

use vstd::prelude::*;
use crate::api::{Endpoint, Question};

verus! {

/// `queue` without the questions whose id is `id`, the others in order.
pub open spec fn without_question(queue: Seq<Question>, id: i64) -> Seq<Question>
    decreases queue.len(),
{
    if queue.len() == 0 {
        Seq::empty()
    } else {
        let earlier = without_question(queue.drop_last(), id);
        if queue.last().id == id {
            earlier
        } else {
            earlier.push(queue.last())
        }
    }
}

/// Takes a graded question out of the queue: every question with that id
/// leaves, the others keep their order.
pub fn remove_question(queue: &mut Vec<Question>, id: i64)
    ensures
        final(queue)@ == without_question(old(queue)@, id),
{
    let ghost initial = queue@;
    let ghost mut k: int = 0;
    let mut i: usize = 0;
    while i < queue.len()
        invariant
            0 <= k <= initial.len(),
            queue@ == without_question(initial.take(k), id) + initial.skip(k),
            i == without_question(initial.take(k), id).len(),
        decreases initial.len() - k,
    {
        let ghost kept = without_question(initial.take(k), id);
        assert(queue@[i as int] == initial[k]);
        assert(initial.take(k + 1).drop_last() =~= initial.take(k));
        assert(initial.take(k + 1).last() == initial[k]);
        if queue[i].id == id {
            queue.remove(i);
            assert(queue@ =~= kept + initial.skip(k + 1));
        } else {
            i = i + 1;
            assert(queue@ =~= kept.push(initial[k]) + initial.skip(k + 1));
        }
        proof {
            k = k + 1;
        }
    }
    proof {
        if k < initial.len() {
            assert(queue@.len() > i);
        }
        assert(initial.take(k) =~= initial);
        assert(queue@ =~= without_question(initial, id));
    }
}

/// After a question is taken out of the queue, no question with its id is
/// left, and every question left was in the queue before.
pub proof fn lemma_removed_question_absent(queue: Seq<Question>, id: i64)
    ensures
        forall|i: int|
            0 <= i < without_question(queue, id).len() ==> #[trigger] without_question(
                queue,
                id,
            )[i].id != id,
        forall|i: int|
            0 <= i < without_question(queue, id).len() ==> queue.contains(
                #[trigger] without_question(queue, id)[i],
            ),
        without_question(queue, id).len() <= queue.len(),
    decreases queue.len(),
{
    if queue.len() > 0 {
        lemma_removed_question_absent(queue.drop_last(), id);
        let earlier = without_question(queue.drop_last(), id);
        assert forall|i: int|
            0 <= i < without_question(queue, id).len() implies queue.contains(
            #[trigger] without_question(queue, id)[i],
        ) by {
            if i < earlier.len() {
                let q = earlier[i];
                assert(queue.drop_last().contains(q));
                let j = choose|j: int| 0 <= j < queue.drop_last().len() && queue.drop_last()[j] == q;
                assert(queue[j] == q);
            } else {
                assert(queue[queue.len() - 1] == queue.last());
            }
        }
    }
}

/// The call that records a grade once the answer has been created: the
/// answer is marked correct or incorrect; a failure to create it is passed
/// on.
pub fn grading_call(created: Result<i64, String>, is_correct: bool) -> (r: Result<Endpoint, String>)
    ensures
        match created {
            Ok(answer_id) => r == Ok::<Endpoint, String>(
                if is_correct {
                    Endpoint::MarkAnswerCorrect(answer_id)
                } else {
                    Endpoint::MarkAnswerIncorrect(answer_id)
                },
            ),
            Err(message) => r == Err::<Endpoint, String>(message),
        },
{
    match created {
        Ok(answer_id) => {
            if is_correct {
                Ok(Endpoint::MarkAnswerCorrect(answer_id))
            } else {
                Ok(Endpoint::MarkAnswerIncorrect(answer_id))
            }
        },
        Err(message) => Err(message),
    }
}

} // verus!
