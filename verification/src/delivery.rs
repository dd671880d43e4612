//! Handing the answers to the requests that wait for them.

use futures_channel::oneshot;
use vstd::prelude::*;

verus! {

/// The sending end of a channel for one value.
#[verifier::external_type_specification]
#[verifier::external_body]
#[verifier::reject_recursive_types(T)]
pub struct ExSender<T>(oneshot::Sender<T>);

/// `oneshot::Sender::send` hands the value to the receiving end. If that is gone, it gives the
/// value back. Whether it is gone is up to the receiver, and nothing is said of it.
pub assume_specification<T>[ oneshot::Sender::<T>::send ](sender: oneshot::Sender<T>, t: T) -> (r:
    Result<(), T>)
    ensures
        r matches Err(back) ==> back == t,
;

/// Calls `f`, which answers a waiting request, with the request and its answer.
fn hand<F: FnOnce(oneshot::Sender<String>, String) -> Result<(), String>>(
    f: F,
    tx: oneshot::Sender<String>,
    text: String,
) -> (r: Result<(), String>)
    requires
        call_requires(f, (tx, text)),
    ensures
        call_ensures(f, (tx, text), r),
{
    f(tx, text)
}

/// Hands each waiting request its answer, in order: the result holds what `send` said of each
/// request and the text that stands beside it. An answer that was not taken, because the client
/// had gone, comes back.
pub fn deliver(answers: Vec<(oneshot::Sender<String>, String)>) -> (taken: Vec<
    Result<(), String>,
>)
    ensures
        taken@.len() == answers@.len(),
        forall|i: int|
            0 <= i < answers@.len() ==> call_ensures(
                oneshot::Sender::<String>::send,
                (answers@[i].0, answers@[i].1),
                #[trigger] taken@[i],
            ),
        forall|i: int|
            0 <= i < answers@.len() ==> (#[trigger] taken@[i] matches Err(back) ==> back
                == answers@[i].1),
{
    let ghost all = answers@;
    let mut taken: Vec<Result<(), String>> = Vec::new();
    for answer in it: answers.into_iter()
        invariant
            it.seq() == all,
            taken@.len() == it.index(),
            forall|i: int|
                0 <= i < taken@.len() ==> call_ensures(
                    oneshot::Sender::<String>::send,
                    (all[i].0, all[i].1),
                    #[trigger] taken@[i],
                ),
            forall|i: int|
                0 <= i < taken@.len() ==> (#[trigger] taken@[i] matches Err(back) ==> back
                    == all[i].1),
    {
        let (tx, text) = answer;
        taken.push(hand(oneshot::Sender::<String>::send, tx, text));
    }
    taken
}

} // verus!
