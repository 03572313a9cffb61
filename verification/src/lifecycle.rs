//! The life of a registration over a whole run of requests.
//!
//! A source goes from unregistered to registered and back. Which requests are
//! in order at each point is the registry's to enforce: the source hands every
//! request on and returns the answer. This module says what a source has on
//! record after any sequence of requests and replies, what a registry answers
//! that keeps the order, and proves that with such a registry a source is
//! never registered twice over.

use vstd::prelude::*;
use crate::error::RegistryError;
use crate::source::{granted, next, Registration, Request};

verus! {

/// One request to a source, with the reply that the registry gave to it. The
/// reply is also what the application was told.
pub struct Exchange {
    pub request: Request,
    pub reply: Result<(), RegistryError>,
}

/// The registration that a source has on record after the exchanges of
/// `script`, in order, when it had `start` before them.
pub open spec fn run(start: Option<Registration>, script: Seq<Exchange>) -> Option<Registration>
    decreases script.len(),
{
    if script.len() == 0 {
        start
    } else {
        next(run(start, script.drop_last()), script.last().request, script.last().reply)
    }
}

/// The order of registrations: a handle is registered only while it is not
/// registered, and only a registration that exists is changed or ended. For a
/// request that breaks the order this is the class of error that names the
/// breach; for a request in order it is `None`.
pub open spec fn out_of_order(registration: Option<Registration>, request: Request) -> Option<
    RegistryError,
> {
    match request {
        Request::Register { .. } => if registration is Some {
            Some(RegistryError::AlreadyRegistered)
        } else {
            None
        },
        Request::Reregister { .. } | Request::Deregister => if registration is None {
            Some(RegistryError::NotRegistered)
        } else {
            None
        },
    }
}

/// True when the registry kept the order in exchange `i` of `script`: if the
/// request broke the order, going by what the source had on record when it
/// came, the registry refused it.
pub open spec fn keeps_order_at(start: Option<Registration>, script: Seq<Exchange>, i: int) -> bool
    recommends
        0 <= i < script.len(),
{
    out_of_order(run(start, script.take(i)), script[i].request) is Some ==> script[i].reply is Err
}

/// True when exchange `k` of `script` ends a registration: it asks to
/// deregister, and the registry consents.
pub open spec fn deregisters_at(script: Seq<Exchange>, k: int) -> bool
    recommends
        0 <= k < script.len(),
{
    script[k].request is Deregister && script[k].reply is Ok
}

/// Each exchange takes the record from what it was after the exchanges before
/// it to what it is after them and itself.
pub proof fn lemma_run_step(start: Option<Registration>, script: Seq<Exchange>, i: int)
    requires
        0 <= i < script.len(),
    ensures
        run(start, script.take(i + 1)) == next(
            run(start, script.take(i)),
            script[i].request,
            script[i].reply,
        ),
{
    let upto = script.take(i + 1);
    assert(upto.drop_last() =~= script.take(i));
    assert(upto.last() == script[i]);
}

/// A request that breaks the order, put to a registry that keeps it, fails
/// with the registry's error and leaves the record as it was.
pub proof fn lemma_out_of_order_changes_nothing(
    start: Option<Registration>,
    script: Seq<Exchange>,
    i: int,
)
    requires
        0 <= i < script.len(),
        out_of_order(run(start, script.take(i)), script[i].request) is Some,
        keeps_order_at(start, script, i),
    ensures
        script[i].reply is Err,
        run(start, script.take(i + 1)) == run(start, script.take(i)),
{
    lemma_run_step(start, script, i);
}

/// A source that has a registration on record keeps one until an exchange
/// ends it: if it has one after exchange `i`, and no exchange after `i` and
/// before `j` deregisters, it has one when exchange `j` begins.
pub proof fn lemma_registered_until_deregistered(
    start: Option<Registration>,
    script: Seq<Exchange>,
    i: int,
    j: int,
)
    requires
        0 <= i < j <= script.len(),
        run(start, script.take(i + 1)) is Some,
        forall|k: int| i < k < j ==> !#[trigger] deregisters_at(script, k),
    ensures
        run(start, script.take(j)) is Some,
    decreases j - i,
{
    if j > i + 1 {
        lemma_registered_until_deregistered(start, script, i, j - 1);
        lemma_run_step(start, script, j - 1);
        assert(!deregisters_at(script, j - 1));
    }
}

/// With a registry that keeps the order, a source is never registered twice
/// over. When the registry consented to a request to register in exchange
/// `i`, and no exchange between `i` and `j` ended that registration, a request
/// to register in exchange `j` breaks the order as `AlreadyRegistered`; a
/// registry that keeps the order in that exchange refuses it, its error is
/// what the application is told, and the record stays as it was.
pub proof fn lemma_no_second_registration(
    start: Option<Registration>,
    script: Seq<Exchange>,
    i: int,
    j: int,
)
    requires
        0 <= i < j < script.len(),
        script[i].request is Register,
        script[i].reply is Ok,
        script[j].request is Register,
        forall|k: int| i < k < j ==> !#[trigger] deregisters_at(script, k),
        keeps_order_at(start, script, j),
    ensures
        out_of_order(run(start, script.take(j)), script[j].request) == Some(
            RegistryError::AlreadyRegistered,
        ),
        script[j].reply is Err,
        run(start, script.take(j + 1)) == run(start, script.take(j)),
{
    lemma_run_step(start, script, i);
    lemma_registered_until_deregistered(start, script, i, j);
    lemma_out_of_order_changes_nothing(start, script, j);
}

/// The whole life of a registration. For an unregistered source that is asked
/// to register, then any number of times to reregister, then to deregister,
/// with the registry consenting each time: every request is in order when it
/// comes; between the first and the last the source has on record what was
/// asked for last; and it ends unregistered.
pub proof fn lemma_register_reregister_deregister(script: Seq<Exchange>)
    requires
        script.len() >= 2,
        script[0].request is Register,
        forall|k: int| 0 < k < script.len() - 1 ==> (#[trigger] script[k]).request is Reregister,
        script.last().request is Deregister,
        forall|k: int| 0 <= k < script.len() ==> (#[trigger] script[k]).reply is Ok,
    ensures
        forall|k: int|
            0 <= k < script.len() ==> out_of_order(
                #[trigger] run(None, script.take(k)),
                script[k].request,
            ) is None,
        forall|k: int|
            0 <= k < script.len() - 1 ==> #[trigger] run(None, script.take(k + 1)) == granted(
                script[k].request,
            ),
        run(None, script) is None,
{
    lemma_lifecycle_prefix(script, script.len() - 1);
    lemma_run_step(None, script, script.len() - 1);
    assert(script.take(script.len() as int) =~= script);
    assert forall|k: int| 0 <= k < script.len() implies out_of_order(
        #[trigger] run(None, script.take(k)),
        script[k].request,
    ) is None by {
        if k > 0 {
            lemma_lifecycle_prefix(script, k);
        } else {
            assert(script.take(0) =~= Seq::<Exchange>::empty());
        }
    }
    assert forall|k: int| 0 <= k < script.len() - 1 implies #[trigger] run(
        None,
        script.take(k + 1),
    ) == granted(script[k].request) by {
        lemma_lifecycle_prefix(script, k + 1);
    }
}

/// After the first `n` exchanges of such a life, the last of them not yet
/// reached, the source has on record what exchange `n - 1` asked for.
proof fn lemma_lifecycle_prefix(script: Seq<Exchange>, n: int)
    requires
        script.len() >= 2,
        script[0].request is Register,
        forall|k: int| 0 < k < script.len() - 1 ==> (#[trigger] script[k]).request is Reregister,
        forall|k: int| 0 <= k < script.len() ==> (#[trigger] script[k]).reply is Ok,
        1 <= n <= script.len() - 1,
    ensures
        run(None, script.take(n)) == granted(script[n - 1].request),
        run(None, script.take(n)) is Some,
{
    lemma_run_step(None, script, n - 1);
}

} // verus!
