//! Request-id issuing and a registry of subscribed topics.
//!
//! Both hold their state in a value that the caller owns and passes in, so a
//! process can keep one shared instance and tests can keep their own.
use vstd::prelude::*;

verus! {

/// Issues request ids: 1 first, then each id one more than the one before.
#[derive(Debug)]
pub struct RequestIdCounter {
    /// The id handed out last; 0 before the first.
    pub last: u64,
}

impl RequestIdCounter {
    /// A counter that has issued nothing yet.
    pub fn new() -> (r: RequestIdCounter)
        ensures
            r.last == 0,
    {
        RequestIdCounter { last: 0 }
    }
}

/// Advances `counter` and returns the new id.
pub fn increment(counter: &mut RequestIdCounter) -> (r: u64)
    requires
        old(counter).last < u64::MAX,
    ensures
        r == old(counter).last + 1,
        final(counter).last == r,
{
    counter.last = counter.last + 1;
    counter.last
}

/// Ids issued by successive calls of [`increment`] are distinct and leave no
/// gap. `states[k]` is the counter before call `k` and `ids[k]` what that call
/// returned, each call starting where the one before left the counter; then
/// call `k` returns `states[0].last + 1 + k`.
pub proof fn lemma_successive_ids(states: Seq<RequestIdCounter>, ids: Seq<u64>)
    requires
        states.len() == ids.len() + 1,
        forall|k: int|
            0 <= k < ids.len() ==> #[trigger] ids[k] == states[k].last + 1 && states[k + 1].last
                == ids[k],
    ensures
        forall|k: int| 0 <= k < ids.len() ==> #[trigger] ids[k] == states[0].last + 1 + k,
        forall|i: int, j: int| 0 <= i < j < ids.len() ==> ids[i] < ids[j],
    decreases ids.len(),
{
    if ids.len() > 0 {
        let n = ids.len() - 1;
        lemma_successive_ids(states.subrange(0, n + 1), ids.subrange(0, n));
        assert forall|k: int| 0 <= k < ids.len() implies #[trigger] ids[k] == states[0].last + 1
            + k by {
            if k < n {
                assert(ids.subrange(0, n)[k] == ids[k]);
            } else if n > 0 {
                assert(ids.subrange(0, n)[n - 1] == ids[n - 1]);
                assert(ids[n - 1] == states[n].last);
            }
        }
    }
}

/// Reserved for linking a subscription to a session; has no effect.
pub fn add_associated_subscription() {
}

/// Records `topic` as subscribed, after the topics already recorded.
pub fn subscribe(topics: &mut Vec<String>, topic: &str)
    ensures
        final(topics)@.len() == old(topics)@.len() + 1,
        final(topics)@.drop_last() == old(topics)@,
        final(topics)@.last()@ == topic@,
{
    topics.push(topic.to_owned());
    assert(topics@.drop_last() =~= old(topics)@);
}

/// Removes every record of `topic`, keeping the others in order.
pub fn unsubscribe(topics: &mut Vec<String>, topic: &str)
    ensures
        final(topics)@ == old(topics)@.filter(|t: String| t@ != topic@),
{
    let wanted: String = topic.to_owned();
    let ghost pred = |t: String| t@ != topic@;
    let mut kept: Vec<String> = Vec::new();
    let mut i: usize = 0;
    while i < topics.len()
        invariant
            0 <= i <= topics@.len(),
            wanted@ == topic@,
            pred == (|t: String| t@ != topic@),
            kept@ == topics@.subrange(0, i as int).filter(pred),
        decreases topics@.len() - i,
    {
        proof {
            reveal(Seq::filter);
            assert(topics@.subrange(0, i + 1).drop_last() =~= topics@.subrange(0, i as int));
        }
        if topics[i] != wanted {
            kept.push(topics[i].clone());
        }
        i += 1;
    }
    assert(topics@.subrange(0, i as int) =~= topics@);
    *topics = kept;
}

/// Whether `topic` is recorded as subscribed.
pub fn subscription_contains(topics: &Vec<String>, topic: &str) -> (r: bool)
    ensures
        r == exists|i: int| 0 <= i < topics@.len() && (#[trigger] topics@[i])@ == topic@,
{
    let wanted: String = topic.to_owned();
    let mut i: usize = 0;
    while i < topics.len()
        invariant
            0 <= i <= topics@.len(),
            wanted@ == topic@,
            forall|j: int| 0 <= j < i ==> (#[trigger] topics@[j])@ != topic@,
        decreases topics@.len() - i,
    {
        if topics[i] == wanted {
            return true;
        }
        i += 1;
    }
    false
}

} // verus!
