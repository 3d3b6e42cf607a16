//! The endorsement aggregator: how many of the users who reacted to a
//! message count as endorsers.

use vstd::prelude::*;

use crate::message::Reactor;

verus! {

/// Largest number of reacting users that is asked for: one page.
pub const REACTOR_PAGE: u8 = 100;

/// A reacting user counts unless it is an automated account or the author
/// of the message.
pub open spec fn counts(reactor: Reactor, author_id: u64) -> bool {
    !reactor.bot && reactor.id != author_id
}

/// The users among `reactors` who count, each once.
pub open spec fn eligible_ids(reactors: Seq<Reactor>, author_id: u64) -> Set<u64>
    decreases reactors.len(),
{
    if reactors.len() == 0 {
        Set::empty()
    } else if counts(reactors.last(), author_id) {
        eligible_ids(reactors.drop_last(), author_id).insert(reactors.last().id)
    } else {
        eligible_ids(reactors.drop_last(), author_id)
    }
}

/// The endorsement count of a message.
pub open spec fn endorsements(reactors: Seq<Reactor>, author_id: u64) -> nat {
    eligible_ids(reactors, author_id).len()
}

/// The number of automated accounts among `reactors`.
pub open spec fn bot_count(reactors: Seq<Reactor>) -> nat
    decreases reactors.len(),
{
    if reactors.len() == 0 {
        0
    } else if reactors.last().bot {
        bot_count(reactors.drop_last()) + 1
    } else {
        bot_count(reactors.drop_last())
    }
}

/// The user `id` is among `reactors`.
pub open spec fn reacted(reactors: Seq<Reactor>, id: u64) -> bool {
    exists|i: int| 0 <= i < reactors.len() && #[trigger] reactors[i].id == id
}

/// No user occurs twice among `reactors`.
pub open spec fn distinct_users(reactors: Seq<Reactor>) -> bool {
    forall|i: int, j: int|
        0 <= i < j < reactors.len() ==> #[trigger] reactors[i].id != #[trigger] reactors[j].id
}

/// The set of users who count is finite, and holds exactly the users of the
/// entries that count.
pub proof fn lemma_eligible_ids(reactors: Seq<Reactor>, author_id: u64)
    ensures
        eligible_ids(reactors, author_id).finite(),
        eligible_ids(reactors, author_id).len() <= reactors.len(),
        forall|id: u64|
            eligible_ids(reactors, author_id).contains(id) <==> exists|i: int|
                0 <= i < reactors.len() && #[trigger] reactors[i].id == id && counts(
                    reactors[i],
                    author_id,
                ),
    decreases reactors.len(),
{
    if reactors.len() > 0 {
        let rest = reactors.drop_last();
        let last = reactors.last();
        lemma_eligible_ids(rest, author_id);
        assert forall|id: u64|
            eligible_ids(reactors, author_id).contains(id) implies exists|i: int|
            0 <= i < reactors.len() && #[trigger] reactors[i].id == id && counts(
                reactors[i],
                author_id,
            ) by {
            if eligible_ids(rest, author_id).contains(id) {
                let i = choose|i: int|
                    0 <= i < rest.len() && #[trigger] rest[i].id == id && counts(
                        rest[i],
                        author_id,
                    );
                assert(reactors[i].id == id);
            } else {
                assert(reactors[reactors.len() - 1].id == id);
            }
        }
        assert forall|id: u64|
            (exists|i: int|
                0 <= i < reactors.len() && #[trigger] reactors[i].id == id && counts(
                    reactors[i],
                    author_id,
                )) implies eligible_ids(reactors, author_id).contains(id) by {
            let i = choose|i: int|
                0 <= i < reactors.len() && #[trigger] reactors[i].id == id && counts(
                    reactors[i],
                    author_id,
                );
            if i < rest.len() {
                assert(rest[i].id == id);
            }
        }
    }
}

/// Counts the endorsers among the users who reacted to a message of
/// `author_id`.
pub fn count_endorsements(reactors: &Vec<Reactor>, author_id: u64) -> (r: usize)
    ensures
        r == endorsements(reactors@, author_id),
{
    let mut count: usize = 0;
    let mut i: usize = 0;
    while i < reactors.len()
        invariant
            i <= reactors.len(),
            count <= i,
            count == endorsements(reactors@.take(i as int), author_id),
        decreases reactors.len() - i,
    {
        let current = reactors[i];
        let mut fresh = !current.bot && current.id != author_id;
        let mut j: usize = 0;
        while fresh && j < i
            invariant
                j <= i < reactors.len(),
                current == reactors@[i as int],
                fresh ==> counts(current, author_id),
                fresh ==> forall|k: int|
                    0 <= k < j ==> !(#[trigger] reactors@[k].id == current.id && counts(
                        reactors@[k],
                        author_id,
                    )),
                !fresh ==> !counts(current, author_id) || exists|k: int|
                    0 <= k < i && #[trigger] reactors@[k].id == current.id && counts(
                        reactors@[k],
                        author_id,
                    ),
            decreases i - j,
        {
            let earlier = reactors[j];
            if earlier.id == current.id && !earlier.bot && earlier.id != author_id {
                fresh = false;
            }
            j += 1;
        }
        proof {
            let before = reactors@.take(i as int);
            let after = reactors@.take(i + 1);
            assert(after.drop_last() =~= before);
            assert(after.last() == current);
            lemma_eligible_ids(before, author_id);
            if fresh {
                if eligible_ids(before, author_id).contains(current.id) {
                    let k = choose|k: int|
                        0 <= k < before.len() && #[trigger] before[k].id == current.id && counts(
                            before[k],
                            author_id,
                        );
                    assert(reactors@[k].id == current.id);
                }
            } else if counts(current, author_id) {
                let k = choose|k: int|
                    0 <= k < i && #[trigger] reactors@[k].id == current.id && counts(
                        reactors@[k],
                        author_id,
                    );
                assert(before[k].id == current.id);
                assert(eligible_ids(before, author_id).contains(current.id));
                assert(eligible_ids(before, author_id).insert(current.id) =~= eligible_ids(
                    before,
                    author_id,
                ));
            }
        }
        if fresh {
            count += 1;
        }
        i += 1;
    }
    assert(reactors@.take(i as int) =~= reactors@);
    count
}

/// Where no user occurs twice among the reacting users, and the author is
/// not among them as an automated account, the endorsement count is the
/// number of reacting users, less the automated accounts among them, less
/// one where the author is among them.
pub proof fn law_endorsement_count(reactors: Seq<Reactor>, author_id: u64)
    requires
        distinct_users(reactors),
        forall|i: int|
            0 <= i < reactors.len() && #[trigger] reactors[i].id == author_id ==> !reactors[i].bot,
    ensures
        endorsements(reactors, author_id) == reactors.len() - bot_count(reactors) - (if reacted(
            reactors,
            author_id,
        ) {
            1int
        } else {
            0int
        }),
    decreases reactors.len(),
{
    if reactors.len() > 0 {
        let rest = reactors.drop_last();
        let last = reactors.last();
        let n = reactors.len() - 1;
        assert forall|i: int, j: int| 0 <= i < j < rest.len() implies #[trigger] rest[i].id
            != #[trigger] rest[j].id by {
            assert(reactors[i].id != reactors[j].id);
        }
        assert forall|i: int| 0 <= i < rest.len() && #[trigger] rest[i].id == author_id implies !
        rest[i].bot by {
            assert(reactors[i].id == author_id);
        }
        law_endorsement_count(rest, author_id);
        lemma_eligible_ids(rest, author_id);
        if eligible_ids(rest, author_id).contains(last.id) {
            let k = choose|k: int|
                0 <= k < rest.len() && #[trigger] rest[k].id == last.id && counts(
                    rest[k],
                    author_id,
                );
            assert(reactors[k].id == rest[k].id);
            assert(reactors[k].id != reactors[n].id);
        }
        if reacted(rest, author_id) {
            let k = choose|k: int| 0 <= k < rest.len() && #[trigger] rest[k].id == author_id;
            assert(reactors[k].id == author_id);
            assert(reactors[k].id != reactors[n].id);
            assert(reacted(reactors, author_id));
        }
        if last.id == author_id {
            assert(reactors[n].id == author_id);
            assert(reacted(reactors, author_id));
        } else if reacted(reactors, author_id) {
            let k = choose|k: int| 0 <= k < reactors.len() && #[trigger] reactors[k].id == author_id;
            assert(rest[k].id == author_id);
        }
    } else {
        assert(!reacted(reactors, author_id));
    }
}

} // verus!
