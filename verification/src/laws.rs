//! The properties the store promises across operations, each proved once
//! and for all over the storage model.

use vstd::prelude::*;

use crate::models::PostModel;
use crate::models::RowModel;
use crate::models::UserModel;
use crate::models::VoteModel;
use crate::storage::MAX_ID;
use crate::storage::StorageModel;
use crate::storage::has_vote;
use crate::storage::joined_rows;
use crate::storage::spec_first_user;
use crate::storage::spec_insert_post;
use crate::storage::spec_insert_user;
use crate::storage::spec_latest_post;
use crate::storage::spec_users_with_totals;
use crate::storage::total_for;
use crate::storage::wf;

verus! {

/// Inserting a user into an empty users table and then reading the first
/// user yields exactly the inserted name, under the first identifier.
pub proof fn lemma_insert_then_first_user(s: StorageModel, name: Seq<char>)
    requires
        s.users.len() == 0,
    ensures
        spec_first_user(spec_insert_user(s, name)) == Some(UserModel { id: 1, name }),
{
    let s2 = spec_insert_user(s, name);
    assert(s2.users[0] =~= UserModel { id: 1, name });
}

/// After any post insert, the latest post is the one just inserted, and
/// its identifier strictly exceeds every identifier assigned before it.
pub proof fn lemma_insert_then_latest_post(s: StorageModel, name: Seq<char>)
    requires
        wf(s),
        s.posts.len() < MAX_ID as int,
    ensures
        spec_latest_post(spec_insert_post(s, name)) == Some(
            PostModel { id: s.posts.len() as int + 1, name },
        ),
        forall|i: int| 0 <= i < s.posts.len() ==> (#[trigger] s.posts[i]).id < s.posts.len() + 1,
{
    let s2 = spec_insert_post(s, name);
    assert(s2.posts.last() =~= PostModel { id: s.posts.len() as int + 1, name });
}

/// Every row of the join carries a user id that at least one vote row
/// carries — a user with no votes never appears — and carries as its
/// total exactly the sum of the counts for that id.
proof fn lemma_joined_rows_sound(users: Seq<UserModel>, votes: Seq<VoteModel>)
    ensures
        forall|j: int|
            0 <= j < joined_rows(users, votes).len() ==> has_vote(
                votes,
                (#[trigger] joined_rows(users, votes)[j]).id,
            ) && joined_rows(users, votes)[j].total == total_for(
                votes,
                joined_rows(users, votes)[j].id,
            ),
    decreases users.len(),
{
    if users.len() > 0 {
        lemma_joined_rows_sound(users.drop_last(), votes);
        let rest = joined_rows(users.drop_last(), votes);
        let rows = joined_rows(users, votes);
        assert forall|j: int| 0 <= j < rows.len() implies has_vote(
            votes,
            (#[trigger] rows[j]).id,
        ) && rows[j].total == total_for(votes, rows[j].id) by {
            if j < rest.len() {
                assert(rows[j] == rest[j]);
            }
        }
    }
}

/// A user that does have a vote appears in the join, with the total of
/// that user's counts.
proof fn lemma_joined_row_for_user(users: Seq<UserModel>, votes: Seq<VoteModel>, i: int)
    requires
        0 <= i < users.len(),
        has_vote(votes, users[i].id),
    ensures
        exists|j: int|
            0 <= j < joined_rows(users, votes).len() && #[trigger] joined_rows(users, votes)[j]
                == (RowModel {
                id: users[i].id,
                name: users[i].name,
                total: total_for(votes, users[i].id),
            }),
    decreases users.len(),
{
    let rows = joined_rows(users, votes);
    let row = RowModel { id: users[i].id, name: users[i].name, total: total_for(votes, users[i].id) };
    if i == users.len() - 1 {
        assert(users.last() == users[i]);
        assert(rows.last() =~= row);
        assert(rows[rows.len() - 1] == row);
    } else {
        assert(users.drop_last()[i] == users[i]);
        lemma_joined_row_for_user(users.drop_last(), votes, i);
        let rest = joined_rows(users.drop_last(), votes);
        let j = choose|j: int| 0 <= j < rest.len() && #[trigger] rest[j] == row;
        assert(rows[j] == row);
    }
}

/// What the join reports for a user is the arithmetic sum of the counts
/// of the vote rows carrying that user's id: every reported row carries
/// that sum for its id, a user with at least one vote row gets a row
/// with exactly that sum beside their name, and a user with no vote row
/// gets no row at all.
pub proof fn lemma_reported_total_is_sum(s: StorageModel, i: int)
    requires
        wf(s),
        0 <= i < s.users.len(),
    ensures
        forall|j: int|
            0 <= j < spec_users_with_totals(s).len() ==> (#[trigger] spec_users_with_totals(
                s,
            )[j]).total == total_for(s.votes, spec_users_with_totals(s)[j].id),
        has_vote(s.votes, s.users[i].id) ==> exists|j: int|
            0 <= j < spec_users_with_totals(s).len() && #[trigger] spec_users_with_totals(s)[j]
                == (RowModel {
                id: s.users[i].id,
                name: s.users[i].name,
                total: total_for(s.votes, s.users[i].id),
            }),
        !has_vote(s.votes, s.users[i].id) ==> forall|j: int|
            0 <= j < spec_users_with_totals(s).len() ==> (#[trigger] spec_users_with_totals(
                s,
            )[j]).id != s.users[i].id,
{
    lemma_joined_rows_sound(s.users, s.votes);
    assert forall|j: int| 0 <= j < spec_users_with_totals(s).len() implies (
    #[trigger] spec_users_with_totals(s)[j]).total == total_for(
        s.votes,
        spec_users_with_totals(s)[j].id,
    ) by {
        assert(spec_users_with_totals(s)[j] == joined_rows(s.users, s.votes)[j]);
    }
    if has_vote(s.votes, s.users[i].id) {
        lemma_joined_row_for_user(s.users, s.votes, i);
        let row = RowModel {
            id: s.users[i].id,
            name: s.users[i].name,
            total: total_for(s.votes, s.users[i].id),
        };
        let j = choose|j: int|
            0 <= j < joined_rows(s.users, s.votes).len() && #[trigger] joined_rows(
                s.users,
                s.votes,
            )[j] == row;
        assert(spec_users_with_totals(s)[j] == row);
    } else {
        assert forall|j: int| 0 <= j < spec_users_with_totals(s).len() implies (
        #[trigger] spec_users_with_totals(s)[j]).id != s.users[i].id by {
            assert(has_vote(s.votes, joined_rows(s.users, s.votes)[j].id));
        }
    }
}

/// Re-running the join query without intervening writes yields an
/// identical result set: the result is a function of the store alone.
pub proof fn lemma_users_with_totals_idempotent(s: StorageModel, r1: Seq<RowModel>, r2: Seq<RowModel>)
    requires
        r1 == spec_users_with_totals(s),
        r2 == spec_users_with_totals(s),
    ensures
        r1 == r2,
{
}

} // verus!
