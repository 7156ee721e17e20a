//! The storage engine: three base tables (users, posts, votes) and the
//! derived per-user vote total, maintained in memory and read through typed
//! repository operations.
//!
//! The engine assigns row identifiers itself: the i-th row inserted into a
//! table gets identifier i + 1, so identifiers are unique within a table,
//! monotonically increasing, and never reused. The aggregation view has a
//! row for a user id exactly when at least one vote row carries it, and the
//! engine keeps every reachable per-user total inside the `i32` range by
//! rejecting a vote insert that would push a total outside it.

use vstd::prelude::*;

use crate::models::NewPost;
use crate::models::NewUser;
use crate::models::Post;
use crate::models::PostModel;
use crate::models::RowModel;
use crate::models::StorageError;
use crate::models::TotalVote;
use crate::models::TotalVoteModel;
use crate::models::User;
use crate::models::UserModel;
use crate::models::Vote;
use crate::models::VoteModel;

verus! {

/// Largest identifier the engine will assign: identifiers live in an
/// `i32` column.
pub const MAX_ID: i32 = 0x7fff_ffff;

/// Smallest value a stored vote total may hold: totals live in an `i32`
/// column too.
pub const MIN_COUNT: i32 = -0x8000_0000;

/// Largest value a stored vote total may hold.
pub const MAX_COUNT: i32 = 0x7fff_ffff;

/// Mathematical model of the whole store: the three base tables as
/// sequences of row models, in insertion order.
#[verifier::ext_equal]
pub ghost struct StorageModel {
    pub users: Seq<UserModel>,
    pub posts: Seq<PostModel>,
    pub votes: Seq<VoteModel>,
}

/// The model of a freshly opened, empty store.
pub open spec fn empty_storage() -> StorageModel {
    StorageModel { users: Seq::empty(), posts: Seq::empty(), votes: Seq::empty() }
}

/// Whether a value fits in an `i32` vote-total column.
pub open spec fn fits_count(x: int) -> bool {
    MIN_COUNT as int <= x <= MAX_COUNT as int
}

/// The sum of the counts of the vote rows carrying user id `u`: the value
/// the aggregation view reports for `u`.
pub open spec fn total_for(votes: Seq<VoteModel>, u: int) -> int
    decreases votes.len(),
{
    if votes.len() == 0 {
        0
    } else {
        total_for(votes.drop_last(), u) + if votes.last().user_id == u {
            votes.last().count
        } else {
            0
        }
    }
}

/// Whether at least one vote row carries user id `u`.
pub open spec fn has_vote(votes: Seq<VoteModel>, u: int) -> bool {
    exists|i: int| 0 <= i < votes.len() && votes[i].user_id == u
}

/// Well-formedness of a store model: identifiers in each table are exactly
/// 1, 2, ... in insertion order, table sizes stay within the identifier
/// space, and the total of every user id over every prefix of the vote
/// table fits in an `i32` column (each prefix was once the whole table, and
/// the engine checked the bound when its last row went in).
pub open spec fn wf(s: StorageModel) -> bool {
    &&& s.users.len() <= MAX_ID as int
    &&& forall|i: int| 0 <= i < s.users.len() ==> (#[trigger] s.users[i]).id == i + 1
    &&& s.posts.len() <= MAX_ID as int
    &&& forall|i: int| 0 <= i < s.posts.len() ==> (#[trigger] s.posts[i]).id == i + 1
    &&& forall|k: int, u: int|
        0 <= k <= s.votes.len() ==> fits_count(#[trigger] total_for(s.votes.take(k), u))
}

/// The store after a successful user insert: one more user row, with the
/// next identifier.
pub open spec fn spec_insert_user(s: StorageModel, name: Seq<char>) -> StorageModel {
    StorageModel {
        users: s.users.push(UserModel { id: s.users.len() as int + 1, name }),
        ..s
    }
}

/// The store after a successful post insert.
pub open spec fn spec_insert_post(s: StorageModel, name: Seq<char>) -> StorageModel {
    StorageModel {
        posts: s.posts.push(PostModel { id: s.posts.len() as int + 1, name }),
        ..s
    }
}

/// The store after a successful vote insert.
pub open spec fn spec_insert_vote(s: StorageModel, v: VoteModel) -> StorageModel {
    StorageModel { votes: s.votes.push(v), ..s }
}

/// The first user row in table order, if any.
pub open spec fn spec_first_user(s: StorageModel) -> Option<UserModel> {
    if s.users.len() > 0 {
        Some(s.users[0])
    } else {
        None
    }
}

/// The post row with the greatest identifier, if any. Under `wf`
/// identifiers increase in insertion order, so this is the last row.
pub open spec fn spec_latest_post(s: StorageModel) -> Option<PostModel> {
    if s.posts.len() > 0 {
        Some(s.posts.last())
    } else {
        None
    }
}

/// The row of the aggregation view for user id `u`, if the view has one.
pub open spec fn spec_total_vote(s: StorageModel, u: int) -> Option<TotalVoteModel> {
    if has_vote(s.votes, u) {
        Some(TotalVoteModel { user_id: u, total: total_for(s.votes, u) })
    } else {
        None
    }
}

/// The rows of the inner join of the users table with the aggregation
/// view, in users-table order: one row per user that has at least one
/// vote, carrying the user's id, name and vote total.
pub open spec fn joined_rows(users: Seq<UserModel>, votes: Seq<VoteModel>) -> Seq<RowModel>
    decreases users.len(),
{
    if users.len() == 0 {
        Seq::empty()
    } else {
        let rest = joined_rows(users.drop_last(), votes);
        let u = users.last();
        if has_vote(votes, u.id) {
            rest.push(RowModel { id: u.id, name: u.name, total: total_for(votes, u.id) })
        } else {
            rest
        }
    }
}

/// The result sequence of the users-with-totals query.
pub open spec fn spec_users_with_totals(s: StorageModel) -> Seq<RowModel> {
    joined_rows(s.users, s.votes)
}

/// Whether an executable result row carries the same values as a model row.
pub open spec fn row_matches(e: (i32, String, i32), m: RowModel) -> bool {
    &&& e.0 as int == m.id
    &&& e.1@ == m.name
    &&& e.2 as int == m.total
}

/// Appending a vote row raises that row's user's total by the row's count
/// and leaves every other user's total unchanged: a total is nothing but
/// the running sum of the counts inserted for that user.
pub proof fn lemma_total_push(votes: Seq<VoteModel>, v: VoteModel, u: int)
    ensures
        total_for(votes.push(v), u) == total_for(votes, u) + if v.user_id == u {
            v.count
        } else {
            0
        },
{
    assert(votes.push(v).drop_last() =~= votes);
}

/// Appending a vote row makes a user's view row appear exactly when the
/// new row carries that user's id or a row for it was already there.
pub proof fn lemma_has_vote_push(votes: Seq<VoteModel>, v: VoteModel, u: int)
    ensures
        has_vote(votes.push(v), u) <==> (has_vote(votes, u) || v.user_id == u),
{
    let pushed = votes.push(v);
    if v.user_id == u {
        assert(pushed[votes.len() as int] == v);
    }
    if has_vote(votes, u) {
        let i = choose|i: int| 0 <= i < votes.len() && votes[i].user_id == u;
        assert(pushed[i] == votes[i]);
    }
    if has_vote(pushed, u) && v.user_id != u {
        let i = choose|i: int| 0 <= i < pushed.len() && pushed[i].user_id == u;
        assert(pushed[i] == votes[i]);
    }
}

/// Extending a prefix of the vote table by one row shifts that prefix's
/// totals the same way appending shifts the whole table's.
proof fn lemma_total_take_step(votes: Seq<VoteModel>, k: int, u: int)
    requires
        0 <= k < votes.len(),
    ensures
        total_for(votes.take(k + 1), u) == total_for(votes.take(k), u) + if votes[k].user_id
            == u {
            votes[k].count
        } else {
            0
        },
        has_vote(votes.take(k + 1), u) <==> (has_vote(votes.take(k), u) || votes[k].user_id
            == u),
{
    assert(votes.take(k + 1).drop_last() =~= votes.take(k));
    assert(votes.take(k + 1) =~= votes.take(k).push(votes[k]));
    lemma_has_vote_push(votes.take(k), votes[k], u);
}

/// A well-formed store stays well formed after a user insert that the
/// identifier space still has room for.
proof fn lemma_wf_insert_user(s: StorageModel, name: Seq<char>)
    requires
        wf(s),
        s.users.len() < MAX_ID as int,
    ensures
        wf(spec_insert_user(s, name)),
{
    let s2 = spec_insert_user(s, name);
    assert forall|i: int| 0 <= i < s2.users.len() implies (#[trigger] s2.users[i]).id == i
        + 1 by {
        if i < s.users.len() {
            assert(s2.users[i] == s.users[i]);
        }
    }
}

/// A well-formed store stays well formed after a post insert that the
/// identifier space still has room for.
proof fn lemma_wf_insert_post(s: StorageModel, name: Seq<char>)
    requires
        wf(s),
        s.posts.len() < MAX_ID as int,
    ensures
        wf(spec_insert_post(s, name)),
{
    let s2 = spec_insert_post(s, name);
    assert forall|i: int| 0 <= i < s2.posts.len() implies (#[trigger] s2.posts[i]).id == i
        + 1 by {
        if i < s.posts.len() {
            assert(s2.posts[i] == s.posts[i]);
        }
    }
}

/// Growing the scanned users prefix by one either appends that user's
/// join row (when the user has a vote) or leaves the join unchanged.
proof fn lemma_joined_take_step(users: Seq<UserModel>, votes: Seq<VoteModel>, k: int)
    requires
        0 <= k < users.len(),
    ensures
        joined_rows(users.take(k + 1), votes) == if has_vote(votes, users[k].id) {
            joined_rows(users.take(k), votes).push(
                RowModel {
                    id: users[k].id,
                    name: users[k].name,
                    total: total_for(votes, users[k].id),
                },
            )
        } else {
            joined_rows(users.take(k), votes)
        },
{
    assert(users.take(k + 1).drop_last() =~= users.take(k));
    assert(users.take(k + 1).last() == users[k]);
}

/// A well-formed store stays well formed after a vote insert whose new
/// total still fits its column.
proof fn lemma_wf_insert_vote(s: StorageModel, v: VoteModel)
    requires
        wf(s),
        fits_count(total_for(s.votes, v.user_id) + v.count),
    ensures
        wf(spec_insert_vote(s, v)),
{
    let s2 = spec_insert_vote(s, v);
    let n = s.votes.len() as int;
    assert forall|k: int, u: int| 0 <= k <= s2.votes.len() implies fits_count(
        #[trigger] total_for(s2.votes.take(k), u),
    ) by {
        if k <= n {
            assert(s2.votes.take(k) =~= s.votes.take(k));
            assert(fits_count(total_for(s.votes.take(k), u)));
        } else {
            assert(s2.votes.take(k) =~= s2.votes);
            lemma_total_push(s.votes, v, u);
            assert(s.votes.take(n) =~= s.votes);
            assert(fits_count(total_for(s.votes.take(n), u)));
        }
    }
}

/// The in-memory storage engine. A value is only obtainable through
/// [`establish_connection`], and every operation preserves `wf(self@)`.
pub struct Storage {
    users: Vec<User>,
    posts: Vec<Post>,
    votes: Vec<Vote>,
}

impl View for Storage {
    type V = StorageModel;

    closed spec fn view(&self) -> StorageModel {
        StorageModel {
            users: self.users@.map_values(|u: User| u@),
            posts: self.posts@.map_values(|p: Post| p@),
            votes: self.votes@.map_values(|v: Vote| v@),
        }
    }
}

impl Storage {
    /// Appends a user row with the next free identifier. The only
    /// constraint an insert can violate here is exhaustion of the
    /// identifier space.
    pub fn insert_user(&mut self, user: NewUser<'_>) -> (r: Result<(), StorageError>)
        requires
            wf(old(self)@),
        ensures
            wf(final(self)@),
            match r {
                Ok(()) => old(self)@.users.len() < MAX_ID as int && final(self)@
                    == spec_insert_user(old(self)@, user@),
                Err(e) => e == StorageError::ConstraintViolation && old(self)@.users.len()
                    == MAX_ID as int && final(self)@ == old(self)@,
            },
    {
        if self.users.len() < MAX_ID as usize {
            let id: i32 = self.users.len() as i32 + 1;
            let row = User { id, name: user.name.to_owned() };
            self.users.push(row);
            proof {
                assert(self@ =~= spec_insert_user(old(self)@, user@));
                lemma_wf_insert_user(old(self)@, user@);
            }
            Ok(())
        } else {
            Err(StorageError::ConstraintViolation)
        }
    }

    /// Returns the first user row in table order, or `NotFound` on an
    /// empty table — never a default value.
    pub fn first_user(&self) -> (r: Result<User, StorageError>)
        ensures
            match r {
                Ok(u) => self@.users.len() > 0 && Some(u@) == spec_first_user(self@),
                Err(e) => self@.users.len() == 0 && e == StorageError::NotFound,
            },
    {
        if self.users.len() > 0 {
            let u = &self.users[0];
            let out = User { id: u.id, name: u.name.clone() };
            proof {
                assert(out@ =~= self@.users[0]);
            }
            Ok(out)
        } else {
            Err(StorageError::NotFound)
        }
    }

    /// Appends a post row with the next free identifier; the same
    /// contract as a user insert.
    pub fn insert_post(&mut self, post: NewPost<'_>) -> (r: Result<(), StorageError>)
        requires
            wf(old(self)@),
        ensures
            wf(final(self)@),
            match r {
                Ok(()) => old(self)@.posts.len() < MAX_ID as int && final(self)@
                    == spec_insert_post(old(self)@, post@),
                Err(e) => e == StorageError::ConstraintViolation && old(self)@.posts.len()
                    == MAX_ID as int && final(self)@ == old(self)@,
            },
    {
        if self.posts.len() < MAX_ID as usize {
            let id: i32 = self.posts.len() as i32 + 1;
            let row = Post { id, name: post.name.to_owned() };
            self.posts.push(row);
            proof {
                assert(self@ =~= spec_insert_post(old(self)@, post@));
                lemma_wf_insert_post(old(self)@, post@);
            }
            Ok(())
        } else {
            Err(StorageError::ConstraintViolation)
        }
    }

    /// Returns the post row with the greatest identifier — the most
    /// recently inserted one — or `NotFound` on an empty table. Unlike
    /// `first_user`, this ordering is guaranteed.
    pub fn latest_post(&self) -> (r: Result<Post, StorageError>)
        requires
            wf(self@),
        ensures
            match r {
                Ok(p) => {
                    &&& self@.posts.len() > 0
                    &&& Some(p@) == spec_latest_post(self@)
                    &&& forall|i: int|
                        0 <= i < self@.posts.len() ==> (#[trigger] self@.posts[i]).id <= p@.id
                },
                Err(e) => self@.posts.len() == 0 && e == StorageError::NotFound,
            },
    {
        if self.posts.len() > 0 {
            let p = &self.posts[self.posts.len() - 1];
            let out = Post { id: p.id, name: p.name.clone() };
            proof {
                assert(out@ =~= self@.posts.last());
            }
            Ok(out)
        } else {
            Err(StorageError::NotFound)
        }
    }

    /// Scans the vote table for one user id, reporting whether any row
    /// carries it and the sum of the counts of those that do.
    fn vote_stats(&self, user_id: i32) -> (res: (bool, i32))
        requires
            wf(self@),
        ensures
            res.0 == has_vote(self@.votes, user_id as int),
            res.1 as int == total_for(self@.votes, user_id as int),
    {
        let ghost u: int = user_id as int;
        let ghost vs = self@.votes;
        let mut found: bool = false;
        let mut total: i32 = 0;
        let n = self.votes.len();
        proof {
            assert(vs.take(0) =~= Seq::<VoteModel>::empty());
        }
        let mut k: usize = 0;
        while k < n
            invariant
                wf(self@),
                vs == self@.votes,
                u == user_id as int,
                n == self.votes.len(),
                0 <= k <= n,
                found == has_vote(vs.take(k as int), u),
                total as int == total_for(vs.take(k as int), u),
            decreases n - k,
        {
            let v = &self.votes[k];
            proof {
                assert(v@ == vs[k as int]);
                lemma_total_take_step(vs, k as int, u);
                assert(fits_count(total_for(vs.take(k as int + 1), u)));
            }
            if v.user_id == user_id {
                found = true;
                total = total + v.count;
            }
            k = k + 1;
        }
        proof {
            assert(vs.take(n as int) =~= vs);
        }
        (found, total)
    }

    /// Appends a vote row. The repository validates no foreign key — a
    /// row may reference any user or post id — but the engine rejects a
    /// row that would push the referenced user's total outside its
    /// `i32` column, as a constraint violation, leaving the store
    /// unchanged.
    pub fn insert_vote(&mut self, vote: Vote) -> (r: Result<(), StorageError>)
        requires
            wf(old(self)@),
        ensures
            wf(final(self)@),
            match r {
                Ok(()) => fits_count(total_for(old(self)@.votes, vote@.user_id) + vote@.count)
                    && final(self)@ == spec_insert_vote(old(self)@, vote@),
                Err(e) => e == StorageError::ConstraintViolation && !fits_count(
                    total_for(old(self)@.votes, vote@.user_id) + vote@.count,
                ) && final(self)@ == old(self)@,
            },
    {
        let (_, t) = self.vote_stats(vote.user_id);
        let sum: i64 = t as i64 + vote.count as i64;
        if MIN_COUNT as i64 <= sum && sum <= MAX_COUNT as i64 {
            self.votes.push(vote);
            proof {
                assert(self@ =~= spec_insert_vote(old(self)@, vote@));
                lemma_wf_insert_vote(old(self)@, vote@);
            }
            Ok(())
        } else {
            Err(StorageError::ConstraintViolation)
        }
    }

    /// Reads the aggregation view for one user id: its row if at least
    /// one vote row carries the id, and nothing otherwise.
    pub fn total_vote(&self, user_id: i32) -> (r: Option<TotalVote>)
        requires
            wf(self@),
        ensures
            match r {
                Some(tv) => Some(tv@) == spec_total_vote(self@, user_id as int),
                None => spec_total_vote(self@, user_id as int) is None,
            },
    {
        let (found, t) = self.vote_stats(user_id);
        if found {
            let tv = TotalVote { user_id, total: t };
            proof {
                assert(tv@ =~= spec_total_vote(self@, user_id as int).unwrap());
            }
            Some(tv)
        } else {
            None
        }
    }

    /// Runs the join query: one row per user having at least one vote,
    /// in users-table order, carrying the user's id, name and vote
    /// total. Users with no votes are excluded (inner-join semantics).
    /// The whole result is materialized; the query cannot fail on an
    /// open store.
    pub fn users_with_totals(&self) -> (r: Result<Vec<(i32, String, i32)>, StorageError>)
        requires
            wf(self@),
        ensures
            match r {
                Ok(out) => {
                    &&& out@.len() == spec_users_with_totals(self@).len()
                    &&& forall|i: int|
                        0 <= i < out@.len() ==> row_matches(
                            #[trigger] out@[i],
                            spec_users_with_totals(self@)[i],
                        )
                },
                Err(_) => false,
            },
    {
        let ghost us = self@.users;
        let ghost vs = self@.votes;
        let mut out: Vec<(i32, String, i32)> = Vec::new();
        let n = self.users.len();
        proof {
            assert(us.take(0) =~= Seq::<UserModel>::empty());
        }
        let mut k: usize = 0;
        while k < n
            invariant
                wf(self@),
                us == self@.users,
                vs == self@.votes,
                n == self.users.len(),
                0 <= k <= n,
                out@.len() == joined_rows(us.take(k as int), vs).len(),
                forall|i: int|
                    0 <= i < out@.len() ==> row_matches(
                        #[trigger] out@[i],
                        joined_rows(us.take(k as int), vs)[i],
                    ),
            decreases n - k,
        {
            let u = &self.users[k];
            proof {
                assert(u@ == us[k as int]);
                lemma_joined_take_step(us, vs, k as int);
            }
            let (found, t) = self.vote_stats(u.id);
            if found {
                let ghost before = out@;
                out.push((u.id, u.name.clone(), t));
                proof {
                    let rows = joined_rows(us.take(k as int + 1), vs);
                    assert forall|i: int| 0 <= i < out@.len() implies row_matches(
                        #[trigger] out@[i],
                        rows[i],
                    ) by {
                        if i < before.len() {
                            assert(out@[i] == before[i]);
                        }
                    }
                }
            }
            k = k + 1;
        }
        proof {
            assert(us.take(n as int) =~= us);
        }
        Ok(out)
    }
}

/// Opens the store named by the configured location. An absent
/// configuration is a fatal error: no storage operation is possible
/// without a connection. A present one always opens, empty.
pub fn establish_connection(database_url: Option<&str>) -> (r: Result<Storage, StorageError>)
    ensures
        match r {
            Ok(s) => database_url.is_some() && s@ == empty_storage() && wf(s@),
            Err(e) => database_url.is_none() && e == StorageError::ConnectionError,
        },
{
    match database_url {
        Some(_) => {
            let s = Storage { users: Vec::new(), posts: Vec::new(), votes: Vec::new() };
            proof {
                assert(s@ =~= empty_storage());
                assert forall|k: int, u: int| 0 <= k <= s@.votes.len() implies fits_count(
                    #[trigger] total_for(s@.votes.take(k), u),
                ) by {
                    assert(s@.votes.take(k) =~= Seq::<VoteModel>::empty());
                }
            }
            Ok(s)
        },
        None => Err(StorageError::ConnectionError),
    }
}

} // verus!
