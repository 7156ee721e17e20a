//! Row types of the three base tables, the derived aggregation row, and the
//! error taxonomy of the store.

use vstd::prelude::*;

verus! {

/// A stored user row. Identifiers are engine-assigned, starting at 1 and
/// increasing by 1 with each insert.
pub struct User {
    pub id: i32,
    pub name: String,
}

/// The payload of a user insert; the engine assigns the identifier.
pub struct NewUser<'a> {
    pub name: &'a str,
}

/// A stored post row.
pub struct Post {
    pub id: i32,
    pub name: String,
}

/// The payload of a post insert; the engine assigns the identifier.
pub struct NewPost<'a> {
    pub name: &'a str,
}

/// A stored vote row. Carries no surrogate key: duplicate
/// (user_id, post_id) rows are legal and each contributes independently
/// to the aggregate.
#[derive(Clone, Copy, PartialEq, Eq, Structural, Debug)]
pub struct Vote {
    pub user_id: i32,
    pub post_id: i32,
    pub count: i32,
}

/// One row of the derived aggregation view: the sum of the counts of all
/// vote rows carrying this user id. The view has a row for a user id only
/// if at least one vote row carries it.
#[derive(Clone, Copy, PartialEq, Eq, Structural, Debug)]
pub struct TotalVote {
    pub user_id: i32,
    pub total: i32,
}

/// Everything that can go wrong in a store operation.
#[derive(Clone, Copy, PartialEq, Eq, Structural, Debug)]
pub enum StorageError {
    /// The storage location could not be reached or opened.
    ConnectionError,
    /// An insert would violate a schema constraint.
    ConstraintViolation,
    /// A single-row fetch found no row.
    NotFound,
}

/// Mathematical model of a user row.
#[verifier::ext_equal]
pub ghost struct UserModel {
    pub id: int,
    pub name: Seq<char>,
}

/// Mathematical model of a post row.
#[verifier::ext_equal]
pub ghost struct PostModel {
    pub id: int,
    pub name: Seq<char>,
}

/// Mathematical model of a vote row.
#[verifier::ext_equal]
pub ghost struct VoteModel {
    pub user_id: int,
    pub post_id: int,
    pub count: int,
}

/// Mathematical model of one row of the aggregation view.
#[verifier::ext_equal]
pub ghost struct TotalVoteModel {
    pub user_id: int,
    pub total: int,
}

/// Mathematical model of one row of the users-with-totals join query.
#[verifier::ext_equal]
pub ghost struct RowModel {
    pub id: int,
    pub name: Seq<char>,
    pub total: int,
}

impl View for User {
    type V = UserModel;

    open spec fn view(&self) -> UserModel {
        UserModel { id: self.id as int, name: self.name@ }
    }
}

impl<'a> View for NewUser<'a> {
    type V = Seq<char>;

    open spec fn view(&self) -> Seq<char> {
        self.name@
    }
}

impl View for Post {
    type V = PostModel;

    open spec fn view(&self) -> PostModel {
        PostModel { id: self.id as int, name: self.name@ }
    }
}

impl<'a> View for NewPost<'a> {
    type V = Seq<char>;

    open spec fn view(&self) -> Seq<char> {
        self.name@
    }
}

impl View for Vote {
    type V = VoteModel;

    open spec fn view(&self) -> VoteModel {
        VoteModel {
            user_id: self.user_id as int,
            post_id: self.post_id as int,
            count: self.count as int,
        }
    }
}

impl View for TotalVote {
    type V = TotalVoteModel;

    open spec fn view(&self) -> TotalVoteModel {
        TotalVoteModel { user_id: self.user_id as int, total: self.total as int }
    }
}

} // verus!
