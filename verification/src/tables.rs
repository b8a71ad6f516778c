//! A reference model of the store: two tables keyed by identity, and what each of the
//! service's five statements does to them.
//!
//! The model enforces the primary keys and nothing else: an owner reference is not
//! checked against the users table. A store may fail where the model does not; the
//! handlers answer such failures whatever their cause.

use vstd::prelude::*;
use crate::entity::{CreateUserView, Post, PostFields, PostView, User, UserView};
use crate::operation::Operation;
use crate::store::StoreError;

verus! {

/// The state of the store.
pub struct Tables {
    /// The users table, by identity.
    pub users: Map<int, UserView>,
    /// The posts table, by identity.
    pub posts: Map<int, PostView>,
    /// The last user identity handed out; identities are handed out in order from 1.
    pub users_issued: int,
    /// The last post identity handed out; identities are handed out in order from 1.
    pub posts_issued: int,
}

/// The view of what a statement that returns a user handed back.
pub open spec fn user_outcome(outcome: Result<User, StoreError>) -> Result<UserView, StoreError> {
    match outcome {
        Ok(user) => Ok(user@),
        Err(error) => Err(error),
    }
}

/// The view of what a statement that returns a post handed back.
pub open spec fn post_outcome(outcome: Result<Post, StoreError>) -> Result<PostView, StoreError> {
    match outcome {
        Ok(post) => Ok(post@),
        Err(error) => Err(error),
    }
}

impl Tables {
    /// The store after a statement has run on it.
    pub open spec fn after(self, operation: Operation) -> Tables {
        match operation {
            Operation::InsertUser(input) => self.insert_user(input).0,
            Operation::InsertPost(input) => self.insert_post(input).0,
            Operation::SelectPosts(_) => self,
            Operation::UpdatePost(id, input) => self.update_post(id, input).0,
            Operation::DeletePost(id) => self.delete_post(id).0,
        }
    }

    /// Every row is stored under its own identity, and no row carries an identity that
    /// has not been handed out.
    pub open spec fn wf(self) -> bool {
        &&& 0 <= self.users_issued <= i32::MAX
        &&& 0 <= self.posts_issued <= i32::MAX
        &&& forall|id: int| #[trigger]
            self.users.contains_key(id) ==> 1 <= id <= self.users_issued && self.users[id].id
                == id
        &&& forall|id: int| #[trigger]
            self.posts.contains_key(id) ==> 1 <= id <= self.posts_issued && self.posts[id].id
                == id
    }

    /// The store before anything was written to it.
    pub open spec fn empty() -> Tables {
        Tables { users: Map::empty(), posts: Map::empty(), users_issued: 0, posts_issued: 0 }
    }

    /// A store without rows from which the given numbers of identities have been handed
    /// out already.
    pub open spec fn resuming(users_issued: int, posts_issued: int) -> Tables {
        Tables { users: Map::empty(), posts: Map::empty(), users_issued, posts_issued }
    }

    /// Inserting a user: the row gets the next identity. Fails, changing nothing, once the
    /// identities are used up.
    pub open spec fn insert_user(self, input: CreateUserView) -> (
        Tables,
        Result<UserView, StoreError>,
    ) {
        if self.users_issued < i32::MAX {
            let user = UserView {
                id: self.users_issued + 1,
                username: input.username,
                email: input.email,
            };
            (
                Tables {
                    users: self.users.insert(user.id, user),
                    posts: self.posts,
                    users_issued: user.id,
                    posts_issued: self.posts_issued,
                },
                Ok(user),
            )
        } else {
            (self, Err(StoreError::Failed))
        }
    }

    /// Inserting a post: the row gets the next identity. Fails, changing nothing, once the
    /// identities are used up.
    pub open spec fn insert_post(self, input: PostFields) -> (
        Tables,
        Result<PostView, StoreError>,
    ) {
        if self.posts_issued < i32::MAX {
            let post = PostView {
                id: self.posts_issued + 1,
                user_id: input.user_id,
                title: input.title,
                body: input.body,
            };
            (
                Tables {
                    users: self.users,
                    posts: self.posts.insert(post.id, post),
                    users_issued: self.users_issued,
                    posts_issued: post.id,
                },
                Ok(post),
            )
        } else {
            (self, Err(StoreError::Failed))
        }
    }

    /// Selecting posts by identity: the one row stored under it, or no row.
    pub open spec fn select_posts(self, id: int) -> Seq<PostView> {
        if self.posts.contains_key(id) {
            seq![self.posts[id]]
        } else {
            Seq::empty()
        }
    }

    /// Updating a post by identity: title, body and owner of the row are replaced and the
    /// new row comes back. Where no row has the identity, nothing changes and no row comes
    /// back.
    pub open spec fn update_post(self, id: int, input: PostFields) -> (
        Tables,
        Result<PostView, StoreError>,
    ) {
        if self.posts.contains_key(id) {
            let post = PostView { id, user_id: input.user_id, title: input.title, body: input.body };
            (
                Tables {
                    users: self.users,
                    posts: self.posts.insert(id, post),
                    users_issued: self.users_issued,
                    posts_issued: self.posts_issued,
                },
                Ok(post),
            )
        } else {
            (self, Err(StoreError::RowNotFound))
        }
    }

    /// Deleting a post by identity: the row leaves the table. Gives the number of rows
    /// removed, which is 0 where no row has the identity.
    pub open spec fn delete_post(self, id: int) -> (Tables, nat) {
        (
            Tables {
                users: self.users,
                posts: self.posts.remove(id),
                users_issued: self.users_issued,
                posts_issued: self.posts_issued,
            },
            if self.posts.contains_key(id) {
                1
            } else {
                0
            },
        )
    }
}

} // verus!
