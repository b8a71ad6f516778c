//! An in-memory store that behaves as the reference model says, for running the handlers
//! without a database.

use std::collections::HashMap;
use vstd::prelude::*;
use crate::entity::{CreatePost, CreateUser, Post, PostView, UpdatePost, User, UserView, post_views};
use crate::store::StoreError;
use crate::tables::{Tables, post_outcome, user_outcome};

verus! {

broadcast use vstd::std_specs::hash::group_hash_axioms;

/// The two tables, held in memory.
pub struct MemoryStore {
    users: HashMap<i32, User>,
    posts: HashMap<i32, Post>,
    users_issued: i32,
    posts_issued: i32,
}

/// The users table that a map of stored users stands for.
spec fn user_rows(stored: Map<i32, User>) -> Map<int, UserView> {
    Map::new(
        |id: int| i32::MIN <= id <= i32::MAX && stored.contains_key(id as i32),
        |id: int| stored[id as i32]@,
    )
}

/// The posts table that a map of stored posts stands for.
spec fn post_rows(stored: Map<i32, Post>) -> Map<int, PostView> {
    Map::new(
        |id: int| i32::MIN <= id <= i32::MAX && stored.contains_key(id as i32),
        |id: int| stored[id as i32]@,
    )
}

impl View for MemoryStore {
    type V = Tables;

    closed spec fn view(&self) -> Tables {
        Tables {
            users: user_rows(self.users@),
            posts: post_rows(self.posts@),
            users_issued: self.users_issued as int,
            posts_issued: self.posts_issued as int,
        }
    }
}

impl MemoryStore {
    /// The store is in a state that the model allows.
    pub open spec fn wf(&self) -> bool {
        self@.wf()
    }

    /// A store with no rows, from which no identity has been handed out.
    pub fn new() -> (store: MemoryStore)
        ensures
            store.wf(),
            store@ == Tables::empty(),
    {
        let store = MemoryStore {
            users: HashMap::new(),
            posts: HashMap::new(),
            users_issued: 0,
            posts_issued: 0,
        };
        assert(store@.users =~= Tables::empty().users);
        assert(store@.posts =~= Tables::empty().posts);
        store
    }

    /// A store with no rows that goes on handing out identities after the given ones.
    /// There is none for a negative number.
    pub fn resuming(users_issued: i32, posts_issued: i32) -> (store: Option<MemoryStore>)
        ensures
            store is Some <==> users_issued >= 0 && posts_issued >= 0,
            store matches Some(store) ==> store.wf() && store@ == Tables::resuming(
                users_issued as int,
                posts_issued as int,
            ),
    {
        if users_issued < 0 || posts_issued < 0 {
            return None;
        }
        let store = MemoryStore {
            users: HashMap::new(),
            posts: HashMap::new(),
            users_issued,
            posts_issued,
        };
        proof {
            let expected = Tables::resuming(users_issued as int, posts_issued as int);
            assert(store@.users =~= expected.users);
            assert(store@.posts =~= expected.posts);
        }
        Some(store)
    }

    /// Runs the insert of the create-user operation.
    pub fn insert_user(&mut self, new_user: CreateUser) -> (outcome: Result<User, StoreError>)
        requires
            old(self).wf(),
        ensures
            final(self).wf(),
            final(self)@ == old(self)@.insert_user(new_user@).0,
            user_outcome(outcome) == old(self)@.insert_user(new_user@).1,
    {
        if self.users_issued == i32::MAX {
            return Err(StoreError::Failed);
        }
        let id: i32 = self.users_issued + 1;
        let user = User { id, username: new_user.username, email: new_user.email };
        let stored = user.clone();
        self.users_issued = id;
        self.users.insert(id, stored);
        proof {
            let expected = old(self)@.insert_user(new_user@).0;
            assert(self@.users =~= expected.users);
        }
        Ok(user)
    }

    /// Runs the insert of the create-post operation.
    pub fn insert_post(&mut self, new_post: CreatePost) -> (outcome: Result<Post, StoreError>)
        requires
            old(self).wf(),
        ensures
            final(self).wf(),
            final(self)@ == old(self)@.insert_post(new_post@).0,
            post_outcome(outcome) == old(self)@.insert_post(new_post@).1,
    {
        if self.posts_issued == i32::MAX {
            return Err(StoreError::Failed);
        }
        let id: i32 = self.posts_issued + 1;
        let post = Post {
            id,
            user_id: new_post.user_id,
            title: new_post.title,
            body: new_post.body,
        };
        let stored = post.clone();
        self.posts_issued = id;
        self.posts.insert(id, stored);
        proof {
            let expected = old(self)@.insert_post(new_post@).0;
            assert(self@.posts =~= expected.posts);
        }
        Ok(post)
    }

    /// Runs the select of the get-posts operation. It never fails.
    pub fn select_posts(&self, id: i32) -> (outcome: Result<Vec<Post>, StoreError>)
        requires
            self.wf(),
        ensures
            outcome matches Ok(posts) && post_views(posts@) == self@.select_posts(id as int),
    {
        let mut posts: Vec<Post> = Vec::new();
        match self.posts.get(&id) {
            Some(post) => {
                posts.push(post.clone());
            },
            None => {},
        }
        assert(post_views(posts@) =~= self@.select_posts(id as int));
        Ok(posts)
    }

    /// Runs the update of the update-post operation.
    pub fn update_post(&mut self, id: i32, updated_post: UpdatePost) -> (outcome: Result<
        Post,
        StoreError,
    >)
        requires
            old(self).wf(),
        ensures
            final(self).wf(),
            final(self)@ == old(self)@.update_post(id as int, updated_post@).0,
            post_outcome(outcome) == old(self)@.update_post(id as int, updated_post@).1,
    {
        if !self.posts.contains_key(&id) {
            return Err(StoreError::RowNotFound);
        }
        let post = Post {
            id,
            user_id: updated_post.user_id,
            title: updated_post.title,
            body: updated_post.body,
        };
        let stored = post.clone();
        self.posts.insert(id, stored);
        proof {
            let expected = old(self)@.update_post(id as int, updated_post@).0;
            assert(self@.posts =~= expected.posts);
        }
        Ok(post)
    }

    /// Runs the delete of the delete-post operation: the number of rows removed. It never
    /// fails.
    pub fn delete_post(&mut self, id: i32) -> (outcome: Result<u64, StoreError>)
        requires
            old(self).wf(),
        ensures
            final(self).wf(),
            final(self)@ == old(self)@.delete_post(id as int).0,
            outcome matches Ok(removed) && removed == old(self)@.delete_post(id as int).1,
    {
        let removed: u64 = match self.posts.remove(&id) {
            Some(_) => 1,
            None => 0,
        };
        proof {
            let expected = old(self)@.delete_post(id as int).0;
            assert(self@.posts =~= expected.posts);
        }
        Ok(removed)
    }

    /// The number of posts in the store.
    pub fn post_count(&self) -> (count: usize)
        requires
            self.wf(),
        ensures
            count == self@.posts.len(),
    {
        proof {
            lemma_post_rows_len(self.posts@);
        }
        self.posts.len()
    }
}

/// The table that a map of stored posts stands for has as many rows as the map.
proof fn lemma_post_rows_len(stored: Map<i32, Post>)
    requires
        stored.dom().finite(),
    ensures
        post_rows(stored).dom().finite(),
        post_rows(stored).len() == stored.len(),
    decreases stored.len(),
{
    if stored.len() == 0 {
        assert(stored.dom() =~= Set::empty());
        assert(post_rows(stored).dom() =~= Set::empty());
    } else {
        let key = stored.dom().choose();
        let rest = stored.remove(key);
        lemma_post_rows_len(rest);
        assert(post_rows(stored).dom() =~= post_rows(rest).dom().insert(key as int));
    }
}

} // verus!
