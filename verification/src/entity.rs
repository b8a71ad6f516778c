//! The records the service stores and the shapes of its inputs.

use vstd::prelude::*;

verus! {

/// A stored user.
#[derive(Debug, PartialEq, Eq)]
pub struct User {
    /// Identity, generated by the store.
    pub id: i32,
    pub username: String,
    pub email: String,
}

/// What a [`User`] is, mathematically.
pub struct UserView {
    pub id: int,
    pub username: Seq<char>,
    pub email: Seq<char>,
}

impl View for User {
    type V = UserView;

    open spec fn view(&self) -> UserView {
        UserView { id: self.id as int, username: self.username@, email: self.email@ }
    }
}

impl Clone for User {
    fn clone(&self) -> (copy: Self)
        ensures
            copy == *self,
    {
        User { id: self.id, username: self.username.clone(), email: self.email.clone() }
    }
}

/// The input of the create-user operation.
#[derive(Debug, PartialEq, Eq)]
pub struct CreateUser {
    pub username: String,
    pub email: String,
}

/// What a [`CreateUser`] is, mathematically.
pub struct CreateUserView {
    pub username: Seq<char>,
    pub email: Seq<char>,
}

impl View for CreateUser {
    type V = CreateUserView;

    open spec fn view(&self) -> CreateUserView {
        CreateUserView { username: self.username@, email: self.email@ }
    }
}

impl Clone for CreateUser {
    fn clone(&self) -> (copy: Self)
        ensures
            copy == *self,
    {
        CreateUser { username: self.username.clone(), email: self.email.clone() }
    }
}

/// The owner reference of a post as a mathematical integer.
pub open spec fn owner(user_id: Option<i32>) -> Option<int> {
    match user_id {
        Some(id) => Some(id as int),
        None => None,
    }
}

/// A stored post.
#[derive(Debug, PartialEq, Eq)]
pub struct Post {
    /// Identity, generated by the store.
    pub id: i32,
    /// The owning user, if any. The service does not check that such a user exists.
    pub user_id: Option<i32>,
    pub title: String,
    pub body: String,
}

/// What a [`Post`] is, mathematically.
pub struct PostView {
    pub id: int,
    pub user_id: Option<int>,
    pub title: Seq<char>,
    pub body: Seq<char>,
}

impl View for Post {
    type V = PostView;

    open spec fn view(&self) -> PostView {
        PostView {
            id: self.id as int,
            user_id: owner(self.user_id),
            title: self.title@,
            body: self.body@,
        }
    }
}

impl Clone for Post {
    fn clone(&self) -> (copy: Self)
        ensures
            copy == *self,
    {
        Post {
            id: self.id,
            user_id: self.user_id,
            title: self.title.clone(),
            body: self.body.clone(),
        }
    }
}

/// The views of a sequence of posts, in order.
pub open spec fn post_views(posts: Seq<Post>) -> Seq<PostView> {
    posts.map_values(|post: Post| post@)
}

/// The fields of a post that a client supplies: everything but the identity.
pub struct PostFields {
    pub user_id: Option<int>,
    pub title: Seq<char>,
    pub body: Seq<char>,
}

/// The input of the create-post operation.
#[derive(Debug, PartialEq, Eq)]
pub struct CreatePost {
    pub title: String,
    pub body: String,
    pub user_id: Option<i32>,
}

impl View for CreatePost {
    type V = PostFields;

    open spec fn view(&self) -> PostFields {
        PostFields { user_id: owner(self.user_id), title: self.title@, body: self.body@ }
    }
}

impl Clone for CreatePost {
    fn clone(&self) -> (copy: Self)
        ensures
            copy == *self,
    {
        CreatePost { title: self.title.clone(), body: self.body.clone(), user_id: self.user_id }
    }
}

/// The input of the update-post operation: a full replacement of the client-supplied fields.
#[derive(Debug, PartialEq, Eq)]
pub struct UpdatePost {
    pub title: String,
    pub body: String,
    pub user_id: Option<i32>,
}

impl View for UpdatePost {
    type V = PostFields;

    open spec fn view(&self) -> PostFields {
        PostFields { user_id: owner(self.user_id), title: self.title@, body: self.body@ }
    }
}

impl Clone for UpdatePost {
    fn clone(&self) -> (copy: Self)
        ensures
            copy == *self,
    {
        UpdatePost { title: self.title.clone(), body: self.body.clone(), user_id: self.user_id }
    }
}

/// A body that carries one line of text for the client.
#[derive(Debug, PartialEq, Eq)]
pub struct Message {
    pub message: String,
}

impl View for Message {
    type V = Seq<char>;

    open spec fn view(&self) -> Seq<char> {
        self.message@
    }
}

impl Clone for Message {
    fn clone(&self) -> (copy: Self)
        ensures
            copy == *self,
    {
        Message { message: self.message.clone() }
    }
}

} // verus!
