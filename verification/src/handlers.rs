//! The five request handlers.
//!
//! Each handler is a pair: a function that turns the decoded input into the one statement
//! to run, and a function that turns what the store handed back into the response. The
//! caller runs the statement in between.

use vstd::prelude::*;
use crate::entity::{CreatePost, CreateUser, Message, Post, UpdatePost, User};
use crate::operation::Operation;
use crate::statement::{Param, Statement};
use crate::statement::{DELETE_POST, INSERT_POST, INSERT_USER, SELECT_POSTS, UPDATE_POST};
use crate::status::Status;
use crate::store::StoreError;

verus! {

/// The text sent with a served delete.
pub const POST_DELETED: &'static str = "Post deleted successfully";

/// The response to a request that creates a row: the row on success, 500 on any failure.
pub open spec fn created<T>(outcome: Result<T, StoreError>) -> Result<T, Status> {
    match outcome {
        Ok(row) => Ok(row),
        Err(_) => Err(Status::InternalServerError),
    }
}

/// The response to a request addressed by identity: the result on success, 404 on any
/// failure, a missing row and a failed statement alike.
pub open spec fn found<T>(outcome: Result<T, StoreError>) -> Result<T, Status> {
    match outcome {
        Ok(result) => Ok(result),
        Err(_) => Err(Status::NotFound),
    }
}

/// Create user, first half: one insert that carries username and email.
pub fn create_user_statement(new_user: CreateUser) -> (statement: Statement)
    ensures
        statement@ == Operation::InsertUser(new_user@).statement(),
{
    let mut params: Vec<Param> = Vec::new();
    params.push(Param::Text(new_user.username));
    params.push(Param::Text(new_user.email));
    let statement = Statement { sql: INSERT_USER, params };
    assert(statement@.params =~= Operation::InsertUser(new_user@).statement().params);
    statement
}

/// Create user, second half: the created row, or 500 whatever went wrong.
pub fn create_user(outcome: Result<User, StoreError>) -> (response: Result<User, Status>)
    ensures
        response == created(outcome),
{
    match outcome {
        Ok(user) => Ok(user),
        Err(_) => Err(Status::InternalServerError),
    }
}

/// Create post, first half: one insert that carries owner, title and body.
pub fn create_post_statement(new_post: CreatePost) -> (statement: Statement)
    ensures
        statement@ == Operation::InsertPost(new_post@).statement(),
{
    let mut params: Vec<Param> = Vec::new();
    params.push(Param::NullableInteger(new_post.user_id));
    params.push(Param::Text(new_post.title));
    params.push(Param::Text(new_post.body));
    let statement = Statement { sql: INSERT_POST, params };
    assert(statement@.params =~= Operation::InsertPost(new_post@).statement().params);
    statement
}

/// Create post, second half: the created row, or 500 whatever went wrong.
pub fn create_post(outcome: Result<Post, StoreError>) -> (response: Result<Post, Status>)
    ensures
        response == created(outcome),
{
    match outcome {
        Ok(post) => Ok(post),
        Err(_) => Err(Status::InternalServerError),
    }
}

/// Get posts, first half: one select by identity.
pub fn get_posts_statement(id: i32) -> (statement: Statement)
    ensures
        statement@ == Operation::SelectPosts(id as int).statement(),
{
    let mut params: Vec<Param> = Vec::new();
    params.push(Param::Integer(id));
    let statement = Statement { sql: SELECT_POSTS, params };
    assert(statement@.params =~= Operation::SelectPosts(id as int).statement().params);
    statement
}

/// Get posts, second half: the rows as they came, none included, or 404 if the statement
/// failed.
pub fn get_posts(outcome: Result<Vec<Post>, StoreError>) -> (response: Result<Vec<Post>, Status>)
    ensures
        response == found(outcome),
{
    match outcome {
        Ok(posts) => Ok(posts),
        Err(_) => Err(Status::NotFound),
    }
}

/// Update post, first half: one update that replaces title, body and owner of the row
/// with the given identity.
pub fn update_post_statement(id: i32, updated_post: UpdatePost) -> (statement: Statement)
    ensures
        statement@ == Operation::UpdatePost(id as int, updated_post@).statement(),
{
    let mut params: Vec<Param> = Vec::new();
    params.push(Param::Text(updated_post.title));
    params.push(Param::Text(updated_post.body));
    params.push(Param::NullableInteger(updated_post.user_id));
    params.push(Param::Integer(id));
    let statement = Statement { sql: UPDATE_POST, params };
    assert(
        statement@.params =~= Operation::UpdatePost(id as int, updated_post@).statement().params
    );
    statement
}

/// Update post, second half: the row as it now stands, or 404 if no row came back or the
/// statement failed.
pub fn update_post(outcome: Result<Post, StoreError>) -> (response: Result<Post, Status>)
    ensures
        response == found(outcome),
{
    match outcome {
        Ok(post) => Ok(post),
        Err(_) => Err(Status::NotFound),
    }
}

/// Delete post, first half: one delete by identity.
pub fn delete_post_statement(id: i32) -> (statement: Statement)
    ensures
        statement@ == Operation::DeletePost(id as int).statement(),
{
    let mut params: Vec<Param> = Vec::new();
    params.push(Param::Integer(id));
    let statement = Statement { sql: DELETE_POST, params };
    assert(statement@.params =~= Operation::DeletePost(id as int).statement().params);
    statement
}

/// What a served delete says, whatever the number of rows removed.
pub open spec fn deleted(outcome: Result<u64, StoreError>) -> Result<Seq<char>, Status> {
    match outcome {
        Ok(_) => Ok(POST_DELETED@),
        Err(_) => Err(Status::NotFound),
    }
}

/// The text and status of a response that carries a message.
pub open spec fn said(response: Result<Message, Status>) -> Result<Seq<char>, Status> {
    match response {
        Ok(message) => Ok(message@),
        Err(status) => Err(status),
    }
}

/// Delete post, second half: the success message whether or not a row was removed, or 404
/// if the statement failed.
pub fn delete_post(outcome: Result<u64, StoreError>) -> (response: Result<Message, Status>)
    ensures
        said(response) == deleted(outcome),
{
    match outcome {
        Ok(_) => Ok(Message { message: POST_DELETED.to_owned() }),
        Err(_) => Err(Status::NotFound),
    }
}

} // verus!
