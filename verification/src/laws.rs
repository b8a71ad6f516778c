//! What holds of the handlers when the store behaves as the reference model says.

use vstd::prelude::*;
use crate::entity::{CreateUserView, PostFields, PostView};
use crate::handlers::{POST_DELETED, created, deleted, found};
use crate::operation::Operation;
use crate::status::Status;
use crate::store::StoreError;
use crate::tables::Tables;

verus! {

/// Whatever statement runs, the store stays well formed and no identity counter goes
/// back: every row is stored under its own identity, at most the last one handed out, so
/// an identity, once handed out, is never handed out again.
pub proof fn identities_are_never_reused(tables: Tables, operation: Operation)
    requires
        tables.wf(),
    ensures
        tables.after(operation).wf(),
        tables.after(operation).users_issued >= tables.users_issued,
        tables.after(operation).posts_issued >= tables.posts_issued,
{
}

/// Creating a user, while identities are left, answers with a user that carries the
/// username and email of the input under an identity above every identity handed out
/// before, and that user is then in the store.
pub proof fn created_user_echoes_input(tables: Tables, input: CreateUserView)
    requires
        tables.wf(),
        tables.users_issued < i32::MAX,
    ensures
        ({
            let (after, outcome) = tables.insert_user(input);
            &&& created(outcome) matches Ok(user)
            &&& user.username == input.username
            &&& user.email == input.email
            &&& user.id > tables.users_issued
            &&& !tables.users.contains_key(user.id)
            &&& after.users.contains_key(user.id)
            &&& after.users[user.id] == user
        }),
{
}

/// Creating a post, while identities are left, and then fetching posts by the identity
/// in the answer gives exactly one post, equal to the one created; it carries the fields
/// of the input.
pub proof fn created_post_is_fetched(tables: Tables, input: PostFields)
    requires
        tables.wf(),
        tables.posts_issued < i32::MAX,
    ensures
        ({
            let (after, outcome) = tables.insert_post(input);
            &&& created(outcome) matches Ok(post)
            &&& post.user_id == input.user_id
            &&& post.title == input.title
            &&& post.body == input.body
            &&& !tables.posts.contains_key(post.id)
            &&& found::<Seq<PostView>>(Ok(after.select_posts(post.id))) == Ok::<
                Seq<PostView>,
                Status,
            >(seq![post])
        }),
{
}

/// Updating a post at an identity that has a row replaces title, body and owner, keeps
/// the identity, answers with the new row, and a fetch afterwards gives the new row and
/// nothing of the old one. No other row changes.
pub proof fn updated_post_is_replaced(tables: Tables, id: int, input: PostFields)
    requires
        tables.wf(),
        tables.posts.contains_key(id),
    ensures
        ({
            let (after, outcome) = tables.update_post(id, input);
            let replaced = PostView {
                id,
                user_id: input.user_id,
                title: input.title,
                body: input.body,
            };
            &&& found(outcome) == Ok::<PostView, Status>(replaced)
            &&& found::<Seq<PostView>>(Ok(after.select_posts(id))) == Ok::<
                Seq<PostView>,
                Status,
            >(seq![replaced])
            &&& after.posts.dom() == tables.posts.dom()
            &&& forall|other: int|
                other != id && tables.posts.contains_key(other) ==> #[trigger] after.posts[other]
                    == tables.posts[other]
        }),
{
    let (after, outcome) = tables.update_post(id, input);
    assert(after.posts.dom() =~= tables.posts.dom());
}

/// Updating a post at an identity that has no row answers not-found and leaves the store
/// as it was: no row is created.
pub proof fn update_of_missing_post_is_not_found(tables: Tables, id: int, input: PostFields)
    requires
        tables.wf(),
        !tables.posts.contains_key(id),
    ensures
        ({
            let (after, outcome) = tables.update_post(id, input);
            &&& found(outcome) == Err::<PostView, Status>(Status::NotFound)
            &&& after == tables
        }),
{
}

/// Deleting a post at an identity that has a row removes that row and no other, and is
/// answered with the success message; a fetch by that identity afterwards is answered
/// with an empty sequence, not with an error.
pub proof fn deleted_post_is_gone(tables: Tables, id: int)
    requires
        tables.wf(),
        tables.posts.contains_key(id),
    ensures
        ({
            let (after, removed) = tables.delete_post(id);
            &&& removed == 1
            &&& deleted(Ok(removed as u64)) == Ok::<Seq<char>, Status>(POST_DELETED@)
            &&& found::<Seq<PostView>>(Ok(after.select_posts(id))) == Ok::<
                Seq<PostView>,
                Status,
            >(Seq::empty())
            &&& after.posts == tables.posts.remove(id)
        }),
{
}

/// Deleting a post at an identity that has no row removes nothing, leaves the store as it
/// was, and is still answered with the success message.
pub proof fn delete_of_missing_post_succeeds(tables: Tables, id: int)
    requires
        tables.wf(),
        !tables.posts.contains_key(id),
    ensures
        ({
            let (after, removed) = tables.delete_post(id);
            &&& removed == 0
            &&& deleted(Ok(removed as u64)) == Ok::<Seq<char>, Status>(POST_DELETED@)
            &&& after == tables
        }),
{
    let (after, removed) = tables.delete_post(id);
    assert(after.posts =~= tables.posts);
}

/// A failed statement is answered by the status alone, whatever the failure was: 500 by
/// the create handlers, 404 by the handlers addressed by identity.
pub proof fn failures_are_not_told_apart<T>(first: StoreError, second: StoreError)
    ensures
        created::<T>(Err(first)) == created::<T>(Err(second)),
        created::<T>(Err(first)) == Err::<T, Status>(Status::InternalServerError),
        found::<T>(Err(first)) == found::<T>(Err(second)),
        found::<T>(Err(first)) == Err::<T, Status>(Status::NotFound),
        deleted(Err(first)) == Err::<Seq<char>, Status>(Status::NotFound),
{
}

/// The posts in the answer to a fetch are rows of the store at that instant, each under
/// the identity that was asked for.
pub proof fn fetched_posts_are_stored(tables: Tables, id: int)
    requires
        tables.wf(),
    ensures
        forall|i: int|
            0 <= i < tables.select_posts(id).len() ==> {
                let post = #[trigger] tables.select_posts(id)[i];
                tables.posts.contains_key(id) && tables.posts[id] == post && post.id == id
            },
        tables.select_posts(id).len() <= 1,
{
}

} // verus!
