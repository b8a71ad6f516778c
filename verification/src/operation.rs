//! The five things the service asks of the store, and the statement that asks for each.

use vstd::prelude::*;
use crate::entity::{CreateUserView, PostFields};
use crate::statement::{ParamView, StatementView};
use crate::statement::{DELETE_POST, INSERT_POST, INSERT_USER, SELECT_POSTS, UPDATE_POST};

verus! {

/// One request to the store, with the values it carries.
pub enum Operation {
    /// Insert a user with this username and email.
    InsertUser(CreateUserView),
    /// Insert a post with these fields.
    InsertPost(PostFields),
    /// Select the posts with this identity.
    SelectPosts(int),
    /// Replace the fields of the post with this identity.
    UpdatePost(int, PostFields),
    /// Delete the post with this identity.
    DeletePost(int),
}

impl Operation {
    /// The statement that asks for the operation: its text, and the values bound to the
    /// placeholders of the text in their order.
    pub open spec fn statement(self) -> StatementView {
        match self {
            Operation::InsertUser(input) => StatementView {
                sql: INSERT_USER@,
                params: seq![ParamView::Text(input.username), ParamView::Text(input.email)],
            },
            Operation::InsertPost(input) => StatementView {
                sql: INSERT_POST@,
                params: seq![
                    ParamView::NullableInteger(input.user_id),
                    ParamView::Text(input.title),
                    ParamView::Text(input.body),
                ],
            },
            Operation::SelectPosts(id) => StatementView {
                sql: SELECT_POSTS@,
                params: seq![ParamView::Integer(id)],
            },
            Operation::UpdatePost(id, input) => StatementView {
                sql: UPDATE_POST@,
                params: seq![
                    ParamView::Text(input.title),
                    ParamView::Text(input.body),
                    ParamView::NullableInteger(input.user_id),
                    ParamView::Integer(id),
                ],
            },
            Operation::DeletePost(id) => StatementView {
                sql: DELETE_POST@,
                params: seq![ParamView::Integer(id)],
            },
        }
    }
}

} // verus!
