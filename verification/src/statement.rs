//! Parameterized statements: the only thing the service ever hands to the store.

use vstd::prelude::*;

verus! {

/// Inserts one user; gives back the row with its generated identity.
pub const INSERT_USER: &'static str =
    "INSERT INTO users (username, email) VALUES ($1, $2) RETURNING id, username, email";

/// Inserts one post; gives back the row with its generated identity.
pub const INSERT_POST: &'static str =
    "INSERT INTO posts (user_id, title, body) values ($1, $2, $3) RETURNING id, title, body, user_id";

/// Selects the posts with a given identity.
pub const SELECT_POSTS: &'static str = "SELECT id, user_id, title, body FROM posts WHERE id = $1";

/// Replaces title, body and owner of the post with a given identity; gives back the new row.
pub const UPDATE_POST: &'static str =
    "UPDATE posts SET title = $1, body = $2, user_id = $3 WHERE id = $4 RETURNING id, user_id, title, body";

/// Deletes the post with a given identity.
pub const DELETE_POST: &'static str = "DELETE FROM posts WHERE id = $1";

/// A value bound to a placeholder of a statement.
#[derive(Debug, PartialEq, Eq)]
pub enum Param {
    Text(String),
    Integer(i32),
    /// An integer column that may be null.
    NullableInteger(Option<i32>),
}

/// What a [`Param`] is, mathematically.
pub enum ParamView {
    Text(Seq<char>),
    Integer(int),
    NullableInteger(Option<int>),
}

impl View for Param {
    type V = ParamView;

    open spec fn view(&self) -> ParamView {
        match self {
            Param::Text(text) => ParamView::Text(text@),
            Param::Integer(value) => ParamView::Integer(*value as int),
            Param::NullableInteger(value) => ParamView::NullableInteger(
                match value {
                    Some(v) => Some(*v as int),
                    None => None,
                },
            ),
        }
    }
}

/// A statement text with the values for its placeholders: `params[i]` is bound to `$i+1`.
#[derive(Debug, PartialEq, Eq)]
pub struct Statement {
    pub sql: &'static str,
    pub params: Vec<Param>,
}

/// What a [`Statement`] is, mathematically.
pub struct StatementView {
    pub sql: Seq<char>,
    pub params: Seq<ParamView>,
}

impl View for Statement {
    type V = StatementView;

    open spec fn view(&self) -> StatementView {
        StatementView { sql: self.sql@, params: self.params@.map_values(|param: Param| param@) }
    }
}

} // verus!
