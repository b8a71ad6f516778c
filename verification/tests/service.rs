use postboard::entity::{CreatePost, CreateUser, Message, Post, UpdatePost, User};
use postboard::handlers::{create_post, create_user, delete_post, get_posts, update_post};
use postboard::memory::MemoryStore;
use postboard::router::{route, Method, Route};
use postboard::status::{status_of, Status};
use postboard::store::StoreError;
use serde_json::Value;

fn text(value: &str) -> String {
    String::from(value)
}

fn new_post(title: &str, body: &str, user_id: Option<i32>) -> CreatePost {
    CreatePost { title: text(title), body: text(body), user_id }
}

fn post_json(post: &Post) -> Value {
    let mut object = serde_json::Map::new();
    object.insert(text("id"), Value::from(post.id));
    object.insert(text("user_id"), Value::from(post.user_id));
    object.insert(text("title"), Value::from(post.title.clone()));
    object.insert(text("body"), Value::from(post.body.clone()));
    Value::Object(object)
}

fn posts_json(posts: &[Post]) -> Value {
    Value::Array(posts.iter().map(post_json).collect())
}

fn message_json(message: &Message) -> Value {
    let mut object = serde_json::Map::new();
    object.insert(text("message"), Value::from(message.message.clone()));
    Value::Object(object)
}

fn json(source: &str) -> Value {
    serde_json::from_str(source).unwrap()
}

#[test]
fn new_store_holds_no_posts() {
    let store = MemoryStore::new();
    assert_eq!(store.post_count(), 0);
    assert_eq!(store.select_posts(1), Ok(Vec::new()));
}

#[test]
fn created_user_echoes_username_and_email() {
    let mut store = MemoryStore::new();
    let input = CreateUser { username: text("ann"), email: text("ann@example.org") };
    let response = create_user(store.insert_user(input.clone()));
    assert_eq!(
        response,
        Ok(User { id: 1, username: text("ann"), email: text("ann@example.org") })
    );
}

#[test]
fn created_users_get_fresh_identities() {
    let mut store = MemoryStore::new();
    let mut seen: Vec<i32> = Vec::new();
    for n in 0..20 {
        let input = CreateUser { username: format!("user{}", n), email: text("same@example.org") };
        let user = create_user(store.insert_user(input)).unwrap();
        assert!(!seen.contains(&user.id));
        assert_eq!(user.id, n + 1);
        assert_eq!(user.username, format!("user{}", n));
        assert_eq!(user.email, "same@example.org");
        seen.push(user.id);
    }
}

#[test]
fn user_fields_are_not_validated() {
    let mut store = MemoryStore::new();
    let input = CreateUser { username: text(""), email: text("not an address") };
    assert_eq!(
        create_user(store.insert_user(input)),
        Ok(User { id: 1, username: text(""), email: text("not an address") })
    );
}

#[test]
fn created_post_is_the_one_fetched() {
    let mut store = MemoryStore::new();
    let created = create_post(store.insert_post(new_post("title", "body", Some(4)))).unwrap();
    assert_eq!(created, Post { id: 1, user_id: Some(4), title: text("title"), body: text("body") });
    let fetched = get_posts(store.select_posts(created.id)).unwrap();
    assert_eq!(fetched, vec![created]);
}

#[test]
fn created_post_may_have_no_owner() {
    let mut store = MemoryStore::new();
    let created = create_post(store.insert_post(new_post("t", "b", None))).unwrap();
    assert_eq!(created.user_id, None);
    assert_eq!(get_posts(store.select_posts(1)), Ok(vec![created]));
}

#[test]
fn owner_of_a_post_need_not_exist() {
    let mut store = MemoryStore::new();
    let created = create_post(store.insert_post(new_post("t", "b", Some(12345))));
    assert_eq!(created.map(|post| post.user_id), Ok(Some(12345)));
}

#[test]
fn fetch_gives_only_the_post_asked_for() {
    let mut store = MemoryStore::new();
    let first = create_post(store.insert_post(new_post("one", "1", None))).unwrap();
    let second = create_post(store.insert_post(new_post("two", "2", None))).unwrap();
    assert_eq!((first.id, second.id), (1, 2));
    assert_eq!(get_posts(store.select_posts(2)), Ok(vec![second]));
    assert_eq!(get_posts(store.select_posts(1)), Ok(vec![first]));
    assert_eq!(get_posts(store.select_posts(3)), Ok(Vec::new()));
    assert_eq!(get_posts(store.select_posts(0)), Ok(Vec::new()));
    assert_eq!(get_posts(store.select_posts(-1)), Ok(Vec::new()));
}

#[test]
fn update_replaces_title_body_and_owner() {
    let mut store = MemoryStore::new();
    let created = create_post(store.insert_post(new_post("old", "old body", Some(1)))).unwrap();
    let change = UpdatePost { title: text("new"), body: text("new body"), user_id: None };
    let updated = update_post(store.update_post(created.id, change));
    let expected = Post { id: created.id, user_id: None, title: text("new"), body: text("new body") };
    assert_eq!(updated, Ok(expected.clone()));
    assert_eq!(get_posts(store.select_posts(created.id)), Ok(vec![expected]));
    assert_eq!(store.post_count(), 1);
}

#[test]
fn update_leaves_other_posts_alone() {
    let mut store = MemoryStore::new();
    let first = create_post(store.insert_post(new_post("one", "1", Some(1)))).unwrap();
    let _second = create_post(store.insert_post(new_post("two", "2", Some(2)))).unwrap();
    let change = UpdatePost { title: text("TWO"), body: text("22"), user_id: Some(3) };
    assert!(update_post(store.update_post(2, change)).is_ok());
    assert_eq!(get_posts(store.select_posts(1)), Ok(vec![first]));
}

#[test]
fn update_of_a_missing_post_is_not_found_and_creates_no_row() {
    let mut store = MemoryStore::new();
    let kept = create_post(store.insert_post(new_post("kept", "k", None))).unwrap();
    let change = UpdatePost { title: text("x"), body: text("y"), user_id: Some(1) };
    let outcome = store.update_post(99, change);
    assert_eq!(outcome, Err(StoreError::RowNotFound));
    let response = update_post(outcome);
    assert_eq!(response, Err(Status::NotFound));
    assert_eq!(status_of(&response).code(), 404);
    assert_eq!(store.post_count(), 1);
    assert_eq!(get_posts(store.select_posts(99)), Ok(Vec::new()));
    assert_eq!(get_posts(store.select_posts(1)), Ok(vec![kept]));
}

#[test]
fn delete_removes_the_post() {
    let mut store = MemoryStore::new();
    let created = create_post(store.insert_post(new_post("t", "b", None))).unwrap();
    let outcome = store.delete_post(created.id);
    assert_eq!(outcome, Ok(1));
    assert_eq!(delete_post(outcome), Ok(Message { message: text("Post deleted successfully") }));
    let fetched = get_posts(store.select_posts(created.id));
    assert_eq!(status_of(&fetched), Status::Success);
    assert_eq!(fetched, Ok(Vec::new()));
    assert_eq!(store.post_count(), 0);
}

#[test]
fn delete_leaves_other_posts_alone() {
    let mut store = MemoryStore::new();
    let _first = create_post(store.insert_post(new_post("one", "1", None))).unwrap();
    let second = create_post(store.insert_post(new_post("two", "2", None))).unwrap();
    assert_eq!(store.delete_post(1), Ok(1));
    assert_eq!(get_posts(store.select_posts(2)), Ok(vec![second]));
    assert_eq!(store.post_count(), 1);
}

#[test]
fn delete_of_a_missing_post_still_succeeds() {
    let mut store = MemoryStore::new();
    let outcome = store.delete_post(5);
    assert_eq!(outcome, Ok(0));
    let response = delete_post(outcome);
    assert_eq!(status_of(&response).code(), 200);
    assert_eq!(response, Ok(Message { message: text("Post deleted successfully") }));
}

#[test]
fn delete_twice_succeeds_twice() {
    let mut store = MemoryStore::new();
    create_post(store.insert_post(new_post("t", "b", None))).unwrap();
    assert_eq!(store.delete_post(1), Ok(1));
    assert_eq!(store.delete_post(1), Ok(0));
    assert!(delete_post(store.delete_post(1)).is_ok());
}

#[test]
fn identity_of_a_deleted_post_is_not_handed_out_again() {
    let mut store = MemoryStore::new();
    let first = create_post(store.insert_post(new_post("a", "a", None))).unwrap();
    assert_eq!(store.delete_post(first.id), Ok(1));
    let second = create_post(store.insert_post(new_post("b", "b", None))).unwrap();
    assert_eq!(first.id, 1);
    assert_eq!(second.id, 2);
    assert_eq!(get_posts(store.select_posts(1)), Ok(Vec::new()));
}

#[test]
fn users_and_posts_count_their_identities_apart() {
    let mut store = MemoryStore::new();
    let user = store.insert_user(CreateUser { username: text("u"), email: text("e") }).unwrap();
    let user_two = store.insert_user(CreateUser { username: text("v"), email: text("f") }).unwrap();
    let post = store.insert_post(new_post("t", "b", Some(user_two.id))).unwrap();
    assert_eq!((user.id, user_two.id, post.id), (1, 2, 1));
}

#[test]
fn example_create_fetch_delete_fetch() {
    let mut store = MemoryStore::new();

    assert_eq!(route(Method::Post, b"/posts"), Ok(Route::CreatePost));
    let created = create_post(store.insert_post(new_post("a", "b", Some(1))));
    assert_eq!(status_of(&created).code(), 200);
    let created = created.unwrap();
    assert_eq!(post_json(&created), json(r#"{"id":1,"title":"a","body":"b","user_id":1}"#));

    assert_eq!(route(Method::Get, b"/posts/1"), Ok(Route::GetPosts(1)));
    let fetched = get_posts(store.select_posts(1));
    assert_eq!(status_of(&fetched).code(), 200);
    let fetched = fetched.unwrap();
    assert_eq!(posts_json(&fetched), json(r#"[{"id":1,"user_id":1,"title":"a","body":"b"}]"#));

    assert_eq!(route(Method::Delete, b"/posts/1"), Ok(Route::DeletePost(1)));
    let deleted = delete_post(store.delete_post(1));
    assert_eq!(status_of(&deleted).code(), 200);
    let deleted = deleted.unwrap();
    assert_eq!(message_json(&deleted), json(r#"{"message":"Post deleted successfully"}"#));

    assert_eq!(route(Method::Get, b"/posts/1"), Ok(Route::GetPosts(1)));
    let fetched = get_posts(store.select_posts(1));
    assert_eq!(status_of(&fetched).code(), 200);
    assert_eq!(posts_json(&fetched.unwrap()), json("[]"));
}

#[test]
fn store_cannot_resume_after_a_negative_identity() {
    assert!(MemoryStore::resuming(-1, 0).is_none());
    assert!(MemoryStore::resuming(0, -1).is_none());
    assert!(MemoryStore::resuming(i32::MIN, i32::MIN).is_none());
    assert!(MemoryStore::resuming(0, 0).is_some());
}

#[test]
fn resumed_store_goes_on_after_the_last_identity() {
    let mut store = MemoryStore::resuming(41, 6).unwrap();
    assert_eq!(store.post_count(), 0);
    let user = store.insert_user(CreateUser { username: text("u"), email: text("e") }).unwrap();
    let post = store.insert_post(new_post("t", "b", None)).unwrap();
    assert_eq!((user.id, post.id), (42, 7));
}

#[test]
fn create_user_answers_500_when_identities_are_used_up() {
    let mut store = MemoryStore::resuming(i32::MAX, 0).unwrap();
    let outcome = store.insert_user(CreateUser { username: text("u"), email: text("e") });
    assert_eq!(outcome, Err(StoreError::Failed));
    let response = create_user(outcome);
    assert_eq!(response, Err(Status::InternalServerError));
    assert_eq!(status_of(&response).code(), 500);
}

#[test]
fn create_post_answers_500_when_identities_are_used_up() {
    let mut store = MemoryStore::resuming(0, i32::MAX - 1).unwrap();
    let last = create_post(store.insert_post(new_post("last", "l", None))).unwrap();
    assert_eq!(last.id, i32::MAX);
    let outcome = store.insert_post(new_post("late", "l", None));
    assert_eq!(outcome, Err(StoreError::Failed));
    assert_eq!(create_post(outcome), Err(Status::InternalServerError));
    assert_eq!(store.post_count(), 1);
    assert_eq!(get_posts(store.select_posts(i32::MAX)), Ok(vec![last]));
}
