use post_board::model::{Post, Timestamp, User};
use post_board::resolver::{create_post, get_all_posts, get_post, get_user};
use post_board::schema::{CreatePostInput, Mutation, PostType, Query, UserType};
use post_board::store::Store;

fn seeded() -> Store {
    let mut store = Store::new();
    store.init_data();
    store
}

fn s(x: &str) -> String {
    x.to_string()
}

#[test]
fn new_store_is_empty() {
    let store = Store::new();
    assert_eq!(store.post_count(), 0);
    assert!(get_all_posts(&store).is_empty());
    assert!(get_user(&store, &s("1")).is_none());
    let other = Store::default();
    assert_eq!(other.post_count(), 0);
}

#[test]
fn seed_data_holds_two_users_and_two_posts() {
    let store = seeded();
    assert_eq!(store.post_count(), 2);
    let u1 = get_user(&store, &s("1")).unwrap();
    assert_eq!(u1.name, "テストユーザー1");
    assert_eq!(u1.avatar_url, Some(s("https://i.pravatar.cc/150?img=1")));
    let u2 = get_user(&store, &s("2")).unwrap();
    assert_eq!(u2.name, "テストユーザー2");
    let p2 = get_post(&store, &s("2")).unwrap();
    assert_eq!(p2.title, "RustでWebアプリ作成");
    assert_eq!(p2.author_id, "2");
    assert_eq!(p2.body, "Actix-webを使ったWebアプリケーション開発を行っています。");
    assert_eq!(p2.tags, vec![s("Rust"), s("Actix-web")]);
}

#[test]
fn seeding_twice_replaces_rather_than_adds() {
    let mut store = seeded();
    store.init_data();
    assert_eq!(store.post_count(), 2);
    assert_eq!(get_user(&store, &s("2")).unwrap().id, "2");
}

#[test]
fn scenario_post_one_with_its_author() {
    let store = seeded();
    let post = Query.post(&store, s("1")).unwrap();
    assert_eq!(post.title, "GraphQL学習");
    assert_eq!(post.body, "GraphQLはクエリ言語です。");
    assert_eq!(post.tags, vec![s("GraphQL"), s("入門")]);
    let author = post.author(&store).unwrap();
    assert_eq!(author.name, "テストユーザー1");
}

#[test]
fn scenario_create_then_list_three_posts() {
    let mut store = seeded();
    let input = CreatePostInput { title: s("T"), body: s("B"), tags: Some(vec![]), author_id: s("2") };
    let created = Mutation.create_post(&mut store, input).unwrap();
    let posts = Query.posts(&store);
    assert_eq!(posts.len(), 3);
    let found: Vec<&PostType> = posts.iter().filter(|p| p.id == created.id).collect();
    assert_eq!(found.len(), 1);
    assert_eq!(found[0].title, "T");
    assert_eq!(found[0].body, "B");
    assert!(found[0].tags.is_empty());
    assert_eq!(found[0].author(&store).unwrap().name, "テストユーザー2");
}

#[test]
fn created_post_has_fresh_nonempty_id_and_given_fields() {
    let mut store = seeded();
    let post = create_post(&mut store, s("title"), s("body"), vec![s("a"), s("a")], s("1")).unwrap();
    assert_eq!(post.id.chars().count(), 36);
    assert_ne!(post.id, "1");
    assert_ne!(post.id, "2");
    assert_eq!(post.title, "title");
    assert_eq!(post.body, "body");
    assert_eq!(post.tags, vec![s("a"), s("a")]);
    assert_eq!(post.author_id, "1");
    assert!(post.published_at.nanos < 1_000_000_000);
    assert!(post.published_at.secs > 1_600_000_000);
}

#[test]
fn creates_get_distinct_ids_and_grow_the_count() {
    let mut store = seeded();
    let a = create_post(&mut store, s("x"), s("y"), vec![], s("1")).unwrap();
    let b = create_post(&mut store, s("x"), s("y"), vec![], s("1")).unwrap();
    let c = create_post(&mut store, s("x"), s("y"), vec![], s("1")).unwrap();
    assert_ne!(a.id, b.id);
    assert_ne!(a.id, c.id);
    assert_ne!(b.id, c.id);
    assert_eq!(store.post_count(), 5);
    assert_eq!(get_all_posts(&store).len(), 5);
}

#[test]
fn get_post_returns_what_was_stored() {
    let mut store = seeded();
    let post = create_post(&mut store, s("t"), s("b"), vec![s("k")], s("7")).unwrap();
    let again = get_post(&store, &post.id).unwrap();
    assert_eq!(again.id, post.id);
    assert_eq!(again.title, "t");
    assert_eq!(again.body, "b");
    assert_eq!(again.tags, vec![s("k")]);
    assert_eq!(again.author_id, "7");
    assert_eq!(again.published_at, post.published_at);
}

#[test]
fn get_post_unknown_id_is_absent() {
    let store = seeded();
    assert!(get_post(&store, &s("3")).is_none());
    assert!(get_post(&store, &s("not-an-id")).is_none());
    assert!(Query.post(&store, s("")).is_none());
}

#[test]
fn author_absent_for_unknown_author_id() {
    let mut store = seeded();
    let post = create_post(&mut store, s("t"), s("b"), vec![], s("999")).unwrap();
    let shown = PostType::from(post);
    assert!(shown.author(&store).is_none());
    assert!(Query.user(&store, s("999")).is_none());
    assert!(get_user(&store, &s("999")).is_none());
}

#[test]
fn repeated_queries_give_identical_results() {
    let store = seeded();
    let first: Vec<String> = get_all_posts(&store).into_iter().map(|p| p.id).collect();
    let second: Vec<String> = get_all_posts(&store).into_iter().map(|p| p.id).collect();
    assert_eq!(first, second);
    let a = get_post(&store, &s("1")).unwrap();
    let b = get_post(&store, &s("1")).unwrap();
    assert_eq!(a.title, b.title);
    assert_eq!(a.published_at, b.published_at);
    let u = get_user(&store, &s("2")).unwrap();
    let v = get_user(&store, &s("2")).unwrap();
    assert_eq!(u.name, v.name);
    assert_eq!(u.avatar_url, v.avatar_url);
}

#[test]
fn add_post_refuses_a_taken_id() {
    let mut store = seeded();
    let t = Timestamp { secs: 10, nanos: 5 };
    assert!(store.add_post(s("1"), s("t"), s("b"), vec![], s("1"), t).is_none());
    assert_eq!(store.post_count(), 2);
    assert_eq!(get_post(&store, &s("1")).unwrap().title, "GraphQL学習");
    let added = store.add_post(s("9"), s("t"), s("b"), vec![], s("1"), t).unwrap();
    assert_eq!(added.id, "9");
    assert_eq!(added.published_at, t);
    assert_eq!(store.post_count(), 3);
    assert_eq!(get_post(&store, &s("9")).unwrap().published_at, t);
}

#[test]
fn put_post_replaces_under_the_same_id() {
    let mut store = seeded();
    let t = Timestamp { secs: 1, nanos: 0 };
    store.put_post(Post::published(s("1"), s("new"), s("2"), s("b"), vec![], t));
    assert_eq!(store.post_count(), 2);
    let p = get_post(&store, &s("1")).unwrap();
    assert_eq!(p.title, "new");
    assert_eq!(p.author_id, "2");
}

#[test]
fn mutation_without_tags_stores_none() {
    let mut store = Store::new();
    let input = CreatePostInput { title: s("T"), body: s("B"), tags: None, author_id: s("1") };
    let created = Mutation.create_post(&mut store, input).unwrap();
    assert!(created.tags.is_empty());
    assert_eq!(created.author_id, "1");
    assert!(created.author(&store).is_none());
    assert_eq!(store.post_count(), 1);
}

#[test]
fn conversions_copy_every_field() {
    let user = User::new(s("u"), s("name"), None);
    assert_eq!(user.id, "u");
    let shown = UserType::from(user);
    assert_eq!(shown.id, "u");
    assert_eq!(shown.name, "name");
    assert_eq!(shown.avatar_url, None);
    let t = Timestamp { secs: 42, nanos: 7 };
    let post = Post::published(s("p"), s("t"), s("a"), s("b"), vec![s("x")], t);
    let shown = PostType::from(post);
    assert_eq!(shown.id, "p");
    assert_eq!(shown.title, "t");
    assert_eq!(shown.author_id, "a");
    assert_eq!(shown.body, "b");
    assert_eq!(shown.tags, vec![s("x")]);
    assert_eq!(shown.published_at, t);
}

#[test]
fn new_post_is_stamped_with_the_clock() {
    let post = Post::new(s("i"), s("t"), s("a"), s("b"), vec![]);
    assert_eq!(post.id, "i");
    assert_eq!(post.title, "t");
    assert!(post.published_at.secs > 1_600_000_000);
    assert!(post.published_at.nanos < 1_000_000_000);
}

#[test]
fn clones_are_equal_in_content() {
    let post = Post::published(s("p"), s("t"), s("a"), s("b"), vec![s("x"), s("y")], Timestamp { secs: 3, nanos: 4 });
    let copy = post.clone();
    assert_eq!(copy.tags, post.tags);
    assert_eq!(copy.published_at, post.published_at);
    let user = User::new(s("u"), s("n"), Some(s("url")));
    let other = user.clone();
    assert_eq!(other.avatar_url, Some(s("url")));
}
