//! Entity records: users, posts and the instant a post was published.
use vstd::prelude::*;

verus! {

/// An instant in UTC, as whole seconds since the Unix epoch and the
/// nanoseconds past that second.
#[derive(Clone, Copy, Debug, PartialEq, Eq, Structural)]
pub struct Timestamp {
    pub secs: i64,
    pub nanos: u32,
}

impl Timestamp {
    /// The sub-second part is below one second.
    pub open spec fn wf(&self) -> bool {
        self.nanos < 1_000_000_000
    }
}

/// Relies on chrono::Utc::now, read back through `DateTime::timestamp` and
/// `DateTime::timestamp_subsec_nanos`. `Utc::now` builds its value from the
/// `Duration` since the epoch, whose sub-second part is below one second.
/// Nothing is promised of the instant itself; `Utc::now` panics where the
/// system clock reads before 1970.
#[verifier::external_body]
pub(crate) fn current_time() -> (r: Timestamp)
    ensures
        r.wf(),
{
    let now = chrono::Utc::now();
    Timestamp { secs: now.timestamp(), nanos: now.timestamp_subsec_nanos() }
}

/// A user's record, as the store holds it.
#[derive(Debug)]
pub struct User {
    pub id: String,
    pub name: String,
    pub avatar_url: Option<String>,
}

/// What a user's record holds, as mathematical values.
pub struct UserView {
    pub id: Seq<char>,
    pub name: Seq<char>,
    pub avatar_url: Option<Seq<char>>,
}

pub open spec fn opt_view(o: Option<String>) -> Option<Seq<char>> {
    match o {
        Some(s) => Some(s@),
        None => None,
    }
}

impl View for User {
    type V = UserView;

    open spec fn view(&self) -> UserView {
        UserView { id: self.id@, name: self.name@, avatar_url: opt_view(self.avatar_url) }
    }
}

pub(crate) fn copy_opt(o: &Option<String>) -> (r: Option<String>)
    ensures
        opt_view(r) == opt_view(*o),
{
    match o {
        Some(s) => Some(s.clone()),
        None => None,
    }
}

impl Clone for User {
    fn clone(&self) -> (r: Self)
        ensures
            r@ == self@,
    {
        User { id: self.id.clone(), name: self.name.clone(), avatar_url: copy_opt(&self.avatar_url) }
    }
}

impl User {
    pub fn new(id: String, name: String, avatar_url: Option<String>) -> (r: User)
        ensures
            r.id == id,
            r.name == name,
            r.avatar_url == avatar_url,
    {
        User { id, name, avatar_url }
    }
}

/// A post's record, as the store holds it.
#[derive(Debug)]
pub struct Post {
    pub id: String,
    pub title: String,
    pub author_id: String,
    pub body: String,
    pub tags: Vec<String>,
    pub published_at: Timestamp,
}

/// What a post's record holds, as mathematical values.
pub struct PostView {
    pub id: Seq<char>,
    pub title: Seq<char>,
    pub author_id: Seq<char>,
    pub body: Seq<char>,
    pub tags: Seq<Seq<char>>,
    pub published_at: Timestamp,
}

pub open spec fn strings_view(v: Seq<String>) -> Seq<Seq<char>> {
    v.map_values(|s: String| s@)
}

impl View for Post {
    type V = PostView;

    open spec fn view(&self) -> PostView {
        PostView {
            id: self.id@,
            title: self.title@,
            author_id: self.author_id@,
            body: self.body@,
            tags: strings_view(self.tags@),
            published_at: self.published_at,
        }
    }
}

pub(crate) fn copy_strings(v: &Vec<String>) -> (r: Vec<String>)
    ensures
        r@ == v@,
{
    let mut r: Vec<String> = Vec::new();
    let mut i: usize = 0;
    while i < v.len()
        invariant
            i <= v.len(),
            r@ == v@.subrange(0, i as int),
        decreases v.len() - i,
    {
        r.push(v[i].clone());
        i = i + 1;
    }
    assert(r@ =~= v@);
    r
}

impl Clone for Post {
    fn clone(&self) -> (r: Self)
        ensures
            r@ == self@,
    {
        Post {
            id: self.id.clone(),
            title: self.title.clone(),
            author_id: self.author_id.clone(),
            body: self.body.clone(),
            tags: copy_strings(&self.tags),
            published_at: self.published_at,
        }
    }
}

impl Post {
    /// A post published at the given instant.
    pub fn published(
        id: String,
        title: String,
        author_id: String,
        body: String,
        tags: Vec<String>,
        published_at: Timestamp,
    ) -> (r: Post)
        ensures
            r.id == id,
            r.title == title,
            r.author_id == author_id,
            r.body == body,
            r.tags == tags,
            r.published_at == published_at,
    {
        Post { id, title, author_id, body, tags, published_at }
    }

    /// A post published now, by the system clock.
    pub fn new(id: String, title: String, author_id: String, body: String, tags: Vec<String>) -> (r: Post)
        ensures
            r.id == id,
            r.title == title,
            r.author_id == author_id,
            r.body == body,
            r.tags == tags,
            r.published_at.wf(),
    {
        let now = current_time();
        Post::published(id, title, author_id, body, tags, now)
    }
}

} // verus!
