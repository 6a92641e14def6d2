//! The store: the collection of posts and the collection of users, each
//! keyed by its entities' ids.
use vstd::prelude::*;
use crate::model::{Post, PostView, Timestamp, User, UserView};

verus! {

/// Owns both collections. Each is a vector of records whose ids are
/// distinct; beside it stands the map from id to record that it represents.
/// Vectors rather than hash maps keyed by `String`: the listing walks every
/// record in a fixed order, and lookups are proved by a plain scan.
pub struct Store {
    posts: Vec<Post>,
    users: Vec<User>,
    post_index: Ghost<Map<Seq<char>, PostView>>,
    user_index: Ghost<Map<Seq<char>, UserView>>,
}

/// The post that the seed data stores under id "1", whatever its instant.
pub open spec fn is_first_seed_post(p: PostView) -> bool {
    &&& p.id == "1"@
    &&& p.title == "GraphQL学習"@
    &&& p.author_id == "1"@
    &&& p.body == "GraphQLはクエリ言語です。"@
    &&& p.tags == seq!["GraphQL"@, "入門"@]
    &&& p.published_at.wf()
}

/// The post that the seed data stores under id "2", whatever its instant.
pub open spec fn is_second_seed_post(p: PostView) -> bool {
    &&& p.id == "2"@
    &&& p.title == "RustでWebアプリ作成"@
    &&& p.author_id == "2"@
    &&& p.body == "Actix-webを使ったWebアプリケーション開発を行っています。"@
    &&& p.tags == seq!["Rust"@, "Actix-web"@]
    &&& p.published_at.wf()
}

pub open spec fn first_seed_user() -> UserView {
    UserView {
        id: "1"@,
        name: "テストユーザー1"@,
        avatar_url: Some("https://i.pravatar.cc/150?img=1"@),
    }
}

pub open spec fn second_seed_user() -> UserView {
    UserView {
        id: "2"@,
        name: "テストユーザー2"@,
        avatar_url: Some("https://i.pravatar.cc/150?img=2"@),
    }
}

impl Store {
    /// The posts, by id.
    pub closed spec fn post_map(&self) -> Map<Seq<char>, PostView> {
        self.post_index@
    }

    /// The users, by id.
    pub closed spec fn user_map(&self) -> Map<Seq<char>, UserView> {
        self.user_index@
    }

    /// The posts in the order in which they are listed.
    pub closed spec fn post_list(&self) -> Seq<PostView> {
        self.posts@.map_values(|p: Post| p@)
    }

    /// Each vector holds every record of its map once, under distinct ids,
    /// and nothing else.
    pub closed spec fn wf(&self) -> bool {
        &&& self.post_index@.dom().finite()
        &&& self.post_index@.len() == self.posts.len()
        &&& forall|i: int|
            0 <= i < self.posts.len() ==> {
                &&& #[trigger] self.post_index@.contains_key(self.posts@[i]@.id)
                &&& self.post_index@[self.posts@[i]@.id] == self.posts@[i]@
            }
        &&& forall|k: Seq<char>|
            #[trigger] self.post_index@.contains_key(k) ==> exists|i: int|
                0 <= i < self.posts.len() && self.posts@[i]@.id == k
        &&& forall|i: int, j: int|
            0 <= i < j < self.posts.len() ==> self.posts@[i]@.id != self.posts@[j]@.id
        &&& self.user_index@.dom().finite()
        &&& forall|i: int|
            0 <= i < self.users.len() ==> {
                &&& #[trigger] self.user_index@.contains_key(self.users@[i]@.id)
                &&& self.user_index@[self.users@[i]@.id] == self.users@[i]@
            }
        &&& forall|k: Seq<char>|
            #[trigger] self.user_index@.contains_key(k) ==> exists|i: int|
                0 <= i < self.users.len() && self.users@[i]@.id == k
        &&& forall|i: int, j: int|
            0 <= i < j < self.users.len() ==> self.users@[i]@.id != self.users@[j]@.id
    }

    /// A well-formed store holds finitely many posts.
    pub proof fn lemma_posts_finite(&self)
        requires
            self.wf(),
        ensures
            self.post_map().dom().finite(),
    {
    }

    /// An empty store.
    pub fn new() -> (r: Store)
        ensures
            r.wf(),
            r.post_map() == Map::<Seq<char>, PostView>::empty(),
            r.user_map() == Map::<Seq<char>, UserView>::empty(),
    {
        Store {
            posts: Vec::new(),
            users: Vec::new(),
            post_index: Ghost(Map::empty()),
            user_index: Ghost(Map::empty()),
        }
    }

    /// Where the post with the given id stands, if it is there.
    fn find_post(&self, id: &String) -> (r: Option<usize>)
        requires
            self.wf(),
        ensures
            match r {
                Some(i) => i < self.posts.len() && self.posts@[i as int]@.id == id@,
                None => !self.post_map().contains_key(id@),
            },
    {
        let mut i: usize = 0;
        while i < self.posts.len()
            invariant
                i <= self.posts.len(),
                forall|j: int| 0 <= j < i ==> self.posts@[j]@.id != id@,
            decreases self.posts.len() - i,
        {
            if self.posts[i].id == *id {
                return Some(i);
            }
            i = i + 1;
        }
        None
    }

    /// Where the user with the given id stands, if it is there.
    fn find_user(&self, id: &String) -> (r: Option<usize>)
        requires
            self.wf(),
        ensures
            match r {
                Some(i) => i < self.users.len() && self.users@[i as int]@.id == id@,
                None => !self.user_map().contains_key(id@),
            },
    {
        let mut i: usize = 0;
        while i < self.users.len()
            invariant
                i <= self.users.len(),
                forall|j: int| 0 <= j < i ==> self.users@[j]@.id != id@,
            decreases self.users.len() - i,
        {
            if self.users[i].id == *id {
                return Some(i);
            }
            i = i + 1;
        }
        None
    }

    /// A copy of the post stored under `id`, or `None` where no post has it.
    pub fn post(&self, id: &String) -> (r: Option<Post>)
        requires
            self.wf(),
        ensures
            match r {
                Some(p) => self.post_map().contains_key(id@) && p@ == self.post_map()[id@],
                None => !self.post_map().contains_key(id@),
            },
    {
        match self.find_post(id) {
            Some(i) => {
                proof {
                    assert(self.post_index@.contains_key(self.posts@[i as int]@.id));
                }
                Some(self.posts[i].clone())
            },
            None => None,
        }
    }

    /// A copy of the user stored under `id`, or `None` where no user has it.
    pub fn user(&self, id: &String) -> (r: Option<User>)
        requires
            self.wf(),
        ensures
            match r {
                Some(u) => self.user_map().contains_key(id@) && u@ == self.user_map()[id@],
                None => !self.user_map().contains_key(id@),
            },
    {
        match self.find_user(id) {
            Some(i) => {
                proof {
                    assert(self.user_index@.contains_key(self.users@[i as int]@.id));
                }
                Some(self.users[i].clone())
            },
            None => None,
        }
    }

    /// Copies of all stored posts, each once, in no promised order.
    pub fn all_posts(&self) -> (r: Vec<Post>)
        requires
            self.wf(),
        ensures
            r.len() == self.post_map().len(),
            forall|i: int|
                0 <= i < r.len() ==> {
                    &&& #[trigger] self.post_map().contains_key(r@[i]@.id)
                    &&& self.post_map()[r@[i]@.id] == r@[i]@
                },
            forall|i: int, j: int| 0 <= i < j < r.len() ==> r@[i]@.id != r@[j]@.id,
            r@.map_values(|p: Post| p@) == self.post_list(),
    {
        let mut r: Vec<Post> = Vec::new();
        let mut i: usize = 0;
        while i < self.posts.len()
            invariant
                self.wf(),
                i <= self.posts.len(),
                r.len() == i,
                forall|j: int| 0 <= j < i ==> #[trigger] r@[j]@ == self.posts@[j]@,
            decreases self.posts.len() - i,
        {
            r.push(self.posts[i].clone());
            i = i + 1;
        }
        proof {
            assert forall|a: int, b: int| 0 <= a < b < r.len() implies r@[a]@.id != r@[b]@.id by {
                assert(r@[a]@ == self.posts@[a]@);
                assert(r@[b]@ == self.posts@[b]@);
            }
            assert forall|a: int| 0 <= a < r.len() implies {
                &&& #[trigger] self.post_map().contains_key(r@[a]@.id)
                &&& self.post_map()[r@[a]@.id] == r@[a]@
            } by {
                assert(r@[a]@ == self.posts@[a]@);
            }
            assert(r@.map_values(|p: Post| p@) =~= self.post_list());
        }
        r
    }

    /// How many posts are stored.
    pub fn post_count(&self) -> (r: usize)
        requires
            self.wf(),
        ensures
            r == self.post_map().len(),
    {
        self.posts.len()
    }

    /// Stores `post` under its id, in place of any post stored there before.
    pub fn put_post(&mut self, post: Post)
        requires
            old(self).wf(),
        ensures
            final(self).wf(),
            final(self).post_map() == old(self).post_map().insert(post@.id, post@),
            final(self).user_map() == old(self).user_map(),
    {
        let ghost key = post@.id;
        let ghost pv = post@;
        match self.find_post(&post.id) {
            Some(i) => {
                proof {
                    assert(self.post_index@.dom().insert(key) =~= self.post_index@.dom());
                }
                self.posts.set(i, post);
                self.post_index = Ghost(self.post_index@.insert(key, pv));
                proof {
                    assert forall|k: Seq<char>| #[trigger] self.post_index@.contains_key(k) implies exists|j: int|
                        0 <= j < self.posts.len() && self.posts@[j]@.id == k by {
                        if k != key {
                            let j = choose|j: int| 0 <= j < old(self).posts.len() && old(self).posts@[j]@.id == k;
                            assert(j != i);
                            assert(self.posts@[j] == old(self).posts@[j]);
                        } else {
                            assert(self.posts@[i as int]@.id == k);
                        }
                    }
                    assert forall|a: int| 0 <= a < self.posts.len() implies {
                        &&& #[trigger] self.post_index@.contains_key(self.posts@[a]@.id)
                        &&& self.post_index@[self.posts@[a]@.id] == self.posts@[a]@
                    } by {
                        if a != i {
                            assert(self.posts@[a] == old(self).posts@[a]);
                            assert(old(self).post_index@.contains_key(old(self).posts@[a]@.id));
                            assert(old(self).posts@[a]@.id != key) by {
                                if a < i {
                                    assert(old(self).posts@[a]@.id != old(self).posts@[i as int]@.id);
                                } else {
                                    assert(old(self).posts@[i as int]@.id != old(self).posts@[a]@.id);
                                }
                            }
                        }
                    }
                    assert forall|a: int, b: int| 0 <= a < b < self.posts.len() implies self.posts@[a]@.id != self.posts@[b]@.id by {
                        assert(self.posts@[a]@.id == old(self).posts@[a]@.id);
                        assert(self.posts@[b]@.id == old(self).posts@[b]@.id);
                    }
                }
            },
            None => {
                self.posts.push(post);
                self.post_index = Ghost(self.post_index@.insert(key, pv));
                proof {
                    let n = old(self).posts.len() as int;
                    assert forall|k: Seq<char>| #[trigger] self.post_index@.contains_key(k) implies exists|j: int|
                        0 <= j < self.posts.len() && self.posts@[j]@.id == k by {
                        if k != key {
                            let j = choose|j: int| 0 <= j < old(self).posts.len() && old(self).posts@[j]@.id == k;
                            assert(self.posts@[j] == old(self).posts@[j]);
                        } else {
                            assert(self.posts@[n]@.id == k);
                        }
                    }
                    assert forall|a: int| 0 <= a < self.posts.len() implies {
                        &&& #[trigger] self.post_index@.contains_key(self.posts@[a]@.id)
                        &&& self.post_index@[self.posts@[a]@.id] == self.posts@[a]@
                    } by {
                        if a < n {
                            assert(self.posts@[a] == old(self).posts@[a]);
                            assert(old(self).post_index@.contains_key(old(self).posts@[a]@.id));
                        }
                    }
                    assert forall|a: int, b: int| 0 <= a < b < self.posts.len() implies self.posts@[a]@.id != self.posts@[b]@.id by {
                        assert(self.posts@[a] == old(self).posts@[a]);
                        if b < n {
                            assert(self.posts@[b] == old(self).posts@[b]);
                        } else {
                            assert(old(self).post_index@.contains_key(old(self).posts@[a]@.id));
                        }
                    }
                }
            },
        }
    }

    /// Stores `user` under its id, in place of any user stored there before.
    pub fn put_user(&mut self, user: User)
        requires
            old(self).wf(),
        ensures
            final(self).wf(),
            final(self).user_map() == old(self).user_map().insert(user@.id, user@),
            final(self).post_map() == old(self).post_map(),
    {
        let ghost key = user@.id;
        let ghost uv = user@;
        match self.find_user(&user.id) {
            Some(i) => {
                self.users.set(i, user);
                self.user_index = Ghost(self.user_index@.insert(key, uv));
                proof {
                    assert forall|k: Seq<char>| #[trigger] self.user_index@.contains_key(k) implies exists|j: int|
                        0 <= j < self.users.len() && self.users@[j]@.id == k by {
                        if k != key {
                            let j = choose|j: int| 0 <= j < old(self).users.len() && old(self).users@[j]@.id == k;
                            assert(self.users@[j] == old(self).users@[j]);
                        } else {
                            assert(self.users@[i as int]@.id == k);
                        }
                    }
                    assert forall|a: int| 0 <= a < self.users.len() implies {
                        &&& #[trigger] self.user_index@.contains_key(self.users@[a]@.id)
                        &&& self.user_index@[self.users@[a]@.id] == self.users@[a]@
                    } by {
                        if a != i {
                            assert(self.users@[a] == old(self).users@[a]);
                            assert(old(self).user_index@.contains_key(old(self).users@[a]@.id));
                            assert(old(self).users@[a]@.id != key) by {
                                if a < i {
                                    assert(old(self).users@[a]@.id != old(self).users@[i as int]@.id);
                                } else {
                                    assert(old(self).users@[i as int]@.id != old(self).users@[a]@.id);
                                }
                            }
                        }
                    }
                    assert forall|a: int, b: int| 0 <= a < b < self.users.len() implies self.users@[a]@.id != self.users@[b]@.id by {
                        assert(self.users@[a]@.id == old(self).users@[a]@.id);
                        assert(self.users@[b]@.id == old(self).users@[b]@.id);
                    }
                }
            },
            None => {
                self.users.push(user);
                self.user_index = Ghost(self.user_index@.insert(key, uv));
                proof {
                    let n = old(self).users.len() as int;
                    assert forall|k: Seq<char>| #[trigger] self.user_index@.contains_key(k) implies exists|j: int|
                        0 <= j < self.users.len() && self.users@[j]@.id == k by {
                        if k != key {
                            let j = choose|j: int| 0 <= j < old(self).users.len() && old(self).users@[j]@.id == k;
                            assert(self.users@[j] == old(self).users@[j]);
                        } else {
                            assert(self.users@[n]@.id == k);
                        }
                    }
                    assert forall|a: int| 0 <= a < self.users.len() implies {
                        &&& #[trigger] self.user_index@.contains_key(self.users@[a]@.id)
                        &&& self.user_index@[self.users@[a]@.id] == self.users@[a]@
                    } by {
                        if a < n {
                            assert(self.users@[a] == old(self).users@[a]);
                            assert(old(self).user_index@.contains_key(old(self).users@[a]@.id));
                        }
                    }
                    assert forall|a: int, b: int| 0 <= a < b < self.users.len() implies self.users@[a]@.id != self.users@[b]@.id by {
                        assert(self.users@[a] == old(self).users@[a]);
                        if b < n {
                            assert(self.users@[b] == old(self).users@[b]);
                        } else {
                            assert(old(self).user_index@.contains_key(old(self).users@[a]@.id));
                        }
                    }
                }
            },
        }
    }

    /// Stores a new post under `id`, published at `published_at`, where no
    /// post has that id yet; leaves the store as it was where one has.
    pub fn add_post(
        &mut self,
        id: String,
        title: String,
        body: String,
        tags: Vec<String>,
        author_id: String,
        published_at: Timestamp,
    ) -> (r: Option<Post>)
        requires
            old(self).wf(),
        ensures
            final(self).wf(),
            final(self).user_map() == old(self).user_map(),
            r is Some <==> !old(self).post_map().contains_key(id@),
            match r {
                Some(p) => {
                    &&& p@ == (PostView {
                        id: id@,
                        title: title@,
                        author_id: author_id@,
                        body: body@,
                        tags: crate::model::strings_view(tags@),
                        published_at,
                    })
                    &&& final(self).post_map() == old(self).post_map().insert(id@, p@)
                },
                None => final(self).post_map() == old(self).post_map(),
            },
    {
        if self.find_post(&id).is_some() {
            return None;
        }
        let post = Post::published(id, title, author_id, body, tags, published_at);
        let copy = post.clone();
        self.put_post(post);
        Some(copy)
    }

    /// Stores the seed data: two users, and one post by each of them.
    pub fn init_data(&mut self)
        requires
            old(self).wf(),
        ensures
            final(self).wf(),
            final(self).user_map() == old(self).user_map().insert("1"@, first_seed_user()).insert(
                "2"@,
                second_seed_user(),
            ),
            exists|a: PostView, b: PostView|
                {
                    &&& is_first_seed_post(a)
                    &&& is_second_seed_post(b)
                    &&& final(self).post_map() == old(self).post_map().insert("1"@, a).insert("2"@, b)
                },
    {
        let user1 = User::new(
            "1".to_string(),
            "テストユーザー1".to_string(),
            Some("https://i.pravatar.cc/150?img=1".to_string()),
        );
        let user2 = User::new(
            "2".to_string(),
            "テストユーザー2".to_string(),
            Some("https://i.pravatar.cc/150?img=2".to_string()),
        );
        let first_author = user1.id.clone();
        let second_author = user2.id.clone();
        self.put_user(user1);
        self.put_user(user2);

        let post1 = Post::new(
            "1".to_string(),
            "GraphQL学習".to_string(),
            first_author,
            "GraphQLはクエリ言語です。".to_string(),
            vec!["GraphQL".to_string(), "入門".to_string()],
        );
        let post2 = Post::new(
            "2".to_string(),
            "RustでWebアプリ作成".to_string(),
            second_author,
            "Actix-webを使ったWebアプリケーション開発を行っています。".to_string(),
            vec!["Rust".to_string(), "Actix-web".to_string()],
        );
        let ghost a = post1@;
        let ghost b = post2@;
        proof {
            assert(a.tags =~= seq!["GraphQL"@, "入門"@]);
            assert(b.tags =~= seq!["Rust"@, "Actix-web"@]);
        }
        self.put_post(post1);
        self.put_post(post2);
    }
}

impl Default for Store {
    fn default() -> (r: Store)
        ensures
            r.wf(),
            r.post_map() == Map::<Seq<char>, PostView>::empty(),
            r.user_map() == Map::<Seq<char>, UserView>::empty(),
    {
        Store::new()
    }
}

} // verus!
