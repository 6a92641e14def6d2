//! The shapes that the API hands out and takes in, and the fields of its
//! query and mutation roots.
use vstd::prelude::*;
use crate::model::{opt_view, strings_view, Post, PostView, Timestamp, User, UserView};
use crate::resolver::{create_post, get_all_posts, get_post, get_user};
use crate::store::Store;

verus! {

/// What a request to create a post carries. Tags may be left out.
pub struct CreatePostInput {
    pub title: String,
    pub body: String,
    pub tags: Option<Vec<String>>,
    pub author_id: String,
}

/// A user as the API shows it.
#[derive(Debug)]
pub struct UserType {
    pub id: String,
    pub name: String,
    pub avatar_url: Option<String>,
}

impl View for UserType {
    type V = UserView;

    open spec fn view(&self) -> UserView {
        UserView { id: self.id@, name: self.name@, avatar_url: opt_view(self.avatar_url) }
    }
}

/// A post as the API shows it; its author is looked up on demand.
#[derive(Debug)]
pub struct PostType {
    pub id: String,
    pub title: String,
    pub body: String,
    pub tags: Vec<String>,
    pub published_at: Timestamp,
    pub author_id: String,
}

impl View for PostType {
    type V = PostView;

    open spec fn view(&self) -> PostView {
        PostView {
            id: self.id@,
            title: self.title@,
            author_id: self.author_id@,
            body: self.body@,
            tags: strings_view(self.tags@),
            published_at: self.published_at,
        }
    }
}

impl From<User> for UserType {
    fn from(user: User) -> (r: UserType) {
        UserType { id: user.id, name: user.name, avatar_url: user.avatar_url }
    }
}

impl vstd::std_specs::convert::FromSpecImpl<User> for UserType {
    open spec fn obeys_from_spec() -> bool {
        true
    }

    open spec fn from_spec(user: User) -> UserType {
        UserType { id: user.id, name: user.name, avatar_url: user.avatar_url }
    }
}

impl From<Post> for PostType {
    fn from(post: Post) -> (r: PostType) {
        PostType {
            id: post.id,
            title: post.title,
            body: post.body,
            tags: post.tags,
            published_at: post.published_at,
            author_id: post.author_id,
        }
    }
}

impl vstd::std_specs::convert::FromSpecImpl<Post> for PostType {
    open spec fn obeys_from_spec() -> bool {
        true
    }

    open spec fn from_spec(post: Post) -> PostType {
        PostType {
            id: post.id,
            title: post.title,
            body: post.body,
            tags: post.tags,
            published_at: post.published_at,
            author_id: post.author_id,
        }
    }
}

impl PostType {
    /// The user whom `author_id` names, or `None` where no stored user has
    /// that id.
    pub fn author(&self, store: &Store) -> (r: Option<UserType>)
        requires
            store.wf(),
        ensures
            match r {
                Some(u) => store.user_map().contains_key(self.author_id@) && u@ == store.user_map()[self.author_id@],
                None => !store.user_map().contains_key(self.author_id@),
            },
    {
        match get_user(store, &self.author_id) {
            Some(user) => Some(UserType::from(user)),
            None => None,
        }
    }
}

/// The root of the read-only fields.
pub struct Query;

impl Query {
    /// All stored posts, each once, in no promised order.
    pub fn posts(&self, store: &Store) -> (r: Vec<PostType>)
        requires
            store.wf(),
        ensures
            r.len() == store.post_map().len(),
            forall|i: int|
                0 <= i < r.len() ==> {
                    &&& #[trigger] store.post_map().contains_key(r@[i]@.id)
                    &&& store.post_map()[r@[i]@.id] == r@[i]@
                },
            forall|i: int, j: int| 0 <= i < j < r.len() ==> r@[i]@.id != r@[j]@.id,
            r@.map_values(|p: PostType| p@) == store.post_list(),
    {
        let mut posts = get_all_posts(store);
        let ghost all = posts@;
        let mut r: Vec<PostType> = Vec::new();
        let mut i: usize = 0;
        let n = posts.len();
        while i < n
            invariant
                i <= n,
                n == all.len(),
                n == store.post_map().len(),
                forall|j: int|
                    0 <= j < n ==> {
                        &&& #[trigger] store.post_map().contains_key(all[j]@.id)
                        &&& store.post_map()[all[j]@.id] == all[j]@
                    },
                forall|j: int, k: int| 0 <= j < k < n ==> all[j]@.id != all[k]@.id,
                all.map_values(|p: Post| p@) == store.post_list(),
                posts@ == all.subrange(i as int, n as int),
                r.len() == i,
                forall|j: int| 0 <= j < i ==> #[trigger] r@[j]@ == all[j]@,
            decreases n - i,
        {
            let post = posts.remove(0);
            proof {
                assert(post == all[i as int]);
                assert(posts@ =~= all.subrange(i + 1, n as int));
            }
            r.push(PostType::from(post));
            i = i + 1;
        }
        proof {
            assert forall|a: int| 0 <= a < r.len() implies {
                &&& #[trigger] store.post_map().contains_key(r@[a]@.id)
                &&& store.post_map()[r@[a]@.id] == r@[a]@
            } by {
                assert(r@[a]@ == all[a]@);
            }
            assert forall|a: int, b: int| 0 <= a < b < r.len() implies r@[a]@.id != r@[b]@.id by {
                assert(r@[a]@ == all[a]@);
                assert(r@[b]@ == all[b]@);
            }
            assert(r@.map_values(|p: PostType| p@) =~= all.map_values(|p: Post| p@));
        }
        r
    }

    /// The post stored under `id`, or `None` where no post has it.
    pub fn post(&self, store: &Store, id: String) -> (r: Option<PostType>)
        requires
            store.wf(),
        ensures
            match r {
                Some(p) => store.post_map().contains_key(id@) && p@ == store.post_map()[id@],
                None => !store.post_map().contains_key(id@),
            },
    {
        match get_post(store, &id) {
            Some(post) => Some(PostType::from(post)),
            None => None,
        }
    }

    /// The user stored under `id`, or `None` where no user has it.
    pub fn user(&self, store: &Store, id: String) -> (r: Option<UserType>)
        requires
            store.wf(),
        ensures
            match r {
                Some(u) => store.user_map().contains_key(id@) && u@ == store.user_map()[id@],
                None => !store.user_map().contains_key(id@),
            },
    {
        match get_user(store, &id) {
            Some(user) => Some(UserType::from(user)),
            None => None,
        }
    }
}

/// The root of the fields that change the store.
pub struct Mutation;

impl Mutation {
    /// Creates a post from `input`, with no tags where it gives none.
    /// Returns `None`, and leaves the store as it was, only where the random
    /// id of 36 characters drawn for it is taken.
    pub fn create_post(&self, store: &mut Store, input: CreatePostInput) -> (r: Option<PostType>)
        requires
            old(store).wf(),
        ensures
            final(store).wf(),
            final(store).user_map() == old(store).user_map(),
            r is None ==> exists|k: Seq<char>| k.len() == 36 && #[trigger] old(store).post_map().contains_key(k),
            match r {
                Some(p) => {
                    &&& p.id@.len() == 36
                    &&& !old(store).post_map().contains_key(p.id@)
                    &&& p.title@ == input.title@
                    &&& p.body@ == input.body@
                    &&& p@.tags == match input.tags {
                        Some(t) => strings_view(t@),
                        None => Seq::<Seq<char>>::empty(),
                    }
                    &&& p.author_id@ == input.author_id@
                    &&& p.published_at.wf()
                    &&& final(store).post_map() == old(store).post_map().insert(p.id@, p@)
                },
                None => final(store).post_map() == old(store).post_map(),
            },
    {
        let tags = match input.tags {
            Some(t) => t,
            None => Vec::new(),
        };
        proof {
            assert(strings_view(Seq::<String>::empty()) =~= Seq::<Seq<char>>::empty());
        }
        match create_post(store, input.title, input.body, tags, input.author_id) {
            Some(post) => Some(PostType::from(post)),
            None => None,
        }
    }
}

} // verus!
