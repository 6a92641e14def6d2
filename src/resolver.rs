//! The operations of the API on a store: list, look up, create.
use vstd::prelude::*;
use crate::model::{current_time, strings_view, Post, PostView, User};
use crate::store::Store;

verus! {

pub open spec fn post_view_of(r: Option<Post>) -> Option<PostView> {
    match r {
        Some(p) => Some(p@),
        None => None,
    }
}

/// One create on the posts `before`, leaving `after`: `r` is the post it
/// returned, stored under an id that was free, or `None` with nothing changed.
pub open spec fn create_step(
    before: Map<Seq<char>, PostView>,
    after: Map<Seq<char>, PostView>,
    r: Option<PostView>,
) -> bool {
    match r {
        Some(p) => !before.contains_key(p.id) && after == before.insert(p.id, p),
        None => after == before,
    }
}

/// Relies on uuid::Uuid::new_v4 and its `Display`, which writes the
/// hyphenated form of 36 characters.
#[verifier::external_body]
fn random_id() -> (r: String)
    ensures
        r@.len() == 36,
{
    uuid::Uuid::new_v4().to_string()
}

/// Copies of all stored posts, each once, in no promised order.
pub fn get_all_posts(store: &Store) -> (r: Vec<Post>)
    requires
        store.wf(),
    ensures
        r.len() == store.post_map().len(),
        forall|i: int|
            0 <= i < r.len() ==> {
                &&& #[trigger] store.post_map().contains_key(r@[i]@.id)
                &&& store.post_map()[r@[i]@.id] == r@[i]@
            },
        forall|i: int, j: int| 0 <= i < j < r.len() ==> r@[i]@.id != r@[j]@.id,
        r@.map_values(|p: Post| p@) == store.post_list(),
{
    store.all_posts()
}

/// A copy of the post stored under `id`, or `None` where no post has it.
pub fn get_post(store: &Store, id: &String) -> (r: Option<Post>)
    requires
        store.wf(),
    ensures
        match r {
            Some(p) => store.post_map().contains_key(id@) && p@ == store.post_map()[id@],
            None => !store.post_map().contains_key(id@),
        },
{
    store.post(id)
}

/// A copy of the user stored under `id`, or `None` where no user has it.
pub fn get_user(store: &Store, id: &String) -> (r: Option<User>)
    requires
        store.wf(),
    ensures
        match r {
            Some(u) => store.user_map().contains_key(id@) && u@ == store.user_map()[id@],
            None => !store.user_map().contains_key(id@),
        },
{
    store.user(id)
}

/// Stores a new post under a fresh random id of 36 characters, published
/// now. Returns `None`, and leaves the store as it was, only where the id
/// drawn is taken; so a store that holds no id of 36 characters always gets
/// the post.
pub fn create_post(store: &mut Store, title: String, body: String, tags: Vec<String>, author_id: String) -> (r:
    Option<Post>)
    requires
        old(store).wf(),
    ensures
        final(store).wf(),
        final(store).user_map() == old(store).user_map(),
        create_step(old(store).post_map(), final(store).post_map(), post_view_of(r)),
        r is None ==> exists|k: Seq<char>| k.len() == 36 && #[trigger] old(store).post_map().contains_key(k),
        match r {
            Some(p) => {
                &&& p.id@.len() == 36
                &&& !old(store).post_map().contains_key(p.id@)
                &&& p.title@ == title@
                &&& p.body@ == body@
                &&& p@.tags == strings_view(tags@)
                &&& p.author_id@ == author_id@
                &&& p.published_at.wf()
                &&& final(store).post_map() == old(store).post_map().insert(p.id@, p@)
            },
            None => final(store).post_map() == old(store).post_map(),
        },
{
    let ghost before = store.post_map();
    let id = random_id();
    let ghost drawn = id@;
    let now = current_time();
    let r = store.add_post(id, title, body, tags, author_id, now);
    proof {
        if r is None {
            assert(before.contains_key(drawn));
        }
    }
    r
}

} // verus!
