//! Properties that relate several calls of the API.
use vstd::prelude::*;
use crate::model::{Post, PostView, User};
use crate::resolver::{create_step, get_all_posts, get_post, get_user, post_view_of};
use crate::store::Store;

verus! {

/// Looking a post up twice in a store that did not change in between gives
/// the same answer both times.
pub proof fn law_repeated_get_post(store: Store, id: String, a: Option<Post>, b: Option<Post>)
    requires
        store.wf(),
        call_ensures(get_post, (&store, &id), a),
        call_ensures(get_post, (&store, &id), b),
    ensures
        a is Some <==> b is Some,
        a is Some ==> a.unwrap()@ == b.unwrap()@,
{
}

/// Looking a user up twice in a store that did not change in between gives
/// the same answer both times.
pub proof fn law_repeated_get_user(store: Store, id: String, a: Option<User>, b: Option<User>)
    requires
        store.wf(),
        call_ensures(get_user, (&store, &id), a),
        call_ensures(get_user, (&store, &id), b),
    ensures
        a is Some <==> b is Some,
        a is Some ==> a.unwrap()@ == b.unwrap()@,
{
}

/// Listing the posts twice in a store that did not change in between gives
/// the same posts in the same order.
pub proof fn law_repeated_get_all_posts(store: Store, a: Vec<Post>, b: Vec<Post>)
    requires
        store.wf(),
        call_ensures(get_all_posts, (&store,), a),
        call_ensures(get_all_posts, (&store,), b),
    ensures
        a@.map_values(|p: Post| p@) == b@.map_values(|p: Post| p@),
{
}

/// After a create that returned `created`, looking up its id gives exactly
/// the post created.
pub proof fn law_get_after_create(before: Store, after: Store, created: PostView, id: String, r: Option<Post>)
    requires
        after.wf(),
        create_step(before.post_map(), after.post_map(), Some(created)),
        id@ == created.id,
        call_ensures(get_post, (&after, &id), r),
    ensures
        r is Some,
        r.unwrap()@ == created,
{
}

/// How many of the creates in `rs` returned a post.
pub open spec fn successes(rs: Seq<Option<PostView>>) -> nat
    decreases rs.len(),
{
    if rs.len() == 0 {
        0
    } else {
        successes(rs.drop_last()) + if rs.last() is Some {
            1nat
        } else {
            0nat
        }
    }
}

/// `maps` are the posts before and after each create of a run, one after
/// another, and `rs` what each create returned.
pub open spec fn is_create_run(maps: Seq<Map<Seq<char>, PostView>>, rs: Seq<Option<PostView>>) -> bool {
    &&& maps.len() == rs.len() + 1
    &&& forall|i: int| 0 <= i < rs.len() ==> create_step(maps[i], maps[i + 1], #[trigger] rs[i])
}

/// Over any run of creates, which is how the store serialises concurrent
/// ones: the posts created have ids that are distinct from each other and
/// from every id there before; each stays stored as created; an id that no
/// create returned and that was not there before is absent; what was there
/// before is kept; and the number of posts grows by the number of creates
/// that returned a post.
pub proof fn law_create_run(maps: Seq<Map<Seq<char>, PostView>>, rs: Seq<Option<PostView>>)
    requires
        is_create_run(maps, rs),
        maps[0].dom().finite(),
    ensures
        maps.last().dom().finite(),
        maps.last().len() == maps[0].len() + successes(rs),
        forall|i: int, j: int|
            0 <= i < j < rs.len() && rs[i] is Some && rs[j] is Some ==> #[trigger] rs[i].unwrap().id
                != #[trigger] rs[j].unwrap().id,
        forall|i: int|
            0 <= i < rs.len() && #[trigger] rs[i] is Some ==> {
                &&& !maps[0].contains_key(rs[i].unwrap().id)
                &&& maps.last().contains_key(rs[i].unwrap().id)
                &&& maps.last()[rs[i].unwrap().id] == rs[i].unwrap()
            },
        forall|k: Seq<char>|
            #[trigger] maps.last().contains_key(k) <==> (maps[0].contains_key(k) || exists|i: int|
                0 <= i < rs.len() && rs[i] is Some && rs[i].unwrap().id == k),
        forall|k: Seq<char>| #[trigger] maps[0].contains_key(k) ==> maps.last()[k] == maps[0][k],
        (forall|i: int| 0 <= i < rs.len() ==> #[trigger] rs[i] is Some) ==> successes(rs) == rs.len(),
    decreases rs.len(),
{
    let n = rs.len() as int;
    if n > 0 {
        let pm = maps.subrange(0, n);
        let pr = rs.subrange(0, n - 1);
        assert forall|i: int| 0 <= i < pr.len() implies create_step(pm[i], pm[i + 1], #[trigger] pr[i]) by {
            assert(create_step(maps[i], maps[i + 1], rs[i]));
        }
        law_create_run(pm, pr);
        assert(pr =~= rs.drop_last());
        if forall|i: int| 0 <= i < rs.len() ==> #[trigger] rs[i] is Some {
            assert forall|i: int| 0 <= i < pr.len() implies #[trigger] pr[i] is Some by {
                assert(rs[i] is Some);
            }
            assert(rs[n - 1] is Some);
        }
        let prev = maps[n - 1];
        assert(pm.last() == prev);
        assert(pm[0] == maps[0]);
        assert(create_step(maps[n - 1], maps[n], rs[n - 1]));
        assert forall|i: int| 0 <= i < n - 1 implies #[trigger] rs[i] == pr[i] by {}
        match rs[n - 1] {
            Some(p) => {
                assert(!prev.contains_key(p.id));
                assert(maps.last() == prev.insert(p.id, p));
                assert(maps.last().dom() =~= prev.dom().insert(p.id));
                assert forall|i: int| 0 <= i < rs.len() && #[trigger] rs[i] is Some implies {
                    &&& !maps[0].contains_key(rs[i].unwrap().id)
                    &&& maps.last().contains_key(rs[i].unwrap().id)
                    &&& maps.last()[rs[i].unwrap().id] == rs[i].unwrap()
                } by {
                    if i < n - 1 {
                        assert(pr[i] is Some);
                        assert(prev.contains_key(pr[i].unwrap().id));
                    } else {
                        if maps[0].contains_key(p.id) {
                            assert(prev.contains_key(p.id));
                        }
                    }
                }
                assert forall|i: int, j: int|
                    0 <= i < j < rs.len() && rs[i] is Some && rs[j] is Some implies #[trigger] rs[i].unwrap().id
                        != #[trigger] rs[j].unwrap().id by {
                    assert(pr[i] is Some);
                    if j < n - 1 {
                        assert(pr[j] is Some);
                    } else {
                        assert(prev.contains_key(pr[i].unwrap().id));
                    }
                }
                assert forall|k: Seq<char>|
                    #[trigger] maps.last().contains_key(k) <==> (maps[0].contains_key(k) || exists|i: int|
                        0 <= i < rs.len() && rs[i] is Some && rs[i].unwrap().id == k) by {
                    if k == p.id {
                        assert(rs[n - 1] is Some && rs[n - 1].unwrap().id == k);
                    } else if exists|i: int| 0 <= i < rs.len() && rs[i] is Some && rs[i].unwrap().id == k {
                        let i = choose|i: int| 0 <= i < rs.len() && rs[i] is Some && rs[i].unwrap().id == k;
                        assert(i < n - 1);
                        assert(pr[i] is Some && pr[i].unwrap().id == k);
                    } else if prev.contains_key(k) && !maps[0].contains_key(k) {
                        let i = choose|i: int| 0 <= i < pr.len() && pr[i] is Some && pr[i].unwrap().id == k;
                        assert(rs[i] == pr[i]);
                    }
                }
                assert forall|k: Seq<char>| #[trigger] maps[0].contains_key(k) implies maps.last()[k] == maps[0][k] by {
                    assert(prev.contains_key(k));
                }
            },
            None => {
                assert(maps.last() == prev);
                assert forall|i: int, j: int|
                    0 <= i < j < rs.len() && rs[i] is Some && rs[j] is Some implies #[trigger] rs[i].unwrap().id
                        != #[trigger] rs[j].unwrap().id by {
                    assert(pr[i] is Some);
                    assert(pr[j] is Some);
                }
                assert forall|i: int| 0 <= i < rs.len() && #[trigger] rs[i] is Some implies {
                    &&& !maps[0].contains_key(rs[i].unwrap().id)
                    &&& maps.last().contains_key(rs[i].unwrap().id)
                    &&& maps.last()[rs[i].unwrap().id] == rs[i].unwrap()
                } by {
                    assert(pr[i] is Some);
                }
                assert forall|k: Seq<char>|
                    #[trigger] maps.last().contains_key(k) <==> (maps[0].contains_key(k) || exists|i: int|
                        0 <= i < rs.len() && rs[i] is Some && rs[i].unwrap().id == k) by {
                    if exists|i: int| 0 <= i < rs.len() && rs[i] is Some && rs[i].unwrap().id == k {
                        let i = choose|i: int| 0 <= i < rs.len() && rs[i] is Some && rs[i].unwrap().id == k;
                        assert(pr[i] is Some && pr[i].unwrap().id == k);
                    } else if prev.contains_key(k) && !maps[0].contains_key(k) {
                        let i = choose|i: int| 0 <= i < pr.len() && pr[i] is Some && pr[i].unwrap().id == k;
                        assert(rs[i] == pr[i]);
                    }
                }
            },
        }
    }
}

/// `stores` are the store before and after each call of `create_post` in a
/// run, and `results` what each call returned: each step is the one that
/// `create_post` ensures of its store.
pub open spec fn is_create_post_run(stores: Seq<Store>, results: Seq<Option<Post>>) -> bool {
    &&& stores.len() == results.len() + 1
    &&& forall|i: int| 0 <= i < stores.len() ==> (#[trigger] stores[i]).wf()
    &&& forall|i: int|
        0 <= i < results.len() ==> create_step(
            stores[i].post_map(),
            stores[i + 1].post_map(),
            post_view_of(#[trigger] results[i]),
        )
}

/// Over any run of calls of `create_post`, which is how the store serialises
/// concurrent ones: the posts returned have ids that are distinct from each
/// other and from every id stored before; each is still stored as returned
/// at the end; and the number of posts grows by the number of calls that
/// returned a post, so by the number of calls where all of them did.
pub proof fn law_create_post_run(stores: Seq<Store>, results: Seq<Option<Post>>)
    requires
        is_create_post_run(stores, results),
    ensures
        forall|i: int, j: int|
            0 <= i < j < results.len() && results[i] is Some && results[j] is Some ==> (
            #[trigger] results[i]).unwrap().id@ != (#[trigger] results[j]).unwrap().id@,
        forall|i: int|
            0 <= i < results.len() && #[trigger] results[i] is Some ==> {
                &&& !stores[0].post_map().contains_key(results[i].unwrap().id@)
                &&& stores.last().post_map().contains_key(results[i].unwrap().id@)
                &&& stores.last().post_map()[results[i].unwrap().id@] == results[i].unwrap()@
            },
        stores.last().post_map().len() == stores[0].post_map().len() + successes(
            results.map_values(|r: Option<Post>| post_view_of(r)),
        ),
        (forall|i: int| 0 <= i < results.len() ==> #[trigger] results[i] is Some) ==> stores.last().post_map().len()
            == stores[0].post_map().len() + results.len(),
{
    let maps = stores.map_values(|s: Store| s.post_map());
    let rs = results.map_values(|r: Option<Post>| post_view_of(r));
    assert(stores[0].wf());
    stores[0].lemma_posts_finite();
    assert forall|i: int| 0 <= i < rs.len() implies create_step(maps[i], maps[i + 1], #[trigger] rs[i]) by {
        assert(create_step(stores[i].post_map(), stores[i + 1].post_map(), post_view_of(results[i])));
    }
    law_create_run(maps, rs);
    assert(maps.last() == stores.last().post_map());
    assert forall|i: int| 0 <= i < results.len() && #[trigger] results[i] is Some implies {
        &&& !stores[0].post_map().contains_key(results[i].unwrap().id@)
        &&& stores.last().post_map().contains_key(results[i].unwrap().id@)
        &&& stores.last().post_map()[results[i].unwrap().id@] == results[i].unwrap()@
    } by {
        assert(rs[i] is Some);
    }
    assert forall|i: int, j: int|
        0 <= i < j < results.len() && results[i] is Some && results[j] is Some implies (
        #[trigger] results[i]).unwrap().id@ != (#[trigger] results[j]).unwrap().id@ by {
        assert(rs[i] is Some && rs[j] is Some);
    }
    if forall|i: int| 0 <= i < results.len() ==> #[trigger] results[i] is Some {
        assert forall|i: int| 0 <= i < rs.len() implies #[trigger] rs[i] is Some by {
            assert(results[i] is Some);
        }
    }
}

/// After any run of calls of `create_post`, looking up the id of a post that
/// one of them returned gives exactly that post.
pub proof fn law_get_after_create_post_run(
    stores: Seq<Store>,
    results: Seq<Option<Post>>,
    i: int,
    id: String,
    found: Option<Post>,
)
    requires
        is_create_post_run(stores, results),
        0 <= i < results.len(),
        results[i] is Some,
        id@ == results[i].unwrap().id@,
        call_ensures(get_post, (&stores.last(), &id), found),
    ensures
        found is Some,
        found.unwrap()@ == results[i].unwrap()@,
{
    law_create_post_run(stores, results);
}

} // verus!
