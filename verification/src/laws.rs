//! The laws of the protocol, proved about the spec-level transition
//! functions that the executable operations are verified against.

use vstd::prelude::*;
use crate::addr::derive_of;
use crate::index::{content_sorted, has_content_addr};
use crate::records::NinaError;
use crate::records::HubReleaseAddedV;
use crate::records::PostInitializedViaHubV;
use crate::registry::{artist_at, artist_can_add_release, collaborator_can_add_content};
use crate::state::{
    StateV,
    add_release_outcome,
    add_release_state,
    has_hub_addr,
    has_hub_post_addr,
    has_post_addr,
    has_release_link_addr,
    hub_content_seeds,
    hub_post_seeds,
    hub_seeds,
    post_init_outcome,
    post_seeds,
    release_link_seeds,
};
use crate::text::TEXT_CAPACITY;

verus! {

/// Linking the same release into the same hub twice: where the first call
/// succeeds, the second fails with `DuplicateRecord` — whoever retries it —
/// and leaves the state unchanged.
pub proof fn lemma_add_release_then_duplicate(
    s: StateV,
    hub: Seq<u8>,
    release: Seq<u8>,
    principal: Seq<u8>,
    principal2: Seq<u8>,
)
    requires
        add_release_outcome(s, hub, release, principal) matches Some((s1, r1)) && r1 is Ok,
        artist_can_add_release(s.registry.artists, hub, principal2),
    ensures
        add_release_outcome(s, hub, release, principal) matches Some((s1, r1))
            ==> add_release_outcome(s1, hub, release, principal2) == Some(
                (s1, Err::<HubReleaseAddedV, NinaError>(NinaError::DuplicateRecord)),
            ),
{
    let out = add_release_outcome(s, hub, release, principal);
    match out {
        Option::Some((s1, r1)) => {
            match derive_of(release_link_seeds(hub, release)) {
                Option::Some(addr) => {
                    assert(s1 == add_release_state(s, hub, release, addr));
                    assert(s1.hub_releases[s.hub_releases.len() as int].address == addr);
                    assert(has_release_link_addr(s1.hub_releases, addr));
                },
                Option::None => {
                    assert(false);
                },
            }
        },
        Option::None => {
            assert(false);
        },
    }
}

/// A principal with no artist record for the hub, or whose record has
/// `can_add_release` false, can never link a release: the operation fails
/// with `Unauthorized` and changes nothing, whatever the release.
pub proof fn lemma_add_release_unauthorized(
    s: StateV,
    hub: Seq<u8>,
    release: Seq<u8>,
    principal: Seq<u8>,
)
    requires
        forall|i: int|
            #[trigger] artist_at(s.registry.artists, hub, principal, i)
                ==> !s.registry.artists[i].record.can_add_release,
    ensures
        add_release_outcome(s, hub, release, principal) == Some(
            (s, Err::<HubReleaseAddedV, NinaError>(NinaError::Unauthorized)),
        ),
{
    assert(!artist_can_add_release(s.registry.artists, hub, principal));
}

/// A successful post initialization creates exactly one post, one post link
/// and one content index entry, the content entry's `datetime` equal to the
/// post's `created_at`; nothing else changes, and nothing already stored is
/// touched.
pub proof fn lemma_post_init_exactly_one_each(
    s: StateV,
    handle: Seq<u8>,
    slug: Seq<u8>,
    uri: Seq<u8>,
    principal: Seq<u8>,
    now: i64,
)
    requires
        post_init_outcome(s, handle, slug, uri, principal, now) matches Some((s1, r1))
            && r1 is Ok,
    ensures
        post_init_outcome(s, handle, slug, uri, principal, now) matches Some((s1, r1)) ==> {
            &&& s1.posts.len() == s.posts.len() + 1
            &&& s1.hub_posts.len() == s.hub_posts.len() + 1
            &&& s1.content.len() == s.content.len() + 1
            &&& s1.posts.take(s.posts.len() as int) == s.posts
            &&& s1.hub_posts.take(s.hub_posts.len() as int) == s.hub_posts
            &&& s1.content.take(s.content.len() as int) == s.content
            &&& s1.content.last().record.datetime == s1.posts.last().record.created_at
            &&& s1.content.last().record.child == s1.hub_posts.last().address
            &&& s1.hubs == s.hubs
            &&& s1.registry == s.registry
            &&& s1.releases == s.releases
            &&& s1.hub_releases == s.hub_releases
        },
{
    let out = post_init_outcome(s, handle, slug, uri, principal, now);
    match out {
        Option::Some((s1, r1)) => {
            assert(s1.posts.take(s.posts.len() as int) =~= s.posts);
            assert(s1.hub_posts.take(s.hub_posts.len() as int) =~= s.hub_posts);
            assert(s1.content.take(s.content.len() as int) =~= s.content);
        },
        Option::None => {
            assert(false);
        },
    }
}

/// An overlong slug or uri is refused with `FieldTooLong`, and no record is
/// created — given that the call would otherwise have gone through (the hub
/// resolves and exists, and the principal may add content).
pub proof fn lemma_post_init_overlong_field(
    s: StateV,
    handle: Seq<u8>,
    slug: Seq<u8>,
    uri: Seq<u8>,
    principal: Seq<u8>,
    now: i64,
)
    requires
        derive_of(hub_seeds(handle)) is Some,
        has_hub_addr(s.hubs, derive_of(hub_seeds(handle))->Some_0),
        collaborator_can_add_content(
            s.registry.collaborators,
            derive_of(hub_seeds(handle))->Some_0,
            principal,
        ),
        slug.len() > TEXT_CAPACITY as int || uri.len() > TEXT_CAPACITY as int,
    ensures
        post_init_outcome(s, handle, slug, uri, principal, now) == Some(
            (s, Err::<PostInitializedViaHubV, NinaError>(NinaError::FieldTooLong)),
        ),
{
}

/// Retrying a post initialization with the same handle and slug after a
/// success: the post's address derives identically, so the retry fails with
/// `DuplicateRecord` and the state is unchanged — whatever uri, time or
/// (authorized) principal the retry uses.
pub proof fn lemma_post_init_then_duplicate(
    s: StateV,
    handle: Seq<u8>,
    slug: Seq<u8>,
    uri: Seq<u8>,
    uri2: Seq<u8>,
    principal: Seq<u8>,
    principal2: Seq<u8>,
    now: i64,
    now2: i64,
)
    requires
        post_init_outcome(s, handle, slug, uri, principal, now) matches Some((s1, r1))
            && r1 is Ok,
        collaborator_can_add_content(
            s.registry.collaborators,
            derive_of(hub_seeds(handle))->Some_0,
            principal2,
        ),
        uri2.len() <= TEXT_CAPACITY as int,
    ensures
        post_init_outcome(s, handle, slug, uri, principal, now) matches Some((s1, r1))
            ==> post_init_outcome(s1, handle, slug, uri2, principal2, now2) == Some(
                (s1, Err::<PostInitializedViaHubV, NinaError>(NinaError::DuplicateRecord)),
            ),
{
    let out = post_init_outcome(s, handle, slug, uri, principal, now);
    match out {
        Option::Some((s1, r1)) => {
            let hub = derive_of(hub_seeds(handle))->Some_0;
            match derive_of(post_seeds(hub, slug)) {
                Option::Some(post_addr) => {
                    assert(s1.posts[s.posts.len() as int].address == post_addr);
                    assert(has_post_addr(s1.posts, post_addr));
                    assert(s1.hubs == s.hubs);
                },
                Option::None => {
                    assert(false);
                },
            }
        },
        Option::None => {
            assert(false);
        },
    }
}

/// Linking a release preserves the structural invariants of the graph.
pub proof fn lemma_add_release_preserves_wf(
    s: StateV,
    hub: Seq<u8>,
    release: Seq<u8>,
    principal: Seq<u8>,
)
    requires
        s.wf(),
        add_release_outcome(s, hub, release, principal) is Some,
    ensures
        add_release_outcome(s, hub, release, principal) matches Some((s1, r1)) ==> s1.wf(),
{
    let out = add_release_outcome(s, hub, release, principal);
    match out {
        Option::Some((s1, r1)) => {
            if r1 is Ok {
                let addr = derive_of(release_link_seeds(hub, release))->Some_0;
                assert forall|i: int, j: int|
                    0 <= i < s1.hub_releases.len() && 0 <= j < s1.hub_releases.len() && i != j
                        implies (#[trigger] s1.hub_releases[i]).address
                    != (#[trigger] s1.hub_releases[j]).address by {
                    if i == s.hub_releases.len() {
                        assert(s1.hub_releases[j] == s.hub_releases[j]);
                        assert(!has_release_link_addr(s.hub_releases, addr)
                            ==> s.hub_releases[j].address != addr);
                    } else if j == s.hub_releases.len() {
                        assert(s1.hub_releases[i] == s.hub_releases[i]);
                    }
                }
                assert forall|i: int|
                    0 <= i < s1.content.len() implies has_hub_post_addr(
                    s1.hub_posts,
                    (#[trigger] s1.content[i]).record.child,
                ) by {
                    assert(s1.content[i] == s.content[i]);
                }
            }
        },
        Option::None => {
        },
    }
}

/// Initializing a post preserves the structural invariants of the graph.
pub proof fn lemma_post_init_preserves_wf(
    s: StateV,
    handle: Seq<u8>,
    slug: Seq<u8>,
    uri: Seq<u8>,
    principal: Seq<u8>,
    now: i64,
)
    requires
        s.wf(),
        post_init_outcome(s, handle, slug, uri, principal, now) is Some,
    ensures
        post_init_outcome(s, handle, slug, uri, principal, now) matches Some((s1, r1))
            ==> s1.wf(),
{
    let out = post_init_outcome(s, handle, slug, uri, principal, now);
    match out {
        Option::Some((s1, r1)) => {
            if r1 is Ok {
                let hub = derive_of(hub_seeds(handle))->Some_0;
                let post_addr = derive_of(post_seeds(hub, slug))->Some_0;
                let hub_post_addr = derive_of(hub_post_seeds(hub, post_addr))->Some_0;
                let content_addr = derive_of(hub_content_seeds(hub, post_addr))->Some_0;
                assert forall|i: int, j: int|
                    0 <= i < s1.posts.len() && 0 <= j < s1.posts.len() && i != j
                        implies (#[trigger] s1.posts[i]).address
                    != (#[trigger] s1.posts[j]).address by {
                    if i == s.posts.len() {
                        assert(s1.posts[j] == s.posts[j]);
                        assert(!has_post_addr(s.posts, post_addr) ==> s.posts[j].address
                            != post_addr);
                    } else if j == s.posts.len() {
                        assert(s1.posts[i] == s.posts[i]);
                    }
                }
                assert forall|i: int, j: int|
                    0 <= i < s1.hub_posts.len() && 0 <= j < s1.hub_posts.len() && i != j
                        implies (#[trigger] s1.hub_posts[i]).address
                    != (#[trigger] s1.hub_posts[j]).address by {
                    if i == s.hub_posts.len() {
                        assert(s1.hub_posts[j] == s.hub_posts[j]);
                        assert(!has_hub_post_addr(s.hub_posts, hub_post_addr)
                            ==> s.hub_posts[j].address != hub_post_addr);
                    } else if j == s.hub_posts.len() {
                        assert(s1.hub_posts[i] == s.hub_posts[i]);
                    }
                }
                assert forall|i: int, j: int|
                    0 <= i < s1.content.len() && 0 <= j < s1.content.len() && i != j
                        implies (#[trigger] s1.content[i]).address
                    != (#[trigger] s1.content[j]).address by {
                    if i == s.content.len() {
                        assert(s1.content[j] == s.content[j]);
                        assert(!has_content_addr(s.content, content_addr)
                            ==> s.content[j].address != content_addr);
                    } else if j == s.content.len() {
                        assert(s1.content[i] == s.content[i]);
                    }
                }
                assert forall|i: int|
                    0 <= i < s1.content.len() implies has_hub_post_addr(
                    s1.hub_posts,
                    (#[trigger] s1.content[i]).record.child,
                ) by {
                    if i < s.content.len() {
                        assert(s1.content[i] == s.content[i]);
                        assert(has_hub_post_addr(s.hub_posts, s.content[i].record.child));
                        let w = choose|k: int|
                            0 <= k < s.hub_posts.len() && (#[trigger] s.hub_posts[k]).address
                                == s.content[i].record.child;
                        assert(s1.hub_posts[w].address == s.content[i].record.child);
                    } else {
                        assert(s1.content[i].record.child == hub_post_addr);
                        assert(s1.hub_posts[s.hub_posts.len() as int].address == hub_post_addr);
                    }
                }
            }
        },
        Option::None => {
        },
    }
}

/// The content index is append-only: whatever a post initialization returns,
/// the old index is a prefix of the new one — nothing indexed is ever
/// rewritten or removed. The same holds of linking a release, which never
/// touches the index at all.
pub proof fn lemma_content_index_append_only(
    s: StateV,
    handle: Seq<u8>,
    slug: Seq<u8>,
    uri: Seq<u8>,
    principal: Seq<u8>,
    now: i64,
)
    requires
        post_init_outcome(s, handle, slug, uri, principal, now) is Some,
    ensures
        post_init_outcome(s, handle, slug, uri, principal, now) matches Some((s1, r1))
            ==> s1.content.take(s.content.len() as int) == s.content,
{
    let out = post_init_outcome(s, handle, slug, uri, principal, now);
    match out {
        Option::Some((s1, r1)) => {
            assert(s1.content.take(s.content.len() as int) =~= s.content);
        },
        Option::None => {
        },
    }
}

/// The content index stays ordered by timestamp: appending a publish event
/// stamped no earlier than everything already indexed keeps the index
/// sorted, so the publish order of a hub can be read back from it. The
/// reference clock is monotonic, so every append is so stamped.
pub proof fn lemma_content_index_stays_ordered(
    s: StateV,
    handle: Seq<u8>,
    slug: Seq<u8>,
    uri: Seq<u8>,
    principal: Seq<u8>,
    now: i64,
)
    requires
        content_sorted(s.content),
        forall|i: int|
            0 <= i < s.content.len() ==> (#[trigger] s.content[i]).record.datetime <= now,
        post_init_outcome(s, handle, slug, uri, principal, now) is Some,
    ensures
        post_init_outcome(s, handle, slug, uri, principal, now) matches Some((s1, r1))
            ==> content_sorted(s1.content),
{
    let out = post_init_outcome(s, handle, slug, uri, principal, now);
    match out {
        Option::Some((s1, r1)) => {
            if r1 is Ok {
                assert forall|i: int, j: int|
                    0 <= i <= j < s1.content.len() implies (#[trigger] s1.content[i]).record.datetime
                    <= (#[trigger] s1.content[j]).record.datetime by {
                    if j < s.content.len() {
                        assert(s1.content[i] == s.content[i]);
                        assert(s1.content[j] == s.content[j]);
                    } else {
                        assert(s1.content[j].record.datetime == now);
                        if i < s.content.len() {
                            assert(s1.content[i] == s.content[i]);
                        }
                    }
                }
            }
        },
        Option::None => {
        },
    }
}

/// Linking a release never touches the content index, the posts, or the
/// post links: only the release link table can grow.
pub proof fn lemma_add_release_touches_only_links(
    s: StateV,
    hub: Seq<u8>,
    release: Seq<u8>,
    principal: Seq<u8>,
)
    requires
        add_release_outcome(s, hub, release, principal) is Some,
    ensures
        add_release_outcome(s, hub, release, principal) matches Some((s1, r1)) ==> {
            &&& s1.content == s.content
            &&& s1.posts == s.posts
            &&& s1.hub_posts == s.hub_posts
            &&& s1.hubs == s.hubs
            &&& s1.registry == s.registry
            &&& s1.releases == s.releases
        },
{
}

} // verus!
