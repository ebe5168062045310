//! The hub graph state and the relationship factory.
//!
//! `HubState` models everything the protocol writes: hubs, known releases,
//! release links, posts, post links and the content index, together with the
//! membership registry. The two factory operations — linking a release into
//! a hub, and initializing a post through a hub — validate the acting
//! principal's capability, derive the new records' addresses, refuse
//! duplicates, and append the new records. Each operation is all-or-nothing:
//! on any error the state is unchanged.
//!
//! The exact behaviour of each operation is a spec-level transition function
//! (`add_release_outcome`, `post_init_outcome`); the executable methods are
//! proved to implement it, and the laws are proved about it.

use vstd::prelude::*;
use crate::addr::{Address, derive_address, derive_of, tagged_seeds, bytes_views};
use crate::index::{ContentIndex, ContentEntry, ContentEntryV, has_content_addr};
use crate::records::{
    Hub,
    HubV,
    HubContent,
    HubContentType,
    HubContentV,
    HubPost,
    HubPostV,
    HubRelease,
    HubReleaseV,
    HubReleaseAdded,
    HubReleaseAddedV,
    NinaError,
    Post,
    PostV,
    PostInitializedViaHub,
    PostInitializedViaHubV,
};
use crate::registry::{
    MembershipRegistry,
    RegistryV,
    artist_can_add_release,
    collaborator_can_add_content,
};
use crate::text::{BoundedText, TEXT_CAPACITY};

verus! {

// ---------------------------------------------------------------------------
// Namespace tags
// ---------------------------------------------------------------------------

/// The namespace tag of hub records ("nina-hub").
pub open spec fn hub_tag() -> Seq<u8> {
    seq![110u8, 105u8, 110u8, 97u8, 45u8, 104u8, 117u8, 98u8]
}

/// The namespace tag of release link records ("nina-hub-release").
pub open spec fn hub_release_tag() -> Seq<u8> {
    seq![
        110u8,
        105u8,
        110u8,
        97u8,
        45u8,
        104u8,
        117u8,
        98u8,
        45u8,
        114u8,
        101u8,
        108u8,
        101u8,
        97u8,
        115u8,
        101u8,
    ]
}

/// The namespace tag of post records ("nina-post").
pub open spec fn post_tag() -> Seq<u8> {
    seq![110u8, 105u8, 110u8, 97u8, 45u8, 112u8, 111u8, 115u8, 116u8]
}

/// The namespace tag of post link records ("nina-hub-post").
pub open spec fn hub_post_tag() -> Seq<u8> {
    seq![110u8, 105u8, 110u8, 97u8, 45u8, 104u8, 117u8, 98u8, 45u8, 112u8, 111u8, 115u8, 116u8]
}

/// The namespace tag of content index records ("nina-hub-content").
pub open spec fn hub_content_tag() -> Seq<u8> {
    seq![
        110u8,
        105u8,
        110u8,
        97u8,
        45u8,
        104u8,
        117u8,
        98u8,
        45u8,
        99u8,
        111u8,
        110u8,
        116u8,
        101u8,
        110u8,
        116u8,
    ]
}

fn hub_tag_vec() -> (v: Vec<u8>)
    ensures
        v@ == hub_tag(),
{
    let a: [u8; 8] = [110u8, 105u8, 110u8, 97u8, 45u8, 104u8, 117u8, 98u8];
    let v = vstd::slice::slice_to_vec(a.as_slice());
    proof {
        assert(v@ =~= hub_tag());
    }
    v
}

fn hub_release_tag_vec() -> (v: Vec<u8>)
    ensures
        v@ == hub_release_tag(),
{
    let a: [u8; 16] = [
        110u8,
        105u8,
        110u8,
        97u8,
        45u8,
        104u8,
        117u8,
        98u8,
        45u8,
        114u8,
        101u8,
        108u8,
        101u8,
        97u8,
        115u8,
        101u8,
    ];
    let v = vstd::slice::slice_to_vec(a.as_slice());
    proof {
        assert(v@ =~= hub_release_tag());
    }
    v
}

fn post_tag_vec() -> (v: Vec<u8>)
    ensures
        v@ == post_tag(),
{
    let a: [u8; 9] = [110u8, 105u8, 110u8, 97u8, 45u8, 112u8, 111u8, 115u8, 116u8];
    let v = vstd::slice::slice_to_vec(a.as_slice());
    proof {
        assert(v@ =~= post_tag());
    }
    v
}

fn hub_post_tag_vec() -> (v: Vec<u8>)
    ensures
        v@ == hub_post_tag(),
{
    let a: [u8; 13] = [
        110u8,
        105u8,
        110u8,
        97u8,
        45u8,
        104u8,
        117u8,
        98u8,
        45u8,
        112u8,
        111u8,
        115u8,
        116u8,
    ];
    let v = vstd::slice::slice_to_vec(a.as_slice());
    proof {
        assert(v@ =~= hub_post_tag());
    }
    v
}

fn hub_content_tag_vec() -> (v: Vec<u8>)
    ensures
        v@ == hub_content_tag(),
{
    let a: [u8; 16] = [
        110u8,
        105u8,
        110u8,
        97u8,
        45u8,
        104u8,
        117u8,
        98u8,
        45u8,
        99u8,
        111u8,
        110u8,
        116u8,
        101u8,
        110u8,
        116u8,
    ];
    let v = vstd::slice::slice_to_vec(a.as_slice());
    proof {
        assert(v@ =~= hub_content_tag());
    }
    v
}

// ---------------------------------------------------------------------------
// Seed tuples
// ---------------------------------------------------------------------------

/// Seeds of a hub record, from its handle.
pub open spec fn hub_seeds(handle: Seq<u8>) -> Seq<Seq<u8>> {
    tagged_seeds(hub_tag(), seq![handle])
}

/// Seeds of a release link record, from its parents.
pub open spec fn release_link_seeds(hub: Seq<u8>, release: Seq<u8>) -> Seq<Seq<u8>> {
    tagged_seeds(hub_release_tag(), seq![hub, release])
}

/// Seeds of a post record, from its hub and slug.
pub open spec fn post_seeds(hub: Seq<u8>, slug: Seq<u8>) -> Seq<Seq<u8>> {
    tagged_seeds(post_tag(), seq![hub, slug])
}

/// Seeds of a post link record, from its parents.
pub open spec fn hub_post_seeds(hub: Seq<u8>, post: Seq<u8>) -> Seq<Seq<u8>> {
    tagged_seeds(hub_post_tag(), seq![hub, post])
}

/// Seeds of a content index record, from its parents.
pub open spec fn hub_content_seeds(hub: Seq<u8>, post: Seq<u8>) -> Seq<Seq<u8>> {
    tagged_seeds(hub_content_tag(), seq![hub, post])
}

/// Derive an address from a tag and one parent identifier.
fn derive_from_one(tag: Vec<u8>, a: Vec<u8>) -> (r: Option<Address>)
    ensures
        (r is Some) == (derive_of(tagged_seeds(tag@, seq![a@])) is Some),
        r matches Some(x) ==> derive_of(tagged_seeds(tag@, seq![a@])) == Some(x@),
{
    let ghost av = a@;
    let mut parents: Vec<Vec<u8>> = Vec::new();
    parents.push(a);
    proof {
        assert(bytes_views(parents@) =~= seq![av]);
    }
    derive_address(tag, parents)
}

/// Derive an address from a tag and two parent identifiers.
fn derive_from_pair(tag: Vec<u8>, a: Vec<u8>, b: Vec<u8>) -> (r: Option<Address>)
    ensures
        (r is Some) == (derive_of(tagged_seeds(tag@, seq![a@, b@])) is Some),
        r matches Some(x) ==> derive_of(tagged_seeds(tag@, seq![a@, b@])) == Some(x@),
{
    let ghost av = a@;
    let ghost bv = b@;
    let mut parents: Vec<Vec<u8>> = Vec::new();
    parents.push(a);
    parents.push(b);
    proof {
        assert(bytes_views(parents@) =~= seq![av, bv]);
    }
    derive_address(tag, parents)
}

fn copy_bytes(v: &Vec<u8>) -> (r: Vec<u8>)
    ensures
        r@ == v@,
{
    vstd::slice::slice_to_vec(v.as_slice())
}

// ---------------------------------------------------------------------------
// Stored entries
// ---------------------------------------------------------------------------

/// A hub record together with the address it was created at.
pub struct HubEntry {
    pub address: Address,
    pub record: Hub,
}

#[verifier::ext_equal]
pub struct HubEntryV {
    pub address: Seq<u8>,
    pub record: HubV,
}

impl View for HubEntry {
    type V = HubEntryV;

    open spec fn view(&self) -> HubEntryV {
        HubEntryV { address: self.address@, record: self.record@ }
    }
}

/// A release link record together with its address.
pub struct HubReleaseEntry {
    pub address: Address,
    pub record: HubRelease,
}

#[verifier::ext_equal]
pub struct HubReleaseEntryV {
    pub address: Seq<u8>,
    pub record: HubReleaseV,
}

impl View for HubReleaseEntry {
    type V = HubReleaseEntryV;

    open spec fn view(&self) -> HubReleaseEntryV {
        HubReleaseEntryV { address: self.address@, record: self.record@ }
    }
}

/// A post record together with its address.
pub struct PostEntry {
    pub address: Address,
    pub record: Post,
}

#[verifier::ext_equal]
pub struct PostEntryV {
    pub address: Seq<u8>,
    pub record: PostV,
}

impl View for PostEntry {
    type V = PostEntryV;

    open spec fn view(&self) -> PostEntryV {
        PostEntryV { address: self.address@, record: self.record@ }
    }
}

/// A post link record together with its address.
pub struct HubPostEntry {
    pub address: Address,
    pub record: HubPost,
}

#[verifier::ext_equal]
pub struct HubPostEntryV {
    pub address: Seq<u8>,
    pub record: HubPostV,
}

impl View for HubPostEntry {
    type V = HubPostEntryV;

    open spec fn view(&self) -> HubPostEntryV {
        HubPostEntryV { address: self.address@, record: self.record@ }
    }
}

/// A hub record exists at this address.
pub open spec fn has_hub_addr(s: Seq<HubEntryV>, a: Seq<u8>) -> bool {
    exists|i: int| 0 <= i < s.len() && (#[trigger] s[i]).address == a
}

/// A release link record exists at this address.
pub open spec fn has_release_link_addr(s: Seq<HubReleaseEntryV>, a: Seq<u8>) -> bool {
    exists|i: int| 0 <= i < s.len() && (#[trigger] s[i]).address == a
}

/// A post record exists at this address.
pub open spec fn has_post_addr(s: Seq<PostEntryV>, a: Seq<u8>) -> bool {
    exists|i: int| 0 <= i < s.len() && (#[trigger] s[i]).address == a
}

/// A post link record exists at this address.
pub open spec fn has_hub_post_addr(s: Seq<HubPostEntryV>, a: Seq<u8>) -> bool {
    exists|i: int| 0 <= i < s.len() && (#[trigger] s[i]).address == a
}

/// This release address is registered as an existing release.
pub open spec fn known_release(s: Seq<Seq<u8>>, a: Seq<u8>) -> bool {
    exists|i: int| 0 <= i < s.len() && s[i] == a
}

// ---------------------------------------------------------------------------
// The state and its view
// ---------------------------------------------------------------------------

/// The mathematical view of the whole graph state.
#[verifier::ext_equal]
pub struct StateV {
    pub hubs: Seq<HubEntryV>,
    pub registry: RegistryV,
    pub releases: Seq<Seq<u8>>,
    pub hub_releases: Seq<HubReleaseEntryV>,
    pub posts: Seq<PostEntryV>,
    pub hub_posts: Seq<HubPostEntryV>,
    pub content: Seq<ContentEntryV>,
}

impl StateV {
    /// The structural invariants of the graph: every record unique at its
    /// address, one capability record per (hub, principal) pair, and every
    /// content index entry pointing at an existing link record.
    pub open spec fn wf(self) -> bool {
        &&& self.registry.wf()
        &&& forall|i: int, j: int|
            0 <= i < self.hubs.len() && 0 <= j < self.hubs.len() && i != j
                ==> (#[trigger] self.hubs[i]).address != (#[trigger] self.hubs[j]).address
        &&& forall|i: int, j: int|
            0 <= i < self.hub_releases.len() && 0 <= j < self.hub_releases.len() && i != j
                ==> (#[trigger] self.hub_releases[i]).address
                != (#[trigger] self.hub_releases[j]).address
        &&& forall|i: int, j: int|
            0 <= i < self.posts.len() && 0 <= j < self.posts.len() && i != j
                ==> (#[trigger] self.posts[i]).address != (#[trigger] self.posts[j]).address
        &&& forall|i: int, j: int|
            0 <= i < self.hub_posts.len() && 0 <= j < self.hub_posts.len() && i != j
                ==> (#[trigger] self.hub_posts[i]).address
                != (#[trigger] self.hub_posts[j]).address
        &&& forall|i: int, j: int|
            0 <= i < self.content.len() && 0 <= j < self.content.len() && i != j
                ==> (#[trigger] self.content[i]).address != (#[trigger] self.content[j]).address
        &&& forall|i: int|
            0 <= i < self.content.len() ==> has_hub_post_addr(
                self.hub_posts,
                (#[trigger] self.content[i]).record.child,
            )
    }
}

/// The whole graph state: what the protocol's storage collaborator holds.
pub struct HubState {
    pub hubs: Vec<HubEntry>,
    pub registry: MembershipRegistry,
    pub releases: Vec<Address>,
    pub hub_releases: Vec<HubReleaseEntry>,
    pub posts: Vec<PostEntry>,
    pub hub_posts: Vec<HubPostEntry>,
    pub content: ContentIndex,
}

impl View for HubState {
    type V = StateV;

    open spec fn view(&self) -> StateV {
        StateV {
            hubs: self.hubs@.map_values(|e: HubEntry| e@),
            registry: self.registry@,
            releases: self.releases@.map_values(|a: Address| a@),
            hub_releases: self.hub_releases@.map_values(|e: HubReleaseEntry| e@),
            posts: self.posts@.map_values(|e: PostEntry| e@),
            hub_posts: self.hub_posts@.map_values(|e: HubPostEntry| e@),
            content: self.content@,
        }
    }
}

// ---------------------------------------------------------------------------
// Spec-level transitions
// ---------------------------------------------------------------------------

/// The view of a register-hub result.
pub open spec fn addr_result_view(r: Result<Address, NinaError>) -> Result<Seq<u8>, NinaError> {
    match r {
        Ok(a) => Ok(a@),
        Err(e) => Err(e),
    }
}

/// The view of an add-release result.
pub open spec fn release_result_view(r: Result<HubReleaseAdded, NinaError>) -> Result<
    HubReleaseAddedV,
    NinaError,
> {
    match r {
        Ok(e) => Ok(e@),
        Err(e) => Err(e),
    }
}

/// The view of a post-initialization result.
pub open spec fn post_result_view(r: Result<PostInitializedViaHub, NinaError>) -> Result<
    PostInitializedViaHubV,
    NinaError,
> {
    match r {
        Ok(e) => Ok(e@),
        Err(e) => Err(e),
    }
}

/// The state after a hub is registered at `addr`.
pub open spec fn register_hub_state(s: StateV, handle: Seq<u8>, owner: Seq<u8>, addr: Seq<u8>) -> StateV {
    StateV {
        hubs: s.hubs.push(HubEntryV { address: addr, record: HubV { handle, owner } }),
        ..s
    }
}

/// What registering a hub does: refuse an overlong handle, derive the hub's
/// address from its handle, refuse a duplicate, else append the record.
/// `None` when derivation finds no address.
pub open spec fn register_hub_outcome(s: StateV, handle: Seq<u8>, owner: Seq<u8>) -> Option<
    (StateV, Result<Seq<u8>, NinaError>),
> {
    if handle.len() > TEXT_CAPACITY as int {
        Some((s, Err(NinaError::FieldTooLong)))
    } else {
        match derive_of(hub_seeds(handle)) {
            Option::None => Option::None,
            Option::Some(addr) => if has_hub_addr(s.hubs, addr) {
                Some((s, Err(NinaError::DuplicateRecord)))
            } else {
                Some((register_hub_state(s, handle, owner, addr), Ok(addr)))
            },
        }
    }
}

/// The state after a release link is created at `addr`.
pub open spec fn add_release_state(s: StateV, hub: Seq<u8>, release: Seq<u8>, addr: Seq<u8>) -> StateV {
    StateV {
        hub_releases: s.hub_releases.push(
            HubReleaseEntryV {
                address: addr,
                record: HubReleaseV { hub, release, published_through_hub: false, sales: 0 },
            },
        ),
        ..s
    }
}

/// What "add release to hub" does.
///
/// The acting principal must hold an artist record for the hub with
/// `can_add_release` set, else `Unauthorized`; the hub and the release must
/// exist, else `NotFound`; the link's address is derived from
/// (hub, release), and a record already there is a `DuplicateRecord`;
/// otherwise exactly one new link record is appended — `published_through_hub`
/// false, `sales` zero — and a `HubReleaseAdded` event is returned.
/// `None` when derivation finds no address.
pub open spec fn add_release_outcome(
    s: StateV,
    hub: Seq<u8>,
    release: Seq<u8>,
    principal: Seq<u8>,
) -> Option<(StateV, Result<HubReleaseAddedV, NinaError>)> {
    if !artist_can_add_release(s.registry.artists, hub, principal) {
        Some((s, Err(NinaError::Unauthorized)))
    } else if !has_hub_addr(s.hubs, hub) || !known_release(s.releases, release) {
        Some((s, Err(NinaError::NotFound)))
    } else {
        match derive_of(release_link_seeds(hub, release)) {
            Option::None => Option::None,
            Option::Some(addr) => if has_release_link_addr(s.hub_releases, addr) {
                Some((s, Err(NinaError::DuplicateRecord)))
            } else {
                Some(
                    (
                        add_release_state(s, hub, release, addr),
                        Ok(HubReleaseAddedV { public_key: addr, hub, release }),
                    ),
                )
            },
        }
    }
}

/// The state after a post is initialized: one new post record, one new post
/// link record, and one new content index entry, all at their derived
/// addresses, in one indivisible step.
pub open spec fn post_init_state(
    s: StateV,
    hub: Seq<u8>,
    post_addr: Seq<u8>,
    hub_post_addr: Seq<u8>,
    content_addr: Seq<u8>,
    principal: Seq<u8>,
    slug: Seq<u8>,
    uri: Seq<u8>,
    now: i64,
) -> StateV {
    StateV {
        posts: s.posts.push(
            PostEntryV {
                address: post_addr,
                record: PostV {
                    author: principal,
                    published_through_hub: hub,
                    created_at: now,
                    updated_at: now,
                    slug,
                    uri,
                },
            },
        ),
        hub_posts: s.hub_posts.push(
            HubPostEntryV {
                address: hub_post_addr,
                record: HubPostV { hub, post: post_addr, version_uri: uri },
            },
        ),
        content: s.content.push(
            ContentEntryV {
                address: content_addr,
                record: HubContentV {
                    added_by: principal,
                    hub,
                    child: hub_post_addr,
                    content_type: HubContentType::Post,
                    datetime: now,
                },
            },
        ),
        ..s
    }
}

/// What "initialize post via hub" does.
///
/// The hub is resolved from its handle, and must exist, else `NotFound`; the
/// acting principal must hold a collaborator record with `can_add_content`
/// set, else `Unauthorized`; overlong `slug` or `uri` is a `FieldTooLong`;
/// the post, post link and content addresses are derived, and a record
/// already at any of them is a `DuplicateRecord` with nothing written;
/// otherwise all three records are appended, the content entry's `datetime`
/// equal to the post's `created_at`, and a `PostInitializedViaHub` event is
/// returned. `None` when any derivation finds no address.
pub open spec fn post_init_outcome(
    s: StateV,
    handle: Seq<u8>,
    slug: Seq<u8>,
    uri: Seq<u8>,
    principal: Seq<u8>,
    now: i64,
) -> Option<(StateV, Result<PostInitializedViaHubV, NinaError>)> {
    match derive_of(hub_seeds(handle)) {
        Option::None => Option::None,
        Option::Some(hub) => if !has_hub_addr(s.hubs, hub) {
            Some((s, Err(NinaError::NotFound)))
        } else if !collaborator_can_add_content(s.registry.collaborators, hub, principal) {
            Some((s, Err(NinaError::Unauthorized)))
        } else if slug.len() > TEXT_CAPACITY as int || uri.len() > TEXT_CAPACITY as int {
            Some((s, Err(NinaError::FieldTooLong)))
        } else {
            match derive_of(post_seeds(hub, slug)) {
                Option::None => Option::None,
                Option::Some(post_addr) => match derive_of(hub_post_seeds(hub, post_addr)) {
                    Option::None => Option::None,
                    Option::Some(hub_post_addr) => match derive_of(
                        hub_content_seeds(hub, post_addr),
                    ) {
                        Option::None => Option::None,
                        Option::Some(content_addr) => if has_post_addr(s.posts, post_addr)
                            || has_hub_post_addr(s.hub_posts, hub_post_addr)
                            || has_content_addr(s.content, content_addr) {
                            Some((s, Err(NinaError::DuplicateRecord)))
                        } else {
                            Some(
                                (
                                    post_init_state(
                                        s,
                                        hub,
                                        post_addr,
                                        hub_post_addr,
                                        content_addr,
                                        principal,
                                        slug,
                                        uri,
                                        now,
                                    ),
                                    Ok(
                                        PostInitializedViaHubV {
                                            public_key: hub_post_addr,
                                            hub,
                                            uri,
                                        },
                                    ),
                                ),
                            )
                        },
                    },
                },
            }
        },
    }
}

// ---------------------------------------------------------------------------
// The executable factory
// ---------------------------------------------------------------------------

impl HubState {
    /// An empty graph.
    pub fn new() -> (r: HubState)
        ensures
            r@.hubs.len() == 0,
            r@.registry.artists.len() == 0,
            r@.registry.collaborators.len() == 0,
            r@.releases.len() == 0,
            r@.hub_releases.len() == 0,
            r@.posts.len() == 0,
            r@.hub_posts.len() == 0,
            r@.content.len() == 0,
            r@.wf(),
    {
        let r = HubState {
            hubs: Vec::new(),
            registry: MembershipRegistry::new(),
            releases: Vec::new(),
            hub_releases: Vec::new(),
            posts: Vec::new(),
            hub_posts: Vec::new(),
            content: ContentIndex::new(),
        };
        r
    }

    /// Is a hub record stored at this address?
    pub fn contains_hub(&self, a: &Address) -> (r: bool)
        ensures
            r == has_hub_addr(self@.hubs, a@),
    {
        let mut i: usize = 0;
        while i < self.hubs.len()
            invariant
                0 <= i <= self.hubs.len(),
                forall|j: int| 0 <= j < i ==> (#[trigger] self@.hubs[j]).address != a@,
            decreases self.hubs.len() - i,
        {
            if self.hubs[i].address.equals(a) {
                proof {
                    assert(self@.hubs[i as int].address == a@);
                }
                return true;
            }
            i += 1;
        }
        false
    }

    /// Is this release registered as existing?
    pub fn contains_release(&self, a: &Address) -> (r: bool)
        ensures
            r == known_release(self@.releases, a@),
    {
        let mut i: usize = 0;
        while i < self.releases.len()
            invariant
                0 <= i <= self.releases.len(),
                forall|j: int| 0 <= j < i ==> self@.releases[j] != a@,
            decreases self.releases.len() - i,
        {
            if self.releases[i].equals(a) {
                proof {
                    assert(self@.releases[i as int] == a@);
                }
                return true;
            }
            i += 1;
        }
        false
    }

    /// Is a release link record stored at this address?
    pub fn contains_release_link(&self, a: &Address) -> (r: bool)
        ensures
            r == has_release_link_addr(self@.hub_releases, a@),
    {
        let mut i: usize = 0;
        while i < self.hub_releases.len()
            invariant
                0 <= i <= self.hub_releases.len(),
                forall|j: int| 0 <= j < i ==> (#[trigger] self@.hub_releases[j]).address != a@,
            decreases self.hub_releases.len() - i,
        {
            if self.hub_releases[i].address.equals(a) {
                proof {
                    assert(self@.hub_releases[
                        i as int
                    ].address == a@);
                }
                return true;
            }
            i += 1;
        }
        false
    }

    /// Is a post record stored at this address?
    pub fn contains_post(&self, a: &Address) -> (r: bool)
        ensures
            r == has_post_addr(self@.posts, a@),
    {
        let mut i: usize = 0;
        while i < self.posts.len()
            invariant
                0 <= i <= self.posts.len(),
                forall|j: int| 0 <= j < i ==> (#[trigger] self@.posts[j]).address != a@,
            decreases self.posts.len() - i,
        {
            if self.posts[i].address.equals(a) {
                proof {
                    assert(self@.posts[i as int].address
                        == a@);
                }
                return true;
            }
            i += 1;
        }
        false
    }

    /// Is a post link record stored at this address?
    pub fn contains_hub_post(&self, a: &Address) -> (r: bool)
        ensures
            r == has_hub_post_addr(self@.hub_posts, a@),
    {
        let mut i: usize = 0;
        while i < self.hub_posts.len()
            invariant
                0 <= i <= self.hub_posts.len(),
                forall|j: int| 0 <= j < i ==> (#[trigger] self@.hub_posts[j]).address != a@,
            decreases self.hub_posts.len() - i,
        {
            if self.hub_posts[i].address.equals(a) {
                proof {
                    assert(self@.hub_posts[
                        i as int
                    ].address == a@);
                }
                return true;
            }
            i += 1;
        }
        false
    }

    /// Register a hub under its handle. The hub's address is derived from
    /// the handle, so a handle can name at most one hub. `None` when
    /// derivation finds no address.
    pub fn register_hub(&mut self, handle: &Vec<u8>, owner: &Address) -> (r: Option<
        Result<Address, NinaError>,
    >)
        ensures
            ({
                let out = register_hub_outcome(old(self)@, handle@, owner@);
                match out {
                    Option::None => r is None && final(self)@ == old(self)@,
                    Option::Some((s1, rv)) => r matches Some(res) && final(self)@ == s1
                        && addr_result_view(res) == rv,
                }
            }),
    {
        if handle.len() > TEXT_CAPACITY {
            return Some(Err(NinaError::FieldTooLong));
        }
        let derived = derive_from_one(hub_tag_vec(), copy_bytes(handle));
        match derived {
            Option::None => {
                return Option::None;
            },
            Option::Some(addr) => {
                if self.contains_hub(&addr) {
                    return Some(Err(NinaError::DuplicateRecord));
                }
                let ghost before = self@;
                let record = Hub { handle: BoundedText::from_bytes(copy_bytes(handle)), owner: *owner };
                let ghost entry_v = HubEntryV { address: addr@, record: record@ };
                self.hubs.push(HubEntry { address: addr, record });
                proof {
                    assert(self@.hubs =~= before.hubs.push(entry_v));
                    assert(self@ =~= register_hub_state(before, handle@, owner@, addr@));
                }
                Some(Ok(addr))
            },
        }
    }

    /// Register an externally created release, so that it can be linked.
    pub fn register_release(&mut self, release: &Address) -> (r: Result<(), NinaError>)
        ensures
            known_release(old(self)@.releases, release@) ==> r == Err::<(), NinaError>(
                NinaError::DuplicateRecord,
            ) && final(self)@ == old(self)@,
            !known_release(old(self)@.releases, release@) ==> r == Ok::<(), NinaError>(())
                && final(self)@ == (StateV {
                releases: old(self)@.releases.push(release@),
                ..old(self)@
            }),
    {
        if self.contains_release(release) {
            return Err(NinaError::DuplicateRecord);
        }
        let ghost before = self@;
        self.releases.push(*release);
        proof {
            assert(self@.releases =~= before.releases.push(release@));
            assert(self@ =~= (StateV { releases: before.releases.push(release@), ..before }));
        }
        Ok(())
    }

    /// Link a release into a hub ("add release").
    ///
    /// Requires derivability of the link's address; `try_hub_add_release`
    /// performs the same operation without that requirement.
    pub fn hub_add_release(
        &mut self,
        hub: &Address,
        release: &Address,
        principal: &Address,
    ) -> (r: Result<HubReleaseAdded, NinaError>)
        requires
            add_release_outcome(old(self)@, hub@, release@, principal@) is Some,
        ensures
            add_release_outcome(old(self)@, hub@, release@, principal@) == Some(
                (final(self)@, release_result_view(r)),
            ),
    {
        if !self.registry.can_add_release(hub, principal) {
            return Err(NinaError::Unauthorized);
        }
        if !self.contains_hub(hub) || !self.contains_release(release) {
            return Err(NinaError::NotFound);
        }
        let derived = derive_from_pair(hub_release_tag_vec(), hub.to_bytes(), release.to_bytes());
        match derived {
            Option::None => {
                // unreachable: the requires guarantees this derivation succeeds
                proof {
                    assert(false);
                }
                Err(NinaError::Unauthorized)
            },
            Option::Some(addr) => {
                if self.contains_release_link(&addr) {
                    return Err(NinaError::DuplicateRecord);
                }
                let ghost before = self@;
                let record = HubRelease {
                    hub: *hub,
                    release: *release,
                    published_through_hub: false,
                    sales: 0,
                };
                let ghost entry_v = HubReleaseEntryV { address: addr@, record: record@ };
                self.hub_releases.push(HubReleaseEntry { address: addr, record });
                proof {
                    assert(self@.hub_releases =~= before.hub_releases.push(entry_v));
                    assert(self@ =~= add_release_state(before, hub@, release@, addr@));
                }
                Ok(HubReleaseAdded { public_key: addr, hub: *hub, release: *release })
            },
        }
    }

    /// Link a release into a hub, deciding derivability first: `None` exactly
    /// when the link's address cannot be derived, in which case nothing
    /// changes.
    pub fn try_hub_add_release(
        &mut self,
        hub: &Address,
        release: &Address,
        principal: &Address,
    ) -> (r: Option<Result<HubReleaseAdded, NinaError>>)
        ensures
            ({
                let out = add_release_outcome(old(self)@, hub@, release@, principal@);
                match out {
                    Option::None => r is None && final(self)@ == old(self)@,
                    Option::Some((s1, rv)) => r matches Some(res) && final(self)@ == s1
                        && release_result_view(res) == rv,
                }
            }),
    {
        let authorized = self.registry.can_add_release(hub, principal);
        let parents_exist = self.contains_hub(hub) && self.contains_release(release);
        if authorized && parents_exist {
            let derived = derive_from_pair(
                hub_release_tag_vec(),
                hub.to_bytes(),
                release.to_bytes(),
            );
            if derived.is_none() {
                return Option::None;
            }
        }
        Some(self.hub_add_release(hub, release, principal))
    }

    /// Initialize a post through a hub.
    ///
    /// Requires derivability of the hub, post, post link and content
    /// addresses; `try_post_init_via_hub` performs the same operation
    /// without that requirement.
    pub fn post_init_via_hub(
        &mut self,
        handle: &Vec<u8>,
        slug: &Vec<u8>,
        uri: &Vec<u8>,
        principal: &Address,
        now: i64,
    ) -> (r: Result<PostInitializedViaHub, NinaError>)
        requires
            post_init_outcome(old(self)@, handle@, slug@, uri@, principal@, now) is Some,
        ensures
            post_init_outcome(old(self)@, handle@, slug@, uri@, principal@, now) == Some(
                (final(self)@, post_result_view(r)),
            ),
    {
        let hub_derived = derive_from_one(hub_tag_vec(), copy_bytes(handle));
        let hub_addr = match hub_derived {
            Option::Some(a) => a,
            Option::None => {
                // unreachable: the requires guarantees this derivation succeeds
                proof {
                    assert(false);
                }
                return Err(NinaError::Unauthorized);
            },
        };
        if !self.contains_hub(&hub_addr) {
            return Err(NinaError::NotFound);
        }
        if !self.registry.can_add_content(&hub_addr, principal) {
            return Err(NinaError::Unauthorized);
        }
        if slug.len() > TEXT_CAPACITY || uri.len() > TEXT_CAPACITY {
            return Err(NinaError::FieldTooLong);
        }
        let post_derived = derive_from_pair(post_tag_vec(), hub_addr.to_bytes(), copy_bytes(slug));
        let post_addr = match post_derived {
            Option::Some(a) => a,
            Option::None => {
                // unreachable: the requires guarantees this derivation succeeds
                proof {
                    assert(false);
                }
                return Err(NinaError::Unauthorized);
            },
        };
        let hub_post_derived = derive_from_pair(
            hub_post_tag_vec(),
            hub_addr.to_bytes(),
            post_addr.to_bytes(),
        );
        let hub_post_addr = match hub_post_derived {
            Option::Some(a) => a,
            Option::None => {
                // unreachable: the requires guarantees this derivation succeeds
                proof {
                    assert(false);
                }
                return Err(NinaError::Unauthorized);
            },
        };
        let content_derived = derive_from_pair(
            hub_content_tag_vec(),
            hub_addr.to_bytes(),
            post_addr.to_bytes(),
        );
        let content_addr = match content_derived {
            Option::Some(a) => a,
            Option::None => {
                // unreachable: the requires guarantees this derivation succeeds
                proof {
                    assert(false);
                }
                return Err(NinaError::Unauthorized);
            },
        };
        if self.contains_post(&post_addr) || self.contains_hub_post(&hub_post_addr)
            || self.content.contains_address(&content_addr) {
            return Err(NinaError::DuplicateRecord);
        }
        let ghost before = self@;
        let post_record = Post {
            author: *principal,
            published_through_hub: hub_addr,
            created_at: now,
            updated_at: now,
            slug: BoundedText::from_bytes(copy_bytes(slug)),
            uri: BoundedText::from_bytes(copy_bytes(uri)),
        };
        let ghost post_entry_v = PostEntryV { address: post_addr@, record: post_record@ };
        self.posts.push(PostEntry { address: post_addr, record: post_record });
        let hub_post_record = HubPost {
            hub: hub_addr,
            post: post_addr,
            version_uri: BoundedText::from_bytes(copy_bytes(uri)),
        };
        let ghost hub_post_entry_v = HubPostEntryV {
            address: hub_post_addr@,
            record: hub_post_record@,
        };
        self.hub_posts.push(HubPostEntry { address: hub_post_addr, record: hub_post_record });
        let content_record = HubContent {
            added_by: *principal,
            hub: hub_addr,
            child: hub_post_addr,
            content_type: HubContentType::Post,
            datetime: now,
        };
        let ghost content_entry_v = ContentEntryV {
            address: content_addr@,
            record: content_record@,
        };
        self.content.append(ContentEntry { address: content_addr, record: content_record });
        proof {
            assert(self@.posts =~= before.posts.push(post_entry_v));
            assert(self@.hub_posts =~= before.hub_posts.push(hub_post_entry_v));
            assert(self@.content =~= before.content.push(content_entry_v));
            assert(self@ =~= post_init_state(
                before,
                hub_addr@,
                post_addr@,
                hub_post_addr@,
                content_addr@,
                principal@,
                slug@,
                uri@,
                now,
            ));
        }
        Ok(PostInitializedViaHub { public_key: hub_post_addr, hub: hub_addr, uri: copy_bytes(uri) })
    }

    /// Initialize a post through a hub, deciding derivability first: `None`
    /// exactly when one of the record addresses cannot be derived, in which
    /// case nothing changes.
    pub fn try_post_init_via_hub(
        &mut self,
        handle: &Vec<u8>,
        slug: &Vec<u8>,
        uri: &Vec<u8>,
        principal: &Address,
        now: i64,
    ) -> (r: Option<Result<PostInitializedViaHub, NinaError>>)
        ensures
            ({
                let out = post_init_outcome(old(self)@, handle@, slug@, uri@, principal@, now);
                match out {
                    Option::None => r is None && final(self)@ == old(self)@,
                    Option::Some((s1, rv)) => r matches Some(res) && final(self)@ == s1
                        && post_result_view(res) == rv,
                }
            }),
    {
        let hub_derived = derive_from_one(hub_tag_vec(), copy_bytes(handle));
        let hub_addr = match hub_derived {
            Option::Some(a) => a,
            Option::None => {
                return Option::None;
            },
        };
        let hub_exists = self.contains_hub(&hub_addr);
        let authorized = self.registry.can_add_content(&hub_addr, principal);
        let fits = slug.len() <= TEXT_CAPACITY && uri.len() <= TEXT_CAPACITY;
        if hub_exists && authorized && fits {
            let post_derived = derive_from_pair(
                post_tag_vec(),
                hub_addr.to_bytes(),
                copy_bytes(slug),
            );
            let post_addr = match post_derived {
                Option::Some(a) => a,
                Option::None => {
                    return Option::None;
                },
            };
            let hub_post_derived = derive_from_pair(
                hub_post_tag_vec(),
                hub_addr.to_bytes(),
                post_addr.to_bytes(),
            );
            if hub_post_derived.is_none() {
                return Option::None;
            }
            let content_derived = derive_from_pair(
                hub_content_tag_vec(),
                hub_addr.to_bytes(),
                post_addr.to_bytes(),
            );
            if content_derived.is_none() {
                return Option::None;
            }
        }
        Some(self.post_init_via_hub(handle, slug, uri, principal, now))
    }
}

} // verus!
