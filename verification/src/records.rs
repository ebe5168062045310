//! The record types of the publishing graph, the error taxonomy, and the
//! notification events.
//!
//! Each executable record has a mathematical view (`...V`) over byte
//! sequences, which the contracts and laws speak of.

use vstd::prelude::*;
use crate::addr::Address;
use crate::text::BoundedText;

verus! {

/// The error taxonomy. Every operation is terminal on error: it aborts and
/// leaves no partial state.
#[derive(Clone, Copy, Debug, PartialEq, Eq, Structural)]
pub enum NinaError {
    /// Capability record absent, or its flag is false.
    Unauthorized,
    /// An address-derivation collision: attempted re-creation of a record.
    DuplicateRecord,
    /// A referenced parent record does not exist.
    NotFound,
    /// A bounded text field would overflow its fixed capacity.
    FieldTooLong,
}

/// What kind of content a hub-content index entry points at.
#[derive(Clone, Copy, Debug, PartialEq, Eq, Structural)]
pub enum HubContentType {
    Post,
    Release,
}

/// A hub: a namespaced community, created once by its owner.
pub struct Hub {
    pub handle: BoundedText,
    pub owner: Address,
}

#[verifier::ext_equal]
pub struct HubV {
    pub handle: Seq<u8>,
    pub owner: Seq<u8>,
}

impl View for Hub {
    type V = HubV;

    open spec fn view(&self) -> HubV {
        HubV { handle: self.handle@, owner: self.owner@ }
    }
}

/// Capability grant for a release contributor of a hub.
pub struct HubArtist {
    pub hub: Address,
    pub can_add_release: bool,
}

#[verifier::ext_equal]
pub struct HubArtistV {
    pub hub: Seq<u8>,
    pub can_add_release: bool,
}

impl View for HubArtist {
    type V = HubArtistV;

    open spec fn view(&self) -> HubArtistV {
        HubArtistV { hub: self.hub@, can_add_release: self.can_add_release }
    }
}

impl HubArtist {
    /// May this member link releases into the hub?
    pub fn can_add_release(&self) -> (r: bool)
        ensures
            r == self@.can_add_release,
    {
        self.can_add_release
    }
}

/// Capability grant for a content contributor of a hub.
pub struct HubCollaborator {
    pub hub: Address,
    pub can_add_content: bool,
}

#[verifier::ext_equal]
pub struct HubCollaboratorV {
    pub hub: Seq<u8>,
    pub can_add_content: bool,
}

impl View for HubCollaborator {
    type V = HubCollaboratorV;

    open spec fn view(&self) -> HubCollaboratorV {
        HubCollaboratorV { hub: self.hub@, can_add_content: self.can_add_content }
    }
}

impl HubCollaborator {
    /// May this member initialize posts in the hub?
    pub fn can_add_content(&self) -> (r: bool)
        ensures
            r == self@.can_add_content,
    {
        self.can_add_content
    }
}

/// Link record: a release published through a hub.
pub struct HubRelease {
    pub hub: Address,
    pub release: Address,
    pub published_through_hub: bool,
    pub sales: u64,
}

#[verifier::ext_equal]
pub struct HubReleaseV {
    pub hub: Seq<u8>,
    pub release: Seq<u8>,
    pub published_through_hub: bool,
    pub sales: u64,
}

impl View for HubRelease {
    type V = HubReleaseV;

    open spec fn view(&self) -> HubReleaseV {
        HubReleaseV {
            hub: self.hub@,
            release: self.release@,
            published_through_hub: self.published_through_hub,
            sales: self.sales,
        }
    }
}

/// A hub-native content item.
pub struct Post {
    pub author: Address,
    pub published_through_hub: Address,
    pub created_at: i64,
    pub updated_at: i64,
    pub slug: BoundedText,
    pub uri: BoundedText,
}

#[verifier::ext_equal]
pub struct PostV {
    pub author: Seq<u8>,
    pub published_through_hub: Seq<u8>,
    pub created_at: i64,
    pub updated_at: i64,
    pub slug: Seq<u8>,
    pub uri: Seq<u8>,
}

impl View for Post {
    type V = PostV;

    open spec fn view(&self) -> PostV {
        PostV {
            author: self.author@,
            published_through_hub: self.published_through_hub@,
            created_at: self.created_at,
            updated_at: self.updated_at,
            slug: self.slug@,
            uri: self.uri@,
        }
    }
}

/// Link record: a post surfaced in a hub.
pub struct HubPost {
    pub hub: Address,
    pub post: Address,
    pub version_uri: BoundedText,
}

#[verifier::ext_equal]
pub struct HubPostV {
    pub hub: Seq<u8>,
    pub post: Seq<u8>,
    pub version_uri: Seq<u8>,
}

impl View for HubPost {
    type V = HubPostV;

    open spec fn view(&self) -> HubPostV {
        HubPostV { hub: self.hub@, post: self.post@, version_uri: self.version_uri@ }
    }
}

/// Append-only content index entry.
pub struct HubContent {
    pub added_by: Address,
    pub hub: Address,
    pub child: Address,
    pub content_type: HubContentType,
    pub datetime: i64,
}

#[verifier::ext_equal]
pub struct HubContentV {
    pub added_by: Seq<u8>,
    pub hub: Seq<u8>,
    pub child: Seq<u8>,
    pub content_type: HubContentType,
    pub datetime: i64,
}

impl View for HubContent {
    type V = HubContentV;

    open spec fn view(&self) -> HubContentV {
        HubContentV {
            added_by: self.added_by@,
            hub: self.hub@,
            child: self.child@,
            content_type: self.content_type,
            datetime: self.datetime,
        }
    }
}

/// Notification: a release was linked into a hub.
#[derive(Debug)]
pub struct HubReleaseAdded {
    pub public_key: Address,
    pub hub: Address,
    pub release: Address,
}

#[verifier::ext_equal]
pub struct HubReleaseAddedV {
    pub public_key: Seq<u8>,
    pub hub: Seq<u8>,
    pub release: Seq<u8>,
}

impl View for HubReleaseAdded {
    type V = HubReleaseAddedV;

    open spec fn view(&self) -> HubReleaseAddedV {
        HubReleaseAddedV { public_key: self.public_key@, hub: self.hub@, release: self.release@ }
    }
}

/// Notification: a post was initialized through a hub.
#[derive(Debug)]
pub struct PostInitializedViaHub {
    pub public_key: Address,
    pub hub: Address,
    pub uri: Vec<u8>,
}

#[verifier::ext_equal]
pub struct PostInitializedViaHubV {
    pub public_key: Seq<u8>,
    pub hub: Seq<u8>,
    pub uri: Seq<u8>,
}

impl View for PostInitializedViaHub {
    type V = PostInitializedViaHubV;

    open spec fn view(&self) -> PostInitializedViaHubV {
        PostInitializedViaHubV { public_key: self.public_key@, hub: self.hub@, uri: self.uri@ }
    }
}

/// What a subscription follows: a principal's account, or a hub.
#[derive(Clone, Copy, Debug, PartialEq, Eq, Structural)]
pub enum SubscriptionType {
    Account,
    Hub,
}

impl Default for SubscriptionType {
    fn default() -> (r: Self)
        ensures
            r == SubscriptionType::Account,
    {
        SubscriptionType::Account
    }
}

/// A following relationship between a principal and an account or hub.
pub struct Subscription {
    pub from: Address,
    pub to: Address,
    pub subscription_type: SubscriptionType,
}

#[verifier::ext_equal]
pub struct SubscriptionV {
    pub from: Seq<u8>,
    pub to: Seq<u8>,
    pub subscription_type: SubscriptionType,
}

impl View for Subscription {
    type V = SubscriptionV;

    open spec fn view(&self) -> SubscriptionV {
        SubscriptionV {
            from: self.from@,
            to: self.to@,
            subscription_type: self.subscription_type,
        }
    }
}

} // verus!
