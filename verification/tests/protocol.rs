//! End-to-end tests of the publishing protocol, run against the real
//! address derivation.

use nina::addr::Address;
use nina::records::{HubArtist, HubCollaborator, HubContentType, NinaError};
use nina::state::HubState;

fn addr(byte: u8) -> Address {
    Address::new([byte; 32])
}

fn setup_hub(state: &mut HubState, handle: &[u8], owner: Address) -> Address {
    state
        .register_hub(&handle.to_vec(), &owner)
        .expect("hub address must derive")
        .expect("hub registration must succeed")
}

#[test]
fn register_hub_then_duplicate() {
    let mut state = HubState::new();
    let owner = addr(1);
    let handle = b"hub-one".to_vec();
    let first = state.register_hub(&handle, &owner).unwrap();
    assert!(first.is_ok());
    let second = state.register_hub(&handle, &owner).unwrap();
    assert_eq!(second.unwrap_err(), NinaError::DuplicateRecord);
    assert_eq!(state.hubs.len(), 1);
    assert_eq!(state.hubs[0].record.owner, owner);
    assert_eq!(state.hubs[0].record.handle.as_bytes().as_slice(), b"hub-one");
}

#[test]
fn register_hub_overlong_handle() {
    let mut state = HubState::new();
    let owner = addr(1);
    let handle = vec![b'h'; 101];
    let r = state.register_hub(&handle, &owner).unwrap();
    assert_eq!(r.unwrap_err(), NinaError::FieldTooLong);
    assert_eq!(state.hubs.len(), 0);
}

#[test]
fn add_release_succeeds_once_then_duplicate() {
    let mut state = HubState::new();
    let owner = addr(1);
    let artist = addr(2);
    let release = addr(3);
    let hub = setup_hub(&mut state, b"hub-one", owner);
    state.register_release(&release).unwrap();
    state
        .registry
        .grant_artist(artist, HubArtist { hub, can_add_release: true })
        .unwrap();

    let first = state
        .try_hub_add_release(&hub, &release, &artist)
        .expect("link address must derive")
        .expect("first link must succeed");
    assert_eq!(first.hub, hub);
    assert_eq!(first.release, release);
    assert_eq!(state.hub_releases.len(), 1);
    assert_eq!(state.hub_releases[0].address, first.public_key);
    assert_eq!(state.hub_releases[0].record.hub, hub);
    assert_eq!(state.hub_releases[0].record.release, release);
    assert!(!state.hub_releases[0].record.published_through_hub);
    assert_eq!(state.hub_releases[0].record.sales, 0);
    // linking a release never appends to the content index
    assert_eq!(state.content.len(), 0);

    let second = state
        .try_hub_add_release(&hub, &release, &artist)
        .expect("link address must derive");
    assert_eq!(second.unwrap_err(), NinaError::DuplicateRecord);
    assert_eq!(state.hub_releases.len(), 1);
}

#[test]
fn add_release_unauthorized_without_record() {
    let mut state = HubState::new();
    let owner = addr(1);
    let artist = addr(2);
    let release = addr(3);
    let hub = setup_hub(&mut state, b"hub-one", owner);
    state.register_release(&release).unwrap();
    let r = state.try_hub_add_release(&hub, &release, &artist).unwrap();
    assert_eq!(r.unwrap_err(), NinaError::Unauthorized);
    assert_eq!(state.hub_releases.len(), 0);
}

#[test]
fn add_release_unauthorized_with_flag_false() {
    let mut state = HubState::new();
    let owner = addr(1);
    let artist = addr(2);
    let hub = setup_hub(&mut state, b"hub-one", owner);
    state
        .registry
        .grant_artist(artist, HubArtist { hub, can_add_release: false })
        .unwrap();
    // fails even for a release nobody registered: authorization is checked
    // before release validity
    let unknown_release = addr(9);
    let r = state
        .try_hub_add_release(&hub, &unknown_release, &artist)
        .unwrap();
    assert_eq!(r.unwrap_err(), NinaError::Unauthorized);
    assert_eq!(state.hub_releases.len(), 0);
}

#[test]
fn add_release_unknown_release_not_found() {
    let mut state = HubState::new();
    let owner = addr(1);
    let artist = addr(2);
    let hub = setup_hub(&mut state, b"hub-one", owner);
    state
        .registry
        .grant_artist(artist, HubArtist { hub, can_add_release: true })
        .unwrap();
    let r = state.try_hub_add_release(&hub, &addr(9), &artist).unwrap();
    assert_eq!(r.unwrap_err(), NinaError::NotFound);
}

#[test]
fn add_release_unknown_hub_not_found() {
    let mut state = HubState::new();
    let artist = addr(2);
    let release = addr(3);
    let ghost_hub = addr(8);
    state.register_release(&release).unwrap();
    state
        .registry
        .grant_artist(artist, HubArtist { hub: ghost_hub, can_add_release: true })
        .unwrap();
    let r = state.try_hub_add_release(&ghost_hub, &release, &artist).unwrap();
    assert_eq!(r.unwrap_err(), NinaError::NotFound);
}

#[test]
fn post_init_via_hub_scenario() {
    let mut state = HubState::new();
    let owner = addr(1);
    let collaborator = addr(2);
    let hub = setup_hub(&mut state, b"hub-h", owner);
    state
        .registry
        .grant_collaborator(collaborator, HubCollaborator { hub, can_add_content: true })
        .unwrap();

    let handle = b"hub-h".to_vec();
    let slug = b"my-post".to_vec();
    let uri = b"ipfs://abc".to_vec();
    let now: i64 = 1_700_000_000;
    let event = state
        .try_post_init_via_hub(&handle, &slug, &uri, &collaborator, now)
        .expect("all addresses must derive")
        .expect("post initialization must succeed");

    assert_eq!(state.posts.len(), 1);
    assert_eq!(state.hub_posts.len(), 1);
    assert_eq!(state.content.len(), 1);

    let post = &state.posts[0].record;
    assert_eq!(post.author, collaborator);
    assert_eq!(post.published_through_hub, hub);
    assert_eq!(post.created_at, now);
    assert_eq!(post.updated_at, now);
    assert_eq!(post.slug.as_bytes().as_slice(), b"my-post");
    assert_eq!(post.uri.as_bytes().as_slice(), b"ipfs://abc");

    let hub_post = &state.hub_posts[0];
    assert_eq!(hub_post.record.hub, hub);
    assert_eq!(hub_post.record.post, state.posts[0].address);
    assert_eq!(hub_post.record.version_uri.as_bytes().as_slice(), b"ipfs://abc");

    let content = state.content.entry_at(0);
    assert_eq!(content.record.hub, hub);
    assert_eq!(content.record.added_by, collaborator);
    assert_eq!(content.record.child, hub_post.address);
    assert_eq!(content.record.content_type, HubContentType::Post);
    assert_eq!(content.record.datetime, post.created_at);

    assert_eq!(event.public_key, hub_post.address);
    assert_eq!(event.hub, hub);
    assert_eq!(event.uri.as_slice(), b"ipfs://abc");
}

#[test]
fn post_init_retry_same_slug_duplicate() {
    let mut state = HubState::new();
    let owner = addr(1);
    let collaborator = addr(2);
    let hub = setup_hub(&mut state, b"hub-h", owner);
    state
        .registry
        .grant_collaborator(collaborator, HubCollaborator { hub, can_add_content: true })
        .unwrap();

    let handle = b"hub-h".to_vec();
    let slug = b"my-post".to_vec();
    let uri = b"ipfs://abc".to_vec();
    let now: i64 = 1_700_000_000;
    state
        .try_post_init_via_hub(&handle, &slug, &uri, &collaborator, now)
        .unwrap()
        .unwrap();

    let retry = state
        .try_post_init_via_hub(&handle, &slug, &uri, &collaborator, now + 5)
        .unwrap();
    assert_eq!(retry.unwrap_err(), NinaError::DuplicateRecord);
    // state unchanged from the first scenario
    assert_eq!(state.posts.len(), 1);
    assert_eq!(state.hub_posts.len(), 1);
    assert_eq!(state.content.len(), 1);
    assert_eq!(state.posts[0].record.created_at, now);
    assert_eq!(state.posts[0].record.author, collaborator);
}

#[test]
fn post_init_unauthorized() {
    let mut state = HubState::new();
    let owner = addr(1);
    let stranger = addr(2);
    let revoked = addr(4);
    let hub = setup_hub(&mut state, b"hub-h", owner);
    state
        .registry
        .grant_collaborator(revoked, HubCollaborator { hub, can_add_content: false })
        .unwrap();

    let handle = b"hub-h".to_vec();
    let slug = b"my-post".to_vec();
    let uri = b"ipfs://abc".to_vec();
    let r = state
        .try_post_init_via_hub(&handle, &slug, &uri, &stranger, 7)
        .unwrap();
    assert_eq!(r.unwrap_err(), NinaError::Unauthorized);
    let r2 = state
        .try_post_init_via_hub(&handle, &slug, &uri, &revoked, 7)
        .unwrap();
    assert_eq!(r2.unwrap_err(), NinaError::Unauthorized);
    assert_eq!(state.posts.len(), 0);
    assert_eq!(state.content.len(), 0);
}

#[test]
fn post_init_overlong_fields_rejected() {
    let mut state = HubState::new();
    let owner = addr(1);
    let collaborator = addr(2);
    let hub = setup_hub(&mut state, b"hub-h", owner);
    state
        .registry
        .grant_collaborator(collaborator, HubCollaborator { hub, can_add_content: true })
        .unwrap();

    let handle = b"hub-h".to_vec();
    let long = vec![b'x'; 101];
    let ok_uri = b"ipfs://abc".to_vec();
    let r = state
        .try_post_init_via_hub(&handle, &long, &ok_uri, &collaborator, 7)
        .unwrap();
    assert_eq!(r.unwrap_err(), NinaError::FieldTooLong);

    let ok_slug = b"my-post".to_vec();
    let r2 = state
        .try_post_init_via_hub(&handle, &ok_slug, &long, &collaborator, 7)
        .unwrap();
    assert_eq!(r2.unwrap_err(), NinaError::FieldTooLong);

    // no partial writes are observable
    assert_eq!(state.posts.len(), 0);
    assert_eq!(state.hub_posts.len(), 0);
    assert_eq!(state.content.len(), 0);
}

#[test]
fn post_init_unknown_hub_not_found() {
    let mut state = HubState::new();
    let collaborator = addr(2);
    let handle = b"nobody-home".to_vec();
    let r = state
        .try_post_init_via_hub(
            &handle,
            &b"my-post".to_vec(),
            &b"ipfs://abc".to_vec(),
            &collaborator,
            7,
        )
        .unwrap();
    assert_eq!(r.unwrap_err(), NinaError::NotFound);
}

#[test]
fn revoked_artist_cannot_add_release() {
    let mut state = HubState::new();
    let owner = addr(1);
    let artist = addr(2);
    let release = addr(3);
    let other_release = addr(4);
    let hub = setup_hub(&mut state, b"hub-one", owner);
    state.register_release(&release).unwrap();
    state.register_release(&other_release).unwrap();
    state
        .registry
        .grant_artist(artist, HubArtist { hub, can_add_release: true })
        .unwrap();
    state
        .try_hub_add_release(&hub, &release, &artist)
        .unwrap()
        .unwrap();

    state
        .registry
        .set_artist_permission(&hub, &artist, false)
        .unwrap();
    let r = state
        .try_hub_add_release(&hub, &other_release, &artist)
        .unwrap();
    assert_eq!(r.unwrap_err(), NinaError::Unauthorized);
    assert_eq!(state.hub_releases.len(), 1);

    state
        .registry
        .set_artist_permission(&hub, &artist, true)
        .unwrap();
    state
        .try_hub_add_release(&hub, &other_release, &artist)
        .unwrap()
        .unwrap();
    assert_eq!(state.hub_releases.len(), 2);
}

#[test]
fn content_index_keeps_publish_order() {
    let mut state = HubState::new();
    let owner = addr(1);
    let collaborator = addr(2);
    let hub = setup_hub(&mut state, b"hub-h", owner);
    state
        .registry
        .grant_collaborator(collaborator, HubCollaborator { hub, can_add_content: true })
        .unwrap();

    let handle = b"hub-h".to_vec();
    let uri = b"ipfs://abc".to_vec();
    let slugs: [&[u8]; 3] = [b"first", b"second", b"third"];
    for (k, slug) in slugs.iter().enumerate() {
        state
            .try_post_init_via_hub(&handle, &slug.to_vec(), &uri, &collaborator, 100 + k as i64)
            .unwrap()
            .unwrap();
    }
    assert_eq!(state.content.len(), 3);
    for k in 0..3 {
        assert_eq!(state.content.entry_at(k).record.datetime, 100 + k as i64);
    }
    // each post lives at its own derived address
    assert_ne!(state.posts[0].address, state.posts[1].address);
    assert_ne!(state.posts[1].address, state.posts[2].address);
    assert_ne!(state.posts[0].address, state.posts[2].address);
}

#[test]
fn post_init_slug_over_seed_limit_underivable() {
    // a slug within the text capacity but over the 32-byte seed limit:
    // no post address can be derived, nothing changes
    let mut state = HubState::new();
    let owner = addr(1);
    let collaborator = addr(2);
    let hub = setup_hub(&mut state, b"hub-h", owner);
    state
        .registry
        .grant_collaborator(collaborator, HubCollaborator { hub, can_add_content: true })
        .unwrap();

    let handle = b"hub-h".to_vec();
    let slug = vec![b's'; 40];
    let r = state.try_post_init_via_hub(
        &handle,
        &slug,
        &b"ipfs://abc".to_vec(),
        &collaborator,
        7,
    );
    assert!(r.is_none());
    assert_eq!(state.posts.len(), 0);
    assert_eq!(state.content.len(), 0);
}
