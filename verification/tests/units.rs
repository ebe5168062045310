//! Unit tests of the identifier deriver, the bounded text fields, the
//! membership registry and the subscription types.

use nina::addr::{derive_address, Address};
use nina::records::{
    HubArtist, HubCollaborator, NinaError, Subscription, SubscriptionType,
};
use nina::registry::MembershipRegistry;
use nina::text::BoundedText;

fn addr(byte: u8) -> Address {
    Address::new([byte; 32])
}

#[test]
fn derivation_is_deterministic() {
    let tag = b"nina-hub-release".to_vec();
    let parents = vec![[1u8; 32].to_vec(), [2u8; 32].to_vec()];
    let a = derive_address(tag.clone(), parents.clone()).expect("must derive");
    let b = derive_address(tag, parents).expect("must derive");
    assert_eq!(a, b);
}

#[test]
fn derivation_differs_on_any_parent() {
    let tag = b"nina-hub-release".to_vec();
    let a = derive_address(tag.clone(), vec![[1u8; 32].to_vec(), [2u8; 32].to_vec()])
        .expect("must derive");
    let b = derive_address(tag.clone(), vec![[1u8; 32].to_vec(), [3u8; 32].to_vec()])
        .expect("must derive");
    let c = derive_address(tag, vec![[4u8; 32].to_vec(), [2u8; 32].to_vec()])
        .expect("must derive");
    assert_ne!(a, b);
    assert_ne!(a, c);
    assert_ne!(b, c);
}

#[test]
fn derivation_differs_on_the_tag() {
    let parents = vec![[1u8; 32].to_vec(), [2u8; 32].to_vec()];
    let a = derive_address(b"nina-hub-post".to_vec(), parents.clone()).expect("must derive");
    let b = derive_address(b"nina-hub-content".to_vec(), parents).expect("must derive");
    assert_ne!(a, b);
}

#[test]
fn derivation_transforms_its_input() {
    // the derived address is a hash, not one of the seeds handed in
    let parent = [5u8; 32];
    let a = derive_address(b"nina-hub".to_vec(), vec![parent.to_vec()]).expect("must derive");
    assert_ne!(a.bytes, parent);
    assert_ne!(a.bytes, [0u8; 32]);
}

#[test]
fn derivation_matches_reference() {
    // the library's deriver and a direct call into anchor_lang, under the
    // same fixed program id, agree
    let tag = b"nina-hub";
    let parent = [5u8; 32];
    let lib = derive_address(tag.to_vec(), vec![parent.to_vec()]).expect("must derive");
    let program_id = anchor_lang::prelude::Pubkey::new_from_array([0u8; 32]);
    let (pk, _bump) = anchor_lang::prelude::Pubkey::try_find_program_address(
        &[tag.as_slice(), parent.as_slice()],
        &program_id,
    )
    .expect("must derive");
    assert_eq!(lib.bytes, pk.to_bytes());
}

#[test]
fn derivation_refuses_overlong_seed() {
    let a = derive_address(b"nina-post".to_vec(), vec![vec![b's'; 40]]);
    assert!(a.is_none());
}

#[test]
fn bounded_text_at_capacity() {
    let exact = vec![b'a'; 100];
    let t = BoundedText::new(exact.clone()).expect("100 bytes fit");
    assert_eq!(t.as_bytes().as_slice(), exact.as_slice());
    assert_eq!(t.len(), 100);
    assert_eq!(t.to_vec(), exact);
}

#[test]
fn bounded_text_over_capacity() {
    let over = vec![b'a'; 101];
    assert_eq!(BoundedText::new(over).unwrap_err(), NinaError::FieldTooLong);
}

#[test]
fn grant_artist_twice_is_duplicate() {
    let mut registry = MembershipRegistry::new();
    let hub = addr(1);
    let principal = addr(2);
    registry
        .grant_artist(principal, HubArtist { hub, can_add_release: true })
        .unwrap();
    let second = registry.grant_artist(principal, HubArtist { hub, can_add_release: false });
    assert_eq!(second.unwrap_err(), NinaError::DuplicateRecord);
    assert!(registry.can_add_release(&hub, &principal));
}

#[test]
fn grant_collaborator_twice_is_duplicate() {
    let mut registry = MembershipRegistry::new();
    let hub = addr(1);
    let principal = addr(2);
    registry
        .grant_collaborator(principal, HubCollaborator { hub, can_add_content: false })
        .unwrap();
    let second =
        registry.grant_collaborator(principal, HubCollaborator { hub, can_add_content: true });
    assert_eq!(second.unwrap_err(), NinaError::DuplicateRecord);
    assert!(!registry.can_add_content(&hub, &principal));
}

#[test]
fn registry_lookup_and_absence() {
    let mut registry = MembershipRegistry::new();
    let hub = addr(1);
    let other_hub = addr(3);
    let principal = addr(2);
    assert!(registry.lookup_artist(&hub, &principal).is_none());
    registry
        .grant_artist(principal, HubArtist { hub, can_add_release: true })
        .unwrap();
    let rec = registry.lookup_artist(&hub, &principal).expect("record exists");
    assert!(rec.can_add_release());
    // a grant in one hub gives nothing in another
    assert!(registry.lookup_artist(&other_hub, &principal).is_none());
    assert!(!registry.can_add_release(&other_hub, &principal));

    assert!(registry.lookup_collaborator(&hub, &principal).is_none());
    registry
        .grant_collaborator(principal, HubCollaborator { hub, can_add_content: true })
        .unwrap();
    let collab = registry
        .lookup_collaborator(&hub, &principal)
        .expect("record exists");
    assert!(collab.can_add_content());
}

#[test]
fn set_permission_on_absent_record_not_found() {
    let mut registry = MembershipRegistry::new();
    let hub = addr(1);
    let principal = addr(2);
    let r = registry.set_artist_permission(&hub, &principal, true);
    assert_eq!(r.unwrap_err(), NinaError::NotFound);
    let r2 = registry.set_collaborator_permission(&hub, &principal, true);
    assert_eq!(r2.unwrap_err(), NinaError::NotFound);
}

#[test]
fn set_permission_flips_the_flag() {
    let mut registry = MembershipRegistry::new();
    let hub = addr(1);
    let principal = addr(2);
    registry
        .grant_artist(principal, HubArtist { hub, can_add_release: true })
        .unwrap();
    registry.set_artist_permission(&hub, &principal, false).unwrap();
    assert!(!registry.can_add_release(&hub, &principal));
    registry.set_artist_permission(&hub, &principal, true).unwrap();
    assert!(registry.can_add_release(&hub, &principal));

    registry
        .grant_collaborator(principal, HubCollaborator { hub, can_add_content: false })
        .unwrap();
    registry
        .set_collaborator_permission(&hub, &principal, true)
        .unwrap();
    assert!(registry.can_add_content(&hub, &principal));
}

#[test]
fn subscription_default_and_fields() {
    assert_eq!(SubscriptionType::default(), SubscriptionType::Account);
    let s = Subscription {
        from: addr(1),
        to: addr(2),
        subscription_type: SubscriptionType::Hub,
    };
    assert_eq!(s.subscription_type, SubscriptionType::Hub);
    assert_eq!(s.from, addr(1));
    assert_eq!(s.to, addr(2));
}
