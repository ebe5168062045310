//! The membership registry: one capability record per (hub, principal)
//! pair, for release contributors (artists) and content contributors
//! (collaborators).
//!
//! Absence of a record means "no capability"; granting a second record for
//! the same pair is a duplicate, as the record's derived address would
//! collide.

use vstd::prelude::*;
use crate::addr::Address;
use crate::records::{HubArtist, HubArtistV, HubCollaborator, HubCollaboratorV, NinaError};

verus! {

/// An artist capability record together with the principal it was granted to.
pub struct ArtistEntry {
    pub principal: Address,
    pub record: HubArtist,
}

#[verifier::ext_equal]
pub struct ArtistEntryV {
    pub principal: Seq<u8>,
    pub record: HubArtistV,
}

impl View for ArtistEntry {
    type V = ArtistEntryV;

    open spec fn view(&self) -> ArtistEntryV {
        ArtistEntryV { principal: self.principal@, record: self.record@ }
    }
}

/// A collaborator capability record together with its principal.
pub struct CollaboratorEntry {
    pub principal: Address,
    pub record: HubCollaborator,
}

#[verifier::ext_equal]
pub struct CollaboratorEntryV {
    pub principal: Seq<u8>,
    pub record: HubCollaboratorV,
}

impl View for CollaboratorEntry {
    type V = CollaboratorEntryV;

    open spec fn view(&self) -> CollaboratorEntryV {
        CollaboratorEntryV { principal: self.principal@, record: self.record@ }
    }
}

/// Entry `i` is the artist record of (hub, principal).
pub open spec fn artist_at(s: Seq<ArtistEntryV>, hub: Seq<u8>, principal: Seq<u8>, i: int) -> bool {
    0 <= i < s.len() && s[i].record.hub == hub && s[i].principal == principal
}

/// Some artist record exists for (hub, principal).
pub open spec fn has_artist(s: Seq<ArtistEntryV>, hub: Seq<u8>, principal: Seq<u8>) -> bool {
    exists|i: int| artist_at(s, hub, principal, i)
}

/// An artist record for (hub, principal) exists and its flag is set.
pub open spec fn artist_can_add_release(
    s: Seq<ArtistEntryV>,
    hub: Seq<u8>,
    principal: Seq<u8>,
) -> bool {
    exists|i: int| #[trigger] artist_at(s, hub, principal, i) && s[i].record.can_add_release
}

/// Entry `i` is the collaborator record of (hub, principal).
pub open spec fn collaborator_at(
    s: Seq<CollaboratorEntryV>,
    hub: Seq<u8>,
    principal: Seq<u8>,
    i: int,
) -> bool {
    0 <= i < s.len() && s[i].record.hub == hub && s[i].principal == principal
}

/// Some collaborator record exists for (hub, principal).
pub open spec fn has_collaborator(
    s: Seq<CollaboratorEntryV>,
    hub: Seq<u8>,
    principal: Seq<u8>,
) -> bool {
    exists|i: int| collaborator_at(s, hub, principal, i)
}

/// A collaborator record for (hub, principal) exists and its flag is set.
pub open spec fn collaborator_can_add_content(
    s: Seq<CollaboratorEntryV>,
    hub: Seq<u8>,
    principal: Seq<u8>,
) -> bool {
    exists|i: int| #[trigger] collaborator_at(s, hub, principal, i)
        && s[i].record.can_add_content
}

#[verifier::ext_equal]
pub struct RegistryV {
    pub artists: Seq<ArtistEntryV>,
    pub collaborators: Seq<CollaboratorEntryV>,
}

impl RegistryV {
    /// At most one record per (hub, principal) pair, in each table.
    pub open spec fn wf(self) -> bool {
        &&& forall|i: int, j: int|
            0 <= i < self.artists.len() && 0 <= j < self.artists.len() && i != j
                ==> !((#[trigger] self.artists[i]).record.hub
                    == (#[trigger] self.artists[j]).record.hub
                    && self.artists[i].principal == self.artists[j].principal)
        &&& forall|i: int, j: int|
            0 <= i < self.collaborators.len() && 0 <= j < self.collaborators.len() && i != j
                ==> !((#[trigger] self.collaborators[i]).record.hub
                    == (#[trigger] self.collaborators[j]).record.hub
                    && self.collaborators[i].principal == self.collaborators[j].principal)
    }
}

/// The membership registry of the whole graph.
pub struct MembershipRegistry {
    artists: Vec<ArtistEntry>,
    collaborators: Vec<CollaboratorEntry>,
}

impl View for MembershipRegistry {
    type V = RegistryV;

    closed spec fn view(&self) -> RegistryV {
        RegistryV {
            artists: self.artists@.map_values(|e: ArtistEntry| e@),
            collaborators: self.collaborators@.map_values(|e: CollaboratorEntry| e@),
        }
    }
}

impl MembershipRegistry {
    pub fn new() -> (r: MembershipRegistry)
        ensures
            r@.artists.len() == 0,
            r@.collaborators.len() == 0,
            r@.wf(),
    {
        MembershipRegistry { artists: Vec::new(), collaborators: Vec::new() }
    }

    /// May this principal link releases into this hub? Absence of a record
    /// means no.
    pub fn can_add_release(&self, hub: &Address, principal: &Address) -> (r: bool)
        ensures
            r == artist_can_add_release(self@.artists, hub@, principal@),
    {
        let mut i: usize = 0;
        while i < self.artists.len()
            invariant
                0 <= i <= self.artists.len(),
                forall|j: int|
                    0 <= j < i ==> !(#[trigger] artist_at(self@.artists, hub@, principal@, j)
                        && self@.artists[j].record.can_add_release),
            decreases self.artists.len() - i,
        {
            let e = &self.artists[i];
            if e.record.hub.equals(hub) && e.principal.equals(principal)
                && e.record.can_add_release {
                proof {
                    assert(artist_at(self@.artists, hub@, principal@, i as int)
                        && self@.artists[i as int].record.can_add_release);
                }
                return true;
            }
            i += 1;
        }
        false
    }

    /// May this principal initialize posts in this hub? Absence of a record
    /// means no.
    pub fn can_add_content(&self, hub: &Address, principal: &Address) -> (r: bool)
        ensures
            r == collaborator_can_add_content(self@.collaborators, hub@, principal@),
    {
        let mut i: usize = 0;
        while i < self.collaborators.len()
            invariant
                0 <= i <= self.collaborators.len(),
                forall|j: int|
                    0 <= j < i ==> !(#[trigger] collaborator_at(
                        self@.collaborators,
                        hub@,
                        principal@,
                        j,
                    ) && self@.collaborators[j].record.can_add_content),
            decreases self.collaborators.len() - i,
        {
            let e = &self.collaborators[i];
            if e.record.hub.equals(hub) && e.principal.equals(principal)
                && e.record.can_add_content {
                proof {
                    assert(collaborator_at(self@.collaborators, hub@, principal@, i as int)
                        && self@.collaborators[i as int].record.can_add_content);
                }
                return true;
            }
            i += 1;
        }
        false
    }

    /// The artist record of (hub, principal), if one exists.
    pub fn lookup_artist(&self, hub: &Address, principal: &Address) -> (r: Option<&HubArtist>)
        ensures
            match r {
                Some(rec) => exists|i: int|
                    #[trigger] artist_at(self@.artists, hub@, principal@, i)
                        && self@.artists[i].record == rec@,
                None => !has_artist(self@.artists, hub@, principal@),
            },
    {
        let mut i: usize = 0;
        while i < self.artists.len()
            invariant
                0 <= i <= self.artists.len(),
                forall|j: int| 0 <= j < i ==> !artist_at(self@.artists, hub@, principal@, j),
            decreases self.artists.len() - i,
        {
            let e = &self.artists[i];
            if e.record.hub.equals(hub) && e.principal.equals(principal) {
                proof {
                    assert(artist_at(self@.artists, hub@, principal@, i as int));
                }
                return Some(&e.record);
            }
            i += 1;
        }
        None
    }

    /// The collaborator record of (hub, principal), if one exists.
    pub fn lookup_collaborator(&self, hub: &Address, principal: &Address) -> (r: Option<
        &HubCollaborator,
    >)
        ensures
            match r {
                Some(rec) => exists|i: int|
                    #[trigger] collaborator_at(self@.collaborators, hub@, principal@, i)
                        && self@.collaborators[i].record == rec@,
                None => !has_collaborator(self@.collaborators, hub@, principal@),
            },
    {
        let mut i: usize = 0;
        while i < self.collaborators.len()
            invariant
                0 <= i <= self.collaborators.len(),
                forall|j: int|
                    0 <= j < i ==> !collaborator_at(self@.collaborators, hub@, principal@, j),
            decreases self.collaborators.len() - i,
        {
            let e = &self.collaborators[i];
            if e.record.hub.equals(hub) && e.principal.equals(principal) {
                proof {
                    assert(collaborator_at(self@.collaborators, hub@, principal@, i as int));
                }
                return Some(&e.record);
            }
            i += 1;
        }
        None
    }

    /// Grant an artist capability record to a principal. A second record for
    /// the same (hub, principal) pair is a duplicate.
    pub fn grant_artist(&mut self, principal: Address, record: HubArtist) -> (r: Result<
        (),
        NinaError,
    >)
        ensures
            has_artist(old(self)@.artists, record.hub@, principal@) ==> r == Err::<(), NinaError>(
                NinaError::DuplicateRecord,
            ) && final(self)@ == old(self)@,
            !has_artist(old(self)@.artists, record.hub@, principal@) ==> r == Ok::<(), NinaError>(
                (),
            ) && final(self)@.artists == old(self)@.artists.push(
                ArtistEntryV { principal: principal@, record: record@ },
            ) && final(self)@.collaborators == old(self)@.collaborators,
            old(self)@.wf() ==> final(self)@.wf(),
    {
        let mut i: usize = 0;
        while i < self.artists.len()
            invariant
                0 <= i <= self.artists.len(),
                forall|j: int|
                    0 <= j < i ==> !artist_at(self@.artists, record.hub@, principal@, j),
            decreases self.artists.len() - i,
        {
            let e = &self.artists[i];
            if e.record.hub.equals(&record.hub) && e.principal.equals(&principal) {
                proof {
                    assert(artist_at(self@.artists, record.hub@, principal@, i as int));
                }
                return Err(NinaError::DuplicateRecord);
            }
            i += 1;
        }
        let ghost before = self@;
        let ghost entry_v = ArtistEntryV { principal: principal@, record: record@ };
        self.artists.push(ArtistEntry { principal, record });
        proof {
            assert(self@.artists =~= before.artists.push(entry_v));
            assert(self@.collaborators =~= before.collaborators);
            assert forall|i2: int, j2: int|
                0 <= i2 < self@.artists.len() && 0 <= j2 < self@.artists.len() && i2 != j2
                    && before.wf() implies !((#[trigger] self@.artists[i2]).record.hub
                == (#[trigger] self@.artists[j2]).record.hub
                && self@.artists[i2].principal == self@.artists[j2].principal) by {
                if i2 == before.artists.len() {
                    assert(!artist_at(before.artists, entry_v.record.hub, entry_v.principal, j2));
                } else if j2 == before.artists.len() {
                    assert(!artist_at(before.artists, entry_v.record.hub, entry_v.principal, i2));
                }
            }
        }
        Ok(())
    }

    /// Grant or revoke the release capability on an existing artist record.
    /// Mutating a record that does not exist is `NotFound` — an error
    /// distinct from a capability check coming up false.
    #[verifier::loop_isolation(false)]
    pub fn set_artist_permission(
        &mut self,
        hub: &Address,
        principal: &Address,
        can_add_release: bool,
    ) -> (r: Result<(), NinaError>)
        ensures
            !has_artist(old(self)@.artists, hub@, principal@) ==> r == Err::<(), NinaError>(
                NinaError::NotFound,
            ) && final(self)@ == old(self)@,
            has_artist(old(self)@.artists, hub@, principal@) ==> {
                &&& r == Ok::<(), NinaError>(())
                &&& final(self)@.collaborators == old(self)@.collaborators
                &&& exists|i: int|
                    #[trigger] artist_at(old(self)@.artists, hub@, principal@, i)
                        && final(self)@.artists == old(self)@.artists.update(
                        i,
                        ArtistEntryV {
                            principal: principal@,
                            record: HubArtistV { hub: hub@, can_add_release },
                        },
                    )
            },
            old(self)@.wf() ==> final(self)@.wf(),
            old(self)@.wf() && has_artist(old(self)@.artists, hub@, principal@)
                ==> artist_can_add_release(final(self)@.artists, hub@, principal@)
                == can_add_release,
    {
        let ghost before = self@;
        let mut i: usize = 0;
        while i < self.artists.len()
            invariant
                0 <= i <= self.artists.len(),
                self@ == before,
                forall|j: int| 0 <= j < i ==> !artist_at(before.artists, hub@, principal@, j),
            decreases self.artists.len() - i,
        {
            let e = &self.artists[i];
            if e.record.hub.equals(hub) && e.principal.equals(principal) {
                proof {
                    assert(artist_at(before.artists, hub@, principal@, i as int));
                }
                let removed = self.artists.remove(i);
                self.artists.insert(
                    i,
                    ArtistEntry {
                        principal: removed.principal,
                        record: HubArtist { hub: removed.record.hub, can_add_release },
                    },
                );
                proof {
                    let ghost updated = ArtistEntryV {
                        principal: principal@,
                        record: HubArtistV { hub: hub@, can_add_release },
                    };
                    assert(self@.artists =~= before.artists.update(i as int, updated));
                    assert(self@.collaborators =~= before.collaborators);
                    if before.wf() {
                        assert forall|i2: int, j2: int|
                            0 <= i2 < self@.artists.len() && 0 <= j2 < self@.artists.len()
                                && i2 != j2 implies !((#[trigger] self@.artists[i2]).record.hub
                            == (#[trigger] self@.artists[j2]).record.hub
                            && self@.artists[i2].principal == self@.artists[j2].principal) by {
                            assert(before.artists[i2].record.hub == self@.artists[i2].record.hub
                                && before.artists[i2].principal == self@.artists[i2].principal);
                            assert(before.artists[j2].record.hub == self@.artists[j2].record.hub
                                && before.artists[j2].principal == self@.artists[j2].principal);
                        }
                        if can_add_release {
                            assert(artist_at(self@.artists, hub@, principal@, i as int)
                                && self@.artists[i as int].record.can_add_release);
                        } else {
                            assert forall|k: int|
                                !(#[trigger] artist_at(self@.artists, hub@, principal@, k)
                                    && self@.artists[k].record.can_add_release) by {
                                if k != i && artist_at(self@.artists, hub@, principal@, k) {
                                    assert(artist_at(before.artists, hub@, principal@, k));
                                    assert(artist_at(before.artists, hub@, principal@, i as int));
                                    assert(false);
                                }
                            }
                        }
                    }
                }
                return Ok(());
            }
            i += 1;
        }
        Err(NinaError::NotFound)
    }

    /// Grant or revoke the content capability on an existing collaborator
    /// record. Mutating a record that does not exist is `NotFound`.
    #[verifier::loop_isolation(false)]
    pub fn set_collaborator_permission(
        &mut self,
        hub: &Address,
        principal: &Address,
        can_add_content: bool,
    ) -> (r: Result<(), NinaError>)
        ensures
            !has_collaborator(old(self)@.collaborators, hub@, principal@) ==> r == Err::<
                (),
                NinaError,
            >(NinaError::NotFound) && final(self)@ == old(self)@,
            has_collaborator(old(self)@.collaborators, hub@, principal@) ==> {
                &&& r == Ok::<(), NinaError>(())
                &&& final(self)@.artists == old(self)@.artists
                &&& exists|i: int|
                    #[trigger] collaborator_at(old(self)@.collaborators, hub@, principal@, i)
                        && final(self)@.collaborators == old(self)@.collaborators.update(
                        i,
                        CollaboratorEntryV {
                            principal: principal@,
                            record: HubCollaboratorV { hub: hub@, can_add_content },
                        },
                    )
            },
            old(self)@.wf() ==> final(self)@.wf(),
            old(self)@.wf() && has_collaborator(old(self)@.collaborators, hub@, principal@)
                ==> collaborator_can_add_content(final(self)@.collaborators, hub@, principal@)
                == can_add_content,
    {
        let ghost before = self@;
        let mut i: usize = 0;
        while i < self.collaborators.len()
            invariant
                0 <= i <= self.collaborators.len(),
                self@ == before,
                forall|j: int| 0 <= j < i ==> !collaborator_at(before.collaborators, hub@, principal@, j),
            decreases self.collaborators.len() - i,
        {
            let e = &self.collaborators[i];
            if e.record.hub.equals(hub) && e.principal.equals(principal) {
                proof {
                    assert(collaborator_at(before.collaborators, hub@, principal@, i as int));
                }
                let removed = self.collaborators.remove(i);
                self.collaborators.insert(
                    i,
                    CollaboratorEntry {
                        principal: removed.principal,
                        record: HubCollaborator { hub: removed.record.hub, can_add_content },
                    },
                );
                proof {
                    let ghost updated = CollaboratorEntryV {
                        principal: principal@,
                        record: HubCollaboratorV { hub: hub@, can_add_content },
                    };
                    assert(self@.collaborators =~= before.collaborators.update(i as int, updated));
                    assert(self@.artists =~= before.artists);
                    if before.wf() {
                        assert forall|i2: int, j2: int|
                            0 <= i2 < self@.collaborators.len() && 0 <= j2
                                < self@.collaborators.len() && i2 != j2 implies !((
                        #[trigger] self@.collaborators[i2]).record.hub
                            == (#[trigger] self@.collaborators[j2]).record.hub
                            && self@.collaborators[i2].principal
                            == self@.collaborators[j2].principal) by {
                            assert(before.collaborators[i2].record.hub
                                == self@.collaborators[i2].record.hub
                                && before.collaborators[i2].principal
                                == self@.collaborators[i2].principal);
                            assert(before.collaborators[j2].record.hub
                                == self@.collaborators[j2].record.hub
                                && before.collaborators[j2].principal
                                == self@.collaborators[j2].principal);
                        }
                        if can_add_content {
                            assert(collaborator_at(self@.collaborators, hub@, principal@, i as int)
                                && self@.collaborators[i as int].record.can_add_content);
                        } else {
                            assert forall|k: int|
                                !(#[trigger] collaborator_at(self@.collaborators, hub@, principal@, k)
                                    && self@.collaborators[k].record.can_add_content) by {
                                if k != i && collaborator_at(self@.collaborators, hub@, principal@, k) {
                                    assert(collaborator_at(before.collaborators, hub@, principal@, k));
                                    assert(collaborator_at(
                                        before.collaborators,
                                        hub@,
                                        principal@,
                                        i as int,
                                    ));
                                    assert(false);
                                }
                            }
                        }
                    }
                }
                return Ok(());
            }
            i += 1;
        }
        Err(NinaError::NotFound)
    }

    /// Grant a collaborator capability record to a principal. A second record
    /// for the same (hub, principal) pair is a duplicate.
    pub fn grant_collaborator(&mut self, principal: Address, record: HubCollaborator) -> (r:
        Result<(), NinaError>)
        ensures
            has_collaborator(old(self)@.collaborators, record.hub@, principal@) ==> r == Err::<
                (),
                NinaError,
            >(NinaError::DuplicateRecord) && final(self)@ == old(self)@,
            !has_collaborator(old(self)@.collaborators, record.hub@, principal@) ==> r == Ok::<
                (),
                NinaError,
            >(()) && final(self)@.collaborators == old(self)@.collaborators.push(
                CollaboratorEntryV { principal: principal@, record: record@ },
            ) && final(self)@.artists == old(self)@.artists,
            old(self)@.wf() ==> final(self)@.wf(),
    {
        let mut i: usize = 0;
        while i < self.collaborators.len()
            invariant
                0 <= i <= self.collaborators.len(),
                forall|j: int|
                    0 <= j < i ==> !collaborator_at(self@.collaborators, record.hub@, principal@, j),
            decreases self.collaborators.len() - i,
        {
            let e = &self.collaborators[i];
            if e.record.hub.equals(&record.hub) && e.principal.equals(&principal) {
                proof {
                    assert(collaborator_at(self@.collaborators, record.hub@, principal@, i as int));
                }
                return Err(NinaError::DuplicateRecord);
            }
            i += 1;
        }
        let ghost before = self@;
        let ghost entry_v = CollaboratorEntryV { principal: principal@, record: record@ };
        self.collaborators.push(CollaboratorEntry { principal, record });
        proof {
            assert(self@.collaborators =~= before.collaborators.push(entry_v));
            assert(self@.artists =~= before.artists);
            assert forall|i2: int, j2: int|
                0 <= i2 < self@.collaborators.len() && 0 <= j2 < self@.collaborators.len()
                    && i2 != j2 && before.wf() implies !((#[trigger] self@.collaborators[i2]).record.hub
                == (#[trigger] self@.collaborators[j2]).record.hub
                && self@.collaborators[i2].principal == self@.collaborators[j2].principal) by {
                if i2 == before.collaborators.len() {
                    assert(!collaborator_at(
                        before.collaborators,
                        entry_v.record.hub,
                        entry_v.principal,
                        j2,
                    ));
                } else if j2 == before.collaborators.len() {
                    assert(!collaborator_at(
                        before.collaborators,
                        entry_v.record.hub,
                        entry_v.principal,
                        i2,
                    ));
                }
            }
        }
        Ok(())
    }
}

} // verus!
