//! Groups: who can join as a member, what a new one publishes, and which have to be fetched.
use vstd::prelude::*;

use crate::model::groups::{Group, GroupView};
use crate::model::profile::ProfileKey;
use crate::proto::{GroupV2Record, GroupV2RecordView};
use crate::service_id::{Aci, ServiceId};
use crate::text;

verus! {

/// A group in the store, with the key that it is stored under.
pub struct StoredGroup {
    pub master_key: [u8; 32],
    pub group: Group,
}

/// Whose credential to ask for, so that someone can join as a full member: nobody's where the
/// id has no ACI, or no profile key is on file. Such a one can only be invited.
pub fn credential_request(service_id: ServiceId, profile_key: Option<ProfileKey>) -> (request:
    Option<(Aci, ProfileKey)>)
    ensures
        match request {
            Some((aci, key)) => service_id.deep_view().aci() == Some(aci.deep_view())
                && profile_key == Some(key),
            None => service_id.deep_view().aci() is None || profile_key is None,
        },
{
    match service_id.aci() {
        Some(aci) => match profile_key {
            Some(key) => Some((aci, key)),
            None => None,
        },
        None => None,
    }
}

/// The storage record of a group that this device created. It shares its profile with the
/// group, which is the record's `whitelisted`.
pub open spec fn created_record(master_key: Seq<u8>) -> GroupV2RecordView {
    GroupV2RecordView { master_key, whitelisted: true, ..GroupV2RecordView::empty() }
}

/// The storage record of a group that this device created: the other devices learn about the
/// group from it.
pub fn create_group(master_key: &[u8; 32]) -> (record: GroupV2Record)
    ensures
        record.deep_view() == created_record(master_key@),
{
    broadcast use text::lemma_bytes_view;

    let key = vstd::slice::slice_to_vec(master_key);
    proof {
        assert(key@ =~= master_key@);
    }
    let record = GroupV2Record {
        master_key: key,
        whitelisted: true,
        ..GroupV2Record::default()
    };
    assert(record.deep_view() =~= created_record(master_key@));
    record
}

/// The keys of the groups of which no more is known than their keys.
pub open spec fn stubs(groups: Seq<StoredGroup>) -> Seq<[u8; 32]>
    decreases groups.len(),
{
    if groups.len() == 0 {
        Seq::empty()
    } else if groups.last().group.needs_hydration {
        stubs(groups.drop_last()).push(groups.last().master_key)
    } else {
        stubs(groups.drop_last())
    }
}

/// The keys of the groups that have to be fetched before they can be shown.
pub fn hydrate_groups(groups: &Vec<StoredGroup>) -> (keys: Vec<[u8; 32]>)
    ensures
        keys@ == stubs(groups@),
{
    let mut keys: Vec<[u8; 32]> = Vec::new();
    let mut i: usize = 0;
    proof {
        assert(keys@ =~= stubs(groups@.take(0)));
    }
    while i < groups.len()
        invariant
            i <= groups@.len(),
            keys@ == stubs(groups@.take(i as int)),
        decreases groups@.len() - i,
    {
        proof {
            assert(groups@.take(i + 1).drop_last() =~= groups@.take(i as int));
        }
        if groups[i].group.needs_hydration {
            keys.push(groups[i].master_key);
        }
        i = i + 1;
    }
    assert(groups@.take(i as int) =~= groups@);
    keys
}

/// A group that was fetched in full.
pub fn hydrated(group: Group) -> (r: Group)
    ensures
        r.deep_view() == (GroupView { needs_hydration: false, ..group.deep_view() }),
{
    let mut r = group;
    r.needs_hydration = false;
    r
}

/// The path of the avatar of a group. An empty path means that no avatar was set.
pub fn retrieve_group_avatar(group: &Group) -> (path: Option<String>)
    ensures
        path.deep_view() == (match group.deep_view().avatar {
            Some(path) => if path.len() > 0 {
                Some(path)
            } else {
                None
            },
            None => None,
        }),
{
    match &group.avatar {
        Some(path) => if !path.as_str().is_empty() {
            Some(path.clone())
        } else {
            None
        },
        None => None,
    }
}

/// What to do for the avatar of a profile.
#[derive(Debug, Clone, Copy, PartialEq, Eq, Structural)]
pub enum AvatarStep {
    /// The profile has none.
    Absent,
    /// What is stored is current.
    Cached,
    /// It has to be downloaded, and stored.
    Download,
}

/// What to do for the avatar of a profile. `url` is where the profile says its avatar is, and
/// `cached` where the stored one was downloaded from, if there is a stored one and that is
/// known. The address acts as the version: if it changed, the avatar changed.
pub fn retrieve_profile_avatar_by_uuid(url: &Option<String>, cached: &Option<String>) -> (step:
    AvatarStep)
    ensures
        step == (match url.deep_view() {
            Some(url) => if cached.deep_view() == Some(url) {
                AvatarStep::Cached
            } else {
                AvatarStep::Download
            },
            None => AvatarStep::Absent,
        }),
{
    match url {
        Some(url) => match cached {
            Some(cached) => if text::str_equal(url.as_str(), cached.as_str()) {
                AvatarStep::Cached
            } else {
                AvatarStep::Download
            },
            None => AvatarStep::Download,
        },
        None => AvatarStep::Absent,
    }
}

} // verus!
