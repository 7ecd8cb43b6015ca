//! What managing groups promises.
use vstd::prelude::*;

use crate::model::groups::{Group, GroupView};
use crate::model::profile::ProfileKey;
use crate::proto::GroupV2Record;
use crate::service_id::{Aci, ServiceId};
use crate::text;

use super::groups;
use super::groups::{AvatarStep, StoredGroup};

verus! {

/// A credential is asked for somebody with an account identity whose profile key is known, with
/// that identity and that key.
pub proof fn law_credentials_need_an_identity_and_a_key(
    id: ServiceId,
    profile_key: Option<ProfileKey>,
    request: Option<(Aci, ProfileKey)>,
)
    requires
        call_ensures(groups::credential_request, (id, profile_key), request),
    ensures
        request is Some <==> id is Aci && profile_key is Some,
        request is Some ==> (request->0).0.uuid.bytes@ == id->Aci_0.uuid.bytes@,
        request is Some ==> (request->0).1 == profile_key->0,
{
}

/// A group that was made here is published under its key, as one that the user wants.
pub proof fn law_a_new_group_is_wanted(master_key: [u8; 32], record: GroupV2Record)
    requires
        call_ensures(groups::create_group, (&master_key,), record),
    ensures
        record.master_key@ == master_key@,
        record.whitelisted,
        !record.blocked,
        !record.archived,
        !record.marked_unread,
        !record.hide_story,
        record.muted_until_timestamp == 0,
{
    broadcast use text::lemma_bytes_view;

    assert(record.deep_view().master_key == record.master_key.deep_view());
}

/// Exactly the groups that are still to be fetched are fetched.
pub proof fn law_exactly_the_stubs_are_fetched(
    list: Vec<StoredGroup>,
    keys: Vec<[u8; 32]>,
    key: [u8; 32],
)
    requires
        call_ensures(groups::hydrate_groups, (&list,), keys),
    ensures
        keys@.contains(key) <==> exists|i: int|
            0 <= i < list@.len() && (#[trigger] list@[i]).group.needs_hydration
                && list@[i].master_key == key,
{
    lemma_stubs(list@, key);
}

proof fn lemma_stubs(list: Seq<StoredGroup>, key: [u8; 32])
    ensures
        groups::stubs(list).contains(key) <==> exists|i: int|
            0 <= i < list.len() && (#[trigger] list[i]).group.needs_hydration && list[i].master_key
                == key,
    decreases list.len(),
{
    if list.len() > 0 {
        let before = list.drop_last();
        let end = list.len() - 1;
        let first = groups::stubs(before);
        let all = groups::stubs(list);
        lemma_stubs(before, key);
        if all.contains(key) {
            let k = choose|k: int| 0 <= k < all.len() && all[k] == key;
            if k < first.len() {
                assert(first[k] == key);
                assert(first.contains(key));
                let i = choose|i: int|
                    0 <= i < before.len() && (#[trigger] before[i]).group.needs_hydration
                        && before[i].master_key == key;
                assert(list[i] == before[i]);
            } else {
                assert(list[end].group.needs_hydration);
            }
        }
        if exists|i: int|
            0 <= i < list.len() && (#[trigger] list[i]).group.needs_hydration && list[i].master_key
                == key {
            let i = choose|i: int|
                0 <= i < list.len() && (#[trigger] list[i]).group.needs_hydration
                    && list[i].master_key == key;
            if i < end {
                assert(before[i] == list[i]);
                let k = choose|k: int| 0 <= k < first.len() && first[k] == key;
                assert(all[k] == key);
            } else {
                assert(all[all.len() - 1] == key);
            }
        }
    }
}

/// A fetched group is no longer to be fetched, and otherwise as it was.
pub proof fn law_fetching_changes_nothing_else(group: Group, fetched: Group)
    requires
        call_ensures(groups::hydrated, (group,), fetched),
    ensures
        !fetched.needs_hydration,
        fetched.deep_view() == (GroupView { needs_hydration: false, ..group.deep_view() }),
        fetched.title.deep_view() == group.title.deep_view(),
        fetched.members.deep_view() == group.members.deep_view(),
        fetched.revision == group.revision,
        fetched.blocked == group.blocked,
{
    assert(fetched.deep_view().title == fetched.title.deep_view());
    assert(fetched.deep_view().members == fetched.members.deep_view());
}

/// The avatar of a group is fetched from its path, where it has one.
pub proof fn law_an_avatar_is_fetched_from_its_path(group: Group, path: Option<String>)
    requires
        call_ensures(groups::retrieve_group_avatar, (&group,), path),
    ensures
        path is Some <==> group.avatar is Some && group.avatar->0@.len() > 0,
        path is Some ==> path->0@ == group.avatar->0@,
{
    assert(group.deep_view().avatar == group.avatar.deep_view());
    if path is Some {
        assert(path.deep_view() == Some(path->0@));
    }
}

/// The avatar of a profile is downloaded where it has one and that is not the one that is there
/// already.
pub proof fn law_an_avatar_is_downloaded_once(
    url: Option<String>,
    cached: Option<String>,
    step: AvatarStep,
)
    requires
        call_ensures(groups::retrieve_profile_avatar_by_uuid, (&url, &cached), step),
    ensures
        url is None ==> step is Absent,
        url is Some && cached is Some && cached->0@ == url->0@ ==> step is Cached,
        url is Some && (cached is None || cached->0@ != url->0@) ==> step is Download,
{
}

/// A group is fetched, behind those before it, exactly where it is still to be.
pub proof fn law_each_group_counts_for_itself(list: Seq<StoredGroup>, stored: StoredGroup)
    ensures
        groups::stubs(Seq::empty()).len() == 0,
        stored.group.needs_hydration ==> groups::stubs(list.push(stored)) == groups::stubs(
            list,
        ).push(stored.master_key),
        !stored.group.needs_hydration ==> groups::stubs(list.push(stored)) == groups::stubs(list),
{
    assert(list.push(stored).drop_last() =~= list);
    assert(list.push(stored).last() == stored);
}

} // verus!
