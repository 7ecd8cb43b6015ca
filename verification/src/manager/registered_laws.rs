//! What a registered account promises.
use vstd::prelude::*;

use crate::errors::Error;
use crate::model::contacts::Contact;
use crate::model::groups::Group;
use crate::proto::{RequestType, StickerPackOperationType, SyncMessage};
use crate::service_id;
use crate::store::Thread;

use super::registered;
use super::storage;
use super::registered::{
    AccountAttributes, EntropyPoolSource, Manager, MasterKey, Registered, RegistrationData,
    RegistrationType, ServiceCredentials,
};

verus! {

/// An account is registered where there is registration data, and then it is this data that the
/// manager works with.
pub proof fn law_registration_data_is_needed<S>(
    store: S,
    data: Option<RegistrationData>,
    manager: Result<Manager<S, Registered>, Error>,
)
    requires
        call_ensures(Manager::<S, Registered>::load_registered, (store, data), manager),
    ensures
        manager is Ok <==> data is Some,
        data is Some ==> manager->Ok_0.store == store && manager->Ok_0.state.data == data->0,
        data is None ==> manager->Err_0 == Error::NotYetRegisteredError,
{
}

/// A device goes by the number that it was given; one without a proper number is the first.
pub proof fn law_a_device_goes_by_its_number<S>(manager: Manager<S, Registered>, id: u32)
    requires
        call_ensures(Manager::<S, Registered>::device_id, (&manager,), id),
    ensures
        1 <= id <= 127,
        manager.state.data.device_id is Some && 1 <= manager.state.data.device_id->0 <= 127 ==> id
            == manager.state.data.device_id->0,
        manager.state.data.device_id is None ==> id == 1,
        manager.state.data.device_id is Some && !(1 <= manager.state.data.device_id->0 <= 127)
            ==> id == 1,
{
}

/// The credentials are those of the registration: the identities, the number, the password and
/// the device.
pub proof fn law_credentials_are_those_of_the_registration(
    state: Registered,
    credentials: ServiceCredentials,
)
    requires
        call_ensures(Registered::credentials, (&state,), credentials),
    ensures
        credentials.aci is Some && credentials.aci->0.uuid.bytes@
            == state.data.service_ids.aci.uuid.bytes@,
        credentials.pni is Some && credentials.pni->0.uuid.bytes@
            == state.data.service_ids.pni.uuid.bytes@,
        credentials.phonenumber.deep_view() == state.data.phone_number.deep_view(),
        credentials.password is Some && credentials.password->0@ == state.data.password@,
        state.data.device_id is Some && 1 <= state.data.device_id->0 <= 127
            ==> credentials.device_id == state.data.device_id,
        state.data.device_id is None ==> credentials.device_id is None,
{
    let view = credentials.deep_view();
    assert(view.aci == credentials.aci.deep_view());
    assert(view.pni == credentials.pni.deep_view());
    assert(view.password == credentials.password.deep_view());
}

/// The primary device is the one without a name.
pub proof fn law_a_named_device_is_secondary<S>(
    manager: Manager<S, Registered>,
    kind: RegistrationType,
)
    requires
        call_ensures(Manager::<S, Registered>::registration_type, (&manager,), kind),
    ensures
        kind is Secondary <==> manager.state.data.device_name is Some,
        kind is Primary <==> manager.state.data.device_name is None,
{
}

/// Only the primary device links others, with the account's own credentials.
pub proof fn law_only_the_primary_device_links<S>(
    manager: Manager<S, Registered>,
    allowed: Result<ServiceCredentials, Error>,
)
    requires
        call_ensures(Manager::<S, Registered>::link_secondary, (&manager,), allowed),
    ensures
        allowed is Ok <==> manager.state.data.device_name is None,
        allowed is Err ==> allowed->Err_0 == Error::NotPrimaryDevice,
        allowed is Ok ==> {
            &&& allowed->Ok_0.aci is Some && allowed->Ok_0.aci->0.uuid.bytes@
                == manager.state.data.service_ids.aci.uuid.bytes@
            &&& allowed->Ok_0.password is Some && allowed->Ok_0.password->0@
                == manager.state.data.password@
        },
{
    if allowed is Ok {
        let view = allowed->Ok_0.deep_view();
        assert(view.aci == allowed->Ok_0.aci.deep_view());
        assert(view.password == allowed->Ok_0.password.deep_view());
    }
}

/// Only the primary device unlinks others, the very one that was named, and only by a number
/// that a device can have.
pub proof fn law_only_the_primary_device_unlinks<S>(
    manager: Manager<S, Registered>,
    device_id: u32,
    id: Result<u32, Error>,
)
    requires
        call_ensures(Manager::<S, Registered>::unlink_secondary, (&manager, device_id), id),
    ensures
        id is Ok <==> manager.state.data.device_name is None && 1 <= device_id <= 127,
        id is Ok ==> id->Ok_0 == device_id,
        manager.state.data.device_name is Some ==> id == Err::<u32, Error>(Error::NotPrimaryDevice),
        manager.state.data.device_name is None && !(1 <= device_id <= 127) ==> id == Err::<
            u32,
            Error,
        >(Error::InvalidDeviceId),
{
}

/// The entropy pool of the account is the stored one; where there is none, only the primary
/// device makes one.
pub proof fn law_only_the_primary_device_makes_an_entropy_pool<S>(
    manager: Manager<S, Registered>,
    from_store: bool,
    source: EntropyPoolSource,
)
    requires
        call_ensures(Manager::<S, Registered>::account_entropy_pool, (&manager, from_store), source),
    ensures
        source is Stored <==> from_store,
        source is Generated <==> !from_store && manager.state.data.device_name is None,
        source is Missing <==> !from_store && manager.state.data.device_name is Some,
{
}

/// A request asks for what it was made for, padded, and for nothing else.
pub proof fn law_a_request_asks_for_one_thing(
    kind: RequestType,
    padding: Vec<u8>,
    message: SyncMessage,
)
    requires
        call_ensures(registered::request, (kind, padding), message),
    ensures
        message.deep_view().request == Some(kind),
        message.deep_view().padding == Some(padding@),
        message.deep_view().sent is None,
        message.deep_view().keys is None,
        message.deep_view().blocked is None,
        message.deep_view().delete_for_me is None,
        message.deep_view().sticker_pack_operation.len() == 0,
{
}

/// Contacts are asked for as such.
pub proof fn law_contacts_are_asked_for<S>(
    manager: Manager<S, Registered>,
    padding: Vec<u8>,
    message: SyncMessage,
)
    requires
        call_ensures(Manager::<S, Registered>::request_contacts, (&manager, padding), message),
    ensures
        message.deep_view().request == Some(RequestType::Contacts),
        message.deep_view().padding == Some(padding@),
{
}

/// That a sticker pack was installed, or removed, is told the other devices with the pack and
/// its key.
pub proof fn law_sticker_packs_are_told<S>(
    manager: Manager<S, Registered>,
    pack_id: Vec<u8>,
    pack_key: Vec<u8>,
    installed: SyncMessage,
    removed: SyncMessage,
)
    requires
        call_ensures(
            Manager::<S, Registered>::install_sticker_pack,
            (&manager, &pack_id, &pack_key),
            installed,
        ),
        call_ensures(
            Manager::<S, Registered>::remove_sticker_pack,
            (&manager, &pack_id, &pack_key),
            removed,
        ),
    ensures
        installed.deep_view().sticker_pack_operation.len() == 1,
        installed.deep_view().sticker_pack_operation[0].pack_id == Some(pack_id@),
        installed.deep_view().sticker_pack_operation[0].pack_key == Some(pack_key@),
        installed.deep_view().sticker_pack_operation[0].kind == Some(
            StickerPackOperationType::Install,
        ),
        removed.deep_view().sticker_pack_operation.len() == 1,
        removed.deep_view().sticker_pack_operation[0].pack_id == Some(pack_id@),
        removed.deep_view().sticker_pack_operation[0].pack_key == Some(pack_key@),
        removed.deep_view().sticker_pack_operation[0].kind == Some(StickerPackOperationType::Remove),
{
}

/// A thread with a person is called as the contact is, and goes by the identity where there is no
/// contact. That of a group is called as the group is.
pub proof fn law_a_thread_is_called_as_its_contact_or_group<S>(
    manager: Manager<S, Registered>,
    thread: Thread,
    contact: Option<Contact>,
    group: Option<Group>,
    title: String,
)
    requires
        call_ensures(
            Manager::<S, Registered>::thread_title,
            (&manager, &thread, &contact, &group),
            title,
        ),
    ensures
        thread is Contact && contact is Some ==> title@ == contact->0.name@,
        thread matches Thread::Contact(id) ==> (contact is None ==> title@
            == service_id::service_id_text(id.deep_view())),
        thread is Group && group is Some && group->0.title is Some ==> title@
            == group->0.title->0@,
        thread is Group && (group is None || group->0.title is None) ==> title@.len() == 0,
{
    if group is Some {
        assert(group->0.deep_view().title == group->0.title.deep_view());
    }
}

/// The account is announced with its own registration ids, the name and the access key that were
/// given, and with what this device can do.
pub proof fn law_the_account_is_announced_as_it_is<S>(
    manager: Manager<S, Registered>,
    name: Option<Vec<u8>>,
    access_key: Vec<u8>,
    attributes: Result<AccountAttributes, Error>,
)
    requires
        call_ensures(
            Manager::<S, Registered>::set_account_attributes,
            (&manager, name, access_key),
            attributes,
        ),
    ensures
        attributes is Ok <==> manager.state.data.pni_registration_id is Some,
        attributes is Err ==> attributes->Err_0 == Error::RelinkNecessary,
        attributes is Ok ==> {
            let told = attributes->Ok_0;
            &&& told.registration_id == manager.state.data.registration_id
            &&& Some(told.pni_registration_id) == manager.state.data.pni_registration_id
            &&& told.name.deep_view() == name.deep_view()
            &&& told.unidentified_access_key.deep_view() == Some(access_key@)
            &&& told.fetches_messages
            &&& told.discoverable_by_phone_number
            &&& !told.voice
            &&& !told.video
            &&& !told.unrestricted_unidentified_access
            &&& told.registration_lock is None
            &&& told.recovery_password is None
            &&& told.capabilities is Some
            &&& told.capabilities->0.storage
            &&& told.capabilities->0.spqr
            &&& told.capabilities->0.username_change_sync_message
            &&& !told.capabilities->0.transfer
            &&& !told.capabilities->0.attachment_backfill
            &&& !told.capabilities->0.profiles_v2
        },
{
    if attributes is Ok {
        let told = attributes->Ok_0;
        let view = told.deep_view();
        assert(view.name == told.name.deep_view());
        assert(view.unidentified_access_key == told.unidentified_access_key.deep_view());
        assert(view.registration_lock == told.registration_lock.deep_view());
        assert(view.recovery_password == told.recovery_password.deep_view());
        assert(view.capabilities == told.capabilities.deep_view());
    }
}

/// A sender certificate is renewed where there is none, and as soon as it runs out within ten
/// minutes; while it runs longer it is kept.
pub proof fn law_a_certificate_is_renewed_in_time(expiration: Option<u64>, now: u64, renew: bool)
    requires
        call_ensures(registered::sender_certificate_needs_renewal, (expiration, now), renew),
        now + 600 <= u64::MAX,
    ensures
        expiration is None ==> renew,
        expiration is Some && expiration->0 <= now * 1000 + 600000 ==> renew,
        expiration is Some && expiration->0 >= now * 1000 + 601000 ==> !renew,
{
}

/// A socket is used again unless it is closed, or a fresh one is needed and this one is not.
pub proof fn law_an_open_socket_is_used_again(
    closed: bool,
    used: bool,
    require_unused: bool,
    keep: bool,
)
    requires
        call_ensures(registered::keeps_websocket, (closed, used, require_unused), keep),
    ensures
        closed ==> !keep,
        used && require_unused ==> !keep,
        !closed && !used ==> keep,
        !closed && !require_unused ==> keep,
{
}

/// The stored master key goes before the derived one, and either serves where one is required.
pub proof fn law_the_stored_master_key_goes_first(
    from_store: Option<MasterKey>,
    derived: Option<MasterKey>,
    key: Option<MasterKey>,
    required: Result<MasterKey, Error>,
)
    requires
        call_ensures(registered::master_key, (from_store, derived), key),
        call_ensures(registered::required_master_key, (key,), required),
    ensures
        from_store is Some ==> required == Ok::<MasterKey, Error>(from_store->0),
        from_store is None && derived is Some ==> required == Ok::<MasterKey, Error>(derived->0),
        from_store is None && derived is None ==> required == Err::<MasterKey, Error>(
            Error::MissingMasterKey,
        ),
{
}

/// A master key is 32 bytes, and any 32 bytes are one; it gives back the bytes it was made of.
pub proof fn law_a_master_key_is_its_bytes(bytes: &[u8], key: Option<MasterKey>, back: Vec<u8>)
    requires
        call_ensures(MasterKey::from_slice, (bytes,), key),
        key is Some ==> call_ensures(MasterKey::to_vec, (&key->0,), back),
    ensures
        key is Some <==> bytes@.len() == 32,
        key is Some ==> key->0.inner@ == bytes@,
        key is Some ==> back@ == bytes@,
{
}

/// The version of a timer never goes back, and goes up to the one that comes in.
pub proof fn law_timer_versions_only_grow(incoming: Option<u32>, stored: u32, version: u32)
    requires
        call_ensures(registered::merged_expire_timer_version, (incoming, stored), version),
    ensures
        version >= stored,
        incoming is Some ==> version >= incoming->0,
        version == stored || Some(version) == incoming,
{
}

/// The state of a registered account is its data.
pub proof fn law_the_state_is_the_data<S>(
    data: RegistrationData,
    state: Registered,
    manager: Manager<S, Registered>,
    held: &RegistrationData,
)
    requires
        call_ensures(Registered::with_data, (data,), state),
        call_ensures(Manager::<S, Registered>::registration_data, (&manager,), held),
    ensures
        state.data == data,
        *held == manager.state.data,
{
}

/// A snapshot of a contact is merged as one of a contact whose block is not still to be
/// published.
pub proof fn law_a_snapshot_is_merged_with_the_stored_contact(
    contact: &mut Contact,
    existing: Contact,
    preserved: Vec<&'static str>,
)
    requires
        call_ensures(registered::merge_contact_from_snapshot, (contact, existing), preserved),
    ensures
        final(contact).deep_view() == storage::merged_contact(
            old(contact).deep_view(),
            existing.deep_view(),
            false,
        ),
        final(contact).blocked == old(contact).blocked,
        final(contact).expire_timer == existing.expire_timer,
        final(contact).expire_timer_version == existing.expire_timer_version,
        final(contact).uuid.bytes@ == old(contact).uuid.bytes@,
        old(contact).name@.len() > 0 ==> final(contact).name@ == old(contact).name@,
        old(contact).name@.len() == 0 ==> final(contact).name@ == existing.name@,
        preserved.deep_view() == storage::preserved_fields(
            old(contact).deep_view(),
            existing.deep_view(),
            false,
        ),
{
}

} // verus!
