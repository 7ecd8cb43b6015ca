//! The manager of a registered account: who it is, and what it may do.
use vstd::prelude::*;

use crate::errors::Error;
use crate::model::contacts::{Contact, ContactView, PhoneNumber, PhoneNumberView};
use crate::model::groups::{Group, GroupView};
use crate::model::profile::ProfileKey;
use crate::proto::{
    RequestType, StickerPackOperation, StickerPackOperationType, StickerPackOperationView,
    SyncMessage, SyncMessageView,
};
use crate::service_id;
use crate::service_id::{Aci, Pni, DEFAULT_DEVICE_ID};
use crate::store::{Thread, ThreadView};
use crate::text;

use super::storage;

verus! {

/// The largest id that a device can have. The smallest is one.
pub const MAX_DEVICE_ID: u32 = 127;

/// How long before its expiry a sender certificate is renewed, in seconds.
pub const CERTIFICATE_RENEWAL_SECONDS: u64 = 600;

/// How this client was registered.
#[derive(Debug, Clone, Copy, PartialEq, Eq, Structural)]
pub enum RegistrationType {
    /// The device that the account was registered with.
    Primary,
    /// A device that was linked to it.
    Secondary,
}

impl DeepView for RegistrationType {
    type V = RegistrationType;

    open spec fn deep_view(&self) -> RegistrationType {
        *self
    }
}

/// The servers that an account lives on.
#[derive(Debug, Clone, Copy, PartialEq, Eq, Structural)]
pub enum SignalServers {
    Staging,
    Production,
}

impl DeepView for SignalServers {
    type V = SignalServers;

    open spec fn deep_view(&self) -> SignalServers {
        *self
    }
}

/// The key that the keys of the storage service derive from.
#[derive(Debug, Clone, Copy, Eq)]
pub struct MasterKey {
    pub inner: [u8; 32],
}

impl PartialEq for MasterKey {
    fn eq(&self, other: &Self) -> (r: bool) {
        text::bytes_equal(&self.inner, &other.inner)
    }
}

impl vstd::std_specs::cmp::PartialEqSpecImpl for MasterKey {
    open spec fn obeys_eq_spec() -> bool {
        true
    }

    open spec fn eq_spec(&self, other: &Self) -> bool {
        self.deep_view() == other.deep_view()
    }
}

impl DeepView for MasterKey {
    type V = Seq<u8>;

    open spec fn deep_view(&self) -> Seq<u8> {
        self.inner@
    }
}

impl MasterKey {
    /// The master key with these bytes; `None` unless there are thirty-two.
    pub fn from_slice(bytes: &[u8]) -> (key: Option<MasterKey>)
        ensures
            key.deep_view() == (if bytes@.len() == 32 {
                Some(bytes@)
            } else {
                None
            }),
    {
        match service_id::thirty_two(bytes) {
            Some(inner) => Some(MasterKey { inner }),
            None => None,
        }
    }

    pub fn to_vec(&self) -> (bytes: Vec<u8>)
        ensures
            bytes@ == self.deep_view(),
    {
        let bytes = vstd::slice::slice_to_vec(&self.inner);
        assert(bytes@ =~= self.inner@);
        bytes
    }
}

/// The two identities of an account.
#[derive(Debug, PartialEq)]
pub struct ServiceIds {
    pub aci: Aci,
    pub pni: Pni,
}

/// What a [`ServiceIds`] holds.
#[verifier::ext_equal]
pub struct ServiceIdsView {
    pub aci: Seq<u8>,
    pub pni: Seq<u8>,
}

impl DeepView for ServiceIds {
    type V = ServiceIdsView;

    open spec fn deep_view(&self) -> ServiceIdsView {
        ServiceIdsView {
            aci: self.aci.deep_view(),
            pni: self.pni.deep_view(),
        }
    }
}

impl Clone for ServiceIds {
    fn clone(&self) -> (r: Self)
        ensures
            r.deep_view() == self.deep_view(),
    {
        let r = ServiceIds {
            aci: self.aci,
            pni: self.pni,
        };
        r
    }
}

/// Registration data like device name, and credentials to connect to Signal.
#[derive(PartialEq)]
pub struct RegistrationData {
    pub signal_servers: SignalServers,
    pub device_name: Option<String>,
    pub phone_number: PhoneNumber,
    pub service_ids: ServiceIds,
    pub password: String,
    pub device_id: Option<u32>,
    pub registration_id: u32,
    pub pni_registration_id: Option<u32>,
    pub profile_key: ProfileKey,
}

/// What a [`RegistrationData`] holds.
#[verifier::ext_equal]
pub struct RegistrationDataView {
    pub signal_servers: SignalServers,
    pub device_name: Option<Seq<char>>,
    pub phone_number: PhoneNumberView,
    pub service_ids: ServiceIdsView,
    pub password: Seq<char>,
    pub device_id: Option<u32>,
    pub registration_id: u32,
    pub pni_registration_id: Option<u32>,
    pub profile_key: Seq<u8>,
}

impl DeepView for RegistrationData {
    type V = RegistrationDataView;

    open spec fn deep_view(&self) -> RegistrationDataView {
        RegistrationDataView {
            signal_servers: self.signal_servers,
            device_name: self.device_name.deep_view(),
            phone_number: self.phone_number.deep_view(),
            service_ids: self.service_ids.deep_view(),
            password: self.password.deep_view(),
            device_id: self.device_id,
            registration_id: self.registration_id,
            pni_registration_id: self.pni_registration_id,
            profile_key: self.profile_key.deep_view(),
        }
    }
}

impl Clone for RegistrationData {
    fn clone(&self) -> (r: Self)
        ensures
            r.deep_view() == self.deep_view(),
    {
        let r = RegistrationData {
            signal_servers: self.signal_servers,
            device_name: self.device_name.clone(),
            phone_number: self.phone_number.clone(),
            service_ids: self.service_ids.clone(),
            password: self.password.clone(),
            device_id: self.device_id,
            registration_id: self.registration_id,
            pni_registration_id: self.pni_registration_id,
            profile_key: self.profile_key,
        };
        proof {
            assert(r.device_name.deep_view() =~= self.device_name.deep_view());
        }
        r
    }
}

/// What a connection is authenticated with.
#[derive(PartialEq)]
pub struct ServiceCredentials {
    pub aci: Option<Aci>,
    pub pni: Option<Pni>,
    pub phonenumber: PhoneNumber,
    pub password: Option<String>,
    pub device_id: Option<u32>,
}

/// What a [`ServiceCredentials`] holds.
#[verifier::ext_equal]
pub struct ServiceCredentialsView {
    pub aci: Option<Seq<u8>>,
    pub pni: Option<Seq<u8>>,
    pub phonenumber: PhoneNumberView,
    pub password: Option<Seq<char>>,
    pub device_id: Option<u32>,
}

impl DeepView for ServiceCredentials {
    type V = ServiceCredentialsView;

    open spec fn deep_view(&self) -> ServiceCredentialsView {
        ServiceCredentialsView {
            aci: self.aci.deep_view(),
            pni: self.pni.deep_view(),
            phonenumber: self.phonenumber.deep_view(),
            password: self.password.deep_view(),
            device_id: self.device_id,
        }
    }
}

impl Clone for ServiceCredentials {
    fn clone(&self) -> (r: Self)
        ensures
            r.deep_view() == self.deep_view(),
    {
        let r = ServiceCredentials {
            aci: self.aci,
            pni: self.pni,
            phonenumber: self.phonenumber.clone(),
            password: self.password.clone(),
            device_id: self.device_id,
        };
        proof {
            assert(r.password.deep_view() =~= self.password.deep_view());
        }
        r
    }
}

/// What a device can do.
#[derive(Debug, PartialEq)]
pub struct DeviceCapabilities {
    pub storage: bool,
    pub transfer: bool,
    pub attachment_backfill: bool,
    pub spqr: bool,
    pub profiles_v2: bool,
    pub username_change_sync_message: bool,
}

/// What a [`DeviceCapabilities`] holds.
#[verifier::ext_equal]
pub struct DeviceCapabilitiesView {
    pub storage: bool,
    pub transfer: bool,
    pub attachment_backfill: bool,
    pub spqr: bool,
    pub profiles_v2: bool,
    pub username_change_sync_message: bool,
}

impl DeepView for DeviceCapabilities {
    type V = DeviceCapabilitiesView;

    open spec fn deep_view(&self) -> DeviceCapabilitiesView {
        DeviceCapabilitiesView {
            storage: self.storage,
            transfer: self.transfer,
            attachment_backfill: self.attachment_backfill,
            spqr: self.spqr,
            profiles_v2: self.profiles_v2,
            username_change_sync_message: self.username_change_sync_message,
        }
    }
}

impl Clone for DeviceCapabilities {
    fn clone(&self) -> (r: Self)
        ensures
            r.deep_view() == self.deep_view(),
    {
        let r = DeviceCapabilities {
            storage: self.storage,
            transfer: self.transfer,
            attachment_backfill: self.attachment_backfill,
            spqr: self.spqr,
            profiles_v2: self.profiles_v2,
            username_change_sync_message: self.username_change_sync_message,
        };
        r
    }
}

/// What the server is told of a device.
#[derive(Debug, PartialEq)]
pub struct AccountAttributes {
    pub fetches_messages: bool,
    pub registration_id: u32,
    pub pni_registration_id: u32,
    pub name: Option<Vec<u8>>,
    pub registration_lock: Option<String>,
    pub unidentified_access_key: Option<Vec<u8>>,
    pub unrestricted_unidentified_access: bool,
    pub capabilities: Option<DeviceCapabilities>,
    pub discoverable_by_phone_number: bool,
    pub voice: bool,
    pub video: bool,
    pub recovery_password: Option<Vec<u8>>,
}

/// What a [`AccountAttributes`] holds.
#[verifier::ext_equal]
pub struct AccountAttributesView {
    pub fetches_messages: bool,
    pub registration_id: u32,
    pub pni_registration_id: u32,
    pub name: Option<Seq<u8>>,
    pub registration_lock: Option<Seq<char>>,
    pub unidentified_access_key: Option<Seq<u8>>,
    pub unrestricted_unidentified_access: bool,
    pub capabilities: Option<DeviceCapabilitiesView>,
    pub discoverable_by_phone_number: bool,
    pub voice: bool,
    pub video: bool,
    pub recovery_password: Option<Seq<u8>>,
}

impl DeepView for AccountAttributes {
    type V = AccountAttributesView;

    open spec fn deep_view(&self) -> AccountAttributesView {
        AccountAttributesView {
            fetches_messages: self.fetches_messages,
            registration_id: self.registration_id,
            pni_registration_id: self.pni_registration_id,
            name: self.name.deep_view(),
            registration_lock: self.registration_lock.deep_view(),
            unidentified_access_key: self.unidentified_access_key.deep_view(),
            unrestricted_unidentified_access: self.unrestricted_unidentified_access,
            capabilities: self.capabilities.deep_view(),
            discoverable_by_phone_number: self.discoverable_by_phone_number,
            voice: self.voice,
            video: self.video,
            recovery_password: self.recovery_password.deep_view(),
        }
    }
}

impl Clone for AccountAttributes {
    fn clone(&self) -> (r: Self)
        ensures
            r.deep_view() == self.deep_view(),
    {
        let r = AccountAttributes {
            fetches_messages: self.fetches_messages,
            registration_id: self.registration_id,
            pni_registration_id: self.pni_registration_id,
            name: self.name.clone(),
            registration_lock: self.registration_lock.clone(),
            unidentified_access_key: self.unidentified_access_key.clone(),
            unrestricted_unidentified_access: self.unrestricted_unidentified_access,
            capabilities: self.capabilities.clone(),
            discoverable_by_phone_number: self.discoverable_by_phone_number,
            voice: self.voice,
            video: self.video,
            recovery_password: self.recovery_password.clone(),
        };
        proof {
            assert(r.name.deep_view() =~= self.name.deep_view());
            assert(r.registration_lock.deep_view() =~= self.registration_lock.deep_view());
            assert(r.unidentified_access_key.deep_view()
                =~= self.unidentified_access_key.deep_view());
            assert(r.capabilities.deep_view() =~= self.capabilities.deep_view());
            assert(r.recovery_password.deep_view() =~= self.recovery_password.deep_view());
        }
        r
    }
}

impl RegistrationData {
    /// Our own profile key.
    pub fn profile_key(&self) -> (key: ProfileKey)
        ensures
            key.deep_view() == self.deep_view().profile_key,
    {
        self.profile_key
    }

    /// The name of the device (if linked as secondary).
    pub fn device_name(&self) -> (name: Option<&str>)
        ensures
            match name {
                Some(name) => self.deep_view().device_name == Some(name@),
                None => self.deep_view().device_name is None,
            },
    {
        match &self.device_name {
            Some(name) => Some(name.as_str()),
            None => None,
        }
    }
}

/// Whether a device can have this id.
pub open spec fn is_device_id(id: u32) -> bool {
    1 <= id <= MAX_DEVICE_ID
}

/// The id, where a device can have it.
pub open spec fn valid_device_id(id: Option<u32>) -> Option<u32> {
    match id {
        Some(id) => if is_device_id(id) {
            Some(id)
        } else {
            None
        },
        None => None,
    }
}

/// The id of a registered device: the first device has none on record.
pub open spec fn device_id_of(data: RegistrationDataView) -> u32 {
    valid_device_id(data.device_id).unwrap_or(DEFAULT_DEVICE_ID)
}

/// A device with a name was linked; only the first one has none.
pub open spec fn registration_type_of(data: RegistrationDataView) -> RegistrationType {
    if data.device_name is Some {
        RegistrationType::Secondary
    } else {
        RegistrationType::Primary
    }
}

fn checked_device_id(id: Option<u32>) -> (r: Option<u32>)
    ensures
        r == valid_device_id(id),
{
    match id {
        Some(id) => if 1 <= id && id <= MAX_DEVICE_ID {
            Some(id)
        } else {
            None
        },
        None => None,
    }
}

/// Manager state when the client is registered and can send and receive messages from Signal.
pub struct Registered {
    pub data: RegistrationData,
}

impl Registered {
    pub fn with_data(data: RegistrationData) -> (registered: Registered)
        ensures
            registered.data == data,
    {
        Registered { data }
    }

    pub fn device_id(&self) -> (id: u32)
        ensures
            id == device_id_of(self.data.deep_view()),
            is_device_id(id),
    {
        match checked_device_id(self.data.device_id) {
            Some(id) => id,
            None => DEFAULT_DEVICE_ID,
        }
    }

    /// What a connection of this device is authenticated with.
    pub fn credentials(&self) -> (credentials: ServiceCredentials)
        ensures
            credentials.deep_view() == credentials_of(self.data.deep_view()),
    {
        let credentials = ServiceCredentials {
            aci: Some(self.data.service_ids.aci),
            pni: Some(self.data.service_ids.pni),
            phonenumber: self.data.phone_number.clone(),
            password: Some(self.data.password.clone()),
            device_id: checked_device_id(self.data.device_id),
        };
        assert(credentials.deep_view() =~= credentials_of(self.data.deep_view()));
        credentials
    }
}

/// What a connection of a registered device is authenticated with.
pub open spec fn credentials_of(data: RegistrationDataView) -> ServiceCredentialsView {
    ServiceCredentialsView {
        aci: Some(data.service_ids.aci),
        pni: Some(data.service_ids.pni),
        phonenumber: data.phone_number,
        password: Some(data.password),
        device_id: valid_device_id(data.device_id),
    }
}

/// Signal manager: a store, and how far the client is registered.
pub struct Manager<S, State> {
    pub store: S,
    pub state: State,
}

impl<S> Manager<S, Registered> {
    /// Loads a previously registered account. `data` is what the store has of it.
    pub fn load_registered(store: S, data: Option<RegistrationData>) -> (manager: Result<
        Manager<S, Registered>,
        Error,
    >)
        ensures
            match (data, manager) {
                (Some(data), Ok(manager)) => manager.store == store && manager.state.data == data,
                (None, Err(e)) => e == Error::NotYetRegisteredError,
                _ => false,
            },
    {
        match data {
            Some(data) => Ok(Manager { store, state: Registered::with_data(data) }),
            None => Err(Error::NotYetRegisteredError),
        }
    }

    /// Returns a handle to the store.
    pub fn store(&self) -> (store: &S)
        ensures
            *store == self.store,
    {
        &self.store
    }

    /// Returns a handle on the [`RegistrationData`].
    pub fn registration_data(&self) -> (data: &RegistrationData)
        ensures
            *data == self.state.data,
    {
        &self.state.data
    }

    pub fn device_id(&self) -> (id: u32)
        ensures
            id == device_id_of(self.state.data.deep_view()),
    {
        self.state.device_id()
    }

    /// Returns how this client was registered, either as a primary or secondary device.
    pub fn registration_type(&self) -> (kind: RegistrationType)
        ensures
            kind == registration_type_of(self.state.data.deep_view()),
    {
        if self.state.data.device_name.is_some() {
            RegistrationType::Secondary
        } else {
            RegistrationType::Primary
        }
    }

    /// As a primary device, link a secondary device: refused on any other.
    pub fn link_secondary(&self) -> (allowed: Result<ServiceCredentials, Error>)
        ensures
            match allowed {
                Ok(credentials) => registration_type_of(self.state.data.deep_view())
                    == RegistrationType::Primary && credentials.deep_view() == credentials_of(
                    self.state.data.deep_view(),
                ),
                Err(e) => e == Error::NotPrimaryDevice && registration_type_of(
                    self.state.data.deep_view(),
                ) != RegistrationType::Primary,
            },
    {
        if self.registration_type() != RegistrationType::Primary {
            return Err(Error::NotPrimaryDevice);
        }
        Ok(self.state.credentials())
    }

    /// As a primary device, unlink a secondary device. Secondary devices cannot unlink
    /// themselves or other devices.
    pub fn unlink_secondary(&self, device_id: u32) -> (id: Result<u32, Error>)
        ensures
            id == (if registration_type_of(self.state.data.deep_view())
                != RegistrationType::Primary {
                Err::<u32, Error>(Error::NotPrimaryDevice)
            } else if !is_device_id(device_id) {
                Err(Error::InvalidDeviceId)
            } else {
                Ok(device_id)
            }),
    {
        if self.registration_type() != RegistrationType::Primary {
            return Err(Error::NotPrimaryDevice);
        }
        match checked_device_id(Some(device_id)) {
            Some(id) => Ok(id),
            None => Err(Error::InvalidDeviceId),
        }
    }

    /// Where the account entropy pool comes from. `from_store` is whether the store has one. A
    /// primary device without one makes it; any other has to ask.
    pub fn account_entropy_pool(&self, from_store: bool) -> (source: EntropyPoolSource)
        ensures
            source == (if from_store {
                EntropyPoolSource::Stored
            } else if registration_type_of(self.state.data.deep_view())
                == RegistrationType::Primary {
                EntropyPoolSource::Generated
            } else {
                EntropyPoolSource::Missing
            }),
    {
        if from_store {
            EntropyPoolSource::Stored
        } else if self.registration_type() == RegistrationType::Primary {
            EntropyPoolSource::Generated
        } else {
            EntropyPoolSource::Missing
        }
    }

    /// The message that requests the primary device to encrypt and send all of its contacts.
    pub fn request_contacts(&self, padding: Vec<u8>) -> (message: SyncMessage)
        ensures
            message.deep_view() == requesting(RequestType::Contacts, padding@),
    {
        request(RequestType::Contacts, padding)
    }

    /// The message that tells the other devices to install a sticker pack.
    pub fn install_sticker_pack(&self, pack_id: &Vec<u8>, pack_key: &Vec<u8>) -> (message:
        SyncMessage)
        ensures
            message.deep_view() == sticker_pack_message(
                pack_id@,
                pack_key@,
                StickerPackOperationType::Install,
            ),
    {
        operate_on_sticker_pack(pack_id, pack_key, StickerPackOperationType::Install)
    }

    /// The message that tells the other devices to remove a sticker pack.
    pub fn remove_sticker_pack(&self, pack_id: &Vec<u8>, pack_key: &Vec<u8>) -> (message:
        SyncMessage)
        ensures
            message.deep_view() == sticker_pack_message(
                pack_id@,
                pack_key@,
                StickerPackOperationType::Remove,
            ),
    {
        operate_on_sticker_pack(pack_id, pack_key, StickerPackOperationType::Remove)
    }

    /// Returns the title of a thread (contact or group). `contact` and `group` are what the
    /// store has for it.
    pub fn thread_title(
        &self,
        thread: &Thread,
        contact: &Option<Contact>,
        group: &Option<Group>,
    ) -> (title: String)
        ensures
            title@ == title_of(thread.deep_view(), contact.deep_view(), group.deep_view()),
    {
        match thread {
            Thread::Contact(service_id) => match contact {
                Some(contact) => contact.name.clone(),
                None => service_id.service_id_string(),
            },
            Thread::Group(_) => match group {
                Some(group) => match &group.title {
                    Some(title) => title.clone(),
                    None => String::new(),
                },
                None => String::new(),
            },
        }
    }

    /// What the server is told of this device. `name` is its encrypted name, where it has one,
    /// and `access_key` what derives from its profile key. A client that was linked before the
    /// second registration id existed has to be linked again.
    pub fn set_account_attributes(&self, name: Option<Vec<u8>>, access_key: Vec<u8>) -> (attributes:
        Result<AccountAttributes, Error>)
        ensures
            match (attributes, self.state.data.pni_registration_id) {
                (Ok(attributes), Some(pni_registration_id)) => attributes.deep_view()
                    == attributes_of(
                    self.state.data.registration_id,
                    pni_registration_id,
                    name.deep_view(),
                    access_key@,
                ),
                (Err(e), None) => e == Error::RelinkNecessary,
                _ => false,
            },
    {
        broadcast use text::lemma_bytes_view;

        let pni_registration_id: u32 = match self.state.data.pni_registration_id {
            Some(id) => id,
            None => return Err(Error::RelinkNecessary),
        };
        Ok(
            AccountAttributes {
                fetches_messages: true,
                registration_id: self.state.data.registration_id,
                pni_registration_id,
                name,
                registration_lock: None,
                unidentified_access_key: Some(access_key),
                unrestricted_unidentified_access: false,
                capabilities: Some(
                    DeviceCapabilities {
                        storage: true,
                        transfer: false,
                        attachment_backfill: false,
                        spqr: true,
                        profiles_v2: false,
                        username_change_sync_message: true,
                    },
                ),
                discoverable_by_phone_number: true,
                voice: false,
                video: false,
                recovery_password: None,
            },
        )
    }
}

/// A device without a name is the primary one, and only that may link and unlink.
pub proof fn law_only_the_primary_device_has_no_name(data: RegistrationDataView)
    ensures
        registration_type_of(data) == RegistrationType::Primary <==> data.device_name is None,
{
}

/// What the server is told of a device.
pub open spec fn attributes_of(
    registration_id: u32,
    pni_registration_id: u32,
    name: Option<Seq<u8>>,
    access_key: Seq<u8>,
) -> AccountAttributesView {
    AccountAttributesView {
        fetches_messages: true,
        registration_id,
        pni_registration_id,
        name,
        registration_lock: None,
        unidentified_access_key: Some(access_key),
        unrestricted_unidentified_access: false,
        capabilities: Some(
            DeviceCapabilitiesView {
                storage: true,
                transfer: false,
                attachment_backfill: false,
                spqr: true,
                profiles_v2: false,
                username_change_sync_message: true,
            },
        ),
        discoverable_by_phone_number: true,
        voice: false,
        video: false,
        recovery_password: None,
    }
}

/// Where the account entropy pool comes from.
#[derive(Debug, Clone, Copy, PartialEq, Eq, Structural)]
pub enum EntropyPoolSource {
    /// The store has it.
    Stored,
    /// It is made, and stored.
    Generated,
    /// The primary device has to be asked for it.
    Missing,
}

/// The title of a thread: the contact's name, or else its id; the group's title, or else
/// nothing.
pub open spec fn title_of(
    thread: ThreadView,
    contact: Option<ContactView>,
    group: Option<GroupView>,
) -> Seq<char> {
    match thread {
        ThreadView::Contact(id) => match contact {
            Some(contact) => contact.name,
            None => service_id::service_id_text(id),
        },
        ThreadView::Group(_) => match group {
            Some(group) => group.title.unwrap_or(Seq::empty()),
            None => Seq::empty(),
        },
    }
}

/// A message that asks the other devices for something.
pub open spec fn requesting(kind: RequestType, padding: Seq<u8>) -> SyncMessageView {
    SyncMessageView { request: Some(kind), padding: Some(padding), ..SyncMessageView::empty() }
}

/// The message that asks the other devices for something.
pub fn request(kind: RequestType, padding: Vec<u8>) -> (message: SyncMessage)
    ensures
        message.deep_view() == requesting(kind, padding@),
{
    broadcast use text::lemma_bytes_view;

    let message = SyncMessage {
        request: Some(kind),
        padding: Some(padding),
        ..SyncMessage::default()
    };
    assert(message.deep_view() =~= requesting(kind, padding@));
    message
}

/// A message that tells the other devices what became of a sticker pack.
pub open spec fn sticker_pack_message(
    pack_id: Seq<u8>,
    pack_key: Seq<u8>,
    kind: StickerPackOperationType,
) -> SyncMessageView {
    SyncMessageView {
        sticker_pack_operation: seq![
            StickerPackOperationView {
                pack_id: Some(pack_id),
                pack_key: Some(pack_key),
                kind: Some(kind),
            },
        ],
        ..SyncMessageView::empty()
    }
}

fn operate_on_sticker_pack(
    pack_id: &Vec<u8>,
    pack_key: &Vec<u8>,
    kind: StickerPackOperationType,
) -> (message: SyncMessage)
    ensures
        message.deep_view() == sticker_pack_message(pack_id@, pack_key@, kind),
{
    broadcast use text::lemma_bytes_view;

    let id = pack_id.clone();
    let key = pack_key.clone();
    proof {
        assert(id@ =~= pack_id@);
        assert(key@ =~= pack_key@);
    }
    let operation = StickerPackOperation {
        pack_id: Some(id),
        pack_key: Some(key),
        kind: Some(kind),
    };
    let mut operations: Vec<StickerPackOperation> = Vec::new();
    operations.push(operation);
    proof {
        assert(operations.deep_view() =~= seq![operation.deep_view()]);
    }
    let message = SyncMessage { sticker_pack_operation: operations, ..SyncMessage::default() };
    assert(message.deep_view() =~= sticker_pack_message(pack_id@, pack_key@, kind));
    message
}

/// Whether a sender certificate has to be renewed: `expiration` is its expiry in milliseconds
/// since the epoch, where there is a certificate and it has one.
pub fn sender_certificate_needs_renewal(expiration: Option<u64>, now: u64) -> (renew: bool)
    requires
        now + CERTIFICATE_RENEWAL_SECONDS <= u64::MAX,
    ensures
        renew == (match expiration {
            Some(millis) => millis / 1000 <= now + CERTIFICATE_RENEWAL_SECONDS,
            None => true,
        }),
{
    match expiration {
        Some(millis) => millis / 1000 <= now + CERTIFICATE_RENEWAL_SECONDS,
        None => true,
    }
}

/// Whether an open connection can go on being used: not where it is closed, and where an unused
/// one is asked for, only if it is one.
pub fn keeps_websocket(closed: bool, used: bool, require_unused: bool) -> (keep: bool)
    ensures
        keep == (!closed && (require_unused ==> !used)),
{
    !closed && !(require_unused && used)
}

/// The master key: that in the store, or else the one that derives from the account entropy
/// pool, if there is one.
pub fn master_key(from_store: Option<MasterKey>, derived: Option<MasterKey>) -> (key: Option<
    MasterKey,
>)
    ensures
        key == (match from_store {
            Some(key) => Some(key),
            None => derived,
        }),
{
    match from_store {
        Some(key) => Some(key),
        None => derived,
    }
}

/// The master key, for what cannot do without.
pub fn required_master_key(key: Option<MasterKey>) -> (r: Result<MasterKey, Error>)
    ensures
        r == (match key {
            Some(key) => Ok::<MasterKey, Error>(key),
            None => Err(Error::MissingMasterKey),
        }),
{
    match key {
        Some(key) => Ok(key),
        None => Err(Error::MissingMasterKey),
    }
}

/// The version of a contact's timer after a message: the message's where it is newer, and
/// otherwise the stored one.
pub open spec fn merged_version(incoming: Option<u32>, stored: u32) -> u32 {
    match incoming {
        Some(incoming) => if incoming > stored {
            incoming
        } else {
            stored
        },
        None => stored,
    }
}

/// The version of a contact's timer to keep after a first-sight profile fetch: the incoming
/// one when it is newer, otherwise whatever is already stored. Never lower than `stored`.
///
/// An update of the timer is ignored where its version is no newer than the stored one, so
/// writing a smaller number here would let a stale update win later.
pub fn merged_expire_timer_version(incoming: Option<u32>, stored: u32) -> (version: u32)
    ensures
        version == merged_version(incoming, stored),
        version >= stored,
{
    match incoming {
        Some(incoming) => if incoming > stored {
            incoming
        } else {
            stored
        },
        None => stored,
    }
}

/// Merge the stored contact into one rebuilt from a remote snapshot, where no change of it
/// waits to be published; see [`storage::merge_contact_from_snapshot`].
pub fn merge_contact_from_snapshot(contact: &mut Contact, existing: Contact) -> (preserved: Vec<
    &'static str,
>)
    ensures
        final(contact).deep_view() == storage::merged_contact(
            old(contact).deep_view(),
            existing.deep_view(),
            false,
        ),
        preserved.deep_view() == storage::preserved_fields(
            old(contact).deep_view(),
            existing.deep_view(),
            false,
        ),
{
    storage::merge_contact_from_snapshot(contact, existing, false)
}

} // verus!
