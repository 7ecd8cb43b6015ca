//! What is done with each thing that is received.
//!
//! The connection is read elsewhere, one event after the other. What is decided here is what
//! each event leads to: a list of things to do, in order, the last of which may be to hand
//! something to the client.
use vstd::prelude::*;

use crate::model::messages::Received;
use crate::proto::{
    Content, ContentBody, ContentBodyView, ContentView, DataMessage, DataMessageView, Keys,
    KeysView, RequestType, StickerPackOperation, StickerPackOperationType, StickerPackOperationView,
    SyncMessageView,
};
use crate::service_id;
use crate::service_id::{Pni, ServiceId, ServiceIdKind, ServiceIdView};
use crate::text;

use super::registered::{MasterKey, RegistrationType};

verus! {

/// What receiving remembers from one event to the next.
#[derive(Debug, PartialEq)]
pub struct ReceiveState {
    pub device_id: u32,
    pub registration_type: RegistrationType,
    pub master_key: Option<MasterKey>,
    pub account_entropy_pool: Option<String>,
}

/// What a [`ReceiveState`] holds.
#[verifier::ext_equal]
pub struct ReceiveStateView {
    pub device_id: u32,
    pub registration_type: RegistrationType,
    pub master_key: Option<Seq<u8>>,
    pub account_entropy_pool: Option<Seq<char>>,
}

impl DeepView for ReceiveState {
    type V = ReceiveStateView;

    open spec fn deep_view(&self) -> ReceiveStateView {
        ReceiveStateView {
            device_id: self.device_id,
            registration_type: self.registration_type,
            master_key: self.master_key.deep_view(),
            account_entropy_pool: self.account_entropy_pool.deep_view(),
        }
    }
}

impl Clone for ReceiveState {
    fn clone(&self) -> (r: Self)
        ensures
            r.deep_view() == self.deep_view(),
    {
        let r = ReceiveState {
            device_id: self.device_id,
            registration_type: self.registration_type,
            master_key: self.master_key,
            account_entropy_pool: self.account_entropy_pool.clone(),
        };
        proof {
            assert(r.account_entropy_pool.deep_view() =~= self.account_entropy_pool.deep_view());
        }
        r
    }
}

/// Something to do.
#[derive(Debug, PartialEq)]
pub enum ReceiveAction {
    /// Send the contacts of the store to the other devices.
    SendContacts,
    /// Send the keys to the other devices.
    SendKeys { keys: Keys },
    /// Send the blocked contacts of the store to the other devices.
    SendBlocked,
    /// Download a sticker pack, in the background.
    InstallStickerPack { operation: StickerPackOperation },
    /// Remove a sticker pack from the store.
    RemoveStickerPack { pack_id: Vec<u8> },
    /// Store the account entropy pool.
    StoreEntropyPool { pool: String },
    /// Store the master key.
    StoreMasterKey { key: MasterKey },
    /// Fetch and save the group, if it is not known at this revision.
    UpsertGroup { master_key: Vec<u8>, revision: u32 },
    /// Save the message.
    SaveMessage,
    /// Ask the primary device for the keys.
    RequestKeys,
    /// Hand out that contacts were received.
    YieldContacts,
    /// Hand out the message.
    YieldContent,
    /// Hand out that the queue is empty.
    YieldQueueEmpty,
}

/// What a [`ReceiveAction`] holds.
#[verifier::ext_equal]
pub enum ReceiveActionView {
    SendContacts,
    SendKeys { keys: KeysView },
    SendBlocked,
    InstallStickerPack { operation: StickerPackOperationView },
    RemoveStickerPack { pack_id: Seq<u8> },
    StoreEntropyPool { pool: Seq<char> },
    StoreMasterKey { key: Seq<u8> },
    UpsertGroup { master_key: Seq<u8>, revision: u32 },
    SaveMessage,
    RequestKeys,
    YieldContacts,
    YieldContent,
    YieldQueueEmpty,
}

impl DeepView for ReceiveAction {
    type V = ReceiveActionView;

    open spec fn deep_view(&self) -> ReceiveActionView {
        match self {
            ReceiveAction::SendContacts => ReceiveActionView::SendContacts,
            ReceiveAction::SendKeys { keys } => ReceiveActionView::SendKeys {
                keys: keys.deep_view(),
            },
            ReceiveAction::SendBlocked => ReceiveActionView::SendBlocked,
            ReceiveAction::InstallStickerPack { operation } => {
                ReceiveActionView::InstallStickerPack { operation: operation.deep_view() }
            },
            ReceiveAction::RemoveStickerPack { pack_id } => ReceiveActionView::RemoveStickerPack {
                pack_id: pack_id.deep_view(),
            },
            ReceiveAction::StoreEntropyPool { pool } => ReceiveActionView::StoreEntropyPool {
                pool: pool.deep_view(),
            },
            ReceiveAction::StoreMasterKey { key } => ReceiveActionView::StoreMasterKey {
                key: key.deep_view(),
            },
            ReceiveAction::UpsertGroup { master_key, revision } => ReceiveActionView::UpsertGroup {
                master_key: master_key.deep_view(),
                revision: *revision,
            },
            ReceiveAction::SaveMessage => ReceiveActionView::SaveMessage,
            ReceiveAction::RequestKeys => ReceiveActionView::RequestKeys,
            ReceiveAction::YieldContacts => ReceiveActionView::YieldContacts,
            ReceiveAction::YieldContent => ReceiveActionView::YieldContent,
            ReceiveAction::YieldQueueEmpty => ReceiveActionView::YieldQueueEmpty,
        }
    }
}

impl Clone for ReceiveAction {
    fn clone(&self) -> (r: Self)
        ensures
            r.deep_view() == self.deep_view(),
    {
        let r = match self {
            ReceiveAction::SendContacts => ReceiveAction::SendContacts,
            ReceiveAction::SendKeys { keys } => ReceiveAction::SendKeys {
                keys: keys.clone(),
            },
            ReceiveAction::SendBlocked => ReceiveAction::SendBlocked,
            ReceiveAction::InstallStickerPack { operation } => ReceiveAction::InstallStickerPack {
                operation: operation.clone(),
            },
            ReceiveAction::RemoveStickerPack { pack_id } => ReceiveAction::RemoveStickerPack {
                pack_id: pack_id.clone(),
            },
            ReceiveAction::StoreEntropyPool { pool } => ReceiveAction::StoreEntropyPool {
                pool: pool.clone(),
            },
            ReceiveAction::StoreMasterKey { key } => ReceiveAction::StoreMasterKey {
                key: *key,
            },
            ReceiveAction::UpsertGroup { master_key, revision } => ReceiveAction::UpsertGroup {
                master_key: master_key.clone(),
                revision: *revision,
            },
            ReceiveAction::SaveMessage => ReceiveAction::SaveMessage,
            ReceiveAction::RequestKeys => ReceiveAction::RequestKeys,
            ReceiveAction::YieldContacts => ReceiveAction::YieldContacts,
            ReceiveAction::YieldContent => ReceiveAction::YieldContent,
            ReceiveAction::YieldQueueEmpty => ReceiveAction::YieldQueueEmpty,
        };
        proof {
            assert(r.deep_view() =~= self.deep_view());
        }
        r
    }
}

/// What the keys in a message amount to.
#[derive(Debug, PartialEq)]
pub struct KeysReading {
    /// The account entropy pool in the message, where it is one.
    pub pool: Option<String>,
    /// The master key that derives from the account entropy pool that is known after that.
    pub derived: Option<MasterKey>,
}

/// What a [`KeysReading`] holds.
#[verifier::ext_equal]
pub struct KeysReadingView {
    pub pool: Option<Seq<char>>,
    pub derived: Option<Seq<u8>>,
}

impl DeepView for KeysReading {
    type V = KeysReadingView;

    open spec fn deep_view(&self) -> KeysReadingView {
        KeysReadingView {
            pool: self.pool.deep_view(),
            derived: self.derived.deep_view(),
        }
    }
}

impl Clone for KeysReading {
    fn clone(&self) -> (r: Self)
        ensures
            r.deep_view() == self.deep_view(),
    {
        let r = KeysReading {
            pool: self.pool.clone(),
            derived: self.derived,
        };
        proof {
            assert(r.pool.deep_view() =~= self.pool.deep_view());
        }
        r
    }
}

/// Which of the account's two identities an envelope is opened with, if with any: a sealed
/// envelope to our PNI is not a valid message.
pub open spec fn routed(
    destination: Option<ServiceIdView>,
    our_pni: Seq<u8>,
    has_source: bool,
) -> Option<ServiceIdKind> {
    match destination {
        Some(ServiceIdView::Pni(pni)) => if pni == our_pni && !has_source {
            None
        } else {
            Some(ServiceIdKind::Pni)
        },
        _ => Some(ServiceIdKind::Aci),
    }
}

/// Which of the account's two identities an envelope to `destination` is opened with; `None`
/// where it is ignored.
pub fn route_to(destination: Option<ServiceId>, our_pni: Pni, has_source: bool) -> (kind: Option<
    ServiceIdKind,
>)
    ensures
        kind == routed(destination.deep_view(), our_pni.deep_view(), has_source),
{
    match destination {
        Some(ServiceId::Pni(pni)) => if pni == our_pni && !has_source {
            None
        } else {
            Some(ServiceIdKind::Pni)
        },
        _ => Some(ServiceIdKind::Aci),
    }
}

/// Which of the account's two identities an envelope is opened with; `None` where it is
/// ignored. A destination that names no service id counts as none.
pub fn route_envelope(destination: &str, our_pni: Pni, has_source: bool) -> (kind: Option<
    ServiceIdKind,
>)
    ensures
        kind == routed(
            service_id::service_id_of_text(destination@),
            our_pni.deep_view(),
            has_source,
        ),
{
    route_to(ServiceId::parse_from_service_id_string(destination), our_pni, has_source)
}

/// What a request of another device leads to. A request for contacts that comes from this very
/// device is an echo of its own; answering it would overwrite the contacts on all devices.
pub open spec fn request_actions(
    state: ReceiveStateView,
    request: Option<RequestType>,
    sender_device: u32,
) -> Seq<ReceiveActionView> {
    match request {
        Some(RequestType::Contacts) => if sender_device == state.device_id {
            Seq::empty()
        } else {
            seq![ReceiveActionView::SendContacts]
        },
        Some(RequestType::Keys) => seq![
            ReceiveActionView::SendKeys {
                keys: KeysView {
                    master: state.master_key,
                    account_entropy_pool: state.account_entropy_pool,
                    media_root_backup_key: None,
                },
            },
        ],
        Some(RequestType::Blocked) => seq![ReceiveActionView::SendBlocked],
        _ => Seq::empty(),
    }
}

/// What an operation on a sticker pack leads to. One that does not say what it is installs.
pub open spec fn sticker_action(operation: StickerPackOperationView) -> ReceiveActionView {
    match operation.kind {
        Some(StickerPackOperationType::Remove) => ReceiveActionView::RemoveStickerPack {
            pack_id: operation.pack_id.unwrap_or(Seq::empty()),
        },
        _ => ReceiveActionView::InstallStickerPack { operation },
    }
}

/// What the operations on sticker packs lead to.
pub open spec fn sticker_actions(operations: Seq<StickerPackOperationView>) -> Seq<
    ReceiveActionView,
> {
    operations.map_values(|operation: StickerPackOperationView| sticker_action(operation))
}

/// The account entropy pool that a message with keys gives.
pub open spec fn pool_given(keys: KeysView, reading: KeysReadingView) -> Option<Seq<char>> {
    if keys.account_entropy_pool is Some {
        reading.pool
    } else {
        None
    }
}

/// The master key that a message with keys gives: thirty-two bytes, or it is none.
pub open spec fn master_given(keys: KeysView) -> Option<Seq<u8>> {
    match keys.master {
        Some(bytes) => if bytes.len() == 32 {
            Some(bytes)
        } else {
            None
        },
        None => None,
    }
}

/// What is known of the keys after a message with keys. A primary device ignores it: it is
/// where keys come from. A message without a valid master key leaves the one that derives from
/// the account entropy pool.
pub open spec fn with_keys(
    state: ReceiveStateView,
    keys: KeysView,
    reading: KeysReadingView,
) -> ReceiveStateView {
    if state.registration_type == RegistrationType::Primary {
        state
    } else {
        let pool = match pool_given(keys, reading) {
            Some(pool) => Some(pool),
            None => state.account_entropy_pool,
        };
        ReceiveStateView {
            account_entropy_pool: pool,
            master_key: match master_given(keys) {
                Some(master) => Some(master),
                None => match (pool, reading.derived) {
                    (Some(_), Some(derived)) => Some(derived),
                    _ => state.master_key,
                },
            },
            ..state
        }
    }
}

/// What a message with keys leads to.
pub open spec fn keys_actions(
    state: ReceiveStateView,
    keys: KeysView,
    reading: KeysReadingView,
) -> Seq<ReceiveActionView> {
    if state.registration_type == RegistrationType::Primary {
        Seq::empty()
    } else {
        (match pool_given(keys, reading) {
            Some(pool) => seq![ReceiveActionView::StoreEntropyPool { pool }],
            None => Seq::empty(),
        }) + (match master_given(keys) {
            Some(key) => seq![ReceiveActionView::StoreMasterKey { key }],
            None => Seq::empty(),
        })
    }
}

/// The message that says something of a group: one that was received, or one that another
/// device of the account sent.
pub open spec fn data_message_of(body: ContentBodyView) -> Option<DataMessageView> {
    match body {
        ContentBodyView::DataMessage(message) => Some(message),
        ContentBodyView::SynchronizeMessage(sync) => match sync.sent {
            Some(sent) => sent.message,
            None => None,
        },
        _ => None,
    }
}

/// What a message in a group leads to.
pub open spec fn group_actions(body: ContentBodyView) -> Seq<ReceiveActionView> {
    match data_message_of(body) {
        Some(message) => match message.group_v2 {
            Some(group) => match (group.master_key, group.revision) {
                (Some(master_key), Some(revision)) => seq![
                    ReceiveActionView::UpsertGroup { master_key, revision },
                ],
                _ => Seq::empty(),
            },
            None => Seq::empty(),
        },
        None => Seq::empty(),
    }
}

/// What is known after a message.
pub open spec fn state_after(
    state: ReceiveStateView,
    content: ContentView,
    reading: KeysReadingView,
) -> ReceiveStateView {
    match content.body {
        ContentBodyView::SynchronizeMessage(sync) => match (sync.contacts, sync.keys) {
            (None, Some(keys)) => with_keys(state, keys, reading),
            _ => state,
        },
        _ => state,
    }
}

/// What a message between devices leads to, before it is saved.
pub open spec fn sync_actions(
    state: ReceiveStateView,
    sync: SyncMessageView,
    reading: KeysReadingView,
) -> Seq<ReceiveActionView> {
    sticker_actions(sync.sticker_pack_operation) + (match sync.keys {
        Some(keys) => keys_actions(state, keys, reading),
        None => Seq::empty(),
    })
}

/// What a message leads to: nothing where it is the report of a decryption error; the answer
/// to a request, and then no more than that contacts came, where it announces contacts; and
/// otherwise everything it asks for, after which it is saved and handed out.
pub open spec fn actions_of(
    state: ReceiveStateView,
    content: ContentView,
    reading: KeysReadingView,
) -> Seq<ReceiveActionView> {
    let save_and_yield = group_actions(content.body) + seq![
        ReceiveActionView::SaveMessage,
        ReceiveActionView::YieldContent,
    ];
    match content.body {
        ContentBodyView::DecryptionErrorMessage(_) => Seq::empty(),
        ContentBodyView::SynchronizeMessage(sync) => request_actions(
            state,
            sync.request,
            content.metadata.sender_device,
        ) + (if sync.contacts is Some {
            seq![ReceiveActionView::YieldContacts]
        } else {
            sync_actions(state, sync, reading) + save_and_yield
        }),
        _ => save_and_yield,
    }
}

fn push_request_actions(
    state: &ReceiveState,
    request: Option<RequestType>,
    sender_device: u32,
    actions: &mut Vec<ReceiveAction>,
)
    ensures
        final(actions).deep_view() == old(actions).deep_view() + request_actions(
            state.deep_view(),
            request,
            sender_device,
        ),
{
    broadcast use text::lemma_bytes_view;

    let ghost before = actions.deep_view();
    match request {
        Some(RequestType::Contacts) => {
            if sender_device != state.device_id {
                actions.push(ReceiveAction::SendContacts);
            }
        },
        Some(RequestType::Keys) => {
            let master = match &state.master_key {
                Some(key) => Some(key.to_vec()),
                None => None,
            };
            let keys = Keys {
                master,
                account_entropy_pool: state.account_entropy_pool.clone(),
                media_root_backup_key: None,
            };
            proof {
                assert(keys.account_entropy_pool.deep_view()
                    =~= state.account_entropy_pool.deep_view());
            }
            actions.push(ReceiveAction::SendKeys { keys });
        },
        Some(RequestType::Blocked) => {
            actions.push(ReceiveAction::SendBlocked);
        },
        _ => {},
    }
    assert(actions.deep_view() =~= before + request_actions(
        state.deep_view(),
        request,
        sender_device,
    ));
}

fn to_sticker_action(operation: &StickerPackOperation) -> (action: ReceiveAction)
    ensures
        action.deep_view() == sticker_action(operation.deep_view()),
{
    broadcast use text::lemma_bytes_view;

    match operation.kind {
        Some(StickerPackOperationType::Remove) => {
            let pack_id = match &operation.pack_id {
                Some(pack_id) => {
                    let bytes = pack_id.clone();
                    assert(bytes@ =~= pack_id@);
                    bytes
                },
                None => Vec::new(),
            };
            proof {
                assert(pack_id.deep_view() =~= operation.pack_id.deep_view().unwrap_or(
                    Seq::empty(),
                ));
            }
            ReceiveAction::RemoveStickerPack { pack_id }
        },
        _ => ReceiveAction::InstallStickerPack { operation: operation.clone() },
    }
}

fn push_sticker_actions(operations: &Vec<StickerPackOperation>, actions: &mut Vec<ReceiveAction>)
    ensures
        final(actions).deep_view() == old(actions).deep_view() + sticker_actions(
            operations.deep_view(),
        ),
{
    let ghost before = actions.deep_view();
    let ghost all = operations.deep_view();
    let mut i: usize = 0;
    proof {
        assert(actions.deep_view() =~= before + sticker_actions(all.take(0)));
    }
    while i < operations.len()
        invariant
            i <= operations@.len(),
            all == operations.deep_view(),
            actions.deep_view() == before + sticker_actions(all.take(i as int)),
        decreases operations@.len() - i,
    {
        let action = to_sticker_action(&operations[i]);
        let ghost so_far = actions.deep_view();
        actions.push(action);
        proof {
            assert(actions.deep_view() =~= so_far.push(action.deep_view()));
            assert(sticker_actions(all.take(i + 1)) =~= sticker_actions(all.take(i as int)).push(
                sticker_action(all[i as int]),
            ));
        }
        i = i + 1;
    }
    assert(all.take(i as int) =~= all);
}

/// The data message in a body, if it has one.
pub fn data_message(body: &ContentBody) -> (message: Option<&DataMessage>)
    ensures
        match message {
            Some(message) => data_message_of(body.deep_view()) == Some(message.deep_view()),
            None => data_message_of(body.deep_view()) is None,
        },
{
    match body {
        ContentBody::DataMessage(message) => Some(message),
        ContentBody::SynchronizeMessage(sync) => match &sync.sent {
            Some(sent) => match &sent.message {
                Some(message) => Some(message),
                None => None,
            },
            None => None,
        },
        _ => None,
    }
}

fn push_group_actions(body: &ContentBody, actions: &mut Vec<ReceiveAction>)
    ensures
        final(actions).deep_view() == old(actions).deep_view() + group_actions(body.deep_view()),
{
    broadcast use text::lemma_bytes_view;

    let ghost before = actions.deep_view();
    match data_message(body) {
        Some(message) => match &message.group_v2 {
            Some(group) => match (&group.master_key, group.revision) {
                (Some(master_key), Some(revision)) => {
                    let bytes = master_key.clone();
                    assert(bytes@ =~= master_key@);
                    actions.push(ReceiveAction::UpsertGroup { master_key: bytes, revision });
                },
                _ => {},
            },
            None => {},
        },
        None => {},
    }
    assert(actions.deep_view() =~= before + group_actions(body.deep_view()));
}

impl ReceiveState {
    fn take_keys(&mut self, keys: &Keys, reading: KeysReading, actions: &mut Vec<ReceiveAction>)
        ensures
            final(self).deep_view() == with_keys(
                old(self).deep_view(),
                keys.deep_view(),
                reading.deep_view(),
            ),
            final(actions).deep_view() == old(actions).deep_view() + keys_actions(
                old(self).deep_view(),
                keys.deep_view(),
                reading.deep_view(),
            ),
    {
        broadcast use text::lemma_bytes_view;

        let ghost before = actions.deep_view();
        let ghost was = self.deep_view();
        if self.registration_type != RegistrationType::Primary {
            if keys.account_entropy_pool.is_some() {
                if let Some(pool) = reading.pool {
                    actions.push(ReceiveAction::StoreEntropyPool { pool: pool.clone() });
                    self.account_entropy_pool = Some(pool);
                }
            }
            let ghost pool_stored = actions.deep_view();
            proof {
                assert(pool_stored =~= before + (match pool_given(
                    keys.deep_view(),
                    reading.deep_view(),
                ) {
                    Some(pool) => seq![ReceiveActionView::StoreEntropyPool { pool }],
                    None => Seq::empty(),
                }));
            }
            let given = match &keys.master {
                Some(bytes) => MasterKey::from_slice(bytes.as_slice()),
                None => None,
            };
            match given {
                Some(key) => {
                    actions.push(ReceiveAction::StoreMasterKey { key });
                    self.master_key = Some(key);
                },
                None => {
                    if self.account_entropy_pool.is_some() && reading.derived.is_some() {
                        self.master_key = reading.derived;
                    }
                },
            }
            proof {
                assert(actions.deep_view() =~= pool_stored + (match master_given(
                    keys.deep_view(),
                ) {
                    Some(key) => seq![ReceiveActionView::StoreMasterKey { key }],
                    None => Seq::empty(),
                }));
            }
        }
        proof {
            assert(self.deep_view() =~= with_keys(was, keys.deep_view(), reading.deep_view()));
            assert(actions.deep_view() =~= before + keys_actions(
                was,
                keys.deep_view(),
                reading.deep_view(),
            ));
        }
    }

    /// What a message that was received leads to, in order.
    ///
    /// `reading` is what the keys in the message amount to, where it has any.
    pub fn receive_messages(&mut self, content: &Content, reading: KeysReading) -> (actions: Vec<
        ReceiveAction,
    >)
        ensures
            final(self).deep_view() == state_after(
                old(self).deep_view(),
                content.deep_view(),
                reading.deep_view(),
            ),
            actions.deep_view() == actions_of(
                old(self).deep_view(),
                content.deep_view(),
                reading.deep_view(),
            ),
    {
        let mut actions: Vec<ReceiveAction> = Vec::new();
        let ghost was = self.deep_view();
        let ghost said = content.deep_view();
        let ghost read = reading.deep_view();
        proof {
            assert(actions.deep_view() =~= Seq::<ReceiveActionView>::empty());
        }
        if let ContentBody::DecryptionErrorMessage(_) = &content.body {
            return actions;
        }
        if let ContentBody::SynchronizeMessage(sync) = &content.body {
            push_request_actions(
                self,
                sync.request,
                content.metadata.sender_device,
                &mut actions,
            );
            let ghost answered = request_actions(
                was,
                sync.deep_view().request,
                said.metadata.sender_device,
            );
            proof {
                assert(actions.deep_view() =~= answered);
            }
            if sync.contacts.is_some() {
                actions.push(ReceiveAction::YieldContacts);
                proof {
                    assert(actions.deep_view() =~= answered + seq![
                        ReceiveActionView::YieldContacts,
                    ]);
                }
                return actions;
            }
            push_sticker_actions(&sync.sticker_pack_operation, &mut actions);
            if let Some(keys) = &sync.keys {
                self.take_keys(keys, reading, &mut actions);
            }
            proof {
                assert(actions.deep_view() =~= answered + sync_actions(
                    was,
                    sync.deep_view(),
                    read,
                ));
            }
        }
        let ghost so_far = actions.deep_view();
        push_group_actions(&content.body, &mut actions);
        let ghost before_saving = actions.deep_view();
        actions.push(ReceiveAction::SaveMessage);
        actions.push(ReceiveAction::YieldContent);
        proof {
            assert(actions.deep_view() =~= before_saving.push(ReceiveActionView::SaveMessage).push(
                ReceiveActionView::YieldContent,
            ));
            assert(actions.deep_view() =~= so_far + (group_actions(said.body) + seq![
                ReceiveActionView::SaveMessage,
                ReceiveActionView::YieldContent,
            ]));
            assert(actions.deep_view() =~= actions_of(was, said, read));
        }
        actions
    }
}

/// What the end of the queue leads to: a device that has no account entropy pool asks for the
/// keys, every time.
pub fn on_queue_empty(state: &ReceiveState) -> (actions: Vec<ReceiveAction>)
    ensures
        actions.deep_view() == (if state.deep_view().account_entropy_pool is None {
            seq![ReceiveActionView::RequestKeys, ReceiveActionView::YieldQueueEmpty]
        } else {
            seq![ReceiveActionView::YieldQueueEmpty]
        }),
{
    let mut actions: Vec<ReceiveAction> = Vec::new();
    if state.account_entropy_pool.is_none() {
        actions.push(ReceiveAction::RequestKeys);
    }
    actions.push(ReceiveAction::YieldQueueEmpty);
    proof {
        assert(actions.deep_view() =~= (if state.deep_view().account_entropy_pool is None {
            seq![ReceiveActionView::RequestKeys, ReceiveActionView::YieldQueueEmpty]
        } else {
            seq![ReceiveActionView::YieldQueueEmpty]
        }));
    }
    actions
}

/// What a connection gives besides envelopes.
#[derive(Debug)]
pub enum ConnectionEvent<R> {
    /// It closed.
    Disconnected(R),
    /// Something could not be read; it goes on.
    Failed,
    /// It ended.
    Ended,
}

/// What an event of the connection leads to.
#[derive(Debug)]
pub enum ConnectionStep<R> {
    /// Hand this out, and go on.
    Yield(Received<R>),
    /// Go on.
    Continue,
    /// There is no more.
    End,
}

/// What an event of the connection leads to.
pub fn on_connection_event<R>(event: ConnectionEvent<R>) -> (step: ConnectionStep<R>)
    ensures
        step == (match event {
            ConnectionEvent::Disconnected(reason) => ConnectionStep::Yield(
                Received::Disconnected(reason),
            ),
            ConnectionEvent::Failed => ConnectionStep::Continue,
            ConnectionEvent::Ended => ConnectionStep::End,
        }),
{
    match event {
        ConnectionEvent::Disconnected(reason) => ConnectionStep::Yield(
            Received::Disconnected(reason),
        ),
        ConnectionEvent::Failed => ConnectionStep::Continue,
        ConnectionEvent::Ended => ConnectionStep::End,
    }
}

/// Whether an action hands something out.
pub open spec fn hands_out(action: ReceiveActionView) -> bool {
    action is YieldContacts || action is YieldContent || action is YieldQueueEmpty
}

/// Whether nothing is handed out.
pub open spec fn quiet(actions: Seq<ReceiveActionView>) -> bool {
    forall|i: int| 0 <= i < actions.len() ==> !hands_out(#[trigger] actions[i])
}

proof fn lemma_quiet_concat(a: Seq<ReceiveActionView>, b: Seq<ReceiveActionView>)
    requires
        quiet(a),
        quiet(b),
    ensures
        quiet(a + b),
{
}

proof fn lemma_sync_actions_are_quiet(
    state: ReceiveStateView,
    sync: SyncMessageView,
    reading: KeysReadingView,
)
    ensures
        quiet(sync_actions(state, sync, reading)),
{
    let stickers = sticker_actions(sync.sticker_pack_operation);
    assert forall|i: int| 0 <= i < stickers.len() implies !hands_out(#[trigger] stickers[i]) by {}
    match sync.keys {
        Some(keys) => {
            assert(quiet(keys_actions(state, keys, reading)));
            lemma_quiet_concat(stickers, keys_actions(state, keys, reading));
        },
        None => {
            lemma_quiet_concat(stickers, Seq::empty());
        },
    }
}

/// A message hands out one thing, at the end, unless it reports a decryption error: then
/// nothing at all is done. And what is handed out as a message was saved before.
pub proof fn law_each_message_is_handed_out_once(
    state: ReceiveStateView,
    content: ContentView,
    reading: KeysReadingView,
)
    ensures
        ({
            let actions = actions_of(state, content, reading);
            if content.body is DecryptionErrorMessage {
                actions.len() == 0
            } else {
                &&& actions.len() > 0
                &&& hands_out(actions.last())
                &&& quiet(actions.drop_last())
                &&& actions.last() is YieldContent ==> actions.len() > 1 && actions[actions.len()
                    - 2] is SaveMessage
            }
        }),
{
    let actions = actions_of(state, content, reading);
    let group = group_actions(content.body);
    let save = seq![ReceiveActionView::SaveMessage];
    let end = seq![ReceiveActionView::SaveMessage, ReceiveActionView::YieldContent];
    assert(quiet(group));
    assert(quiet(save));
    lemma_quiet_concat(group, save);
    match content.body {
        ContentBodyView::DecryptionErrorMessage(_) => {},
        ContentBodyView::SynchronizeMessage(sync) => {
            let answer = request_actions(state, sync.request, content.metadata.sender_device);
            assert(quiet(answer));
            if sync.contacts is Some {
                assert(actions.drop_last() =~= answer);
            } else {
                let asked = sync_actions(state, sync, reading);
                lemma_sync_actions_are_quiet(state, sync, reading);
                lemma_quiet_concat(asked, group + save);
                lemma_quiet_concat(answer, asked + (group + save));
                assert(actions =~= answer + (asked + (group + end)));
                assert(actions.drop_last() =~= answer + (asked + (group + save)));
            }
        },
        _ => {
            assert(actions =~= group + end);
            assert(actions.drop_last() =~= group + save);
        },
    }
}

/// None of some actions stores a key.
pub open spec fn keeps_keys(actions: Seq<ReceiveActionView>) -> bool {
    forall|i: int|
        0 <= i < actions.len() ==> !((#[trigger] actions[i]) is StoreMasterKey
            || actions[i] is StoreEntropyPool)
}

proof fn lemma_keeps_keys_concat(a: Seq<ReceiveActionView>, b: Seq<ReceiveActionView>)
    requires
        keeps_keys(a),
        keeps_keys(b),
    ensures
        keeps_keys(a + b),
{
    let all = a + b;
    assert forall|i: int| 0 <= i < all.len() implies !((#[trigger] all[i]) is StoreMasterKey
        || all[i] is StoreEntropyPool) by {
        if i < a.len() {
            assert(all[i] == a[i]);
        } else {
            assert(all[i] == b[i - a.len()]);
        }
    }
}

/// A primary device never takes keys from another one.
pub proof fn law_primary_keeps_its_keys(
    state: ReceiveStateView,
    content: ContentView,
    reading: KeysReadingView,
)
    requires
        state.registration_type == RegistrationType::Primary,
    ensures
        state_after(state, content, reading) == state,
        keeps_keys(actions_of(state, content, reading)),
{
    let group = group_actions(content.body);
    let end = seq![ReceiveActionView::SaveMessage, ReceiveActionView::YieldContent];
    assert(keeps_keys(group));
    assert(keeps_keys(end));
    lemma_keeps_keys_concat(group, end);
    if let ContentBodyView::SynchronizeMessage(sync) = content.body {
        let answer = request_actions(state, sync.request, content.metadata.sender_device);
        let contacts = seq![ReceiveActionView::YieldContacts];
        let stickers = sticker_actions(sync.sticker_pack_operation);
        assert(keeps_keys(answer));
        assert(keeps_keys(contacts));
        assert(keeps_keys(stickers));
        lemma_keeps_keys_concat(answer, contacts);
        lemma_keeps_keys_concat(stickers, Seq::empty());
        assert(sync_actions(state, sync, reading) =~= stickers + Seq::empty());
        lemma_keeps_keys_concat(sync_actions(state, sync, reading), group + end);
        lemma_keeps_keys_concat(answer, sync_actions(state, sync, reading) + (group + end));
    }
}

/// None of some actions sends the contacts.
pub open spec fn keeps_contacts(actions: Seq<ReceiveActionView>) -> bool {
    forall|i: int| 0 <= i < actions.len() ==> !((#[trigger] actions[i]) is SendContacts)
}

proof fn lemma_keeps_contacts_concat(a: Seq<ReceiveActionView>, b: Seq<ReceiveActionView>)
    requires
        keeps_contacts(a),
        keeps_contacts(b),
    ensures
        keeps_contacts(a + b),
{
    let all = a + b;
    assert forall|i: int| 0 <= i < all.len() implies !((#[trigger] all[i]) is SendContacts) by {
        if i < a.len() {
            assert(all[i] == a[i]);
        } else {
            assert(all[i] == b[i - a.len()]);
        }
    }
}

proof fn lemma_sync_actions_keep_contacts(
    state: ReceiveStateView,
    sync: SyncMessageView,
    reading: KeysReadingView,
)
    ensures
        keeps_contacts(sync_actions(state, sync, reading)),
{
    let stickers = sticker_actions(sync.sticker_pack_operation);
    assert(keeps_contacts(stickers));
    match sync.keys {
        Some(keys) => {
            assert(keeps_contacts(keys_actions(state, keys, reading)));
            lemma_keeps_contacts_concat(stickers, keys_actions(state, keys, reading));
        },
        None => {
            lemma_keeps_contacts_concat(stickers, Seq::empty());
        },
    }
}

/// A device never answers its own request for contacts.
pub proof fn law_own_echo_is_not_answered(
    state: ReceiveStateView,
    content: ContentView,
    reading: KeysReadingView,
)
    requires
        content.metadata.sender_device == state.device_id,
    ensures
        keeps_contacts(actions_of(state, content, reading)),
{
    let group = group_actions(content.body);
    let end = seq![ReceiveActionView::SaveMessage, ReceiveActionView::YieldContent];
    assert(keeps_contacts(group));
    assert(keeps_contacts(end));
    lemma_keeps_contacts_concat(group, end);
    if let ContentBodyView::SynchronizeMessage(sync) = content.body {
        let answer = request_actions(state, sync.request, content.metadata.sender_device);
        let contacts = seq![ReceiveActionView::YieldContacts];
        let asked = sync_actions(state, sync, reading);
        assert(keeps_contacts(answer));
        assert(keeps_contacts(contacts));
        lemma_keeps_contacts_concat(answer, contacts);
        lemma_sync_actions_keep_contacts(state, sync, reading);
        lemma_keeps_contacts_concat(asked, group + end);
        lemma_keeps_contacts_concat(answer, asked + (group + end));
    }
}

} // verus!
