//! What receiving a content promises.
use vstd::prelude::*;

use crate::model::messages::Received;
use crate::proto::{
    Content, ContentBody, ContentBodyView, ContentView, DataMessage, DataMessageView, RequestType,
    StickerPackOperationType, StickerPackOperationView, SyncMessageView,
};
use crate::service_id;
use crate::service_id::{Pni, ServiceId, ServiceIdKind};

use super::receive;
use super::receive::{
    ConnectionEvent, ConnectionStep, KeysReading, KeysReadingView, ReceiveAction, ReceiveActionView,
    ReceiveState, ReceiveStateView,
};
use super::registered::RegistrationType;

verus! {

/// What another device of this account sent, unless it is its contacts.
pub open spec fn sync_in(content: ContentView) -> Option<SyncMessageView> {
    match content.body {
        ContentBodyView::SynchronizeMessage(sync) => if sync.contacts is None {
            Some(sync)
        } else {
            None
        },
        _ => None,
    }
}

/// What another device of this account asks for.
pub open spec fn asks_for(content: ContentView, kind: RequestType) -> bool {
    content.body matches ContentBodyView::SynchronizeMessage(sync) && sync.request == Some(kind)
}

/// The message that somebody wrote, or that another device of this account sent.
pub open spec fn message_in(content: ContentView) -> Option<DataMessageView> {
    match content.body {
        ContentBodyView::DataMessage(message) => Some(message),
        ContentBodyView::SynchronizeMessage(sync) => if sync.sent is Some {
            sync.sent->0.message
        } else {
            None
        },
        _ => None,
    }
}

/// A content that is saved: all but a list of contacts, and the report that something could not
/// be decrypted.
pub open spec fn is_saved(content: ContentView) -> bool {
    match content.body {
        ContentBodyView::DecryptionErrorMessage(_) => false,
        ContentBodyView::SynchronizeMessage(sync) => sync.contacts is None,
        _ => true,
    }
}

/// Whether an operation on a sticker pack takes it away.
pub open spec fn removes(operation: StickerPackOperationView) -> bool {
    operation.kind == Some(StickerPackOperationType::Remove)
}

/// Whether an action is owed for a content.
pub open spec fn is_owed(
    state: ReceiveStateView,
    content: ContentView,
    reading: KeysReadingView,
    action: ReceiveActionView,
) -> bool {
    let is_secondary = state.registration_type == RegistrationType::Secondary;
    match action {
        ReceiveActionView::SendContacts => {
            &&& asks_for(content, RequestType::Contacts)
            &&& content.metadata.sender_device != state.device_id
        },
        ReceiveActionView::SendBlocked => asks_for(content, RequestType::Blocked),
        ReceiveActionView::SendKeys { keys } => {
            &&& asks_for(content, RequestType::Keys)
            &&& keys.master == state.master_key
            &&& keys.account_entropy_pool == state.account_entropy_pool
            &&& keys.media_root_backup_key is None
        },
        ReceiveActionView::InstallStickerPack { operation } => {
            &&& sync_in(content) is Some
            &&& sync_in(content)->0.sticker_pack_operation.contains(operation)
            &&& !removes(operation)
        },
        ReceiveActionView::RemoveStickerPack { pack_id } => {
            &&& sync_in(content) is Some
            &&& exists|operation: StickerPackOperationView| #[trigger]
                sync_in(content)->0.sticker_pack_operation.contains(operation) && removes(operation)
                    && (operation.pack_id == Some(pack_id) || (operation.pack_id is None
                    && pack_id.len() == 0))
        },
        ReceiveActionView::StoreEntropyPool { pool } => {
            &&& is_secondary
            &&& sync_in(content) is Some
            &&& sync_in(content)->0.keys is Some
            &&& sync_in(content)->0.keys->0.account_entropy_pool is Some
            &&& reading.pool == Some(pool)
        },
        ReceiveActionView::StoreMasterKey { key } => {
            &&& is_secondary
            &&& sync_in(content) is Some
            &&& sync_in(content)->0.keys is Some
            &&& sync_in(content)->0.keys->0.master == Some(key)
            &&& key.len() == 32
        },
        ReceiveActionView::UpsertGroup { master_key, revision } => {
            &&& is_saved(content)
            &&& message_in(content) is Some
            &&& message_in(content)->0.group_v2 is Some
            &&& message_in(content)->0.group_v2->0.master_key == Some(master_key)
            &&& message_in(content)->0.group_v2->0.revision == Some(revision)
        },
        ReceiveActionView::SaveMessage => is_saved(content),
        ReceiveActionView::YieldContent => is_saved(content),
        ReceiveActionView::YieldContacts => {
            &&& content.body is SynchronizeMessage
            &&& content.body->SynchronizeMessage_0.contacts is Some
        },
        ReceiveActionView::RequestKeys => false,
        ReceiveActionView::YieldQueueEmpty => false,
    }
}

/// A content leads to everything that is owed for it and to nothing else.
pub proof fn law_what_is_owed_is_done(
    state: ReceiveStateView,
    content: ContentView,
    reading: KeysReadingView,
    action: ReceiveActionView,
)
    ensures
        receive::actions_of(state, content, reading).contains(action) <==> is_owed(
            state,
            content,
            reading,
            action,
        ),
{
    let save = seq![ReceiveActionView::SaveMessage, ReceiveActionView::YieldContent];
    assert(save[0] is SaveMessage && save[1] is YieldContent);
    assert(save.contains(action) <==> action is SaveMessage || action is YieldContent);
    let groups = receive::group_actions(content.body);
    lemma_concat(groups, save, action);
    lemma_groups(content, action);
    if let ContentBodyView::SynchronizeMessage(sync) = content.body {
        let requests = receive::request_actions(
            state,
            sync.request,
            content.metadata.sender_device,
        );
        lemma_requests(state, content, reading, sync, action);
        if sync.contacts is Some {
            let contacts = seq![ReceiveActionView::YieldContacts];
            assert(contacts[0] is YieldContacts);
            lemma_concat(requests, contacts, action);
        } else {
            let stickers = receive::sticker_actions(sync.sticker_pack_operation);
            let keys = match sync.keys {
                Some(keys) => receive::keys_actions(state, keys, reading),
                None => Seq::empty(),
            };
            lemma_stickers(sync.sticker_pack_operation, action);
            lemma_keys(state, sync, reading, action);
            lemma_concat(stickers, keys, action);
            lemma_concat(stickers + keys, groups + save, action);
            lemma_concat(requests, stickers + keys + (groups + save), action);
        }
    }
}

proof fn lemma_concat(
    a: Seq<ReceiveActionView>,
    b: Seq<ReceiveActionView>,
    action: ReceiveActionView,
)
    ensures
        (a + b).contains(action) <==> a.contains(action) || b.contains(action),
{
    let all = a + b;
    if all.contains(action) {
        let k = choose|k: int| 0 <= k < all.len() && all[k] == action;
        if k < a.len() {
            assert(a[k] == action);
        } else {
            assert(b[k - a.len()] == action);
        }
    }
    if a.contains(action) {
        let k = choose|k: int| 0 <= k < a.len() && a[k] == action;
        assert(all[k] == action);
    }
    if b.contains(action) {
        let k = choose|k: int| 0 <= k < b.len() && b[k] == action;
        assert(all[a.len() + k] == action);
    }
}

proof fn lemma_groups(content: ContentView, action: ReceiveActionView)
    ensures
        receive::group_actions(content.body).contains(action) <==> (action is UpsertGroup
            && message_in(content) is Some && message_in(content)->0.group_v2 is Some
            && message_in(content)->0.group_v2->0.master_key == Some(
            action->UpsertGroup_master_key,
        ) && message_in(content)->0.group_v2->0.revision == Some(action->UpsertGroup_revision)),
{
    let groups = receive::group_actions(content.body);
    if groups.len() > 0 {
        assert(groups.len() == 1);
        assert(groups.contains(groups[0]));
        assert(groups.contains(action) <==> groups[0] == action);
    }
}

proof fn lemma_requests(
    state: ReceiveStateView,
    content: ContentView,
    reading: KeysReadingView,
    sync: SyncMessageView,
    action: ReceiveActionView,
)
    requires
        content.body == ContentBodyView::SynchronizeMessage(sync),
    ensures
        receive::request_actions(
            state,
            sync.request,
            content.metadata.sender_device,
        ).contains(action) <==> ((action is SendContacts || action is SendBlocked
            || action is SendKeys) && is_owed(state, content, reading, action)),
{
    let requests = receive::request_actions(state, sync.request, content.metadata.sender_device);
    if requests.len() > 0 {
        assert(requests.len() == 1);
        assert(requests.contains(requests[0]));
        assert(requests.contains(action) <==> requests[0] == action);
    }
}

proof fn lemma_stickers(operations: Seq<StickerPackOperationView>, action: ReceiveActionView)
    ensures
        receive::sticker_actions(operations).contains(action) <==> {
            ||| action is InstallStickerPack && operations.contains(
                action->InstallStickerPack_operation,
            ) && !removes(action->InstallStickerPack_operation)
            ||| action is RemoveStickerPack && exists|operation: StickerPackOperationView| #[trigger]
                operations.contains(operation) && removes(operation) && (operation.pack_id == Some(
                    action->RemoveStickerPack_pack_id,
                ) || (operation.pack_id is None && action->RemoveStickerPack_pack_id.len() == 0))
        },
{
    let actions = receive::sticker_actions(operations);
    if actions.contains(action) {
        let k = choose|k: int| 0 <= k < actions.len() && actions[k] == action;
        let operation = operations[k];
        assert(operations.contains(operation));
    }
    if action is InstallStickerPack && operations.contains(action->InstallStickerPack_operation)
        && !removes(action->InstallStickerPack_operation) {
        let operation = action->InstallStickerPack_operation;
        let k = choose|k: int| 0 <= k < operations.len() && operations[k] == operation;
        assert(actions[k] == action);
    }
    if action is RemoveStickerPack && exists|operation: StickerPackOperationView| #[trigger]
        operations.contains(operation) && removes(operation) && (operation.pack_id == Some(
            action->RemoveStickerPack_pack_id,
        ) || (operation.pack_id is None && action->RemoveStickerPack_pack_id.len() == 0)) {
        let operation = choose|operation: StickerPackOperationView| #[trigger]
            operations.contains(operation) && removes(operation) && (operation.pack_id == Some(
                action->RemoveStickerPack_pack_id,
            ) || (operation.pack_id is None && action->RemoveStickerPack_pack_id.len() == 0));
        let k = choose|k: int| 0 <= k < operations.len() && operations[k] == operation;
        if operation.pack_id is None {
            assert(action->RemoveStickerPack_pack_id =~= Seq::<u8>::empty());
        }
        assert(actions[k] == action);
    }
}

proof fn lemma_keys(
    state: ReceiveStateView,
    sync: SyncMessageView,
    reading: KeysReadingView,
    action: ReceiveActionView,
)
    ensures
        (match sync.keys {
            Some(keys) => receive::keys_actions(state, keys, reading),
            None => Seq::empty(),
        }).contains(action) <==> (state.registration_type == RegistrationType::Secondary
            && sync.keys is Some && {
            ||| action is StoreEntropyPool && sync.keys->0.account_entropy_pool is Some
                && reading.pool == Some(action->StoreEntropyPool_pool)
            ||| action is StoreMasterKey && sync.keys->0.master == Some(action->StoreMasterKey_key)
                && action->StoreMasterKey_key.len() == 32
        }),
{
    if let Some(keys) = sync.keys {
        let pools = match receive::pool_given(keys, reading) {
            Some(pool) => seq![ReceiveActionView::StoreEntropyPool { pool }],
            None => Seq::empty(),
        };
        let masters = match receive::master_given(keys) {
            Some(key) => seq![ReceiveActionView::StoreMasterKey { key }],
            None => Seq::empty(),
        };
        lemma_concat(pools, masters, action);
        if pools.len() > 0 {
            assert(pools.contains(pools[0]));
        }
        if masters.len() > 0 {
            assert(masters.contains(masters[0]));
        }
    }
}

/// A content is saved, and then handed out as the last thing. A list of contacts is handed out
/// as the last thing too.
pub proof fn law_handing_out_comes_last(
    state: ReceiveStateView,
    content: ContentView,
    reading: KeysReadingView,
)
    ensures
        ({
            let actions = receive::actions_of(state, content, reading);
            &&& is_saved(content) ==> {
                &&& actions.len() >= 2
                &&& actions[actions.len() - 2] is SaveMessage
                &&& actions[actions.len() - 1] is YieldContent
            }
            &&& content.body is DecryptionErrorMessage ==> actions.len() == 0
            &&& content.body is SynchronizeMessage && !is_saved(content) ==> {
                &&& actions.len() >= 1
                &&& actions[actions.len() - 1] is YieldContacts
            }
        }),
{
}

/// The keys of the account are taken from the primary device: its entropy pool, and its master
/// key, or the one that derives from the pool. What does not come stays, and nothing else of the
/// state ever changes.
pub proof fn law_secondary_devices_take_the_keys(
    state: ReceiveStateView,
    content: ContentView,
    reading: KeysReadingView,
)
    ensures
        ({
            let after = receive::state_after(state, content, reading);
            let given = sync_in(content) is Some && sync_in(content)->0.keys is Some;
            let keys = sync_in(content)->0.keys->0;
            let is_secondary = state.registration_type == RegistrationType::Secondary;
            &&& after.device_id == state.device_id
            &&& after.registration_type == state.registration_type
            &&& !given || !is_secondary ==> after == state
            &&& given && is_secondary ==> {
                &&& keys.account_entropy_pool is Some && reading.pool is Some
                    ==> after.account_entropy_pool == reading.pool
                &&& keys.account_entropy_pool is None || reading.pool is None
                    ==> after.account_entropy_pool == state.account_entropy_pool
                &&& keys.master is Some && keys.master->0.len() == 32 ==> after.master_key
                    == keys.master
                &&& (keys.master is None || keys.master->0.len() != 32)
                    && after.account_entropy_pool is Some && reading.derived is Some
                    ==> after.master_key == reading.derived
                &&& (keys.master is None || keys.master->0.len() != 32) && (
                after.account_entropy_pool is None || reading.derived is None) ==> after.master_key
                    == state.master_key
            }
        }),
{
}

/// Once the queue is empty that is told, as the last thing; before it the keys are asked for
/// where there is no entropy pool.
pub proof fn law_missing_keys_are_asked_for(state: ReceiveState, actions: Vec<ReceiveAction>)
    requires
        call_ensures(receive::on_queue_empty, (&state,), actions),
    ensures
        actions@.len() >= 1,
        actions@[actions@.len() - 1] is YieldQueueEmpty,
        state.account_entropy_pool is Some ==> actions@.len() == 1,
        state.account_entropy_pool is None ==> actions@.len() == 2 && actions@[0] is RequestKeys,
{
    let view = actions.deep_view();
    assert(view.len() == actions@.len());
    assert(state.deep_view().account_entropy_pool == state.account_entropy_pool.deep_view());
    assert(view[actions@.len() - 1] == actions@[actions@.len() - 1].deep_view());
    if state.account_entropy_pool is None {
        assert(view[0] == actions@[0].deep_view());
    }
}

/// That the connection was lost is handed out with the reason; a failure is passed over; the end
/// is the end.
pub proof fn law_a_lost_connection_is_told<R>(event: ConnectionEvent<R>, step: ConnectionStep<R>)
    requires
        call_ensures(receive::on_connection_event::<R>, (event,), step),
    ensures
        event matches ConnectionEvent::Disconnected(reason) ==> step == ConnectionStep::Yield(
            Received::Disconnected(reason),
        ),
        event is Failed ==> step is Continue,
        event is Ended ==> step is End,
{
}

/// An envelope goes to the identity that it was sent to. One to the phone number identity needs a
/// sender, where that identity is ours.
pub proof fn law_envelopes_go_to_their_identity(
    destination: Option<ServiceId>,
    our_pni: Pni,
    has_source: bool,
    kind: Option<ServiceIdKind>,
)
    requires
        call_ensures(receive::route_to, (destination, our_pni, has_source), kind),
    ensures
        destination is None ==> kind == Some(ServiceIdKind::Aci),
        destination matches Some(ServiceId::Aci(_)) ==> kind == Some(ServiceIdKind::Aci),
        destination matches Some(ServiceId::Pni(pni)) ==> {
            &&& has_source ==> kind == Some(ServiceIdKind::Pni)
            &&& pni.uuid.bytes@ != our_pni.uuid.bytes@ ==> kind == Some(ServiceIdKind::Pni)
            &&& pni.uuid.bytes@ == our_pni.uuid.bytes@ && !has_source ==> kind is None
        },
{
}

/// An envelope that names its destination in writing goes where one does that names it as such.
pub proof fn law_a_written_destination_is_read(
    destination: &str,
    our_pni: Pni,
    has_source: bool,
    read: Option<ServiceId>,
    kind: Option<ServiceIdKind>,
    same: Option<ServiceIdKind>,
)
    requires
        call_ensures(receive::route_envelope, (destination, our_pni, has_source), kind),
        read.deep_view() == service_id::service_id_of_text(destination@),
        call_ensures(receive::route_to, (read, our_pni, has_source), same),
    ensures
        kind == same,
{
}

/// Receiving a content does what is owed for it, as the state was, and leaves the state with the
/// keys that came.
pub proof fn law_receiving_does_what_is_owed(
    state: &mut ReceiveState,
    content: Content,
    reading: KeysReading,
    actions: Vec<ReceiveAction>,
    action: ReceiveActionView,
)
    requires
        call_ensures(ReceiveState::receive_messages, (state, &content, reading), actions),
    ensures
        actions.deep_view().contains(action) <==> is_owed(
            old(state).deep_view(),
            content.deep_view(),
            reading.deep_view(),
            action,
        ),
        final(state).deep_view() == receive::state_after(
            old(state).deep_view(),
            content.deep_view(),
            reading.deep_view(),
        ),
        actions.deep_view() == receive::actions_of(
            old(state).deep_view(),
            content.deep_view(),
            reading.deep_view(),
        ),
{
    law_what_is_owed_is_done(
        old(state).deep_view(),
        content.deep_view(),
        reading.deep_view(),
        action,
    );
}

/// The data message of a content is the one that somebody wrote, or that another device sent.
pub proof fn law_the_data_message_is_the_one_inside(
    body: ContentBody,
    message: Option<&DataMessage>,
)
    requires
        call_ensures(receive::data_message, (&body,), message),
    ensures
        body.deep_view() matches ContentBodyView::DataMessage(inside) ==> message is Some
            && message->0.deep_view() == inside,
        body.deep_view() matches ContentBodyView::SynchronizeMessage(sync) ==> {
            &&& sync.sent is Some && sync.sent->0.message is Some ==> message is Some
                && message->0.deep_view() == sync.sent->0.message->0
            &&& sync.sent is None || sync.sent->0.message is None ==> message is None
        },
        !(body is DataMessage) && !(body is SynchronizeMessage) ==> message is None,
{
}

/// A content leads to each of its actions once: an answer to its request, an action for every
/// operation on a sticker pack, one for each key that is stored, one for its group, and what
/// saving it and handing it out takes.
pub proof fn law_every_action_is_done_once(
    state: ReceiveStateView,
    content: ContentView,
    reading: KeysReadingView,
)
    ensures
        ({
            let actions = receive::actions_of(state, content, reading);
            let group = message_in(content) is Some && message_in(content)->0.group_v2 is Some
                && message_in(content)->0.group_v2->0.master_key is Some
                && message_in(content)->0.group_v2->0.revision is Some;
            let for_group: nat = if group {
                1
            } else {
                0
            };
            &&& !(content.body is SynchronizeMessage) && is_saved(content) ==> actions.len()
                == for_group + 2
            &&& content.body matches ContentBodyView::SynchronizeMessage(sync) ==> {
                let is_secondary = state.registration_type == RegistrationType::Secondary;
                let for_request: nat = if sync.request == Some(RequestType::Blocked) || sync.request
                    == Some(RequestType::Keys) || (sync.request == Some(RequestType::Contacts)
                    && content.metadata.sender_device != state.device_id) {
                    1
                } else {
                    0
                };
                let for_pool: nat = if is_secondary && sync.keys is Some
                    && sync.keys->0.account_entropy_pool is Some && reading.pool is Some {
                    1
                } else {
                    0
                };
                let for_master: nat = if is_secondary && sync.keys is Some
                    && sync.keys->0.master is Some && sync.keys->0.master->0.len() == 32 {
                    1
                } else {
                    0
                };
                &&& sync.contacts is Some ==> actions.len() == for_request + 1
                &&& sync.contacts is None ==> actions.len() == for_request
                    + sync.sticker_pack_operation.len() + for_pool + for_master + for_group + 2
            }
        }),
{
}

} // verus!
