//! Importing a backup: what each frame of it leads to.
use std::collections::HashMap;

use vstd::prelude::*;

use crate::backup::convert;
use crate::backup::convert::{BackupMessageState, BackupMessageStateView, RecipientInfo};
use crate::backup::frames;
use crate::backup::frames::{FrameItem, FrameItemView};
use crate::backup::{ArchiveReply, TransferArchive};
use crate::errors::Error;
use crate::model::calls;
use crate::model::calls::{CallEventInfo, CallEventInfoView, CallPeer, CallPeerView};
use crate::model::contacts::{Contact, ContactView, PhoneNumber, PhoneNumberView};
use crate::model::groups::{Group, GroupView};
use crate::proto::{Content, ContentView};
use crate::service_id::Aci;
use crate::store::{Thread, ThreadView};

verus! {

/// Something to do.
#[derive(Debug, PartialEq)]
pub enum ImportAction {
    /// Merge the contact with what is stored of it, and save it.
    SaveContact { contact: Contact },
    /// Save the group.
    SaveGroup { master_key: [u8; 32], group: Group },
    /// Save the message.
    SaveMessage { content: Content, thread: Thread },
    /// Merge the call event into the call history.
    IngestCall { info: CallEventInfo, peer: CallPeer },
    /// Restore what the message itself cannot carry.
    RestoreState { state: BackupMessageState },
}

/// What a [`ImportAction`] holds.
#[verifier::ext_equal]
pub enum ImportActionView {
    SaveContact { contact: ContactView },
    SaveGroup { master_key: Seq<u8>, group: GroupView },
    SaveMessage { content: ContentView, thread: ThreadView },
    IngestCall { info: CallEventInfoView, peer: CallPeerView },
    RestoreState { state: BackupMessageStateView },
}

impl DeepView for ImportAction {
    type V = ImportActionView;

    open spec fn deep_view(&self) -> ImportActionView {
        match self {
            ImportAction::SaveContact { contact } => ImportActionView::SaveContact {
                contact: contact.deep_view(),
            },
            ImportAction::SaveGroup { master_key, group } => ImportActionView::SaveGroup {
                master_key: master_key@,
                group: group.deep_view(),
            },
            ImportAction::SaveMessage { content, thread } => ImportActionView::SaveMessage {
                content: content.deep_view(),
                thread: thread.deep_view(),
            },
            ImportAction::IngestCall { info, peer } => ImportActionView::IngestCall {
                info: info.deep_view(),
                peer: peer.deep_view(),
            },
            ImportAction::RestoreState { state } => ImportActionView::RestoreState {
                state: state.deep_view(),
            },
        }
    }
}

/// What an import knows so far: who the recipients are, and which thread each chat is.
/// Recipients precede the chats, and chats the messages, that refer to them.
pub struct ImportState {
    pub recipients: HashMap<u64, RecipientInfo>,
    pub chats: HashMap<u64, Thread>,
}

/// What a recipient leads to: a contact or a group to save.
pub open spec fn recipient_actions(
    r: frames::RecipientView,
    phone_number: Option<PhoneNumberView>,
) -> Seq<ImportActionView> {
    match convert::contact_of_recipient(r, phone_number) {
        Some(contact) => seq![ImportActionView::SaveContact { contact }],
        None => match convert::group_of_recipient(r) {
            Some((master_key, group)) => seq![ImportActionView::SaveGroup { master_key, group }],
            None => Seq::empty(),
        },
    }
}

/// What a message leads to: it is saved, and where it is about a call, that is noted too.
pub open spec fn message_actions(
    content: ContentView,
    thread: ThreadView,
) -> Seq<ImportActionView> {
    seq![ImportActionView::SaveMessage { content, thread }] + (match calls::call_event_of(
        content.body,
    ) {
        Some(info) => seq![
            ImportActionView::IngestCall { info, peer: CallPeerView::from_thread(thread) },
        ],
        None => Seq::empty(),
    })
}

/// What messages lead to, one after the other.
pub open spec fn messages_actions(contents: Seq<(ContentView, ThreadView)>) -> Seq<ImportActionView>
    decreases contents.len(),
{
    if contents.len() == 0 {
        Seq::empty()
    } else {
        messages_actions(contents.drop_last()) + message_actions(
            contents.last().0,
            contents.last().1,
        )
    }
}

/// What an item of a chat leads to: its messages, and then the state that they cannot carry.
pub open spec fn chat_item_actions(
    item: frames::ChatItemView,
    recipients: Map<u64, RecipientInfo>,
    chats: Map<u64, Thread>,
    our_aci: Seq<u8>,
    group_id: Seq<u8>,
) -> Seq<ImportActionView> {
    messages_actions(
        match convert::thread_of_item(item, chats) {
            Some(thread) => convert::item_contents(item, thread, recipients, our_aci, group_id),
            None => Seq::empty(),
        },
    ) + (match convert::backup_state_of(item, recipients, chats) {
        Some(state) => seq![ImportActionView::RestoreState { state }],
        None => Seq::empty(),
    })
}

/// What a frame leads to.
pub open spec fn frame_actions(
    item: FrameItemView,
    recipients: Map<u64, RecipientInfo>,
    chats: Map<u64, Thread>,
    our_aci: Seq<u8>,
    phone_number: Option<PhoneNumberView>,
    group_id: Seq<u8>,
) -> Seq<ImportActionView> {
    match item {
        FrameItemView::Recipient(r) => recipient_actions(r, phone_number),
        FrameItemView::ChatItem(item) => chat_item_actions(
            item,
            recipients,
            chats,
            our_aci,
            group_id,
        ),
        _ => Seq::empty(),
    }
}

/// The recipients that are known after a frame.
pub open spec fn recipients_after(
    before: Map<u64, RecipientInfo>,
    after: Map<u64, RecipientInfo>,
    item: FrameItemView,
    our_aci: Seq<u8>,
) -> bool {
    match item {
        FrameItemView::Recipient(r) => match convert::info_of(r, our_aci) {
            Some(info) => after == before.insert(r.id, after[r.id]) && after[r.id].deep_view()
                == info,
            None => after == before,
        },
        _ => after == before,
    }
}

/// The chats that are known after a frame.
pub open spec fn chats_after(
    before: Map<u64, Thread>,
    after: Map<u64, Thread>,
    item: FrameItemView,
    recipients: Map<u64, RecipientInfo>,
) -> bool {
    match item {
        FrameItemView::Chat(chat) => match convert::thread_of_chat(chat, recipients) {
            Some(thread) => after == before.insert(chat.id, after[chat.id])
                && after[chat.id].deep_view() == thread,
            None => after == before,
        },
        _ => after == before,
    }
}

fn push_messages(contents: Vec<(Content, Thread)>, actions: &mut Vec<ImportAction>)
    ensures
        final(actions).deep_view() == old(actions).deep_view() + messages_actions(
            contents.deep_view(),
        ),
{
    let ghost before = actions.deep_view();
    let ghost all = contents.deep_view();
    let mut i: usize = 0;
    proof {
        assert(actions.deep_view() =~= before + messages_actions(all.take(0)));
    }
    while i < contents.len()
        invariant
            i <= contents@.len(),
            all == contents.deep_view(),
            actions.deep_view() == before + messages_actions(all.take(i as int)),
        decreases contents@.len() - i,
    {
        let ghost so_far = actions.deep_view();
        let content = contents[i].0.clone();
        let thread = contents[i].1;
        proof {
            assert(all.take(i + 1).drop_last() =~= all.take(i as int));
            assert(all.take(i + 1).last() == contents@[i as int].deep_view());
        }
        let info = calls::extract_call_event(&content.body);
        let peer = CallPeer::from_thread(&thread);
        let ghost said = content.deep_view();
        actions.push(ImportAction::SaveMessage { content, thread });
        match (info, peer) {
            (Some(info), Some(peer)) => {
                actions.push(ImportAction::IngestCall { info, peer });
            },
            _ => {},
        }
        proof {
            assert(actions.deep_view() =~= so_far + message_actions(said, thread.deep_view()));
        }
        i = i + 1;
    }
    assert(all.take(i as int) =~= all);
}

impl ImportState {
    /// An import that has read nothing yet.
    pub fn new() -> (state: ImportState)
        ensures
            state.recipients@ == Map::<u64, RecipientInfo>::empty(),
            state.chats@ == Map::<u64, Thread>::empty(),
    {
        ImportState { recipients: HashMap::new(), chats: HashMap::new() }
    }

    /// The master key of the group that a frame is about: the id of that group has to be
    /// known before the frame can be imported.
    pub fn group_of(&self, item: &FrameItem) -> (key: Option<[u8; 32]>)
        ensures
            calls::key_view(key) == (match item.deep_view() {
                FrameItemView::ChatItem(item) => match convert::thread_of_item(
                    item,
                    self.chats@,
                ) {
                    Some(ThreadView::Group(key)) => Some(key),
                    _ => None,
                },
                _ => None,
            }),
    {
        broadcast use vstd::std_specs::hash::group_hash_axioms;

        match item {
            FrameItem::ChatItem(item) => match self.chats.get(&item.chat_id) {
                Some(Thread::Group(key)) => Some(*key),
                _ => None,
            },
            _ => None,
        }
    }

    /// What a frame of a backup leads to, in order. Frames that are neither recipients, chats
    /// nor messages lead to nothing.
    ///
    /// `phone_number` is what the recipient's number reads as, and `group_id` the id of the
    /// group that [`ImportState::group_of`] names.
    pub fn import_from_file(
        &mut self,
        item: &FrameItem,
        our_aci: Aci,
        phone_number: Option<PhoneNumber>,
        group_id: &[u8; 32],
    ) -> (actions: Vec<ImportAction>)
        ensures
            actions.deep_view() == frame_actions(
                item.deep_view(),
                old(self).recipients@,
                old(self).chats@,
                our_aci.deep_view(),
                phone_number.deep_view(),
                group_id@,
            ),
            recipients_after(
                old(self).recipients@,
                final(self).recipients@,
                item.deep_view(),
                our_aci.deep_view(),
            ),
            chats_after(
                old(self).chats@,
                final(self).chats@,
                item.deep_view(),
                old(self).recipients@,
            ),
    {
        broadcast use vstd::std_specs::hash::group_hash_axioms;

        let mut actions: Vec<ImportAction> = Vec::new();
        proof {
            assert(actions.deep_view() =~= Seq::<ImportActionView>::empty());
        }
        match item {
            FrameItem::Recipient(r) => {
                if let Some((id, info)) = convert::recipient_info(r, our_aci) {
                    self.recipients.insert(id, info);
                }
                match convert::recipient_to_contact(r, phone_number) {
                    Some(contact) => {
                        actions.push(ImportAction::SaveContact { contact });
                    },
                    None => {
                        if let Some((master_key, group)) = convert::recipient_to_group(r) {
                            actions.push(ImportAction::SaveGroup { master_key, group });
                        }
                    },
                }
                proof {
                    assert(actions.deep_view() =~= recipient_actions(
                        r.deep_view(),
                        phone_number.deep_view(),
                    ));
                }
            },
            FrameItem::Chat(chat) => {
                if let Some((id, thread)) = convert::chat_to_thread(chat, &self.recipients) {
                    self.chats.insert(id, thread);
                }
            },
            FrameItem::ChatItem(item) => {
                let contents = convert::chat_item_to_contents(
                    item,
                    &self.recipients,
                    &self.chats,
                    our_aci,
                    group_id,
                );
                push_messages(contents, &mut actions);
                let ghost so_far = actions.deep_view();
                let state = convert::chat_item_backup_state(item, &self.recipients, &self.chats);
                if let Some(state) = state {
                    actions.push(ImportAction::RestoreState { state });
                }
                proof {
                    assert(actions.deep_view() =~= chat_item_actions(
                        item.deep_view(),
                        self.recipients@,
                        self.chats@,
                        our_aci.deep_view(),
                        group_id@,
                    ));
                }
            },
            FrameItem::Other => {},
        }
        actions
    }
}

/// An import forgets no recipient and no chat.
pub proof fn law_import_forgets_nothing(
    recipients: Map<u64, RecipientInfo>,
    recipients_now: Map<u64, RecipientInfo>,
    chats: Map<u64, Thread>,
    chats_now: Map<u64, Thread>,
    item: FrameItemView,
    our_aci: Seq<u8>,
)
    requires
        recipients_after(recipients, recipients_now, item, our_aci),
        chats_after(chats, chats_now, item, recipients),
    ensures
        recipients.dom().subset_of(recipients_now.dom()),
        chats.dom().subset_of(chats_now.dom()),
{
}

/// Every message of an import is saved in the thread of its chat, and a call in it is noted
/// for that very thread.
pub proof fn law_messages_are_saved_in_their_thread(
    contents: Seq<(ContentView, ThreadView)>,
    thread: ThreadView,
)
    requires
        forall|i: int| 0 <= i < contents.len() ==> (#[trigger] contents[i]).1 == thread,
    ensures
        forall|i: int|
            0 <= i < messages_actions(contents).len() ==> match #[trigger] messages_actions(
                contents,
            )[i] {
                ImportActionView::SaveMessage { thread: saved_in, .. } => saved_in == thread,
                ImportActionView::IngestCall { peer, .. } => peer == CallPeerView::from_thread(
                    thread,
                ),
                _ => false,
            },
    decreases contents.len(),
{
    if contents.len() > 0 {
        let before = contents.drop_last();
        assert forall|i: int| 0 <= i < before.len() implies (#[trigger] before[i]).1 == thread by {
            assert(before[i] == contents[i]);
        }
        law_messages_are_saved_in_their_thread(before, thread);
        assert(contents[contents.len() - 1] == contents.last());
    }
}

/// Where the archive to import comes from.
#[derive(Debug, Clone, Copy, PartialEq, Eq, Structural)]
pub enum ArchiveSource {
    /// There is none: a backup can only be imported right after linking, with the key that
    /// the link brought.
    Unavailable,
    /// It is known from an earlier attempt.
    Known,
    /// The primary device has to be waited for.
    Awaited,
}

/// Where the archive to import comes from. `has_key` is whether the link brought a key, and
/// `known` whether the store has an archive.
pub fn download_and_import_backup(has_key: bool, known: bool) -> (source: ArchiveSource)
    ensures
        source == (if !has_key {
            ArchiveSource::Unavailable
        } else if known {
            ArchiveSource::Known
        } else {
            ArchiveSource::Awaited
        }),
{
    if !has_key {
        ArchiveSource::Unavailable
    } else if known {
        ArchiveSource::Known
    } else {
        ArchiveSource::Awaited
    }
}

/// The archive that the primary device offers, to be downloaded to `path`; `None` where it
/// offers none. It may also ask for a new link.
pub fn transfer_archive(reply: ArchiveReply, path: String) -> (archive: Result<
    Option<TransferArchive>,
    Error,
>)
    ensures
        match (reply, archive) {
            (ArchiveReply::Available { cdn, key }, Ok(Some(archive))) => archive.cdn == cdn
                && archive.key == key && archive.path == path,
            (ArchiveReply::ContinueWithoutUpload, Ok(None)) => true,
            (ArchiveReply::RelinkRequested, Err(e)) => e == Error::BackupRelinkRequested,
            _ => false,
        },
{
    match reply {
        ArchiveReply::Available { cdn, key } => Ok(Some(TransferArchive { cdn, key, path })),
        ArchiveReply::RelinkRequested => Err(Error::BackupRelinkRequested),
        ArchiveReply::ContinueWithoutUpload => Ok(None),
    }
}

} // verus!
