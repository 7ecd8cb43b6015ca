//! What keeping the chat folders promises.
use vstd::prelude::*;

use crate::errors::Error;
use crate::model::chat_folders::{ChatFolder, ChatFolderType, ChatFolderView};

use super::chat_folders;

verus! {

/// The folders that are shown are those that are live and of a known kind: every one of them, and
/// no other, by their position.
pub proof fn law_live_folders_are_shown(
    stored: Vec<ChatFolder>,
    folders: Vec<ChatFolder>,
    folder: ChatFolderView,
)
    requires
        call_ensures(chat_folders::chat_folders, (stored,), folders),
    ensures
        folders.deep_view().contains(folder) <==> stored.deep_view().contains(folder)
            && folder.deleted_at_timestamp_ms == 0 && folder.folder_type != ChatFolderType::Unknown,
        forall|i: int, j: int|
            0 <= i <= j < folders.deep_view().len() ==> #[trigger] folders.deep_view()[i].position
                <= #[trigger] folders.deep_view()[j].position,
{
    let list = stored.deep_view();
    lemma_ordered(list, folder);
    chat_folders::law_folders_are_by_position(list);
}

proof fn lemma_inserted(list: Seq<ChatFolderView>, new: ChatFolderView, folder: ChatFolderView)
    ensures
        chat_folders::inserted(list, new).contains(folder) <==> list.contains(folder) || folder
            == new,
    decreases list.len(),
{
    let all = chat_folders::inserted(list, new);
    if list.len() == 0 || list[0].position > new.position {
        assert(all[0] == new);
        if list.contains(folder) {
            let k = choose|k: int| 0 <= k < list.len() && list[k] == folder;
            assert(all[k + 1] == folder);
        }
        if all.contains(folder) {
            let k = choose|k: int| 0 <= k < all.len() && all[k] == folder;
            if k > 0 {
                assert(list[k - 1] == folder);
            }
        }
    } else {
        let rest = list.skip(1);
        let tail = chat_folders::inserted(rest, new);
        lemma_inserted(rest, new, folder);
        assert(all[0] == list[0]);
        if all.contains(folder) {
            let k = choose|k: int| 0 <= k < all.len() && all[k] == folder;
            if k > 0 {
                assert(tail[k - 1] == folder);
                assert(tail.contains(folder));
                if rest.contains(folder) {
                    let n = choose|n: int| 0 <= n < rest.len() && rest[n] == folder;
                    assert(list[n + 1] == folder);
                }
            } else {
                assert(list[0] == folder);
            }
        }
        if list.contains(folder) || folder == new {
            if list[0] != folder && list.contains(folder) {
                let n = choose|n: int| 0 <= n < list.len() && list[n] == folder;
                assert(rest[n - 1] == folder);
            }
            if list[0] != folder {
                assert(tail.contains(folder));
                let k = choose|k: int| 0 <= k < tail.len() && tail[k] == folder;
                assert(all[k + 1] == folder);
            }
        }
    }
}

proof fn lemma_ordered(list: Seq<ChatFolderView>, folder: ChatFolderView)
    ensures
        chat_folders::ordered(list).contains(folder) <==> list.contains(folder)
            && folder.deleted_at_timestamp_ms == 0 && folder.folder_type != ChatFolderType::Unknown,
    decreases list.len(),
{
    if list.len() > 0 {
        let before = list.drop_last();
        let last = list[list.len() - 1];
        lemma_ordered(before, folder);
        if chat_folders::shown(last) {
            lemma_inserted(chat_folders::ordered(before), last, folder);
        }
        if before.contains(folder) {
            let k = choose|k: int| 0 <= k < before.len() && before[k] == folder;
            assert(list[k] == folder);
        }
        if list.contains(folder) && folder != last {
            let k = choose|k: int| 0 <= k < list.len() && list[k] == folder;
            assert(before[k] == folder);
        }
        if folder == last {
            assert(list[list.len() - 1] == folder);
        }
    }
}

/// A folder is saved as it is, at the place it had, or behind all that are shown where it is new.
/// One of the user's own is saved under the name in its proper form, and refused where that is no
/// name.
pub proof fn law_a_folder_is_saved_as_it_is(
    folder: ChatFolder,
    name: String,
    graphemes: usize,
    existing: Option<ChatFolder>,
    stored: Vec<ChatFolder>,
    all: Vec<ChatFolder>,
    r: Result<ChatFolder, Error>,
)
    requires
        call_ensures(
            chat_folders::place_chat_folder,
            (folder, name, graphemes, &existing, stored),
            r,
        ),
        call_ensures(chat_folders::chat_folders, (stored,), all),
    ensures
        r is Err <==> folder.folder_type == ChatFolderType::Custom && (name@.len() == 0 || graphemes
            > 32),
        r is Err ==> r->Err_0 == Error::ChatFolderInvalidName,
        r is Ok ==> {
            let saved = r->Ok_0.deep_view();
            &&& folder.folder_type == ChatFolderType::Custom ==> saved.name == name@
            &&& folder.folder_type != ChatFolderType::Custom ==> saved.name == folder.name@
            &&& existing is Some ==> saved.position == existing->0.position
            &&& existing is None && all@.len() <= u32::MAX ==> saved.position == all@.len()
            &&& saved == ChatFolderView {
                name: saved.name,
                position: saved.position,
                ..folder.deep_view()
            }
        },
{
    assert(all.deep_view().len() == all@.len());
}

/// Saving a folder is saving it under its own name, normalised and trimmed.
pub proof fn law_the_name_is_normalised(
    folder: ChatFolder,
    existing: Option<ChatFolder>,
    stored: Vec<ChatFolder>,
    written: &str,
    name: String,
    graphemes: usize,
    r: Result<ChatFolder, Error>,
    placed: Result<ChatFolder, Error>,
)
    requires
        call_ensures(chat_folders::save_chat_folder, (folder, &existing, stored), r),
        written@ == folder.name@,
        call_ensures(ChatFolder::normalized_name, (written,), name),
        graphemes == crate::model::chat_folders::grapheme_count_of(name@),
        call_ensures(
            chat_folders::place_chat_folder,
            (folder, name, graphemes, &existing, stored),
            placed,
        ),
    ensures
        r is Ok <==> placed is Ok,
        r is Ok ==> r->Ok_0.deep_view() == placed->Ok_0.deep_view(),
        r is Err ==> r->Err_0 == placed->Err_0,
{
}

/// Only the folder of all chats cannot be deleted. A deleted one keeps its identity and its name
/// and is no longer live.
pub proof fn law_folders_can_be_deleted(
    folder: Option<ChatFolder>,
    now_ms: u64,
    r: Result<ChatFolder, Error>,
)
    requires
        call_ensures(chat_folders::delete_chat_folder, (folder, now_ms), r),
    ensures
        r is Ok <==> folder is Some && folder->0.folder_type != ChatFolderType::All,
        folder is None ==> r->Err_0 == Error::ChatFolderUnknown,
        folder is Some && folder->0.folder_type == ChatFolderType::All ==> r->Err_0
            == Error::ChatFolderUndeletable,
        r is Ok ==> {
            &&& r->Ok_0.id.bytes@ == folder->0.id.bytes@
            &&& r->Ok_0.name@ == folder->0.name@
            &&& r->Ok_0.folder_type == folder->0.folder_type
            &&& r->Ok_0.deleted_at_timestamp_ms == now_ms
            &&& r->Ok_0.position == u32::MAX
            &&& r->Ok_0.included_recipients@.len() == 0
            &&& r->Ok_0.excluded_recipients@.len() == 0
        },
{
    if r is Ok {
        let after = r->Ok_0.deep_view();
        assert(after.included_recipients.len() == r->Ok_0.included_recipients@.len());
        assert(after.excluded_recipients.len() == r->Ok_0.excluded_recipients@.len());
    }
}

/// Renumbering gives the folders that are shown the places from the first one on, in their
/// order, and changes nothing else of them.
pub proof fn law_renumbering_changes_places_only(
    stored: Vec<ChatFolder>,
    shown: Vec<ChatFolder>,
    folders: Vec<ChatFolder>,
    i: int,
)
    requires
        call_ensures(chat_folders::chat_folders, (stored,), shown),
        call_ensures(chat_folders::renumber_chat_folders, (stored,), folders),
        0 <= i < shown@.len() <= u32::MAX,
    ensures
        folders@.len() == shown@.len(),
        folders@[i].position == i,
        folders@[i].deep_view() == (ChatFolderView {
            position: i as u32,
            ..shown@[i].deep_view()
        }),
{
    assert(folders.deep_view().len() == folders@.len());
    assert(shown.deep_view().len() == shown@.len());
    assert(folders.deep_view()[i] == folders@[i].deep_view());
    assert(shown.deep_view()[i] == shown@[i].deep_view());
}

} // verus!
