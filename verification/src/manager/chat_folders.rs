//! Chat folders: the local half of create, edit and delete.
//!
//! What is saved here is also marked for publishing. There is no message to the other devices:
//! the storage service is the only channel between them for folders.
use vstd::prelude::*;

use crate::errors::Error;
use crate::model::chat_folders;
use crate::model::chat_folders::{ChatFolder, ChatFolderType, ChatFolderView};

verus! {

/// A folder that is shown.
pub open spec fn shown(folder: ChatFolderView) -> bool {
    folder.is_live() && folder.folder_type != ChatFolderType::Unknown
}

/// `folder` put into `list` before the first folder of a higher position.
pub open spec fn inserted(list: Seq<ChatFolderView>, folder: ChatFolderView) -> Seq<ChatFolderView>
    decreases list.len(),
{
    if list.len() == 0 || list[0].position > folder.position {
        seq![folder] + list
    } else {
        seq![list[0]] + inserted(list.skip(1), folder)
    }
}

/// The folders of `list` that are shown, by position; those of one position as they stand.
pub open spec fn ordered(list: Seq<ChatFolderView>) -> Seq<ChatFolderView>
    decreases list.len(),
{
    if list.len() == 0 {
        Seq::empty()
    } else if shown(list.last()) {
        inserted(ordered(list.drop_last()), list.last())
    } else {
        ordered(list.drop_last())
    }
}

fn insert_folder(list: &mut Vec<ChatFolder>, folder: ChatFolder)
    ensures
        final(list).deep_view() == inserted(old(list).deep_view(), folder.deep_view()),
{
    let ghost before = list.deep_view();
    let mut i: usize = 0;
    proof {
        assert(before.skip(0) =~= before);
        assert(before.take(0) + inserted(before.skip(0), folder.deep_view()) =~= inserted(
            before,
            folder.deep_view(),
        ));
    }
    while i < list.len() && list[i].position <= folder.position
        invariant
            i <= list@.len(),
            before == list.deep_view(),
            before.take(i as int) + inserted(before.skip(i as int), folder.deep_view())
                == inserted(before, folder.deep_view()),
        decreases list@.len() - i,
    {
        proof {
            let here = before.skip(i as int);
            assert(here[0] == list@[i as int].deep_view());
            assert(here.skip(1) =~= before.skip(i + 1));
            let rest = inserted(before.skip(i + 1), folder.deep_view());
            assert(before.take(i as int) + (seq![here[0]] + rest) =~= before.take(i + 1) + rest);
        }
        i = i + 1;
    }
    proof {
        let here = before.skip(i as int);
        if i < list@.len() {
            assert(here[0] == list@[i as int].deep_view());
        }
        assert(inserted(here, folder.deep_view()) =~= seq![folder.deep_view()] + here);
    }
    list.insert(i, folder);
    assert(list.deep_view() =~= before.take(i as int) + (seq![folder.deep_view()] + before.skip(
        i as int,
    )));
}

/// Live folders in position order, the all-chats folder included. `stored` is everything that
/// the store has.
pub fn chat_folders(stored: Vec<ChatFolder>) -> (folders: Vec<ChatFolder>)
    ensures
        folders.deep_view() == ordered(stored.deep_view()),
{
    let mut folders: Vec<ChatFolder> = Vec::new();
    let mut i: usize = 0;
    let ghost all = stored.deep_view();
    proof {
        assert(folders.deep_view() =~= ordered(all.take(0)));
    }
    while i < stored.len()
        invariant
            i <= stored@.len(),
            all == stored.deep_view(),
            folders.deep_view() == ordered(all.take(i as int)),
        decreases stored@.len() - i,
    {
        proof {
            assert(all.take(i + 1).drop_last() =~= all.take(i as int));
            assert(all.take(i + 1).last() == stored@[i as int].deep_view());
        }
        if stored[i].is_live() && stored[i].folder_type != ChatFolderType::Unknown {
            insert_folder(&mut folders, stored[i].clone());
        }
        i = i + 1;
    }
    assert(all.take(i as int) =~= all);
    folders
}

/// Where a folder is saved: an existing one keeps the position it has, so an edit never
/// reorders the list; a new one takes the next position.
pub open spec fn saved_position(existing: Option<ChatFolderView>, shown_folders: nat) -> u32 {
    match existing {
        Some(existing) => existing.position,
        None => shown_folders as u32,
    }
}

/// The folder as it is saved, once its name was normalized to `name` and counted.
pub open spec fn saved_folder(
    folder: ChatFolderView,
    name: Seq<char>,
    graphemes: nat,
    existing: Option<ChatFolderView>,
    shown_folders: nat,
) -> Result<ChatFolderView, Error> {
    let position = saved_position(existing, shown_folders);
    if folder.folder_type != ChatFolderType::Custom {
        Ok(ChatFolderView { position, ..folder })
    } else if chat_folders::valid_name(name, graphemes) {
        Ok(ChatFolderView { position, name, ..folder })
    } else {
        Err(Error::ChatFolderInvalidName)
    }
}

/// Whether an outcome is the expected one.
pub open spec fn is_outcome(
    r: Result<ChatFolder, Error>,
    expected: Result<ChatFolderView, Error>,
) -> bool {
    match r {
        Ok(folder) => expected == Ok::<ChatFolderView, Error>(folder.deep_view()),
        Err(e) => expected == Err::<ChatFolderView, Error>(e),
    }
}

/// What is saved, and marked for publishing, for a folder whose name is already normalized and
/// counted: `existing` is what the store has under the folder's id, `stored` is everything
/// that it has.
pub fn place_chat_folder(
    folder: ChatFolder,
    name: String,
    graphemes: usize,
    existing: &Option<ChatFolder>,
    stored: Vec<ChatFolder>,
) -> (r: Result<ChatFolder, Error>)
    ensures
        is_outcome(
            r,
            saved_folder(
                folder.deep_view(),
                name@,
                graphemes as nat,
                existing.deep_view(),
                ordered(stored.deep_view()).len(),
            ),
        ),
{
    let mut folder = folder;
    if folder.folder_type == ChatFolderType::Custom {
        if !ChatFolder::is_valid_name_of(name.as_str(), graphemes) {
            return Err(Error::ChatFolderInvalidName);
        }
        folder.name = name;
    }
    folder.position = next_position(existing, stored);
    Ok(folder)
}

fn next_position(existing: &Option<ChatFolder>, stored: Vec<ChatFolder>) -> (position: u32)
    ensures
        position == saved_position(existing.deep_view(), ordered(stored.deep_view()).len()),
{
    match existing {
        Some(existing) => existing.position,
        None => chat_folders(stored).len() as u32,
    }
}

/// Create or replace a folder: what is saved and marked for publishing. `existing` is what the
/// store has under the folder's id, `stored` is everything that it has.
///
/// A new folder takes the next position; an existing one keeps the position it has. The name
/// of a custom folder is normalized before it is validated.
pub fn save_chat_folder(
    folder: ChatFolder,
    existing: &Option<ChatFolder>,
    stored: Vec<ChatFolder>,
) -> (r: Result<ChatFolder, Error>)
    ensures
        is_outcome(
            r,
            saved_folder(
                folder.deep_view(),
                chat_folders::trimmed(chat_folders::nfc_of(folder.deep_view().name)),
                chat_folders::grapheme_count_of(
                    chat_folders::trimmed(chat_folders::nfc_of(folder.deep_view().name)),
                ),
                existing.deep_view(),
                ordered(stored.deep_view()).len(),
            ),
        ),
{
    let mut folder = folder;
    if folder.folder_type == ChatFolderType::Custom {
        let name = ChatFolder::normalized_name(folder.name.as_str());
        if !ChatFolder::is_valid_name(name.as_str()) {
            return Err(Error::ChatFolderInvalidName);
        }
        folder.name = name;
    }
    folder.position = next_position(existing, stored);
    Ok(folder)
}

/// What is saved, and marked for publishing, when a folder is deleted: a tombstone, so that
/// every other device drops it. `folder` is what the store has under the id; the one folder
/// that every account carries cannot be deleted. The other folders are then renumbered.
pub fn delete_chat_folder(folder: Option<ChatFolder>, now_ms: u64) -> (r: Result<ChatFolder, Error>)
    ensures
        is_outcome(
            r,
            match folder.deep_view() {
                None => Err(Error::ChatFolderUnknown),
                Some(folder) => if folder.folder_type == ChatFolderType::All {
                    Err(Error::ChatFolderUndeletable)
                } else {
                    Ok(folder.tombstone(now_ms))
                },
            },
        ),
{
    let mut folder = match folder {
        Some(folder) => folder,
        None => return Err(Error::ChatFolderUnknown),
    };
    if folder.folder_type == ChatFolderType::All {
        return Err(Error::ChatFolderUndeletable);
    }
    folder.tombstone(now_ms);
    Ok(folder)
}

/// The folders of a list, each with its place in the list as its position.
pub open spec fn renumbered(list: Seq<ChatFolderView>) -> Seq<ChatFolderView> {
    Seq::new(list.len(), |i: int| ChatFolderView { position: i as u32, ..list[i] })
}

/// The live folders, numbered from zero on: each of them is saved, and marked for publishing.
pub fn renumber_chat_folders(stored: Vec<ChatFolder>) -> (folders: Vec<ChatFolder>)
    ensures
        folders.deep_view() == renumbered(ordered(stored.deep_view())),
{
    let live = chat_folders(stored);
    let mut folders: Vec<ChatFolder> = Vec::new();
    let mut i: usize = 0;
    let ghost all = live.deep_view();
    proof {
        assert(folders.deep_view() =~= renumbered(all).take(0));
    }
    while i < live.len()
        invariant
            i <= live@.len(),
            all == live.deep_view(),
            folders.deep_view() == renumbered(all).take(i as int),
        decreases live@.len() - i,
    {
        let mut folder = live[i].clone();
        folder.position = i as u32;
        let ghost before = folders.deep_view();
        folders.push(folder);
        proof {
            assert(all[i as int] == live@[i as int].deep_view());
            assert(folder.deep_view() =~= renumbered(all)[i as int]);
            assert(folders.deep_view() =~= before.push(folder.deep_view()));
            assert(renumbered(all).take(i + 1) =~= renumbered(all).take(i as int).push(
                renumbered(all)[i as int],
            ));
        }
        i = i + 1;
    }
    assert(renumbered(all).take(i as int) =~= renumbered(all));
    folders
}

/// The folders of one position, as they stand.
pub open spec fn at_position(list: Seq<ChatFolderView>, position: u32) -> Seq<ChatFolderView>
    decreases list.len(),
{
    if list.len() == 0 {
        Seq::empty()
    } else if list[0].position == position {
        seq![list[0]] + at_position(list.skip(1), position)
    } else {
        at_position(list.skip(1), position)
    }
}

/// The folders that are shown, as they stand.
pub open spec fn all_shown(list: Seq<ChatFolderView>) -> Seq<ChatFolderView>
    decreases list.len(),
{
    if list.len() == 0 {
        Seq::empty()
    } else if shown(list.last()) {
        all_shown(list.drop_last()).push(list.last())
    } else {
        all_shown(list.drop_last())
    }
}

/// By position, lowest first.
pub open spec fn by_position(list: Seq<ChatFolderView>) -> bool {
    forall|i: int, j: int|
        #![trigger list[i], list[j]]
        0 <= i <= j < list.len() ==> list[i].position <= list[j].position
}

proof fn lemma_inserted(list: Seq<ChatFolderView>, folder: ChatFolderView)
    requires
        by_position(list),
    ensures
        by_position(inserted(list, folder)),
        inserted(list, folder).len() == list.len() + 1,
        forall|i: int|
            0 <= i < inserted(list, folder).len() ==> (#[trigger] inserted(list, folder)[i]
                == folder || list.contains(inserted(list, folder)[i])),
    decreases list.len(),
{
    let out = inserted(list, folder);
    if list.len() == 0 || list[0].position > folder.position {
        assert forall|i: int, j: int|
            #![trigger out[i], out[j]]
            0 <= i <= j < out.len() implies out[i].position <= out[j].position by {
            if i > 0 {
                assert(out[i] == list[i - 1]);
            }
            if j > 0 {
                assert(out[j] == list[j - 1]);
                assert(list[0].position <= list[j - 1].position);
            }
        }
        assert forall|i: int| 0 <= i < out.len() implies (#[trigger] out[i] == folder
            || list.contains(out[i])) by {
            if i > 0 {
                assert(out[i] == list[i - 1]);
            }
        }
    } else {
        let tail = list.skip(1);
        assert(by_position(tail)) by {
            assert forall|i: int, j: int|
                #![trigger tail[i], tail[j]]
                0 <= i <= j < tail.len() implies tail[i].position <= tail[j].position by {
                assert(tail[i] == list[i + 1]);
                assert(tail[j] == list[j + 1]);
            }
        }
        lemma_inserted(tail, folder);
        let rest = inserted(tail, folder);
        assert forall|i: int, j: int|
            #![trigger out[i], out[j]]
            0 <= i <= j < out.len() implies out[i].position <= out[j].position by {
            if i == 0 && j > 0 {
                let x = rest[j - 1];
                assert(out[j] == x);
                if x != folder {
                    assert(tail.contains(x));
                    let k = choose|k: int| 0 <= k < tail.len() && tail[k] == x;
                    assert(list[k + 1] == x);
                    assert(list[0].position <= list[k + 1].position);
                }
            } else if i > 0 {
                assert(out[i] == rest[i - 1]);
                assert(out[j] == rest[j - 1]);
            }
        }
        assert forall|i: int| 0 <= i < out.len() implies (#[trigger] out[i] == folder
            || list.contains(out[i])) by {
            if i == 0 {
                assert(list[0] == out[0]);
            } else {
                let x = rest[i - 1];
                assert(out[i] == x);
                if x != folder {
                    assert(tail.contains(x));
                    let k = choose|k: int| 0 <= k < tail.len() && tail[k] == x;
                    assert(list[k + 1] == x);
                }
            }
        }
    }
}

/// The folders come out by position.
pub proof fn law_folders_are_by_position(list: Seq<ChatFolderView>)
    ensures
        by_position(ordered(list)),
        ordered(list).len() == all_shown(list).len(),
    decreases list.len(),
{
    if list.len() > 0 {
        law_folders_are_by_position(list.drop_last());
        if shown(list.last()) {
            lemma_inserted(ordered(list.drop_last()), list.last());
        }
    }
}

proof fn lemma_at_position_push(list: Seq<ChatFolderView>, folder: ChatFolderView, position: u32)
    ensures
        at_position(list.push(folder), position) == (if folder.position == position {
            at_position(list, position).push(folder)
        } else {
            at_position(list, position)
        }),
    decreases list.len(),
{
    let all = list.push(folder);
    if list.len() == 0 {
        assert(all.skip(1) =~= Seq::<ChatFolderView>::empty());
        assert(at_position(all.skip(1), position) =~= Seq::<ChatFolderView>::empty());
        assert(at_position(list, position) =~= Seq::<ChatFolderView>::empty());
        assert(all[0] == folder);
        assert(seq![folder] + Seq::<ChatFolderView>::empty()
            =~= Seq::<ChatFolderView>::empty().push(folder));
    } else {
        assert(all[0] == list[0]);
        assert(all.skip(1) =~= list.skip(1).push(folder));
        lemma_at_position_push(list.skip(1), folder, position);
        assert(seq![list[0]] + at_position(list.skip(1), position).push(folder) =~= (seq![list[0]]
            + at_position(list.skip(1), position)).push(folder));
    }
}

proof fn lemma_at_position_inserted(
    list: Seq<ChatFolderView>,
    folder: ChatFolderView,
    position: u32,
)
    requires
        by_position(list),
    ensures
        at_position(inserted(list, folder), position) == (if folder.position == position {
            at_position(list, position).push(folder)
        } else {
            at_position(list, position)
        }),
    decreases list.len(),
{
    let out = inserted(list, folder);
    if list.len() == 0 || list[0].position > folder.position {
        assert(out.skip(1) =~= list);
        assert(out[0] == folder);
        if folder.position == position {
            lemma_none_at_position(list, position);
            assert(seq![folder] + Seq::<ChatFolderView>::empty() =~= Seq::<
                ChatFolderView,
            >::empty().push(folder));
        }
    } else {
        let tail = list.skip(1);
        assert(by_position(tail)) by {
            assert forall|i: int, j: int|
                #![trigger tail[i], tail[j]]
                0 <= i <= j < tail.len() implies tail[i].position <= tail[j].position by {
                assert(tail[i] == list[i + 1]);
                assert(tail[j] == list[j + 1]);
            }
        }
        lemma_at_position_inserted(tail, folder, position);
        assert(out.skip(1) =~= inserted(tail, folder));
        assert(out[0] == list[0]);
        assert(seq![list[0]] + at_position(tail, position).push(folder) =~= (seq![list[0]]
            + at_position(tail, position)).push(folder));
    }
}

proof fn lemma_none_at_position(list: Seq<ChatFolderView>, position: u32)
    requires
        by_position(list),
        list.len() > 0 ==> list[0].position > position,
    ensures
        at_position(list, position) == Seq::<ChatFolderView>::empty(),
    decreases list.len(),
{
    if list.len() > 0 {
        let tail = list.skip(1);
        assert(by_position(tail)) by {
            assert forall|i: int, j: int|
                #![trigger tail[i], tail[j]]
                0 <= i <= j < tail.len() implies tail[i].position <= tail[j].position by {
                assert(tail[i] == list[i + 1]);
                assert(tail[j] == list[j + 1]);
            }
        }
        if tail.len() > 0 {
            assert(tail[0] == list[1]);
            assert(list[0].position <= list[1].position);
        }
        lemma_none_at_position(tail, position);
    }
}

/// Nothing is lost or added, and folders of one position keep their order: at each position
/// stand the shown folders of that position, as they stood.
pub proof fn law_ordering_is_stable(list: Seq<ChatFolderView>, position: u32)
    ensures
        at_position(ordered(list), position) == at_position(all_shown(list), position),
    decreases list.len(),
{
    if list.len() > 0 {
        let before = list.drop_last();
        law_ordering_is_stable(before, position);
        law_folders_are_by_position(before);
        if shown(list.last()) {
            lemma_at_position_inserted(ordered(before), list.last(), position);
            lemma_at_position_push(all_shown(before), list.last(), position);
        }
    }
}

proof fn lemma_ordered_is_shown(list: Seq<ChatFolderView>)
    ensures
        forall|i: int| 0 <= i < ordered(list).len() ==> shown(#[trigger] ordered(list)[i]),
    decreases list.len(),
{
    if list.len() > 0 {
        let before = ordered(list.drop_last());
        let out = ordered(list);
        lemma_ordered_is_shown(list.drop_last());
        if shown(list.last()) {
            law_folders_are_by_position(list.drop_last());
            lemma_inserted(before, list.last());
            assert forall|i: int| 0 <= i < out.len() implies shown(#[trigger] out[i]) by {
                if out[i] != list.last() {
                    let k = choose|k: int| 0 <= k < before.len() && before[k] == out[i];
                    assert(shown(before[k]));
                }
            }
        }
    }
}

proof fn lemma_inserted_last(list: Seq<ChatFolderView>, folder: ChatFolderView)
    requires
        forall|i: int|
            0 <= i < list.len() ==> (#[trigger] list[i]).position <= folder.position,
    ensures
        inserted(list, folder) == list.push(folder),
    decreases list.len(),
{
    if list.len() > 0 {
        let tail = list.skip(1);
        assert forall|i: int| 0 <= i < tail.len() implies (#[trigger] tail[i]).position
            <= folder.position by {
            assert(tail[i] == list[i + 1]);
        }
        lemma_inserted_last(tail, folder);
        assert(seq![list[0]] + tail.push(folder) =~= list.push(folder));
    } else {
        assert(seq![folder] + list =~= list.push(folder));
    }
}

proof fn lemma_ordered_already(list: Seq<ChatFolderView>)
    requires
        by_position(list),
        forall|i: int| 0 <= i < list.len() ==> shown(#[trigger] list[i]),
    ensures
        ordered(list) == list,
    decreases list.len(),
{
    if list.len() > 0 {
        let before = list.drop_last();
        assert forall|i: int, j: int|
            #![trigger before[i], before[j]]
            0 <= i <= j < before.len() implies before[i].position <= before[j].position by {
            assert(before[i] == list[i]);
            assert(before[j] == list[j]);
        }
        assert forall|i: int| 0 <= i < before.len() implies shown(#[trigger] before[i]) by {
            assert(before[i] == list[i]);
        }
        lemma_ordered_already(before);
        assert forall|i: int| 0 <= i < before.len() implies (#[trigger] before[i]).position
            <= list.last().position by {
            assert(before[i] == list[i]);
            assert(list[i].position <= list[list.len() - 1].position);
        }
        lemma_inserted_last(before, list.last());
        assert(before.push(list.last()) =~= list);
    } else {
        assert(list =~= Seq::<ChatFolderView>::empty());
    }
}

/// Renumbering keeps the order in which the folders are shown, and settles: the folders that
/// were saved come out as they are, and numbering them again changes nothing.
pub proof fn law_renumbering_settles(stored: Seq<ChatFolderView>)
    requires
        ordered(stored).len() <= u32::MAX,
    ensures
        ({
            let saved = renumbered(ordered(stored));
            &&& saved.len() == ordered(stored).len()
            &&& forall|i: int|
                0 <= i < saved.len() ==> (#[trigger] saved[i]).position == i && saved[i].id
                    == ordered(stored)[i].id
            &&& ordered(saved) == saved
            &&& renumbered(saved) == saved
        }),
{
    let live = ordered(stored);
    let saved = renumbered(live);
    lemma_ordered_is_shown(stored);
    assert forall|i: int| 0 <= i < saved.len() implies shown(#[trigger] saved[i]) by {
        assert(shown(live[i]));
    }
    assert(by_position(saved));
    lemma_ordered_already(saved);
    assert(renumbered(saved) =~= saved);
}

} // verus!
