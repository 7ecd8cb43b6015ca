//! What fetching attachments and stickers promises.
use vstd::prelude::*;

use crate::errors::Error;
use crate::model::calls;
use crate::proto::{AttachmentPointer, StickerPackOperation};
use crate::store::{StickerPack, StickerPackManifest};
use crate::text;

use super::attachments;

verus! {

/// An attachment is decrypted with the key of its pointer, but only what hashes to the digest in
/// it. A key has 64 bytes.
pub proof fn law_only_what_was_sent_is_decrypted(
    pointer: AttachmentPointer,
    digest: Vec<u8>,
    key: Result<[u8; 64], Error>,
)
    requires
        call_ensures(attachments::check_attachment, (&pointer, &digest), key),
    ensures
        pointer.digest is Some && pointer.digest->0@ != digest@ ==> key is Err && key->Err_0
            == Error::UnexpectedAttachmentChecksum,
        pointer.digest is None || pointer.digest->0@ == digest@ ==> {
            &&& pointer.key is Some && pointer.key->0@.len() == 64 ==> key is Ok && key->Ok_0@
                == pointer.key->0@
            &&& pointer.key is None || pointer.key->0@.len() != 64 ==> key is Err && key->Err_0
                == Error::InvalidAttachmentKey
        },
{
    broadcast use text::lemma_bytes_view;

    let view = pointer.deep_view();
    assert(view.digest == pointer.digest.deep_view());
    assert(view.key == pointer.key.deep_view());
    if pointer.digest is Some {
        assert(view.digest == Some(pointer.digest->0.deep_view()));
    }
    if pointer.key is Some {
        assert(view.key == Some(pointer.key->0.deep_view()));
    }
}

/// What is fetched is held against the digest by its own hash.
pub proof fn law_the_hash_is_that_of_what_was_fetched(
    pointer: AttachmentPointer,
    ciphertext: Vec<u8>,
    digest: Vec<u8>,
    key: Result<[u8; 64], Error>,
    same: Result<[u8; 64], Error>,
)
    requires
        call_ensures(attachments::get_attachment, (&pointer, &ciphertext), key),
        digest@ == calls::sha256_of(ciphertext@),
        call_ensures(attachments::check_attachment, (&pointer, &digest), same),
    ensures
        key is Ok <==> same is Ok,
        key is Ok ==> key->Ok_0@ == same->Ok_0@,
        key is Err ==> key->Err_0 == same->Err_0,
{
}

/// What is larger than a hundred kibibytes is decrypted in a thread of its own.
pub proof fn law_large_files_get_their_own_thread(len: usize, own_thread: bool)
    requires
        call_ensures(attachments::decrypts_in_thread, (len,), own_thread),
    ensures
        own_thread <==> len > 100 * 1024,
{
}

/// A decrypted attachment is cut to its size; where it is not longer, or has no size, it stays.
pub proof fn law_padding_is_cut_off(plaintext: Seq<u8>, size: Option<u32>)
    ensures
        ({
            let cut = attachments::unpadded(plaintext, size);
            &&& cut.is_prefix_of(plaintext)
            &&& size is Some && size->0 <= plaintext.len() ==> cut.len() == size->0
            &&& size is Some && size->0 > plaintext.len() ==> cut == plaintext
            &&& size is None ==> cut == plaintext
        }),
{
    if size is Some && size->0 == plaintext.len() {
        assert(plaintext.take(size->0 as int) =~= plaintext);
    }
}

/// A sticker pack is looked up by its id in hexadecimal digits.
pub proof fn law_a_pack_is_looked_up_by_its_id(pack_id: Vec<u8>, address: String)
    requires
        call_ensures(attachments::sticker_pack_address, (&pack_id,), address),
    ensures
        address@ == text::hex_text(pack_id@),
{
}

/// A downloaded pack is the one that was asked for: its id, its key, its title and author, and
/// every sticker in its place, with the picture that was fetched for it.
pub proof fn law_a_pack_has_every_sticker(
    operation: StickerPackOperation,
    manifest: StickerPackManifest,
    images: Vec<Option<Vec<u8>>>,
    pack: StickerPack,
    i: int,
)
    requires
        call_ensures(
            attachments::download_sticker_pack,
            (&operation, manifest, &images),
            pack,
        ),
        images@.len() == manifest.stickers@.len(),
        0 <= i < manifest.stickers@.len(),
    ensures
        operation.pack_id is Some ==> pack.id@ == operation.pack_id->0@,
        operation.pack_id is None ==> pack.id@.len() == 0,
        operation.pack_key is Some ==> pack.key@ == operation.pack_key->0@,
        operation.pack_key is None ==> pack.key@.len() == 0,
        pack.manifest.title@ == manifest.title@,
        pack.manifest.author@ == manifest.author@,
        pack.manifest.cover.deep_view() == manifest.cover.deep_view(),
        pack.manifest.stickers@.len() == manifest.stickers@.len(),
        pack.manifest.stickers@[i].id == manifest.stickers@[i].id,
        pack.manifest.stickers@[i].emoji.deep_view() == manifest.stickers@[i].emoji.deep_view(),
        pack.manifest.stickers@[i].content_type.deep_view()
            == manifest.stickers@[i].content_type.deep_view(),
        images@[i] is Some ==> pack.manifest.stickers@[i].bytes is Some
            && pack.manifest.stickers@[i].bytes->0@ == images@[i]->0@,
        images@[i] is None ==> pack.manifest.stickers@[i].bytes.deep_view()
            == manifest.stickers@[i].bytes.deep_view(),
{
    broadcast use text::lemma_bytes_view;

    let view = pack.deep_view();
    assert(operation.deep_view().pack_id == operation.pack_id.deep_view());
    assert(operation.deep_view().pack_key == operation.pack_key.deep_view());
    assert(view.id == pack.id.deep_view());
    assert(view.key == pack.key.deep_view());
    assert(view.manifest == pack.manifest.deep_view());
    assert(view.manifest.cover == pack.manifest.cover.deep_view());
    assert(view.manifest.stickers.len() == pack.manifest.stickers@.len());
    assert(manifest.deep_view().stickers.len() == manifest.stickers@.len());
    assert(view.manifest.stickers[i] == pack.manifest.stickers@[i].deep_view());
    assert(manifest.deep_view().stickers[i] == manifest.stickers@[i].deep_view());
    assert(images.deep_view()[i] == images@[i].deep_view());
    let sticker = pack.manifest.stickers@[i];
    let given = manifest.stickers@[i];
    assert(sticker.deep_view().emoji == sticker.emoji.deep_view());
    assert(sticker.deep_view().content_type == sticker.content_type.deep_view());
    assert(sticker.deep_view().bytes == sticker.bytes.deep_view());
    assert(given.deep_view().emoji == given.emoji.deep_view());
    assert(given.deep_view().bytes == given.bytes.deep_view());
    if sticker.bytes is Some {
        assert(sticker.bytes->0.deep_view() == sticker.bytes->0@);
    }
    if images@[i] is Some {
        assert(images@[i]->0.deep_view() == images@[i]->0@);
    }
}

/// Removing the padding cuts the attachment itself.
pub proof fn law_padding_is_removed_in_place(plaintext: &mut Vec<u8>, size: Option<u32>)
    requires
        call_ensures(attachments::remove_padding, (plaintext, size), ()),
    ensures
        final(plaintext)@.is_prefix_of(old(plaintext)@),
        size is Some && size->0 <= old(plaintext)@.len() ==> final(plaintext)@.len() == size->0,
        size is Some && size->0 > old(plaintext)@.len() ==> final(plaintext)@ == old(plaintext)@,
        size is None ==> final(plaintext)@ == old(plaintext)@,
{
    law_padding_is_cut_off(old(plaintext)@, size);
}

} // verus!
