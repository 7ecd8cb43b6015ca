//! Attachments and stickers: what is accepted of a download.
use vstd::prelude::*;

use crate::errors::Error;
use crate::model::calls;
use crate::proto::{AttachmentPointer, AttachmentPointerView, StickerPackOperation};
use crate::store::{
    Sticker, StickerPack, StickerPackManifest, StickerPackManifestView, StickerPackView,
    StickerView,
};
use crate::text;

verus! {

/// Attachments larger than this are decrypted in another thread.
pub const DECRYPT_IN_THREAD_THRESHOLD: usize = 102400;

/// Exactly sixty-four bytes, as an array.
fn sixty_four(bytes: &[u8]) -> (r: Option<[u8; 64]>)
    ensures
        match r {
            Some(array) => array@ == bytes@,
            None => bytes@.len() != 64,
        },
{
    if bytes.len() != 64 {
        return None;
    }
    let mut array: [u8; 64] = [0u8; 64];
    let mut i: usize = 0;
    while i < 64
        invariant
            i <= 64,
            bytes@.len() == 64,
            forall|j: int| 0 <= j < i ==> array@[j] == bytes@[j],
        decreases 64 - i,
    {
        array[i] = bytes[i];
        i = i + 1;
    }
    assert(array@ =~= bytes@);
    Some(array)
}

/// The key to decrypt an attachment with, whose ciphertext has the digest `digest`. The digest
/// is compared where one is expected; an attachment out of a backup may have none.
pub open spec fn attachment_key(pointer: AttachmentPointerView, digest: Seq<u8>) -> Result<
    Seq<u8>,
    Error,
> {
    if pointer.digest is Some && pointer.digest->0 != digest {
        Err(Error::UnexpectedAttachmentChecksum)
    } else {
        match pointer.key {
            Some(key) => if key.len() == 64 {
                Ok(key)
            } else {
                Err(Error::InvalidAttachmentKey)
            },
            None => Err(Error::InvalidAttachmentKey),
        }
    }
}

/// The key to decrypt an attachment with, whose ciphertext has the digest `digest`.
pub fn check_attachment(pointer: &AttachmentPointer, digest: &Vec<u8>) -> (key: Result<
    [u8; 64],
    Error,
>)
    ensures
        match key {
            Ok(key) => attachment_key(pointer.deep_view(), digest@) == Ok::<Seq<u8>, Error>(key@),
            Err(e) => attachment_key(pointer.deep_view(), digest@) == Err::<Seq<u8>, Error>(e),
        },
{
    broadcast use text::lemma_bytes_view;

    if let Some(expected) = &pointer.digest {
        if !text::bytes_equal(digest.as_slice(), expected.as_slice()) {
            return Err(Error::UnexpectedAttachmentChecksum);
        }
    }
    match &pointer.key {
        Some(key) => match sixty_four(key.as_slice()) {
            Some(key) => Ok(key),
            None => Err(Error::InvalidAttachmentKey),
        },
        None => Err(Error::InvalidAttachmentKey),
    }
}

/// The key to decrypt a downloaded attachment with: `ciphertext` is what was downloaded, all
/// of it.
pub fn get_attachment(pointer: &AttachmentPointer, ciphertext: &Vec<u8>) -> (key: Result<
    [u8; 64],
    Error,
>)
    ensures
        match key {
            Ok(key) => attachment_key(pointer.deep_view(), calls::sha256_of(ciphertext@)) == Ok::<
                Seq<u8>,
                Error,
            >(key@),
            Err(e) => attachment_key(pointer.deep_view(), calls::sha256_of(ciphertext@)) == Err::<
                Seq<u8>,
                Error,
            >(e),
        },
{
    let digest = calls::sha256(ciphertext.as_slice());
    check_attachment(pointer, &digest)
}

/// Whether an attachment is decrypted in another thread.
pub fn decrypts_in_thread(ciphertext_len: usize) -> (r: bool)
    ensures
        r == (ciphertext_len > DECRYPT_IN_THREAD_THRESHOLD),
{
    ciphertext_len > DECRYPT_IN_THREAD_THRESHOLD
}

/// An attachment without its padding: no longer than the pointer says.
pub open spec fn unpadded(plaintext: Seq<u8>, size: Option<u32>) -> Seq<u8> {
    match size {
        Some(size) => if size < plaintext.len() {
            plaintext.take(size as int)
        } else {
            plaintext
        },
        None => plaintext,
    }
}

/// Remove the padding of a decrypted attachment. `size` is what its pointer says.
pub fn remove_padding(plaintext: &mut Vec<u8>, size: Option<u32>)
    ensures
        final(plaintext)@ == unpadded(old(plaintext)@, size),
{
    if let Some(size) = size {
        let len: usize = size as usize;
        if len < plaintext.len() {
            plaintext.truncate(len);
        }
    }
}

/// The id of a sticker pack, as it stands in the address of its files.
pub fn sticker_pack_address(pack_id: &Vec<u8>) -> (id: String)
    ensures
        id@ == text::hex_text(pack_id@),
{
    text::hex_encode(pack_id.as_slice())
}

/// A sticker with its image, where that was downloaded.
pub open spec fn with_image(sticker: StickerView, image: Option<Seq<u8>>) -> StickerView {
    match image {
        Some(bytes) => StickerView { bytes: Some(bytes), ..sticker },
        None => sticker,
    }
}

/// A sticker pack as it is stored: `images` has what was downloaded for each sticker.
pub open spec fn downloaded_pack(
    id: Option<Seq<u8>>,
    key: Option<Seq<u8>>,
    manifest: StickerPackManifestView,
    images: Seq<Option<Seq<u8>>>,
) -> StickerPackView {
    StickerPackView {
        id: id.unwrap_or(Seq::empty()),
        key: key.unwrap_or(Seq::empty()),
        manifest: StickerPackManifestView {
            stickers: Seq::new(
                manifest.stickers.len(),
                |i: int| with_image(manifest.stickers[i], images[i]),
            ),
            ..manifest
        },
    }
}

fn bytes_or_empty(bytes: &Option<Vec<u8>>) -> (r: Vec<u8>)
    ensures
        r@ == bytes.deep_view().unwrap_or(Seq::empty()),
{
    broadcast use text::lemma_bytes_view;

    match bytes {
        Some(bytes) => {
            let r = bytes.clone();
            assert(r@ =~= bytes@);
            r
        },
        None => Vec::new(),
    }
}

/// The sticker pack to store after its manifest and its stickers were downloaded. `images` has
/// what came of each sticker, in the manifest's order: one that could not be downloaded stays
/// without an image.
pub fn download_sticker_pack(
    operation: &StickerPackOperation,
    manifest: StickerPackManifest,
    images: &Vec<Option<Vec<u8>>>,
) -> (pack: StickerPack)
    requires
        images@.len() == manifest.stickers@.len(),
    ensures
        pack.deep_view() == downloaded_pack(
            operation.deep_view().pack_id,
            operation.deep_view().pack_key,
            manifest.deep_view(),
            images.deep_view(),
        ),
{
    broadcast use text::lemma_bytes_view;

    let mut stickers: Vec<Sticker> = Vec::new();
    let mut i: usize = 0;
    while i < manifest.stickers.len()
        invariant
            i <= manifest.stickers@.len(),
            images@.len() == manifest.stickers@.len(),
            stickers@.len() == i,
            forall|j: int|
                0 <= j < i ==> #[trigger] stickers@[j].deep_view() == with_image(
                    manifest.stickers@[j].deep_view(),
                    images@[j].deep_view(),
                ),
        decreases manifest.stickers@.len() - i,
    {
        let mut sticker = manifest.stickers[i].clone();
        if let Some(image) = &images[i] {
            let bytes = image.clone();
            assert(bytes@ =~= image@);
            sticker.bytes = Some(bytes);
        }
        stickers.push(sticker);
        i = i + 1;
    }
    let pack = StickerPack {
        id: bytes_or_empty(&operation.pack_id),
        key: bytes_or_empty(&operation.pack_key),
        manifest: StickerPackManifest {
            title: manifest.title,
            author: manifest.author,
            cover: manifest.cover,
            stickers,
        },
    };
    proof {
        let expected = downloaded_pack(
            operation.deep_view().pack_id,
            operation.deep_view().pack_key,
            manifest.deep_view(),
            images.deep_view(),
        );
        assert(stickers.deep_view() =~= expected.manifest.stickers);
        assert(pack.deep_view() =~= expected);
    }
    pack
}

} // verus!
