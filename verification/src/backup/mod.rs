//! Backups: what is in one, and what becomes of it.
use vstd::prelude::*;

use crate::endian;
use crate::text;

pub mod actions;
pub mod convert;
pub mod convert_laws;
pub mod frames;
pub mod group_change;
pub mod group_change_laws;
pub mod message_laws;
pub mod recipient_laws;

verus! {

/// An archive that the primary device uploaded for a newly linked one.
#[derive(Debug, Clone, PartialEq, Eq)]
pub struct TransferArchive {
    pub cdn: u32,
    pub key: String,
    /// Random path generated once per link attempt; ensures a re-link never resumes from a
    /// previous device's partial download.
    pub path: String,
}

/// How far an import got.
#[derive(Debug, Clone, Copy, PartialEq, Eq, Structural)]
pub enum BackupImportProgress {
    WaitingForUpload,
    Downloading { bytes_received: u64, total: u64 },
    Processing,
    Done,
}

/// What the primary device answers when it is asked for an archive.
#[derive(Debug, Clone, PartialEq, Eq)]
pub enum ArchiveReply {
    /// The archive can be downloaded.
    Available { cdn: u32, key: String },
    /// The device has to be linked again.
    RelinkRequested,
    /// There will be no archive.
    ContinueWithoutUpload,
}

/// The name of the file that an archive is downloaded to: it holds the number `id` in sixteen
/// hexadecimal digits.
pub open spec fn backup_file_name(id: u64) -> Seq<char> {
    "signal-backup-"@ + text::hex_text(endian::le_bytes(id as nat, 8).reverse()) + ".bin"@
}

/// The name of the file that an archive is downloaded to. `id` is drawn at random.
pub fn random_backup_path(id: u64) -> (name: String)
    ensures
        name@ == backup_file_name(id),
{
    let bytes = endian::u64_to_le(id);
    let mut reversed: Vec<u8> = Vec::new();
    let mut i: usize = bytes.len();
    while i > 0
        invariant
            i <= bytes@.len(),
            reversed@ == bytes@.skip(i as int).reverse(),
        decreases i,
    {
        i = i - 1;
        let ghost before = reversed@;
        reversed.push(bytes[i]);
        proof {
            assert(bytes@.skip(i as int).reverse() =~= before.push(bytes@[i as int]));
        }
    }
    assert(bytes@.skip(0) =~= bytes@);
    "signal-backup-".to_owned().concat(
        text::hex_encode(reversed.as_slice()).as_str(),
    ).concat(".bin")
}

/// A download in progress.
#[derive(Debug, Clone, Copy, PartialEq, Eq, Structural)]
pub struct Download {
    pub received: u64,
    pub total: u64,
}

impl Download {
    /// A download of `total` bytes, the first `offset` of which are there from an earlier
    /// attempt.
    pub fn resume(offset: u64, total: u64) -> (download: Download)
        ensures
            download == (Download { received: offset, total }),
    {
        Download { received: offset, total }
    }

    /// Count `len` bytes more.
    pub fn advance(&mut self, len: u64)
        requires
            old(self).received + len <= u64::MAX,
        ensures
            final(self).received == old(self).received + len,
            final(self).total == old(self).total,
    {
        self.received = self.received + len;
    }

    pub fn progress(&self) -> (progress: BackupImportProgress)
        ensures
            progress == (BackupImportProgress::Downloading {
                bytes_received: self.received,
                total: self.total,
            }),
    {
        BackupImportProgress::Downloading { bytes_received: self.received, total: self.total }
    }
}

/// The name of an archive's file has a prefix, an ending, and between them the number, its
/// highest byte first.
pub proof fn law_the_file_is_named_by_its_number(id: u64, name: String, i: int)
    requires
        call_ensures(random_backup_path, (id,), name),
        0 <= i < 8,
    ensures
        name@.len() == 14 + 16 + 4,
        name@.take(14) == "signal-backup-"@,
        name@.skip(30) == ".bin"@,
        16 * text::digit_value(name@[14 + 2 * i]) + text::digit_value(name@[14 + 2 * i + 1]) == (
        id as int / vstd::arithmetic::power::pow(256, (7 - i) as nat)) % 256,
{
    reveal_strlit("signal-backup-");
    reveal_strlit(".bin");
    endian::law_bytes_stand_at_their_place(id as nat, 8, 7 - i);
    let bytes = endian::le_bytes(id as nat, 8).reverse();
    assert(bytes.len() == 8);
    assert(bytes[i] == endian::le_bytes(id as nat, 8)[7 - i]);
    text::law_a_byte_is_two_digits(bytes, i);
    let digits = text::hex_text(bytes);
    assert(digits.len() == 16);
    assert(name@[14 + 2 * i] == digits[2 * i]);
    assert(name@[14 + 2 * i + 1] == digits[2 * i + 1]);
    assert(name@.take(14) =~= "signal-backup-"@);
    assert(name@.skip(30) =~= ".bin"@);
}

/// A download that is resumed has what was there, and reports how far it got of how much.
pub proof fn law_a_download_reports_how_far_it_got(
    offset: u64,
    total: u64,
    download: Download,
    progress: BackupImportProgress,
)
    requires
        call_ensures(Download::resume, (offset, total), download),
        call_ensures(Download::progress, (&download,), progress),
    ensures
        progress == (BackupImportProgress::Downloading { bytes_received: offset, total }),
{
}

/// What arrives is counted, and the size of the whole stays.
pub proof fn law_what_arrives_is_counted(download: &mut Download, len: u64)
    requires
        call_ensures(Download::advance, (download, len), ()),
        old(download).received + len <= u64::MAX,
    ensures
        final(download).received == old(download).received + len,
        final(download).total == old(download).total,
{
}

} // verus!
