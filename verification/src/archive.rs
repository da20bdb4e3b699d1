//! The archive of one day and one zone: its name, what goes into it, and its
//! compression.
//!
//! The archive is built in memory, record after record. Creating the file,
//! which must not exist yet, and writing the compressed bytes to it are left
//! to the caller.

use crate::calendar::{compact_date_text, Date};
use crate::segment::{OutcomeView, SegmentOutcome, SegmentRecord};
use vstd::prelude::*;
use vstd::string::*;

verus! {

/// The preset that archives are compressed with: the highest.
pub const COMPRESSION_LEVEL: u32 = 9;

/// The xz stream that the encoder writes for `data` at the preset `level`,
/// with the CRC64 integrity check. The encoder is the liblzma that is built
/// into this crate, so the stream is the same wherever the crate runs.
pub uninterp spec fn xz_stream(data: Seq<u8>, level: int) -> Seq<u8>;

/// Calls `xz2::write::XzEncoder::new` on an empty vector, writes the data
/// with `std::io::Write::write_all` and ends the stream with `finish`.
///
/// Assumed, not proved: where the encoder reports no error, the bytes it
/// wrote depend on `data` and `level` alone. Nothing is claimed about when
/// it reports one, which it does where memory runs out. The preset must be
/// one that `XzEncoder::new` accepts, 0 to 9.
#[verifier::external_body]
pub(crate) fn xz_compress(data: &[u8], level: u32) -> (r: Option<Vec<u8>>)
    requires
        level <= 9,
    ensures
        r matches Some(stream) ==> stream@ == xz_stream(data@, level as int),
{
    let mut encoder = xz2::write::XzEncoder::new(Vec::new(), level);
    std::io::Write::write_all(&mut encoder, data).ok()?;
    encoder.finish().ok()
}

/// The name of an archive: the date as eight digits, a hyphen, the zone, and
/// the suffix `.xz`.
pub open spec fn archive_name_text(zone_id: Seq<char>, date: Seq<char>) -> Seq<char> {
    date + "-"@ + zone_id + ".xz"@
}

/// Builds an archive's name from the zone and the date's text.
pub fn archive_file_name(zone_id: &str, date: &str) -> (r: String)
    ensures
        r@ == archive_name_text(zone_id@, date@),
{
    let mut out = String::from_str(date);
    out.append("-");
    out.append(zone_id);
    out.append(".xz");
    out
}

/// The name of the archive of `date` for the zone `zone_id`.
pub fn archive_name(zone_id: &str, date: Date) -> (r: String)
    ensures
        compact_date_text(date@) is Some,
        r@ == archive_name_text(zone_id@, compact_date_text(date@)->0),
{
    let text = date.compact();
    archive_file_name(zone_id, text.as_str())
}

/// The outcomes of a sequence of segments, as values of specifications.
pub open spec fn outcomes_of(outcomes: Seq<SegmentOutcome>) -> Seq<OutcomeView> {
    Seq::new(outcomes.len(), |i: int| outcomes[i]@)
}

/// What an archive holds so far, as a value of specifications.
pub ghost struct ArchiveView {
    /// The outcome of each record appended, oldest first.
    pub outcomes: Seq<OutcomeView>,
    /// The bytes of all records appended, in the order of appending.
    pub content: Seq<u8>,
}

/// The archive with nothing in it.
pub open spec fn empty_archive() -> ArchiveView {
    ArchiveView { outcomes: Seq::empty(), content: Seq::empty() }
}

/// `archive` with one more record at its end.
pub open spec fn appended(archive: ArchiveView, outcome: OutcomeView, bytes: Seq<u8>) -> ArchiveView {
    ArchiveView { outcomes: archive.outcomes.push(outcome), content: archive.content + bytes }
}

/// Collects the records of one day, in the order in which they are appended.
/// Nothing that was appended is ever changed or removed.
#[derive(Debug)]
pub struct ArchiveWriter {
    outcomes: Vec<SegmentOutcome>,
    content: Vec<u8>,
}

impl View for ArchiveWriter {
    type V = ArchiveView;

    closed spec fn view(&self) -> ArchiveView {
        ArchiveView { outcomes: outcomes_of(self.outcomes@), content: self.content@ }
    }
}

impl ArchiveWriter {
    /// An archive with no record yet.
    pub fn new() -> (r: ArchiveWriter)
        ensures
            r@ == empty_archive(),
    {
        let r = ArchiveWriter { outcomes: Vec::new(), content: Vec::new() };
        assert(r@.outcomes =~= Seq::empty());
        r
    }

    /// Appends a record.
    pub fn append(&mut self, record: SegmentRecord)
        ensures
            final(self)@ == appended(old(self)@, record.outcome@, record.bytes@),
    {
        let SegmentRecord { outcome, bytes } = record;
        self.content.extend_from_slice(bytes.as_slice());
        self.outcomes.push(outcome);
        proof {
            assert(outcomes_of(self.outcomes@) =~= outcomes_of(old(self).outcomes@).push(
                outcome@,
            ));
            assert(self.content@ == old(self).content@ + bytes@);
            assert(outcome@ == record.outcome@);
            assert(bytes@ == record.bytes@);
        }
    }

    /// How many records the archive holds.
    pub fn len(&self) -> (r: usize)
        ensures
            r == self@.outcomes.len(),
    {
        self.outcomes.len()
    }

    /// The outcomes of the records, oldest first.
    pub fn outcomes(&self) -> (r: &Vec<SegmentOutcome>)
        ensures
            outcomes_of(r@) == self@.outcomes,
    {
        &self.outcomes
    }

    /// The bytes of the records, not compressed.
    pub fn content(&self) -> (r: &Vec<u8>)
        ensures
            r@ == self@.content,
    {
        &self.content
    }

    /// Compresses the archive into one xz stream: the bytes of all its
    /// records, in the order of appending and nothing else, at the highest
    /// preset. `None` where the compressor reports an error.
    pub fn finish(self) -> (r: Option<Vec<u8>>)
        ensures
            r matches Some(stream) ==> stream@ == xz_stream(
                self@.content,
                COMPRESSION_LEVEL as int,
            ),
    {
        xz_compress(self.content.as_slice(), COMPRESSION_LEVEL)
    }
}

} // verus!
