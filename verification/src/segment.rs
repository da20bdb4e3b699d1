//! One log segment: from its descriptor and what fetching it gave to the
//! record that goes into the day's archive.
//!
//! Fetching is not done here. The caller hands over the body of the response,
//! or the status of a failed request; decoding the gzip framing, checking its
//! header and laying out the record are this module's work.
//!
//! A record is two lines of JSON around the segment's data: a line that
//! describes the segment, the decoded bytes as they are, and a line that
//! tells how the segment ended. A segment that was not fetched has the two
//! lines and no data between them.

use crate::api::L7OfflineLog;
use crate::json::{number_member_text, push_number_member, push_string_member, string_member_text};
use crate::text::{decimal_text, push_decimal, text_of};
use vstd::prelude::*;
use vstd::string::*;
use vstd::utf8::{decode_utf8, encode_utf8, valid_utf8};

verus! {

/// The value of the header's operating-system byte that the exporting
/// service writes: Unix.
pub const UNIX_SYSTEM: u8 = 3;

/// The byte that ends each line of a record.
pub const NEWLINE: u8 = 10;

/// What a gzip stream holds: the fields of its header and the data.
#[derive(Clone, Debug, PartialEq, Eq)]
pub struct GzMember {
    pub extra: Option<Vec<u8>>,
    pub filename: Option<Vec<u8>>,
    pub comment: Option<Vec<u8>>,
    pub operating_system: u8,
    pub mtime: u32,
    pub payload: Vec<u8>,
}

/// A `GzMember` as a value of specifications.
pub ghost struct GzMemberView {
    pub extra: Option<Seq<u8>>,
    pub filename: Option<Seq<u8>>,
    pub comment: Option<Seq<u8>>,
    pub operating_system: u8,
    pub mtime: u32,
    pub payload: Seq<u8>,
}

/// Bytes that may be missing, as a value of specifications.
pub open spec fn bytes_of(bytes: Option<Vec<u8>>) -> Option<Seq<u8>> {
    match bytes {
        Some(bytes) => Some(bytes@),
        None => None,
    }
}

impl View for GzMember {
    type V = GzMemberView;

    open spec fn view(&self) -> GzMemberView {
        GzMemberView {
            extra: bytes_of(self.extra),
            filename: bytes_of(self.filename),
            comment: bytes_of(self.comment),
            operating_system: self.operating_system,
            mtime: self.mtime,
            payload: self.payload@,
        }
    }
}

/// A decoded stream that may be missing, as a value of specifications.
pub open spec fn member_of(member: Option<GzMember>) -> Option<GzMemberView> {
    match member {
        Some(member) => Some(member@),
        None => None,
    }
}

/// What `flate2` decodes from `data` as one gzip member: the header it
/// reports after reading the member to its end, and the bytes it read; `None`
/// where it reports an error or no header.
pub uninterp spec fn gzip_decoding(data: Seq<u8>) -> Option<GzMemberView>;

/// A URL as the `url` crate writes it back after its query string is
/// removed; `None` where the crate cannot parse it.
pub uninterp spec fn url_without_query_text(url: Seq<char>) -> Option<Seq<char>>;

/// Calls `flate2::read::GzDecoder::new` on the bytes, reads the decoder to
/// its end with `std::io::Read::read_to_end`, then asks it for `header` and
/// copies the five fields of the `flate2::GzHeader`.
///
/// Assumed, not proved: what comes back depends on the bytes of `data`
/// alone. Nothing is claimed about which streams decode.
#[verifier::external_body]
pub(crate) fn gunzip(data: &[u8]) -> (r: Option<GzMember>)
    ensures
        member_of(r) == gzip_decoding(data@),
{
    let mut reader = flate2::read::GzDecoder::new(data);
    let mut payload = Vec::new();
    std::io::Read::read_to_end(&mut reader, &mut payload).ok()?;
    let header = reader.header()?;
    Some(
        GzMember {
            extra: header.extra().map(|b| b.to_vec()),
            filename: header.filename().map(|b| b.to_vec()),
            comment: header.comment().map(|b| b.to_vec()),
            operating_system: header.operating_system(),
            mtime: header.mtime(),
            payload,
        },
    )
}

/// Calls `url::Url::parse`, then `set_query(None)` on the result, and turns
/// it back into a string.
///
/// Assumed, not proved: what comes back depends on the characters of `url`
/// alone. Nothing is claimed about which texts parse.
#[verifier::external_body]
pub(crate) fn remove_url_query(url: &str) -> (r: Option<String>)
    ensures
        text_of(r) == url_without_query_text(url@),
{
    let mut parsed = url::Url::parse(url).ok()?;
    parsed.set_query(None);
    Some(parsed.into())
}

/// Calls `String::from_utf8` of the standard library on a copy of the bytes.
///
/// Assumed, not proved: the conversion succeeds exactly on valid UTF-8, and
/// the string then holds the characters that the bytes encode.
#[verifier::external_body]
pub(crate) fn utf8_string(bytes: &Vec<u8>) -> (r: Option<String>)
    ensures
        r is Some <==> valid_utf8(bytes@),
        r matches Some(s) ==> s@ == decode_utf8(bytes@),
{
    String::from_utf8(bytes.clone()).ok()
}

/// What a request gave: the status and the body of the response, or no
/// response at all.
#[derive(Clone, Debug, PartialEq, Eq)]
pub enum FetchResult {
    /// The server answered.
    Answered { status: u16, body: Vec<u8> },
    /// The request failed in transport: there is no response.
    Unanswered,
}

/// A `FetchResult` as a value of specifications.
pub ghost enum FetchView {
    Answered { status: u16, body: Seq<u8> },
    Unanswered,
}

impl View for FetchResult {
    type V = FetchView;

    open spec fn view(&self) -> FetchView {
        match *self {
            FetchResult::Answered { status, body } => FetchView::Answered { status, body: body@ },
            FetchResult::Unanswered => FetchView::Unanswered,
        }
    }
}

/// A status is a success from 200 to 299.
pub open spec fn is_success(status: u16) -> bool {
    200 <= status <= 299
}

/// Tells whether a status is a success.
pub fn status_is_success(status: u16) -> (r: bool)
    ensures
        r == is_success(status),
{
    200 <= status && status <= 299
}

/// The request for a segment failed: it was not answered, or answered with
/// a status that is not a success.
pub open spec fn fetch_failed(fetched: FetchView) -> bool {
    match fetched {
        FetchView::Answered { status, body } => !is_success(status),
        FetchView::Unanswered => true,
    }
}

/// How a segment ended.
#[derive(Clone, Debug, PartialEq, Eq)]
pub enum SegmentOutcome {
    /// It was fetched and decoded.
    Fetched { gz_filename: String, gz_mtime: u32, uncompressed_size: u64 },
    /// The request failed, with an HTTP status or without one.
    Failed { status: Option<u16> },
}

/// A `SegmentOutcome` as a value of specifications.
pub ghost enum OutcomeView {
    Fetched { gz_filename: Seq<char>, gz_mtime: u32, uncompressed_size: u64 },
    Failed { status: Option<u16> },
}

impl View for SegmentOutcome {
    type V = OutcomeView;

    open spec fn view(&self) -> OutcomeView {
        match *self {
            SegmentOutcome::Fetched { gz_filename, gz_mtime, uncompressed_size } => {
                OutcomeView::Fetched { gz_filename: gz_filename@, gz_mtime, uncompressed_size }
            },
            SegmentOutcome::Failed { status } => OutcomeView::Failed { status },
        }
    }
}

/// Why a segment cannot be recorded. Each of these means that the export
/// format is not the one this library was written for.
#[derive(Clone, Copy, Debug, PartialEq, Eq, Structural)]
pub enum SegmentError {
    /// The segment's URL does not parse.
    InvalidUrl,
    /// The body is no gzip stream, or the stream is damaged.
    Corrupt,
    /// The gzip header has an extra field.
    ExtraField,
    /// The gzip header has a comment.
    Comment,
    /// The gzip header names another operating system than Unix.
    ForeignSystem,
    /// The gzip header has no file name.
    NoFilename,
    /// The file name in the gzip header is not UTF-8.
    FilenameNotUtf8,
}

/// The finished record of a segment: how it ended, and the bytes that go
/// into the archive for it.
#[derive(Clone, Debug, PartialEq, Eq)]
pub struct SegmentRecord {
    pub outcome: SegmentOutcome,
    pub bytes: Vec<u8>,
}

/// What the header of a decoded stream allows: the outcome of the segment,
/// or the first check that the header fails. The checks run in this order:
/// no extra field, no comment, the Unix system byte, a file name, and the
/// file name being UTF-8.
pub open spec fn inspection(member: GzMemberView) -> Result<OutcomeView, SegmentError> {
    if member.extra is Some {
        Err(SegmentError::ExtraField)
    } else if member.comment is Some {
        Err(SegmentError::Comment)
    } else if member.operating_system != UNIX_SYSTEM {
        Err(SegmentError::ForeignSystem)
    } else if member.filename is None {
        Err(SegmentError::NoFilename)
    } else if !valid_utf8(member.filename->0) {
        Err(SegmentError::FilenameNotUtf8)
    } else {
        Ok(
            OutcomeView::Fetched {
                gz_filename: decode_utf8(member.filename->0),
                gz_mtime: member.mtime,
                uncompressed_size: member.payload.len() as u64,
            },
        )
    }
}

/// An outcome or an error, as a value of specifications.
pub open spec fn outcome_of(r: Result<SegmentOutcome, SegmentError>) -> Result<
    OutcomeView,
    SegmentError,
> {
    match r {
        Ok(outcome) => Ok(outcome@),
        Err(e) => Err(e),
    }
}

/// Checks the header of a decoded stream and reads the outcome from it.
pub fn inspect_member(member: &GzMember) -> (r: Result<SegmentOutcome, SegmentError>)
    ensures
        outcome_of(r) == inspection(member@),
{
    if member.extra.is_some() {
        return Err(SegmentError::ExtraField);
    }
    if member.comment.is_some() {
        return Err(SegmentError::Comment);
    }
    if member.operating_system != UNIX_SYSTEM {
        return Err(SegmentError::ForeignSystem);
    }
    match &member.filename {
        None => Err(SegmentError::NoFilename),
        Some(raw) => match utf8_string(raw) {
            None => Err(SegmentError::FilenameNotUtf8),
            Some(gz_filename) => Ok(
                SegmentOutcome::Fetched {
                    gz_filename,
                    gz_mtime: member.mtime,
                    uncompressed_size: member.payload.len() as u64,
                },
            ),
        },
    }
}

/// The line that opens a record: the descriptor's fields, with the URL
/// replaced by `url_without_query`, as a JSON object.
pub open spec fn begin_text(log_info: &L7OfflineLog, url_without_query: Seq<char>) -> Seq<char> {
    "{"@ + string_member_text("Domain"@, log_info.domain@) + ","@ + string_member_text(
        "Area"@,
        log_info.area@,
    ) + ","@ + string_member_text("LogPacketName"@, log_info.log_packet_name@) + ","@
        + string_member_text("UrlWithoutQuery"@, url_without_query) + ","@ + number_member_text(
        "LogTime"@,
        log_info.log_time as nat,
    ) + ","@ + string_member_text("LogStartTime"@, log_info.log_start_time@) + ","@
        + string_member_text("LogEndTime"@, log_info.log_end_time@) + ","@ + number_member_text(
        "Size"@,
        log_info.size as nat,
    ) + "}"@
}

/// The status of a failed request as JSON: its number, or `null`.
pub open spec fn status_text(status: Option<u16>) -> Seq<char> {
    match status {
        Some(code) => decimal_text(code as nat),
        None => "null"@,
    }
}

/// The line that closes a record: the outcome as a JSON object tagged by
/// its `type`.
pub open spec fn end_text(outcome: OutcomeView) -> Seq<char> {
    match outcome {
        OutcomeView::Fetched { gz_filename, gz_mtime, uncompressed_size } => {
            "{"@ + "\"type\":\"Ok\""@ + ","@ + string_member_text("gz_filename"@, gz_filename)
                + ","@ + number_member_text("gz_mtime"@, gz_mtime as nat) + ","@
                + number_member_text("uncompressed_size"@, uncompressed_size as nat) + "}"@
        },
        OutcomeView::Failed { status } => {
            "{"@ + "\"type\":\"Err\""@ + ","@ + "\"status\":"@ + status_text(status) + "}"@
        },
    }
}

/// The bytes of a record: the opening line, the decoded data of the segment
/// (none where it was not fetched), and the closing line.
pub open spec fn record_bytes(
    log_info: &L7OfflineLog,
    url_without_query: Seq<char>,
    outcome: OutcomeView,
    payload: Seq<u8>,
) -> Seq<u8> {
    (encode_utf8(begin_text(log_info, url_without_query)).push(NEWLINE) + payload + encode_utf8(
        end_text(outcome),
    )).push(NEWLINE)
}

/// Writes the line that opens a record, without its newline.
pub fn begin_line(log_info: &L7OfflineLog, url_without_query: &str) -> (r: String)
    ensures
        r@ == begin_text(log_info, url_without_query@),
{
    let mut out = String::from_str("{");
    push_string_member(&mut out, "Domain", log_info.domain.as_str());
    out.append(",");
    push_string_member(&mut out, "Area", log_info.area.as_str());
    out.append(",");
    push_string_member(&mut out, "LogPacketName", log_info.log_packet_name.as_str());
    out.append(",");
    push_string_member(&mut out, "UrlWithoutQuery", url_without_query);
    out.append(",");
    push_number_member(&mut out, "LogTime", log_info.log_time);
    out.append(",");
    push_string_member(&mut out, "LogStartTime", log_info.log_start_time.as_str());
    out.append(",");
    push_string_member(&mut out, "LogEndTime", log_info.log_end_time.as_str());
    out.append(",");
    push_number_member(&mut out, "Size", log_info.size);
    out.append("}");
    out
}

/// Writes the line that closes a record, without its newline.
pub fn end_line(outcome: &SegmentOutcome) -> (r: String)
    ensures
        r@ == end_text(outcome@),
{
    let mut out = String::from_str("{");
    match outcome {
        SegmentOutcome::Fetched { gz_filename, gz_mtime, uncompressed_size } => {
            out.append("\"type\":\"Ok\"");
            out.append(",");
            push_string_member(&mut out, "gz_filename", gz_filename.as_str());
            out.append(",");
            push_number_member(&mut out, "gz_mtime", *gz_mtime as u64);
            out.append(",");
            push_number_member(&mut out, "uncompressed_size", *uncompressed_size);
        },
        SegmentOutcome::Failed { status } => {
            out.append("\"type\":\"Err\"");
            out.append(",");
            let mut member = String::from_str("\"status\":");
            match status {
                Some(code) => {
                    let mut numeral = String::new();
                    push_decimal(&mut numeral, *code as u64);
                    member.append(numeral.as_str());
                },
                None => {
                    member.append("null");
                },
            }
            out.append(member.as_str());
        },
    }
    out.append("}");
    out
}

/// Lays out the bytes of a record from its parts.
pub fn encode_record(
    log_info: &L7OfflineLog,
    url_without_query: &str,
    outcome: &SegmentOutcome,
    payload: &[u8],
) -> (r: Vec<u8>)
    ensures
        r@ == record_bytes(log_info, url_without_query@, outcome@, payload@),
{
    let begin = begin_line(log_info, url_without_query);
    let end = end_line(outcome);
    let mut bytes: Vec<u8> = Vec::new();
    bytes.extend_from_slice(begin.as_str().as_bytes());
    bytes.push(NEWLINE);
    bytes.extend_from_slice(payload);
    bytes.extend_from_slice(end.as_str().as_bytes());
    bytes.push(NEWLINE);
    proof {
        assert(bytes@ =~= record_bytes(log_info, url_without_query@, outcome@, payload@));
    }
    bytes
}

/// The outcome of a segment and the data that its record carries. A request
/// without a response is recorded as failed without a status, a response
/// whose status is not a success as failed with that status; the body of a
/// successful response must decode and pass the header checks.
pub open spec fn segment_outcome(fetched: FetchView) -> Result<(OutcomeView, Seq<u8>), SegmentError> {
    match fetched {
        FetchView::Unanswered => Ok((OutcomeView::Failed { status: None }, Seq::empty())),
        FetchView::Answered { status, body } => if !is_success(status) {
            Ok((OutcomeView::Failed { status: Some(status) }, Seq::empty()))
        } else {
            match gzip_decoding(body) {
                None => Err(SegmentError::Corrupt),
                Some(member) => match inspection(member) {
                    Err(e) => Err(e),
                    Ok(outcome) => Ok((outcome, member.payload)),
                },
            }
        },
    }
}

/// The record of a segment: its outcome and its bytes, or the reason why
/// there is none.
pub open spec fn segment_record(log_info: &L7OfflineLog, fetched: FetchView) -> Result<
    (OutcomeView, Seq<u8>),
    SegmentError,
> {
    match url_without_query_text(log_info.url@) {
        None => Err(SegmentError::InvalidUrl),
        Some(stripped) => match segment_outcome(fetched) {
            Err(e) => Err(e),
            Ok((outcome, payload)) => Ok(
                (outcome, record_bytes(log_info, stripped, outcome, payload)),
            ),
        },
    }
}

/// A record or an error, as a value of specifications.
pub open spec fn record_of(r: Result<SegmentRecord, SegmentError>) -> Result<
    (OutcomeView, Seq<u8>),
    SegmentError,
> {
    match r {
        Ok(record) => Ok((record.outcome@, record.bytes@)),
        Err(e) => Err(e),
    }
}

/// Records a segment whose request failed, with the status if there was one.
fn failed_record(log_info: &L7OfflineLog, url_without_query: &str, status: Option<u16>) -> (r:
    SegmentRecord)
    ensures
        r.outcome@ == (OutcomeView::Failed { status }),
        r.bytes@ == record_bytes(
            log_info,
            url_without_query@,
            OutcomeView::Failed { status },
            Seq::empty(),
        ),
{
    let outcome = SegmentOutcome::Failed { status };
    let empty: Vec<u8> = Vec::new();
    let bytes = encode_record(log_info, url_without_query, &outcome, empty.as_slice());
    SegmentRecord { outcome, bytes }
}

/// Turns a segment's descriptor and what fetching it gave into its record.
///
/// A failed request never stops the day: it yields a record marked
/// `Failed`. An error is returned only where the URL, the gzip framing or
/// the gzip header is not what the export format promises.
pub fn handle_a_segment(log_info: &L7OfflineLog, fetched: FetchResult) -> (r: Result<
    SegmentRecord,
    SegmentError,
>)
    ensures
        record_of(r) == segment_record(log_info, fetched@),
        fetch_failed(fetched@) && url_without_query_text(log_info.url@) is Some ==> r is Ok,
{
    let stripped = match remove_url_query(log_info.url.as_str()) {
        Some(stripped) => stripped,
        None => {
            return Err(SegmentError::InvalidUrl);
        },
    };
    match fetched {
        FetchResult::Unanswered => Ok(failed_record(log_info, stripped.as_str(), None)),
        FetchResult::Answered { status, body } => {
            if !status_is_success(status) {
                return Ok(failed_record(log_info, stripped.as_str(), Some(status)));
            }
            let member = match gunzip(body.as_slice()) {
                Some(member) => member,
                None => {
                    return Err(SegmentError::Corrupt);
                },
            };
            let outcome = match inspect_member(&member) {
                Ok(outcome) => outcome,
                Err(e) => {
                    return Err(e);
                },
            };
            let bytes = encode_record(
                log_info,
                stripped.as_str(),
                &outcome,
                member.payload.as_slice(),
            );
            Ok(SegmentRecord { outcome, bytes })
        },
    }
}

} // verus!
