//! The one service and the one action that the pipeline uses: the query for
//! a zone's layer-7 log segments.

use crate::json::{
    json_string_array, json_string_array_text, number_member_text, push_number_member,
    push_string_member, string_member_text, texts,
};
use crate::signer::ActionRequest;
use vstd::prelude::*;
use vstd::string::*;

verus! {

/// The edge service: its short name, its host and the version of its API.
pub struct EdgeOne;

impl EdgeOne {
    /// The service's short name, as the credential scope holds it.
    pub fn service() -> (r: &'static str)
        ensures
            r@ == "teo"@,
    {
        "teo"
    }

    /// The host that serves the API.
    pub fn host() -> (r: &'static str)
        ensures
            r@ == "teo.tencentcloudapi.com"@,
    {
        "teo.tencentcloudapi.com"
    }

    /// The version of the API.
    pub fn version() -> (r: &'static str)
        ensures
            r@ == "2022-09-01"@,
    {
        "2022-09-01"
    }
}

/// The query for the log segments of some zones in a window of time.
#[derive(Clone, Debug, PartialEq, Eq)]
pub struct DownloadL7Logs {
    /// Start of the window, ISO 8601.
    pub start_time: String,
    /// End of the window, ISO 8601.
    pub end_time: String,
    pub zone_ids: Vec<String>,
    /// Restricts the query to these domains; `None` leaves the member out.
    pub domains: Option<Vec<String>>,
    pub limit: u32,
    pub offset: u32,
}

/// The answer to a `DownloadL7Logs` query.
#[derive(Clone, Debug, PartialEq, Eq)]
pub struct DownloadL7LogsRes {
    /// How many segments match the query, on this page or not.
    pub total_count: u32,
    pub data: Vec<L7OfflineLog>,
}

/// The descriptor of one exported log segment.
#[derive(Clone, Debug, PartialEq, Eq)]
pub struct L7OfflineLog {
    pub domain: String,
    pub area: String,
    pub log_packet_name: String,
    pub url: String,
    pub log_time: u64,
    /// Start of the segment's window, ISO 8601.
    pub log_start_time: String,
    /// End of the segment's window, ISO 8601.
    pub log_end_time: String,
    pub size: u64,
}

/// A `DownloadL7Logs` query as a value of specifications.
pub ghost struct QueryView {
    pub start_time: Seq<char>,
    pub end_time: Seq<char>,
    pub zone_ids: Seq<Seq<char>>,
    pub domains: Option<Seq<Seq<char>>>,
    pub limit: u32,
    pub offset: u32,
}

impl View for DownloadL7Logs {
    type V = QueryView;

    open spec fn view(&self) -> QueryView {
        QueryView {
            start_time: self.start_time@,
            end_time: self.end_time@,
            zone_ids: texts(self.zone_ids@),
            domains: match self.domains {
                Some(list) => Some(texts(list@)),
                None => None,
            },
            limit: self.limit,
            offset: self.offset,
        }
    }
}

/// The `Domains` member of the payload, with its leading comma, or nothing
/// where no domain filter is set.
pub open spec fn domains_member_text(domains: Option<Vec<String>>) -> Seq<char> {
    match domains {
        Some(list) => ","@ + "\"Domains\":"@ + json_string_array_text(texts(list@)),
        None => Seq::empty(),
    }
}

/// The JSON payload of a query: its members in declaration order under their
/// Pascal-case names, without any white space.
pub open spec fn payload_text(query: &DownloadL7Logs) -> Seq<char> {
    "{"@ + string_member_text("StartTime"@, query.start_time@) + ","@ + string_member_text(
        "EndTime"@,
        query.end_time@,
    ) + ","@ + "\"ZoneIds\":"@ + json_string_array_text(texts(query.zone_ids@))
        + domains_member_text(query.domains) + ","@ + number_member_text(
        "Limit"@,
        query.limit as nat,
    ) + ","@ + number_member_text("Offset"@, query.offset as nat) + "}"@
}

impl DownloadL7Logs {
    /// The action's name.
    pub fn action() -> (r: &'static str)
        ensures
            r@ == "DownloadL7Logs"@,
    {
        "DownloadL7Logs"
    }

    /// Serialises the query as its JSON payload.
    pub fn to_json(&self) -> (r: String)
        ensures
            r@ == payload_text(self),
    {
        let mut out = String::from_str("{");
        push_string_member(&mut out, "StartTime", self.start_time.as_str());
        out.append(",");
        push_string_member(&mut out, "EndTime", self.end_time.as_str());
        out.append(",");
        out.append("\"ZoneIds\":");
        let zones = json_string_array(&self.zone_ids);
        out.append(zones.as_str());
        match &self.domains {
            Some(list) => {
                let mut member = String::from_str(",");
                member.append("\"Domains\":");
                let domains = json_string_array(list);
                member.append(domains.as_str());
                out.append(member.as_str());
            },
            None => {
                assert(out@ + Seq::<char>::empty() =~= out@);
            },
        }
        out.append(",");
        push_number_member(&mut out, "Limit", self.limit as u64);
        out.append(",");
        push_number_member(&mut out, "Offset", self.offset as u64);
        out.append("}");
        out
    }

    /// The query as a request to the edge service, ready to be signed.
    pub fn to_request(&self) -> (r: ActionRequest)
        ensures
            r.action@ == "DownloadL7Logs"@,
            r.service@ == "teo"@,
            r.host@ == "teo.tencentcloudapi.com"@,
            r.version@ == "2022-09-01"@,
            r.payload@ == payload_text(self),
    {
        ActionRequest {
            action: String::from_str(Self::action()),
            service: String::from_str(EdgeOne::service()),
            host: String::from_str(EdgeOne::host()),
            version: String::from_str(EdgeOne::version()),
            payload: self.to_json(),
        }
    }
}

} // verus!
