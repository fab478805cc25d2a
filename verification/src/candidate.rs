//! ICE candidates: what the peers tell each other about where they can be reached.

use crate::json::{comma_joined, decimal, lemma_member, member_text, object_text, quoted};
use vstd::prelude::*;
use webrtc::ice_transport::ice_candidate::{RTCIceCandidate, RTCIceCandidateInit};
use webrtc::ice_transport::ice_candidate_type::RTCIceCandidateType;
use webrtc::ice_transport::ice_protocol::RTCIceProtocol;

verus! {

/// A candidate as it travels between the peers.
#[derive(Debug, PartialEq, Eq)]
pub struct IceCandidate {
    /// The candidate line.
    pub candidate: String,
    /// The media it belongs to.
    pub sdp_mid: Option<String>,
    /// The number of the media line it belongs to.
    pub sdp_mline_index: Option<u16>,
    /// The user name fragment of the ICE session.
    pub username_fragment: Option<String>,
}

/// What an `IceCandidate` holds.
pub struct IceCandidateView {
    pub candidate: Seq<char>,
    pub sdp_mid: Option<Seq<char>>,
    pub sdp_mline_index: Option<u16>,
    pub username_fragment: Option<Seq<char>>,
}

/// The characters of a string that may be missing.
pub open spec fn optional_text(text: Option<String>) -> Option<Seq<char>> {
    match text {
        None => None,
        Some(t) => Some(t@),
    }
}

impl View for IceCandidate {
    type V = IceCandidateView;

    open spec fn view(&self) -> IceCandidateView {
        IceCandidateView {
            candidate: self.candidate@,
            sdp_mid: optional_text(self.sdp_mid),
            sdp_mline_index: self.sdp_mline_index,
            username_fragment: optional_text(self.username_fragment),
        }
    }
}

/// A candidate that was gathered on this side. The protocol is `udp` or `tcp`, the
/// kind is `host`, `srflx`, `prflx` or `relay`.
#[derive(Debug, PartialEq, Eq)]
pub struct LocalCandidate {
    pub foundation: String,
    pub priority: u32,
    pub address: String,
    pub protocol: String,
    pub port: u16,
    pub kind: String,
    pub component: u16,
    pub related_address: String,
    pub related_port: u16,
}

/// What a `LocalCandidate` holds.
pub struct LocalCandidateView {
    pub foundation: Seq<char>,
    pub priority: u32,
    pub address: Seq<char>,
    pub protocol: Seq<char>,
    pub port: u16,
    pub kind: Seq<char>,
    pub component: u16,
    pub related_address: Seq<char>,
    pub related_port: u16,
}

impl View for LocalCandidate {
    type V = LocalCandidateView;

    open spec fn view(&self) -> LocalCandidateView {
        LocalCandidateView {
            foundation: self.foundation@,
            priority: self.priority,
            address: self.address@,
            protocol: self.protocol@,
            port: self.port,
            kind: self.kind@,
            component: self.component,
            related_address: self.related_address@,
            related_port: self.related_port,
        }
    }
}

impl LocalCandidate {
    /// The candidate has a priority, or one can be computed for it.
    pub open spec fn has_priority(self) -> bool {
        self.priority != 0 || self.component <= 256
    }
}

/// A JSON string, or `null` where there is no text.
pub open spec fn quoted_or_null(text: Option<Seq<char>>) -> Seq<char> {
    match text {
        None => "null"@,
        Some(t) => quoted(t),
    }
}

/// A JSON number, or `null` where there is none.
pub open spec fn decimal_or_null(n: Option<u16>) -> Seq<char> {
    match n {
        None => "null"@,
        Some(k) => decimal(k as nat),
    }
}

/// The JSON text of a candidate.
pub open spec fn candidate_text(c: IceCandidateView) -> Seq<char> {
    object_text(
        seq![
            ("candidate"@, quoted(c.candidate)),
            ("sdpMid"@, quoted_or_null(c.sdp_mid)),
            ("sdpMLineIndex"@, decimal_or_null(c.sdp_mline_index)),
            ("usernameFragment"@, quoted_or_null(c.username_fragment)),
        ],
    )
}

/// The view of a candidate holds each of its fields.
pub proof fn law_candidate_view(c: IceCandidate)
    ensures
        c@.candidate == c.candidate@,
        c@.sdp_mid is Some <==> c.sdp_mid is Some,
        c.sdp_mid matches Some(t) ==> c@.sdp_mid == Some(t@),
        c@.sdp_mline_index == c.sdp_mline_index,
        c@.username_fragment is Some <==> c.username_fragment is Some,
        c.username_fragment matches Some(t) ==> c@.username_fragment == Some(t@),
{
}

/// A candidate lacks a priority only if it has none of its own and its component is
/// beyond 256.
pub proof fn law_has_priority(c: LocalCandidate)
    ensures
        c.has_priority() <==> c.priority != 0 || c.component <= 256,
{
}

/// The view of a gathered candidate holds each of its fields.
pub proof fn law_local_candidate_view(c: LocalCandidate)
    ensures
        c@.foundation == c.foundation@,
        c@.priority == c.priority,
        c@.address == c.address@,
        c@.protocol == c.protocol@,
        c@.port == c.port,
        c@.kind == c.kind@,
        c@.component == c.component,
        c@.related_address == c.related_address@,
        c@.related_port == c.related_port,
{
}

/// A candidate is written with all four members, in this order; one that is missing
/// stands as `null`.
pub proof fn law_candidate_is_written_in_full(c: IceCandidateView)
    ensures
        candidate_text(c) == seq!['{'] + ("\"candidate\":"@ + quoted(c.candidate) + seq![','] + (
        "\"sdpMid\":"@ + (match c.sdp_mid {
            None => "null"@,
            Some(t) => quoted(t),
        })) + seq![','] + ("\"sdpMLineIndex\":"@ + (match c.sdp_mline_index {
            None => "null"@,
            Some(n) => decimal(n as nat),
        })) + seq![','] + ("\"usernameFragment\":"@ + (match c.username_fragment {
            None => "null"@,
            Some(t) => quoted(t),
        }))) + seq!['}'],
{
    let members = seq![
        ("candidate"@, quoted(c.candidate)),
        ("sdpMid"@, quoted_or_null(c.sdp_mid)),
        ("sdpMLineIndex"@, decimal_or_null(c.sdp_mline_index)),
        ("usernameFragment"@, quoted_or_null(c.username_fragment)),
    ];
    reveal_strlit("candidate");
    reveal_strlit("sdpMid");
    reveal_strlit("sdpMLineIndex");
    reveal_strlit("usernameFragment");
    reveal_strlit("\"candidate\":");
    reveal_strlit("\"sdpMid\":");
    reveal_strlit("\"sdpMLineIndex\":");
    reveal_strlit("\"usernameFragment\":");
    lemma_member("candidate"@, "\"candidate\":"@, members[0].1);
    lemma_member("sdpMid"@, "\"sdpMid\":"@, members[1].1);
    lemma_member("sdpMLineIndex"@, "\"sdpMLineIndex\":"@, members[2].1);
    lemma_member("usernameFragment"@, "\"usernameFragment\":"@, members[3].1);
    let parts = members.map_values(|m: (Seq<char>, Seq<char>)| member_text(m));
    reveal_with_fuel(comma_joined, 4);
    assert(parts.drop_last().drop_last().drop_last() =~= seq![parts[0]]);
}

/// What `serde_json::from_str` reads out of a text as a candidate: the candidate, or
/// the text of its error.
pub uninterp spec fn parsed_candidate(text: Seq<char>) -> Result<IceCandidateView, Seq<char>>;

/// What `RTCIceCandidate::to_json` makes of a gathered candidate, or `None` where it
/// has no ICE form.
pub uninterp spec fn travelling_candidate(c: LocalCandidateView) -> Option<IceCandidateView>;

/// Reads an `RTCIceCandidateInit` of the `webrtc` crate out of a JSON text by
/// `serde_json::from_str`, and hands it over field by field, or the text of the error.
/// The text that a candidate is written as reads as that candidate.
#[verifier::external_body]
pub(crate) fn parse_candidate(text: &str) -> (result: Result<IceCandidate, String>)
    ensures
        result is Err ==> forall|c: IceCandidateView| text@ != #[trigger] candidate_text(c),
        result matches Ok(read) ==> forall|c: IceCandidateView|
            text@ == #[trigger] candidate_text(c) ==> read@ == c,
        match result {
            Ok(c) => parsed_candidate(text@) == Ok::<IceCandidateView, Seq<char>>(c@),
            Err(e) => parsed_candidate(text@) == Err::<IceCandidateView, Seq<char>>(e@),
        },
{
    match serde_json::from_str::<RTCIceCandidateInit>(text) {
        Ok(c) => Ok(
            IceCandidate {
                candidate: c.candidate,
                sdp_mid: c.sdp_mid,
                sdp_mline_index: c.sdp_mline_index,
                username_fragment: c.username_fragment,
            },
        ),
        Err(e) => Err(format!("{}", e)),
    }
}

/// Writes an `RTCIceCandidateInit` of the `webrtc` crate as JSON text by
/// `serde_json::to_string`. Its members stand in the order of the fields, under their
/// names in camel case.
#[verifier::external_body]
pub(crate) fn candidate_to_text(c: IceCandidate) -> (text: String)
    ensures
        text@ == candidate_text(c@),
{
    serde_json::to_string(
        &RTCIceCandidateInit {
            candidate: c.candidate,
            sdp_mid: c.sdp_mid,
            sdp_mline_index: c.sdp_mline_index,
            username_fragment: c.username_fragment,
        },
    ).unwrap()
}

/// Calls `RTCIceCandidate::to_json` of the `webrtc` crate. What it makes belongs to
/// the unnamed first media and carries no user name fragment. Without a priority the
/// call computes one and subtracts the component from 256.
#[verifier::external_body]
pub(crate) fn to_travelling(c: &LocalCandidate) -> (result: Option<IceCandidate>)
    requires
        c.has_priority(),
    ensures
        match result {
            Some(i) => travelling_candidate(c@) == Some(i@),
            None => travelling_candidate(c@) is None,
        },
        result matches Some(i) ==> {
            &&& i@.sdp_mid == Some(""@)
            &&& i@.sdp_mline_index == Some(0u16)
            &&& i@.username_fragment is None
        },
{
    let json = RTCIceCandidate {
        foundation: c.foundation.clone(),
        priority: c.priority,
        address: c.address.clone(),
        protocol: RTCIceProtocol::from(c.protocol.as_str()),
        port: c.port,
        typ: RTCIceCandidateType::from(c.kind.as_str()),
        component: c.component,
        related_address: c.related_address.clone(),
        related_port: c.related_port,
        ..Default::default()
    }.to_json().ok()?;
    let (candidate, sdp_mid) = (json.candidate, json.sdp_mid);
    let (sdp_mline_index, username_fragment) = (json.sdp_mline_index, json.username_fragment);
    Some(IceCandidate { candidate, sdp_mid, sdp_mline_index, username_fragment })
}

} // verus!
