//! The one-line event record: a timestamp, the protocol, both endpoints with
//! their hardware addresses, and the capturing interface.
//!
//! `[<timestamp>]: <protocol> <src_ip>(<src_mac>) -> <dst_ip>(<dst_mac>) iface: <interface>`

use vstd::prelude::*;
use crate::address::{ipv4_text, lemma_address_text_len, mac_text};
use crate::frame::{decoded, ipv4_at, mac_at, well_formed_ipv4, Decoded, DecodedHeader};

verus! {

/// The name under which `pnet` prints IANA protocol `number`: what `Display`
/// writes for `pnet::packet::ip::IpNextHeaderProtocol(number)`, such as `Tcp`
/// for 6.
pub uninterp spec fn protocol_name(number: u8) -> Seq<char>;

/// The RFC 3339 text that `chrono` gives the instant `secs` seconds and
/// `nanos` nanoseconds after 1970-01-01T00:00:00Z, in UTC with a `Z` suffix and
/// as many sub-second digits (none, 3, 6 or 9) as the instant needs; `None`
/// for an instant that `chrono` cannot represent.
pub uninterp spec fn utc_text(secs: i64, nanos: u32) -> Option<Seq<char>>;

/// Calls `Display` for `pnet::packet::ip::IpNextHeaderProtocol` through
/// `to_string`. Believed, not proved: the text is the same for the same
/// number, and it is never empty (every arm of that `Display` writes a
/// non-empty literal, `unknown` for numbers without a name).
#[verifier::external_body]
fn protocol_label(number: u8) -> (label: String)
    ensures
        label@ == protocol_name(number),
        label@.len() > 0,
{
    pnet::packet::ip::IpNextHeaderProtocol::new(number).to_string()
}

/// Calls `chrono::DateTime::from_timestamp` and, on the instant it returns,
/// `to_rfc3339_opts(SecondsFormat::AutoSi, true)`. Believed, not proved: the
/// outcome depends on the two numbers alone.
#[verifier::external_body]
fn rfc3339_utc(secs: i64, nanos: u32) -> (text: Option<String>)
    ensures
        text matches Some(t) ==> utc_text(secs, nanos) == Some(t@),
        text is None ==> utc_text(secs, nanos) is None,
{
    match chrono::DateTime::from_timestamp(secs, nanos) {
        Some(at) => Some(at.to_rfc3339_opts(chrono::SecondsFormat::AutoSi, true)),
        None => None,
    }
}

/// An instant in UTC, kept as its RFC 3339 text.
#[derive(Clone, Debug, PartialEq, Eq)]
pub struct Timestamp {
    text: String,
}

impl View for Timestamp {
    type V = Seq<char>;

    closed spec fn view(&self) -> Seq<char> {
        self.text@
    }
}

impl Timestamp {
    /// The instant `secs` seconds and `nanos` nanoseconds after the Unix epoch,
    /// or `None` where the calendar cannot represent it.
    pub fn from_unix(secs: i64, nanos: u32) -> (at: Option<Timestamp>)
        ensures
            at matches Some(t) ==> utc_text(secs, nanos) == Some(t@),
            at is None ==> utc_text(secs, nanos) is None,
    {
        match rfc3339_utc(secs, nanos) {
            Some(text) => Some(Timestamp { text }),
            None => None,
        }
    }

    /// The RFC 3339 text of the instant.
    pub fn as_str(&self) -> (text: &str)
        ensures
            text@ == self@,
    {
        self.text.as_str()
    }
}

/// The record layout with every field given as text.
pub open spec fn record_text(
    timestamp: Seq<char>,
    protocol: Seq<char>,
    header: DecodedHeader,
    iface: Seq<char>,
) -> Seq<char> {
    "["@ + timestamp + "]: "@ + protocol + " "@ + ipv4_text(header.src_ip) + "("@ + mac_text(
        header.src_mac,
    ) + ") -> "@ + ipv4_text(header.dst_ip) + "("@ + mac_text(header.dst_mac) + ") iface: "@
        + iface
}

/// The record for a decoded header, with the protocol under its `pnet` name.
pub open spec fn event_text(timestamp: Seq<char>, header: DecodedHeader, iface: Seq<char>) -> Seq<
    char,
> {
    record_text(timestamp, protocol_name(header.protocol), header, iface)
}

/// Lays out one record from a timestamp and a protocol name already in text
/// form. Nothing is escaped.
pub fn render_record(timestamp: &str, protocol: &str, header: &DecodedHeader, iface: &str) -> (line:
    String)
    ensures
        line@ == record_text(timestamp@, protocol@, *header, iface@),
{
    let mut line = String::new();
    line.append("[");
    line.append(timestamp);
    line.append("]: ");
    line.append(protocol);
    line.append(" ");
    header.src_ip.push_text(&mut line);
    line.append("(");
    header.src_mac.push_text(&mut line);
    line.append(") -> ");
    header.dst_ip.push_text(&mut line);
    line.append("(");
    header.dst_mac.push_text(&mut line);
    line.append(") iface: ");
    line.append(iface);
    assert(line@ =~= record_text(timestamp@, protocol@, *header, iface@));
    line
}

/// Renders the record of one decoded frame captured on `iface` at `at`.
pub fn format_event(header: &DecodedHeader, iface: &str, at: &Timestamp) -> (line: String)
    ensures
        line@ == event_text(at@, *header, iface@),
        protocol_name(header.protocol).len() > 0,
{
    let protocol = protocol_label(header.protocol);
    render_record(at.as_str(), protocol.as_str(), header, iface)
}

/// Every frame that decodes to a header gives a record in the fixed layout:
/// timestamp and interface name as they were given, the protocol under the
/// name of the number at offset 23, each address taken from its offset in the
/// frame. No address is left empty, and a timestamp, protocol name or
/// interface name is as long in the record as it was given.
pub proof fn lemma_record_of_frame(frame: Seq<u8>, iface: Seq<char>, timestamp: Seq<char>)
    requires
        well_formed_ipv4(frame),
    ensures
        decoded(frame) matches Ok(Decoded::Header(header)) && event_text(timestamp, header, iface)
            == "["@ + timestamp + "]: "@ + protocol_name(frame[23]) + " "@ + ipv4_text(
            ipv4_at(frame, 26),
        ) + "("@ + mac_text(mac_at(frame, 6)) + ") -> "@ + ipv4_text(ipv4_at(frame, 30)) + "("@
            + mac_text(mac_at(frame, 0)) + ") iface: "@ + iface && event_text(
            timestamp,
            header,
            iface,
        ).len() == 55 + timestamp.len() + protocol_name(frame[23]).len() + ipv4_text(
            ipv4_at(frame, 26),
        ).len() + ipv4_text(ipv4_at(frame, 30)).len() + iface.len(),
        mac_text(mac_at(frame, 6)).len() == 17,
        mac_text(mac_at(frame, 0)).len() == 17,
        ipv4_text(ipv4_at(frame, 26)).len() >= 7,
        ipv4_text(ipv4_at(frame, 30)).len() >= 7,
{
    reveal_strlit("[");
    reveal_strlit("]: ");
    reveal_strlit(" ");
    reveal_strlit("(");
    reveal_strlit(") -> ");
    reveal_strlit(") iface: ");
    lemma_address_text_len(mac_at(frame, 6), ipv4_at(frame, 26));
    lemma_address_text_len(mac_at(frame, 0), ipv4_at(frame, 30));
}

} // verus!
