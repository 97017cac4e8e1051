//! Report lines: the one line a frame of interest produces, with its
//! severity and its optional display color, and the rendering that wraps the
//! line in that color at the very edge.

use vstd::prelude::*;
use vstd::string::StringExecFns;
use crate::color::{DisplayColor, Ipv4Address};
use crate::frame::MalformedKind;
use crate::text::{
    append_byte_list, append_dec_u16, append_ipv4, append_spaces, byte_list_text, dec_str,
    dec_u16_len, ipv4_text, ipv4_text_len, pad_left, pad_right,
};

verus! {

/// Width the source address is right-aligned to in a match line.
pub const ADDRESS_COLUMN_WIDTH: usize = 15;

/// Width the source port is left-aligned to in a match line.
pub const PORT_COLUMN_WIDTH: usize = 5;

/// How a report line is to be emitted by the log sink.
#[derive(Clone, Copy, PartialEq, Eq, Structural, Debug)]
pub enum Severity {
    Info,
    Error,
}

/// One line of output: its severity, its text, and the color it is to be
/// wrapped in, if any.
pub struct Report {
    pub severity: Severity,
    pub text: String,
    pub color: Option<DisplayColor>,
}

/// The line a successfully decoded packet produces: the source address
/// right-aligned, a colon, the source port left-aligned, a space, and the
/// decoded packet's own rendering.
pub open spec fn match_line_text(src: Ipv4Address, src_port: u16, packet_text: Seq<char>) -> Seq<
    char,
> {
    pad_left(ipv4_text(src), ADDRESS_COLUMN_WIDTH as int) + seq![':'] + pad_right(
        dec_str(src_port as int),
        PORT_COLUMN_WIDTH as int,
    ) + seq![' '] + packet_text
}

/// The one line a failed payload decode produces in verbose mode, naming the
/// decode error and the raw payload bytes.
pub open spec fn decode_failed_text(error_text: Seq<char>, payload: Seq<u8>) -> Seq<char> {
    "Failed de-serialization: '"@ + error_text + "'; failed packet contents: '"@ + byte_list_text(
        payload,
    ) + "'"@
}

/// Build the match line for a decoded packet whose rendering is
/// `packet_text`.
pub fn build_match_line(src: &Ipv4Address, src_port: u16, packet_text: &String) -> (s: String)
    ensures
        s@ == match_line_text(*src, src_port, packet_text@),
{
    proof {
        reveal_strlit(":");
        reveal_strlit(" ");
        assert(":"@ =~= seq![':']);
        assert(" "@ =~= seq![' ']);
    }
    let mut s = String::new();
    let ip_len = ipv4_text_len(src);
    if ip_len < ADDRESS_COLUMN_WIDTH {
        append_spaces(&mut s, ADDRESS_COLUMN_WIDTH - ip_len);
    }
    append_ipv4(&mut s, src);
    s.append(":");
    append_dec_u16(&mut s, src_port);
    let port_len = dec_u16_len(src_port);
    if port_len < PORT_COLUMN_WIDTH {
        append_spaces(&mut s, PORT_COLUMN_WIDTH - port_len);
    }
    s.append(" ");
    s.append(packet_text.as_str());
    proof {
        assert(s@ =~= match_line_text(*src, src_port, packet_text@));
    }
    s
}

/// Build the verbose-mode line for a payload that failed protocol decode.
pub fn build_decode_failed_line(error_text: &String, payload: &Vec<u8>) -> (s: String)
    ensures
        s@ == decode_failed_text(error_text@, payload@),
{
    let mut s = String::from_str("Failed de-serialization: '");
    s.append(error_text.as_str());
    s.append("'; failed packet contents: '");
    append_byte_list(&mut s, payload);
    s.append("'");
    proof {
        assert(s@ =~= decode_failed_text(error_text@, payload@));
    }
    s
}

/// The informational line emitted once at startup, naming the resolved
/// device and the active filter text.
pub open spec fn banner_text(device_name: Seq<char>, filter: Seq<char>) -> Seq<char> {
    "Listening to device '"@ + device_name + "' with filter '"@ + filter + "'"@
}

/// Build the startup banner line.
pub fn build_banner_line(device_name: &String, filter: &String) -> (s: String)
    ensures
        s@ == banner_text(device_name@, filter@),
{
    let mut s = String::from_str("Listening to device '");
    s.append(device_name.as_str());
    s.append("' with filter '");
    s.append(filter.as_str());
    s.append("'");
    proof {
        assert(s@ =~= banner_text(device_name@, filter@));
    }
    s
}

/// The one line a structurally malformed frame produces in verbose mode,
/// naming what broke.
pub open spec fn malformed_text(kind: MalformedKind) -> Seq<char> {
    "Failed link-layer decode: '"@ + malformed_reason_text(kind) + "'"@
}

/// The reason text for each kind of structural failure.
pub open spec fn malformed_reason_text(kind: MalformedKind) -> Seq<char> {
    match kind {
        MalformedKind::TruncatedLink => "frame shorter than an Ethernet II header"@,
        MalformedKind::TruncatedIpv4 => "frame ends inside the minimal IPv4 header"@,
        MalformedKind::BadIpVersion => "IPv4 version nibble is not 4"@,
        MalformedKind::BadIpHeaderLength => "IPv4 header length below five words"@,
        MalformedKind::ShortIpv4Header => "frame ends inside the announced IPv4 header"@,
        MalformedKind::TruncatedUdp => "frame ends inside the UDP header"@,
    }
}

/// Build the verbose-mode line for a structurally malformed frame.
pub fn build_malformed_line(kind: &MalformedKind) -> (s: String)
    ensures
        s@ == malformed_text(*kind),
{
    let mut s = String::from_str("Failed link-layer decode: '");
    let reason = match kind {
        MalformedKind::TruncatedLink => "frame shorter than an Ethernet II header",
        MalformedKind::TruncatedIpv4 => "frame ends inside the minimal IPv4 header",
        MalformedKind::BadIpVersion => "IPv4 version nibble is not 4",
        MalformedKind::BadIpHeaderLength => "IPv4 header length below five words",
        MalformedKind::ShortIpv4Header => "frame ends inside the announced IPv4 header",
        MalformedKind::TruncatedUdp => "frame ends inside the UDP header",
    };
    s.append(reason);
    s.append("'");
    proof {
        assert(s@ =~= malformed_text(*kind));
    }
    s
}

/// Relies on colored's `Colorize::color` for `&str` and on the `Display` of
/// its `ColoredString`: whether ANSI escape codes are wrapped around the text
/// depends on the terminal environment, so nothing is promised of the result.
#[verifier::external_body]
fn colorize(text: &str, color: &DisplayColor) -> String {
    let c = match color {
        DisplayColor::Cyan => colored::Color::Cyan,
        DisplayColor::Yellow => colored::Color::Yellow,
        DisplayColor::Red => colored::Color::Red,
        DisplayColor::Magenta => colored::Color::Magenta,
        DisplayColor::Green => colored::Color::Green,
        DisplayColor::Blue => colored::Color::Blue,
    };
    format!("{}", colored::Colorize::color(text, c))
}

/// The text to hand the log sink: the report's own line, wrapped in its
/// color when it carries one.
pub fn render_report(report: &Report) -> (s: String)
    ensures
        report.color is None ==> s@ == report.text@,
{
    match &report.color {
        Some(c) => colorize(report.text.as_str(), c),
        None => String::from_str(report.text.as_str()),
    }
}

} // verus!
