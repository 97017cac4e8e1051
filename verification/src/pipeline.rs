//! The per-frame pass: structural decode, the symmetric port gate, color
//! assignment for accepted traffic, and the report the frame produces.
//!
//! Every skip, every log line and every color assignment is pinned here:
//! traffic off the target port produces nothing and assigns nothing; a
//! malformed frame or a failed payload decode is reported only in verbose
//! mode, as one error line; a decoded packet always produces exactly one
//! informational line.

use vstd::prelude::*;
use crate::color::{assign_keys, color_of, ColorEngine, DisplayColor, SourceKey};
use crate::config::{CaptureConfig, ColorOption};
use crate::frame::{decode_frame, FrameClass, FrameOutcome, UdpHeaders, UdpHeadersModel};
use crate::report::{
    build_decode_failed_line, build_malformed_line, build_match_line, decode_failed_text,
    malformed_text, match_line_text, Report, Severity,
};

verus! {

/// The source key a frame is colorized under: its source address, with the
/// source port kept or dropped as the color mode directs.
pub open spec fn spec_source_key(h: UdpHeadersModel, mode: ColorOption) -> SourceKey {
    SourceKey {
        addr: h.src_addr,
        port: if mode == ColorOption::IPAndPort {
            Some(h.src_port)
        } else {
            None
        },
    }
}

/// The source key a frame is colorized under.
pub fn source_key(headers: &UdpHeaders, mode: &ColorOption) -> (k: SourceKey)
    ensures
        k == spec_source_key(headers@, *mode),
{
    SourceKey {
        addr: headers.src_addr,
        port: match mode {
            ColorOption::IPAndPort => Some(headers.src_port),
            _ => None,
        },
    }
}

/// The symmetric port gate: a frame is of interest when either UDP port is
/// the target port, so both halves of a bidirectional exchange are kept.
pub open spec fn spec_port_accepts(h: UdpHeadersModel, port: u16) -> bool {
    h.src_port == port || h.dst_port == port
}

/// The symmetric port gate.
pub fn port_accepts(headers: &UdpHeaders, port: u16) -> (r: bool)
    ensures
        r == spec_port_accepts(headers@, port),
{
    headers.src_port == port || headers.dst_port == port
}

/// What one frame calls for before its payload is decoded: nothing, one
/// ready report, or a payload decode of the accepted headers.
pub enum FrameVerdict {
    /// Not of interest, off the target port, or malformed with verbosity
    /// off: no output, no color assignment.
    Skip,
    /// Malformed with verbosity on: the one error line to emit.
    ReportMalformed(Report),
    /// IPv4/UDP on the target port: decode the payload and report it.
    Accepted(UdpHeaders),
}

/// Classify one captured frame and gate it by port. No state is touched:
/// a skipped frame assigns no color and produces no output.
pub fn inspect_frame(cfg: &CaptureConfig, data: &Vec<u8>) -> (v: FrameVerdict)
    ensures
        classify_of(data@) matches FrameClass::Malformed(k) ==> (if cfg.verbose {
            v matches FrameVerdict::ReportMalformed(rep) && rep.severity == Severity::Error
                && rep.text@ == malformed_text(k) && rep.color is None
        } else {
            v is Skip
        }),
        classify_of(data@) is NotOfInterest ==> v is Skip,
        classify_of(data@) matches FrameClass::Udp(h) ==> (if spec_port_accepts(h, cfg.port) {
            v matches FrameVerdict::Accepted(headers) && headers@ == h
        } else {
            v is Skip
        }),
{
    match decode_frame(data) {
        FrameOutcome::Malformed(kind) => {
            if cfg.verbose {
                FrameVerdict::ReportMalformed(
                    Report {
                        severity: Severity::Error,
                        text: build_malformed_line(&kind),
                        color: None,
                    },
                )
            } else {
                FrameVerdict::Skip
            }
        },
        FrameOutcome::NotOfInterest => FrameVerdict::Skip,
        FrameOutcome::Udp(headers) => {
            if port_accepts(&headers, cfg.port) {
                FrameVerdict::Accepted(headers)
            } else {
                FrameVerdict::Skip
            }
        },
    }
}

/// The structural classification of a frame's bytes.
pub open spec fn classify_of(b: Seq<u8>) -> FrameClass {
    crate::frame::classify_frame(b)
}

/// Turn an accepted frame and its payload decode outcome into the frame's
/// report. The frame's source key is assigned a color first — whether or not
/// the decode succeeded — unless colorization is off. A decoded packet
/// always yields exactly one informational line, wearing the key's color; a
/// failed decode yields one uncolored error line in verbose mode and nothing
/// otherwise.
pub fn report_outcome(
    cfg: &CaptureConfig,
    headers: &UdpHeaders,
    decode: Result<String, String>,
    engine: &mut ColorEngine,
) -> (r: Option<Report>)
    requires
        old(engine).wf(),
    ensures
        final(engine).wf(),
        final(engine).palette_seq() == old(engine).palette_seq(),
        cfg.color_option.spec_color_enabled() ==> final(engine).seen() == assign_keys(
            old(engine).seen(),
            spec_source_key(headers@, cfg.color_option),
        ),
        !cfg.color_option.spec_color_enabled() ==> *final(engine) == *old(engine),
        decode matches Ok(packet_text) ==> (r matches Some(rep) && rep.severity == Severity::Info
            && rep.text@ == match_line_text(headers@.src_addr, headers@.src_port, decode->Ok_0@)
            && rep.color == assigned_color_of(*old(engine), headers@, cfg.color_option)),
        (decode is Err && cfg.verbose) ==> (r matches Some(rep) && rep.severity == Severity::Error
            && rep.text@ == decode_failed_text(decode->Err_0@, headers@.payload) && rep.color
            is None),
        (decode is Err && !cfg.verbose) ==> r is None,
{
    let mut assigned: Option<DisplayColor> = None;
    if cfg.color_option.color_enabled() {
        let key = source_key(headers, &cfg.color_option);
        assigned = Some(engine.color_for(&key));
    }
    match decode {
        Ok(packet_text) => Some(
            Report {
                severity: Severity::Info,
                text: build_match_line(&headers.src_addr, headers.src_port, &packet_text),
                color: assigned,
            },
        ),
        Err(error_text) => {
            if cfg.verbose {
                Some(
                    Report {
                        severity: Severity::Error,
                        text: build_decode_failed_line(&error_text, &headers.payload),
                        color: None,
                    },
                )
            } else {
                None
            }
        },
    }
}

/// The color a match line wears: the color the frame's source key has (or is
/// now assigned) under the engine, or none when colorization is off.
pub open spec fn assigned_color_of(
    engine: ColorEngine,
    h: UdpHeadersModel,
    mode: ColorOption,
) -> Option<DisplayColor> {
    if mode.spec_color_enabled() {
        Some(
            color_of(
                engine.palette_seq(),
                assign_keys(engine.seen(), spec_source_key(h, mode)),
                spec_source_key(h, mode),
            ),
        )
    } else {
        None
    }
}

} // verus!
