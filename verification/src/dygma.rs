//! Serial protocol client for two-sided wired keyboards: device
//! discovery filtering, the line-oriented response parser, and the
//! fixed four-step battery query as a state machine.  The transport
//! driver performs the actual port I/O and feeds raw bytes in.

use vstd::prelude::*;
use vstd::seq_lib::*;

use crate::error::BatteryError;
use crate::status::{spec_status_of_code, BatteryStatus};
use crate::text::{
    decode_text, parse_u8, spec_parse_u8, spec_starts_with, spec_trim, starts_with, trim_str,
};

verus! {

/// USB vendor id of the keyboard maker.
pub const DYGMA_VENDOR_ID: u16 = 13807;

/// USB product id of the one supported keyboard model.
pub const DEFY_PRODUCT_ID: u16 = 18;

/// What a system serial port is attached to.
#[derive(Clone, Copy, Debug, PartialEq, Eq, Structural)]
pub enum PortKind {
    Usb { vid: u16, pid: u16 },
    Other,
}

/// One enumerated system serial port: its device-file path and what
/// it is attached to.
pub struct PortInfo {
    pub path: String,
    pub kind: PortKind,
}

pub open spec fn spec_supported_product(pid: u16) -> bool {
    pid == DEFY_PRODUCT_ID
}

fn supported_product(pid: u16) -> (r: bool)
    ensures
        r == spec_supported_product(pid),
{
    pid == DEFY_PRODUCT_ID
}

/// A port is kept when it is a device file under the platform's
/// serial naming convention and a USB port of the known vendor with a
/// supported product id.
pub open spec fn spec_is_dygma_port(p: PortInfo) -> bool {
    &&& spec_starts_with(p.path@, "/dev/tty"@)
    &&& match p.kind {
        PortKind::Usb { vid, pid } => vid == DYGMA_VENDOR_ID && spec_supported_product(pid),
        PortKind::Other => false,
    }
}

fn is_dygma_port(p: &PortInfo) -> (r: bool)
    ensures
        r == spec_is_dygma_port(*p),
{
    if !starts_with(p.path.as_str(), "/dev/tty") {
        return false;
    }
    match &p.kind {
        PortKind::Usb { vid, pid } => *vid == DYGMA_VENDOR_ID && supported_product(*pid),
        PortKind::Other => false,
    }
}

/// Best-effort device discovery filter: keeps exactly the enumerated
/// ports that look like a supported keyboard, in their original
/// order; everything else is silently skipped.
pub fn list_devices(ports: Vec<PortInfo>) -> (r: Vec<PortInfo>)
    ensures
        r@ == ports@.filter(|p: PortInfo| spec_is_dygma_port(p)),
{
    let ghost orig = ports@;
    let mut rest = ports;
    let mut kept: Vec<PortInfo> = Vec::new();
    while rest.len() > 0
        invariant
            rest@.len() <= orig.len(),
            rest@ == orig.subrange(orig.len() - rest@.len(), orig.len() as int),
            kept@ == orig.subrange(0, orig.len() - rest@.len()).filter(
                |p: PortInfo| spec_is_dygma_port(p),
            ),
        decreases rest@.len(),
    {
        let ghost k = orig.len() - rest@.len();
        let p = rest.remove(0);
        proof {
            assert(p == orig[k as int]);
            assert(rest@ =~= orig.subrange(k + 1, orig.len() as int));
        }
        let keep = is_dygma_port(&p);
        if keep {
            kept.push(p);
        }
        proof {
            reveal(Seq::filter);
            let pre = orig.subrange(0, k as int);
            let cur = orig.subrange(0, k + 1);
            assert(cur.drop_last() =~= pre);
            assert(cur.last() == orig[k as int]);
        }
    }
    proof {
        assert(orig.subrange(0, orig.len() as int) =~= orig);
    }
    kept
}

/// Index of the first carriage-return/newline pair, if any.
pub open spec fn spec_crlf_pos(s: Seq<char>) -> Option<int>
    decreases s.len(),
{
    if s.len() < 2 {
        None
    } else if s[0] == '\r' && s[1] == '\n' {
        Some(0int)
    } else {
        match spec_crlf_pos(s.drop_first()) {
            None => None,
            Some(i) => Some(i + 1),
        }
    }
}

fn find_crlf(s: &str) -> (r: Option<usize>)
    ensures
        match spec_crlf_pos(s@) {
            None => r is None,
            Some(i) => r matches Some(j) && j as int == i && i + 2 <= s@.len(),
        },
    decreases s@.len(),
{
    let n = s.unicode_len();
    if n < 2 {
        None
    } else if s.get_char(0) == '\r' && s.get_char(1) == '\n' {
        Some(0)
    } else {
        let rest = s.substring_char(1, n);
        proof {
            assert(rest@ =~= s@.drop_first());
        }
        match find_crlf(rest) {
            None => None,
            Some(j) => Some(j + 1),
        }
    }
}

/// What one command/response exchange yields from the raw read
/// buffer: the bytes must be valid text and contain at least one line
/// terminator; the response is everything before the first one, with
/// surrounding whitespace removed.
pub open spec fn spec_response(bytes: Seq<u8>) -> Result<Seq<char>, BatteryError> {
    if !vstd::utf8::valid_utf8(bytes) {
        Err(BatteryError::InvalidText)
    } else {
        let text = vstd::utf8::decode_utf8(bytes);
        match spec_crlf_pos(text) {
            None => Err(BatteryError::EmptyResponse),
            Some(i) => Ok(spec_trim(text.subrange(0, i))),
        }
    }
}

/// Parses the raw buffer read after sending one command, per
/// [`spec_response`].
pub fn parse_response(raw: Vec<u8>) -> (r: Result<String, BatteryError>)
    ensures
        match spec_response(raw@) {
            Ok(line) => r matches Ok(s) && s@ == line,
            Err(e) => r == Err::<String, BatteryError>(e),
        },
{
    let text = match decode_text(raw) {
        Some(t) => t,
        None => {
            return Err(BatteryError::InvalidText);
        },
    };
    match find_crlf(text.as_str()) {
        None => Err(BatteryError::EmptyResponse),
        Some(i) => {
            let line = text.as_str().substring_char(0, i);
            let trimmed = trim_str(line);
            Ok(trimmed)
        },
    }
}

/// The four exchanges of one battery query, in protocol order.
#[derive(Clone, Copy, Debug, PartialEq, Eq, Structural)]
pub enum QueryStep {
    LeftLevel,
    LeftStatus,
    RightLevel,
    RightStatus,
}

/// The command text sent for each step.
pub open spec fn spec_command_text(step: QueryStep) -> Seq<char> {
    match step {
        QueryStep::LeftLevel => "wireless.battery.left.level"@,
        QueryStep::LeftStatus => "wireless.battery.left.status"@,
        QueryStep::RightLevel => "wireless.battery.right.level"@,
        QueryStep::RightStatus => "wireless.battery.right.status"@,
    }
}

pub fn command_for_step(step: QueryStep) -> (r: String)
    ensures
        r@ == spec_command_text(step),
{
    match step {
        QueryStep::LeftLevel => "wireless.battery.left.level".to_owned(),
        QueryStep::LeftStatus => "wireless.battery.left.status".to_owned(),
        QueryStep::RightLevel => "wireless.battery.right.level".to_owned(),
        QueryStep::RightStatus => "wireless.battery.right.status".to_owned(),
    }
}

/// What is written to the port for a command: the command text with a
/// terminating newline.
pub fn frame_command(command: &str) -> (r: String)
    ensures
        r@ == command@ + "\n"@,
{
    let mut out = command.to_owned();
    out.append("\n");
    out
}

/// One two-sided device's battery state: independent level and status
/// for the left and right halves.
pub struct DygmaBatteryInfo {
    pub name: String,
    pub left_level: u8,
    pub left_status: BatteryStatus,
    pub right_level: u8,
    pub right_status: BatteryStatus,
}

/// The battery query over one port, as a state machine: the driver
/// asks for the next command, performs the exchange, and feeds the
/// raw response back.  Any failed exchange leaves the query where it
/// was; the driver propagates the error and no reading is produced.
pub struct DygmaQuery {
    pub left_level: Option<u8>,
    pub left_status: Option<BatteryStatus>,
    pub right_level: Option<u8>,
    pub right_status: Option<BatteryStatus>,
}

/// The next exchange still to perform, in protocol order, or `None`
/// once the query is complete.
pub open spec fn spec_next_step(q: DygmaQuery) -> Option<QueryStep> {
    if q.left_level is None {
        Some(QueryStep::LeftLevel)
    } else if q.left_status is None {
        Some(QueryStep::LeftStatus)
    } else if q.right_level is None {
        Some(QueryStep::RightLevel)
    } else if q.right_status is None {
        Some(QueryStep::RightStatus)
    } else {
        None
    }
}

/// How one successfully parsed response line advances the query: a
/// level line must parse as a decimal 8-bit integer, a status line as
/// a numeric status code; a malformed line reports the offending
/// value and leaves the state unchanged.
pub open spec fn spec_step_applied(
    q0: DygmaQuery,
    q1: DygmaQuery,
    step: QueryStep,
    line: Seq<char>,
    r: Result<(), BatteryError>,
) -> bool {
    match step {
        QueryStep::LeftLevel => match spec_parse_u8(line) {
            Some(v) => r is Ok && q1 == (DygmaQuery { left_level: Some(v), ..q0 }),
            None => (r matches Err(e) && e matches BatteryError::BadLevel(orig) && orig@ == line
                && q1 == q0),
        },
        QueryStep::LeftStatus => match spec_status_of_code(line) {
            Some(st) => r is Ok && q1 == (DygmaQuery { left_status: Some(st), ..q0 }),
            None => (r matches Err(e) && e matches BatteryError::UnknownStatusCode(orig)
                && orig@ == line && q1 == q0),
        },
        QueryStep::RightLevel => match spec_parse_u8(line) {
            Some(v) => r is Ok && q1 == (DygmaQuery { right_level: Some(v), ..q0 }),
            None => (r matches Err(e) && e matches BatteryError::BadLevel(orig) && orig@ == line
                && q1 == q0),
        },
        QueryStep::RightStatus => match spec_status_of_code(line) {
            Some(st) => r is Ok && q1 == (DygmaQuery { right_status: Some(st), ..q0 }),
            None => (r matches Err(e) && e matches BatteryError::UnknownStatusCode(orig)
                && orig@ == line && q1 == q0),
        },
    }
}

impl DygmaQuery {
    /// A fresh query with no exchange performed yet.
    pub fn new() -> (r: DygmaQuery)
        ensures
            r.left_level is None,
            r.left_status is None,
            r.right_level is None,
            r.right_status is None,
    {
        DygmaQuery { left_level: None, left_status: None, right_level: None, right_status: None }
    }

    /// Whether all four exchanges have completed.
    pub fn complete(&self) -> (r: bool)
        ensures
            r == (spec_next_step(*self) is None),
    {
        self.left_level.is_some() && self.left_status.is_some() && self.right_level.is_some()
            && self.right_status.is_some()
    }

    /// The command to send next, or `None` once the query is complete.
    pub fn next_command(&self) -> (r: Option<String>)
        ensures
            match spec_next_step(*self) {
                None => r is None,
                Some(step) => r matches Some(c) && c@ == spec_command_text(step),
            },
    {
        if self.left_level.is_none() {
            Some(command_for_step(QueryStep::LeftLevel))
        } else if self.left_status.is_none() {
            Some(command_for_step(QueryStep::LeftStatus))
        } else if self.right_level.is_none() {
            Some(command_for_step(QueryStep::RightLevel))
        } else if self.right_status.is_none() {
            Some(command_for_step(QueryStep::RightStatus))
        } else {
            None
        }
    }

    /// Feeds back the raw bytes read after sending the current step's
    /// command.  A protocol or parse fault is returned unchanged to
    /// the caller — the query substitutes no default — and the state
    /// is left as it was.
    pub fn apply_response(&mut self, raw: Vec<u8>) -> (r: Result<(), BatteryError>)
        requires
            spec_next_step(*old(self)) is Some,
        ensures
            match spec_response(raw@) {
                Err(e) => r == Err::<(), BatteryError>(e) && *final(self) == *old(self),
                Ok(line) => match spec_next_step(*old(self)) {
                    Some(step) => spec_step_applied(*old(self), *final(self), step, line, r),
                    None => false,
                },
            },
    {
        let line = match parse_response(raw) {
            Ok(l) => l,
            Err(e) => {
                return Err(e);
            },
        };
        if self.left_level.is_none() {
            match parse_u8(line.as_str()) {
                Ok(v) => {
                    self.left_level = Some(v);
                    Ok(())
                },
                Err(e) => Err(e),
            }
        } else if self.left_status.is_none() {
            match BatteryStatus::from_str(line.as_str()) {
                Ok(st) => {
                    self.left_status = Some(st);
                    Ok(())
                },
                Err(e) => Err(e),
            }
        } else if self.right_level.is_none() {
            match parse_u8(line.as_str()) {
                Ok(v) => {
                    self.right_level = Some(v);
                    Ok(())
                },
                Err(e) => Err(e),
            }
        } else {
            match BatteryStatus::from_str(line.as_str()) {
                Ok(st) => {
                    self.right_status = Some(st);
                    Ok(())
                },
                Err(e) => Err(e),
            }
        }
    }

    /// The assembled reading once the query is complete, under the
    /// device family's fixed product name.
    pub fn finish(&self) -> (r: Option<DygmaBatteryInfo>)
        ensures
            spec_next_step(*self) is Some ==> r is None,
            spec_next_step(*self) is None ==> (r matches Some(info) && info.name@
                == "Dygma Defy"@ && self.left_level == Some(info.left_level) && self.left_status
                == Some(info.left_status) && self.right_level == Some(info.right_level)
                && self.right_status == Some(info.right_status)),
    {
        if self.left_level.is_some() && self.left_status.is_some() && self.right_level.is_some()
            && self.right_status.is_some() {
            Some(
                DygmaBatteryInfo {
                    name: "Dygma Defy".to_owned(),
                    left_level: *self.left_level.as_ref().unwrap(),
                    left_status: *self.left_status.as_ref().unwrap(),
                    right_level: *self.right_level.as_ref().unwrap(),
                    right_status: *self.right_status.as_ref().unwrap(),
                },
            )
        } else {
            None
        }
    }
}

} // verus!
