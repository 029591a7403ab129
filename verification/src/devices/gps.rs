//! The GPS receiver's text protocol and the decisions of its reading loop:
//! the fields of a `+QGPSLOC:` answer, the names of fix types, the lines of
//! the receive buffer, and the service's status as reads succeed or fail.
//! Coordinates, altitude, course and speed are decimal fractions; they are
//! handed on as text.
use vstd::prelude::*;

use crate::text::{
    char_index, chars_of, concat, contains, contains_spec, decimal, decimal_string, owned, parse_u32, parse_unsigned, split_char,
    split_spec, string_from_range, strip_prefix, strip_prefix_spec, trim, trim_spec,
};
use crate::utils::error::{error_message, ModbusError};

verus! {

/// The text that opens a location answer; its fields follow, separated by commas.
pub open spec fn qgpsloc_prefix() -> Seq<char> {
    "+QGPSLOC: "@
}

/// The fields of a location answer: present when the line opens with the
/// answer's prefix and holds at least eleven comma-separated fields.
pub open spec fn qgpsloc_fields_spec(line: Seq<char>) -> Option<Seq<Seq<char>>> {
    match strip_prefix_spec(line, qgpsloc_prefix()) {
        Some(rest) => if split_spec(rest, ',').len() >= 11 {
            Some(split_spec(rest, ','))
        } else {
            None
        },
        None => None,
    }
}

/// The name of a fix type as the receiver numbers them.
pub open spec fn fix_type_text(fix: u32) -> Seq<char> {
    if fix == 0 {
        "No fix"@
    } else if fix == 1 {
        "Dead reckoning"@
    } else if fix == 2 {
        "2D fix"@
    } else if fix == 3 {
        "3D fix"@
    } else {
        "Unknown("@ + decimal(fix as nat) + ")"@
    }
}

/// The fields of a location answer `line`, when it is one.
pub fn qgpsloc_fields(line: &str) -> (r: Option<Vec<String>>)
    ensures
        match qgpsloc_fields_spec(line@) {
            Some(f) => r matches Some(v) && v@.map_values(|p: String| p@) == f,
            None => r is None,
        },
{
    match strip_prefix(line, "+QGPSLOC: ") {
        Some(rest) => {
            let parts = split_char(rest.as_str(), ',');
            proof {
                assert(parts@.map_values(|p: String| p@).len() == parts@.len());
            }
            if parts.len() >= 11 {
                Some(parts)
            } else {
                None
            }
        },
        None => None,
    }
}

/// The name of fix type `fix`.
pub fn fix_type_name(fix: u32) -> (s: String)
    ensures
        s@ == fix_type_text(fix),
{
    if fix == 0 {
        owned("No fix")
    } else if fix == 1 {
        owned("Dead reckoning")
    } else if fix == 2 {
        owned("2D fix")
    } else if fix == 3 {
        owned("3D fix")
    } else {
        let n = decimal_string(fix as u64);
        let a = concat("Unknown(", n.as_str());
        concat(a.as_str(), ")")
    }
}

/// The parts of a location answer that are not decimal fractions, with the
/// others left as the receiver wrote them.
#[derive(Debug, Clone)]
pub struct QgpslocReading {
    pub utc_time: String,
    pub latitude: String,
    pub longitude: String,
    pub altitude: String,
    pub fix_type: Option<String>,
    pub course: String,
    pub speed_kmh: String,
    pub satellites: Option<u32>,
}

/// The fix type written in field `f`, when it is a `u32`.
pub open spec fn fix_field(f: Seq<char>) -> Option<Seq<char>> {
    match parse_unsigned(f, u32::MAX as nat) {
        Some(n) => Some(fix_type_text(n as u32)),
        None => None,
    }
}

/// What a location answer `line` says: its time, position, altitude, course
/// and speed fields, the name of its fix type (field six) and its satellite
/// count (field eleven), each where it can be read.
pub fn parse_qgpsloc(line: &str) -> (r: Option<QgpslocReading>)
    ensures
        match qgpsloc_fields_spec(line@) {
            None => r is None,
            Some(f) => r matches Some(g) && g.utc_time@ == f[0] && g.latitude@ == f[1] && g.longitude@ == f[2]
                && g.altitude@ == f[4] && g.course@ == f[6] && g.speed_kmh@ == f[7] && match fix_field(f[5]) {
                Some(t) => g.fix_type matches Some(x) && x@ == t,
                None => g.fix_type is None,
            } && g.satellites == (match parse_unsigned(f[10], u32::MAX as nat) {
                Some(n) => Some(n as u32),
                None => None::<u32>,
            }),
        },
{
    let parts = match qgpsloc_fields(line) {
        Some(p) => p,
        None => return None,
    };
    let ghost f = parts@.map_values(|p: String| p@);
    proof {
        assert(f[0] == parts@[0]@ && f[1] == parts@[1]@ && f[2] == parts@[2]@ && f[4] == parts@[4]@);
        assert(f[5] == parts@[5]@ && f[6] == parts@[6]@ && f[7] == parts@[7]@ && f[10] == parts@[10]@);
    }
    let fix_type = match parse_u32(parts[5].as_str()) {
        Some(n) => Some(fix_type_name(n)),
        None => None,
    };
    Some(QgpslocReading {
        utc_time: parts[0].clone(),
        latitude: parts[1].clone(),
        longitude: parts[2].clone(),
        altitude: parts[4].clone(),
        fix_type,
        course: parts[6].clone(),
        speed_kmh: parts[7].clone(),
        satellites: parse_u32(parts[10].as_str()),
    })
}

/// `s` without the carriage returns that end it.
pub open spec fn strip_trailing_cr(s: Seq<char>) -> Seq<char>
    decreases s.len(),
{
    if s.len() > 0 && s.last() == '\r' {
        strip_trailing_cr(s.drop_last())
    } else {
        s
    }
}

/// Takes the first complete line out of the receive buffer: the text before
/// the first newline, without trailing carriage returns and surrounding
/// whitespace; the buffer keeps what follows the newline. Without a newline
/// there is no line and the buffer stays as it is.
pub fn take_line(buffer: &mut String) -> (r: Option<String>)
    ensures
        match char_index(old(buffer)@, '\n') {
            Some(p) => r matches Some(l) && l@ == trim_spec(strip_trailing_cr(old(buffer)@.take(p)))
                && final(buffer)@ == old(buffer)@.skip(p + 1),
            None => r is None && final(buffer)@ == old(buffer)@,
        },
{
    let v = chars_of(buffer.as_str());
    let mut p: usize = 0;
    while p < v.len() && v[p] != '\n'
        invariant
            v@ == old(buffer)@,
            *buffer == *old(buffer),
            p <= v.len(),
            forall|j: int| 0 <= j < p ==> v@[j] != '\n',
        decreases v.len() - p,
    {
        p += 1;
    }
    proof {
        crate::text::lemma_char_index(v@, '\n');
    }
    if p == v.len() {
        return None;
    }
    let mut e: usize = p;
    proof {
        assert(v@.take(e as int) =~= v@.take(p as int));
    }
    while e > 0 && v[e - 1] == '\r'
        invariant
            v@ == old(buffer)@,
            e <= p < v.len(),
            strip_trailing_cr(v@.take(p as int)) == strip_trailing_cr(v@.take(e as int)),
        decreases e,
    {
        proof {
            assert(v@.take(e as int).drop_last() =~= v@.take(e - 1));
        }
        e -= 1;
    }
    proof {
        if e > 0 {
            assert(v@.take(e as int).last() == v@[e - 1]);
        }
        assert(strip_trailing_cr(v@.take(e as int)) == v@.take(e as int));
        assert(v@.take(e as int) =~= v@.subrange(0, e as int));
    }
    let head = string_from_range(v.as_slice(), 0, e);
    let line = trim(head.as_str());
    *buffer = string_from_range(v.as_slice(), p + 1, v.len());
    proof {
        assert(v@.subrange(p + 1, v@.len() as int) =~= old(buffer)@.skip(p + 1));
    }
    Some(line)
}

/// Whether a stored fix may still be reported: it has a position and was
/// taken at most thirty seconds before `now` (Unix seconds).
pub open spec fn fix_is_fresh(has_fix: bool, timestamp: Option<i64>, now: i64) -> bool {
    has_fix && match timestamp {
        Some(t) => now - t <= 30,
        None => false,
    }
}

/// Whether a stored fix may still be reported.
pub fn is_fresh_fix(has_fix: bool, timestamp: Option<i64>, now: i64) -> (r: bool)
    ensures
        r == fix_is_fresh(has_fix, timestamp, now),
{
    if !has_fix {
        return false;
    }
    match timestamp {
        Some(t) => (now as i128) - (t as i128) <= 30,
        None => false,
    }
}


/// What one read of the reading loop gave.
#[derive(Debug, Clone)]
pub enum GpsReadOutcome {
    /// A reading came back; `valid` says whether it has a position.
    Reading { valid: bool },
    /// Nothing came back before the read's timeout.
    NoData,
    /// The read failed, with the error's text.
    Failed(String),
}

/// What the reading loop does after a read.
#[derive(Debug, Clone, Copy, PartialEq, Eq, Structural)]
pub enum GpsLoopAction {
    /// Go on reading.
    Continue,
    /// Store the reading and show its position in the status.
    ShowFix,
    /// Store the reading; there is no position yet.
    StoreReading,
    /// Drop the reader and open the port again.
    Reconnect,
}

/// Reads without a result after which the status says there is no signal.
pub const NO_SIGNAL_AFTER: u32 = 5;
/// Failed reads after which the service reconnects.
pub const RECONNECT_AFTER: u32 = 10;

/// The GPS service's status text, whether it runs, and how many reads in a
/// row have brought nothing.
pub struct GpsServiceState {
    status: String,
    running: bool,
    failures: u32,
}

impl GpsServiceState {
    pub closed spec fn spec_status(&self) -> Seq<char> {
        self.status@
    }

    pub closed spec fn spec_running(&self) -> bool {
        self.running
    }

    pub closed spec fn spec_failures(&self) -> u32 {
        self.failures
    }

    /// A service that has not started.
    pub fn new() -> (s: Self)
        ensures
            s.spec_status() == "Initialized"@,
            !s.spec_running(),
            s.spec_failures() == 0,
    {
        GpsServiceState { status: owned("Initialized"), running: false, failures: 0 }
    }

    /// The status text.
    pub fn get_status(&self) -> (r: String)
        ensures
            r@ == self.spec_status(),
    {
        self.status.clone()
    }

    /// Whether the service runs.
    pub fn is_running(&self) -> (r: bool)
        ensures
            r == self.spec_running(),
    {
        self.running
    }

    /// Begins a start: `false`, with nothing changed, when the service
    /// already runs; else the status becomes `Connecting`.
    pub fn begin_start(&mut self) -> (r: bool)
        ensures
            r == !old(self).spec_running(),
            !r ==> *final(self) == *old(self),
            r ==> final(self).spec_status() == "Connecting"@ && final(self).spec_running()
                == old(self).spec_running() && final(self).spec_failures() == old(self).spec_failures(),
    {
        if self.running {
            return false;
        }
        self.status = owned("Connecting");
        true
    }

    /// Records that the port could not be opened.
    pub fn connection_failed(&mut self, e: &ModbusError)
        ensures
            final(self).spec_status() == "Connection Failed: "@ + error_message(*e),
            final(self).spec_running() == old(self).spec_running(),
            final(self).spec_failures() == old(self).spec_failures(),
    {
        let m = e.message();
        self.status = concat("Connection Failed: ", m.as_str());
    }

    /// Records that the port is open and continuous reading begins.
    pub fn connected(&mut self)
        ensures
            final(self).spec_status() == "Connected - Starting continuous reading"@,
            final(self).spec_running(),
            final(self).spec_failures() == 0,
    {
        self.running = true;
        self.failures = 0;
        self.status = owned("Connected - Starting continuous reading");
    }

    /// Stops the service.
    pub fn stop(&mut self)
        ensures
            final(self).spec_status() == "Stopped"@,
            !final(self).spec_running(),
            final(self).spec_failures() == old(self).spec_failures(),
    {
        self.running = false;
        self.status = owned("Stopped");
    }

    /// Records the outcome of one read and says what the loop does next.
    /// A reading clears the failure count; a read without result, or a failed
    /// read, adds one to it (the count stops at its maximum). From the fifth
    /// read without result on, the status says there is no signal; from the
    /// tenth failed read on, it names the error and the loop reconnects.
    pub fn record_read(&mut self, outcome: &GpsReadOutcome) -> (a: GpsLoopAction)
        ensures
            final(self).spec_running() == old(self).spec_running(),
            match *outcome {
                GpsReadOutcome::Reading { valid } => final(self).spec_failures() == 0 && if valid {
                    a == GpsLoopAction::ShowFix && final(self).spec_status() == old(self).spec_status()
                } else {
                    a == GpsLoopAction::StoreReading && final(self).spec_status()
                        == "Reading - Searching for GPS signal"@
                },
                GpsReadOutcome::NoData => {
                    let n = if old(self).spec_failures() == u32::MAX {
                        u32::MAX
                    } else {
                        (old(self).spec_failures() + 1) as u32
                    };
                    &&& final(self).spec_failures() == n
                    &&& a == GpsLoopAction::Continue
                    &&& final(self).spec_status() == (if n >= NO_SIGNAL_AFTER {
                        "Reading - No signal ("@ + decimal(n as nat) + " attempts)"@
                    } else {
                        old(self).spec_status()
                    })
                },
                GpsReadOutcome::Failed(e) => {
                    let n = if old(self).spec_failures() == u32::MAX {
                        u32::MAX
                    } else {
                        (old(self).spec_failures() + 1) as u32
                    };
                    &&& final(self).spec_failures() == n
                    &&& if n >= RECONNECT_AFTER {
                        a == GpsLoopAction::Reconnect && final(self).spec_status()
                            == "Error - Connection issues: "@ + e@
                    } else {
                        a == GpsLoopAction::Continue && final(self).spec_status() == old(self).spec_status()
                    }
                },
            },
    {
        match outcome {
            GpsReadOutcome::Reading { valid } => {
                self.failures = 0;
                if *valid {
                    GpsLoopAction::ShowFix
                } else {
                    self.status = owned("Reading - Searching for GPS signal");
                    GpsLoopAction::StoreReading
                }
            },
            GpsReadOutcome::NoData => {
                self.failures = self.failures.saturating_add(1);
                if self.failures >= NO_SIGNAL_AFTER {
                    let n = decimal_string(self.failures as u64);
                    let a = concat("Reading - No signal (", n.as_str());
                    self.status = concat(a.as_str(), " attempts)");
                }
                GpsLoopAction::Continue
            },
            GpsReadOutcome::Failed(e) => {
                self.failures = self.failures.saturating_add(1);
                if self.failures >= RECONNECT_AFTER {
                    self.status = concat("Error - Connection issues: ", e.as_str());
                    GpsLoopAction::Reconnect
                } else {
                    GpsLoopAction::Continue
                }
            },
        }
    }

    /// Shows the position of a reading in the status.
    pub fn show_fix(&mut self, text: String)
        ensures
            final(self).spec_status() == text@,
            final(self).spec_running() == old(self).spec_running(),
            final(self).spec_failures() == old(self).spec_failures(),
    {
        self.status = text;
    }

    /// Records that the port was opened again: the failure count restarts.
    pub fn reconnected(&mut self)
        ensures
            final(self).spec_failures() == 0,
            final(self).spec_status() == old(self).spec_status(),
            final(self).spec_running() == old(self).spec_running(),
    {
        self.failures = 0;
    }

    /// Whether the status should show the age of the last reading: it is older
    /// than thirty seconds and the status reports no error.
    pub fn should_show_fix_age(&self, age_nanos: u64) -> (r: bool)
        ensures
            r == (age_nanos > 30_000_000_000 && !contains_spec(self.spec_status(), "Error"@)),
    {
        age_nanos > 30_000_000_000 && !contains(self.status.as_str(), "Error")
    }
}

} // verus!
