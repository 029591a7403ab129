//! Configuration changes ordered at run time: the commands, what each does
//! to the configuration and what it answers, and the record of past
//! commands.

use vstd::prelude::*;

use super::metadata::{find_key, key_index, keys_distinct, lemma_key_index, lookup, lookup_value, Metadata};
use crate::text::push_char;
use super::settings::{generate_uuid, is_default_config, pair_views, views, GpsConfig, OutputConfig, SiteInfo, SqliteConfig, is_random_uuid, Config, DatabaseOutputConfig, DeviceConfig, ParityConfig};
use crate::text::{
    bool_string, bool_text, chars_of, concat, decimal, decimal_string, owned, parse_bool, parse_bool_spec, parse_u32,
    parse_u64, parse_unsigned, parse_unsigned_max, str_eq, string_from_range,
};
use crate::utils::clock::{is_compact_stamp, now_compact_stamp};
use crate::utils::error::{error_message, ModbusError};

verus! {

/// The kinds of configuration command.
#[derive(Debug, Clone, Copy, PartialEq, Eq, Structural)]
pub enum ConfigCommandType {
    /// Set a parameter.
    SetValue,
    Add,
    Remove,
    Enable,
    Disable,
    Reset,
    Backup,
    Restore,
}

impl ConfigCommandType {
    /// The command's name in capitals.
    pub fn to_string(&self) -> (s: String)
        ensures
            s@ == command_type_name(*self),
    {
        match self {
            ConfigCommandType::SetValue => owned("SET"),
            ConfigCommandType::Add => owned("ADD"),
            ConfigCommandType::Remove => owned("REMOVE"),
            ConfigCommandType::Enable => owned("ENABLE"),
            ConfigCommandType::Disable => owned("DISABLE"),
            ConfigCommandType::Reset => owned("RESET"),
            ConfigCommandType::Backup => owned("BACKUP"),
            ConfigCommandType::Restore => owned("RESTORE"),
        }
    }
}

pub open spec fn command_type_name(t: ConfigCommandType) -> Seq<char> {
    match t {
        ConfigCommandType::SetValue => "SET"@,
        ConfigCommandType::Add => "ADD"@,
        ConfigCommandType::Remove => "REMOVE"@,
        ConfigCommandType::Enable => "ENABLE"@,
        ConfigCommandType::Disable => "DISABLE"@,
        ConfigCommandType::Reset => "RESET"@,
        ConfigCommandType::Backup => "BACKUP"@,
        ConfigCommandType::Restore => "RESTORE"@,
    }
}

/// What a command acts on.
#[derive(Debug, Clone)]
pub enum ConfigTarget {
    Serial,
    Monitoring,
    Site,
    System,
    Gps,
    Device { address: u8 },
    Output { output_type: String },
}

pub open spec fn target_name(t: ConfigTarget) -> Seq<char> {
    match t {
        ConfigTarget::Serial => "Serial"@,
        ConfigTarget::Device { address } => "Device["@ + decimal(address as nat) + "]"@,
        ConfigTarget::Monitoring => "Monitoring"@,
        ConfigTarget::Output { output_type } => "Output["@ + output_type@ + "]"@,
        ConfigTarget::Site => "Site"@,
        ConfigTarget::System => "System"@,
        ConfigTarget::Gps => "GPS"@,
    }
}

impl ConfigTarget {
    /// The target's name.
    pub fn to_string(&self) -> (s: String)
        ensures
            s@ == target_name(*self),
    {
        match self {
            ConfigTarget::Serial => owned("Serial"),
            ConfigTarget::Device { address } => {
                let a = decimal_string(*address as u64);
                let s = concat("Device[", a.as_str());
                concat(s.as_str(), "]")
            },
            ConfigTarget::Monitoring => owned("Monitoring"),
            ConfigTarget::Output { output_type } => {
                let s = concat("Output[", output_type.as_str());
                concat(s.as_str(), "]")
            },
            ConfigTarget::Site => owned("Site"),
            ConfigTarget::System => owned("System"),
            ConfigTarget::Gps => owned("GPS"),
        }
    }
}

/// A configuration command, as an operator sends it.
#[derive(Debug, Clone)]
pub struct ConfigurationCommand {
    pub command_id: String,
    /// When it was issued, in seconds since the Unix epoch.
    pub timestamp: i64,
    pub operator: String,
    pub command_type: ConfigCommandType,
    pub target: ConfigTarget,
    /// Named parameters, each name at most once; a handler acts on the
    /// first one.
    pub parameters: Vec<(String, String)>,
    pub apply_immediately: bool,
}

impl ConfigurationCommand {
    /// No parameter name occurs twice.
    pub open spec fn wf(&self) -> bool {
        keys_distinct(self.parameters@)
    }
}

/// The answer to a command.
#[derive(Debug, Clone)]
pub struct ConfigurationResponse {
    pub command_id: String,
    pub timestamp: i64,
    pub success: bool,
    pub message: String,
    pub old_value: Option<String>,
    pub new_value: Option<String>,
    pub requires_restart: bool,
}

/// What a handler gives: success, message, old value, new value, and whether
/// a restart is needed.
pub type CommandOutcome = (bool, String, Option<String>, Option<String>, bool);

/// The answer a handler is to give.
pub enum Answer {
    Done(bool, Seq<char>, Option<Seq<char>>, Option<Seq<char>>, bool),
    Invalid(Seq<char>),
    NotFound(Seq<char>),
    Comm(Seq<char>),
}

pub open spec fn opt_view(s: Option<String>) -> Option<Seq<char>> {
    match s {
        Some(v) => Some(v@),
        None => None,
    }
}

/// `r` is the answer `a`.
pub open spec fn answers(r: Result<CommandOutcome, ModbusError>, a: Answer) -> bool {
    match a {
        Answer::Done(s, m, o, n, x) => r matches Ok(t) && t.0 == s && t.1@ == m && opt_view(t.2) == o && opt_view(t.3)
            == n && t.4 == x,
        Answer::Invalid(m) => r matches Err(ModbusError::InvalidData(e)) && e@ == m,
        Answer::NotFound(m) => r matches Err(ModbusError::DeviceNotFound(e)) && e@ == m,
        Answer::Comm(m) => r matches Err(ModbusError::CommunicationError(e)) && e@ == m,
    }
}

/// A successful change from `old` to `new`.
pub open spec fn changed(m: Seq<char>, old: Seq<char>, new: Seq<char>, restart: bool) -> Answer {
    Answer::Done(true, m, Some(old), Some(new), restart)
}

/// A refusal that is not an error.
pub open spec fn declined(m: Seq<char>) -> Answer {
    Answer::Done(false, m, None, None, false)
}

/// The answer when no parameter was given.
pub open spec fn no_match() -> Answer {
    declined("No matching parameters found"@)
}

/// The number of bytes of `c` in UTF-8.
pub open spec fn utf8_width(c: char) -> int {
    if (c as u32) < 0x80 {
        1
    } else if (c as u32) < 0x800 {
        2
    } else if (c as u32) < 0x10000 {
        3
    } else {
        4
    }
}

/// How many characters of `s` make up its first `n` bytes, if a character
/// boundary falls there.
pub open spec fn chars_in_bytes(s: Seq<char>, n: int) -> Option<int>
    decreases s.len(),
{
    if n == 0 {
        Some(0)
    } else if s.len() == 0 || n < 0 {
        None
    } else {
        match chars_in_bytes(s.drop_first(), n - utf8_width(s[0])) {
            Some(k) => Some(k + 1),
            None => None,
        }
    }
}

/// The first eight bytes of `s` (when they end on a character boundary).
pub open spec fn first_eight_bytes(s: Seq<char>) -> Seq<char> {
    match chars_in_bytes(s, 8) {
        Some(k) => s.take(k),
        None => Seq::empty(),
    }
}

proof fn lemma_ascii_prefix(s: Seq<char>, n: int)
    requires
        0 <= n <= s.len(),
        forall|i: int| 0 <= i < n ==> (#[trigger] s[i] as u32) < 0x80,
    ensures
        chars_in_bytes(s, n) == Some(n),
    decreases s.len(),
{
    if n > 0 {
        assert(utf8_width(s[0]) == 1);
        assert forall|i: int| 0 <= i < n - 1 implies (#[trigger] s.drop_first()[i] as u32) < 0x80 by {
            assert(s.drop_first()[i] == s[i + 1]);
        }
        lemma_ascii_prefix(s.drop_first(), n - 1);
    }
}

/// The first eight bytes of `s`, which must end on a character boundary.
fn eight_byte_prefix(s: &str) -> (r: String)
    requires
        chars_in_bytes(s@, 8) is Some,
    ensures
        r@ == first_eight_bytes(s@),
{
    let v = chars_of(s);
    let mut i: usize = 0;
    let mut used: usize = 0;
    proof {
        assert(s@.skip(0) =~= s@);
    }
    while used < 8
        invariant
            v@ == s@,
            i <= v@.len(),
            used <= 8,
            chars_in_bytes(s@, 8) == match chars_in_bytes(s@.skip(i as int), 8 - used) {
                Some(k) => Some(k + i),
                None => None::<int>,
            },
            chars_in_bytes(s@, 8) is Some,
        decreases 8 - used,
    {
        proof {
            if i == v@.len() {
                assert(s@.skip(i as int).len() == 0);
                assert(chars_in_bytes(s@.skip(i as int), 8 - used) is None);
            }
            assert(s@.skip(i as int).drop_first() =~= s@.skip(i + 1));
        }
        let c = v[i];
        let w: usize = if (c as u32) < 0x80 {
            1
        } else if (c as u32) < 0x800 {
            2
        } else if (c as u32) < 0x10000 {
            3
        } else {
            4
        };
        proof {
            assert(s@.skip(i as int)[0] == c);
        }
        used = used + w;
        assert(i < v.len());
        i = i + 1;
    }
    proof {
        assert(chars_in_bytes(s@.skip(i as int), 0) == Some(0int));
    }
    string_from_range(&v, 0, i)
}

/// The code of `c` with an ASCII capital letter taken to lower case.
pub open spec fn lower_code(c: char) -> u32 {
    if 'A' <= c && c <= 'Z' {
        (c as u32 + 32) as u32
    } else {
        c as u32
    }
}

/// Whether `s` reads `word` (given in lower case) when ASCII capitals are
/// taken to lower case. For the words compared here this is what comparing
/// `s.to_lowercase()` with them gives: no other character lowers to an ASCII
/// letter of them.
pub open spec fn reads_ignoring_case(s: Seq<char>, word: Seq<char>) -> bool {
    s.len() == word.len() && forall|i: int| 0 <= i < s.len() ==> lower_code(#[trigger] s[i]) == word[i] as u32
}

/// Whether `s` reads `word` ignoring the case of ASCII letters.
pub(crate) fn equals_ignoring_case(s: &str, word: &str) -> (b: bool)
    ensures
        b == reads_ignoring_case(s@, word@),
{
    let v = chars_of(s);
    let w = chars_of(word);
    if v.len() != w.len() {
        return false;
    }
    let mut i: usize = 0;
    while i < v.len()
        invariant
            v@ == s@,
            w@ == word@,
            v@.len() == w@.len(),
            i <= v@.len(),
            forall|j: int| 0 <= j < i ==> lower_code(#[trigger] s@[j]) == word@[j] as u32,
        decreases v.len() - i,
    {
        let c = v[i];
        let code: u32 = if 'A' <= c && c <= 'Z' { (c as u32) + 32 } else { c as u32 };
        if (w[i] as u32) != code {
            return false;
        }
        i += 1;
    }
    true
}

/// The `Debug` name of a parity setting.
pub open spec fn parity_name(p: ParityConfig) -> Seq<char> {
    match p {
        ParityConfig::NoParity => "None"@,
        ParityConfig::Even => "Even"@,
        ParityConfig::Odd => "Odd"@,
    }
}

fn parity_name_string(p: ParityConfig) -> (s: String)
    ensures
        s@ == parity_name(p),
{
    match p {
        ParityConfig::NoParity => owned("None"),
        ParityConfig::Even => owned("Even"),
        ParityConfig::Odd => owned("Odd"),
    }
}

/// `'old'`-style quoting: "<what> changed from '<old>' to '<new>'".
pub open spec fn quoted_change(what: Seq<char>, old: Seq<char>, new: Seq<char>) -> Seq<char> {
    what + " changed from '"@ + old + "' to '"@ + new + "'"@
}

/// Plain style: "<what> changed from <old> to <new>".
pub open spec fn plain_change(what: Seq<char>, old: Seq<char>, new: Seq<char>) -> Seq<char> {
    what + " changed from "@ + old + " to "@ + new
}

fn quoted_change_string(what: &str, old: &str, new: &str) -> (s: String)
    ensures
        s@ == quoted_change(what@, old@, new@),
{
    let s = concat(what, " changed from '");
    let s = concat(s.as_str(), old);
    let s = concat(s.as_str(), "' to '");
    let s = concat(s.as_str(), new);
    concat(s.as_str(), "'")
}

fn plain_change_string(what: &str, old: &str, new: &str) -> (s: String)
    ensures
        s@ == plain_change(what@, old@, new@),
{
    let s = concat(what, " changed from ");
    let s = concat(s.as_str(), old);
    let s = concat(s.as_str(), " to ");
    concat(s.as_str(), new)
}

/// SET on the system: the IPC name, or a new IPC UUID.
pub open spec fn system_set(
    before: Config,
    after: Config,
    params: Seq<(String, String)>,
    r: Result<CommandOutcome, ModbusError>,
) -> bool {
    if params.len() == 0 {
        after == before && answers(r, no_match())
    } else {
        let k = params[0].0@;
        let v = params[0].1;
        if k == "ipc_name"@ {
            &&& after == (Config { ipc_name: v, ..before })
            &&& answers(
                r,
                changed(
                    "IPC name updated from '"@ + before.ipc_name@ + "' to '"@ + v@ + "'"@,
                    before.ipc_name@,
                    v@,
                    false,
                ),
            )
        } else if k == "regenerate_ipc_uuid"@ {
            &&& is_random_uuid(after.ipc_uuid@)
            &&& after == (Config { ipc_uuid: after.ipc_uuid, ..before })
            &&& answers(
                r,
                changed(
                    "IPC UUID regenerated: "@ + first_eight_bytes(before.ipc_uuid@) + " -> "@ + first_eight_bytes(
                        after.ipc_uuid@,
                    ),
                    before.ipc_uuid@,
                    after.ipc_uuid@,
                    true,
                ),
            )
        } else {
            after == before && answers(r, declined("Unknown system parameter: "@ + k))
        }
    }
}

/// SET on monitoring: polling interval (1 to 3600 seconds), retries, delay.
pub open spec fn monitoring_set(
    before: Config,
    after: Config,
    params: Seq<(String, String)>,
    r: Result<CommandOutcome, ModbusError>,
) -> bool {
    if params.len() == 0 {
        after == before && answers(r, no_match())
    } else {
        let k = params[0].0@;
        let v = params[0].1@;
        if k == "update_interval_seconds"@ {
            match parse_unsigned(v, u64::MAX as nat) {
                None => after == before && answers(r, Answer::Invalid("Invalid interval value"@)),
                Some(n) => if n < 1 || n > 3600 {
                    after == before && answers(r, declined("Interval must be between 1 and 3600 seconds"@))
                } else {
                    &&& after == (Config { update_interval_seconds: n as u64, ..before })
                    &&& answers(
                        r,
                        changed(
                            "Polling interval updated from "@ + decimal(before.update_interval_seconds as nat) + " to "@
                                + decimal(n) + " seconds"@,
                            decimal(before.update_interval_seconds as nat),
                            v,
                            false,
                        ),
                    )
                },
            }
        } else if k == "max_retries"@ {
            match parse_unsigned(v, u32::MAX as nat) {
                None => after == before && answers(r, Answer::Invalid("Invalid retry count"@)),
                Some(n) => {
                    &&& after == (Config { max_retries: n as u32, ..before })
                    &&& answers(
                        r,
                        changed(
                            "Max retries updated from "@ + decimal(before.max_retries as nat) + " to "@ + decimal(n),
                            decimal(before.max_retries as nat),
                            v,
                            false,
                        ),
                    )
                },
            }
        } else if k == "retry_delay_ms"@ {
            match parse_unsigned(v, u64::MAX as nat) {
                None => after == before && answers(r, Answer::Invalid("Invalid delay value"@)),
                Some(n) => {
                    &&& after == (Config { retry_delay_ms: n as u64, ..before })
                    &&& answers(
                        r,
                        changed(
                            "Retry delay updated from "@ + decimal(before.retry_delay_ms as nat) + " to "@ + decimal(n)
                                + " ms"@,
                            decimal(before.retry_delay_ms as nat),
                            v,
                            false,
                        ),
                    )
                },
            }
        } else {
            after == before && answers(r, declined("Unknown monitoring parameter: "@ + k))
        }
    }
}

/// The parity a text names, ignoring case: "none", "even" or "odd".
pub open spec fn parity_named(v: Seq<char>) -> Option<ParityConfig> {
    if reads_ignoring_case(v, "none"@) {
        Some(ParityConfig::NoParity)
    } else if reads_ignoring_case(v, "even"@) {
        Some(ParityConfig::Even)
    } else if reads_ignoring_case(v, "odd"@) {
        Some(ParityConfig::Odd)
    } else {
        None
    }
}

/// SET on the serial link: port, baud rate, parity; each needs a restart.
pub open spec fn serial_set(
    before: Config,
    after: Config,
    params: Seq<(String, String)>,
    r: Result<CommandOutcome, ModbusError>,
) -> bool {
    if params.len() == 0 {
        after == before && answers(r, no_match())
    } else {
        let k = params[0].0@;
        let v = params[0].1;
        if k == "port"@ {
            &&& after == (Config { serial_port: v, ..before })
            &&& answers(
                r,
                changed(plain_change("Serial port"@, before.serial_port@, v@), before.serial_port@, v@, true),
            )
        } else if k == "baud_rate"@ {
            match parse_unsigned(v@, u32::MAX as nat) {
                None => after == before && answers(r, Answer::Invalid("Invalid baud rate"@)),
                Some(n) => {
                    &&& after == (Config { baud_rate: n as u32, ..before })
                    &&& answers(
                        r,
                        changed(
                            plain_change("Baud rate"@, decimal(before.baud_rate as nat), v@),
                            decimal(before.baud_rate as nat),
                            v@,
                            true,
                        ),
                    )
                },
            }
        } else if k == "parity"@ {
            match parity_named(v@) {
                None => after == before && answers(r, Answer::Invalid("Invalid parity value"@)),
                Some(p) => {
                    &&& after == (Config { parity: p, ..before })
                    &&& answers(
                        r,
                        changed(
                            plain_change("Parity"@, parity_name(before.parity), v@),
                            parity_name(before.parity),
                            v@,
                            true,
                        ),
                    )
                },
            }
        } else {
            after == before && answers(r, Answer::Invalid("Unknown serial parameter: "@ + k))
        }
    }
}

/// The baud rates a GPS receiver may use.
pub open spec fn is_gps_baud(n: nat) -> bool {
    n == 4800 || n == 9600 || n == 19200 || n == 38400 || n == 57600 || n == 115200
}

/// SET on the GPS: enabled, port, baud rate, auto start.
pub open spec fn gps_set(
    before: Config,
    after: Config,
    params: Seq<(String, String)>,
    r: Result<CommandOutcome, ModbusError>,
) -> bool {
    if params.len() == 0 {
        after == before && answers(r, no_match())
    } else {
        let k = params[0].0@;
        let v = params[0].1;
        if k == "enabled"@ {
            match parse_bool_spec(v@) {
                None => after == before && answers(r, Answer::Invalid("Invalid boolean value for GPS enabled"@)),
                Some(b) => {
                    &&& after == (Config { gps: GpsConfig { enabled: b, ..before.gps }, ..before })
                    &&& answers(
                        r,
                        changed(
                            plain_change("GPS enabled"@, bool_text(before.gps.enabled), bool_text(b)),
                            bool_text(before.gps.enabled),
                            v@,
                            false,
                        ),
                    )
                },
            }
        } else if k == "port"@ {
            &&& after == (Config { gps: GpsConfig { port: v, ..before.gps }, ..before })
            &&& answers(r, changed(quoted_change("GPS port"@, before.gps.port@, v@), before.gps.port@, v@, true))
        } else if k == "baud_rate"@ {
            match parse_unsigned(v@, u32::MAX as nat) {
                None => after == before && answers(r, Answer::Invalid("Invalid baud rate for GPS"@)),
                Some(n) => if !is_gps_baud(n) {
                    &&& after == before
                    &&& answers(
                        r,
                        declined(
                            "Invalid GPS baud rate: "@ + decimal(n)
                                + ". Supported: 4800, 9600, 19200, 38400, 57600, 115200"@,
                        ),
                    )
                } else {
                    &&& after == (Config { gps: GpsConfig { baud_rate: n as u32, ..before.gps }, ..before })
                    &&& answers(
                        r,
                        changed(
                            plain_change("GPS baud rate"@, decimal(before.gps.baud_rate as nat), decimal(n)),
                            decimal(before.gps.baud_rate as nat),
                            v@,
                            true,
                        ),
                    )
                },
            }
        } else if k == "auto_start"@ {
            match parse_bool_spec(v@) {
                None => after == before && answers(r, Answer::Invalid("Invalid boolean value for GPS auto_start"@)),
                Some(b) => {
                    &&& after == (Config { gps: GpsConfig { auto_start: b, ..before.gps }, ..before })
                    &&& answers(
                        r,
                        changed(
                            plain_change("GPS auto start"@, bool_text(before.gps.auto_start), bool_text(b)),
                            bool_text(before.gps.auto_start),
                            v@,
                            false,
                        ),
                    )
                },
            }
        } else {
            &&& after == before
            &&& answers(
                r,
                declined("Unknown GPS parameter: "@ + k + ". Available: enabled, port, baud_rate, auto_start"@),
            )
        }
    }
}

/// The answer "<what> updated from '<old>' to '<new>'" (or another verb).
fn changed_outcome(message: String, old: String, new: String, restart: bool) -> (r: Result<CommandOutcome, ModbusError>)
    ensures
        answers(r, changed(message@, old@, new@, restart)),
{
    Ok((true, message, Some(old), Some(new), restart))
}

fn declined_outcome(message: String) -> (r: Result<CommandOutcome, ModbusError>)
    ensures
        answers(r, declined(message@)),
{
    Ok((false, message, None, None, false))
}

fn invalid(message: String) -> (r: Result<CommandOutcome, ModbusError>)
    ensures
        answers(r, Answer::Invalid(message@)),
{
    Err(ModbusError::InvalidData(message))
}

/// SET on the system.
fn set_system(config: &mut Config, params: &Vec<(String, String)>) -> (r: Result<CommandOutcome, ModbusError>)
    requires
        params@.len() > 0 && params@[0].0@ == "regenerate_ipc_uuid"@ ==> chars_in_bytes(old(config).ipc_uuid@, 8) is Some,
    ensures
        system_set(*old(config), *final(config), params@, r),
{
    if params.len() == 0 {
        return declined_outcome(owned("No matching parameters found"));
    }
    let key = params[0].0.as_str();
    let value = &params[0].1;
    if str_eq(key, "ipc_name") {
        let old_value = owned(config.get_ipc_name());
        config.set_ipc_name(value.clone());
        let m = concat("IPC name updated from '", old_value.as_str());
        let m = concat(m.as_str(), "' to '");
        let m = concat(m.as_str(), value.as_str());
        let m = concat(m.as_str(), "'");
        changed_outcome(m, old_value, value.clone(), false)
    } else if str_eq(key, "regenerate_ipc_uuid") {
        let old_uuid = owned(config.get_ipc_uuid());
        config.regenerate_ipc_uuid();
        let new_uuid = owned(config.get_ipc_uuid());
        proof {
            assert forall|i: int| 0 <= i < 8 implies (#[trigger] new_uuid@[i] as u32) < 0x80 by {
                assert(is_random_uuid(new_uuid@));
                if i != 8 {
                    assert(crate::config::settings::is_lower_hex(new_uuid@[i]));
                }
            }
            lemma_ascii_prefix(new_uuid@, 8);
        }
        let a = eight_byte_prefix(old_uuid.as_str());
        let b = eight_byte_prefix(new_uuid.as_str());
        let m = concat("IPC UUID regenerated: ", a.as_str());
        let m = concat(m.as_str(), " -> ");
        let m = concat(m.as_str(), b.as_str());
        changed_outcome(m, old_uuid, new_uuid, true)
    } else {
        declined_outcome(concat("Unknown system parameter: ", key))
    }
}

/// SET on monitoring.
fn set_monitoring(config: &mut Config, params: &Vec<(String, String)>) -> (r: Result<CommandOutcome, ModbusError>)
    ensures
        monitoring_set(*old(config), *final(config), params@, r),
{
    if params.len() == 0 {
        return declined_outcome(owned("No matching parameters found"));
    }
    let key = params[0].0.as_str();
    let value = &params[0].1;
    if str_eq(key, "update_interval_seconds") {
        match parse_u64(value.as_str()) {
            None => invalid(owned("Invalid interval value")),
            Some(n) => {
                if n < 1 || n > 3600 {
                    return declined_outcome(owned("Interval must be between 1 and 3600 seconds"));
                }
                let old_value = decimal_string(config.update_interval_seconds);
                config.update_interval_seconds = n;
                let m = concat("Polling interval updated from ", old_value.as_str());
                let m = concat(m.as_str(), " to ");
                let d = decimal_string(n);
                let m = concat(m.as_str(), d.as_str());
                let m = concat(m.as_str(), " seconds");
                changed_outcome(m, old_value, value.clone(), false)
            },
        }
    } else if str_eq(key, "max_retries") {
        match parse_u32(value.as_str()) {
            None => invalid(owned("Invalid retry count")),
            Some(n) => {
                let old_value = decimal_string(config.max_retries as u64);
                config.max_retries = n;
                let m = concat("Max retries updated from ", old_value.as_str());
                let m = concat(m.as_str(), " to ");
                let d = decimal_string(n as u64);
                let m = concat(m.as_str(), d.as_str());
                changed_outcome(m, old_value, value.clone(), false)
            },
        }
    } else if str_eq(key, "retry_delay_ms") {
        match parse_u64(value.as_str()) {
            None => invalid(owned("Invalid delay value")),
            Some(n) => {
                let old_value = decimal_string(config.retry_delay_ms);
                config.retry_delay_ms = n;
                let m = concat("Retry delay updated from ", old_value.as_str());
                let m = concat(m.as_str(), " to ");
                let d = decimal_string(n);
                let m = concat(m.as_str(), d.as_str());
                let m = concat(m.as_str(), " ms");
                changed_outcome(m, old_value, value.clone(), false)
            },
        }
    } else {
        declined_outcome(concat("Unknown monitoring parameter: ", key))
    }
}

/// SET on the serial link.
fn set_serial(config: &mut Config, params: &Vec<(String, String)>) -> (r: Result<CommandOutcome, ModbusError>)
    ensures
        serial_set(*old(config), *final(config), params@, r),
{
    if params.len() == 0 {
        return declined_outcome(owned("No matching parameters found"));
    }
    let key = params[0].0.as_str();
    let value = &params[0].1;
    if str_eq(key, "port") {
        let old_value = config.serial_port.clone();
        config.serial_port = value.clone();
        let m = plain_change_string("Serial port", old_value.as_str(), value.as_str());
        changed_outcome(m, old_value, value.clone(), true)
    } else if str_eq(key, "baud_rate") {
        let old_value = decimal_string(config.baud_rate as u64);
        match parse_u32(value.as_str()) {
            None => invalid(owned("Invalid baud rate")),
            Some(n) => {
                config.baud_rate = n;
                let m = plain_change_string("Baud rate", old_value.as_str(), value.as_str());
                changed_outcome(m, old_value, value.clone(), true)
            },
        }
    } else if str_eq(key, "parity") {
        let old_value = parity_name_string(config.parity);
        let parity = if equals_ignoring_case(value.as_str(), "none") {
            ParityConfig::NoParity
        } else if equals_ignoring_case(value.as_str(), "even") {
            ParityConfig::Even
        } else if equals_ignoring_case(value.as_str(), "odd") {
            ParityConfig::Odd
        } else {
            return invalid(owned("Invalid parity value"));
        };
        config.parity = parity;
        let m = plain_change_string("Parity", old_value.as_str(), value.as_str());
        changed_outcome(m, old_value, value.clone(), true)
    } else {
        invalid(concat("Unknown serial parameter: ", key))
    }
}

/// SET on the GPS.
fn set_gps(config: &mut Config, params: &Vec<(String, String)>) -> (r: Result<CommandOutcome, ModbusError>)
    ensures
        gps_set(*old(config), *final(config), params@, r),
{
    if params.len() == 0 {
        return declined_outcome(owned("No matching parameters found"));
    }
    let key = params[0].0.as_str();
    let value = &params[0].1;
    if str_eq(key, "enabled") {
        match parse_bool(value.as_str()) {
            None => invalid(owned("Invalid boolean value for GPS enabled")),
            Some(b) => {
                let old_value = bool_string(config.gps.enabled);
                config.gps.enabled = b;
                let new_text = bool_string(b);
                let m = plain_change_string("GPS enabled", old_value.as_str(), new_text.as_str());
                changed_outcome(m, old_value, value.clone(), false)
            },
        }
    } else if str_eq(key, "port") {
        let old_value = config.gps.port.clone();
        config.gps.port = value.clone();
        let m = quoted_change_string("GPS port", old_value.as_str(), value.as_str());
        changed_outcome(m, old_value, value.clone(), true)
    } else if str_eq(key, "baud_rate") {
        match parse_u32(value.as_str()) {
            None => invalid(owned("Invalid baud rate for GPS")),
            Some(n) => {
                if !(n == 4800 || n == 9600 || n == 19200 || n == 38400 || n == 57600 || n == 115200) {
                    let d = decimal_string(n as u64);
                    let m = concat("Invalid GPS baud rate: ", d.as_str());
                    return declined_outcome(
                        concat(m.as_str(), ". Supported: 4800, 9600, 19200, 38400, 57600, 115200"),
                    );
                }
                let old_value = decimal_string(config.gps.baud_rate as u64);
                config.gps.baud_rate = n;
                let new_text = decimal_string(n as u64);
                let m = plain_change_string("GPS baud rate", old_value.as_str(), new_text.as_str());
                changed_outcome(m, old_value, value.clone(), true)
            },
        }
    } else if str_eq(key, "auto_start") {
        match parse_bool(value.as_str()) {
            None => invalid(owned("Invalid boolean value for GPS auto_start")),
            Some(b) => {
                let old_value = bool_string(config.gps.auto_start);
                config.gps.auto_start = b;
                let new_text = bool_string(b);
                let m = plain_change_string("GPS auto start", old_value.as_str(), new_text.as_str());
                changed_outcome(m, old_value, value.clone(), false)
            },
        }
    } else {
        let m = concat("Unknown GPS parameter: ", key);
        declined_outcome(concat(m.as_str(), ". Available: enabled, port, baud_rate, auto_start"))
    }
}

/// The position of the first device at `address`.
pub open spec fn device_position(devs: Seq<DeviceConfig>, address: u8) -> Option<int>
    decreases devs.len(),
{
    if devs.len() == 0 {
        None
    } else if devs[0].address == address {
        Some(0)
    } else {
        match device_position(devs.drop_first(), address) {
            Some(i) => Some(i + 1),
            None => None,
        }
    }
}

proof fn lemma_device_position(devs: Seq<DeviceConfig>, address: u8)
    ensures
        match device_position(devs, address) {
            Some(i) => 0 <= i < devs.len() && devs[i].address == address && forall|j: int|
                0 <= j < i ==> devs[j].address != address,
            None => forall|j: int| 0 <= j < devs.len() ==> devs[j].address != address,
        },
    decreases devs.len(),
{
    if devs.len() > 0 {
        lemma_device_position(devs.drop_first(), address);
        if devs[0].address != address {
            match device_position(devs.drop_first(), address) {
                Some(i) => {
                    assert forall|j: int| 0 <= j < i + 1 implies devs[j].address != address by {
                        if j > 0 {
                            assert(devs[j] == devs.drop_first()[j - 1]);
                        }
                    }
                },
                None => {
                    assert forall|j: int| 0 <= j < devs.len() implies devs[j].address != address by {
                        if j > 0 {
                            assert(devs[j] == devs.drop_first()[j - 1]);
                        }
                    }
                },
            }
        }
    }
}

/// The position of the first device at `address`.
fn find_device(devs: &Vec<DeviceConfig>, address: u8) -> (r: Option<usize>)
    ensures
        r matches Some(j) ==> device_position(devs@, address) == Some(j as int),
        r is None ==> device_position(devs@, address) is None,
{
    proof {
        lemma_device_position(devs@, address);
    }
    let mut i: usize = 0;
    while i < devs.len()
        invariant
            i <= devs@.len(),
            forall|j: int| 0 <= j < i ==> devs@[j].address != address,
        decreases devs.len() - i,
    {
        if devs[i].address == address {
            proof {
                lemma_device_position(devs@, address);
                match device_position(devs@, address) {
                    Some(k) => {
                        if k < i {
                            assert(devs@[k].address != address);
                        }
                        if k > i {
                            assert(devs@[i as int].address != address);
                        }
                    },
                    None => {
                        assert(devs@[i as int].address != address);
                    },
                }
            }
            return Some(i);
        }
        i += 1;
    }
    proof {
        lemma_device_position(devs@, address);
    }
    None
}

/// `after` is `before` with device `i` replaced by `d`.
pub open spec fn device_replaced(before: Config, after: Config, i: int, d: DeviceConfig) -> bool {
    &&& after == (Config { devices: after.devices, ..before })
    &&& after.devices@ == before.devices@.update(i, d)
}

/// `after` holds `value` under `key` and every other entry of `before`.
pub open spec fn note_set(before: Metadata, after: Metadata, key: Seq<char>, value: Seq<char>) -> bool {
    &&& after.spec_get(key) == Some(value)
    &&& forall|k: Seq<char>| k != key ==> #[trigger] after.spec_get(k) == before.spec_get(k)
}

/// The value of `key` in `m`, or "none".
pub open spec fn note_or_none(m: Metadata, key: Seq<char>) -> Seq<char> {
    match m.spec_get(key) {
        Some(v) => v,
        None => "none"@,
    }
}

/// SET on a device: name, location, polling interval, or a metadata entry.
pub open spec fn device_set(
    before: Config,
    after: Config,
    address: u8,
    params: Seq<(String, String)>,
    r: Result<CommandOutcome, ModbusError>,
) -> bool {
    match device_position(before.devices@, address) {
        None => after == before && answers(
            r,
            Answer::NotFound("Device with address "@ + decimal(address as nat) + " not found"@),
        ),
        Some(i) => if params.len() == 0 {
            after == before && answers(r, no_match())
        } else {
            let d = before.devices@[i];
            let k = params[0].0@;
            let v = params[0].1;
            let who = "Device "@ + decimal(address as nat);
            if k == "name"@ {
                &&& device_replaced(before, after, i, DeviceConfig { name: v, ..d })
                &&& answers(r, changed(quoted_change(who + " name"@, d.name@, v@), d.name@, v@, false))
            } else if k == "location"@ {
                &&& device_replaced(before, after, i, DeviceConfig { location: v, ..d })
                &&& answers(r, changed(quoted_change(who + " location"@, d.location@, v@), d.location@, v@, false))
            } else if k == "polling_interval"@ {
                let old = match d.polling_interval {
                    Some(x) => decimal(x as nat),
                    None => "none"@,
                };
                match parse_unsigned(v@, u64::MAX as nat) {
                    None => after == before && answers(r, Answer::Invalid("Invalid polling interval"@)),
                    Some(n) => {
                        &&& device_replaced(before, after, i, DeviceConfig { polling_interval: Some(n as u64), ..d })
                        &&& answers(r, changed(plain_change(who + " polling interval"@, old, v@), old, v@, false))
                    },
                }
            } else {
                let old = note_or_none(d.metadata, k);
                &&& device_replaced(before, after, i, DeviceConfig { metadata: after.devices@[i].metadata, ..d })
                &&& note_set(d.metadata, after.devices@[i].metadata, k, v@)
                &&& answers(r, changed(quoted_change(who + " metadata '"@ + k + "'"@, old, v@), old, v@, false))
            }
        },
    }
}

/// SET on the site: name, operator, or a metadata entry.
pub open spec fn site_set(
    before: Config,
    after: Config,
    params: Seq<(String, String)>,
    r: Result<CommandOutcome, ModbusError>,
) -> bool {
    if params.len() == 0 {
        after == before && answers(r, no_match())
    } else {
        let k = params[0].0@;
        let v = params[0].1;
        let s = before.site_info;
        if k == "site_name"@ {
            &&& after == (Config { site_info: SiteInfo { site_name: v, ..s }, ..before })
            &&& answers(r, changed(quoted_change("Site name"@, s.site_name@, v@), s.site_name@, v@, false))
        } else if k == "operator"@ {
            &&& after == (Config { site_info: SiteInfo { operator: v, ..s }, ..before })
            &&& answers(r, changed(quoted_change("Operator"@, s.operator@, v@), s.operator@, v@, false))
        } else {
            let old = note_or_none(s.metadata, k);
            &&& after == (Config { site_info: SiteInfo { metadata: after.site_info.metadata, ..s }, ..before })
            &&& note_set(s.metadata, after.site_info.metadata, k, v@)
            &&& answers(r, changed(quoted_change("Site metadata '"@ + k + "'"@, old, v@), old, v@, false))
        }
    }
}

/// Every field of the database output has its default value.
pub open spec fn default_database_output(d: DatabaseOutputConfig) -> bool {
    &&& d.enabled
    &&& d.batch_size == 100
    &&& d.flush_interval_seconds == 60
    &&& d.sqlite_config.database_path@ == "data/sensor_data.db"@
    &&& d.sqlite_config.max_connections == 5
    &&& d.sqlite_config.connection_timeout_seconds == 30
    &&& !d.sqlite_config.enable_wal
    &&& d.sqlite_config.cache_size == 2000
    &&& d.sqlite_config.auto_vacuum
    &&& d.sqlite_config.batch_size == 500
    &&& d.sqlite_config.busy_timeout_ms == 30000
    &&& !d.sqlite_config.wal_mode
    &&& d.sqlite_config.sync_mode@ == "OFF"@
    &&& d.sqlite_config.cache_size_kb == 2000
}

/// `after` is `before` with the database output `d`, which is the old one
/// (or, when there was none, the default one) with one field changed, given
/// as `d` with that field put back.
pub open spec fn database_changed(before: Config, after: Config, d: DatabaseOutputConfig, d_restored: DatabaseOutputConfig) -> bool {
    &&& after == (Config { output: OutputConfig { database_output: Some(d), ..before.output }, ..before })
    &&& match before.output.database_output {
        Some(d0) => d_restored == d0,
        None => default_database_output(d_restored),
    }
}

/// The database output the change starts from.
pub open spec fn base_enabled(before: Config) -> bool {
    match before.output.database_output {
        Some(d0) => d0.enabled,
        None => true,
    }
}

/// SET on an output: only the database output, whose enabled flag, batch
/// size and flush interval can be set.
pub open spec fn output_set(
    before: Config,
    after: Config,
    output_type: Seq<char>,
    params: Seq<(String, String)>,
    r: Result<CommandOutcome, ModbusError>,
) -> bool {
    if output_type != "database"@ {
        after == before && answers(r, Answer::Invalid("Unknown output type: "@ + output_type))
    } else if params.len() == 0 {
        after == before && answers(r, no_match())
    } else {
        let k = params[0].0@;
        let v = params[0].1@;
        let d = after.output.database_output->0;
        if k == "enabled"@ {
            match parse_bool_spec(v) {
                None => after == before && answers(r, Answer::Invalid("Invalid boolean value"@)),
                Some(b) => {
                    &&& after.output.database_output is Some
                    &&& d.enabled == b
                    &&& database_changed(before, after, d, DatabaseOutputConfig { enabled: base_enabled(before), ..d })
                    &&& answers(r, Answer::Done(true, "Database enabled set to: "@ + bool_text(b), None, Some(v), false))
                },
            }
        } else if k == "batch_size"@ {
            match parse_unsigned(v, usize::MAX as nat) {
                None => after == before && answers(r, Answer::Invalid("Invalid batch size"@)),
                Some(n) => {
                    &&& after.output.database_output is Some
                    &&& d.batch_size == n
                    &&& database_changed(before, after, d, DatabaseOutputConfig {
                        batch_size: match before.output.database_output {
                            Some(d0) => d0.batch_size,
                            None => 100,
                        },
                        ..d
                    })
                    &&& answers(r, Answer::Done(true, "Database batch_size set to: "@ + decimal(n), None, Some(v), false))
                },
            }
        } else if k == "flush_interval_seconds"@ {
            match parse_unsigned(v, u64::MAX as nat) {
                None => after == before && answers(r, Answer::Invalid("Invalid flush interval"@)),
                Some(n) => {
                    &&& after.output.database_output is Some
                    &&& d.flush_interval_seconds == n
                    &&& database_changed(before, after, d, DatabaseOutputConfig {
                        flush_interval_seconds: match before.output.database_output {
                            Some(d0) => d0.flush_interval_seconds,
                            None => 60,
                        },
                        ..d
                    })
                    &&& answers(
                        r,
                        Answer::Done(true, "Database flush_interval_seconds set to: "@ + decimal(n), None, Some(v), false),
                    )
                },
            }
        } else {
            after == before && answers(r, Answer::Invalid("Unknown database parameter: "@ + k))
        }
    }
}

/// SET on a device.
fn set_device(config: &mut Config, address: u8, params: &Vec<(String, String)>) -> (r: Result<CommandOutcome, ModbusError>)
    ensures
        device_set(*old(config), *final(config), address, params@, r),
{
    proof {
        lemma_device_position(config.devices@, address);
    }
    let found = find_device(&config.devices, address);
    let i = match found {
        Some(i) => i,
        None => {
            let a = decimal_string(address as u64);
            let m = concat("Device with address ", a.as_str());
            return Err(ModbusError::DeviceNotFound(concat(m.as_str(), " not found")));
        },
    };
    if params.len() == 0 {
        return declined_outcome(owned("No matching parameters found"));
    }
    let key = params[0].0.as_str();
    let value = &params[0].1;
    let a = decimal_string(address as u64);
    let who = concat("Device ", a.as_str());
    proof {
        reveal_strlit("name");
        reveal_strlit("location");
        reveal_strlit("polling_interval");
    }
    if str_eq(key, "polling_interval") && parse_u64(value.as_str()).is_none() {
        return invalid(owned("Invalid polling interval"));
    }
    let removed = config.devices.remove(i);
    let ghost before = *old(config);
    let ghost d = before.devices@[i as int];
    proof {
        assert(removed == d);
        lemma_device_position(before.devices@, address);
        assert(found == Some(i));
        assert(device_position(before.devices@, address) == Some(i as int));
    }
    if str_eq(key, "name") {
        let what = concat(who.as_str(), " name");
        let m = quoted_change_string(what.as_str(), removed.name.as_str(), value.as_str());
        let old_value = removed.name;
        config.devices.insert(i, DeviceConfig { name: value.clone(), ..removed });
        proof {
            assert(config.devices@ =~= before.devices@.update(i as int, DeviceConfig { name: *value, ..d }));
        }
        changed_outcome(m, old_value, value.clone(), false)
    } else if str_eq(key, "location") {
        let what = concat(who.as_str(), " location");
        let m = quoted_change_string(what.as_str(), removed.location.as_str(), value.as_str());
        let old_value = removed.location;
        config.devices.insert(i, DeviceConfig { location: value.clone(), ..removed });
        proof {
            assert(config.devices@ =~= before.devices@.update(i as int, DeviceConfig { location: *value, ..d }));
        }
        changed_outcome(m, old_value, value.clone(), false)
    } else if str_eq(key, "polling_interval") {
        let old_value = match removed.polling_interval {
            Some(x) => decimal_string(x),
            None => owned("none"),
        };
        match parse_u64(value.as_str()) {
            None => {
                proof {
                    assert(false);
                }
                invalid(owned("Invalid polling interval"))
            },
            Some(n) => {
                let what = concat(who.as_str(), " polling interval");
                let m = plain_change_string(what.as_str(), old_value.as_str(), value.as_str());
                config.devices.insert(i, DeviceConfig { polling_interval: Some(n), ..removed });
                proof {
                    assert(config.devices@ =~= before.devices@.update(
                        i as int,
                        DeviceConfig { polling_interval: Some(n), ..d },
                    ));
                }
                changed_outcome(m, old_value, value.clone(), false)
            },
        }
    } else {
        let old_value = match removed.metadata.get(key) {
            Some(v) => v,
            None => owned("none"),
        };
        let what = concat(who.as_str(), " metadata '");
        let what = concat(what.as_str(), key);
        let what = concat(what.as_str(), "'");
        let m = quoted_change_string(what.as_str(), old_value.as_str(), value.as_str());
        let mut dev = removed;
        dev.metadata.insert(params[0].0.clone(), value.clone());
        let ghost new_meta = dev.metadata;
        config.devices.insert(i, dev);
        proof {
            assert(config.devices@ =~= before.devices@.update(i as int, DeviceConfig { metadata: new_meta, ..d }));
        }
        changed_outcome(m, old_value, value.clone(), false)
    }
}

/// SET on the site.
fn set_site(config: &mut Config, params: &Vec<(String, String)>) -> (r: Result<CommandOutcome, ModbusError>)
    ensures
        site_set(*old(config), *final(config), params@, r),
{
    if params.len() == 0 {
        return declined_outcome(owned("No matching parameters found"));
    }
    let key = params[0].0.as_str();
    let value = &params[0].1;
    if str_eq(key, "site_name") {
        let old_value = config.site_info.site_name.clone();
        config.site_info.site_name = value.clone();
        let m = quoted_change_string("Site name", old_value.as_str(), value.as_str());
        changed_outcome(m, old_value, value.clone(), false)
    } else if str_eq(key, "operator") {
        let old_value = config.site_info.operator.clone();
        config.site_info.operator = value.clone();
        let m = quoted_change_string("Operator", old_value.as_str(), value.as_str());
        changed_outcome(m, old_value, value.clone(), false)
    } else {
        let old_value = match config.site_info.metadata.get(key) {
            Some(v) => v,
            None => owned("none"),
        };
        config.site_info.metadata.insert(params[0].0.clone(), value.clone());
        let what = concat("Site metadata '", key);
        let what = concat(what.as_str(), "'");
        let m = quoted_change_string(what.as_str(), old_value.as_str(), value.as_str());
        changed_outcome(m, old_value, value.clone(), false)
    }
}

/// The database output to change: the present one, or the default one.
fn take_database_output(config: &mut Config) -> (d: DatabaseOutputConfig)
    ensures
        *final(config) == (Config {
            output: OutputConfig { database_output: None, ..old(config).output },
            ..*old(config)
        }),
        match old(config).output.database_output {
            Some(d0) => d == d0,
            None => default_database_output(d),
        },
{
    match config.output.database_output.take() {
        Some(d) => d,
        None => DatabaseOutputConfig::default(),
    }
}

/// SET on an output.
fn set_output(config: &mut Config, output_type: &String, params: &Vec<(String, String)>) -> (r: Result<
    CommandOutcome,
    ModbusError,
>)
    ensures
        output_set(*old(config), *final(config), output_type@, params@, r),
{
    if !str_eq(output_type.as_str(), "database") {
        return invalid(concat("Unknown output type: ", output_type.as_str()));
    }
    if params.len() == 0 {
        return declined_outcome(owned("No matching parameters found"));
    }
    let key = params[0].0.as_str();
    let value = &params[0].1;
    if str_eq(key, "enabled") {
        match parse_bool(value.as_str()) {
            None => invalid(owned("Invalid boolean value")),
            Some(b) => {
                let mut d = take_database_output(config);
                d.enabled = b;
                config.output.database_output = Some(d);
                let t = bool_string(b);
                Ok((true, concat("Database enabled set to: ", t.as_str()), None, Some(value.clone()), false))
            },
        }
    } else if str_eq(key, "batch_size") {
        match parse_unsigned_max(value.as_str(), usize::MAX as u64) {
            None => invalid(owned("Invalid batch size")),
            Some(n) => {
                let mut d = take_database_output(config);
                d.batch_size = n as usize;
                config.output.database_output = Some(d);
                let t = decimal_string(n);
                Ok((true, concat("Database batch_size set to: ", t.as_str()), None, Some(value.clone()), false))
            },
        }
    } else if str_eq(key, "flush_interval_seconds") {
        match parse_u64(value.as_str()) {
            None => invalid(owned("Invalid flush interval")),
            Some(n) => {
                let mut d = take_database_output(config);
                d.flush_interval_seconds = n;
                config.output.database_output = Some(d);
                let t = decimal_string(n);
                Ok(
                    (
                        true,
                        concat("Database flush_interval_seconds set to: ", t.as_str()),
                        None,
                        Some(value.clone()),
                        false,
                    ),
                )
            },
        }
    } else {
        invalid(concat("Unknown database parameter: ", key))
    }
}

/// The keys of a new device's description; every other parameter becomes
/// an entry of its metadata.
pub open spec fn core_key(k: Seq<char>) -> bool {
    k == "device_type"@ || k == "name"@ || k == "location"@
}

/// The parameters that become metadata, in order.
pub open spec fn metadata_params(params: Seq<(Seq<char>, Seq<char>)>) -> Seq<(Seq<char>, Seq<char>)> {
    params.filter(|p: (Seq<char>, Seq<char>)| !core_key(p.0))
}

/// Whether some entry of `s` has the key `k`.
pub open spec fn has_key(s: Seq<(Seq<char>, Seq<char>)>, k: Seq<char>) -> bool {
    exists|i: int| 0 <= i < s.len() && (#[trigger] s[i]).0 == k
}

/// The entries of `s` whose key has not come before: the first entry of each
/// key, in order.
pub open spec fn first_entries(s: Seq<(Seq<char>, Seq<char>)>) -> Seq<(Seq<char>, Seq<char>)>
    decreases s.len(),
{
    if s.len() == 0 {
        s
    } else if has_key(first_entries(s.drop_last()), s.last().0) {
        first_entries(s.drop_last())
    } else {
        first_entries(s.drop_last()).push(s.last())
    }
}

/// Where the views of `entries` are taken, a key is found exactly where it
/// occurs.
proof fn lemma_has_key_views(entries: Seq<(String, String)>, k: Seq<char>)
    ensures
        has_key(pair_views(entries), k) <==> key_index(entries, k) is Some,
{
    lemma_key_index(entries, k);
    let v = pair_views(entries);
    if key_index(entries, k) is Some {
        let i = key_index(entries, k)->0;
        assert(v[i].0 == k);
    }
    if has_key(v, k) {
        let i = choose|i: int| 0 <= i < v.len() && (#[trigger] v[i]).0 == k;
        assert(entries[i].0@ == k);
    }
}

/// The value of parameter `key`, or `default`.
pub open spec fn param_or(params: Seq<(String, String)>, key: Seq<char>, default: Seq<char>) -> Seq<char> {
    match lookup(params, key) {
        Some(v) => v,
        None => default,
    }
}

/// The number of channels of a new RPM sensor: its `total_channels`
/// parameter when that is a number below 256, two otherwise.
pub open spec fn rpm_channels_param(params: Seq<(String, String)>) -> nat {
    match lookup(params, "total_channels"@) {
        Some(v) => match parse_unsigned(v, 255) {
            Some(n) => n,
            None => 2,
        },
        None => 2,
    }
}

/// The parameters of channel `i` of an RPM sensor.
pub open spec fn rpm_channel_names(i: nat) -> Seq<Seq<char>> {
    let d = decimal(i);
    seq!["RPM"@ + d, "Freq"@ + d, "EngineDuration"@ + d, "IsRunning"@ + d, "ErrorCode"@ + d]
}

/// The parameters of channels 1 to `n`.
pub open spec fn rpm_channels_names(n: nat) -> Seq<Seq<char>>
    decreases n,
{
    if n == 0 {
        Seq::empty()
    } else {
        rpm_channels_names((n - 1) as nat) + rpm_channel_names(n)
    }
}

/// The parameters a device added by command reports, by type.
pub open spec fn added_device_parameters(device_type: Seq<char>, params: Seq<(String, String)>) -> Seq<Seq<char>> {
    if device_type == "flowmeter"@ {
        seq!["MassFlowRate"@, "Temperature"@, "DensityFlow"@, "VolumeTotal"@]
    } else if device_type == "rpm"@ {
        seq!["TotalChannels"@, "GlobalErrorCode"@, "RunningEngines"@] + rpm_channels_names(rpm_channels_param(params))
    } else if device_type == "gps"@ {
        seq!["Latitude"@, "Longitude"@, "Speed"@, "Course"@, "Altitude"@, "Satellites"@]
    } else {
        seq!["Status"@]
    }
}

/// ADD: a new, enabled device at a free address, described by the command's
/// parameters.
pub open spec fn add_spec(
    before: Config,
    after: Config,
    target: ConfigTarget,
    params: Seq<(String, String)>,
    r: Result<CommandOutcome, ModbusError>,
) -> bool {
    match target {
        ConfigTarget::Device { address } => match device_position(before.devices@, address) {
            Some(_) => after == before && answers(
                r,
                Answer::Invalid("Device with address "@ + decimal(address as nat) + " already exists"@),
            ),
            None => {
                let device_type = param_or(params, "device_type"@, "flowmeter"@);
                let name = param_or(params, "name"@, "Device "@ + decimal(address as nat));
                let location = param_or(params, "location"@, "Unknown"@);
                let d = after.devices@.last();
                let message = if device_type == "rpm"@ {
                    "Added new "@ + device_type + " device: "@ + name + " at address "@ + decimal(address as nat)
                        + " with "@ + param_or(params, "total_channels"@, "2"@) + " channels"@
                } else {
                    "Added new "@ + device_type + " device: "@ + name + " at address "@ + decimal(address as nat)
                };
                &&& after == (Config { devices: after.devices, ..before })
                &&& after.devices@.len() == before.devices@.len() + 1
                &&& after.devices@.drop_last() == before.devices@
                &&& d.address == address
                &&& d.device_type@ == device_type
                &&& d.name@ == name
                &&& d.location@ == location
                &&& d.enabled
                &&& d.polling_interval is None
                &&& views(d.parameters@) == added_device_parameters(device_type, params)
                &&& d.metadata.wf()
                &&& pair_views(d.metadata.entries@) == first_entries(metadata_params(pair_views(params)))
                &&& is_random_uuid(d.uuid@)
                &&& answers(r, Answer::Done(true, message, None, Some("Device "@ + decimal(address as nat)), true))
            },
        },
        _ => after == before && answers(r, Answer::Invalid("ADD command only supports Device target"@)),
    }
}

/// REMOVE: the first device at the address goes.
pub open spec fn remove_spec(before: Config, after: Config, target: ConfigTarget, r: Result<CommandOutcome, ModbusError>) -> bool {
    match target {
        ConfigTarget::Device { address } => match device_position(before.devices@, address) {
            None => after == before && answers(
                r,
                Answer::NotFound("Device with address "@ + decimal(address as nat) + " not found"@),
            ),
            Some(i) => {
                let name = before.devices@[i].name@;
                &&& after == (Config { devices: after.devices, ..before })
                &&& after.devices@ == before.devices@.remove(i)
                &&& answers(
                    r,
                    Answer::Done(
                        true,
                        "Removed device: "@ + name + " ("@ + decimal(address as nat) + ")"@,
                        Some(name),
                        None,
                        true,
                    ),
                )
            },
        },
        _ => after == before && answers(r, Answer::Invalid("REMOVE command only supports Device target"@)),
    }
}

/// ENABLE (`on`) or DISABLE: the first device at the address is switched.
pub open spec fn switch_spec(
    before: Config,
    after: Config,
    target: ConfigTarget,
    on: bool,
    r: Result<CommandOutcome, ModbusError>,
) -> bool {
    match target {
        ConfigTarget::Device { address } => match device_position(before.devices@, address) {
            None => after == before && answers(
                r,
                Answer::NotFound("Device with address "@ + decimal(address as nat) + " not found"@),
            ),
            Some(i) => {
                let d = before.devices@[i];
                &&& device_replaced(before, after, i, DeviceConfig { enabled: on, ..d })
                &&& answers(
                    r,
                    Answer::Done(
                        true,
                        "Device "@ + decimal(address as nat) + if on { " enabled"@ } else { " disabled"@ },
                        Some(bool_text(d.enabled)),
                        Some(bool_text(on)),
                        false,
                    ),
                )
            },
        },
        _ => after == before && answers(
            r,
            Answer::Invalid(
                if on { "ENABLE command only supports Device target"@ } else { "DISABLE command only supports Device target"@ },
            ),
        ),
    }
}

/// RESET: the default configuration, with new identifiers.
pub open spec fn reset_spec(before: Config, after: Config, r: Result<CommandOutcome, ModbusError>) -> bool {
    &&& is_default_config(after, after.ipc_uuid@, after.devices@[0].uuid@, after.devices@[1].uuid@)
    &&& is_random_uuid(after.ipc_uuid@)
    &&& is_random_uuid(after.devices@[0].uuid@)
    &&& is_random_uuid(after.devices@[1].uuid@)
    &&& answers(
        r,
        Answer::Done(
            true,
            "Configuration reset to defaults (removed "@ + decimal(before.devices@.len()) + " devices)"@,
            Some(decimal(before.devices@.len())),
            Some("0"@),
            true,
        ),
    )
}

/// SET: dispatched on the target.
pub open spec fn set_spec(
    before: Config,
    after: Config,
    target: ConfigTarget,
    params: Seq<(String, String)>,
    r: Result<CommandOutcome, ModbusError>,
) -> bool {
    match target {
        ConfigTarget::System => system_set(before, after, params, r),
        ConfigTarget::Monitoring => monitoring_set(before, after, params, r),
        ConfigTarget::Serial => serial_set(before, after, params, r),
        ConfigTarget::Gps => gps_set(before, after, params, r),
        ConfigTarget::Device { address } => device_set(before, after, address, params, r),
        ConfigTarget::Site => site_set(before, after, params, r),
        ConfigTarget::Output { output_type } => output_set(before, after, output_type@, params, r),
    }
}

/// What a SET needs to proceed: an IPC UUID whose first eight bytes end on
/// a character boundary, when a new one is ordered.
pub open spec fn set_allowed(config: Config, target: ConfigTarget, params: Seq<(String, String)>) -> bool {
    target is System && params.len() > 0 && params[0].0@ == "regenerate_ipc_uuid"@ ==> chars_in_bytes(
        config.ipc_uuid@,
        8,
    ) is Some
}

/// The text of the parameters of channel `i` of an RPM sensor are appended.
fn push_rpm_channel_names(out: &mut Vec<String>, i: u8)
    ensures
        views(final(out)@) == views(old(out)@) + rpm_channel_names(i as nat),
{
    let d = decimal_string(i as u64);
    out.push(concat("RPM", d.as_str()));
    out.push(concat("Freq", d.as_str()));
    out.push(concat("EngineDuration", d.as_str()));
    out.push(concat("IsRunning", d.as_str()));
    out.push(concat("ErrorCode", d.as_str()));
    proof {
        assert(views(final(out)@) =~= views(old(out)@) + rpm_channel_names(i as nat));
    }
}

/// The value of parameter `key`.
fn param(params: &Vec<(String, String)>, key: &str) -> (r: Option<String>)
    ensures
        match lookup(params@, key@) {
            Some(v) => r matches Some(x) && x@ == v,
            None => r is None,
        },
{
    lookup_value(params, key)
}

/// Whether a parameter key describes the device rather than its metadata.
fn is_core_key(k: &str) -> (b: bool)
    ensures
        b == core_key(k@),
{
    str_eq(k, "device_type") || str_eq(k, "name") || str_eq(k, "location")
}

/// The default parameters of a device added by command.
fn added_parameters(device_type: &str, params: &Vec<(String, String)>) -> (r: Vec<String>)
    ensures
        views(r@) == added_device_parameters(device_type@, params@),
{
    let mut r: Vec<String> = Vec::new();
    if str_eq(device_type, "flowmeter") {
        r.push(owned("MassFlowRate"));
        r.push(owned("Temperature"));
        r.push(owned("DensityFlow"));
        r.push(owned("VolumeTotal"));
    } else if str_eq(device_type, "rpm") {
        let channels: u8 = match param(params, "total_channels") {
            Some(v) => match crate::text::parse_u8(v.as_str()) {
                Some(n) => n,
                None => 2,
            },
            None => 2,
        };
        r.push(owned("TotalChannels"));
        r.push(owned("GlobalErrorCode"));
        r.push(owned("RunningEngines"));
        let ghost base = views(r@);
        proof {
            assert(base =~= seq!["TotalChannels"@, "GlobalErrorCode"@, "RunningEngines"@]);
        }
        let mut i: u16 = 1;
        while i <= channels as u16
            invariant
                1 <= i <= channels as u16 + 1,
                channels as nat == rpm_channels_param(params@),
                views(r@) == base + rpm_channels_names((i - 1) as nat),
            decreases channels as u16 + 1 - i,
        {
            push_rpm_channel_names(&mut r, i as u8);
            proof {
                assert(rpm_channels_names(i as nat) == rpm_channels_names((i - 1) as nat) + rpm_channel_names(i as nat));
            }
            i += 1;
        }
    } else if str_eq(device_type, "gps") {
        r.push(owned("Latitude"));
        r.push(owned("Longitude"));
        r.push(owned("Speed"));
        r.push(owned("Course"));
        r.push(owned("Altitude"));
        r.push(owned("Satellites"));
    } else {
        r.push(owned("Status"));
    }
    proof {
        assert(views(r@) =~= added_device_parameters(device_type@, params@));
    }
    r
}

/// The parameters that become metadata, in order.
fn metadata_from_params(params: &Vec<(String, String)>) -> (m: Metadata)
    ensures
        m.wf(),
        pair_views(m.entries@) == first_entries(metadata_params(pair_views(params@))),
{
    let mut entries: Vec<(String, String)> = Vec::new();
    let mut i: usize = 0;
    while i < params.len()
        invariant
            i <= params@.len(),
            keys_distinct(entries@),
            pair_views(entries@) == first_entries(metadata_params(pair_views(params@.take(i as int)))),
        decreases params.len() - i,
    {
        let ghost before = pair_views(entries@);
        let ghost prefix = metadata_params(pair_views(params@.take(i as int)));
        let ghost p = (params@[i as int].0@, params@[i as int].1@);
        proof {
            reveal(Seq::filter);
            assert(pair_views(params@.take(i + 1)).drop_last() =~= pair_views(params@.take(i as int)));
            assert(pair_views(params@.take(i + 1)).last() == p);
        }
        if !is_core_key(params[i].0.as_str()) {
            proof {
                assert(metadata_params(pair_views(params@.take(i + 1))) == prefix.push(p));
                assert(prefix.push(p).drop_last() =~= prefix);
                lemma_key_index(entries@, p.0);
                lemma_has_key_views(entries@, p.0);
            }
            if find_key(&entries, params[i].0.as_str()).is_none() {
                let ghost old_entries = entries@;
                entries.push((params[i].0.clone(), params[i].1.clone()));
                proof {
                    assert(pair_views(entries@) =~= before.push(p));
                    assert forall|a: int, b: int| 0 <= a < b < entries@.len() implies #[trigger] entries@[a].0@
                        != #[trigger] entries@[b].0@ by {
                        if b == old_entries.len() {
                            assert(old_entries[a].0@ != p.0);
                        } else {
                            assert(entries@[a] == old_entries[a]);
                            assert(entries@[b] == old_entries[b]);
                        }
                    }
                }
            }
        }
        i += 1;
    }
    proof {
        assert(params@.take(params@.len() as int) =~= params@);
    }
    Metadata { entries }
}

/// ADD.
fn add_device(config: &mut Config, target: &ConfigTarget, params: &Vec<(String, String)>) -> (r: Result<
    CommandOutcome,
    ModbusError,
>)
    ensures
        add_spec(*old(config), *final(config), *target, params@, r),
{
    let address = match target {
        ConfigTarget::Device { address } => *address,
        _ => return invalid(owned("ADD command only supports Device target")),
    };
    let a = decimal_string(address as u64);
    if find_device(&config.devices, address).is_some() {
        let m = concat("Device with address ", a.as_str());
        return invalid(concat(m.as_str(), " already exists"));
    }
    let device_type = match param(params, "device_type") {
        Some(t) => t,
        None => owned("flowmeter"),
    };
    let name = match param(params, "name") {
        Some(n) => n,
        None => concat("Device ", a.as_str()),
    };
    let location = match param(params, "location") {
        Some(l) => l,
        None => owned("Unknown"),
    };
    let metadata = metadata_from_params(params);
    let parameters = added_parameters(device_type.as_str(), params);
    let m = concat("Added new ", device_type.as_str());
    let m = concat(m.as_str(), " device: ");
    let m = concat(m.as_str(), name.as_str());
    let m = concat(m.as_str(), " at address ");
    let m = concat(m.as_str(), a.as_str());
    let message = if str_eq(device_type.as_str(), "rpm") {
        let channels = match param(params, "total_channels") {
            Some(c) => c,
            None => owned("2"),
        };
        let m = concat(m.as_str(), " with ");
        let m = concat(m.as_str(), channels.as_str());
        concat(m.as_str(), " channels")
    } else {
        m
    };
    let device = DeviceConfig {
        address,
        device_type,
        name,
        location,
        enabled: true,
        polling_interval: None,
        parameters,
        metadata,
        uuid: generate_uuid(),
    };
    let ghost d = device;
    config.devices.push(device);
    proof {
        assert(config.devices@.drop_last() =~= old(config).devices@);
        assert(config.devices@.last() == d);
    }
    Ok((true, message, None, Some(concat("Device ", a.as_str())), true))
}

/// REMOVE.
fn remove_device(config: &mut Config, target: &ConfigTarget) -> (r: Result<CommandOutcome, ModbusError>)
    ensures
        remove_spec(*old(config), *final(config), *target, r),
{
    let address = match target {
        ConfigTarget::Device { address } => *address,
        _ => return invalid(owned("REMOVE command only supports Device target")),
    };
    let a = decimal_string(address as u64);
    match find_device(&config.devices, address) {
        Some(i) => {
            proof {
                lemma_device_position(config.devices@, address);
            }
            let removed = config.devices.remove(i);
            let m = concat("Removed device: ", removed.name.as_str());
            let m = concat(m.as_str(), " (");
            let m = concat(m.as_str(), a.as_str());
            let m = concat(m.as_str(), ")");
            Ok((true, m, Some(removed.name), None, true))
        },
        None => {
            let m = concat("Device with address ", a.as_str());
            Err(ModbusError::DeviceNotFound(concat(m.as_str(), " not found")))
        },
    }
}

/// ENABLE (`on`) or DISABLE.
fn switch_device(config: &mut Config, target: &ConfigTarget, on: bool) -> (r: Result<CommandOutcome, ModbusError>)
    ensures
        switch_spec(*old(config), *final(config), *target, on, r),
{
    let address = match target {
        ConfigTarget::Device { address } => *address,
        _ => {
            return invalid(
                owned(
                    if on {
                        "ENABLE command only supports Device target"
                    } else {
                        "DISABLE command only supports Device target"
                    },
                ),
            )
        },
    };
    let a = decimal_string(address as u64);
    match find_device(&config.devices, address) {
        Some(i) => {
            proof {
                lemma_device_position(config.devices@, address);
            }
            let removed = config.devices.remove(i);
            let old_value = bool_string(removed.enabled);
            let ghost d = removed;
            config.devices.insert(i, DeviceConfig { enabled: on, ..removed });
            proof {
                assert(config.devices@ =~= old(config).devices@.update(i as int, DeviceConfig { enabled: on, ..d }));
            }
            let m = concat("Device ", a.as_str());
            let m = concat(m.as_str(), if on { " enabled" } else { " disabled" });
            Ok((true, m, Some(old_value), Some(bool_string(on)), false))
        },
        None => {
            let m = concat("Device with address ", a.as_str());
            Err(ModbusError::DeviceNotFound(concat(m.as_str(), " not found")))
        },
    }
}

/// RESET.
fn reset_config(config: &mut Config) -> (r: Result<CommandOutcome, ModbusError>)
    ensures
        reset_spec(*old(config), *final(config), r),
{
    let count = config.devices.len();
    *config = Config::default();
    let n = decimal_string(count as u64);
    let m = concat("Configuration reset to defaults (removed ", n.as_str());
    Ok((true, concat(m.as_str(), " devices)"), Some(n), Some(owned("0")), true))
}

/// The number of commands the history keeps.
pub const HISTORY_LIMIT: usize = 100;

/// The history after recording `c`: the oldest command goes once there are
/// more than a hundred.
pub open spec fn recorded(history: Seq<ConfigurationCommand>, c: ConfigurationCommand) -> Seq<ConfigurationCommand> {
    let grown = history.push(c);
    if grown.len() > 100 {
        grown.drop_first()
    } else {
        grown
    }
}

/// The configuration being changed, the commands received, and where the
/// configuration and its backups are kept.
pub struct DynamicConfigManager {
    config: Config,
    command_history: Vec<ConfigurationCommand>,
    config_file_path: String,
    backup_dir: String,
}

/// The answer to a command, given what its handler gave and, when the
/// configuration had to be saved, what saving gave (a failed save shows as
/// the communication error "Failed to save config: <why>").
pub open spec fn response_fields(
    processed: Result<CommandOutcome, ModbusError>,
    apply_immediately: bool,
    save: Option<Result<(), String>>,
) -> (bool, Seq<char>, Option<Seq<char>>, Option<Seq<char>>, bool) {
    match processed {
        Ok(t) => if t.0 && apply_immediately {
            match save {
                Some(Err(e)) => (
                    false,
                    "Command executed but failed to save: Communication error: Failed to save config: "@ + e@,
                    opt_view(t.2),
                    opt_view(t.3),
                    t.4,
                ),
                _ => (true, t.1@, opt_view(t.2), opt_view(t.3), t.4),
            }
        } else {
            (t.0, t.1@, opt_view(t.2), opt_view(t.3), t.4)
        },
        Err(e) => (false, "Command failed: "@ + error_message(e), None, None, false),
    }
}

impl DynamicConfigManager {
    pub closed spec fn spec_config(&self) -> Config {
        self.config
    }

    /// The commands received, oldest first.
    pub closed spec fn history(&self) -> Seq<ConfigurationCommand> {
        self.command_history@
    }

    pub closed spec fn spec_backup_dir(&self) -> Seq<char> {
        self.backup_dir@
    }

    pub closed spec fn spec_config_file_path(&self) -> Seq<char> {
        self.config_file_path@
    }

    /// A manager of `config`, kept at `config_file_path`, with backups in
    /// `backup_dir`, and no command received yet.
    pub fn new(config: Config, config_file_path: &str, backup_dir: &str) -> (m: Self)
        ensures
            m.spec_config() == config,
            m.history().len() == 0,
            m.spec_config_file_path() == config_file_path@,
            m.spec_backup_dir() == backup_dir@,
    {
        DynamicConfigManager {
            config,
            command_history: Vec::new(),
            config_file_path: owned(config_file_path),
            backup_dir: owned(backup_dir),
        }
    }

    /// The configuration as it stands.
    pub fn get_current_config(&self) -> (c: &Config)
        ensures
            *c == self.spec_config(),
    {
        &self.config
    }

    /// Where the configuration is kept.
    pub fn config_file_path(&self) -> (p: &str)
        ensures
            p@ == self.spec_config_file_path(),
    {
        self.config_file_path.as_str()
    }

    /// Records `command` in the history, which keeps the last hundred.
    pub fn record_command(&mut self, command: ConfigurationCommand)
        ensures
            final(self).history() == recorded(old(self).history(), command),
            final(self).spec_config() == old(self).spec_config(),
            final(self).spec_backup_dir() == old(self).spec_backup_dir(),
            final(self).spec_config_file_path() == old(self).spec_config_file_path(),
    {
        self.command_history.push(command);
        if self.command_history.len() > HISTORY_LIMIT {
            self.command_history.remove(0);
            proof {
                assert(self.command_history@ =~= old(self).command_history@.push(command).drop_first());
            }
        }
    }

    /// SET.
    pub fn handle_set_command(&mut self, command: &ConfigurationCommand) -> (r: Result<CommandOutcome, ModbusError>)
        requires
            command.wf(),
            set_allowed(old(self).spec_config(), command.target, command.parameters@),
        ensures
            set_spec(old(self).spec_config(), final(self).spec_config(), command.target, command.parameters@, r),
            final(self).history() == old(self).history(),
            final(self).spec_backup_dir() == old(self).spec_backup_dir(),
            final(self).spec_config_file_path() == old(self).spec_config_file_path(),
    {
        match &command.target {
            ConfigTarget::System => set_system(&mut self.config, &command.parameters),
            ConfigTarget::Monitoring => set_monitoring(&mut self.config, &command.parameters),
            ConfigTarget::Serial => set_serial(&mut self.config, &command.parameters),
            ConfigTarget::Gps => set_gps(&mut self.config, &command.parameters),
            ConfigTarget::Device { address } => set_device(&mut self.config, *address, &command.parameters),
            ConfigTarget::Site => set_site(&mut self.config, &command.parameters),
            ConfigTarget::Output { output_type } => set_output(&mut self.config, output_type, &command.parameters),
        }
    }

    /// ADD.
    pub fn handle_add_command(&mut self, command: &ConfigurationCommand) -> (r: Result<CommandOutcome, ModbusError>)
        requires
            command.wf(),
        ensures
            add_spec(old(self).spec_config(), final(self).spec_config(), command.target, command.parameters@, r),
            final(self).history() == old(self).history(),
            final(self).spec_backup_dir() == old(self).spec_backup_dir(),
            final(self).spec_config_file_path() == old(self).spec_config_file_path(),
    {
        add_device(&mut self.config, &command.target, &command.parameters)
    }

    /// REMOVE.
    pub fn handle_remove_command(&mut self, command: &ConfigurationCommand) -> (r: Result<CommandOutcome, ModbusError>)
        ensures
            remove_spec(old(self).spec_config(), final(self).spec_config(), command.target, r),
            final(self).history() == old(self).history(),
            final(self).spec_backup_dir() == old(self).spec_backup_dir(),
            final(self).spec_config_file_path() == old(self).spec_config_file_path(),
    {
        remove_device(&mut self.config, &command.target)
    }

    /// ENABLE.
    pub fn handle_enable_command(&mut self, command: &ConfigurationCommand) -> (r: Result<CommandOutcome, ModbusError>)
        ensures
            switch_spec(old(self).spec_config(), final(self).spec_config(), command.target, true, r),
            final(self).history() == old(self).history(),
            final(self).spec_backup_dir() == old(self).spec_backup_dir(),
            final(self).spec_config_file_path() == old(self).spec_config_file_path(),
    {
        switch_device(&mut self.config, &command.target, true)
    }

    /// DISABLE.
    pub fn handle_disable_command(&mut self, command: &ConfigurationCommand) -> (r: Result<CommandOutcome, ModbusError>)
        ensures
            switch_spec(old(self).spec_config(), final(self).spec_config(), command.target, false, r),
            final(self).history() == old(self).history(),
            final(self).spec_backup_dir() == old(self).spec_backup_dir(),
            final(self).spec_config_file_path() == old(self).spec_config_file_path(),
    {
        switch_device(&mut self.config, &command.target, false)
    }

    /// RESET.
    pub fn handle_reset_command(&mut self, command: &ConfigurationCommand) -> (r: Result<CommandOutcome, ModbusError>)
        ensures
            reset_spec(old(self).spec_config(), final(self).spec_config(), r),
            final(self).history() == old(self).history(),
            final(self).spec_backup_dir() == old(self).spec_backup_dir(),
            final(self).spec_config_file_path() == old(self).spec_config_file_path(),
    {
        reset_config(&mut self.config)
    }

    /// The commands that need no storage, handled; `None` for BACKUP and
    /// RESTORE, which read or write a backup.
    pub fn process_command(&mut self, command: &ConfigurationCommand) -> (r: Option<Result<CommandOutcome, ModbusError>>)
        requires
            command.wf(),
            command.command_type == ConfigCommandType::SetValue ==> set_allowed(
                old(self).spec_config(),
                command.target,
                command.parameters@,
            ),
        ensures
            final(self).history() == old(self).history(),
            final(self).spec_backup_dir() == old(self).spec_backup_dir(),
            final(self).spec_config_file_path() == old(self).spec_config_file_path(),
            match command.command_type {
                ConfigCommandType::SetValue => r matches Some(x) && set_spec(
                    old(self).spec_config(),
                    final(self).spec_config(),
                    command.target,
                    command.parameters@,
                    x,
                ),
                ConfigCommandType::Add => r matches Some(x) && add_spec(
                    old(self).spec_config(),
                    final(self).spec_config(),
                    command.target,
                    command.parameters@,
                    x,
                ),
                ConfigCommandType::Remove => r matches Some(x) && remove_spec(
                    old(self).spec_config(),
                    final(self).spec_config(),
                    command.target,
                    x,
                ),
                ConfigCommandType::Enable => r matches Some(x) && switch_spec(
                    old(self).spec_config(),
                    final(self).spec_config(),
                    command.target,
                    true,
                    x,
                ),
                ConfigCommandType::Disable => r matches Some(x) && switch_spec(
                    old(self).spec_config(),
                    final(self).spec_config(),
                    command.target,
                    false,
                    x,
                ),
                ConfigCommandType::Reset => r matches Some(x) && reset_spec(
                    old(self).spec_config(),
                    final(self).spec_config(),
                    x,
                ),
                _ => r is None && final(self).spec_config() == old(self).spec_config(),
            },
    {
        match command.command_type {
            ConfigCommandType::SetValue => Some(self.handle_set_command(command)),
            ConfigCommandType::Add => Some(self.handle_add_command(command)),
            ConfigCommandType::Remove => Some(self.handle_remove_command(command)),
            ConfigCommandType::Enable => Some(self.handle_enable_command(command)),
            ConfigCommandType::Disable => Some(self.handle_disable_command(command)),
            ConfigCommandType::Reset => Some(self.handle_reset_command(command)),
            ConfigCommandType::Backup => None,
            ConfigCommandType::Restore => None,
        }
    }

    /// The path of the backup named `name`: "<backup dir>/<name>.toml".
    pub fn backup_path_for(&self, name: &str) -> (p: String)
        ensures
            p@ == self.spec_backup_dir() + "/"@ + name@ + ".toml"@,
    {
        let p = concat(self.backup_dir.as_str(), "/");
        let p = concat(p.as_str(), name);
        concat(p.as_str(), ".toml")
    }

    /// The name of the backup a BACKUP makes: its `name` parameter, or
    /// "backup_" and the present time as `YYYYMMDD_HHMMSS`.
    pub fn backup_name(&self, command: &ConfigurationCommand) -> (n: String)
        ensures
            lookup(command.parameters@, "name"@) matches Some(v) ==> n@ == v,
            lookup(command.parameters@, "name"@) is None ==> exists|stamp: Seq<char>|
                is_compact_stamp(stamp) && n@ == "backup_"@ + stamp,
    {
        match param(&command.parameters, "name") {
            Some(n) => n,
            None => {
                let stamp = now_compact_stamp();
                concat("backup_", stamp.as_str())
            },
        }
    }

    /// The answer to a BACKUP written to `path`, given what writing gave.
    pub fn handle_backup_result(&self, path: String, written: Result<(), String>) -> (r: Result<
        CommandOutcome,
        ModbusError,
    >)
        ensures
            match written {
                Ok(()) => answers(r, Answer::Done(true, "Configuration backed up to: "@ + path@, None, Some(path@), false)),
                Err(e) => answers(r, Answer::Comm("Failed to create backup: "@ + e@)),
            },
    {
        match written {
            Ok(()) => {
                let m = concat("Configuration backed up to: ", path.as_str());
                Ok((true, m, None, Some(path), false))
            },
            Err(e) => Err(ModbusError::CommunicationError(concat("Failed to create backup: ", e.as_str()))),
        }
    }

    /// The path of the backup a RESTORE reads: its `name` parameter is needed.
    pub fn restore_path(&self, command: &ConfigurationCommand) -> (r: Result<String, ModbusError>)
        ensures
            match lookup(command.parameters@, "name"@) {
                Some(v) => r matches Ok(p) && p@ == self.spec_backup_dir() + "/"@ + v + ".toml"@,
                None => r matches Err(ModbusError::InvalidData(m)) && m@ == "Backup name required for restore"@,
            },
    {
        match param(&command.parameters, "name") {
            Some(n) => Ok(self.backup_path_for(n.as_str())),
            None => Err(ModbusError::InvalidData(owned("Backup name required for restore"))),
        }
    }

    /// A RESTORE from `path`, given what reading the backup gave: the
    /// configuration read replaces the present one.
    pub fn handle_restore_result(&mut self, path: String, loaded: Result<Config, String>) -> (r: Result<
        CommandOutcome,
        ModbusError,
    >)
        ensures
            final(self).history() == old(self).history(),
            final(self).spec_backup_dir() == old(self).spec_backup_dir(),
            final(self).spec_config_file_path() == old(self).spec_config_file_path(),
            match loaded {
                Ok(c) => final(self).spec_config() == c && answers(
                    r,
                    Answer::Done(
                        true,
                        "Configuration restored from: "@ + path@,
                        Some(decimal(old(self).spec_config().devices@.len())),
                        Some(decimal(c.devices@.len())),
                        true,
                    ),
                ),
                Err(e) => final(self).spec_config() == old(self).spec_config() && answers(
                    r,
                    Answer::Comm("Failed to load backup: "@ + e@),
                ),
            },
    {
        match loaded {
            Ok(c) => {
                let old_count = decimal_string(self.config.devices.len() as u64);
                self.config = c;
                let new_count = decimal_string(self.config.devices.len() as u64);
                let m = concat("Configuration restored from: ", path.as_str());
                Ok((true, m, Some(old_count), Some(new_count), true))
            },
            Err(e) => Err(ModbusError::CommunicationError(concat("Failed to load backup: ", e.as_str()))),
        }
    }
}

/// Whether the configuration is to be saved after a command: when it
/// succeeded and is to be applied at once.
pub fn needs_save(processed: &Result<CommandOutcome, ModbusError>, apply_immediately: bool) -> (b: bool)
    ensures
        b == (processed matches Ok(t) && t.0 && apply_immediately),
{
    match processed {
        Ok(t) => t.0 && apply_immediately,
        Err(_) => false,
    }
}

/// The answer to `command`, received at `timestamp`, given what its handler
/// gave and, when the configuration had to be saved, what saving gave.
pub fn build_response(
    command: &ConfigurationCommand,
    timestamp: i64,
    processed: Result<CommandOutcome, ModbusError>,
    save: Option<Result<(), String>>,
) -> (resp: ConfigurationResponse)
    ensures
        resp.command_id@ == command.command_id@,
        resp.timestamp == timestamp,
        (resp.success, resp.message@, opt_view(resp.old_value), opt_view(resp.new_value), resp.requires_restart)
            == response_fields(processed, command.apply_immediately, save),
{
    let command_id = command.command_id.clone();
    match processed {
        Ok((success, message, old_value, new_value, requires_restart)) => {
            if success && command.apply_immediately {
                match save {
                    Some(Err(e)) => ConfigurationResponse {
                        command_id,
                        timestamp,
                        success: false,
                        message: concat(
                            "Command executed but failed to save: Communication error: Failed to save config: ",
                            e.as_str(),
                        ),
                        old_value,
                        new_value,
                        requires_restart,
                    },
                    _ => ConfigurationResponse {
                        command_id,
                        timestamp,
                        success: true,
                        message,
                        old_value,
                        new_value,
                        requires_restart,
                    },
                }
            } else {
                ConfigurationResponse {
                    command_id,
                    timestamp,
                    success,
                    message,
                    old_value,
                    new_value,
                    requires_restart,
                }
            }
        },
        Err(e) => {
            let text = e.message();
            ConfigurationResponse {
                command_id,
                timestamp,
                success: false,
                message: concat("Command failed: ", text.as_str()),
                old_value: None,
                new_value: None,
                requires_restart: false,
            }
        },
    }
}

/// The history never holds more than a hundred commands, and the newest
/// one is last.
pub proof fn lemma_history_bounded(history: Seq<ConfigurationCommand>, c: ConfigurationCommand)
    requires
        history.len() <= 100,
    ensures
        recorded(history, c).len() <= 100,
        recorded(history, c).last() == c,
        history.len() < 100 ==> recorded(history, c) == history.push(c),
        history.len() == 100 ==> recorded(history, c) == history.drop_first().push(c),
{
    if history.len() == 100 {
        assert(history.push(c).drop_first() =~= history.drop_first().push(c));
    }
}

/// Replacing a device by one at the same address leaves the position of the
/// first device at every address where it was.
proof fn lemma_position_after_replace(devs: Seq<DeviceConfig>, i: int, d: DeviceConfig, address: u8)
    requires
        0 <= i < devs.len(),
        d.address == devs[i].address,
    ensures
        device_position(devs.update(i, d), address) == device_position(devs, address),
{
    let after = devs.update(i, d);
    lemma_device_position(devs, address);
    lemma_device_position(after, address);
    match (device_position(devs, address), device_position(after, address)) {
        (Some(p), Some(q)) => {
            if p < q {
                assert(after[p].address == devs[p].address);
            } else if q < p {
                assert(after[q].address == devs[q].address);
            }
        },
        (Some(p), None) => {
            assert(after[p].address == devs[p].address);
        },
        (None, Some(q)) => {
            assert(after[q].address == devs[q].address);
        },
        (None, None) => {},
    }
}

/// Adding a device at a free address and then removing the device at that
/// address succeeds both times and gives back the configuration as it was:
/// the same settings and the same device list.
pub proof fn lemma_remove_undoes_add(
    c0: Config,
    c1: Config,
    c2: Config,
    address: u8,
    params: Seq<(String, String)>,
    r1: Result<CommandOutcome, ModbusError>,
    r2: Result<CommandOutcome, ModbusError>,
)
    requires
        device_position(c0.devices@, address) is None,
        add_spec(c0, c1, ConfigTarget::Device { address }, params, r1),
        remove_spec(c1, c2, ConfigTarget::Device { address }, r2),
    ensures
        r1 is Ok,
        r2 is Ok,
        c2 == (Config { devices: c2.devices, ..c0 }),
        c2.devices@ == c0.devices@,
{
    let n = c0.devices@.len() as int;
    lemma_device_position(c0.devices@, address);
    lemma_device_position(c1.devices@, address);
    assert forall|j: int| 0 <= j < n implies c1.devices@[j].address != address by {
        assert(c1.devices@[j] == c1.devices@.drop_last()[j]);
    }
    assert(c1.devices@[n] == c1.devices@.last());
    assert(device_position(c1.devices@, address) == Some(n));
    assert(c1.devices@.remove(n) =~= c1.devices@.drop_last());
}

/// Disabling an enabled device and then enabling it again succeeds both
/// times and gives back the configuration as it was: the same settings and
/// the same device list.
pub proof fn lemma_enable_undoes_disable(
    c0: Config,
    c1: Config,
    c2: Config,
    address: u8,
    r1: Result<CommandOutcome, ModbusError>,
    r2: Result<CommandOutcome, ModbusError>,
)
    requires
        device_position(c0.devices@, address) matches Some(i) && c0.devices@[i].enabled,
        switch_spec(c0, c1, ConfigTarget::Device { address }, false, r1),
        switch_spec(c1, c2, ConfigTarget::Device { address }, true, r2),
    ensures
        r1 is Ok,
        r2 is Ok,
        c2 == (Config { devices: c2.devices, ..c0 }),
        c2.devices@ == c0.devices@,
{
    let i = device_position(c0.devices@, address)->0;
    lemma_device_position(c0.devices@, address);
    let d = c0.devices@[i];
    lemma_position_after_replace(c0.devices@, i, DeviceConfig { enabled: false, ..d }, address);
    assert(c1.devices@[i] == DeviceConfig { enabled: false, ..d });
    assert(c2.devices@ =~= c0.devices@);
}

/// A SET of the serial link's parity stores the parity its value names,
/// ignoring case: "even" gives even parity, "odd" odd parity and "none" no
/// parity, and the change is accepted; any other value leaves the parity as
/// it was.
pub proof fn lemma_parity_as_named(
    before: Config,
    after: Config,
    params: Seq<(String, String)>,
    r: Result<CommandOutcome, ModbusError>,
)
    requires
        set_spec(before, after, ConfigTarget::Serial, params, r),
        params.len() > 0,
        params[0].0@ == "parity"@,
    ensures
        reads_ignoring_case(params[0].1@, "even"@) ==> after.parity == ParityConfig::Even && r is Ok,
        reads_ignoring_case(params[0].1@, "odd"@) ==> after.parity == ParityConfig::Odd && r is Ok,
        reads_ignoring_case(params[0].1@, "none"@) ==> after.parity == ParityConfig::NoParity && r is Ok,
        !reads_ignoring_case(params[0].1@, "even"@) && !reads_ignoring_case(params[0].1@, "odd"@)
            && !reads_ignoring_case(params[0].1@, "none"@) ==> after.parity == before.parity && r is Err,
{
    reveal_strlit("even");
    reveal_strlit("odd");
    reveal_strlit("none");
    reveal_strlit("port");
    reveal_strlit("baud_rate");
    reveal_strlit("parity");
    let v = params[0].1@;
    let k = params[0].0@;
    assert(k != "port"@ && k != "baud_rate"@) by {
        assert(k.len() == 6);
    }
    if v.len() > 0 {
        if reads_ignoring_case(v, "even"@) {
            assert(lower_code(v[0]) == 'e' as u32);
        }
        if reads_ignoring_case(v, "odd"@) {
            assert(lower_code(v[0]) == 'o' as u32);
        }
        if reads_ignoring_case(v, "none"@) {
            assert(lower_code(v[0]) == 'n' as u32);
        }
    }
    assert(serial_set(before, after, params, r));
    match parity_named(v) {
        Some(p) => {
            assert(after.parity == p);
        },
        None => {
            assert(after == before);
        },
    }
}

/// A SET of the serial port stores the value given as the port, and a SET of
/// the baud rate stores the number the value reads as (an unsigned 32-bit
/// decimal), or leaves the rate as it was and refuses the value. Either way
/// nothing else of the configuration changes.
pub proof fn lemma_serial_port_and_baud(
    before: Config,
    after: Config,
    params: Seq<(String, String)>,
    r: Result<CommandOutcome, ModbusError>,
)
    requires
        set_spec(before, after, ConfigTarget::Serial, params, r),
        params.len() > 0,
    ensures
        params[0].0@ == "port"@ ==> after.serial_port@ == params[0].1@ && after.baud_rate == before.baud_rate
            && after.parity == before.parity && r is Ok,
        params[0].0@ == "baud_rate"@ ==> match parse_unsigned(params[0].1@, u32::MAX as nat) {
            Some(n) => after.baud_rate == n && after.serial_port == before.serial_port && after.parity
                == before.parity && r is Ok,
            None => after.baud_rate == before.baud_rate && r is Err,
        },
{
    reveal_strlit("port");
    reveal_strlit("baud_rate");
    assert("port"@ != "baud_rate"@) by {
        assert("port"@.len() != "baud_rate"@.len());
    }
    assert(serial_set(before, after, params, r));
}

} // verus!
