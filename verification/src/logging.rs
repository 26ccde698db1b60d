use std::collections::VecDeque;
use vstd::prelude::*;

use crate::text::same_text;

verus! {

/// The most verbose severity that a logger lets through; `Off` lets nothing through.
#[derive(Clone, Copy, Debug, PartialEq, Eq, Structural)]
pub enum LevelFilter {
    Off,
    Error,
    Warn,
    Info,
    Debug,
    Trace,
}

/// The severity of one log record.
#[derive(Clone, Copy, Debug, PartialEq, Eq, Structural)]
pub enum Level {
    Error,
    Warn,
    Info,
    Debug,
    Trace,
}

/// The number under which a filter is stored: 0 for `Off` up to 5 for `Trace`.
pub open spec fn filter_rank(f: LevelFilter) -> u8 {
    match f {
        LevelFilter::Off => 0,
        LevelFilter::Error => 1,
        LevelFilter::Warn => 2,
        LevelFilter::Info => 3,
        LevelFilter::Debug => 4,
        LevelFilter::Trace => 5,
    }
}

/// The rank of a record's severity on the same scale as `filter_rank`.
pub open spec fn level_rank(l: Level) -> u8 {
    match l {
        Level::Error => 1,
        Level::Warn => 2,
        Level::Info => 3,
        Level::Debug => 4,
        Level::Trace => 5,
    }
}

/// The filter that a stored number stands for; every number above 4 means `Trace`.
pub open spec fn filter_of_rank(v: u8) -> LevelFilter {
    if v == 0 {
        LevelFilter::Off
    } else if v == 1 {
        LevelFilter::Error
    } else if v == 2 {
        LevelFilter::Warn
    } else if v == 3 {
        LevelFilter::Info
    } else if v == 4 {
        LevelFilter::Debug
    } else {
        LevelFilter::Trace
    }
}

/// The lower-case name of a filter, as `set_level` accepts it and `current_level` reports it.
pub open spec fn filter_name(f: LevelFilter) -> Seq<char> {
    match f {
        LevelFilter::Off => "off"@,
        LevelFilter::Error => "error"@,
        LevelFilter::Warn => "warn"@,
        LevelFilter::Info => "info"@,
        LevelFilter::Debug => "debug"@,
        LevelFilter::Trace => "trace"@,
    }
}

/// The upper-case label under which a record of this severity is stored.
pub open spec fn level_label(l: Level) -> Seq<char> {
    match l {
        Level::Error => "ERROR"@,
        Level::Warn => "WARN"@,
        Level::Info => "INFO"@,
        Level::Debug => "DEBUG"@,
        Level::Trace => "TRACE"@,
    }
}

/// Stores a filter as its rank.
pub fn filter_to_u8(f: LevelFilter) -> (r: u8)
    ensures
        r == filter_rank(f),
{
    match f {
        LevelFilter::Off => 0,
        LevelFilter::Error => 1,
        LevelFilter::Warn => 2,
        LevelFilter::Info => 3,
        LevelFilter::Debug => 4,
        LevelFilter::Trace => 5,
    }
}

/// Reads a stored rank back as a filter; out-of-range numbers read as `Trace`.
pub fn u8_to_filter(v: u8) -> (f: LevelFilter)
    ensures
        f == filter_of_rank(v),
{
    match v {
        0 => LevelFilter::Off,
        1 => LevelFilter::Error,
        2 => LevelFilter::Warn,
        3 => LevelFilter::Info,
        4 => LevelFilter::Debug,
        _ => LevelFilter::Trace,
    }
}

/// Storing a filter and reading it back gives the same filter.
pub proof fn filter_rank_round_trip(f: LevelFilter)
    ensures
        filter_of_rank(filter_rank(f)) == f,
{
}

/// Reading a number as a filter and storing it again gives the number, capped at 5.
pub proof fn rank_filter_round_trip(v: u8)
    ensures
        filter_rank(filter_of_rank(v)) == if v <= 5 { v } else { 5u8 },
{
}

/// A level name read back: the name of the filter that `filter_named`
/// finds for it is the name itself, so the verbosity that `set_level`
/// stores is reported by `current_level` under the name it was given.
pub proof fn named_level_reads_back(name: Seq<char>)
    requires
        filter_named(name) is Some,
    ensures
        filter_name(filter_of_rank(filter_rank(filter_named(name)->0))) == name,
{
}

/// Severities are ordered Error < Warn < Info < Debug < Trace, each with the
/// rank of the filter of the same name; so every verbosity other than `Off`
/// keeps errors, and verbosity `Error` drops warnings.
pub proof fn severities_follow_their_filters(l: Level, code: u8)
    ensures
        level_rank(Level::Error) < level_rank(Level::Warn),
        level_rank(Level::Warn) < level_rank(Level::Info),
        level_rank(Level::Info) < level_rank(Level::Debug),
        level_rank(Level::Debug) < level_rank(Level::Trace),
        level_rank(Level::Error) == filter_rank(LevelFilter::Error),
        level_rank(Level::Warn) == filter_rank(LevelFilter::Warn),
        level_rank(Level::Info) == filter_rank(LevelFilter::Info),
        level_rank(Level::Debug) == filter_rank(LevelFilter::Debug),
        level_rank(Level::Trace) == filter_rank(LevelFilter::Trace),
        filter_of_rank(code) != LevelFilter::Off ==> level_rank(Level::Error) <= filter_rank(
            filter_of_rank(code),
        ),
        filter_of_rank(code) == LevelFilter::Error ==> !(level_rank(Level::Warn) <= filter_rank(
            filter_of_rank(code),
        )),
        filter_of_rank(code) == LevelFilter::Trace ==> level_rank(l) <= filter_rank(filter_of_rank(code)),
{
}

/// Each level name stands for the filter of that name: "off" Off, "error"
/// Error, "warn" Warn, "info" Info, "debug" Debug, "trace" Trace, and no
/// other name is a level; each filter is reported under its own name.
pub proof fn level_names_mean_their_filters()
    ensures
        filter_named("off"@) == Some(LevelFilter::Off),
        filter_named("error"@) == Some(LevelFilter::Error),
        filter_named("warn"@) == Some(LevelFilter::Warn),
        filter_named("info"@) == Some(LevelFilter::Info),
        filter_named("debug"@) == Some(LevelFilter::Debug),
        filter_named("trace"@) == Some(LevelFilter::Trace),
        filter_name(LevelFilter::Off) == "off"@,
        filter_name(LevelFilter::Error) == "error"@,
        filter_name(LevelFilter::Warn) == "warn"@,
        filter_name(LevelFilter::Info) == "info"@,
        filter_name(LevelFilter::Debug) == "debug"@,
        filter_name(LevelFilter::Trace) == "trace"@,
{
    reveal_strlit("off");
    reveal_strlit("error");
    reveal_strlit("warn");
    reveal_strlit("info");
    reveal_strlit("debug");
    reveal_strlit("trace");
    assert("error"@ != "off"@) by {
        assert("error"@.len() != "off"@.len());
    }
    assert("warn"@ != "off"@ && "warn"@ != "error"@) by {
        assert("warn"@.len() != "off"@.len() && "warn"@.len() != "error"@.len());
    }
    assert("info"@ != "off"@ && "info"@ != "error"@ && "info"@ != "warn"@) by {
        assert("info"@[0] != "warn"@[0]);
    }
    assert("debug"@ != "off"@ && "debug"@ != "error"@ && "debug"@ != "warn"@ && "debug"@ != "info"@) by {
        assert("debug"@[0] != "error"@[0]);
    }
    assert("trace"@ != "off"@ && "trace"@ != "error"@ && "trace"@ != "warn"@ && "trace"@ != "info"@
        && "trace"@ != "debug"@) by {
        assert("trace"@[0] != "error"@[0] && "trace"@[0] != "debug"@[0]);
    }
}

/// After the verbosity is set to the filter named "warn", warnings and
/// errors are kept and informational records are dropped; after "error",
/// warnings are dropped.
pub proof fn warn_level_keeps_warnings(lg: UiLogger)
    ensures
        lg.level_code() == filter_rank(filter_named("warn"@)->0) ==> {
            &&& lg.lets_through(Level::Warn)
            &&& lg.lets_through(Level::Error)
            &&& !lg.lets_through(Level::Info)
        },
        lg.level_code() == filter_rank(filter_named("error"@)->0) ==> {
            &&& lg.lets_through(Level::Error)
            &&& !lg.lets_through(Level::Warn)
        },
{
    level_names_mean_their_filters();
}

/// One captured log record.
#[derive(Clone, Debug)]
pub struct LogEntry {
    pub ts_ms: u64,
    pub level: String,
    pub target: String,
    pub message: String,
}

impl LogEntry {
    /// A field-by-field copy.
    pub fn duplicate(&self) -> (r: LogEntry)
        ensures
            r == *self,
    {
        LogEntry {
            ts_ms: self.ts_ms,
            level: self.level.clone(),
            target: self.target.clone(),
            message: self.message.clone(),
        }
    }
}

/// The number of records the buffer keeps; older ones are dropped first.
pub const BUFFER_CAP: usize = 5000;

/// The buffer after one more record: the record goes last, and the oldest
/// one leaves when the buffer was already full.
pub open spec fn push_capped(s: Seq<LogEntry>, e: LogEntry) -> Seq<LogEntry> {
    if s.len() >= BUFFER_CAP {
        s.drop_first().push(e)
    } else {
        s.push(e)
    }
}

/// A record just logged is the newest one, and the buffer stays within its bound.
pub proof fn logged_record_is_newest(s: Seq<LogEntry>, e: LogEntry)
    requires
        s.len() <= BUFFER_CAP,
    ensures
        push_capped(s, e).last() == e,
        push_capped(s, e).len() <= BUFFER_CAP,
        push_capped(s, e).len() == if s.len() == BUFFER_CAP { s.len() } else { s.len() + 1 },
{
}

/// What a snapshot returns of the buffer `all`: the last `n` records when a
/// limit `n` below the buffer's length is given, else all of them.
pub open spec fn snapshot_of(all: Seq<LogEntry>, limit: Option<usize>) -> Seq<LogEntry> {
    match limit {
        Some(n) => if n < all.len() {
            all.subrange(all.len() - n, all.len() as int)
        } else {
            all
        },
        None => all,
    }
}

/// The recent records read back: after a record is logged, a snapshot ends
/// with that record, and holds as many records as the limit allows (all of
/// them without a limit), oldest first.
pub proof fn snapshot_ends_with_newest(s: Seq<LogEntry>, e: LogEntry, limit: Option<usize>)
    requires
        s.len() <= BUFFER_CAP,
        limit != Some(0usize),
    ensures
        snapshot_of(push_capped(s, e), limit).last() == e,
        snapshot_of(push_capped(s, e), limit).len() == match limit {
            Some(n) => if n < push_capped(s, e).len() {
                n as int
            } else {
                push_capped(s, e).len() as int
            },
            None => push_capped(s, e).len() as int,
        },
        snapshot_of(push_capped(s, e), limit).is_suffix_of(push_capped(s, e)),
{
    let all = push_capped(s, e);
    let snap = snapshot_of(all, limit);
    assert(snap =~= all.subrange(all.len() - snap.len(), all.len() as int));
}

/// The application's log sink: a bounded buffer of recent records and the
/// current verbosity, stored as a rank.
pub struct UiLogger {
    buffer: VecDeque<LogEntry>,
    level: u8,
}

impl UiLogger {
    #[verifier::type_invariant]
    spec fn bounded(&self) -> bool {
        self.buffer@.len() <= BUFFER_CAP
    }

    /// The records held, oldest first.
    pub closed spec fn entries(&self) -> Seq<LogEntry> {
        self.buffer@
    }

    /// The stored verbosity rank.
    pub closed spec fn level_code(&self) -> u8 {
        self.level
    }

    /// Whether a record of severity `l` passes the current verbosity.
    pub open spec fn lets_through(&self, l: Level) -> bool {
        filter_of_rank(self.level_code()) != LevelFilter::Off
            && level_rank(l) <= filter_rank(filter_of_rank(self.level_code()))
    }

    /// The number of records held, which never exceeds `BUFFER_CAP`.
    pub fn len(&self) -> (n: usize)
        ensures
            n == self.entries().len(),
            n <= BUFFER_CAP,
    {
        proof {
            use_type_invariant(self);
        }
        self.buffer.len()
    }

    /// Decides whether a record of severity `l` is kept.
    pub fn enabled(&self, l: Level) -> (r: bool)
        ensures
            r == self.lets_through(l),
    {
        let max: LevelFilter = u8_to_filter(self.level);
        if max == LevelFilter::Off {
            return false;
        }
        level_to_u8(l) <= filter_to_u8(max)
    }

    /// Records one entry if its severity passes the current verbosity,
    /// dropping the oldest record when the buffer is full. Returns the stored
    /// entry, which is then to be forwarded to the user interface.
    pub fn log(&mut self, ts_ms: u64, l: Level, target: String, message: String) -> (stored:
        Option<LogEntry>)
        ensures
            final(self).level_code() == old(self).level_code(),
            final(self).entries().len() <= BUFFER_CAP,
            old(self).lets_through(l) ==> {
                &&& stored == Some(
                    LogEntry { ts_ms, level: stored->0.level, target, message },
                )
                &&& stored->0.level@ == level_label(l)
                &&& final(self).entries() == push_capped(old(self).entries(), stored->0)
            },
            !old(self).lets_through(l) ==> {
                &&& stored is None
                &&& final(self).entries() == old(self).entries()
            },
    {
        proof {
            use_type_invariant(&*self);
        }
        if !self.enabled(l) {
            return None;
        }
        let entry = LogEntry { ts_ms, level: level_label_string(l), target, message };
        let mut buf: VecDeque<LogEntry> = VecDeque::new();
        std::mem::swap(&mut buf, &mut self.buffer);
        if buf.len() >= BUFFER_CAP {
            buf.pop_front();
        }
        buf.push_back(entry.duplicate());
        assert(buf@ == push_capped(old(self).buffer@, entry));
        self.buffer = buf;
        Some(entry)
    }
}

fn level_to_u8(l: Level) -> (r: u8)
    ensures
        r == level_rank(l),
{
    match l {
        Level::Error => 1,
        Level::Warn => 2,
        Level::Info => 3,
        Level::Debug => 4,
        Level::Trace => 5,
    }
}

fn level_label_string(l: Level) -> (s: String)
    ensures
        s@ == level_label(l),
{
    match l {
        Level::Error => String::from_str("ERROR"),
        Level::Warn => String::from_str("WARN"),
        Level::Info => String::from_str("INFO"),
        Level::Debug => String::from_str("DEBUG"),
        Level::Trace => String::from_str("TRACE"),
    }
}

/// Installs the application's logger in `slot` unless one is already there:
/// a fresh logger holds no records and lets through up to `Debug`.
pub fn install(slot: &mut Option<UiLogger>)
    ensures
        (*old(slot)) is Some ==> *final(slot) == *old(slot),
        (*old(slot)) is None ==> {
            &&& (*final(slot)) is Some
            &&& (*final(slot))->0.entries() == Seq::<LogEntry>::empty()
            &&& filter_of_rank((*final(slot))->0.level_code()) == LevelFilter::Debug
        },
{
    if slot.is_none() {
        *slot = Some(UiLogger { buffer: VecDeque::new(), level: filter_to_u8(LevelFilter::Debug) });
    }
}

/// The recent records, oldest first: the last `limit` of them when a limit
/// below the buffer's length is given. Nothing when no logger is installed.
pub fn snapshot(slot: &Option<UiLogger>, limit: Option<usize>) -> (res: Vec<LogEntry>)
    ensures
        res@ == match slot {
            Some(l) => snapshot_of(l.entries(), limit),
            None => Seq::<LogEntry>::empty(),
        },
{
    match slot {
        None => Vec::new(),
        Some(l) => {
            let len: usize = l.buffer.len();
            let start: usize = match limit {
                Some(n) => if n < len {
                    len - n
                } else {
                    0
                },
                None => 0,
            };
            let mut out: Vec<LogEntry> = Vec::new();
            let mut i: usize = start;
            while i < len
                invariant
                    len == l.buffer@.len(),
                    start <= i <= len,
                    out@ == l.buffer@.subrange(start as int, i as int),
                decreases len - i,
            {
                out.push(l.buffer[i].duplicate());
                i = i + 1;
            }
            assert(snapshot_of(l.entries(), limit) == l.buffer@.subrange(start as int, len as int));
            out
        },
    }
}

/// Drops every record of an installed logger; its verbosity is unchanged.
pub fn clear(slot: &mut Option<UiLogger>)
    ensures
        (*final(slot)) is Some <==> (*old(slot)) is Some,
        (*final(slot)) is Some ==> {
            &&& (*final(slot))->0.entries() == Seq::<LogEntry>::empty()
            &&& (*final(slot))->0.level_code() == (*old(slot))->0.level_code()
        },
{
    match slot {
        Some(l) => {
            l.buffer = VecDeque::new();
        },
        None => {},
    }
}

/// The lower-case form of a text, by Unicode case mapping.
pub uninterp spec fn lowercase(s: Seq<char>) -> Seq<char>;

/// Calls `str::to_lowercase` from std, which maps each character to its
/// Unicode lower-case form. The contract only names the result: it is the
/// same for the same text.
#[verifier::external_body]
fn to_lowercase(s: &str) -> (r: String)
    ensures
        r@ == lowercase(s@),
{
    s.to_lowercase()
}

/// The filter whose name is `name`, if any.
pub open spec fn filter_named(name: Seq<char>) -> Option<LevelFilter> {
    if name == "off"@ {
        Some(LevelFilter::Off)
    } else if name == "error"@ {
        Some(LevelFilter::Error)
    } else if name == "warn"@ {
        Some(LevelFilter::Warn)
    } else if name == "info"@ {
        Some(LevelFilter::Info)
    } else if name == "debug"@ {
        Some(LevelFilter::Debug)
    } else if name == "trace"@ {
        Some(LevelFilter::Trace)
    } else {
        None
    }
}

/// Reads a level name, ignoring case.
pub fn parse_level(level: &str) -> (r: Result<LevelFilter, String>)
    ensures
        match filter_named(lowercase(level@)) {
            Some(f) => r == Ok::<LevelFilter, String>(f),
            None => r is Err && r->Err_0@ == "unknown level: "@ + lowercase(level@),
        },
{
    let lowered: String = to_lowercase(level);
    let s: &str = lowered.as_str();
    if same_text(s, "off") {
        Ok(LevelFilter::Off)
    } else if same_text(s, "error") {
        Ok(LevelFilter::Error)
    } else if same_text(s, "warn") {
        Ok(LevelFilter::Warn)
    } else if same_text(s, "info") {
        Ok(LevelFilter::Info)
    } else if same_text(s, "debug") {
        Ok(LevelFilter::Debug)
    } else if same_text(s, "trace") {
        Ok(LevelFilter::Trace)
    } else {
        let mut msg: String = String::from_str("unknown level: ");
        msg.append(s);
        Err(msg)
    }
}

/// Sets the verbosity from a level name, ignoring case. An unknown name is
/// refused whether or not a logger is installed; with no logger installed a
/// known name is accepted and changes nothing. The records are kept.
pub fn set_level(slot: &mut Option<UiLogger>, level: &str) -> (r: Result<(), String>)
    ensures
        r is Ok <==> filter_named(lowercase(level@)) is Some,
        r is Err ==> r->Err_0@ == "unknown level: "@ + lowercase(level@),
        (*final(slot)) is Some <==> (*old(slot)) is Some,
        (*final(slot)) is Some ==> (*final(slot))->0.entries() == (*old(slot))->0.entries(),
        (*final(slot)) is Some ==> (*final(slot))->0.level_code() == match filter_named(lowercase(level@)) {
            Some(f) => filter_rank(f),
            None => (*old(slot))->0.level_code(),
        },
{
    let filter: LevelFilter = match parse_level(level) {
        Ok(f) => f,
        Err(e) => {
            return Err(e);
        },
    };
    match slot {
        Some(l) => {
            proof {
                use_type_invariant(&*l);
            }
            l.level = filter_to_u8(filter);
        },
        None => {},
    }
    Ok(())
}

/// The name of the current verbosity; `"debug"` when no logger is installed.
pub fn current_level(slot: &Option<UiLogger>) -> (name: &'static str)
    ensures
        name@ == match slot {
            Some(l) => filter_name(filter_of_rank(l.level_code())),
            None => filter_name(LevelFilter::Debug),
        },
{
    let v: u8 = match slot {
        Some(l) => l.level,
        None => filter_to_u8(LevelFilter::Debug),
    };
    match u8_to_filter(v) {
        LevelFilter::Off => "off",
        LevelFilter::Error => "error",
        LevelFilter::Warn => "warn",
        LevelFilter::Info => "info",
        LevelFilter::Debug => "debug",
        LevelFilter::Trace => "trace",
    }
}

} // verus!
