//! Rendering of one log event into its two textual forms: a terse,
//! optionally colored line for the terminal, and a complete plain line for
//! the file.
//!
//! The two paths are deliberately independent: the file line is an audit
//! record and always carries the full date, the full time and the source
//! token, whatever the configuration says about terminal output.

use vstd::prelude::*;

use crate::config::LoggerConfig;
use crate::level::Level;
use crate::record::LogRecord;
use crate::record::LogRecordV;
use crate::text::esc_char;
use crate::text::lemma_dec_digits;
use crate::text::lemma_no_esc_concat;
use crate::text::lemma_pad2_no_esc;
use crate::text::lemma_pad4_no_esc;
use crate::text::no_esc;
use crate::text::spec_dec;
use crate::text::spec_pad2;
use crate::text::spec_pad4;
use crate::timestamp::Timestamp;
use crate::text::dec_u32;
use crate::text::pad2;
use crate::text::pad4;

verus! {

/// The ANSI sequence that returns the terminal to its default style.
pub open spec fn spec_reset() -> Seq<char> {
    seq![esc_char(), '[', '0', 'm']
}

/// The ANSI sequence for bold red, the style of the `ERROR` label.
pub open spec fn spec_bold_red() -> Seq<char> {
    seq![esc_char(), '[', '1', ';', '3', '1', 'm']
}

/// The ANSI sequence for bold yellow, the style of the `WARN` label.
pub open spec fn spec_bold_yellow() -> Seq<char> {
    seq![esc_char(), '[', '1', ';', '3', '3', 'm']
}

/// The ANSI sequence for bold blue, the style of the `INFO` label.
pub open spec fn spec_bold_blue() -> Seq<char> {
    seq![esc_char(), '[', '1', ';', '3', '4', 'm']
}

/// The ANSI sequence for green, the style of the `DEBUG` label.
pub open spec fn spec_green() -> Seq<char> {
    seq![esc_char(), '[', '3', '2', 'm']
}

/// The ANSI sequence for the dim gray that timestamps and source tokens
/// carry when colors are on.
pub open spec fn spec_dim() -> Seq<char> {
    seq![esc_char(), '[', '9', '0', 'm']
}

/// The plain text label of a level.
pub open spec fn spec_label(l: Level) -> Seq<char> {
    match l {
        Level::Trace => seq!['T', 'R', 'A', 'C', 'E'],
        Level::Debug => seq!['D', 'E', 'B', 'U', 'G'],
        Level::Info => seq!['I', 'N', 'F', 'O'],
        Level::Warn => seq!['W', 'A', 'R', 'N'],
        Level::Error => seq!['E', 'R', 'R', 'O', 'R'],
    }
}

/// The level label as it goes to the terminal: plain when colors are off;
/// otherwise styled per level, except `Trace`, which stays unstyled.
pub open spec fn spec_styled_label(l: Level, colors: bool) -> Seq<char> {
    if colors {
        match l {
            Level::Trace => spec_label(l),
            Level::Debug => spec_green() + spec_label(l) + spec_reset(),
            Level::Info => spec_bold_blue() + spec_label(l) + spec_reset(),
            Level::Warn => spec_bold_yellow() + spec_label(l) + spec_reset(),
            Level::Error => spec_bold_red() + spec_label(l) + spec_reset(),
        }
    } else {
        spec_label(l)
    }
}

/// A fragment wrapped in the dim style when colors are on, untouched
/// otherwise.
pub open spec fn spec_dimmed(s: Seq<char>, colors: bool) -> Seq<char> {
    if colors {
        spec_dim() + s + spec_reset()
    } else {
        s
    }
}

/// The time of day as `HH:MM:SS`.
pub open spec fn spec_time(ts: Timestamp) -> Seq<char> {
    spec_pad2(ts.hour as int) + seq![':'] + spec_pad2(ts.minute as int) + seq![':'] + spec_pad2(
        ts.second as int,
    )
}

/// The calendar date as `YYYY-MM-DD`.
pub open spec fn spec_date(ts: Timestamp) -> Seq<char> {
    spec_pad4(ts.year as int) + seq!['-'] + spec_pad2(ts.month as int) + seq!['-'] + spec_pad2(
        ts.day as int,
    )
}

/// The sentinel that stands in for an absent source file name.
pub open spec fn spec_unknown() -> Seq<char> {
    seq!['u', 'n', 'k', 'n', 'o', 'w', 'n']
}

/// The source token `file:line`, with `unknown` and `0` standing in for
/// absent provenance.
pub open spec fn spec_source(file: Option<Seq<char>>, line: Option<u32>) -> Seq<char> {
    (match file {
        Option::Some(f) => f,
        Option::None => spec_unknown(),
    }) + seq![':'] + spec_dec(
        (match line {
            Option::Some(n) => n,
            Option::None => 0u32,
        }) as nat,
    )
}

/// The timestamp fragment of a terminal line: time only, or date and time
/// when the configuration asks for the date.
pub open spec fn spec_stdout_stamp(c: LoggerConfig, ts: Timestamp) -> Seq<char> {
    if c.show_date_in_stdout {
        spec_date(ts) + seq![' '] + spec_time(ts)
    } else {
        spec_time(ts)
    }
}

/// The complete file line:
/// `[YYYY-MM-DD HH:MM:SS LEVEL file:line] message\n`, always plain, always
/// with full provenance, independent of every configuration flag.
pub open spec fn spec_file_line(rec: LogRecordV, ts: Timestamp) -> Seq<char> {
    seq!['['] + spec_date(ts) + seq![' '] + spec_time(ts) + seq![' '] + spec_label(rec.level)
        + seq![' '] + spec_source(rec.file, rec.line) + seq![']', ' '] + rec.message + seq!['\n']
}

/// The complete terminal line, without a trailing newline:
/// `[<stamp> <level>] message`, with the source token inserted before the
/// closing bracket when the configuration shows it, and with the stamp and
/// source dimmed when colors are on.
pub open spec fn spec_stdout_line(c: LoggerConfig, rec: LogRecordV, ts: Timestamp) -> Seq<char> {
    let stamp = spec_dimmed(spec_stdout_stamp(c, ts), c.use_colors);
    let label = spec_styled_label(rec.level, c.use_colors);
    if c.show_file_info {
        seq!['['] + stamp + seq![' '] + label + seq![' '] + spec_dimmed(
            spec_source(rec.file, rec.line),
            c.use_colors,
        ) + seq![']', ' '] + rec.message
    } else {
        seq!['['] + stamp + seq![' '] + label + seq![']', ' '] + rec.message
    }
}

/// Renders log events for both destinations under one configuration. It
/// never writes and never filters.
pub struct LogFormatter {
    config: LoggerConfig,
}

impl View for LogFormatter {
    type V = LoggerConfig;

    closed spec fn view(&self) -> LoggerConfig {
        self.config
    }
}

/// The plain label of a level, as a string slice.
fn level_label(l: Level) -> (r: &'static str)
    ensures
        r@ =~= spec_label(l),
{
    proof {
        reveal_strlit("TRACE");
        reveal_strlit("DEBUG");
        reveal_strlit("INFO");
        reveal_strlit("WARN");
        reveal_strlit("ERROR");
    }
    match l {
        Level::Trace => "TRACE",
        Level::Debug => "DEBUG",
        Level::Info => "INFO",
        Level::Warn => "WARN",
        Level::Error => "ERROR",
    }
}

/// The ANSI reset sequence, as a string slice.
fn reset_str() -> (r: &'static str)
    ensures
        r@ =~= spec_reset(),
{
    proof {
        reveal_strlit("\u{1b}[0m");
    }
    "\u{1b}[0m"
}

/// Wrap a fragment in the dim style when colors are on.
fn dim_wrap(s: String, colors: bool) -> (r: String)
    ensures
        r@ == spec_dimmed(s@, colors),
{
    if colors {
        proof {
            reveal_strlit("\u{1b}[90m");
        }
        let mut out = String::from_str("\u{1b}[90m");
        out.append(s.as_str());
        out.append(reset_str());
        proof {
            assert(out@ =~= spec_dimmed(s@, colors));
        }
        out
    } else {
        s
    }
}

/// The level label as the terminal shows it: styled per level when colors
/// are on, plain otherwise.
fn styled_label(l: Level, colors: bool) -> (r: String)
    ensures
        r@ == spec_styled_label(l, colors),
{
    if colors {
        let color: &'static str = match l {
            Level::Trace => {
                proof {
                    reveal_strlit("");
                }
                ""
            },
            Level::Debug => {
                proof {
                    reveal_strlit("\u{1b}[32m");
                }
                "\u{1b}[32m"
            },
            Level::Info => {
                proof {
                    reveal_strlit("\u{1b}[1;34m");
                }
                "\u{1b}[1;34m"
            },
            Level::Warn => {
                proof {
                    reveal_strlit("\u{1b}[1;33m");
                }
                "\u{1b}[1;33m"
            },
            Level::Error => {
                proof {
                    reveal_strlit("\u{1b}[1;31m");
                }
                "\u{1b}[1;31m"
            },
        };
        if let Level::Trace = l {
            let out = String::from_str(level_label(l));
            proof {
                assert(out@ =~= spec_styled_label(l, colors));
            }
            out
        } else {
            let mut out = String::from_str(color);
            out.append(level_label(l));
            out.append(reset_str());
            proof {
                assert(out@ =~= spec_styled_label(l, colors));
            }
            out
        }
    } else {
        let out = String::from_str(level_label(l));
        proof {
            assert(out@ =~= spec_styled_label(l, colors));
        }
        out
    }
}

/// The time of day as `HH:MM:SS`.
fn render_time(ts: Timestamp) -> (r: String)
    requires
        ts.wf(),
    ensures
        r@ == spec_time(ts),
{
    proof {
        reveal_strlit(":");
    }
    let mut s = pad2(ts.hour);
    s.append(":");
    let m = pad2(ts.minute);
    s.append(m.as_str());
    s.append(":");
    let sec = pad2(ts.second);
    s.append(sec.as_str());
    proof {
        assert(s@ =~= spec_time(ts));
    }
    s
}

/// The calendar date as `YYYY-MM-DD`.
fn render_date(ts: Timestamp) -> (r: String)
    requires
        ts.wf(),
    ensures
        r@ == spec_date(ts),
{
    proof {
        reveal_strlit("-");
    }
    let mut s = pad4(ts.year);
    s.append("-");
    let m = pad2(ts.month);
    s.append(m.as_str());
    s.append("-");
    let d = pad2(ts.day);
    s.append(d.as_str());
    proof {
        assert(s@ =~= spec_date(ts));
    }
    s
}

/// The source token `file:line`, with sentinels for absent provenance.
fn render_source(rec: &LogRecord) -> (r: String)
    ensures
        r@ == spec_source(rec@.file, rec@.line),
{
    proof {
        reveal_strlit("unknown");
        reveal_strlit(":");
    }
    let mut s = match &rec.file {
        Option::Some(f) => String::from_str(f.as_str()),
        Option::None => {
            let u = String::from_str("unknown");
            proof {
                assert(u@ =~= spec_unknown());
            }
            u
        },
    };
    s.append(":");
    let n: u32 = match rec.line {
        Option::Some(n) => n,
        Option::None => 0,
    };
    let digits = dec_u32(n);
    s.append(digits.as_str());
    proof {
        assert(s@ =~= spec_source(rec@.file, rec@.line));
    }
    s
}

impl LogFormatter {
    /// A formatter that renders under the given configuration.
    pub fn new(config: LoggerConfig) -> (r: Self)
        ensures
            r@ == config,
    {
        LogFormatter { config }
    }

    /// The configuration this formatter renders under.
    pub fn config(&self) -> (r: LoggerConfig)
        ensures
            r == self@,
    {
        self.config
    }

    /// Render the file line for an event at a known instant.
    pub fn format_file_at(&self, rec: &LogRecord, ts: Timestamp) -> (r: String)
        requires
            ts.wf(),
        ensures
            r@ == spec_file_line(rec@, ts),
    {
        proof {
            reveal_strlit("[");
            reveal_strlit(" ");
            reveal_strlit("] ");
            reveal_strlit("\n");
        }
        let mut s = String::from_str("[");
        let date = render_date(ts);
        s.append(date.as_str());
        s.append(" ");
        let time = render_time(ts);
        s.append(time.as_str());
        s.append(" ");
        s.append(level_label(rec.level));
        s.append(" ");
        let src = render_source(rec);
        s.append(src.as_str());
        s.append("] ");
        s.append(rec.message.as_str());
        s.append("\n");
        proof {
            assert(s@ =~= spec_file_line(rec@, ts));
        }
        s
    }

    /// Render the terminal line for an event at a known instant.
    pub fn format_stdout_at(&self, rec: &LogRecord, ts: Timestamp) -> (r: String)
        requires
            ts.wf(),
        ensures
            r@ == spec_stdout_line(self@, rec@, ts),
    {
        proof {
            reveal_strlit("[");
            reveal_strlit(" ");
            reveal_strlit("] ");
        }
        let colors = self.config.use_colors;
        let stamp_plain = if self.config.show_date_in_stdout {
            let mut d = render_date(ts);
            d.append(" ");
            let t = render_time(ts);
            d.append(t.as_str());
            proof {
                assert(d@ =~= spec_stdout_stamp(self@, ts));
            }
            d
        } else {
            render_time(ts)
        };
        let stamp = dim_wrap(stamp_plain, colors);
        let label = styled_label(rec.level, colors);
        let mut s = String::from_str("[");
        s.append(stamp.as_str());
        s.append(" ");
        s.append(label.as_str());
        if self.config.show_file_info {
            s.append(" ");
            let src = dim_wrap(render_source(rec), colors);
            s.append(src.as_str());
        }
        s.append("] ");
        s.append(rec.message.as_str());
        proof {
            assert(s@ =~= spec_stdout_line(self@, rec@, ts));
        }
        s
    }

    /// Render the terminal line for an event at the current instant of the
    /// local wall clock.
    pub fn format_stdout(&self, rec: &LogRecord) -> (r: String)
        ensures
            exists|ts: Timestamp| ts.wf() && r@ == spec_stdout_line(self@, rec@, ts),
    {
        let ts = Timestamp::now();
        let r = self.format_stdout_at(rec, ts);
        proof {
            assert(ts.wf() && r@ == spec_stdout_line(self@, rec@, ts));
        }
        r
    }

    /// Render the file line for an event at the current instant of the local
    /// wall clock.
    pub fn format_file(&self, rec: &LogRecord) -> (r: String)
        ensures
            exists|ts: Timestamp| ts.wf() && r@ == spec_file_line(rec@, ts),
    {
        let ts = Timestamp::now();
        let r = self.format_file_at(rec, ts);
        proof {
            assert(ts.wf() && r@ == spec_file_line(rec@, ts));
        }
        r
    }
}

/// A plain level label never holds the escape character.
pub proof fn lemma_label_no_esc(l: Level)
    ensures
        no_esc(spec_label(l)),
{
}

/// A rendered time of day holds only digits and colons.
pub proof fn lemma_time_no_esc(ts: Timestamp)
    ensures
        no_esc(spec_time(ts)),
{
    lemma_pad2_no_esc(ts.hour as int);
    lemma_pad2_no_esc(ts.minute as int);
    lemma_pad2_no_esc(ts.second as int);
    lemma_no_esc_concat(spec_pad2(ts.hour as int), seq![':']);
    lemma_no_esc_concat(spec_pad2(ts.hour as int) + seq![':'], spec_pad2(ts.minute as int));
    lemma_no_esc_concat(
        spec_pad2(ts.hour as int) + seq![':'] + spec_pad2(ts.minute as int),
        seq![':'],
    );
    lemma_no_esc_concat(
        spec_pad2(ts.hour as int) + seq![':'] + spec_pad2(ts.minute as int) + seq![':'],
        spec_pad2(ts.second as int),
    );
}

/// A rendered calendar date holds only digits and dashes.
pub proof fn lemma_date_no_esc(ts: Timestamp)
    ensures
        no_esc(spec_date(ts)),
{
    lemma_pad4_no_esc(ts.year as int);
    lemma_pad2_no_esc(ts.month as int);
    lemma_pad2_no_esc(ts.day as int);
    lemma_no_esc_concat(spec_pad4(ts.year as int), seq!['-']);
    lemma_no_esc_concat(spec_pad4(ts.year as int) + seq!['-'], spec_pad2(ts.month as int));
    lemma_no_esc_concat(
        spec_pad4(ts.year as int) + seq!['-'] + spec_pad2(ts.month as int),
        seq!['-'],
    );
    lemma_no_esc_concat(
        spec_pad4(ts.year as int) + seq!['-'] + spec_pad2(ts.month as int) + seq!['-'],
        spec_pad2(ts.day as int),
    );
}

/// A source token holds no escape character as long as the file name holds
/// none; the sentinel and the digits never do.
pub proof fn lemma_source_no_esc(file: Option<Seq<char>>, line: Option<u32>)
    requires
        file matches Some(f) ==> no_esc(f),
    ensures
        no_esc(spec_source(file, line)),
{
    let name = match file {
        Option::Some(f) => f,
        Option::None => spec_unknown(),
    };
    let n = match line {
        Option::Some(v) => v,
        Option::None => 0u32,
    };
    lemma_dec_digits(n as nat);
    lemma_no_esc_concat(name, seq![':']);
    lemma_no_esc_concat(name + seq![':'], spec_dec(n as nat));
}

/// The whole terminal line is escape-free when colors are off
/// and the inputs carry no escapes of their own.
proof fn lemma_stdout_plain_no_esc(c: LoggerConfig, rec: LogRecordV, ts: Timestamp)
    requires
        !c.use_colors,
        no_esc(rec.message),
        rec.file matches Some(f) ==> no_esc(f),
    ensures
        no_esc(spec_stdout_line(c, rec, ts)),
{
    let stamp = spec_stdout_stamp(c, ts);
    let label = spec_label(rec.level);
    let src = spec_source(rec.file, rec.line);
    lemma_time_no_esc(ts);
    if c.show_date_in_stdout {
        lemma_date_no_esc(ts);
        lemma_no_esc_concat(spec_date(ts), seq![' ']);
        lemma_no_esc_concat(spec_date(ts) + seq![' '], spec_time(ts));
    }
    lemma_label_no_esc(rec.level);
    lemma_source_no_esc(rec.file, rec.line);
    lemma_no_esc_concat(seq!['['], stamp);
    lemma_no_esc_concat(seq!['['] + stamp, seq![' ']);
    lemma_no_esc_concat(seq!['['] + stamp + seq![' '], label);
    if c.show_file_info {
        lemma_no_esc_concat(seq!['['] + stamp + seq![' '] + label, seq![' ']);
        lemma_no_esc_concat(seq!['['] + stamp + seq![' '] + label + seq![' '], src);
        lemma_no_esc_concat(seq!['['] + stamp + seq![' '] + label + seq![' '] + src, seq![']', ' ']);
        lemma_no_esc_concat(
            seq!['['] + stamp + seq![' '] + label + seq![' '] + src + seq![']', ' '],
            rec.message,
        );
    } else {
        lemma_no_esc_concat(seq!['['] + stamp + seq![' '] + label, seq![']', ' ']);
        lemma_no_esc_concat(seq!['['] + stamp + seq![' '] + label + seq![']', ' '], rec.message);
    }
}

/// The terminal line carries ANSI escape bytes exactly when the
/// configuration turns colors on, as long as the message and the file name
/// carry no escape bytes of their own.
pub proof fn lemma_stdout_colors(c: LoggerConfig, rec: LogRecordV, ts: Timestamp)
    requires
        no_esc(rec.message),
        rec.file matches Some(f) ==> no_esc(f),
    ensures
        c.use_colors ==> !no_esc(spec_stdout_line(c, rec, ts)),
        !c.use_colors ==> no_esc(spec_stdout_line(c, rec, ts)),
{
    if c.use_colors {
        let line = spec_stdout_line(c, rec, ts);
        let stamp = spec_dimmed(spec_stdout_stamp(c, ts), c.use_colors);
        assert(stamp[0] == esc_char());
        assert(line[1] == stamp[0]);
        assert(!no_esc(line)) by {
            assert(0 <= 1 < line.len());
            assert(line[1] == esc_char());
        }
    } else {
        lemma_stdout_plain_no_esc(c, rec, ts);
    }
}

/// The file line is the audit record: whatever the configuration says, it
/// opens with the full ten-character date and eight-character time, carries
/// the level label and the whole source token at fixed offsets, closes with
/// a newline, and introduces no escape bytes of its own. No configuration
/// flag appears in its definition at all.
pub proof fn lemma_file_line_fidelity(rec: LogRecordV, ts: Timestamp)
    ensures
        spec_file_line(rec, ts).len() == 25 + spec_label(rec.level).len() + spec_source(
            rec.file,
            rec.line,
        ).len() + rec.message.len(),
        spec_file_line(rec, ts)[0] == '[',
        spec_file_line(rec, ts).subrange(1, 11) == spec_date(ts),
        spec_file_line(rec, ts)[11] == ' ',
        spec_file_line(rec, ts).subrange(12, 20) == spec_time(ts),
        spec_file_line(rec, ts)[20] == ' ',
        spec_file_line(rec, ts).subrange(21, 21 + spec_label(rec.level).len() as int) == spec_label(
            rec.level,
        ),
        spec_file_line(rec, ts).subrange(
            22 + spec_label(rec.level).len() as int,
            22 + spec_label(rec.level).len() + spec_source(rec.file, rec.line).len() as int,
        ) == spec_source(rec.file, rec.line),
        spec_file_line(rec, ts).last() == '\n',
        no_esc(rec.message) && (rec.file matches Some(f) ==> no_esc(f)) ==> no_esc(
            spec_file_line(rec, ts),
        ),
{
    let line = spec_file_line(rec, ts);
    let label = spec_label(rec.level);
    let src = spec_source(rec.file, rec.line);
    assert(spec_date(ts).len() == 10);
    assert(spec_time(ts).len() == 8);
    assert forall|i: int| 0 <= i < 10 implies line[1 + i] == spec_date(ts)[i] by {}
    assert(line.subrange(1, 11) =~= spec_date(ts));
    assert forall|i: int| 0 <= i < 8 implies line[12 + i] == spec_time(ts)[i] by {}
    assert(line.subrange(12, 20) =~= spec_time(ts));
    assert forall|i: int| 0 <= i < label.len() implies line[21 + i] == label[i] by {}
    assert(line.subrange(21, 21 + label.len() as int) =~= label);
    assert forall|i: int| 0 <= i < src.len() implies line[22 + label.len() + i] == src[i] by {}
    assert(line.subrange(22 + label.len() as int, 22 + label.len() + src.len() as int) =~= src);
    if no_esc(rec.message) && (rec.file matches Some(f) ==> no_esc(f)) {
        lemma_date_no_esc(ts);
        lemma_time_no_esc(ts);
        lemma_label_no_esc(rec.level);
        lemma_source_no_esc(rec.file, rec.line);
        lemma_no_esc_concat(seq!['['], spec_date(ts));
        lemma_no_esc_concat(seq!['['] + spec_date(ts), seq![' ']);
        lemma_no_esc_concat(seq!['['] + spec_date(ts) + seq![' '], spec_time(ts));
        lemma_no_esc_concat(seq!['['] + spec_date(ts) + seq![' '] + spec_time(ts), seq![' ']);
        lemma_no_esc_concat(
            seq!['['] + spec_date(ts) + seq![' '] + spec_time(ts) + seq![' '],
            label,
        );
        lemma_no_esc_concat(
            seq!['['] + spec_date(ts) + seq![' '] + spec_time(ts) + seq![' '] + label,
            seq![' '],
        );
        lemma_no_esc_concat(
            seq!['['] + spec_date(ts) + seq![' '] + spec_time(ts) + seq![' '] + label + seq![' '],
            src,
        );
        lemma_no_esc_concat(
            seq!['['] + spec_date(ts) + seq![' '] + spec_time(ts) + seq![' '] + label + seq![' ']
                + src,
            seq![']', ' '],
        );
        lemma_no_esc_concat(
            seq!['['] + spec_date(ts) + seq![' '] + spec_time(ts) + seq![' '] + label + seq![' ']
                + src + seq![']', ' '],
            rec.message,
        );
        lemma_no_esc_concat(
            seq!['['] + spec_date(ts) + seq![' '] + spec_time(ts) + seq![' '] + label + seq![' ']
                + src + seq![']', ' '] + rec.message,
            seq!['\n'],
        );
    }
}

/// With source info off, the terminal line does not depend on the event's
/// provenance at all: two events that differ only in file and line render
/// identically.
pub proof fn lemma_stdout_source_suppressed(
    c: LoggerConfig,
    r1: LogRecordV,
    r2: LogRecordV,
    ts: Timestamp,
)
    requires
        !c.show_file_info,
        r1.level == r2.level,
        r1.message == r2.message,
    ensures
        spec_stdout_line(c, r1, ts) == spec_stdout_line(c, r2, ts),
{
}

/// With source info on, the terminal line carries the whole source token as
/// one contiguous run.
pub proof fn lemma_stdout_carries_source(c: LoggerConfig, rec: LogRecordV, ts: Timestamp)
    requires
        c.show_file_info,
    ensures
        exists|k: int|
            0 <= k && k + spec_source(rec.file, rec.line).len() <= spec_stdout_line(
                c,
                rec,
                ts,
            ).len() && #[trigger] spec_stdout_line(c, rec, ts).subrange(
                k,
                k + spec_source(rec.file, rec.line).len(),
            ) == spec_source(rec.file, rec.line),
{
    let line = spec_stdout_line(c, rec, ts);
    let stamp = spec_dimmed(spec_stdout_stamp(c, ts), c.use_colors);
    let label = spec_styled_label(rec.level, c.use_colors);
    let src = spec_source(rec.file, rec.line);
    let k: int = (3 + stamp.len() + label.len() + (if c.use_colors {
        spec_dim().len()
    } else {
        0nat
    })) as int;
    assert forall|i: int| 0 <= i < src.len() implies line[k + i] == src[i] by {}
    assert(line.subrange(k, k + src.len() as int) =~= src);
    assert(0 <= k && k + src.len() <= line.len());
}

} // verus!
