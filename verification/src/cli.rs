//! Command-line grammar of the program.
//!
//! Two subcommands: `play`, which takes the paths to cast and an optional
//! 1-based `--playlist-start` index, and `listen`, which takes nothing.
//! Before the subcommand, `--port` picks the port (or inclusive port range)
//! to serve on and `--beets-db` points at a tag library. Every flag takes
//! its value as the following argument; a repeated flag keeps its last
//! value. Port numbers are unsigned 16-bit, non-zero, with an optional
//! leading plus sign.

use vstd::prelude::*;

use crate::mpris::opt_view;
use crate::text::{find_char, spec_find_char, str_eq};

verus! {

/// Why an integer argument failed to parse. Mirrors the failure kinds of a
/// non-zero 16-bit parse: nothing to parse, a character that is no digit,
/// a value past the type's range, and the excluded zero.
#[derive(Clone, Copy, Debug, PartialEq, Eq, Structural)]
pub enum IntParseError {
    /// The argument is empty.
    Empty,
    /// A character is not an ASCII digit.
    InvalidDigit,
    /// The value exceeds the 16-bit range.
    PosOverflow,
    /// The value is zero, which the argument excludes.
    Zero,
}

/// Why a port or port range failed to parse.
#[derive(Clone, Copy, Debug, PartialEq, Eq, Structural)]
pub enum RangeParseError {
    /// A bound is not a valid non-zero port number.
    BadInt(IntParseError),
    /// The range's start exceeds its end.
    EmptyRange,
}

/// The port selection: an ephemeral port, a single port, or an inclusive
/// range tried in order.
#[derive(Clone, Copy, Debug, PartialEq, Eq, Structural)]
pub enum PortOrRange {
    /// Let the system pick an ephemeral port.
    RandomPort,
    /// Exactly this port.
    SinglePort(u16),
    /// Every port from the first bound through the second, inclusive.
    Range(u16, u16),
}

/// What the program is asked to do.
#[derive(Clone, Debug)]
pub enum Command {
    /// Cast the given paths to the receiver.
    Play {
        /// Paths to play: a directory or a list of music files.
        paths: Vec<String>,
        /// 1-based index of the first entry to play.
        playlist_start: u16,
    },
    /// Follow the playback of an already-running receiver session.
    Listen,
}

/// The parsed command line.
#[derive(Clone, Debug)]
pub struct App {
    /// The port selection for the HTTP server.
    pub port: PortOrRange,
    /// Path to a tag library database, when given.
    pub beets_db: Option<String>,
    /// The subcommand.
    pub cmd: Command,
}

/// Why the command line was rejected.
#[derive(Clone, Copy, Debug, PartialEq, Eq, Structural)]
pub enum CliError {
    /// No subcommand was given.
    MissingCommand,
    /// An argument is neither a known flag nor a subcommand.
    UnknownArgument,
    /// A flag misses its value.
    MissingValue,
    /// The `--port` value is not a port or port range.
    BadPort(RangeParseError),
    /// The `--playlist-start` value is not a positive 16-bit number.
    BadPlaylistStart(IntParseError),
    /// The `play` subcommand was given no path.
    NoPaths,
    /// The `listen` subcommand takes no argument.
    UnexpectedArgument,
}

/// Mathematical value of a [`Command`].
pub enum CommandView {
    /// Cast the given paths to the receiver.
    Play {
        /// Paths to play.
        paths: Seq<Seq<char>>,
        /// 1-based index of the first entry to play.
        playlist_start: u16,
    },
    /// Follow the playback of an already-running receiver session.
    Listen,
}

/// Mathematical value of an [`App`].
pub struct AppView {
    /// The port selection for the HTTP server.
    pub port: PortOrRange,
    /// Path to a tag library database, when given.
    pub beets_db: Option<Seq<char>>,
    /// The subcommand.
    pub cmd: CommandView,
}

impl View for Command {
    type V = CommandView;

    open spec fn view(&self) -> CommandView {
        match self {
            Command::Play { paths, playlist_start } => CommandView::Play {
                paths: paths.deep_view(),
                playlist_start: *playlist_start,
            },
            Command::Listen => CommandView::Listen,
        }
    }
}

impl View for App {
    type V = AppView;

    open spec fn view(&self) -> AppView {
        AppView { port: self.port, beets_db: opt_view(self.beets_db), cmd: self.cmd@ }
    }
}

impl PortOrRange {
    /// A parsed port selection is well formed: ports are non-zero and a
    /// range runs upward.
    pub open spec fn wf(self) -> bool {
        match self {
            PortOrRange::RandomPort => true,
            PortOrRange::SinglePort(p) => p != 0,
            PortOrRange::Range(a, b) => 0 < a && a <= b,
        }
    }

    /// The inclusive bounds of the ports to try, in order; the ephemeral
    /// selection is the single port zero.
    pub fn ports(&self) -> (r: (u16, u16))
        ensures
            r == spec_ports(*self),
    {
        match self {
            PortOrRange::RandomPort => (0, 0),
            PortOrRange::SinglePort(p) => (*p, *p),
            PortOrRange::Range(a, b) => (*a, *b),
        }
    }

    /// Parses a port (`80`) or an inclusive port range (`80:90`), split at
    /// the first colon.
    pub fn from_str(s: &str) -> (r: Result<PortOrRange, RangeParseError>)
        ensures
            r == spec_port_or_range(s@),
            r matches Ok(p) ==> p.wf(),
    {
        let n = s.unicode_len();
        match find_char(s, ':') {
            Some(i) => {
                proof {
                    crate::text::lemma_find_char_sound(s@, ':');
                }
                let start_str = s.substring_char(0, i);
                let end_str = s.substring_char(i + 1, n);
                match parse_nonzero_u16(start_str) {
                    Err(e) => Err(RangeParseError::BadInt(e)),
                    Ok(a) => match parse_nonzero_u16(end_str) {
                        Err(e) => Err(RangeParseError::BadInt(e)),
                        Ok(b) => {
                            if a <= b {
                                Ok(PortOrRange::Range(a, b))
                            } else {
                                Err(RangeParseError::EmptyRange)
                            }
                        },
                    },
                }
            },
            None => match parse_nonzero_u16(s) {
                Ok(p) => Ok(PortOrRange::SinglePort(p)),
                Err(e) => Err(RangeParseError::BadInt(e)),
            },
        }
    }
}

/// The inclusive port bounds each selection stands for.
pub open spec fn spec_ports(p: PortOrRange) -> (u16, u16) {
    match p {
        PortOrRange::RandomPort => (0u16, 0u16),
        PortOrRange::SinglePort(p) => (p, p),
        PortOrRange::Range(a, b) => (a, b),
    }
}

/// Scans ASCII digits left to right, accumulating their value, failing on
/// the first non-digit or on the first step past the 16-bit range.
pub open spec fn spec_scan_u16(digits: Seq<char>, acc: int) -> Result<u16, IntParseError>
    recommends
        0 <= acc <= 65535,
    decreases digits.len(),
{
    if digits.len() == 0 {
        Ok(acc as u16)
    } else if !('0' <= digits[0] <= '9') {
        Err(IntParseError::InvalidDigit)
    } else if acc * 10 + (digits[0] as int - '0' as int) > 65535 {
        Err(IntParseError::PosOverflow)
    } else {
        spec_scan_u16(digits.drop_first(), acc * 10 + (digits[0] as int - '0' as int))
    }
}

/// Parses an unsigned 16-bit number: an optional leading plus sign, then
/// at least one ASCII digit.
pub open spec fn spec_parse_u16(s: Seq<char>) -> Result<u16, IntParseError> {
    if s.len() == 0 {
        Err(IntParseError::Empty)
    } else {
        let digits = if s[0] == '+' {
            s.drop_first()
        } else {
            s
        };
        if digits.len() == 0 {
            Err(IntParseError::InvalidDigit)
        } else {
            spec_scan_u16(digits, 0)
        }
    }
}

/// Parses a non-zero unsigned 16-bit number.
pub open spec fn spec_parse_nonzero_u16(s: Seq<char>) -> Result<u16, IntParseError> {
    match spec_parse_u16(s) {
        Ok(v) => if v == 0 {
            Err(IntParseError::Zero)
        } else {
            Ok(v)
        },
        Err(e) => Err(e),
    }
}

/// Parses a non-zero unsigned 16-bit number from a string.
pub fn parse_nonzero_u16(s: &str) -> (r: Result<u16, IntParseError>)
    ensures
        r == spec_parse_nonzero_u16(s@),
        r matches Ok(v) ==> v != 0,
{
    let n = s.unicode_len();
    if n == 0 {
        return Err(IntParseError::Empty);
    }
    let start: usize = if s.get_char(0) == '+' {
        1
    } else {
        0
    };
    let ghost digits = if s@[0] == '+' {
        s@.drop_first()
    } else {
        s@
    };
    proof {
        assert(digits =~= s@.subrange(start as int, n as int));
    }
    if n - start == 0 {
        return Err(IntParseError::InvalidDigit);
    }
    let mut acc: u32 = 0;
    let mut i: usize = start;
    proof {
        assert(digits.skip(0) =~= digits);
        assert(spec_parse_u16(s@) == spec_scan_u16(digits, 0));
    }
    while i < n
        invariant
            n == s@.len(),
            start <= 1,
            start <= i <= n,
            start < n,
            digits == s@.subrange(start as int, n as int),
            spec_parse_u16(s@) == spec_scan_u16(digits, 0),
            acc <= 65535,
            spec_scan_u16(digits, 0) == spec_scan_u16(
                digits.skip((i - start) as int),
                acc as int,
            ),
        decreases n - i,
    {
        let ghost k = (i - start) as int;
        proof {
            assert(digits.skip(k)[0] == s@[i as int]);
        }
        let c = s.get_char(i);
        if !('0' <= c && c <= '9') {
            proof {
                assert(digits.skip(k).len() > 0);
                assert(spec_scan_u16(digits.skip(k), acc as int) == Err::<u16, IntParseError>(
                    IntParseError::InvalidDigit,
                ));
            }
            return Err(IntParseError::InvalidDigit);
        }
        let d = c as u32 - '0' as u32;
        let next = acc * 10 + d;
        if next > 65535 {
            proof {
                assert(digits.skip(k).len() > 0);
                assert(spec_scan_u16(digits.skip(k), acc as int) == Err::<u16, IntParseError>(
                    IntParseError::PosOverflow,
                ));
            }
            return Err(IntParseError::PosOverflow);
        }
        acc = next;
        i += 1;
        proof {
            assert(digits.skip(k).drop_first() =~= digits.skip(k + 1));
        }
    }
    proof {
        assert(digits.skip((n - start) as int) =~= Seq::<char>::empty());
    }
    let v = acc as u16;
    if v == 0 {
        Err(IntParseError::Zero)
    } else {
        Ok(v)
    }
}

/// Parses a port (`80`) or an inclusive port range (`80:90`).
pub open spec fn spec_port_or_range(s: Seq<char>) -> Result<PortOrRange, RangeParseError> {
    match spec_find_char(s, ':') {
        Some(i) => {
            match spec_parse_nonzero_u16(s.subrange(0, i)) {
                Err(e) => Err(RangeParseError::BadInt(e)),
                Ok(a) => match spec_parse_nonzero_u16(s.subrange(i + 1, s.len() as int)) {
                    Err(e) => Err(RangeParseError::BadInt(e)),
                    Ok(b) => if a <= b {
                        Ok(PortOrRange::Range(a, b))
                    } else {
                        Err(RangeParseError::EmptyRange)
                    },
                },
            }
        },
        None => match spec_parse_nonzero_u16(s) {
            Ok(p) => Ok(PortOrRange::SinglePort(p)),
            Err(e) => Err(RangeParseError::BadInt(e)),
        },
    }
}

/// Whether an argument is a flag: it starts with two dashes.
pub open spec fn spec_is_flag(s: Seq<char>) -> bool {
    s.len() >= 2 && s[0] == '-' && s[1] == '-'
}

/// Parses the arguments after the `play` subcommand: an optional
/// `--playlist-start` and the paths to play, at least one.
pub open spec fn spec_cli_play(
    args: Seq<Seq<char>>,
    port: PortOrRange,
    beets_db: Option<Seq<char>>,
    playlist_start: u16,
    paths: Seq<Seq<char>>,
) -> Result<AppView, CliError>
    decreases args.len(),
{
    if args.len() == 0 {
        if paths.len() == 0 {
            Err(CliError::NoPaths)
        } else {
            Ok(AppView { port, beets_db, cmd: CommandView::Play { paths, playlist_start } })
        }
    } else if args[0] == "--playlist-start"@ {
        if args.len() < 2 {
            Err(CliError::MissingValue)
        } else {
            match spec_parse_nonzero_u16(args[1]) {
                Ok(v) => spec_cli_play(args.skip(2), port, beets_db, v, paths),
                Err(e) => Err(CliError::BadPlaylistStart(e)),
            }
        }
    } else if spec_is_flag(args[0]) {
        Err(CliError::UnknownArgument)
    } else {
        spec_cli_play(args.drop_first(), port, beets_db, playlist_start, paths.push(args[0]))
    }
}

/// Parses the arguments before the subcommand: `--port` and `--beets-db`,
/// then `play` or `listen`.
pub open spec fn spec_cli_top(
    args: Seq<Seq<char>>,
    port: PortOrRange,
    beets_db: Option<Seq<char>>,
) -> Result<AppView, CliError>
    decreases args.len(),
{
    if args.len() == 0 {
        Err(CliError::MissingCommand)
    } else if args[0] == "play"@ {
        spec_cli_play(args.drop_first(), port, beets_db, 1u16, Seq::empty())
    } else if args[0] == "listen"@ {
        if args.len() == 1 {
            Ok(AppView { port, beets_db, cmd: CommandView::Listen })
        } else {
            Err(CliError::UnexpectedArgument)
        }
    } else if args[0] == "--port"@ {
        if args.len() < 2 {
            Err(CliError::MissingValue)
        } else {
            match spec_port_or_range(args[1]) {
                Ok(p) => spec_cli_top(args.skip(2), p, beets_db),
                Err(e) => Err(CliError::BadPort(e)),
            }
        }
    } else if args[0] == "--beets-db"@ {
        if args.len() < 2 {
            Err(CliError::MissingValue)
        } else {
            spec_cli_top(args.skip(2), port, Some(args[1]))
        }
    } else {
        Err(CliError::UnknownArgument)
    }
}

/// The command line's value: defaults applied, then the grammar above.
pub open spec fn spec_parse_cli(args: Seq<Seq<char>>) -> Result<AppView, CliError> {
    spec_cli_top(args, PortOrRange::RandomPort, None)
}

impl App {
    /// A parsed command line is well formed: the port selection is, and a
    /// playlist start index is 1-based.
    pub open spec fn wf(self) -> bool {
        &&& self.port.wf()
        &&& (self.cmd@ matches CommandView::Play { playlist_start, .. } ==> playlist_start >= 1)
    }
}

/// Parses the command line, given the arguments after the program name.
pub fn parse_cli(args: &Vec<String>) -> (r: Result<App, CliError>)
    ensures
        match r {
            Ok(app) => spec_parse_cli(args.deep_view()) == Ok::<AppView, CliError>(app@)
                && app.wf(),
            Err(e) => spec_parse_cli(args.deep_view()) == Err::<AppView, CliError>(e),
        },
{
    let ghost all = args.deep_view();
    let mut port = PortOrRange::RandomPort;
    let mut beets_db: Option<String> = None;
    let mut i: usize = 0;
    proof {
        assert(all.skip(0) =~= all);
    }
    while i < args.len()
        invariant
            all == args.deep_view(),
            i <= args@.len(),
            port.wf(),
            spec_parse_cli(all) == spec_cli_top(all.skip(i as int), port, opt_view(beets_db)),
        decreases args@.len() - i,
    {
        proof {
            assert(all.skip(i as int)[0] == args@[i as int]@);
        }
        let a = &args[i];
        if str_eq(a.as_str(), "play") {
            proof {
                assert(all.skip(i as int).drop_first() =~= all.skip(i + 1 as int));
            }
            return parse_play(args, i + 1, port, beets_db);
        } else if str_eq(a.as_str(), "listen") {
            if i + 1 == args.len() {
                return Ok(App { port, beets_db, cmd: Command::Listen });
            } else {
                return Err(CliError::UnexpectedArgument);
            }
        } else if str_eq(a.as_str(), "--port") {
            if i + 1 >= args.len() {
                return Err(CliError::MissingValue);
            }
            proof {
                assert(all.skip(i as int)[1] == args@[i + 1 as int]@);
            }
            match PortOrRange::from_str(args[i + 1].as_str()) {
                Ok(p) => {
                    port = p;
                    i += 2;
                },
                Err(e) => {
                    return Err(CliError::BadPort(e));
                },
            }
            proof {
                assert(all.skip((i - 2) as int).skip(2) =~= all.skip(i as int));
            }
        } else if str_eq(a.as_str(), "--beets-db") {
            if i + 1 >= args.len() {
                return Err(CliError::MissingValue);
            }
            proof {
                assert(all.skip(i as int)[1] == args@[i + 1 as int]@);
            }
            beets_db = Some(args[i + 1].clone());
            i += 2;
            proof {
                assert(all.skip((i - 2) as int).skip(2) =~= all.skip(i as int));
            }
        } else {
            return Err(CliError::UnknownArgument);
        }
    }
    proof {
        assert(all.skip(i as int) =~= Seq::<Seq<char>>::empty());
    }
    Err(CliError::MissingCommand)
}

/// Parses what follows the `play` subcommand.
fn parse_play(args: &Vec<String>, from: usize, port: PortOrRange, beets_db: Option<String>) -> (r:
    Result<App, CliError>)
    requires
        from <= args@.len(),
        port.wf(),
    ensures
        match r {
            Ok(app) => spec_cli_play(
                args.deep_view().skip(from as int),
                port,
                opt_view(beets_db),
                1u16,
                Seq::empty(),
            ) == Ok::<AppView, CliError>(app@) && app.wf(),
            Err(e) => spec_cli_play(
                args.deep_view().skip(from as int),
                port,
                opt_view(beets_db),
                1u16,
                Seq::empty(),
            ) == Err::<AppView, CliError>(e),
        },
{
    let ghost all = args.deep_view();
    let mut playlist_start: u16 = 1;
    let mut paths: Vec<String> = Vec::new();
    let mut i: usize = from;
    proof {
        assert(paths.deep_view() =~= Seq::<Seq<char>>::empty());
    }
    while i < args.len()
        invariant
            all == args.deep_view(),
            from <= i <= args@.len(),
            port.wf(),
            playlist_start >= 1,
            spec_cli_play(all.skip(from as int), port, opt_view(beets_db), 1u16, Seq::empty())
                == spec_cli_play(
                all.skip(i as int),
                port,
                opt_view(beets_db),
                playlist_start,
                paths.deep_view(),
            ),
        decreases args@.len() - i,
    {
        proof {
            assert(all.skip(i as int)[0] == args@[i as int]@);
        }
        let a = &args[i];
        if str_eq(a.as_str(), "--playlist-start") {
            if i + 1 >= args.len() {
                return Err(CliError::MissingValue);
            }
            proof {
                assert(all.skip(i as int)[1] == args@[i + 1 as int]@);
            }
            match parse_nonzero_u16(args[i + 1].as_str()) {
                Ok(v) => {
                    playlist_start = v;
                    i += 2;
                },
                Err(e) => {
                    return Err(CliError::BadPlaylistStart(e));
                },
            }
            proof {
                assert(all.skip((i - 2) as int).skip(2) =~= all.skip(i as int));
            }
        } else {
            let is_flag = a.unicode_len() >= 2 && a.get_char(0) == '-' && a.get_char(1) == '-';
            if is_flag {
                return Err(CliError::UnknownArgument);
            }
            let ghost paths0 = paths.deep_view();
            paths.push(a.clone());
            i += 1;
            proof {
                assert(paths.deep_view() =~= paths0.push(args@[(i - 1) as int]@));
                assert(all.skip((i - 1) as int).drop_first() =~= all.skip(i as int));
            }
        }
    }
    proof {
        assert(all.skip(i as int) =~= Seq::<Seq<char>>::empty());
    }
    if paths.len() == 0 {
        Err(CliError::NoPaths)
    } else {
        Ok(App { port, beets_db, cmd: Command::Play { paths, playlist_start } })
    }
}

} // verus!
