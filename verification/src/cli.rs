//! The command line: what an argument list asks for, which exit status a failed load
//! gets, and the exit status that a recorded run hands back.
//!
//! Arguments arrive as `Option<String>`: `None` stands for an argument that is not valid
//! UTF-8.

use vstd::prelude::*;
use crate::codec::opt_text_view;
use crate::event::{EnvelopeView, EventEnvelope, Observation, ObservationView, ProcessTermination, RuntimeKindView, RuntimeObservationKind};
use crate::identity::SessionId;
use crate::projections::ProjectionKind;
use crate::store::{envelope_views, EventStoreError};
use crate::text::{contains_text, push_str, str_equal, string_of, text_contains, to_lowercase, unicode_lowercase};
use crate::timeline::{parse_session_id, session_id_error, session_id_of, trimmed};

verus! {

#[derive(Clone, Copy, Debug, PartialEq, Eq, Structural)]
pub enum OutputFormat {
    Human,
    Json,
}

/// Which help text to print on standard output.
#[derive(Clone, Copy, Debug, PartialEq, Eq, Structural)]
pub enum HelpTopic {
    Main,
    Timeline,
    Run,
}

/// A query of one session's events.
pub struct QueryArgs {
    pub session_id: SessionId,
    /// The session identifier as typed.
    pub session_text: String,
    pub db_path: Option<String>,
    pub format: OutputFormat,
}

/// A command to run and record.
pub struct RunArgs {
    pub db_path: Option<String>,
    pub executable: String,
    pub arguments: Vec<String>,
}

/// What a command line asks for.
pub enum CliRequest {
    Help(HelpTopic),
    Version,
    SchemaVersion,
    Timeline(QueryArgs),
    Projection(ProjectionKind, QueryArgs),
    Run(RunArgs),
    /// Lines to print on standard error, and the exit status.
    Message(Vec<String>, u8),
}

pub struct QueryArgsView {
    pub session_id: u128,
    pub session_text: Seq<char>,
    pub db_path: Option<Seq<char>>,
    pub format: OutputFormat,
}

pub struct RunArgsView {
    pub db_path: Option<Seq<char>>,
    pub executable: Seq<char>,
    pub arguments: Seq<Seq<char>>,
}

pub enum CliRequestView {
    Help(HelpTopic),
    Version,
    SchemaVersion,
    Timeline(QueryArgsView),
    Projection(ProjectionKind, QueryArgsView),
    Run(RunArgsView),
    Message(Seq<Seq<char>>, u8),
}

pub open spec fn string_views(s: Seq<String>) -> Seq<Seq<char>> {
    s.map_values(|x: String| x@)
}

pub open spec fn arg_views(s: Seq<Option<String>>) -> Seq<Option<Seq<char>>> {
    s.map_values(|x: Option<String>| opt_text_view(x))
}

impl View for QueryArgs {
    type V = QueryArgsView;

    open spec fn view(&self) -> QueryArgsView {
        QueryArgsView {
            session_id: self.session_id@,
            session_text: self.session_text@,
            db_path: opt_text_view(self.db_path),
            format: self.format,
        }
    }
}

impl View for RunArgs {
    type V = RunArgsView;

    open spec fn view(&self) -> RunArgsView {
        RunArgsView {
            db_path: opt_text_view(self.db_path),
            executable: self.executable@,
            arguments: string_views(self.arguments@),
        }
    }
}

impl View for CliRequest {
    type V = CliRequestView;

    open spec fn view(&self) -> CliRequestView {
        match self {
            CliRequest::Help(t) => CliRequestView::Help(*t),
            CliRequest::Version => CliRequestView::Version,
            CliRequest::SchemaVersion => CliRequestView::SchemaVersion,
            CliRequest::Timeline(q) => CliRequestView::Timeline(q@),
            CliRequest::Projection(k, q) => CliRequestView::Projection(*k, q@),
            CliRequest::Run(r) => CliRequestView::Run(r@),
            CliRequest::Message(lines, code) => CliRequestView::Message(string_views(lines@), *code),
        }
    }
}

// ---------------------------------------------------------------------------
// The meaning of an argument list
// ---------------------------------------------------------------------------

/// An argument that starts with `-` is an option.
pub open spec fn is_option(t: Seq<char>) -> bool {
    t.len() > 0 && t[0] == '-'
}

/// The state of reading a query's arguments.
pub struct QueryScan {
    pub session: Option<Seq<char>>,
    pub db_path: Option<Seq<char>>,
    pub format: OutputFormat,
}

pub enum ScanEnd<S> {
    Done(S),
    Help,
    Fail(Seq<Seq<char>>),
}

pub open spec fn timeline_usage_hint() -> Seq<char> {
    "run `provenance timeline --help` for usage"@
}

pub open spec fn unknown_option_lines(target: Option<ProjectionKind>, t: Seq<char>) -> Seq<Seq<char>> {
    match target {
        None => seq!["unknown option for timeline: "@ + t, timeline_usage_hint()],
        Some(k) => seq!["unknown option for "@ + k.spec_name() + ": "@ + t],
    }
}

pub open spec fn unexpected_lines(target: Option<ProjectionKind>, t: Seq<char>) -> Seq<Seq<char>> {
    match target {
        None => seq!["unexpected argument: "@ + t, timeline_usage_hint()],
        Some(k) => seq!["unexpected argument: "@ + t],
    }
}

pub open spec fn missing_session_lines(target: Option<ProjectionKind>) -> Seq<Seq<char>> {
    match target {
        None => seq!["timeline requires a session id"@, timeline_usage_hint()],
        Some(k) => seq![k.spec_name() + " requires a session id"@],
    }
}

pub open spec fn usage_line(k: ProjectionKind) -> Seq<char> {
    "usage: provenance "@ + k.spec_name() + " <SESSION_ID> [--db <PATH>] [--format human|json]"@
}

/// Reads a query's arguments from position `i` on; `target` is `None` for the timeline.
pub open spec fn scan_query(
    target: Option<ProjectionKind>,
    args: Seq<Option<Seq<char>>>,
    i: int,
    st: QueryScan,
) -> ScanEnd<QueryScan>
    decreases args.len() - i,
{
    if i < 0 || i >= args.len() {
        ScanEnd::Done(st)
    } else {
        match args[i] {
            None => ScanEnd::Fail(seq!["argument is not valid UTF-8"@]),
            Some(t) => if t == "--db"@ || t == "--database"@ {
                if i + 1 >= args.len() {
                    ScanEnd::Fail(seq!["--db requires a value"@])
                } else {
                    match args[i + 1] {
                        None => ScanEnd::Fail(seq!["--db value is not valid UTF-8"@]),
                        Some(v) => scan_query(
                            target,
                            args,
                            i + 2,
                            QueryScan { session: st.session, db_path: Some(v), format: st.format },
                        ),
                    }
                }
            } else if t == "--format"@ {
                if i + 1 >= args.len() {
                    ScanEnd::Fail(seq!["--format requires a value (human|json)"@])
                } else {
                    match args[i + 1] {
                        None => ScanEnd::Fail(seq!["--format value is not valid UTF-8"@]),
                        Some(v) => if v == "human"@ {
                            scan_query(
                                target,
                                args,
                                i + 2,
                                QueryScan { session: st.session, db_path: st.db_path, format: OutputFormat::Human },
                            )
                        } else if v == "json"@ {
                            scan_query(
                                target,
                                args,
                                i + 2,
                                QueryScan { session: st.session, db_path: st.db_path, format: OutputFormat::Json },
                            )
                        } else {
                            ScanEnd::Fail(seq!["--format must be human or json"@])
                        },
                    }
                }
            } else if t == "--json"@ {
                scan_query(
                    target,
                    args,
                    i + 1,
                    QueryScan { session: st.session, db_path: st.db_path, format: OutputFormat::Json },
                )
            } else if t == "--help"@ || t == "-h"@ {
                ScanEnd::Help
            } else if is_option(t) {
                ScanEnd::Fail(unknown_option_lines(target, t))
            } else if st.session is None {
                scan_query(target, args, i + 1, QueryScan { session: Some(t), db_path: st.db_path, format: st.format })
            } else {
                ScanEnd::Fail(unexpected_lines(target, t))
            },
        }
    }
}

pub open spec fn initial_query_scan() -> QueryScan {
    QueryScan { session: None, db_path: None, format: OutputFormat::Human }
}

/// What a timeline or projection command asks for; its arguments start at position 1.
pub open spec fn query_request(target: Option<ProjectionKind>, args: Seq<Option<Seq<char>>>) -> CliRequestView {
    match scan_query(target, args, 1, initial_query_scan()) {
        ScanEnd::Help => match target {
            None => CliRequestView::Help(HelpTopic::Timeline),
            Some(k) => CliRequestView::Message(seq![usage_line(k)], 0),
        },
        ScanEnd::Fail(lines) => CliRequestView::Message(lines, 2),
        ScanEnd::Done(st) => match st.session {
            None => CliRequestView::Message(missing_session_lines(target), 2),
            Some(text) => match session_id_of(trimmed(text)) {
                Some(id) => {
                    let q = QueryArgsView { session_id: id, session_text: text, db_path: st.db_path, format: st.format };
                    match target {
                        None => CliRequestView::Timeline(q),
                        Some(k) => CliRequestView::Projection(k, q),
                    }
                },
                None => CliRequestView::Message(
                    seq!["invalid session id: "@ + session_id_error(trimmed(text), text)],
                    2,
                ),
            },
        },
    }
}

/// The state of reading the arguments of `run`.
pub struct RunScan {
    pub db_path: Option<Seq<char>>,
    pub separated: bool,
    pub executable: Option<Seq<char>>,
    pub arguments: Seq<Seq<char>>,
}

pub open spec fn run_usage_hint() -> Seq<char> {
    "run `provenance run --help` for usage"@
}

/// Reads the arguments of `run` from position `i` on.
pub open spec fn scan_run(args: Seq<Option<Seq<char>>>, i: int, st: RunScan) -> ScanEnd<RunScan>
    decreases args.len() - i,
{
    if i < 0 || i >= args.len() {
        ScanEnd::Done(st)
    } else {
        match args[i] {
            None => ScanEnd::Fail(seq!["argument is not valid UTF-8"@]),
            Some(t) => if !st.separated {
                if t == "--db"@ || t == "--database"@ {
                    if i + 1 >= args.len() {
                        ScanEnd::Fail(seq!["--db requires a value"@])
                    } else {
                        match args[i + 1] {
                            None => ScanEnd::Fail(seq!["--db value is not valid UTF-8"@]),
                            Some(v) => scan_run(
                                args,
                                i + 2,
                                RunScan { db_path: Some(v), separated: st.separated, executable: st.executable, arguments: st.arguments },
                            ),
                        }
                    }
                } else if t == "--help"@ || t == "-h"@ {
                    ScanEnd::Help
                } else if t == "--"@ {
                    scan_run(
                        args,
                        i + 1,
                        RunScan { db_path: st.db_path, separated: true, executable: st.executable, arguments: st.arguments },
                    )
                } else if is_option(t) {
                    ScanEnd::Fail(seq!["unknown option for run: "@ + t, run_usage_hint()])
                } else {
                    ScanEnd::Fail(seq!["run requires -- separator before command"@, run_usage_hint()])
                }
            } else if st.executable is None {
                scan_run(
                    args,
                    i + 1,
                    RunScan { db_path: st.db_path, separated: true, executable: Some(t), arguments: st.arguments },
                )
            } else {
                scan_run(
                    args,
                    i + 1,
                    RunScan { db_path: st.db_path, separated: true, executable: st.executable, arguments: st.arguments.push(t) },
                )
            },
        }
    }
}

pub open spec fn initial_run_scan() -> RunScan {
    RunScan { db_path: None, separated: false, executable: None, arguments: Seq::empty() }
}

/// What `run` asks for; its arguments start at position 1.
pub open spec fn run_request(args: Seq<Option<Seq<char>>>) -> CliRequestView {
    match scan_run(args, 1, initial_run_scan()) {
        ScanEnd::Help => CliRequestView::Help(HelpTopic::Run),
        ScanEnd::Fail(lines) => CliRequestView::Message(lines, 2),
        ScanEnd::Done(st) => if !st.separated {
            CliRequestView::Message(seq!["run requires -- separator"@, run_usage_hint()], 2)
        } else {
            match st.executable {
                None => CliRequestView::Message(seq!["run requires a command after --"@, run_usage_hint()], 2),
                Some(e) => CliRequestView::Run(RunArgsView { db_path: st.db_path, executable: e, arguments: st.arguments }),
            }
        },
    }
}

/// What a whole argument list asks for.
pub open spec fn request_of(args: Seq<Option<Seq<char>>>) -> CliRequestView {
    if args.len() == 0 {
        CliRequestView::Help(HelpTopic::Main)
    } else {
        match args[0] {
            None => CliRequestView::Message(seq!["command is not valid UTF-8"@], 2),
            Some(c) => if c == "help"@ || c == "--help"@ || c == "-h"@ {
                CliRequestView::Help(HelpTopic::Main)
            } else if c == "version"@ || c == "--version"@ || c == "-V"@ {
                CliRequestView::Version
            } else if c == "schema-version"@ {
                CliRequestView::SchemaVersion
            } else if c == "timeline"@ {
                query_request(None, args)
            } else if c == "processes"@ {
                query_request(Some(ProjectionKind::Processes), args)
            } else if c == "changes"@ {
                query_request(Some(ProjectionKind::Changes), args)
            } else if c == "state"@ {
                query_request(Some(ProjectionKind::State), args)
            } else if c == "run"@ {
                run_request(args)
            } else {
                CliRequestView::Message(seq!["unknown command: "@ + c, "run `provenance --help` for usage"@], 2)
            },
        }
    }
}

// ---------------------------------------------------------------------------
// Reading an argument list
// ---------------------------------------------------------------------------

fn one_line(a: String) -> (r: Vec<String>)
    ensures
        string_views(r@) == seq![a@],
{
    let mut v: Vec<String> = Vec::new();
    v.push(a);
    assert(string_views(v@) =~= seq![a@]);
    v
}

fn two_lines(a: String, b: String) -> (r: Vec<String>)
    ensures
        string_views(r@) == seq![a@, b@],
{
    let mut v: Vec<String> = Vec::new();
    v.push(a);
    v.push(b);
    assert(string_views(v@) =~= seq![a@, b@]);
    v
}

fn message(lines: Vec<String>, code: u8) -> (r: CliRequest)
    ensures
        r@ == CliRequestView::Message(string_views(lines@), code),
{
    CliRequest::Message(lines, code)
}

fn joined(a: &str, b: &str) -> (r: String)
    ensures
        r@ == a@ + b@,
{
    let mut s = string_of(a);
    push_str(&mut s, b);
    s
}

fn starts_with_dash(t: &str) -> (r: bool)
    ensures
        r == is_option(t@),
{
    let chars = crate::text::chars_of(t);
    chars.len() > 0 && chars[0] == '-'
}

fn copy_text(s: &String) -> (r: String)
    ensures
        r@ == s@,
{
    s.clone()
}

fn copy_opt_text(s: &Option<String>) -> (r: Option<String>)
    ensures
        opt_text_view(r) == opt_text_view(*s),
{
    match s {
        Some(t) => Some(t.clone()),
        None => None,
    }
}

fn unknown_option_message(target: Option<ProjectionKind>, t: &str) -> (r: CliRequest)
    ensures
        r@ == CliRequestView::Message(unknown_option_lines(target, t@), 2),
{
    match target {
        None => message(two_lines(joined("unknown option for timeline: ", t), string_of("run `provenance timeline --help` for usage")), 2),
        Some(k) => {
            let name = k.name();
            let mut line = string_of("unknown option for ");
            push_str(&mut line, name.as_str());
            push_str(&mut line, ": ");
            push_str(&mut line, t);
            let r = message(one_line(line), 2);
            assert(string_views(seq![line]) =~= unknown_option_lines(target, t@));
            r
        },
    }
}

fn unexpected_message(target: Option<ProjectionKind>, t: &str) -> (r: CliRequest)
    ensures
        r@ == CliRequestView::Message(unexpected_lines(target, t@), 2),
{
    match target {
        None => message(two_lines(joined("unexpected argument: ", t), string_of("run `provenance timeline --help` for usage")), 2),
        Some(_) => message(one_line(joined("unexpected argument: ", t)), 2),
    }
}

fn finish_query(target: Option<ProjectionKind>, session: Option<String>, db_path: Option<String>, format: OutputFormat) -> (r: CliRequest)
    ensures
        r@ == (match opt_text_view(session) {
            None => CliRequestView::Message(missing_session_lines(target), 2),
            Some(text) => match session_id_of(trimmed(text)) {
                Some(id) => {
                    let q = QueryArgsView { session_id: id, session_text: text, db_path: opt_text_view(db_path), format };
                    match target {
                        None => CliRequestView::Timeline(q),
                        Some(k) => CliRequestView::Projection(k, q),
                    }
                },
                None => CliRequestView::Message(seq!["invalid session id: "@ + session_id_error(trimmed(text), text)], 2),
            },
        }),
{
    let text = match session {
        None => {
            return match target {
                None => message(two_lines(string_of("timeline requires a session id"), string_of("run `provenance timeline --help` for usage")), 2),
                Some(k) => {
                    let name = k.name();
                    let mut line = string_of(name.as_str());
                    push_str(&mut line, " requires a session id");
                    message(one_line(line), 2)
                },
            };
        },
        Some(t) => t,
    };
    match parse_session_id(text.as_str()) {
        Ok(id) => {
            let q = QueryArgs { session_id: id, session_text: text, db_path, format };
            match target {
                None => CliRequest::Timeline(q),
                Some(k) => CliRequest::Projection(k, q),
            }
        },
        Err(detail) => message(one_line(joined("invalid session id: ", detail.as_str())), 2),
    }
}

/// Reads the arguments of `timeline` (`target` is `None`) or of a projection.
fn parse_query(target: Option<ProjectionKind>, args: &[Option<String>]) -> (r: CliRequest)
    requires
        args@.len() >= 1,
    ensures
        r@ == query_request(target, arg_views(args@)),
{
    let ghost a = arg_views(args@);
    let mut session: Option<String> = None;
    let mut db_path: Option<String> = None;
    let mut format = OutputFormat::Human;
    let mut i: usize = 1;
    while i < args.len()
        invariant
            1 <= i <= args@.len(),
            a == arg_views(args@),
            scan_query(target, a, 1, initial_query_scan()) == scan_query(
                target,
                a,
                i as int,
                QueryScan { session: opt_text_view(session), db_path: opt_text_view(db_path), format },
            ),
        decreases args@.len() - i,
    {
        let ghost st = QueryScan { session: opt_text_view(session), db_path: opt_text_view(db_path), format };
        assert(a[i as int] == opt_text_view(args@[i as int]));
        let t: &str = match &args[i] {
            None => return message(one_line(string_of("argument is not valid UTF-8")), 2),
            Some(t) => t.as_str(),
        };
        if str_equal(t, "--db") || str_equal(t, "--database") {
            if i + 1 >= args.len() {
                return message(one_line(string_of("--db requires a value")), 2);
            }
            assert(a[i + 1] == opt_text_view(args@[i + 1]));
            match &args[i + 1] {
                None => return message(one_line(string_of("--db value is not valid UTF-8")), 2),
                Some(v) => {
                    db_path = Some(copy_text(v));
                },
            }
            i = i + 2;
        } else if str_equal(t, "--format") {
            if i + 1 >= args.len() {
                return message(one_line(string_of("--format requires a value (human|json)")), 2);
            }
            assert(a[i + 1] == opt_text_view(args@[i + 1]));
            match &args[i + 1] {
                None => return message(one_line(string_of("--format value is not valid UTF-8")), 2),
                Some(v) => {
                    if str_equal(v.as_str(), "human") {
                        format = OutputFormat::Human;
                    } else if str_equal(v.as_str(), "json") {
                        format = OutputFormat::Json;
                    } else {
                        return message(one_line(string_of("--format must be human or json")), 2);
                    }
                },
            }
            i = i + 2;
        } else if str_equal(t, "--json") {
            format = OutputFormat::Json;
            i = i + 1;
        } else if str_equal(t, "--help") || str_equal(t, "-h") {
            return match target {
                None => CliRequest::Help(HelpTopic::Timeline),
                Some(k) => {
                    let name = k.name();
                    let mut line = string_of("usage: provenance ");
                    push_str(&mut line, name.as_str());
                    push_str(&mut line, " <SESSION_ID> [--db <PATH>] [--format human|json]");
                    message(one_line(line), 0)
                },
            };
        } else if starts_with_dash(t) {
            return unknown_option_message(target, t);
        } else if session.is_none() {
            session = Some(string_of(t));
            i = i + 1;
        } else {
            return unexpected_message(target, t);
        }
    }
    finish_query(target, session, db_path, format)
}

/// Reads the arguments of `run`.
fn parse_run(args: &[Option<String>]) -> (r: CliRequest)
    requires
        args@.len() >= 1,
    ensures
        r@ == run_request(arg_views(args@)),
{
    let ghost a = arg_views(args@);
    let mut db_path: Option<String> = None;
    let mut separated = false;
    let mut executable: Option<String> = None;
    let mut arguments: Vec<String> = Vec::new();
    assert(string_views(arguments@) =~= Seq::<Seq<char>>::empty());
    let mut i: usize = 1;
    while i < args.len()
        invariant
            1 <= i <= args@.len(),
            a == arg_views(args@),
            scan_run(a, 1, initial_run_scan()) == scan_run(
                a,
                i as int,
                RunScan {
                    db_path: opt_text_view(db_path),
                    separated,
                    executable: opt_text_view(executable),
                    arguments: string_views(arguments@),
                },
            ),
            !separated ==> executable is None && arguments@.len() == 0,
        decreases args@.len() - i,
    {
        assert(a[i as int] == opt_text_view(args@[i as int]));
        let t: &str = match &args[i] {
            None => return message(one_line(string_of("argument is not valid UTF-8")), 2),
            Some(t) => t.as_str(),
        };
        if !separated {
            if str_equal(t, "--db") || str_equal(t, "--database") {
                if i + 1 >= args.len() {
                    return message(one_line(string_of("--db requires a value")), 2);
                }
                assert(a[i + 1] == opt_text_view(args@[i + 1]));
                match &args[i + 1] {
                    None => return message(one_line(string_of("--db value is not valid UTF-8")), 2),
                    Some(v) => {
                        db_path = Some(copy_text(v));
                    },
                }
                i = i + 2;
            } else if str_equal(t, "--help") || str_equal(t, "-h") {
                return CliRequest::Help(HelpTopic::Run);
            } else if str_equal(t, "--") {
                separated = true;
                i = i + 1;
            } else if starts_with_dash(t) {
                return message(two_lines(joined("unknown option for run: ", t), string_of("run `provenance run --help` for usage")), 2);
            } else {
                return message(
                    two_lines(string_of("run requires -- separator before command"), string_of("run `provenance run --help` for usage")),
                    2,
                );
            }
        } else if executable.is_none() {
            executable = Some(string_of(t));
            i = i + 1;
        } else {
            let ghost before = arguments@;
            arguments.push(string_of(t));
            assert(string_views(arguments@) =~= string_views(before).push(t@));
            i = i + 1;
        }
    }
    if !separated {
        return message(two_lines(string_of("run requires -- separator"), string_of("run `provenance run --help` for usage")), 2);
    }
    match executable {
        None => message(two_lines(string_of("run requires a command after --"), string_of("run `provenance run --help` for usage")), 2),
        Some(e) => CliRequest::Run(RunArgs { db_path, executable: e, arguments }),
    }
}

/// What a command line asks for.
pub fn parse_command_line(args: &[Option<String>]) -> (r: CliRequest)
    ensures
        r@ == request_of(arg_views(args@)),
{
    let ghost a = arg_views(args@);
    if args.len() == 0 {
        return CliRequest::Help(HelpTopic::Main);
    }
    assert(a[0] == opt_text_view(args@[0]));
    let c: &str = match &args[0] {
        None => return message(one_line(string_of("command is not valid UTF-8")), 2),
        Some(c) => c.as_str(),
    };
    if str_equal(c, "help") || str_equal(c, "--help") || str_equal(c, "-h") {
        CliRequest::Help(HelpTopic::Main)
    } else if str_equal(c, "version") || str_equal(c, "--version") || str_equal(c, "-V") {
        CliRequest::Version
    } else if str_equal(c, "schema-version") {
        CliRequest::SchemaVersion
    } else if str_equal(c, "timeline") {
        parse_query(None, args)
    } else if str_equal(c, "processes") {
        parse_query(Some(ProjectionKind::Processes), args)
    } else if str_equal(c, "changes") {
        parse_query(Some(ProjectionKind::Changes), args)
    } else if str_equal(c, "state") {
        parse_query(Some(ProjectionKind::State), args)
    } else if str_equal(c, "run") {
        parse_run(args)
    } else {
        message(two_lines(joined("unknown command: ", c), string_of("run `provenance --help` for usage")), 2)
    }
}


// ---------------------------------------------------------------------------
// Loading, and the exit status of a run
// ---------------------------------------------------------------------------

/// Why a query cannot show a session, and the exit status: 4 for corrupt rows, 5 when the
/// store cannot be read, 3 for a session without events; `None` when there is something to
/// show.
pub open spec fn load_failure_of(session_text: Seq<char>, loaded: Result<Seq<EnvelopeView>, EventStoreError>) -> Option<
    (Seq<char>, u8),
> {
    match loaded {
        Err(EventStoreError::Corrupt(detail)) => Some(
            ("corrupt row for session "@ + session_text + ": "@ + detail@, 4u8),
        ),
        Err(EventStoreError::Unavailable(detail)) => if contains_text(unicode_lowercase(detail@), "corrupt"@) {
            Some(("corrupt row for session "@ + session_text + ": "@ + detail@, 4u8))
        } else {
            Some(("event store unavailable: "@ + detail@, 5u8))
        },
        Err(other) => Some(("failed to load session "@ + session_text + ": "@ + other.spec_message(), 5u8)),
        Ok(events) => if events.len() == 0 {
            Some(("unknown session: "@ + session_text, 3u8))
        } else {
            None
        },
    }
}

pub open spec fn loaded_view(loaded: Result<Vec<EventEnvelope>, EventStoreError>) -> Result<Seq<EnvelopeView>, EventStoreError> {
    match loaded {
        Ok(v) => Ok(envelope_views(v@)),
        Err(e) => Err(e),
    }
}

pub open spec fn opt_message_view(r: Option<(String, u8)>) -> Option<(Seq<char>, u8)> {
    match r {
        Some((m, c)) => Some((m@, c)),
        None => None,
    }
}

/// The message and exit status for a load that leaves nothing to show.
pub fn load_failure(session_text: &str, loaded: &Result<Vec<EventEnvelope>, EventStoreError>) -> (r: Option<(String, u8)>)
    ensures
        opt_message_view(r) == load_failure_of(session_text@, loaded_view(*loaded)),
{
    match loaded {
        Err(EventStoreError::Corrupt(detail)) => {
            let mut m = joined("corrupt row for session ", session_text);
            push_str(&mut m, ": ");
            push_str(&mut m, detail.as_str());
            Some((m, 4))
        },
        Err(EventStoreError::Unavailable(detail)) => {
            let lower = to_lowercase(detail.as_str());
            if text_contains(lower.as_str(), "corrupt") {
                let mut m = joined("corrupt row for session ", session_text);
                push_str(&mut m, ": ");
                push_str(&mut m, detail.as_str());
                Some((m, 4))
            } else {
                Some((joined("event store unavailable: ", detail.as_str()), 5))
            }
        },
        Err(other) => {
            let mut m = joined("failed to load session ", session_text);
            push_str(&mut m, ": ");
            let d = other.message();
            push_str(&mut m, d.as_str());
            Some((m, 5))
        },
        Ok(events) => if events.len() == 0 {
            Some((joined("unknown session: ", session_text), 3))
        } else {
            None
        },
    }
}

/// How the last process exit in the events ended, if any process exited.
pub open spec fn last_termination(events: Seq<EnvelopeView>) -> Option<ProcessTermination>
    decreases events.len(),
{
    if events.len() == 0 {
        None
    } else {
        match events.last().observation {
            ObservationView::Runtime(r) => match r.kind {
                RuntimeKindView::ProcessExited(p) => Some(p.termination),
                _ => last_termination(events.drop_last()),
            },
            _ => last_termination(events.drop_last()),
        }
    }
}

/// The exit status that hands on how the recorded command ended: its exit code when that
/// fits a status, 128 plus the signal for a signal, 1 otherwise, and 0 when nothing exited.
pub open spec fn wrapped_exit_status(t: Option<ProcessTermination>) -> u8 {
    match t {
        None => 0,
        Some(ProcessTermination::ExitCode(c)) => if 0 <= c <= 255 {
            c as u8
        } else {
            1
        },
        Some(ProcessTermination::Signal(s)) => if 0 <= 128 + s <= 255 {
            (128 + s) as u8
        } else {
            1
        },
        Some(ProcessTermination::Unknown) => 1,
    }
}

/// The exit status of `run` for the recorded session's events.
pub fn wrapped_exit_code(events: &[EventEnvelope]) -> (r: u8)
    ensures
        r == wrapped_exit_status(last_termination(envelope_views(events@))),
{
    let ghost views = envelope_views(events@);
    let mut found: Option<ProcessTermination> = None;
    let mut i: usize = 0;
    while i < events.len()
        invariant
            i <= events@.len(),
            views == envelope_views(events@),
            found == last_termination(views.subrange(0, i as int)),
        decreases events@.len() - i,
    {
        if let Observation::Runtime(runtime) = events[i].observation() {
            if let RuntimeObservationKind::ProcessExited(exited) = runtime.kind() {
                found = Some(exited.termination);
            }
        }
        proof {
            let next = views.subrange(0, i + 1);
            assert(next.drop_last() =~= views.subrange(0, i as int));
            assert(next.last() == events@[i as int]@);
        }
        i = i + 1;
    }
    assert(views.subrange(0, events@.len() as int) =~= views);
    match found {
        None => 0,
        Some(ProcessTermination::ExitCode(code)) => if 0 <= code && code <= 255 {
            code as u8
        } else {
            1
        },
        Some(ProcessTermination::Signal(signal)) => {
            let status: i64 = 128 + signal as i64;
            if 0 <= status && status <= 255 {
                status as u8
            } else {
                1
            }
        },
        Some(ProcessTermination::Unknown) => 1,
    }
}

/// The database used when none is named.
pub open spec fn default_db_path() -> Seq<char> {
    ".provenance/provenance.db"@
}

/// The database to use: the one named on the command line, else a non-empty
/// `PROVENANCE_DB`, else the default.
pub open spec fn db_path_of(explicit: Option<Seq<char>>, environment: Option<Seq<char>>) -> Seq<char> {
    match explicit {
        Some(p) => p,
        None => match environment {
            Some(e) => if e.len() > 0 {
                e
            } else {
                default_db_path()
            },
            None => default_db_path(),
        },
    }
}

/// Chooses the database path; `environment` is the value of `PROVENANCE_DB` when it is set
/// and valid Unicode.
pub fn resolve_db_path(explicit: Option<String>, environment: Option<String>) -> (r: String)
    ensures
        r@ == db_path_of(opt_text_view(explicit), opt_text_view(environment)),
{
    match explicit {
        Some(p) => p,
        None => match environment {
            Some(e) => if e.as_str().unicode_len() > 0 {
                e
            } else {
                string_of(".provenance/provenance.db")
            },
            None => string_of(".provenance/provenance.db"),
        },
    }
}

} // verus!
