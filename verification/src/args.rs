use vstd::prelude::*;
use crate::room_utils::now_sec;
use crate::timestamps::{parse_rfc3339_seconds, rfc3339_seconds, within_chrono_range};

verus! {

/// How a query result is written out.
#[derive(Clone, Copy, Debug, PartialEq, Eq, Structural)]
pub enum OutputFormat {
    Table,
    Json,
    Csv,
}

/// What is done to the rows of a query before they are written out.
#[derive(Clone, Copy, Debug, PartialEq, Eq, Structural)]
pub enum PostProcess {
    /// The rows are written as the query returned them.
    Unchanged,
    /// The rows are summarised per day.
    RoomActivity,
}

/// The query of `iam-check` (it only checks that the logs can be read).
pub const IAM_CHECK_QUERY: &'static str = "stats count(*) as events";

/// The query of `query` when none is given.
pub const DEFAULT_QUERY: &'static str = "stats count(*) as events";

/// The query of `room-activity`: the room log lines, oldest first, with the
/// room type, the action, the room name and the IP hash parsed out.
pub const ROOM_ACTIVITY_QUERY: &'static str = "fields @timestamp, @message\n| filter @message like /INFO/ and (@message like /\\[Shared Room\\]/ or @message like /\\[Reserved Room\\]/)\n| parse @message /\\[(?<cw_room_type>Shared|Reserved) Room\\] (?<cw_action>Created|Removed|Answered|Join|Spectate): (?<cw_room_name>.*) ip_hash=\"(?<cw_ip_hash>[^\"]+)\"/\n| sort @timestamp asc";

/// How far back `iam-check` looks when no start is given, in seconds.
pub const IAM_CHECK_DEFAULT_SPAN_SEC: i64 = 300;

/// A subcommand of the log statistics tool, with its own arguments.
#[allow(inconsistent_fields)]
pub enum Command {
    /// Checks access to the logs over a short time range.
    IamCheck { start: Option<String>, end: Option<String> },
    /// Runs a query over a time range.
    Query { start: String, end: String, query: Option<String> },
    /// Summarises room activity over a time range.
    RoomActivity { start: String, end: String },
}

/// Why the arguments of a subcommand are refused.
#[derive(Clone, Copy, Debug, PartialEq, Eq, Structural)]
pub enum ArgsError {
    /// `--start` is not an RFC 3339 timestamp.
    InvalidStart,
    /// `--end` is not an RFC 3339 timestamp.
    InvalidEnd,
    /// `--end` is not later than `--start`.
    EndNotAfterStart,
    /// The clock, read for a missing `--end`, is before the Unix epoch or
    /// beyond the dates that can be handled.
    ClockOutOfRange,
}

/// The query, the time range and the post-processing a subcommand asks for.
pub struct CommandValues {
    pub query: String,
    pub start_time: i64,
    pub end_time: i64,
    pub post_process: PostProcess,
}

/// The query, start, end and post-processing as values.
pub type ValuesView = (Seq<char>, i64, i64, PostProcess);

/// The values of a command once its times are read; `now` stands for the
/// current time, read only by `iam-check` without `--end`.
pub open spec fn command_values_spec(command: Command, now: i64) -> Result<ValuesView, ArgsError> {
    let parsed: Result<ValuesView, ArgsError> = match command {
        Command::IamCheck { start, end } => {
            let end_time = match end {
                Some(e) => match rfc3339_seconds(e@) {
                    Some(t) => Ok(t),
                    None => Err(ArgsError::InvalidEnd),
                },
                None => Ok(now),
            };
            match end_time {
                Err(e) => Err(e),
                Ok(end_time) => {
                    let start_time = match start {
                        Some(s) => match rfc3339_seconds(s@) {
                            Some(t) => Ok(t),
                            None => Err(ArgsError::InvalidStart),
                        },
                        None => Ok((end_time - IAM_CHECK_DEFAULT_SPAN_SEC) as i64),
                    };
                    match start_time {
                        Err(e) => Err(e),
                        Ok(start_time) => Ok((IAM_CHECK_QUERY@, start_time, end_time, PostProcess::Unchanged)),
                    }
                },
            }
        },
        Command::Query { start, end, query } => match rfc3339_seconds(start@) {
            None => Err(ArgsError::InvalidStart),
            Some(start_time) => match rfc3339_seconds(end@) {
                None => Err(ArgsError::InvalidEnd),
                Some(end_time) => {
                    let q = match query {
                        Some(q) => q@,
                        None => DEFAULT_QUERY@,
                    };
                    Ok((q, start_time, end_time, PostProcess::Unchanged))
                },
            },
        },
        Command::RoomActivity { start, end } => match rfc3339_seconds(start@) {
            None => Err(ArgsError::InvalidStart),
            Some(start_time) => match rfc3339_seconds(end@) {
                None => Err(ArgsError::InvalidEnd),
                Some(end_time) => Ok((ROOM_ACTIVITY_QUERY@, start_time, end_time, PostProcess::RoomActivity)),
            },
        },
    };
    match parsed {
        Err(e) => Err(e),
        Ok(v) => if v.2 <= v.1 { Err(ArgsError::EndNotAfterStart) } else { Ok(v) },
    }
}

/// Whether the command reads the current time.
pub open spec fn reads_clock(command: Command) -> bool {
    command matches Command::IamCheck { end: None, .. }
}

/// Reads a `--start` or `--end` value.
pub fn parse_rfc3339(value: &str) -> (r: Option<i64>)
    ensures
        r == rfc3339_seconds(value@),
        r matches Some(t) ==> within_chrono_range(t),
{
    parse_rfc3339_seconds(value)
}

/// The values as the spec states them.
pub open spec fn values_view(v: CommandValues) -> ValuesView {
    (v.query@, v.start_time, v.end_time, v.post_process)
}

/// The query, time range and post-processing of a subcommand, with `now`
/// standing for the current time where `iam-check` has no `--end`.
pub fn command_values_at(command: Command, now: i64) -> (r: Result<CommandValues, ArgsError>)
    requires
        within_chrono_range(now),
    ensures
        match r {
            Ok(v) => command_values_spec(command, now) == Ok::<ValuesView, ArgsError>(values_view(v)),
            Err(e) => command_values_spec(command, now) == Err::<ValuesView, ArgsError>(e),
        },
{
    let values = match command {
        Command::IamCheck { start, end } => {
            let end_time = match end {
                Some(e) => match parse_rfc3339(e.as_str()) {
                    Some(t) => t,
                    None => return Err(ArgsError::InvalidEnd),
                },
                None => now,
            };
            let start_time = match start {
                Some(s) => match parse_rfc3339(s.as_str()) {
                    Some(t) => t,
                    None => return Err(ArgsError::InvalidStart),
                },
                None => end_time - IAM_CHECK_DEFAULT_SPAN_SEC,
            };
            CommandValues { query: IAM_CHECK_QUERY.to_owned(), start_time, end_time, post_process: PostProcess::Unchanged }
        },
        Command::Query { start, end, query } => {
            let start_time = match parse_rfc3339(start.as_str()) {
                Some(t) => t,
                None => return Err(ArgsError::InvalidStart),
            };
            let end_time = match parse_rfc3339(end.as_str()) {
                Some(t) => t,
                None => return Err(ArgsError::InvalidEnd),
            };
            let query = match query {
                Some(q) => q,
                None => DEFAULT_QUERY.to_owned(),
            };
            CommandValues { query, start_time, end_time, post_process: PostProcess::Unchanged }
        },
        Command::RoomActivity { start, end } => {
            let start_time = match parse_rfc3339(start.as_str()) {
                Some(t) => t,
                None => return Err(ArgsError::InvalidStart),
            };
            let end_time = match parse_rfc3339(end.as_str()) {
                Some(t) => t,
                None => return Err(ArgsError::InvalidEnd),
            };
            CommandValues {
                query: ROOM_ACTIVITY_QUERY.to_owned(),
                start_time,
                end_time,
                post_process: PostProcess::RoomActivity,
            }
        },
    };
    if values.end_time <= values.start_time {
        return Err(ArgsError::EndNotAfterStart);
    }
    Ok(values)
}

/// Whether the command reads the current time.
fn needs_clock(command: &Command) -> (r: bool)
    ensures
        r == reads_clock(*command),
{
    match command {
        Command::IamCheck { end: None, .. } => true,
        _ => false,
    }
}

/// The query, time range and post-processing of a subcommand. When
/// `iam-check` has no `--end`, the clock is read and the current time stands
/// in for it (the start then defaults to five minutes before it).
pub fn command_values(command: Command) -> (r: Result<CommandValues, ArgsError>)
    ensures
        !reads_clock(command) ==> match r {
            Ok(v) => command_values_spec(command, 0) == Ok::<ValuesView, ArgsError>(values_view(v)),
            Err(e) => command_values_spec(command, 0) == Err::<ValuesView, ArgsError>(e),
        },
        reads_clock(command) ==> r == Err::<CommandValues, ArgsError>(ArgsError::ClockOutOfRange) || exists|now: i64|
            0 <= now && within_chrono_range(now) && match r {
                Ok(v) => command_values_spec(command, now) == Ok::<ValuesView, ArgsError>(values_view(v)),
                Err(e) => command_values_spec(command, now) == Err::<ValuesView, ArgsError>(e),
            },
{
    let now: i64 = if needs_clock(&command) {
        match now_sec() {
            Some(t) if t <= 8_210_266_876_799 => t as i64,
            _ => return Err(ArgsError::ClockOutOfRange),
        }
    } else {
        0
    };
    command_values_at(command, now)
}

/// The command line of the log statistics tool: a subcommand and the
/// options that every subcommand takes.
pub struct Cli {
    pub command: Command,
    /// The AWS profile.
    pub profile: String,
    /// The AWS region, if not the profile's.
    pub region: Option<String>,
    /// The function whose logs are read.
    pub function_name: String,
    /// Where to write the result (standard output when absent).
    pub out: Option<String>,
    /// How to write the result (a table by default).
    pub format: OutputFormat,
    /// How often to ask whether the query is done (1000 by default).
    pub poll_interval_ms: u64,
    /// How long to wait for the query (60 by default).
    pub timeout_secs: u64,
}

/// The options that every subcommand takes.
pub struct CommonArgs {
    pub profile: String,
    pub region: Option<String>,
    pub function_name: String,
    pub out: Option<String>,
    pub format: OutputFormat,
    /// The poll interval, in milliseconds.
    pub poll_interval_ms: u64,
    /// The timeout, in seconds.
    pub timeout_secs: u64,
}

/// Everything the tool needs to run a query.
pub struct Args {
    pub common: CommonArgs,
    pub query: String,
    pub start_time: i64,
    pub end_time: i64,
    pub post_process: PostProcess,
}

impl Args {
    /// The arguments of a command line: the common options as given, and
    /// the query and time range of its subcommand (see `command_values`).
    pub fn try_from(cli: Cli) -> (r: Result<Args, ArgsError>)
        ensures
            match r {
                Ok(a) => {
                    &&& a.common.profile@ == cli.profile@
                    &&& a.common.region == cli.region
                    &&& a.common.function_name@ == cli.function_name@
                    &&& a.common.out == cli.out
                    &&& a.common.format == cli.format
                    &&& a.common.poll_interval_ms == cli.poll_interval_ms
                    &&& a.common.timeout_secs == cli.timeout_secs
                    &&& (!reads_clock(cli.command) ==> command_values_spec(cli.command, 0) == Ok::<ValuesView, ArgsError>(
                        (a.query@, a.start_time, a.end_time, a.post_process),
                    ))
                    &&& (reads_clock(cli.command) ==> exists|now: i64|
                        within_chrono_range(now) && command_values_spec(cli.command, now) == Ok::<ValuesView, ArgsError>(
                            (a.query@, a.start_time, a.end_time, a.post_process),
                        ))
                },
                Err(e) => {
                    &&& (!reads_clock(cli.command) ==> command_values_spec(cli.command, 0) == Err::<ValuesView, ArgsError>(e))
                    &&& (reads_clock(cli.command) ==> e == ArgsError::ClockOutOfRange || exists|now: i64|
                        within_chrono_range(now) && command_values_spec(cli.command, now) == Err::<ValuesView, ArgsError>(e))
                },
            },
    {
        let common = CommonArgs {
            profile: cli.profile,
            region: cli.region,
            function_name: cli.function_name,
            out: cli.out,
            format: cli.format,
            poll_interval_ms: cli.poll_interval_ms,
            timeout_secs: cli.timeout_secs,
        };
        match command_values(cli.command) {
            Ok(v) => Ok(Args {
                common,
                query: v.query,
                start_time: v.start_time,
                end_time: v.end_time,
                post_process: v.post_process,
            }),
            Err(e) => Err(e),
        }
    }
}

/// Law: the query subcommand runs the user's query when one is given, and
/// the default query only when none is; a valid range with its end after
/// its start is always accepted, unchanged.
pub proof fn law_query_runs_what_is_given(command: Command, now: i64)
    ensures
        match command {
            Command::Query { start, end, query } => {
                &&& (command_values_spec(command, now) matches Ok(v) ==> v.0 == match query {
                    Some(q) => q@,
                    None => DEFAULT_QUERY@,
                } && v.3 == PostProcess::Unchanged)
                &&& (rfc3339_seconds(start@) is Some && rfc3339_seconds(end@) is Some && rfc3339_seconds(start@)->0
                    < rfc3339_seconds(end@)->0 ==> (command_values_spec(command, now) matches Ok(v) && v.1
                    == rfc3339_seconds(start@)->0 && v.2 == rfc3339_seconds(end@)->0))
            },
            _ => true,
        },
{
}

} // verus!
