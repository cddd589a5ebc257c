//! The configuration of a run, as the command line and the environment give
//! it, and the lines by which it is reported at start-up.

use vstd::prelude::*;
use vstd::string::StringExecFns;
use crate::span::{span_text, TimeSpan};
use crate::text::{decimal, decimal_string, texts};

verus! {

/// What the workers do to the objects.
#[derive(Clone, Copy, Debug, PartialEq, Eq, Structural, PartialOrd, Ord, Hash)]
pub enum Mode {
    Read,
    Write,
}

impl Default for Mode {
    /// Writing is the default.
    fn default() -> (mode: Mode)
        ensures
            mode == Mode::Write,
    {
        Mode::Write
    }
}

impl Mode {
    /// The name of the mode: `Read` or `Write`.
    pub open spec fn name_text(self) -> Seq<char> {
        match self {
            Mode::Read => "Read"@,
            Mode::Write => "Write"@,
        }
    }

    /// The name of the mode.
    pub fn name(&self) -> (name: &'static str)
        ensures
            name@ == self.name_text(),
    {
        match self {
            Mode::Read => "Read",
            Mode::Write => "Write",
        }
    }
}

/// The text of a truth value: `true` or `false`.
pub open spec fn bool_text(b: bool) -> Seq<char> {
    if b {
        "true"@
    } else {
        "false"@
    }
}

/// The text of an optional number: its decimal numeral, or `None`.
pub open spec fn count_text(count: Option<u64>) -> Seq<char> {
    match count {
        Some(n) => decimal(n as nat),
        None => "None"@,
    }
}

/// The text of an optional span: the span in its largest unit, or `None`.
pub open spec fn duration_text(duration: Option<TimeSpan>) -> Seq<char> {
    match duration {
        Some(span) => span_text(span.spec_secs(), span.spec_subsec_nanos()),
        None => "None"@,
    }
}

/// A line made of a label and a value.
fn line(label: &str, value: &str) -> (line: String)
    ensures
        line@ == label@ + value@,
{
    let mut line = String::from_str(label);
    line.append(value);
    line
}

/// Adds `line` to `lines`.
fn push_line(lines: &mut Vec<String>, line: String)
    ensures
        texts(final(lines)@) == texts(old(lines)@).push(line@),
{
    lines.push(line);
    assert(texts(lines@) =~= texts(old(lines)@).push(line@));
}

/// Moves the lines of `more` to the end of `lines`.
fn push_lines(lines: &mut Vec<String>, more: Vec<String>)
    ensures
        texts(final(lines)@) == texts(old(lines)@) + texts(more@),
{
    let mut more = more;
    let ghost moved = more@;
    lines.append(&mut more);
    assert(texts(lines@) =~= texts(old(lines)@) + texts(moved));
}

/// The access keys and tokens of the storage account.
#[derive(Clone, PartialEq)]
pub struct CredentialsArgs {
    pub access_key: Option<String>,
    pub secret_key: Option<String>,
    pub security_token: Option<String>,
    pub session_token: Option<String>,
}

impl Default for CredentialsArgs {
    /// No key and no token.
    fn default() -> (credentials: CredentialsArgs)
        ensures
            credentials.access_key is None,
            credentials.secret_key is None,
            credentials.security_token is None,
            credentials.session_token is None,
    {
        CredentialsArgs {
            access_key: None,
            secret_key: None,
            security_token: None,
            session_token: None,
        }
    }
}

impl CredentialsArgs {
    /// The lines that report the credentials: none, since they are secret.
    pub fn print(&self) -> (lines: Vec<String>)
        ensures
            lines@.len() == 0,
    {
        Vec::new()
    }

    /// The credentials for a debug listing, every field hidden. The text is
    /// the same whatever the fields hold.
    pub open spec fn redacted_text() -> Seq<char> {
        "CredentialsArgs { access_key: \"(hidden)\", secret_key: \"(hidden)\", security_token: \"(hidden)\", session_token: \"(hidden)\" }"@
    }

    /// The credentials for a debug listing, every field hidden.
    pub fn redacted(&self) -> (text: String)
        ensures
            text@ == Self::redacted_text(),
    {
        String::from_str(
            "CredentialsArgs { access_key: \"(hidden)\", secret_key: \"(hidden)\", security_token: \"(hidden)\", session_token: \"(hidden)\" }",
        )
    }
}

/// Where the storage service is.
#[derive(Clone, Debug, PartialEq)]
pub struct RegionArgs {
    pub endpoint: String,
    pub region: String,
}

impl Default for RegionArgs {
    /// The default endpoint in the default region.
    fn default() -> (region: RegionArgs)
        ensures
            region.endpoint@ == RegionArgs::default_endpoint_text(),
            region.region@ == RegionArgs::default_region_text(),
    {
        RegionArgs { endpoint: Self::default_endpoint(), region: Self::default_region() }
    }
}

impl RegionArgs {
    /// The endpoint used where none is given: `s3.amazonaws.com`.
    pub open spec fn default_endpoint_text() -> Seq<char> {
        "s3.amazonaws.com"@
    }

    /// The region used where none is given: `us-east-1`.
    pub open spec fn default_region_text() -> Seq<char> {
        "us-east-1"@
    }

    /// The endpoint used where none is given.
    pub fn default_endpoint() -> (endpoint: String)
        ensures
            endpoint@ == Self::default_endpoint_text(),
    {
        String::from_str("s3.amazonaws.com")
    }

    /// The region used where none is given.
    pub fn default_region() -> (region: String)
        ensures
            region@ == Self::default_region_text(),
    {
        String::from_str("us-east-1")
    }

    /// What the lines of `print` say.
    pub open spec fn log_lines(&self) -> Seq<Seq<char>> {
        seq!["endpoint: "@ + self.endpoint@, "region: "@ + self.region@]
    }

    /// The lines that report the endpoint and the region.
    pub fn print(&self) -> (lines: Vec<String>)
        ensures
            texts(lines@) == self.log_lines(),
    {
        let mut lines: Vec<String> = Vec::new();
        push_line(&mut lines, line("endpoint: ", self.endpoint.as_str()));
        push_line(&mut lines, line("region: ", self.region.as_str()));
        assert(texts(lines@) =~= self.log_lines());
        lines
    }
}

/// How much the workers do: the size of an object, the number of keys they
/// cycle through, and the optional cap on the total of operations.
#[derive(Clone, Copy, Debug, PartialEq, Eq, Structural)]
pub struct LoadTesterArgs {
    pub count: Option<u64>,
    pub multipart_threshold: u64,
    pub size: u64,
    pub step: u64,
}

impl Default for LoadTesterArgs {
    /// No cap, a threshold of 8 MB, objects of 4 MB, 64 keys.
    fn default() -> (args: LoadTesterArgs)
        ensures
            args == (LoadTesterArgs {
                count: None,
                multipart_threshold: 8_000_000,
                size: 4_000_000,
                step: 64,
            }),
    {
        LoadTesterArgs {
            count: None,
            multipart_threshold: Self::default_multipart_threshold(),
            size: Self::default_size(),
            step: Self::default_step(),
        }
    }
}

impl LoadTesterArgs {
    /// The payload size above which a write goes up in parts: 8 MB.
    pub fn default_multipart_threshold() -> (bytes: u64)
        ensures
            bytes == 8_000_000,
    {
        8_000_000
    }

    /// The size of an object: 4 MB.
    pub fn default_size() -> (bytes: u64)
        ensures
            bytes == 4_000_000,
    {
        4_000_000
    }

    /// The number of keys that the workers cycle through: 64.
    pub fn default_step() -> (keys: u64)
        ensures
            keys == 64,
    {
        64
    }

    /// The smallest part that the storage backend takes in a multipart
    /// upload, but for the last: 5 MB.
    pub fn minimal_multipart_threshold() -> (bytes: u64)
        ensures
            bytes == 5_000_000,
    {
        5_000_000
    }

    /// What the lines of `print` say.
    pub open spec fn log_lines(&self) -> Seq<Seq<char>> {
        seq![
            "count: "@ + count_text(self.count),
            "multipart_threshold: "@ + decimal(self.multipart_threshold as nat),
            "size: "@ + decimal(self.size as nat),
            "step: "@ + decimal(self.step as nat),
        ]
    }

    /// The lines that report the load: one for each field, numbers in bytes.
    pub fn print(&self) -> (lines: Vec<String>)
        ensures
            texts(lines@) == self.log_lines(),
    {
        let count = match self.count {
            Some(n) => decimal_string(n),
            None => String::from_str("None"),
        };
        let mut lines: Vec<String> = Vec::new();
        push_line(&mut lines, line("count: ", count.as_str()));
        push_line(
            &mut lines,
            line("multipart_threshold: ", decimal_string(self.multipart_threshold).as_str()),
        );
        push_line(&mut lines, line("size: ", decimal_string(self.size).as_str()));
        push_line(&mut lines, line("step: ", decimal_string(self.step).as_str()));
        assert(texts(lines@) =~= self.log_lines());
        lines
    }
}

/// How the run is carried out: for how long, in which mode, by how many
/// workers, and whether progress is shown.
#[derive(Clone, Copy, Debug, PartialEq, Eq, Structural)]
pub struct LoadTesterJobArgs {
    pub duration: Option<TimeSpan>,
    pub mode: Mode,
    pub no_progress_bar: bool,
    pub threads_max: usize,
}

impl Default for LoadTesterJobArgs {
    /// No time limit, writing, progress shown, 8 workers.
    fn default() -> (args: LoadTesterJobArgs)
        ensures
            args == (LoadTesterJobArgs {
                duration: None,
                mode: Mode::Write,
                no_progress_bar: false,
                threads_max: 8,
            }),
    {
        LoadTesterJobArgs {
            duration: None,
            mode: Mode::Write,
            no_progress_bar: Self::default_no_progress_bar(),
            threads_max: Self::default_threads_max(),
        }
    }
}

impl LoadTesterJobArgs {
    /// Progress is shown unless asked otherwise.
    pub fn default_no_progress_bar() -> (hidden: bool)
        ensures
            !hidden,
    {
        false
    }

    /// The number of workers: 8.
    pub fn default_threads_max() -> (threads: usize)
        ensures
            threads == 8,
    {
        8
    }

    /// What the lines of `print` say.
    pub open spec fn log_lines(&self) -> Seq<Seq<char>> {
        seq![
            "duration: "@ + duration_text(self.duration),
            "mode: "@ + self.mode.name_text(),
            "no_progress_bar: "@ + bool_text(self.no_progress_bar),
            "threads_max: "@ + decimal(self.threads_max as nat),
        ]
    }

    /// The lines that report the job: one for each field, the time limit
    /// counted in its largest unit.
    pub fn print(&self) -> (lines: Vec<String>)
        ensures
            texts(lines@) == self.log_lines(),
    {
        let duration = match &self.duration {
            Some(span) => span.text(),
            None => String::from_str("None"),
        };
        let mut lines: Vec<String> = Vec::new();
        push_line(&mut lines, line("duration: ", duration.as_str()));
        push_line(&mut lines, line("mode: ", self.mode.name()));
        push_line(&mut lines, line("no_progress_bar: ", bool_str(self.no_progress_bar)));
        push_line(
            &mut lines,
            line("threads_max: ", decimal_string(self.threads_max as u64).as_str()),
        );
        assert(texts(lines@) =~= self.log_lines());
        lines
    }
}

/// The text of a truth value.
fn bool_str(b: bool) -> (text: &'static str)
    ensures
        text@ == bool_text(b),
{
    if b {
        "true"
    } else {
        "false"
    }
}

/// Everything that a run is given: the bucket, the account, the load, the
/// job and the place of the service.
#[derive(Clone, PartialEq)]
pub struct Args {
    pub bucket_name: String,
    pub bucket_create: bool,
    pub credentials: CredentialsArgs,
    pub load_tester: LoadTesterArgs,
    pub load_tester_job: LoadTesterJobArgs,
    pub region: RegionArgs,
}

impl Args {
    /// A missing bucket is not created unless asked for.
    pub fn default_bucket_create() -> (create: bool)
        ensures
            !create,
    {
        false
    }

    /// What the lines of `print` say: the bucket, then the load, the job and
    /// the region. The credentials add nothing.
    pub open spec fn log_lines(&self) -> Seq<Seq<char>> {
        seq![
            "bucket_name: "@ + self.bucket_name@,
            "bucket_create: "@ + bool_text(self.bucket_create),
        ] + self.load_tester.log_lines() + self.load_tester_job.log_lines()
            + self.region.log_lines()
    }

    /// The lines that report the whole configuration, in the order in which
    /// they are logged. No line holds a credential.
    pub fn print(&self) -> (lines: Vec<String>)
        ensures
            texts(lines@) == self.log_lines(),
    {
        let mut lines: Vec<String> = Vec::new();
        push_line(&mut lines, line("bucket_name: ", self.bucket_name.as_str()));
        push_line(&mut lines, line("bucket_create: ", bool_str(self.bucket_create)));
        let credentials = self.credentials.print();
        assert(texts(credentials@) =~= Seq::<Seq<char>>::empty());
        push_lines(&mut lines, credentials);
        push_lines(&mut lines, self.load_tester.print());
        push_lines(&mut lines, self.load_tester_job.print());
        push_lines(&mut lines, self.region.print());
        assert(texts(lines@) =~= self.log_lines());
        lines
    }
}

} // verus!
