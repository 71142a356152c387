use vstd::prelude::*;
use crate::path::BackendPath;
use crate::resolver::BuildMode;

verus! {

/// The port the backend is told to listen on.
pub const BACKEND_PORT: u16 = 8000;

/// Everything needed to start the backend process.
#[derive(Debug)]
pub struct LaunchSpec {
    pub program: String,
    pub args: Vec<String>,
    pub dir: BackendPath,
    /// Variables set in the child's environment, as (name, value).
    pub env: Vec<(String, String)>,
}

pub open spec fn digit(d: nat) -> char {
    seq!['0', '1', '2', '3', '4', '5', '6', '7', '8', '9'][d as int]
}

/// The decimal notation of `n`, without leading zeros.
pub open spec fn decimal(n: nat) -> Seq<char>
    decreases n,
{
    if n < 10 {
        seq![digit(n)]
    } else {
        decimal(n / 10).push(digit(n % 10))
    }
}

pub open spec fn strings_view(v: Seq<String>) -> Seq<Seq<char>> {
    v.map_values(|s: String| s@)
}

pub open spec fn pairs_view(v: Seq<(String, String)>) -> Seq<(Seq<char>, Seq<char>)> {
    v.map_values(|p: (String, String)| (p.0@, p.1@))
}

pub open spec fn mode_marker(mode: BuildMode) -> Seq<char> {
    match mode {
        BuildMode::Development => "development"@,
        BuildMode::Production => "production"@,
    }
}

/// The interpreter's arguments: run the web server module on the backend's
/// application, bound to `host` and `port`.
pub open spec fn server_args(host: Seq<char>, port: u16) -> Seq<Seq<char>> {
    seq!["-m"@, "uvicorn"@, "main:app"@, "--host"@, host, "--port"@, decimal(port as nat)]
}

pub open spec fn server_env(host: Seq<char>, port: u16, mode: BuildMode) -> Seq<(Seq<char>, Seq<char>)> {
    seq![
        ("MINICARS_PORT"@, decimal(port as nat)),
        ("MINICARS_HOST"@, host),
        ("MINICARS_ENV"@, mode_marker(mode)),
    ]
}

/// The words joined with single spaces.
pub open spec fn spaced(words: Seq<Seq<char>>) -> Seq<char>
    decreases words.len(),
{
    if words.len() == 0 {
        seq![]
    } else if words.len() == 1 {
        words[0]
    } else {
        spaced(words.drop_last()) + " "@ + words.last()
    }
}

pub open spec fn endpoint_url(port: u16, route: Seq<char>) -> Seq<char> {
    "http://localhost:"@ + decimal(port as nat) + route
}

/// Relies on `ToString` for `u16` from std, whose `Display` writes an
/// integer in decimal.
#[verifier::external_body]
fn port_text(port: u16) -> (r: String)
    ensures
        r@ == decimal(port as nat),
{
    port.to_string()
}

fn text(s: &str) -> (r: String)
    ensures
        r@ == s@,
{
    s.to_owned()
}

fn text_pair(name: &str, value: String) -> (r: (String, String))
    ensures
        r.0@ == name@,
        r.1@ == value@,
{
    (name.to_owned(), value)
}

/// How to start the backend from `dir` with `interpreter`.
pub fn launch_spec(dir: &BackendPath, interpreter: &String, host: &String, port: u16, mode: BuildMode) -> (r: LaunchSpec)
    ensures
        r.program@ == interpreter@,
        strings_view(r.args@) == server_args(host@, port),
        r.dir@ == dir@,
        pairs_view(r.env@) == server_env(host@, port, mode),
{
    let marker = match mode {
        BuildMode::Development => text("development"),
        BuildMode::Production => text("production"),
    };
    let args = vec![
        text("-m"),
        text("uvicorn"),
        text("main:app"),
        text("--host"),
        host.clone(),
        text("--port"),
        port_text(port),
    ];
    let env = vec![
        text_pair("MINICARS_PORT", port_text(port)),
        text_pair("MINICARS_HOST", host.clone()),
        text_pair("MINICARS_ENV", marker),
    ];
    assert(strings_view(args@) =~= server_args(host@, port));
    assert(pairs_view(env@) =~= server_env(host@, port, mode));
    LaunchSpec { program: interpreter.clone(), args, dir: dir.duplicate(), env }
}

impl LaunchSpec {
    /// The command as one line of text, for diagnostics.
    pub fn command_line(&self) -> (r: String)
        ensures
            r@ == spaced(seq![self.program@] + strings_view(self.args@)),
    {
        let ghost words = seq![self.program@] + strings_view(self.args@);
        let mut line = self.program.clone();
        let mut i: usize = 0;
        while i < self.args.len()
            invariant
                i <= self.args@.len(),
                words == seq![self.program@] + strings_view(self.args@),
                line@ == spaced(words.take(i + 1)),
            decreases self.args@.len() - i,
        {
            assert(words.take(i + 2).drop_last() =~= words.take(i + 1));
            assert(words.take(i + 2).last() == self.args@[i as int]@);
            line = line.concat(" ");
            line = line.concat(self.args[i].as_str());
            i = i + 1;
        }
        assert(words.take(i + 1) =~= words);
        line
    }
}

/// The readiness endpoint of a backend on `port`.
pub fn health_url(port: u16) -> (r: String)
    ensures
        r@ == endpoint_url(port, "/health"@),
{
    let p = port_text(port);
    String::from_str("http://localhost:").concat(p.as_str()).concat("/health")
}

/// The graceful-shutdown endpoint of a backend on `port`.
pub fn shutdown_url(port: u16) -> (r: String)
    ensures
        r@ == endpoint_url(port, "/shutdown"@),
{
    let p = port_text(port);
    String::from_str("http://localhost:").concat(p.as_str()).concat("/shutdown")
}

} // verus!
