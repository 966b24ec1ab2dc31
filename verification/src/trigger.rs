//! Build Trigger: the description of the external build invocation for one
//! module, the mode switch that decides whether and how it runs, and the
//! ordered log of the build's two output streams.
//!
//! The loader never spawns the build itself; it hands the shell a complete
//! `BuildCommand` value and interprets the exit status and captured log that
//! come back.  The log keeps the two streams merged in arrival order, each
//! line tagged with its origin, and is surfaced whole when the build fails.

use vstd::prelude::*;
use vstd::string::*;

verus! {

/// How the Build Trigger runs when a module binary must be produced.
#[derive(Clone, Copy, PartialEq, Eq, Structural, Debug)]
pub enum BuildMode {
    /// Never build: assume the binary is already present.
    Skip,
    /// Build with output captured, surfaced only on failure.
    Quiet,
    /// Build with output streamed live.
    Verbose,
}

/// The mode selected by the build-mode environment variable: `"skip"` and
/// `"verbose"` select their modes; anything else, including an unset
/// variable, selects the quiet default.
pub open spec fn spec_parse_mode(value: Option<Seq<char>>) -> BuildMode {
    match value {
        Some(v) => if v == "skip"@ {
            BuildMode::Skip
        } else if v == "verbose"@ {
            BuildMode::Verbose
        } else {
            BuildMode::Quiet
        },
        None => BuildMode::Quiet,
    }
}

impl BuildMode {
    /// Parses the build-mode environment variable's value.
    pub fn parse(value: Option<&String>) -> (m: BuildMode)
        ensures
            m == spec_parse_mode(
                match value {
                    Some(v) => Some(v@),
                    None => None,
                },
            ),
    {
        match value {
            Some(v) => {
                let skip: String = "skip".to_owned();
                let verbose: String = "verbose".to_owned();
                if *v == skip {
                    BuildMode::Skip
                } else if *v == verbose {
                    BuildMode::Verbose
                } else {
                    BuildMode::Quiet
                }
            },
            None => BuildMode::Quiet,
        }
    }
}

/// The build profile of the host process; the module is built to match.
#[derive(Clone, Copy, PartialEq, Eq, Structural, Debug)]
pub enum BuildProfile {
    Debug,
    Release,
}

/// The directory under the build-output root where artifacts of `profile`
/// land.
pub open spec fn spec_profile_dir(profile: BuildProfile) -> Seq<char> {
    match profile {
        BuildProfile::Debug => "debug"@,
        BuildProfile::Release => "release"@,
    }
}

/// The subdirectory name for `profile`.
pub fn profile_dir(profile: BuildProfile) -> (r: String)
    ensures
        r@ == spec_profile_dir(profile),
{
    match profile {
        BuildProfile::Debug => "debug".to_owned(),
        BuildProfile::Release => "release".to_owned(),
    }
}

/// The directory holding a module's source tree: `mod-<name>` under the
/// source root, which defaults to `mods` when not overridden.
pub open spec fn spec_source_dir(source_root: Option<Seq<char>>, name: Seq<char>) -> Seq<char> {
    (match source_root {
        Some(r) => r,
        None => "mods"@,
    }) + "/mod-"@ + name
}

/// The build-output root: the override when set, `target` otherwise.
pub open spec fn spec_out_dir(out_dir: Option<Seq<char>>) -> Seq<char> {
    match out_dir {
        Some(d) => d,
        None => "target"@,
    }
}

/// The arguments of the build invocation: the build action, the feature set
/// that compiles the module's implementation-only code in, and the release
/// flag when the host itself is a release build.
pub open spec fn spec_build_args(profile: BuildProfile) -> Seq<Seq<char>> {
    match profile {
        BuildProfile::Debug => seq!["build"@, "--features"@, "impl"@],
        BuildProfile::Release => seq!["build"@, "--features"@, "impl"@, "--release"@],
    }
}

/// A complete description of the external build invocation for one module:
/// the program and arguments to run, the working directory (the module's
/// source tree), and the one environment variable that pins where build
/// artifacts land.
pub struct BuildCommand {
    pub program: String,
    pub args: Vec<String>,
    pub current_dir: String,
    pub env_key: String,
    pub env_value: String,
}

impl BuildCommand {
    /// The build invocation for module `name`: `cargo build` with the
    /// implementation feature enabled, run in the module's source directory,
    /// with the artifact directory pinned through `CARGO_TARGET_DIR`.
    pub fn for_module(
        name: &str,
        source_root: Option<&String>,
        out_dir: Option<&String>,
        profile: BuildProfile,
    ) -> (c: BuildCommand)
        ensures
            c.program@ == "cargo"@,
            c.args.deep_view() == spec_build_args(profile),
            c.current_dir@ == spec_source_dir(
                match source_root {
                    Some(r) => Some(r@),
                    None => None,
                },
                name@,
            ),
            c.env_key@ == "CARGO_TARGET_DIR"@,
            c.env_value@ == spec_out_dir(
                match out_dir {
                    Some(d) => Some(d@),
                    None => None,
                },
            ),
    {
        let mut args: Vec<String> = Vec::new();
        args.push("build".to_owned());
        args.push("--features".to_owned());
        args.push("impl".to_owned());
        if let BuildProfile::Release = profile {
            args.push("--release".to_owned());
        }
        let mut current_dir: String = match source_root {
            Some(r) => r.clone(),
            None => "mods".to_owned(),
        };
        current_dir.append("/mod-");
        current_dir.append(name);
        let env_value: String = match out_dir {
            Some(d) => d.clone(),
            None => "target".to_owned(),
        };
        proof {
            assert(args.deep_view() =~= spec_build_args(profile));
        }
        BuildCommand {
            program: "cargo".to_owned(),
            args,
            current_dir,
            env_key: "CARGO_TARGET_DIR".to_owned(),
            env_value,
        }
    }
}

/// The origin stream of one captured build-output line.
#[derive(Clone, Copy, PartialEq, Eq, Structural, Debug)]
pub enum StreamKind {
    Stdout,
    Stderr,
}

/// One captured line of build output, tagged with the stream it arrived on.
#[derive(Debug)]
pub struct LogLine {
    pub stream: StreamKind,
    pub text: String,
}

/// An ordered log of a build's output: the two streams merged by arrival
/// order.  Used solely for diagnostics on build failure; discarded on
/// success.
#[derive(Debug)]
pub struct BuildLog {
    pub lines: Vec<LogLine>,
}

/// Whether two logs carry the same lines: same length, and line for line
/// the same stream tag and the same text.
pub open spec fn log_equiv(a: BuildLog, b: BuildLog) -> bool {
    &&& a.lines@.len() == b.lines@.len()
    &&& forall|i: int|
        0 <= i < a.lines@.len() ==> a.lines@[i].stream == b.lines@[i].stream && a.lines@[i].text@
            == b.lines@[i].text@
}

/// The tag a line's origin stream renders with.
pub open spec fn spec_stream_tag(s: StreamKind) -> Seq<char> {
    match s {
        StreamKind::Stdout => "out| "@,
        StreamKind::Stderr => "err| "@,
    }
}

/// One log line as it renders: its tag, its text, and a line break.
pub open spec fn spec_line(l: LogLine) -> Seq<char> {
    spec_stream_tag(l.stream) + l.text@ + "\n"@
}

/// A whole log as it renders: every line in order.
pub open spec fn spec_render(s: Seq<LogLine>) -> Seq<char>
    decreases s.len(),
{
    if s.len() == 0 {
        Seq::<char>::empty()
    } else {
        spec_render(s.drop_last()) + spec_line(s.last())
    }
}

impl BuildLog {
    /// An empty log.
    pub fn new() -> (r: BuildLog)
        ensures
            r.lines@ =~= Seq::<LogLine>::empty(),
    {
        BuildLog { lines: Vec::new() }
    }

    /// Appends one captured line in arrival order.
    pub fn push_line(&mut self, stream: StreamKind, text: String)
        ensures
            final(self).lines@ == old(self).lines@.push(LogLine { stream, text }),
    {
        self.lines.push(LogLine { stream, text });
    }

    /// The number of captured lines.
    pub fn len(&self) -> (r: usize)
        ensures
            r == self.lines@.len(),
    {
        self.lines.len()
    }

    /// Renders the whole log, every line in order, each prefixed with its
    /// origin-stream tag and ended with a line break.
    pub fn render(&self) -> (r: String)
        ensures
            r@ == spec_render(self.lines@),
    {
        let mut s = String::new();
        let mut i: usize = 0;
        while i < self.lines.len()
            invariant
                i <= self.lines.len(),
                s@ == spec_render(self.lines@.take(i as int)),
            decreases self.lines.len() - i,
        {
            let line = &self.lines[i];
            match line.stream {
                StreamKind::Stdout => s.append("out| "),
                StreamKind::Stderr => s.append("err| "),
            }
            s.append(line.text.as_str());
            s.append("\n");
            proof {
                let t = self.lines@.take(i as int + 1);
                assert(t.drop_last() =~= self.lines@.take(i as int));
                assert(t.last() == self.lines@[i as int]);
                assert(s@ =~= spec_render(t));
            }
            i = i + 1;
        }
        proof {
            assert(self.lines@.take(self.lines@.len() as int) =~= self.lines@);
        }
        s
    }

    /// A line-for-line copy of the log.
    pub fn duplicate(&self) -> (r: BuildLog)
        ensures
            log_equiv(r, *self),
    {
        let mut lines: Vec<LogLine> = Vec::new();
        let mut i: usize = 0;
        while i < self.lines.len()
            invariant
                i <= self.lines.len(),
                lines.len() == i,
                forall|j: int|
                    0 <= j < i ==> lines@[j].stream == self.lines@[j].stream && lines@[j].text@
                        == self.lines@[j].text@,
            decreases self.lines.len() - i,
        {
            let line = &self.lines[i];
            lines.push(LogLine { stream: line.stream, text: line.text.clone() });
            i = i + 1;
        }
        BuildLog { lines }
    }
}

/// Every captured line appears verbatim, tag and text, inside the rendered
/// log: surfacing the render on a failed build loses no captured output
/// from either stream.
pub proof fn lemma_render_contains_line(s: Seq<LogLine>, i: int)
    requires
        0 <= i < s.len(),
    ensures
        exists|off: int|
            0 <= off && off + spec_line(s[i]).len() <= spec_render(s).len() && #[trigger] spec_render(
                s,
            ).subrange(off, off + spec_line(s[i]).len() as int) == spec_line(s[i]),
    decreases s.len(),
{
    let a = spec_render(s.drop_last());
    let b = spec_line(s.last());
    let l = spec_line(s[i]).len() as int;
    if i == s.len() - 1 {
        let off = a.len() as int;
        assert(spec_render(s).subrange(off, off + l) =~= b);
        assert(0 <= off && off + spec_line(s[i]).len() <= spec_render(s).len() && spec_render(
            s,
        ).subrange(off, off + spec_line(s[i]).len() as int) == spec_line(s[i]));
    } else {
        lemma_render_contains_line(s.drop_last(), i);
        assert(s.drop_last()[i] == s[i]);
        let off = choose|off: int|
            0 <= off && off + spec_line(s.drop_last()[i]).len() <= spec_render(
                s.drop_last(),
            ).len() && #[trigger] spec_render(s.drop_last()).subrange(
                off,
                off + spec_line(s.drop_last()[i]).len() as int,
            ) == spec_line(s.drop_last()[i]);
        assert(spec_render(s).subrange(off, off + l) =~= a.subrange(off, off + l));
        assert(0 <= off && off + spec_line(s[i]).len() <= spec_render(s).len() && spec_render(
            s,
        ).subrange(off, off + spec_line(s[i]).len() as int) == spec_line(s[i]));
    }
}

} // verus!
