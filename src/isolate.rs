use vstd::prelude::*;

use crate::gate::MAX_BOX_ID;
use crate::limits::MandatoryLimits;
use crate::metadata::{decode_metadata, decode_spec, MetadataModel, MetadataParseError};
use crate::text::{decimal, decimal_text, joined, lossy_text, trim_of, trimmed, utf8_lossy};

verus! {

/// The text of each string, in order.
pub open spec fn views(v: Seq<String>) -> Seq<Seq<char>> {
    v.map_values(|s: String| s@)
}

/// Appends `s` to `v`.
pub fn push_text(v: &mut Vec<String>, s: String)
    ensures
        final(v)@ == old(v)@.push(s),
        views(final(v)@) == views(old(v)@).push(s@),
{
    v.push(s);
    assert(views(v@) =~= views(old(v)@).push(s@));
}

/// A flag that carries a number: `--time=` and `2` give `--time=2`.
pub open spec fn numbered(flag: Seq<char>, n: nat) -> Seq<char> {
    flag + decimal(n)
}

/// The isolation primitive's arguments that create box `box_id`.
pub open spec fn init_args_spec(box_id: nat) -> Seq<Seq<char>> {
    seq!["--init"@, "--cg"@, numbered("-b"@, box_id)]
}

/// The isolation primitive's arguments that tear box `box_id` down.
pub open spec fn cleanup_args_spec(box_id: nat) -> Seq<Seq<char>> {
    seq!["--cleanup"@, "--cg"@, numbered("-b"@, box_id)]
}

/// The isolation primitive's arguments that run `cmd` in box `box_id` under `l`, with the
/// directories of `mounts` visible and the report written to `meta`.
pub open spec fn run_args_spec(
    meta: Seq<char>,
    box_id: nat,
    mounts: Seq<Seq<char>>,
    l: MandatoryLimits,
    cmd: Seq<Seq<char>>,
) -> Seq<Seq<char>> {
    seq!["--run"@, "--meta="@ + meta, "--cg"@] + mounts.map_values(|m: Seq<char>| "--dir="@ + m)
        + seq![
        numbered("--cg-mem="@, l.memory as nat),
        numbered("--wall-time="@, l.wall_time as nat),
        numbered("--time="@, l.cpu_time as nat),
        numbered("--extra-time="@, l.extra_time as nat),
        numbered("--open-files="@, l.max_open_files as nat),
        numbered("--fsize="@, l.max_file_size as nat),
        numbered("--processes="@, l.max_number_of_processes as nat),
        numbered("-b"@, box_id),
        "--"@,
    ] + cmd
}

/// Where the primitive is told to write its report, inside the box directory it named.
pub open spec fn metadata_path_of(init_stdout: Seq<u8>) -> Seq<char> {
    trim_of(utf8_lossy(init_stdout)) + "/metadata.txt"@
}

/// How a sandboxed run ended, with what it printed.
pub struct StageResult {
    pub memory: Option<u32>,
    pub exit_code: Option<u32>,
    pub exit_signal: Option<u32>,
    pub exit_message: Option<String>,
    pub exit_status: Option<String>,
    pub stdout: String,
    pub stderr: String,
    pub cpu_time: Option<u32>,
    pub wall_time: Option<u32>,
}

impl StageResult {
    /// The fields that came from the report.
    pub open spec fn metadata_view(&self) -> MetadataModel {
        MetadataModel {
            memory: self.memory,
            exit_code: self.exit_code,
            exit_signal: self.exit_signal,
            exit_message: crate::metadata::text_view(self.exit_message),
            exit_status: crate::metadata::text_view(self.exit_status),
            cpu_time: self.cpu_time,
            wall_time: self.wall_time,
        }
    }
}

/// Faults of the sandbox itself; a failing user program is a `StageResult`, not one of these.
pub enum SandboxError {
    /// The primitive could not create the box.
    Initialization { stderr: String, stdout: String },
    /// The primitive failed and its report holds no exit code.
    Execution,
    /// The report is malformed at the given line.
    MetadataParse { line: usize },
}

/// One box of the isolation primitive, owned for as long as the handle lives.
pub struct Isolate {
    box_id: u64,
    metadata_file_path: String,
}

impl Isolate {
    pub closed spec fn spec_box_id(&self) -> u64 {
        self.box_id
    }

    pub closed spec fn spec_metadata_file_path(&self) -> Seq<char> {
        self.metadata_file_path@
    }

    pub fn box_id(&self) -> (r: u64)
        ensures
            r == self.spec_box_id(),
    {
        self.box_id
    }

    pub fn metadata_file_path(&self) -> (r: &String)
        ensures
            r@ == self.spec_metadata_file_path(),
    {
        &self.metadata_file_path
    }

    /// The arguments that create box `box_id`.
    pub fn init_args(box_id: u64) -> (r: Vec<String>)
        ensures
            views(r@) == init_args_spec(box_id as nat),
    {
        let r = vec!["--init".to_owned(), "--cg".to_owned(), joined("-b", &decimal_text(box_id))];
        assert(views(r@) =~= init_args_spec(box_id as nat));
        r
    }

    /// The handle for box `box_id`, from what its `init` invocation reported: an
    /// `Initialization` error, with both outputs, when it failed; otherwise the report
    /// path lies in the directory that it printed.
    pub fn init(box_id: u64, succeeded: bool, stdout: &[u8], stderr: &[u8]) -> (r: Result<
        Isolate,
        SandboxError,
    >)
        requires
            box_id < MAX_BOX_ID,
        ensures
            !succeeded <==> r is Err,
            !succeeded ==> (r matches Err(SandboxError::Initialization { stderr: e, stdout: o })
                && e@ == utf8_lossy(stderr@) && o@ == utf8_lossy(stdout@)),
            r matches Ok(h) ==> (h.spec_box_id() == box_id && h.spec_metadata_file_path()
                == metadata_path_of(stdout@)),
    {
        if !succeeded {
            return Err(
                SandboxError::Initialization { stderr: lossy_text(stderr), stdout: lossy_text(stdout) },
            );
        }
        let text = lossy_text(stdout);
        let dir = trimmed(text.as_str());
        let metadata_file_path = joined(dir.as_str(), "/metadata.txt");
        Ok(Isolate { box_id, metadata_file_path })
    }

    /// The arguments that run `cmd_args` in this box under `limits`, each directory of
    /// `mounts` made visible.
    pub fn run_args(&self, mounts: &[String], limits: &MandatoryLimits, cmd_args: &[String]) -> (r:
        Vec<String>)
        requires
            limits.wf(),
        ensures
            views(r@) == run_args_spec(
                self.spec_metadata_file_path(),
                self.spec_box_id() as nat,
                views(mounts@),
                *limits,
                views(cmd_args@),
            ),
    {
        let mut r: Vec<String> = vec![
            "--run".to_owned(),
            joined("--meta=", self.metadata_file_path.as_str()),
            "--cg".to_owned(),
        ];
        let ghost head = views(r@);
        let mut i: usize = 0;
        while i < mounts.len()
            invariant
                i <= mounts.len(),
                views(r@) == head + views(mounts@).take(i as int).map_values(
                    |m: Seq<char>| "--dir="@ + m,
                ),
            decreases mounts.len() - i,
        {
            push_text(&mut r, joined("--dir=", mounts[i].as_str()));
            assert(views(mounts@).take(i + 1) =~= views(mounts@).take(i as int).push(mounts@[i as int]@));
            assert(views(mounts@).take(i + 1).map_values(|m: Seq<char>| "--dir="@ + m)
                =~= views(mounts@).take(i as int).map_values(|m: Seq<char>| "--dir="@ + m).push("--dir="@ + mounts@[i as int]@));
            assert(views(r@) =~= head + views(mounts@).take(i + 1).map_values(
                |m: Seq<char>| "--dir="@ + m,
            ));
            i += 1;
        }
        assert(views(mounts@).take(i as int) =~= views(mounts@));
        let ghost with_mounts = views(r@);
        push_text(&mut r, joined("--cg-mem=", &decimal_text(limits.memory as u64)));
        push_text(&mut r, joined("--wall-time=", &decimal_text(limits.wall_time as u64)));
        push_text(&mut r, joined("--time=", &decimal_text(limits.cpu_time as u64)));
        push_text(&mut r, joined("--extra-time=", &decimal_text(limits.extra_time as u64)));
        push_text(&mut r, joined("--open-files=", &decimal_text(limits.max_open_files as u64)));
        push_text(&mut r, joined("--fsize=", &decimal_text(limits.max_file_size as u64)));
        push_text(&mut r, joined("--processes=", &decimal_text(limits.max_number_of_processes as u64)));
        push_text(&mut r, joined("-b", &decimal_text(self.box_id)));
        push_text(&mut r, "--".to_owned());
        let ghost with_flags = views(r@);
        let mut j: usize = 0;
        while j < cmd_args.len()
            invariant
                j <= cmd_args.len(),
                views(r@) == with_flags + views(cmd_args@).take(j as int),
            decreases cmd_args.len() - j,
        {
            push_text(&mut r, cmd_args[j].clone());
            assert(views(cmd_args@).take(j + 1) =~= views(cmd_args@).take(j as int).push(cmd_args@[j as int]@));
            assert(views(r@) =~= with_flags + views(cmd_args@).take(j + 1));
            j += 1;
        }
        assert(views(cmd_args@).take(j as int) =~= views(cmd_args@));
        assert(views(r@) =~= run_args_spec(
            self.spec_metadata_file_path(),
            self.spec_box_id() as nat,
            views(mounts@),
            *limits,
            views(cmd_args@),
        ));
        r
    }

    /// The outcome of a run from what the primitive reported: whether it exited
    /// successfully, its output, and the text of the report it wrote.
    ///
    /// The report is read even after a failing exit, since it may still hold the user
    /// program's exit code; only a failing exit with no exit code is a sandbox fault.
    pub fn run(&self, succeeded: bool, stdout: &[u8], stderr: &[u8], metadata: &str) -> (r: Result<
        StageResult,
        SandboxError,
    >)
        ensures
            match decode_spec(metadata@) {
                Err(line) => (r matches Err(SandboxError::MetadataParse { line: l }) && l == line),
                Ok(m) => if !succeeded && m.exit_code is None {
                    r matches Err(SandboxError::Execution)
                } else {
                    (r matches Ok(res) && res.metadata_view() == m && res.stdout@ == utf8_lossy(
                        stdout@,
                    ) && res.stderr@ == utf8_lossy(stderr@))
                },
            },
    {
        let m = match decode_metadata(metadata) {
            Ok(m) => m,
            Err(MetadataParseError { line }) => return Err(SandboxError::MetadataParse { line }),
        };
        if !succeeded && m.exit_code.is_none() {
            return Err(SandboxError::Execution);
        }
        Ok(
            StageResult {
                memory: m.memory,
                exit_code: m.exit_code,
                exit_signal: m.exit_signal,
                exit_message: m.exit_message,
                exit_status: m.exit_status,
                stdout: lossy_text(stdout),
                stderr: lossy_text(stderr),
                cpu_time: m.cpu_time,
                wall_time: m.wall_time,
            },
        )
    }

    /// The arguments that tear this box down.
    pub fn cleanup_args(&self) -> (r: Vec<String>)
        ensures
            views(r@) == cleanup_args_spec(self.spec_box_id() as nat),
    {
        let r = vec!["--cleanup".to_owned(), "--cg".to_owned(), joined("-b", &decimal_text(self.box_id))];
        assert(views(r@) =~= cleanup_args_spec(self.spec_box_id() as nat));
        r
    }
}

} // verus!
