use std::collections::HashMap;

use vstd::prelude::*;
use vstd::utf8::encode_utf8;

use crate::isolate::{run_args_spec, views, Isolate};
use crate::limits::MandatoryLimits;
use crate::text::{decimal, decimal_text, joined};

verus! {

broadcast use vstd::std_specs::hash::group_hash_axioms;

/// Limits that a caller asks for; an absent one takes the system's ceiling.
pub struct RequestedLimits {
    pub memory: Option<u32>,
    pub cpu_time: Option<u32>,
    pub wall_time: Option<u32>,
    pub extra_time: Option<u32>,
    pub max_open_files: Option<u32>,
    pub max_file_size: Option<u32>,
    pub max_number_of_processes: Option<u32>,
}

/// A request to install a runtime.
pub struct AddRuntimeRequest {
    pub name: String,
    /// The environment recipe.
    pub nix_shell: String,
    /// Empty when the runtime compiles nothing.
    pub compile_script: String,
    pub run_script: String,
    pub source_file_name: String,
    pub limits: RequestedLimits,
}

/// Which limit a validation error is about.
pub enum LimitField {
    Memory,
    CpuTime,
    WallTime,
    ExtraTime,
    MaxOpenFiles,
    MaxFileSize,
    MaxNumberOfProcesses,
}

/// A request that is refused before any sandbox is touched.
pub enum ValidationError {
    EmptyName,
    EmptyNixShell,
    EmptyRunScript,
    EmptySourceFileName,
    ZeroLimit { field: LimitField },
    LimitAboveCeiling { field: LimitField, ceiling: u32 },
}

/// One requested limit against its ceiling.
pub open spec fn pick_limit_spec(req: Option<u32>, ceiling: u32, field: LimitField) -> Result<u32, ValidationError> {
    match req {
        None => Ok(ceiling),
        Some(v) => if v == 0 {
            Err(ValidationError::ZeroLimit { field })
        } else if v > ceiling {
            Err(ValidationError::LimitAboveCeiling { field, ceiling })
        } else {
            Ok(v)
        },
    }
}

/// The limits of a request, checked field by field in declaration order.
pub open spec fn limits_spec(r: RequestedLimits, c: MandatoryLimits) -> Result<MandatoryLimits, ValidationError> {
    match pick_limit_spec(r.memory, c.memory, LimitField::Memory) {
        Err(e) => Err(e),
        Ok(memory) => match pick_limit_spec(r.cpu_time, c.cpu_time, LimitField::CpuTime) {
            Err(e) => Err(e),
            Ok(cpu_time) => match pick_limit_spec(r.wall_time, c.wall_time, LimitField::WallTime) {
                Err(e) => Err(e),
                Ok(wall_time) => match pick_limit_spec(r.extra_time, c.extra_time, LimitField::ExtraTime) {
                    Err(e) => Err(e),
                    Ok(extra_time) => match pick_limit_spec(r.max_open_files, c.max_open_files, LimitField::MaxOpenFiles) {
                        Err(e) => Err(e),
                        Ok(max_open_files) => match pick_limit_spec(r.max_file_size, c.max_file_size, LimitField::MaxFileSize) {
                            Err(e) => Err(e),
                            Ok(max_file_size) => match pick_limit_spec(
                                r.max_number_of_processes,
                                c.max_number_of_processes,
                                LimitField::MaxNumberOfProcesses,
                            ) {
                                Err(e) => Err(e),
                                Ok(max_number_of_processes) => Ok(
                                    MandatoryLimits {
                                        memory,
                                        cpu_time,
                                        wall_time,
                                        extra_time,
                                        max_open_files,
                                        max_file_size,
                                        max_number_of_processes,
                                    },
                                ),
                            },
                        },
                    },
                },
            },
        },
    }
}

/// The first empty required field of a request, in the order name, recipe, run script,
/// source file name.
pub open spec fn request_check_spec(name: Seq<char>, nix_shell: Seq<char>, run_script: Seq<char>, source_file_name: Seq<char>) -> Result<(), ValidationError> {
    if name.len() == 0 {
        Err(ValidationError::EmptyName)
    } else if nix_shell.len() == 0 {
        Err(ValidationError::EmptyNixShell)
    } else if run_script.len() == 0 {
        Err(ValidationError::EmptyRunScript)
    } else if source_file_name.len() == 0 {
        Err(ValidationError::EmptySourceFileName)
    } else {
        Ok(())
    }
}

fn pick_limit(req: Option<u32>, ceiling: u32, field: LimitField) -> (r: Result<u32, ValidationError>)
    ensures
        r == pick_limit_spec(req, ceiling, field),
{
    match req {
        None => Ok(ceiling),
        Some(v) => if v == 0 {
            Err(ValidationError::ZeroLimit { field })
        } else if v > ceiling {
            Err(ValidationError::LimitAboveCeiling { field, ceiling })
        } else {
            Ok(v)
        },
    }
}

impl AddRuntimeRequest {
    /// Refuses a request with an empty required field.
    pub fn validate(&self) -> (r: Result<(), ValidationError>)
        ensures
            r == request_check_spec(self.name@, self.nix_shell@, self.run_script@, self.source_file_name@),
    {
        if self.name.as_str().is_empty() {
            Err(ValidationError::EmptyName)
        } else if self.nix_shell.as_str().is_empty() {
            Err(ValidationError::EmptyNixShell)
        } else if self.run_script.as_str().is_empty() {
            Err(ValidationError::EmptyRunScript)
        } else if self.source_file_name.as_str().is_empty() {
            Err(ValidationError::EmptySourceFileName)
        } else {
            Ok(())
        }
    }

    /// The limits to install under: each requested one positive and within its ceiling,
    /// each absent one the ceiling itself.
    pub fn get_limits(&self, ceiling: &MandatoryLimits) -> (r: Result<MandatoryLimits, ValidationError>)
        requires
            ceiling.wf(),
        ensures
            r == limits_spec(self.limits, *ceiling),
            r matches Ok(l) ==> l.wf(),
    {
        let r = &self.limits;
        let memory = pick_limit(r.memory, ceiling.memory, LimitField::Memory)?;
        let cpu_time = pick_limit(r.cpu_time, ceiling.cpu_time, LimitField::CpuTime)?;
        let wall_time = pick_limit(r.wall_time, ceiling.wall_time, LimitField::WallTime)?;
        let extra_time = pick_limit(r.extra_time, ceiling.extra_time, LimitField::ExtraTime)?;
        let max_open_files = pick_limit(r.max_open_files, ceiling.max_open_files, LimitField::MaxOpenFiles)?;
        let max_file_size = pick_limit(r.max_file_size, ceiling.max_file_size, LimitField::MaxFileSize)?;
        let max_number_of_processes = pick_limit(
            r.max_number_of_processes,
            ceiling.max_number_of_processes,
            LimitField::MaxNumberOfProcesses,
        )?;
        Ok(
            MandatoryLimits {
                memory,
                cpu_time,
                wall_time,
                extra_time,
                max_open_files,
                max_file_size,
                max_number_of_processes,
            },
        )
    }
}

/// The scratch directory of box `box_id` for building a runtime.
pub open spec fn workdir_spec(box_id: nat) -> Seq<char> {
    "/tmp/"@ + decimal(box_id)
}

/// Where the recipe is written for the build.
pub open spec fn recipe_path_spec(box_id: nat) -> Seq<char> {
    workdir_spec(box_id) + "/shell.nix"@
}

/// The mounts of the build: the package store read-write, and the scratch directory.
pub open spec fn build_mounts_spec(box_id: nat) -> Seq<Seq<char>> {
    seq!["/nix/store:rw,dev"@, workdir_spec(box_id)]
}

/// The build command: materialise the recipe's environment and print it as exports.
pub open spec fn build_command_spec(box_id: nat) -> Seq<Seq<char>> {
    seq!["nix-shell"@, recipe_path_spec(box_id), "--run"@, "export"@]
}

/// The scratch directory of box `box_id`.
pub fn workdir(box_id: u64) -> (r: String)
    ensures
        r@ == workdir_spec(box_id as nat),
{
    joined("/tmp/", decimal_text(box_id).as_str())
}

/// Where the recipe is written for the build in box `box_id`.
pub fn recipe_path(box_id: u64) -> (r: String)
    ensures
        r@ == recipe_path_spec(box_id as nat),
{
    joined(workdir(box_id).as_str(), "/shell.nix")
}

/// The primitive's arguments for the build stage in the box of `isolate`.
pub fn build_stage_args(isolate: &Isolate, limits: &MandatoryLimits) -> (r: Vec<String>)
    requires
        limits.wf(),
    ensures
        views(r@) == run_args_spec(
            isolate.spec_metadata_file_path(),
            isolate.spec_box_id() as nat,
            build_mounts_spec(isolate.spec_box_id() as nat),
            *limits,
            build_command_spec(isolate.spec_box_id() as nat),
        ),
{
    let box_id = isolate.box_id();
    let mounts = vec!["/nix/store:rw,dev".to_owned(), workdir(box_id)];
    assert(views(mounts@) =~= build_mounts_spec(box_id as nat));
    let command = vec!["nix-shell".to_owned(), recipe_path(box_id), "--run".to_owned(), "export".to_owned()];
    assert(views(command@) =~= build_command_spec(box_id as nat));
    isolate.run_args(mounts.as_slice(), limits, command.as_slice())
}

/// A row of the runtime registry.
pub struct RegistryRow {
    pub name: String,
    pub source_file_name: String,
}

/// The rows that an installation adds: one when the build succeeded, none otherwise.
pub open spec fn rows_spec(succeeded: bool, name: Seq<char>, source_file_name: Seq<char>) -> Seq<(Seq<char>, Seq<char>)> {
    if succeeded {
        seq![(name, source_file_name)]
    } else {
        Seq::empty()
    }
}

/// The registry row to insert after the build stage; none when the build failed.
pub fn registry_row(succeeded: bool, req: &AddRuntimeRequest) -> (r: Option<RegistryRow>)
    ensures
        r is Some <==> succeeded,
        r matches Some(row) ==> rows_spec(succeeded, req.name@, req.source_file_name@) == seq![(row.name@, row.source_file_name@)],
        r is None ==> rows_spec(succeeded, req.name@, req.source_file_name@).len() == 0,
{
    if succeeded {
        Some(RegistryRow { name: req.name.clone(), source_file_name: req.source_file_name.clone() })
    } else {
        None
    }
}

/// A file to write into a runtime's directory.
pub struct ArtifactModel {
    pub path: Seq<char>,
    pub contents: Seq<u8>,
    pub executable: bool,
}

pub struct Artifact {
    pub path: String,
    pub contents: Vec<u8>,
    pub executable: bool,
}

impl View for Artifact {
    type V = ArtifactModel;

    open spec fn view(&self) -> ArtifactModel {
        ArtifactModel { path: self.path@, contents: self.contents@, executable: self.executable }
    }
}

/// The directory of runtime `id`.
pub open spec fn runtime_dir_spec(id: nat) -> Seq<char> {
    "/envicutor/runtimes/"@ + decimal(id)
}

/// The files of runtime `id`: its compile script when it has one, its run script, the
/// captured environment as an `env` script (all three executable), and its recipe.
pub open spec fn artifacts_spec(id: nat, nix_shell: Seq<char>, compile_script: Seq<char>, run_script: Seq<char>, env_export: Seq<u8>) -> Seq<ArtifactModel> {
    let dir = runtime_dir_spec(id);
    (if compile_script.len() > 0 {
        seq![ArtifactModel { path: dir + "/compile"@, contents: encode_utf8(compile_script), executable: true }]
    } else {
        Seq::empty()
    }) + seq![
        ArtifactModel { path: dir + "/run"@, contents: encode_utf8(run_script), executable: true },
        ArtifactModel { path: dir + "/env"@, contents: env_export, executable: true },
        ArtifactModel { path: dir + "/shell.nix"@, contents: encode_utf8(nix_shell), executable: false },
    ]
}

pub open spec fn artifact_views(a: Seq<Artifact>) -> Seq<ArtifactModel> {
    a.map_values(|x: Artifact| x@)
}

/// A copy of `b`.
pub fn copy_bytes(b: &[u8]) -> (r: Vec<u8>)
    ensures
        r@ == b@,
{
    let mut out: Vec<u8> = Vec::new();
    let mut i: usize = 0;
    while i < b.len()
        invariant
            i <= b.len(),
            out@ == b@.take(i as int),
        decreases b.len() - i,
    {
        out.push(b[i]);
        assert(out@ =~= b@.take(i + 1));
        i += 1;
    }
    assert(out@ =~= b@);
    out
}

fn push_artifact(v: &mut Vec<Artifact>, a: Artifact)
    ensures
        artifact_views(final(v)@) == artifact_views(old(v)@).push(a@),
{
    let ghost av = a@;
    v.push(a);
    assert(artifact_views(v@) =~= artifact_views(old(v)@).push(av));
}

/// The directory of runtime `id`.
pub fn runtime_dir(id: u32) -> (r: String)
    ensures
        r@ == runtime_dir_spec(id as nat),
{
    joined("/envicutor/runtimes/", decimal_text(id as u64).as_str())
}

/// The files to write for runtime `id`, built from `req` and the environment that the
/// build stage printed.
pub fn artifact_plan(id: u32, req: &AddRuntimeRequest, env_export: &[u8]) -> (r: Vec<Artifact>)
    ensures
        artifact_views(r@) == artifacts_spec(id as nat, req.nix_shell@, req.compile_script@, req.run_script@, env_export@),
{
    let dir = runtime_dir(id);
    let mut r: Vec<Artifact> = Vec::new();
    if !req.compile_script.as_str().is_empty() {
        push_artifact(&mut r, Artifact {
            path: joined(dir.as_str(), "/compile"),
            contents: copy_bytes(req.compile_script.as_str().as_bytes()),
            executable: true,
        });
    }
    push_artifact(&mut r, Artifact {
        path: joined(dir.as_str(), "/run"),
        contents: copy_bytes(req.run_script.as_str().as_bytes()),
        executable: true,
    });
    push_artifact(&mut r, Artifact { path: joined(dir.as_str(), "/env"), contents: copy_bytes(env_export), executable: true });
    push_artifact(&mut r, Artifact {
        path: joined(dir.as_str(), "/shell.nix"),
        contents: copy_bytes(req.nix_shell.as_str().as_bytes()),
        executable: false,
    });
    assert(artifact_views(r@) =~= artifacts_spec(id as nat, req.nix_shell@, req.compile_script@, req.run_script@, env_export@));
    r
}

/// The names of installed runtimes by id: a projection of the registry.
pub struct RuntimeNames {
    names: HashMap<u32, String>,
}

impl View for RuntimeNames {
    type V = Map<u32, Seq<char>>;

    closed spec fn view(&self) -> Map<u32, Seq<char>> {
        self.names@.map_values(|s: String| s@)
    }
}

/// The names after an installation: the new runtime's name under its id when the build
/// succeeded, the same names otherwise.
pub open spec fn names_after(succeeded: bool, names: Map<u32, Seq<char>>, id: u32, name: Seq<char>) -> Map<u32, Seq<char>> {
    if succeeded {
        names.insert(id, name)
    } else {
        names
    }
}

impl RuntimeNames {
    pub fn new() -> (r: RuntimeNames)
        ensures
            r@ == Map::<u32, Seq<char>>::empty(),
    {
        let r = RuntimeNames { names: HashMap::new() };
        assert(r@ =~= Map::<u32, Seq<char>>::empty());
        r
    }

    /// Records that runtime `id` is called `name`.
    pub fn record(&mut self, id: u32, name: String)
        ensures
            final(self)@ == old(self)@.insert(id, name@),
    {
        let ghost nv = name@;
        self.names.insert(id, name);
        assert(self@ =~= old(self)@.insert(id, nv));
    }

    /// The name of runtime `id`, if it is installed.
    pub fn name_of(&self, id: u32) -> (r: Option<String>)
        ensures
            match r {
                Some(n) => self@.contains_key(id) && self@[id] == n@,
                None => !self@.contains_key(id),
            },
    {
        match self.names.get(&id) {
            Some(n) => Some(n.clone()),
            None => None,
        }
    }
}

/// An installation whose build failed adds no registry row and leaves the names as they
/// were; one whose build succeeded adds exactly one row, maps the row's id to its name,
/// and writes the run and env scripts always and the compile script exactly when one
/// was given.
pub proof fn lemma_install_effects(
    succeeded: bool,
    names: Map<u32, Seq<char>>,
    id: u32,
    name: Seq<char>,
    source_file_name: Seq<char>,
    nix_shell: Seq<char>,
    compile_script: Seq<char>,
    run_script: Seq<char>,
    env_export: Seq<u8>,
)
    ensures
        !succeeded ==> rows_spec(succeeded, name, source_file_name).len() == 0 && names_after(succeeded, names, id, name) == names,
        succeeded ==> rows_spec(succeeded, name, source_file_name) == seq![(name, source_file_name)],
        succeeded ==> names_after(succeeded, names, id, name).contains_key(id) && names_after(succeeded, names, id, name)[id] == name,
        succeeded ==> names_after(succeeded, names, id, name).remove(id) == names.remove(id),
        ({
            let files = artifacts_spec(id as nat, nix_shell, compile_script, run_script, env_export).map_values(|a: ArtifactModel| a.path);
            let dir = runtime_dir_spec(id as nat);
            &&& files.contains(dir + "/run"@)
            &&& files.contains(dir + "/env"@)
            &&& files.contains(dir + "/compile"@) <==> compile_script.len() > 0
        }),
{
    let arts = artifacts_spec(id as nat, nix_shell, compile_script, run_script, env_export);
    let files = arts.map_values(|a: ArtifactModel| a.path);
    let dir = runtime_dir_spec(id as nat);
    let k: int = if compile_script.len() > 0 { 1 } else { 0 };
    assert(files[k] == dir + "/run"@);
    assert(files[k + 1] == dir + "/env"@);
    if compile_script.len() > 0 {
        assert(files[0] == dir + "/compile"@);
    } else {
        assert(files.len() == 3);
        reveal_strlit("/compile");
        reveal_strlit("/run");
        reveal_strlit("/env");
        reveal_strlit("/shell.nix");
        lemma_suffix_differs(dir, "/compile"@, "/run"@);
        lemma_suffix_differs(dir, "/compile"@, "/env"@);
        lemma_suffix_differs(dir, "/compile"@, "/shell.nix"@);
        assert(!files.contains(dir + "/compile"@));
    }
    if succeeded {
        assert(names_after(succeeded, names, id, name).remove(id) =~= names.remove(id));
    }
}

proof fn lemma_suffix_differs(dir: Seq<char>, a: Seq<char>, b: Seq<char>)
    requires
        a != b,
    ensures
        dir + a != dir + b,
{
    if dir + a == dir + b {
        assert((dir + a).skip(dir.len() as int) =~= a);
        assert((dir + b).skip(dir.len() as int) =~= b);
    }
}

} // verus!
