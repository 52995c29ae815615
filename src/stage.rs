use vstd::prelude::*;

use crate::isolate::{push_text, views};
use crate::text::{decimal, decimal_text, joined};

verus! {

/// Ceilings of the execution-time sandbox.
pub struct StageConstraints {
    /// Seconds.
    pub time: u32,
    /// Megabytes.
    pub memory: u32,
    pub no_processes: u32,
    pub output_size: u32,
    pub error_size: u32,
    pub file_size: u32,
    pub networking: bool,
    pub no_files: u32,
}

/// The shell line that enters the runtime's environment and starts `main_program`.
pub open spec fn stage_script_spec(nix_bin_path: Seq<char>, main_program: Seq<char>) -> Seq<char> {
    "export PATH=/bin:$PATH && mkdir /tmp/home && "@ + nix_bin_path + "/nix-shell shell.nix --run "@
        + main_program
}

/// The jail's arguments: time, memory in bytes, process, file and file-size ceilings, no
/// swap, the network (with name resolution) only when allowed, then the program.
pub open spec fn stage_args_spec(
    c: StageConstraints,
    nix_bin_path: Seq<char>,
    main_program: Seq<char>,
    args: Seq<Seq<char>>,
) -> Seq<Seq<char>> {
    seq![
        "-t"@,
        decimal(c.time as nat),
        "--use_cgroupv2"@,
        "--cgroup_mem_max"@,
        decimal(c.memory as nat * 1000 * 1000),
        "--cgroup_pids_max"@,
        decimal(c.no_processes as nat),
        "--cgroup_mem_swap_max"@,
        "0"@,
        "--rlimit_nofile"@,
        decimal(c.no_files as nat),
        "--rlimit_fsize"@,
        decimal(c.file_size as nat),
    ] + (if c.networking {
        seq!["-N"@, "-R"@, "/etc/resolv.conf"@]
    } else {
        Seq::empty()
    }) + seq![
        "--"@,
        "/bin/bash"@,
        "-c"@,
        stage_script_spec(nix_bin_path, main_program),
        "envicutor"@,
    ] + args
}

/// The arguments of the jail that runs `main_program` with `args` under `c`.
pub fn stage_args(c: &StageConstraints, nix_bin_path: &str, main_program: &str, args: &[String]) -> (r:
    Vec<String>)
    ensures
        views(r@) == stage_args_spec(*c, nix_bin_path@, main_program@, views(args@)),
{
    let mut r: Vec<String> = Vec::new();
    push_text(&mut r, "-t".to_owned());
    push_text(&mut r, decimal_text(c.time as u64));
    push_text(&mut r, "--use_cgroupv2".to_owned());
    push_text(&mut r, "--cgroup_mem_max".to_owned());
    push_text(&mut r, decimal_text(c.memory as u64 * 1000 * 1000));
    push_text(&mut r, "--cgroup_pids_max".to_owned());
    push_text(&mut r, decimal_text(c.no_processes as u64));
    push_text(&mut r, "--cgroup_mem_swap_max".to_owned());
    push_text(&mut r, "0".to_owned());
    push_text(&mut r, "--rlimit_nofile".to_owned());
    push_text(&mut r, decimal_text(c.no_files as u64));
    push_text(&mut r, "--rlimit_fsize".to_owned());
    push_text(&mut r, decimal_text(c.file_size as u64));
    if c.networking {
        push_text(&mut r, "-N".to_owned());
        push_text(&mut r, "-R".to_owned());
        push_text(&mut r, "/etc/resolv.conf".to_owned());
    }
    push_text(&mut r, "--".to_owned());
    push_text(&mut r, "/bin/bash".to_owned());
    push_text(&mut r, "-c".to_owned());
    let script = joined(
        joined(
            joined("export PATH=/bin:$PATH && mkdir /tmp/home && ", nix_bin_path).as_str(),
            "/nix-shell shell.nix --run ",
        ).as_str(),
        main_program,
    );
    push_text(&mut r, script);
    push_text(&mut r, "envicutor".to_owned());
    let ghost head = views(r@);
    let mut j: usize = 0;
    while j < args.len()
        invariant
            j <= args.len(),
            views(r@) == head + views(args@).take(j as int),
        decreases args.len() - j,
    {
        push_text(&mut r, args[j].clone());
        assert(views(args@).take(j + 1) =~= views(args@).take(j as int).push(args@[j as int]@));
        assert(views(r@) =~= head + views(args@).take(j + 1));
        j += 1;
    }
    assert(views(args@).take(j as int) =~= views(args@));
    assert(views(r@) =~= stage_args_spec(*c, nix_bin_path@, main_program@, views(args@)));
    r
}

} // verus!
