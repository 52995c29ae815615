use envicutor::stage::{stage_args, StageConstraints};

fn constraints(networking: bool) -> StageConstraints {
    StageConstraints {
        time: 3,
        memory: 256,
        no_processes: 16,
        output_size: 1024,
        error_size: 1024,
        file_size: 10,
        networking,
        no_files: 64,
    }
}

#[test]
fn stage_args_without_network() {
    let args = stage_args(&constraints(false), "/nix/bin", "run", &["a".to_string()]);
    assert_eq!(
        args,
        vec![
            "-t",
            "3",
            "--use_cgroupv2",
            "--cgroup_mem_max",
            "256000000",
            "--cgroup_pids_max",
            "16",
            "--cgroup_mem_swap_max",
            "0",
            "--rlimit_nofile",
            "64",
            "--rlimit_fsize",
            "10",
            "--",
            "/bin/bash",
            "-c",
            "export PATH=/bin:$PATH && mkdir /tmp/home && /nix/bin/nix-shell shell.nix --run run",
            "envicutor",
            "a",
        ]
    );
}

#[test]
fn stage_args_with_network() {
    let args = stage_args(&constraints(true), "/p", "compile", &[]);
    assert_eq!(args[13..16], ["-N", "-R", "/etc/resolv.conf"]);
    assert_eq!(args.len(), 21);
}

#[test]
fn stage_memory_does_not_overflow() {
    let mut c = constraints(false);
    c.memory = u32::MAX;
    let args = stage_args(&c, "/p", "run", &[]);
    assert_eq!(args[4], "4294967295000000");
}
