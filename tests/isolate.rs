use envicutor::isolate::{Isolate, SandboxError};
use envicutor::limits::MandatoryLimits;

fn handle() -> Isolate {
    Isolate::init(3, true, b"  /var/local/lib/isolate/3\n", b"").ok().unwrap()
}

fn limits() -> MandatoryLimits {
    MandatoryLimits {
        memory: 1024,
        cpu_time: 2,
        wall_time: 5,
        extra_time: 1,
        max_open_files: 64,
        max_file_size: 4096,
        max_number_of_processes: 8,
    }
}

#[test]
fn init_derives_metadata_path() {
    let h = handle();
    assert_eq!(h.box_id(), 3);
    assert_eq!(h.metadata_file_path(), "/var/local/lib/isolate/3/metadata.txt");
}

#[test]
fn init_failure_carries_output() {
    match Isolate::init(4, false, b"out\xff", b"cannot init") {
        Err(SandboxError::Initialization { stderr, stdout }) => {
            assert_eq!(stderr, "cannot init");
            assert_eq!(stdout, "out\u{FFFD}");
        }
        _ => panic!("expected an initialization error"),
    }
}

#[test]
fn init_and_cleanup_args() {
    assert_eq!(Isolate::init_args(12), vec!["--init", "--cg", "-b12"]);
    assert_eq!(handle().cleanup_args(), vec!["--cleanup", "--cg", "-b3"]);
}

#[test]
fn run_args_layout() {
    let h = handle();
    let args = h.run_args(
        &["/a".to_string(), "/b:rw".to_string()],
        &limits(),
        &["python3".to_string(), "main.py".to_string()],
    );
    assert_eq!(
        args,
        vec![
            "--run",
            "--meta=/var/local/lib/isolate/3/metadata.txt",
            "--cg",
            "--dir=/a",
            "--dir=/b:rw",
            "--cg-mem=1024",
            "--wall-time=5",
            "--time=2",
            "--extra-time=1",
            "--open-files=64",
            "--fsize=4096",
            "--processes=8",
            "-b3",
            "--",
            "python3",
            "main.py",
        ]
    );
}

#[test]
fn run_success_gives_exit_code_zero() {
    let r = handle()
        .run(true, b"hello\n", b"", "time:0.012\ntime-wall:0.050\ncgmem:2048\nexitcode:0\n")
        .ok()
        .unwrap();
    assert_eq!(r.exit_code, Some(0));
    assert_eq!(r.exit_signal, None);
    assert_eq!(r.exit_status, None);
    assert_eq!(r.memory, Some(2048));
    assert_eq!(r.stdout, "hello\n");
    assert_eq!(r.stderr, "");
}

#[test]
fn run_failing_primitive_with_exit_code_is_a_result() {
    let r = handle()
        .run(false, b"", b"boom\xfe", "status:SG\nexitcode:137\nexitsig:9\n")
        .ok()
        .unwrap();
    assert_eq!(r.exit_code, Some(137));
    assert_eq!(r.exit_status, Some("SG".to_string()));
    assert_eq!(r.exit_signal, Some(9));
    assert_eq!(r.stderr, "boom\u{FFFD}");
}

#[test]
fn run_failing_primitive_without_exit_code_is_an_error() {
    let r = handle().run(false, b"", b"", "status:XX\nmessage:internal error\n");
    assert!(matches!(r, Err(SandboxError::Execution)));
}

#[test]
fn run_with_malformed_metadata_is_an_error() {
    let r = handle().run(true, b"", b"", "exitcode:0\ngarbage\n");
    assert!(matches!(r, Err(SandboxError::MetadataParse { line: 1 })));
}

#[test]
fn run_user_program_failure_is_a_result() {
    let r = handle().run(true, b"", b"", "exitcode:1\nstatus:RE\n").ok().unwrap();
    assert_eq!(r.exit_code, Some(1));
}
