use envicutor::install::{
    artifact_plan, build_stage_args, recipe_path, registry_row, workdir, AddRuntimeRequest,
    LimitField, RequestedLimits, RuntimeNames, ValidationError,
};
use envicutor::isolate::Isolate;
use envicutor::limits::MandatoryLimits;

fn no_limits() -> RequestedLimits {
    RequestedLimits {
        memory: None,
        cpu_time: None,
        wall_time: None,
        extra_time: None,
        max_open_files: None,
        max_file_size: None,
        max_number_of_processes: None,
    }
}

fn request(compile: &str) -> AddRuntimeRequest {
    AddRuntimeRequest {
        name: "python".to_string(),
        nix_shell: "{ pkgs }: pkgs.mkShell {}".to_string(),
        compile_script: compile.to_string(),
        run_script: "python3 main.py".to_string(),
        source_file_name: "main.py".to_string(),
        limits: no_limits(),
    }
}

fn ceiling() -> MandatoryLimits {
    MandatoryLimits {
        memory: 512000,
        cpu_time: 300,
        wall_time: 600,
        extra_time: 5,
        max_open_files: 2048,
        max_file_size: 100000000,
        max_number_of_processes: 128,
    }
}

#[test]
fn validation_order() {
    let mut r = request("");
    assert!(r.validate().is_ok());
    r.source_file_name = String::new();
    assert!(matches!(r.validate(), Err(ValidationError::EmptySourceFileName)));
    r.run_script = String::new();
    assert!(matches!(r.validate(), Err(ValidationError::EmptyRunScript)));
    r.nix_shell = String::new();
    assert!(matches!(r.validate(), Err(ValidationError::EmptyNixShell)));
    r.name = String::new();
    assert!(matches!(r.validate(), Err(ValidationError::EmptyName)));
}

#[test]
fn limits_default_to_ceiling() {
    let l = request("").get_limits(&ceiling()).ok().unwrap();
    assert_eq!(l.memory, 512000);
    assert_eq!(l.max_number_of_processes, 128);
}

#[test]
fn limits_within_ceiling_are_kept() {
    let mut r = request("");
    r.limits.wall_time = Some(600);
    r.limits.cpu_time = Some(10);
    let l = r.get_limits(&ceiling()).ok().unwrap();
    assert_eq!(l.wall_time, 600);
    assert_eq!(l.cpu_time, 10);
}

#[test]
fn limits_above_ceiling_or_zero_are_refused() {
    let mut r = request("");
    r.limits.max_open_files = Some(4096);
    assert!(matches!(
        r.get_limits(&ceiling()),
        Err(ValidationError::LimitAboveCeiling { field: LimitField::MaxOpenFiles, ceiling: 2048 })
    ));
    r.limits.memory = Some(0);
    assert!(matches!(
        r.get_limits(&ceiling()),
        Err(ValidationError::ZeroLimit { field: LimitField::Memory })
    ));
}

#[test]
fn build_stage_layout() {
    assert_eq!(workdir(17), "/tmp/17");
    assert_eq!(recipe_path(17), "/tmp/17/shell.nix");
    let h = Isolate::init(17, true, b"/var/local/lib/isolate/17", b"").ok().unwrap();
    let args = build_stage_args(&h, &ceiling());
    assert_eq!(args[3], "--dir=/nix/store:rw,dev");
    assert_eq!(args[4], "--dir=/tmp/17");
    assert_eq!(args[5], "--cg-mem=512000");
    assert_eq!(args[12], "-b17");
    assert_eq!(args[13..], ["--", "nix-shell", "/tmp/17/shell.nix", "--run", "export"]);
}

#[test]
fn failed_build_adds_no_row() {
    assert!(registry_row(false, &request("")).is_none());
    let row = registry_row(true, &request("")).unwrap();
    assert_eq!(row.name, "python");
    assert_eq!(row.source_file_name, "main.py");
}

#[test]
fn artifacts_without_compile_script() {
    let plan = artifact_plan(42, &request(""), b"export A=1\n");
    let paths: Vec<&str> = plan.iter().map(|a| a.path.as_str()).collect();
    assert_eq!(
        paths,
        vec![
            "/envicutor/runtimes/42/run",
            "/envicutor/runtimes/42/env",
            "/envicutor/runtimes/42/shell.nix"
        ]
    );
    assert_eq!(plan[0].contents, b"python3 main.py".to_vec());
    assert_eq!(plan[1].contents, b"export A=1\n".to_vec());
    assert!(plan[0].executable && plan[1].executable && !plan[2].executable);
}

#[test]
fn artifacts_with_compile_script() {
    let plan = artifact_plan(7, &request("gcc main.c"), b"");
    assert_eq!(plan.len(), 4);
    assert_eq!(plan[0].path, "/envicutor/runtimes/7/compile");
    assert_eq!(plan[0].contents, b"gcc main.c".to_vec());
    assert!(plan[0].executable);
}

#[test]
fn names_record_and_lookup() {
    let mut names = RuntimeNames::new();
    assert_eq!(names.name_of(1), None);
    names.record(1, "python".to_string());
    names.record(2, "rust".to_string());
    assert_eq!(names.name_of(1), Some("python".to_string()));
    assert_eq!(names.name_of(2), Some("rust".to_string()));
}
