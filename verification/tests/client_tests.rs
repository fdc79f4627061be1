use object_store_client::invocation::delete_invocation;
use object_store_client::invocation::plan_upload;
use object_store_client::invocation::retrieve_invocation;
use object_store_client::invocation::Invocation;
use object_store_client::invocation::PathKind;
use object_store_client::outcome::finish_operation;
use object_store_client::outcome::interpret_outcome;
use object_store_client::outcome::ErrorKind;
use object_store_client::outcome::Operation;
use object_store_client::outcome::RunOutcome;
use object_store_client::BucketRef;

/// A stand-in for the external tool: it never spawns anything, reports a
/// fixed exit status and standard-error text, and counts how often it was
/// asked to run.
struct SimTool {
    exit_zero: bool,
    stderr: String,
    spawn_count: u32,
}

impl SimTool {
    fn new(exit_zero: bool, stderr: &str) -> SimTool {
        SimTool { exit_zero, stderr: stderr.to_string(), spawn_count: 0 }
    }

    fn run(&mut self, inv: &Invocation) -> RunOutcome {
        self.spawn_count += 1;
        assert_eq!(inv.executable, "oci");
        RunOutcome::Completed { exit_zero: self.exit_zero, stderr: self.stderr.clone() }
    }
}

fn target() -> BucketRef {
    BucketRef::new("mybucket".to_string(), "myns".to_string())
}

fn strings(v: &[&str]) -> Vec<String> {
    v.iter().map(|s| s.to_string()).collect()
}

#[test]
fn retrieve_succeeds_on_exit_zero() {
    let mut tool = SimTool::new(true, "");
    let inv = retrieve_invocation(&target(), "./work_dir");
    let outcome = tool.run(&inv);
    assert!(interpret_outcome(outcome).is_ok());
    assert_eq!(tool.spawn_count, 1);
}

#[test]
fn retrieve_fails_on_nonzero_exit_with_stderr_verbatim() {
    let mut tool = SimTool::new(false, "bucket not found\n");
    let inv = retrieve_invocation(&target(), "./work_dir");
    let outcome = tool.run(&inv);
    let err = interpret_outcome(outcome).unwrap_err();
    assert_eq!(err.kind, ErrorKind::NonZeroExit);
    assert_eq!(err.detail, "bucket not found\n");
    assert_eq!(
        err.describe(Operation::Retrieve),
        "Error retrieving objects: bucket not found\n"
    );
}

#[test]
fn retrieve_invocation_arguments_exact() {
    let inv = retrieve_invocation(&target(), "./work_dir");
    assert_eq!(inv.executable, "oci");
    assert_eq!(
        inv.args,
        strings(&[
            "os",
            "object",
            "bulk-download",
            "--bucket-name",
            "mybucket",
            "--namespace-name",
            "myns",
            "--download-dir",
            "./work_dir",
        ])
    );
}

#[test]
fn spawn_failure_is_reported_as_its_own_kind() {
    let outcome = RunOutcome::SpawnError { message: "No such file or directory".to_string() };
    let err = interpret_outcome(outcome).unwrap_err();
    assert_eq!(err.kind, ErrorKind::SpawnFailure);
    assert_eq!(err.detail, "No such file or directory");
    assert_eq!(
        err.describe(Operation::Delete),
        "Failed to invoke OCI CLI: No such file or directory"
    );
}

#[test]
fn upload_missing_path_fails_without_spawning() {
    let mut tool = SimTool::new(true, "");
    let plan = plan_upload(&target(), "./missing_dir", PathKind::Missing);
    let result: Result<(), String> = match plan {
        Ok(inv) => finish_operation(Operation::Upload, tool.run(&inv)),
        Err(e) => Err(e.describe(Operation::Upload)),
    };
    assert_eq!(result.unwrap_err(), "path does not exist: ./missing_dir");
    assert_eq!(tool.spawn_count, 0);
}

#[test]
fn upload_missing_path_error_is_precondition_kind() {
    let err = plan_upload(&target(), "./missing_dir", PathKind::Missing).unwrap_err();
    assert_eq!(err.kind, ErrorKind::PreconditionFailure);
    assert_eq!(err.detail, "path does not exist: ./missing_dir");
}

#[test]
fn upload_directory_selects_bulk_upload() {
    let inv = plan_upload(&target(), "./data", PathKind::Directory).unwrap();
    assert_eq!(inv.executable, "oci");
    assert_eq!(
        inv.args,
        strings(&[
            "os",
            "object",
            "bulk-upload",
            "--bucket-name",
            "mybucket",
            "--namespace-name",
            "myns",
            "--src-dir",
            "./data",
        ])
    );
}

#[test]
fn upload_file_selects_put_named_after_base_name() {
    let inv = plan_upload(&target(), "./data/hello.txt", PathKind::File).unwrap();
    assert_eq!(inv.executable, "oci");
    assert_eq!(
        inv.args,
        strings(&[
            "os",
            "object",
            "put",
            "--bucket-name",
            "mybucket",
            "--namespace-name",
            "myns",
            "--file",
            "./data/hello.txt",
            "--name",
            "hello.txt",
        ])
    );
}

#[test]
fn upload_path_without_base_name_is_a_recoverable_failure() {
    let err = plan_upload(&target(), "..", PathKind::File).unwrap_err();
    assert_eq!(err.kind, ErrorKind::PreconditionFailure);
    assert_eq!(err.detail, "path has no base name: ..");
}

#[test]
fn delete_invocation_always_carries_the_force_flag() {
    let inv = delete_invocation(&target(), "hello.txt");
    assert!(inv.args.iter().any(|a| a == "--force"));
    assert_eq!(
        inv.args,
        strings(&[
            "os",
            "object",
            "delete",
            "--bucket-name",
            "mybucket",
            "--namespace-name",
            "myns",
            "--name",
            "hello.txt",
            "--force",
        ])
    );
}

#[test]
fn second_delete_of_a_gone_object_reports_failure() {
    let inv = delete_invocation(&target(), "hello.txt");

    let mut first = SimTool::new(true, "");
    assert!(finish_operation(Operation::Delete, first.run(&inv)).is_ok());

    let mut second = SimTool::new(false, "object not found");
    let err = interpret_outcome(second.run(&inv)).unwrap_err();
    assert_eq!(err.kind, ErrorKind::NonZeroExit);
    assert_eq!(err.detail, "object not found");
    assert_eq!(
        err.describe(Operation::Delete),
        "Error deleting object: object not found"
    );
}

#[test]
fn delete_hello_txt_succeeds_end_to_end() {
    let mut tool = SimTool::new(true, "");
    let inv = delete_invocation(&target(), "hello.txt");
    let result = finish_operation(Operation::Delete, tool.run(&inv));
    assert_eq!(result, Ok(()));
    assert_eq!(tool.spawn_count, 1);
}

#[test]
fn upload_failure_message_uses_the_upload_wording() {
    let outcome = RunOutcome::Completed { exit_zero: false, stderr: "quota exceeded".to_string() };
    let result = finish_operation(Operation::Upload, outcome);
    assert_eq!(result.unwrap_err(), "Error uploading objects: quota exceeded");
}

#[test]
fn bucket_ref_keeps_its_identifiers() {
    let t = target();
    assert_eq!(t.bucket, "mybucket");
    assert_eq!(t.namespace, "myns");
}
