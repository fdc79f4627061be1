//! Construction of the external tool's invocations.
//!
//! Every operation of the client is one run of the storage tool's executable
//! with an ordered argument list.  The functions here build those lists, and
//! their contracts pin each list down element by element, so that a caller
//! knows exactly which command line a given request turns into.

use std::path::Path;

use vstd::prelude::*;
use vstd::string::StringExecFns;

use crate::outcome::ErrorKind;
use crate::outcome::StoreError;
use crate::BucketRef;

verus! {

/// The name of the external storage executable.
pub open spec fn tool_name() -> Seq<char> {
    "oci"@
}

/// One pending run of the external tool: the executable's name and its
/// ordered argument list.  The caller spawns it; nothing here does.
#[derive(Debug)]
pub struct Invocation {
    pub executable: String,
    pub args: Vec<String>,
}

impl Invocation {
    /// The argument list as the sequence of its characters, which the
    /// builders' contracts speak of.
    pub open spec fn args_view(&self) -> Seq<Seq<char>> {
        self.args@.map_values(|s: String| s@)
    }

    /// An invocation of the storage tool itself, rather than of some other
    /// executable.
    pub open spec fn is_tool(&self) -> bool {
        self.executable@ == tool_name()
    }
}

/// The arguments of a bulk download: every object of the bucket is fetched
/// into the destination directory.
pub open spec fn retrieve_args(bucket: Seq<char>, namespace: Seq<char>, local_dir: Seq<char>) -> Seq<
    Seq<char>,
> {
    seq![
        "os"@,
        "object"@,
        "bulk-download"@,
        "--bucket-name"@,
        bucket,
        "--namespace-name"@,
        namespace,
        "--download-dir"@,
        local_dir,
    ]
}

/// Builds the bulk-download invocation that fetches the bucket's objects
/// into `local_dir`.
pub fn retrieve_invocation(target: &BucketRef, local_dir: &str) -> (r: Invocation)
    ensures
        r.is_tool(),
        r.args_view() == retrieve_args(target.bucket@, target.namespace@, local_dir@),
{
    let mut args: Vec<String> = Vec::new();
    args.push("os".to_owned());
    args.push("object".to_owned());
    args.push("bulk-download".to_owned());
    args.push("--bucket-name".to_owned());
    args.push(target.bucket.as_str().to_owned());
    args.push("--namespace-name".to_owned());
    args.push(target.namespace.as_str().to_owned());
    args.push("--download-dir".to_owned());
    args.push(local_dir.to_owned());
    let r = Invocation { executable: "oci".to_owned(), args };
    proof {
        assert(r.args_view() =~= retrieve_args(target.bucket@, target.namespace@, local_dir@));
    }
    r
}

/// The arguments of a bulk upload: the whole directory tree under
/// `local_dir` is sent to the bucket, the tool choosing the object names
/// from the relative paths.
pub open spec fn upload_dir_args(bucket: Seq<char>, namespace: Seq<char>, local_dir: Seq<char>) -> Seq<
    Seq<char>,
> {
    seq![
        "os"@,
        "object"@,
        "bulk-upload"@,
        "--bucket-name"@,
        bucket,
        "--namespace-name"@,
        namespace,
        "--src-dir"@,
        local_dir,
    ]
}

/// The arguments of a single-object put: the file at `local_path` is stored
/// under `object_name`.
pub open spec fn upload_file_args(
    bucket: Seq<char>,
    namespace: Seq<char>,
    local_path: Seq<char>,
    object_name: Seq<char>,
) -> Seq<Seq<char>> {
    seq![
        "os"@,
        "object"@,
        "put"@,
        "--bucket-name"@,
        bucket,
        "--namespace-name"@,
        namespace,
        "--file"@,
        local_path,
        "--name"@,
        object_name,
    ]
}

/// The arguments of a delete: the named object is removed, with the flag
/// that suppresses the tool's interactive confirmation prompt.
pub open spec fn delete_args(bucket: Seq<char>, namespace: Seq<char>, object_name: Seq<char>) -> Seq<
    Seq<char>,
> {
    seq![
        "os"@,
        "object"@,
        "delete"@,
        "--bucket-name"@,
        bucket,
        "--namespace-name"@,
        namespace,
        "--name"@,
        object_name,
        "--force"@,
    ]
}

/// Builds the delete invocation for one object.  It always carries the
/// forced, non-interactive deletion flag: no delete goes out that could
/// stall on a confirmation prompt.
pub fn delete_invocation(target: &BucketRef, object_name: &str) -> (r: Invocation)
    ensures
        r.is_tool(),
        r.args_view() == delete_args(target.bucket@, target.namespace@, object_name@),
        r.args_view().contains("--force"@),
{
    let mut args: Vec<String> = Vec::new();
    args.push("os".to_owned());
    args.push("object".to_owned());
    args.push("delete".to_owned());
    args.push("--bucket-name".to_owned());
    args.push(target.bucket.as_str().to_owned());
    args.push("--namespace-name".to_owned());
    args.push(target.namespace.as_str().to_owned());
    args.push("--name".to_owned());
    args.push(object_name.to_owned());
    args.push("--force".to_owned());
    let r = Invocation { executable: "oci".to_owned(), args };
    proof {
        assert(r.args_view() =~= delete_args(target.bucket@, target.namespace@, object_name@));
        assert(r.args_view()[9] == "--force"@);
    }
    r
}

/// What a probe of the local filesystem found at the upload path.  The
/// caller, who owns the filesystem access, reports it in these terms.
#[derive(Clone, Copy, Debug, PartialEq, Eq, Structural)]
pub enum PathKind {
    /// Nothing exists at the path.
    Missing,
    /// The path names a directory.
    Directory,
    /// The path names an existing non-directory entry, to be uploaded as a
    /// single object.
    File,
}

/// The final component of a path, when it has one — what the platform's
/// path rules resolve, `None` for a path that ends in `..` or names a root.
pub uninterp spec fn base_name_of(path: Seq<char>) -> Option<Seq<char>>;

/// Relies on std's `Path::file_name`: the final component of the path, a
/// function of the path's characters alone; `None` when the path terminates
/// in `..` or is a root.
#[verifier::external_body]
fn path_base_name(path: &str) -> (r: Option<String>)
    ensures
        r matches Some(s) ==> base_name_of(path@) == Some(s@),
        r is None ==> base_name_of(path@) is None,
{
    match Path::new(path).file_name() {
        Some(name) => match name.to_str() {
            Some(s) => Some(s.to_owned()),
            None => None,
        },
        None => None,
    }
}

/// Decides what an upload of `local_path` turns into, given what the
/// filesystem probe found there.  A missing path is rejected before
/// anything is spawned; a directory becomes a bulk upload; a file becomes a
/// single-object put named after the file's base name, and is rejected —
/// rather than aborting — when the path yields no base name.
pub fn plan_upload(target: &BucketRef, local_path: &str, kind: PathKind) -> (r: Result<
    Invocation,
    StoreError,
>)
    ensures
        r is Ok <==> (kind == PathKind::Directory || (kind == PathKind::File && base_name_of(
            local_path@,
        ) is Some)),
        kind == PathKind::Missing ==> (r matches Err(e) && e.kind == ErrorKind::PreconditionFailure
            && e.detail@ == "path does not exist: "@ + local_path@),
        kind == PathKind::Directory ==> (r matches Ok(inv) && inv.is_tool() && inv.args_view()
            == upload_dir_args(target.bucket@, target.namespace@, local_path@)),
        kind == PathKind::File ==> (base_name_of(local_path@) matches Some(name) ==> (r matches Ok(
            inv,
        ) && inv.is_tool() && inv.args_view() == upload_file_args(
            target.bucket@,
            target.namespace@,
            local_path@,
            name,
        ))),
        kind == PathKind::File && base_name_of(local_path@) is None ==> (r matches Err(e) && e.kind
            == ErrorKind::PreconditionFailure && e.detail@ == "path has no base name: "@
            + local_path@),
{
    match kind {
        PathKind::Missing => Err(
            StoreError {
                kind: ErrorKind::PreconditionFailure,
                detail: String::from_str("path does not exist: ").concat(local_path),
            },
        ),
        PathKind::Directory => {
            let mut args: Vec<String> = Vec::new();
            args.push("os".to_owned());
            args.push("object".to_owned());
            args.push("bulk-upload".to_owned());
            args.push("--bucket-name".to_owned());
            args.push(target.bucket.as_str().to_owned());
            args.push("--namespace-name".to_owned());
            args.push(target.namespace.as_str().to_owned());
            args.push("--src-dir".to_owned());
            args.push(local_path.to_owned());
            let inv = Invocation { executable: "oci".to_owned(), args };
            proof {
                assert(inv.args_view() =~= upload_dir_args(
                    target.bucket@,
                    target.namespace@,
                    local_path@,
                ));
            }
            Ok(inv)
        },
        PathKind::File => {
            match path_base_name(local_path) {
                Some(object_name) => {
                    let mut args: Vec<String> = Vec::new();
                    args.push("os".to_owned());
                    args.push("object".to_owned());
                    args.push("put".to_owned());
                    args.push("--bucket-name".to_owned());
                    args.push(target.bucket.as_str().to_owned());
                    args.push("--namespace-name".to_owned());
                    args.push(target.namespace.as_str().to_owned());
                    args.push("--file".to_owned());
                    args.push(local_path.to_owned());
                    args.push("--name".to_owned());
                    args.push(object_name);
                    let inv = Invocation { executable: "oci".to_owned(), args };
                    proof {
                        assert(inv.args_view() =~= upload_file_args(
                            target.bucket@,
                            target.namespace@,
                            local_path@,
                            base_name_of(local_path@)->Some_0,
                        ));
                    }
                    Ok(inv)
                },
                None => Err(
                    StoreError {
                        kind: ErrorKind::PreconditionFailure,
                        detail: String::from_str("path has no base name: ").concat(local_path),
                    },
                ),
            }
        },
    }
}

} // verus!
