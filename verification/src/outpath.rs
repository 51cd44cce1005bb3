//! The build-output path and its backing resource.
//!
//! The build result is written either to a caller-chosen persistent link or
//! to a result link inside a temporary directory.  In the second case the
//! directory handle must stay alive until every step that references the
//! path has run: the handle is therefore owned alongside the path, and the
//! orchestrator owns the pair for the whole run.

use vstd::prelude::*;

verus! {

/// Relies on tempfile::TempDir: held only so that the backing directory is
/// not removed while the path is still in use; the library never looks
/// inside it.
#[verifier::external_type_specification]
#[verifier::external_body]
pub struct ExTempDir(tempfile::TempDir);

/// A path that may own the temporary directory backing it.
pub trait MaybeTempPath {
    /// The path every step should reference.
    spec fn path_spec(&self) -> Seq<char>;

    /// The path every step should reference.
    fn get_path(&self) -> (p: String)
        ensures
            p@ == self.path_spec(),
    ;
}

impl MaybeTempPath for String {
    open spec fn path_spec(&self) -> Seq<char> {
        self@
    }

    fn get_path(&self) -> (p: String) {
        self.clone()
    }
}

/// A result link inside a temporary directory, owning the directory handle:
/// the directory lives at least as long as the path that points into it.
#[derive(Debug)]
pub struct TempOutPath {
    pub result_path: String,
    pub dir: tempfile::TempDir,
}

impl MaybeTempPath for TempOutPath {
    open spec fn path_spec(&self) -> Seq<char> {
        self.result_path@
    }

    fn get_path(&self) -> (p: String) {
        self.result_path.clone()
    }
}

/// Where the build writes its result: a caller-chosen persistent link, or a
/// self-owned temporary location.
#[derive(Debug)]
pub enum OutPath {
    /// A persistent output link the caller asked for.
    Link(String),
    /// A temporary location owned for the duration of the run.
    Temp(TempOutPath),
}

impl MaybeTempPath for OutPath {
    open spec fn path_spec(&self) -> Seq<char> {
        match self {
            OutPath::Link(p) => p@,
            OutPath::Temp(t) => t.result_path@,
        }
    }

    fn get_path(&self) -> (p: String) {
        match self {
            OutPath::Link(p) => p.clone(),
            OutPath::Temp(t) => t.result_path.clone(),
        }
    }
}

} // verus!
