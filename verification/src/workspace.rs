//! The on-disk workspace layout and its non-destructive cleanup plan.
//!
//! The workspace is either a user's own project ("in-crate" mode, rooted at
//! the directory of a discovered project manifest) or a private scratch
//! project rooted at a data directory. This module computes the layout —
//! root, source directory, binaries directory, entry file — records which
//! directories pre-existed, refuses to claim an entry file that already
//! exists inside a user's project, and plans the teardown so that only what
//! the session itself created is ever removed. Probing and changing the
//! filesystem is the surrounding binary's job; it reports what it observed
//! and carries out the returned plan.

use vstd::prelude::*;
use vstd::string::StringExecFns;

verus! {

/// The path of `name` directly under the directory `dir`.
pub open spec fn child_of(dir: Seq<char>, name: Seq<char>) -> Seq<char> {
    dir + "/"@ + name
}

/// The path of the generated entry file for the entry name `name` inside
/// the binaries directory `bin_dir`.
pub open spec fn entry_file_of(bin_dir: Seq<char>, name: Seq<char>) -> Seq<char> {
    child_of(bin_dir, name) + ".rs"@
}

/// The default entry name for each mode; the in-crate default is chosen to
/// avoid colliding with a user-authored entry point.
pub open spec fn default_bin_name(in_crate: bool) -> Seq<char> {
    if in_crate {
        "_rspl_main_"@
    } else {
        "main"@
    }
}

/// The workspace root: the manifest's directory when one was discovered,
/// else the scratch data directory.
pub open spec fn chosen_root(manifest_path: Option<String>, data_dir: String) -> Seq<char> {
    match manifest_path {
        Some(p) => p@,
        None => data_dir@,
    }
}

/// The resolved entry name: the explicit override when given, else the
/// mode-dependent default.
pub open spec fn chosen_bin_name(bin_name: Option<String>, in_crate: bool) -> Seq<char> {
    match bin_name {
        Some(n) => n@,
        None => default_bin_name(in_crate),
    }
}

/// The manifest synthesized for a fresh scratch workspace: the minimal
/// fields the build tool needs to operate on an otherwise empty directory.
pub open spec fn manifest_text() -> Seq<char> {
    "[package]\nname = \"_\"\nversion = \"0.1.0\"\nedition = \"2021\"\n"@
}

/// A fatal setup failure, surfaced before any input is accepted.
#[derive(Debug)]
pub enum SetupError {
    /// The computed entry file already exists inside the user's project;
    /// the session refuses to overwrite a file it did not create.
    Collision { bin_path: String },
}

/// One step of the teardown plan, to be carried out in order.
pub enum CleanupAction {
    /// Remove the generated entry file.
    RemoveFile { path: String },
    /// Remove a directory the session itself created.
    RemoveDir { path: String },
}

/// The resolved workspace: the entry file path, the directories on the way
/// to it, the mode, and which directories pre-existed.
pub struct CrateData {
    /// Full path of the generated entry file: `<root>/src/bin/<bin_name>.rs`.
    pub bin_path: String,
    /// The binaries directory `<root>/src/bin`.
    pub bin_dir: String,
    /// The source directory `<root>/src`.
    pub src_dir: String,
    /// Whether the binaries directory existed before the session touched it.
    pub bin_existed: bool,
    /// The resolved entry name, without extension.
    pub bin_name: String,
    /// Whether the session runs inside a user's project.
    pub in_crate: bool,
    /// The workspace root directory.
    pub path: String,
    /// Whether the source directory existed before the session touched it.
    pub src_existed: bool,
}

/// A resolved workspace is well formed when its paths fit together and its
/// mode-dependent entry name was chosen as specified.
pub open spec fn workspace_well_formed(d: CrateData) -> bool {
    &&& d.src_dir@ == child_of(d.path@, "src"@)
    &&& d.bin_dir@ == child_of(d.src_dir@, "bin"@)
    &&& d.bin_path@ == entry_file_of(d.bin_dir@, d.bin_name@)
}

/// The path of `name` directly under the directory `dir`.
pub fn child_path(dir: &String, name: &str) -> (r: String)
    ensures
        r@ == child_of(dir@, name@),
{
    let mut r = dir.clone();
    r.append("/");
    r.append(name);
    r
}

/// The exact contents of the manifest synthesized for a fresh scratch
/// workspace.
pub fn manifest_contents() -> (r: String)
    ensures
        r@ == manifest_text(),
{
    String::from_str("[package]\nname = \"_\"\nversion = \"0.1.0\"\nedition = \"2021\"\n")
}

/// The entry name the session will use: the explicit override when given,
/// else the mode-dependent default. The surrounding binary resolves this
/// before setup to know which entry file to probe for.
pub fn resolved_bin_name(bin_name: &Option<String>, in_crate: bool) -> (r: String)
    ensures
        r@ == chosen_bin_name(*bin_name, in_crate),
{
    match bin_name {
        Some(n) => n.clone(),
        None => if in_crate {
            String::from_str("_rspl_main_")
        } else {
            String::from_str("main")
        },
    }
}

impl CrateData {
    /// Resolves the workspace from the configuration and the observed state
    /// of the filesystem: `manifest_path` is the directory of a discovered
    /// project manifest (in-crate mode) or absent (standalone mode rooted at
    /// `data_dir`); the three flags report whether the source directory, the
    /// binaries directory and the computed entry file already existed.
    /// Resolution succeeds exactly when no pre-existing entry file stands in
    /// the way inside a user's project.
    pub fn init(
        bin_name: Option<String>,
        manifest_path: Option<String>,
        data_dir: String,
        src_existed: bool,
        bin_existed: bool,
        bin_file_existed: bool,
    ) -> (r: Result<CrateData, SetupError>)
        ensures
            ({
                let in_crate = manifest_path is Some;
                let root = chosen_root(manifest_path, data_dir);
                let name = chosen_bin_name(bin_name, in_crate);
                let bin_dir = child_of(child_of(root, "src"@), "bin"@);
                match r {
                    Ok(d) => {
                        &&& !(in_crate && bin_file_existed)
                        &&& workspace_well_formed(d)
                        &&& d.in_crate == in_crate
                        &&& d.path@ == root
                        &&& d.bin_name@ == name
                        &&& d.src_existed == src_existed
                        &&& d.bin_existed == bin_existed
                    },
                    Err(e) => {
                        &&& in_crate && bin_file_existed
                        &&& (e matches SetupError::Collision { bin_path } && bin_path@
                            == entry_file_of(bin_dir, name))
                    },
                }
            }),
    {
        let in_crate = manifest_path.is_some();
        let path = match manifest_path {
            Some(p) => p,
            None => data_dir,
        };
        let name = resolved_bin_name(&bin_name, in_crate);
        let src_dir = child_path(&path, "src");
        let bin_dir = child_path(&src_dir, "bin");
        let mut bin_path = child_path(&bin_dir, name.as_str());
        bin_path.append(".rs");
        if in_crate && bin_file_existed {
            return Err(SetupError::Collision { bin_path });
        }
        Ok(
            CrateData {
                bin_path,
                bin_dir,
                src_dir,
                bin_existed,
                bin_name: name,
                in_crate,
                path,
                src_existed,
            },
        )
    }

    /// Plans the teardown, to be carried out in order at session end. In
    /// standalone mode the scratch workspace is kept, so the plan is empty.
    /// In in-crate mode the entry file is removed, then each directory the
    /// session itself created, innermost first; a directory recorded as
    /// pre-existing is never touched.
    pub fn cleanup(&self) -> (r: Vec<CleanupAction>)
        ensures
            !self.in_crate ==> r@ == Seq::<CleanupAction>::empty(),
            self.in_crate ==> {
                &&& r@.len() == 1 + (if !self.bin_existed {
                    1int
                } else {
                    0int
                }) + (if !self.src_existed {
                    1int
                } else {
                    0int
                })
                &&& (r@[0] matches CleanupAction::RemoveFile { path } && path@ == self.bin_path@)
                &&& (!self.bin_existed ==> (r@[1] matches CleanupAction::RemoveDir { path }
                    && path@ == self.bin_dir@))
                &&& (!self.src_existed ==> {
                    let i = if !self.bin_existed {
                        2int
                    } else {
                        1int
                    };
                    r@[i] matches CleanupAction::RemoveDir { path } && path@ == self.src_dir@
                })
            },
            forall|i: int|
                0 <= i < r@.len() ==> (#[trigger] r@[i] matches CleanupAction::RemoveDir { path }
                    ==> (path@ == self.bin_dir@ && !self.bin_existed) || (path@ == self.src_dir@
                    && !self.src_existed)),
    {
        let mut r: Vec<CleanupAction> = Vec::new();
        if self.in_crate {
            r.push(CleanupAction::RemoveFile { path: self.bin_path.clone() });
            if !self.bin_existed {
                r.push(CleanupAction::RemoveDir { path: self.bin_dir.clone() });
            }
            if !self.src_existed {
                r.push(CleanupAction::RemoveDir { path: self.src_dir.clone() });
            }
        }
        r
    }
}

impl SetupError {
    /// The diagnostic shown for this setup failure.
    pub fn message(&self) -> (r: String)
        ensures
            (*self matches SetupError::Collision { bin_path } ==> r@ == "File already exists: "@
                + bin_path@ + ". Specify a different name with --bin-name"@),
    {
        match self {
            SetupError::Collision { bin_path } => {
                let mut r = String::from_str("File already exists: ");
                r.append(bin_path.as_str());
                r.append(". Specify a different name with --bin-name");
                r
            },
        }
    }
}

} // verus!
