use vstd::prelude::*;

use crate::layout::{layout_sound, parent, valid_name};
use crate::model::{text_entry, Context, FileMap, ValueModel};
use crate::text::views;

pub mod cargo;
pub mod maven;
pub mod meson;
pub mod poetry;
pub mod yarn;

verus! {

/// An external initializer to run before the files are written: the
/// toolchain's own program with `args`, then `path` as last argument.
pub struct ToolCommand {
    pub args: Vec<String>,
    pub path: String,
}

impl View for ToolCommand {
    type V = (Seq<Seq<char>>, Seq<char>);

    open spec fn view(&self) -> (Seq<Seq<char>>, Seq<char>) {
        (views(self.args@), self.path@)
    }
}

/// The views of a list of commands.
pub open spec fn command_views(v: Seq<ToolCommand>) -> Seq<(Seq<Seq<char>>, Seq<char>)> {
    v.map_values(|c: ToolCommand| c@)
}

/// What a toolchain asks for: the files with their templates, the
/// directories to create, the values that the templates read, and the
/// initializers to run first.
pub struct ProjectOutput {
    pub files: FileMap,
    pub dirs: Vec<String>,
    pub context: Context,
    pub commands: Vec<ToolCommand>,
}

/// The context that every toolchain starts with.
pub open spec fn common_context(name: Seq<char>, branch: Seq<char>, license: Seq<char>) -> Seq<(Seq<char>, ValueModel)> {
    seq![text_entry("name"@, name), text_entry("branch"@, branch), text_entry("license_id"@, license)]
}

/// What a `ProjectOutput` holds.
pub struct OutputModel {
    pub files: Map<Seq<char>, Seq<char>>,
    pub dirs: Seq<Seq<char>>,
    pub context: Seq<(Seq<char>, ValueModel)>,
    pub commands: Seq<(Seq<Seq<char>>, Seq<char>)>,
}

impl View for ProjectOutput {
    type V = OutputModel;

    open spec fn view(&self) -> OutputModel {
        OutputModel {
            files: self.files@,
            dirs: views(self.dirs@),
            context: self.context@,
            commands: command_views(self.commands@),
        }
    }
}

/// A toolchain: computes the layout and the render context of a project.
pub trait BuildTemplate {
    /// What `define` returns.
    spec fn spec_define(
        &self,
        project_path: Seq<char>,
        project_name: Seq<char>,
        license: Seq<char>,
        github_branch: Seq<char>,
        organization: Seq<char>,
        repository: Seq<char>,
    ) -> OutputModel;

    /// The files, directories, context and initializers of a project rooted
    /// at `project_path`. With a name of one path component, every file lies
    /// below the root and in a directory that the listed ones create.
    fn define(
        &self,
        project_path: &str,
        project_name: &str,
        license: &str,
        github_branch: &str,
        organization: &str,
        repository: &str,
    ) -> (r: ProjectOutput)
        ensures
            r.files.wf(),
            r@ == self.spec_define(
                project_path@,
                project_name@,
                license@,
                github_branch@,
                organization@,
                repository@,
            ),
            valid_name(project_name@) ==> layout_sound(r.files@, r@.dirs, project_path@),
            valid_name(project_name@) ==> forall|k: Seq<char>|
                #[trigger] r.files@.dom().contains(k) ==> r@.dirs.contains(parent(k)),
    ;
}

} // verus!
