use vstd::prelude::*;
use vstd::string::*;

use crate::layout::{
    layout_sound, lemma_file_placed, lemma_no_slash_concat, lemma_no_slash_underscored,
    lemma_under_join, lemma_under_trans, no_slash, parent, under, valid_name,
};
use crate::model::{text_entry, Context, FileMap, ValueModel};
use crate::text::{text_concat, hyphens_to_underscores, join, join_path, same_text, underscored, views};
use crate::toolchain::{command_views, BuildTemplate, OutputModel, ProjectOutput, ToolCommand};

verus! {

/// The language of a meson project.
#[derive(Clone, Copy, Debug, PartialEq, Eq, Structural)]
pub enum ProjectKind {
    /// A C project.
    C,
    /// A C++ project.
    Cxx,
}

impl Default for ProjectKind {
    fn default() -> (r: Self)
        ensures
            r == ProjectKind::C,
    {
        ProjectKind::C
    }
}

/// The message for a kind that is neither `c` nor `c++`.
pub open spec fn kind_error(s: Seq<char>) -> Seq<char> {
    s + " is not a valid meson project kind."@
}

/// Reads a project kind: `c` or `c++`.
pub fn project_kind(s: &str) -> (r: Result<ProjectKind, String>)
    ensures
        s@ == "c"@ ==> r == Ok::<ProjectKind, String>(ProjectKind::C),
        s@ == "c++"@ ==> r == Ok::<ProjectKind, String>(ProjectKind::Cxx),
        s@ != "c"@ && s@ != "c++"@ ==> (r matches Err(e) && e@ == kind_error(s@)),
{
    proof {
        reveal_strlit("c");
        reveal_strlit("c++");
        assert("c"@.len() != "c++"@.len());
    }
    if same_text(s, "c") {
        Ok(ProjectKind::C)
    } else if same_text(s, "c++") {
        Ok(ProjectKind::Cxx)
    } else {
        Err(text_concat(s, " is not a valid meson project kind."))
    }
}

/// A meson project: a library, a command line program and tests, in C or C++.
pub struct Meson {
    /// The language.
    pub kind: ProjectKind,
}

/// The extension of the sources and the language standard of a kind.
pub open spec fn kind_flags(kind: ProjectKind) -> (Seq<char>, Seq<char>) {
    match kind {
        ProjectKind::C => ("c"@, "c_std=c99"@),
        ProjectKind::Cxx => ("cpp"@, "cpp_std=c++11"@),
    }
}

/// A file named `name` with the extension `ext`.
pub open spec fn with_ext(name: Seq<char>, ext: Seq<char>) -> Seq<char> {
    name + seq!['.'] + ext
}

/// The files of a meson project and their templates. The sources are named
/// after the project, hyphens turned into underscores.
pub open spec fn meson_files(root: Seq<char>, name: Seq<char>, src_ext: Seq<char>) -> Map<Seq<char>, Seq<char>> {
    let n = underscored(name);
    let cli = join(root, "cli"@);
    let lib = join(root, "lib"@);
    let tests = join(root, "tests"@);
    let github = join(root, ".github"@);
    let workflows = join(github, "workflows"@);
    Map::<Seq<char>, Seq<char>>::empty()
        .insert(join(root, "meson.build"@), "build.root"@)
        .insert(join(root, "README.md"@), "md.README"@)
        .insert(join(cli, "meson.build"@), "build.cli"@)
        .insert(join(cli, with_ext(n, src_ext)), "source.bin"@)
        .insert(join(lib, "meson.build"@), "build.lib"@)
        .insert(join(lib, with_ext(n, "h"@)), "header"@)
        .insert(join(lib, with_ext(n, src_ext)), "source.lib"@)
        .insert(join(tests, "meson.build"@), "build.test"@)
        .insert(join(tests, with_ext(n, src_ext)), "source.test"@)
        .insert(join(root, "Dockerfile"@), "Dockerfile"@)
        .insert(join(root, "docker-compose.yml"@), "docker.compose"@)
        .insert(join(root, "run_tests.sh"@), "run.tests"@)
        .insert(join(github, "dependabot.yml"@), "ci.github.dependabot"@)
        .insert(join(workflows, n + ".yml"@), "ci.github"@)
}

/// The directories of a meson project, the root first.
pub open spec fn meson_dirs(root: Seq<char>) -> Seq<Seq<char>> {
    seq![
        root,
        join(root, "cli"@),
        join(root, "lib"@),
        join(root, "tests"@),
        join(root, ".github"@),
        join(join(root, ".github"@), "workflows"@),
    ]
}

/// The context of a meson project.
pub open spec fn meson_context(
    name: Seq<char>,
    branch: Seq<char>,
    kind: ProjectKind,
    license: Seq<char>,
    organization: Seq<char>,
    repository: Seq<char>,
) -> Seq<(Seq<char>, ValueModel)> {
    seq![
        text_entry("name"@, name),
        text_entry("branch"@, branch),
        text_entry("exe"@, kind_flags(kind).0),
        text_entry("params"@, kind_flags(kind).1),
        text_entry("license_id"@, license),
        text_entry("organization"@, organization),
        text_entry("repository"@, repository),
    ]
}

proof fn lemma_meson_layout(root: Seq<char>, name: Seq<char>, src_ext: Seq<char>)
    requires
        valid_name(name),
        no_slash(src_ext),
    ensures
        layout_sound(meson_files(root, name, src_ext), meson_dirs(root), root),
{
    let n = underscored(name);
    let cli = join(root, "cli"@);
    let lib = join(root, "lib"@);
    let tests = join(root, "tests"@);
    let github = join(root, ".github"@);
    let workflows = join(github, "workflows"@);
    let dirs = meson_dirs(root);
    reveal_strlit(".yml");
    reveal_strlit("h");
    reveal_strlit("meson.build");
    reveal_strlit("README.md");
    reveal_strlit("Dockerfile");
    reveal_strlit("docker-compose.yml");
    reveal_strlit("run_tests.sh");
    reveal_strlit("dependabot.yml");
    lemma_no_slash_underscored(name);
    lemma_no_slash_concat(n, seq!['.']);
    lemma_no_slash_concat(n + seq!['.'], src_ext);
    lemma_no_slash_concat(n + seq!['.'], "h"@);
    lemma_no_slash_concat(n, ".yml"@);
    lemma_under_join(root, "cli"@);
    lemma_under_join(root, "lib"@);
    lemma_under_join(root, "tests"@);
    lemma_under_join(root, ".github"@);
    lemma_under_join(github, "workflows"@);
    lemma_under_trans(workflows, github, root);
    assert(dirs[0] == root);
    assert(dirs[1] == cli);
    assert(dirs[2] == lib);
    assert(dirs[3] == tests);
    assert(dirs[4] == github);
    assert(dirs[5] == workflows);
    lemma_file_placed(root, root, "meson.build"@, dirs, 0);
    lemma_file_placed(root, root, "README.md"@, dirs, 0);
    lemma_file_placed(root, cli, "meson.build"@, dirs, 1);
    lemma_file_placed(root, cli, with_ext(n, src_ext), dirs, 1);
    lemma_file_placed(root, lib, "meson.build"@, dirs, 2);
    lemma_file_placed(root, lib, with_ext(n, "h"@), dirs, 2);
    lemma_file_placed(root, lib, with_ext(n, src_ext), dirs, 2);
    lemma_file_placed(root, tests, "meson.build"@, dirs, 3);
    lemma_file_placed(root, tests, with_ext(n, src_ext), dirs, 3);
    lemma_file_placed(root, root, "Dockerfile"@, dirs, 0);
    lemma_file_placed(root, root, "docker-compose.yml"@, dirs, 0);
    lemma_file_placed(root, root, "run_tests.sh"@, dirs, 0);
    lemma_file_placed(root, github, "dependabot.yml"@, dirs, 4);
    lemma_file_placed(root, workflows, n + ".yml"@, dirs, 5);
    let files = meson_files(root, name, src_ext);
    assert forall|k: Seq<char>| #[trigger] files.dom().contains(k) implies under(k, root) && dirs.contains(
        parent(k),
    ) by {}
}

/// `name` with the extension `ext`.
fn file_with_ext(name: &str, ext: &str) -> (r: String)
    ensures
        r@ == with_ext(name@, ext@),
{
    let mut out = String::from_str(name);
    crate::text::push_char(&mut out, '.');
    out.append(ext);
    out
}

impl Meson {
    /// A C project.
    pub fn new() -> (r: Self)
        ensures
            r.kind == ProjectKind::C,
    {
        Meson { kind: ProjectKind::C }
    }

    /// Sets the language.
    pub fn kind(self, kind: ProjectKind) -> (r: Self)
        ensures
            r.kind == kind,
    {
        Meson { kind }
    }

    /// The files and directories of a meson project at `project_path`.
    pub fn project_structure(project_path: &str, name: &str, src_ext: &str) -> (r: (FileMap, Vec<String>))
        ensures
            r.0.wf(),
            r.0@ == meson_files(project_path@, name@, src_ext@),
            views(r.1@) == meson_dirs(project_path@),
    {
        let n = hyphens_to_underscores(name);
        let name = n.as_str();

        let root = String::from_str(project_path);
        let cli = join_path(project_path, "cli");
        let lib = join_path(project_path, "lib");
        let tests = join_path(project_path, "tests");
        let github = join_path(project_path, ".github");
        let workflows = join_path(github.as_str(), "workflows");
        let source = file_with_ext(name, src_ext);
        let header = file_with_ext(name, "h");

        let mut files = FileMap::new();

        // The files at the root of the project
        files.insert(join_path(root.as_str(), "meson.build"), String::from_str("build.root"));
        files.insert(join_path(root.as_str(), "README.md"), String::from_str("md.README"));

        // The command line program, in `cli/`
        files.insert(join_path(cli.as_str(), "meson.build"), String::from_str("build.cli"));
        files.insert(join_path(cli.as_str(), source.as_str()), String::from_str("source.bin"));

        // The library, in `lib/`
        files.insert(join_path(lib.as_str(), "meson.build"), String::from_str("build.lib"));
        files.insert(join_path(lib.as_str(), header.as_str()), String::from_str("header"));
        files.insert(join_path(lib.as_str(), source.as_str()), String::from_str("source.lib"));

        // The tests, in `tests/`
        files.insert(join_path(tests.as_str(), "meson.build"), String::from_str("build.test"));
        files.insert(join_path(tests.as_str(), source.as_str()), String::from_str("source.test"));

        // Docker
        files.insert(join_path(root.as_str(), "Dockerfile"), String::from_str("Dockerfile"));
        files.insert(join_path(root.as_str(), "docker-compose.yml"), String::from_str("docker.compose"));
        files.insert(join_path(root.as_str(), "run_tests.sh"), String::from_str("run.tests"));

        // dependabot
        files.insert(join_path(github.as_str(), "dependabot.yml"), String::from_str("ci.github.dependabot"));

        // Continuous integration
        let ci_file = text_concat(name, ".yml");
        files.insert(join_path(workflows.as_str(), ci_file.as_str()), String::from_str("ci.github"));

        let mut dirs: Vec<String> = Vec::new();
        dirs.push(root);
        dirs.push(cli);
        dirs.push(lib);
        dirs.push(tests);
        dirs.push(github);
        dirs.push(workflows);
        proof {
            assert(views(dirs@) =~= meson_dirs(project_path@));
        }
        (files, dirs)
    }
}

impl BuildTemplate for Meson {
    open spec fn spec_define(
        &self,
        project_path: Seq<char>,
        project_name: Seq<char>,
        license: Seq<char>,
        github_branch: Seq<char>,
        organization: Seq<char>,
        repository: Seq<char>,
    ) -> OutputModel {
        OutputModel {
            files: meson_files(project_path, project_name, kind_flags(self.kind).0),
            dirs: meson_dirs(project_path),
            context: meson_context(project_name, github_branch, self.kind, license, organization, repository),
            commands: seq![],
        }
    }

    fn define(
        &self,
        project_path: &str,
        project_name: &str,
        license: &str,
        github_branch: &str,
        organization: &str,
        repository: &str,
    ) -> (r: ProjectOutput) {
        let mut context = Context::new();
        let (ext, params) = match self.kind {
            ProjectKind::C => ("c", "c_std=c99"),
            ProjectKind::Cxx => ("cpp", "cpp_std=c++11"),
        };

        context.push_text("name", project_name);
        context.push_text("branch", github_branch);
        context.push_text("exe", ext);
        context.push_text("params", params);
        context.push_text("license_id", license);
        context.push_text("organization", organization);
        context.push_text("repository", repository);

        let (files, dirs) = Meson::project_structure(project_path, project_name, ext);
        let commands: Vec<ToolCommand> = Vec::new();
        proof {
            assert(context@ =~= meson_context(project_name@, github_branch@, self.kind, license@, organization@, repository@));
            assert(command_views(commands@) =~= seq![]);
            if valid_name(project_name@) {
                reveal_strlit("c");
                reveal_strlit("cpp");
                lemma_meson_layout(project_path@, project_name@, ext@);
            }
        }
        ProjectOutput { files, dirs, context, commands }
    }
}

} // verus!
