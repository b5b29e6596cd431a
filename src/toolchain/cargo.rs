use vstd::prelude::*;
use vstd::string::*;

use crate::layout::{
    layout_sound, lemma_file_placed, lemma_no_slash_concat, lemma_under_join,
    lemma_under_trans, parent, under, valid_name,
};
use crate::model::{text_entry, Context, FileMap, ValueModel};
use crate::text::{text_concat, join, join_path, views};
use crate::toolchain::{command_views, BuildTemplate, OutputModel, ProjectOutput, ToolCommand};

verus! {

/// A cargo project: CI files, docker images, an xtask workspace and, unless
/// only the CI files are asked for, the project itself made by `cargo init`.
pub struct Cargo {
    /// The description of the docker image.
    pub docker_image_description: String,
    /// Only the CI files are written.
    pub ci: bool,
    /// The project is a library.
    pub lib: bool,
}

/// The files of a cargo project and their templates.
pub open spec fn cargo_files(root: Seq<char>, name: Seq<char>, ci: bool) -> Map<Seq<char>, Seq<char>> {
    let github = join(root, ".github"@);
    let workflows = join(github, "workflows"@);
    let docker = join(root, "docker"@);
    let cargo = join(root, ".cargo"@);
    let xtask = join(root, "xtask"@);
    let xtask_src = join(xtask, "src"@);
    let xtask_utils = join(xtask_src, "utils"@);
    let always = Map::<Seq<char>, Seq<char>>::empty()
        .insert(join(root, "README.md"@), "md.README"@)
        .insert(join(github, "dependabot.yml"@), "ci.github.dependabot"@)
        .insert(join(workflows, name + ".yml"@), "ci.github"@)
        .insert(join(workflows, name + "-docker-application.yml"@), "ci.github.docker"@)
        .insert(join(workflows, "deploy.yml"@), "ci.github.deploy"@)
        .insert(join(docker, "Dockerfile-amd64"@), "docker.amd64"@)
        .insert(join(docker, "Dockerfile-arm64"@), "docker.arm64"@)
        .insert(join(cargo, "config"@), "xtask.config"@)
        .insert(join(xtask, "Cargo.toml"@), "xtask.toml"@)
        .insert(join(xtask_src, "books.rs"@), "xtask.src.books"@)
        .insert(join(xtask_src, "dependencies.rs"@), "xtask.src.dependencies"@)
        .insert(join(xtask_src, "logging.rs"@), "xtask.src.logging"@)
        .insert(join(xtask_src, "main.rs"@), "xtask.src.main"@)
        .insert(join(xtask_src, "publish.rs"@), "xtask.src.publish"@)
        .insert(join(xtask_src, "runchecks.rs"@), "xtask.src.runchecks"@)
        .insert(join(xtask_src, "vulnerabilities.rs"@), "xtask.src.vulnerabilities"@)
        .insert(join(xtask_utils, "cargo.rs"@), "xtask.src.utils.cargo"@)
        .insert(join(xtask_utils, "mdbook.rs"@), "xtask.src.utils.mdbook"@)
        .insert(join(xtask_utils, "mod.rs"@), "xtask.src.utils.mod"@)
        .insert(join(xtask_utils, "process.rs"@), "xtask.src.utils.process"@)
        .insert(join(xtask_utils, "rustup.rs"@), "xtask.src.utils.rustup"@)
        .insert(join(xtask_utils, "time.rs"@), "xtask.src.utils.time"@)
        .insert(join(xtask_utils, "workspace.rs"@), "xtask.src.utils.workspace"@);
    if ci {
        always
    } else {
        always.insert(join(join(root, "tests"@), "proptest.rs"@), "rs.proptest"@)
    }
}

/// The directories of a cargo project, the root first.
pub open spec fn cargo_dirs(root: Seq<char>, ci: bool) -> Seq<Seq<char>> {
    let always = seq![
        root,
        join(root, ".github"@),
        join(join(root, ".github"@), "workflows"@),
        join(root, "docker"@),
        join(root, ".cargo"@),
        join(root, "xtask"@),
        join(join(root, "xtask"@), "src"@),
        join(join(join(root, "xtask"@), "src"@), "utils"@),
    ];
    if ci {
        always
    } else {
        always.push(join(root, "tests"@))
    }
}

/// The initializers of a cargo project: none for CI files only, else
/// `cargo init` (with `--lib` for a library) on the root, then adding the
/// property testing crate to the new manifest.
pub open spec fn cargo_commands(root: Seq<char>, ci: bool, lib: bool) -> Seq<(Seq<Seq<char>>, Seq<char>)> {
    if ci {
        seq![]
    } else {
        let init = if lib {
            seq!["init"@, "--lib"@]
        } else {
            seq!["init"@]
        };
        seq![
            (init, root),
            (seq!["add"@, "--dev"@, "proptest"@, "--manifest-path"@], join(root, "Cargo.toml"@)),
        ]
    }
}

proof fn lemma_cargo_layout(root: Seq<char>, name: Seq<char>, ci: bool)
    requires
        valid_name(name),
    ensures
        layout_sound(cargo_files(root, name, ci), cargo_dirs(root, ci), root),
{
    let github = join(root, ".github"@);
    let workflows = join(github, "workflows"@);
    let docker = join(root, "docker"@);
    let cargo = join(root, ".cargo"@);
    let xtask = join(root, "xtask"@);
    let xtask_src = join(xtask, "src"@);
    let xtask_utils = join(xtask_src, "utils"@);
    let tests = join(root, "tests"@);
    let dirs = cargo_dirs(root, ci);
    reveal_strlit(".yml");
    reveal_strlit("-docker-application.yml");
    reveal_strlit("README.md");
    reveal_strlit("dependabot.yml");
    reveal_strlit("deploy.yml");
    reveal_strlit("Dockerfile-amd64");
    reveal_strlit("Dockerfile-arm64");
    reveal_strlit("config");
    reveal_strlit("Cargo.toml");
    reveal_strlit("books.rs");
    reveal_strlit("dependencies.rs");
    reveal_strlit("logging.rs");
    reveal_strlit("main.rs");
    reveal_strlit("publish.rs");
    reveal_strlit("runchecks.rs");
    reveal_strlit("vulnerabilities.rs");
    reveal_strlit("cargo.rs");
    reveal_strlit("mdbook.rs");
    reveal_strlit("mod.rs");
    reveal_strlit("process.rs");
    reveal_strlit("rustup.rs");
    reveal_strlit("time.rs");
    reveal_strlit("workspace.rs");
    reveal_strlit("proptest.rs");
    lemma_no_slash_concat(name, ".yml"@);
    lemma_no_slash_concat(name, "-docker-application.yml"@);
    lemma_under_join(root, ".github"@);
    lemma_under_join(github, "workflows"@);
    lemma_under_trans(workflows, github, root);
    lemma_under_join(root, "docker"@);
    lemma_under_join(root, ".cargo"@);
    lemma_under_join(root, "xtask"@);
    lemma_under_join(xtask, "src"@);
    lemma_under_join(xtask_src, "utils"@);
    lemma_under_trans(xtask_src, xtask, root);
    lemma_under_trans(xtask_utils, xtask_src, xtask);
    lemma_under_trans(xtask_utils, xtask, root);
    lemma_under_join(root, "tests"@);
    assert(dirs[0] == root);
    assert(dirs[1] == github);
    assert(dirs[2] == workflows);
    assert(dirs[3] == docker);
    assert(dirs[4] == cargo);
    assert(dirs[5] == xtask);
    assert(dirs[6] == xtask_src);
    assert(dirs[7] == xtask_utils);
    lemma_file_placed(root, root, "README.md"@, dirs, 0);
    lemma_file_placed(root, github, "dependabot.yml"@, dirs, 1);
    lemma_file_placed(root, workflows, name + ".yml"@, dirs, 2);
    lemma_file_placed(root, workflows, name + "-docker-application.yml"@, dirs, 2);
    lemma_file_placed(root, workflows, "deploy.yml"@, dirs, 2);
    lemma_file_placed(root, docker, "Dockerfile-amd64"@, dirs, 3);
    lemma_file_placed(root, docker, "Dockerfile-arm64"@, dirs, 3);
    lemma_file_placed(root, cargo, "config"@, dirs, 4);
    lemma_file_placed(root, xtask, "Cargo.toml"@, dirs, 5);
    lemma_file_placed(root, xtask_src, "books.rs"@, dirs, 6);
    lemma_file_placed(root, xtask_src, "dependencies.rs"@, dirs, 6);
    lemma_file_placed(root, xtask_src, "logging.rs"@, dirs, 6);
    lemma_file_placed(root, xtask_src, "main.rs"@, dirs, 6);
    lemma_file_placed(root, xtask_src, "publish.rs"@, dirs, 6);
    lemma_file_placed(root, xtask_src, "runchecks.rs"@, dirs, 6);
    lemma_file_placed(root, xtask_src, "vulnerabilities.rs"@, dirs, 6);
    lemma_file_placed(root, xtask_utils, "cargo.rs"@, dirs, 7);
    lemma_file_placed(root, xtask_utils, "mdbook.rs"@, dirs, 7);
    lemma_file_placed(root, xtask_utils, "mod.rs"@, dirs, 7);
    lemma_file_placed(root, xtask_utils, "process.rs"@, dirs, 7);
    lemma_file_placed(root, xtask_utils, "rustup.rs"@, dirs, 7);
    lemma_file_placed(root, xtask_utils, "time.rs"@, dirs, 7);
    lemma_file_placed(root, xtask_utils, "workspace.rs"@, dirs, 7);
    if !ci {
        assert(dirs[8] == tests);
        lemma_file_placed(root, tests, "proptest.rs"@, dirs, 8);
    }
    let files = cargo_files(root, name, ci);
    assert forall|k: Seq<char>| #[trigger] files.dom().contains(k) implies under(k, root) && dirs.contains(
        parent(k),
    ) by {}
}

impl Cargo {
    /// A binary project with the default image description.
    pub fn new() -> (r: Self)
        ensures
            r.docker_image_description@ == "default"@,
            !r.ci,
            !r.lib,
    {
        Cargo { docker_image_description: String::from_str("default"), lib: false, ci: false }
    }

    /// Sets the description of the docker image.
    pub fn docker_image_description(self, docker_image_description: &str) -> (r: Self)
        ensures
            r.docker_image_description@ == docker_image_description@,
            r.ci == self.ci,
            r.lib == self.lib,
    {
        Cargo { docker_image_description: String::from_str(docker_image_description), ..self }
    }

    /// Makes a library project.
    pub fn create_lib(self) -> (r: Self)
        ensures
            r.docker_image_description == self.docker_image_description,
            r.ci == self.ci,
            r.lib,
    {
        Cargo { lib: true, ..self }
    }

    /// Writes the CI files only.
    pub fn only_ci(self) -> (r: Self)
        ensures
            r.docker_image_description == self.docker_image_description,
            r.ci,
            r.lib == self.lib,
    {
        Cargo { ci: true, ..self }
    }

    /// The initializers that make the cargo project at `path`.
    pub fn project_creation(&self, path: &str) -> (r: Vec<ToolCommand>)
        ensures
            command_views(r@) == cargo_commands(path@, self.ci, self.lib),
    {
        let mut commands: Vec<ToolCommand> = Vec::new();
        if !self.ci {
            let mut init: Vec<String> = Vec::new();
            init.push(String::from_str("init"));
            if self.lib {
                init.push(String::from_str("--lib"));
            }
            commands.push(ToolCommand { args: init, path: String::from_str(path) });
            let mut add: Vec<String> = Vec::new();
            add.push(String::from_str("add"));
            add.push(String::from_str("--dev"));
            add.push(String::from_str("proptest"));
            add.push(String::from_str("--manifest-path"));
            commands.push(ToolCommand { args: add, path: join_path(path, "Cargo.toml") });
            proof {
                assert(views(commands@[0].args@) =~= cargo_commands(path@, self.ci, self.lib)[0].0);
                assert(views(commands@[1].args@) =~= cargo_commands(path@, self.ci, self.lib)[1].0);
            }
        }
        proof {
            assert(command_views(commands@) =~= cargo_commands(path@, self.ci, self.lib));
        }
        commands
    }

    /// The files and directories of a cargo project at `project_path`.
    pub fn project_structure(project_path: &str, name: &str, ci: bool) -> (r: (FileMap, Vec<String>))
        ensures
            r.0.wf(),
            r.0@ == cargo_files(project_path@, name@, ci),
            views(r.1@) == cargo_dirs(project_path@, ci),
    {
        let root = String::from_str(project_path);
        let github = join_path(project_path, ".github");
        let workflows = join_path(github.as_str(), "workflows");
        let docker = join_path(project_path, "docker");
        let cargo = join_path(project_path, ".cargo");
        let xtask = join_path(project_path, "xtask");
        let xtask_src = join_path(xtask.as_str(), "src");
        let xtask_utils = join_path(xtask_src.as_str(), "utils");

        let mut files = FileMap::new();

        // README
        files.insert(join_path(root.as_str(), "README.md"), String::from_str("md.README"));

        // dependabot
        files.insert(join_path(github.as_str(), "dependabot.yml"), String::from_str("ci.github.dependabot"));

        // Continuous integration
        let ci_file = text_concat(name, ".yml");
        files.insert(join_path(workflows.as_str(), ci_file.as_str()), String::from_str("ci.github"));
        let docker_file = text_concat(name, "-docker-application.yml");
        files.insert(join_path(workflows.as_str(), docker_file.as_str()), String::from_str("ci.github.docker"));
        files.insert(join_path(workflows.as_str(), "deploy.yml"), String::from_str("ci.github.deploy"));

        // Docker
        files.insert(join_path(docker.as_str(), "Dockerfile-amd64"), String::from_str("docker.amd64"));
        files.insert(join_path(docker.as_str(), "Dockerfile-arm64"), String::from_str("docker.arm64"));

        // xtask configuration for cargo
        files.insert(join_path(cargo.as_str(), "config"), String::from_str("xtask.config"));

        // xtask
        files.insert(join_path(xtask.as_str(), "Cargo.toml"), String::from_str("xtask.toml"));
        files.insert(join_path(xtask_src.as_str(), "books.rs"), String::from_str("xtask.src.books"));
        files.insert(join_path(xtask_src.as_str(), "dependencies.rs"), String::from_str("xtask.src.dependencies"));
        files.insert(join_path(xtask_src.as_str(), "logging.rs"), String::from_str("xtask.src.logging"));
        files.insert(join_path(xtask_src.as_str(), "main.rs"), String::from_str("xtask.src.main"));
        files.insert(join_path(xtask_src.as_str(), "publish.rs"), String::from_str("xtask.src.publish"));
        files.insert(join_path(xtask_src.as_str(), "runchecks.rs"), String::from_str("xtask.src.runchecks"));
        files.insert(join_path(xtask_src.as_str(), "vulnerabilities.rs"), String::from_str("xtask.src.vulnerabilities"));
        files.insert(join_path(xtask_utils.as_str(), "cargo.rs"), String::from_str("xtask.src.utils.cargo"));
        files.insert(join_path(xtask_utils.as_str(), "mdbook.rs"), String::from_str("xtask.src.utils.mdbook"));
        files.insert(join_path(xtask_utils.as_str(), "mod.rs"), String::from_str("xtask.src.utils.mod"));
        files.insert(join_path(xtask_utils.as_str(), "process.rs"), String::from_str("xtask.src.utils.process"));
        files.insert(join_path(xtask_utils.as_str(), "rustup.rs"), String::from_str("xtask.src.utils.rustup"));
        files.insert(join_path(xtask_utils.as_str(), "time.rs"), String::from_str("xtask.src.utils.time"));
        files.insert(join_path(xtask_utils.as_str(), "workspace.rs"), String::from_str("xtask.src.utils.workspace"));

        let mut dirs: Vec<String> = Vec::new();
        dirs.push(root);
        dirs.push(github);
        dirs.push(workflows);
        dirs.push(docker);
        dirs.push(cargo);
        dirs.push(xtask);
        dirs.push(xtask_src);
        dirs.push(xtask_utils);
        if !ci {
            // Property tests
            let tests = join_path(project_path, "tests");
            files.insert(join_path(tests.as_str(), "proptest.rs"), String::from_str("rs.proptest"));
            dirs.push(tests);
        }
        proof {
            assert(views(dirs@) =~= cargo_dirs(project_path@, ci));
        }
        (files, dirs)
    }
}

/// The image description where none is given: the project name followed by
/// ` description`.
pub open spec fn default_description(name: Seq<char>) -> Seq<char> {
    name + " description"@
}

/// The description of the docker image: the one given, else the default
/// made from the project name.
pub fn docker_description(given: Option<String>, name: &str) -> (r: String)
    ensures
        given matches Some(d) ==> r == d,
        given is None ==> r@ == default_description(name@),
{
    match given {
        Some(d) => d,
        None => text_concat(name, " description"),
    }
}

/// The context of a cargo project.
pub open spec fn cargo_context(name: Seq<char>, branch: Seq<char>, license: Seq<char>, description: Seq<char>) -> Seq<(Seq<char>, ValueModel)> {
    seq![
        text_entry("name"@, name),
        text_entry("branch"@, branch),
        text_entry("license_id"@, license),
        text_entry("docker_image_description"@, description),
    ]
}

impl BuildTemplate for Cargo {
    open spec fn spec_define(
        &self,
        project_path: Seq<char>,
        project_name: Seq<char>,
        license: Seq<char>,
        github_branch: Seq<char>,
        organization: Seq<char>,
        repository: Seq<char>,
    ) -> OutputModel {
        OutputModel {
            files: cargo_files(project_path, project_name, self.ci),
            dirs: cargo_dirs(project_path, self.ci),
            context: cargo_context(project_name, github_branch, license, self.docker_image_description@),
            commands: cargo_commands(project_path, self.ci, self.lib),
        }
    }

    fn define(
        &self,
        project_path: &str,
        project_name: &str,
        license: &str,
        github_branch: &str,
        organization: &str,
        repository: &str,
    ) -> (r: ProjectOutput) {
        let mut context = Context::new();
        context.push_text("name", project_name);
        context.push_text("branch", github_branch);
        context.push_text("license_id", license);
        context.push_text("docker_image_description", self.docker_image_description.as_str());

        let commands = self.project_creation(project_path);
        let (files, dirs) = Cargo::project_structure(project_path, project_name, self.ci);
        proof {
            assert(context@ =~= cargo_context(project_name@, github_branch@, license@, self.docker_image_description@));
            if valid_name(project_name@) {
                lemma_cargo_layout(project_path@, project_name@, self.ci);
            }
        }
        ProjectOutput { files, dirs, context, commands }
    }
}

} // verus!
