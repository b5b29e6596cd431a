use vstd::prelude::*;
use vstd::string::*;

use crate::layout::{
    layout_sound, lemma_file_placed, lemma_no_slash_concat, lemma_under_join,
    lemma_under_trans, parent, under, valid_name,
};
use crate::model::{Context, FileMap};
use crate::text::{text_concat, join, join_path, views};
use crate::toolchain::{command_views, common_context, BuildTemplate, OutputModel, ProjectOutput, ToolCommand};

verus! {

/// A poetry project: a python package named after the project, its tests
/// and its CI files.
pub struct Poetry;

/// The files of a poetry project and their templates.
pub open spec fn poetry_files(root: Seq<char>, name: Seq<char>) -> Map<Seq<char>, Seq<char>> {
    let main = join(root, name);
    let tests = join(root, name + "/tests"@);
    let github = join(root, ".github"@);
    let workflows = join(github, "workflows"@);
    Map::<Seq<char>, Seq<char>>::empty()
        .insert(join(root, "pyproject.toml"@), "toml.pyproject"@)
        .insert(join(root, ".pre-commit-config.yaml"@), "yaml.pre-commit"@)
        .insert(join(root, "README.md"@), "md.README"@)
        .insert(join(root, "LICENSE.md"@), "build.license"@)
        .insert(join(main, "__init__.py"@), "py.__init__"@)
        .insert(join(main, "__main__.py"@), "py.__main__"@)
        .insert(join(tests, "__init__.py"@), "py.__init__"@)
        .insert(join(tests, "test_sum.py"@), "py.test"@)
        .insert(join(github, "dependabot.yml"@), "ci.github.dependabot"@)
        .insert(join(workflows, name + ".yml"@), "ci.github"@)
}

/// The directories of a poetry project, the root first.
pub open spec fn poetry_dirs(root: Seq<char>, name: Seq<char>) -> Seq<Seq<char>> {
    seq![
        root,
        join(root, name),
        join(root, name + "/data"@),
        join(root, name + "/tests"@),
        join(root, ".github"@),
        join(join(root, ".github"@), "workflows"@),
    ]
}

proof fn lemma_poetry_layout(root: Seq<char>, name: Seq<char>)
    requires
        valid_name(name),
    ensures
        layout_sound(poetry_files(root, name), poetry_dirs(root, name), root),
{
    let main = join(root, name);
    let data = join(root, name + "/data"@);
    let tests = join(root, name + "/tests"@);
    let github = join(root, ".github"@);
    let workflows = join(github, "workflows"@);
    let dirs = poetry_dirs(root, name);
    reveal_strlit(".yml");
    reveal_strlit("pyproject.toml");
    reveal_strlit(".pre-commit-config.yaml");
    reveal_strlit("README.md");
    reveal_strlit("LICENSE.md");
    reveal_strlit("__init__.py");
    reveal_strlit("__main__.py");
    reveal_strlit("test_sum.py");
    reveal_strlit("dependabot.yml");
    lemma_no_slash_concat(name, ".yml"@);
    lemma_under_join(root, name);
    lemma_under_join(root, name + "/data"@);
    lemma_under_join(root, name + "/tests"@);
    lemma_under_join(root, ".github"@);
    lemma_under_join(github, "workflows"@);
    lemma_under_trans(workflows, github, root);
    assert(dirs[0] == root);
    assert(dirs[1] == main);
    assert(dirs[2] == data);
    assert(dirs[3] == tests);
    assert(dirs[4] == github);
    assert(dirs[5] == workflows);
    lemma_file_placed(root, root, "pyproject.toml"@, dirs, 0);
    lemma_file_placed(root, root, ".pre-commit-config.yaml"@, dirs, 0);
    lemma_file_placed(root, root, "README.md"@, dirs, 0);
    lemma_file_placed(root, root, "LICENSE.md"@, dirs, 0);
    lemma_file_placed(root, main, "__init__.py"@, dirs, 1);
    lemma_file_placed(root, main, "__main__.py"@, dirs, 1);
    lemma_file_placed(root, tests, "__init__.py"@, dirs, 3);
    lemma_file_placed(root, tests, "test_sum.py"@, dirs, 3);
    lemma_file_placed(root, github, "dependabot.yml"@, dirs, 4);
    lemma_file_placed(root, workflows, name + ".yml"@, dirs, 5);
    let files = poetry_files(root, name);
    assert forall|k: Seq<char>| #[trigger] files.dom().contains(k) implies under(k, root) && dirs.contains(
        parent(k),
    ) by {}
}

impl Poetry {
    /// A poetry project.
    pub fn new() -> Self {
        Poetry
    }

    /// The files and directories of a poetry project at `project_path`.
    pub fn project_structure(project_path: &str, name: &str) -> (r: (FileMap, Vec<String>))
        ensures
            r.0.wf(),
            r.0@ == poetry_files(project_path@, name@),
            views(r.1@) == poetry_dirs(project_path@, name@),
    {
        let root = String::from_str(project_path);
        let main = join_path(project_path, name);
        let data_rel = text_concat(name, "/data");
        let data = join_path(project_path, data_rel.as_str());
        let tests_rel = text_concat(name, "/tests");
        let tests = join_path(project_path, tests_rel.as_str());
        let github = join_path(project_path, ".github");
        let workflows = join_path(github.as_str(), "workflows");

        let mut files = FileMap::new();

        // The files at the root of the project
        files.insert(join_path(root.as_str(), "pyproject.toml"), String::from_str("toml.pyproject"));
        files.insert(join_path(root.as_str(), ".pre-commit-config.yaml"), String::from_str("yaml.pre-commit"));
        files.insert(join_path(root.as_str(), "README.md"), String::from_str("md.README"));
        files.insert(join_path(root.as_str(), "LICENSE.md"), String::from_str("build.license"));

        // The package
        files.insert(join_path(main.as_str(), "__init__.py"), String::from_str("py.__init__"));
        files.insert(join_path(main.as_str(), "__main__.py"), String::from_str("py.__main__"));

        // Its tests
        files.insert(join_path(tests.as_str(), "__init__.py"), String::from_str("py.__init__"));
        files.insert(join_path(tests.as_str(), "test_sum.py"), String::from_str("py.test"));

        // dependabot
        files.insert(join_path(github.as_str(), "dependabot.yml"), String::from_str("ci.github.dependabot"));

        // Continuous integration
        let ci_file = text_concat(name, ".yml");
        files.insert(join_path(workflows.as_str(), ci_file.as_str()), String::from_str("ci.github"));

        let mut dirs: Vec<String> = Vec::new();
        dirs.push(root);
        dirs.push(main);
        dirs.push(data);
        dirs.push(tests);
        dirs.push(github);
        dirs.push(workflows);
        proof {
            assert(views(dirs@) =~= poetry_dirs(project_path@, name@));
        }
        (files, dirs)
    }
}

impl BuildTemplate for Poetry {
    open spec fn spec_define(
        &self,
        project_path: Seq<char>,
        project_name: Seq<char>,
        license: Seq<char>,
        github_branch: Seq<char>,
        organization: Seq<char>,
        repository: Seq<char>,
    ) -> OutputModel {
        OutputModel {
            files: poetry_files(project_path, project_name),
            dirs: poetry_dirs(project_path, project_name),
            context: common_context(project_name, github_branch, license),
            commands: seq![],
        }
    }

    fn define(
        &self,
        project_path: &str,
        project_name: &str,
        license: &str,
        github_branch: &str,
        organization: &str,
        repository: &str,
    ) -> (r: ProjectOutput) {
        let mut context = Context::new();
        context.push_text("name", project_name);
        context.push_text("branch", github_branch);
        context.push_text("license_id", license);

        let (files, dirs) = Poetry::project_structure(project_path, project_name);
        let commands: Vec<ToolCommand> = Vec::new();
        proof {
            assert(context@ =~= common_context(project_name@, github_branch@, license@));
            assert(command_views(commands@) =~= seq![]);
            if valid_name(project_name@) {
                lemma_poetry_layout(project_path@, project_name@);
            }
        }
        ProjectOutput { files, dirs, context, commands }
    }
}

} // verus!
