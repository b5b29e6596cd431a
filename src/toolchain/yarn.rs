use vstd::prelude::*;
use vstd::string::*;

use crate::layout::{
    layout_sound, lemma_file_placed, lemma_no_slash_concat, lemma_under_join,
    lemma_under_trans, parent, under, valid_name,
};
use crate::model::{Context, FileMap};
use crate::text::{text_concat, join, join_path, views};
use crate::toolchain::{command_views, common_context, BuildTemplate, OutputModel, ProjectOutput, ToolCommand};

verus! {

/// A yarn project: CI files for two providers.
pub struct Yarn;

/// The files of a yarn project and their templates.
pub open spec fn yarn_files(root: Seq<char>, name: Seq<char>) -> Map<Seq<char>, Seq<char>> {
    let github = join(root, ".github"@);
    let workflows = join(github, "workflows"@);
    Map::<Seq<char>, Seq<char>>::empty()
        .insert(join(root, "README.md"@), "md.README"@)
        .insert(join(github, "dependabot.yml"@), "ci.github.dependabot"@)
        .insert(join(root, ".gitlab-ci.yml"@), "ci.gitlab"@)
        .insert(join(workflows, name + ".yml"@), "ci.github"@)
}

/// The directories of a yarn project, the root first.
pub open spec fn yarn_dirs(root: Seq<char>) -> Seq<Seq<char>> {
    seq![root, join(root, ".github"@), join(join(root, ".github"@), "workflows"@)]
}

proof fn lemma_yarn_layout(root: Seq<char>, name: Seq<char>)
    requires
        valid_name(name),
    ensures
        layout_sound(yarn_files(root, name), yarn_dirs(root), root),
{
    let github = join(root, ".github"@);
    let workflows = join(github, "workflows"@);
    let dirs = yarn_dirs(root);
    reveal_strlit(".yml");
    reveal_strlit("README.md");
    reveal_strlit("dependabot.yml");
    reveal_strlit(".gitlab-ci.yml");
    lemma_no_slash_concat(name, ".yml"@);
    lemma_under_join(root, ".github"@);
    lemma_under_join(github, "workflows"@);
    lemma_under_trans(workflows, github, root);
    assert(dirs[0] == root);
    assert(dirs[1] == github);
    assert(dirs[2] == workflows);
    lemma_file_placed(root, root, "README.md"@, dirs, 0);
    lemma_file_placed(root, github, "dependabot.yml"@, dirs, 1);
    lemma_file_placed(root, root, ".gitlab-ci.yml"@, dirs, 0);
    lemma_file_placed(root, workflows, name + ".yml"@, dirs, 2);
    let files = yarn_files(root, name);
    assert forall|k: Seq<char>| #[trigger] files.dom().contains(k) implies under(k, root) && dirs.contains(
        parent(k),
    ) by {}
}

impl Yarn {
    /// A yarn project.
    pub fn new() -> Self {
        Yarn
    }

    /// The files and directories of a yarn project at `project_path`.
    pub fn project_structure(project_path: &str, name: &str) -> (r: (FileMap, Vec<String>))
        ensures
            r.0.wf(),
            r.0@ == yarn_files(project_path@, name@),
            views(r.1@) == yarn_dirs(project_path@),
    {
        let root = String::from_str(project_path);
        let github = join_path(project_path, ".github");
        let workflows = join_path(github.as_str(), "workflows");

        let mut files = FileMap::new();

        // README
        files.insert(join_path(root.as_str(), "README.md"), String::from_str("md.README"));

        // dependabot
        files.insert(join_path(github.as_str(), "dependabot.yml"), String::from_str("ci.github.dependabot"));

        // Continuous integration
        files.insert(join_path(root.as_str(), ".gitlab-ci.yml"), String::from_str("ci.gitlab"));
        let ci_file = text_concat(name, ".yml");
        files.insert(join_path(workflows.as_str(), ci_file.as_str()), String::from_str("ci.github"));

        let mut dirs: Vec<String> = Vec::new();
        dirs.push(root);
        dirs.push(github);
        dirs.push(workflows);
        proof {
            assert(views(dirs@) =~= yarn_dirs(project_path@));
        }
        (files, dirs)
    }
}

impl BuildTemplate for Yarn {
    open spec fn spec_define(
        &self,
        project_path: Seq<char>,
        project_name: Seq<char>,
        license: Seq<char>,
        github_branch: Seq<char>,
        organization: Seq<char>,
        repository: Seq<char>,
    ) -> OutputModel {
        OutputModel {
            files: yarn_files(project_path, project_name),
            dirs: yarn_dirs(project_path),
            context: common_context(project_name, github_branch, license),
            commands: seq![],
        }
    }

    fn define(
        &self,
        project_path: &str,
        project_name: &str,
        license: &str,
        github_branch: &str,
        organization: &str,
        repository: &str,
    ) -> (r: ProjectOutput) {
        let mut context = Context::new();
        context.push_text("name", project_name);
        context.push_text("branch", github_branch);
        context.push_text("license_id", license);

        let (files, dirs) = Yarn::project_structure(project_path, project_name);
        let commands: Vec<ToolCommand> = Vec::new();
        proof {
            assert(context@ =~= common_context(project_name@, github_branch@, license@));
            assert(command_views(commands@) =~= seq![]);
            if valid_name(project_name@) {
                lemma_yarn_layout(project_path@, project_name@);
            }
        }
        ProjectOutput { files, dirs, context, commands }
    }
}

} // verus!
