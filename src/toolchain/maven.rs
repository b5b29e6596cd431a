use vstd::prelude::*;
use vstd::string::*;

use crate::layout::{
    layout_sound, lemma_file_placed, lemma_no_slash_concat, lemma_under_join,
    lemma_under_trans, parent, under, valid_name,
};
use crate::model::{text_entry, Context, FileMap, ValueModel};
use crate::text::{text_concat, join, join_path, views};
use crate::toolchain::{command_views, BuildTemplate, OutputModel, ProjectOutput, ToolCommand};

verus! {

/// A maven project: java sources and tests nested under the group.
pub struct Maven {
    /// The java group.
    pub group: String,
}

/// The directory of the java sources.
pub open spec fn maven_main(root: Seq<char>, group: Seq<char>, name: Seq<char>) -> Seq<char> {
    join(root, join("src/main/java/"@ + group, name))
}

/// The directory of the java tests.
pub open spec fn maven_tests(root: Seq<char>, group: Seq<char>, name: Seq<char>) -> Seq<char> {
    join(root, join("src/test/java/"@ + group, name + "/example"@))
}

/// The files of a maven project and their templates.
pub open spec fn maven_files(root: Seq<char>, group: Seq<char>, name: Seq<char>) -> Map<Seq<char>, Seq<char>> {
    let github = join(root, ".github"@);
    let workflows = join(github, "workflows"@);
    Map::<Seq<char>, Seq<char>>::empty()
        .insert(join(root, "pom.xml"@), "xml.pom"@)
        .insert(join(root, "checkstyle.xml"@), "xml.checkstyle"@)
        .insert(join(root, "README.md"@), "md.README"@)
        .insert(join(root, "LICENSE.md"@), "build.license"@)
        .insert(join(maven_main(root, group, name), "Entry.java"@), "java.entry"@)
        .insert(join(maven_tests(root, group, name), "Example.java"@), "java.example"@)
        .insert(join(github, "dependabot.yml"@), "ci.github.dependabot"@)
        .insert(join(workflows, name + ".yml"@), "ci.github"@)
}

/// The directories of a maven project, the root first.
pub open spec fn maven_dirs(root: Seq<char>, group: Seq<char>, name: Seq<char>) -> Seq<Seq<char>> {
    seq![
        root,
        maven_main(root, group, name),
        maven_tests(root, group, name),
        join(root, ".github"@),
        join(join(root, ".github"@), "workflows"@),
    ]
}

/// The context of a maven project.
pub open spec fn maven_context(
    name: Seq<char>,
    branch: Seq<char>,
    group: Seq<char>,
    license: Seq<char>,
    organization: Seq<char>,
    repository: Seq<char>,
) -> Seq<(Seq<char>, ValueModel)> {
    seq![
        text_entry("name"@, name),
        text_entry("branch"@, branch),
        text_entry("group"@, group),
        text_entry("license_id"@, license),
        text_entry("organization"@, organization),
        text_entry("repository"@, repository),
    ]
}

proof fn lemma_maven_layout(root: Seq<char>, group: Seq<char>, name: Seq<char>)
    requires
        valid_name(name),
    ensures
        layout_sound(maven_files(root, group, name), maven_dirs(root, group, name), root),
{
    let main = maven_main(root, group, name);
    let tests = maven_tests(root, group, name);
    let github = join(root, ".github"@);
    let workflows = join(github, "workflows"@);
    let dirs = maven_dirs(root, group, name);
    reveal_strlit(".yml");
    reveal_strlit("pom.xml");
    reveal_strlit("checkstyle.xml");
    reveal_strlit("README.md");
    reveal_strlit("LICENSE.md");
    reveal_strlit("Entry.java");
    reveal_strlit("Example.java");
    reveal_strlit("dependabot.yml");
    lemma_no_slash_concat(name, ".yml"@);
    lemma_under_join(root, join("src/main/java/"@ + group, name));
    lemma_under_join(root, join("src/test/java/"@ + group, name + "/example"@));
    lemma_under_join(root, ".github"@);
    lemma_under_join(github, "workflows"@);
    lemma_under_trans(workflows, github, root);
    assert(dirs[0] == root);
    assert(dirs[1] == main);
    assert(dirs[2] == tests);
    assert(dirs[3] == github);
    assert(dirs[4] == workflows);
    lemma_file_placed(root, root, "pom.xml"@, dirs, 0);
    lemma_file_placed(root, root, "checkstyle.xml"@, dirs, 0);
    lemma_file_placed(root, root, "README.md"@, dirs, 0);
    lemma_file_placed(root, root, "LICENSE.md"@, dirs, 0);
    lemma_file_placed(root, main, "Entry.java"@, dirs, 1);
    lemma_file_placed(root, tests, "Example.java"@, dirs, 2);
    lemma_file_placed(root, github, "dependabot.yml"@, dirs, 3);
    lemma_file_placed(root, workflows, name + ".yml"@, dirs, 4);
    let files = maven_files(root, group, name);
    assert forall|k: Seq<char>| #[trigger] files.dom().contains(k) implies under(k, root) && dirs.contains(
        parent(k),
    ) by {}
}

impl Maven {
    /// A maven project of the group `group`.
    pub fn new() -> (r: Self)
        ensures
            r.group@ == "group"@,
    {
        Maven { group: String::from_str("group") }
    }

    /// Sets the group.
    pub fn group(self, group: &str) -> (r: Self)
        ensures
            r.group@ == group@,
    {
        Maven { group: String::from_str(group) }
    }

    /// The files and directories of a maven project at `project_path`.
    pub fn project_structure(project_path: &str, group: &str, name: &str) -> (r: (FileMap, Vec<String>))
        ensures
            r.0.wf(),
            r.0@ == maven_files(project_path@, group@, name@),
            views(r.1@) == maven_dirs(project_path@, group@, name@),
    {
        let root = String::from_str(project_path);
        let main_group = text_concat("src/main/java/", group);
        let main_rel = join_path(main_group.as_str(), name);
        let main = join_path(project_path, main_rel.as_str());
        let tests_group = text_concat("src/test/java/", group);
        let tests_leaf = text_concat(name, "/example");
        let tests_rel = join_path(tests_group.as_str(), tests_leaf.as_str());
        let tests = join_path(project_path, tests_rel.as_str());
        let github = join_path(project_path, ".github");
        let workflows = join_path(github.as_str(), "workflows");

        let mut files = FileMap::new();

        // The files at the root of the project
        files.insert(join_path(root.as_str(), "pom.xml"), String::from_str("xml.pom"));
        files.insert(join_path(root.as_str(), "checkstyle.xml"), String::from_str("xml.checkstyle"));
        files.insert(join_path(root.as_str(), "README.md"), String::from_str("md.README"));
        files.insert(join_path(root.as_str(), "LICENSE.md"), String::from_str("build.license"));

        // The sources
        files.insert(join_path(main.as_str(), "Entry.java"), String::from_str("java.entry"));

        // The tests
        files.insert(join_path(tests.as_str(), "Example.java"), String::from_str("java.example"));

        // dependabot
        files.insert(join_path(github.as_str(), "dependabot.yml"), String::from_str("ci.github.dependabot"));

        // Continuous integration
        let ci_file = text_concat(name, ".yml");
        files.insert(join_path(workflows.as_str(), ci_file.as_str()), String::from_str("ci.github"));

        let mut dirs: Vec<String> = Vec::new();
        dirs.push(root);
        dirs.push(main);
        dirs.push(tests);
        dirs.push(github);
        dirs.push(workflows);
        proof {
            assert(views(dirs@) =~= maven_dirs(project_path@, group@, name@));
        }
        (files, dirs)
    }
}

impl BuildTemplate for Maven {
    open spec fn spec_define(
        &self,
        project_path: Seq<char>,
        project_name: Seq<char>,
        license: Seq<char>,
        github_branch: Seq<char>,
        organization: Seq<char>,
        repository: Seq<char>,
    ) -> OutputModel {
        OutputModel {
            files: maven_files(project_path, self.group@, project_name),
            dirs: maven_dirs(project_path, self.group@, project_name),
            context: maven_context(project_name, github_branch, self.group@, license, organization, repository),
            commands: seq![],
        }
    }

    fn define(
        &self,
        project_path: &str,
        project_name: &str,
        license: &str,
        github_branch: &str,
        organization: &str,
        repository: &str,
    ) -> (r: ProjectOutput) {
        let mut context = Context::new();
        context.push_text("name", project_name);
        context.push_text("branch", github_branch);
        context.push_text("group", self.group.as_str());
        context.push_text("license_id", license);
        context.push_text("organization", organization);
        context.push_text("repository", repository);

        let (files, dirs) = Maven::project_structure(project_path, self.group.as_str(), project_name);
        let commands: Vec<ToolCommand> = Vec::new();
        proof {
            assert(context@ =~= maven_context(project_name@, github_branch@, self.group@, license@, organization@, repository@));
            assert(command_views(commands@) =~= seq![]);
            if valid_name(project_name@) {
                lemma_maven_layout(project_path@, self.group@, project_name@);
            }
        }
        ProjectOutput { files, dirs, context, commands }
    }
}

} // verus!
