use vstd::prelude::*;
use vstd::string::*;

mod outside;
pub mod error;
pub mod text;
pub mod model;
pub mod layout;
pub mod toolchain;
pub mod licensing;
pub mod path;
pub mod engine;

pub use path::path_validation;
pub use toolchain::{cargo, maven, meson, poetry, yarn};

use error::Error;
use layout::{
    layout_sound, lemma_file_placed, lemma_no_slash_concat, lemma_under_join, no_slash,
    parent, under, valid_name,
};
use licensing::{
    body_lines, define_license, license_body, opt_view, spdx_header, spdx_known, spdx_text,
    LicenseRecord,
};
use engine::{all_compile, all_render, rendered};
use model::{
    lemma_map_of_dom, lemma_map_of_index, map_of, pair_views, Context, CtxValue, FileMap, Scalar, ScalarModel, ValueModel,
    text_in,
};
use path::{named, resolve_name};
use text::{text_concat, join, join_path, views};
use toolchain::{command_views, BuildTemplate, OutputModel, ToolCommand};

verus! {

/// The template of the machine-readable license manifest.
pub const REUSE_TEMPLATE: &'static str = "Format: https://www.debian.org/doc/packaging-manuals/copyright-format/1.0/
Upstream-Name: {{ reuse.name }}
Upstream-Contact: {{ reuse.name }} developers
Source: https://github.com/{{ reuse.name }}

Files: *
Copyright: {{ reuse.name }} contributors
License: {{ reuse.id }}
";

/// What a project is made from: its resolved directory, its name (empty to
/// take the directory's), its license and branch, and the organization and
/// repository that host it.
pub struct TemplateData {
    pub project_path: String,
    pub name: String,
    pub license: String,
    pub branch: String,
    pub organization: String,
    pub repository: String,
}

impl TemplateData {
    /// A project under the MIT license on the `main` branch.
    pub fn new(project_path: &str, name: &str, organization: &str, repository: &str) -> (r: Self)
        ensures
            r.project_path@ == project_path@,
            r.name@ == name@,
            r.license@ == "MIT"@,
            r.branch@ == "main"@,
            r.organization@ == organization@,
            r.repository@ == repository@,
    {
        TemplateData {
            project_path: String::from_str(project_path),
            name: String::from_str(name),
            license: String::from_str("MIT"),
            branch: String::from_str("main"),
            organization: String::from_str(organization),
            repository: String::from_str(repository),
        }
    }

    /// Sets the license.
    pub fn license(self, license: &str) -> (r: Self)
        ensures
            r.license@ == license@,
            r.project_path == self.project_path,
            r.name == self.name,
            r.branch == self.branch,
            r.organization == self.organization,
            r.repository == self.repository,
    {
        TemplateData { license: String::from_str(license), ..self }
    }

    /// Sets the branch.
    pub fn branch(self, branch: &str) -> (r: Self)
        ensures
            r.branch@ == branch@,
            r.project_path == self.project_path,
            r.name == self.name,
            r.license == self.license,
            r.organization == self.organization,
            r.repository == self.repository,
    {
        TemplateData { branch: String::from_str(branch), ..self }
    }
}

/// The directory of the license texts.
pub open spec fn license_dir(root: Seq<char>) -> Seq<char> {
    join(root, "LICENSES"@)
}

/// The license text file of the license `id`.
pub open spec fn license_file(root: Seq<char>, id: Seq<char>) -> Seq<char> {
    join(license_dir(root), id + ".txt"@)
}

/// The directory of the license manifest.
pub open spec fn reuse_dir(root: Seq<char>) -> Seq<char> {
    join(root, ".reuse"@)
}

/// The license manifest file.
pub open spec fn reuse_file(root: Seq<char>) -> Seq<char> {
    join(reuse_dir(root), "dep5"@)
}

/// What the templates read of a license: its header (nothing where it has
/// none), the lines of its body, and its identifier.
pub open spec fn license_value(header: Option<Seq<char>>, text: Seq<char>, id: Seq<char>) -> ValueModel {
    ValueModel::Record(
        seq![
            ("header"@, match header {
                Some(h) => ScalarModel::Text(h),
                None => ScalarModel::Nothing,
            }),
            ("text"@, ScalarModel::Lines(body_lines(text))),
            ("id"@, ScalarModel::Text(id)),
        ],
    )
}

/// What the license manifest reads: the project name found in the context,
/// and the license identifier.
pub open spec fn reuse_value(ctx: Seq<(Seq<char>, ValueModel)>, id: Seq<char>) -> ValueModel {
    ValueModel::Record(seq![("name"@, text_in(ctx, "name"@)), ("id"@, ScalarModel::Text(id))])
}

/// A project ready to render: its context, its files with their templates,
/// its directories, the `(name, source)` pairs of its templates and the
/// initializers to run first.
pub struct CiTemplate {
    pub context: Context,
    pub files: FileMap,
    pub dirs: Vec<String>,
    pub templates: Vec<(String, String)>,
    pub commands: Vec<ToolCommand>,
}

/// A rendered project: the initializers to run, then the directories to
/// create, then each file with its text.
pub struct Scaffold {
    pub commands: Vec<ToolCommand>,
    pub dirs: Vec<String>,
    pub files: Vec<(String, String)>,
}

/// Every template of `ts` compiles, and every file of `files` renders with
/// them against `ctx`.
pub open spec fn renders_ok(
    ts: Seq<(Seq<char>, Seq<char>)>,
    files: Map<Seq<char>, Seq<char>>,
    ctx: Seq<(Seq<char>, ValueModel)>,
) -> bool {
    &&& all_compile(ts)
    &&& forall|k: Seq<char>|
        #[trigger] files.dom().contains(k) ==> (rendered(map_of(ts), files[k], ctx) is Some)
}

/// The rendered files are the files of `files`, each with the text of its
/// template rendered against `ctx`.
pub open spec fn rendered_as(
    out: Seq<(String, String)>,
    ts: Seq<(Seq<char>, Seq<char>)>,
    files: Map<Seq<char>, Seq<char>>,
    ctx: Seq<(Seq<char>, ValueModel)>,
) -> bool {
    &&& renders_all(out, files)
    &&& forall|i: int|
        0 <= i < out.len() ==> rendered(map_of(ts), files[out[i].0@], ctx) == Some(#[trigger] out[i].1@)
}

/// The paths of the rendered files are exactly the keys of `files`.
pub open spec fn renders_all(out: Seq<(String, String)>, files: Map<Seq<char>, Seq<char>>) -> bool {
    forall|k: Seq<char>|
        files.dom().contains(k) <==> exists|i: int| 0 <= i < out.len() && #[trigger] out[i].0@ == k
}

impl CiTemplate {
    /// Adds the license text file under `LICENSES/`, the license to the
    /// context, and the license text as the template `build.license`.
    pub fn add_license(&mut self, license: &LicenseRecord, project_path: &str)
        requires
            old(self).files.wf(),
        ensures
            final(self).files.wf(),
            final(self).files@ == old(self).files@.insert(
                license_file(project_path@, license.id@),
                "build.license"@,
            ),
            views(final(self).dirs@) == views(old(self).dirs@).push(license_dir(project_path@)),
            final(self).context@ == old(self).context@.push(
                ("license"@, license_value(opt_view(license.header), license.text@, license.id@)),
            ),
            pair_views(final(self).templates@) == pair_views(old(self).templates@).push(
                ("build.license"@, license.text@),
            ),
            final(self).commands == old(self).commands,
    {
        // The LICENSES directory and the license file
        let license_path = join_path(project_path, "LICENSES");
        let file_name = text_concat(license.id.as_str(), ".txt");
        self.files.insert(join_path(license_path.as_str(), file_name.as_str()), String::from_str("build.license"));
        self.dirs.push(license_path);

        let text_without_blank = license_body(license.text.as_str());
        let header = match &license.header {
            Some(h) => Scalar::Text(h.clone()),
            None => Scalar::Nothing,
        };
        let mut license_ctx: Vec<(String, Scalar)> = Vec::new();
        license_ctx.push((String::from_str("header"), header));
        license_ctx.push((String::from_str("text"), Scalar::Lines(text_without_blank)));
        license_ctx.push((String::from_str("id"), Scalar::Text(license.id.clone())));
        proof {
            let expected = license_value(opt_view(license.header), license.text@, license.id@);
            assert(model::field_views(license_ctx@) =~= expected->Record_0);
        }
        let value = CtxValue::Record(license_ctx);
        self.context.push("license", value);

        self.templates.push((String::from_str("build.license"), license.text.clone()));
        proof {
            assert(views(self.dirs@) =~= views(old(self).dirs@).push(license_dir(project_path@)));
            assert(pair_views(self.templates@) =~= pair_views(old(self).templates@).push(
                ("build.license"@, license.text@),
            ));
        }
    }

    /// Adds the license manifest under `.reuse/`, the project name and
    /// license identifier that it reads to the context, and its template as
    /// `dep5.reuse`.
    pub fn add_reuse(&mut self, license: &LicenseRecord, project_path: &str)
        requires
            old(self).files.wf(),
        ensures
            final(self).files.wf(),
            final(self).files@ == old(self).files@.insert(reuse_file(project_path@), "dep5.reuse"@),
            views(final(self).dirs@) == views(old(self).dirs@).push(reuse_dir(project_path@)),
            final(self).context@ == old(self).context@.push(
                ("reuse"@, reuse_value(old(self).context@, license.id@)),
            ),
            pair_views(final(self).templates@) == pair_views(old(self).templates@).push(
                ("dep5.reuse"@, REUSE_TEMPLATE@),
            ),
            final(self).commands == old(self).commands,
    {
        // The .reuse directory and the manifest
        let reuse_path = join_path(project_path, ".reuse");
        self.files.insert(join_path(reuse_path.as_str(), "dep5"), String::from_str("dep5.reuse"));
        self.dirs.push(reuse_path);

        let name = self.context.text_of("name");
        let mut reuse: Vec<(String, Scalar)> = Vec::new();
        reuse.push((String::from_str("name"), name));
        reuse.push((String::from_str("id"), Scalar::Text(license.id.clone())));
        proof {
            let expected = reuse_value(old(self).context@, license.id@);
            assert(model::field_views(reuse@) =~= expected->Record_0);
        }
        let value = CtxValue::Record(reuse);
        self.context.push("reuse", value);

        self.templates.push((String::from_str("dep5.reuse"), String::from_str(REUSE_TEMPLATE)));
        proof {
            assert(views(self.dirs@) =~= views(old(self).dirs@).push(reuse_dir(project_path@)));
            assert(pair_views(self.templates@) =~= pair_views(old(self).templates@).push(
                ("dep5.reuse"@, REUSE_TEMPLATE@),
            ));
        }
    }

    /// Renders every file; the result keeps the initializers and the
    /// directories, and holds each file with its template rendered against
    /// the context. It succeeds exactly where every template compiles and
    /// every file's template renders; a missing template fails.
    pub fn render(self) -> (r: Result<Scaffold, Error>)
        requires
            self.files.wf(),
        ensures
            r is Ok <==> renders_ok(pair_views(self.templates@), self.files@, self.context@),
            r matches Err(e) ==> e matches Error::Minijinja(_),
            r matches Ok(s) ==> s.commands == self.commands && s.dirs == self.dirs && rendered_as(
                s.files@,
                pair_views(self.templates@),
                self.files@,
                self.context@,
            ),
    {
        let CiTemplate { context, files, dirs, templates, commands } = self;
        let ghost ts = pair_views(templates@);
        let ghost fs = pair_views(files.entries@);
        proof {
            assert(all_render(ts, fs, context@) <==> (forall|k: Seq<char>|
                files@.dom().contains(k) ==> (rendered(map_of(ts), files@[k], context@) is Some))) by {
                if all_render(ts, fs, context@) {
                    assert forall|k: Seq<char>| files@.dom().contains(k) implies (rendered(
                        map_of(ts),
                        files@[k],
                        context@,
                    ) is Some) by {
                        lemma_map_of_dom(fs, k);
                        let i = choose|i: int| 0 <= i < fs.len() && #[trigger] fs[i].0 == k;
                        lemma_map_of_index(fs, i);
                    }
                }
                if forall|k: Seq<char>|
                    files@.dom().contains(k) ==> (rendered(map_of(ts), files@[k], context@) is Some) {
                    assert forall|i: int| 0 <= i < fs.len() implies (rendered(
                        map_of(ts),
                        #[trigger] fs[i].1,
                        context@,
                    ) is Some) by {
                        lemma_map_of_index(fs, i);
                    }
                }
            }
        }
        match engine::render_files(&templates, &files.entries, &context) {
            Ok(rendered_files) => {
                proof {
                    assert forall|k: Seq<char>|
                        files@.dom().contains(k) <==> exists|i: int|
                            0 <= i < rendered_files@.len() && #[trigger] rendered_files@[i].0@ == k by {
                        lemma_map_of_dom(fs, k);
                        if files@.dom().contains(k) {
                            let i = choose|i: int| 0 <= i < fs.len() && #[trigger] fs[i].0 == k;
                            assert(rendered_files@[i].0@ == files.entries@[i].0@);
                        }
                        if exists|i: int|
                            0 <= i < rendered_files@.len() && #[trigger] rendered_files@[i].0@ == k {
                            let i = choose|i: int|
                                0 <= i < rendered_files@.len() && #[trigger] rendered_files@[i].0@ == k;
                            assert(fs[i].0 == files.entries@[i].0@);
                        }
                    }
                    assert forall|i: int| 0 <= i < rendered_files@.len() implies rendered(
                        map_of(ts),
                        files@[rendered_files@[i].0@],
                        context@,
                    ) == Some(#[trigger] rendered_files@[i].1@) by {
                        assert(rendered_files@[i].0@ == files.entries@[i].0@);
                        assert(fs[i] == (files.entries@[i].0@, files.entries@[i].1@));
                        lemma_map_of_index(fs, i);
                    }
                }
                Ok(Scaffold { commands, dirs, files: rendered_files })
            },
            Err(message) => Err(Error::Minijinja(message)),
        }
    }
}

/// The files of a project once the license manifest and the license text
/// are added.
pub open spec fn planned_files(files: Map<Seq<char>, Seq<char>>, root: Seq<char>, id: Seq<char>) -> Map<Seq<char>, Seq<char>> {
    files.insert(reuse_file(root), "dep5.reuse"@).insert(license_file(root, id), "build.license"@)
}

/// The directories of a project once the license manifest and the license
/// text are added.
pub open spec fn planned_dirs(dirs: Seq<Seq<char>>, root: Seq<char>) -> Seq<Seq<char>> {
    dirs.push(reuse_dir(root)).push(license_dir(root))
}

/// Adding the license manifest and the license text keeps a sound layout
/// sound, for a license identifier of one path component.
pub proof fn lemma_planned_layout(files: Map<Seq<char>, Seq<char>>, dirs: Seq<Seq<char>>, root: Seq<char>, id: Seq<char>)
    requires
        layout_sound(files, dirs, root),
        no_slash(id),
    ensures
        layout_sound(planned_files(files, root, id), planned_dirs(dirs, root), root),
{
    let pd = planned_dirs(dirs, root);
    let pf = planned_files(files, root, id);
    reveal_strlit(".txt");
    reveal_strlit("dep5");
    lemma_no_slash_concat(id, ".txt"@);
    lemma_under_join(root, ".reuse"@);
    lemma_under_join(root, "LICENSES"@);
    assert(pd[dirs.len() as int] == reuse_dir(root));
    assert(pd[dirs.len() as int + 1] == license_dir(root));
    lemma_file_placed(root, reuse_dir(root), "dep5"@, pd, dirs.len() as int);
    lemma_file_placed(root, license_dir(root), id + ".txt"@, pd, dirs.len() as int + 1);
    assert forall|i: int| 0 <= i < pd.len() implies pd[i] == root || under(pd[i], root) by {
        if i < dirs.len() {
            assert(pd[i] == dirs[i]);
        }
    }
    assert forall|k: Seq<char>| #[trigger] pf.dom().contains(k) implies under(k, root)
        && pd.contains(parent(k)) by {
        if k != reuse_file(root) && k != license_file(root, id) {
            assert(files.dom().contains(k));
            let i = choose|i: int| 0 <= i < dirs.len() && dirs[i] == parent(k);
            assert(pd[i] == dirs[i]);
        }
    }
}

/// What a rendered project holds, for the output `out` of a toolchain: its
/// initializers, its directories with the two license directories added,
/// and one rendered file for each planned file.
pub open spec fn scaffold_of(s: Scaffold, out: OutputModel, root: Seq<char>, id: Seq<char>) -> bool {
    &&& command_views(s.commands@) == out.commands
    &&& views(s.dirs@) == planned_dirs(out.dirs, root)
    &&& renders_all(s.files@, planned_files(out.files, root, id))
}

/// The templates of a project once the license manifest and the license
/// text are added.
pub open spec fn planned_templates(ts: Seq<(Seq<char>, Seq<char>)>, text: Seq<char>) -> Seq<(Seq<char>, Seq<char>)> {
    ts.push(("dep5.reuse"@, REUSE_TEMPLATE@)).push(("build.license"@, text))
}

/// The context of a project once the license manifest and the license are
/// added.
pub open spec fn planned_context(
    ctx: Seq<(Seq<char>, ValueModel)>,
    header: Option<Seq<char>>,
    text: Seq<char>,
    id: Seq<char>,
) -> Seq<(Seq<char>, ValueModel)> {
    ctx.push(("reuse"@, reuse_value(ctx, id))).push(("license"@, license_value(header, text, id)))
}

/// What `toolchain` lays out for `data`, under the resolved name.
pub open spec fn defined<T: BuildTemplate>(toolchain: &T, data: &TemplateData) -> OutputModel {
    toolchain.spec_define(
        data.project_path@,
        named(data.name@, data.project_path@)->Ok_0,
        data.license@,
        data.branch@,
        data.organization@,
        data.repository@,
    )
}

/// A non-empty ASCII name is the one the toolchain lays the project out
/// with, whatever the project directory; without a name, the directory's
/// last component is, where it is a valid ASCII name.
pub proof fn lemma_project_name<T: BuildTemplate>(toolchain: &T, data: &TemplateData)
    ensures
        data.name@.len() > 0 && path::ascii_name(data.name@) ==> defined(toolchain, data)
            == toolchain.spec_define(
            data.project_path@,
            data.name@,
            data.license@,
            data.branch@,
            data.organization@,
            data.repository@,
        ),
        named(data.name@, data.project_path@) is Ok && data.name@.len() == 0 ==> defined(toolchain, data)
            == toolchain.spec_define(
            data.project_path@,
            path::last_component(data.project_path@),
            data.license@,
            data.branch@,
            data.organization@,
            data.repository@,
        ),
{
    path::lemma_name_derivation(data.name@, data.project_path@);
}

/// Every file of the project `out`, license manifest and text included,
/// renders with the templates `ts` and those of the license `id`.
pub open spec fn project_renders(ts: Seq<(Seq<char>, Seq<char>)>, out: OutputModel, root: Seq<char>, id: Seq<char>) -> bool {
    renders_ok(
        planned_templates(ts, spdx_text(id)),
        planned_files(out.files, root, id),
        planned_context(out.context, spdx_header(id), spdx_text(id), id),
    )
}

/// The rendered files of the project `out`: each planned file with its
/// template rendered against the planned context.
pub open spec fn project_rendered_as(
    files: Seq<(String, String)>,
    ts: Seq<(Seq<char>, Seq<char>)>,
    out: OutputModel,
    root: Seq<char>,
    id: Seq<char>,
) -> bool {
    rendered_as(
        files,
        planned_templates(ts, spdx_text(id)),
        planned_files(out.files, root, id),
        planned_context(out.context, spdx_header(id), spdx_text(id), id),
    )
}

/// What a successful run of `toolchain` on `data` with the templates `ts`
/// returns.
pub open spec fn created<T: BuildTemplate>(s: Scaffold, toolchain: &T, data: &TemplateData, ts: Seq<(Seq<char>, Seq<char>)>) -> bool {
    &&& license_ok(data.license@)
    &&& named(data.name@, data.project_path@) is Ok
    &&& scaffold_of(s, defined(toolchain, data), data.project_path@, data.license@)
    &&& project_rendered_as(s.files@, ts, defined(toolchain, data), data.project_path@, data.license@)
}

/// A project rendered from its planned files holds a rendered text for the
/// license text file and for the license manifest, beside every file of the
/// toolchain.
pub proof fn lemma_license_artifacts_rendered(
    s: Scaffold,
    files: Map<Seq<char>, Seq<char>>,
    root: Seq<char>,
    id: Seq<char>,
)
    requires
        renders_all(s.files@, planned_files(files, root, id)),
    ensures
        exists|i: int| 0 <= i < s.files@.len() && #[trigger] s.files@[i].0@ == license_file(root, id),
        exists|i: int| 0 <= i < s.files@.len() && #[trigger] s.files@[i].0@ == reuse_file(root),
        forall|k: Seq<char>|
            files.dom().contains(k) ==> exists|i: int|
                0 <= i < s.files@.len() && #[trigger] s.files@[i].0@ == k,
{
    let pf = planned_files(files, root, id);
    assert(pf.dom().contains(license_file(root, id)));
    assert(pf.dom().contains(reuse_file(root)));
    assert forall|k: Seq<char>| files.dom().contains(k) implies exists|i: int|
        0 <= i < s.files@.len() && #[trigger] s.files@[i].0@ == k by {
        assert(pf.dom().contains(k));
    }
}

/// Adds the license manifest and the license text to a project, then
/// renders it.
pub fn compute_template(mut template: CiTemplate, license: &LicenseRecord, project_path: &str) -> (r: Result<Scaffold, Error>)
    requires
        template.files.wf(),
    ensures
        r matches Err(e) ==> e matches Error::Minijinja(_),
        r is Ok <==> renders_ok(
            planned_templates(pair_views(template.templates@), license.text@),
            planned_files(template.files@, project_path@, license.id@),
            planned_context(template.context@, opt_view(license.header), license.text@, license.id@),
        ),
        r matches Ok(s) ==> s.commands == template.commands && views(s.dirs@) == planned_dirs(
            views(template.dirs@),
            project_path@,
        ) && rendered_as(
            s.files@,
            planned_templates(pair_views(template.templates@), license.text@),
            planned_files(template.files@, project_path@, license.id@),
            planned_context(template.context@, opt_view(license.header), license.text@, license.id@),
        ),
{
    template.add_reuse(license, project_path);
    template.add_license(license, project_path);
    template.render()
}

/// A project of `toolchain` ready to render: its output, with the templates
/// `templates` as `(name, source)` pairs.
pub fn build<T: BuildTemplate>(
    toolchain: &T,
    project_path: &str,
    project_name: &str,
    license: &str,
    github_branch: &str,
    organization: &str,
    repository: &str,
    templates: Vec<(String, String)>,
) -> (r: CiTemplate)
    ensures
        r.files.wf(),
        r.files@ == toolchain.spec_define(project_path@, project_name@, license@, github_branch@, organization@, repository@).files,
        views(r.dirs@) == toolchain.spec_define(project_path@, project_name@, license@, github_branch@, organization@, repository@).dirs,
        r.context@ == toolchain.spec_define(project_path@, project_name@, license@, github_branch@, organization@, repository@).context,
        command_views(r.commands@) == toolchain.spec_define(project_path@, project_name@, license@, github_branch@, organization@, repository@).commands,
        r.templates == templates,
        valid_name(project_name@) ==> layout_sound(r.files@, views(r.dirs@), project_path@),
{
    let t = toolchain.define(project_path, project_name, license, github_branch, organization, repository);
    CiTemplate { context: t.context, files: t.files, dirs: t.dirs, templates, commands: t.commands }
}

/// The license identifier names a known license.
pub open spec fn license_ok(license: Seq<char>) -> bool {
    license.len() > 0 && spdx_known(license)
}

/// Makes the project that `data` describes with `toolchain`, whose templates
/// are the `(name, source)` pairs of `templates`. `data.project_path` is the
/// resolved project directory. The license is looked up first, then the
/// name resolved; then the toolchain lays the project out, the license
/// manifest and text are added, and every file is rendered.
pub fn create_toolchain<T: BuildTemplate>(toolchain: &T, data: &TemplateData, templates: Vec<(String, String)>) -> (r: Result<Scaffold, Error>)
    ensures
        data.license@.len() == 0 ==> r matches Err(Error::NoLicense),
        data.license@.len() > 0 && !spdx_known(data.license@) ==> r matches Err(
            Error::InvalidLicense(_),
        ),
        license_ok(data.license@) && named(data.name@, data.project_path@) is Err ==> r == Err::<
            Scaffold,
            Error,
        >(named(data.name@, data.project_path@)->Err_0),
        license_ok(data.license@) && named(data.name@, data.project_path@) is Ok ==> (r is Ok
            <==> project_renders(
            pair_views(templates@),
            defined(toolchain, data),
            data.project_path@,
            data.license@,
        )),
        license_ok(data.license@) && named(data.name@, data.project_path@) is Ok && r is Err ==> (
        r matches Err(e) && e matches Error::Minijinja(_)),
        r matches Ok(s) ==> created(s, toolchain, data, pair_views(templates@)),
        r matches Ok(s) && valid_name(named(data.name@, data.project_path@)->Ok_0) && no_slash(
            data.license@,
        ) ==> layout_sound(
            planned_files(defined(toolchain, data).files, data.project_path@, data.license@),
            planned_dirs(defined(toolchain, data).dirs, data.project_path@),
            data.project_path@,
        ),
{
    let license = define_license(data.license.as_str())?;
    let name = resolve_name(data.name.as_str(), data.project_path.as_str())?;
    let template = build(
        toolchain,
        data.project_path.as_str(),
        name.as_str(),
        license.id.as_str(),
        data.branch.as_str(),
        data.organization.as_str(),
        data.repository.as_str(),
        templates,
    );
    proof {
        if valid_name(name@) && no_slash(license.id@) {
            lemma_planned_layout(template.files@, views(template.dirs@), data.project_path@, license.id@);
        }
    }
    compute_template(template, &license, data.project_path.as_str())
}

/// A toolchain that writes the CI files of a project.
pub trait CreateCi: BuildTemplate + Sized {
    /// Makes the CI files of the project that `data` describes, with the
    /// toolchain's templates as `(name, source)` pairs.
    fn create_ci(&self, data: &TemplateData, templates: Vec<(String, String)>) -> (r: Result<Scaffold, Error>)
        ensures
            data.license@.len() == 0 ==> r matches Err(Error::NoLicense),
            data.license@.len() > 0 && !spdx_known(data.license@) ==> r matches Err(
                Error::InvalidLicense(_),
            ),
            license_ok(data.license@) && named(data.name@, data.project_path@) is Ok ==> (r is Ok
                <==> project_renders(
                pair_views(templates@),
                defined(self, data),
                data.project_path@,
                data.license@,
            )),
            r matches Ok(s) ==> created(s, self, data, pair_views(templates@)),
    ;
}

/// A toolchain that makes a whole new project.
pub trait CreateProject: BuildTemplate + Sized {
    /// Makes the project that `data` describes, with the toolchain's
    /// templates as `(name, source)` pairs.
    fn create_project(&self, data: &TemplateData, templates: Vec<(String, String)>) -> (r: Result<Scaffold, Error>)
        ensures
            data.license@.len() == 0 ==> r matches Err(Error::NoLicense),
            data.license@.len() > 0 && !spdx_known(data.license@) ==> r matches Err(
                Error::InvalidLicense(_),
            ),
            license_ok(data.license@) && named(data.name@, data.project_path@) is Ok ==> (r is Ok
                <==> project_renders(
                pair_views(templates@),
                defined(self, data),
                data.project_path@,
                data.license@,
            )),
            r matches Ok(s) ==> created(s, self, data, pair_views(templates@)),
    ;
}

impl CreateCi for cargo::Cargo {
    fn create_ci(&self, data: &TemplateData, templates: Vec<(String, String)>) -> (r: Result<Scaffold, Error>) {
        create_toolchain(self, data, templates)
    }
}

impl CreateCi for yarn::Yarn {
    fn create_ci(&self, data: &TemplateData, templates: Vec<(String, String)>) -> (r: Result<Scaffold, Error>) {
        create_toolchain(self, data, templates)
    }
}

impl CreateProject for maven::Maven {
    fn create_project(&self, data: &TemplateData, templates: Vec<(String, String)>) -> (r: Result<Scaffold, Error>) {
        create_toolchain(self, data, templates)
    }
}

impl CreateProject for meson::Meson {
    fn create_project(&self, data: &TemplateData, templates: Vec<(String, String)>) -> (r: Result<Scaffold, Error>) {
        create_toolchain(self, data, templates)
    }
}

impl CreateProject for poetry::Poetry {
    fn create_project(&self, data: &TemplateData, templates: Vec<(String, String)>) -> (r: Result<Scaffold, Error>) {
        create_toolchain(self, data, templates)
    }
}

} // verus!
