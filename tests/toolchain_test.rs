use ci_generate::cargo::{docker_description, Cargo};
use ci_generate::maven::Maven;
use ci_generate::meson::{project_kind, Meson, ProjectKind};
use ci_generate::model::{CtxValue, Scalar};
use ci_generate::poetry::Poetry;
use ci_generate::toolchain::{BuildTemplate, ProjectOutput};
use ci_generate::yarn::Yarn;

fn paths(out: &ProjectOutput) -> Vec<String> {
    out.files.entries.iter().map(|(p, _)| p.clone()).collect()
}

fn template_of(out: &ProjectOutput, path: &str) -> Option<String> {
    out.files.entries.iter().find(|(p, _)| p == path).map(|(_, t)| t.clone())
}

fn context_text(out: &ProjectOutput, key: &str) -> Option<String> {
    out.context.entries.iter().find(|(k, _)| k == key).and_then(|(_, v)| match v {
        CtxValue::Plain(Scalar::Text(t)) => Some(t.clone()),
        _ => None,
    })
}

fn parent(p: &str) -> &str {
    &p[..p.rfind('/').unwrap()]
}

fn assert_layout(out: &ProjectOutput, root: &str) {
    assert_eq!(out.dirs[0], root);
    for p in paths(out) {
        assert!(p.starts_with(&format!("{root}/")), "{p} is not below {root}");
        let dir = parent(&p);
        assert!(out.dirs.iter().any(|d| d == dir), "{dir} is not listed");
    }
}

#[test]
fn cargo_binary_layout() {
    let out = Cargo::new().define("/tmp/proj", "proj", "MIT", "main", "org", "repo");
    let files = paths(&out);
    assert_eq!(files.len(), 24);
    assert!(files.contains(&"/tmp/proj/tests/proptest.rs".to_string()));
    assert!(files.contains(&"/tmp/proj/.github/workflows/proj-docker-application.yml".to_string()));
    assert_eq!(template_of(&out, "/tmp/proj/.github/workflows/proj.yml").unwrap(), "ci.github");
    assert_eq!(
        out.dirs,
        vec![
            "/tmp/proj",
            "/tmp/proj/.github",
            "/tmp/proj/.github/workflows",
            "/tmp/proj/docker",
            "/tmp/proj/.cargo",
            "/tmp/proj/xtask",
            "/tmp/proj/xtask/src",
            "/tmp/proj/xtask/src/utils",
            "/tmp/proj/tests",
        ]
    );
    assert_eq!(out.commands.len(), 2);
    assert_eq!(out.commands[0].args, vec!["init"]);
    assert_eq!(out.commands[0].path, "/tmp/proj");
    assert_eq!(out.commands[1].args, vec!["add", "--dev", "proptest", "--manifest-path"]);
    assert_eq!(out.commands[1].path, "/tmp/proj/Cargo.toml");
    assert_eq!(context_text(&out, "docker_image_description").unwrap(), "default");
    assert_layout(&out, "/tmp/proj");
}

#[test]
fn cargo_library_runs_init_lib() {
    let out = Cargo::new().create_lib().define("/tmp/l", "l", "MIT", "main", "", "");
    assert_eq!(out.commands[0].args, vec!["init", "--lib"]);
}

#[test]
fn cargo_ci_only() {
    let out = Cargo::new()
        .docker_image_description("description-docker")
        .only_ci()
        .define("/tmp/proj-ci", "proj-ci", "BSD-3-Clause", "main", "", "");
    let files = paths(&out);
    assert_eq!(files.len(), 23);
    assert!(!files.iter().any(|p| p.ends_with("proptest.rs")));
    assert!(files.contains(&"/tmp/proj-ci/.github/workflows/proj-ci.yml".to_string()));
    assert!(files.contains(&"/tmp/proj-ci/docker/Dockerfile-amd64".to_string()));
    assert!(out.commands.is_empty());
    assert_eq!(context_text(&out, "docker_image_description").unwrap(), "description-docker");
    assert_eq!(context_text(&out, "license_id").unwrap(), "BSD-3-Clause");
    assert_layout(&out, "/tmp/proj-ci");
}

#[test]
fn cargo_name_collision_keeps_one_entry() {
    let out = Cargo::new().only_ci().define("/r", "deploy", "MIT", "main", "", "");
    assert_eq!(paths(&out).len(), 22);
    assert_eq!(template_of(&out, "/r/.github/workflows/deploy.yml").unwrap(), "ci.github.deploy");
}

#[test]
fn default_docker_description() {
    assert_eq!(docker_description(None, "proj"), "proj description");
    assert_eq!(docker_description(Some("mine".to_string()), "proj"), "mine");
}

#[test]
fn meson_c_layout() {
    let out = Meson::new().kind(ProjectKind::C).define("/tmp/proj", "my-lib", "MIT", "main", "o", "r");
    let files = paths(&out);
    for f in [
        "/tmp/proj/lib/my_lib.c",
        "/tmp/proj/lib/my_lib.h",
        "/tmp/proj/cli/my_lib.c",
        "/tmp/proj/tests/my_lib.c",
        "/tmp/proj/meson.build",
        "/tmp/proj/.github/workflows/my_lib.yml",
    ] {
        assert!(files.contains(&f.to_string()), "{f} missing");
    }
    assert_eq!(files.len(), 14);
    assert_eq!(context_text(&out, "name").unwrap(), "my-lib");
    assert_eq!(context_text(&out, "exe").unwrap(), "c");
    assert_eq!(context_text(&out, "params").unwrap(), "c_std=c99");
    assert_eq!(context_text(&out, "organization").unwrap(), "o");
    assert_layout(&out, "/tmp/proj");
}

#[test]
fn meson_cpp_layout() {
    let out = Meson::new().kind(ProjectKind::Cxx).define("/p", "meson-cpp", "MIT", "main", "", "");
    assert!(paths(&out).contains(&"/p/lib/meson_cpp.cpp".to_string()));
    assert!(paths(&out).contains(&"/p/lib/meson_cpp.h".to_string()));
    assert_eq!(context_text(&out, "params").unwrap(), "cpp_std=c++11");
}

#[test]
fn meson_kinds_parse() {
    assert_eq!(project_kind("c"), Ok(ProjectKind::C));
    assert_eq!(project_kind("c++"), Ok(ProjectKind::Cxx));
    assert_eq!(project_kind("rust"), Err("rust is not a valid meson project kind.".to_string()));
    assert_eq!(ProjectKind::default(), ProjectKind::C);
}

#[test]
fn maven_layout() {
    let out = Maven::new().group("POL").define("/tmp/maven", "Myprog", "BSD-1-Clause", "main", "", "");
    let files = paths(&out);
    assert!(files.contains(&"/tmp/maven/src/main/java/POL/Myprog/Entry.java".to_string()));
    assert!(files.contains(&"/tmp/maven/src/test/java/POL/Myprog/example/Example.java".to_string()));
    assert_eq!(template_of(&out, "/tmp/maven/LICENSE.md").unwrap(), "build.license");
    assert_eq!(files.len(), 8);
    assert_eq!(context_text(&out, "group").unwrap(), "POL");
    assert_eq!(Maven::new().group, "group");
    assert_layout(&out, "/tmp/maven");
}

#[test]
fn poetry_layout() {
    let out = Poetry::new().define("/tmp/poetry", "Myprog", "MIT", "main", "", "");
    let files = paths(&out);
    assert!(files.contains(&"/tmp/poetry/Myprog/tests/__init__.py".to_string()));
    assert!(files.contains(&"/tmp/poetry/Myprog/__main__.py".to_string()));
    assert!(out.dirs.contains(&"/tmp/poetry/Myprog/data".to_string()));
    assert_eq!(files.len(), 10);
    assert_layout(&out, "/tmp/poetry");
}

#[test]
fn yarn_layout() {
    let out = Yarn::new().define("/tmp/yarn", "yarn-javascript", "MIT", "main", "", "");
    assert_eq!(
        paths(&out),
        vec![
            "/tmp/yarn/README.md",
            "/tmp/yarn/.github/dependabot.yml",
            "/tmp/yarn/.gitlab-ci.yml",
            "/tmp/yarn/.github/workflows/yarn-javascript.yml",
        ]
    );
    assert_eq!(out.dirs, vec!["/tmp/yarn", "/tmp/yarn/.github", "/tmp/yarn/.github/workflows"]);
    assert_layout(&out, "/tmp/yarn");
}
