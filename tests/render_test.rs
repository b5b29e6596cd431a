use ci_generate::cargo::Cargo;
use ci_generate::error::Error;
use ci_generate::maven::Maven;
use ci_generate::meson::{Meson, ProjectKind};
use ci_generate::poetry::Poetry;
use ci_generate::yarn::Yarn;
use ci_generate::{CreateCi, CreateProject, Scaffold, TemplateData};

const CARGO_IDS: &[&str] = &[
    "md.README", "ci.github", "ci.github.deploy", "ci.github.docker", "ci.github.dependabot",
    "docker.amd64", "docker.arm64", "rs.proptest", "xtask.config", "xtask.toml",
    "xtask.src.books", "xtask.src.dependencies", "xtask.src.logging", "xtask.src.main",
    "xtask.src.publish", "xtask.src.runchecks", "xtask.src.vulnerabilities",
    "xtask.src.utils.cargo", "xtask.src.utils.mdbook", "xtask.src.utils.mod",
    "xtask.src.utils.process", "xtask.src.utils.rustup", "xtask.src.utils.time",
    "xtask.src.utils.workspace",
];
const MESON_IDS: &[&str] = &[
    "build.root", "build.cli", "build.lib", "build.test", "source.lib", "source.bin",
    "source.test", "header", "Dockerfile", "docker.compose", "run.tests", "md.README",
    "ci.github", "ci.github.dependabot",
];
const MAVEN_IDS: &[&str] = &[
    "java.entry", "java.example", "xml.pom", "xml.checkstyle", "md.README", "ci.github",
    "ci.github.dependabot",
];
const POETRY_IDS: &[&str] = &[
    "toml.pyproject", "yaml.pre-commit", "md.README", "py.__init__", "py.__main__", "py.test",
    "ci.github", "ci.github.dependabot",
];
const YARN_IDS: &[&str] = &["md.README", "ci.gitlab", "ci.github", "ci.github.dependabot"];

fn table(ids: &[&str]) -> Vec<(String, String)> {
    ids.iter()
        .map(|id| (id.to_string(), format!("{id} for {{{{ name }}}} on {{{{ branch }}}}")))
        .collect()
}

fn file<'a>(s: &'a Scaffold, path: &str) -> Option<&'a str> {
    s.files.iter().find(|(p, _)| p == path).map(|(_, t)| t.as_str())
}

#[test]
fn meson_c_scenario() {
    let data = TemplateData::new("/tmp/proj", "my-lib", "", "").license("MIT").branch("main");
    let s = Meson::new().kind(ProjectKind::C).create_project(&data, table(MESON_IDS)).unwrap();
    for f in [
        "/tmp/proj/lib/my_lib.c",
        "/tmp/proj/lib/my_lib.h",
        "/tmp/proj/cli/my_lib.c",
        "/tmp/proj/meson.build",
        "/tmp/proj/LICENSES/MIT.txt",
        "/tmp/proj/.reuse/dep5",
    ] {
        assert!(file(&s, f).is_some(), "{f} missing");
    }
    assert_eq!(s.files.len(), 16);
    assert_eq!(file(&s, "/tmp/proj/meson.build").unwrap(), "build.root for my-lib on main");
    let dep5 = file(&s, "/tmp/proj/.reuse/dep5").unwrap();
    assert!(dep5.contains("Upstream-Name: my-lib"));
    assert!(dep5.contains("License: MIT"));
    assert!(file(&s, "/tmp/proj/LICENSES/MIT.txt").unwrap().contains("Permission is hereby granted"));
    assert_eq!(&s.dirs[s.dirs.len() - 2..], &["/tmp/proj/.reuse", "/tmp/proj/LICENSES"]);
    assert!(s.commands.is_empty());
}

#[test]
fn cargo_ci_scenario() {
    let data = TemplateData::new("/tmp/proj-ci", "proj-ci", "", "").license("BSD-3-Clause");
    let s = Cargo::new().only_ci().create_ci(&data, table(CARGO_IDS)).unwrap();
    assert!(file(&s, "/tmp/proj-ci/.github/workflows/proj-ci.yml").is_some());
    assert!(file(&s, "/tmp/proj-ci/docker/Dockerfile-amd64").is_some());
    assert!(file(&s, "/tmp/proj-ci/LICENSES/BSD-3-Clause.txt").is_some());
    assert!(!s.files.iter().any(|(p, _)| p.ends_with("proptest.rs")));
    assert!(s.commands.is_empty());
}

#[test]
fn empty_license_writes_nothing() {
    let data = TemplateData::new("/tmp/proj", "proj", "", "").license("");
    assert!(matches!(Yarn::new().create_ci(&data, table(YARN_IDS)), Err(Error::NoLicense)));
}

#[test]
fn unknown_license_writes_nothing() {
    let data = TemplateData::new("/tmp/proj", "proj", "", "").license("NOT-A-LICENSE");
    assert!(matches!(
        Yarn::new().create_ci(&data, table(YARN_IDS)),
        Err(Error::InvalidLicense(_))
    ));
}

#[test]
fn name_is_derived_from_the_directory() {
    let data = TemplateData::new("/tmp/Desktop/MyProject", "", "", "");
    let s = Yarn::new().create_ci(&data, table(YARN_IDS)).unwrap();
    assert!(file(&s, "/tmp/Desktop/MyProject/.github/workflows/MyProject.yml").is_some());
    assert!(file(&s, "/tmp/Desktop/MyProject/.reuse/dep5").unwrap().contains("Upstream-Name: MyProject"));
}

#[test]
fn missing_template_is_an_engine_error() {
    let data = TemplateData::new("/tmp/proj", "proj", "", "");
    assert!(matches!(Yarn::new().create_ci(&data, table(&["md.README"])), Err(Error::Minijinja(_))));
}

#[test]
fn malformed_template_is_an_engine_error() {
    let data = TemplateData::new("/tmp/proj", "proj", "", "");
    let mut t = table(YARN_IDS);
    t[0].1 = "{% if %}".to_string();
    assert!(matches!(Yarn::new().create_ci(&data, t), Err(Error::Minijinja(_))));
}

#[test]
fn filters_reach_the_templates() {
    let data = TemplateData::new("/tmp/proj", "my-proj", "", "").license("Apache-2.0");
    let mut t = table(YARN_IDS);
    t[0].1 = "{{ name | hypens_to_underscores }}\n{{ license.header | comment_license(\"#\") }}".to_string();
    let s = Yarn::new().create_ci(&data, t).unwrap();
    let readme = file(&s, "/tmp/proj/README.md").unwrap();
    assert!(readme.starts_with("my_proj\n# "));
    assert!(readme.contains("# Licensed under the Apache License"));
}

#[test]
fn license_text_lines_reach_the_templates() {
    let data = TemplateData::new("/tmp/proj", "proj", "", "").license("MIT");
    let mut t = table(YARN_IDS);
    t[0].1 = "{{ license.id }}:{{ license.text | length }}:{{ license.text[0] }}".to_string();
    let s = Yarn::new().create_ci(&data, t).unwrap();
    let l = ci_generate::licensing::define_license("MIT").unwrap();
    let body = ci_generate::licensing::license_body(&l.text);
    assert_eq!(file(&s, "/tmp/proj/README.md").unwrap(), format!("MIT:{}:{}", body.len(), body[0]));
}

#[test]
fn test_yarn_project() {
    let data = TemplateData::new("tests/output/yarn_project", "yarn_project", "", "")
        .license("Apache-2.0");
    let s = Yarn::new().create_ci(&data, table(YARN_IDS)).unwrap();
    for f in [
        "tests/output/yarn_project/.github/workflows/yarn_project.yml",
        "tests/output/yarn_project/.reuse/dep5",
        "tests/output/yarn_project/LICENSES/Apache-2.0.txt",
        "tests/output/yarn_project/.gitlab-ci.yml",
        "tests/output/yarn_project/README.md",
    ] {
        assert!(file(&s, f).is_some(), "{f} missing");
    }
}

#[test]
fn test_poetry_project() {
    let data = TemplateData::new("tests/output/poetry_project", "Myprog", "", "")
        .license("BSD-1-Clause");
    let s = Poetry::new().create_project(&data, table(POETRY_IDS)).unwrap();
    for f in [
        "tests/output/poetry_project/.github/workflows/Myprog.yml",
        "tests/output/poetry_project/.reuse/dep5",
        "tests/output/poetry_project/LICENSES/BSD-1-Clause.txt",
        "tests/output/poetry_project/Myprog/tests/__init__.py",
        "tests/output/poetry_project/Myprog/tests/test_sum.py",
        "tests/output/poetry_project/Myprog/__init__.py",
        "tests/output/poetry_project/Myprog/__main__.py",
        "tests/output/poetry_project/.pre-commit-config.yaml",
        "tests/output/poetry_project/LICENSE.md",
        "tests/output/poetry_project/pyproject.toml",
        "tests/output/poetry_project/README.md",
    ] {
        assert!(file(&s, f).is_some(), "{f} missing");
    }
}

#[test]
fn test_meson_project() {
    let data = TemplateData::new("tests/output/meson_project", "meson_project", "", "")
        .license("APL-1.0");
    let s = Meson::new().create_project(&data, table(MESON_IDS)).unwrap();
    for f in [
        "tests/output/meson_project/.github/workflows/meson_project.yml",
        "tests/output/meson_project/.reuse/dep5",
        "tests/output/meson_project/cli/meson_project.c",
        "tests/output/meson_project/cli/meson.build",
        "tests/output/meson_project/lib/meson_project.c",
        "tests/output/meson_project/lib/meson_project.h",
        "tests/output/meson_project/lib/meson.build",
        "tests/output/meson_project/LICENSES/APL-1.0.txt",
        "tests/output/meson_project/tests/meson_project.c",
        "tests/output/meson_project/tests/meson.build",
        "tests/output/meson_project/docker-compose.yml",
        "tests/output/meson_project/Dockerfile",
        "tests/output/meson_project/meson.build",
        "tests/output/meson_project/README.md",
        "tests/output/meson_project/run_tests.sh",
    ] {
        assert!(file(&s, f).is_some(), "{f} missing");
    }
}

#[test]
fn test_maven_project() {
    let data = TemplateData::new("tests/output/maven_project", "Myprog", "", "")
        .license("BSD-1-Clause");
    let s = Maven::new().group("POL").create_project(&data, table(MAVEN_IDS)).unwrap();
    for f in [
        "tests/output/maven_project/.github/workflows/Myprog.yml",
        "tests/output/maven_project/.reuse/dep5",
        "tests/output/maven_project/LICENSES/BSD-1-Clause.txt",
        "tests/output/maven_project/src/main/java/POL/Myprog/Entry.java",
        "tests/output/maven_project/src/test/java/POL/Myprog/example/Example.java",
        "tests/output/maven_project/checkstyle.xml",
        "tests/output/maven_project/LICENSE.md",
        "tests/output/maven_project/pom.xml",
        "tests/output/maven_project/README.md",
    ] {
        assert!(file(&s, f).is_some(), "{f} missing");
    }
}

#[test]
fn test_cargo_project() {
    let data = TemplateData::new("tests/output/cargo_project", "Project", "", "")
        .license("EUPL-1.2");
    let s = Cargo::new().create_ci(&data, table(CARGO_IDS)).unwrap();
    for f in [
        "tests/output/cargo_project/.github/workflows/deploy.yml",
        "tests/output/cargo_project/.github/workflows/Project-docker-application.yml",
        "tests/output/cargo_project/.github/workflows/Project.yml",
        "tests/output/cargo_project/.reuse/dep5",
        "tests/output/cargo_project/docker/Dockerfile-amd64",
        "tests/output/cargo_project/docker/Dockerfile-arm64",
        "tests/output/cargo_project/LICENSES/EUPL-1.2.txt",
        "tests/output/cargo_project/README.md",
    ] {
        assert!(file(&s, f).is_some(), "{f} missing");
    }
    assert_eq!(s.commands.len(), 2);
}

fn tmp(name: &str) -> String {
    format!("/tmp/{name}")
}

#[test]
fn test_cargo_binary() {
    let path = tmp("cargo");
    let data = TemplateData::new(&path, "cargo-rust-binary", "SoftengPoliTo", "")
        .license("MIT")
        .branch("master");
    let s = Cargo::new()
        .docker_image_description("description-docker")
        .create_ci(&data, table(CARGO_IDS))
        .unwrap();
    assert_eq!(s.commands[0].args, vec!["init"]);
    assert_eq!(
        file(&s, &format!("{path}/.github/workflows/cargo-rust-binary.yml")).unwrap(),
        "ci.github for cargo-rust-binary on master"
    );
    assert!(file(&s, &format!("{path}/tests/proptest.rs")).is_some());
}

#[test]
fn test_cargo_library() {
    let path = tmp("cargo_library");
    let data = TemplateData::new(&path, "cargo-rust-library", "SoftengPoliTo", "")
        .license("MIT")
        .branch("main");
    let s = Cargo::new()
        .docker_image_description("description-docker")
        .create_lib()
        .create_ci(&data, table(CARGO_IDS))
        .unwrap();
    assert_eq!(s.commands[0].args, vec!["init", "--lib"]);
    assert!(file(&s, &format!("{path}/LICENSES/MIT.txt")).is_some());
}

#[test]
fn test_cargo_ci() {
    let path = tmp("cargo_ci");
    let data = TemplateData::new(&path, "cargo-rust-ci", "SoftengPoliTo", "")
        .license("MIT")
        .branch("main");
    let s = Cargo::new()
        .docker_image_description("description-docker")
        .only_ci()
        .create_ci(&data, table(CARGO_IDS))
        .unwrap();
    assert!(s.commands.is_empty());
    assert_eq!(s.files.len(), 25);
}

#[test]
fn test_maven() {
    let path = tmp("maven");
    let data = TemplateData::new(&path, "maven-java", "", "")
        .license("BSD-1-Clause")
        .branch("main");
    let s = Maven::new().group("POL").create_project(&data, table(MAVEN_IDS)).unwrap();
    assert!(file(&s, &format!("{path}/src/main/java/POL/maven-java/Entry.java")).is_some());
    assert!(file(&s, &format!("{path}/LICENSE.md")).unwrap().contains("Copyright (c) <year> <owner>"));
}

#[test]
fn test_meson_cpp() {
    let path = tmp("meson_cpp");
    let data = TemplateData::new(&path, "meson-cpp", "SoftengPoliTo", "test-meson-cpp")
        .license("BSD-1-Clause")
        .branch("main");
    let s = Meson::new().kind(ProjectKind::Cxx).create_project(&data, table(MESON_IDS)).unwrap();
    assert!(file(&s, &format!("{path}/lib/meson_cpp.cpp")).is_some());
    assert!(file(&s, &format!("{path}/cli/meson_cpp.cpp")).is_some());
}

#[test]
fn test_meson_c() {
    let path = tmp("meson_c");
    let data = TemplateData::new(&path, "meson-c", "SoftengPoliTo", "test-meson-c")
        .license("BSD-1-Clause")
        .branch("main");
    let s = Meson::new().kind(ProjectKind::C).create_project(&data, table(MESON_IDS)).unwrap();
    assert!(file(&s, &format!("{path}/lib/meson_c.c")).is_some());
    assert!(file(&s, &format!("{path}/lib/meson_c.h")).is_some());
}

#[test]
fn test_poetry() {
    let path = tmp("poetry");
    let data = TemplateData::new(&path, "poetry-python", "", "")
        .license("MIT")
        .branch("main");
    let s = Poetry::new().create_project(&data, table(POETRY_IDS)).unwrap();
    assert!(file(&s, &format!("{path}/poetry-python/__main__.py")).is_some());
    assert_eq!(s.files.len(), 12);
}

#[test]
fn test_yarn() {
    let path = tmp("yarn");
    let data = TemplateData::new(&path, "yarn-javascript", "SoftengPoliTo", "")
        .license("MIT")
        .branch("main");
    let s = Yarn::new().create_ci(&data, table(YARN_IDS)).unwrap();
    assert_eq!(s.files.len(), 6);
    assert!(file(&s, &format!("{path}/.gitlab-ci.yml")).is_some());
}
