use std::path::{Path, PathBuf};

use wasefire_tools::applet::{
    metadata, optimize_wasm, wasefire_feature, AppletError, BuildPlan, BuildStep, NewStep, Package,
    RustAppletBuild, RustAppletNew, RustAppletTest,
};
use wasefire_tools::command::{Arg, Base, CommandLine, File, Place};
use wasefire_tools::opt_level::OptLevel;
use wasefire_tools::steps::{next, Progress};

fn words(words: &[&str]) -> Vec<String> {
    words.iter().map(|x| x.to_string()).collect()
}

fn package(features: &[&str], dependencies: &[&str]) -> Package {
    Package {
        name: "my-cool-applet".to_string(),
        features: words(features),
        dependencies: words(dependencies),
    }
}

fn args(command: &CommandLine) -> Vec<String> {
    let mut result = vec![command.program.clone()];
    for arg in &command.args {
        result.push(match arg {
            Arg::Text(text) => text.clone(),
            Arg::File(File::Path(path)) => format!("<{}>", path.display()),
            Arg::File(File::Place(x)) => format!("<{}>", place(x).display()),
        });
    }
    result
}

fn env(command: &CommandLine) -> Vec<(String, String)> {
    command.env.clone()
}

fn var(name: &str, value: &str) -> (String, String) {
    (name.to_string(), value.to_string())
}

fn place(place: &Place) -> PathBuf {
    match &place.base {
        Base::Path(path) => path.join(&place.file),
        Base::Name(name) => Path::new(name).join(&place.file),
    }
}

fn wasm_package() -> Package {
    package(&[], &["wasefire"])
}

fn build() -> RustAppletBuild {
    RustAppletBuild { stack_size: 16384, ..RustAppletBuild::default() }
}

fn with_plan(build: &RustAppletBuild, check: impl FnOnce(&BuildPlan)) {
    let dir = PathBuf::from("project");
    let target_dir = PathBuf::from("out");
    match build.run(&wasm_package(), &dir, &target_dir) {
        Ok(plan) => {
            assert_eq!(plan.cargo.dir, Some(&dir));
            check(&plan)
        }
        Err(error) => panic!("{:?}", error),
    }
}

/// Creates the project, where the step at this index fails.
fn create(new: &RustAppletNew, failing: usize) -> (Vec<String>, Result<(), usize>) {
    let mut done = Vec::new();
    let mut progress = new.run();
    loop {
        progress = match progress {
            Progress::Next { step, rest } => {
                let index = done.len();
                match step {
                    NewStep::Execute(command) => {
                        assert!(command.env.is_empty());
                        let dir = command.dir.map(|x| format!("{}: ", x.display()));
                        let dir = dir.unwrap_or_default();
                        done.push(format!("{dir}{}", args(&command).join(" ")));
                    }
                    NewStep::Remove(x) => done.push(format!("remove {}", place(&x).display())),
                    NewStep::WriteTemplate(x) => {
                        done.push(format!("write {}", place(&x).display()))
                    }
                }
                next(rest, if index == failing { Err(index) } else { Ok(()) })
            }
            Progress::Done(result) => return (done, result),
        }
    }
}

/// Runs the commands, where the one at this index fails.
fn execute<'a>(
    mut progress: Progress<CommandLine<'a>, &'static str>,
    failing: Option<usize>,
) -> (Vec<CommandLine<'a>>, Result<(), &'static str>) {
    let mut done = Vec::new();
    loop {
        progress = match progress {
            Progress::Next { step, rest } => {
                let outcome = if failing == Some(done.len()) { Err("command") } else { Ok(()) };
                done.push(step);
                next(rest, outcome)
            }
            Progress::Done(result) => return (done, result),
        }
    }
}

#[test]
fn project_needs_exactly_one_package() {
    assert_eq!(metadata(vec![wasm_package()]).ok().unwrap().name, "my-cool-applet");
    assert_eq!(metadata(vec![]).err(), Some(AppletError::PackageCount));
    let two = vec![wasm_package(), wasm_package()];
    assert_eq!(metadata(two).err(), Some(AppletError::PackageCount));
}

#[test]
fn errors_have_messages() {
    assert_eq!(AppletError::PackageCount.message(), "not exactly one package");
    assert_eq!(AppletError::MissingTestFeature.message(), "missing test feature");
    assert_eq!(AppletError::MissingDependency.message(), "wasefire must be a direct dependency");
}

#[test]
fn own_feature_comes_first() {
    let mut cargo = CommandLine::new("cargo");
    let package = package(&["default", "wasm"], &["wasefire"]);
    assert_eq!(wasefire_feature(&package, "wasm", &mut cargo), Ok(()));
    assert_eq!(args(&cargo), ["cargo", "--features=wasm"]);
}

#[test]
fn dependency_has_the_feature_otherwise() {
    let mut cargo = CommandLine::new("cargo");
    let package = package(&["wasm"], &["foo", "wasefire"]);
    assert_eq!(wasefire_feature(&package, "native", &mut cargo), Ok(()));
    assert_eq!(args(&cargo), ["cargo", "--features=wasefire/native"]);
}

#[test]
fn dependency_must_be_direct() {
    let mut cargo = CommandLine::new("cargo");
    let package = package(&["native"], &["wasefire-stub"]);
    let error = AppletError::MissingDependency;
    assert_eq!(wasefire_feature(&package, "wasm", &mut cargo), Err(error));
    assert_eq!(args(&cargo), ["cargo"]);
    let dir = PathBuf::from("project");
    assert_eq!(build().run(&package, &dir, &dir).err(), Some(error));
}

#[test]
fn project_is_created_in_order() {
    let new = RustAppletNew { path: PathBuf::from("foo"), name: Some("bar".to_string()) };
    let (done, result) = create(&new, 6);
    assert_eq!(result, Ok(()));
    assert_eq!(done, [
        "cargo new --lib <foo> --name=bar",
        "foo: cargo add wasefire",
        "foo: cargo add wasefire-stub --optional",
        r##"foo: sed -i s#^wasefire-stub\( = ."dep:wasefire-stub"\)#test\1, "wasefire/test"# Cargo.toml"##,
        "remove foo/src/lib.rs",
        "write foo/src/lib.rs",
    ]);
}

#[test]
fn project_name_is_optional() {
    let new = RustAppletNew { path: PathBuf::from("foo"), name: None };
    let (done, result) = create(&new, 6);
    assert_eq!(result, Ok(()));
    assert_eq!(done.len(), 6);
    assert_eq!(done[0], "cargo new --lib <foo>");
}

#[test]
fn creation_ends_with_the_first_failure() {
    let new = RustAppletNew { path: PathBuf::from("foo"), name: None };
    let (all, _) = create(&new, 6);
    for failing in 0 .. 6 {
        let (done, result) = create(&new, failing);
        assert_eq!(result, Err(failing));
        assert_eq!(done, all[..= failing]);
    }
}

#[test]
fn nothing_is_written_if_the_library_is_not_removed() {
    let new = RustAppletNew { path: PathBuf::from("foo"), name: None };
    let (done, result) = create(&new, 4);
    assert_eq!(result, Err(4));
    assert_eq!(done.last().unwrap(), "remove foo/src/lib.rs");
    let (done, result) = create(&new, 5);
    assert_eq!(result, Err(5));
    assert_eq!(done.last().unwrap(), "write foo/src/lib.rs");
}

#[test]
fn default_build_asks_for_nothing() {
    let build = RustAppletBuild::default();
    assert!(!build.prod);
    assert!(build.native.is_none());
    assert!(build.output.is_none());
    assert!(build.profile.is_none());
    assert!(build.opt_level.is_none());
    assert_eq!(build.stack_size, 0);
    assert!(build.cargo.is_empty());
}

#[test]
fn wasm_applet_is_built() {
    with_plan(&build(), |plan| {
        assert_eq!(args(&plan.cargo), [
            "cargo",
            "rustc",
            "--lib",
            "--config=profile.release.codegen-units=1",
            "--config=profile.release.lto=true",
            "--config=profile.release.panic=\"abort\"",
            "--crate-type=cdylib",
            "--target=wasm32-unknown-unknown",
            "--features=wasefire/wasm",
            "--profile=release",
        ]);
        assert_eq!(env(&plan.cargo), [
            var("WASEFIRE_DEBUG", ""),
            var(
                "RUSTFLAGS",
                "-C link-arg=-zstack-size=16384 -C target-feature=+bulk-memory",
            ),
        ]);
        assert_eq!(
            place(&plan.artifact),
            Path::new("out/wasm32-unknown-unknown/release/my_cool_applet.wasm")
        );
        assert_eq!(place(&plan.applet), Path::new("target/wasefire/applet.wasm"));
    });
}

#[test]
fn native_applet_is_built_for_production() {
    let build = RustAppletBuild {
        prod: true,
        native: Some("thumbv7em-none-eabi".to_string()),
        output: Some(PathBuf::from("there")),
        profile: Some("tiny".to_string()),
        opt_level: Some(OptLevel::Oz),
        stack_size: 1,
        cargo: words(&["--features=foo", "--verbose"]),
    };
    with_plan(&build, |plan| {
        assert_eq!(args(&plan.cargo), [
            "cargo",
            "rustc",
            "--lib",
            "--config=profile.release.codegen-units=1",
            "--config=profile.release.lto=true",
            "--config=profile.release.panic=\"abort\"",
            "--crate-type=staticlib",
            "--target=thumbv7em-none-eabi",
            "--features=wasefire/native",
            "--profile=tiny",
            "--config=profile.tiny.opt-level=\"z\"",
            "--features=foo",
            "--verbose",
            "-Zbuild-std=core,alloc",
            "-Zbuild-std-features=panic_immediate_abort,optimize_for_size",
        ]);
        assert_eq!(env(&plan.cargo), [var("RUSTFLAGS", "")]);
        assert_eq!(
            place(&plan.artifact),
            Path::new("out/thumbv7em-none-eabi/tiny/libmy_cool_applet.a")
        );
        assert_eq!(place(&plan.applet), Path::new("there/libapplet.a"));
    });
}

#[test]
fn only_size_levels_optimize_the_library_for_size() {
    for opt_level in [None, Some(OptLevel::O0), Some(OptLevel::O3)] {
        let build = RustAppletBuild { prod: true, opt_level, ..build() };
        with_plan(&build, |plan| {
            let last = args(&plan.cargo).pop().unwrap();
            assert_eq!(last, "-Zbuild-std-features=panic_immediate_abort");
        });
    }
}

#[test]
fn digit_levels_are_not_quoted() {
    let build = RustAppletBuild { opt_level: Some(OptLevel::O2), ..build() };
    with_plan(&build, |plan| {
        let last = args(&plan.cargo).pop().unwrap();
        assert_eq!(last, "--config=profile.release.opt-level=2");
    });
}

#[test]
fn production_disables_debugging() {
    for prod in [false, true] {
        with_plan(&RustAppletBuild { prod, ..build() }, |plan| {
            let debug = plan.cargo.env.iter().any(|x| x.0 == "WASEFIRE_DEBUG");
            assert_eq!(debug, !prod);
        });
    }
}

#[test]
fn profile_defaults_to_release() {
    let release = RustAppletBuild { profile: Some("release".to_string()), ..build() };
    with_plan(&build(), |a| {
        with_plan(&release, |b| {
            assert_eq!(args(&a.cargo), args(&b.cargo));
            assert_eq!(env(&a.cargo), env(&b.cargo));
            assert_eq!(place(&a.artifact), place(&b.artifact));
            assert_eq!(place(&a.applet), place(&b.applet));
        })
    });
}

#[test]
fn native_ignores_stack_size() {
    let native = |stack_size| RustAppletBuild {
        native: Some("t".to_string()),
        stack_size,
        ..build()
    };
    with_plan(&native(0), |a| {
        with_plan(&native(4096), |b| {
            assert_eq!(args(&a.cargo), args(&b.cargo));
            assert_eq!(env(&a.cargo), env(&b.cargo));
        })
    });
}

#[test]
fn output_changes_only_the_copy() {
    let there = RustAppletBuild { output: Some(PathBuf::from("there")), ..build() };
    with_plan(&build(), |a| {
        with_plan(&there, |b| {
            assert_eq!(args(&a.cargo), args(&b.cargo));
            assert_eq!(env(&a.cargo), env(&b.cargo));
            assert_eq!(place(&a.artifact), place(&b.artifact));
            assert_eq!(place(&a.applet), Path::new("target/wasefire/applet.wasm"));
            assert_eq!(place(&b.applet), Path::new("there/applet.wasm"));
        })
    });
}

#[test]
fn extra_arguments_are_passed_on() {
    let build = RustAppletBuild { cargo: words(&["-v", "", "--x=y"]), ..build() };
    with_plan(&build, |plan| {
        assert_eq!(args(&plan.cargo)[10 ..], ["-v", "", "--x=y"]);
    });
    let extra = RustAppletBuild { prod: true, opt_level: Some(OptLevel::O1), ..build };
    let bare = RustAppletBuild {
        cargo: vec![],
        native: None,
        output: None,
        profile: None,
        ..extra
    };
    with_plan(&extra, |a| {
        with_plan(&bare, |b| {
            let (a, b) = (args(&a.cargo), args(&b.cargo));
            assert_eq!(b[10], "--config=profile.release.opt-level=1");
            assert_eq!(a[.. 11], b[.. 11]);
            assert_eq!(a[11 .. 14], ["-v", "", "--x=y"]);
            assert_eq!(a[14 ..], b[11 ..]);
        })
    });
}

#[test]
fn artifact_follows_target_and_profile() {
    let build = RustAppletBuild {
        native: Some("riscv32".to_string()),
        profile: Some("p".to_string()),
        ..build()
    };
    with_plan(&build, |plan| {
        assert!(args(&plan.cargo).contains(&"--target=riscv32".to_string()));
        assert!(args(&plan.cargo).contains(&"--profile=p".to_string()));
        assert!(plan.artifact.file.starts_with("riscv32/p/"));
    });
}

#[test]
fn only_changed_wasm_is_optimized() {
    let native = RustAppletBuild { native: Some("t".to_string()), ..build() };
    for (build, changed, count) in
        [(&build(), true, 2), (&build(), false, 0), (&native, true, 0), (&native, false, 0)]
    {
        let (done, result) = execute(build.copied(Ok(changed)), None);
        assert_eq!(done.len(), count);
        assert_eq!(result, Ok(()));
    }
    let small = RustAppletBuild { opt_level: Some(OptLevel::Os), ..build() };
    let (done, _) = execute(small.copied(Ok(true)), None);
    assert!(args(&done[1]).contains(&"-Os".to_string()));
}

#[test]
fn failed_build_copies_nothing() {
    let dir = PathBuf::from("project");
    let build = build();
    let package = wasm_package();
    match build.run(&package, &dir, &dir).ok().unwrap().executed(Err("cargo")) {
        BuildStep::Failed(error) => assert_eq!(error, "cargo"),
        BuildStep::Copy { .. } => panic!(),
    }
    match build.run(&package, &dir, &dir).ok().unwrap().executed(Ok::<(), &str>(())) {
        BuildStep::Failed(_) => panic!(),
        BuildStep::Copy { artifact, applet } => {
            let file = "project/wasm32-unknown-unknown/release/my_cool_applet.wasm";
            assert_eq!(place(&artifact), Path::new(file));
            assert_eq!(place(&applet), Path::new("target/wasefire/applet.wasm"));
        }
    }
}

#[test]
fn copied_file_is_optimized() {
    let there = RustAppletBuild { output: Some(PathBuf::from("there")), ..build() };
    for (build, file) in
        [(&build(), "<target/wasefire/applet.wasm>"), (&there, "<there/applet.wasm>")]
    {
        let (done, result) = execute(build.copied(Ok(true)), None);
        assert_eq!(result, Ok(()));
        assert_eq!(args(&done[0]), ["wasm-strip", file]);
        assert_eq!(args(&done[1])[5 ..], [file, "-o", file]);
        with_plan(build, |plan| {
            assert_eq!(format!("<{}>", place(&plan.applet).display()), file);
        });
    }
}

#[test]
fn build_ends_as_its_copy_and_optimization() {
    let native = RustAppletBuild { native: Some("t".to_string()), ..build() };
    for build in [&build(), &native] {
        let (done, result) = execute(build.copied(Err("copy")), None);
        assert!(done.is_empty());
        assert_eq!(result, Err("copy"));
    }
    for (failing, count) in [(0, 1), (1, 2)] {
        let build = build();
        let (done, result) = execute(build.copied(Ok(true)), Some(failing));
        assert_eq!(done.len(), count);
        assert_eq!(result, Err("command"));
    }
}

#[test]
fn optimization_ends_with_the_first_failure() {
    let applet = PathBuf::from("a.wasm");
    let (done, result) = execute(optimize_wasm(File::Path(&applet), None), Some(0));
    assert_eq!(done.len(), 1);
    assert_eq!(done[0].program, "wasm-strip");
    assert_eq!(result, Err("command"));
    let (done, result) = execute(optimize_wasm(File::Path(&applet), None), Some(1));
    assert_eq!(done.len(), 2);
    assert_eq!(done[1].program, "wasm-opt");
    assert_eq!(result, Err("command"));
}

#[test]
fn wasm_is_stripped_and_optimized() {
    let applet = PathBuf::from("a.wasm");
    for (opt_level, option) in [
        (None, "-O"),
        (Some(OptLevel::O0), "-O0"),
        (Some(OptLevel::O3), "-O3"),
        (Some(OptLevel::Os), "-Os"),
        (Some(OptLevel::Oz), "-Oz"),
    ] {
        let (commands, result) = execute(optimize_wasm(File::Path(&applet), opt_level), None);
        assert_eq!(result, Ok(()));
        assert_eq!(commands.len(), 2);
        assert_eq!(args(&commands[0]), ["wasm-strip", "<a.wasm>"]);
        assert_eq!(args(&commands[1]), [
            "wasm-opt",
            "--enable-bulk-memory",
            "--enable-sign-ext",
            "--enable-mutable-globals",
            option,
            "<a.wasm>",
            "-o",
            "<a.wasm>",
        ]);
        assert!(commands.iter().all(|x| x.env.is_empty() && x.dir.is_none()));
    }
}

#[test]
fn tests_need_their_feature() {
    let test = RustAppletTest { cargo: words(&["--features=foo"]) };
    let dir = PathBuf::from("project");
    match test.run(&package(&["test"], &[]), &dir) {
        Ok(command) => {
            assert_eq!(args(&command), ["cargo", "test", "--features=test", "--features=foo"]);
            assert!(command.env.is_empty());
            assert_eq!(command.dir, Some(&dir));
        }
        Err(error) => panic!("{:?}", error),
    }
    let missing = test.run(&package(&["tests"], &["wasefire"]), &dir);
    assert_eq!(missing.err(), Some(AppletError::MissingTestFeature));
}
