//! Rust applets: their projects, builds and tests.
use crate::command::{
    ArgView, Base, BaseView, CommandLine, CommandView, File, FileView, Place, PlaceView,
};
use crate::opt_level::OptLevel;
use crate::steps::{Progress, ProgressView};
use std::path::PathBuf;
use vstd::prelude::*;

verus! {

/// A package, as far as a build depends on it.
pub struct Package {
    /// Its name.
    pub name: String,
    /// The names of its features.
    pub features: Vec<String>,
    /// The names of its direct dependencies.
    pub dependencies: Vec<String>,
}

impl Package {
    /// Whether the package has the feature.
    pub open spec fn has_feature(self, feature: Seq<char>) -> bool {
        crate::text::texts(self.features@).contains(feature)
    }

    /// Whether the package depends on the other one directly.
    pub open spec fn depends_on(self, name: Seq<char>) -> bool {
        crate::text::texts(self.dependencies@).contains(name)
    }

    /// The argument that enables a feature of the applet API: the feature of that name
    /// of the package itself, or else that of its dependency.
    pub open spec fn feature_arg(self, feature: Seq<char>) -> Option<Seq<char>> {
        if self.has_feature(feature) {
            Some("--features="@ + feature)
        } else if self.depends_on("wasefire"@) {
            Some("--features=wasefire/"@ + feature)
        } else {
            None
        }
    }
}

/// Why an action on an applet project is refused.
#[derive(Debug, Clone, Copy, PartialEq, Eq, Structural)]
pub enum AppletError {
    /// The project has no package or several.
    PackageCount,
    /// The package lacks the feature to test it.
    MissingTestFeature,
    /// The package does not depend on the applet API directly.
    MissingDependency,
}

impl AppletError {
    /// The message of the error.
    pub open spec fn spec_message(self) -> Seq<char> {
        match self {
            AppletError::PackageCount => "not exactly one package"@,
            AppletError::MissingTestFeature => "missing test feature"@,
            AppletError::MissingDependency => "wasefire must be a direct dependency"@,
        }
    }

    /// Returns the message of the error.
    pub fn message(self) -> (message: &'static str)
        ensures
            message@ == self.spec_message(),
    {
        match self {
            AppletError::PackageCount => "not exactly one package",
            AppletError::MissingTestFeature => "missing test feature",
            AppletError::MissingDependency => "wasefire must be a direct dependency",
        }
    }
}

/// Takes the package of a project that has exactly one.
pub fn metadata(packages: Vec<Package>) -> (r: Result<Package, AppletError>)
    ensures
        r == (if packages@.len() == 1 {
            Ok(packages@[0])
        } else {
            Err::<Package, AppletError>(AppletError::PackageCount)
        }),
{
    let mut packages = packages;
    if packages.len() != 1 {
        return Err(AppletError::PackageCount);
    }
    match packages.pop() {
        Some(package) => Ok(package),
        None => Err(AppletError::PackageCount),
    }
}

/// Enables a feature of the applet API for a cargo command.
pub fn wasefire_feature<'a>(
    package: &Package,
    feature: &str,
    cargo: &mut CommandLine<'a>,
) -> (r: Result<(), AppletError>)
    ensures
        match package.feature_arg(feature@) {
            Some(arg) => r is Ok && final(cargo)@ == old(cargo)@.arg(arg),
            None => r == Err::<(), AppletError>(AppletError::MissingDependency) && *final(cargo)
                == *old(cargo),
        },
{
    if crate::text::contains(&package.features, feature) {
        cargo.arg("--features=".to_string().concat(feature).as_str());
    } else {
        if !crate::text::contains(&package.dependencies, "wasefire") {
            return Err(AppletError::MissingDependency);
        }
        cargo.arg("--features=wasefire/".to_string().concat(feature).as_str());
    }
    Ok(())
}

/// One step of the creation of a project.
pub enum NewStep<'a> {
    /// Run this command. It fails if the command does.
    Execute(CommandLine<'a>),
    /// Remove this file.
    Remove(Place<'a>),
    /// Write the applet template, and nothing else, to this file.
    WriteTemplate(Place<'a>),
}

/// What a step of the creation of a project is.
pub enum NewStepView {
    Execute(CommandView),
    Remove(PlaceView),
    WriteTemplate(PlaceView),
}

impl<'a> View for NewStep<'a> {
    type V = NewStepView;

    open spec fn view(&self) -> NewStepView {
        match *self {
            NewStep::Execute(command) => NewStepView::Execute(command@),
            NewStep::Remove(place) => NewStepView::Remove(place@),
            NewStep::WriteTemplate(place) => NewStepView::WriteTemplate(place@),
        }
    }
}

/// Creates a new Rust applet project.
pub struct RustAppletNew {
    /// Where to create the applet project.
    pub path: PathBuf,
    /// Name of the applet project (defaults to the directory name).
    pub name: Option<String>,
}

impl RustAppletNew {
    /// The command that creates the project.
    pub open spec fn create(self) -> CommandView {
        let cargo = CommandView::of("cargo"@).arg("new"@).arg("--lib"@).file(
            FileView::Path(self.path),
        );
        match self.name {
            Some(name) => cargo.arg("--name="@ + name@),
            None => cargo,
        }
    }

    /// The library file of the project.
    pub open spec fn library(self) -> PlaceView {
        PlaceView { base: BaseView::Path(self.path), file: "src/lib.rs"@ }
    }

    /// All steps of the creation, in order.
    pub open spec fn steps(self) -> Seq<NewStepView> {
        seq![
            NewStepView::Execute(self.create()),
            NewStepView::Execute(
                CommandView::of("cargo"@).arg("add"@).arg("wasefire"@).current_dir(self.path),
            ),
            NewStepView::Execute(
                CommandView::of("cargo"@).arg("add"@).arg("wasefire-stub"@).arg(
                    "--optional"@,
                ).current_dir(self.path),
            ),
            NewStepView::Execute(
                CommandView::of("sed"@).arg("-i"@).arg(
                    "s#^wasefire-stub\\( = .\"dep:wasefire-stub\"\\)#test\\1, \"wasefire/test\"#"@,
                ).arg("Cargo.toml"@).current_dir(self.path),
            ),
            NewStepView::Remove(self.library()),
            NewStepView::WriteTemplate(self.library()),
        ]
    }

    /// Starts to create the project: returns the first step. What follows it is decided by
    /// `next`, from the steps that are left and the outcome of the step.
    pub fn run<E>(&self) -> (progress: Progress<NewStep<'_>, E>)
        ensures
            progress@ == crate::steps::after(self.steps(), Ok::<(), E>(())),
    {
        let mut steps: Vec<NewStep<'_>> = Vec::new();
        let mut cargo = CommandLine::new("cargo");
        cargo.arg("new");
        cargo.arg("--lib");
        cargo.file(File::Path(&self.path));
        if let Some(name) = &self.name {
            cargo.arg("--name=".to_string().concat(name.as_str()).as_str());
        }
        steps.push(NewStep::Execute(cargo));
        let mut cargo = CommandLine::new("cargo");
        cargo.arg("add");
        cargo.arg("wasefire");
        cargo.current_dir(&self.path);
        steps.push(NewStep::Execute(cargo));
        let mut cargo = CommandLine::new("cargo");
        cargo.arg("add");
        cargo.arg("wasefire-stub");
        cargo.arg("--optional");
        cargo.current_dir(&self.path);
        steps.push(NewStep::Execute(cargo));
        let mut sed = CommandLine::new("sed");
        sed.arg("-i");
        sed.arg("s#^wasefire-stub\\( = .\"dep:wasefire-stub\"\\)#test\\1, \"wasefire/test\"#");
        sed.arg("Cargo.toml");
        sed.current_dir(&self.path);
        steps.push(NewStep::Execute(sed));
        steps.push(
            NewStep::Remove(
                Place { base: Base::Path(&self.path), file: "src/lib.rs".to_string() },
            ),
        );
        steps.push(
            NewStep::WriteTemplate(
                Place { base: Base::Path(&self.path), file: "src/lib.rs".to_string() },
            ),
        );
        assert(crate::steps::views(steps@) =~= self.steps());
        crate::steps::next(steps, Ok(()))
    }
}

/// Builds a Rust applet from its project.
pub struct RustAppletBuild {
    /// Builds for production, disabling debugging facilities.
    pub prod: bool,
    /// Builds a native applet for this target.
    pub native: Option<String>,
    /// Copies the final artifacts to this directory instead of target/wasefire.
    pub output: Option<PathBuf>,
    /// Cargo profile, defaults to release.
    pub profile: Option<String>,
    /// Optimization level.
    pub opt_level: Option<OptLevel>,
    /// Stack size (ignored for native applets).
    pub stack_size: usize,
    /// Extra arguments to cargo.
    pub cargo: Vec<String>,
}

impl Default for RustAppletBuild {
    /// Nothing is asked for, and the stack has no room.
    fn default() -> (build: RustAppletBuild)
        ensures
            !build.prod,
            build.native is None,
            build.output is None,
            build.profile is None,
            build.opt_level is None,
            build.stack_size == 0,
            build.cargo@ == Seq::<String>::empty(),
    {
        RustAppletBuild {
            prod: false,
            native: None,
            output: None,
            profile: None,
            opt_level: None,
            stack_size: 0,
            cargo: Vec::new(),
        }
    }
}

/// How to build an applet.
pub struct BuildPlan<'a> {
    /// The command that builds it. Its outcome is for `BuildPlan::executed`.
    pub cargo: CommandLine<'a>,
    /// The file that the command makes.
    pub artifact: Place<'a>,
    /// The file to copy it to, if it changed.
    pub applet: Place<'a>,
}

/// What a plan to build an applet is.
pub struct BuildPlanView {
    pub cargo: CommandView,
    pub artifact: PlaceView,
    pub applet: PlaceView,
}

impl<'a> View for BuildPlan<'a> {
    type V = BuildPlanView;

    open spec fn view(&self) -> BuildPlanView {
        BuildPlanView {
            cargo: self.cargo@,
            artifact: self.artifact@,
            applet: self.applet@,
        }
    }
}

/// What to do once the command of a build was run.
pub enum BuildStep<'a, E> {
    /// Copy the artifact to the applet, if it changed, and hand the outcome, which says
    /// whether it did, to `RustAppletBuild::copied`.
    Copy {
        /// The file that the command made.
        artifact: Place<'a>,
        /// The file to copy it to.
        applet: Place<'a>,
    },
    /// The build failed.
    Failed(E),
}

/// What a step of a build is.
pub enum BuildStepView<E> {
    Copy { artifact: PlaceView, applet: PlaceView },
    Failed(E),
}

impl<'a, E> View for BuildStep<'a, E> {
    type V = BuildStepView<E>;

    open spec fn view(&self) -> BuildStepView<E> {
        match *self {
            BuildStep::Copy { artifact, applet } => BuildStepView::Copy {
                artifact: artifact@,
                applet: applet@,
            },
            BuildStep::Failed(error) => BuildStepView::Failed(error),
        }
    }
}

impl BuildPlanView {
    /// How the build goes on once its command was run: with the copy, unless it failed.
    pub open spec fn after<E>(self, executed: Result<(), E>) -> BuildStepView<E> {
        match executed {
            Ok(_) => BuildStepView::Copy { artifact: self.artifact, applet: self.applet },
            Err(error) => BuildStepView::Failed(error),
        }
    }
}

impl<'a> BuildPlan<'a> {
    /// Goes on with the build once its command was run.
    pub fn executed<E>(self, executed: Result<(), E>) -> (step: BuildStep<'a, E>)
        ensures
            step@ == self@.after(executed),
    {
        match executed {
            Ok(()) => BuildStep::Copy { artifact: self.artifact, applet: self.applet },
            Err(error) => BuildStep::Failed(error),
        }
    }
}

impl RustAppletBuild {
    /// The feature of the applet API that the build needs.
    pub open spec fn feature(self) -> Seq<char> {
        if self.native is None {
            "wasm"@
        } else {
            "native"@
        }
    }

    /// The profile to build with.
    pub open spec fn profile_name(self) -> Seq<char> {
        match self.profile {
            Some(profile) => profile@,
            None => "release"@,
        }
    }

    /// The arguments that say what to make, and for which target.
    pub open spec fn target_args(self) -> Seq<Seq<char>> {
        match self.native {
            None => seq!["--crate-type=cdylib"@, "--target=wasm32-unknown-unknown"@],
            Some(target) => seq!["--crate-type=staticlib"@, "--target="@ + target@],
        }
    }

    /// The arguments that say how to optimize.
    pub open spec fn opt_args(self) -> Seq<Seq<char>> {
        match self.opt_level {
            Some(level) => seq![
                "--config=profile."@ + self.profile_name() + ".opt-level="@ + level.shown(false),
            ],
            None => seq![],
        }
    }

    /// The arguments of a build for production.
    pub open spec fn prod_args(self) -> Seq<Seq<char>> {
        if self.prod {
            seq![
                "-Zbuild-std=core,alloc"@,
                match self.opt_level {
                    Some(level) if level.for_size() =>
                        "-Zbuild-std-features=panic_immediate_abort"@ + ",optimize_for_size"@,
                    _ => "-Zbuild-std-features=panic_immediate_abort"@,
                },
            ]
        } else {
            seq![]
        }
    }

    /// The arguments before the extra ones, given the one that enables the feature.
    pub open spec fn leading_args(self, feature_arg: Seq<char>) -> Seq<Seq<char>> {
        seq![
            "rustc"@,
            "--lib"@,
            "--config=profile.release.codegen-units=1"@,
            "--config=profile.release.lto=true"@,
            "--config=profile.release.panic=\"abort\""@,
        ] + self.target_args() + seq![feature_arg, "--profile="@ + self.profile_name()]
            + self.opt_args()
    }

    /// All arguments to cargo, given the one that enables the feature.
    pub open spec fn args(self, feature_arg: Seq<char>) -> Seq<Seq<char>> {
        self.leading_args(feature_arg) + crate::text::texts(self.cargo@) + self.prod_args()
    }

    /// The flags to the compiler.
    pub open spec fn rustflags(self) -> Seq<char> {
        if self.native is None {
            "-C link-arg=-zstack-size="@ + crate::text::decimal(self.stack_size as nat) + " "@
                + "-C target-feature=+bulk-memory"@
        } else {
            seq![]
        }
    }

    /// The variables of the build: the flags, and one more unless it is for production.
    pub open spec fn env(self) -> Seq<(Seq<char>, Seq<char>)> {
        if self.prod {
            seq![("RUSTFLAGS"@, self.rustflags())]
        } else {
            seq![("WASEFIRE_DEBUG"@, ""@), ("RUSTFLAGS"@, self.rustflags())]
        }
    }

    /// The command that builds the applet in its directory.
    pub open spec fn command(self, feature_arg: Seq<char>, dir: PathBuf) -> CommandView {
        CommandView {
            program: "cargo"@,
            args: self.args(feature_arg).map_values(|text: Seq<char>| ArgView::Text(text)),
            env: self.env(),
            dir: Some(dir),
        }
    }

    /// The name of the artifact below the target directory.
    pub open spec fn artifact_name(self, package: Package) -> Seq<char> {
        let name = crate::text::replaced(package.name@, '-', '_');
        match self.native {
            None => "wasm32-unknown-unknown/"@ + self.profile_name() + "/"@ + name + ".wasm"@,
            Some(target) => target@ + "/"@ + self.profile_name() + "/lib"@ + name + ".a"@,
        }
    }

    /// The file to copy the artifact to.
    pub open spec fn applet(self) -> PlaceView {
        PlaceView {
            base: match self.output {
                Some(path) => BaseView::Path(path),
                None => BaseView::Name("target/wasefire"@),
            },
            file: if self.native is None {
                "applet.wasm"@
            } else {
                "libapplet.a"@
            },
        }
    }

    /// How the applet is built, given the argument that enables the feature.
    pub open spec fn plan(
        self,
        package: Package,
        feature_arg: Seq<char>,
        dir: PathBuf,
        target_dir: PathBuf,
    ) -> BuildPlanView {
        BuildPlanView {
            cargo: self.command(feature_arg, dir),
            artifact: PlaceView {
                base: BaseView::Path(target_dir),
                file: self.artifact_name(package),
            },
            applet: self.applet(),
        }
    }

    /// Returns the file to copy the artifact to.
    fn place(&self) -> (place: Place<'_>)
        ensures
            place@ == self.applet(),
    {
        let base = match &self.output {
            Some(path) => Base::Path(path),
            None => Base::Name("target/wasefire".to_string()),
        };
        let file = match &self.native {
            None => "applet.wasm",
            Some(_) => "libapplet.a",
        };
        Place { base, file: file.to_string() }
    }

    /// Plans the build of the package in its directory. The artifact is found below the
    /// target directory.
    pub fn run<'a>(
        &'a self,
        package: &Package,
        dir: &'a PathBuf,
        target_dir: &'a PathBuf,
    ) -> (r: Result<BuildPlan<'a>, AppletError>)
        ensures
            match package.feature_arg(self.feature()) {
                Some(arg) => r is Ok && r->Ok_0@ == self.plan(*package, arg, *dir, *target_dir),
                None => r is Err && r->Err_0 == AppletError::MissingDependency,
            },
    {
        let name = crate::text::replace_char(package.name.as_str(), '-', '_');
        let mut cargo = CommandLine::new("cargo");
        let mut rustflags: Vec<String> = Vec::new();
        cargo.arg("rustc");
        cargo.arg("--lib");
        // These do not follow the profile that was asked for, because they do not depend
        // on what was asked for (as opposed to the optimization level).
        cargo.arg("--config=profile.release.codegen-units=1");
        cargo.arg("--config=profile.release.lto=true");
        cargo.arg("--config=profile.release.panic=\"abort\"");
        match &self.native {
            None => {
                let stack_size = crate::text::decimal_string(self.stack_size as u128);
                rustflags.push(
                    "-C link-arg=-zstack-size=".to_string().concat(stack_size.as_str()),
                );
                rustflags.push("-C target-feature=+bulk-memory".to_string());
                cargo.arg("--crate-type=cdylib");
                cargo.arg("--target=wasm32-unknown-unknown");
                match wasefire_feature(package, "wasm", &mut cargo) {
                    Ok(()) => {},
                    Err(error) => return Err(error),
                }
            },
            Some(target) => {
                cargo.arg("--crate-type=staticlib");
                cargo.arg("--target=".to_string().concat(target.as_str()).as_str());
                match wasefire_feature(package, "native", &mut cargo) {
                    Ok(()) => {},
                    Err(error) => return Err(error),
                }
            },
        }
        let ghost arg = package.feature_arg(self.feature())->0;
        let profile: &str = match &self.profile {
            Some(profile) => profile.as_str(),
            None => "release",
        };
        cargo.arg("--profile=".to_string().concat(profile).as_str());
        if let Some(level) = self.opt_level {
            let level = level.fmt(false);
            cargo.arg(
                "--config=profile.".to_string().concat(profile).concat(".opt-level=").concat(
                    level.as_str(),
                ).as_str(),
            );
        }
        cargo.args(&self.cargo);
        if self.prod {
            cargo.arg("-Zbuild-std=core,alloc");
            let mut features = "-Zbuild-std-features=panic_immediate_abort".to_string();
            let small = match self.opt_level {
                Some(level) => level.optimize_for_size(),
                None => false,
            };
            if small {
                features.append(",optimize_for_size");
            }
            cargo.arg(features.as_str());
        } else {
            cargo.env("WASEFIRE_DEBUG", "");
        }
        let flags = crate::text::join(&rustflags, " ");
        proof {
            reveal_with_fuel(crate::text::joined, 3);
            assert(flags@ =~= self.rustflags());
        }
        cargo.env("RUSTFLAGS", flags.as_str());
        cargo.current_dir(dir);
        assert(cargo@ =~= self.command(arg, *dir));
        let src = match &self.native {
            None => "wasm32-unknown-unknown/".to_string().concat(profile).concat("/").concat(
                name.as_str(),
            ).concat(".wasm"),
            Some(target) => target.as_str().to_string().concat("/").concat(profile).concat(
                "/lib",
            ).concat(name.as_str()).concat(".a"),
        };
        Ok(
            BuildPlan {
                cargo,
                artifact: Place { base: Base::Path(target_dir), file: src },
                applet: self.place(),
            },
        )
    }

    /// The commands to run once the artifact was copied to the applet: those that optimize
    /// that same file, or none if it had not changed or is native.
    pub open spec fn commands(self, changed: bool) -> Seq<CommandView> {
        if changed && self.native is None {
            optimization(FileView::Place(self.applet()), self.opt_level)
        } else {
            seq![]
        }
    }

    /// How the build goes on once the artifact was copied to the applet, unless that failed.
    pub open spec fn after_copy<E>(self, copied: Result<bool, E>) -> ProgressView<CommandView, E> {
        match copied {
            Ok(changed) => crate::steps::after(self.commands(changed), Ok(())),
            Err(error) => ProgressView::Done(Err(error)),
        }
    }

    /// Goes on with the build once the artifact was copied to the applet, or was found not
    /// to have changed: returns the first command to run, if any.
    pub fn copied<E>(&self, copied: Result<bool, E>) -> (progress: Progress<CommandLine<'_>, E>)
        ensures
            progress@ == self.after_copy(copied),
    {
        match copied {
            Ok(changed) => if changed && self.native.is_none() {
                optimize_wasm(File::Place(self.place()), self.opt_level)
            } else {
                let list: Vec<CommandLine<'_>> = Vec::new();
                assert(crate::steps::views(list@) =~= seq![]);
                crate::steps::next(list, Ok(()))
            },
            Err(error) => Progress::Done(Err(error)),
        }
    }

    /// What a build with this plan ends with, given how its command, its copy and the
    /// commands after that end.
    pub open spec fn result<E>(
        self,
        plan: BuildPlanView,
        executed: Result<(), E>,
        copied: Result<bool, E>,
        outcomes: Seq<Result<(), E>>,
    ) -> Result<(), E> {
        match plan.after(executed) {
            BuildStepView::Copy { .. } => crate::steps::result(
                self.after_copy(copied),
                outcomes,
            ),
            BuildStepView::Failed(error) => Err(error),
        }
    }

    /// The commands that such a build runs after the copy, in order.
    pub open spec fn optimized<E>(
        self,
        plan: BuildPlanView,
        executed: Result<(), E>,
        copied: Result<bool, E>,
        outcomes: Seq<Result<(), E>>,
    ) -> Seq<CommandView> {
        match plan.after(executed) {
            BuildStepView::Copy { .. } => crate::steps::taken(
                self.after_copy(copied),
                outcomes,
            ),
            BuildStepView::Failed(_) => seq![],
        }
    }
}

/// Runs the unit-tests of a Rust applet project.
pub struct RustAppletTest {
    /// Extra arguments to cargo.
    pub cargo: Vec<String>,
}

impl RustAppletTest {
    /// The command that runs the tests of the project in the current directory.
    pub open spec fn command(self) -> CommandView {
        CommandView::of("cargo"@).arg("test"@).arg("--features=test"@).args(
            crate::text::texts(self.cargo@),
        )
    }

    /// Returns the command that runs the tests of the package in its directory.
    pub fn run<'a>(&'a self, package: &Package, dir: &'a PathBuf) -> (r: Result<
        CommandLine<'a>,
        AppletError,
    >)
        ensures
            if package.has_feature("test"@) {
                r is Ok && r->Ok_0@ == self.command().current_dir(*dir)
            } else {
                r is Err && r->Err_0 == AppletError::MissingTestFeature
            },
    {
        if !crate::text::contains(&package.features, "test") {
            return Err(AppletError::MissingTestFeature);
        }
        let mut cargo = CommandLine::new("cargo");
        cargo.arg("test");
        cargo.arg("--features=test");
        cargo.args(&self.cargo);
        cargo.current_dir(dir);
        Ok(cargo)
    }
}

/// The commands that strip and optimize a WASM applet, in order.
pub open spec fn optimization(applet: FileView, opt_level: Option<OptLevel>) -> Seq<CommandView> {
    seq![
        CommandView::of("wasm-strip"@).file(applet),
        CommandView::of("wasm-opt"@).arg("--enable-bulk-memory"@).arg("--enable-sign-ext"@).arg(
            "--enable-mutable-globals"@,
        ).arg(
            match opt_level {
                Some(level) => "-O"@ + level.shown(true),
                None => "-O"@,
            },
        ).file(applet).arg("-o"@).file(applet),
    ]
}

/// Starts to strip and optimize a WASM applet: returns the first command to run. What
/// follows it is decided by `next`, from the commands that are left and its outcome.
pub fn optimize_wasm<'a, E>(applet: File<'a>, opt_level: Option<OptLevel>) -> (progress: Progress<
    CommandLine<'a>,
    E,
>)
    ensures
        progress@ == crate::steps::after(optimization(applet@, opt_level), Ok::<(), E>(())),
{
    let mut list: Vec<CommandLine<'a>> = Vec::new();
    let mut strip = CommandLine::new("wasm-strip");
    strip.file(applet.clone());
    list.push(strip);
    let mut opt = CommandLine::new("wasm-opt");
    opt.arg("--enable-bulk-memory");
    opt.arg("--enable-sign-ext");
    opt.arg("--enable-mutable-globals");
    match opt_level {
        Some(level) => {
            let level = level.fmt(true);
            opt.arg("-O".to_string().concat(level.as_str()).as_str());
        },
        None => opt.arg("-O"),
    }
    opt.file(applet.clone());
    opt.arg("-o");
    opt.file(applet);
    list.push(opt);
    assert(crate::steps::views(list@) =~= optimization(applet@, opt_level));
    crate::steps::next(list, Ok(()))
}

/// The first step of a creation that fails ends it with its error, and no later step is
/// taken.
pub proof fn law_creation_ends_with_the_first_failure<E>(
    new: RustAppletNew,
    outcomes: Seq<Result<(), E>>,
    k: int,
)
    requires
        0 <= k < new.steps().len(),
        k < outcomes.len(),
        outcomes[k] is Err,
        forall|i: int| 0 <= i < k ==> outcomes[i] is Ok,
    ensures
        ({
            let start = crate::steps::after(new.steps(), Ok::<(), E>(()));
            &&& crate::steps::result(start, outcomes) == outcomes[k]
            &&& crate::steps::taken(start, outcomes) == new.steps().take(k + 1)
        }),
{
    crate::steps::law_steps_end_with_the_first_failure(new.steps(), outcomes, k);
}

/// A creation whose four commands succeed ends well exactly if the library file is removed
/// and then written. If the removal fails, that is the error and nothing is written, and
/// if the writing fails, that is the error.
pub proof fn law_creation_replaces_the_library<E>(
    new: RustAppletNew,
    outcomes: Seq<Result<(), E>>,
)
    requires
        outcomes.len() == new.steps().len(),
        forall|i: int| 0 <= i < 4 ==> outcomes[i] is Ok,
    ensures
        new.steps()[4] == NewStepView::Remove(new.library()),
        new.steps()[5] == NewStepView::WriteTemplate(new.library()),
        ({
            let start = crate::steps::after(new.steps(), Ok::<(), E>(()));
            let r = crate::steps::result(start, outcomes);
            let taken = crate::steps::taken(start, outcomes);
            &&& r is Ok <==> outcomes[4] is Ok && outcomes[5] is Ok
            &&& outcomes[4] is Err ==> r == outcomes[4] && taken == new.steps().take(5)
            &&& outcomes[4] is Ok ==> taken == new.steps()
            &&& outcomes[4] is Ok && outcomes[5] is Err ==> r == outcomes[5]
        }),
{
    if outcomes[4] is Err {
        crate::steps::law_steps_end_with_the_first_failure(new.steps(), outcomes, 4);
    } else if outcomes[5] is Err {
        crate::steps::law_steps_end_with_the_first_failure(new.steps(), outcomes, 5);
        assert(new.steps().take(6) =~= new.steps());
    } else {
        crate::steps::law_steps_end_well(new.steps(), outcomes);
    }
}

/// An optimization ends well exactly if the applet is stripped and then optimized. If it
/// is not stripped, that is the error and it is not optimized, and if it is not optimized,
/// that is the error.
pub proof fn law_optimization_ends_with_the_first_failure<E>(
    applet: FileView,
    opt_level: Option<OptLevel>,
    outcomes: Seq<Result<(), E>>,
)
    requires
        outcomes.len() == 2,
    ensures
        ({
            let commands = optimization(applet, opt_level);
            let start = crate::steps::after(commands, Ok::<(), E>(()));
            let r = crate::steps::result(start, outcomes);
            let taken = crate::steps::taken(start, outcomes);
            &&& r is Ok <==> outcomes[0] is Ok && outcomes[1] is Ok
            &&& outcomes[0] is Err ==> r == outcomes[0] && taken == seq![commands[0]]
            &&& outcomes[0] is Ok ==> taken == commands
            &&& outcomes[0] is Ok && outcomes[1] is Err ==> r == outcomes[1]
        }),
{
    let commands = optimization(applet, opt_level);
    if outcomes[0] is Err {
        crate::steps::law_steps_end_with_the_first_failure(commands, outcomes, 0);
        assert(commands.take(1) =~= seq![commands[0]]);
    } else if outcomes[1] is Err {
        crate::steps::law_steps_end_with_the_first_failure(commands, outcomes, 1);
        assert(commands.take(2) =~= commands);
    } else {
        crate::steps::law_steps_end_well(commands, outcomes);
    }
}

/// A build whose command fails ends with that error: nothing is copied and nothing is
/// optimized.
pub proof fn law_failed_build_copies_nothing<E>(
    build: RustAppletBuild,
    plan: BuildPlanView,
    error: E,
    copied: Result<bool, E>,
    outcomes: Seq<Result<(), E>>,
)
    ensures
        plan.after(Err::<(), E>(error)) == BuildStepView::Failed(error),
        build.result(plan, Err(error), copied, outcomes) == Err::<(), E>(error),
        build.optimized(plan, Err(error), copied, outcomes) == Seq::<CommandView>::empty(),
{
}

/// A build whose command succeeds copies the artifact to the applet. It ends with the error
/// of the copy, if that fails, and optimizes nothing then. Otherwise it ends as the
/// optimization of that same file does, or well if there is nothing to optimize.
pub proof fn law_build_ends_as_its_copy_and_optimization<E>(
    build: RustAppletBuild,
    package: Package,
    feature_arg: Seq<char>,
    dir: PathBuf,
    target_dir: PathBuf,
    copied: Result<bool, E>,
    outcomes: Seq<Result<(), E>>,
)
    ensures
        ({
            let plan = build.plan(package, feature_arg, dir, target_dir);
            let r = build.result(plan, Ok(()), copied, outcomes);
            let optimized = build.optimized(plan, Ok(()), copied, outcomes);
            let start = crate::steps::after(
                optimization(FileView::Place(plan.applet), build.opt_level),
                Ok::<(), E>(()),
            );
            &&& plan.after(Ok::<(), E>(())) == (BuildStepView::<E>::Copy {
                artifact: plan.artifact,
                applet: plan.applet,
            })
            &&& match copied {
                Err(error) => r == Err::<(), E>(error) && optimized == Seq::<CommandView>::empty(),
                Ok(changed) => if changed && build.native is None {
                    &&& r == crate::steps::result(start, outcomes)
                    &&& optimized == crate::steps::taken(start, outcomes)
                } else {
                    r is Ok && optimized == Seq::<CommandView>::empty()
                },
            }
        }),
{
}

/// Whatever file an optimization names is the one that the build copied the artifact to:
/// each of its commands names that file, and no other.
pub proof fn law_copied_file_is_optimized<E>(
    build: RustAppletBuild,
    package: Package,
    feature_arg: Seq<char>,
    dir: PathBuf,
    target_dir: PathBuf,
    changed: bool,
    i: int,
)
    requires
        0 <= i < build.commands(changed).len(),
    ensures
        ({
            let plan = build.plan(package, feature_arg, dir, target_dir);
            let args = build.commands(changed)[i].args;
            let file = ArgView::File(FileView::Place(plan.applet));
            &&& plan.after(Ok::<(), E>(())) == (BuildStepView::<E>::Copy {
                artifact: plan.artifact,
                applet: plan.applet,
            })
            &&& args.contains(file)
            &&& forall|j: int|
                0 <= j < args.len() && #[trigger] args[j] is File ==> args[j] == file
        }),
{
    let args = build.commands(changed)[i].args;
    let file = ArgView::File(FileView::Place(build.applet()));
    assert(args.last() == file);
}

/// The stack size is ignored for native applets: two builds for a native target that
/// differ in nothing else have the same plan.
pub proof fn law_native_ignores_stack_size(
    build: RustAppletBuild,
    stack_size: usize,
    package: Package,
    feature_arg: Seq<char>,
    dir: PathBuf,
    target_dir: PathBuf,
)
    requires
        build.native is Some,
    ensures
        (RustAppletBuild { stack_size, ..build }).plan(package, feature_arg, dir, target_dir)
            == build.plan(package, feature_arg, dir, target_dir),
{
}

/// The profile defaults to release: asking for no profile is asking for that one.
pub proof fn law_profile_defaults_to_release(
    build: RustAppletBuild,
    release: String,
    package: Package,
    feature_arg: Seq<char>,
    dir: PathBuf,
    target_dir: PathBuf,
)
    requires
        release@ == "release"@,
    ensures
        (RustAppletBuild { profile: None, ..build }).plan(package, feature_arg, dir, target_dir)
            == (RustAppletBuild { profile: Some(release), ..build }).plan(
            package,
            feature_arg,
            dir,
            target_dir,
        ),
{
}

/// The output directory says where the artifact is copied to, and nothing else: two builds
/// that differ in it alone make the same artifact with the same command.
pub proof fn law_output_changes_only_the_copy(
    build: RustAppletBuild,
    output: Option<PathBuf>,
    package: Package,
    feature_arg: Seq<char>,
    dir: PathBuf,
    target_dir: PathBuf,
)
    ensures
        ({
            let a = build.plan(package, feature_arg, dir, target_dir);
            let b = (RustAppletBuild { output, ..build }).plan(
                package,
                feature_arg,
                dir,
                target_dir,
            );
            &&& a.cargo == b.cargo
            &&& a.artifact == b.artifact
            &&& a.applet.file == b.applet.file
            &&& output matches Some(path) ==> b.applet.base == BaseView::Path(path)
            &&& output is None ==> b.applet.base == BaseView::Name("target/wasefire"@)
        }),
{
}

/// The extra arguments are passed on to cargo as they are, side by side and in order, and
/// change nothing else. In a build they stand after all others but those of a build for
/// production, so right after the profile and the optimization level, if there is one. In
/// a test they come last.
pub proof fn law_extra_arguments_are_passed_on(
    build: RustAppletBuild,
    none: Vec<String>,
    package: Package,
    feature_arg: Seq<char>,
    dir: PathBuf,
    target_dir: PathBuf,
    test: RustAppletTest,
)
    requires
        none@.len() == 0,
    ensures
        ({
            let bare = RustAppletBuild { cargo: none, ..build };
            let before = build.leading_args(feature_arg);
            let extra = crate::text::texts(build.cargo@);
            let a = build.plan(package, feature_arg, dir, target_dir);
            let b = bare.plan(package, feature_arg, dir, target_dir);
            &&& bare.args(feature_arg) == before + build.prod_args()
            &&& build.args(feature_arg) == before + extra + build.prod_args()
            &&& (seq!["--profile="@ + build.profile_name()] + build.opt_args()).is_suffix_of(before)
            &&& a == (BuildPlanView { cargo: CommandView { args: a.cargo.args, ..b.cargo }, ..b })
        }),
        test.command().args == seq![
            ArgView::Text("test"@),
            ArgView::Text("--features=test"@),
        ] + crate::text::texts(test.cargo@).map_values(|text: Seq<char>| ArgView::Text(text)),
{
    let bare = RustAppletBuild { cargo: none, ..build };
    let before = build.leading_args(feature_arg);
    let end = seq!["--profile="@ + build.profile_name()] + build.opt_args();
    assert(bare.leading_args(feature_arg) =~= before);
    assert(bare.args(feature_arg) =~= before + build.prod_args());
    assert(end =~= before.subrange(before.len() - end.len(), before.len() as int));
    assert(test.command().args.take(2) =~= seq![
        ArgView::Text("test"@),
        ArgView::Text("--features=test"@),
    ]);
}

/// The artifact is looked for where the arguments have it made: below the directory of the
/// target, in that of the profile.
pub proof fn law_artifact_follows_target_and_profile(
    build: RustAppletBuild,
    package: Package,
    feature_arg: Seq<char>,
)
    ensures
        ({
            let target = match build.native {
                None => "wasm32-unknown-unknown"@,
                Some(target) => target@,
            };
            let profile = build.profile_name();
            &&& build.args(feature_arg).contains("--target="@ + target)
            &&& build.args(feature_arg).contains("--profile="@ + profile)
            &&& (target + "/"@ + profile + "/"@).is_prefix_of(build.artifact_name(package))
        }),
{
    reveal_strlit("--target=");
    reveal_strlit("wasm32-unknown-unknown");
    reveal_strlit("--target=wasm32-unknown-unknown");
    reveal_strlit("wasm32-unknown-unknown/");
    reveal_strlit("/");
    reveal_strlit("/lib");
    let target = match build.native {
        None => "wasm32-unknown-unknown"@,
        Some(target) => target@,
    };
    assert("--target="@ + "wasm32-unknown-unknown"@ =~= "--target=wasm32-unknown-unknown"@);
    assert("wasm32-unknown-unknown"@ + "/"@ =~= "wasm32-unknown-unknown/"@);
    assert(build.args(feature_arg)[6] == "--target="@ + target);
    assert(build.args(feature_arg)[8] == "--profile="@ + build.profile_name());
    let directory = target + "/"@ + build.profile_name() + "/"@;
    let file = build.artifact_name(package);
    assert(directory =~= file.subrange(0, directory.len() as int));
}

/// Only WASM applets are optimized: the applet has a name of that kind exactly where
/// `RustAppletBuild::copied` asks for it.
pub proof fn law_only_wasm_is_optimized(build: RustAppletBuild)
    ensures
        ".wasm"@.is_suffix_of(build.applet().file) <==> build.native is None,
{
    reveal_strlit(".wasm");
    reveal_strlit("applet.wasm");
    reveal_strlit("libapplet.a");
    let file = build.applet().file;
    if build.native is None {
        assert(file.subrange(file.len() - 5, file.len() as int) =~= ".wasm"@);
    } else {
        assert(file.last() != ".wasm"@.last());
        if ".wasm"@.is_suffix_of(file) {
            assert(file.subrange(file.len() - 5, file.len() as int).last() == file.last());
        }
    }
}

/// A build for production disables the debugging facilities, and no other build does:
/// the variable that enables them is set exactly by the others.
pub proof fn law_production_disables_debugging(build: RustAppletBuild)
    ensures
        build.prod <==> !(exists|i: int|
            0 <= i < build.env().len() && (#[trigger] build.env()[i]).0 == "WASEFIRE_DEBUG"@),
{
    reveal_strlit("WASEFIRE_DEBUG");
    reveal_strlit("RUSTFLAGS");
    assert("WASEFIRE_DEBUG"@.len() != "RUSTFLAGS"@.len());
    if !build.prod {
        assert(build.env()[0].0 == "WASEFIRE_DEBUG"@);
    }
}

/// The name changes only the command that creates the project, which has it as one more
/// argument. What follows is the same for any name and for none: in the directory of the
/// project, the API is added, then the stub as an optional dependency, then the feature of
/// the stub becomes that of the tests, and the library file is removed and written.
pub proof fn law_name_changes_only_the_first_command<'a, E>(
    new: RustAppletNew,
    other: RustAppletNew,
    progress1: Progress<NewStep<'a>, E>,
    progress2: Progress<NewStep<'a>, E>,
)
    requires
        new.path == other.path,
        call_ensures(RustAppletNew::run::<E>, (&new,), progress1),
        call_ensures(RustAppletNew::run::<E>, (&other,), progress2),
    ensures
        ({
            let dir = Some(new.path);
            let lib = PlaceView { base: BaseView::Path(new.path), file: "src/lib.rs"@ };
            &&& progress1@ matches ProgressView::Next { step: NewStepView::Execute(first), rest }
            &&& progress2@ matches ProgressView::Next { rest: rest2, .. }
            &&& rest == rest2
            &&& rest.len() == 5
            &&& first.program == "cargo"@
            &&& first.args == seq![
                ArgView::Text("new"@),
                ArgView::Text("--lib"@),
                ArgView::File(FileView::Path(new.path)),
            ] + match new.name {
                Some(name) => seq![ArgView::Text("--name="@ + name@)],
                None => seq![],
            }
            &&& first.env.len() == 0
            &&& first.dir is None
            &&& rest[0] == NewStepView::Execute(
                CommandView {
                    program: "cargo"@,
                    args: seq![ArgView::Text("add"@), ArgView::Text("wasefire"@)],
                    env: seq![],
                    dir,
                },
            )
            &&& rest[1] == NewStepView::Execute(
                CommandView {
                    program: "cargo"@,
                    args: seq![
                        ArgView::Text("add"@),
                        ArgView::Text("wasefire-stub"@),
                        ArgView::Text("--optional"@),
                    ],
                    env: seq![],
                    dir,
                },
            )
            &&& rest[2] == NewStepView::Execute(
                CommandView {
                    program: "sed"@,
                    args: seq![
                        ArgView::Text("-i"@),
                        ArgView::Text(
                            "s#^wasefire-stub\\( = .\"dep:wasefire-stub\"\\)#test\\1, \"wasefire/test\"#"@,
                        ),
                        ArgView::Text("Cargo.toml"@),
                    ],
                    env: seq![],
                    dir,
                },
            )
            &&& rest[3] == NewStepView::Remove(lib)
            &&& rest[4] == NewStepView::WriteTemplate(lib)
        }),
{
    let dir = Some(new.path);
    let rest = new.steps().skip(1);
    assert(rest =~= other.steps().skip(1));
    assert(rest[0]->Execute_0 =~= CommandView {
        program: "cargo"@,
        args: seq![
            ArgView::Text("add"@),
            ArgView::Text("wasefire"@),
        ],
        env: seq![],
        dir,
    });
    assert(rest[1]->Execute_0 =~= CommandView {
        program: "cargo"@,
        args: seq![
            ArgView::Text("add"@),
            ArgView::Text("wasefire-stub"@),
            ArgView::Text("--optional"@),
        ],
        env: seq![],
        dir,
    });
    assert(rest[2]->Execute_0 =~= CommandView {
        program: "sed"@,
        args: seq![
            ArgView::Text("-i"@),
            ArgView::Text(
                "s#^wasefire-stub\\( = .\"dep:wasefire-stub\"\\)#test\\1, \"wasefire/test\"#"@,
            ),
            ArgView::Text("Cargo.toml"@),
        ],
        env: seq![],
        dir,
    });
    assert(new.create().args =~= seq![
        ArgView::Text("new"@),
        ArgView::Text("--lib"@),
        ArgView::File(FileView::Path(new.path)),
    ] + match new.name {
        Some(name) => seq![ArgView::Text("--name="@ + name@)],
        None => seq![],
    });
}

/// A feature of the applet API is that of the package, if it has one of that name. Else it
/// is that of its dependency, if it has that one directly. Else there is none.
pub proof fn law_feature_is_own_or_of_the_dependency(package: Package, feature: Seq<char>)
    ensures
        ({
            let own = exists|i: int|
                0 <= i < package.features@.len() && (#[trigger] package.features@[i])@ == feature;
            let direct = exists|i: int|
                0 <= i < package.dependencies@.len() && (#[trigger] package.dependencies@[i])@
                    == "wasefire"@;
            &&& package.has_feature(feature) <==> own
            &&& own ==> package.feature_arg(feature) == Some("--features="@ + feature)
            &&& !own && direct ==> package.feature_arg(feature) == Some(
                "--features=wasefire/"@ + feature,
            )
            &&& !own && !direct ==> package.feature_arg(feature) is None
        }),
{
    lemma_texts_contain(package.features@, feature);
    lemma_texts_contain(package.dependencies@, "wasefire"@);
}

proof fn lemma_texts_contain(list: Seq<String>, text: Seq<char>)
    ensures
        crate::text::texts(list).contains(text) <==> exists|i: int|
            0 <= i < list.len() && (#[trigger] list[i])@ == text,
{
    let texts = crate::text::texts(list);
    if texts.contains(text) {
        let i = texts.index_of(text);
        assert(list[i]@ == text);
    }
    assert forall|i: int| 0 <= i < list.len() && (#[trigger] list[i])@ == text implies texts.contains(
        text,
    ) by {
        assert(texts[i] == text);
    }
}

/// A project is accepted exactly if it has one package, which is then the one.
pub proof fn law_project_has_one_package(packages: Vec<Package>, r: Result<Package, AppletError>)
    requires
        call_ensures(metadata, (packages,), r),
    ensures
        r is Ok <==> packages@.len() == 1,
        r is Ok ==> r->Ok_0 == packages@[0],
        r is Err ==> r->Err_0 is PackageCount,
{
}

/// Each error says what is wrong.
pub proof fn law_errors_say_what_is_wrong(error: AppletError, message: &'static str)
    requires
        call_ensures(AppletError::message, (error,), message),
    ensures
        error is PackageCount ==> message@ == "not exactly one package"@,
        error is MissingTestFeature ==> message@ == "missing test feature"@,
        error is MissingDependency ==> message@ == "wasefire must be a direct dependency"@,
{
}

/// A build is refused exactly if the package has no feature of its own for the kind of
/// applet and does not depend on the applet API directly.
pub proof fn law_build_needs_the_applet_api<'a>(
    build: RustAppletBuild,
    package: Package,
    dir: PathBuf,
    target_dir: PathBuf,
    r: Result<BuildPlan<'a>, AppletError>,
)
    requires
        call_ensures(RustAppletBuild::run, (&build, &package, &dir, &target_dir), r),
    ensures
        ({
            let feature = if build.native is None {
                "wasm"@
            } else {
                "native"@
            };
            let own = exists|i: int|
                0 <= i < package.features@.len() && (#[trigger] package.features@[i])@ == feature;
            let direct = exists|i: int|
                0 <= i < package.dependencies@.len() && (#[trigger] package.dependencies@[i])@
                    == "wasefire"@;
            &&& r is Ok <==> own || direct
            &&& r is Err ==> r->Err_0 is MissingDependency
            &&& r is Ok ==> r->Ok_0.cargo@.args.len() > 7 && r->Ok_0.cargo@.args[7]
                == ArgView::Text(
                if own {
                    "--features="@ + feature
                } else {
                    "--features=wasefire/"@ + feature
                },
            )
        }),
{
    law_feature_is_own_or_of_the_dependency(package, build.feature());
    if r is Ok {
        let arg = package.feature_arg(build.feature())->0;
        assert(build.args(arg)[7] == arg);
    }
}

/// The arguments of a build, one after the other: what every build has, then the kind of
/// applet and its target, the feature, the profile, the optimization level if one was
/// asked for, the extra arguments, and, for production, those that rebuild the standard
/// library, for size exactly if the level is. There are no others.
pub proof fn law_arguments_follow_what_was_asked<'a>(
    build: RustAppletBuild,
    package: Package,
    dir: PathBuf,
    target_dir: PathBuf,
    r: Result<BuildPlan<'a>, AppletError>,
)
    requires
        call_ensures(RustAppletBuild::run, (&build, &package, &dir, &target_dir), r),
        r is Ok,
    ensures
        ({
            let cargo = r->Ok_0.cargo@;
            let args = cargo.args;
            let profile = match build.profile {
                Some(profile) => profile@,
                None => "release"@,
            };
            let levels: int = if build.opt_level is Some {
                1
            } else {
                0
            };
            let extra: int = 9 + levels;
            let end: int = extra + build.cargo@.len();
            &&& cargo.program == "cargo"@
            &&& cargo.dir == Some(dir)
            &&& args.len() == end + if build.prod {
                2int
            } else {
                0
            }
            &&& args[0] == ArgView::Text("rustc"@)
            &&& args[1] == ArgView::Text("--lib"@)
            &&& args[2] == ArgView::Text("--config=profile.release.codegen-units=1"@)
            &&& args[3] == ArgView::Text("--config=profile.release.lto=true"@)
            &&& args[4] == ArgView::Text("--config=profile.release.panic=\"abort\""@)
            &&& build.native is None ==> args[5] == ArgView::Text("--crate-type=cdylib"@)
                && args[6] == ArgView::Text("--target=wasm32-unknown-unknown"@)
            &&& build.native matches Some(target) ==> args[5] == ArgView::Text(
                "--crate-type=staticlib"@,
            ) && args[6] == ArgView::Text("--target="@ + target@)
            &&& args[8] == ArgView::Text("--profile="@ + profile)
            &&& build.opt_level matches Some(level) ==> args[9] == ArgView::Text(
                "--config=profile."@ + profile + ".opt-level="@ + match level {
                    OptLevel::O0 => seq!['0'],
                    OptLevel::O1 => seq!['1'],
                    OptLevel::O2 => seq!['2'],
                    OptLevel::O3 => seq!['3'],
                    OptLevel::Os => seq!['"', 's', '"'],
                    OptLevel::Oz => seq!['"', 'z', '"'],
                },
            )
            &&& forall|i: int|
                0 <= i < build.cargo@.len() ==> args[extra + i] == ArgView::Text(
                    (#[trigger] build.cargo@[i])@,
                )
            &&& build.prod ==> args[end] == ArgView::Text("-Zbuild-std=core,alloc"@) && args[end
                + 1] == ArgView::Text(
                if build.opt_level is Some && (build.opt_level->0 is Os || build.opt_level->0
                    is Oz) {
                    "-Zbuild-std-features=panic_immediate_abort,optimize_for_size"@
                } else {
                    "-Zbuild-std-features=panic_immediate_abort"@
                },
            )
        }),
{
    lemma_shown(build.opt_level);
    reveal_strlit("-Zbuild-std-features=panic_immediate_abort,optimize_for_size");
    reveal_strlit("-Zbuild-std-features=panic_immediate_abort");
    reveal_strlit(",optimize_for_size");
    assert("-Zbuild-std-features=panic_immediate_abort"@ + ",optimize_for_size"@
        =~= "-Zbuild-std-features=panic_immediate_abort,optimize_for_size"@);
    let arg = package.feature_arg(build.feature())->0;
    let args = build.args(arg);
    let extra = build.leading_args(arg).len() as int;
    assert(r->Ok_0.cargo@.args.len() == args.len());
    assert forall|i: int| 0 <= i < build.cargo@.len() implies args[extra + i] == (
    #[trigger] build.cargo@[i])@ by {}
}

proof fn lemma_shown(level: Option<OptLevel>)
    ensures
        level matches Some(level) ==> {
            &&& level.shown(true) == match level {
                OptLevel::O0 => seq!['0'],
                OptLevel::O1 => seq!['1'],
                OptLevel::O2 => seq!['2'],
                OptLevel::O3 => seq!['3'],
                OptLevel::Os => seq!['s'],
                OptLevel::Oz => seq!['z'],
            }
            &&& level.shown(false) == match level {
                OptLevel::O0 => seq!['0'],
                OptLevel::O1 => seq!['1'],
                OptLevel::O2 => seq!['2'],
                OptLevel::O3 => seq!['3'],
                OptLevel::Os => seq!['"', 's', '"'],
                OptLevel::Oz => seq!['"', 'z', '"'],
            }
        },
{
    reveal_strlit("0");
    reveal_strlit("1");
    reveal_strlit("2");
    reveal_strlit("3");
    reveal_strlit("s");
    reveal_strlit("z");
    reveal_strlit("\"");
    if let Some(level) = level {
        let c = level.spec_name()[0];
        assert(level.spec_name() =~= seq![c]);
        assert("\""@ + level.spec_name() + "\""@ =~= seq!['"', c, '"']);
    }
}

/// The variables of a build are the flags, and before them the one that enables debugging,
/// unless the build is for production. Nothing else is set.
pub proof fn law_variables_are_the_flags_and_debugging<'a>(
    build: RustAppletBuild,
    package: Package,
    dir: PathBuf,
    target_dir: PathBuf,
    r: Result<BuildPlan<'a>, AppletError>,
)
    requires
        call_ensures(RustAppletBuild::run, (&build, &package, &dir, &target_dir), r),
        r is Ok,
    ensures
        ({
            let env = r->Ok_0.cargo@.env;
            &&& env.len() > 0
            &&& env.last().0 == "RUSTFLAGS"@
            &&& build.prod ==> env.len() == 1
            &&& !build.prod ==> env.len() == 2 && env[0] == ("WASEFIRE_DEBUG"@, ""@)
        }),
{
}

/// The stack size that was asked for reaches the linker: the flags of a WASM applet start
/// with its digits, and end with the target feature. A native applet has no flags.
pub proof fn law_stack_size_reaches_the_linker<'a>(
    build: RustAppletBuild,
    package: Package,
    dir: PathBuf,
    target_dir: PathBuf,
    r: Result<BuildPlan<'a>, AppletError>,
)
    requires
        call_ensures(RustAppletBuild::run, (&build, &package, &dir, &target_dir), r),
        r is Ok,
    ensures
        build.native is None ==> exists|digits: Seq<char>| #[trigger]
            crate::text::is_decimal(digits, build.stack_size as int)
                && r->Ok_0.cargo@.env.last().1 == "-C link-arg=-zstack-size="@ + digits
                + " -C target-feature=+bulk-memory"@,
        build.native is Some ==> r->Ok_0.cargo@.env.last().1.len() == 0,
{
    let digits = crate::text::decimal(build.stack_size as nat);
    crate::text::law_digits_stand_for_the_number(build.stack_size as nat);
    reveal_strlit(" ");
    reveal_strlit("-C target-feature=+bulk-memory");
    reveal_strlit(" -C target-feature=+bulk-memory");
    let prefix = "-C link-arg=-zstack-size="@ + digits;
    assert(prefix + " "@ + "-C target-feature=+bulk-memory"@ =~= prefix
        + " -C target-feature=+bulk-memory"@);
}

/// Two builds of WASM applets with different stack sizes have different flags, whatever
/// else was asked for.
pub proof fn law_stack_sizes_are_told_apart<'a>(
    build1: RustAppletBuild,
    build2: RustAppletBuild,
    package: Package,
    dir: PathBuf,
    target_dir: PathBuf,
    r1: Result<BuildPlan<'a>, AppletError>,
    r2: Result<BuildPlan<'a>, AppletError>,
)
    requires
        build1.native is None,
        build2.native is None,
        call_ensures(RustAppletBuild::run, (&build1, &package, &dir, &target_dir), r1),
        call_ensures(RustAppletBuild::run, (&build2, &package, &dir, &target_dir), r2),
        r1 is Ok,
        r2 is Ok,
    ensures
        r1->Ok_0.cargo@.env.last() == r2->Ok_0.cargo@.env.last() <==> build1.stack_size
            == build2.stack_size,
{
    let digits1 = crate::text::decimal(build1.stack_size as nat);
    let digits2 = crate::text::decimal(build2.stack_size as nat);
    crate::text::law_numbers_are_told_apart(
        build1.stack_size as nat,
        build2.stack_size as nat,
    );
    let prefix = "-C link-arg=-zstack-size="@;
    let suffix = " "@ + "-C target-feature=+bulk-memory"@;
    let flags1 = build1.rustflags();
    let flags2 = build2.rustflags();
    assert(flags1 =~= prefix + digits1 + suffix);
    assert(flags2 =~= prefix + digits2 + suffix);
    assert(r1->Ok_0.cargo@.env.last().1 == flags1);
    assert(r2->Ok_0.cargo@.env.last().1 == flags2);
    if flags1 == flags2 {
        let p = prefix.len() as int;
        assert(digits1.len() == digits2.len());
        assert(flags1.subrange(p, p + digits1.len()) =~= digits1);
        assert(flags2.subrange(p, p + digits2.len()) =~= digits2);
    }
}

/// The artifact is that of the package, below the directories of the target and of the
/// profile: its name has each hyphen replaced by an underscore, and the prefix and suffix
/// of its kind. The applet is the file of its kind in the output directory.
pub proof fn law_artifact_and_applet_are_of_their_kind<'a>(
    build: RustAppletBuild,
    package: Package,
    dir: PathBuf,
    target_dir: PathBuf,
    r: Result<BuildPlan<'a>, AppletError>,
)
    requires
        call_ensures(RustAppletBuild::run, (&build, &package, &dir, &target_dir), r),
        r is Ok,
    ensures
        ({
            let artifact = r->Ok_0.artifact@;
            let applet = r->Ok_0.applet@;
            let profile = match build.profile {
                Some(profile) => profile@,
                None => "release"@,
            };
            let name = package.name@.map_values(|c: char| if c == '-' { '_' } else { c });
            &&& artifact.base == BaseView::Path(target_dir)
            &&& build.native is None ==> artifact.file == "wasm32-unknown-unknown/"@ + profile
                + "/"@ + name + ".wasm"@
            &&& build.native matches Some(target) ==> artifact.file == target@ + "/"@ + profile
                + "/lib"@ + name + ".a"@
            &&& build.native is None ==> applet.file == "applet.wasm"@
            &&& build.native is Some ==> applet.file == "libapplet.a"@
            &&& build.output matches Some(output) ==> applet.base == BaseView::Path(output)
            &&& build.output is None ==> applet.base == BaseView::Name("target/wasefire"@)
        }),
{
    let name = package.name@.map_values(|c: char| if c == '-' { '_' } else { c });
    assert(name =~= crate::text::replaced(package.name@, '-', '_'));
}

/// Once its command succeeded, a build copies what it planned to, to where it planned to.
/// If the command failed, that is the end.
pub proof fn law_build_copies_as_planned<'a, E>(
    plan: BuildPlan<'a>,
    executed: Result<(), E>,
    step: BuildStep<'a, E>,
)
    requires
        call_ensures(BuildPlan::executed::<E>, (plan, executed), step),
    ensures
        executed is Ok <==> step is Copy,
        executed is Ok ==> step->artifact@ == plan.artifact@ && step->applet@ == plan.applet@,
        executed matches Err(error) ==> step@ == BuildStepView::Failed(error),
{
}

/// Once the copy is done, a build does what the optimization of the copy does, with the
/// level that was asked for, exactly if the copy changed and is a WASM applet. Otherwise it
/// ends, with the error of the copy if that failed.
pub proof fn law_changed_wasm_is_optimized<'a, E>(
    build: RustAppletBuild,
    package: Package,
    dir: PathBuf,
    target_dir: PathBuf,
    planned: Result<BuildPlan<'a>, AppletError>,
    copied: Result<bool, E>,
    progress: Progress<CommandLine<'a>, E>,
    optimization: Progress<CommandLine<'a>, E>,
)
    requires
        call_ensures(RustAppletBuild::run, (&build, &package, &dir, &target_dir), planned),
        planned is Ok,
        call_ensures(
            optimize_wasm::<E>,
            (File::Place(planned->Ok_0.applet), build.opt_level),
            optimization,
        ),
        call_ensures(RustAppletBuild::copied::<E>, (&build, copied), progress),
    ensures
        match copied {
            Err(error) => progress@ == ProgressView::<CommandView, E>::Done(Err(error)),
            Ok(changed) => if changed && build.native is None {
                progress@ == optimization@
            } else {
                progress@ == ProgressView::<CommandView, E>::Done(Ok(()))
            },
        },
{
}

/// The level that was asked for is the one that the applet is optimized for: the applet is
/// stripped, then optimized in place with the option of that level, whichever it is, and of
/// no other. Without a level the option has none.
pub proof fn law_level_reaches_the_optimizer<'a, E>(
    applet: File<'a>,
    opt_level: Option<OptLevel>,
    progress: Progress<CommandLine<'a>, E>,
)
    requires
        call_ensures(optimize_wasm::<E>, (applet, opt_level), progress),
    ensures
        ({
            let file = ArgView::File(applet@);
            let option = match opt_level {
                None => seq!['-', 'O'],
                Some(OptLevel::O0) => seq!['-', 'O', '0'],
                Some(OptLevel::O1) => seq!['-', 'O', '1'],
                Some(OptLevel::O2) => seq!['-', 'O', '2'],
                Some(OptLevel::O3) => seq!['-', 'O', '3'],
                Some(OptLevel::Os) => seq!['-', 'O', 's'],
                Some(OptLevel::Oz) => seq!['-', 'O', 'z'],
            };
            &&& progress@ matches ProgressView::Next { step: strip, rest }
            &&& rest.len() == 1
            &&& strip.program == "wasm-strip"@
            &&& strip.args == seq![file]
            &&& strip.env.len() == 0 && strip.dir is None
            &&& rest[0].program == "wasm-opt"@
            &&& rest[0].args == seq![
                ArgView::Text("--enable-bulk-memory"@),
                ArgView::Text("--enable-sign-ext"@),
                ArgView::Text("--enable-mutable-globals"@),
                ArgView::Text(option),
                file,
                ArgView::Text("-o"@),
                file,
            ]
            &&& rest[0].env.len() == 0 && rest[0].dir is None
        }),
{
    lemma_shown(opt_level);
    reveal_strlit("-O");
    let commands = crate::applet::optimization(applet@, opt_level);
    let file = ArgView::File(applet@);
    assert(commands[0].args =~= seq![file]);
    let level = match opt_level {
        Some(level) => level.shown(true),
        None => seq![],
    };
    let option = match opt_level {
        None => seq!['-', 'O'],
        Some(_) => seq!['-', 'O', level[0]],
    };
    assert("-O"@ + level =~= option);
    assert("-O"@ =~= seq!['-', 'O']);
    assert(commands[1].args =~= seq![
        ArgView::Text("--enable-bulk-memory"@),
        ArgView::Text("--enable-sign-ext"@),
        ArgView::Text("--enable-mutable-globals"@),
        ArgView::Text(option),
        file,
        ArgView::Text("-o"@),
        file,
    ]);
}

/// Two optimizations of the same applet run the same commands exactly if they ask for the
/// same level, or both for none.
pub proof fn law_optimizations_are_told_apart<'a, E>(
    applet: File<'a>,
    level1: Option<OptLevel>,
    level2: Option<OptLevel>,
    progress1: Progress<CommandLine<'a>, E>,
    progress2: Progress<CommandLine<'a>, E>,
)
    requires
        call_ensures(optimize_wasm::<E>, (applet, level1), progress1),
        call_ensures(optimize_wasm::<E>, (applet, level2), progress2),
    ensures
        progress1@ == progress2@ <==> level1 == level2,
{
    law_level_reaches_the_optimizer(applet, level1, progress1);
    law_level_reaches_the_optimizer(applet, level2, progress2);
    if progress1@ == progress2@ {
        let args1 = progress1@->rest[0].args;
        let args2 = progress2@->rest[0].args;
        assert(args1[3]->Text_0 == args2[3]->Text_0);
        let option1 = args1[3]->Text_0;
        let option2 = args2[3]->Text_0;
        assert(option1.len() == option2.len());
        if option1.len() > 2 {
            assert(option1[2] == option2[2]);
        }
    }
}

/// Tests are refused exactly if the package lacks the feature for them. Otherwise they are
/// run in the directory of the project, with that feature and the extra arguments.
pub proof fn law_tests_run_in_the_project<'a>(
    test: RustAppletTest,
    package: Package,
    dir: PathBuf,
    r: Result<CommandLine<'a>, AppletError>,
)
    requires
        call_ensures(RustAppletTest::run, (&test, &package, &dir), r),
    ensures
        r is Ok <==> exists|i: int|
            0 <= i < package.features@.len() && (#[trigger] package.features@[i])@ == "test"@,
        r is Err ==> r->Err_0 is MissingTestFeature,
        r is Ok ==> {
            let cargo = r->Ok_0@;
            &&& cargo.program == "cargo"@
            &&& cargo.env.len() == 0
            &&& cargo.dir == Some(dir)
            &&& cargo.args.len() == 2 + test.cargo@.len()
            &&& cargo.args[0] == ArgView::Text("test"@)
            &&& cargo.args[1] == ArgView::Text("--features=test"@)
            &&& forall|i: int|
                0 <= i < test.cargo@.len() ==> cargo.args[2 + i] == ArgView::Text(
                    (#[trigger] test.cargo@[i])@,
                )
        },
{
    lemma_texts_contain(package.features@, "test"@);
}

} // verus!
