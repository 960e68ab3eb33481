//! State for evaluating a configuration file: registered build targets and the
//! settings a build runs with.
use vstd::prelude::*;

use crate::text::{copy_strings, has_prefix, str_eq, str_starts_with, strs};

verus! {

/// Error of setting the build path.
#[derive(Clone, Debug, PartialEq, Eq)]
pub enum BuildPathError {
    /// The path, resolved against the working directory, is not absolute.
    NotAbsolute(String),
}

/// `path`, resolved against directory `cwd` when it is relative.
pub open spec fn resolved_against(cwd: Seq<char>, path: Seq<char>) -> Seq<char> {
    if has_prefix(path, "/"@) {
        path
    } else {
        path_join(cwd, path)
    }
}

/// `b` appended to directory `a` as a path component.
pub open spec fn path_join(a: Seq<char>, b: Seq<char>) -> Seq<char> {
    if a.len() == 0 || a.last() == '/' {
        a + b
    } else {
        a + "/"@ + b
    }
}

/// Appends path component `b` to directory `a`.
pub fn join_path(a: &str, b: &str) -> (r: String)
    ensures
        r@ == path_join(a@, b@),
{
    let n = a.unicode_len();
    let mut r = a.to_owned();
    assert(r@ == a@);
    if n == 0 || a.get_char(n - 1) == '/' {
        r.append(b);
        assert(r@ == a@ + b@);
    } else {
        r.append("/");
        assert(r@ == a@ + "/"@);
        r.append(b);
    }
    r
}

/// A registered target.
#[derive(Clone, Debug)]
pub struct Target<V> {
    /// The callable registered to this target.
    pub callable: V,
    /// Other targets this one depends on.
    pub depends: Vec<String>,
    /// What calling the callable returned, once it has been called.
    pub resolved_value: Option<V>,
}

/// Error of looking up a target.
#[derive(Clone, Debug, PartialEq, Eq)]
pub enum TargetError {
    /// No target was named and there is no default target.
    NoTarget,
    /// The named target is not registered.
    NotRegistered(String),
    /// The named target has not been resolved yet.
    NotResolved(String),
}

/// Holds state for evaluating a configuration file.
pub struct EnvironmentContext<V> {
    /// Whether executing in verbose mode.
    pub verbose: bool,
    /// Directory the environment is evaluated from.
    pub cwd: String,
    /// Path to the configuration file.
    pub config_path: String,
    /// Host triple we are building from.
    pub build_host_triple: String,
    /// Target triple we are building for.
    pub build_target_triple: String,
    /// Whether we are building a release binary.
    pub build_release: bool,
    /// Optimization level when building binaries.
    pub build_opt_level: String,
    /// Base directory to use for build state.
    pub build_path: String,
    /// Path where Python distributions are written.
    pub python_distributions_path: String,
    /// Registered targets, by name, in the order they were first registered.
    pub targets: Vec<(String, Target<V>)>,
    /// Name of the default target.
    pub default_target: Option<String>,
    /// Name of the default target in build script mode.
    pub default_build_script_target: Option<String>,
    /// Targets to resolve, when given explicitly.
    pub resolve_targets: Option<Vec<String>>,
    /// Whether we are operating in build script mode.
    pub build_script_mode: bool,
}

/// The view of an optional string.
pub open spec fn opt_str(o: Option<String>) -> Option<Seq<char>> {
    match o {
        Some(s) => Some(s@),
        None => None,
    }
}

impl<V> EnvironmentContext<V> {
    /// Names of the registered targets, in registration order.
    pub open spec fn target_names(&self) -> Seq<Seq<char>> {
        self.targets@.map_values(|t: (String, Target<V>)| t.0@)
    }

    /// Target names are unique.
    pub open spec fn wf(&self) -> bool {
        forall|i: int, j: int|
            0 <= i < j < self.targets@.len() ==> #[trigger] self.targets@[i].0@
                != #[trigger] self.targets@[j].0@
    }

    /// The targets to resolve: those given explicitly, else the default build
    /// script target in build script mode, else the default target.
    pub open spec fn spec_targets_to_resolve(&self) -> Seq<Seq<char>> {
        match self.resolve_targets {
            Some(ts) => strs(ts@),
            None => if self.build_script_mode && self.default_build_script_target is Some {
                seq![self.default_build_script_target->Some_0@]
            } else {
                match self.default_target {
                    Some(t) => seq![t@],
                    None => Seq::empty(),
                }
            },
        }
    }

    /// A context for a configuration file at `config_path` in directory `cwd`,
    /// with no targets; build state goes under `cwd/build`.
    pub fn new(
        verbose: bool,
        cwd: &str,
        config_path: &str,
        build_host_triple: &str,
        build_target_triple: &str,
        build_release: bool,
        build_opt_level: &str,
        resolve_targets: Option<Vec<String>>,
        build_script_mode: bool,
    ) -> (r: EnvironmentContext<V>)
        ensures
            r.wf(),
            r.verbose == verbose,
            r.cwd@ == cwd@,
            r.config_path@ == config_path@,
            r.build_host_triple@ == build_host_triple@,
            r.build_target_triple@ == build_target_triple@,
            r.build_release == build_release,
            r.build_opt_level@ == build_opt_level@,
            r.build_path@ == path_join(cwd@, "build"@),
            r.python_distributions_path@ == path_join(
                path_join(cwd@, "build"@),
                "python_distributions"@,
            ),
            r.targets@.len() == 0,
            r.default_target is None,
            r.default_build_script_target is None,
            r.resolve_targets == resolve_targets,
            r.build_script_mode == build_script_mode,
    {
        let build_path = join_path(cwd, "build");
        let python_distributions_path = join_path(build_path.as_str(), "python_distributions");
        EnvironmentContext {
            verbose,
            cwd: cwd.to_owned(),
            config_path: config_path.to_owned(),
            build_host_triple: build_host_triple.to_owned(),
            build_target_triple: build_target_triple.to_owned(),
            build_release,
            build_opt_level: build_opt_level.to_owned(),
            build_path,
            python_distributions_path,
            targets: Vec::new(),
            default_target: None,
            default_build_script_target: None,
            resolve_targets,
            build_script_mode,
        }
    }

    /// The settings other than the build paths are those of `o`.
    pub open spec fn same_settings_but_build_paths(&self, o: &Self) -> bool {
        &&& self.verbose == o.verbose
        &&& self.cwd == o.cwd
        &&& self.config_path == o.config_path
        &&& self.build_host_triple == o.build_host_triple
        &&& self.build_target_triple == o.build_target_triple
        &&& self.build_release == o.build_release
        &&& self.build_opt_level == o.build_opt_level
        &&& self.resolve_targets == o.resolve_targets
        &&& self.build_script_mode == o.build_script_mode
    }

    /// The settings are those of `o`.
    pub open spec fn same_settings(&self, o: &Self) -> bool {
        &&& self.same_settings_but_build_paths(o)
        &&& self.build_path == o.build_path
        &&& self.python_distributions_path == o.python_distributions_path
    }

    /// `path`, resolved against the working directory when relative; an error when
    /// that is not an absolute path. Its `.` and `..` components are left as they are.
    pub fn resolve_build_path(&self, path: &str) -> (r: Result<String, BuildPathError>)
        ensures
            has_prefix(resolved_against(self.cwd@, path@), "/"@) ==> (r matches Ok(p) && p@
                == resolved_against(self.cwd@, path@)),
            !has_prefix(resolved_against(self.cwd@, path@), "/"@) ==> (r matches Err(
                BuildPathError::NotAbsolute(p),
            ) && p@ == resolved_against(self.cwd@, path@)),
    {
        let full = if str_starts_with(path, "/") {
            path.to_owned()
        } else {
            join_path(self.cwd.as_str(), path)
        };
        if str_starts_with(full.as_str(), "/") {
            Ok(full)
        } else {
            Err(BuildPathError::NotAbsolute(full))
        }
    }

    /// Sets the directory for build state to `path`, an absolute path whose `.`
    /// and `..` components are resolved; Python distributions go to its
    /// `python_distributions` directory.
    pub fn set_build_path(&mut self, path: &str)
        ensures
            final(self).build_path@ == path@,
            final(self).python_distributions_path@ == path_join(path@, "python_distributions"@),
            final(self).same_settings_but_build_paths(old(self)),
            final(self).targets == old(self).targets,
            final(self).default_target == old(self).default_target,
            final(self).default_build_script_target == old(self).default_build_script_target,
    {
        self.python_distributions_path = join_path(path, "python_distributions");
        self.build_path = path.to_owned();
    }

    /// Position of target `name`, if registered.
    pub fn find_target(&self, name: &str) -> (r: Option<usize>)
        ensures
            match r {
                Some(i) => i < self.targets@.len() && self.targets@[i as int].0@ == name@,
                None => !self.target_names().contains(name@),
            },
    {
        let mut i: usize = 0;
        while i < self.targets.len()
            invariant
                i <= self.targets@.len(),
                forall|j: int| 0 <= j < i ==> self.targets@[j].0@ != name@,
            decreases self.targets@.len() - i,
        {
            if str_eq(self.targets[i].0.as_str(), name) {
                return Some(i);
            }
            i = i + 1;
        }
        assert forall|j: int| 0 <= j < self.targets@.len() implies #[trigger] self.target_names()[j]
            != name@ by {
            assert(self.target_names()[j] == self.targets@[j].0@);
        }
        None
    }

    /// Names of the registered targets, in the order they were first registered.
    pub fn targets_order(&self) -> (r: Vec<String>)
        ensures
            strs(r@) == self.target_names(),
    {
        let mut r: Vec<String> = Vec::new();
        let mut i: usize = 0;
        while i < self.targets.len()
            invariant
                i <= self.targets@.len(),
                strs(r@) == self.target_names().subrange(0, i as int),
            decreases self.targets@.len() - i,
        {
            let ghost prev = r@;
            let name = self.targets[i].0.clone();
            assert(name@ == self.target_names()[i as int]);
            r.push(name);
            assert(strs(r@) =~= strs(prev).push(name@));
            i = i + 1;
            assert(strs(r@) =~= self.target_names().subrange(0, i as int));
        }
        assert(self.target_names().subrange(0, i as int) =~= self.target_names());
        r
    }

    /// Registers target `target`, replacing a target of that name. It becomes the
    /// default target when `default` holds or there is none yet, and likewise the
    /// default build script target.
    pub fn register_target(
        &mut self,
        target: String,
        callable: V,
        depends: Vec<String>,
        default: bool,
        default_build_script: bool,
    )
        requires
            old(self).wf(),
        ensures
            final(self).wf(),
            final(self).target_names() == if old(self).target_names().contains(target@) {
                old(self).target_names()
            } else {
                old(self).target_names().push(target@)
            },
            forall|i: int|
                0 <= i < final(self).targets@.len() ==> if final(self).targets@[i].0@ == target@ {
                    final(self).targets@[i].1 == (Target {
                        callable,
                        depends,
                        resolved_value: None,
                    })
                } else {
                    i < old(self).targets@.len() && final(self).targets@[i] == old(
                        self,
                    ).targets@[i]
                },
            opt_str(final(self).default_target) == if default || old(self).default_target is None {
                Some(target@)
            } else {
                opt_str(old(self).default_target)
            },
            opt_str(final(self).default_build_script_target) == if default_build_script || old(
                self,
            ).default_build_script_target is None {
                Some(target@)
            } else {
                opt_str(old(self).default_build_script_target)
            },
            final(self).same_settings(old(self)),
    {
        let ghost old_targets = self.targets@;
        let ghost names = self.target_names();
        let ghost new_entry = Target { callable, depends, resolved_value: None };
        let entry = Target { callable, depends, resolved_value: None };
        match self.find_target(target.as_str()) {
            Some(i) => {
                assert(names.contains(target@)) by {
                    assert(names[i as int] == self.targets@[i as int].0@);
                }
                let name = target.clone();
                self.targets.set(i, (name, entry));
                assert(self.targets@ == old_targets.update(i as int, (target, new_entry)));
                assert(forall|j: int|
                    0 <= j < old_targets.len() ==> #[trigger] self.targets@[j].0@ == old_targets[j].0@);
                assert(self.target_names() =~= names);
                assert forall|j: int|
                    0 <= j < self.targets@.len() && self.targets@[j].0@ == target@ implies j == i by {
                    if j != i {
                        assert(old_targets[j].0@ == old_targets[i as int].0@);
                    }
                }
            },
            None => {
                let name = target.clone();
                self.targets.push((name, entry));
                assert(self.targets@ == old_targets.push((target, new_entry)));
                assert(self.target_names() =~= names.push(target@));
                assert forall|j: int| 0 <= j < old_targets.len() implies old_targets[j].0@ != target@ by {
                    assert(names[j] == old_targets[j].0@);
                }
            },
        }
        if default || self.default_target.is_none() {
            self.default_target = Some(target.clone());
        }
        if default_build_script || self.default_build_script_target.is_none() {
            self.default_build_script_target = Some(target);
        }
    }

    /// The main targets to resolve.
    pub fn targets_to_resolve(&self) -> (r: Vec<String>)
        ensures
            strs(r@) == self.spec_targets_to_resolve(),
    {
        match &self.resolve_targets {
            Some(ts) => copy_strings(ts),
            None => {
                if self.build_script_mode && self.default_build_script_target.is_some() {
                    let mut r: Vec<String> = Vec::new();
                    match &self.default_build_script_target {
                        Some(t) => r.push(t.clone()),
                        None => {},
                    }
                    assert(strs(r@) =~= self.spec_targets_to_resolve());
                    r
                } else {
                    let mut r: Vec<String> = Vec::new();
                    match &self.default_target {
                        Some(t) => r.push(t.clone()),
                        None => {},
                    }
                    assert(strs(r@) =~= self.spec_targets_to_resolve());
                    r
                }
            },
        }
    }

    /// The target to build or run: `target` when given, else the default target.
    pub fn target_to_build(&self, target: Option<&str>) -> (r: Result<String, TargetError>)
        ensures
            match target {
                Some(t) => r matches Ok(s) && s@ == t@,
                None => match self.default_target {
                    Some(d) => r matches Ok(s) && s@ == d@,
                    None => r == Err::<String, TargetError>(TargetError::NoTarget),
                },
            },
    {
        match target {
            Some(t) => Ok(t.to_owned()),
            None => match &self.default_target {
                Some(d) => Ok(d.clone()),
                None => Err(TargetError::NoTarget),
            },
        }
    }

    /// Directory that target `target` is built in:
    /// `<build path>/<target triple>/<release or debug>/<target>`.
    pub fn target_output_path(&self, target: &str) -> (r: String)
        ensures
            r@ == path_join(
                path_join(
                    path_join(self.build_path@, self.build_target_triple@),
                    if self.build_release {
                        "release"@
                    } else {
                        "debug"@
                    },
                ),
                target@,
            ),
    {
        let p = join_path(self.build_path.as_str(), self.build_target_triple.as_str());
        let p = join_path(p.as_str(), if self.build_release { "release" } else { "debug" });
        join_path(p.as_str(), target)
    }

    /// The value that registered target `target` resolved to.
    pub fn resolved_value(&self, target: &str) -> (r: Result<&V, TargetError>)
        requires
            self.wf(),
        ensures
            match r {
                Ok(x) => exists|i: int|
                    0 <= i < self.targets@.len() && self.targets@[i].0@ == target@
                        && self.targets@[i].1.resolved_value == Some(*x),
                Err(TargetError::NotRegistered(n)) => n@ == target@ && !self.target_names().contains(
                    target@,
                ),
                Err(TargetError::NotResolved(n)) => n@ == target@ && exists|i: int|
                    0 <= i < self.targets@.len() && self.targets@[i].0@ == target@
                        && self.targets@[i].1.resolved_value is None,
                Err(TargetError::NoTarget) => false,
            },
    {
        match self.find_target(target) {
            None => Err(TargetError::NotRegistered(target.to_owned())),
            Some(i) => {
                match &self.targets[i].1.resolved_value {
                    Some(v) => Ok(v),
                    None => Err(TargetError::NotResolved(target.to_owned())),
                }
            },
        }
    }

    /// The constants a configuration file sees, by name: `CWD`, `CONFIG_PATH` and
    /// `BUILD_TARGET_TRIPLE`.
    pub fn global_constant(&self, name: &str) -> (r: Option<String>)
        ensures
            opt_str(r) == if name@ == "CWD"@ {
                Some(self.cwd@)
            } else if name@ == "CONFIG_PATH"@ {
                Some(self.config_path@)
            } else if name@ == "BUILD_TARGET_TRIPLE"@ {
                Some(self.build_target_triple@)
            } else {
                None
            },
    {
        if str_eq(name, "CWD") {
            Some(self.cwd.clone())
        } else if str_eq(name, "CONFIG_PATH") {
            Some(self.config_path.clone())
        } else if str_eq(name, "BUILD_TARGET_TRIPLE") {
            Some(self.build_target_triple.clone())
        } else {
            None
        }
    }
}

/// Starlark type holding context for the configuration.
pub struct PyOxidizerContext {}

impl Default for PyOxidizerContext {
    fn default() -> (r: Self)
        ensures
            r == (PyOxidizerContext {}),
    {
        PyOxidizerContext {}
    }
}

} // verus!
