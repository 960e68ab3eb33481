use pyoxidizer_fsscan::fsscan::{
    find_python_modules, find_python_resources, is_package_from_path, PythonResourceIterator,
    ScanError, WalkEntry,
};
use pyoxidizer_fsscan::resource::{
    BytecodeModule, BytecodeOptimizationLevel, DataLocation, PythonFileResource,
    PythonModuleSuffixes, ResourceData, SourceModule,
};

const ROOT: &str = "/tmp/pyoxidizer-test";

fn path_of(components: &[&str]) -> String {
    format!("{}/{}", ROOT, components.join("/"))
}

fn entry(components: &[&str]) -> WalkEntry {
    WalkEntry {
        path: path_of(components),
        components: components.iter().map(|c| c.to_string()).collect(),
    }
}

fn empty_suffixes() -> PythonModuleSuffixes {
    PythonModuleSuffixes {
        source: vec![],
        bytecode: vec![],
        debug_bytecode: vec![],
        optimized_bytecode: vec![],
        extension: vec![],
    }
}

fn source(name: &str, components: &[&str], is_package: bool) -> PythonFileResource {
    PythonFileResource::Source(SourceModule {
        name: name.to_string(),
        source: DataLocation::Path(path_of(components)),
        is_package,
    })
}

fn scan(entries: &[&[&str]], suffixes: &PythonModuleSuffixes) -> Vec<PythonFileResource> {
    let entries: Vec<WalkEntry> = entries.iter().map(|c| entry(c)).collect();
    find_python_resources(&entries, suffixes).unwrap()
}

#[test]
fn test_source_resolution() {
    let resources = scan(
        &[
            &["acme", "__init__.py"],
            &["acme", "a", "__init__.py"],
            &["acme", "a", "foo.py"],
            &["acme", "bar", "__init__.py"],
        ],
        &empty_suffixes(),
    );
    assert_eq!(resources.len(), 4);
    assert_eq!(resources[0], source("acme", &["acme", "__init__.py"], true));
    assert_eq!(resources[1], source("acme.a", &["acme", "a", "__init__.py"], true));
    assert_eq!(resources[2], source("acme.a.foo", &["acme", "a", "foo.py"], false));
    assert_eq!(resources[3], source("acme.bar", &["acme", "bar", "__init__.py"], true));
}

#[test]
fn test_site_packages() {
    let resources = scan(
        &[
            &["site-packages", "acme", "__init__.py"],
            &["site-packages", "acme", "bar.py"],
        ],
        &empty_suffixes(),
    );
    assert_eq!(resources.len(), 2);
    assert_eq!(
        resources[0],
        source("acme", &["site-packages", "acme", "__init__.py"], true)
    );
    assert_eq!(
        resources[1],
        source("acme.bar", &["site-packages", "acme", "bar.py"], false)
    );
}

fn extension(
    package: &str,
    stem: &str,
    full_name: &str,
    components: &[&str],
    suffix: &str,
) -> PythonFileResource {
    PythonFileResource::ExtensionModule {
        package: package.to_string(),
        stem: stem.to_string(),
        full_name: full_name.to_string(),
        path: path_of(components),
        extension_file_suffix: suffix.to_string(),
    }
}

#[test]
fn test_extension_module() {
    let suffixes = PythonModuleSuffixes {
        source: vec![],
        bytecode: vec![],
        debug_bytecode: vec![],
        optimized_bytecode: vec![],
        extension: vec![
            ".cp37-win_amd64.pyd".to_string(),
            ".cp37-win32.pyd".to_string(),
            ".cpython-37m-x86_64-linux-gnu.so".to_string(),
            ".pyd".to_string(),
            ".so".to_string(),
        ],
    };
    let resources = scan(
        &[
            &["_cffi_backend.cp37-win_amd64.pyd"],
            &["bar.so"],
            &["foo.pyd"],
            &["markupsafe", "_speedups.cpython-37m-x86_64-linux-gnu.so"],
            &["zstd.cpython-37m-x86_64-linux-gnu.so"],
        ],
        &suffixes,
    );
    assert_eq!(resources.len(), 5);
    assert_eq!(
        resources[0],
        extension(
            "_cffi_backend",
            "_cffi_backend",
            "_cffi_backend",
            &["_cffi_backend.cp37-win_amd64.pyd"],
            ".cp37-win_amd64.pyd"
        )
    );
    assert_eq!(resources[1], extension("bar", "bar", "bar", &["bar.so"], ".so"));
    assert_eq!(resources[2], extension("foo", "foo", "foo", &["foo.pyd"], ".pyd"));
    assert_eq!(
        resources[3],
        extension(
            "markupsafe",
            "_speedups",
            "markupsafe._speedups",
            &["markupsafe", "_speedups.cpython-37m-x86_64-linux-gnu.so"],
            ".cpython-37m-x86_64-linux-gnu.so"
        )
    );
    assert_eq!(
        resources[4],
        extension(
            "zstd",
            "zstd",
            "zstd",
            &["zstd.cpython-37m-x86_64-linux-gnu.so"],
            ".cpython-37m-x86_64-linux-gnu.so"
        )
    );
}

#[test]
fn test_egg_file() {
    let resources = scan(&[&["foo-1.0-py3.7.egg"]], &empty_suffixes());
    assert_eq!(resources.len(), 1);
    assert_eq!(
        resources[0],
        PythonFileResource::EggFile {
            path: path_of(&["foo-1.0-py3.7.egg"])
        }
    );
}

#[test]
fn test_egg_dir() {
    let resources = scan(
        &[
            &["site-packages", "foo-1.0-py3.7.egg", "EGG-INFO", "PKG-INFO"],
            &["site-packages", "foo-1.0-py3.7.egg", "foo", "__init__.py"],
            &["site-packages", "foo-1.0-py3.7.egg", "foo", "bar.py"],
        ],
        &empty_suffixes(),
    );
    assert_eq!(resources.len(), 2);
    assert_eq!(
        resources[0],
        source(
            "foo",
            &["site-packages", "foo-1.0-py3.7.egg", "foo", "__init__.py"],
            true
        )
    );
    assert_eq!(
        resources[1],
        source(
            "foo.bar",
            &["site-packages", "foo-1.0-py3.7.egg", "foo", "bar.py"],
            false
        )
    );
}

#[test]
fn test_pth_file() {
    let resources = scan(&[&["foo.pth"]], &empty_suffixes());
    assert_eq!(resources.len(), 1);
    assert_eq!(
        resources[0],
        PythonFileResource::PthFile {
            path: path_of(&["foo.pth"])
        }
    );
}

#[test]
fn test_root_resource_file() {
    let resources = scan(&[&["resource.txt"]], &empty_suffixes());
    assert!(resources.is_empty());
}

#[test]
fn test_relative_resource_no_package() {
    let resources = scan(
        &[&["foo.py"], &["resources", "resource.txt"]],
        &empty_suffixes(),
    );
    assert_eq!(resources.len(), 1);
    assert_eq!(resources[0], source("foo", &["foo.py"], false));
}

#[test]
fn test_relative_package_resource() {
    let resources = scan(
        &[&["foo", "__init__.py"], &["foo", "resource.txt"]],
        &empty_suffixes(),
    );
    assert_eq!(
        resources,
        vec![
            source("foo", &["foo", "__init__.py"], true),
            PythonFileResource::Resource(ResourceData {
                full_name: "foo/resource.txt".to_string(),
                leaf_package: "foo".to_string(),
                relative_name: "resource.txt".to_string(),
                data: DataLocation::Path(path_of(&["foo", "resource.txt"])),
            })
        ]
    );
}

#[test]
fn test_subdirectory_resource() {
    let resources = scan(
        &[&["foo", "__init__.py"], &["foo", "resources", "resource.txt"]],
        &empty_suffixes(),
    );
    assert_eq!(
        resources,
        vec![
            source("foo", &["foo", "__init__.py"], true),
            PythonFileResource::Resource(ResourceData {
                full_name: "foo/resources/resource.txt".to_string(),
                leaf_package: "foo".to_string(),
                relative_name: "resources/resource.txt".to_string(),
                data: DataLocation::Path(path_of(&["foo", "resources", "resource.txt"])),
            })
        ]
    );
}

#[test]
fn deepest_package_owns_resource() {
    let resources = scan(
        &[
            &["foo", "__init__.py"],
            &["foo", "bar", "__init__.py"],
            &["foo", "bar", "data", "x.txt"],
        ],
        &empty_suffixes(),
    );
    assert_eq!(
        resources[2],
        PythonFileResource::Resource(ResourceData {
            full_name: "foo/bar/data/x.txt".to_string(),
            leaf_package: "foo.bar".to_string(),
            relative_name: "data/x.txt".to_string(),
            data: DataLocation::Path(path_of(&["foo", "bar", "data", "x.txt"])),
        })
    );
}

#[test]
fn resource_before_its_package_marker_resolves() {
    // `pkg/aaa.txt` is walked before `pkg/b.py` registers package `pkg`.
    let resources = scan(
        &[&["pkg", "aaa.txt"], &["pkg", "b.py"]],
        &empty_suffixes(),
    );
    assert_eq!(resources.len(), 2);
    assert_eq!(resources[0], source("pkg.b", &["pkg", "b.py"], false));
    assert_eq!(
        resources[1],
        PythonFileResource::Resource(ResourceData {
            full_name: "pkg/aaa.txt".to_string(),
            leaf_package: "pkg".to_string(),
            relative_name: "aaa.txt".to_string(),
            data: DataLocation::Path(path_of(&["pkg", "aaa.txt"])),
        })
    );
}

#[test]
fn metadata_directories_are_skipped() {
    let resources = scan(
        &[
            &["foo-1.0.dist-info", "METADATA"],
            &["foo-1.0.egg-info", "PKG-INFO"],
            &["foo", "__init__.py"],
        ],
        &empty_suffixes(),
    );
    assert_eq!(resources, vec![source("foo", &["foo", "__init__.py"], true)]);
}

#[test]
fn bytecode_modules_and_levels() {
    let resources = scan(
        &[
            &["acme", "__pycache__", "__init__.cpython-37.pyc"],
            &["acme", "__pycache__", "foo.cpython-37.opt-1.pyc"],
            &["acme", "__pycache__", "foo.cpython-37.opt-2.pyc"],
            &["acme", "__pycache__", "foo.cpython-37.pyc"],
        ],
        &empty_suffixes(),
    );
    let bytecode = |name: &str, file: &str, level| {
        PythonFileResource::Bytecode(BytecodeModule {
            name: name.to_string(),
            source: DataLocation::Path(path_of(&["acme", "__pycache__", file])),
            optimize_level: level,
        })
    };
    assert_eq!(
        resources,
        vec![
            bytecode("acme", "__init__.cpython-37.pyc", BytecodeOptimizationLevel::Zero),
            bytecode(
                "acme.foo.cpython-37",
                "foo.cpython-37.opt-1.pyc",
                BytecodeOptimizationLevel::One
            ),
            bytecode(
                "acme.foo.cpython-37",
                "foo.cpython-37.opt-2.pyc",
                BytecodeOptimizationLevel::Two
            ),
            bytecode("acme.foo", "foo.cpython-37.pyc", BytecodeOptimizationLevel::Zero),
        ]
    );
}

#[test]
fn bytecode_outside_cache_is_other() {
    let resources = scan(&[&["acme", "foo.pyc"]], &empty_suffixes());
    assert_eq!(
        resources,
        vec![PythonFileResource::Other {
            package: "acme".to_string(),
            stem: "foo.pyc".to_string(),
            full_name: "acme.foo.pyc".to_string(),
            path: path_of(&["acme", "foo.pyc"]),
        }]
    );
}

#[test]
fn bytecode_without_directory_is_fatal() {
    let entries = vec![entry(&["foo.py"]), entry(&["foo.pyc"])];
    assert_eq!(
        find_python_resources(&entries, &empty_suffixes()),
        Err(ScanError::InvalidBytecodePath(path_of(&["foo.pyc"])))
    );
}

#[test]
fn extension_init_module_names_its_package() {
    let suffixes = PythonModuleSuffixes {
        extension: vec![".so".to_string()],
        ..empty_suffixes()
    };
    let resources = scan(&[&["pkg", "__init__.so"]], &suffixes);
    assert_eq!(
        resources,
        vec![extension("pkg", "", "pkg", &["pkg", "__init__.so"], ".so")]
    );
}

#[test]
fn rescanning_gives_identical_results() {
    let tree: &[&[&str]] = &[
        &["acme", "__init__.py"],
        &["acme", "data.txt"],
        &["acme", "sub", "x.py"],
        &["other.txt"],
        &["site-packages", "z", "__init__.py"],
    ];
    let first = scan(tree, &empty_suffixes());
    let second = scan(tree, &empty_suffixes());
    assert_eq!(first, second);
    assert_eq!(first.len(), 4);
}

#[test]
fn package_file_names() {
    assert!(is_package_from_path(&vec!["acme".to_string(), "__init__.py".to_string()]));
    assert!(!is_package_from_path(&vec!["acme".to_string(), "foo.py".to_string()]));
    assert!(!is_package_from_path(&vec!["__init__".to_string()]));
}

#[test]
fn modules_filter_sources() {
    let suffixes = PythonModuleSuffixes {
        extension: vec![".so".to_string()],
        ..empty_suffixes()
    };
    let resources = scan(
        &[&["a.so"], &["b", "__init__.py"], &["b", "c.txt"], &["d.py"]],
        &suffixes,
    );
    let modules = find_python_modules(&resources);
    let names: Vec<&str> = modules.iter().map(|m| m.name.as_str()).collect();
    assert_eq!(names, vec!["b", "d"]);
    assert!(modules[0].is_package);
}

#[test]
fn streaming_scan_buffers_resources() {
    let suffixes = empty_suffixes();
    let mut it = PythonResourceIterator::new(&suffixes);
    assert_eq!(it.add_entry(&entry(&["foo", "data.txt"])), Ok(None));
    assert_eq!(
        it.add_entry(&entry(&["foo", "__init__.py"])),
        Ok(Some(source("foo", &["foo", "__init__.py"], true)))
    );
    assert_eq!(it.add_entry(&entry(&["loose.txt"])), Ok(None));
    assert_eq!(
        it.next_resource(),
        Some(PythonFileResource::Resource(ResourceData {
            full_name: "foo/data.txt".to_string(),
            leaf_package: "foo".to_string(),
            relative_name: "data.txt".to_string(),
            data: DataLocation::Path(path_of(&["foo", "data.txt"])),
        }))
    );
    assert_eq!(it.next_resource(), None);
    assert_eq!(it.next_resource(), None);
}

#[test]
fn earlier_suffix_beats_later_and_extension() {
    let suffixes = PythonModuleSuffixes {
        extension: vec![".abi3.so".to_string(), ".so".to_string(), ".py".to_string()],
        ..empty_suffixes()
    };
    let resources = scan(&[&["a.abi3.so"], &["b.py"]], &suffixes);
    assert_eq!(
        resources,
        vec![
            extension("a", "a", "a", &["a.abi3.so"], ".abi3.so"),
            extension("b", "b", "b", &["b.py"], ".py"),
        ]
    );
}

#[test]
fn egg_without_site_packages_is_rerooted() {
    let resources = scan(
        &[&["x.egg", "EGG-INFO", "PKG-INFO"], &["x.egg", "pkg", "mod.py"]],
        &empty_suffixes(),
    );
    assert_eq!(resources, vec![source("pkg.mod", &["x.egg", "pkg", "mod.py"], false)]);
}
