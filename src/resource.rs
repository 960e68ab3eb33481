use vstd::prelude::*;

use crate::text::strs;

verus! {

/// Where the content of a module or a resource can be read from.
#[derive(Clone, Debug, PartialEq, Eq)]
pub enum DataLocation {
    /// A file on the filesystem, read when the content is needed.
    Path(String),
}

impl View for DataLocation {
    type V = Seq<char>;

    open spec fn view(&self) -> Seq<char> {
        match self {
            DataLocation::Path(p) => p@,
        }
    }
}

/// The optimization level a bytecode file was compiled with.
#[derive(Clone, Copy, Debug, PartialEq, Eq, Structural)]
pub enum BytecodeOptimizationLevel {
    Zero,
    One,
    Two,
}

/// Python module source code.
#[derive(Clone, Debug, PartialEq, Eq)]
pub struct SourceModule {
    /// Dotted name of the module.
    pub name: String,
    /// Where the source can be read from.
    pub source: DataLocation,
    /// Whether the module is a package (its file is the package's init file).
    pub is_package: bool,
}

/// Python module bytecode.
#[derive(Clone, Debug, PartialEq, Eq)]
pub struct BytecodeModule {
    /// Dotted name of the module.
    pub name: String,
    /// Where the bytecode can be read from.
    pub source: DataLocation,
    /// Optimization level of the bytecode.
    pub optimize_level: BytecodeOptimizationLevel,
}

/// A non-module resource, addressed relative to its leaf-most package.
#[derive(Clone, Debug, PartialEq, Eq)]
pub struct ResourceData {
    /// The resource's relative path, with `/` separators.
    pub full_name: String,
    /// The deepest registered package enclosing the resource.
    pub leaf_package: String,
    /// Path of the resource relative to `leaf_package`, with `/` separators.
    pub relative_name: String,
    /// Where the content can be read from.
    pub data: DataLocation,
}

/// A file whose package is resolved once the whole tree has been seen.
#[derive(Clone, Debug, PartialEq, Eq)]
pub struct ResourceFile {
    /// Filesystem path of this resource.
    pub full_path: String,
    /// Path components of this resource, relative to its package root.
    pub relative_path: Vec<String>,
}

/// Filename suffixes recognised for each kind of module file.
#[derive(Clone, Debug, PartialEq, Eq)]
pub struct PythonModuleSuffixes {
    pub source: Vec<String>,
    pub bytecode: Vec<String>,
    pub debug_bytecode: Vec<String>,
    pub optimized_bytecode: Vec<String>,
    /// Extension module suffixes, most specific first.
    pub extension: Vec<String>,
}

/// A Python resource backed by the filesystem.
#[derive(Clone, Debug, PartialEq, Eq)]
pub enum PythonFileResource {
    /// Python module source code, i.e. a `.py` file.
    Source(SourceModule),
    /// A Python module bytecode file, i.e. a `.pyc` file.
    Bytecode(BytecodeModule),
    /// A compiled extension module, i.e. a `.so` or `.pyd` file.
    ExtensionModule {
        package: String,
        stem: String,
        full_name: String,
        path: String,
        extension_file_suffix: String,
    },
    /// A non-module Python resource.
    Resource(ResourceData),
    /// A resource file whose package is not resolved yet.
    ResourceFile(ResourceFile),
    /// A Python egg, i.e. a `.egg` file.
    EggFile { path: String },
    /// A Python path extension file, i.e. a `.pth` file.
    PthFile { path: String },
    /// A bytecode file outside a `__pycache__` directory.
    Other { package: String, stem: String, full_name: String, path: String },
}

/// The mathematical content of a [`PythonFileResource`].
pub enum ResourceView {
    Source { name: Seq<char>, location: Seq<char>, is_package: bool },
    Bytecode { name: Seq<char>, location: Seq<char>, level: BytecodeOptimizationLevel },
    ExtensionModule {
        package: Seq<char>,
        stem: Seq<char>,
        full_name: Seq<char>,
        path: Seq<char>,
        suffix: Seq<char>,
    },
    Resource {
        full_name: Seq<char>,
        leaf_package: Seq<char>,
        relative_name: Seq<char>,
        location: Seq<char>,
    },
    ResourceFile { full_path: Seq<char>, relative_path: Seq<Seq<char>> },
    EggFile { path: Seq<char> },
    PthFile { path: Seq<char> },
    Other { package: Seq<char>, stem: Seq<char>, full_name: Seq<char>, path: Seq<char> },
}

impl View for PythonFileResource {
    type V = ResourceView;

    open spec fn view(&self) -> ResourceView {
        match self {
            PythonFileResource::Source(m) => ResourceView::Source {
                name: m.name@,
                location: m.source@,
                is_package: m.is_package,
            },
            PythonFileResource::Bytecode(m) => ResourceView::Bytecode {
                name: m.name@,
                location: m.source@,
                level: m.optimize_level,
            },
            PythonFileResource::ExtensionModule {
                package,
                stem,
                full_name,
                path,
                extension_file_suffix,
            } => ResourceView::ExtensionModule {
                package: package@,
                stem: stem@,
                full_name: full_name@,
                path: path@,
                suffix: extension_file_suffix@,
            },
            PythonFileResource::Resource(r) => ResourceView::Resource {
                full_name: r.full_name@,
                leaf_package: r.leaf_package@,
                relative_name: r.relative_name@,
                location: r.data@,
            },
            PythonFileResource::ResourceFile(f) => ResourceView::ResourceFile {
                full_path: f.full_path@,
                relative_path: strs(f.relative_path@),
            },
            PythonFileResource::EggFile { path } => ResourceView::EggFile { path: path@ },
            PythonFileResource::PthFile { path } => ResourceView::PthFile { path: path@ },
            PythonFileResource::Other { package, stem, full_name, path } => ResourceView::Other {
                package: package@,
                stem: stem@,
                full_name: full_name@,
                path: path@,
            },
        }
    }
}

/// The views of a sequence of resources.
pub open spec fn views(v: Seq<PythonFileResource>) -> Seq<ResourceView> {
    v.map_values(|r: PythonFileResource| r@)
}

} // verus!
