//! Classifying the files of a Python distribution tree into resources.
use vstd::prelude::*;

use crate::resource::{
    BytecodeModule, BytecodeOptimizationLevel, DataLocation, PythonFileResource,
    PythonModuleSuffixes, ResourceData, ResourceFile, ResourceView, SourceModule, views,
};
use crate::text::{
    copy_strings, dotted, drop_chars, file_ext, file_stem, has_prefix, has_suffix, join_parts,
    slashed, split_file_name, str_ends_with, str_eq, str_starts_with, strip_last_segment, strs,
    without_last_segment,
};

verus! {

// ---------------------------------------------------------------------------
// Root normalization

/// Index of the first directory component (not the file name) ending in `.egg`,
/// searching from `i`.
pub open spec fn first_egg_dir_from(c: Seq<Seq<char>>, i: int) -> Option<int>
    decreases c.len() - i,
{
    if i < 0 || i >= c.len() - 1 {
        None
    } else if has_suffix(c[i], ".egg"@) {
        Some(i)
    } else {
        first_egg_dir_from(c, i + 1)
    }
}

/// The components after a leading `site-packages` directory is stripped.
pub open spec fn without_site_packages(c: Seq<Seq<char>>) -> Seq<Seq<char>> {
    if c.len() > 1 && c[0] == "site-packages"@ {
        c.drop_first()
    } else {
        c
    }
}

/// The path components of an entry relative to its package root, or `None` when
/// the entry is packaging metadata.
///
/// Entries under a top-level `*.dist-info` or `*.egg-info` directory are metadata.
/// A leading `site-packages` directory is a package root of its own, and so is the
/// first directory ending in `.egg`, whose `EGG-INFO` directory is metadata.
pub open spec fn normalized(c: Seq<Seq<char>>) -> Option<Seq<Seq<char>>> {
    if has_suffix(c[0], ".dist-info"@) || has_suffix(c[0], ".egg-info"@) {
        None
    } else {
        let c1 = without_site_packages(c);
        match first_egg_dir_from(c1, 0) {
            None => Some(c1),
            Some(k) => {
                let c2 = c1.subrange(k + 1, c1.len() as int);
                if c2[0] == "EGG-INFO"@ {
                    None
                } else {
                    Some(c2)
                }
            },
        }
    }
}

// ---------------------------------------------------------------------------
// Classification

/// Index of the first suffix of `sfx`, from `i` on, that `name` ends with.
pub open spec fn first_suffix_from(sfx: Seq<Seq<char>>, name: Seq<char>, i: int) -> Option<int>
    decreases sfx.len() - i,
{
    if i < 0 || i >= sfx.len() {
        None
    } else if has_suffix(name, sfx[i]) {
        Some(i)
    } else {
        first_suffix_from(sfx, name, i + 1)
    }
}

/// Whether a module name is the package init marker.
pub open spec fn is_init(module: Seq<char>) -> bool {
    module == "__init__"@
}

/// Dotted name of module `module` in the directories `dirs`; a package's init
/// module is named after its directory.
pub open spec fn module_full_name(dirs: Seq<Seq<char>>, module: Seq<char>) -> Seq<char> {
    if is_init(module) {
        dotted(dirs)
    } else {
        dotted(dirs.push(module))
    }
}

/// The package a module registers: its directories' dotted name, or the module's
/// own name at the root.
pub open spec fn owning_package(dirs: Seq<Seq<char>>, full: Seq<char>) -> Seq<char> {
    if dotted(dirs).len() == 0 {
        full
    } else {
        dotted(dirs)
    }
}

/// Optimization level encoded in a bytecode file name.
pub open spec fn bytecode_level(name: Seq<char>) -> BytecodeOptimizationLevel {
    if has_suffix(name, ".opt-1.pyc"@) {
        BytecodeOptimizationLevel::One
    } else if has_suffix(name, ".opt-2.pyc"@) {
        BytecodeOptimizationLevel::Two
    } else {
        BytecodeOptimizationLevel::Zero
    }
}

/// The resource a file at `path`, with components `c` relative to its package root,
/// is classified as, together with the package it registers. `Err` for a bytecode
/// file with no parent directory.
pub open spec fn classified(sfx: Seq<Seq<char>>, path: Seq<char>, c: Seq<Seq<char>>) -> Result<
    (ResourceView, Option<Seq<char>>),
    (),
> {
    let name = c.last();
    let dirs = c.drop_last();
    match first_suffix_from(sfx, name, 0) {
        Some(i) => {
            let m = name.subrange(0, name.len() - sfx[i].len());
            let full = module_full_name(dirs, m);
            let package = owning_package(dirs, full);
            Ok(
                (
                    ResourceView::ExtensionModule {
                        package,
                        stem: if is_init(m) {
                            Seq::empty()
                        } else {
                            m
                        },
                        full_name: full,
                        path,
                        suffix: sfx[i],
                    },
                    Some(package),
                ),
            )
        },
        None => {
            if file_ext(name) == Some("py"@) {
                let m = file_stem(name);
                let full = module_full_name(dirs, m);
                Ok(
                    (
                        ResourceView::Source { name: full, location: path, is_package: is_init(m) },
                        Some(owning_package(dirs, full)),
                    ),
                )
            } else if file_ext(name) == Some("pyc"@) {
                if c.len() < 2 {
                    Err(())
                } else if dirs.last() != "__pycache__"@ {
                    Ok(
                        (
                            ResourceView::Other {
                                package: dotted(dirs),
                                stem: name,
                                full_name: dotted(c),
                                path,
                            },
                            None,
                        ),
                    )
                } else {
                    let pk = c.subrange(0, c.len() - 2);
                    let full = module_full_name(pk, without_last_segment(file_stem(name)));
                    Ok(
                        (
                            ResourceView::Bytecode {
                                name: full,
                                location: path,
                                level: bytecode_level(name),
                            },
                            Some(owning_package(pk, full)),
                        ),
                    )
                }
            } else if file_ext(name) == Some("egg"@) {
                Ok((ResourceView::EggFile { path }, None))
            } else if file_ext(name) == Some("pth"@) {
                Ok((ResourceView::PthFile { path }, None))
            } else {
                Ok((ResourceView::ResourceFile { full_path: path, relative_path: c }, None))
            }
        },
    }
}

/// What one walked file gives: nothing (metadata), or its resource and the package
/// it registers; `Err` when the tree is malformed there.
pub open spec fn entry_outcome(sfx: Seq<Seq<char>>, path: Seq<char>, raw: Seq<Seq<char>>) -> Result<
    Option<(ResourceView, Option<Seq<char>>)>,
    (),
> {
    match normalized(raw) {
        None => Ok(None),
        Some(c) => match classified(sfx, path, c) {
            Err(_) => Err(()),
            Ok(x) => Ok(Some(x)),
        },
    }
}

/// An entry under an unpacked egg is rooted at the first directory whose name
/// ends in `.egg`, unless it lies in that egg's `EGG-INFO` directory.
pub proof fn lemma_egg_reroot(c: Seq<Seq<char>>, j: int)
    requires
        c.len() >= 1,
        !has_suffix(c[0], ".dist-info"@),
        !has_suffix(c[0], ".egg-info"@),
        0 <= j < without_site_packages(c).len() - 1,
        has_suffix(without_site_packages(c)[j], ".egg"@),
        forall|i: int| 0 <= i < j ==> !has_suffix(#[trigger] without_site_packages(c)[i], ".egg"@),
        without_site_packages(c)[j + 1] != "EGG-INFO"@,
    ensures
        normalized(c) == Some(
            without_site_packages(c).subrange(j + 1, without_site_packages(c).len() as int),
        ),
{
    lemma_first_egg_dir(without_site_packages(c), 0, j);
}

proof fn lemma_first_egg_dir(c: Seq<Seq<char>>, i: int, j: int)
    requires
        0 <= i <= j < c.len() - 1,
        has_suffix(c[j], ".egg"@),
        forall|k: int| i <= k < j ==> !has_suffix(#[trigger] c[k], ".egg"@),
    ensures
        first_egg_dir_from(c, i) == Some(j),
    decreases j - i,
{
    if i < j {
        lemma_first_egg_dir(c, i + 1, j);
    }
}

/// The extension suffix a file is classified by is the first in table order that
/// its name ends with, whatever later suffixes or its extension would say.
pub proof fn lemma_first_suffix_wins(sfx: Seq<Seq<char>>, name: Seq<char>, k: int)
    requires
        0 <= k < sfx.len(),
        has_suffix(name, sfx[k]),
        forall|i: int| 0 <= i < k ==> !has_suffix(name, #[trigger] sfx[i]),
    ensures
        first_suffix_from(sfx, name, 0) == Some(k),
{
    lemma_first_suffix_from(sfx, name, 0, k);
}

proof fn lemma_first_suffix_from(sfx: Seq<Seq<char>>, name: Seq<char>, i: int, k: int)
    requires
        0 <= i <= k < sfx.len(),
        has_suffix(name, sfx[k]),
        forall|m: int| i <= m < k ==> !has_suffix(name, #[trigger] sfx[m]),
    ensures
        first_suffix_from(sfx, name, i) == Some(k),
    decreases k - i,
{
    if i < k {
        lemma_first_suffix_from(sfx, name, i + 1, k);
    }
}

/// Whether a file name marks its directory as a package.
pub open spec fn is_package_file_name(name: Seq<char>) -> bool {
    has_prefix(name, "__init__."@)
}

/// Error that aborts a scan.
#[derive(Clone, Debug, PartialEq, Eq)]
pub enum ScanError {
    /// A bytecode file with no parent directory; holds its path.
    InvalidBytecodePath(String),
}

/// Whether the file at `path` (its components, the file name last) is a package's
/// init file.
pub fn is_package_from_path(path: &Vec<String>) -> (r: bool)
    requires
        path@.len() >= 1,
    ensures
        r == is_package_file_name(path@.last()@),
{
    let name = &path[path.len() - 1];
    str_starts_with(name.as_str(), "__init__.")
}

/// The components of an entry relative to its package root, or `None` for metadata.
pub fn normalize_components(c: &Vec<String>) -> (r: Option<Vec<String>>)
    requires
        c@.len() >= 1,
    ensures
        match r {
            None => normalized(strs(c@)) is None,
            Some(v) => normalized(strs(c@)) == Some(strs(v@)) && v@.len() >= 1,
        },
{
    let ghost sc = strs(c@);
    assert(sc[0] == c@[0]@);
    if str_ends_with(c[0].as_str(), ".dist-info") || str_ends_with(c[0].as_str(), ".egg-info") {
        return None;
    }
    let mut comps = copy_strings(c);
    if comps.len() > 1 && str_eq(comps[0].as_str(), "site-packages") {
        comps.remove(0);
        assert(strs(comps@) =~= sc.drop_first());
    } else {
        assert(strs(comps@) =~= sc);
    }
    let ghost c1 = strs(comps@);
    assert(c1 == without_site_packages(sc));
    let mut i: usize = 0;
    while i < comps.len() - 1
        invariant
            sc == strs(c@),
            !(has_suffix(sc[0], ".dist-info"@) || has_suffix(sc[0], ".egg-info"@)),
            c1 == without_site_packages(sc),
            c1 == strs(comps@),
            comps@.len() >= 1,
            i < comps@.len(),
            first_egg_dir_from(c1, 0) == first_egg_dir_from(c1, i as int),
        decreases comps@.len() - i,
    {
        assert(c1[i as int] == comps@[i as int]@);
        if str_ends_with(comps[i].as_str(), ".egg") {
            let rest = comps.split_off(i + 1);
            assert(strs(rest@) =~= c1.subrange(i + 1, c1.len() as int));
            assert(strs(rest@)[0] == rest@[0]@);
            if str_eq(rest[0].as_str(), "EGG-INFO") {
                return None;
            }
            return Some(rest);
        }
        i = i + 1;
    }
    Some(comps)
}

/// The name `m` of a module in directories `dirs`, dotted.
fn module_name_in(dirs: &Vec<String>, m: &String) -> (r: String)
    ensures
        r@ == module_full_name(strs(dirs@), m@),
{
    if str_eq(m.as_str(), "__init__") {
        join_parts(dirs, ".")
    } else {
        let mut parts = copy_strings(dirs);
        parts.push(m.clone());
        assert(strs(parts@) =~= strs(dirs@).push(m@));
        join_parts(&parts, ".")
    }
}

/// The package a module of name `full` in directories `dirs` registers.
fn package_of(dirs: &Vec<String>, full: &String) -> (r: String)
    ensures
        r@ == owning_package(strs(dirs@), full@),
{
    let package = join_parts(dirs, ".");
    if package.as_str().is_empty() {
        full.clone()
    } else {
        package
    }
}

/// Classifies a file at `path` whose components relative to its package root are
/// `c`, and gives the package it registers.
pub fn classify(suffixes: &PythonModuleSuffixes, path: &String, c: &Vec<String>) -> (r: Result<
    (PythonFileResource, Option<String>),
    ScanError,
>)
    requires
        c@.len() >= 1,
    ensures
        match classified(strs(suffixes.extension@), path@, strs(c@)) {
            Err(_) => r == Err::<(PythonFileResource, Option<String>), ScanError>(
                ScanError::InvalidBytecodePath(*path),
            ),
            Ok((v, p)) => r is Ok && r->Ok_0.0@ == v && match r->Ok_0.1 {
                None => p is None,
                Some(q) => p == Some(q@),
            },
        },
        r matches Ok((PythonFileResource::ResourceFile(f), _)) ==> f.relative_path@.len()
            == c@.len(),
{
    let ghost sc = strs(c@);
    let ghost sfx = strs(suffixes.extension@);
    let mut dirs = copy_strings(c);
    let name = dirs.pop().unwrap();
    assert(strs(dirs@) =~= sc.drop_last());
    assert(name@ == sc.last());
    let ext = &suffixes.extension;
    let mut i: usize = 0;
    while i < ext.len()
        invariant
            sc == strs(c@),
            name@ == sc.last(),
            strs(dirs@) == sc.drop_last(),
            sfx == strs(ext@),
            sfx == strs(suffixes.extension@),
            i <= ext@.len(),
            first_suffix_from(sfx, name@, 0) == first_suffix_from(sfx, name@, i as int),
        decreases ext@.len() - i,
    {
        assert(sfx[i as int] == ext@[i as int]@);
        if str_ends_with(name.as_str(), ext[i].as_str()) {
            let n = ext[i].as_str().unicode_len();
            let m = drop_chars(name.as_str(), n);
            let full = module_name_in(&dirs, &m);
            let package = package_of(&dirs, &full);
            let stem = if str_eq(m.as_str(), "__init__") {
                String::new()
            } else {
                m
            };
            let registered = package.clone();
            return Ok(
                (
                    PythonFileResource::ExtensionModule {
                        package,
                        stem,
                        full_name: full,
                        path: path.clone(),
                        extension_file_suffix: ext[i].clone(),
                    },
                    Some(registered),
                ),
            );
        }
        i = i + 1;
    }
    let (stem, extension) = split_file_name(name.as_str());
    let (is_py, is_pyc, is_egg, is_pth) = match &extension {
        Some(e) => (
            str_eq(e.as_str(), "py"),
            str_eq(e.as_str(), "pyc"),
            str_eq(e.as_str(), "egg"),
            str_eq(e.as_str(), "pth"),
        ),
        None => (false, false, false, false),
    };
    if is_py {
        let full = module_name_in(&dirs, &stem);
        let package = package_of(&dirs, &full);
        let is_package = str_eq(stem.as_str(), "__init__");
        Ok(
            (
                PythonFileResource::Source(
                    SourceModule { name: full, source: DataLocation::Path(path.clone()), is_package },
                ),
                Some(package),
            ),
        )
    } else if is_pyc {
        if c.len() < 2 {
            return Err(ScanError::InvalidBytecodePath(path.clone()));
        }
        assert(strs(dirs@).last() == dirs@[dirs@.len() - 1]@);
        if !str_eq(dirs[dirs.len() - 1].as_str(), "__pycache__") {
            let package = join_parts(&dirs, ".");
            let full_name = join_parts(c, ".");
            return Ok(
                (PythonFileResource::Other { package, stem: name, full_name, path: path.clone() }, None),
            );
        }
        let mut pk = copy_strings(&dirs);
        pk.pop();
        assert(strs(pk@) =~= sc.subrange(0, sc.len() - 2));
        let module = strip_last_segment(stem.as_str());
        let full = module_name_in(&pk, &module);
        let package = package_of(&pk, &full);
        let level = if str_ends_with(name.as_str(), ".opt-1.pyc") {
            BytecodeOptimizationLevel::One
        } else if str_ends_with(name.as_str(), ".opt-2.pyc") {
            BytecodeOptimizationLevel::Two
        } else {
            BytecodeOptimizationLevel::Zero
        };
        Ok(
            (
                PythonFileResource::Bytecode(
                    BytecodeModule {
                        name: full,
                        source: DataLocation::Path(path.clone()),
                        optimize_level: level,
                    },
                ),
                Some(package),
            ),
        )
    } else if is_egg {
        Ok((PythonFileResource::EggFile { path: path.clone() }, None))
    } else if is_pth {
        Ok((PythonFileResource::PthFile { path: path.clone() }, None))
    } else {
        let relative_path = copy_strings(c);
        Ok(
            (
                PythonFileResource::ResourceFile(
                    ResourceFile { full_path: path.clone(), relative_path },
                ),
                None,
            ),
        )
    }
}

// ---------------------------------------------------------------------------
// Resource address resolution

/// A file: its path, and its path components (the file name last).
pub type FileView = (Seq<char>, Seq<Seq<char>>);

/// The largest `j <= k` whose first `j` directories name a registered package.
pub open spec fn leaf_prefix(reg: Set<Seq<char>>, dirs: Seq<Seq<char>>, k: int) -> Option<int>
    decreases k + 1,
{
    if k < 0 {
        None
    } else if reg.contains(dotted(dirs.subrange(0, k))) {
        Some(k)
    } else {
        leaf_prefix(reg, dirs, k - 1)
    }
}

/// The data resource a buffered file at `path` with components `c` becomes, given
/// the registered packages; `None` when no enclosing directory is a package.
pub open spec fn resolved(reg: Set<Seq<char>>, path: Seq<char>, c: Seq<Seq<char>>) -> Option<
    ResourceView,
> {
    let dirs = c.drop_last();
    match leaf_prefix(reg, dirs, dirs.len() as int) {
        None => None,
        Some(k) => Some(
            ResourceView::Resource {
                full_name: slashed(c),
                leaf_package: dotted(dirs.subrange(0, k)),
                relative_name: slashed(c.subrange(k, c.len() as int)),
                location: path,
            },
        ),
    }
}

/// Takes buffered files from the front until one resolves: that resource (if any)
/// and the files left.
pub open spec fn drain(reg: Set<Seq<char>>, pending: Seq<FileView>) -> (
    Option<ResourceView>,
    Seq<FileView>,
)
    decreases pending.len(),
{
    if pending.len() == 0 {
        (None, pending)
    } else {
        match resolved(reg, pending[0].0, pending[0].1) {
            Some(r) => (Some(r), pending.drop_first()),
            None => drain(reg, pending.drop_first()),
        }
    }
}

/// The data resources that the buffered files resolve to, in buffering order.
pub open spec fn resolve_all(reg: Set<Seq<char>>, pending: Seq<FileView>) -> Seq<ResourceView>
    decreases pending.len(),
{
    if pending.len() == 0 {
        Seq::empty()
    } else {
        let rest = resolve_all(reg, pending.drop_last());
        match resolved(reg, pending.last().0, pending.last().1) {
            Some(r) => rest.push(r),
            None => rest,
        }
    }
}

// ---------------------------------------------------------------------------
// The scan

/// The registry after a file that registers `p` (if anything).
pub open spec fn registered(reg: Set<Seq<char>>, p: Option<Seq<char>>) -> Set<Seq<char>> {
    match p {
        Some(q) => reg.insert(q),
        None => reg,
    }
}

/// One walked file `e` taken in: the registry, the resource given out at once (if
/// any) and the buffered files after it.
pub open spec fn entry_step(
    sfx: Seq<Seq<char>>,
    reg: Set<Seq<char>>,
    pending: Seq<FileView>,
    e: FileView,
) -> Result<(Set<Seq<char>>, Option<ResourceView>, Seq<FileView>), ()> {
    match entry_outcome(sfx, e.0, e.1) {
        Err(_) => Err(()),
        Ok(None) => Ok((reg, None, pending)),
        Ok(Some((v, p))) => match v {
            ResourceView::ResourceFile { full_path, relative_path } => Ok(
                (registered(reg, p), None, pending.push((full_path, relative_path))),
            ),
            _ => Ok((registered(reg, p), Some(v), pending)),
        },
    }
}

/// The walk over `entries`: the registry, the resources given out at once, and the
/// buffered files.
pub open spec fn walk(sfx: Seq<Seq<char>>, entries: Seq<FileView>) -> Result<
    (Set<Seq<char>>, Seq<ResourceView>, Seq<FileView>),
    (),
>
    decreases entries.len(),
{
    if entries.len() == 0 {
        Ok((Set::empty(), Seq::empty(), Seq::empty()))
    } else {
        match walk(sfx, entries.drop_last()) {
            Err(_) => Err(()),
            Ok((reg, out, pending)) => match entry_step(sfx, reg, pending, entries.last()) {
                Err(_) => Err(()),
                Ok((reg2, o, pending2)) => Ok(
                    (
                        reg2,
                        match o {
                            Some(v) => out.push(v),
                            None => out,
                        },
                        pending2,
                    ),
                ),
            },
        }
    }
}

/// The resources a scan of the walked files `entries` yields: those given out
/// during the walk, then the buffered files that resolve.
pub open spec fn scan(sfx: Seq<Seq<char>>, entries: Seq<FileView>) -> Result<
    Seq<ResourceView>,
    (),
> {
    match walk(sfx, entries) {
        Err(_) => Err(()),
        Ok((reg, out, pending)) => Ok(out + resolve_all(reg, pending)),
    }
}

/// Scanning an unchanged tree again yields the same resources, in the same order.
pub proof fn lemma_scan_idempotent(
    sfx: Seq<Seq<char>>,
    entries: Seq<FileView>,
    first: Seq<ResourceView>,
    second: Seq<ResourceView>,
)
    requires
        scan(sfx, entries) == Ok::<Seq<ResourceView>, ()>(first),
        scan(sfx, entries) == Ok::<Seq<ResourceView>, ()>(second),
    ensures
        first == second,
{
}

/// The view of an optional resource.
pub open spec fn opt_view(o: Option<PythonFileResource>) -> Option<ResourceView> {
    match o {
        Some(r) => Some(r@),
        None => None,
    }
}

/// The views of buffered resource files.
pub open spec fn pending_views(v: Seq<ResourceFile>) -> Seq<FileView> {
    v.map_values(|f: ResourceFile| (f.full_path@, strs(f.relative_path@)))
}

/// A file met by the walk: its path, and its components relative to the scan root.
#[derive(Clone, Debug, PartialEq, Eq)]
pub struct WalkEntry {
    pub path: String,
    pub components: Vec<String>,
}

impl View for WalkEntry {
    type V = FileView;

    open spec fn view(&self) -> FileView {
        (self.path@, strs(self.components@))
    }
}

/// The views of walked files.
pub open spec fn entry_views(v: Seq<WalkEntry>) -> Seq<FileView> {
    v.map_values(|e: WalkEntry| e@)
}

/// A copy of a suffix table.
fn copy_suffixes(s: &PythonModuleSuffixes) -> (r: PythonModuleSuffixes)
    ensures
        r.source@ == s.source@,
        r.bytecode@ == s.bytecode@,
        r.debug_bytecode@ == s.debug_bytecode@,
        r.optimized_bytecode@ == s.optimized_bytecode@,
        r.extension@ == s.extension@,
{
    PythonModuleSuffixes {
        source: copy_strings(&s.source),
        bytecode: copy_strings(&s.bytecode),
        debug_bytecode: copy_strings(&s.debug_bytecode),
        optimized_bytecode: copy_strings(&s.optimized_bytecode),
        extension: copy_strings(&s.extension),
    }
}

/// State of one scan: the packages registered so far and the resource files
/// buffered until the walk is over.
///
/// The walk itself is driven from outside: each walked file goes to
/// [`PythonResourceIterator::add_entry`] in walk order, and once the walk is over
/// [`PythonResourceIterator::next_resource`] gives out the buffered files that
/// resolve.
pub struct PythonResourceIterator {
    pub suffixes: PythonModuleSuffixes,
    pub seen_packages: Vec<String>,
    pub resources: Vec<ResourceFile>,
}

impl PythonResourceIterator {
    /// The registered packages.
    pub open spec fn packages(&self) -> Set<Seq<char>> {
        strs(self.seen_packages@).to_set()
    }

    /// The buffered resource files, oldest first.
    pub open spec fn pending(&self) -> Seq<FileView> {
        pending_views(self.resources@)
    }

    /// The extension module suffixes, in the order they are tried.
    pub open spec fn extension_suffixes(&self) -> Seq<Seq<char>> {
        strs(self.suffixes.extension@)
    }

    /// Every buffered file has a file name.
    pub open spec fn wf(&self) -> bool {
        forall|i: int| 0 <= i < self.resources@.len() ==> #[trigger] self.resources@[i].relative_path@.len() >= 1
    }

    /// A scan that has seen nothing yet.
    pub fn new(suffixes: &PythonModuleSuffixes) -> (r: PythonResourceIterator)
        ensures
            r.wf(),
            r.packages() == Set::<Seq<char>>::empty(),
            r.pending() == Seq::<FileView>::empty(),
            r.extension_suffixes() == strs(suffixes.extension@),
            r.suffixes.source@ == suffixes.source@,
            r.suffixes.bytecode@ == suffixes.bytecode@,
            r.suffixes.debug_bytecode@ == suffixes.debug_bytecode@,
            r.suffixes.optimized_bytecode@ == suffixes.optimized_bytecode@,
            r.suffixes.extension@ == suffixes.extension@,
    {
        let r = PythonResourceIterator {
            suffixes: copy_suffixes(suffixes),
            seen_packages: Vec::new(),
            resources: Vec::new(),
        };
        assert(r.packages() =~= Set::<Seq<char>>::empty());
        assert(r.pending() =~= Seq::<FileView>::empty());
        r
    }

    /// Whether package `p` is registered.
    pub fn has_package(&self, p: &String) -> (r: bool)
        ensures
            r == self.packages().contains(p@),
    {
        let ghost s = strs(self.seen_packages@);
        let mut i: usize = 0;
        while i < self.seen_packages.len()
            invariant
                s == strs(self.seen_packages@),
                i <= s.len(),
                forall|j: int| 0 <= j < i ==> s[j] != p@,
            decreases s.len() - i,
        {
            if self.seen_packages[i] == *p {
                assert(s[i as int] == p@);
                return true;
            }
            i = i + 1;
        }
        false
    }

    /// Registers package `p`.
    pub fn register_package(&mut self, p: String)
        ensures
            final(self).packages() == old(self).packages().insert(p@),
            final(self).resources == old(self).resources,
            final(self).suffixes == old(self).suffixes,
    {
        if self.has_package(&p) {
            assert(old(self).packages().insert(p@) =~= old(self).packages());
        } else {
            let ghost s = strs(self.seen_packages@);
            let ghost q = p@;
            self.seen_packages.push(p);
            assert(strs(self.seen_packages@) =~= s.push(q));
            proof {
                s.lemma_push_to_set_commute(q);
            }
        }
    }

    /// Classifies one walked file and registers the package it declares.
    pub fn resolve_dir_entry(&mut self, entry: &WalkEntry) -> (r: Result<
        Option<PythonFileResource>,
        ScanError,
    >)
        requires
            entry.components@.len() >= 1,
        ensures
            final(self).resources == old(self).resources,
            final(self).suffixes == old(self).suffixes,
            match entry_outcome(old(self).extension_suffixes(), entry.path@, strs(entry.components@)) {
                Err(_) => r == Err::<Option<PythonFileResource>, ScanError>(
                    ScanError::InvalidBytecodePath(entry.path),
                ) && final(self).packages() == old(self).packages(),
                Ok(None) => r == Ok::<Option<PythonFileResource>, ScanError>(None)
                    && final(self).packages() == old(self).packages(),
                Ok(Some((v, p))) => r is Ok && opt_view(r->Ok_0) == Some(v)
                    && final(self).packages() == registered(old(self).packages(), p),
            },
            r matches Ok(Some(PythonFileResource::ResourceFile(f))) ==> f.relative_path@.len()
                >= 1,
    {
        let c = match normalize_components(&entry.components) {
            None => return Ok(None),
            Some(c) => c,
        };
        match classify(&self.suffixes, &entry.path, &c) {
            Err(e) => Err(e),
            Ok((resource, package)) => {
                match package {
                    Some(p) => self.register_package(p),
                    None => {},
                }
                Ok(Some(resource))
            },
        }
    }

    /// Takes in the next walked file: gives out its resource at once, or buffers it
    /// when its package is known only once the walk is over.
    pub fn add_entry(&mut self, entry: &WalkEntry) -> (r: Result<
        Option<PythonFileResource>,
        ScanError,
    >)
        requires
            old(self).wf(),
            entry.components@.len() >= 1,
        ensures
            final(self).wf(),
            final(self).extension_suffixes() == old(self).extension_suffixes(),
            match entry_step(
                old(self).extension_suffixes(),
                old(self).packages(),
                old(self).pending(),
                entry@,
            ) {
                Err(_) => r == Err::<Option<PythonFileResource>, ScanError>(
                    ScanError::InvalidBytecodePath(entry.path),
                ) && final(self).packages() == old(self).packages() && final(self).pending()
                    == old(self).pending(),
                Ok((reg, out, pending)) => r is Ok && opt_view(r->Ok_0) == out
                    && final(self).packages() == reg && final(self).pending() == pending,
            },
    {
        let r = self.resolve_dir_entry(entry);
        match r {
            Ok(Some(PythonFileResource::ResourceFile(f))) => {
                let ghost fv = (f.full_path@, strs(f.relative_path@));
                let ghost old_res = self.resources@;
                self.resources.push(f);
                assert(pending_views(self.resources@) =~= pending_views(old_res).push(fv));
                Ok(None)
            },
            _ => r,
        }
    }

    /// The data resource that buffered file `f` becomes, if any of its enclosing
    /// directories is a registered package.
    pub fn resolve_resource(&self, f: &ResourceFile) -> (r: Option<PythonFileResource>)
        requires
            f.relative_path@.len() >= 1,
        ensures
            opt_view(r) == resolved(self.packages(), f.full_path@, strs(f.relative_path@)),
    {
        let c = &f.relative_path;
        let ghost sc = strs(c@);
        let ghost dirs = sc.drop_last();
        let mut prefix = copy_strings(c);
        prefix.pop();
        assert(strs(prefix@) =~= dirs);
        assert(dirs.subrange(0, dirs.len() as int) =~= dirs);
        let mut k: usize = prefix.len();
        loop
            invariant
                sc == strs(c@),
                sc == strs(f.relative_path@),
                c@.len() >= 1,
                dirs == sc.drop_last(),
                k <= dirs.len(),
                k == prefix@.len(),
                strs(prefix@) == dirs.subrange(0, k as int),
                leaf_prefix(self.packages(), dirs, dirs.len() as int) == leaf_prefix(
                    self.packages(),
                    dirs,
                    k as int,
                ),
            decreases k,
        {
            let candidate = join_parts(&prefix, ".");
            if self.has_package(&candidate) {
                let full_name = join_parts(c, "/");
                let mut head = copy_strings(c);
                let tail = head.split_off(k);
                let relative_name = join_parts(&tail, "/");
                assert(strs(tail@) =~= sc.subrange(k as int, sc.len() as int));
                return Some(
                    PythonFileResource::Resource(
                        ResourceData {
                            full_name,
                            leaf_package: candidate,
                            relative_name,
                            data: DataLocation::Path(f.full_path.clone()),
                        },
                    ),
                );
            }
            if k == 0 {
                assert(leaf_prefix(self.packages(), dirs, -1) is None);
                return None;
            }
            prefix.pop();
            k = k - 1;
            assert(strs(prefix@) =~= dirs.subrange(0, k as int));
        }
    }

    /// The next data resource once the walk is over: buffered files are taken in
    /// buffering order and those in no package are dropped. `None` once the buffer
    /// is empty.
    pub fn next_resource(&mut self) -> (r: Option<PythonFileResource>)
        requires
            old(self).wf(),
        ensures
            final(self).wf(),
            final(self).packages() == old(self).packages(),
            final(self).extension_suffixes() == old(self).extension_suffixes(),
            (opt_view(r), final(self).pending()) == drain(old(self).packages(), old(self).pending()),
    {
        while self.resources.len() > 0
            invariant
                self.wf(),
                self.packages() == old(self).packages(),
                self.suffixes == old(self).suffixes,
                drain(old(self).packages(), old(self).pending()) == drain(
                    self.packages(),
                    self.pending(),
                ),
            decreases self.resources@.len(),
        {
            let ghost before = self.resources@;
            let f = self.resources.remove(0);
            assert(pending_views(self.resources@) =~= pending_views(before).drop_first());
            let resolved = self.resolve_resource(&f);
            if resolved.is_some() {
                return resolved;
            }
        }
        assert(self.pending() =~= Seq::<FileView>::empty());
        None
    }
}

proof fn lemma_walk_err_extends(sfx: Seq<Seq<char>>, ev: Seq<FileView>, i: int)
    requires
        0 <= i <= ev.len(),
        walk(sfx, ev.subrange(0, i)) is Err,
    ensures
        walk(sfx, ev) is Err,
    decreases ev.len() - i,
{
    if i < ev.len() {
        assert(ev.subrange(0, i + 1).drop_last() =~= ev.subrange(0, i));
        lemma_walk_err_extends(sfx, ev, i + 1);
    } else {
        assert(ev.subrange(0, i) =~= ev);
    }
}

/// Finds the Python resources among the files of a walked tree.
///
/// `entries` are the files met by a walk that visits siblings in ascending name
/// order. Modules, extension modules, eggs and path files come out in walk order;
/// after them come the data resources, in walk order too, each addressed relative
/// to its leaf-most package. A data file in no package is dropped.
pub fn find_python_resources(entries: &Vec<WalkEntry>, suffixes: &PythonModuleSuffixes) -> (r:
    Result<Vec<PythonFileResource>, ScanError>)
    requires
        forall|i: int| 0 <= i < entries@.len() ==> #[trigger] entries@[i].components@.len() >= 1,
    ensures
        match scan(strs(suffixes.extension@), entry_views(entries@)) {
            Err(_) => r is Err,
            Ok(vs) => r is Ok && views(r->Ok_0@) == vs,
        },
{
    let ghost sfx = strs(suffixes.extension@);
    let ghost ev = entry_views(entries@);
    let mut it = PythonResourceIterator::new(suffixes);
    let mut out: Vec<PythonFileResource> = Vec::new();
    let mut i: usize = 0;
    assert(ev.subrange(0, 0) =~= Seq::<FileView>::empty());
    assert(views(out@) =~= Seq::<ResourceView>::empty());
    while i < entries.len()
        invariant
            forall|i: int| 0 <= i < entries@.len() ==> #[trigger] entries@[i].components@.len() >= 1,
            sfx == strs(suffixes.extension@),
            ev == entry_views(entries@),
            i <= entries@.len(),
            it.wf(),
            it.extension_suffixes() == sfx,
            walk(sfx, ev.subrange(0, i as int)) == Ok::<
                (Set<Seq<char>>, Seq<ResourceView>, Seq<FileView>),
                (),
            >((it.packages(), views(out@), it.pending())),
        decreases entries@.len() - i,
    {
        assert(ev.subrange(0, i + 1).drop_last() =~= ev.subrange(0, i as int));
        assert(ev.subrange(0, i + 1).last() == entries@[i as int]@);
        let ghost prev = out@;
        match it.add_entry(&entries[i]) {
            Err(e) => {
                proof {
                    lemma_walk_err_extends(sfx, ev, i + 1);
                }
                return Err(e);
            },
            Ok(Some(x)) => {
                out.push(x);
                assert(views(out@) =~= views(prev).push(x@));
            },
            Ok(None) => {},
        }
        i = i + 1;
    }
    assert(ev.subrange(0, i as int) =~= ev);
    let ghost reg = it.packages();
    let ghost pend = it.pending();
    let ghost out1 = views(out@);
    let mut j: usize = 0;
    assert(pend.subrange(0, 0) =~= Seq::<FileView>::empty());
    assert(out1 + resolve_all(reg, pend.subrange(0, 0)) =~= out1);
    while j < it.resources.len()
        invariant
            it.wf(),
            reg == it.packages(),
            pend == it.pending(),
            j <= pend.len(),
            views(out@) == out1 + resolve_all(reg, pend.subrange(0, j as int)),
        decreases pend.len() - j,
    {
        assert(pend.subrange(0, j + 1).drop_last() =~= pend.subrange(0, j as int));
        let ghost prev = out@;
        match it.resolve_resource(&it.resources[j]) {
            Some(x) => {
                out.push(x);
                assert(views(out@) =~= views(prev).push(x@));
            },
            None => {},
        }
        j = j + 1;
    }
    assert(pend.subrange(0, j as int) =~= pend);
    Ok(out)
}

/// The source modules among `vs`, as (name, location, is package), in order.
pub open spec fn source_modules(vs: Seq<ResourceView>) -> Seq<(Seq<char>, Seq<char>, bool)>
    decreases vs.len(),
{
    if vs.len() == 0 {
        Seq::empty()
    } else {
        let rest = source_modules(vs.drop_last());
        match vs.last() {
            ResourceView::Source { name, location, is_package } => rest.push(
                (name, location, is_package),
            ),
            _ => rest,
        }
    }
}

/// The views of source modules, as (name, location, is package).
pub open spec fn module_views(v: Seq<SourceModule>) -> Seq<(Seq<char>, Seq<char>, bool)> {
    v.map_values(|m: SourceModule| (m.name@, m.source@, m.is_package))
}

/// The source modules among scanned resources, in scan order.
pub fn find_python_modules(resources: &Vec<PythonFileResource>) -> (r: Vec<SourceModule>)
    ensures
        module_views(r@) == source_modules(views(resources@)),
{
    let ghost vs = views(resources@);
    let mut out: Vec<SourceModule> = Vec::new();
    let mut i: usize = 0;
    assert(module_views(out@) =~= source_modules(vs.subrange(0, 0)));
    while i < resources.len()
        invariant
            vs == views(resources@),
            i <= resources@.len(),
            module_views(out@) == source_modules(vs.subrange(0, i as int)),
        decreases resources@.len() - i,
    {
        assert(vs.subrange(0, i + 1).drop_last() =~= vs.subrange(0, i as int));
        let ghost prev = out@;
        match &resources[i] {
            PythonFileResource::Source(m) => {
                let location = match &m.source {
                    DataLocation::Path(p) => DataLocation::Path(p.clone()),
                };
                out.push(SourceModule { name: m.name.clone(), source: location, is_package: m.is_package });
                assert(module_views(out@) =~= module_views(prev).push((m.name@, m.source@, m.is_package)));
            },
            _ => {},
        }
        i = i + 1;
    }
    assert(vs.subrange(0, i as int) =~= vs);
    out
}

} // verus!
