//! Shader registry: one entry per (source path, target profile), holding the
//! last good bytecode, with the rule that decides when the compiler runs.
use vstd::prelude::*;
use crate::text::{any_contains_nul, contains_nul, normalized_path, same_path};

verus! {

/// Why a shader could not be compiled.
pub enum ShaderCompileError {
    /// The compiler rejected the source; holds the compiler's output.
    Compiler(String),
    /// The compiler could not be loaded or failed outside the source.
    Unavailable(String),
    /// The name, entry point, profile or a flag holds a NUL character,
    /// which the compiler's wide-string arguments cannot carry.
    NulCharacter,
}

impl ShaderCompileError {
    pub open spec fn is_nul_character(&self) -> bool {
        match self {
            ShaderCompileError::NulCharacter => true,
            _ => false,
        }
    }
}

/// Relies on `hassle_rs::utils::compile_hlsl`, which loads the DirectX
/// shader compiler and compiles `source` for `entry_point` and `profile`
/// with the flags `args`. It turns `name`, `entry_point`, `profile` and each
/// flag into a NUL-terminated wide string and panics on a NUL character in
/// any of them, hence the `requires`. Its other `unwrap`s (the operation
/// result and the include handler's interface) rest on what the loaded
/// library returns, which its source does not settle. What it returns
/// depends on the compiler library found at run time, so nothing is
/// promised of it but that an error is one of the two kinds the body
/// builds.
#[verifier::external_body]
fn dxc_compile_hlsl(
    name: &str,
    source: &str,
    entry_point: &str,
    profile: &str,
    args: &[&str],
) -> (r: Result<Vec<u8>, ShaderCompileError>)
    requires
        !name@.contains('\0'),
        !entry_point@.contains('\0'),
        !profile@.contains('\0'),
        forall|i: int| 0 <= i < args@.len() ==> !(#[trigger] args@[i])@.contains('\0'),
    ensures
        match r {
            Err(e) => !e.is_nul_character(),
            Ok(_) => true,
        },
{
    match hassle_rs::utils::compile_hlsl(name, source, entry_point, profile, args, &[]) {
        Ok(bytecode) => Ok(bytecode),
        Err(hassle_rs::HassleError::CompileError(log)) => Err(ShaderCompileError::Compiler(log)),
        Err(other) => Err(ShaderCompileError::Unavailable(other.to_string())),
    }
}

/// Whether any of the strings the compiler takes by name holds a NUL.
pub open spec fn compile_args_have_nul(
    name: Seq<char>,
    entry_point: Seq<char>,
    profile: Seq<char>,
    args: Seq<&str>,
) -> bool {
    ||| name.contains('\0')
    ||| entry_point.contains('\0')
    ||| profile.contains('\0')
    ||| exists|i: int| 0 <= i < args.len() && (#[trigger] args[i])@.contains('\0')
}

/// Compiles HLSL `source` for `entry_point` under `profile` with the flags
/// `args`. Strings the compiler cannot take are refused before the call.
/// It does not panic as long as the loaded compiler library behaves as
/// `dxc_compile_hlsl` describes.
pub fn compile_hlsl(
    name: &str,
    source: &str,
    entry_point: &str,
    profile: &str,
    args: &[&str],
) -> (r: Result<Vec<u8>, ShaderCompileError>)
    ensures
        compile_args_have_nul(name@, entry_point@, profile@, args@) ==> (match r {
            Err(e) => e.is_nul_character(),
            Ok(_) => false,
        }),
        !compile_args_have_nul(name@, entry_point@, profile@, args@) ==> (match r {
            Err(e) => !e.is_nul_character(),
            Ok(_) => true,
        }),
{
    if contains_nul(name) || contains_nul(entry_point) || contains_nul(profile)
        || any_contains_nul(args) {
        return Err(ShaderCompileError::NulCharacter);
    }
    dxc_compile_hlsl(name, source, entry_point, profile, args)
}

/// Flags of the direct-API pass: debug information embedded in the
/// bytecode.
pub fn debug_compile_args() -> (r: Vec<&'static str>)
    ensures
        r@.len() == 2,
        r@[0]@ == "/Zi"@,
        r@[1]@ == "-Qembed_debug"@,
{
    vec!["/Zi", "-Qembed_debug"]
}

/// Flags of the registry's shaders: includes resolved under
/// `assets/shaders`, SPIR-V output with scalar layout and descriptor
/// indexing, and debug information.
pub fn spirv_compile_args() -> (r: Vec<&'static str>)
    ensures
        r@.len() == 6,
        r@[0]@ == "-I"@,
        r@[1]@ == "assets/shaders"@,
        r@[2]@ == "-spirv"@,
        r@[3]@ == "-fvk-use-scalar-layout"@,
        r@[4]@ == "-fspv-extension=SPV_EXT_descriptor_indexing"@,
        r@[5]@ == "-Zi"@,
{
    vec!["-I", "assets/shaders", "-spirv", "-fvk-use-scalar-layout", "-fspv-extension=SPV_EXT_descriptor_indexing", "-Zi"]
}

/// Compiles HLSL `source` for `entry_point` under `shader_model` with the
/// flags of `debug_compile_args`.
/// It does not panic as long as the loaded compiler library behaves as
/// `dxc_compile_hlsl` describes.
pub fn compile_shader(name: &str, source: &str, entry_point: &str, shader_model: &str) -> (r:
    Result<Vec<u8>, ShaderCompileError>)
    ensures
        (name@.contains('\0') || entry_point@.contains('\0') || shader_model@.contains('\0'))
            <==> (match r {
            Err(e) => e.is_nul_character(),
            Ok(_) => false,
        }),
{
    let args = debug_compile_args();
    proof {
        reveal_strlit("/Zi");
        reveal_strlit("-Qembed_debug");
        assert(!args@[0]@.contains('\0'));
        assert(!args@[1]@.contains('\0'));
    }
    compile_hlsl(name, source, entry_point, shader_model, args.as_slice())
}

/// Whether the compiler must run for a source modified at `source_mtime`,
/// given the modification time of its cached bytecode, if any, the
/// force flag, and whether this entry was compiled in this session.
pub open spec fn compile_needed(
    source_mtime: u64,
    spv_mtime: Option<u64>,
    force: bool,
    compiled_this_session: bool,
) -> bool {
    match spv_mtime {
        None => true,
        Some(t) => source_mtime > t || (force && !compiled_this_session),
    }
}

/// The skip-recompile rule, executable.
pub fn needs_compile(
    source_mtime: u64,
    spv_mtime: Option<u64>,
    force: bool,
    compiled_this_session: bool,
) -> (r: bool)
    ensures
        r == compile_needed(source_mtime, spv_mtime, force, compiled_this_session),
{
    match spv_mtime {
        None => true,
        Some(t) => source_mtime > t || (force && !compiled_this_session),
    }
}

/// Name of the cached bytecode file: `<file_name>_<profile>.spv`.
pub open spec fn spv_file_name_spec(file_name: Seq<char>, profile: Seq<char>) -> Seq<char> {
    file_name + seq!['_'] + profile + seq!['.', 's', 'p', 'v']
}

/// Directory that holds the cached bytecode files.
pub open spec fn spv_dir_spec() -> Seq<char> {
    seq!['.', '/', 's', 'p', 'v', '/', 'b', 'i', 'n', '/']
}

/// `<file_name>_<profile>.spv`, the cache file name of a source file.
pub fn spv_file_name(file_name: &str, profile: &str) -> (r: String)
    ensures
        r@ == spv_file_name_spec(file_name@, profile@),
{
    let mut name = file_name.to_owned();
    name.append("_");
    name.append(profile);
    name.append(".spv");
    proof {
        reveal_strlit("_");
        reveal_strlit(".spv");
    }
    assert(name@ =~= spv_file_name_spec(file_name@, profile@));
    name
}

/// `./spv/bin/<file_name>_<profile>.spv`, where the bytecode is cached.
pub fn spv_cache_path(file_name: &str, profile: &str) -> (r: String)
    ensures
        r@ == spv_dir_spec() + spv_file_name_spec(file_name@, profile@),
{
    let mut path = "./spv/bin/".to_owned();
    let name = spv_file_name(file_name, profile);
    path.append(name.as_str());
    proof {
        reveal_strlit("./spv/bin/");
    }
    assert(path@ =~= spv_dir_spec() + spv_file_name_spec(file_name@, profile@));
    path
}

/// Stable identifier of a registry entry.
#[derive(Clone, Copy, Debug, PartialEq, Eq, Structural)]
pub struct ShaderHandle {
    pub index: usize,
}

/// Bytecode cached on disk for an entry, as read by the host.
pub struct SpvFile {
    pub modified: u64,
    pub bytecode: Vec<u8>,
}

struct ShaderEntry {
    path: String,
    profile: String,
    bytecode: Option<Vec<u8>>,
    source_mtime: u64,
    compiled_this_session: bool,
}

/// What the registry knows of one (path, profile) key.
pub struct EntryModel {
    pub path: Seq<char>,
    pub profile: Seq<char>,
    /// Last good bytecode; `None` while the entry is not ready.
    pub bytecode: Option<Seq<u8>>,
    /// Modification time of the source the bytecode was made from.
    pub source_mtime: u64,
    pub compiled_this_session: bool,
}

pub struct RegistryModel {
    pub entries: Seq<EntryModel>,
    /// Number of compiler invocations so far, saturating at `u64::MAX`.
    pub compile_count: nat,
    /// Compile once per session even where the cache is fresh.
    pub force_recompile: bool,
}

impl RegistryModel {
    /// Entry `i`'s key: its normalized source path and its profile.
    pub open spec fn key(&self, i: int) -> (Seq<u8>, Seq<char>) {
        (normalized_path(self.entries[i].path), self.entries[i].profile)
    }

    pub open spec fn keys_unique(&self) -> bool {
        forall|i: int, j: int|
            0 <= i < self.entries.len() && 0 <= j < self.entries.len() && i != j ==> self.key(i)
                != self.key(j)
    }

    pub open spec fn contains_key(&self, path: Seq<char>, profile: Seq<char>) -> bool {
        exists|i: int| 0 <= i < self.entries.len() && self.key(i) == (normalized_path(path), profile)
    }

    /// Every key of `earlier` is still at its index here.
    pub open spec fn extends(&self, earlier: RegistryModel) -> bool {
        &&& earlier.entries.len() <= self.entries.len()
        &&& forall|i: int| 0 <= i < earlier.entries.len() ==> self.key(i) == earlier.key(i)
    }

    /// Entry `i` with new bytecode made from a source of `source_mtime`.
    pub open spec fn with_bytecode(
        &self,
        i: int,
        bytecode: Seq<u8>,
        source_mtime: u64,
        compiled_this_session: bool,
    ) -> Seq<EntryModel> {
        self.entries.update(
            i,
            EntryModel {
                path: self.entries[i].path,
                profile: self.entries[i].profile,
                bytecode: Some(bytecode),
                source_mtime,
                compiled_this_session,
            },
        )
    }

    pub open spec fn ready(&self, h: ShaderHandle) -> bool {
        h.index < self.entries.len() && self.entries[h.index as int].bytecode is Some
    }
}

/// What `refresh` does to the registry `before`, giving `after` and the
/// outcome `r`.
pub open spec fn refreshed(
    before: RegistryModel,
    after: RegistryModel,
    h: ShaderHandle,
    source_mtime: u64,
    spv: Option<SpvFile>,
    entry_point: Seq<char>,
    r: RefreshOutcome,
) -> bool {
    let e = before.entries[h.index as int];
    let needed = compile_needed(
        source_mtime,
        match spv {
            Some(f) => Some(f.modified),
            None => None,
        },
        before.force_recompile,
        e.compiled_this_session,
    );
    let refused = e.path.contains('\0') || e.profile.contains('\0') || entry_point.contains('\0');
    &&& after.force_recompile == before.force_recompile
    &&& !needed ==> r is Cached && after.compile_count == before.compile_count && after.entries
        == before.with_bytecode(h.index as int, spv.unwrap().bytecode@, source_mtime, e.compiled_this_session)
    &&& needed && refused ==> (match r {
        RefreshOutcome::Failed(err) => err.is_nul_character(),
        _ => false,
    }) && after.compile_count == before.compile_count && after.entries == before.entries
    &&& needed && !refused ==> after.compile_count == (if before.compile_count < u64::MAX {
        before.compile_count + 1
    } else {
        before.compile_count
    }) && match r {
        RefreshOutcome::Compiled(b) => after.entries == before.with_bytecode(
            h.index as int,
            b@,
            source_mtime,
            true,
        ),
        RefreshOutcome::Failed(err) => !err.is_nul_character() && after.entries == before.entries,
        RefreshOutcome::Cached => false,
    }
}

/// Process-wide table of compiled shaders, keyed by source path and target
/// profile.
pub struct ShaderRegistry {
    entries: Vec<ShaderEntry>,
    compile_count: u64,
    force_recompile: bool,
}

impl View for ShaderRegistry {
    type V = RegistryModel;

    closed spec fn view(&self) -> RegistryModel {
        RegistryModel {
            entries: self.entries@.map_values(
                |e: ShaderEntry|
                    EntryModel {
                        path: e.path@,
                        profile: e.profile@,
                        bytecode: match e.bytecode {
                            Some(b) => Some(b@),
                            None => None,
                        },
                        source_mtime: e.source_mtime,
                        compiled_this_session: e.compiled_this_session,
                    },
            ),
            compile_count: self.compile_count as nat,
            force_recompile: self.force_recompile,
        }
    }
}

/// What `refresh` did for an entry.
pub enum RefreshOutcome {
    /// The cached bytecode was fresh and was taken without compiling.
    Cached,
    /// The compiler ran and its bytecode replaced the entry's; the host
    /// persists it to the on-disk cache and invalidates dependent pipelines.
    Compiled(Vec<u8>),
    /// The compiler ran and failed; the previous bytecode, if any, stays.
    Failed(ShaderCompileError),
}

impl ShaderRegistry {
    pub open spec fn wf(&self) -> bool {
        self@.keys_unique()
    }

    /// An empty registry; `force_recompile` makes each entry compile once
    /// per session even where its cached bytecode is fresh.
    pub fn new(force_recompile: bool) -> (r: ShaderRegistry)
        ensures
            r.wf(),
            r@.entries.len() == 0,
            r@.compile_count == 0,
            r@.force_recompile == force_recompile,
    {
        ShaderRegistry { entries: Vec::new(), compile_count: 0, force_recompile }
    }

    /// Number of compiler invocations so far.
    pub fn compile_count(&self) -> (r: u64)
        ensures
            r as nat == self@.compile_count,
    {
        self.compile_count
    }

    pub fn len(&self) -> (r: usize)
        ensures
            r == self@.entries.len(),
    {
        self.entries.len()
    }

    /// The handle of `(path, profile)`, registering a not-ready entry for it
    /// if it has none yet. The same key always yields the same handle.
    pub fn load(&mut self, path: &str, profile: &str) -> (r: ShaderHandle)
        requires
            old(self).wf(),
        ensures
            final(self).wf(),
            final(self)@.extends(old(self)@),
            r.index < final(self)@.entries.len(),
            final(self)@.key(r.index as int) == (normalized_path(path@), profile@),
            final(self)@.compile_count == old(self)@.compile_count,
            final(self)@.force_recompile == old(self)@.force_recompile,
            old(self)@.contains_key(path@, profile@) ==> final(self)@ == old(self)@,
            !old(self)@.contains_key(path@, profile@) ==> final(self)@.entries == old(
                self,
            )@.entries.push(
                EntryModel {
                    path: path@,
                    profile: profile@,
                    bytecode: None,
                    source_mtime: 0,
                    compiled_this_session: false,
                },
            ),
    {
        let path_owned = path.to_owned();
        let profile_owned = profile.to_owned();
        let mut i: usize = 0;
        while i < self.entries.len()
            invariant
                self.wf(),
                self == old(self),
                i <= self.entries.len(),
                path_owned@ == path@,
                profile_owned@ == profile@,
                forall|j: int| 0 <= j < i ==> self@.key(j) != (normalized_path(path@), profile@),
            decreases self.entries.len() - i,
        {
            if same_path(self.entries[i].path.as_str(), path) && self.entries[i].profile
                == profile_owned {
                assert(self@.key(i as int) == (normalized_path(path@), profile@));
                return ShaderHandle { index: i };
            }
            i = i + 1;
        }
        assert(!self@.contains_key(path@, profile@));
        let index = self.entries.len();
        self.entries.push(
            ShaderEntry {
                path: path_owned,
                profile: profile_owned,
                bytecode: None,
                source_mtime: 0,
                compiled_this_session: false,
            },
        );
        assert(self@.entries =~= old(self)@.entries.push(
            EntryModel {
                path: path@,
                profile: profile@,
                bytecode: None,
                source_mtime: 0,
                compiled_this_session: false,
            },
        ));
        assert forall|a: int, b: int|
            0 <= a < self@.entries.len() && 0 <= b < self@.entries.len() && a != b implies self@.key(
                a,
            ) != self@.key(b) by {
            if a < index && b < index {
                assert(old(self)@.key(a) != old(self)@.key(b));
            } else if a < index {
                assert(old(self)@.key(a) != (normalized_path(path@), profile@));
            } else {
                assert(old(self)@.key(b) != (normalized_path(path@), profile@));
            }
        }
        ShaderHandle { index }
    }

    /// The source path `h` was first loaded with.
    pub fn path(&self, h: ShaderHandle) -> (r: &str)
        requires
            h.index < self@.entries.len(),
        ensures
            r@ == self@.entries[h.index as int].path,
    {
        self.entries[h.index].path.as_str()
    }

    /// The target profile of `h`.
    pub fn profile(&self, h: ShaderHandle) -> (r: &str)
        requires
            h.index < self@.entries.len(),
        ensures
            r@ == self@.entries[h.index as int].profile,
    {
        self.entries[h.index].profile.as_str()
    }

    /// The bytecode of `h`, or `None` while it is not ready.
    pub fn bytecode(&self, h: ShaderHandle) -> (r: Option<&Vec<u8>>)
        requires
            h.index < self@.entries.len(),
        ensures
            match r {
                Some(b) => self@.entries[h.index as int].bytecode == Some(b@),
                None => self@.entries[h.index as int].bytecode is None,
            },
    {
        match &self.entries[h.index].bytecode {
            Some(b) => Some(b),
            None => None,
        }
    }

    fn replace_bytecode(
        &mut self,
        h: ShaderHandle,
        bytecode: Vec<u8>,
        source_mtime: u64,
        compiled_this_session: bool,
    )
        requires
            old(self).wf(),
            h.index < old(self)@.entries.len(),
        ensures
            final(self).wf(),
            final(self)@.entries == old(self)@.with_bytecode(
                h.index as int,
                bytecode@,
                source_mtime,
                compiled_this_session,
            ),
            final(self)@.compile_count == old(self)@.compile_count,
            final(self)@.force_recompile == old(self)@.force_recompile,
    {
        let path = self.entries[h.index].path.clone();
        let profile = self.entries[h.index].profile.clone();
        self.entries.set(
            h.index,
            ShaderEntry {
                path,
                profile,
                bytecode: Some(bytecode),
                source_mtime,
                compiled_this_session,
            },
        );
        assert(self@.entries =~= old(self)@.with_bytecode(
            h.index as int,
            bytecode@,
            source_mtime,
            compiled_this_session,
        ));
        assert forall|a: int, b: int|
            0 <= a < self@.entries.len() && 0 <= b < self@.entries.len() && a != b implies self@.key(
                a,
            ) != self@.key(b) by {
            assert(old(self)@.key(a) != old(self)@.key(b));
        }
    }

    /// Applies the outcome of compiling `h` from a source of
    /// `source_mtime`: new bytecode replaces the entry's and a copy comes
    /// back to be persisted; a failure keeps the last good bytecode.
    pub fn apply_compile_result(
        &mut self,
        h: ShaderHandle,
        result: Result<Vec<u8>, ShaderCompileError>,
        source_mtime: u64,
    ) -> (r: RefreshOutcome)
        requires
            old(self).wf(),
            h.index < old(self)@.entries.len(),
        ensures
            final(self).wf(),
            final(self)@.extends(old(self)@),
            final(self)@.compile_count == old(self)@.compile_count,
            final(self)@.force_recompile == old(self)@.force_recompile,
            match result {
                Ok(b) => (match r {
                    RefreshOutcome::Compiled(c) => c@ == b@,
                    _ => false,
                }) && final(self)@.entries == old(self)@.with_bytecode(
                    h.index as int,
                    b@,
                    source_mtime,
                    true,
                ),
                Err(e) => r == RefreshOutcome::Failed(e) && final(self)@.entries == old(
                    self,
                )@.entries,
            },
    {
        match result {
            Ok(b) => {
                let persisted = b.clone();
                self.replace_bytecode(h, b, source_mtime, true);
                RefreshOutcome::Compiled(persisted)
            },
            Err(e) => RefreshOutcome::Failed(e),
        }
    }

    /// Publishes the outcome of compiling `h` from a source of
    /// `source_mtime` (see `apply_compile_result`); returns the error, if
    /// any.
    pub fn publish(
        &mut self,
        h: ShaderHandle,
        result: Result<Vec<u8>, ShaderCompileError>,
        source_mtime: u64,
    ) -> (r: Option<ShaderCompileError>)
        requires
            old(self).wf(),
            h.index < old(self)@.entries.len(),
        ensures
            final(self).wf(),
            final(self)@.extends(old(self)@),
            final(self)@.compile_count == old(self)@.compile_count,
            final(self)@.force_recompile == old(self)@.force_recompile,
            match result {
                Ok(b) => r is None && final(self)@.entries == old(self)@.with_bytecode(
                    h.index as int,
                    b@,
                    source_mtime,
                    true,
                ),
                Err(e) => r == Some(e) && final(self)@.entries == old(self)@.entries,
            },
    {
        match self.apply_compile_result(h, result, source_mtime) {
            RefreshOutcome::Failed(e) => Some(e),
            _ => None,
        }
    }

    /// Brings entry `h` up to date with its source (modified at
    /// `source_mtime`) and the bytecode cached on disk, if any. Where
    /// `compile_needed` says no, the cached bytecode is taken as it is.
    /// Otherwise the entry's path, profile and `entry_point` are checked for
    /// NUL characters and the compiler runs once with `spirv_compile_args`;
    /// its result goes through `apply_compile_result`. It does not panic as
    /// long as the loaded compiler library behaves as `dxc_compile_hlsl`
    /// describes.
    pub fn refresh(
        &mut self,
        h: ShaderHandle,
        source: &str,
        source_mtime: u64,
        spv: Option<SpvFile>,
        entry_point: &str,
    ) -> (r: RefreshOutcome)
        requires
            old(self).wf(),
            h.index < old(self)@.entries.len(),
        ensures
            final(self).wf(),
            final(self)@.extends(old(self)@),
            final(self)@.force_recompile == old(self)@.force_recompile,
            refreshed(old(self)@, final(self)@, h, source_mtime, spv, entry_point@, r),
    {
        let compiled_this_session = self.entries[h.index].compiled_this_session;
        let spv_mtime = match &spv {
            Some(f) => Some(f.modified),
            None => None,
        };
        if !needs_compile(source_mtime, spv_mtime, self.force_recompile, compiled_this_session) {
            match spv {
                Some(f) => {
                    self.replace_bytecode(h, f.bytecode, source_mtime, compiled_this_session);
                },
                None => {},
            }
            return RefreshOutcome::Cached;
        }
        if contains_nul(self.entries[h.index].path.as_str()) || contains_nul(
            self.entries[h.index].profile.as_str(),
        ) || contains_nul(entry_point) {
            return RefreshOutcome::Failed(ShaderCompileError::NulCharacter);
        }
        let args = spirv_compile_args();
        proof {
            reveal_strlit("-I");
            reveal_strlit("assets/shaders");
            reveal_strlit("-spirv");
            reveal_strlit("-fvk-use-scalar-layout");
            reveal_strlit("-fspv-extension=SPV_EXT_descriptor_indexing");
            reveal_strlit("-Zi");
            assert forall|i: int| 0 <= i < args@.len() implies !(#[trigger] args@[i])@.contains(
                '\0',
            ) by {
                if i == 0 {
                    assert(!args@[0]@.contains('\0'));
                } else if i == 1 {
                    assert(!args@[1]@.contains('\0'));
                } else if i == 2 {
                    assert(!args@[2]@.contains('\0'));
                } else if i == 3 {
                    assert(!args@[3]@.contains('\0'));
                } else if i == 4 {
                    assert(!args@[4]@.contains('\0'));
                } else {
                    assert(!args@[5]@.contains('\0'));
                }
            }
        }
        if self.compile_count < u64::MAX {
            self.compile_count = self.compile_count + 1;
        }
        assert(self@.entries == old(self)@.entries);
        assert forall|a: int, b: int|
            0 <= a < self@.entries.len() && 0 <= b < self@.entries.len() && a != b implies self@.key(
                a,
            ) != self@.key(b) by {
            assert(old(self)@.key(a) != old(self)@.key(b));
        }
        let result = dxc_compile_hlsl(
            self.entries[h.index].path.as_str(),
            source,
            entry_point,
            self.entries[h.index].profile.as_str(),
            args.as_slice(),
        );
        self.apply_compile_result(h, result, source_mtime)
    }

    /// Handles of every entry whose source is `path` (once normalized),
    /// whatever its profile: the entries a change of that file concerns.
    pub fn handles_for_path(&self, path: &str) -> (r: Vec<ShaderHandle>)
        ensures
            forall|j: int|
                0 <= j < r@.len() ==> r@[j].index < self@.entries.len() && normalized_path(self@.entries[r@[j].index as int].path)
                    == normalized_path(path@),
            forall|i: int|
                0 <= i < self@.entries.len() && normalized_path(self@.entries[i].path) == normalized_path(path@) ==> exists|j: int|
                    0 <= j < r@.len() && r@[j].index == i,
            forall|j: int, k: int| 0 <= j < k < r@.len() ==> r@[j].index < r@[k].index,
    {
        let mut r: Vec<ShaderHandle> = Vec::new();
        let mut i: usize = 0;
        while i < self.entries.len()
            invariant
                i <= self.entries.len(),
                forall|j: int|
                    0 <= j < r@.len() ==> r@[j].index < i && normalized_path(self@.entries[r@[j].index as int].path)
                        == normalized_path(path@),
                forall|k: int|
                    0 <= k < i && normalized_path(self@.entries[k].path) == normalized_path(path@) ==> exists|j: int|
                        0 <= j < r@.len() && r@[j].index == k,
                forall|j: int, k: int| 0 <= j < k < r@.len() ==> r@[j].index < r@[k].index,
            decreases self.entries.len() - i,
        {
            if same_path(self.entries[i].path.as_str(), path) {
                let ghost before = r@;
                r.push(ShaderHandle { index: i });
                assert(r@[r@.len() - 1].index == i);
                assert forall|k: int|
                    0 <= k < i && normalized_path(self@.entries[k].path) == normalized_path(path@) implies exists|j: int|
                        0 <= j < r@.len() && r@[j].index == k by {
                    let j = choose|j: int| 0 <= j < before.len() && before[j].index == k;
                    assert(r@[j] == before[j]);
                }
            }
            i = i + 1;
        }
        r
    }
}

/// A key loaded twice yields one handle: as long as the registry only grows
/// (`extends`) and keeps its keys unique, the index at which `(path,
/// profile)` was found earlier is the index at which it is found later.
pub proof fn lemma_load_handle_stable(
    earlier: RegistryModel,
    later: RegistryModel,
    first: ShaderHandle,
    second: ShaderHandle,
    path: Seq<u8>,
    profile: Seq<char>,
)
    requires
        later.keys_unique(),
        later.extends(earlier),
        first.index < earlier.entries.len(),
        earlier.key(first.index as int) == (path, profile),
        second.index < later.entries.len(),
        later.key(second.index as int) == (path, profile),
    ensures
        first == second,
{
    assert(later.key(first.index as int) == (path, profile));
}

/// Bytecode cached no earlier than its source was modified is taken as it
/// is: without the force flag the compiler does not run.
pub proof fn lemma_fresh_cache_skips_compiler(
    source_mtime: u64,
    spv_mtime: u64,
    compiled_this_session: bool,
)
    requires
        spv_mtime >= source_mtime,
    ensures
        !compile_needed(source_mtime, Some(spv_mtime), false, compiled_this_session),
{
}

} // verus!
