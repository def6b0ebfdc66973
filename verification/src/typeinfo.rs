//! The flat, serializable model of a parsed debug-information database, and
//! the converters that build it from the reader's raw records.

use vstd::prelude::*;

use crate::error::ParsingError;
use crate::raw;
use crate::reader;
use crate::report::WarningLog;
use crate::resolve;

verus! {

/// Boolean compilation switches, copied bit for bit from the raw flag set.
#[derive(Debug, PartialEq, Eq)]
pub struct CompileFlags {
    /// Compiled for edit and continue.
    pub edit_and_continue: bool,
    /// Compiled without debugging info.
    pub no_debug_info: bool,
    /// Compiled with link-time code generation.
    pub link_time_codegen: bool,
    /// Compiled without data alignment.
    pub no_data_align: bool,
    /// Managed code or data is present.
    pub managed: bool,
    /// Compiled with security checks.
    pub security_checks: bool,
    /// Compiled for hot patching.
    pub hot_patch: bool,
    /// Converted with CvtCIL.
    pub cvtcil: bool,
    /// This is a MSIL .NET module.
    pub msil_module: bool,
    /// Compiled with SDL checks.
    pub sdl: bool,
    /// Compiled with profile-guided optimization.
    pub pgo: bool,
    /// This is a .exp module.
    pub exp_module: bool,
}

impl CompileFlags {
    /// The flag set a raw record converts to: the field-by-field copy.
    pub open spec fn spec_from_raw(flags: raw::CompileFlags) -> CompileFlags {
        CompileFlags {
            edit_and_continue: flags.edit_and_continue,
            no_debug_info: flags.no_debug_info,
            link_time_codegen: flags.link_time_codegen,
            no_data_align: flags.no_data_align,
            managed: flags.managed,
            security_checks: flags.security_checks,
            hot_patch: flags.hot_patch,
            cvtcil: flags.cvtcil,
            msil_module: flags.msil_module,
            sdl: flags.sdl,
            pgo: flags.pgo,
            exp_module: flags.exp_module,
        }
    }

    /// The raw flag set this record corresponds to: the inverse copy.
    pub open spec fn spec_to_raw(self) -> raw::CompileFlags {
        raw::CompileFlags {
            edit_and_continue: self.edit_and_continue,
            no_debug_info: self.no_debug_info,
            link_time_codegen: self.link_time_codegen,
            no_data_align: self.no_data_align,
            managed: self.managed,
            security_checks: self.security_checks,
            hot_patch: self.hot_patch,
            cvtcil: self.cvtcil,
            msil_module: self.msil_module,
            sdl: self.sdl,
            pgo: self.pgo,
            exp_module: self.exp_module,
        }
    }

    /// Copies every switch of a raw compile-flags record; pure and total, no
    /// failure mode, no flag dropped or renamed.
    pub fn from_raw(flags: &raw::CompileFlags) -> (r: CompileFlags)
        ensures
            r == Self::spec_from_raw(*flags),
    {
        CompileFlags {
            edit_and_continue: flags.edit_and_continue,
            no_debug_info: flags.no_debug_info,
            link_time_codegen: flags.link_time_codegen,
            no_data_align: flags.no_data_align,
            managed: flags.managed,
            security_checks: flags.security_checks,
            hot_patch: flags.hot_patch,
            cvtcil: flags.cvtcil,
            msil_module: flags.msil_module,
            sdl: flags.sdl,
            pgo: flags.pgo,
            exp_module: flags.exp_module,
        }
    }

    /// The inverse conversion, back to the raw flag set.
    pub fn to_raw(&self) -> (r: raw::CompileFlags)
        ensures
            r == self.spec_to_raw(),
    {
        raw::CompileFlags {
            edit_and_continue: self.edit_and_continue,
            no_debug_info: self.no_debug_info,
            link_time_codegen: self.link_time_codegen,
            no_data_align: self.no_data_align,
            managed: self.managed,
            security_checks: self.security_checks,
            hot_patch: self.hot_patch,
            cvtcil: self.cvtcil,
            msil_module: self.msil_module,
            sdl: self.sdl,
            pgo: self.pgo,
            exp_module: self.exp_module,
        }
    }
}

/// The flag conversion is a bijection on the twelve-boolean record:
/// converting a raw flag set and going back restores every bit, and so does
/// the round trip starting from a converted record.
pub proof fn lemma_compile_flags_bijective(flags: raw::CompileFlags, converted: CompileFlags)
    ensures
        CompileFlags::spec_from_raw(flags).spec_to_raw() == flags,
        CompileFlags::spec_from_raw(converted.spec_to_raw()) == converted,
{
}

/// Semantic compiler version numbers, copied from the raw record.
#[derive(Debug, PartialEq, Eq)]
pub struct CompilerVersion {
    pub major: u16,
    pub minor: u16,
    pub build: u16,
    /// The quick-fix-engineering number, when present.
    pub qfe: Option<u16>,
}

impl CompilerVersion {
    /// The version a raw record converts to: the field-by-field copy.
    pub open spec fn spec_from_raw(version: raw::CompilerVersion) -> CompilerVersion {
        CompilerVersion {
            major: version.major,
            minor: version.minor,
            build: version.build,
            qfe: version.qfe,
        }
    }

    /// Copies every number of a raw version record; pure and total, no
    /// failure mode.
    pub fn from_raw(version: &raw::CompilerVersion) -> (r: CompilerVersion)
        ensures
            r == Self::spec_from_raw(*version),
    {
        CompilerVersion {
            major: version.major,
            minor: version.minor,
            build: version.build,
            qfe: version.qfe,
        }
    }
}

/// A tagged file-content digest. The variant and payload bytes are as the
/// source reader supplied them; this layer re-tags the variant and does not
/// re-validate the payload length.
#[derive(Debug, PartialEq, Eq)]
pub enum Checksum {
    Absent,
    Md5(Vec<u8>),
    Sha1(Vec<u8>),
    Sha256(Vec<u8>),
}

impl Checksum {
    /// The checksum a raw checksum converts to: the same variant over the
    /// same bytes.
    pub open spec fn spec_from_raw(checksum: raw::FileChecksum) -> Checksum {
        match checksum {
            raw::FileChecksum::Absent => Checksum::Absent,
            raw::FileChecksum::Md5(d) => Checksum::Md5(d),
            raw::FileChecksum::Sha1(d) => Checksum::Sha1(d),
            raw::FileChecksum::Sha256(d) => Checksum::Sha256(d),
        }
    }

    /// The checksum as a pair: a tag telling the four variants apart, and the
    /// payload bytes (empty when the checksum is absent).
    pub open spec fn model(&self) -> (int, Seq<u8>) {
        match self {
            Checksum::Absent => (0int, Seq::<u8>::empty()),
            Checksum::Md5(d) => (1int, d@),
            Checksum::Sha1(d) => (2int, d@),
            Checksum::Sha256(d) => (3int, d@),
        }
    }

    /// Re-tags a raw checksum, preserving the payload bytes; total and
    /// exhaustive over all four variants.
    pub fn from_raw(checksum: raw::FileChecksum) -> (r: Checksum)
        ensures
            r == Self::spec_from_raw(checksum),
            r.model() == checksum.model(),
    {
        match checksum {
            raw::FileChecksum::Absent => Checksum::Absent,
            raw::FileChecksum::Md5(d) => Checksum::Md5(d),
            raw::FileChecksum::Sha1(d) => Checksum::Sha1(d),
            raw::FileChecksum::Sha256(d) => Checksum::Sha256(d),
        }
    }
}

/// The checksum conversion is injective: raw checksums that convert to the
/// same checksum are the same record.
pub proof fn lemma_checksum_injective(a: raw::FileChecksum, b: raw::FileChecksum)
    ensures
        Checksum::spec_from_raw(a) == Checksum::spec_from_raw(b) ==> a == b,
{
}

/// Compiler identity for one compilation unit.
#[derive(Debug, PartialEq, Eq)]
pub struct CompilerInfo {
    /// The display name of the source language.
    pub language: String,
    pub flags: CompileFlags,
    /// The display name of the compilation target's processor type.
    pub cpu_type: String,
    pub frontend_version: CompilerVersion,
    pub backend_version: CompilerVersion,
    /// The free-form compiler version string, kept verbatim.
    pub version_string: String,
}

impl CompilerInfo {
    /// Builds the compiler identity from a raw compile-flags record: the
    /// language and processor codes are rendered to their display names, the
    /// flag bits and version numbers are copied, and the version string is
    /// kept verbatim. Total, no failure mode.
    pub fn from_raw(record: &raw::CompileFlagsSymbol) -> (r: CompilerInfo)
        ensures
            r.language@ == reader::language_name_of(record.language),
            r.flags == CompileFlags::spec_from_raw(record.flags),
            r.cpu_type@ == reader::cpu_name_of(record.cpu_type),
            r.frontend_version == CompilerVersion::spec_from_raw(record.frontend_version),
            r.backend_version == CompilerVersion::spec_from_raw(record.backend_version),
            r.version_string@ == record.version_string@,
    {
        CompilerInfo {
            language: reader::language_name(record.language),
            flags: CompileFlags::from_raw(&record.flags),
            cpu_type: reader::cpu_name(record.cpu_type),
            frontend_version: CompilerVersion::from_raw(&record.frontend_version),
            backend_version: CompilerVersion::from_raw(&record.backend_version),
            version_string: record.version_string.clone(),
        }
    }
}

/// Compiler invocation arguments, resolved through the id table.
#[derive(Debug, PartialEq, Eq)]
pub struct BuildInfo {
    /// The resolved argument strings, in the order the record lists them.
    pub arguments: Vec<String>,
}

/// Whether a build-information conversion outcome is the failure that
/// reports the missing id-table handle.
pub open spec fn reports_missing_id_finder(r: Result<BuildInfo, ParsingError>) -> bool {
    r matches Err(ParsingError::MissingDependency(resource)) && resource@ == "IdFinder"@
}

/// What the build-information conversion owes once an id-table handle is
/// supplied: success exactly when the symbol's own id entry is a
/// build-information record all of whose argument ids resolve to strings,
/// and then the ordered list of exactly those strings.
pub open spec fn build_info_outcome(
    finder: pdb::IdFinder,
    id: u32,
    r: Result<BuildInfo, ParsingError>,
) -> bool {
    let args = reader::build_args_of(finder)[id];
    &&& (r is Ok <==> reader::build_args_of(finder).contains_key(id) && (forall|j: int|
        0 <= j < args.len() ==> reader::id_strings_of(finder).contains_key(#[trigger] args[j])))
    &&& (r matches Ok(b) ==> b.arguments@.len() == args.len() && (forall|j: int|
        0 <= j < args.len() ==> (#[trigger] b.arguments@[j])@ == reader::id_strings_of(finder)[
            args[j]
        ]))
}

impl BuildInfo {
    /// Builds the argument list of a build-information symbol: resolves the
    /// symbol's own id entry as a build-information record, then resolves
    /// each of its argument ids to a string, in the order the record lists
    /// them.
    ///
    /// Without an id-table handle the conversion fails with
    /// `MissingDependency`; an id entry of an unexpected kind fails with
    /// `Unsupported`; a reader failure while resolving propagates as
    /// `Reader`. It never aborts.
    pub fn try_from(symbol: &raw::BuildInfoSymbol, finder: Option<&pdb::IdFinder>) -> (r: Result<
        BuildInfo,
        ParsingError,
    >)
        ensures
            finder is None <==> reports_missing_id_finder(r),
            finder matches Some(f) ==> build_info_outcome(*f, symbol.id, r),
    {
        let f = match finder {
            None => {
                return Err(ParsingError::MissingDependency("IdFinder"));
            },
            Some(f) => f,
        };
        let ids = match reader::find_build_info_args(f, symbol.id) {
            Err(e) => {
                return Err(ParsingError::Reader(e));
            },
            Ok(None) => {
                return Err(ParsingError::Unsupported("BuildInfo"));
            },
            Ok(Some(ids)) => ids,
        };
        let mut arguments: Vec<String> = Vec::new();
        let mut i: usize = 0;
        while i < ids.len()
            invariant
                finder == Some(f),
                i <= ids.len(),
                reader::build_args_of(*f).contains_key(symbol.id),
                ids@ == reader::build_args_of(*f)[symbol.id],
                arguments@.len() == i,
                forall|j: int|
                    0 <= j < i ==> reader::id_strings_of(*f).contains_key(#[trigger] ids@[j]),
                forall|j: int|
                    0 <= j < i ==> (#[trigger] arguments@[j])@ == reader::id_strings_of(*f)[
                        ids@[j]
                    ],
            decreases ids.len() - i,
        {
            let arg = ids[i];
            match reader::find_id_string(f, arg) {
                Err(e) => {
                    return Err(ParsingError::Reader(e));
                },
                Ok(None) => {
                    return Err(ParsingError::Unsupported("BuildInfoArgument"));
                },
                Ok(Some(s)) => {
                    arguments.push(s);
                },
            }
            i += 1;
        }
        Ok(BuildInfo { arguments })
    }
}

/// One source file referenced by a module.
#[derive(Debug, PartialEq, Eq)]
pub struct FileInfo {
    pub name: String,
    pub checksum: Checksum,
}

/// What the module conversion owes for a list of resolved file entries: one
/// file per entry, in order, the name copied and the checksum re-tagged.
pub open spec fn files_match_entries(
    files: Seq<FileInfo>,
    entries: Seq<(String, raw::FileChecksum)>,
) -> bool {
    &&& files.len() == entries.len()
    &&& forall|j: int|
        0 <= j < entries.len() ==> (#[trigger] files[j]).name@ == entries[j].0@ && files[j].checksum
            == Checksum::spec_from_raw(entries[j].1)
}

/// Whether every file entry the reader listed for a module resolves through
/// the string table.
pub open spec fn entries_resolve(entries: Seq<(u32, int, Seq<u8>)>, table: pdb::StringTable) -> bool {
    forall|j: int|
        0 <= j < entries.len() ==> reader::strings_of(table).contains_key(#[trigger] entries[j].0)
}

/// Whether a module's file list matches the entries the reader listed, with
/// every name resolved through the string table and every checksum's tag and
/// bytes preserved.
pub open spec fn files_match_listed(
    files: Option<Vec<FileInfo>>,
    entries: Seq<(u32, int, Seq<u8>)>,
    table: pdb::StringTable,
) -> bool {
    files matches Some(v) && v@.len() == entries.len() && (forall|j: int|
        0 <= j < entries.len() ==> (#[trigger] v@[j]).name@ == reader::strings_of(table)[
            entries[j].0
        ] && v@[j].checksum.model() == (entries[j].1, entries[j].2))
}

/// What the module conversion owes for its source files, given the reader's
/// model of the module's file entries: a normal absence when no list could
/// be had, success exactly when every listed name resolves, and then one
/// file per entry in source order.
pub open spec fn module_files_outcome(
    listed: Option<Seq<(u32, int, Seq<u8>)>>,
    table: pdb::StringTable,
    r: Result<DebugModule, ParsingError>,
) -> bool {
    match listed {
        Option::None => r matches Ok(d) && d.source_files is None,
        Option::Some(entries) => {
            &&& (r is Ok <==> entries_resolve(entries, table))
            &&& (r matches Ok(d) ==> files_match_listed(d.source_files, entries, table))
        },
    }
}

/// One compilation unit.
#[derive(Debug, PartialEq, Eq)]
pub struct DebugModule {
    pub name: String,
    pub object_file_name: String,
    /// The module's source files; absent when the module carries no
    /// line-number program or it fails to parse.
    pub source_files: Option<Vec<FileInfo>>,
}

impl DebugModule {
    /// Builds a module from its descriptor and its already-resolved file
    /// entries, taken as an argument: each file name as resolved through the
    /// string table, paired with its raw checksum. The module and
    /// object-file names are copied verbatim; with no entries supplied the
    /// file list is absent; with entries supplied the result lists exactly
    /// one file per entry, in order. Total, no failure mode.
    pub fn from_entries(
        module: raw::Module,
        entries: Option<Vec<(String, raw::FileChecksum)>>,
    ) -> (r: DebugModule)
        ensures
            r.name@ == module.name@,
            r.object_file_name@ == module.object_file_name@,
            r.source_files is Some <==> entries is Some,
            entries matches Some(v) ==> files_match_entries(r.source_files.unwrap()@, v@),
    {
        let source_files = match entries {
            None => None,
            Some(v) => {
                let ghost v0 = v@;
                let mut rest = v;
                let mut files: Vec<FileInfo> = Vec::new();
                proof {
                    assert(rest@ =~= v0.subrange(0, v0.len() as int));
                }
                while rest.len() > 0
                    invariant
                        files@.len() + rest@.len() == v0.len(),
                        rest@ == v0.subrange(files@.len() as int, v0.len() as int),
                        forall|j: int|
                            0 <= j < files@.len() ==> (#[trigger] files@[j]).name@ == v0[j].0@
                                && files@[j].checksum == Checksum::spec_from_raw(v0[j].1),
                    decreases rest.len(),
                {
                    let (name, checksum) = rest.remove(0);
                    proof {
                        assert(rest@ =~= v0.subrange(
                            files@.len() + 1int,
                            v0.len() as int,
                        ));
                    }
                    files.push(FileInfo { name, checksum: Checksum::from_raw(checksum) });
                }
                Some(files)
            },
        };
        DebugModule { name: module.name, object_file_name: module.object_file_name, source_files }
    }

    /// Builds a module against the reader itself. With no per-module info
    /// block the file list is absent. With one, the module's files are
    /// listed through its line-number program; failure there is a normal
    /// absence, not an error, and the file list is absent. Each listed name
    /// is then resolved through the string table; failure there is a hard
    /// failure that aborts this module's conversion, since an unresolvable
    /// name offset indicates a corrupt module.
    pub fn from_raw(
        module: raw::Module,
        info: Option<&pdb::ModuleInfo>,
        string_table: &pdb::StringTable,
    ) -> (r: Result<DebugModule, ParsingError>)
        ensures
            r matches Ok(d) ==> d.name@ == module.name@ && d.object_file_name@
                == module.object_file_name@,
            match info {
                Option::None => r matches Ok(d) && d.source_files is None,
                Option::Some(i) => module_files_outcome(
                    reader::files_of_module(*i),
                    *string_table,
                    r,
                ),
            },
    {
        let i = match info {
            None => {
                return Ok(Self::from_entries(module, None));
            },
            Some(i) => i,
        };
        let listed = match reader::module_files(i) {
            Err(_) => {
                return Ok(Self::from_entries(module, None));
            },
            Ok(v) => v,
        };
        let ghost listed0 = listed@;
        let mut rest = listed;
        let mut resolved: Vec<(String, raw::FileChecksum)> = Vec::new();
        proof {
            assert(rest@ =~= listed0.subrange(0, listed0.len() as int));
        }
        while rest.len() > 0
            invariant
                info == Some(i),
                reader::files_of_module(*i) == Some(raw::entries_model(listed0)),
                resolved@.len() + rest@.len() == listed0.len(),
                rest@ == listed0.subrange(resolved@.len() as int, listed0.len() as int),
                forall|j: int|
                    0 <= j < resolved@.len() ==> reader::strings_of(*string_table).contains_key(
                        #[trigger] listed0[j].0,
                    ),
                forall|j: int|
                    0 <= j < resolved@.len() ==> (#[trigger] resolved@[j]).0@
                        == reader::strings_of(*string_table)[listed0[j].0],
                forall|j: int| 0 <= j < resolved@.len() ==> (#[trigger] resolved@[j]).1
                    == listed0[j].1,
            decreases rest.len(),
        {
            let (off, checksum) = rest.remove(0);
            let name = match reader::lookup_string(string_table, off) {
                Err(e) => {
                    proof {
                        assert(!entries_resolve(raw::entries_model(listed0), *string_table)) by {
                            assert(raw::entries_model(listed0)[resolved@.len() as int].0
                                == listed0[resolved@.len() as int].0);
                        }
                    }
                    return Err(ParsingError::Reader(e));
                },
                Ok(name) => name,
            };
            proof {
                assert(rest@ =~= listed0.subrange(
                    resolved@.len() + 1int,
                    listed0.len() as int,
                ));
            }
            resolved.push((name, checksum));
        }
        let result = Self::from_entries(module, Some(resolved));
        proof {
            let entries = raw::entries_model(listed0);
            assert forall|j: int| 0 <= j < entries.len() implies (#[trigger] result
                .source_files
                .unwrap()@[j]).name@ == reader::strings_of(*string_table)[entries[j].0] && result
                .source_files
                .unwrap()@[j].checksum.model() == (entries[j].1, entries[j].2) by {
                lemma_checksum_model_preserved(listed0[j].1);
            }
        }
        Ok(result)
    }
}

/// Re-tagging preserves a checksum's tag and payload bytes.
pub proof fn lemma_checksum_model_preserved(checksum: raw::FileChecksum)
    ensures
        Checksum::spec_from_raw(checksum).model() == checksum.model(),
{
}

/// Build and compiler provenance. Either part is absent when the underlying
/// stream carries no such record.
#[derive(Debug, PartialEq, Eq)]
pub struct AssemblyInfo {
    pub build_info: Option<BuildInfo>,
    pub compiler_info: Option<CompilerInfo>,
}

/// One exported or public symbol.
#[derive(Debug, PartialEq, Eq)]
pub struct PublicSymbol {
    pub name: String,
    pub is_code: bool,
    pub is_function: bool,
    pub is_managed: bool,
    pub is_msil: bool,
    /// The resolved absolute address; absent exactly when resolution failed.
    pub offset: Option<usize>,
}

impl PublicSymbol {
    /// Builds a public symbol from its raw record and the address map's
    /// answer for the record's address pair, taken as an argument. The five
    /// classification flags and the name are copied verbatim; the address is
    /// resolved as `resolve::resolve_parts` says, recording one warning — and
    /// ignoring the map's answer — when the section index is zero. Total: an
    /// unresolved address degrades to an absent one, never to a failure.
    pub fn from_parts(
        symbol: raw::PublicSymbol,
        translated: Option<u32>,
        base_address: usize,
        warnings: &mut WarningLog,
    ) -> (r: PublicSymbol)
        requires
            resolve::base_in_range(base_address),
        ensures
            r.name@ == symbol.name@,
            r.is_code == symbol.code,
            r.is_function == symbol.function,
            r.is_managed == symbol.managed,
            r.is_msil == symbol.msil,
            symbol.section == 0 ==> r.offset is None && final(warnings)@ == old(
                warnings,
            )@.push(symbol.name@),
            symbol.section != 0 ==> final(warnings)@ == old(warnings)@,
            symbol.section != 0 ==> (r.offset is Some <==> translated is Some),
            symbol.section != 0 && translated is Some ==> r.offset == Some(
                (base_address + translated.unwrap()) as usize,
            ),
    {
        let offset = resolve::resolve_parts(
            symbol.section,
            translated,
            base_address,
            symbol.name.as_str(),
            warnings,
        );
        PublicSymbol {
            name: symbol.name,
            is_code: symbol.code,
            is_function: symbol.function,
            is_managed: symbol.managed,
            is_msil: symbol.msil,
            offset,
        }
    }

    /// Builds a public symbol against the address map itself: for a valid
    /// section the record's address pair is translated through the map; for
    /// section index zero no lookup is attempted.
    pub fn from_raw(
        symbol: raw::PublicSymbol,
        base_address: usize,
        address_map: &pdb::AddressMap,
        warnings: &mut WarningLog,
    ) -> (r: PublicSymbol)
        requires
            resolve::base_in_range(base_address),
        ensures
            r.name@ == symbol.name@,
            r.is_code == symbol.code,
            r.is_function == symbol.function,
            r.is_managed == symbol.managed,
            r.is_msil == symbol.msil,
            symbol.section == 0 ==> r.offset is None && final(warnings)@ == old(
                warnings,
            )@.push(symbol.name@),
            symbol.section != 0 ==> final(warnings)@ == old(warnings)@,
            symbol.section != 0 ==> (r.offset is Some <==> reader::translations_of(
                *address_map,
            ).contains_key((symbol.section, symbol.offset))),
            symbol.section != 0 && reader::translations_of(*address_map).contains_key(
                (symbol.section, symbol.offset),
            ) ==> r.offset == Some(
                (base_address + reader::translations_of(*address_map)[
                    (symbol.section, symbol.offset)
                ]) as usize,
            ),
    {
        if symbol.section == 0 {
            Self::from_parts(symbol, None, base_address, warnings)
        } else {
            let translated = reader::lookup_rva(address_map, symbol.section, symbol.offset);
            Self::from_parts(symbol, translated, base_address, warnings)
        }
    }
}

/// One function or routine.
#[derive(Debug, PartialEq, Eq)]
pub struct Procedure {
    pub name: String,
    /// The human-readable type signature; absent when the type lookup or its
    /// parse fails (a missing signature is acceptable, a missing name is
    /// not).
    pub signature: Option<String>,
    /// The resolved absolute address; absent exactly when resolution failed.
    pub offset: Option<usize>,
    /// The length of this procedure in bytes.
    pub len: usize,
    pub is_global: bool,
    pub is_dpc: bool,
    /// The offset at which the prologue ends.
    pub prologue_end: usize,
    /// The offset at which the epilogue starts.
    pub epilogue_start: usize,
}

impl Procedure {
    /// Builds a procedure from its raw record, the address map's answer for
    /// the record's address pair, and the already-rendered type signature,
    /// both taken as arguments. Name, length, flags and debug-range offsets
    /// are copied verbatim; the address is resolved as
    /// `resolve::resolve_parts` says, recording one warning when the section
    /// index is zero.
    pub fn from_parts(
        symbol: raw::ProcedureSymbol,
        translated: Option<u32>,
        signature: Option<String>,
        base_address: usize,
        warnings: &mut WarningLog,
    ) -> (r: Procedure)
        requires
            resolve::base_in_range(base_address),
        ensures
            r.name@ == symbol.name@,
            r.signature == signature,
            r.len == symbol.len,
            r.is_global == symbol.global,
            r.is_dpc == symbol.dpc,
            r.prologue_end == symbol.dbg_start_offset,
            r.epilogue_start == symbol.dbg_end_offset,
            symbol.section == 0 ==> r.offset is None && final(warnings)@ == old(
                warnings,
            )@.push(symbol.name@),
            symbol.section != 0 ==> final(warnings)@ == old(warnings)@,
            symbol.section != 0 ==> (r.offset is Some <==> translated is Some),
            symbol.section != 0 && translated is Some ==> r.offset == Some(
                (base_address + translated.unwrap()) as usize,
            ),
    {
        let offset = resolve::resolve_parts(
            symbol.section,
            translated,
            base_address,
            symbol.name.as_str(),
            warnings,
        );
        Procedure {
            name: symbol.name,
            signature,
            offset,
            len: symbol.len as usize,
            is_global: symbol.global,
            is_dpc: symbol.dpc,
            prologue_end: symbol.dbg_start_offset as usize,
            epilogue_start: symbol.dbg_end_offset as usize,
        }
    }

    /// Builds a procedure against the address map and the type table: the
    /// signature is the rendering of the record's type index, absent when
    /// that lookup fails; the address is translated as for a public symbol,
    /// with no lookup attempted for section index zero.
    pub fn from_raw(
        symbol: raw::ProcedureSymbol,
        base_address: usize,
        address_map: &pdb::AddressMap,
        type_finder: &pdb::TypeFinder,
        warnings: &mut WarningLog,
    ) -> (r: Procedure)
        requires
            resolve::base_in_range(base_address),
        ensures
            r.name@ == symbol.name@,
            r.len == symbol.len,
            r.is_global == symbol.global,
            r.is_dpc == symbol.dpc,
            r.prologue_end == symbol.dbg_start_offset,
            r.epilogue_start == symbol.dbg_end_offset,
            r.signature is Some <==> reader::signatures_of(*type_finder).contains_key(
                symbol.type_index,
            ),
            r.signature matches Some(s) ==> s@ == reader::signatures_of(*type_finder)[
                symbol.type_index
            ],
            symbol.section == 0 ==> r.offset is None && final(warnings)@ == old(
                warnings,
            )@.push(symbol.name@),
            symbol.section != 0 ==> final(warnings)@ == old(warnings)@,
            symbol.section != 0 ==> (r.offset is Some <==> reader::translations_of(
                *address_map,
            ).contains_key((symbol.section, symbol.offset))),
            symbol.section != 0 && reader::translations_of(*address_map).contains_key(
                (symbol.section, symbol.offset),
            ) ==> r.offset == Some(
                (base_address + reader::translations_of(*address_map)[
                    (symbol.section, symbol.offset)
                ]) as usize,
            ),
    {
        let signature = reader::find_type_signature(type_finder, symbol.type_index);
        if symbol.section == 0 {
            Self::from_parts(symbol, None, signature, base_address, warnings)
        } else {
            let translated = reader::lookup_rva(address_map, symbol.section, symbol.offset);
            Self::from_parts(symbol, translated, signature, base_address, warnings)
        }
    }
}

impl Default for AssemblyInfo {
    /// The empty provenance: no record seen.
    fn default() -> (r: AssemblyInfo)
        ensures
            r.build_info is None,
            r.compiler_info is None,
    {
        AssemblyInfo { build_info: None, compiler_info: None }
    }
}

/// One global data item.
#[derive(Debug, PartialEq, Eq)]
pub struct Data {
    pub name: String,
    /// The handle of this item's type in the `ParsedPdb::types` arena.
    pub typ: usize,
    /// The item's byte offset.
    pub offset: usize,
}

/// A type definition. Definitions live in the single shared arena
/// `ParsedPdb::types` and refer to one another by arena handle, which keeps
/// sharing cheap and makes self-referential type graphs representable.
#[derive(Debug, PartialEq, Eq)]
pub struct Type {
    pub name: String,
    /// The named fields, in order, each referring to its type by arena
    /// handle.
    pub fields: Vec<(String, usize)>,
    /// The length of this type in bits.
    pub len: usize,
}

/// A debug-information database that has been fully parsed: the flat,
/// serializable result of one extraction pass. Assembled once by the caller
/// from the builders' outputs and read-only thereafter.
#[derive(Debug, PartialEq, Eq)]
pub struct ParsedPdb {
    pub path: String,
    pub assembly_info: AssemblyInfo,
    pub public_symbols: Vec<PublicSymbol>,
    /// The de-duplicated, shared universe of type definitions; every type
    /// reference is a handle into this arena.
    pub types: Vec<Type>,
    pub procedures: Vec<Procedure>,
    pub global_data: Vec<Data>,
    pub debug_modules: Vec<DebugModule>,
}

impl ParsedPdb {
    /// Every type reference stays inside the arena: the type handles of all
    /// global data items, and of all fields of all type definitions, are in
    /// range.
    pub open spec fn wf(&self) -> bool {
        &&& forall|j: int|
            0 <= j < self.global_data@.len() ==> (#[trigger] self.global_data@[j]).typ
                < self.types@.len()
        &&& forall|j: int, k: int|
            0 <= j < self.types@.len() && 0 <= k < self.types@[j].fields@.len() ==> (#[trigger] self
                .types@[j].fields@[k]).1 < self.types@.len()
    }

    /// Constructs the empty extraction result for the database at `path`:
    /// no provenance and no records yet.
    pub fn new(path: String) -> (r: ParsedPdb)
        ensures
            r.path@ == path@,
            r.assembly_info.build_info is None,
            r.assembly_info.compiler_info is None,
            r.public_symbols@.len() == 0,
            r.types@.len() == 0,
            r.procedures@.len() == 0,
            r.global_data@.len() == 0,
            r.debug_modules@.len() == 0,
            r.wf(),
    {
        ParsedPdb {
            path,
            assembly_info: AssemblyInfo::default(),
            public_symbols: Vec::new(),
            types: Vec::new(),
            procedures: Vec::new(),
            global_data: Vec::new(),
            debug_modules: Vec::new(),
        }
    }
}

} // verus!
