//! Models of the reader's decoded records.
//!
//! The external reader hands out fixed-shape records already decoded from the
//! database file. The types here hold, as plain values, exactly what the
//! converters read from those records; the surrounding tooling fills them
//! from the reader's own record types before calling into this crate.

use vstd::prelude::*;

verus! {

/// The boolean compilation switches of a compile-flags record, one field per
/// bit of the source bitfield.
#[derive(Debug, Clone, Copy, PartialEq, Eq)]
pub struct CompileFlags {
    /// Compiled for edit and continue.
    pub edit_and_continue: bool,
    /// Compiled without debugging info.
    pub no_debug_info: bool,
    /// Compiled with link-time code generation.
    pub link_time_codegen: bool,
    /// Compiled without data alignment.
    pub no_data_align: bool,
    /// Managed code or data is present.
    pub managed: bool,
    /// Compiled with security checks.
    pub security_checks: bool,
    /// Compiled for hot patching.
    pub hot_patch: bool,
    /// Converted with CvtCIL.
    pub cvtcil: bool,
    /// This is a MSIL .NET module.
    pub msil_module: bool,
    /// Compiled with SDL checks.
    pub sdl: bool,
    /// Compiled with profile-guided optimization.
    pub pgo: bool,
    /// This is a .exp module.
    pub exp_module: bool,
}

/// The version numbers of a compiler frontend or backend.
#[derive(Debug, Clone, Copy, PartialEq, Eq)]
pub struct CompilerVersion {
    pub major: u16,
    pub minor: u16,
    pub build: u16,
    /// The quick-fix-engineering number, when present.
    pub qfe: Option<u16>,
}

/// A compile-flags symbol record: compiler identity and switches for one
/// compilation unit. `language` and `cpu_type` hold the reader's numeric
/// codes.
#[derive(Debug, Clone, PartialEq, Eq)]
pub struct CompileFlagsSymbol {
    pub language: u8,
    pub flags: CompileFlags,
    pub cpu_type: u16,
    pub frontend_version: CompilerVersion,
    pub backend_version: CompilerVersion,
    pub version_string: String,
}

/// A build-information symbol record: the index of the build-information
/// entry in the id table.
#[derive(Debug, Clone, Copy, PartialEq, Eq)]
pub struct BuildInfoSymbol {
    pub id: u32,
}

/// A public-symbol record.
#[derive(Debug, Clone, PartialEq, Eq)]
pub struct PublicSymbol {
    /// The symbol refers to executable code.
    pub code: bool,
    /// The symbol is a function.
    pub function: bool,
    /// The symbol is in managed code.
    pub managed: bool,
    /// The symbol is managed intermediate-language code.
    pub msil: bool,
    /// The index of the section the symbol lives in; zero is invalid by
    /// convention.
    pub section: u16,
    /// The offset within that section.
    pub offset: u32,
    pub name: String,
}

/// A procedure symbol record.
#[derive(Debug, Clone, PartialEq, Eq)]
pub struct ProcedureSymbol {
    /// Whether this is a global or a local procedure.
    pub global: bool,
    /// Whether this procedure serves deferred procedure calls.
    pub dpc: bool,
    /// The length of the code block covered by this procedure, in bytes.
    pub len: u32,
    /// The offset at which the prologue ends.
    pub dbg_start_offset: u32,
    /// The offset at which the epilogue starts.
    pub dbg_end_offset: u32,
    /// The index of the procedure's type in the type table.
    pub type_index: u32,
    /// The index of the section the procedure lives in; zero is invalid by
    /// convention.
    pub section: u16,
    /// The offset within that section.
    pub offset: u32,
    pub name: String,
}

/// A module descriptor: the module and object-file names.
#[derive(Debug, Clone, PartialEq, Eq)]
pub struct Module {
    pub name: String,
    pub object_file_name: String,
}

/// A source-file checksum as the reader decoded it.
#[derive(Debug, Clone, PartialEq, Eq)]
pub enum FileChecksum {
    Absent,
    Md5(Vec<u8>),
    Sha1(Vec<u8>),
    Sha256(Vec<u8>),
}

impl FileChecksum {
    /// The checksum as a pair: a tag telling the four variants apart, and the
    /// payload bytes (empty when the checksum is absent).
    pub open spec fn model(&self) -> (int, Seq<u8>) {
        match self {
            FileChecksum::Absent => (0int, Seq::<u8>::empty()),
            FileChecksum::Md5(d) => (1int, d@),
            FileChecksum::Sha1(d) => (2int, d@),
            FileChecksum::Sha256(d) => (3int, d@),
        }
    }
}

/// A module's file entries as the reader lists them: for each source file,
/// the string-table offset of its name and its checksum, reduced to plain
/// values.
pub open spec fn entries_model(s: Seq<(u32, FileChecksum)>) -> Seq<(u32, int, Seq<u8>)> {
    s.map_values(|e: (u32, FileChecksum)| (e.0, e.1.model().0, e.1.model().1))
}

} // verus!
