use pdb_typeinfo::error::ParsingError;
use pdb_typeinfo::raw;
use pdb_typeinfo::report::WarningLog;
use pdb_typeinfo::resolve::resolve_parts;
use pdb_typeinfo::typeinfo::AssemblyInfo;
use pdb_typeinfo::typeinfo::BuildInfo;
use pdb_typeinfo::typeinfo::Checksum;
use pdb_typeinfo::typeinfo::CompileFlags;
use pdb_typeinfo::typeinfo::CompilerInfo;
use pdb_typeinfo::typeinfo::CompilerVersion;
use pdb_typeinfo::typeinfo::DebugModule;
use pdb_typeinfo::typeinfo::ParsedPdb;
use pdb_typeinfo::typeinfo::PublicSymbol;
use pdb_typeinfo::typeinfo::Procedure;

fn raw_flags_from_bits(bits: u16) -> raw::CompileFlags {
    let bit = |k: u16| bits >> k & 1 == 1;
    raw::CompileFlags {
        edit_and_continue: bit(0),
        no_debug_info: bit(1),
        link_time_codegen: bit(2),
        no_data_align: bit(3),
        managed: bit(4),
        security_checks: bit(5),
        hot_patch: bit(6),
        cvtcil: bit(7),
        msil_module: bit(8),
        sdl: bit(9),
        pgo: bit(10),
        exp_module: bit(11),
    }
}

fn raw_public_symbol(name: &str, section: u16, offset: u32) -> raw::PublicSymbol {
    raw::PublicSymbol {
        code: true,
        function: true,
        managed: false,
        msil: false,
        section,
        offset,
        name: name.to_string(),
    }
}

#[test]
fn resolve_invalid_section_warns_once() {
    let mut warnings = WarningLog::new();
    let r = resolve_parts(0, Some(0x20), 0x1000, "sym", &mut warnings);
    assert!(r.is_none());
    assert_eq!(warnings.len(), 1);
    assert_eq!(warnings.entries[0], "sym");
}

#[test]
fn resolve_adds_base_to_translated_address() {
    let mut warnings = WarningLog::new();
    let r = resolve_parts(1, Some(0x20), 0x1000, "sym", &mut warnings);
    assert_eq!(r, Some(0x1020));
    assert_eq!(warnings.entries.len(), 0);
}

#[test]
fn resolve_unmapped_address_is_absent_without_warning() {
    let mut warnings = WarningLog::new();
    let r = resolve_parts(2, None, 0x1000, "sym", &mut warnings);
    assert!(r.is_none());
    assert_eq!(warnings.entries.len(), 0);
}

#[test]
fn public_symbol_invalid_section_degrades_and_warns() {
    let mut warnings = WarningLog::new();
    let sym = raw_public_symbol("invalid", 0, 0x20);
    let converted = PublicSymbol::from_parts(sym, None, 0x1000, &mut warnings);
    assert_eq!(converted.name, "invalid");
    assert!(converted.offset.is_none());
    assert_eq!(warnings.entries.len(), 1);
    assert_eq!(warnings.entries[0], "invalid");
}

#[test]
fn public_symbol_valid_section_resolves() {
    let mut warnings = WarningLog::new();
    let sym = raw_public_symbol("ok", 1, 0x4000);
    let converted = PublicSymbol::from_parts(sym, Some(0x20), 0x1000, &mut warnings);
    assert_eq!(converted.offset, Some(0x1020));
    assert!(converted.is_code);
    assert!(converted.is_function);
    assert!(!converted.is_managed);
    assert!(!converted.is_msil);
    assert_eq!(warnings.entries.len(), 0);
}

#[test]
fn procedure_copies_record_and_resolves() {
    let mut warnings = WarningLog::new();
    let sym = raw::ProcedureSymbol {
        global: true,
        dpc: false,
        len: 64,
        dbg_start_offset: 4,
        dbg_end_offset: 60,
        type_index: 0x1005,
        section: 1,
        offset: 0x40,
        name: "proc".to_string(),
    };
    let converted = Procedure::from_parts(
        sym,
        Some(0x40),
        Some("fn()".to_string()),
        0x1000,
        &mut warnings,
    );
    assert_eq!(converted.name, "proc");
    assert_eq!(converted.signature, Some("fn()".to_string()));
    assert_eq!(converted.offset, Some(0x1040));
    assert_eq!(converted.len, 64);
    assert!(converted.is_global);
    assert!(!converted.is_dpc);
    assert_eq!(converted.prologue_end, 4);
    assert_eq!(converted.epilogue_start, 60);
    assert_eq!(warnings.entries.len(), 0);
}

#[test]
fn procedure_invalid_section_warns() {
    let mut warnings = WarningLog::new();
    let sym = raw::ProcedureSymbol {
        global: false,
        dpc: true,
        len: 8,
        dbg_start_offset: 0,
        dbg_end_offset: 8,
        type_index: 0,
        section: 0,
        offset: 0,
        name: "broken".to_string(),
    };
    let converted = Procedure::from_parts(sym, None, None, 0, &mut warnings);
    assert!(converted.offset.is_none());
    assert_eq!(warnings.entries, vec!["broken".to_string()]);
}

#[test]
fn compile_flags_all_set() {
    let converted = CompileFlags::from_raw(&raw_flags_from_bits(0xfff));
    assert!(converted.edit_and_continue);
    assert!(converted.no_debug_info);
    assert!(converted.link_time_codegen);
    assert!(converted.no_data_align);
    assert!(converted.managed);
    assert!(converted.security_checks);
    assert!(converted.hot_patch);
    assert!(converted.cvtcil);
    assert!(converted.msil_module);
    assert!(converted.sdl);
    assert!(converted.pgo);
    assert!(converted.exp_module);
}

#[test]
fn compile_flags_round_trip_all_combinations() {
    for bits in 0u16..0x1000 {
        let flags = raw_flags_from_bits(bits);
        let back = CompileFlags::from_raw(&flags).to_raw();
        assert_eq!(back, flags);
    }
}

#[test]
fn compiler_version_copies_numbers() {
    let version = raw::CompilerVersion { major: 19, minor: 29, build: 30133, qfe: Some(2) };
    let converted = CompilerVersion::from_raw(&version);
    assert_eq!(converted.major, 19);
    assert_eq!(converted.minor, 29);
    assert_eq!(converted.build, 30133);
    assert_eq!(converted.qfe, Some(2));
    let bare = raw::CompilerVersion { major: 1, minor: 0, build: 0, qfe: None };
    assert_eq!(CompilerVersion::from_raw(&bare).qfe, None);
}

#[test]
fn compiler_info_renders_language_and_cpu() {
    let record = raw::CompileFlagsSymbol {
        language: 0x01,
        flags: raw_flags_from_bits(0),
        cpu_type: 0xd0,
        frontend_version: raw::CompilerVersion { major: 19, minor: 0, build: 0, qfe: None },
        backend_version: raw::CompilerVersion { major: 19, minor: 1, build: 0, qfe: None },
        version_string: "Microsoft (R) Optimizing Compiler".to_string(),
    };
    let converted = CompilerInfo::from_raw(&record);
    assert_eq!(converted.language, "Cpp");
    assert_eq!(converted.cpu_type, "X64");
    assert_eq!(converted.version_string, "Microsoft (R) Optimizing Compiler");
    assert_eq!(converted.frontend_version.major, 19);
    assert_eq!(converted.backend_version.minor, 1);
}

#[test]
fn checksum_preserves_each_variant() {
    assert_eq!(Checksum::from_raw(raw::FileChecksum::Absent), Checksum::Absent);
    assert_eq!(
        Checksum::from_raw(raw::FileChecksum::Md5(vec![0xaa; 16])),
        Checksum::Md5(vec![0xaa; 16])
    );
    assert_eq!(
        Checksum::from_raw(raw::FileChecksum::Sha1(vec![0xbb; 20])),
        Checksum::Sha1(vec![0xbb; 20])
    );
    assert_eq!(
        Checksum::from_raw(raw::FileChecksum::Sha256(vec![0x01; 32])),
        Checksum::Sha256(vec![0x01; 32])
    );
}

#[test]
fn checksum_variants_stay_distinct() {
    let bytes = vec![0x01; 32];
    let md5 = Checksum::from_raw(raw::FileChecksum::Md5(bytes.clone()));
    let sha1 = Checksum::from_raw(raw::FileChecksum::Sha1(bytes.clone()));
    let sha256 = Checksum::from_raw(raw::FileChecksum::Sha256(bytes));
    assert_ne!(md5, sha1);
    assert_ne!(sha1, sha256);
    assert_ne!(md5, sha256);
}

#[test]
fn build_info_without_id_finder_is_missing_dependency() {
    let symbol = raw::BuildInfoSymbol { id: 0x1234 };
    let result = BuildInfo::try_from(&symbol, None);
    assert!(matches!(result, Err(ParsingError::MissingDependency("IdFinder"))));
}

#[test]
fn module_without_info_has_no_source_files() {
    let module = raw::Module {
        name: "module.obj".to_string(),
        object_file_name: "path/to/module.obj".to_string(),
    };
    let converted = DebugModule::from_entries(module, None);
    assert_eq!(converted.name, "module.obj");
    assert_eq!(converted.object_file_name, "path/to/module.obj");
    assert!(converted.source_files.is_none());
}

#[test]
fn module_lists_files_in_source_order() {
    let module = raw::Module {
        name: "a.obj".to_string(),
        object_file_name: "a.obj".to_string(),
    };
    let entries = vec![
        ("first.c".to_string(), raw::FileChecksum::Md5(vec![0x11; 16])),
        ("second.c".to_string(), raw::FileChecksum::Absent),
        ("third.c".to_string(), raw::FileChecksum::Sha256(vec![0x22; 32])),
    ];
    let converted = DebugModule::from_entries(module, Some(entries));
    let files = converted.source_files.expect("file list should be present");
    assert_eq!(files.len(), 3);
    assert_eq!(files[0].name, "first.c");
    assert_eq!(files[0].checksum, Checksum::Md5(vec![0x11; 16]));
    assert_eq!(files[1].name, "second.c");
    assert_eq!(files[1].checksum, Checksum::Absent);
    assert_eq!(files[2].name, "third.c");
    assert_eq!(files[2].checksum, Checksum::Sha256(vec![0x22; 32]));
}

#[test]
fn empty_module_file_list_stays_empty() {
    let module = raw::Module { name: "b.obj".to_string(), object_file_name: "b.obj".to_string() };
    let converted = DebugModule::from_entries(module, Some(vec![]));
    assert_eq!(converted.source_files, Some(vec![]));
}

#[test]
fn assembly_info_default_is_empty() {
    let info = AssemblyInfo::default();
    assert!(info.build_info.is_none());
    assert!(info.compiler_info.is_none());
}

#[test]
fn new_parsed_pdb_is_empty() {
    let parsed = ParsedPdb::new("sample.pdb".to_string());
    assert_eq!(parsed.path, "sample.pdb");
    assert!(parsed.assembly_info.build_info.is_none());
    assert!(parsed.assembly_info.compiler_info.is_none());
    assert!(parsed.public_symbols.is_empty());
    assert!(parsed.types.is_empty());
    assert!(parsed.procedures.is_empty());
    assert!(parsed.global_data.is_empty());
    assert!(parsed.debug_modules.is_empty());
}

#[test]
fn warning_log_keeps_order() {
    let mut warnings = WarningLog::new();
    let first = raw_public_symbol("one", 0, 0);
    let second = raw_public_symbol("two", 0, 0);
    PublicSymbol::from_parts(first, None, 0, &mut warnings);
    PublicSymbol::from_parts(second, None, 0, &mut warnings);
    assert_eq!(warnings.entries, vec!["one".to_string(), "two".to_string()]);
}
