//! The trusted boundary to the external debug-information reader.
//!
//! Everything the verified converters need from the reader — address
//! translation, type/id lookup, string resolution, per-module file listings —
//! goes through the declarations and wrappers in this module. Their contracts
//! are assumed, not proved; each doc comment names the reader function relied
//! on.

use vstd::prelude::*;

use pdb::FallibleIterator;

use crate::raw;

verus! {

#[verifier::external_type_specification]
#[verifier::external_body]
pub struct ExPdbError(pdb::Error);

#[verifier::external_type_specification]
#[verifier::external_body]
pub struct ExAddressMap<'s>(pdb::AddressMap<'s>);

#[verifier::external_type_specification]
#[verifier::external_body]
pub struct ExStringTable<'s>(pdb::StringTable<'s>);

#[verifier::external_type_specification]
#[verifier::external_body]
pub struct ExModuleInfo<'s>(pdb::ModuleInfo<'s>);

#[verifier::external_type_specification]
#[verifier::external_body]
#[verifier::reject_recursive_types(I)]
pub struct ExItemFinder<'t, I>(pdb::ItemFinder<'t, I>);

#[verifier::external_type_specification]
#[verifier::external_body]
pub struct ExIdIndex(pdb::IdIndex);

#[verifier::external_type_specification]
#[verifier::external_body]
pub struct ExTypeIndex(pdb::TypeIndex);

/// What the address map translates: for each section and in-section offset
/// pair that has a mapping, the image-relative address it maps to.
pub uninterp spec fn translations_of(m: pdb::AddressMap) -> Map<(u16, u32), u32>;

/// Relies on `pdb::PdbInternalSectionOffset::to_rva`: translates a
/// section-relative address through the address map, or reports that the map
/// has no mapping for it.
#[verifier::external_body]
pub(crate) fn lookup_rva(map: &pdb::AddressMap, section: u16, offset: u32) -> (r: Option<u32>)
    ensures
        r == (if translations_of(*map).contains_key((section, offset)) {
            Some(translations_of(*map)[(section, offset)])
        } else {
            None::<u32>
        }),
{
    pdb::PdbInternalSectionOffset { offset, section }
        .to_rva(map)
        .map(u32::from)
}

/// The string table's contents: for each offset that resolves, the text
/// stored there.
pub uninterp spec fn strings_of(t: pdb::StringTable) -> Map<u32, Seq<char>>;

/// Relies on `pdb::StringTable::get` (as `pdb::StringRef::to_string_lossy`
/// uses it): resolves a string-table offset to its text, and fails exactly on
/// the offsets the table cannot resolve.
#[verifier::external_body]
pub(crate) fn lookup_string(table: &pdb::StringTable, offset: u32) -> (r: Result<
    String,
    pdb::Error,
>)
    ensures
        r is Ok <==> strings_of(*table).contains_key(offset),
        r matches Ok(s) ==> s@ == strings_of(*table)[offset],
{
    table.get(pdb::StringRef(offset)).map(|s| s.to_string().into_owned())
}

/// The id table's build-information entries: for each id index whose record
/// parses as a build-information record, its argument id indices in order.
pub uninterp spec fn build_args_of(f: pdb::IdFinder) -> Map<u32, Seq<u32>>;

/// The id table's string entries: for each id index whose record parses as a
/// string record, its text.
pub uninterp spec fn id_strings_of(f: pdb::IdFinder) -> Map<u32, Seq<char>>;

/// Relies on `pdb::ItemFinder::find` and `pdb::Item::parse`: resolves an id
/// index and forces its parse. `Ok(Some(..))` carries the argument ids of a
/// build-information record; `Ok(None)` means the index resolved to a record
/// of some other kind; `Err` is the reader's own failure.
#[verifier::external_body]
pub(crate) fn find_build_info_args(finder: &pdb::IdFinder, id: u32) -> (r: Result<
    Option<Vec<u32>>,
    pdb::Error,
>)
    ensures
        r matches Ok(v) ==> (v is Some <==> build_args_of(*finder).contains_key(id)),
        r is Err ==> !build_args_of(*finder).contains_key(id),
        r matches Ok(v) && v matches Some(args) ==> args@ == build_args_of(*finder)[id],
{
    match finder.find(pdb::IdIndex(id))?.parse()? {
        pdb::IdData::BuildInfo(info) => Ok(Some(info.arguments.iter().map(|a| a.0).collect())),
        _ => Ok(None),
    }
}

/// Relies on `pdb::ItemFinder::find` and `pdb::Item::parse`: resolves an id
/// index to the text of a string record. `Ok(None)` means the index resolved
/// to a record of some other kind.
#[verifier::external_body]
pub(crate) fn find_id_string(finder: &pdb::IdFinder, id: u32) -> (r: Result<
    Option<String>,
    pdb::Error,
>)
    ensures
        r matches Ok(v) ==> (v is Some <==> id_strings_of(*finder).contains_key(id)),
        r is Err ==> !id_strings_of(*finder).contains_key(id),
        r matches Ok(v) && v matches Some(s) ==> s@ == id_strings_of(*finder)[id],
{
    match finder.find(pdb::IdIndex(id))?.parse()? {
        pdb::IdData::String(data) => Ok(Some(data.name.to_string().into_owned())),
        _ => Ok(None),
    }
}

/// The type table's rendered signatures: for each type index that resolves
/// and parses, the human-readable rendering of its record.
pub uninterp spec fn signatures_of(f: pdb::TypeFinder) -> Map<u32, Seq<char>>;

/// Relies on `pdb::ItemFinder::find`, `pdb::Item::parse` and the debug
/// rendering of `pdb::TypeData`: renders a type record, or reports that the
/// index does not resolve or its record does not parse.
#[verifier::external_body]
pub(crate) fn find_type_signature(finder: &pdb::TypeFinder, index: u32) -> (r: Option<String>)
    ensures
        r is Some <==> signatures_of(*finder).contains_key(index),
        r matches Some(s) ==> s@ == signatures_of(*finder)[index],
{
    match finder.find(pdb::TypeIndex(index)).ok()?.parse() {
        Ok(data) => Some(format!("{:?}", data)),
        Err(_) => None,
    }
}

/// A module's file entries, when its line-number program is present and
/// parses: for each file, in source order, the string-table offset of its
/// name, the tag of its checksum variant and the checksum bytes.
pub uninterp spec fn files_of_module(info: pdb::ModuleInfo) -> Option<Seq<(u32, int, Seq<u8>)>>;

/// Relies on `pdb::ModuleInfo::line_program` and `pdb::LineProgram::files`:
/// lists a module's file records, and fails exactly when the line-number
/// program is absent, does not parse, or its file iteration fails.
#[verifier::external_body]
pub(crate) fn module_files(info: &pdb::ModuleInfo) -> (r: Result<
    Vec<(u32, raw::FileChecksum)>,
    pdb::Error,
>)
    ensures
        r is Ok <==> files_of_module(*info) is Some,
        r matches Ok(v) ==> Some(raw::entries_model(v@)) == files_of_module(*info),
{
    let program = info.line_program()?;
    let mut files = program.files();
    let mut out: Vec<(u32, raw::FileChecksum)> = Vec::new();
    while let Some(file) = files.next()? {
        out.push((file.name.0, match file.checksum {
            pdb::FileChecksum::None => raw::FileChecksum::Absent,
            pdb::FileChecksum::Md5(d) => raw::FileChecksum::Md5(d.to_vec()),
            pdb::FileChecksum::Sha1(d) => raw::FileChecksum::Sha1(d.to_vec()),
            pdb::FileChecksum::Sha256(d) => raw::FileChecksum::Sha256(d.to_vec()),
        }));
    }
    Ok(out)
}

/// The display name of a source-language code, as the reader renders it.
pub uninterp spec fn language_name_of(code: u8) -> Seq<char>;

/// Relies on `pdb::SourceLanguage`'s conversion from its numeric code and its
/// display rendering: the name depends on the code alone.
#[verifier::external_body]
pub(crate) fn language_name(code: u8) -> (r: String)
    ensures
        r@ == language_name_of(code),
{
    pdb::SourceLanguage::from(code).to_string()
}

/// The display name of a processor-type code, as the reader renders it.
pub uninterp spec fn cpu_name_of(code: u16) -> Seq<char>;

/// Relies on `pdb::CPUType`'s conversion from its numeric code and its
/// display rendering: the name depends on the code alone.
#[verifier::external_body]
pub(crate) fn cpu_name(code: u16) -> (r: String)
    ensures
        r@ == cpu_name_of(code),
{
    pdb::CPUType::from(code).to_string()
}

} // verus!
