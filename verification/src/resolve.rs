//! The address resolver: converts a section-relative address (section index
//! plus in-section offset) into an absolute, image-relative address, using
//! the reader's address map and a caller-supplied base address.

use vstd::prelude::*;

use crate::reader;
use crate::report::WarningLog;

verus! {

/// Whether adding the base address to any 32-bit image-relative address
/// stays within the machine's address width.
pub open spec fn base_in_range(base_address: usize) -> bool {
    base_address + 0xffff_ffffu32 <= usize::MAX
}

/// The decision core of address resolution, taking the address map's answer
/// as an argument.
///
/// Section index zero is invalid by convention: resolution fails at once,
/// exactly one warning naming the offending symbol is recorded, and the
/// translation argument is ignored. For any other section, the absolute
/// address is the translated image-relative address plus the base address,
/// or absent — without a warning — when the map had no mapping.
pub fn resolve_parts(
    section: u16,
    translated: Option<u32>,
    base_address: usize,
    symbol_name: &str,
    warnings: &mut WarningLog,
) -> (r: Option<usize>)
    requires
        base_in_range(base_address),
    ensures
        section == 0 ==> r is None && final(warnings)@ == old(warnings)@.push(symbol_name@),
        section != 0 ==> final(warnings)@ == old(warnings)@,
        section != 0 ==> (r is Some <==> translated is Some),
        section != 0 && translated is Some ==> r == Some(
            (base_address + translated.unwrap()) as usize,
        ),
{
    if section == 0 {
        warnings.record(symbol_name);
        None
    } else {
        match translated {
            Some(rva) => Some(base_address + rva as usize),
            None => None,
        }
    }
}

/// Resolves a section-relative address through the address map. For section
/// index zero no lookup is attempted; otherwise the outcome is that of
/// `resolve_parts` on the map's answer for the pair.
pub fn resolve_address(
    section: u16,
    offset: u32,
    address_map: &pdb::AddressMap,
    base_address: usize,
    symbol_name: &str,
    warnings: &mut WarningLog,
) -> (r: Option<usize>)
    requires
        base_in_range(base_address),
    ensures
        section == 0 ==> r is None && final(warnings)@ == old(warnings)@.push(symbol_name@),
        section != 0 ==> final(warnings)@ == old(warnings)@,
        section != 0 ==> (r is Some <==> reader::translations_of(*address_map).contains_key(
            (section, offset),
        )),
        section != 0 && reader::translations_of(*address_map).contains_key((section, offset))
            ==> r == Some(
            (base_address + reader::translations_of(*address_map)[(section, offset)]) as usize,
        ),
{
    if section == 0 {
        resolve_parts(section, None, base_address, symbol_name, warnings)
    } else {
        let translated = reader::lookup_rva(address_map, section, offset);
        resolve_parts(section, translated, base_address, symbol_name, warnings)
    }
}

} // verus!
