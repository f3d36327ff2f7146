//! Addresses in the game process: the loaded modules, how offsets are
//! rebased onto them, and how strings are read from process memory.
use vstd::prelude::*;
use crate::text::{c_string, CStringError, spec_is_first_nul, utf8_text};

verus! {

/// Where a module of the game process is loaded.
#[derive(Debug, Clone, Copy, PartialEq, Eq, Structural)]
pub struct ModuleInfo {
    pub base_address: u64,
    pub module_size: u64,
}

/// The modules of the game process that the overlay reads from.
#[derive(Debug, Clone, Copy, PartialEq, Eq, Structural)]
pub struct CSModuleInfo {
    pub process_id: i32,
    pub client: ModuleInfo,
    pub engine: ModuleInfo,
    pub schemasystem: ModuleInfo,
}

/// What an offset is relative to.
#[derive(Debug, Clone, Copy, PartialEq, Eq, Structural)]
pub enum Module {
    /// The offset is an absolute address in memory.
    Absolute,
    Client,
    Engine,
    Schemasystem,
}

/// The whole address space, as a module loaded at zero.
pub open spec fn spec_empty_module_info() -> ModuleInfo {
    ModuleInfo { base_address: 0, module_size: u64::MAX }
}

pub fn empty_module_info() -> (info: ModuleInfo)
    ensures
        info == spec_empty_module_info(),
{
    ModuleInfo { base_address: 0, module_size: u64::MAX }
}

impl Module {
    pub open spec fn spec_module_info(self, module_info: CSModuleInfo) -> ModuleInfo {
        match self {
            Module::Absolute => spec_empty_module_info(),
            Module::Client => module_info.client,
            Module::Engine => module_info.engine,
            Module::Schemasystem => module_info.schemasystem,
        }
    }

    /// Where the module is loaded; absolute offsets use the whole address
    /// space from zero. Every module is known.
    pub fn get_base_offset(&self, module_info: &CSModuleInfo) -> (info: Option<ModuleInfo>)
        ensures
            info == Some(self.spec_module_info(*module_info)),
    {
        Some(match self {
            Module::Absolute => empty_module_info(),
            Module::Client => module_info.client,
            Module::Engine => module_info.engine,
            Module::Schemasystem => module_info.schemasystem,
        })
    }
}

impl CSModuleInfo {
    /// The address of `offset` within `module`.
    pub fn memory_address(&self, module: Module, offset: u64) -> (address: u64)
        requires
            module.spec_module_info(*self).base_address + offset <= u64::MAX,
        ensures
            address == module.spec_module_info(*self).base_address + offset,
    {
        let info = match module.get_base_offset(self) {
            Some(info) => info,
            None => ModuleInfo { base_address: 0, module_size: 0 },
        };
        info.base_address + offset
    }

    /// A pointer chain rebased onto `module`: the first offset becomes an
    /// address, the others stay offsets into what is read.
    pub fn rebase_offsets(&self, module: Module, offsets: &Vec<u64>) -> (chain: Vec<u64>)
        requires
            offsets@.len() > 0,
            module.spec_module_info(*self).base_address + offsets@[0] <= u64::MAX,
        ensures
            chain@ == offsets@.update(0, (module.spec_module_info(*self).base_address + offsets@[0]) as u64),
    {
        let mut chain = offsets.clone();
        let first = self.memory_address(module, offsets[0]);
        chain.set(0, first);
        chain
    }

    /// The offset, relative to the module, of an address found by a pattern
    /// search in it; wrapping like the address arithmetic of the search.
    pub fn pattern_offset(&self, module: Module, address: Option<u64>) -> (offset: Option<u64>)
        ensures
            match address {
                Some(a) => offset == Some(
                    (if a >= module.spec_module_info(*self).base_address {
                        a - module.spec_module_info(*self).base_address
                    } else {
                        a - module.spec_module_info(*self).base_address + 0x1_0000_0000_0000_0000
                    }) as u64,
                ),
                None => offset is None,
            },
    {
        let base = match module.get_base_offset(self) {
            Some(info) => info.base_address,
            None => 0,
        };
        match address {
            Some(a) => Some(a.wrapping_sub(base)),
            None => None,
        }
    }
}

/// Bytes read first when no string length is expected.
pub const DEFAULT_STRING_READ: usize = 8;

/// Bytes added to the read when no terminator was found.
pub const STRING_READ_STEP: usize = 8;

/// Number of bytes first read for a string.
pub fn initial_string_read(expected_length: Option<usize>) -> (length: usize)
    ensures
        length == match expected_length {
            Some(l) => l,
            None => DEFAULT_STRING_READ,
        },
{
    match expected_length {
        Some(l) => l,
        None => DEFAULT_STRING_READ,
    }
}

/// What follows one read of a string from process memory.
#[derive(Debug, Clone, PartialEq, Eq)]
pub enum StringRead {
    /// The string, up to its terminator.
    Text(String),
    /// The bytes before the terminator are not UTF-8: "invalid string
    /// contents".
    InvalidContents,
    /// No terminator yet: read again, this many bytes.
    ReadMore(usize),
}

/// Decides on the bytes read for a string: its text when they hold a
/// terminator, else a longer read.
pub fn read_string_step(buffer: &[u8], read_length: usize) -> (step: StringRead)
    requires
        read_length + STRING_READ_STEP <= usize::MAX,
    ensures
        (forall|j: int| 0 <= j < buffer@.len() ==> buffer@[j] != 0) <==> step == StringRead::ReadMore(
            (read_length + STRING_READ_STEP) as usize,
        ),
        forall|i: int| #[trigger] spec_is_first_nul(buffer@, i) ==> {
            match utf8_text(buffer@.subrange(0, i)) {
                Some(t) => step matches StringRead::Text(s) && s@ == t,
                None => step == StringRead::InvalidContents,
            }
        },
{
    match c_string(buffer) {
        Ok(text) => StringRead::Text(text),
        Err(CStringError::InvalidUtf8) => StringRead::InvalidContents,
        Err(CStringError::MissingNul) => StringRead::ReadMore(read_length + STRING_READ_STEP),
    }
}

} // verus!
