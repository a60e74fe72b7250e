//! The offset table and the typed accessors built on it.

use vstd::prelude::*;

use crate::ffi::context::{CaptureContext, REGISTER_COUNT};
use crate::ffi::table::{
    offset_entries, offsets_get, offsets_insert, offsets_new, register_entries, registers_get,
    registers_insert, registers_new, OffsetTable, RegisterTable,
};
use crate::PlatformData;

pub mod context;
pub mod hooks;
pub mod owned;
pub mod table;
pub mod ui;

verus! {

/// A signed byte distance from the start of the code section.
#[derive(Clone, Copy, Debug, PartialEq, Eq)]
pub struct Offset {
    pub offset: isize,
}

/// The width class of a register location.
#[derive(Clone, Copy, Debug, PartialEq, Eq, Structural)]
pub enum RegisterType {
    /// The full 64 bits.
    X,
    /// The low 32 bits, 64-bit naming.
    W,
    /// The low 32 bits, 32-bit naming.
    R,
}

/// Where in a capture context a value lives.
#[derive(Clone, Copy, Debug, PartialEq, Eq)]
pub struct Register {
    reg_type: RegisterType,
    index: usize,
}

/// A value to store in a register, tagged with its width.
#[derive(Clone, Copy, Debug, PartialEq, Eq)]
pub enum RegisterValue {
    /// A 32-bit value, for a `W` or an `R` location.
    RW(u32),
    /// A 64-bit value, for an `X` location.
    X(u64),
}

/// Why a configuration was refused.
#[derive(Clone, Copy, Debug, PartialEq, Eq)]
pub enum ConfigError {
    /// A register entry carries a class tag other than `x`, `w` or `r`.
    UnsupportedRegisterType(char),
    /// A register entry names an index that no capture context has.
    RegisterOutOfRange(usize),
    /// A register that the framework cannot work without is not configured.
    MissingRegister(&'static str),
    /// A function that the framework cannot work without is not configured.
    MissingFunction(&'static str),
}

/// The three namespaces of a configuration document.
pub struct FfiConfig {
    hooks: OffsetTable,
    functions: OffsetTable,
    registers: RegisterTable,
}

/// What a lookup in a namespace of offsets yields: the entry under `key`,
/// unless there is none or it is zero.
pub open spec fn resolve_offset(entries: Map<Seq<char>, isize>, key: Seq<char>) -> Option<Offset> {
    if entries.contains_key(key) && entries[key] != 0 {
        Some(Offset::of(entries[key]))
    } else {
        None
    }
}

/// The width class that a tag of the configuration document stands for.
pub open spec fn class_of_tag(tag: char) -> Option<RegisterType> {
    if tag == 'x' {
        Some(RegisterType::X)
    } else if tag == 'w' {
        Some(RegisterType::W)
    } else if tag == 'r' {
        Some(RegisterType::R)
    } else {
        None
    }
}

impl Offset {
    /// The offset with the given distance.
    pub open spec fn of(delta: isize) -> Offset {
        Offset { offset: delta }
    }

    /// The distance in bytes.
    pub open spec fn delta(self) -> isize {
        self.offset
    }

    /// The address that this offset designates when the code section starts
    /// at `base`: absent for the zero offset and where the sum is no address.
    pub open spec fn target(self, base: u64) -> Option<u64> {
        if self.delta() != 0 && 0 <= base + self.delta() <= u64::MAX {
            Some((base + self.delta()) as u64)
        } else {
            None
        }
    }

    /// The distance in bytes.
    pub fn value(&self) -> (delta: isize)
        ensures
            delta == self.delta(),
    {
        self.offset
    }

    /// The address of the function at this offset in the process described
    /// by `platform`.
    pub fn as_fn(&self, platform: &PlatformData) -> (address: Option<u64>)
        ensures
            address == self.target(platform.text_base()),
    {
        if self.offset == 0 {
            None
        } else {
            platform.text_ptr().offset(self.offset)
        }
    }
}

impl From<isize> for Offset {
    fn from(addr: isize) -> (r: Offset) {
        Offset { offset: addr }
    }
}

impl vstd::std_specs::convert::FromSpecImpl<isize> for Offset {
    open spec fn obeys_from_spec() -> bool {
        true
    }

    open spec fn from_spec(addr: isize) -> Offset {
        Offset::of(addr)
    }
}

impl RegisterValue {
    /// The width class that this value is meant for.
    pub open spec fn fits(self, reg_type: RegisterType) -> bool {
        match (reg_type, self) {
            (RegisterType::X, RegisterValue::X(_)) => true,
            (RegisterType::W, RegisterValue::RW(_)) => true,
            (RegisterType::R, RegisterValue::RW(_)) => true,
            _ => false,
        }
    }

    /// The 64-bit value that a register holds after this value was stored in
    /// it: a 32-bit value is zero-extended.
    pub open spec fn widened(self) -> u64 {
        match self {
            RegisterValue::RW(v) => v as u64,
            RegisterValue::X(v) => v,
        }
    }
}

impl Register {
    #[verifier::type_invariant]
    spec fn in_range(self) -> bool {
        self.index < REGISTER_COUNT
    }

    /// The width class.
    pub closed spec fn class(self) -> RegisterType {
        self.reg_type
    }

    /// The index into the general-purpose registers.
    pub closed spec fn slot(self) -> usize {
        self.index
    }

    /// The location with the given class and index.
    pub closed spec fn at(reg_type: RegisterType, index: usize) -> Register {
        Register { reg_type, index }
    }

    /// `at` is inverse to `class` and `slot`.
    pub broadcast proof fn lemma_at(reg_type: RegisterType, index: usize)
        ensures
            (#[trigger] Register::at(reg_type, index)).class() == reg_type,
            Register::at(reg_type, index).slot() == index,
    {
    }

    /// What the document entry `(tag, index)` stands for.
    pub open spec fn parsed(tag: char, index: usize) -> Result<Register, ConfigError> {
        match class_of_tag(tag) {
            None => Err(ConfigError::UnsupportedRegisterType(tag)),
            Some(reg_type) => if index < REGISTER_COUNT {
                Ok(Register::at(reg_type, index))
            } else {
                Err(ConfigError::RegisterOutOfRange(index))
            },
        }
    }

    /// What this location reads in a context whose registers hold `values`.
    pub open spec fn read(self, values: Seq<u64>) -> u64 {
        match self.class() {
            RegisterType::X => values[self.slot() as int],
            RegisterType::W => values[self.slot() as int] & 0xffff_ffff,
            RegisterType::R => values[self.slot() as int] & 0xffff_ffff,
        }
    }

    /// Reads a document entry: the tag must be `x`, `w` or `r`, and the index
    /// must name one of the general-purpose registers.
    pub fn parse(tag: char, index: usize) -> (r: Result<Register, ConfigError>)
        ensures
            r == Register::parsed(tag, index),
    {
        let reg_type = if tag == 'x' {
            RegisterType::X
        } else if tag == 'w' {
            RegisterType::W
        } else if tag == 'r' {
            RegisterType::R
        } else {
            return Err(ConfigError::UnsupportedRegisterType(tag));
        };
        if index < REGISTER_COUNT {
            Ok(Register { reg_type, index })
        } else {
            Err(ConfigError::RegisterOutOfRange(index))
        }
    }

    /// The width class.
    pub fn reg_type(&self) -> (reg_type: RegisterType)
        ensures
            reg_type == self.class(),
    {
        self.reg_type
    }

    /// The index into the general-purpose registers.
    pub fn index(&self) -> (index: usize)
        ensures
            index == self.slot(),
            index < REGISTER_COUNT,
    {
        proof {
            use_type_invariant(self);
        }
        self.index
    }

    /// Whether `val` may be stored at this location.
    pub fn accepts(&self, val: &RegisterValue) -> (r: bool)
        ensures
            r == val.fits(self.class()),
    {
        match (self.reg_type, val) {
            (RegisterType::X, RegisterValue::X(_)) => true,
            (RegisterType::W, RegisterValue::RW(_)) => true,
            (RegisterType::R, RegisterValue::RW(_)) => true,
            _ => false,
        }
    }

    /// The value at this location, widened to 64 bits.
    pub fn get(&self, inline_ctx: &CaptureContext) -> (value: u64)
        ensures
            value == self.read(inline_ctx.values()),
    {
        proof {
            use_type_invariant(self);
        }
        let raw = inline_ctx.read(self.index);
        match self.reg_type {
            RegisterType::X => raw,
            RegisterType::W => raw & 0xffff_ffff,
            RegisterType::R => raw & 0xffff_ffff,
        }
    }

    /// Stores `val` at this location. The width of `val` must be that of the
    /// location; no other register changes.
    pub fn set(&self, inline_ctx: &mut CaptureContext, val: RegisterValue)
        requires
            val.fits(self.class()),
        ensures
            final(inline_ctx).values() == old(inline_ctx).values().update(
                self.slot() as int,
                val.widened(),
            ),
    {
        proof {
            use_type_invariant(self);
        }
        match val {
            RegisterValue::X(v) => inline_ctx.write(self.index, v),
            RegisterValue::RW(v) => inline_ctx.write(self.index, v as u64),
        }
    }
}

impl FfiConfig {
    /// The `hooks` namespace: raw offsets by key.
    pub closed spec fn hooks(self) -> Map<Seq<char>, isize> {
        offset_entries(self.hooks)
    }

    /// The `functions` namespace: raw offsets by key.
    pub closed spec fn functions(self) -> Map<Seq<char>, isize> {
        offset_entries(self.functions)
    }

    /// The `registers` namespace: tag and index by key.
    pub closed spec fn registers(self) -> Map<Seq<char>, (char, usize)> {
        register_entries(self.registers)
    }

    /// The hook configured under `key`, absent if it is zero.
    pub open spec fn hook(self, key: Seq<char>) -> Option<Offset> {
        resolve_offset(self.hooks(), key)
    }

    /// The function configured under `key`, absent if it is zero.
    pub open spec fn function(self, key: Seq<char>) -> Option<Offset> {
        resolve_offset(self.functions(), key)
    }

    /// The register configured under `key`, absent if the entry cannot be used.
    pub open spec fn register(self, key: Seq<char>) -> Option<Register> {
        if self.registers().contains_key(key) {
            match Register::parsed(self.registers()[key].0, self.registers()[key].1) {
                Ok(register) => Some(register),
                Err(_) => None,
            }
        } else {
            None
        }
    }

    /// A configuration without entries.
    pub fn new() -> (config: FfiConfig)
        ensures
            config.hooks() == (Map::<Seq<char>, isize>::empty()),
            config.functions() == (Map::<Seq<char>, isize>::empty()),
            config.registers() == (Map::<Seq<char>, (char, usize)>::empty()),
    {
        FfiConfig { hooks: offsets_new(), functions: offsets_new(), registers: registers_new() }
    }

    /// Sets the `hooks` entry under `key`, replacing an earlier one.
    pub fn insert_hook(&mut self, key: String, offset: isize)
        ensures
            final(self).hooks() == old(self).hooks().insert(key@, offset),
            final(self).functions() == old(self).functions(),
            final(self).registers() == old(self).registers(),
    {
        let _ = offsets_insert(&mut self.hooks, key, offset);
    }

    /// Sets the `functions` entry under `key`, replacing an earlier one.
    pub fn insert_function(&mut self, key: String, offset: isize)
        ensures
            final(self).functions() == old(self).functions().insert(key@, offset),
            final(self).hooks() == old(self).hooks(),
            final(self).registers() == old(self).registers(),
    {
        let _ = offsets_insert(&mut self.functions, key, offset);
    }

    /// Sets the `registers` entry under `key`, replacing an earlier one. An
    /// entry that cannot be used is refused and the configuration is left as
    /// it was.
    pub fn insert_register(&mut self, key: String, tag: char, index: usize) -> (r: Result<
        (),
        ConfigError,
    >)
        ensures
            final(self).hooks() == old(self).hooks(),
            final(self).functions() == old(self).functions(),
            match Register::parsed(tag, index) {
                Ok(_) => r is Ok && final(self).registers() == old(self).registers().insert(
                    key@,
                    (tag, index),
                ),
                Err(e) => r == Err::<(), ConfigError>(e) && final(self).registers() == old(
                    self,
                ).registers(),
            },
    {
        match Register::parse(tag, index) {
            Ok(_) => {
                let _ = registers_insert(&mut self.registers, key, (tag, index));
                Ok(())
            },
            Err(e) => Err(e),
        }
    }

    /// The hook configured under `key`. A zero entry counts as absent.
    pub fn get_hook(&self, key: &str) -> (r: Option<Offset>)
        ensures
            r == self.hook(key@),
            self.hooks().contains_key(key@) && self.hooks()[key@] == 0 ==> r is None,
    {
        match offsets_get(&self.hooks, key) {
            Some(offset) => if offset != 0 {
                Some(Offset { offset })
            } else {
                None
            },
            None => None,
        }
    }

    /// The function configured under `key`. A zero entry counts as absent.
    pub fn get_function(&self, key: &str) -> (r: Option<Offset>)
        ensures
            r == self.function(key@),
            self.functions().contains_key(key@) && self.functions()[key@] == 0 ==> r is None,
    {
        match offsets_get(&self.functions, key) {
            Some(offset) => if offset != 0 {
                Some(Offset { offset })
            } else {
                None
            },
            None => None,
        }
    }

    /// The register configured under `key`, absent if the entry cannot be used.
    pub fn get_register(&self, key: &str) -> (r: Option<Register>)
        ensures
            r == self.register(key@),
    {
        match registers_get(&self.registers, key) {
            Some(entry) => {
                match Register::parse(entry.0, entry.1) {
                    Ok(register) => Some(register),
                    Err(_) => None,
                }
            },
            None => None,
        }
    }
}

} // verus!
