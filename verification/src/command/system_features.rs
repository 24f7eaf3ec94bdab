//! System features: restoring the factory configuration.

use super::at::{at_line, at_text, decimal_text, push_decimal};
use vstd::prelude::*;

verus! {

/// What a factory restore does to the file system (`<fs_op>` of `+UFACTORY`).
#[derive(Debug, Clone, Copy, PartialEq, Eq, Structural)]
pub enum FSFactoryRestoreType {
    /// The file system is left as it is.
    NoRestore,
    /// All the files stored in the file system are deleted.
    AllFiles,
}

impl FSFactoryRestoreType {
    /// The number that stands for the value in a command.
    pub open spec fn spec_value(self) -> u8 {
        match self {
            FSFactoryRestoreType::NoRestore => 0,
            FSFactoryRestoreType::AllFiles => 2,
        }
    }

    /// The number that stands for the value.
    pub fn value(&self) -> (r: u8)
        ensures
            r == self.spec_value(),
    {
        match self {
            FSFactoryRestoreType::NoRestore => 0,
            FSFactoryRestoreType::AllFiles => 2,
        }
    }
}

/// What a factory restore does to the non-volatile memory (`<nvm_op>` of
/// `+UFACTORY`).
#[derive(Debug, Clone, Copy, PartialEq, Eq, Structural)]
pub enum NVMFactoryRestoreType {
    /// The non-volatile memory is left as it is.
    NoRestore,
    /// The flash sectors of the non-volatile memory are erased.
    NVMFlashSectors,
}

impl NVMFactoryRestoreType {
    /// The number that stands for the value in a command.
    pub open spec fn spec_value(self) -> u8 {
        match self {
            NVMFactoryRestoreType::NoRestore => 0,
            NVMFactoryRestoreType::NVMFlashSectors => 1,
        }
    }

    /// The number that stands for the value.
    pub fn value(&self) -> (r: u8)
        ensures
            r == self.spec_value(),
    {
        match self {
            NVMFactoryRestoreType::NoRestore => 0,
            NVMFactoryRestoreType::NVMFlashSectors => 1,
        }
    }
}

/// Restore the factory configuration +UFACTORY: of the file system and of
/// the non-volatile memory, applied at the next start of the module.
#[derive(Debug, Clone, Copy, PartialEq, Eq, Structural)]
pub struct SetFactoryConfiguration {
    pub fs_op: FSFactoryRestoreType,
    pub nvm_op: NVMFactoryRestoreType,
}

impl SetFactoryConfiguration {
    /// The arguments of the command, as they are written on the command line.
    pub open spec fn spec_args(&self) -> Seq<Seq<char>> {
        seq![decimal_text(self.fs_op.spec_value() as nat), decimal_text(self.nvm_op.spec_value() as nat)]
    }

    /// The command line: `AT+UFACTORY` with its arguments.
    pub fn to_text(&self) -> (r: Vec<char>)
        ensures
            r@ == at_text("+UFACTORY"@, self.spec_args(), true),
    {
        let mut args: Vec<Vec<char>> = Vec::new();
        let mut a: Vec<char> = Vec::new();
        push_decimal(&mut a, self.fs_op.value() as u128);
        args.push(a);
        let mut b: Vec<char> = Vec::new();
        push_decimal(&mut b, self.nvm_op.value() as u128);
        args.push(b);
        proof {
            assert(args@.map_values(|a: Vec<char>| a@) =~= self.spec_args());
        }
        at_line("+UFACTORY", &args, true)
    }
}

} // verus!
