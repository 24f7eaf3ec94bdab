//! File system of the module.

use super::at::{at_line, at_text, decimal_text, push_decimal, push_quoted, quoted};
use vstd::prelude::*;

verus! {

/// 22.2 Download file +UDWNFILE
#[derive(Debug, Clone, Copy, PartialEq, Eq)]
pub struct PrepareDownloadFile<'a> {
    pub filename: &'a str,
    pub size: usize,
}

/// 22.4 Read file +URDFILE
#[derive(Debug, Clone, Copy, PartialEq, Eq)]
pub struct ReadFile<'a> {
    pub filename: &'a str,
}

/// 22.5 Partial read file +URDBLOCK
#[derive(Debug, Clone, Copy, PartialEq, Eq)]
pub struct ReadBlock<'a> {
    pub filename: &'a str,
    pub offset: usize,
    pub size: usize,
}

/// 22.3 Delete file +UDELFILE
#[derive(Debug, Clone, Copy, PartialEq, Eq)]
pub struct DeleteFile<'a> {
    pub filename: &'a str,
}

/// 22.6 List files information +ULSTFILE
#[derive(Debug, Clone, Copy, PartialEq, Eq, Structural)]
pub struct ListFiles;

impl<'a> PrepareDownloadFile<'a> {
    /// The arguments of the command, as they are written on the command line.
    pub open spec fn spec_args(&self) -> Seq<Seq<char>> {
        seq![quoted(self.filename@), decimal_text(self.size as nat)]
    }

    /// The command line: `AT+UDWNFILE` with its arguments.
    pub fn to_text(&self) -> (r: Vec<char>)
        ensures
            r@ == at_text("+UDWNFILE"@, self.spec_args(), true),
    {
        let mut args: Vec<Vec<char>> = Vec::new();
        let mut a: Vec<char> = Vec::new();
        push_quoted(&mut a, self.filename);
        args.push(a);
        let mut a: Vec<char> = Vec::new();
        push_decimal(&mut a, self.size as u128);
        args.push(a);
        proof {
            assert(args@.map_values(|a: Vec<char>| a@) =~= self.spec_args());
        }
        at_line("+UDWNFILE", &args, true)
    }
}

impl ListFiles {
    /// The arguments of the command, as they are written on the command line.
    pub open spec fn spec_args(&self) -> Seq<Seq<char>> {
        Seq::empty()
    }

    /// The command line: `AT+ULSTFILE=0`.
    pub fn to_text(&self) -> (r: Vec<char>)
        ensures
            r@ == at_text("+ULSTFILE=0"@, self.spec_args(), false),
    {
        let mut args: Vec<Vec<char>> = Vec::new();
        proof {
            assert(args@.map_values(|a: Vec<char>| a@) =~= self.spec_args());
        }
        at_line("+ULSTFILE=0", &args, false)
    }
}

impl<'a> ReadFile<'a> {
    /// The arguments of the command, as they are written on the command line.
    pub open spec fn spec_args(&self) -> Seq<Seq<char>> {
        seq![quoted(self.filename@)]
    }

    /// The command line: `AT+URDFILE` with its arguments.
    pub fn to_text(&self) -> (r: Vec<char>)
        ensures
            r@ == at_text("+URDFILE"@, self.spec_args(), true),
    {
        let mut args: Vec<Vec<char>> = Vec::new();
        let mut a: Vec<char> = Vec::new();
        push_quoted(&mut a, self.filename);
        args.push(a);
        proof {
            assert(args@.map_values(|a: Vec<char>| a@) =~= self.spec_args());
        }
        at_line("+URDFILE", &args, true)
    }
}

impl<'a> ReadBlock<'a> {
    /// The arguments of the command, as they are written on the command line.
    pub open spec fn spec_args(&self) -> Seq<Seq<char>> {
        seq![quoted(self.filename@), decimal_text(self.offset as nat), decimal_text(self.size as nat)]
    }

    /// The command line: `AT+URDBLOCK` with its arguments.
    pub fn to_text(&self) -> (r: Vec<char>)
        ensures
            r@ == at_text("+URDBLOCK"@, self.spec_args(), true),
    {
        let mut args: Vec<Vec<char>> = Vec::new();
        let mut a: Vec<char> = Vec::new();
        push_quoted(&mut a, self.filename);
        args.push(a);
        let mut a: Vec<char> = Vec::new();
        push_decimal(&mut a, self.offset as u128);
        args.push(a);
        let mut a: Vec<char> = Vec::new();
        push_decimal(&mut a, self.size as u128);
        args.push(a);
        proof {
            assert(args@.map_values(|a: Vec<char>| a@) =~= self.spec_args());
        }
        at_line("+URDBLOCK", &args, true)
    }
}

impl<'a> DeleteFile<'a> {
    /// The arguments of the command, as they are written on the command line.
    pub open spec fn spec_args(&self) -> Seq<Seq<char>> {
        seq![quoted(self.filename@)]
    }

    /// The command line: `AT+UDELFILE` with its arguments.
    pub fn to_text(&self) -> (r: Vec<char>)
        ensures
            r@ == at_text("+UDELFILE"@, self.spec_args(), true),
    {
        let mut args: Vec<Vec<char>> = Vec::new();
        let mut a: Vec<char> = Vec::new();
        push_quoted(&mut a, self.filename);
        args.push(a);
        proof {
            assert(args@.map_values(|a: Vec<char>| a@) =~= self.spec_args());
        }
        at_line("+UDELFILE", &args, true)
    }
}

/// 22.2 The data of a file announced by [PrepareDownloadFile]: sent as it
/// is, without a command name or a line ending.
#[derive(Debug, Clone, Copy, PartialEq, Eq)]
pub struct DownloadFile<'a> {
    pub text: &'a [u8],
}

impl<'a> DownloadFile<'a> {
    /// What is sent: the data itself, of at most 2048 bytes.
    pub fn to_bytes(&self) -> (r: Vec<u8>)
        requires
            self.text@.len() <= 2048,
        ensures
            r@ == self.text@,
    {
        let mut r: Vec<u8> = Vec::new();
        let mut i: usize = 0;
        while i < self.text.len()
            invariant
                0 <= i <= self.text@.len(),
                r@ == self.text@.subrange(0, i as int),
            decreases self.text@.len() - i,
        {
            r.push(self.text[i]);
            proof {
                assert(self.text@.subrange(0, i + 1) =~= self.text@.subrange(0, i as int).push(self.text@[i as int]));
            }
            i = i + 1;
        }
        assert(self.text@.subrange(0, self.text@.len() as int) =~= self.text@);
        r
    }
}

} // verus!
