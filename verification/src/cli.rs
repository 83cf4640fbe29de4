//! The command line: which files to show, and how.

use vstd::prelude::*;
use vstd::string::StringSliceAdditionalSpecFns;
use vstd::utf8::encode_utf8;
use crate::text::{has_prefix, starts_with};

verus! {

/// What the command line asks for.
#[derive(Debug)]
pub struct CLI {
    /// The files to show, in the order in which they were named.
    pub files: Vec<String>,
    /// Whether the pictures are to be drawn with characters.
    pub ascii: bool,
}

/// The two hyphens that start a switch: `--`.
pub open spec fn switch_start() -> Seq<u8> {
    seq![0x2du8, 0x2du8]
}

/// The switch that asks for drawing with characters: `--ascii`.
pub open spec fn ascii_switch() -> Seq<u8> {
    seq![0x2du8, 0x2du8, 0x61u8, 0x73u8, 0x63u8, 0x69u8, 0x69u8]
}

/// The argument names a file: it does not start with two hyphens.
pub open spec fn is_file(arg: String) -> bool {
    !starts_with(encode_utf8(arg@), switch_start())
}

/// The arguments that name files: all but the first, which names the
/// program, and the switches, in the order in which they stand.
pub open spec fn file_arguments(args: Seq<String>) -> Seq<String> {
    if args.len() == 0 {
        Seq::empty()
    } else {
        args.subrange(1, args.len() as int).filter(|arg: String| is_file(arg))
    }
}

/// One of the arguments, the first among them, is `--ascii`.
pub open spec fn wants_ascii(args: Seq<String>) -> bool {
    exists|at: int| 0 <= at < args.len() && encode_utf8(#[trigger] args[at]@) == ascii_switch()
}

impl CLI {
    /// Reads the arguments that the program was started with, its own name
    /// first.  At least one file must be named.
    pub fn parse(args: Vec<String>) -> (parsed: Result<CLI, String>)
        ensures
            match parsed {
                Ok(cli) => {
                    &&& args@.len() >= 2
                    &&& cli.files@ == file_arguments(args@)
                    &&& cli.files@.len() > 0
                    &&& cli.ascii == wants_ascii(args@)
                },
                Err(text) => {
                    &&& args@.len() < 2 || file_arguments(args@).len() == 0
                    &&& text@ == "Not enough arguments"@
                },
            },
    {
        if args.len() < 2 {
            return Err("Not enough arguments".to_owned());
        }
        let start: Vec<u8> = vec![0x2du8, 0x2du8];
        let switch: Vec<u8> = vec![0x2du8, 0x2du8, 0x61u8, 0x73u8, 0x63u8, 0x69u8, 0x69u8];
        assert(start@ =~= switch_start());
        assert(switch@ =~= ascii_switch());
        let mut ascii = false;
        let mut seen: usize = 0;
        while seen < args.len()
            invariant
                seen <= args@.len(),
                switch@ == ascii_switch(),
                ascii == exists|at: int|
                    0 <= at < seen && encode_utf8(#[trigger] args@[at]@) == ascii_switch(),
            decreases args@.len() - seen,
        {
            let bytes = args[seen].as_str().as_bytes();
            assert(bytes@ == encode_utf8(args@[seen as int]@));
            let is_switch = bytes.len() == switch.len() && has_prefix(bytes, switch.as_slice());
            proof {
                if bytes@.len() == switch@.len() {
                    assert(bytes@.subrange(0, bytes@.len() as int) =~= bytes@);
                }
                assert(is_switch == (encode_utf8(args@[seen as int]@) == ascii_switch()));
            }
            if is_switch {
                ascii = true;
            }
            seen += 1;
        }
        let mut files: Vec<String> = Vec::new();
        let mut at: usize = 1;
        assert(args@.subrange(1, 1).filter(|arg: String| is_file(arg)) =~= Seq::<String>::empty())
            by {
            reveal(Seq::filter);
        }
        while at < args.len()
            invariant
                1 <= at <= args@.len(),
                start@ == switch_start(),
                files@ == args@.subrange(1, at as int).filter(|arg: String| is_file(arg)),
            decreases args@.len() - at,
        {
            let bytes = args[at].as_str().as_bytes();
            let ghost before = args@.subrange(1, at as int);
            let ghost grown = args@.subrange(1, at + 1);
            proof {
                reveal(Seq::filter);
                assert(grown.drop_last() =~= before);
                assert(grown.last() == args@[at as int]);
            }
            if !has_prefix(bytes, start.as_slice()) {
                files.push(args[at].clone());
            }
            at += 1;
        }
        assert(args@.subrange(1, args@.len() as int) == args@.subrange(1, at as int));
        if files.len() == 0 {
            return Err("Not enough arguments".to_owned());
        }
        Ok(CLI { ascii, files })
    }
}

} // verus!
