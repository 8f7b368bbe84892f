//! Command-line decisions: which argument counts each mode accepts, and the
//! resolution of a hexadecimal start address into a disassembly offset.
//!
//! Reading the arguments, loading files and printing belong to the program
//! around the library; it hands the argument strings in and prints a usage
//! message on the returned error.

use vstd::prelude::*;

verus! {

/// The address the platform loads programs at; a disassembly start address
/// below it is rejected.
pub const BASE_LOAD_ADDRESS: u16 = 0x200;

/// A malformed argument list: which argument count rule was broken, and how
/// many arguments (the program name included) were found.
#[derive(Clone, Copy, Debug, PartialEq, Eq, Structural)]
pub enum UsageError {
    /// No mode or path argument at all.
    NoMode { found: usize },
    /// Disassembly mode takes a path and a start address, four arguments
    /// in all.
    DisassembleArgCount { found: usize },
    /// Debug mode takes a path, three arguments in all.
    DebugArgCount { found: usize },
    /// The default mode takes a path, two arguments in all.
    RunArgCount { found: usize },
}

/// The flag that selects disassembly mode.
pub open spec fn is_disassemble_flag(s: Seq<char>) -> bool {
    s == seq!['D']
}

/// The flag that selects debug mode.
pub open spec fn is_debug_flag(s: Seq<char>) -> bool {
    s == seq!['D', 'B', 'G']
}

/// Which argument lists are accepted: at least a mode or path argument,
/// and then exactly the count the selected mode takes.
pub open spec fn spec_validate_args(a: Seq<Seq<char>>) -> Result<(), UsageError> {
    if a.len() < 2 {
        Err(UsageError::NoMode { found: a.len() as usize })
    } else if is_disassemble_flag(a[1]) {
        if a.len() == 4 {
            Ok(())
        } else {
            Err(UsageError::DisassembleArgCount { found: a.len() as usize })
        }
    } else if is_debug_flag(a[1]) {
        if a.len() == 3 {
            Ok(())
        } else {
            Err(UsageError::DebugArgCount { found: a.len() as usize })
        }
    } else {
        if a.len() == 2 {
            Ok(())
        } else {
            Err(UsageError::RunArgCount { found: a.len() as usize })
        }
    }
}

/// Check the argument list (the program name included) against the mode it
/// selects. The error says which rule was broken and with how many
/// arguments; reporting it is the caller's business, and must end in a
/// clean return, never an abort.
pub fn validate_args(args: &Vec<String>) -> (r: Result<(), UsageError>)
    ensures
        r == spec_validate_args(args.deep_view()),
{
    proof {
        reveal_strlit("D");
        reveal_strlit("DBG");
        assert("D"@ =~= seq!['D']);
        assert("DBG"@ =~= seq!['D', 'B', 'G']);
    }
    let n: usize = args.len();
    if n < 2 {
        return Err(UsageError::NoMode { found: n });
    }
    let disassemble_flag: String = "D".to_owned();
    let debug_flag: String = "DBG".to_owned();
    proof {
        assert(args.deep_view()[1] == args@[1]@);
    }
    if args[1] == disassemble_flag {
        if n == 4 {
            Ok(())
        } else {
            Err(UsageError::DisassembleArgCount { found: n })
        }
    } else if args[1] == debug_flag {
        if n == 3 {
            Ok(())
        } else {
            Err(UsageError::DebugArgCount { found: n })
        }
    } else {
        if n == 2 {
            Ok(())
        } else {
            Err(UsageError::RunArgCount { found: n })
        }
    }
}

/// The value of one ASCII hexadecimal digit, or `None` for any other byte.
pub open spec fn hex_digit(b: u8) -> Option<u8> {
    if 48 <= b <= 57 {
        Some((b - 48) as u8)
    } else if 97 <= b <= 102 {
        Some((b - 87) as u8)
    } else if 65 <= b <= 70 {
        Some((b - 55) as u8)
    } else {
        None
    }
}

/// Whether every byte of the sequence is an ASCII hexadecimal digit.
pub open spec fn all_hex(s: Seq<u8>) -> bool {
    forall|i: int| 0 <= i < s.len() ==> (#[trigger] hex_digit(s[i])) is Some
}

/// The number the sequence spells in base 16, most significant digit
/// first.
pub open spec fn hex_value(s: Seq<u8>) -> nat
    recommends
        all_hex(s),
    decreases s.len(),
{
    if s.len() == 0 {
        0
    } else {
        hex_value(s.drop_last()) * 16 + hex_digit(s.last())->Some_0 as nat
    }
}

/// A longer spelling never names a smaller number: the value of a prefix
/// is at most the value of the whole sequence.
pub proof fn lemma_hex_value_prefix_le(s: Seq<u8>, n: int)
    requires
        0 <= n <= s.len(),
    ensures
        hex_value(s.take(n)) <= hex_value(s),
    decreases s.len() - n,
{
    if n == s.len() {
        assert(s.take(n) =~= s);
    } else {
        assert(s.take(n + 1).drop_last() =~= s.take(n));
        assert(s.take(n + 1).last() == s[n]);
        assert(hex_value(s.take(n)) <= hex_value(s.take(n)) * 16 + hex_digit(
            s[n],
        )->Some_0 as nat);
        lemma_hex_value_prefix_le(s, n + 1);
    }
}

/// The value of one ASCII hexadecimal digit byte, or `None` for any other
/// byte. Accepts both letter cases.
fn hex_digit_value(b: u8) -> (r: Option<u8>)
    ensures
        r == hex_digit(b),
{
    if 48 <= b && b <= 57 {
        Some(b - 48)
    } else if 97 <= b && b <= 102 {
        Some(b - 87)
    } else if 65 <= b && b <= 70 {
        Some(b - 55)
    } else {
        None
    }
}

/// Parse an ASCII hexadecimal spelling of a 16-bit number. Returns the
/// value exactly when the input is nonempty, every byte is a hexadecimal
/// digit, and the value fits in 16 bits; any other input returns `None`.
pub fn parse_hex_u16(digits: &[u8]) -> (r: Option<u16>)
    ensures
        r is Some <==> digits@.len() > 0 && all_hex(digits@) && hex_value(digits@) <= 0xFFFF,
        r matches Some(v) ==> v == hex_value(digits@),
{
    let n: usize = digits.len();
    if n == 0 {
        return None;
    }
    let mut acc: u32 = 0;
    let mut i: usize = 0;
    while i < n
        invariant
            n == digits@.len(),
            0 <= i <= n,
            all_hex(digits@.take(i as int)),
            acc == hex_value(digits@.take(i as int)),
            acc <= 0xFFFF,
        decreases n - i,
    {
        let b: u8 = digits[i];
        proof {
            assert(digits@.take(i + 1).drop_last() =~= digits@.take(i as int));
            assert(digits@.take(i + 1).last() == digits@[i as int]);
        }
        match hex_digit_value(b) {
            Some(d) => {
                acc = acc * 16 + (d as u32);
                if acc > 0xFFFF {
                    proof {
                        lemma_hex_value_prefix_le(digits@, i + 1);
                    }
                    return None;
                }
            },
            None => {
                return None;
            },
        }
        i += 1;
    }
    proof {
        assert(digits@.take(n as int) =~= digits@);
    }
    Some(acc as u16)
}

/// A start address that cannot select a disassembly offset: not a
/// hexadecimal 16-bit number at all, or an address below the base load
/// address.
#[derive(Clone, Copy, Debug, PartialEq, Eq, Structural)]
pub enum StartAddrError {
    NotHex,
    BelowBase { addr: u16 },
}

/// Resolve a hexadecimal start address into the offset it names inside the
/// program bytes: the address minus the base load address. A spelling that
/// is not a 16-bit hexadecimal number is rejected as `NotHex`; an address
/// below the base load address is rejected as `BelowBase`, before any
/// disassembly is attempted.
pub fn resolve_disasm_offset(digits: &[u8]) -> (r: Result<usize, StartAddrError>)
    ensures
        !(digits@.len() > 0 && all_hex(digits@) && hex_value(digits@) <= 0xFFFF) ==> r == Err::<
            usize,
            StartAddrError,
        >(StartAddrError::NotHex),
        digits@.len() > 0 && all_hex(digits@) && hex_value(digits@) <= 0xFFFF ==> {
            let addr = hex_value(digits@);
            if addr < BASE_LOAD_ADDRESS {
                r == Err::<usize, StartAddrError>(
                    StartAddrError::BelowBase { addr: addr as u16 },
                )
            } else {
                r == Ok::<usize, StartAddrError>((addr - BASE_LOAD_ADDRESS) as usize)
            }
        },
{
    match parse_hex_u16(digits) {
        None => Err(StartAddrError::NotHex),
        Some(addr) => {
            if addr < BASE_LOAD_ADDRESS {
                Err(StartAddrError::BelowBase { addr })
            } else {
                Ok((addr - BASE_LOAD_ADDRESS) as usize)
            }
        },
    }
}

} // verus!
