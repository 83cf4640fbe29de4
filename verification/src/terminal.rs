//! Terminal mode control: what to apply to a terminal so that it delivers
//! input raw and without blocking, and what to put back afterwards.
//!
//! Nothing here touches a descriptor.  Each function takes what was read from
//! one and says what is to be written to it.

use vstd::prelude::*;

verus! {

/// What can go wrong while a terminal's mode is changed or put back.
#[derive(Debug, Clone, Copy, PartialEq, Eq)]
pub enum TerminalError {
    /// The terminal attributes could not be read: the descriptor is no
    /// terminal, or the system refused.
    AttributeRead,
    /// The terminal attributes could not be applied.
    AttributeWrite,
    /// The descriptor's status flags could not be read.
    FlagRead,
    /// The descriptor's status flags could not be applied.
    FlagWrite,
}

impl TerminalError {
    /// A sentence for the person at the terminal.
    pub fn message(&self) -> (text: String)
        ensures
            text@ == match *self {
                TerminalError::AttributeRead => "Unable to get current attributes"@,
                TerminalError::AttributeWrite => "Unable to set attributes"@,
                TerminalError::FlagRead => "Unable to get descriptor flags"@,
                TerminalError::FlagWrite => "Unable to set descriptor flags"@,
            },
    {
        match self {
            TerminalError::AttributeRead => "Unable to get current attributes".to_owned(),
            TerminalError::AttributeWrite => "Unable to set attributes".to_owned(),
            TerminalError::FlagRead => "Unable to get descriptor flags".to_owned(),
            TerminalError::FlagWrite => "Unable to set descriptor flags".to_owned(),
        }
    }
}

/// The part of a terminal's line discipline that probing changes.  Whoever
/// talks to the terminal keeps the attributes as they were read and lays
/// these three over them before applying.
#[derive(Debug, Clone, Copy, PartialEq, Eq)]
pub struct TerminalSettings {
    /// The local mode flags, among them echo and canonical input.
    pub local_flags: u32,
    /// How many bytes a read waits for at least.
    pub min_bytes: u8,
    /// How long a read waits between bytes, in tenths of a second.
    pub read_timeout: u8,
}

/// Where the platform keeps echo and canonical input among the local flags.
#[derive(Debug, Clone, Copy, PartialEq, Eq)]
pub struct ModeMasks {
    /// The bits that switch character echo on.
    pub echo: u32,
    /// The bits that switch canonical, line-buffered input on.
    pub canonical: u32,
}

/// The status flags of a descriptor, as the bits the system keeps.
#[derive(Debug, Clone, Copy, PartialEq, Eq)]
pub struct BlockingFlags {
    pub bits: i32,
}

/// A change of terminal settings: what to apply now and what to put back.
#[derive(Debug, Clone, Copy, PartialEq, Eq)]
pub struct ModeChange {
    pub apply: TerminalSettings,
    pub restore: TerminalSettings,
}

/// A change of status flags: what to apply now and what to put back.
#[derive(Debug, Clone, Copy, PartialEq, Eq)]
pub struct FlagChange {
    pub apply: BlockingFlags,
    pub restore: BlockingFlags,
}

/// The echo flag among the local flags, the same on every platform.
pub const ECHO_BIT: u32 = 8;

/// The canonical input flag among the local flags, where Linux and its kin
/// keep it.
pub const CANONICAL_BIT_LOW: u32 = 2;

/// The canonical input flag among the local flags, where the BSD family
/// keeps it.
pub const CANONICAL_BIT_HIGH: u32 = 256;

/// Bytes that a raw read waits for at least: none.
pub const RAW_MIN_BYTES: u8 = 0;

/// Time that a raw read waits between bytes: one tenth of a second.
pub const RAW_READ_TIMEOUT: u8 = 1;

/// The raw form of `current`: echo and canonical input are off, every other
/// local flag is as it was, and a read comes back at once with what there is.
pub open spec fn raw_mode_of(current: TerminalSettings, masks: ModeMasks) -> TerminalSettings {
    TerminalSettings {
        local_flags: current.local_flags & !(masks.canonical | masks.echo),
        min_bytes: 0,
        read_timeout: 1,
    }
}

/// The change that takes a terminal with the settings `current` into raw
/// mode and back.
pub open spec fn mode_change(current: TerminalSettings, masks: ModeMasks) -> ModeChange {
    ModeChange { apply: raw_mode_of(current, masks), restore: current }
}

/// The change that takes a descriptor with the status flags `current` into
/// non-blocking mode and back: what is put back is what was read.
pub open spec fn flag_change(current: i32) -> FlagChange {
    FlagChange {
        apply: BlockingFlags { bits: nonblocking_bits(current) },
        restore: BlockingFlags { bits: current },
    }
}

/// The bits of the status flags `bits` after `nix::fcntl::OFlag::insert` has
/// added `O_NONBLOCK` to them.  Of no flags at all it makes the non-blocking
/// flag alone.
pub uninterp spec fn nonblocking_bits(bits: i32) -> i32;

/// Reads `termios::ECHO`, the platform's echo flag, whatever width the
/// platform gives its flags.  Claimed: it is the bit of value 8, as it is on
/// every platform that the termios crate knows.
#[verifier::external_body]
fn echo_mask() -> (mask: u32)
    ensures
        mask == ECHO_BIT,
{
    ::termios::ECHO as u32
}

/// Reads `termios::ICANON`, the platform's canonical input flag, whatever
/// width the platform gives its flags.  Claimed: it is the bit of value 2 or
/// the bit of value 256, the two places that the platforms known to the
/// termios crate keep it in.
#[verifier::external_body]
fn canonical_mask() -> (mask: u32)
    ensures
        mask == CANONICAL_BIT_LOW || mask == CANONICAL_BIT_HIGH,
{
    ::termios::ICANON as u32
}

/// Calls `nix::fcntl::OFlag::insert` with `O_NONBLOCK` on the flags that
/// `bits` stand for, every bit of them kept, and hands back the bits of the
/// outcome.  Claimed: the result is a function of `bits` alone; it is `bits`
/// with the bits of the non-blocking flag set as well; and, that flag being
/// no empty one, it is not zero.
#[verifier::external_body]
fn add_nonblocking(bits: i32) -> (added: i32)
    ensures
        added == nonblocking_bits(bits),
        added == bits | nonblocking_bits(0i32),
        added != 0,
{
    let mut flags = ::nix::fcntl::OFlag::from_bits_retain(bits);
    flags.insert(::nix::fcntl::OFlag::O_NONBLOCK);
    flags.bits()
}

impl ModeMasks {
    /// These masks are those of a platform: echo and canonical input are
    /// one bit each, where the platforms keep them.
    pub open spec fn of_a_platform(self) -> bool {
        &&& self.echo == ECHO_BIT
        &&& self.canonical == CANONICAL_BIT_LOW || self.canonical == CANONICAL_BIT_HIGH
    }

    /// The masks of the platform this was built for: echo is the bit of
    /// value 8, canonical input the bit of value 2 or of value 256, so the two
    /// never share a bit.
    pub fn platform() -> (masks: ModeMasks)
        ensures
            masks.of_a_platform(),
            masks.echo & masks.canonical == 0,
    {
        let echo = echo_mask();
        let canonical = canonical_mask();
        assert(8u32 & 2u32 == 0 && 8u32 & 256u32 == 0) by (bit_vector);
        ModeMasks { echo, canonical }
    }
}

/// Plans the step into raw mode from the settings `current` that were read
/// from the terminal: `apply` is their raw form, `restore` is `current`
/// itself, so that applying `restore` later puts back exactly what was read,
/// whatever happened in between.
pub fn set_termios_raw_mode(current: TerminalSettings, masks: ModeMasks) -> (change: ModeChange)
    ensures
        change == mode_change(current, masks),
        change.restore == current,
        change.apply == raw_mode_of(current, masks),
{
    let raw = TerminalSettings {
        local_flags: current.local_flags & !(masks.canonical | masks.echo),
        min_bytes: RAW_MIN_BYTES,
        read_timeout: RAW_READ_TIMEOUT,
    };
    ModeChange { apply: raw, restore: current }
}

/// Plans the step into non-blocking mode from the status flags `current`
/// that were read from the descriptor.  `restore` holds `current` as it was
/// read; `apply` holds `current` with the non-blocking flag set as well.  No
/// other flag differs between the two, and flags that are non-blocking
/// already are applied as they are.
pub fn set_nonblocking(current: i32) -> (change: FlagChange)
    ensures
        change == flag_change(current),
        change.restore.bits == current,
        change.apply.bits == current | nonblocking_bits(0i32),
        change.apply.bits != 0,
        change.apply.bits & nonblocking_bits(0i32) == nonblocking_bits(0i32),
        change.apply.bits & !nonblocking_bits(0i32) == current & !nonblocking_bits(0i32),
        current & nonblocking_bits(0i32) == nonblocking_bits(0i32) ==> change.apply.bits
            == current,
{
    let widened = add_nonblocking(current);
    proof {
        let flag = nonblocking_bits(0i32);
        assert((current | flag) & flag == flag) by (bit_vector);
        assert((current | flag) & !flag == current & !flag) by (bit_vector);
        assert(current & flag == flag ==> (current | flag) == current) by (bit_vector);
    }
    FlagChange { apply: BlockingFlags { bits: widened }, restore: BlockingFlags { bits: current } }
}

/// Raw mode has echo and canonical input off and leaves every other local
/// flag as it was.
pub proof fn lemma_raw_mode_clears_only_echo_and_canonical(
    current: TerminalSettings,
    masks: ModeMasks,
    other: u32,
)
    requires
        other & (masks.canonical | masks.echo) == 0,
    ensures
        raw_mode_of(current, masks).local_flags & masks.echo == 0,
        raw_mode_of(current, masks).local_flags & masks.canonical == 0,
        raw_mode_of(current, masks).local_flags & other == current.local_flags & other,
{
    let flags = current.local_flags;
    let echo = masks.echo;
    let canonical = masks.canonical;
    assert((flags & !(canonical | echo)) & echo == 0) by (bit_vector);
    assert((flags & !(canonical | echo)) & canonical == 0) by (bit_vector);
    assert(other & (canonical | echo) == 0 ==> (flags & !(canonical | echo)) & other == flags
        & other) by (bit_vector);
}

/// Settings that are raw already stay as they are.
pub proof fn lemma_raw_mode_is_idempotent(current: TerminalSettings, masks: ModeMasks)
    ensures
        raw_mode_of(raw_mode_of(current, masks), masks) == raw_mode_of(current, masks),
{
    let flags = current.local_flags;
    let both = masks.canonical | masks.echo;
    assert((flags & !both) & !both == flags & !both) by (bit_vector);
}

} // verus!
