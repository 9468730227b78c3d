//! MSC, the flash memory controller.
//!
//! The controller is driven through eight capabilities, one for each group
//! of its registers. Holding one gives no hold on the registers of another.
//! A capability does not touch the device: an operation on it yields the
//! [`Write`] to carry out, and a query takes the value that was read.
//! Whoever holds the register block carries the writes out in the order in
//! which they were asked for.
//!
//! The order is the caller's to keep. To program a word: `Ctrl::init` once,
//! `Lock::unlock`, `WriteCtrl::enable`, `AddrB::set_addr`,
//! `WData::write_data`, `WriteCmd::write_once`, then
//! `Status::is_storage_busy` on fresh readings until it is false, then
//! `CacheCmd::invalidate_cache`. Nothing is tried again here, and a command
//! that the device refuses shows in the status flags only.

use vstd::prelude::*;

verus! {

/// `efm32pg12_pac::MSC`, the proof of owning the controller that the device
/// crate hands out. It is declared so that `split` can take it; nothing is
/// claimed of it.
#[verifier::external_type_specification]
#[verifier::external_body]
pub struct ExMscOwner(efm32pg12_pac::MSC);

/// Key state of the lock register.
#[derive(Clone, Copy, PartialEq, Eq, Debug, Structural)]
pub enum LockKey {
    Unlocked,
    Locked,
}

/// The one-shot commands of the write command register.
#[derive(Clone, Copy, PartialEq, Eq, Debug, Structural)]
pub enum Command {
    /// Latch the address buffer as the address to write at.
    LoadAddr,
    /// Write the staged word, once.
    WriteOnce,
    /// Write the staged word as part of a burst.
    WriteTrig,
    /// End a burst.
    WriteEnd,
    /// Erase the page that holds the latched address.
    ErasePage,
}

/// One write to one register of the controller. The field named takes the
/// value given and every other field of that register its reset value;
/// `Ctrl` gives the whole register.
#[derive(Clone, Copy, PartialEq, Eq, Debug, Structural)]
pub enum Write {
    Ctrl { bits: u32 },
    CacheCmd { invcache: bool },
    Lock { lockkey: LockKey },
    WriteCtrl { wren: bool },
    AddrB { addrb: u32 },
    WriteCmd { command: Command },
    WData { wdata: u32 },
}

/// One reading of the status register.
#[derive(Clone, Copy, PartialEq, Eq, Debug, Structural)]
pub struct StatusFlags {
    pub busy: bool,
    pub locked: bool,
    pub invaddr: bool,
    pub wdataready: bool,
    pub wordtimeout: bool,
}

/// Value that `Ctrl::init` gives the control register: bit 8 alone.
pub const CTRL_INIT: u32 = 0x100;

/// The capabilities over the controller, one for each register group.
pub struct Msc {
    pub status: Status,
    pub lock: Lock,
    pub write_ctrl: WriteCtrl,
    pub write_cmd: WriteCmd,
    pub addrb: AddrB,
    pub wdata: WData,
    pub cachecmd: CacheCmd,
    pub ctrl: Ctrl,
}

/// Gives up the ownership of the controller for the capabilities over it.
pub trait MSCExt {
    fn split(self) -> Msc;
}

/// An owner that stands for no device. The capabilities split from it ask
/// for the same writes; where they are carried out is up to the caller.
pub struct Detached {
    _private: (),
}

impl Detached {
    pub fn new() -> Detached {
        Detached { _private: () }
    }
}

fn capabilities() -> Msc {
    Msc {
        status: Status { _private: () },
        lock: Lock { _private: () },
        write_ctrl: WriteCtrl { _private: () },
        write_cmd: WriteCmd { _private: () },
        addrb: AddrB { _private: () },
        wdata: WData { _private: () },
        cachecmd: CacheCmd { _private: () },
        ctrl: Ctrl { _private: () },
    }
}

impl MSCExt for efm32pg12_pac::MSC {
    fn split(self) -> Msc {
        capabilities()
    }
}

impl MSCExt for Detached {
    fn split(self) -> Msc {
        capabilities()
    }
}

/// Controller configuration.
pub struct Ctrl {
    _private: (),
}

impl Ctrl {
    /// Sets the configuration that programming needs. Comes first, once.
    pub fn init(&mut self) -> (write: Write)
        ensures
            write == (Write::Ctrl { bits: CTRL_INIT }),
            *final(self) == *old(self),
    {
        Write::Ctrl { bits: CTRL_INIT }
    }
}

/// The cache in front of the flash array.
pub struct CacheCmd {
    _private: (),
}

impl CacheCmd {
    /// Drops what the cache holds, so that the next fetch sees what was
    /// written or erased.
    pub fn invalidate_cache(&self) -> (write: Write)
        ensures
            write == (Write::CacheCmd { invcache: true }),
    {
        Write::CacheCmd { invcache: true }
    }
}

/// The status flags. Each query is on one reading of the register.
pub struct Status {
    _private: (),
}

impl Status {
    /// Whether a write or an erase was still going on.
    pub fn is_storage_busy(&self, status: &StatusFlags) -> (flag: bool)
        ensures
            flag == status.busy,
    {
        status.busy
    }

    /// Whether the last address lay outside the flash.
    pub fn is_invalid_addr(&self, status: &StatusFlags) -> (flag: bool)
        ensures
            flag == status.invaddr,
    {
        status.invaddr
    }

    /// Whether another word may be staged.
    pub fn is_wdata_ready(&self, status: &StatusFlags) -> (flag: bool)
        ensures
            flag == status.wdataready,
    {
        status.wdataready
    }

    /// Whether a burst stalled waiting for its next word.
    pub fn is_word_timeout(&self, status: &StatusFlags) -> (flag: bool)
        ensures
            flag == status.wordtimeout,
    {
        status.wordtimeout
    }

    /// Whether the last command was refused because the controller was
    /// locked.
    pub fn is_storage_locked(&self, status: &StatusFlags) -> (flag: bool)
        ensures
            flag == status.locked,
    {
        status.locked
    }
}

/// The lock on the controller's registers.
pub struct Lock {
    _private: (),
}

impl Lock {
    /// Opens the lock; commands are taken only while it is open.
    pub fn unlock(&mut self) -> (write: Write)
        ensures
            write == (Write::Lock { lockkey: LockKey::Unlocked }),
            *final(self) == *old(self),
    {
        Write::Lock { lockkey: LockKey::Unlocked }
    }

    /// Closes the lock.
    pub fn lock(&mut self) -> (write: Write)
        ensures
            write == (Write::Lock { lockkey: LockKey::Locked }),
            *final(self) == *old(self),
    {
        Write::Lock { lockkey: LockKey::Locked }
    }

    /// Whether the lock was closed when `lockkey` was read from the lock
    /// register; `None` is a reading that has no name.
    pub fn is_locked(&self, lockkey: Option<LockKey>) -> (locked: bool)
        ensures
            locked == (lockkey == Some(LockKey::Locked)),
    {
        match lockkey {
            Some(LockKey::Locked) => true,
            _ => false,
        }
    }
}

/// The switch for writing and erasing.
pub struct WriteCtrl {
    _private: (),
}

impl WriteCtrl {
    /// Switches writing and erasing off.
    pub fn disable(&mut self) -> (write: Write)
        ensures
            write == (Write::WriteCtrl { wren: false }),
            *final(self) == *old(self),
    {
        Write::WriteCtrl { wren: false }
    }

    /// Switches writing and erasing on.
    pub fn enable(&mut self) -> (write: Write)
        ensures
            write == (Write::WriteCtrl { wren: true }),
            *final(self) == *old(self),
    {
        Write::WriteCtrl { wren: true }
    }
}

/// The address buffer.
pub struct AddrB {
    _private: (),
}

impl AddrB {
    /// Sets the address of the next write or erase. The address is not
    /// looked at here: the device reports one outside the flash in its
    /// status flags, after the command.
    pub fn set_addr(&mut self, addr: u32) -> (write: Write)
        ensures
            write == (Write::AddrB { addrb: addr }),
            *final(self) == *old(self),
    {
        Write::AddrB { addrb: addr }
    }
}

/// The write commands.
pub struct WriteCmd {
    _private: (),
}

impl WriteCmd {
    /// Latches the address buffer.
    pub fn load_addr(&self) -> (write: Write)
        ensures
            write == (Write::WriteCmd { command: Command::LoadAddr }),
    {
        Write::WriteCmd { command: Command::LoadAddr }
    }

    /// Writes the staged word.
    pub fn write_once(&self) -> (write: Write)
        ensures
            write == (Write::WriteCmd { command: Command::WriteOnce }),
    {
        Write::WriteCmd { command: Command::WriteOnce }
    }

    /// Starts or goes on with a burst.
    pub fn write_trig(&self) -> (write: Write)
        ensures
            write == (Write::WriteCmd { command: Command::WriteTrig }),
    {
        Write::WriteCmd { command: Command::WriteTrig }
    }

    /// Ends a burst.
    pub fn write_end(&self) -> (write: Write)
        ensures
            write == (Write::WriteCmd { command: Command::WriteEnd }),
    {
        Write::WriteCmd { command: Command::WriteEnd }
    }

    /// Erases the page that holds the latched address.
    pub fn erase_page(&self) -> (write: Write)
        ensures
            write == (Write::WriteCmd { command: Command::ErasePage }),
    {
        Write::WriteCmd { command: Command::ErasePage }
    }
}

/// The data register.
pub struct WData {
    _private: (),
}

impl WData {
    /// Stages the word that the next write command programs.
    pub fn write_data(&mut self, value: u32) -> (write: Write)
        ensures
            write == (Write::WData { wdata: value }),
            *final(self) == *old(self),
    {
        Write::WData { wdata: value }
    }
}

} // verus!
