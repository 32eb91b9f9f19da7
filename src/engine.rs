//! The command/status protocol as a state machine.
//!
//! An [`Engine`] holds the commands of one operation. The caller starts it,
//! performs each transaction that it asks for, and hands back what the
//! transport returned, until the engine finishes with a result. Blocking and
//! suspending transports drive the same engine, so both issue the same
//! transactions for the same replies.
use vstd::prelude::*;
use crate::error::Error;
use crate::plan::{page_chunks, plan_page_program, plan_sector_erase, sector_base, sector_erases};
use crate::protocol::{busy, is_busy, is_latch_set, latch_set, Command, Config};

verus! {

/// Where the engine stands within the current command.
#[derive(Clone, Copy, Debug, PartialEq, Eq)]
pub enum Phase {
    /// Not started.
    Ready,
    /// Write-enable issued.
    Latch,
    /// Status read issued to check the latch.
    CheckLatch,
    /// The command itself issued.
    Transfer,
    /// `count` status reads issued while waiting for completion.
    Poll { count: u32 },
    /// Finished.
    Done,
}

/// What the engine asks of its caller.
#[derive(Debug, PartialEq, Eq)]
pub enum Action<E> {
    /// Perform this transaction and hand back its reply.
    Issue(Command),
    /// The operation is over, with this result.
    Finish(Result<(), Error<E>>),
}

/// The mathematical state of an engine.
pub struct Model {
    pub cfg: Config,
    pub commands: Seq<Command>,
    pub index: nat,
    pub phase: Phase,
}

impl Model {
    pub open spec fn wf(self) -> bool {
        &&& self.cfg.wf()
        &&& self.phase is Ready ==> self.index == 0
        &&& !(self.phase is Ready || self.phase is Done) ==> self.index < self.commands.len()
        &&& (self.phase is Latch || self.phase is CheckLatch || self.phase is Poll)
            ==> self.current().mutating()
    }

    /// Whether the engine still waits for the reply to a transaction.
    pub open spec fn running(self) -> bool {
        !(self.phase is Ready || self.phase is Done)
    }

    pub open spec fn current(self) -> Command {
        self.commands[self.index as int]
    }

    pub open spec fn with_phase(self, phase: Phase) -> Model {
        Model { phase, ..self }
    }
}

/// A fresh engine for the given commands.
pub open spec fn fresh(cfg: Config, commands: Seq<Command>) -> Model {
    Model { cfg, commands, index: 0, phase: Phase::Ready }
}

/// Ends the operation with an error.
pub open spec fn fail<E>(m: Model, e: Error<E>) -> (Model, Action<E>) {
    (m.with_phase(Phase::Done), Action::Finish(Err(e)))
}

/// Opens the current command: a mutating one starts with write-enable.
pub open spec fn begin_command<E>(m: Model) -> (Model, Action<E>) {
    if m.current().mutating() {
        (m.with_phase(Phase::Latch), Action::Issue(Command::WriteEnable))
    } else {
        (m.with_phase(Phase::Transfer), Action::Issue(m.current()))
    }
}

/// Moves on after the current command has completed.
pub open spec fn advance<E>(m: Model) -> (Model, Action<E>) {
    if m.index + 1 < m.commands.len() {
        begin_command(Model { index: m.index + 1, phase: Phase::Transfer, ..m })
    } else {
        (m.with_phase(Phase::Done), Action::Finish(Ok(())))
    }
}

/// The first action of an engine that has not started.
pub open spec fn start_spec<E>(m: Model) -> (Model, Action<E>) {
    if m.commands.len() == 0 {
        (m.with_phase(Phase::Done), Action::Finish(Ok(())))
    } else {
        begin_command(m)
    }
}

/// Whether `count` status reads use up the configured bound.
pub open spec fn exhausted(cfg: Config, count: u32) -> bool {
    match cfg.poll_limit {
        Some(b) => count >= b,
        None => false,
    }
}

pub open spec fn next_count(count: u32) -> u32 {
    if count < u32::MAX {
        (count + 1) as u32
    } else {
        count
    }
}

/// The next state and action, given the reply to the last transaction: the
/// byte read by it (the status for a status read), or the transport's fault.
pub open spec fn next<E>(m: Model, reply: Result<u8, E>) -> (Model, Action<E>) {
    match reply {
        Err(e) => fail(m, Error::Spi(e)),
        Ok(s) => match m.phase {
            Phase::Latch => if m.cfg.verify_latch {
                (m.with_phase(Phase::CheckLatch), Action::Issue(Command::ReadStatus))
            } else {
                (m.with_phase(Phase::Transfer), Action::Issue(m.current()))
            },
            Phase::CheckLatch => if latch_set(s) {
                (m.with_phase(Phase::Transfer), Action::Issue(m.current()))
            } else {
                fail(m, Error::UnexpectedStatus)
            },
            Phase::Transfer => if m.current().mutating() {
                (m.with_phase(Phase::Poll { count: 1 }), Action::Issue(Command::ReadStatus))
            } else {
                advance(m)
            },
            Phase::Poll { count } => if !busy(s) {
                advance(m)
            } else if exhausted(m.cfg, count) {
                fail(m, Error::UnexpectedStatus)
            } else {
                (
                    m.with_phase(Phase::Poll { count: next_count(count) }),
                    Action::Issue(Command::ReadStatus),
                )
            },
            _ => (m, Action::Finish(Ok(()))),
        },
    }
}

/// The actions that follow from `m` as `replies` are handed in one by one,
/// up to the one that finishes the operation.
pub open spec fn run<E>(m: Model, replies: Seq<Result<u8, E>>) -> Seq<Action<E>>
    decreases replies.len(),
{
    if !m.running() || replies.len() == 0 {
        seq![]
    } else {
        let step = next(m, replies[0]);
        seq![step.1] + run(step.0, replies.drop_first())
    }
}

/// Every action of an operation: the first one, then those that follow the
/// replies.
pub open spec fn trace<E>(m: Model, replies: Seq<Result<u8, E>>) -> Seq<Action<E>> {
    let first = start_spec(m);
    seq![first.1] + run(first.0, replies)
}

/// The protocol engine of one operation.
pub struct Engine {
    cfg: Config,
    commands: Vec<Command>,
    index: usize,
    phase: Phase,
}

impl View for Engine {
    type V = Model;

    closed spec fn view(&self) -> Model {
        Model { cfg: self.cfg, commands: self.commands@, index: self.index as nat, phase: self.phase }
    }
}

impl Engine {
    pub open spec fn wf(&self) -> bool {
        self@.wf()
    }

    /// A read of `len` bytes at `addr`: one transaction, no write-enable.
    pub fn read(cfg: Config, addr: u32, len: usize) -> (r: Engine)
        requires
            cfg.wf(),
            addr + len <= cfg.address_space(),
        ensures
            r.wf(),
            r@ == fresh(cfg, seq![Command::Read { addr, len }]),
    {
        let commands: Vec<Command> = vec![Command::Read { addr, len }];
        assert(commands@ =~= seq![Command::Read { addr, len }]);
        Engine { cfg, commands, index: 0, phase: Phase::Ready }
    }

    /// A write of `len` bytes of data at `addr`, one program command per
    /// page segment.
    pub fn write_bytes(cfg: Config, addr: u32, len: usize) -> (r: Engine)
        requires
            cfg.wf(),
            addr + len <= cfg.address_space(),
        ensures
            r.wf(),
            r@ == fresh(cfg, page_chunks(cfg.page_size as nat, addr as nat, 0, len as nat)),
    {
        let commands = plan_page_program(cfg.page_size, addr, len);
        Engine { cfg, commands, index: 0, phase: Phase::Ready }
    }

    /// An erase of `amount` sectors, from the one that holds `addr` on.
    pub fn erase_sectors(cfg: Config, addr: u32, amount: usize) -> (r: Engine)
        requires
            cfg.wf(),
            sector_base(addr as nat, cfg.sector_size as nat) + amount * cfg.sector_size
                <= cfg.address_space(),
        ensures
            r.wf(),
            r@ == fresh(cfg, sector_erases(cfg.sector_size as nat, addr as nat, amount as nat)),
    {
        let commands = plan_sector_erase(cfg.sector_size, addr, amount);
        Engine { cfg, commands, index: 0, phase: Phase::Ready }
    }

    /// An erase of the whole chip.
    pub fn erase_all(cfg: Config) -> (r: Engine)
        requires
            cfg.wf(),
        ensures
            r.wf(),
            r@ == fresh(cfg, seq![Command::ChipErase]),
    {
        let commands: Vec<Command> = vec![Command::ChipErase];
        assert(commands@ =~= seq![Command::ChipErase]);
        Engine { cfg, commands, index: 0, phase: Phase::Ready }
    }

    /// Whether the engine waits for the reply to a transaction.
    pub fn is_running(&self) -> (r: bool)
        ensures
            r == self@.running(),
    {
        match self.phase {
            Phase::Ready | Phase::Done => false,
            _ => true,
        }
    }

    /// Whether the engine waits for the completion of a mutating command.
    pub fn is_polling(&self) -> (r: bool)
        ensures
            r == self@.phase is Poll,
    {
        match self.phase {
            Phase::Poll { .. } => true,
            _ => false,
        }
    }

    fn begin_command<E>(&mut self) -> (r: Action<E>)
        requires
            old(self).wf(),
            old(self).index < old(self).commands.len(),
        ensures
            final(self).wf(),
            (final(self)@, r) == begin_command::<E>(old(self)@),
    {
        let c = self.commands[self.index];
        if c.is_mutating() {
            self.phase = Phase::Latch;
            Action::Issue(Command::WriteEnable)
        } else {
            self.phase = Phase::Transfer;
            Action::Issue(c)
        }
    }

    fn advance<E>(&mut self) -> (r: Action<E>)
        requires
            old(self).wf(),
            old(self)@.running(),
        ensures
            final(self).wf(),
            (final(self)@, r) == advance::<E>(old(self)@),
    {
        assert(self.index < self.commands@.len());
        if self.index < self.commands.len() - 1 {
            self.phase = Phase::Transfer;
            self.index = self.index + 1;
            self.begin_command()
        } else {
            self.phase = Phase::Done;
            Action::Finish(Ok(()))
        }
    }

    /// The first action of the operation.
    pub fn start<E>(&mut self) -> (r: Action<E>)
        requires
            old(self).wf(),
            old(self)@.phase == Phase::Ready,
        ensures
            final(self).wf(),
            (final(self)@, r) == start_spec::<E>(old(self)@),
    {
        if self.commands.len() == 0 {
            self.phase = Phase::Done;
            Action::Finish(Ok(()))
        } else {
            self.begin_command()
        }
    }

    /// The next action, given the reply to the last transaction asked for:
    /// the byte it read (the status, for a status read) or the transport's
    /// fault.
    pub fn step<E>(&mut self, reply: Result<u8, E>) -> (r: Action<E>)
        requires
            old(self).wf(),
            old(self)@.running(),
        ensures
            final(self).wf(),
            (final(self)@, r) == next(old(self)@, reply),
    {
        match reply {
            Err(e) => {
                self.phase = Phase::Done;
                Action::Finish(Err(Error::Spi(e)))
            },
            Ok(s) => match self.phase {
                Phase::Latch => {
                    if self.cfg.verify_latch {
                        self.phase = Phase::CheckLatch;
                        Action::Issue(Command::ReadStatus)
                    } else {
                        self.phase = Phase::Transfer;
                        Action::Issue(self.commands[self.index])
                    }
                },
                Phase::CheckLatch => {
                    if is_latch_set(s) {
                        self.phase = Phase::Transfer;
                        Action::Issue(self.commands[self.index])
                    } else {
                        self.phase = Phase::Done;
                        Action::Finish(Err(Error::UnexpectedStatus))
                    }
                },
                Phase::Transfer => {
                    if self.commands[self.index].is_mutating() {
                        self.phase = Phase::Poll { count: 1 };
                        Action::Issue(Command::ReadStatus)
                    } else {
                        self.advance()
                    }
                },
                Phase::Poll { count } => {
                    let limit_reached = match self.cfg.poll_limit {
                        Some(b) => count >= b,
                        None => false,
                    };
                    if !is_busy(s) {
                        self.advance()
                    } else if limit_reached {
                        self.phase = Phase::Done;
                        Action::Finish(Err(Error::UnexpectedStatus))
                    } else {
                        let c = if count < u32::MAX {
                            count + 1
                        } else {
                            count
                        };
                        self.phase = Phase::Poll { count: c };
                        Action::Issue(Command::ReadStatus)
                    }
                },
                _ => Action::Finish(Ok(())),
            },
        }
    }
}

} // verus!
