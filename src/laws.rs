//! Properties of the protocol that hold for every operation and reply.
use vstd::prelude::*;
use crate::engine::{begin_command, fresh, next, run, start_spec, trace, Action, Model, Phase};
use crate::error::Error;
use crate::plan::{page_chunks, sector_base, sector_erases};
use crate::protocol::{busy, latch_set, Command, Config, STATUS_WEL};
use vstd::arithmetic::div_mod::lemma_mod_multiples_basic;

verus! {

/// The result that a reply to the final transaction brings.
pub open spec fn outcome<E>(reply: Result<u8, E>) -> Result<(), Error<E>> {
    match reply {
        Ok(_) => Ok(()),
        Err(e) => Err(Error::Spi(e)),
    }
}

/// A read issues exactly one transaction, which carries the read op-code and
/// address and transfers as many bytes as the buffer holds; it issues no
/// write-enable, and the reply to that transaction decides the result.
pub proof fn read_is_one_transaction<E>(
    cfg: Config,
    addr: u32,
    len: usize,
    reply: Result<u8, E>,
    rest: Seq<Result<u8, E>>,
)
    requires
        cfg.wf(),
    ensures
        trace(fresh(cfg, seq![Command::Read { addr, len }]), seq![reply] + rest) == seq![
            Action::Issue(Command::Read { addr, len }),
            Action::Finish(outcome(reply)),
        ],
        (Command::Read { addr, len }).spec_data_len() == len,
{
    let m = fresh(cfg, seq![Command::Read { addr, len }]);
    let replies = seq![reply] + rest;
    let first = start_spec::<E>(m);
    let second = next(first.0, replies[0]);
    assert(replies.drop_first() =~= rest);
    assert(run(second.0, rest) =~= seq![]);
    assert(run(first.0, replies) =~= seq![second.1]);
    assert(trace(m, replies) =~= seq![
        Action::Issue(Command::Read { addr, len }),
        Action::Finish(outcome(reply)),
    ]);
}

/// The transactions of an operation follow from the operation and the
/// replies alone: a blocking and a suspending transport that drive engines
/// of equal state and hand back the same replies see the same transactions
/// in the same order and the same result.
pub proof fn transactions_depend_on_replies_alone<E>(
    m1: Model,
    m2: Model,
    r1: Seq<Result<u8, E>>,
    r2: Seq<Result<u8, E>>,
)
    requires
        m1 == m2,
        r1 == r2,
    ensures
        trace(m1, r1) == trace(m2, r2),
{
}

/// A transport fault ends a running operation at once with that fault, and
/// nothing more is issued.
pub proof fn fault_aborts<E>(m: Model, e: E, rest: Seq<Result<u8, E>>)
    requires
        m.wf(),
        m.running(),
    ensures
        run(m, seq![Err(e)] + rest) == seq![Action::<E>::Finish(Err(Error::Spi(e)))],
{
    let replies = seq![Err(e)] + rest;
    let step = next(m, replies[0]);
    assert(replies.drop_first() =~= rest);
    assert(run(step.0, rest) =~= seq![]);
    assert(run(m, replies) =~= seq![step.1]);
}

/// A mutating command is only ever issued right after the write-enable
/// that opens it, or after the status read that confirmed its latch.
pub proof fn mutating_follows_write_enable<E>(m: Model, reply: Result<u8, E>)
    requires
        m.wf(),
    ensures
        forall|c: Command|
            #![trigger c.mutating()]
            m.running() && next(m, reply).1 == Action::<E>::Issue(c) && c.mutating() ==> (
            m.phase is Latch || m.phase is CheckLatch),
        forall|c: Command|
            #![trigger c.mutating()]
            m.phase is Ready && start_spec::<E>(m).1 == Action::<E>::Issue(c) ==> !c.mutating(),
{
}

/// A status reply with the busy bit set.
pub open spec fn busy_reply<E>(r: Result<u8, E>) -> bool {
    match r {
        Ok(s) => busy(s),
        Err(_) => false,
    }
}

/// `n` status reads.
pub open spec fn status_reads<E>(n: nat) -> Seq<Action<E>> {
    Seq::new(n, |j: int| Action::Issue(Command::ReadStatus))
}

/// While polling with a bound of `b` reads, a chip that keeps answering busy
/// gets the remaining reads and then the unexpected-status error.
pub proof fn poll_gives_up<E>(m: Model, b: u32, replies: Seq<Result<u8, E>>)
    requires
        m.wf(),
        m.cfg.poll_limit == Some(b),
        m.phase matches Phase::Poll { count } && count <= b,
        replies.len() > b - m.phase->count,
        forall|j: int| 0 <= j <= b - m.phase->count ==> #[trigger] busy_reply(replies[j]),
    ensures
        run(m, replies) == status_reads::<E>((b - m.phase->count) as nat) + seq![
            Action::<E>::Finish(Err(Error::UnexpectedStatus)),
        ],
    decreases b - m.phase->count,
{
    let count = m.phase->count;
    assert(busy_reply(replies[0]));
    let step = next(m, replies[0]);
    if count == b {
        assert(run(step.0, replies.drop_first()) =~= seq![]);
        assert(run(m, replies) =~= status_reads::<E>(0) + seq![
            Action::<E>::Finish(Err(Error::UnexpectedStatus)),
        ]);
    } else {
        let tail = replies.drop_first();
        assert forall|j: int| 0 <= j <= b - step.0.phase->count implies #[trigger] busy_reply(tail[j]) by {
            assert(busy_reply(replies[j + 1]));
        }
        poll_gives_up(step.0, b, tail);
        assert(run(m, replies) =~= status_reads::<E>((b - count) as nat) + seq![
            Action::<E>::Finish(Err(Error::UnexpectedStatus)),
        ]);
    }
}

/// Once a mutating command has gone out, a chip that stays busy through the
/// whole poll bound of `b` reads ends the operation with the
/// unexpected-status error after exactly `b` status reads, and nothing more
/// is issued.
pub proof fn busy_chip_gives_unexpected_status<E>(m: Model, b: u32, replies: Seq<Result<u8, E>>)
    requires
        m.wf(),
        m.cfg.poll_limit == Some(b),
        m.phase is Transfer,
        m.current().mutating(),
        replies.len() > b,
        replies[0] is Ok,
        forall|j: int| 1 <= j <= b ==> #[trigger] busy_reply(replies[j]),
    ensures
        run(m, replies) == status_reads::<E>(b as nat) + seq![
            Action::<E>::Finish(Err(Error::UnexpectedStatus)),
        ],
{
    let step = next(m, replies[0]);
    let tail = replies.drop_first();
    assert forall|j: int| 0 <= j <= b - 1 implies #[trigger] busy_reply(tail[j]) by {
        assert(busy_reply(replies[j + 1]));
    }
    poll_gives_up(step.0, b, tail);
    assert(run(m, replies) =~= status_reads::<E>(b as nat) + seq![
        Action::<E>::Finish(Err(Error::UnexpectedStatus)),
    ]);
}

/// The reply of a chip that is ready: not busy, latch set.
pub open spec fn idle_replies<E>(n: nat) -> Seq<Result<u8, E>> {
    Seq::new(n, |j: int| Ok(STATUS_WEL))
}

/// The transactions of one command on a ready chip: a mutating command is
/// opened by write-enable (and, where configured, a latch check) and closed
/// by one status read.
pub open spec fn command_cycle(cfg: Config, c: Command) -> Seq<Command> {
    if c.mutating() {
        let check = if cfg.verify_latch {
            seq![Command::ReadStatus]
        } else {
            seq![]
        };
        seq![Command::WriteEnable] + check + seq![c, Command::ReadStatus]
    } else {
        seq![c]
    }
}

/// The transactions of the commands from `i` on, on a ready chip.
pub open spec fn ready_transactions(cfg: Config, cs: Seq<Command>, i: int) -> Seq<Command>
    decreases cs.len() - i,
{
    if i < 0 || i >= cs.len() {
        seq![]
    } else {
        command_cycle(cfg, cs[i]) + ready_transactions(cfg, cs, i + 1)
    }
}

pub open spec fn issues<E>(cs: Seq<Command>) -> Seq<Action<E>> {
    cs.map_values(|c: Command| Action::Issue(c))
}

/// The transactions that a running engine still issues on a ready chip,
/// after the one that it waits on.
pub open spec fn pending(m: Model) -> Seq<Command> {
    let c = m.current();
    let later = ready_transactions(m.cfg, m.commands, m.index + 1 as int);
    match m.phase {
        Phase::Latch => (if m.cfg.verify_latch {
            seq![Command::ReadStatus]
        } else {
            seq![]
        }) + seq![c, Command::ReadStatus] + later,
        Phase::CheckLatch => seq![c, Command::ReadStatus] + later,
        Phase::Transfer => (if c.mutating() {
            seq![Command::ReadStatus]
        } else {
            seq![]
        }) + later,
        _ => later,
    }
}

proof fn ready_status_bits()
    ensures
        !busy(STATUS_WEL),
        latch_set(STATUS_WEL),
{
    assert(0x02u8 & 0x01u8 == 0u8) by (bit_vector);
    assert(0x02u8 & 0x02u8 != 0u8) by (bit_vector);
}

proof fn begin_matches_cycle<E>(m: Model)
    requires
        m.wf(),
        0 <= m.index < m.commands.len(),
    ensures
        begin_command::<E>(m).0.wf(),
        begin_command::<E>(m).0.running(),
        begin_command::<E>(m).0.index == m.index,
        begin_command::<E>(m).0.cfg == m.cfg,
        begin_command::<E>(m).0.commands == m.commands,
        ready_transactions(m.cfg, m.commands, m.index as int).len() > 0,
        begin_command::<E>(m).1 == Action::<E>::Issue(
            ready_transactions(m.cfg, m.commands, m.index as int)[0],
        ),
        pending(begin_command::<E>(m).0) == ready_transactions(
            m.cfg,
            m.commands,
            m.index as int,
        ).drop_first(),
{
    let b = begin_command::<E>(m);
    let t = ready_transactions(m.cfg, m.commands, m.index as int);
    assert(t == command_cycle(m.cfg, m.current()) + ready_transactions(
        m.cfg,
        m.commands,
        m.index + 1 as int,
    ));
    assert(pending(b.0) =~= t.drop_first());
}

/// On a ready chip, a running engine issues what `pending` says and then
/// finishes with success.
proof fn ready_run_from<E>(m: Model)
    requires
        m.wf(),
        m.running(),
    ensures
        run(m, idle_replies::<E>(pending(m).len() + 1)) == issues::<E>(pending(m)) + seq![
            Action::<E>::Finish(Ok(())),
        ],
    decreases pending(m).len(),
{
    ready_status_bits();
    let replies = idle_replies::<E>(pending(m).len() + 1);
    let step = next(m, replies[0]);
    let tail = replies.drop_first();
    let later = ready_transactions(m.cfg, m.commands, m.index + 1 as int);
    let goal = issues::<E>(pending(m)) + seq![Action::<E>::Finish(Ok(()))];
    if m.index + 1 < m.commands.len() {
        begin_matches_cycle::<E>(Model { index: m.index + 1, phase: Phase::Transfer, ..m });
    } else {
        assert(later =~= seq![]);
    }
    if step.0.running() {
        assert(pending(m).len() > 0 && step.1 == Action::<E>::Issue(pending(m)[0]) && pending(step.0)
            =~= pending(m).drop_first());
        assert(tail =~= idle_replies::<E>(pending(step.0).len() + 1));
        ready_run_from::<E>(step.0);
        assert(run(m, replies) =~= goal);
    } else {
        assert(pending(m) =~= seq![]);
        assert(run(step.0, tail) =~= seq![]);
        assert(run(m, replies) =~= goal);
    }
}

/// On a ready chip every operation succeeds: it issues each command in
/// order, a mutating one opened by its own write-enable and closed by a
/// status read, and then finishes with success. The outcome does not depend
/// on what the chip holds, so erasing an erased range again succeeds again.
pub proof fn ready_chip_runs_every_command<E>(cfg: Config, cs: Seq<Command>)
    requires
        cfg.wf(),
    ensures
        trace(
            fresh(cfg, cs),
            idle_replies::<E>(ready_transactions(cfg, cs, 0).len()),
        ) == issues::<E>(ready_transactions(cfg, cs, 0)) + seq![Action::<E>::Finish(Ok(()))],
{
    let m = fresh(cfg, cs);
    let t = ready_transactions(cfg, cs, 0);
    if cs.len() == 0 {
        assert(t =~= seq![]);
        assert(run(start_spec::<E>(m).0, idle_replies::<E>(0)) =~= seq![]);
        assert(trace(m, idle_replies::<E>(0)) =~= issues::<E>(t) + seq![
            Action::<E>::Finish(Ok(())),
        ]);
    } else {
        begin_matches_cycle::<E>(m);
        let b = begin_command::<E>(m);
        ready_run_from::<E>(b.0);
        assert(t == seq![t[0]] + t.drop_first());
        assert(trace(m, idle_replies::<E>(t.len())) =~= issues::<E>(t) + seq![
            Action::<E>::Finish(Ok(())),
        ]);
    }
}

/// Erasing sectors of a ready chip succeeds whatever the chip holds, so
/// erasing an already erased range succeeds again, with the same
/// transactions.
pub proof fn erase_sectors_is_repeatable<E>(cfg: Config, addr: u32, amount: usize)
    requires
        cfg.wf(),
    ensures
        ({
            let cs = sector_erases(cfg.sector_size as nat, addr as nat, amount as nat);
            let t = trace(fresh(cfg, cs), idle_replies::<E>(ready_transactions(cfg, cs, 0).len()));
            t.last() == Action::<E>::Finish(Ok(()))
        }),
{
    let cs = sector_erases(cfg.sector_size as nat, addr as nat, amount as nat);
    ready_chip_runs_every_command::<E>(cfg, cs);
}

/// `cs` programs the `len` bytes of data from offset `start` on at `addr`
/// and on: in order, without gap or overlap, each command within one page,
/// and every command but the first starting on a page boundary.
pub open spec fn well_split(page: nat, addr: nat, start: nat, len: nat, cs: Seq<Command>) -> bool {
    &&& (cs.len() == 0 <==> len == 0)
    &&& forall|i: int|
        #![trigger cs[i]]
        0 <= i < cs.len() ==> {
            &&& cs[i] matches Command::PageProgram { addr: a, start: st, len: n }
            &&& n > 0
            &&& st >= start
            &&& a == addr + (st - start)
            &&& (a as nat) % page + n <= page
            &&& i > 0 ==> (a as nat) % page == 0
            &&& i == 0 ==> st == start
            &&& i + 1 == cs.len() ==> st + n == start + len
        }
    &&& forall|i: int|
        #![trigger cs[i], cs[i + 1]]
        0 <= i && i + 1 < cs.len() ==> {
            &&& cs[i] matches Command::PageProgram { start: st, len: n, .. }
            &&& cs[i + 1] matches Command::PageProgram { start: st2, .. }
            &&& st2 == st + n
        }
}

/// A write is split into one program command per page segment, in
/// increasing address order, covering the data exactly.
pub proof fn write_is_split_by_page(page: nat, addr: nat, start: nat, len: nat)
    requires
        page > 0,
        addr + len <= 0x1_0000_0000,
        start + len <= usize::MAX,
    ensures
        well_split(page, addr, start, len, page_chunks(page, addr, start, len)),
    decreases len,
{
    let cs = page_chunks(page, addr, start, len);
    if len > 0 {
        crate::plan::lemma_mod_below(addr, page);
        let room = (page - addr % page) as nat;
        let n = if len < room {
            len
        } else {
            room
        };
        let rest = page_chunks(page, addr + n, start + n, (len - n) as nat);
        write_is_split_by_page(page, addr + n, start + n, (len - n) as nat);
        assert(cs == seq![Command::PageProgram { addr: addr as u32, start: start as usize, len: n as usize }] + rest);
        if len > n {
            vstd::arithmetic::div_mod::lemma_fundamental_div_mod(addr as int, page as int);
            assert(addr + n == page * (addr as int / page as int + 1)) by (nonlinear_arith)
                requires
                    addr == page * (addr as int / page as int) + addr % page,
                    n == page - addr % page,
            ;
            lemma_mod_multiples_basic(addr as int / page as int + 1, page as int);
            assert((addr as int / page as int + 1) * page == page * (addr as int / page as int + 1)) by (nonlinear_arith);
            assert((addr + n) % page == 0);
        }
        assert forall|i: int| 0 <= i < cs.len() implies {
            &&& #[trigger] cs[i] matches Command::PageProgram { addr: a, start: st, len: n }
            &&& n > 0
            &&& st >= start
            &&& a == addr + (st - start)
            &&& (a as nat) % page + n <= page
            &&& i > 0 ==> (a as nat) % page == 0
            &&& i == 0 ==> st == start
            &&& i + 1 == cs.len() ==> st + n == start + len
        } by {
            if i > 0 {
                assert(cs[i] == rest[i - 1]);
            }
        }
        assert forall|i: int| 0 <= i && i + 1 < cs.len() implies {
            &&& #[trigger] cs[i] matches Command::PageProgram { start: st, len: n, .. }
            &&& #[trigger] cs[i + 1] matches Command::PageProgram { start: st2, .. }
            &&& st2 == st + n
        } by {
            assert(cs[i + 1] == rest[i]);
            if i > 0 {
                assert(cs[i] == rest[i - 1]);
            }
        }
    }
}

/// Every sector erase addresses the start of a sector: the first is the
/// sector that holds `addr`, and each later one the next sector up.
pub proof fn erase_addresses_are_sector_aligned(sector: u32, addr: u32, amount: usize)
    requires
        sector > 0,
        sector_base(addr as nat, sector as nat) + amount * sector <= 0x1_0000_0000,
    ensures
        forall|i: int|
            #![trigger sector_erases(sector as nat, addr as nat, amount as nat)[i]]
            0 <= i < amount ==> {
                let c = sector_erases(sector as nat, addr as nat, amount as nat)[i];
                &&& c matches Command::SectorErase { addr: a }
                &&& c.address().unwrap() % sector == 0
                &&& c.address().unwrap() == sector_base(addr as nat, sector as nat) + i * sector
            },
        amount > 0 ==> {
            let a = sector_erases(sector as nat, addr as nat, amount as nat)[0].address().unwrap();
            a <= addr < a + sector
        },
{
    let s = sector as int;
    let base = sector_base(addr as nat, sector as nat) as int;
    crate::plan::lemma_mod_below(addr as nat, sector as nat);
    vstd::arithmetic::div_mod::lemma_fundamental_div_mod(addr as int, s);
    assert(base == s * (addr as int / s));
    assert forall|i: int| 0 <= i < amount implies {
        let c = #[trigger] sector_erases(sector as nat, addr as nat, amount as nat)[i];
        &&& c matches Command::SectorErase { addr: a }
        &&& c.address().unwrap() % sector == 0
        &&& c.address().unwrap() == base + i * sector
    } by {
        assert(i * s + s <= amount * s) by (nonlinear_arith)
            requires
                0 <= i < amount,
                s > 0,
        ;
        assert(0 <= i * s) by (nonlinear_arith)
            requires
                0 <= i,
                s > 0,
        ;
        assert(base + i * s == s * (addr as int / s + i)) by (nonlinear_arith)
            requires
                base == s * (addr as int / s),
        ;
        lemma_mod_multiples_basic(addr as int / s + i, s);
        assert((addr as int / s + i) * s == s * (addr as int / s + i)) by (nonlinear_arith);
    }
}

} // verus!
