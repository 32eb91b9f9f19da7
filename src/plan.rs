//! The commands that one operation needs: page-sized program chunks and
//! sector erases.
use vstd::prelude::*;
use crate::protocol::Command;
use vstd::arithmetic::div_mod::{lemma_fundamental_div_mod, lemma_mod_pos_bound};

verus! {

/// The page-program commands for `len` bytes of data at `addr`, taken from
/// the data's offset `start` on: the first chunk runs to the end of its page,
/// every later one starts on a page boundary, and the last may be short.
pub open spec fn page_chunks(page: nat, addr: nat, start: nat, len: nat) -> Seq<Command>
    decreases len,
{
    if len == 0 || page == 0 {
        seq![]
    } else {
        let room = (page - addr % page) as nat;
        let n = if len < room {
            len
        } else {
            room
        };
        seq![Command::PageProgram { addr: addr as u32, start: start as usize, len: n as usize }]
            + page_chunks(page, addr + n, start + n, (len - n) as nat)
    }
}

/// `addr` with its offset within a sector of `sector` bytes cleared.
pub open spec fn sector_base(addr: nat, sector: nat) -> nat {
    (addr - addr % sector) as nat
}

/// The erase commands for `amount` consecutive sectors, the first being the
/// one that holds `addr`.
pub open spec fn sector_erases(sector: nat, addr: nat, amount: nat) -> Seq<Command> {
    Seq::new(
        amount,
        |i: int| Command::SectorErase { addr: (sector_base(addr, sector) + i * sector) as u32 },
    )
}

/// Splits a write of `len` bytes at `addr` into commands that each stay
/// within one page of `page_size` bytes.
pub fn plan_page_program(page_size: u32, addr: u32, len: usize) -> (r: Vec<Command>)
    requires
        page_size > 0,
        addr + len <= 0x1_0000_0000,
    ensures
        r@ == page_chunks(page_size as nat, addr as nat, 0, len as nat),
{
    let mut out: Vec<Command> = Vec::new();
    let mut a: u64 = addr as u64;
    let mut start: usize = 0;
    let page: u64 = page_size as u64;
    while start < len
        invariant
            page == page_size,
            page > 0,
            start <= len,
            a == addr + start,
            addr + len <= 0x1_0000_0000,
            out@ + page_chunks(page as nat, a as nat, start as nat, (len - start) as nat)
                == page_chunks(page_size as nat, addr as nat, 0, len as nat),
        decreases len - start,
    {
        let room: u64 = page - a % page;
        let rem: u64 = (len - start) as u64;
        let n: u64 = if rem < room {
            rem
        } else {
            room
        };
        let cmd = Command::PageProgram { addr: a as u32, start, len: n as usize };
        proof {
            let rest = page_chunks(page as nat, (a + n) as nat, (start + n) as nat, (rem - n) as nat);
            assert(page_chunks(page as nat, a as nat, start as nat, rem as nat) == seq![cmd] + rest);
            assert(out@.push(cmd) + rest =~= out@ + (seq![cmd] + rest));
        }
        out.push(cmd);
        a = a + n;
        start = start + n as usize;
    }
    assert(page_chunks(page as nat, a as nat, start as nat, 0) =~= seq![]);
    assert(out@ + seq![] =~= out@);
    out
}

/// The remainder of `x` by `m` is no more than `x`.
pub proof fn lemma_mod_below(x: nat, m: nat)
    requires
        m > 0,
    ensures
        x % m <= x,
        x % m < m,
{
    lemma_fundamental_div_mod(x as int, m as int);
    lemma_mod_pos_bound(x as int, m as int);
    assert(m * (x / m) >= 0) by (nonlinear_arith)
        requires
            m > 0,
            x >= 0,
    ;
}

/// The erase commands for `amount` sectors of `sector_size` bytes, starting
/// with the sector that holds `addr`.
pub fn plan_sector_erase(sector_size: u32, addr: u32, amount: usize) -> (r: Vec<Command>)
    requires
        sector_size > 0,
        sector_base(addr as nat, sector_size as nat) + amount * sector_size <= 0x1_0000_0000,
    ensures
        r@ == sector_erases(sector_size as nat, addr as nat, amount as nat),
{
    let s: u64 = sector_size as u64;
    proof {
        lemma_mod_below(addr as nat, s as nat);
    }
    let base: u64 = addr as u64 - addr as u64 % s;
    let mut out: Vec<Command> = Vec::new();
    let mut cur: u64 = base;
    let mut i: usize = 0;
    while i < amount
        invariant
            s == sector_size,
            s > 0,
            base == sector_base(addr as nat, sector_size as nat),
            base + amount * s <= 0x1_0000_0000,
            i <= amount,
            cur == base + i * s,
            out@ =~= sector_erases(sector_size as nat, addr as nat, amount as nat).take(i as int),
        decreases amount - i,
    {
        proof {
            assert((i + 1) * s <= amount * s) by (nonlinear_arith)
                requires
                    i < amount,
                    s > 0,
            ;
            assert((i + 1) * s == i * s + s) by (nonlinear_arith);
        }
        out.push(Command::SectorErase { addr: cur as u32 });
        cur = cur + s;
        i = i + 1;
    }
    out
}

} // verus!
