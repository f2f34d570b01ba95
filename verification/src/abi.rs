//! Register convention and clobber contract.
//!
//! Architecture law, fixed at compile time: which hardware register carries
//! the syscall identifier, each argument slot, the raw result and the error
//! flag, and which registers the kernel is permitted to destroy on every
//! trap. Registers are named here by their hardware numbers: `$2` is `v0`,
//! `$4`-`$7` are `a0`-`a3`, `$8`-`$15` and `$24`-`$25` are the temporaries
//! `t0`-`t9`.
//!
//! Argument slots 1-4 ride in the dedicated argument registers `a0`-`a3`;
//! slots 5 and 6 ride in the temporaries `t0` and `t1` rather than on the
//! stack. Because the clobber contract is per-architecture, not per-call,
//! those two temporaries count as destroyed on every trap, even for calls
//! that never load them.

use vstd::prelude::*;

verus! {

/// `$v0`: carries the syscall identifier in and the raw result out.
pub const IDENTIFIER_REGISTER: u8 = 2;

/// `$a3`: reads as the error flag after every trap; doubles as the register
/// of argument slot 4 on the way in.
pub const ERROR_FLAG_REGISTER: u8 = 7;

/// An arity the primitive supports: zero through six argument words.
pub open spec fn valid_arity(k: int) -> bool {
    0 <= k <= 6
}

/// An argument slot: the first through the sixth argument word.
pub open spec fn valid_slot(j: int) -> bool {
    1 <= j <= 6
}

/// The register bound to argument slot `j`: `$a0`-`$a3` (registers 4-7) for
/// slots 1-4, then the temporaries `$t0` and `$t1` (registers 8 and 9) for
/// slots 5 and 6.
pub open spec fn slot_register(j: int) -> int {
    3 + j
}

/// Registers through which the kernel hands meaning back: the result
/// register and the error-flag register.
pub open spec fn is_output_register(r: int) -> bool {
    r == IDENTIFIER_REGISTER || r == ERROR_FLAG_REGISTER
}

/// The temporary registers `t0`-`t9`: destroyed by every trap, whatever the
/// arity.
pub open spec fn is_temporary_register(r: int) -> bool {
    (8 <= r <= 15) || r == 24 || r == 25
}

/// Every register whose content the kernel may alter across a trap. A caller
/// must treat each of these as either meaningful output or destroyed; every
/// other register keeps its value.
pub open spec fn kernel_may_alter(r: int) -> bool {
    is_output_register(r) || is_temporary_register(r)
}

/// Whether register `r` is loaded as an input for a call of arity `k`: the
/// identifier register always, and the registers of slots 1 through `k`.
pub open spec fn is_loaded_register(r: int, k: int) -> bool {
    r == IDENTIFIER_REGISTER || (4 <= r && r <= 3 + k)
}

/// The register assignment handed to the trap for a call of arity `k` on
/// identifier `n` and the six potential argument words `args`: the
/// identifier register holds `n`, the register of each slot 1 through `k`
/// holds that slot's word, and no other register is loaded.
pub open spec fn trap_inputs(n: u64, args: Seq<u64>, k: int) -> Map<int, u64> {
    Map::new(
        |r: int| is_loaded_register(r, k),
        |r: int| if r == IDENTIFIER_REGISTER { n } else { args[r - 4] },
    )
}

/// The register bound to argument slot `slot`.
pub fn argument_register(slot: u8) -> (r: u8)
    requires
        valid_slot(slot as int),
    ensures
        r as int == slot_register(slot as int),
{
    3 + slot
}

/// Whether a call of arity `arity` loads register `reg` as an input.
pub fn register_is_loaded(reg: u8, arity: u8) -> (b: bool)
    requires
        valid_arity(arity as int),
    ensures
        b == is_loaded_register(reg as int, arity as int),
{
    reg == IDENTIFIER_REGISTER || (4 <= reg && reg <= 3 + arity)
}

/// Whether the kernel may alter register `reg` across a trap, for every
/// arity: true of the two output registers and of every temporary register.
pub fn register_may_be_altered(reg: u8) -> (b: bool)
    ensures
        b == kernel_may_alter(reg as int),
{
    reg == IDENTIFIER_REGISTER || reg == ERROR_FLAG_REGISTER || (8 <= reg && reg <= 15)
        || reg == 24 || reg == 25
}

/// A word placed in an argument slot beyond the call's arity never reaches
/// the trap: two argument lists that agree on the first `k` slots produce
/// the same register assignment.
pub proof fn lemma_unloaded_slots_have_no_effect(
    n: u64,
    args1: Seq<u64>,
    args2: Seq<u64>,
    k: int,
)
    requires
        valid_arity(k),
        args1.len() == 6,
        args2.len() == 6,
        forall|j: int| 0 <= j < k ==> args1[j] == args2[j],
    ensures
        trap_inputs(n, args1, k) == trap_inputs(n, args2, k),
{
    assert(trap_inputs(n, args1, k) =~= trap_inputs(n, args2, k));
}

/// The register of a slot beyond the call's arity is not loaded at all.
pub proof fn lemma_slot_beyond_arity_not_loaded(n: u64, args: Seq<u64>, k: int, j: int)
    requires
        valid_arity(k),
        valid_slot(j),
        k < j,
    ensures
        !trap_inputs(n, args, k).dom().contains(slot_register(j)),
{
}

/// At full arity every one of the six argument words stands in its slot's
/// register unchanged, and the identifier stands in the identifier register.
pub proof fn lemma_full_arity_arguments_reach_trap(n: u64, args: Seq<u64>)
    requires
        args.len() == 6,
    ensures
        trap_inputs(n, args, 6).dom().contains(IDENTIFIER_REGISTER as int),
        trap_inputs(n, args, 6)[IDENTIFIER_REGISTER as int] == n,
        forall|j: int|
            valid_slot(j) ==> trap_inputs(n, args, 6).dom().contains(#[trigger] slot_register(j)),
        forall|j: int|
            valid_slot(j) ==> trap_inputs(n, args, 6)[#[trigger] slot_register(j)] == args[j - 1],
{
}

/// The clobber contract accounts for every argument register, on every call:
/// the registers of slots 1-3 come back unaltered; the register of slot 4 is
/// altered because it carries the error flag out; the registers of slots 5
/// and 6 are temporaries, destroyed on every trap even when the arity never
/// loads them.
pub proof fn lemma_argument_registers_accounted()
    ensures
        forall|j: int| 1 <= j <= 3 ==> !kernel_may_alter(#[trigger] slot_register(j)),
        slot_register(4) == ERROR_FLAG_REGISTER,
        forall|j: int| 5 <= j <= 6 ==> is_temporary_register(#[trigger] slot_register(j)),
{
}

} // verus!
