//! Snowflake ids: 64-bit ids made by `rbatis`'s generator from a tick count
//! that starts at the milliseconds since the itchat epoch, a machine id, a
//! node id and a per-tick counter.
//!
//! The generator's hidden state (its tick count and its counter) is mirrored
//! by two ghost fields, so that contracts can say which id each call hands
//! out and that later ids are larger.

use rbatis::plugin::id_generator::snowflake::Snowflake;
use vstd::arithmetic::div_mod::{
    lemma_div_is_ordered, lemma_fundamental_div_mod, lemma_fundamental_div_mod_converse,
    lemma_mod_bound,
};
use vstd::prelude::*;

verus! {

/// Fri, 01 Jan 2021 00:00:00 GMT, in milliseconds since the Unix epoch.
pub const ITCHAT_EPOCH: i64 = 1609459200000;

#[verifier::external_type_specification]
#[verifier::external_body]
pub struct ExSnowflake(Snowflake);

/// The tick count after one id: it moves on whenever the counter starts a
/// new round of 4096 ids (in the fast mode), wrapping like the `i64` it is.
pub open spec fn step_ticks(ticks: i64, counter: u16) -> i64 {
    if counter % 4096 == 0 {
        (ticks + 1) as i64
    } else {
        ticks
    }
}

/// The counter after one id, wrapping like the `u16` it is.
pub open spec fn step_counter(counter: u16) -> u16 {
    (counter + 1) as u16
}

/// The id handed out from the state `(ticks, counter)`:
/// `ticks' << 22 | machine_id << 17 | node_id << 12 | counter % 4096`, where
/// `ticks'` is the tick count after the call.
pub open spec fn emitted_id(ticks: i64, counter: u16, machine_id: i32, node_id: i32) -> i64 {
    (step_ticks(ticks, counter) << 22u64) | ((machine_id << 17u32) as i64) | ((node_id << 12u32) as i64)
        | ((counter % 4096) as i64)
}

/// The state `(ticks, counter)` after `n` more ids.
pub open spec fn state_after(ticks: i64, counter: u16, n: nat) -> (i64, u16)
    decreases n,
{
    if n == 0 {
        (ticks, counter)
    } else {
        state_after(step_ticks(ticks, counter), step_counter(counter), (n - 1) as nat)
    }
}

/// The id that the `n`-th next call hands out, counting from 0.
pub open spec fn nth_id(ticks: i64, counter: u16, machine_id: i32, node_id: i32, n: nat) -> i64 {
    let s = state_after(ticks, counter, n);
    emitted_id(s.0, s.1, machine_id, node_id)
}

/// The position of the next id in the generator's sequence: the tick count
/// it will carry times 4096 plus its counter bits.
pub open spec fn emit_key(ticks: i64, counter: u16) -> int {
    let k = counter % 4096;
    if k == 0 {
        (ticks + 1) * 4096
    } else {
        ticks * 4096 + k
    }
}

/// Positions below this keep the tick count inside the 41 bits above the
/// other fields of an id.
pub open spec fn key_limit() -> int {
    0x20_0000_0000_0000
}

/// The id at position `key` with the ten worker bits `worker`, as a number.
pub open spec fn encode(key: int, worker: int) -> int {
    (key / 4096) * 0x40_0000 + worker * 4096 + key % 4096
}

/// An id generator together with the settings it was made with and a ghost
/// copy of its tick count and counter. Every value of this type is made by
/// `snowflake_with_epoch` and changed only by `snowflake_next`, so the ghost
/// copy follows the generator's own state.
pub struct IdGenerator {
    snowflake: Snowflake,
    machine_id: i32,
    node_id: i32,
    epoch_ms: u64,
    mode: i32,
    ticks: Ghost<i64>,
    counter: Ghost<u16>,
}

impl IdGenerator {
    /// Machine and node ids fit the five bits that an id has for each, and
    /// the generator runs in the fast mode.
    #[verifier::type_invariant]
    closed spec fn wf(&self) -> bool {
        0 <= self.machine_id < 32 && 0 <= self.node_id < 32 && self.mode == 0
    }

    pub closed spec fn machine_id(&self) -> i32 {
        self.machine_id
    }

    pub closed spec fn node_id(&self) -> i32 {
        self.node_id
    }

    /// The epoch, in milliseconds since the Unix epoch.
    pub closed spec fn epoch_ms(&self) -> u64 {
        self.epoch_ms
    }

    /// `0` for the fast mode.
    pub closed spec fn mode(&self) -> i32 {
        self.mode
    }

    pub closed spec fn ticks(&self) -> i64 {
        self.ticks@
    }

    pub closed spec fn counter(&self) -> u16 {
        self.counter@
    }

    /// The ten bits above the counter that every id of this generator carries:
    /// the machine id, then the node id.
    pub open spec fn worker_bits(&self) -> int {
        self.machine_id() * 32 + self.node_id()
    }

    /// The position of the next id in the generator's sequence.
    pub open spec fn key(&self) -> int {
        emit_key(self.ticks(), self.counter())
    }

    /// The id that the `n`-th next call hands out, counting from 0.
    pub open spec fn nth_id(&self, n: nat) -> i64 {
        nth_id(self.ticks(), self.counter(), self.machine_id(), self.node_id(), n)
    }

    /// `self` is `before` after `n` more ids.
    pub open spec fn advanced_from(&self, before: IdGenerator, n: nat) -> bool {
        &&& self.machine_id() == before.machine_id()
        &&& self.node_id() == before.node_id()
        &&& self.epoch_ms() == before.epoch_ms()
        &&& self.mode() == before.mode()
        &&& (self.ticks(), self.counter()) == state_after(before.ticks(), before.counter(), n)
    }

    /// The generator that itchat uses: machine id 1, node id 1, the fast
    /// mode, and the itchat epoch; its counter starts at 0.
    pub fn new() -> (g: IdGenerator)
        ensures
            g.machine_id() == 1,
            g.node_id() == 1,
            g.epoch_ms() == ITCHAT_EPOCH as u64,
            g.mode() == 0,
            g.counter() == 0,
            g.worker_bits() == 33,
    {
        snowflake_with_epoch(1, 1, 0, ITCHAT_EPOCH as u64)
    }
}

/// `rbatis`'s `Snowflake::with_epoch(machine_id, node_id, mode, epoch)`, with
/// the epoch given in milliseconds after the Unix epoch, kept beside the
/// settings that were handed to it; its counter starts at 0 and its tick count
/// at the milliseconds from the epoch to now, of which nothing is claimed.
/// `with_epoch` panics when the epoch lies after the current time; the
/// `requires` keeps the epoch no later than the itchat epoch, so only a clock
/// set before 2021 makes it panic.
#[verifier::external_body]
fn snowflake_with_epoch(machine_id: i32, node_id: i32, mode: i32, epoch_ms: u64) -> (g: IdGenerator)
    requires
        0 <= machine_id < 32,
        0 <= node_id < 32,
        mode == 0,
        epoch_ms <= ITCHAT_EPOCH as u64,
    ensures
        g.machine_id() == machine_id,
        g.node_id() == node_id,
        g.epoch_ms() == epoch_ms,
        g.mode() == mode,
        g.counter() == 0,
{
    let epoch = std::time::UNIX_EPOCH + std::time::Duration::from_millis(epoch_ms);
    IdGenerator {
        snowflake: Snowflake::with_epoch(machine_id, node_id, mode, epoch),
        machine_id,
        node_id,
        epoch_ms,
        mode,
        ticks: Ghost(arbitrary()),
        counter: Ghost(0),
    }
}

/// `rbatis`'s `Snowflake::generate_id` in the fast mode (`mode == 0`, which
/// the type's invariant keeps): the counter moves on by one (wrapping as a
/// `u16`); when it starts a round of 4096 the tick count moves on by one; the
/// id is `ticks << 22 | machine_id << 17 | node_id << 12 | counter % 4096`,
/// with the tick count after the call and the counter before it. The fast
/// mode reads no clock.
#[verifier::external_body]
fn snowflake_next(g: &mut IdGenerator) -> (id: i64)
    ensures
        final(g).machine_id() == old(g).machine_id(),
        final(g).node_id() == old(g).node_id(),
        final(g).epoch_ms() == old(g).epoch_ms(),
        final(g).mode() == old(g).mode(),
        final(g).ticks() == step_ticks(old(g).ticks(), old(g).counter()),
        final(g).counter() == step_counter(old(g).counter()),
        id == emitted_id(old(g).ticks(), old(g).counter(), old(g).machine_id(), old(g).node_id()),
{
    g.snowflake.generate_id()
}

/// A new signed snowflake id from `ids`, the form in which the stored
/// structures keep ids: the generator's next id.
pub fn generate_signed(ids: &mut IdGenerator) -> (id: i64)
    ensures
        id == old(ids).nth_id(0),
        final(ids).advanced_from(*old(ids), 1),
{
    let id = snowflake_next(ids);
    proof {
        reveal_with_fuel(state_after, 2);
    }
    id
}

/// A new snowflake id from `ids`, as an unsigned number: the generator's next
/// id, whose bits 12 to 21 are the generator's machine and node ids.
pub fn generate(ids: &mut IdGenerator) -> (id: u64)
    ensures
        id == old(ids).nth_id(0) as u64,
        (id >> 12u64) & 0x3ffu64 == old(ids).worker_bits(),
        final(ids).advanced_from(*old(ids), 1),
{
    proof {
        use_type_invariant(&*ids);
        lemma_id_worker_bits(old(ids).ticks(), old(ids).counter(), old(ids).machine_id(), old(ids).node_id());
    }
    let id = generate_signed(ids);
    id as u64
}

/// Taking `n` ids and then `m` more is taking `n + m`.
pub proof fn lemma_state_after_add(ticks: i64, counter: u16, n: nat, m: nat)
    ensures
        ({
            let s = state_after(ticks, counter, n);
            state_after(s.0, s.1, m)
        }) == state_after(ticks, counter, n + m),
    decreases n,
{
    if n > 0 {
        lemma_state_after_add(step_ticks(ticks, counter), step_counter(counter), (n - 1) as nat, m);
        assert((n - 1) as nat + m == (n + m - 1) as nat);
    }
}

/// A generator that took `n` ids and then `m` more took `n + m` ids.
pub proof fn lemma_advance_compose(a: IdGenerator, b: IdGenerator, c: IdGenerator, n: nat, m: nat)
    requires
        b.advanced_from(a, n),
        c.advanced_from(b, m),
    ensures
        c.advanced_from(a, n + m),
{
    lemma_state_after_add(a.ticks(), a.counter(), n, m);
}

/// After `n` ids, the `k`-th next id is the one that was `n + k`-th.
pub proof fn lemma_advance_nth(a: IdGenerator, b: IdGenerator, n: nat, k: nat)
    requires
        b.advanced_from(a, n),
    ensures
        b.nth_id(k) == a.nth_id(n + k),
{
    lemma_state_after_add(a.ticks(), a.counter(), n, k);
}

/// An id's bits, read as a number, once the tick count fits its 41 bits.
proof fn lemma_id_bits(t: i64, machine_id: i32, node_id: i32, k: u16) by (bit_vector)
    requires
        0 <= t < 0x200_0000_0000,
        0 <= machine_id < 32,
        0 <= node_id < 32,
        k < 4096,
    ensures
        (t << 22u64) | ((machine_id << 17u32) as i64) | ((node_id << 12u32) as i64) | (k as i64)
            == t * 0x40_0000 + machine_id * 0x2_0000 + node_id * 4096 + k,
{
}

/// The counter's position in its round of 4096 moves on by one, wrapping.
proof fn lemma_counter_step(counter: u16) by (bit_vector)
    ensures
        ((counter + 1) as u16) % 4096 == ((counter % 4096) + 1) % 4096,
{
}

/// `x * 4096 + r`, with `r` below 4096, has quotient `x` and remainder `r`.
proof fn lemma_split(x: int, r: int)
    requires
        0 <= r < 4096,
    ensures
        (x * 4096 + r) / 4096 == x,
        (x * 4096 + r) % 4096 == r,
{
    lemma_fundamental_div_mod_converse(x * 4096 + r, 4096, x, r);
}

/// An emitted id is the encoding of the generator's position.
proof fn lemma_emitted_encodes(ticks: i64, counter: u16, machine_id: i32, node_id: i32)
    requires
        0 <= machine_id < 32,
        0 <= node_id < 32,
        0 <= emit_key(ticks, counter) < key_limit(),
    ensures
        emitted_id(ticks, counter, machine_id, node_id) as int == encode(
            emit_key(ticks, counter),
            machine_id * 32 + node_id,
        ),
{
    let k = counter % 4096;
    let t = step_ticks(ticks, counter);
    assert(emit_key(ticks, counter) == t * 4096 + k);
    lemma_split(t as int, k as int);
    lemma_id_bits(t, machine_id, node_id, k);
}

/// Each id moves the generator's position on by one.
proof fn lemma_step_key(ticks: i64, counter: u16)
    requires
        0 <= emit_key(ticks, counter),
        emit_key(ticks, counter) + 1 < key_limit(),
    ensures
        emit_key(step_ticks(ticks, counter), step_counter(counter)) == emit_key(ticks, counter) + 1,
{
    lemma_counter_step(counter);
}

/// After `n` ids the position has moved on by `n`.
proof fn lemma_key_after(ticks: i64, counter: u16, n: nat)
    requires
        0 <= emit_key(ticks, counter),
        emit_key(ticks, counter) + n < key_limit(),
    ensures
        ({
            let s = state_after(ticks, counter, n);
            emit_key(s.0, s.1)
        }) == emit_key(ticks, counter) + n,
    decreases n,
{
    if n > 0 {
        lemma_step_key(ticks, counter);
        lemma_key_after(step_ticks(ticks, counter), step_counter(counter), (n - 1) as nat);
    }
}

/// The `n`-th next id is the encoding of the position `n` further on.
proof fn lemma_nth_encodes(ticks: i64, counter: u16, machine_id: i32, node_id: i32, n: nat)
    requires
        0 <= machine_id < 32,
        0 <= node_id < 32,
        0 <= emit_key(ticks, counter),
        emit_key(ticks, counter) + n < key_limit(),
    ensures
        nth_id(ticks, counter, machine_id, node_id, n) as int == encode(
            emit_key(ticks, counter) + n,
            machine_id * 32 + node_id,
        ),
{
    lemma_key_after(ticks, counter, n);
    let s = state_after(ticks, counter, n);
    lemma_emitted_encodes(s.0, s.1, machine_id, node_id);
}

/// Later positions encode to larger ids.
proof fn lemma_encode_increases(k1: int, k2: int, worker: int)
    requires
        0 <= k1 < k2,
        0 <= worker < 1024,
    ensures
        encode(k1, worker) < encode(k2, worker),
{
    lemma_fundamental_div_mod(k1, 4096);
    lemma_fundamental_div_mod(k2, 4096);
    lemma_mod_bound(k1, 4096);
    lemma_mod_bound(k2, 4096);
    lemma_div_is_ordered(k1, k2, 4096);
}

/// Ids increase: while the tick count stays inside its 41 bits, every id
/// that a generator hands out is larger than every id it handed out before.
pub proof fn lemma_ids_increase(ticks: i64, counter: u16, machine_id: i32, node_id: i32, i: nat, j: nat)
    requires
        0 <= machine_id < 32,
        0 <= node_id < 32,
        i < j,
        0 <= emit_key(ticks, counter),
        emit_key(ticks, counter) + j < key_limit(),
    ensures
        nth_id(ticks, counter, machine_id, node_id, i) < nth_id(ticks, counter, machine_id, node_id, j),
{
    lemma_nth_encodes(ticks, counter, machine_id, node_id, i);
    lemma_nth_encodes(ticks, counter, machine_id, node_id, j);
    lemma_encode_increases(emit_key(ticks, counter) + i, emit_key(ticks, counter) + j, machine_id * 32 + node_id);
}

/// No id is handed out twice: within the same range, two different calls
/// give different ids.
pub proof fn lemma_ids_distinct(ticks: i64, counter: u16, machine_id: i32, node_id: i32, i: nat, j: nat)
    requires
        0 <= machine_id < 32,
        0 <= node_id < 32,
        i != j,
        0 <= emit_key(ticks, counter),
        emit_key(ticks, counter) + i < key_limit(),
        emit_key(ticks, counter) + j < key_limit(),
    ensures
        nth_id(ticks, counter, machine_id, node_id, i) != nth_id(ticks, counter, machine_id, node_id, j),
{
    if i < j {
        lemma_ids_increase(ticks, counter, machine_id, node_id, i, j);
    } else {
        lemma_ids_increase(ticks, counter, machine_id, node_id, j, i);
    }
}

/// Shifting a non-negative id right by 22 divides it by 2^22.
proof fn lemma_shift_is_div(x: i64) by (bit_vector)
    requires
        0 <= x,
    ensures
        x >> 22u64 == x / 0x40_0000,
{
}

/// Within one tick the counter counts: when the next id carries the same
/// tick bits (`id >> 22`) as the one before, it is that id plus one.
pub proof fn lemma_same_tick_counts(ticks: i64, counter: u16, machine_id: i32, node_id: i32, i: nat)
    requires
        0 <= machine_id < 32,
        0 <= node_id < 32,
        0 <= emit_key(ticks, counter),
        emit_key(ticks, counter) + i + 1 < key_limit(),
    ensures
        (nth_id(ticks, counter, machine_id, node_id, i + 1) >> 22u64) == (nth_id(
            ticks,
            counter,
            machine_id,
            node_id,
            i,
        ) >> 22u64) ==> nth_id(ticks, counter, machine_id, node_id, i + 1) == nth_id(
            ticks,
            counter,
            machine_id,
            node_id,
            i,
        ) + 1,
{
    let w = machine_id * 32 + node_id;
    let k = emit_key(ticks, counter) + i;
    let a = nth_id(ticks, counter, machine_id, node_id, i);
    let b = nth_id(ticks, counter, machine_id, node_id, i + 1);
    lemma_nth_encodes(ticks, counter, machine_id, node_id, i);
    lemma_nth_encodes(ticks, counter, machine_id, node_id, i + 1);
    lemma_fundamental_div_mod(k, 4096);
    lemma_fundamental_div_mod(k + 1, 4096);
    lemma_mod_bound(k, 4096);
    lemma_mod_bound(k + 1, 4096);
    assert(0 <= w * 4096 + k % 4096 < 0x40_0000);
    assert(0 <= w * 4096 + (k + 1) % 4096 < 0x40_0000);
    lemma_fundamental_div_mod_converse(a as int, 0x40_0000, k / 4096, w * 4096 + k % 4096);
    lemma_fundamental_div_mod_converse(b as int, 0x40_0000, (k + 1) / 4096, w * 4096 + (k + 1) % 4096);
    lemma_shift_is_div(a);
    lemma_shift_is_div(b);
}

/// Bits 12 to 21 of an emitted id are the machine and node ids.
proof fn lemma_id_worker_bits(ticks: i64, counter: u16, machine_id: i32, node_id: i32)
    requires
        0 <= machine_id < 32,
        0 <= node_id < 32,
    ensures
        ((emitted_id(ticks, counter, machine_id, node_id) as u64) >> 12u64) & 0x3ffu64 == machine_id
            * 32 + node_id,
{
    let t = step_ticks(ticks, counter);
    let k = counter % 4096;
    assert(((((t << 22u64) | ((machine_id << 17u32) as i64) | ((node_id << 12u32) as i64) | (k as i64))
        as u64) >> 12u64) & 0x3ffu64 == machine_id * 32 + node_id) by (bit_vector)
        requires
            0 <= machine_id < 32,
            0 <= node_id < 32,
            k < 4096,
    ;
}

} // verus!
