//! Identifiers that sort by the time they stand for.
//!
//! An identifier is a number of 128 bits: the upper 48 are a time in
//! milliseconds since the Unix epoch, the lower 80 are filled at random. It is
//! written as 26 characters, five bits each, so that the order of the texts is
//! the order of the numbers.

use super::super::tracing_msg::{instant_millis, Timestamp};
use std::time::SystemTime;
use ulid::{Generator, MonotonicError, Ulid};
use vstd::arithmetic::div_mod::{lemma_div_denominator, lemma_div_is_ordered};
use vstd::prelude::*;

verus! {

/// Two to the power of 80: the number of random parts.
pub const RANDOM_SPAN: u128 = 0x1_0000_0000_0000_0000_0000;

/// Two to the power of 48: the number of times an identifier can stand for.
pub const TIME_SPAN: u128 = 0x1_0000_0000_0000;

/// The time that an identifier stands for.
pub open spec fn ulid_millis(id: u128) -> int {
    (id / RANDOM_SPAN) as int
}

/// The random part of an identifier.
pub open spec fn ulid_random(id: u128) -> int {
    (id % RANDOM_SPAN) as int
}

/// No identifier follows `last` at a time of `millis`: the time is not later
/// than that of `last`, and the random part of `last` has no successor.
pub open spec fn exhausted(last: u128, millis: u64) -> bool {
    millis <= ulid_millis(last) && ulid_random(last) == RANDOM_SPAN - 1
}

/// `id` can be what a generator hands out at a time of `millis` after `last`:
/// the successor of `last` where the time is not later than that of `last`,
/// else any identifier that stands for `millis`, cut to 48 bits.
pub open spec fn follows(last: u128, millis: u64, id: u128) -> bool {
    if millis <= ulid_millis(last) {
        id == last + 1 && ulid_random(last) != RANDOM_SPAN - 1
    } else {
        ulid_millis(id) == (millis as u128) % TIME_SPAN
    }
}

/// `id` can be what `IdGen::next_id` hands out at a time of `millis` after
/// `last`: where no identifier follows `last`, the generator starts afresh.
pub open spec fn issued_after(last: u128, millis: u64, id: u128) -> bool {
    if exhausted(last, millis) {
        follows(0, millis, id)
    } else {
        follows(last, millis, id)
    }
}

/// The last millisecond that an identifier can stand for.
pub const LAST_MILLIS: u64 = 0xFFFF_FFFF_FFFF;

/// The milliseconds that a point in time counts for when an identifier is
/// made for it: none before the epoch, and for a time that the 48 bits of an
/// identifier cannot hold the last that they can.
pub open spec fn clamped_millis(at: Timestamp) -> u64 {
    if at.unix_millis() < 0 {
        0
    } else if at.unix_millis() > LAST_MILLIS {
        LAST_MILLIS
    } else {
        at.unix_millis() as u64
    }
}

/// `ulid::Generator`, as a value that is carried along.
#[verifier::external_type_specification]
#[verifier::external_body]
pub struct ExGenerator(Generator);

/// `ulid::MonotonicError`, as a value that is carried along.
#[verifier::external_type_specification]
#[verifier::external_body]
pub struct ExMonotonicError(MonotonicError);

/// The identifier that a generator of the `ulid` crate handed out last; zero
/// for one that has handed out none.
pub uninterp spec fn last_issued(generator: Generator) -> u128;

/// `Generator::new`: a generator that has handed out nothing.
#[verifier::external_body]
fn fresh_generator() -> (generator: Generator)
    ensures
        last_issued(generator) == 0,
{
    Generator::new()
}

/// `Generator::generate_from_datetime`. Where the time of the instant is
/// not later than that of the last identifier, the crate hands out the
/// successor of that one, or fails when its random part is at its maximum
/// and leaves the generator as it was. For a later time it draws the random
/// part anew, so only the time of the result is known.
#[verifier::external_body]
fn generate_at(generator: &mut Generator, at: SystemTime) -> (issued: Result<u128, MonotonicError>)
    requires
        0 <= instant_millis(at) <= LAST_MILLIS,
    ensures
        match issued {
            Ok(id) => {
                &&& follows(last_issued(*old(generator)), instant_millis(at) as u64, id)
                &&& last_issued(*final(generator)) == id
            },
            Err(_) => {
                &&& exhausted(last_issued(*old(generator)), instant_millis(at) as u64)
                &&& last_issued(*final(generator)) == last_issued(*old(generator))
            },
        },
{
    generator.generate_from_datetime(at).map(|id| id.0)
}

/// Thirty-two to the power of `k`.
pub open spec fn pow32(k: nat) -> int
    decreases k,
{
    if k == 0 {
        1
    } else {
        32 * pow32((k - 1) as nat)
    }
}

/// The character that writes five bits worth `v`.
pub open spec fn crockford(v: int) -> char {
    "0123456789ABCDEFGHJKMNPQRSTVWXYZ"@[v]
}

/// The 26 characters that write an identifier, the highest five bits first.
pub open spec fn ulid_text(id: u128) -> Seq<char> {
    Seq::new(26, |i: int| crockford((id as int / pow32((25 - i) as nat)) % 32))
}

/// `Ulid::to_string` on the identifier with the number `id`: its 26
/// characters in Crockford's base 32.
#[verifier::external_body]
fn encode(id: u128) -> (text: String)
    ensures
        text@ == ulid_text(id),
{
    Ulid(id).to_string()
}

/// The source of the identifiers of one session. It hands out identifiers
/// that grow, and starts afresh where the next one would not fit.
pub struct IdGen {
    generator: Generator,
    issued: Ghost<Seq<u128>>,
    restarts: Ghost<nat>,
}

impl IdGen {
    /// The state hangs together: the generator stands where the record ends.
    pub closed spec fn wf(&self) -> bool {
        last_issued(self.generator) == last_of(self.issued@)
    }

    /// Every identifier handed out so far, in order.
    pub closed spec fn issued(&self) -> Seq<u128> {
        self.issued@
    }

    /// How often the generator has started afresh.
    pub closed spec fn restarts(&self) -> nat {
        self.restarts@
    }

    /// The identifier handed out last; zero where none was.
    pub open spec fn last(&self) -> u128 {
        last_of(self.issued())
    }

    pub fn new() -> (made: IdGen)
        ensures
            made.wf(),
            made.issued() == Seq::<u128>::empty(),
            made.restarts() == 0,
    {
        IdGen { generator: fresh_generator(), issued: Ghost(Seq::empty()), restarts: Ghost(0) }
    }

    /// The next identifier, for the time `at`.
    pub fn next_id(&mut self, at: Timestamp) -> (id: u128)
        requires
            old(self).wf(),
        ensures
            final(self).wf(),
            issued_after(old(self).last(), clamped_millis(at), id),
            final(self).issued() == old(self).issued().push(id),
            final(self).restarts() == old(self).restarts() + if exhausted(
                old(self).last(),
                clamped_millis(at),
            ) {
                1nat
            } else {
                0nat
            },
    {
        let instant = at.instant();
        match generate_at(&mut self.generator, instant) {
            Ok(id) => {
                proof {
                    self.issued@ = self.issued@.push(id);
                }
                id
            },
            Err(_) => {
                self.generator = fresh_generator();
                match generate_at(&mut self.generator, instant) {
                    Ok(id) => {
                        proof {
                            self.issued@ = self.issued@.push(id);
                            self.restarts@ = self.restarts@ + 1;
                        }
                        id
                    },
                    Err(_) => {
                        proof {
                            assert(ulid_random(0) == 0);
                        }
                        0
                    },
                }
            },
        }
    }
}

impl IdGen {
    /// The next identifier, for the time `at`, as text.
    pub fn next(&mut self, at: Timestamp) -> (key: String)
        requires
            old(self).wf(),
        ensures
            final(self).wf(),
            final(self).issued().len() == old(self).issued().len() + 1,
            final(self).issued() == old(self).issued().push(final(self).last()),
            key@ == ulid_text(final(self).last()),
            issued_after(old(self).last(), clamped_millis(at), final(self).last()),
            final(self).restarts() == old(self).restarts() + if exhausted(
                old(self).last(),
                clamped_millis(at),
            ) {
                1nat
            } else {
                0nat
            },
    {
        let id = self.next_id(at);
        encode(id)
    }
}

/// An identifier handed out without a fresh start, for a time that an
/// identifier can stand for, is greater than the one before it.
pub proof fn lemma_issued_grows(last: u128, millis: u64, id: u128)
    requires
        issued_after(last, millis, id),
        !exhausted(last, millis),
        millis <= LAST_MILLIS,
    ensures
        last < id,
{
    if millis <= ulid_millis(last) {
    } else {
        assert((millis as u128) % TIME_SPAN == millis);
        assert(id / RANDOM_SPAN > last / RANDOM_SPAN);
    }
}

/// The last element of a record of identifiers; zero for an empty one.
pub open spec fn last_of(issued: Seq<u128>) -> u128 {
    if issued.len() == 0 {
        0
    } else {
        issued.last()
    }
}

/// The order of texts as a dictionary has it: `a` comes before `b` where
/// the two agree up to a place at which `a` has the lesser character, or
/// where `b` goes on after the end of `a`.
pub open spec fn text_less(a: Seq<char>, b: Seq<char>) -> bool {
    ||| exists|k: int| #[trigger]
        differ_at(a, b, k)
    ||| (a.len() < b.len() && b.take(a.len() as int) == a)
}

/// The texts agree before the place `k`, and there `a` has the lesser
/// character.
pub open spec fn differ_at(a: Seq<char>, b: Seq<char>, k: int) -> bool {
    &&& 0 <= k < a.len()
    &&& k < b.len()
    &&& a.take(k) == b.take(k)
    &&& a[k] < b[k]
}

/// The number that the first `k` characters of the text of `id` write.
spec fn head(id: u128, k: nat) -> int {
    id as int / pow32((26 - k) as nat)
}

/// The five bits that the character at the place `k` writes.
spec fn digit(id: u128, k: int) -> int {
    (id as int / pow32((25 - k) as nat)) % 32
}

proof fn lemma_pow32_positive(k: nat)
    ensures
        pow32(k) > 0,
    decreases k,
{
    if k > 0 {
        lemma_pow32_positive((k - 1) as nat);
    }
}

proof fn lemma_head_step(id: u128, k: nat)
    requires
        k < 26,
    ensures
        head(id, k + 1) == 32 * head(id, k) + digit(id, k as int),
        0 <= digit(id, k as int) < 32,
{
    let unit = pow32((25 - k) as nat);
    lemma_pow32_positive((25 - k) as nat);
    assert(pow32((26 - k) as nat) == 32 * unit);
    lemma_div_denominator(id as int, unit, 32);
    assert(unit * 32 == 32 * unit);
}

proof fn lemma_head_of_nothing(id: u128)
    ensures
        head(id, 0) == 0,
{
    reveal_with_fuel(pow32, 27);
    assert(pow32(26) == 0x4_0000_0000_0000_0000_0000_0000_0000_0000int);
    assert(id < 0x4_0000_0000_0000_0000_0000_0000_0000_0000int);
    vstd::arithmetic::div_mod::lemma_basic_div(id as int, pow32(26));
}

proof fn lemma_head_of_all(id: u128)
    ensures
        head(id, 26) == id,
{
}

/// The characters of Crockford's base 32 come in the order of what they
/// write.
proof fn lemma_crockford_grows(v: int, w: int)
    requires
        0 <= v < w < 32,
    ensures
        crockford(v) < crockford(w),
{
    reveal_strlit("0123456789ABCDEFGHJKMNPQRSTVWXYZ");
    let abc = "0123456789ABCDEFGHJKMNPQRSTVWXYZ"@;
    assert(abc[0] < abc[1] < abc[2] < abc[3] < abc[4] < abc[5] < abc[6] < abc[7]);
    assert(abc[7] < abc[8] < abc[9] < abc[10] < abc[11] < abc[12] < abc[13] < abc[14] < abc[15]);
    assert(abc[15] < abc[16] < abc[17] < abc[18] < abc[19] < abc[20] < abc[21] < abc[22] < abc[23]);
    assert(abc[23] < abc[24] < abc[25] < abc[26] < abc[27] < abc[28] < abc[29] < abc[30] < abc[31]);
}

proof fn lemma_texts_differ(a: u128, b: u128, k: nat)
    requires
        a < b,
        k <= 26,
        head(a, k) == head(b, k),
        forall|j: int| 0 <= j < k ==> digit(a, j) == digit(b, j),
    ensures
        text_less(ulid_text(a), ulid_text(b)),
    decreases 26 - k,
{
    if k == 26 {
        lemma_head_of_all(a);
        lemma_head_of_all(b);
    } else {
        lemma_head_step(a, k);
        lemma_head_step(b, k);
        if digit(a, k as int) == digit(b, k as int) {
            lemma_texts_differ(a, b, k + 1);
        } else {
            lemma_pow32_positive((25 - k) as nat);
            lemma_div_is_ordered(a as int, b as int, pow32((25 - k) as nat));
            assert(head(a, k + 1) <= head(b, k + 1));
            lemma_crockford_grows(digit(a, k as int), digit(b, k as int));
            let ta = ulid_text(a);
            let tb = ulid_text(b);
            assert(ta.take(k as int) == tb.take(k as int)) by {
                assert forall|j: int| 0 <= j < k implies ta[j] == tb[j] by {
                    assert(digit(a, j) == digit(b, j));
                }
            }
            assert(differ_at(ta, tb, k as int));
        }
    }
}

/// The texts of identifiers come in the order of the identifiers.
pub proof fn lemma_text_order(a: u128, b: u128)
    requires
        a < b,
    ensures
        text_less(ulid_text(a), ulid_text(b)),
{
    lemma_head_of_nothing(a);
    lemma_head_of_nothing(b);
    lemma_texts_differ(a, b, 0);
}

} // verus!
