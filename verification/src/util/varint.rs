//! Varints in the Postcard/LEB128 format.
//!
//! Each byte carries seven bits of the value, least significant group first.
//! The most significant bit of a byte is set when more bytes follow.
use crate::error::{ErrorKind, IoCause, IoError};
use crate::util::frame_buf::{is_partly_written, ByteSink};
use vstd::arithmetic::power2::{lemma2_to64, lemma2_to64_rest, lemma_pow2_adds, lemma_pow2_strictly_increases, pow2};
use vstd::bits::lemma_u64_shl_is_mul;
use vstd::prelude::*;

verus! {

/// The most bytes that a varint for a `u64` may take.
pub const MAX_VARINT_LEN: usize = 10;

/// Whether more bytes follow this one.
pub open spec fn is_continuation(byte: u8) -> bool {
    byte >= 128
}

/// The number of continuation bytes that `bytes` starts with.
pub open spec fn leading_continuations(bytes: Seq<u8>) -> nat
    decreases bytes.len(),
{
    if bytes.len() == 0 || !is_continuation(bytes[0]) {
        0
    } else {
        1 + leading_continuations(bytes.drop_first())
    }
}

/// The number that the seven-bit groups of `bytes` stand for.
pub open spec fn groups_value(bytes: Seq<u8>) -> nat
    decreases bytes.len(),
{
    if bytes.len() == 0 {
        0
    } else {
        (bytes[0] % 128) as nat + 128 * groups_value(bytes.drop_first())
    }
}

/// The varint for `value`: its seven-bit groups, without leading zero groups.
pub open spec fn varint_bytes(value: nat) -> Seq<u8>
    decreases value,
{
    if value < 128 {
        seq![value as u8]
    } else {
        seq![(128 + value % 128) as u8] + varint_bytes(value / 128)
    }
}

/// What reading a varint from a source that holds exactly `bytes` gives.
pub open spec fn varint_read(bytes: Seq<u8>) -> Result<Option<u64>, IoError> {
    let n = leading_continuations(bytes);
    if bytes.len() == 0 {
        Ok(None)
    } else if n >= MAX_VARINT_LEN {
        Err(IoError { kind: ErrorKind::InvalidData, cause: IoCause::VarintTooLarge })
    } else if n == bytes.len() {
        Err(IoError { kind: ErrorKind::UnexpectedEof, cause: IoCause::Kind })
    } else {
        Ok(Some((groups_value(bytes.take(n as int + 1)) % 0x1_0000_0000_0000_0000) as u64))
    }
}

/// How many bytes of the source `bytes` reading a varint takes.
pub open spec fn varint_consumed(bytes: Seq<u8>) -> nat {
    let n = leading_continuations(bytes);
    if n >= MAX_VARINT_LEN {
        MAX_VARINT_LEN as nat
    } else if n == bytes.len() {
        n
    } else {
        n + 1
    }
}

/// What reading a varint gives when the source fails with `error` after the continuation bytes
/// `taken`: the end of the source before the first byte is not an error.
pub open spec fn varint_failed(taken: Seq<u8>, error: IoError) -> Result<Option<u64>, IoError> {
    if taken.len() == 0 && error.kind == ErrorKind::UnexpectedEof {
        Ok(None)
    } else {
        Err(error)
    }
}

/// What a step of reading a varint asks for.
#[derive(Debug)]
pub enum VarintStep {
    /// One more byte of the source.
    ReadByte,
    /// Nothing: this is the result.
    Done(Result<Option<u64>, IoError>),
}

/// Reads a varint from a source that hands out one byte at a time.
///
/// The value of the bytes so far is all that is kept, so a reader works the
/// same over a slice and over a stream.
pub struct VarintReader {
    result: u64,
    shift: u32,
    taken: Ghost<Seq<u8>>,
}

impl View for VarintReader {
    type V = Seq<u8>;

    /// The bytes that were taken so far, all of them continuation bytes.
    closed spec fn view(&self) -> Seq<u8> {
        self.taken@
    }
}

impl VarintReader {
    #[verifier::type_invariant]
    spec fn holds_taken(self) -> bool {
        &&& self.taken@.len() < MAX_VARINT_LEN
        &&& self.shift == 7 * self.taken@.len()
        &&& self.result == groups_value(self.taken@)
        &&& leading_continuations(self.taken@) == self.taken@.len()
    }

    /// The reader before the first byte.
    pub fn new() -> (r: Self)
        ensures
            r@ == Seq::<u8>::empty(),
    {
        VarintReader { result: 0, shift: 0, taken: Ghost(Seq::empty()) }
    }

    /// Takes what the source gave for the byte that was asked for.
    pub fn on_byte(&mut self, res: Result<u8, IoError>) -> (step: VarintStep)
        ensures
            match res {
                Ok(byte) => {
                    let taken = old(self)@.push(byte);
                    &&& step is ReadByte <==> is_continuation(byte) && taken.len() < MAX_VARINT_LEN
                    &&& step is ReadByte ==> final(self)@ == taken
                    &&& step matches VarintStep::Done(r) ==> r == varint_read(taken)
                },
                Err(e) => step == VarintStep::Done(varint_failed(old(self)@, e)),
            },
    {
        proof {
            use_type_invariant(&*self);
        }
        match res {
            Err(cause) => {
                if self.shift == 0 && cause.kind == ErrorKind::UnexpectedEof {
                    VarintStep::Done(Ok(None))
                } else {
                    VarintStep::Done(Err(cause))
                }
            },
            Ok(byte) => {
                let value: u64 = (byte & 0x7F) as u64;
                let result: u64 = self.result | (value << self.shift);
                let ghost taken = self.taken@;
                proof {
                    assert(byte & 0x7F == byte % 128) by (bit_vector);
                    assert(byte & 0x80 == 0 <==> byte < 128) by (bit_vector);
                    lemma_push(taken, byte);
                    lemma_leading_push(taken, byte);
                    lemma_merge(self.result, value, self.shift as u64, taken.len());
                    assert(taken.push(byte).take(taken.len() as int + 1) =~= taken.push(byte));
                }
                if byte & 0x80 == 0 {
                    return VarintStep::Done(Ok(Some(result)));
                }
                let shift: u32 = self.shift + 7;
                if shift >= 64 {
                    return VarintStep::Done(
                        Err(IoError { kind: ErrorKind::InvalidData, cause: IoCause::VarintTooLarge }),
                    );
                }
                *self = VarintReader { result, shift, taken: Ghost(taken.push(byte)) };
                VarintStep::ReadByte
            },
        }
    }
}

/// Reads a varint from the start of `source`.
///
/// Returns the value, or `None` if the source is at its end, and the number of
/// bytes that were read.
pub fn read_varint_u64(source: &[u8]) -> (r: (Result<Option<u64>, IoError>, usize))
    ensures
        r.0 == varint_read(source@),
        r.1 == varint_consumed(source@),
{
    let mut reader = VarintReader::new();
    let mut i: usize = 0;
    assert(source@.take(0) =~= Seq::<u8>::empty());
    loop
        invariant
            i <= source.len(),
            i < MAX_VARINT_LEN,
            reader@ == source@.take(i as int),
            leading_continuations(source@.take(i as int)) == i,
        decreases source.len() - i,
    {
        proof {
            lemma_leading_split(source@, i as nat);
        }
        if i == source.len() {
            assert(source@.take(i as int) =~= source@);
            return match reader.on_byte(Err(IoError::of_kind(ErrorKind::UnexpectedEof))) {
                VarintStep::Done(r) => (r, i),
                VarintStep::ReadByte => (Ok(None), i),
            };
        }
        let byte = source[i];
        proof {
            let taken = source@.take(i as int);
            assert(taken.push(byte) =~= source@.take(i + 1));
            lemma_leading_push(taken, byte);
            lemma_leading_split(source@, (i + 1) as nat);
            assert(source@.take(i + 1).take(i + 1) =~= source@.take(i + 1));
        }
        let step = reader.on_byte(Ok(byte));
        i = i + 1;
        match step {
            VarintStep::Done(r) => {
                return (r, i);
            },
            VarintStep::ReadByte => {},
        }
    }
}

/// Writes the varint for `value`.
///
/// Returns the number of bytes that were written, or the error of the writer.
pub fn write_varint_u64_sync<W: ByteSink>(writer: &mut W, value: u64) -> (r: Result<usize, IoError>)
    requires
        old(writer).written().len() + varint_bytes(value as nat).len() <= W::max_written(),
    ensures
        match r {
            Ok(n) => {
                &&& n == varint_bytes(value as nat).len()
                &&& final(writer).written() == old(writer).written() + varint_bytes(value as nat)
                &&& final(writer).failure() == old(writer).failure()
            },
            Err(e) => {
                &&& is_partly_written(
                    old(writer).written(),
                    varint_bytes(value as nat),
                    final(writer).written(),
                )
                &&& final(writer).failure() == Some(e)
            },
        },
{
    let ghost whole = varint_bytes(value as nat);
    proof {
        law_varint_len(value);
    }
    // Zero takes one byte too.
    if value == 0 {
        let zero: [u8; 1] = [0];
        assert(zero@ =~= whole);
        writer.write_all(&zero)?;
        return Ok(1);
    }
    let mut bytes_written: usize = 0;
    let mut remaining = value;
    assert(whole.skip(0) =~= whole);
    assert(writer.written() =~= old(writer).written() + whole.take(0));
    while remaining > 0
        invariant
            whole == varint_bytes(value as nat),
            whole.len() <= MAX_VARINT_LEN,
            old(writer).written().len() + whole.len() <= W::max_written(),
            bytes_written <= whole.len(),
            remaining > 0 ==> whole.skip(bytes_written as int) == varint_bytes(remaining as nat),
            remaining == 0 ==> bytes_written == whole.len(),
            writer.written() == old(writer).written() + whole.take(bytes_written as int),
            writer.failure() == old(writer).failure(),
        decreases remaining,
    {
        let mut byte: u8 = (remaining & 0x7F) as u8;
        let ghost before = remaining;
        remaining = remaining >> 7;
        proof {
            assert(before & 0x7F == before % 128) by (bit_vector);
            assert(before >> 7 == before / 128) by (bit_vector);
            assert(byte < 128 ==> byte | 0x80 == 128 + byte) by (bit_vector);
        }
        if remaining > 0 {
            byte = byte | 0x80;
        }
        let next: [u8; 1] = [byte];
        proof {
            let rest = varint_bytes(before as nat);
            assert(rest[0] == byte);
            assert(rest.len() >= 1);
            assert(whole.skip(bytes_written as int)[0] == whole[bytes_written as int]);
            assert(whole.take(bytes_written + 1) =~= whole.take(bytes_written as int) + next@);
            if remaining > 0 {
                assert(varint_bytes(remaining as nat) =~= rest.skip(1));
                assert(whole.skip(bytes_written as int).skip(1) =~= whole.skip(bytes_written + 1));
            }
        }
        let ghost sofar = writer.written();
        match writer.write_all(&next) {
            Ok(()) => {},
            Err(e) => {
                proof {
                    let n = writer.written().len() - sofar.len();
                    assert(whole.take(bytes_written + n) =~= whole.take(bytes_written as int)
                        + next@.take(n));
                    assert(writer.written() =~= old(writer).written() + whole.take(
                        bytes_written + n,
                    ));
                }
                return Err(e);
            },
        }
        bytes_written = bytes_written + 1;
        assert(writer.written() =~= old(writer).written() + whole.take(bytes_written as int));
    }
    assert(whole.take(bytes_written as int) =~= whole);
    Ok(bytes_written)
}

/// What was written as a varint reads back as the value, and the read takes exactly the bytes of
/// the varint, whatever follows them.
pub proof fn law_varint_round_trip(value: u64, rest: Seq<u8>)
    ensures
        varint_read(varint_bytes(value as nat) + rest) == Ok::<_, IoError>(Some(value)),
        varint_consumed(varint_bytes(value as nat) + rest) == varint_bytes(value as nat).len(),
{
    let bytes = varint_bytes(value as nat);
    law_varint_len(value);
    lemma_varint_shape(value as nat, rest);
    assert((bytes + rest).take(bytes.len() as int) =~= bytes);
}

/// A varint takes at least one byte and at most [`MAX_VARINT_LEN`]: one byte for each seven bits
/// of the value that has begun.
pub proof fn law_varint_len(value: u64)
    ensures
        1 <= varint_bytes(value as nat).len() <= MAX_VARINT_LEN,
        forall|k: nat|
            1 <= k ==> (varint_bytes(value as nat).len() <= k <==> value < #[trigger] pow2(7 * k)),
{
    assert forall|k: nat| 1 <= k implies (varint_bytes(value as nat).len() <= k <==> value
        < #[trigger] pow2(7 * k)) by {
        lemma_varint_len(value as nat, k);
    }
    lemma2_to64_rest();
    lemma_pow2_strictly_increases(64, 70);
    lemma_varint_len(value as nat, 10);
    lemma_varint_nonempty(value as nat);
}

/// No varint is a proper prefix of another one.
pub proof fn law_varint_prefix_free(a: u64, b: u64, rest: Seq<u8>)
    requires
        varint_bytes(a as nat) + rest == varint_bytes(b as nat),
    ensures
        a == b,
        rest.len() == 0,
{
    law_varint_round_trip(a, rest);
    law_varint_round_trip(b, Seq::empty());
    assert(varint_bytes(b as nat) + Seq::<u8>::empty() =~= varint_bytes(b as nat));
}

proof fn lemma_varint_nonempty(value: nat)
    ensures
        varint_bytes(value).len() >= 1,
{
}

proof fn lemma_varint_len(value: nat, k: nat)
    requires
        1 <= k,
    ensures
        varint_bytes(value).len() <= k <==> value < pow2(7 * k),
    decreases value,
{
    lemma2_to64();
    assert(pow2(7) == 128);
    if k > 1 {
        lemma_pow2_adds(7, (7 * (k - 1)) as nat);
        lemma_pow2_strictly_increases(0, (7 * (k - 1)) as nat);
    }
    if value < 128 {
        if k > 1 {
            lemma_pow2_strictly_increases(7, 7 * k);
        }
    } else {
        lemma_varint_nonempty(value / 128);
        if k > 1 {
            lemma_varint_len(value / 128, (k - 1) as nat);
            let p = pow2((7 * (k - 1)) as nat);
            assert(value / 128 < p <==> value < 128 * p);
        }
    }
}

proof fn lemma_varint_shape(value: nat, rest: Seq<u8>)
    ensures
        leading_continuations(varint_bytes(value) + rest) == varint_bytes(value).len() - 1,
        groups_value(varint_bytes(value)) == value,
    decreases value,
{
    let bytes = varint_bytes(value);
    if value < 128 {
        assert(groups_value(bytes.drop_first()) == 0);
    } else {
        let tail = varint_bytes(value / 128);
        lemma_varint_shape(value / 128, rest);
        assert(bytes.drop_first() =~= tail);
        assert((bytes + rest).drop_first() =~= tail + rest);
        assert(bytes[0] == 128 + value % 128);
        assert((bytes + rest)[0] == bytes[0]);
    }
}

proof fn lemma_push(taken: Seq<u8>, byte: u8)
    ensures
        groups_value(taken.push(byte)) == groups_value(taken) + pow2(7 * taken.len()) * (byte % 128),
        groups_value(taken) < pow2(7 * taken.len()),
    decreases taken.len(),
{
    lemma2_to64();
    if taken.len() == 0 {
        assert(taken.push(byte).drop_first() =~= Seq::<u8>::empty());
        assert(groups_value(Seq::<u8>::empty()) == 0);
        assert(pow2(7 * taken.len()) == 1);
        assert(1 * (byte % 128) == byte % 128);
    } else {
        let rest = taken.drop_first();
        lemma_push(rest, byte);
        assert(taken.push(byte).drop_first() =~= rest.push(byte));
        lemma_pow2_adds(7, 7 * rest.len());
        assert(7 + 7 * rest.len() == 7 * taken.len());
        let p = pow2(7 * rest.len());
        let b = (byte % 128) as nat;
        assert(pow2(7 * taken.len()) == 128 * p) by {
            assert(pow2(7) == 128);
        }
        assert(128 * (p * b) == (128 * p) * b) by (nonlinear_arith);
        assert(taken.push(byte)[0] == taken[0]);
        assert(128 * (groups_value(rest) + p * b) == 128 * groups_value(rest) + 128 * (p * b));
    }
}

proof fn lemma_leading_push(taken: Seq<u8>, byte: u8)
    requires
        leading_continuations(taken) == taken.len(),
    ensures
        leading_continuations(taken.push(byte)) == if is_continuation(byte) {
            taken.len() + 1
        } else {
            taken.len()
        },
    decreases taken.len(),
{
    if taken.len() == 0 {
        assert(taken.push(byte).drop_first() =~= Seq::<u8>::empty());
        assert(leading_continuations(Seq::<u8>::empty()) == 0);
    } else {
        assert(taken.push(byte)[0] == taken[0]);
        lemma_leading_len(taken.drop_first());
        lemma_leading_push(taken.drop_first(), byte);
        assert(taken.push(byte).drop_first() =~= taken.drop_first().push(byte));
    }
}

/// A read takes no more bytes than there are.
pub proof fn lemma_consumed_len(bytes: Seq<u8>)
    ensures
        varint_consumed(bytes) <= bytes.len(),
{
    lemma_leading_len(bytes);
}

proof fn lemma_leading_len(bytes: Seq<u8>)
    ensures
        leading_continuations(bytes) <= bytes.len(),
    decreases bytes.len(),
{
    if bytes.len() != 0 {
        lemma_leading_len(bytes.drop_first());
    }
}

/// If the first `n` bytes are continuations, the count goes on from there.
proof fn lemma_leading_split(bytes: Seq<u8>, n: nat)
    requires
        n <= bytes.len(),
    ensures
        leading_continuations(bytes.take(n as int)) == n ==> leading_continuations(bytes) == n
            + leading_continuations(bytes.skip(n as int)),
        leading_continuations(bytes.take(n as int)) < n ==> leading_continuations(bytes)
            == leading_continuations(bytes.take(n as int)),
        leading_continuations(bytes.take(n as int)) <= n,
    decreases n,
{
    if n == 0 {
        assert(bytes.skip(0) =~= bytes);
    } else {
        let rest = bytes.drop_first();
        lemma_leading_split(rest, (n - 1) as nat);
        assert(bytes.take(n as int).drop_first() =~= rest.take(n - 1));
        assert(bytes.skip(n as int) =~= rest.skip(n - 1));
        assert(bytes.take(n as int)[0] == bytes[0]);
    }
}

/// Merging a group into the value so far by `|` and `<<` adds it, modulo 2^64.
proof fn lemma_merge(result: u64, value: u64, shift: u64, n: nat)
    requires
        n < MAX_VARINT_LEN,
        shift == 7 * n,
        value < 128,
        result < pow2(7 * n),
    ensures
        (result | (value << shift)) == (result + pow2(7 * n) * value) % 0x1_0000_0000_0000_0000,
        n < 9 ==> (result | (value << shift)) == result + pow2(7 * n) * value,
{
    lemma2_to64();
    lemma2_to64_rest();
    let p = pow2(7 * n);
    if n < 9 {
        if n < 8 {
            lemma_pow2_strictly_increases(7 * n, 56);
        }
        assert(value * p <= 127 * 0x100_0000_0000_0000) by (nonlinear_arith)
            requires
                value < 128,
                p <= 0x100_0000_0000_0000,
        ;
        lemma_u64_shl_is_mul(1, shift);
        lemma_u64_shl_is_mul(value, shift);
        assert((result | (value << shift)) == result + (value << shift)) by (bit_vector)
            requires
                shift < 64,
                result < 1u64 << shift,
        ;
        assert(value * p == p * value) by (nonlinear_arith);
    } else {
        assert(shift == 63);
        let low = value % 2;
        assert((result | (value << shift)) == result + low * 0x8000_0000_0000_0000) by (bit_vector)
            requires
                shift == 63,
                low == value % 2,
                result < 0x8000_0000_0000_0000u64,
        ;
        let high = value / 2;
        assert(value == 2 * high + low);
        assert(result + 0x8000_0000_0000_0000 * value == (result + low * 0x8000_0000_0000_0000)
            + 0x1_0000_0000_0000_0000 * high);
        assert((result + 0x8000_0000_0000_0000 * value) % 0x1_0000_0000_0000_0000 == result + low
            * 0x8000_0000_0000_0000);
    }
}

/// Reading a varint that was cut off gives an error, unless nothing of it is left.
pub proof fn law_cut_varint(value: u64, n: int)
    requires
        0 <= n < varint_bytes(value as nat).len(),
    ensures
        varint_read(varint_bytes(value as nat).take(n)) == if n == 0 {
            Ok::<Option<u64>, IoError>(None)
        } else {
            Err(IoError { kind: ErrorKind::UnexpectedEof, cause: IoCause::Kind })
        },
{
    law_varint_len(value);
    lemma_varint_shape(value as nat, Seq::empty());
    let bytes = varint_bytes(value as nat);
    assert(bytes + Seq::<u8>::empty() =~= bytes);
    lemma_leading_split(bytes, n as nat);
}

/// Only a source without a byte is at its end. Everything else gives a value or an error.
pub proof fn law_only_an_empty_source_has_no_varint(bytes: Seq<u8>)
    ensures
        varint_read(bytes) == Ok::<Option<u64>, IoError>(None) <==> bytes.len() == 0,
        varint_consumed(bytes) <= bytes.len(),
        bytes.len() > 0 ==> varint_consumed(bytes) > 0,
{
    lemma_leading_len(bytes);
}

/// A byte without the continuation bit is a varint of its own. A byte with it adds its seven bits
/// below the varint that follows. A varint that does not end within ten bytes is too large.
pub proof fn law_varint_by_bytes(byte: u8, rest: Seq<u8>)
    ensures
        byte < 128 ==> {
            &&& varint_read(seq![byte] + rest) == Ok::<_, IoError>(Some(byte as u64))
            &&& varint_consumed(seq![byte] + rest) == 1
        },
        byte >= 128 && varint_consumed(rest) < 10 ==> {
            &&& varint_consumed(seq![byte] + rest) == 1 + varint_consumed(rest)
            &&& match varint_read(rest) {
                Ok(Some(value)) => varint_read(seq![byte] + rest) == Ok::<_, IoError>(
                    Some(((byte - 128 + 128 * value) % 0x1_0000_0000_0000_0000) as u64),
                ),
                Ok(None) | Err(_) => varint_read(seq![byte] + rest) == Err::<Option<u64>, _>(
                    IoError {
                        kind: ErrorKind::UnexpectedEof,
                        cause: IoCause::Kind,
                    },
                ) || varint_consumed(rest) == 9,
            }
        },
        (rest.len() >= 9 && byte >= 128 && forall|i: int| 0 <= i < 9 ==> rest[i] >= 128) ==> {
            &&& varint_read(seq![byte] + rest) == Err::<Option<u64>, _>(
                IoError { kind: ErrorKind::InvalidData, cause: IoCause::VarintTooLarge },
            )
            &&& varint_consumed(seq![byte] + rest) == 10
        },
{
    let bytes = seq![byte] + rest;
    assert(bytes.drop_first() =~= rest);
    lemma_leading_len(rest);
    if byte < 128 {
        assert(bytes.take(1) =~= seq![byte]);
        assert(seq![byte].drop_first() =~= Seq::<u8>::empty());
        assert(groups_value(Seq::<u8>::empty()) == 0);
        assert(groups_value(seq![byte]) == byte);
    } else {
        let n = leading_continuations(rest) as int;
        if n + 1 < MAX_VARINT_LEN && n < rest.len() {
            let whole = bytes.take(n + 2);
            assert(whole.drop_first() =~= rest.take(n + 1));
            let g = groups_value(rest.take(n + 1));
            assert(groups_value(whole) == byte - 128 + 128 * g);
            let m = 0x1_0000_0000_0000_0000int;
            let v = g as int % m;
            assert(g == m * (g as int / m) + v);
            let k = 128 * (g as int / m);
            assert(byte - 128 + 128 * g == (byte - 128 + 128 * v) + m * k);
            vstd::arithmetic::div_mod::lemma_mod_multiples_vanish(k, byte - 128 + 128 * v, m);
        }
        if rest.len() >= 9 && forall|i: int| 0 <= i < 9 ==> rest[i] >= 128 {
            lemma_all_continuations(rest, 9);
        }
    }
}

proof fn lemma_all_continuations(bytes: Seq<u8>, n: nat)
    requires
        n <= bytes.len(),
        forall|i: int| 0 <= i < n ==> bytes[i] >= 128,
    ensures
        leading_continuations(bytes) >= n,
    decreases n,
{
    if n > 0 {
        let rest = bytes.drop_first();
        assert forall|i: int| 0 <= i < n - 1 implies rest[i] >= 128 by {
            assert(rest[i] == bytes[i + 1]);
        }
        lemma_all_continuations(rest, (n - 1) as nat);
    }
}

/// An error of the source is reported as it is, but for the end of the source before the first byte
/// of a varint.
pub proof fn law_source_errors_are_reported(taken: Seq<u8>, error: IoError)
    ensures
        taken.len() > 0 || error.kind != ErrorKind::UnexpectedEof ==> varint_failed(taken, error)
            == Err::<Option<u64>, _>(error),
        taken.len() == 0 && error.kind == ErrorKind::UnexpectedEof ==> varint_failed(taken, error)
            == Ok::<Option<u64>, IoError>(None),
{
}

/// What a varint is read as does not depend on what comes after it.
pub proof fn lemma_read_ignores_rest(bytes: Seq<u8>, more: Seq<u8>)
    requires
        varint_read(bytes) matches Ok(Some(_)),
    ensures
        varint_read(bytes + more) == varint_read(bytes),
        varint_consumed(bytes + more) == varint_consumed(bytes),
{
    let n = leading_continuations(bytes) as int;
    lemma_leading_len(bytes);
    lemma_leading_split(bytes + more, bytes.len());
    assert((bytes + more).take(bytes.len() as int) =~= bytes);
    assert((bytes + more).take(n + 1) =~= bytes.take(n + 1));
}

} // verus!
