//! The repeat buffer: whole repetitions of `message + "\n"`, built once
//! before the writer loop starts and written verbatim on every iteration.

use vstd::prelude::*;
use vstd::string::StringSliceAdditionalSpecFns;

verus! {

/// One repetition as it lands in the buffer: the message bytes followed by
/// a single newline byte.
pub open spec fn line(msg: Seq<u8>) -> Seq<u8> {
    msg.push(10u8)
}

/// `k` repetitions of the message-plus-newline line, in order.
pub open spec fn repetitions(msg: Seq<u8>, k: nat) -> Seq<u8>
    decreases k,
{
    if k == 0 {
        Seq::empty()
    } else {
        repetitions(msg, (k - 1) as nat) + line(msg)
    }
}

/// The buffer made of `k` repetitions is exactly `k * (len(message) + 1)`
/// bytes long.
pub proof fn lemma_repetitions_len(msg: Seq<u8>, k: nat)
    ensures
        repetitions(msg, k).len() == k * (msg.len() + 1),
    decreases k,
{
    if k > 0 {
        lemma_repetitions_len(msg, (k - 1) as nat);
        assert((k - 1) * (msg.len() + 1) + (msg.len() + 1) == k * (msg.len() + 1))
            by (nonlinear_arith);
    }
}

/// Appends one repetition (the message bytes, then a newline) to `buf`.
fn push_line(buf: &mut Vec<u8>, msg: &[u8])
    ensures
        final(buf)@ == old(buf)@ + line(msg@),
{
    let n = msg.len();
    let mut i: usize = 0;
    while i < n
        invariant
            i <= n,
            n == msg@.len(),
            buf@ == old(buf)@ + msg@.take(i as int),
        decreases n - i,
    {
        let b = *vstd::slice::slice_index_get(msg, i);
        buf.push(b);
        proof {
            assert(old(buf)@ + msg@.take(i as int) + seq![msg@[i as int]] =~= old(buf)@
                + msg@.take(i + 1));
        }
        i = i + 1;
    }
    buf.push(10u8);
    proof {
        assert(msg@.take(n as int) =~= msg@);
        assert(old(buf)@ + msg@ + seq![10u8] =~= old(buf)@ + line(msg@));
    }
}

/// Appends whole repetitions of `s + "\n"` to `buf` until at least
/// `per_write` bytes have been added, never truncating a repetition and
/// always appending at least one (a target of zero, or smaller than one
/// repetition, still yields one full repetition).
pub fn fill_big_buffer(buf: &mut Vec<u8>, s: &str, per_write: usize)
    requires
        per_write + s.spec_bytes().len() + 1 <= usize::MAX,
    ensures
        final(buf)@.len() >= old(buf)@.len() + per_write,
        (final(buf)@.len() - old(buf)@.len()) % (s.spec_bytes().len() + 1) as int == 0,
        exists|k: int|
            1 <= k && final(buf)@ == old(buf)@ + #[trigger] repetitions(s.spec_bytes(), k as nat)
                && k * (
            s.spec_bytes().len() + 1) >= per_write && (k == 1 || (k - 1) * (s.spec_bytes().len()
                + 1) < per_write),
{
    let msg = s.as_bytes();
    let unit: usize = msg.len() + 1;
    let mut bytes_in_buf: usize = unit;
    push_line(buf, msg);
    let ghost mut k: int = 1;
    proof {
        assert(repetitions(msg@, 0) == Seq::<u8>::empty());
        assert(repetitions(msg@, 1) == repetitions(msg@, 0) + line(msg@));
        assert(Seq::<u8>::empty() + line(msg@) =~= line(msg@));
    }
    while bytes_in_buf < per_write
        invariant
            1 <= k,
            msg@ == s.spec_bytes(),
            unit == msg@.len() + 1,
            per_write + unit <= usize::MAX,
            bytes_in_buf == k * unit,
            buf@ == old(buf)@ + repetitions(msg@, k as nat),
            k == 1 || (k - 1) * unit < per_write,
        decreases per_write + unit - bytes_in_buf,
    {
        push_line(buf, msg);
        proof {
            assert(k * unit + unit == (k + 1) * unit) by (nonlinear_arith);
            assert(old(buf)@ + repetitions(msg@, k as nat) + line(msg@) =~= old(buf)@
                + repetitions(msg@, (k + 1) as nat));
            k = k + 1;
        }
        bytes_in_buf = bytes_in_buf + unit;
    }
    proof {
        lemma_repetitions_len(msg@, k as nat);
        vstd::arithmetic::div_mod::lemma_mod_multiples_basic(k, unit as int);
        assert(1 <= k && buf@ == old(buf)@ + repetitions(s.spec_bytes(), k as nat) && k * (
        s.spec_bytes().len() + 1) >= per_write && (k == 1 || (k - 1) * (s.spec_bytes().len() + 1)
            < per_write));
    }
}

} // verus!
