//! ICMP echo packets: construction, checksum and reply validation.
use vstd::arithmetic::div_mod::{
    lemma_add_mod_noop_right, lemma_fundamental_div_mod, lemma_mod_multiples_vanish,
    lemma_small_mod,
};
use crate::ping_error::{PingError, ReplyFault};
use vstd::prelude::*;
use vstd::slice::slice_to_vec;

verus! {

/// Big-endian 16-bit word number `k` of `buf`; a missing trailing byte counts as zero.
pub open spec fn word_at(buf: Seq<u8>, k: int) -> nat {
    let hi = buf[2 * k] as nat;
    let lo: nat = if 2 * k + 1 < buf.len() { buf[2 * k + 1] as nat } else { 0 };
    hi * 256 + lo
}

/// Number of 16-bit words in `buf`, counting an odd trailing byte as a word.
pub open spec fn num_words(buf: Seq<u8>) -> nat {
    ((buf.len() + 1) / 2) as nat
}

/// Sum of the first `k` words of `buf`.
pub open spec fn words_sum(buf: Seq<u8>, k: nat) -> nat
    decreases k,
{
    if k == 0 {
        0
    } else {
        words_sum(buf, (k - 1) as nat) + word_at(buf, k - 1)
    }
}

/// Sum of all words of `buf`.
pub open spec fn ones_sum(buf: Seq<u8>) -> nat {
    words_sum(buf, num_words(buf))
}

/// Adds the carries above bit 16 back into the low 16 bits until none remain.
pub open spec fn fold_carries(x: nat) -> nat
    decreases x,
{
    if x < 0x10000 {
        x
    } else {
        fold_carries(fold_step(x))
    }
}

/// One folding step: low 16 bits plus the carries.
pub open spec fn fold_step(x: nat) -> nat {
    x % 0x10000 + x / 0x10000
}

/// RFC 1071 checksum of `buf` as computed with a 32-bit accumulator:
/// the word sum modulo 2^32, folded, then complemented.
pub open spec fn checksum_of(buf: Seq<u8>) -> u16 {
    (0xffff - fold_carries(ones_sum(buf) % 0x1_0000_0000)) as u16
}

/// Folding keeps the value modulo 0xffff, stays below 2^16, and maps only zero to zero.
proof fn lemma_fold_carries(x: nat)
    ensures
        fold_carries(x) < 0x10000,
        fold_carries(x) % 0xffff == x % 0xffff,
        x > 0 ==> fold_carries(x) > 0,
    decreases x,
{
    if x >= 0x10000 {
        let q = x / 0x10000;
        let r = x % 0x10000;
        lemma_fundamental_div_mod(x as int, 0x10000);
        assert(x == 0xffff * q + (q + r));
        lemma_mod_multiples_vanish(q as int, (q + r) as int, 0xffff);
        lemma_fold_carries(fold_step(x));
    }
}

/// Adding the complement of the folded sum to an unwrapped sum folds to 0xffff.
proof fn lemma_fold_with_complement(x: nat)
    requires
        x + (0xffff - fold_carries(x)) < 0x1_0000_0000,
    ensures
        fold_carries((x + (0xffff - fold_carries(x))) as nat) == 0xffff,
{
    let f = fold_carries(x);
    lemma_fold_carries(x);
    let y = (x + (0xffff - f)) as nat;
    lemma_fold_carries(y);
    lemma_fundamental_div_mod(x as int, 0xffff);
    lemma_fundamental_div_mod(f as int, 0xffff);
    assert(y == 0xffff * (x / 0xffff - f / 0xffff + 1) + 0);
    lemma_mod_multiples_vanish((x / 0xffff - f / 0xffff + 1) as int, 0, 0xffff);
    assert(y % 0xffff == 0);
    let g = fold_carries(y);
    lemma_fundamental_div_mod(g as int, 0xffff);
    assert(g == 0xffff);
}

/// Computes the RFC 1071 checksum of `buf`: the big-endian 16-bit words are
/// summed (an odd trailing byte is padded with zero), the carries above bit 16
/// are folded back until none remain, and the result is complemented.
pub fn checksum_v4(buf: &[u8]) -> (r: u16)
    ensures
        r == checksum_of(buf@),
{
    let n = buf.len();
    let nw: usize = n / 2 + n % 2;
    let mut sum: u32 = 0;
    let mut k: usize = 0;
    while k < nw
        invariant
            n == buf@.len(),
            nw == num_words(buf@),
            k <= nw,
            sum as nat == words_sum(buf@, k as nat) % 0x1_0000_0000,
        decreases nw - k,
    {
        let i: usize = 2 * k;
        let hi = buf[i] as u32;
        let lo: u32 = if i + 1 < n {
            buf[i + 1] as u32
        } else {
            0
        };
        let word: u32 = hi * 256 + lo;
        assert(word as nat == word_at(buf@, k as int));
        proof {
            let total = words_sum(buf@, k as nat);
            lemma_add_mod_noop_right(word as int, total as int, 0x1_0000_0000);
            assert(words_sum(buf@, (k + 1) as nat) == total + word);
        }
        sum = sum.wrapping_add(word);
        k = k + 1;
    }
    while (sum >> 16u32) != 0
        invariant
            fold_carries(sum as nat) == fold_carries(ones_sum(buf@) % 0x1_0000_0000),
        decreases sum,
    {
        let s0 = sum;
        assert(s0 >> 16u32 == s0 / 0x10000 && s0 & 0xffff == s0 % 0x10000) by (bit_vector);
        sum = (sum & 0xffff) + (sum >> 16u32);
    }
    let s1 = sum;
    assert(s1 >> 16u32 == 0 ==> s1 < 0x10000) by (bit_vector);
    let folded = sum as u16;
    assert(!folded == 0xffff - folded) by (bit_vector);
    !folded
}

/// The two bytes of `v`, most significant first.
pub open spec fn be16(v: u16) -> Seq<u8> {
    seq![(v / 256) as u8, (v % 256) as u8]
}

/// `buf` with a zero byte appended when its length is odd.
pub open spec fn pad_even(buf: Seq<u8>) -> Seq<u8> {
    if buf.len() % 2 == 1 {
        buf.push(0u8)
    } else {
        buf
    }
}

/// An 8-byte ICMP echo header: type, code 0, checksum, identifier, sequence number.
pub open spec fn echo_header(kind: u8, checksum: u16, id: u16, seq: u16) -> Seq<u8> {
    seq![kind, 0u8] + be16(checksum) + be16(id) + be16(seq)
}

/// ICMPv4 type of an echo request.
pub const ICMP_V4_ECHO_REQUEST: u8 = 8;

/// ICMPv6 type of an echo request.
pub const ICMP_V6_ECHO_REQUEST: u8 = 128;

/// ICMPv4 echo request: its checksum is that of the header with a zero checksum field.
pub open spec fn echo_v4(id: u16, seq: u16) -> Seq<u8> {
    echo_header(
        ICMP_V4_ECHO_REQUEST,
        checksum_of(echo_header(ICMP_V4_ECHO_REQUEST, 0, id, seq)),
        id,
        seq,
    )
}

/// ICMPv6 echo request: the checksum field is left zero for the network stack to fill.
pub open spec fn echo_v6(id: u16, seq: u16) -> Seq<u8> {
    echo_header(ICMP_V6_ECHO_REQUEST, 0, id, seq)
}

/// Sums of sequences whose first `k` words agree are equal.
proof fn lemma_words_sum_agree(a: Seq<u8>, b: Seq<u8>, k: nat)
    requires
        2 * k <= a.len() + 1,
        2 * k <= b.len() + 1,
        forall|j: int| 0 <= j < k ==> word_at(a, j) == word_at(b, j),
    ensures
        words_sum(a, k) == words_sum(b, k),
    decreases k,
{
    if k > 0 {
        lemma_words_sum_agree(a, b, (k - 1) as nat);
    }
}

/// The word sum of an echo header is the sum of its four words.
proof fn lemma_echo_header_sum(kind: u8, checksum: u16, id: u16, seq: u16)
    ensures
        ones_sum(echo_header(kind, checksum, id, seq)) == kind as nat * 256 + checksum as nat
            + id as nat + seq as nat,
{
    let h = echo_header(kind, checksum, id, seq);
    assert(h.len() == 8);
    assert(num_words(h) == 4);
    assert(word_at(h, 1) == checksum as nat);
    assert(word_at(h, 2) == id as nat);
    assert(word_at(h, 3) == seq as nat);
    assert(words_sum(h, 4) == words_sum(h, 3) + word_at(h, 3));
    assert(words_sum(h, 3) == words_sum(h, 2) + word_at(h, 2));
    assert(words_sum(h, 2) == words_sum(h, 1) + word_at(h, 1));
    assert(words_sum(h, 1) == words_sum(h, 0) + word_at(h, 0));
    assert(words_sum(h, 0) == 0);
}

/// Checksum round trip: padding a buffer to an even length and appending its
/// checksum as one more big-endian word gives a buffer whose checksum is zero,
/// whenever adding the checksum does not wrap the 32-bit accumulator.
pub proof fn lemma_checksum_round_trip(buf: Seq<u8>)
    requires
        ones_sum(buf) % 0x1_0000_0000 + checksum_of(buf) < 0x1_0000_0000,
    ensures
        checksum_of(pad_even(buf) + be16(checksum_of(buf))) == 0,
{
    let c = checksum_of(buf);
    let p = pad_even(buf);
    let t = p + be16(c);
    let nw = num_words(buf);
    assert(num_words(p) == nw);
    assert forall|j: int| 0 <= j < nw implies word_at(p, j) == word_at(buf, j) by {}
    lemma_words_sum_agree(p, buf, nw);
    assert(t.len() == 2 * nw + 2);
    assert(num_words(t) == nw + 1);
    assert forall|j: int| 0 <= j < nw implies word_at(t, j) == word_at(p, j) by {}
    lemma_words_sum_agree(t, p, nw);
    assert(word_at(t, nw as int) == c as nat);
    assert(ones_sum(t) == ones_sum(buf) + c);
    let x = ones_sum(buf) % 0x1_0000_0000;
    lemma_fold_carries(x);
    lemma_fold_with_complement(x);
    lemma_add_mod_noop_right(c as int, ones_sum(buf) as int, 0x1_0000_0000);
    lemma_small_mod((x + c) as nat, 0x1_0000_0000);
}

/// Each word is at most 0xffff, so `k` words sum to at most `0xffff * k`.
proof fn lemma_words_sum_bound(buf: Seq<u8>, k: nat)
    requires
        2 * k <= buf.len() + 1,
    ensures
        words_sum(buf, k) <= 0xffff * k,
    decreases k,
{
    if k > 0 {
        lemma_words_sum_bound(buf, (k - 1) as nat);
        assert(word_at(buf, k - 1) <= 0xffff);
    }
}

/// A buffer of at most 64 KiB cannot wrap the 32-bit accumulator, so the
/// checksum round trip holds for every such buffer.
pub proof fn lemma_small_buffer_round_trip(buf: Seq<u8>)
    requires
        buf.len() <= 0x10000,
    ensures
        ones_sum(buf) % 0x1_0000_0000 + checksum_of(buf) < 0x1_0000_0000,
        checksum_of(pad_even(buf) + be16(checksum_of(buf))) == 0,
{
    lemma_words_sum_bound(buf, num_words(buf));
    assert(0xffff * num_words(buf) <= 0xffff * 0x8000) by (nonlinear_arith)
        requires
            num_words(buf) <= 0x8000,
    ;
    lemma_small_mod(ones_sum(buf), 0x1_0000_0000);
    lemma_checksum_round_trip(buf);
}

/// Builds an ICMPv4 echo request with the given identifier and sequence number;
/// its checksum field makes the checksum of the whole packet zero.
pub fn build_icmp_v4_echo(id: u16, seq: u16) -> (r: Vec<u8>)
    ensures
        r@ == echo_v4(id, seq),
        checksum_of(r@) == 0,
{
    let mut buf: Vec<u8> = vec![0u8; 8];
    buf.set(0, ICMP_V4_ECHO_REQUEST);
    buf.set(1, 0);
    buf.set(4, (id / 256) as u8);
    buf.set(5, (id % 256) as u8);
    buf.set(6, (seq / 256) as u8);
    buf.set(7, (seq % 256) as u8);
    assert(buf@ =~= echo_header(ICMP_V4_ECHO_REQUEST, 0, id, seq));
    let checksum = checksum_v4(buf.as_slice());
    buf.set(2, (checksum / 256) as u8);
    buf.set(3, (checksum % 256) as u8);
    assert(buf@ =~= echo_v4(id, seq));
    proof {
        lemma_echo_header_sum(ICMP_V4_ECHO_REQUEST, 0, id, seq);
        lemma_echo_header_sum(ICMP_V4_ECHO_REQUEST, checksum, id, seq);
        let x = ones_sum(echo_header(ICMP_V4_ECHO_REQUEST, 0, id, seq));
        lemma_small_mod(x, 0x1_0000_0000);
        lemma_fold_carries(x);
        lemma_fold_with_complement(x);
        lemma_small_mod((x + checksum) as nat, 0x1_0000_0000);
    }
    buf
}

/// Builds an ICMPv6 echo request with the given identifier and sequence number.
pub fn build_icmp_v6_echo(id: u16, seq: u16) -> (r: Vec<u8>)
    ensures
        r@ == echo_v6(id, seq),
{
    let mut buf: Vec<u8> = vec![0u8; 8];
    buf.set(0, ICMP_V6_ECHO_REQUEST);
    buf.set(1, 0);
    buf.set(4, (id / 256) as u8);
    buf.set(5, (id % 256) as u8);
    buf.set(6, (seq / 256) as u8);
    buf.set(7, (seq % 256) as u8);
    assert(buf@ =~= echo_v6(id, seq));
    buf
}

/// Address family of a probed target.
#[derive(Debug, Clone, Copy, PartialEq, Eq, Structural)]
pub enum IpFamily {
    V4,
    V6,
}

/// Length of the IPv4 header that precedes an ICMPv4 reply on a raw socket.
pub const ICMP_V4_HEADER_LENGTH: usize = 20;

/// Offset of the ICMP header within a reply read from a raw socket of `family`.
pub open spec fn icmp_offset(family: IpFamily) -> int {
    match family {
        IpFamily::V4 => ICMP_V4_HEADER_LENGTH as int,
        IpFamily::V6 => 0,
    }
}

/// The echo request of `family` with the given identifier and sequence number.
pub open spec fn echo_request(family: IpFamily, id: u16, seq: u16) -> Seq<u8> {
    match family {
        IpFamily::V4 => echo_v4(id, seq),
        IpFamily::V6 => echo_v6(id, seq),
    }
}

/// A reply answers the request `sent` when it holds exactly one 8-byte ICMP
/// header after the family's IP header and its identifier and sequence number
/// (bytes 4 to 8 of the ICMP header) equal those of the request.
pub open spec fn echo_reply_matches(family: IpFamily, sent: Seq<u8>, reply: Seq<u8>) -> bool {
    let off = icmp_offset(family);
    &&& reply.len() == off + 8
    &&& reply.subrange(off + 4, off + 8) == sent.subrange(4, 8)
}

/// Checks a reply read from the raw socket against the request `sent`.
/// A reply of another length, or whose identifier/sequence field differs from
/// the request's, is rejected with both packets attached.
pub fn check_reply(family: IpFamily, sent: &[u8], reply: &[u8]) -> (r: Result<(), PingError>)
    requires
        sent@.len() == 8,
    ensures
        r is Ok <==> echo_reply_matches(family, sent@, reply@),
        reply@.len() == icmp_offset(family) + 8 && reply@.subrange(
            icmp_offset(family) + 4,
            icmp_offset(family) + 8,
        ) != sent@.subrange(4, 8) ==> r is Err,
        r is Err ==> (match r {
            Err(PingError::InvalidReply(ReplyFault::Echo { sent: s, received: v })) => s@ == sent@
                && v@ == reply@,
            _ => false,
        }),
{
    let off: usize = match family {
        IpFamily::V4 => ICMP_V4_HEADER_LENGTH,
        IpFamily::V6 => 0,
    };
    let mut ok = reply.len() == off + 8;
    if ok {
        let mut j: usize = 4;
        while j < 8
            invariant
                4 <= j <= 8,
                off <= ICMP_V4_HEADER_LENGTH,
                reply@.len() == off + 8,
                sent@.len() == 8,
                ok == (forall|t: int| 4 <= t < j ==> reply@[off + t] == sent@[t]),
            decreases 8 - j,
        {
            if reply[off + j] != sent[j] {
                ok = false;
            }
            j = j + 1;
        }
        proof {
            let got = reply@.subrange(off + 4, off + 8);
            let want = sent@.subrange(4, 8);
            if ok {
                assert(got =~= want);
            } else {
                let t = choose|t: int| 4 <= t < 8 && reply@[off + t] != sent@[t];
                assert(got[t - 4] != want[t - 4]);
            }
        }
    }
    if ok {
        Ok(())
    } else {
        Err(PingError::InvalidReply(ReplyFault::Echo { sent: slice_to_vec(sent), received: slice_to_vec(reply) }))
    }
}

/// Echo state of one ICMP probe: its identifier and the sequence number of the
/// last request sent. The counter belongs to the probe and is kept across runs.
#[derive(Debug, Clone, Copy)]
pub struct IcmpPing {
    pub id: u16,
    pub seq: u16,
}

impl IcmpPing {
    /// A probe state whose identifier is the process id truncated to 16 bits and
    /// whose sequence counter starts at 0.
    pub fn new(process_id: u32) -> (r: IcmpPing)
        ensures
            r.id == process_id % 0x10000,
            r.seq == 0,
    {
        IcmpPing { id: (process_id % 0x10000) as u16, seq: 0 }
    }

    /// Advances the sequence number, wrapping at the 16-bit boundary, and
    /// returns the echo request of `family` that carries it.
    pub fn next_echo(&mut self, family: IpFamily) -> (r: Vec<u8>)
        ensures
            final(self).id == old(self).id,
            final(self).seq == (if old(self).seq == 0xffff { 0 } else { old(self).seq + 1 }),
            r@ == echo_request(family, final(self).id, final(self).seq),
    {
        self.seq = self.seq.wrapping_add(1);
        match family {
            IpFamily::V4 => build_icmp_v4_echo(self.id, self.seq),
            IpFamily::V6 => build_icmp_v6_echo(self.id, self.seq),
        }
    }
}

} // verus!
