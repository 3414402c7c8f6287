use vstd::prelude::*;
use vstd::string::StringExecFns;

use crate::params::{HasherKind, PublicParams};

verus! {

/// The circuit-variant discriminant folded into a cache identifier:
/// replication proofs and each proof-of-spacetime variant key distinct
/// parameter sets.
#[derive(Clone, Copy, Debug, PartialEq, Eq, Structural)]
pub enum ProofKind {
    StackedPorep,
    ElectionPost,
    WinningPost,
    WindowPost,
}

pub open spec fn hasher_code(h: HasherKind) -> u64 {
    match h {
        HasherKind::Poseidon => 0,
        HasherKind::Sha256 => 1,
        HasherKind::Blake2s => 2,
    }
}

pub open spec fn kind_code(k: ProofKind) -> u64 {
    match k {
        ProofKind::StackedPorep => 0,
        ProofKind::ElectionPost => 1,
        ProofKind::WinningPost => 2,
        ProofKind::WindowPost => 3,
    }
}

pub open spec fn hex_char(d: int) -> char {
    if d == 0 {
        '0'
    } else if d == 1 {
        '1'
    } else if d == 2 {
        '2'
    } else if d == 3 {
        '3'
    } else if d == 4 {
        '4'
    } else if d == 5 {
        '5'
    } else if d == 6 {
        '6'
    } else if d == 7 {
        '7'
    } else if d == 8 {
        '8'
    } else if d == 9 {
        '9'
    } else if d == 10 {
        'a'
    } else if d == 11 {
        'b'
    } else if d == 12 {
        'c'
    } else if d == 13 {
        'd'
    } else if d == 14 {
        'e'
    } else {
        'f'
    }
}

pub open spec fn hex_val(c: char) -> int {
    if c == '0' {
        0
    } else if c == '1' {
        1
    } else if c == '2' {
        2
    } else if c == '3' {
        3
    } else if c == '4' {
        4
    } else if c == '5' {
        5
    } else if c == '6' {
        6
    } else if c == '7' {
        7
    } else if c == '8' {
        8
    } else if c == '9' {
        9
    } else if c == 'a' {
        10
    } else if c == 'b' {
        11
    } else if c == 'c' {
        12
    } else if c == 'd' {
        13
    } else if c == 'e' {
        14
    } else {
        15
    }
}

/// `v` written in hexadecimal over exactly `w` digits, most significant
/// first.
pub open spec fn enc_rec(v: int, w: nat) -> Seq<char>
    decreases w,
{
    if w == 0 {
        Seq::empty()
    } else {
        enc_rec(v / 16, (w - 1) as nat).push(hex_char(v % 16))
    }
}

/// A 64-bit value as 16 fixed-width hexadecimal digits.
pub open spec fn enc16(v: u64) -> Seq<char> {
    enc_rec(v as int, 16)
}

pub open spec fn pow16(w: nat) -> int
    decreases w,
{
    if w == 0 {
        1
    } else {
        16 * pow16((w - 1) as nat)
    }
}

pub open spec fn dec_rec(s: Seq<char>) -> int
    decreases s.len(),
{
    if s.len() == 0 {
        0
    } else {
        dec_rec(s.drop_last()) * 16 + hex_val(s.last())
    }
}

proof fn lemma_pow16_pos(w: nat)
    ensures
        pow16(w) >= 1,
    decreases w,
{
    if w > 0 {
        lemma_pow16_pos((w - 1) as nat);
    }
}

proof fn lemma_enc_len(v: int, w: nat)
    ensures
        enc_rec(v, w).len() == w,
    decreases w,
{
    if w > 0 {
        lemma_enc_len(v / 16, (w - 1) as nat);
    }
}

proof fn lemma_dec_enc(v: int, w: nat)
    requires
        0 <= v < pow16(w),
    ensures
        dec_rec(enc_rec(v, w)) == v,
    decreases w,
{
    if w == 0 {
    } else {
        let p = pow16((w - 1) as nat);
        lemma_pow16_pos((w - 1) as nat);
        assert(v / 16 < p) by (nonlinear_arith)
            requires
                0 <= v,
                v < 16 * p,
                p >= 1,
        ;
        lemma_dec_enc(v / 16, (w - 1) as nat);
        let s = enc_rec(v, w);
        assert(s.drop_last() =~= enc_rec(v / 16, (w - 1) as nat));
        assert(s.last() == hex_char(v % 16));
        assert(hex_val(hex_char(v % 16)) == v % 16);
    }
}

proof fn lemma_enc16_injective(a: u64, b: u64)
    requires
        enc16(a) == enc16(b),
    ensures
        a == b,
{
    reveal_with_fuel(pow16, 17);
    assert(pow16(16) == 0x1_0000_0000_0000_0000);
    lemma_dec_enc(a as int, 16);
    lemma_dec_enc(b as int, 16);
}

/// The cache identifier of one circuit shape: hasher identity, sector size
/// (which fixes the graph shape), layer, challenge and partition counts,
/// and the proof-kind discriminant, each as a fixed-width hexadecimal
/// field. Identical shapes give identical identifiers; any structural
/// difference gives a different identifier.
pub open spec fn id_chars(pp: PublicParams, kind: ProofKind) -> Seq<char> {
    enc16(hasher_code(pp.hasher)) + enc16(pp.sector_size) + enc16(pp.layers) + enc16(pp.challenges)
        + enc16(pp.partitions) + enc16(kind_code(kind))
}

proof fn lemma_concat_cancel(a: Seq<char>, b: Seq<char>, c: Seq<char>, d: Seq<char>)
    requires
        a + b == c + d,
        a.len() == c.len(),
    ensures
        a == c,
        b == d,
{
    assert forall|i: int| 0 <= i < a.len() implies a[i] == c[i] by {
        assert((a + b)[i] == a[i]);
        assert((c + d)[i] == c[i]);
    }
    assert(a =~= c);
    assert(b.len() == d.len()) by {
        assert((a + b).len() == a.len() + b.len());
        assert((c + d).len() == c.len() + d.len());
        assert((a + b).len() == (c + d).len());
    }
    assert forall|i: int| 0 <= i < b.len() implies b[i] == d[i] by {
        assert((a + b)[a.len() + i] == b[i]);
        assert((c + d)[c.len() + i] == d[i]);
    }
    assert(b =~= d);
}

/// Identifier stability and collision freedom: two circuit shapes share a
/// cache identifier exactly when they agree in every wire-affecting
/// parameter and in the proof kind.
pub proof fn lemma_identifier_injective(
    pp1: PublicParams,
    k1: ProofKind,
    pp2: PublicParams,
    k2: ProofKind,
)
    requires
        id_chars(pp1, k1) == id_chars(pp2, k2),
    ensures
        pp1 == pp2,
        k1 == k2,
{
    let a1 = enc16(hasher_code(pp1.hasher));
    let r1 = enc16(pp1.sector_size) + enc16(pp1.layers) + enc16(pp1.challenges) + enc16(
        pp1.partitions,
    ) + enc16(kind_code(k1));
    let a2 = enc16(hasher_code(pp2.hasher));
    let r2 = enc16(pp2.sector_size) + enc16(pp2.layers) + enc16(pp2.challenges) + enc16(
        pp2.partitions,
    ) + enc16(kind_code(k2));
    lemma_enc_len(hasher_code(pp1.hasher) as int, 16);
    lemma_enc_len(hasher_code(pp2.hasher) as int, 16);
    lemma_enc_len(pp1.sector_size as int, 16);
    lemma_enc_len(pp2.sector_size as int, 16);
    lemma_enc_len(pp1.layers as int, 16);
    lemma_enc_len(pp2.layers as int, 16);
    lemma_enc_len(pp1.challenges as int, 16);
    lemma_enc_len(pp2.challenges as int, 16);
    lemma_enc_len(pp1.partitions as int, 16);
    lemma_enc_len(pp2.partitions as int, 16);
    lemma_enc_len(kind_code(k1) as int, 16);
    lemma_enc_len(kind_code(k2) as int, 16);
    assert(id_chars(pp1, k1) == a1 + r1 && id_chars(pp2, k2) == a2 + r2) by {
        assert(id_chars(pp1, k1) =~= a1 + r1);
        assert(id_chars(pp2, k2) =~= a2 + r2);
    }
    lemma_concat_cancel(a1, r1, a2, r2);
    lemma_enc16_injective(hasher_code(pp1.hasher), hasher_code(pp2.hasher));
    let b1 = enc16(pp1.sector_size);
    let s1 = enc16(pp1.layers) + enc16(pp1.challenges) + enc16(pp1.partitions) + enc16(
        kind_code(k1),
    );
    let b2 = enc16(pp2.sector_size);
    let s2 = enc16(pp2.layers) + enc16(pp2.challenges) + enc16(pp2.partitions) + enc16(
        kind_code(k2),
    );
    assert(r1 == b1 + s1 && r2 == b2 + s2) by {
        assert(r1 =~= b1 + s1);
        assert(r2 =~= b2 + s2);
    }
    lemma_concat_cancel(b1, s1, b2, s2);
    lemma_enc16_injective(pp1.sector_size, pp2.sector_size);
    let c1 = enc16(pp1.layers);
    let t1 = enc16(pp1.challenges) + enc16(pp1.partitions) + enc16(kind_code(k1));
    let c2 = enc16(pp2.layers);
    let t2 = enc16(pp2.challenges) + enc16(pp2.partitions) + enc16(kind_code(k2));
    assert(s1 == c1 + t1 && s2 == c2 + t2) by {
        assert(s1 =~= c1 + t1);
        assert(s2 =~= c2 + t2);
    }
    lemma_concat_cancel(c1, t1, c2, t2);
    lemma_enc16_injective(pp1.layers, pp2.layers);
    let d1 = enc16(pp1.challenges);
    let u1 = enc16(pp1.partitions) + enc16(kind_code(k1));
    let d2 = enc16(pp2.challenges);
    let u2 = enc16(pp2.partitions) + enc16(kind_code(k2));
    assert(t1 == d1 + u1 && t2 == d2 + u2) by {
        assert(t1 =~= d1 + u1);
        assert(t2 =~= d2 + u2);
    }
    lemma_concat_cancel(d1, u1, d2, u2);
    lemma_enc16_injective(pp1.challenges, pp2.challenges);
    lemma_concat_cancel(
        enc16(pp1.partitions),
        enc16(kind_code(k1)),
        enc16(pp2.partitions),
        enc16(kind_code(k2)),
    );
    lemma_enc16_injective(pp1.partitions, pp2.partitions);
    lemma_enc16_injective(kind_code(k1), kind_code(k2));
}

fn hex_digit_str(d: u64) -> (r: &'static str)
    requires
        d < 16,
    ensures
        r@ == seq![hex_char(d as int)],
{
    proof {
        reveal_strlit("0");
        reveal_strlit("1");
        reveal_strlit("2");
        reveal_strlit("3");
        reveal_strlit("4");
        reveal_strlit("5");
        reveal_strlit("6");
        reveal_strlit("7");
        reveal_strlit("8");
        reveal_strlit("9");
        reveal_strlit("a");
        reveal_strlit("b");
        reveal_strlit("c");
        reveal_strlit("d");
        reveal_strlit("e");
        reveal_strlit("f");
    }
    match d {
        0 => "0",
        1 => "1",
        2 => "2",
        3 => "3",
        4 => "4",
        5 => "5",
        6 => "6",
        7 => "7",
        8 => "8",
        9 => "9",
        10 => "a",
        11 => "b",
        12 => "c",
        13 => "d",
        14 => "e",
        _ => "f",
    }
}

fn push_enc(s: &mut String, v: u64, w: usize)
    ensures
        final(s)@ == old(s)@ + enc_rec(v as int, w as nat),
    decreases w,
{
    if w == 0 {
        assert(old(s)@ + enc_rec(v as int, 0) =~= old(s)@);
    } else {
        push_enc(s, v / 16, w - 1);
        let digit = hex_digit_str(v % 16);
        s.append(digit);
        assert(final(s)@ =~= old(s)@ + enc_rec(v as int, w as nat));
    }
}

fn hasher_code_x(h: HasherKind) -> (r: u64)
    ensures
        r == hasher_code(h),
{
    match h {
        HasherKind::Poseidon => 0,
        HasherKind::Sha256 => 1,
        HasherKind::Blake2s => 2,
    }
}

fn kind_code_x(k: ProofKind) -> (r: u64)
    ensures
        r == kind_code(k),
{
    match k {
        ProofKind::StackedPorep => 0,
        ProofKind::ElectionPost => 1,
        ProofKind::WinningPost => 2,
        ProofKind::WindowPost => 3,
    }
}

/// Renders the cache identifier of one circuit shape.
pub fn cache_identifier_string(pp: &PublicParams, kind: ProofKind) -> (s: String)
    ensures
        s@ == id_chars(*pp, kind),
{
    let mut s = String::new();
    push_enc(&mut s, hasher_code_x(pp.hasher), 16);
    push_enc(&mut s, pp.sector_size, 16);
    push_enc(&mut s, pp.layers, 16);
    push_enc(&mut s, pp.challenges, 16);
    push_enc(&mut s, pp.partitions, 16);
    push_enc(&mut s, kind_code_x(kind), 16);
    assert(s@ =~= id_chars(*pp, kind));
    s
}

} // verus!
