use vstd::prelude::*;

verus! {

/// The character of a lowercase hexadecimal digit `d` (`0 <= d < 16`).
pub open spec fn hex_char(d: int) -> char {
    if d == 0 { '0' } else if d == 1 { '1' } else if d == 2 { '2' } else if d == 3 { '3' }
    else if d == 4 { '4' } else if d == 5 { '5' } else if d == 6 { '6' } else if d == 7 { '7' }
    else if d == 8 { '8' } else if d == 9 { '9' } else if d == 10 { 'a' } else if d == 11 { 'b' }
    else if d == 12 { 'c' } else if d == 13 { 'd' } else if d == 14 { 'e' } else { 'f' }
}

/// The value of a lowercase hexadecimal digit, or -1 for any other character.
pub open spec fn hex_value(c: char) -> int {
    if c == '0' { 0 } else if c == '1' { 1 } else if c == '2' { 2 } else if c == '3' { 3 }
    else if c == '4' { 4 } else if c == '5' { 5 } else if c == '6' { 6 } else if c == '7' { 7 }
    else if c == '8' { 8 } else if c == '9' { 9 } else if c == 'a' { 10 } else if c == 'b' { 11 }
    else if c == 'c' { 12 } else if c == 'd' { 13 } else if c == 'e' { 14 } else if c == 'f' { 15 }
    else { -1 }
}

/// Every character of `s` is a lowercase hex digit.
pub open spec fn all_hex(s: Seq<char>) -> bool {
    forall|i: int| 0 <= i < s.len() ==> 0 <= #[trigger] hex_value(s[i])
}

/// `v` written with exactly `n` lowercase hex digits, most significant first
/// (digits beyond `n` are dropped).
pub open spec fn hex_seq(v: nat, n: nat) -> Seq<char>
    decreases n,
{
    if n == 0 {
        Seq::empty()
    } else {
        hex_seq(v / 16, (n - 1) as nat).push(hex_char((v % 16) as int))
    }
}

/// The number that a string of hex digits denotes, most significant first.
pub open spec fn hex_num(s: Seq<char>) -> nat
    decreases s.len(),
{
    if s.len() == 0 {
        0
    } else {
        hex_num(s.drop_last()) * 16 + hex_value(s.last()) as nat
    }
}

/// Sixteen to the power `n`.
pub open spec fn pow16(n: nat) -> nat
    decreases n,
{
    if n == 0 { 1 } else { 16 * pow16((n - 1) as nat) }
}

/// Writing a number in `n` hex digits and reading it back gives the number,
/// whenever it fits in `n` digits.
pub proof fn lemma_hex_round_trip(v: nat, n: nat)
    requires
        v < pow16(n),
    ensures
        hex_seq(v, n).len() == n,
        all_hex(hex_seq(v, n)),
        hex_num(hex_seq(v, n)) == v,
    decreases n,
{
    if n > 0 {
        let m = (n - 1) as nat;
        assert(v / 16 < pow16(m)) by (nonlinear_arith)
            requires v < 16 * pow16(m);
        lemma_hex_round_trip(v / 16, m);
        let s = hex_seq(v, n);
        assert(s.drop_last() =~= hex_seq(v / 16, m));
        assert(all_hex(s)) by {
            assert forall|i: int| 0 <= i < s.len() implies 0 <= #[trigger] hex_value(s[i]) by {
                if i < m {
                    assert(s[i] == hex_seq(v / 16, m)[i]);
                }
            }
        }
        assert(v == (v / 16) * 16 + v % 16) by (nonlinear_arith);
    }
}

/// The powers of sixteen that bound the subject and the expiry.
pub proof fn lemma_pow16_32()
    ensures
        pow16(32) == 0x1_0000_0000_0000_0000_0000_0000_0000_0000,
        pow16(16) == 0x1_0000_0000_0000_0000,
{
    reveal_with_fuel(pow16, 33);
}

fn digit_str(d: u8) -> (r: &'static str)
    requires
        d < 16,
    ensures
        r@ == seq![hex_char(d as int)],
{
    proof {
        reveal_strlit("0"); reveal_strlit("1"); reveal_strlit("2"); reveal_strlit("3");
        reveal_strlit("4"); reveal_strlit("5"); reveal_strlit("6"); reveal_strlit("7");
        reveal_strlit("8"); reveal_strlit("9"); reveal_strlit("a"); reveal_strlit("b");
        reveal_strlit("c"); reveal_strlit("d"); reveal_strlit("e"); reveal_strlit("f");
    }
    let r = match d {
        0 => "0", 1 => "1", 2 => "2", 3 => "3", 4 => "4", 5 => "5", 6 => "6", 7 => "7",
        8 => "8", 9 => "9", 10 => "a", 11 => "b", 12 => "c", 13 => "d", 14 => "e", _ => "f",
    };
    assert(r@ =~= seq![hex_char(d as int)]);
    r
}

fn digit_value(c: char) -> (r: i8)
    ensures
        r as int == hex_value(c),
{
    match c {
        '0' => 0, '1' => 1, '2' => 2, '3' => 3, '4' => 4, '5' => 5, '6' => 6, '7' => 7,
        '8' => 8, '9' => 9, 'a' => 10, 'b' => 11, 'c' => 12, 'd' => 13, 'e' => 14, 'f' => 15,
        _ => -1,
    }
}

/// Appends `v` to `out` in exactly `n` lowercase hex digits.
pub fn append_hex(out: &mut String, v: u128, n: usize)
    ensures
        final(out)@ == old(out)@ + hex_seq(v as nat, n as nat),
    decreases n,
{
    if n > 0 {
        append_hex(out, v / 16, n - 1);
        let s = digit_str((v % 16) as u8);
        out.append(s);
        assert(hex_seq(v as nat, n as nat) =~= hex_seq((v / 16) as nat, (n - 1) as nat).push(
            hex_char((v % 16) as int),
        ));
    }
}

/// Reads the `n` characters of `s` from `start` as a hex number: `None` unless
/// all of them are lowercase hex digits.
pub fn parse_hex(s: &str, start: usize, n: usize) -> (r: Option<u128>)
    requires
        n <= 32,
        start + n <= s@.len(),
        start + n <= usize::MAX,
    ensures
        r == (if all_hex(s@.subrange(start as int, start + n)) {
            Some(hex_num(s@.subrange(start as int, start + n)) as u128)
        } else {
            None::<u128>
        }),
        all_hex(s@.subrange(start as int, start + n)) ==> hex_num(
            s@.subrange(start as int, start + n),
        ) < pow16(n as nat),
{
    let ghost whole = s@.subrange(start as int, start + n);
    let mut acc: u128 = 0;
    let mut i: usize = 0;
    while i < n
        invariant
            i <= n <= 32,
            start + n <= s@.len(),
            start + n <= usize::MAX,
            whole == s@.subrange(start as int, start + n),
            all_hex(whole.subrange(0, i as int)),
            acc as nat == hex_num(whole.subrange(0, i as int)),
            acc < pow16(i as nat),
        decreases n - i,
    {
        let c = s.get_char(start + i);
        let d = digit_value(c);
        if d < 0 {
            assert(!all_hex(whole)) by {
                assert(whole[i as int] == c);
            }
            return None;
        }
        proof {
            lemma_pow16_32();
            lemma_pow16_mono(i as nat + 1, 32);
            assert(acc * 16 + 16 <= pow16(i as nat) * 16) by (nonlinear_arith)
                requires acc < pow16(i as nat);
        }
        let ghost prev = whole.subrange(0, i as int);
        acc = acc * 16 + d as u128;
        i = i + 1;
        proof {
            let cur = whole.subrange(0, i as int);
            assert(cur.drop_last() =~= prev);
            assert(cur.last() == c);
            assert(all_hex(cur)) by {
                assert forall|j: int| 0 <= j < cur.len() implies 0 <= #[trigger] hex_value(cur[j]) by {
                    if j < i - 1 {
                        assert(cur[j] == prev[j]);
                    }
                }
            }
        }
    }
    assert(whole.subrange(0, n as int) =~= whole);
    Some(acc)
}

/// Powers of sixteen grow with the exponent.
pub proof fn lemma_pow16_mono(a: nat, b: nat)
    requires
        a <= b,
    ensures
        pow16(a) <= pow16(b),
    decreases b - a,
{
    if a < b {
        lemma_pow16_mono(a, (b - 1) as nat);
    }
}

} // verus!
