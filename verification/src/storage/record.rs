use vstd::prelude::*;
use vstd::string::*;

verus! {

// Faucet-channel records hold two arbitrary strings (an rpc url and a wallet
// seed).  The store keeps each record as a single string value, framed as
//
//     <len(url) as 20 decimal digits> <url> <len(seed) as 20 decimal digits> <seed>
//
// so that any pair of strings round-trips exactly.

/// Ten to the power `k`.
pub open spec fn pow10(k: nat) -> nat
    decreases k,
{
    if k == 0 {
        1
    } else {
        10 * pow10((k - 1) as nat)
    }
}

/// The decimal digit character for `d` (0 to 9).
pub open spec fn spec_digit_char(d: nat) -> char {
    if d == 0 {
        '0'
    } else if d == 1 {
        '1'
    } else if d == 2 {
        '2'
    } else if d == 3 {
        '3'
    } else if d == 4 {
        '4'
    } else if d == 5 {
        '5'
    } else if d == 6 {
        '6'
    } else if d == 7 {
        '7'
    } else if d == 8 {
        '8'
    } else {
        '9'
    }
}

/// True when `c` is a decimal digit character.
pub open spec fn is_digit_char(c: char) -> bool {
    c == '0' || c == '1' || c == '2' || c == '3' || c == '4' || c == '5' || c == '6' || c == '7'
        || c == '8' || c == '9'
}

/// The value of a decimal digit character.
pub open spec fn spec_digit_val(c: char) -> nat {
    if c == '0' {
        0
    } else if c == '1' {
        1
    } else if c == '2' {
        2
    } else if c == '3' {
        3
    } else if c == '4' {
        4
    } else if c == '5' {
        5
    } else if c == '6' {
        6
    } else if c == '7' {
        7
    } else if c == '8' {
        8
    } else {
        9
    }
}

/// True when every character of `s` is a decimal digit.
pub open spec fn all_digit_chars(s: Seq<char>) -> bool {
    forall|i: int| 0 <= i < s.len() ==> is_digit_char(#[trigger] s[i])
}

/// `n` written as exactly `w` decimal digits (most significant first,
/// zero-padded; the low `w` digits of `n`).
pub open spec fn spec_dec_fixed(n: nat, w: nat) -> Seq<char>
    decreases w,
{
    if w == 0 {
        Seq::empty()
    } else {
        spec_dec_fixed(n / 10, (w - 1) as nat) + seq![spec_digit_char(n % 10)]
    }
}

/// The number a digit string denotes.
pub open spec fn spec_num(s: Seq<char>) -> nat
    decreases s.len(),
{
    if s.len() == 0 {
        0
    } else {
        spec_num(s.drop_last()) * 10 + spec_digit_val(s.last())
    }
}

pub proof fn lemma_dec_fixed_len(n: nat, w: nat)
    ensures
        spec_dec_fixed(n, w).len() == w,
    decreases w,
{
    if w > 0 {
        lemma_dec_fixed_len(n / 10, (w - 1) as nat);
    }
}

pub proof fn lemma_dec_fixed_digits(n: nat, w: nat)
    ensures
        all_digit_chars(spec_dec_fixed(n, w)),
    decreases w,
{
    if w > 0 {
        lemma_dec_fixed_digits(n / 10, (w - 1) as nat);
    }
}

/// Writing a number as `w` digits and reading it back is the identity, as
/// long as the number fits in `w` digits.
pub proof fn lemma_num_of_dec_fixed(n: nat, w: nat)
    requires
        n < pow10(w),
    ensures
        spec_num(spec_dec_fixed(n, w)) == n,
    decreases w,
{
    if w == 0 {
        assert(n == 0);
    } else {
        lemma_dec_fixed_len(n / 10, (w - 1) as nat);
        assert(n / 10 < pow10((w - 1) as nat)) by {
            assert(pow10(w) == 10 * pow10((w - 1) as nat));
        };
        lemma_num_of_dec_fixed(n / 10, (w - 1) as nat);
        let s = spec_dec_fixed(n, w);
        assert(s.drop_last() =~= spec_dec_fixed(n / 10, (w - 1) as nat));
        assert(s.last() == spec_digit_char(n % 10));
        assert(spec_digit_val(spec_digit_char(n % 10)) == n % 10);
        assert(n / 10 * 10 + n % 10 == n) by {
            vstd::arithmetic::div_mod::lemma_fundamental_div_mod(n as int, 10);
        };
    }
}

/// Powers of ten are positive.
pub proof fn lemma_pow10_pos(k: nat)
    ensures
        pow10(k) >= 1,
    decreases k,
{
    if k > 0 {
        lemma_pow10_pos((k - 1) as nat);
    }
}

/// A faucet-channel record: the rpc endpoint and the funding wallet seed
/// the channel was activated with (both empty while merely registered).
#[derive(Debug)]
pub struct FaucetData {
    pub rpc_url: String,
    pub wallet_seed: String,
}

/// The framed string form of a record.
pub open spec fn spec_frame(a: Seq<char>, b: Seq<char>) -> Seq<char> {
    spec_dec_fixed(a.len(), 20) + a + spec_dec_fixed(b.len(), 20) + b
}

/// The record a framed string denotes, if any.
pub open spec fn spec_unframe(s: Seq<char>) -> Option<(Seq<char>, Seq<char>)> {
    if s.len() < 40 {
        None
    } else {
        let h1 = s.subrange(0, 20);
        if !all_digit_chars(h1) {
            None
        } else {
            let n1 = spec_num(h1) as int;
            if 40 + n1 > s.len() {
                None
            } else {
                let a = s.subrange(20, 20 + n1);
                let h2 = s.subrange(20 + n1, 40 + n1);
                if !all_digit_chars(h2) {
                    None
                } else {
                    let n2 = spec_num(h2) as int;
                    if 40 + n1 + n2 != s.len() {
                        None
                    } else {
                        Some((a, s.subrange(40 + n1, s.len() as int)))
                    }
                }
            }
        }
    }
}

/// Law: framing round-trips.  Any record written by `spec_frame` is read
/// back unchanged by `spec_unframe`.
pub proof fn lemma_frame_round_trip(a: Seq<char>, b: Seq<char>)
    requires
        a.len() < pow10(20),
        b.len() < pow10(20),
    ensures
        spec_unframe(spec_frame(a, b)) == Some((a, b)),
{
    let s = spec_frame(a, b);
    let d1 = spec_dec_fixed(a.len(), 20);
    let d2 = spec_dec_fixed(b.len(), 20);
    lemma_dec_fixed_len(a.len(), 20);
    lemma_dec_fixed_len(b.len(), 20);
    lemma_dec_fixed_digits(a.len(), 20);
    lemma_dec_fixed_digits(b.len(), 20);
    lemma_num_of_dec_fixed(a.len(), 20);
    lemma_num_of_dec_fixed(b.len(), 20);
    assert(s.len() == 40 + a.len() + b.len());
    assert(s.subrange(0, 20) =~= d1);
    let n1 = a.len() as int;
    assert(s.subrange(20, 20 + n1) =~= a);
    assert(s.subrange(20 + n1, 40 + n1) =~= d2);
    let n2 = b.len() as int;
    assert(s.subrange(40 + n1, s.len() as int) =~= b);
}

/// Append the digit `d` to `s`.
fn append_digit(s: &mut String, d: u64)
    requires
        d < 10,
    ensures
        final(s)@ == old(s)@ + seq![spec_digit_char(d as nat)],
{
    proof {
        reveal_strlit("0");
        reveal_strlit("1");
        reveal_strlit("2");
        reveal_strlit("3");
        reveal_strlit("4");
        reveal_strlit("5");
        reveal_strlit("6");
        reveal_strlit("7");
        reveal_strlit("8");
        reveal_strlit("9");
    }
    if d == 0 {
        s.append("0");
    } else if d == 1 {
        s.append("1");
    } else if d == 2 {
        s.append("2");
    } else if d == 3 {
        s.append("3");
    } else if d == 4 {
        s.append("4");
    } else if d == 5 {
        s.append("5");
    } else if d == 6 {
        s.append("6");
    } else if d == 7 {
        s.append("7");
    } else if d == 8 {
        s.append("8");
    } else {
        s.append("9");
    }
    proof {
        assert(s@ =~= old(s)@ + seq![spec_digit_char(d as nat)]);
    }
}

/// Append `n` to `s` as exactly `w` decimal digits.
fn append_dec_fixed(s: &mut String, n: u64, w: u64)
    ensures
        final(s)@ == old(s)@ + spec_dec_fixed(n as nat, w as nat),
    decreases w,
{
    if w == 0 {
        proof {
            assert(s@ =~= old(s)@ + spec_dec_fixed(n as nat, 0));
        }
    } else {
        append_dec_fixed(s, n / 10, w - 1);
        append_digit(s, n % 10);
        proof {
            assert(s@ =~= old(s)@ + spec_dec_fixed(n as nat, w as nat));
        }
    }
}

/// The value of the digit `c`, or `None` when `c` is not a digit.
fn digit_val(c: char) -> (r: Option<u64>)
    ensures
        r matches Some(v) ==> is_digit_char(c) && v == spec_digit_val(c),
        r is None ==> !is_digit_char(c),
{
    if c == '0' {
        Some(0)
    } else if c == '1' {
        Some(1)
    } else if c == '2' {
        Some(2)
    } else if c == '3' {
        Some(3)
    } else if c == '4' {
        Some(4)
    } else if c == '5' {
        Some(5)
    } else if c == '6' {
        Some(6)
    } else if c == '7' {
        Some(7)
    } else if c == '8' {
        Some(8)
    } else if c == '9' {
        Some(9)
    } else {
        None
    }
}

/// Read the 20-digit header starting at `from`; `None` when a character
/// there is not a digit.
fn parse_header(s: &str, from: usize) -> (r: Option<u128>)
    requires
        from + 20 <= s@.len(),
        from + 20 <= usize::MAX,
    ensures
        r matches Some(v) ==> all_digit_chars(s@.subrange(from as int, from as int + 20)) && v
            == spec_num(s@.subrange(from as int, from as int + 20)),
        r is None ==> !all_digit_chars(s@.subrange(from as int, from as int + 20)),
{
    let mut acc: u128 = 0;
    let mut k: usize = 0;
    while k < 20
        invariant
            k <= 20,
            from + 20 <= s@.len(),
            from + 20 <= usize::MAX,
            acc == spec_num(s@.subrange(from as int, from as int + k)),
            acc < pow10(k as nat),
            forall|j: int| from <= j < from + k ==> is_digit_char(#[trigger] s@[j]),
        decreases 20 - k,
    {
        let c = s.get_char(from + k);
        match digit_val(c) {
            None => {
                proof {
                    assert(s@.subrange(from as int, from as int + 20)[k as int] == c);
                }
                return None;
            },
            Some(d) => {
                proof {
                    let pre = s@.subrange(from as int, from as int + k);
                    let cur = s@.subrange(from as int, from as int + k + 1);
                    assert(cur.drop_last() =~= pre);
                    assert(cur.last() == c);
                    lemma_pow10_20_bound();
                    assert(pow10((k + 1) as nat) == 10 * pow10(k as nat));
                    assert(pow10(k as nat) <= pow10(20)) by {
                        lemma_pow10_increases(k as nat, 20);
                    };
                }
                acc = acc * 10 + (d as u128);
            },
        }
        k += 1;
    }
    proof {
        assert forall|j: int| 0 <= j < 20 implies is_digit_char(
            #[trigger] s@.subrange(from as int, from as int + 20)[j],
        ) by {
            assert(s@.subrange(from as int, from as int + 20)[j] == s@[from + j]);
        }
    }
    Some(acc)
}

/// Ten to the twentieth fits comfortably in 128 bits.
proof fn lemma_pow10_20_bound()
    ensures
        pow10(20) == 0x56bc75e2d63100000,
{
    reveal_with_fuel(pow10, 21);
}

proof fn lemma_pow10_increases(a: nat, b: nat)
    requires
        a <= b,
    ensures
        pow10(a) <= pow10(b),
    decreases b,
{
    if a < b {
        lemma_pow10_increases(a, (b - 1) as nat);
        assert(pow10(b) == 10 * pow10((b - 1) as nat));
    }
}

impl FaucetData {
    /// Frame a record into its single stored string.
    pub fn frame(rpc_url: &str, wallet_seed: &str) -> (r: String)
        ensures
            r@ == spec_frame(rpc_url@, wallet_seed@),
    {
        let a_len = rpc_url.unicode_len();
        let b_len = wallet_seed.unicode_len();
        let mut s = String::new();
        append_dec_fixed(&mut s, a_len as u64, 20);
        s.append(rpc_url);
        append_dec_fixed(&mut s, b_len as u64, 20);
        s.append(wallet_seed);
        proof {
            assert(s@ =~= spec_frame(rpc_url@, wallet_seed@));
        }
        s
    }

    /// Read a stored string back into a record; `None` when the string is
    /// not a well-formed frame.
    pub fn unframe(s: &str) -> (r: Option<FaucetData>)
        ensures
            r matches Some(d) ==> spec_unframe(s@) == Some((d.rpc_url@, d.wallet_seed@)),
            r is None <==> spec_unframe(s@) is None,
    {
        let n = s.unicode_len();
        if n < 40 {
            return None;
        }
        let n1_raw = match parse_header(s, 0) {
            None => {
                return None;
            },
            Some(v) => v,
        };
        if n1_raw > (n as u128) - 40 {
            return None;
        }
        let n1 = n1_raw as usize;
        let h2_from = 20 + n1;
        let n2_raw = match parse_header(s, h2_from) {
            None => {
                return None;
            },
            Some(v) => v,
        };
        if n2_raw != (n as u128) - 40 - (n1 as u128) {
            return None;
        }
        let n2 = n2_raw as usize;
        let rpc_url = String::from_str(s.substring_char(20, 20 + n1));
        let wallet_seed = String::from_str(s.substring_char(40 + n1, 40 + n1 + n2));
        proof {
            assert(40 + n1 + n2 == n);
            assert(s@.subrange(40 + n1 as int, s@.len() as int) =~= s@.subrange(
                40 + n1 as int,
                40 + n1 as int + n2 as int,
            ));
        }
        Some(FaucetData { rpc_url, wallet_seed })
    }
}

} // verus!
