//! Text-building helpers: decimal rendering of integers, rendering of
//! hundredths-scaled quantities, list joining, and string comparison.
use vstd::prelude::*;

verus! {

/// The decimal digit characters, used to render one digit `d` (0..=9) as the
/// one-character sequence `"0123456789"@.subrange(d, d + 1)`.
pub open spec fn spec_digit(d: nat) -> Seq<char> {
    "0123456789"@.subrange(d as int, d as int + 1)
}

/// The usual base-10 rendering of a natural number, without leading zeros
/// (a single `'0'` for zero).
pub open spec fn spec_dec(n: nat) -> Seq<char>
    decreases n,
{
    if n < 10 {
        spec_digit(n)
    } else {
        spec_dec(n / 10) + spec_digit(n % 10)
    }
}

/// Appends the decimal rendering of `n` to `s`.
pub fn push_dec_u64(s: &mut String, n: u64)
    ensures
        final(s)@ == old(s)@ + spec_dec(n as nat),
    decreases n,
{
    proof {
        reveal_strlit("0123456789");
    }
    if n >= 10 {
        push_dec_u64(s, n / 10);
    }
    let d: usize = (n % 10) as usize;
    let digits = "0123456789";
    let c = digits.substring_ascii(d, d + 1);
    s.append(c);
    proof {
        assert(final(s)@ =~= old(s)@ + spec_dec(n as nat));
    }
}

/// Appends the decimal rendering of a `usize` to `s`.
pub fn push_dec_usize(s: &mut String, n: usize)
    ensures
        final(s)@ == old(s)@ + spec_dec(n as nat),
{
    push_dec_u64(s, n as u64);
}

/// The rendering of a hundredths-scaled quantity with exactly two decimal
/// places: `8500` renders as `85.00`.
pub open spec fn spec_hundredths(n: nat) -> Seq<char> {
    spec_dec(n / 100) + "."@ + spec_digit((n % 100) / 10) + spec_digit(n % 10)
}

/// Appends the two-decimal-place rendering of the hundredths-scaled `n`.
pub fn push_hundredths(s: &mut String, n: u64)
    ensures
        final(s)@ == old(s)@ + spec_hundredths(n as nat),
{
    proof {
        reveal_strlit("0123456789");
    }
    push_dec_u64(s, n / 100);
    s.append(".");
    let digits = "0123456789";
    let d1: usize = ((n % 100) / 10) as usize;
    let c1 = digits.substring_ascii(d1, d1 + 1);
    s.append(c1);
    let d0: usize = (n % 10) as usize;
    let c0 = digits.substring_ascii(d0, d0 + 1);
    s.append(c0);
    proof {
        assert(final(s)@ =~= old(s)@ + spec_hundredths(n as nat));
    }
}

/// The views of a sequence of strings.
pub open spec fn spec_views(ss: Seq<String>) -> Seq<Seq<char>> {
    ss.map_values(|s: String| s@)
}

/// The elements of `ss` from index `i` on, each preceded by the separator
/// `sep`.
pub open spec fn spec_join_rest(ss: Seq<Seq<char>>, sep: Seq<char>, i: int) -> Seq<char>
    decreases ss.len() - i,
{
    if i < 0 || i >= ss.len() {
        Seq::empty()
    } else {
        sep + ss[i] + spec_join_rest(ss, sep, i + 1)
    }
}

/// All elements of `ss` joined with the separator `sep` between neighbours.
pub open spec fn spec_join(ss: Seq<Seq<char>>, sep: Seq<char>) -> Seq<char> {
    if ss.len() == 0 {
        Seq::empty()
    } else {
        ss[0] + spec_join_rest(ss, sep, 1)
    }
}

/// Appends the elements of `ss`, separated by `sep`, to `out`.
pub fn push_joined(out: &mut String, ss: &Vec<String>, sep: &str)
    ensures
        final(out)@ == old(out)@ + spec_join(spec_views(ss@), sep@),
{
    let n = ss.len();
    if n == 0 {
        proof {
            assert(old(out)@ + spec_join(spec_views(ss@), sep@) =~= old(out)@);
        }
        return ;
    }
    s_append_string(out, &ss[0]);
    let mut i: usize = 1;
    proof {
        assert(out@ + spec_join_rest(spec_views(ss@), sep@, 1) =~= old(out)@ + spec_join(
            spec_views(ss@),
            sep@,
        ));
    }
    while i < n
        invariant
            n == ss.len(),
            1 <= i <= n,
            out@ + spec_join_rest(spec_views(ss@), sep@, i as int) == old(out)@ + spec_join(
                spec_views(ss@),
                sep@,
            ),
        decreases n - i,
    {
        s_append(out, sep);
        s_append_string(out, &ss[i]);
        i = i + 1;
        proof {
            assert(out@ + spec_join_rest(spec_views(ss@), sep@, i as int) =~= old(out)@
                + spec_join(spec_views(ss@), sep@));
        }
    }
    proof {
        assert(final(out)@ =~= old(out)@ + spec_join(spec_views(ss@), sep@));
    }
}

/// Appends `t` to `s`; a thin alias for the string append operation so that
/// call sites read uniformly.
pub fn s_append(s: &mut String, t: &str)
    ensures
        final(s)@ == old(s)@ + t@,
{
    s.append(t);
}

/// Appends the string `t` to `s`.
pub fn s_append_string(s: &mut String, t: &String)
    ensures
        final(s)@ == old(s)@ + t@,
{
    s.append(t.as_str());
}

/// Whether two string slices have exactly the same characters.
pub fn str_eq(a: &str, b: &str) -> (r: bool)
    ensures
        r == (a@ == b@),
{
    let ao: String = a.to_owned();
    string_eq_str(&ao, b)
}

/// Whether the string `a` has exactly the characters of `b`.
pub fn string_eq_str(a: &String, b: &str) -> (r: bool)
    ensures
        r == (a@ == b@),
{
    let bo: String = b.to_owned();
    *a == bo
}

} // verus!
