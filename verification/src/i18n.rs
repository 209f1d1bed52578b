//! Translated messages: the filling of `{}` placeholders in a translated
//! message with its arguments, and the decimal form of the numbers filled in.

use vstd::prelude::*;

verus! {

/// The character of a decimal digit.
pub open spec fn digit_char(d: int) -> char {
    seq!['0', '1', '2', '3', '4', '5', '6', '7', '8', '9'][d]
}

/// The decimal representation of `n`, without sign or leading zeros.
pub open spec fn decimal(n: nat) -> Seq<char>
    decreases n,
{
    if n < 10 {
        seq![digit_char(n as int)]
    } else {
        decimal(n / 10).push(digit_char((n % 10) as int))
    }
}

/// The value of a decimal digit character (the digit whose character it is).
pub open spec fn digit_value(c: char) -> int {
    choose|d: int| 0 <= d < 10 && digit_char(d) == c
}

/// The number that a sequence of decimal digit characters denotes.
pub open spec fn decimal_value(s: Seq<char>) -> int
    decreases s.len(),
{
    if s.len() == 0 {
        0
    } else {
        decimal_value(s.drop_last()) * 10 + digit_value(s.last())
    }
}

proof fn lemma_digit_value(d: int)
    requires
        0 <= d < 10,
    ensures
        digit_value(digit_char(d)) == d,
{
    let c = digit_char(d);
    assert(exists|e: int| 0 <= e < 10 && digit_char(e) == c);
    let e = digit_value(c);
    assert(digit_char(e) == c);
    assert(e == d);
}

/// The decimal form of `n` reads back as `n`, is never empty, and starts with
/// `0` only for `0` itself.
pub proof fn lemma_decimal_reads_back(n: nat)
    ensures
        decimal_value(decimal(n)) == n,
        decimal(n).len() >= 1,
        decimal(n)[0] == '0' <==> n == 0,
    decreases n,
{
    if n < 10 {
        lemma_digit_value(n as int);
        let s = decimal(n);
        assert(s.drop_last() =~= Seq::<char>::empty());
        assert(decimal_value(s) == decimal_value(s.drop_last()) * 10 + digit_value(s.last()));
    } else {
        lemma_decimal_reads_back(n / 10);
        lemma_digit_value((n % 10) as int);
        let s = decimal(n);
        assert(s.drop_last() =~= decimal(n / 10));
        assert(s[0] == decimal(n / 10)[0]);
        assert(s.last() == digit_char((n % 10) as int));
        assert(decimal_value(s) == decimal_value(decimal(n / 10)) * 10 + (n % 10) as int);
        assert((n / 10) * 10 + n % 10 == n) by (nonlinear_arith);
    }
}

/// `t` with its `{}` placeholders replaced, from the left, by `args` in order;
/// once the arguments run out, the rest of `t` is kept as it stands.
pub open spec fn filled(t: Seq<char>, args: Seq<Seq<char>>) -> Seq<char>
    decreases t.len(),
{
    if t.len() == 0 {
        Seq::empty()
    } else if args.len() > 0 && t.len() >= 2 && t[0] == '{' && t[1] == '}' {
        args[0] + filled(t.skip(2), args.skip(1))
    } else {
        seq![t[0]] + filled(t.skip(1), args)
    }
}

/// `u32`'s `to_string`: claims that the result is the decimal representation.
#[verifier::external_body]
pub(crate) fn u32_to_string(n: u32) -> (s: String)
    ensures
        s@ == decimal(n as nat),
{
    n.to_string()
}

proof fn lemma_skip_skip(t: Seq<char>, i: int, k: int)
    requires
        0 <= i,
        0 <= k,
        i + k <= t.len(),
    ensures
        t.skip(i).skip(k) =~= t.skip(i + k),
{
}

/// A text without `{` is filled as it stands.
pub proof fn lemma_filled_plain_prefix(a: Seq<char>, b: Seq<char>, args: Seq<Seq<char>>)
    requires
        !a.contains('{'),
    ensures
        filled(a + b, args) == a + filled(b, args),
    decreases a.len(),
{
    if a.len() > 0 {
        let t = a + b;
        assert(t[0] == a[0]);
        assert(a[0] != '{') by {
            if a[0] == '{' {
                assert(a.contains('{'));
            }
        }
        let rest = a.skip(1);
        assert(!rest.contains('{')) by {
            if rest.contains('{') {
                let k = choose|k: int| 0 <= k < rest.len() && rest[k] == '{';
                assert(a[k + 1] == '{');
            }
        }
        lemma_filled_plain_prefix(rest, b, args);
        assert(t.skip(1) =~= rest + b);
        assert(a =~= seq![a[0]] + rest);
    } else {
        assert(a + b =~= b);
    }
}

/// Once the arguments have run out, the text is kept as it stands, its
/// placeholders included.
pub proof fn lemma_filled_without_args(t: Seq<char>)
    ensures
        filled(t, Seq::<Seq<char>>::empty()) == t,
    decreases t.len(),
{
    if t.len() > 0 {
        lemma_filled_without_args(t.skip(1));
        assert(t =~= seq![t[0]] + t.skip(1));
    }
}

/// A leading placeholder takes the first argument.
pub proof fn lemma_filled_placeholder(b: Seq<char>, args: Seq<Seq<char>>)
    requires
        args.len() > 0,
    ensures
        filled(seq!['{', '}'] + b, args) == args[0] + filled(b, args.skip(1)),
{
    let t = seq!['{', '}'] + b;
    assert(t[0] == '{');
    assert(t[1] == '}');
    assert(t.skip(2) =~= b);
}

/// Fills the `{}` placeholders of `template` with `args`, from the left and in
/// order; the text after the last argument is used is kept as it stands.
pub fn fill_placeholders(template: &str, args: &Vec<String>) -> (out: String)
    ensures
        out@ == filled(template@, args@.map_values(|a: String| a@)),
{
    let ghost t = template@;
    let ghost all = args@.map_values(|a: String| a@);
    let n = template.unicode_len();
    let nargs = args.len();
    let mut out = String::new();
    let mut i: usize = 0;
    let mut k: usize = 0;
    proof {
        assert(t.skip(0) =~= t);
        assert(all.skip(0) =~= all);
    }
    while i < n
        invariant
            n == t.len(),
            nargs == args@.len(),
            all == args@.map_values(|a: String| a@),
            t == template@,
            i <= n,
            k <= nargs,
            filled(t, all) == out@ + filled(t.skip(i as int), all.skip(k as int)),
        decreases n - i,
    {
        let ghost rest = t.skip(i as int);
        let ghost rest_args = all.skip(k as int);
        if k < nargs && i + 1 < n && template.get_char(i) == '{' && template.get_char(i + 1) == '}' {
            let arg = args[k].as_str();
            proof {
                assert(rest[0] == t[i as int]);
                assert(rest[1] == t[i + 1]);
                assert(rest_args[0] == all[k as int]);
                lemma_skip_skip(t, i as int, 2);
                assert(rest_args.skip(1) =~= all.skip(k + 1));
                assert(filled(rest, rest_args) == rest_args[0] + filled(rest.skip(2), rest_args.skip(1)));
            }
            out.append(arg);
            i = i + 2;
            k = k + 1;
            proof {
                assert(out@ + filled(t.skip(i as int), all.skip(k as int)) =~= (out@.subrange(0, out@.len() - arg@.len())) + (arg@ + filled(t.skip(i as int), all.skip(k as int))));
            }
        } else {
            let piece = template.substring_char(i, i + 1);
            proof {
                assert(rest[0] == t[i as int]);
                assert(piece@ =~= seq![t[i as int]]);
                lemma_skip_skip(t, i as int, 1);
                if rest_args.len() > 0 && rest.len() >= 2 && rest[0] == '{' && rest[1] == '}' {
                    assert(false);
                }
                assert(filled(rest, rest_args) == seq![rest[0]] + filled(rest.skip(1), rest_args));
            }
            let ghost before = out@;
            out.append(piece);
            i = i + 1;
            proof {
                assert(out@ + filled(t.skip(i as int), all.skip(k as int)) =~= before + (seq![t[i - 1]] + filled(t.skip(i as int), all.skip(k as int))));
            }
        }
    }
    proof {
        assert(filled(t.skip(n as int), all.skip(k as int)) == Seq::<char>::empty());
        assert(out@ + Seq::<char>::empty() =~= out@);
    }
    out
}

} // verus!
