//! The image URL resolver: fills every `{width}` placeholder of an image
//! URL template with the decimal form of the requested width. Total and
//! deterministic; a template without the placeholder comes back unchanged.

use vstd::prelude::*;

verus! {

/// The decimal digit character for `d` (meaningful for `d < 10`).
pub open spec fn digit_char(d: nat) -> char {
    if d == 0 {
        '0'
    } else if d == 1 {
        '1'
    } else if d == 2 {
        '2'
    } else if d == 3 {
        '3'
    } else if d == 4 {
        '4'
    } else if d == 5 {
        '5'
    } else if d == 6 {
        '6'
    } else if d == 7 {
        '7'
    } else if d == 8 {
        '8'
    } else {
        '9'
    }
}

/// The decimal form of `n`, most significant digit first, no leading zeros
/// (a single `'0'` for zero itself).
pub open spec fn dec_str(n: nat) -> Seq<char>
    decreases n,
{
    if n < 10 {
        seq![digit_char(n)]
    } else {
        dec_str(n / 10) + seq![digit_char(n % 10)]
    }
}

/// The placeholder token that the resolver looks for.
pub open spec fn width_token() -> Seq<char> {
    seq!['{', 'w', 'i', 'd', 't', 'h', '}']
}

/// `s` with every occurrence of the width token replaced by `rep`,
/// scanning left to right without overlap, exactly as `str::replace` does.
pub open spec fn replaced(s: Seq<char>, rep: Seq<char>) -> Seq<char>
    decreases s.len(),
{
    if s.len() < 7 {
        s
    } else if s.subrange(0, 7) == width_token() {
        rep + replaced(s.skip(7), rep)
    } else {
        seq![s[0]] + replaced(s.skip(1), rep)
    }
}

/// Whether the width token stands at position `i` of `s`.
pub open spec fn token_at_idx(s: Seq<char>, i: int) -> bool {
    0 <= i && i + 7 <= s.len() && s.subrange(i, i + 7) == width_token()
}

/// Whether the width token occurs anywhere in `s`.
pub open spec fn has_token(s: Seq<char>) -> bool {
    exists|i: int| #[trigger] token_at_idx(s, i)
}

/// What `image_url` returns: the template with every placeholder replaced
/// by the decimal form of the width.
pub open spec fn resolved(t: Seq<char>, w: u32) -> Seq<char> {
    replaced(t, dec_str(w as nat))
}

/// Whether `c` is a decimal digit character.
spec fn is_digit(c: char) -> bool {
    c == '0' || c == '1' || c == '2' || c == '3' || c == '4' || c == '5' || c == '6' || c == '7'
        || c == '8' || c == '9'
}

/// The decimal form of a number is never empty and holds digits alone.
proof fn lemma_dec_str_digits(n: nat)
    ensures
        dec_str(n).len() >= 1,
        forall|i: int| 0 <= i < dec_str(n).len() ==> is_digit(#[trigger] dec_str(n)[i]),
    decreases n,
{
    if n >= 10 {
        lemma_dec_str_digits(n / 10);
        assert forall|i: int| 0 <= i < dec_str(n).len() implies is_digit(
            #[trigger] dec_str(n)[i],
        ) by {
            if i < dec_str(n / 10).len() {
                assert(dec_str(n)[i] == dec_str(n / 10)[i]);
            } else {
                assert(dec_str(n)[i] == digit_char(n % 10));
            }
        }
    }
}

/// A sequence without the token is left unchanged by the replacement.
proof fn lemma_replaced_id(s: Seq<char>, rep: Seq<char>)
    requires
        !has_token(s),
    ensures
        replaced(s, rep) == s,
    decreases s.len(),
{
    if s.len() >= 7 {
        if s.subrange(0, 7) == width_token() {
            assert(token_at_idx(s, 0));
            assert(has_token(s));
        }
        assert(!has_token(s.skip(1))) by {
            if has_token(s.skip(1)) {
                let i = choose|i: int| #[trigger] token_at_idx(s.skip(1), i);
                assert(s.subrange(i + 1, i + 8) =~= s.skip(1).subrange(i, i + 7));
                assert(token_at_idx(s, i + 1));
                assert(has_token(s));
            }
        }
        lemma_replaced_id(s.skip(1), rep);
        assert(seq![s[0]] + s.skip(1) =~= s);
    }
}

/// If the replacement text holds digits alone and the replaced sequence
/// starts with a proper suffix of the token, the input sequence started
/// with that suffix too.
proof fn lemma_suffix_start(t: Seq<char>, rep: Seq<char>, j: int)
    requires
        1 <= j < 7,
        rep.len() >= 1,
        forall|k: int| 0 <= k < rep.len() ==> is_digit(#[trigger] rep[k]),
        replaced(t, rep).len() >= 7 - j,
        replaced(t, rep).subrange(0, 7 - j) == width_token().skip(j),
    ensures
        t.len() >= 7 - j,
        t.subrange(0, 7 - j) == width_token().skip(j),
    decreases t.len(),
{
    let r = replaced(t, rep);
    assert(width_token().skip(j)[0] == width_token()[j]);
    assert(!is_digit(width_token()[j]));
    if t.len() < 7 {
        assert(r == t);
    } else if t.subrange(0, 7) == width_token() {
        assert(r[0] == rep[0]);
        assert(r[0] == width_token().skip(j)[0]);
        assert(false);
    } else {
        let r2 = replaced(t.skip(1), rep);
        assert(r == seq![t[0]] + r2);
        assert(t[0] == r[0]);
        assert(t[0] == width_token()[j]);
        if j == 6 {
            assert(t.subrange(0, 1) =~= width_token().skip(6));
        } else {
            let q = r2.subrange(0, 6 - j);
            let wt = width_token().skip(j + 1);
            assert(q =~= wt) by {
                assert forall|k: int| 0 <= k < 6 - j implies #[trigger] q[k] == wt[k] by {
                    assert(r2[k] == r[k + 1]);
                    assert(r.subrange(0, 7 - j)[k + 1] == r[k + 1]);
                    assert(width_token().skip(j)[k + 1] == width_token()[j + 1 + k]);
                    assert(wt[k] == width_token()[j + 1 + k]);
                }
            }
            lemma_suffix_start(t.skip(1), rep, j + 1);
            let p = t.subrange(0, 7 - j);
            let wj = width_token().skip(j);
            assert(p =~= wj) by {
                assert forall|k: int| 0 <= k < 7 - j implies #[trigger] p[k] == wj[k] by {
                    if k == 0 {
                        assert(t[0] == width_token()[j]);
                    } else {
                        assert(t.skip(1).subrange(0, 6 - j)[k - 1] == t[k]);
                        assert(width_token().skip(j + 1)[k - 1] == width_token()[j + k]);
                        assert(wj[k] == width_token()[j + k]);
                    }
                }
            }
        }
    }
}

/// After replacing with digits the token is gone: no occurrence survives
/// and none can form, since the token holds no digit.
proof fn lemma_replaced_no_token(t: Seq<char>, rep: Seq<char>)
    requires
        rep.len() >= 1,
        forall|k: int| 0 <= k < rep.len() ==> is_digit(#[trigger] rep[k]),
    ensures
        !has_token(replaced(t, rep)),
    decreases t.len(),
{
    let r = replaced(t, rep);
    assert forall|i: int| !#[trigger] token_at_idx(r, i) by {
        if token_at_idx(r, i) {
            assert(r[i] == r.subrange(i, i + 7)[0]);
            assert(r[i] == width_token()[0]);
            assert(!is_digit(width_token()[0]));
            if t.len() < 7 {
                assert(r == t);
                assert(i + 7 <= t.len());
                assert(false);
            } else if t.subrange(0, 7) == width_token() {
                let r2 = replaced(t.skip(7), rep);
                lemma_replaced_no_token(t.skip(7), rep);
                assert(r == rep + r2);
                if i < rep.len() {
                    assert(r[i] == rep[i]);
                    assert(false);
                } else {
                    assert(r2.subrange(i - rep.len(), i - rep.len() + 7) =~= r.subrange(i, i + 7));
                    assert(token_at_idx(r2, i - rep.len()));
                    assert(has_token(r2));
                    assert(false);
                }
            } else {
                let r2 = replaced(t.skip(1), rep);
                lemma_replaced_no_token(t.skip(1), rep);
                assert(r == seq![t[0]] + r2);
                if i >= 1 {
                    assert(r2.subrange(i - 1, i - 1 + 7) =~= r.subrange(i, i + 7));
                    assert(token_at_idx(r2, i - 1));
                    assert(has_token(r2));
                    assert(false);
                } else {
                    assert(r2.subrange(0, 6) =~= r.subrange(1, 7)) by {
                        assert forall|k: int| #![auto] 0 <= k < 6 implies r2.subrange(0, 6)[k]
                            == r.subrange(1, 7)[k] by {
                            assert(r2[k] == r[k + 1]);
                        }
                    }
                    assert(r.subrange(1, 7) =~= width_token().skip(1)) by {
                        assert forall|k: int| #![auto] 0 <= k < 6 implies r.subrange(1, 7)[k]
                            == width_token().skip(1)[k] by {
                            assert(r.subrange(i, i + 7)[k + 1] == r[k + 1]);
                        }
                    }
                    lemma_suffix_start(t.skip(1), rep, 1);
                    assert(t.subrange(0, 7) =~= width_token()) by {
                        assert forall|k: int| #![auto] 0 <= k < 7 implies t.subrange(0, 7)[k]
                            == width_token()[k] by {
                            if k == 0 {
                                assert(t[0] == r[0]);
                                assert(r[0] == width_token()[0]);
                            } else {
                                assert(t.skip(1).subrange(0, 6)[k - 1] == t[k]);
                                assert(width_token().skip(1)[k - 1] == width_token()[k]);
                            }
                        }
                    }
                    assert(false);
                }
            }
        }
    }
}

/// A template without the width token resolves to itself, whatever the
/// width.
pub proof fn lemma_resolve_without_token(t: Seq<char>, w: u32)
    requires
        !has_token(t),
    ensures
        resolved(t, w) == t,
{
    lemma_replaced_id(t, dec_str(w as nat));
}

/// A resolved template holds no width token any more: the replacement text
/// is all digits, and the token holds none.
pub proof fn lemma_resolved_no_token(t: Seq<char>, w: u32)
    ensures
        !has_token(resolved(t, w)),
{
    lemma_dec_str_digits(w as nat);
    lemma_replaced_no_token(t, dec_str(w as nat));
}

/// Resolving is idempotent: a second resolution, at any width, leaves the
/// result of the first unchanged.
pub proof fn lemma_resolve_idempotent(t: Seq<char>, w: u32, w2: u32)
    ensures
        resolved(resolved(t, w), w2) == resolved(t, w),
{
    lemma_resolved_no_token(t, w);
    lemma_replaced_id(resolved(t, w), dec_str(w2 as nat));
}

/// A one-character string slice for the digit `d`.
fn digit_str(d: u8) -> (r: &'static str)
    requires
        d < 10,
    ensures
        r@ == seq![digit_char(d as nat)],
{
    let r = match d {
        0 => "0",
        1 => "1",
        2 => "2",
        3 => "3",
        4 => "4",
        5 => "5",
        6 => "6",
        7 => "7",
        8 => "8",
        _ => "9",
    };
    proof {
        reveal_strlit("0");
        reveal_strlit("1");
        reveal_strlit("2");
        reveal_strlit("3");
        reveal_strlit("4");
        reveal_strlit("5");
        reveal_strlit("6");
        reveal_strlit("7");
        reveal_strlit("8");
        reveal_strlit("9");
        assert(r@ =~= seq![digit_char(d as nat)]);
    }
    r
}

/// Appends the decimal form of `w` to `out`.
fn append_decimal(out: &mut String, w: u32)
    ensures
        final(out)@ == old(out)@ + dec_str(w as nat),
    decreases w,
{
    if w >= 10 {
        append_decimal(out, w / 10);
    }
    out.append(digit_str((w % 10) as u8));
    proof {
        if w >= 10 {
            assert(dec_str(w as nat) == dec_str(w as nat / 10) + seq![digit_char(w as nat % 10)]);
            assert(final(out)@ =~= old(out)@ + dec_str(w as nat));
        } else {
            assert(final(out)@ =~= old(out)@ + dec_str(w as nat));
        }
    }
}

/// Whether the width token stands at character position `i` of `s`.
fn token_at(s: &str, i: usize) -> (b: bool)
    requires
        i + 7 <= s@.len(),
        s@.len() <= usize::MAX,
    ensures
        b == (s@.subrange(i as int, i as int + 7) == width_token()),
{
    let b = s.get_char(i) == '{' && s.get_char(i + 1) == 'w' && s.get_char(i + 2) == 'i'
        && s.get_char(i + 3) == 'd' && s.get_char(i + 4) == 't' && s.get_char(i + 5) == 'h'
        && s.get_char(i + 6) == '}';
    proof {
        let sub = s@.subrange(i as int, i as int + 7);
        if b {
            assert(sub =~= width_token());
        } else {
            if sub == width_token() {
                assert(s@[i as int] == sub[0]);
                assert(s@[i as int + 1] == sub[1]);
                assert(s@[i as int + 2] == sub[2]);
                assert(s@[i as int + 3] == sub[3]);
                assert(s@[i as int + 4] == sub[4]);
                assert(s@[i as int + 5] == sub[5]);
                assert(s@[i as int + 6] == sub[6]);
                assert(false);
            }
        }
    }
    b
}

/// Fills every `{width}` placeholder of an image URL template with the
/// decimal form of `width`; a template without the placeholder comes back
/// unchanged.
pub fn image_url(url: &str, width: u32) -> (r: String)
    ensures
        r@ == resolved(url@, width),
{
    let ghost rep = dec_str(width as nat);
    let n = url.unicode_len();
    let mut r = String::new();
    let mut i: usize = 0;
    proof {
        assert(url@.skip(0) =~= url@);
        assert(Seq::<char>::empty() + replaced(url@, rep) =~= replaced(url@, rep));
    }
    while i < n
        invariant
            n == url@.len(),
            i <= n,
            r@ + replaced(url@.skip(i as int), rep) == replaced(url@, rep),
            rep == dec_str(width as nat),
        decreases n - i,
    {
        let ghost tail = url@.skip(i as int);
        assert(tail.len() == n - i);
        if n - i >= 7 && token_at(url, i) {
            proof {
                assert(tail.subrange(0, 7) =~= url@.subrange(i as int, i as int + 7));
                assert(replaced(tail, rep) == rep + replaced(tail.skip(7), rep));
                assert(tail.skip(7) =~= url@.skip(i as int + 7));
            }
            append_decimal(&mut r, width);
            proof {
                assert(r@ + replaced(url@.skip(i as int + 7), rep) =~= replaced(url@, rep));
            }
            i += 7;
        } else {
            let piece = url.substring_char(i, i + 1);
            proof {
                assert(piece@ =~= seq![url@[i as int]]);
                if tail.len() < 7 {
                    assert(replaced(tail, rep) == tail);
                    assert(tail.skip(1) =~= url@.skip(i as int + 1));
                    assert(replaced(tail.skip(1), rep) == tail.skip(1));
                    assert(seq![tail[0]] + tail.skip(1) =~= tail);
                } else {
                    assert(tail.subrange(0, 7) =~= url@.subrange(i as int, i as int + 7));
                    assert(tail.subrange(0, 7) != width_token());
                    assert(replaced(tail, rep) == seq![tail[0]] + replaced(tail.skip(1), rep));
                    assert(tail.skip(1) =~= url@.skip(i as int + 1));
                }
                assert(tail[0] == url@[i as int]);
            }
            r.append(piece);
            proof {
                assert(r@ + replaced(url@.skip(i as int + 1), rep) =~= replaced(url@, rep));
            }
            i += 1;
        }
    }
    proof {
        assert(url@.skip(n as int) =~= Seq::<char>::empty());
        assert(replaced(Seq::<char>::empty(), rep) =~= Seq::<char>::empty());
        assert(r@ =~= replaced(url@, rep));
    }
    r
}

} // verus!
