//! Character-level helpers: collecting a string's characters, counting its
//! lines, and the code-point order used to keep watch-cache keys sorted.

use vstd::prelude::*;
use vstd::std_specs::iter::IteratorSpec;

verus! {

broadcast use vstd::string::group_string_axioms;

/// Relies on `String::push`: appends exactly the one character.
pub assume_specification[ String::push ](s: &mut String, c: char)
    ensures
        final(s)@ == old(s)@.push(c),
;

/// Relies on `String::pop`: removes and returns the last character, or does
/// nothing on an empty string.
pub assume_specification[ String::pop ](s: &mut String) -> (r: Option<char>)
    ensures
        old(s)@.len() == 0 ==> r is None && final(s)@ == old(s)@,
        old(s)@.len() > 0 ==> r == Some(old(s)@.last()) && final(s)@ == old(s)@.drop_last(),
;

/// The characters of `s`, in order.
pub fn chars_vec(s: &str) -> (v: Vec<char>)
    ensures
        v@ == s@,
{
    let mut v: Vec<char> = Vec::new();
    let mut it = s.chars();
    proof {
        assert(Seq::<char>::empty() + it.remaining() =~= s@);
    }
    loop
        invariant_except_break
            it.obeys_prophetic_iter_laws(),
            it.decrease() is Some,
            v@ + it.remaining() == s@,
        ensures
            v@ == s@,
        decreases it.decrease()->0,
    {
        let ghost pre = it;
        match it.next() {
            Some(c) => {
                proof {
                    assert(v@.push(c) + it.remaining() =~= v@ + pre.remaining());
                }
                v.push(c);
            },
            None => {
                proof {
                    assert(v@ =~= s@);
                }
                break ;
            },
        }
    }
    v
}

/// How many newline characters `s` holds.
pub open spec fn newline_count(s: Seq<char>) -> int
    decreases s.len(),
{
    if s.len() == 0 {
        0
    } else {
        (if s[0] == '\n' {
            1int
        } else {
            0int
        }) + newline_count(s.drop_first())
    }
}

/// How many lines `s` has, counted as `str::lines` does: newline characters
/// separate lines, and text after the last newline counts as one more line.
pub open spec fn line_count(s: Seq<char>) -> int {
    if s.len() == 0 {
        0
    } else if s[s.len() - 1] == '\n' {
        newline_count(s)
    } else {
        newline_count(s) + 1
    }
}

/// Newlines are at most one per character.
proof fn lemma_newline_count_bounds(s: Seq<char>)
    ensures
        0 <= newline_count(s) <= s.len(),
        s.len() > 0 && s[s.len() - 1] != '\n' ==> newline_count(s) <= s.len() - 1,
    decreases s.len(),
{
    if s.len() > 0 {
        lemma_newline_count_bounds(s.drop_first());
        if s.len() > 1 {
            assert(s.drop_first()[s.drop_first().len() - 1] == s[s.len() - 1]);
        }
    }
}

/// Counts the lines of `s`, as `str::lines` would.
pub fn count_lines(s: &str) -> (n: usize)
    ensures
        n == line_count(s@),
{
    let chars = chars_vec(s);
    proof {
        lemma_newline_count_bounds(s@);
        assert(s@.skip(0) =~= s@);
    }
    let len: usize = chars.len();
    let mut nl: usize = 0;
    let mut i: usize = 0;
    while i < len
        invariant
            len == s@.len(),
            chars@ == s@,
            i <= len,
            nl <= i,
            newline_count(s@.skip(i as int)) + nl == newline_count(s@),
        decreases len - i,
    {
        proof {
            assert(s@.skip(i as int).len() > 0);
            assert(s@.skip(i as int)[0] == s@[i as int]);
            assert(s@.skip(i as int).drop_first() =~= s@.skip(i as int + 1));
        }
        if chars[i] == '\n' {
            nl = nl + 1;
        }
        i = i + 1;
    }
    proof {
        assert(s@.skip(len as int) =~= Seq::<char>::empty());
    }
    if len == 0 {
        0
    } else if chars[len - 1] == '\n' {
        nl
    } else {
        nl + 1
    }
}

/// Code-point order on character sequences: the order `BTreeMap<String, _>`
/// iterates its keys in, since byte order on UTF-8 agrees with code-point
/// order.
pub open spec fn chars_lt(a: Seq<char>, b: Seq<char>) -> bool
    decreases a.len(),
{
    if b.len() == 0 {
        false
    } else if a.len() == 0 {
        true
    } else if a[0] == b[0] {
        chars_lt(a.drop_first(), b.drop_first())
    } else {
        (a[0] as u32) < (b[0] as u32)
    }
}

/// Distinct characters have distinct code points.
proof fn lemma_char_cast_injective(c: char, d: char)
    requires
        c != d,
    ensures
        (c as u32) != (d as u32),
{
}

/// Code-point order is transitive.
pub proof fn lemma_chars_lt_transitive(a: Seq<char>, b: Seq<char>, c: Seq<char>)
    requires
        chars_lt(a, b),
        chars_lt(b, c),
    ensures
        chars_lt(a, c),
    decreases a.len(),
{
    if a.len() == 0 {
    } else if b.len() == 0 {
    } else if c.len() == 0 {
    } else {
        if a[0] == b[0] && b[0] == c[0] {
            lemma_chars_lt_transitive(a.drop_first(), b.drop_first(), c.drop_first());
        } else {
            assert((a[0] as u32) <= (b[0] as u32) && (b[0] as u32) <= (c[0] as u32));
            if a[0] == c[0] {
                assert((a[0] as u32) == (c[0] as u32));
                assert(a[0] != b[0] || b[0] != c[0]);
                assert(false);
            }
        }
    }
}

/// Exactly one of `a < b`, `a == b`, `b < a` holds under code-point order.
pub proof fn lemma_chars_lt_trichotomy(a: Seq<char>, b: Seq<char>)
    ensures
        chars_lt(a, b) || chars_lt(b, a) || a == b,
        chars_lt(a, b) ==> !chars_lt(b, a) && a != b,
        chars_lt(b, a) ==> !chars_lt(a, b) && a != b,
    decreases a.len(),
{
    if a.len() == 0 && b.len() == 0 {
        assert(a =~= b);
    } else if a.len() == 0 {
        assert(chars_lt(a, b));
    } else if b.len() == 0 {
        assert(chars_lt(b, a));
    } else if a[0] == b[0] {
        lemma_chars_lt_trichotomy(a.drop_first(), b.drop_first());
        if a.drop_first() == b.drop_first() {
            assert forall|j: int| 0 <= j < a.len() implies a[j] == b[j] by {
                if j > 0 {
                    assert(a[j] == a.drop_first()[j - 1]);
                    assert(b[j] == b.drop_first()[j - 1]);
                }
            }
            assert(a =~= b);
        }
        if a == b {
            assert(a.drop_first() =~= b.drop_first());
        }
    } else {
        assert(a != b);
        lemma_char_cast_injective(a[0], b[0]);
        assert(chars_lt(a, b) || chars_lt(b, a));
    }
}

/// Three-way code-point comparison of two character vectors: negative when
/// `a` sorts first, zero when they are equal, positive when `b` sorts first.
pub fn chars_compare(a: &Vec<char>, b: &Vec<char>) -> (o: i8)
    ensures
        o == -1 || o == 0 || o == 1,
        o == -1 <==> chars_lt(a@, b@),
        o == 0 <==> a@ == b@,
        o == 1 <==> chars_lt(b@, a@),
{
    let alen: usize = a.len();
    let blen: usize = b.len();
    let mut i: usize = 0;
    proof {
        assert(a@.skip(0) =~= a@);
        assert(b@.skip(0) =~= b@);
    }
    loop
        invariant
            alen == a@.len(),
            blen == b@.len(),
            i <= alen,
            i <= blen,
            chars_lt(a@, b@) <==> chars_lt(a@.skip(i as int), b@.skip(i as int)),
            chars_lt(b@, a@) <==> chars_lt(b@.skip(i as int), a@.skip(i as int)),
            (a@ == b@) <==> (a@.skip(i as int) == b@.skip(i as int)),
        decreases alen - i,
    {
        proof {
            lemma_chars_lt_trichotomy(a@, b@);
        }
        if i >= alen || i >= blen {
            if alen == blen {
                proof {
                    assert(a@.skip(i as int) =~= b@.skip(i as int));
                }
                return 0;
            } else if alen < blen {
                proof {
                    assert(a@.skip(i as int).len() == 0 && b@.skip(i as int).len() > 0);
                }
                return -1;
            } else {
                proof {
                    assert(b@.skip(i as int).len() == 0 && a@.skip(i as int).len() > 0);
                }
                return 1;
            }
        }
        let ca: char = a[i];
        let cb: char = b[i];
        proof {
            assert(a@.skip(i as int).len() > 0 && b@.skip(i as int).len() > 0);
            assert(a@.skip(i as int)[0] == a@[i as int]);
            assert(b@.skip(i as int)[0] == b@[i as int]);
            assert(a@.skip(i as int).drop_first() =~= a@.skip(i as int + 1));
            assert(b@.skip(i as int).drop_first() =~= b@.skip(i as int + 1));
        }
        if ca != cb {
            if (ca as u32) < (cb as u32) {
                proof {
                    assert(chars_lt(a@.skip(i as int), b@.skip(i as int)));
                }
                return -1;
            } else {
                proof {
                    assert((ca as u32) != (cb as u32));
                    assert((cb as u32) < (ca as u32));
                    assert(chars_lt(b@.skip(i as int), a@.skip(i as int)));
                }
                return 1;
            }
        }
        proof {
            if a@.skip(i as int + 1) == b@.skip(i as int + 1) {
                assert(a@.skip(i as int) =~= b@.skip(i as int));
            }
            if a@.skip(i as int) == b@.skip(i as int) {
                assert(a@.skip(i as int + 1) =~= b@.skip(i as int + 1));
            }
        }
        i = i + 1;
    }
}

} // verus!
