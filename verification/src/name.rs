use vstd::prelude::*;
use vstd::string::*;

verus! {

/// A lowercase ASCII letter.
pub open spec fn is_lower_alpha(c: char) -> bool {
    97 <= c as u32 && c as u32 <= 122
}

/// A character a strict branch name may hold: a lowercase letter or the
/// hyphen that separates words.
pub open spec fn valid_name_char(c: char) -> bool {
    is_lower_alpha(c) || c == '-'
}

/// How many hyphens the text holds.
pub open spec fn count_hyphens(s: Seq<char>) -> nat
    decreases s.len(),
{
    if s.len() == 0 {
        0
    } else {
        count_hyphens(s.drop_last()) + (if s.last() == '-' {
            1nat
        } else {
            0nat
        })
    }
}

/// Some character of `s` between the positions `lo` and `hi` (inclusive) is a
/// hyphen.
pub open spec fn hyphen_between(s: Seq<char>, lo: int, hi: int) -> bool {
    exists|k: int| lo <= k <= hi && #[trigger] s[k] == '-'
}

/// No word of the name is longer than ten letters: every window of eleven
/// consecutive characters holds a hyphen.
pub open spec fn no_long_word(s: Seq<char>) -> bool {
    forall|i: int| 0 <= i && i + 10 < s.len() ==> #[trigger] hyphen_between(s, i, i + 10)
}

/// The strict shape of a generated branch name: three to five words of one to
/// ten lowercase letters each, separated by single hyphens. Spelled out over
/// the characters: only letters and hyphens, no hyphen at either end, no two
/// hyphens in a row (so every word has at least one letter), two to four
/// hyphens (so three to five words), and no word longer than ten letters.
pub open spec fn strict_name(s: Seq<char>) -> bool {
    &&& s.len() > 0
    &&& (forall|i: int| 0 <= i < s.len() ==> valid_name_char(#[trigger] s[i]))
    &&& s[0] != '-'
    &&& s[s.len() - 1] != '-'
    &&& (forall|i: int| 0 <= i < s.len() - 1 ==> !(#[trigger] s[i] == '-' && s[i + 1] == '-'))
    &&& 2 <= count_hyphens(s) <= 4
    &&& no_long_word(s)
}

fn all_valid_chars(s: &str) -> (b: bool)
    ensures
        b == forall|i: int| 0 <= i < s@.len() ==> valid_name_char(#[trigger] s@[i]),
{
    let n = s.unicode_len();
    let mut i: usize = 0;
    while i < n
        invariant
            0 <= i <= n,
            n == s@.len(),
            forall|j: int| 0 <= j < i ==> valid_name_char(#[trigger] s@[j]),
        decreases n - i,
    {
        let c = s.get_char(i);
        let u = c as u32;
        if !(97 <= u && u <= 122 || c == '-') {
            assert(!valid_name_char(s@[i as int]));
            return false;
        }
        i += 1;
    }
    true
}

fn hyphens(s: &str) -> (r: usize)
    ensures
        r as nat == count_hyphens(s@),
{
    let n = s.unicode_len();
    let mut count: usize = 0;
    let mut i: usize = 0;
    proof {
        assert(s@.take(0) =~= Seq::<char>::empty());
    }
    while i < n
        invariant
            0 <= i <= n,
            n == s@.len(),
            count <= i,
            count as nat == count_hyphens(s@.take(i as int)),
        decreases n - i,
    {
        proof {
            assert(s@.take(i as int + 1).drop_last() =~= s@.take(i as int));
            assert(s@.take(i as int + 1).last() == s@[i as int]);
        }
        let c = s.get_char(i);
        if c == '-' {
            count += 1;
        }
        i += 1;
    }
    proof {
        assert(s@.take(n as int) =~= s@);
    }
    count
}

fn no_double_hyphen(s: &str) -> (b: bool)
    ensures
        b == forall|i: int| 0 <= i < s@.len() - 1 ==> !(#[trigger] s@[i] == '-' && s@[i + 1] == '-'),
{
    let n = s.unicode_len();
    if n == 0 {
        return true;
    }
    let mut prev = s.get_char(0);
    let mut i: usize = 1;
    while i < n
        invariant
            1 <= i <= n,
            n == s@.len(),
            prev == s@[i - 1],
            forall|j: int| 0 <= j < i - 1 ==> !(#[trigger] s@[j] == '-' && s@[j + 1] == '-'),
        decreases n - i,
    {
        let c = s.get_char(i);
        if prev == '-' && c == '-' {
            assert(s@[i - 1] == '-' && s@[i as int] == '-');
            return false;
        }
        prev = c;
        i += 1;
    }
    true
}

fn words_short(s: &str) -> (b: bool)
    ensures
        b == no_long_word(s@),
{
    let n = s.unicode_len();
    // `run` is the number of characters since the last hyphen in what has
    // been scanned, capped by the early return below.
    let mut run: usize = 0;
    let mut i: usize = 0;
    while i < n
        invariant
            0 <= i <= n,
            n == s@.len(),
            run <= i,
            run <= 10,
            forall|j: int| i - run <= j < i ==> #[trigger] s@[j] != '-',
            run < i ==> s@[i - run - 1] == '-',
            forall|i0: int| 0 <= i0 && i0 + 10 < i ==> #[trigger] hyphen_between(s@, i0, i0 + 10),
        decreases n - i,
    {
        let c = s.get_char(i);
        if c == '-' {
            run = 0;
        } else {
            if run == 10 {
                // Eleven letters in a row end at position i: the window
                // starting at i - 10 has no hyphen.
                assert(forall|k: int| i - 10 <= k <= i ==> #[trigger] s@[k] != '-');
                assert(!hyphen_between(s@, i - 10, i - 10 + 10));
                assert(!no_long_word(s@));
                return false;
            }
            run += 1;
        }
        i += 1;
        proof {
            if i >= 11 {
                // The new window of eleven characters ends at i - 1; the
                // character at i - 1 - run is a hyphen inside it.
                if c == '-' {
                    assert(s@[i - 1] == '-');
                    assert(hyphen_between(s@, i - 11, i - 1));
                } else {
                    assert(s@[i - run - 1] == '-');
                    assert(i - 11 <= i - run - 1 <= i - 1);
                    assert(hyphen_between(s@, i - 11, i - 1));
                }
            }
        }
    }
    true
}

/// Decides whether a name has the strict branch-name shape.
pub fn strict_name_check(s: &str) -> (b: bool)
    ensures
        b == strict_name(s@),
{
    let n = s.unicode_len();
    if n == 0 {
        return false;
    }
    if !all_valid_chars(s) {
        return false;
    }
    if s.get_char(0) == '-' {
        return false;
    }
    if s.get_char(n - 1) == '-' {
        return false;
    }
    if !no_double_hyphen(s) {
        return false;
    }
    let h = hyphens(s);
    if h < 2 || 4 < h {
        return false;
    }
    words_short(s)
}

/// The hyphen placement every branch name must respect, whichever path
/// produced it: not empty, no hyphen at either end, and no two hyphens in a
/// row, so that the words are separated by single hyphens and the name
/// cannot read as a command flag.
pub open spec fn name_shape_ok(n: Seq<char>) -> bool {
    &&& n.len() > 0
    &&& n[0] != '-'
    &&& n[n.len() - 1] != '-'
    &&& (forall|i: int| 0 <= i < n.len() - 1 ==> !(#[trigger] n[i] == '-' && n[i + 1] == '-'))
}

/// Decides whether a name respects the hyphen placement.
pub fn name_shape_check(s: &str) -> (b: bool)
    ensures
        b == name_shape_ok(s@),
{
    let n = s.unicode_len();
    if n == 0 {
        return false;
    }
    if s.get_char(0) == '-' {
        return false;
    }
    if s.get_char(n - 1) == '-' {
        return false;
    }
    no_double_hyphen(s)
}

/// The name the publisher receives: the generated name alone, or
/// `prefix`, a slash, and the name when a prefix was asked for.
pub open spec fn prefixed(prefix: Option<Seq<char>>, name: Seq<char>) -> Seq<char> {
    match prefix {
        Some(p) => p + seq!['/'] + name,
        None => name,
    }
}

/// Composes the published name from an optional prefix and the generated
/// name.
pub fn apply_prefix(prefix: &Option<String>, name: String) -> (r: String)
    ensures
        r@ == prefixed(prefix.deep_view(), name@),
{
    match prefix {
        Some(p) => {
            let out = p.clone();
            let out = out.concat("/");
            let out = out.concat(name.as_str());
            proof {
                reveal_strlit("/");
                assert("/"@ =~= seq!['/']);
                assert(out@ =~= prefixed(prefix.deep_view(), name@));
            }
            out
        },
        None => name,
    }
}

} // verus!
