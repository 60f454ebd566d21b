use vstd::prelude::*;
use vstd::string::*;

verus! {

/// The whitespace characters the blank test and the sanitizer recognise: the
/// Unicode White_Space set, the same characters that `str::trim` strips
/// (tab through carriage return, space, next line, no-break space, ogham
/// space mark, the en-quad to hair-space block, the line and paragraph
/// separators, narrow no-break space, medium mathematical space, and
/// ideographic space).
pub open spec fn is_space_char(c: char) -> bool {
    let u = c as u32;
    ||| (9 <= u && u <= 13)
    ||| u == 32
    ||| u == 0x85
    ||| u == 0xA0
    ||| u == 0x1680
    ||| (0x2000 <= u && u <= 0x200A)
    ||| u == 0x2028
    ||| u == 0x2029
    ||| u == 0x202F
    ||| u == 0x205F
    ||| u == 0x3000
}

/// Decides whether one character is whitespace.
pub fn space_char(c: char) -> (r: bool)
    ensures
        r == is_space_char(c),
{
    let u = c as u32;
    (9 <= u && u <= 13) || u == 32 || u == 0x85 || u == 0xA0 || u == 0x1680 || (0x2000 <= u && u
        <= 0x200A) || u == 0x2028 || u == 0x2029 || u == 0x202F || u == 0x205F || u == 0x3000
}

/// A text is blank when every character in it is whitespace (so in
/// particular the empty text is blank).
pub open spec fn is_blank(s: Seq<char>) -> bool {
    forall|i: int| 0 <= i < s.len() ==> is_space_char(s[i])
}

/// Decides blankness of a text, character by character.
pub fn blank(s: &str) -> (r: bool)
    ensures
        r == is_blank(s@),
{
    let n = s.unicode_len();
    let mut i: usize = 0;
    while i < n
        invariant
            0 <= i <= n,
            n == s@.len(),
            forall|j: int| 0 <= j < i ==> is_space_char(s@[j]),
        decreases n - i,
    {
        let c = s.get_char(i);
        if !space_char(c) {
            assert(!is_space_char(s@[i as int]));
            return false;
        }
        i += 1;
    }
    true
}

/// ASCII case folding of one character: the uppercase letters move to their
/// lowercase counterparts, everything else is untouched.
pub open spec fn lower_char(c: char) -> char {
    if 65 <= c as u32 && c as u32 <= 90 {
        ((c as u32 + 32) as u8) as char
    } else {
        c
    }
}

/// Folds one character to lowercase.
pub fn to_lower(c: char) -> (r: char)
    ensures
        r == lower_char(c),
{
    let u = c as u32;
    if 65 <= u && u <= 90 {
        ((u + 32) as u8) as char
    } else {
        c
    }
}

/// The input with its leading whitespace removed.
pub open spec fn trim_start_rec(s: Seq<char>) -> Seq<char>
    decreases s.len(),
{
    if s.len() > 0 && is_space_char(s[0]) {
        trim_start_rec(s.drop_first())
    } else {
        s
    }
}

/// The collapsing pass of the sanitizer, read from the front: every run of
/// whitespace that is followed by more text becomes one hyphen, a run that
/// reaches the end of the text disappears, and every other character is
/// folded to lowercase.
pub open spec fn collapse_rec(s: Seq<char>) -> Seq<char>
    decreases s.len(),
{
    if s.len() == 0 {
        s
    } else if is_space_char(s[0]) {
        if s.len() > 1 && !is_space_char(s[1]) {
            seq!['-'] + collapse_rec(s.drop_first())
        } else {
            collapse_rec(s.drop_first())
        }
    } else {
        seq![lower_char(s[0])] + collapse_rec(s.drop_first())
    }
}

/// The input with every trailing hyphen removed.
pub open spec fn strip_hyphens_end(s: Seq<char>) -> Seq<char>
    decreases s.len(),
{
    if s.len() > 0 && s.last() == '-' {
        strip_hyphens_end(s.drop_last())
    } else {
        s
    }
}

/// What the sanitizer produces from raw generated text: trim leading
/// whitespace, collapse the remaining whitespace runs to single hyphens while
/// folding to lowercase (a trailing run disappears with the trimming), then
/// strip any hyphens left at the end.
pub open spec fn sanitized(s: Seq<char>) -> Seq<char> {
    strip_hyphens_end(collapse_rec(trim_start_rec(s)))
}

/// Relies on `String::push` from std: it appends exactly the given character
/// at the end of the string.
#[verifier::external_body]
pub(crate) fn push_char(s: &mut String, c: char)
    ensures
        final(s)@ == old(s)@.push(c),
{
    s.push(c);
}

/// Reduces raw generated text to a branch-name token, exactly as
/// `sanitized` describes.
pub fn sanitize(raw: &str) -> (r: String)
    ensures
        r@ == sanitized(raw@),
{
    let n = raw.unicode_len();

    // Pass over the leading whitespace.
    proof {
        assert(raw@.skip(0) =~= raw@);
    }
    let mut start: usize = 0;
    loop
        invariant
            0 <= start <= n,
            n == raw@.len(),
            trim_start_rec(raw@) == trim_start_rec(raw@.skip(start as int)),
        ensures
            0 <= start <= n,
            n == raw@.len(),
            trim_start_rec(raw@) == trim_start_rec(raw@.skip(start as int)),
            start == n || !is_space_char(raw@[start as int]),
        decreases n - start,
    {
        if start == n {
            break;
        }
        let c = raw.get_char(start);
        if !space_char(c) {
            break;
        }
        proof {
            assert(raw@.skip(start as int).drop_first() =~= raw@.skip(start as int + 1));
        }
        start += 1;
    }
    proof {
        if start < n {
            assert(raw@.skip(start as int)[0] == raw@[start as int]);
            assert(!is_space_char(raw@.skip(start as int)[0]));
        } else {
            assert(raw@.skip(start as int) =~= Seq::<char>::empty());
        }
        assert(trim_start_rec(raw@) == raw@.skip(start as int));
    }

    // Collapse whitespace runs and fold case.
    let mut v: Vec<char> = Vec::new();
    let mut i: usize = start;
    while i < n
        invariant
            start <= i <= n,
            n == raw@.len(),
            v@ + collapse_rec(raw@.skip(i as int)) == collapse_rec(raw@.skip(start as int)),
        decreases n - i,
    {
        let ghost u = raw@.skip(i as int);
        proof {
            assert(u.len() == n - i);
            assert(u[0] == raw@[i as int]);
            assert(u.drop_first() =~= raw@.skip(i as int + 1));
            if u.len() > 1 {
                assert(u[1] == raw@[i as int + 1]);
            }
        }
        let c = raw.get_char(i);
        if space_char(c) {
            if i + 1 < n {
                let d = raw.get_char(i + 1);
                if !space_char(d) {
                    v.push('-');
                    proof {
                        assert(collapse_rec(u) =~= seq!['-'] + collapse_rec(u.drop_first()));
                        assert(v@ + collapse_rec(raw@.skip(i as int + 1)) =~= collapse_rec(
                            raw@.skip(start as int),
                        ));
                    }
                } else {
                    assert(collapse_rec(u) == collapse_rec(u.drop_first()));
                }
            } else {
                assert(collapse_rec(u) == collapse_rec(u.drop_first()));
            }
        } else {
            let l = to_lower(c);
            v.push(l);
            proof {
                assert(collapse_rec(u) =~= seq![lower_char(u[0])] + collapse_rec(u.drop_first()));
                assert(v@ + collapse_rec(raw@.skip(i as int + 1)) =~= collapse_rec(
                    raw@.skip(start as int),
                ));
            }
        }
        i += 1;
    }
    proof {
        assert(raw@.skip(n as int) =~= Seq::<char>::empty());
        assert(v@ + collapse_rec(raw@.skip(n as int)) =~= v@);
        assert(v@ == collapse_rec(trim_start_rec(raw@)));
    }

    // Find where the trailing hyphens start.
    proof {
        assert(v@.take(v@.len() as int) =~= v@);
    }
    let mut j: usize = v.len();
    while j > 0 && v[j - 1] == '-'
        invariant
            0 <= j <= v@.len(),
            strip_hyphens_end(v@.take(j as int)) == strip_hyphens_end(v@),
        decreases j,
    {
        proof {
            assert(v@.take(j as int).last() == v@[j as int - 1]);
            assert(v@.take(j as int).drop_last() =~= v@.take(j as int - 1));
        }
        j -= 1;
    }
    proof {
        if j > 0 {
            assert(v@.take(j as int).last() != '-');
        }
        assert(strip_hyphens_end(v@.take(j as int)) == v@.take(j as int));
    }

    // Build the result text.
    let mut out = String::new();
    let mut k: usize = 0;
    while k < j
        invariant
            0 <= k <= j <= v@.len(),
            out@ == v@.take(j as int).take(k as int),
        decreases j - k,
    {
        let c = v[k];
        push_char(&mut out, c);
        proof {
            assert(v@.take(j as int).take(k as int).push(v@[k as int]) =~= v@.take(j as int).take(
                k as int + 1,
            ));
        }
        k += 1;
    }
    proof {
        assert(v@.take(j as int).take(j as int) =~= v@.take(j as int));
        assert(out@ == sanitized(raw@));
    }
    out
}

/// A character that the sanitizer can output without change: not whitespace
/// and already folded to lowercase.
pub open spec fn clean_char(c: char) -> bool {
    !is_space_char(c) && lower_char(c) == c
}

/// Every character of the text is clean.
pub open spec fn all_clean(s: Seq<char>) -> bool {
    forall|i: int| 0 <= i < s.len() ==> clean_char(s[i])
}

proof fn lemma_lower_char_clean(c: char)
    requires
        !is_space_char(c),
    ensures
        clean_char(lower_char(c)),
{
}

proof fn lemma_collapse_clean(s: Seq<char>)
    ensures
        all_clean(collapse_rec(s)),
    decreases s.len(),
{
    if s.len() == 0 {
    } else if is_space_char(s[0]) {
        lemma_collapse_clean(s.drop_first());
        if s.len() > 1 && !is_space_char(s[1]) {
            assert(clean_char('-'));
        }
    } else {
        lemma_collapse_clean(s.drop_first());
        lemma_lower_char_clean(s[0]);
    }
}

proof fn lemma_strip_clean(s: Seq<char>)
    requires
        all_clean(s),
    ensures
        all_clean(strip_hyphens_end(s)),
    decreases s.len(),
{
    if s.len() > 0 && s.last() == '-' {
        assert(all_clean(s.drop_last()));
        lemma_strip_clean(s.drop_last());
    }
}

proof fn lemma_strip_no_trailing_hyphen(s: Seq<char>)
    ensures
        strip_hyphens_end(s).len() > 0 ==> strip_hyphens_end(s).last() != '-',
    decreases s.len(),
{
    if s.len() > 0 && s.last() == '-' {
        lemma_strip_no_trailing_hyphen(s.drop_last());
    }
}

/// The sanitizer's output contains no whitespace at all: every run of
/// whitespace in the input has been collapsed away.
pub proof fn lemma_sanitized_no_whitespace(s: Seq<char>)
    ensures
        forall|i: int| 0 <= i < sanitized(s).len() ==> !is_space_char(#[trigger] sanitized(s)[i]),
{
    lemma_collapse_clean(trim_start_rec(s));
    lemma_strip_clean(collapse_rec(trim_start_rec(s)));
}

/// The sanitizer's output never ends in a hyphen, whatever whitespace or
/// hyphen noise the input ended in.
pub proof fn lemma_sanitized_no_trailing_hyphen(s: Seq<char>)
    ensures
        sanitized(s).len() > 0 ==> sanitized(s).last() != '-',
{
    lemma_strip_no_trailing_hyphen(collapse_rec(trim_start_rec(s)));
}

proof fn lemma_collapse_fixed(s: Seq<char>)
    requires
        all_clean(s),
    ensures
        collapse_rec(s) == s,
    decreases s.len(),
{
    if s.len() > 0 {
        assert(clean_char(s[0]));
        assert(all_clean(s.drop_first()));
        lemma_collapse_fixed(s.drop_first());
        assert(seq![lower_char(s[0])] + s.drop_first() =~= s);
    }
}

/// Sanitizing is idempotent: a second pass over the sanitizer's own output
/// changes nothing, because that output holds no whitespace to collapse, no
/// uppercase letters to fold, and no trailing hyphens to strip.
pub proof fn lemma_sanitize_idempotent(s: Seq<char>)
    ensures
        sanitized(sanitized(s)) == sanitized(s),
{
    let t = sanitized(s);
    lemma_collapse_clean(trim_start_rec(s));
    lemma_strip_clean(collapse_rec(trim_start_rec(s)));
    assert(all_clean(t));
    if t.len() > 0 {
        assert(clean_char(t[0]));
        assert(!is_space_char(t[0]));
    }
    assert(trim_start_rec(t) == t);
    lemma_collapse_fixed(t);
    lemma_sanitized_no_trailing_hyphen(s);
    assert(strip_hyphens_end(t) == t);
}

} // verus!
