use vstd::prelude::*;

verus! {

/// What `str::to_lowercase` makes of a text.
pub uninterp spec fn lower_of(s: Seq<char>) -> Seq<char>;

/// What `str::to_uppercase` makes of a text.
pub uninterp spec fn upper_of(s: Seq<char>) -> Seq<char>;

/// A character with Unicode's White_Space property.
pub open spec fn is_white_space(c: char) -> bool {
    ('\u{9}' <= c && c <= '\u{d}') || c == ' ' || c == '\u{85}' || c == '\u{a0}' || c == '\u{1680}'
        || ('\u{2000}' <= c && c <= '\u{200a}') || c == '\u{2028}' || c == '\u{2029}' || c == '\u{202f}'
        || c == '\u{205f}' || c == '\u{3000}'
}

/// `s` without its leading white space.
pub open spec fn trim_start_ws(s: Seq<char>) -> Seq<char>
    decreases s.len(),
{
    if s.len() > 0 && is_white_space(s[0]) {
        trim_start_ws(s.drop_first())
    } else {
        s
    }
}

/// `s` without its trailing white space.
pub open spec fn trim_end_ws(s: Seq<char>) -> Seq<char>
    decreases s.len(),
{
    if s.len() > 0 && is_white_space(s.last()) {
        trim_end_ws(s.drop_last())
    } else {
        s
    }
}

/// `s` without leading and trailing white space.
pub open spec fn trimmed_of(s: Seq<char>) -> Seq<char> {
    trim_end_ws(trim_start_ws(s))
}

proof fn lemma_trim_start_shorter(s: Seq<char>)
    ensures
        trim_start_ws(s).len() <= s.len(),
    decreases s.len(),
{
    if s.len() > 0 && is_white_space(s[0]) {
        lemma_trim_start_shorter(s.drop_first());
    }
}

proof fn lemma_trim_end_shorter(s: Seq<char>)
    ensures
        trim_end_ws(s).len() <= s.len(),
    decreases s.len(),
{
    if s.len() > 0 && is_white_space(s.last()) {
        lemma_trim_end_shorter(s.drop_last());
    }
}

/// Trimming never makes a text longer.
pub proof fn lemma_trimmed_shorter(s: Seq<char>)
    ensures
        trimmed_of(s).len() <= s.len(),
{
    lemma_trim_start_shorter(s);
    lemma_trim_end_shorter(trim_start_ws(s));
}

/// Relies on `str::to_lowercase`: the result depends on the characters alone.
#[verifier::external_body]
pub(crate) fn lowercase(s: &str) -> (r: String)
    ensures
        r@ == lower_of(s@),
{
    s.to_lowercase()
}

/// Relies on `str::to_uppercase`: the result depends on the characters alone.
#[verifier::external_body]
pub(crate) fn uppercase(s: &str) -> (r: String)
    ensures
        r@ == upper_of(s@),
{
    s.to_uppercase()
}

/// Relies on `str::trim`: it removes leading and trailing characters with the
/// White_Space property.
#[verifier::external_body]
pub(crate) fn trim(s: &str) -> (r: &str)
    ensures
        r@ == trimmed_of(s@),
{
    s.trim()
}

/// The texts of a list of strings.
pub open spec fn line_views(lines: Seq<String>) -> Seq<Seq<char>> {
    lines.map_values(|t: String| t@)
}

/// `p` occurs in `s` starting at position `i`.
pub open spec fn occurs_at(s: Seq<char>, p: Seq<char>, i: int) -> bool {
    0 <= i && i + p.len() <= s.len() && s.subrange(i, i + p.len()) == p
}

/// `p` occurs somewhere in `s`.
pub open spec fn has_substring(s: Seq<char>, p: Seq<char>) -> bool {
    exists|i: int| occurs_at(s, p, i)
}

fn occurs_at_exec(s: &str, p: &str, i: usize, s_len: usize, p_len: usize) -> (r: bool)
    requires
        s_len == s@.len(),
        p_len == p@.len(),
        i + p_len <= s_len,
    ensures
        r == occurs_at(s@, p@, i as int),
{
    let mut k: usize = 0;
    while k < p_len
        invariant
            k <= p_len,
            s_len == s@.len(),
            p_len == p@.len(),
            i + p_len <= s_len,
            forall|t: int| 0 <= t < k ==> s@[i + t] == p@[t],
        decreases p_len - k,
    {
        if s.get_char(i + k) != p.get_char(k) {
            assert(s@.subrange(i as int, i + p_len)[k as int] != p@[k as int]);
            return false;
        }
        k = k + 1;
    }
    assert(s@.subrange(i as int, i + p_len) =~= p@);
    true
}

/// Whether `p` occurs in `s`, comparing characters exactly.
pub fn contains_text(s: &str, p: &str) -> (r: bool)
    ensures
        r == has_substring(s@, p@),
{
    let s_len = s.unicode_len();
    let p_len = p.unicode_len();
    if p_len > s_len {
        return false;
    }
    if p_len == 0 {
        assert(occurs_at(s@, p@, 0)) by {
            assert(s@.subrange(0, 0) =~= p@);
        }
        return true;
    }
    let last = s_len - p_len;
    let mut i: usize = 0;
    while i <= last
        invariant
            s_len == s@.len(),
            p_len == p@.len(),
            last == s_len - p_len,
            0 < p_len <= s_len,
            forall|t: int| 0 <= t < i ==> !occurs_at(s@, p@, t),
        decreases last + 1 - i,
    {
        if occurs_at_exec(s, p, i, s_len, p_len) {
            return true;
        }
        i = i + 1;
    }
    false
}

/// Whether two texts hold the same characters.
pub fn same_text(a: &str, b: &str) -> (r: bool)
    ensures
        r == (a@ == b@),
{
    let a_len = a.unicode_len();
    let b_len = b.unicode_len();
    if a_len != b_len {
        return false;
    }
    let mut k: usize = 0;
    while k < a_len
        invariant
            k <= a_len,
            a_len == a@.len(),
            b_len == b@.len(),
            a_len == b_len,
            forall|t: int| 0 <= t < k ==> a@[t] == b@[t],
        decreases a_len - k,
    {
        if a.get_char(k) != b.get_char(k) {
            return false;
        }
        k = k + 1;
    }
    assert(a@ =~= b@);
    true
}

/// `s` cut at every `sep`; `k` separators give `k + 1` pieces, some maybe
/// empty.
pub open spec fn split_on(s: Seq<char>, sep: char) -> Seq<Seq<char>>
    decreases s.len(),
{
    if s.len() == 0 {
        seq![Seq::<char>::empty()]
    } else {
        let prev = split_on(s.drop_last(), sep);
        if s.last() == sep {
            prev.push(Seq::<char>::empty())
        } else {
            prev.update(prev.len() - 1, prev.last().push(s.last()))
        }
    }
}

proof fn lemma_split_on_nonempty(s: Seq<char>, sep: char)
    ensures
        split_on(s, sep).len() >= 1,
    decreases s.len(),
{
    if s.len() > 0 {
        lemma_split_on_nonempty(s.drop_last(), sep);
    }
}

/// Splits `s` at every occurrence of `sep`.
pub fn split_text(s: &str, sep: char) -> (r: Vec<String>)
    ensures
        line_views(r@) == split_on(s@, sep),
{
    let n = s.unicode_len();
    let mut parts: Vec<String> = Vec::new();
    let mut start: usize = 0;
    let mut i: usize = 0;
    proof {
        assert(s@.subrange(0, 0) =~= Seq::<char>::empty());
        assert(line_views(parts@).push(s@.subrange(0, 0)) =~= seq![Seq::<char>::empty()]);
    }
    while i < n
        invariant
            n == s@.len(),
            start <= i <= n,
            line_views(parts@).push(s@.subrange(start as int, i as int))
                == split_on(s@.subrange(0, i as int), sep),
        decreases n - i,
    {
        let c = s.get_char(i);
        proof {
            let prefix = s@.subrange(0, i as int + 1);
            assert(prefix.drop_last() =~= s@.subrange(0, i as int));
            assert(prefix.last() == c);
            lemma_split_on_nonempty(s@.subrange(0, i as int), sep);
        }
        if c == sep {
            let piece = String::from_str(s.substring_char(start, i));
            let ghost before = line_views(parts@);
            parts.push(piece);
            proof {
                assert(line_views(parts@) =~= before.push(piece@));
                assert(s@.subrange(i as int + 1, i as int + 1) =~= Seq::<char>::empty());
            }
            start = i + 1;
        } else {
            proof {
                assert(s@.subrange(start as int, i as int + 1) =~= s@.subrange(start as int, i as int).push(c));
            }
        }
        i = i + 1;
    }
    let last = String::from_str(s.substring_char(start, n));
    let ghost before = line_views(parts@);
    parts.push(last);
    proof {
        assert(line_views(parts@) =~= before.push(last@));
        assert(s@.subrange(0, n as int) =~= s@);
    }
    parts
}

/// The lines joined into one text, with a single space between neighbours.
pub open spec fn join_with_space(lines: Seq<Seq<char>>) -> Seq<char>
    decreases lines.len(),
{
    if lines.len() == 0 {
        Seq::<char>::empty()
    } else if lines.len() == 1 {
        lines[0]
    } else {
        join_with_space(lines.drop_last()) + seq![' '] + lines.last()
    }
}

/// Joins the lines with a single space between neighbours.
pub fn join_lines(lines: &Vec<String>) -> (r: String)
    ensures
        r@ == join_with_space(line_views(lines@)),
{
    let ghost views = line_views(lines@);
    let mut out = String::new();
    let mut i: usize = 0;
    while i < lines.len()
        invariant
            i <= lines@.len(),
            views == line_views(lines@),
            out@ == join_with_space(views.subrange(0, i as int)),
        decreases lines@.len() - i,
    {
        proof {
            let next = views.subrange(0, i as int + 1);
            assert(next.drop_last() =~= views.subrange(0, i as int));
            assert(next.last() == lines@[i as int]@);
        }
        if i > 0 {
            proof {
                reveal_strlit(" ");
                assert(" "@ =~= seq![' ']);
            }
            out.append(" ");
        }
        out.append(lines[i].as_str());
        proof {
            if i == 0 {
                assert(views.subrange(0, 1).len() == 1);
                assert(out@ =~= views.subrange(0, 1)[0]);
            }
        }
        i = i + 1;
    }
    proof {
        assert(views.subrange(0, lines@.len() as int) =~= views);
    }
    out
}

} // verus!
