//! Deriving a repository name from a clone URL or a bucket archive URL.
//!
//! The archive pipeline names its artifact after the final path segment of
//! the source URL, with every `.git` occurrence removed (left to right,
//! non-overlapping) and surrounding whitespace trimmed.  The restore
//! pipeline keeps the final path segment of the bucket archive URL whole,
//! only trimmed.

use vstd::prelude::*;

verus! {

/// The white-space characters the trimming step removes: the Unicode
/// `White_Space` set.
pub open spec fn is_space(c: char) -> bool {
    ||| c == ' '
    ||| c == '\t'
    ||| c == '\n'
    ||| c == '\r'
    ||| c == '\u{0b}'
    ||| c == '\u{0c}'
    ||| c == '\u{85}'
    ||| c == '\u{a0}'
    ||| c == '\u{1680}'
    ||| c == '\u{2000}'
    ||| c == '\u{2001}'
    ||| c == '\u{2002}'
    ||| c == '\u{2003}'
    ||| c == '\u{2004}'
    ||| c == '\u{2005}'
    ||| c == '\u{2006}'
    ||| c == '\u{2007}'
    ||| c == '\u{2008}'
    ||| c == '\u{2009}'
    ||| c == '\u{200a}'
    ||| c == '\u{2028}'
    ||| c == '\u{2029}'
    ||| c == '\u{202f}'
    ||| c == '\u{205f}'
    ||| c == '\u{3000}'
}

pub fn is_space_char(c: char) -> (b: bool)
    ensures
        b == is_space(c),
{
    c == ' ' || c == '\t' || c == '\n' || c == '\r' || c == '\u{0b}' || c == '\u{0c}'
        || c == '\u{85}' || c == '\u{a0}' || c == '\u{1680}' || c == '\u{2000}' || c == '\u{2001}'
        || c == '\u{2002}' || c == '\u{2003}' || c == '\u{2004}' || c == '\u{2005}'
        || c == '\u{2006}' || c == '\u{2007}' || c == '\u{2008}' || c == '\u{2009}'
        || c == '\u{200a}' || c == '\u{2028}' || c == '\u{2029}' || c == '\u{202f}'
        || c == '\u{205f}' || c == '\u{3000}'
}

/// The input without its leading white space.
pub open spec fn trim_start(s: Seq<char>) -> Seq<char>
    decreases s.len(),
{
    if s.len() > 0 && is_space(s[0]) {
        trim_start(s.skip(1))
    } else {
        s
    }
}

/// The input without its trailing white space.
pub open spec fn trim_end(s: Seq<char>) -> Seq<char>
    decreases s.len(),
{
    if s.len() > 0 && is_space(s.last()) {
        trim_end(s.drop_last())
    } else {
        s
    }
}

/// The input without leading and trailing white space.
pub open spec fn trim(s: Seq<char>) -> Seq<char> {
    trim_end(trim_start(s))
}

/// The input without its trailing `/` characters.
pub open spec fn drop_trailing_slashes(s: Seq<char>) -> Seq<char>
    decreases s.len(),
{
    if s.len() > 0 && s.last() == '/' {
        drop_trailing_slashes(s.drop_last())
    } else {
        s
    }
}

/// Everything after the last `/` of the input (the whole input when it has
/// no `/`).
pub open spec fn after_last_slash(s: Seq<char>) -> Seq<char>
    decreases s.len(),
{
    if s.len() == 0 {
        s
    } else if s.last() == '/' {
        Seq::<char>::empty()
    } else {
        after_last_slash(s.drop_last()).push(s.last())
    }
}

/// The final path segment of a URL or path: trailing slashes are dropped,
/// then everything up to and including the last remaining `/`.
pub open spec fn basename(s: Seq<char>) -> Seq<char> {
    after_last_slash(drop_trailing_slashes(s))
}

/// Does a `.git` occurrence start at the head of the input?
pub open spec fn starts_with_git(s: Seq<char>) -> bool {
    s.len() >= 4 && s[0] == '.' && s[1] == 'g' && s[2] == 'i' && s[3] == 't'
}

/// The input with every `.git` occurrence removed, scanning left to right
/// over non-overlapping occurrences.
pub open spec fn strip_git(s: Seq<char>) -> Seq<char>
    decreases s.len(),
{
    if s.len() == 0 {
        s
    } else if starts_with_git(s) {
        strip_git(s.skip(4))
    } else {
        seq![s[0]] + strip_git(s.skip(1))
    }
}

/// The name the archive pipeline derives from the source clone URL.
pub open spec fn archive_name(url: Seq<char>) -> Seq<char> {
    trim(strip_git(basename(url)))
}

/// The name the restore pipeline derives from the bucket archive URL: the
/// final path segment whole, `.tar.gz` suffix included.
pub open spec fn restore_name(url: Seq<char>) -> Seq<char> {
    trim(basename(url))
}

/// The final path segment of `s`.
pub fn basename_str(s: &str) -> (r: String)
    ensures
        r@ == basename(s@),
{
    let n = s.unicode_len();
    let mut e: usize = n;
    proof {
        assert(s@.take(n as int) =~= s@);
    }
    while e > 0 && s.get_char(e - 1) == '/'
        invariant
            n == s@.len(),
            e <= n,
            drop_trailing_slashes(s@) == drop_trailing_slashes(s@.take(e as int)),
        decreases e,
    {
        proof {
            let t = s@.take(e as int);
            assert(t.last() == s@[e - 1]);
            assert(t.drop_last() =~= s@.take(e - 1));
        }
        e = e - 1;
    }
    if e == 0 {
        proof {
            assert(s@.take(0) =~= Seq::<char>::empty());
            assert(drop_trailing_slashes(s@) =~= Seq::<char>::empty());
        }
        return String::new();
    }
    proof {
        let t = s@.take(e as int);
        assert(t.last() == s@[e - 1]);
        assert(drop_trailing_slashes(t) == t);
    }
    let ghost t = s@.take(e as int);
    let mut a: usize = e;
    proof {
        assert(t.take(e as int) =~= t);
        assert(t.subrange(e as int, e as int) =~= Seq::<char>::empty());
        assert(after_last_slash(t.take(e as int)) + t.subrange(e as int, e as int)
            =~= after_last_slash(t));
    }
    while a > 0 && s.get_char(a - 1) != '/'
        invariant
            n == s@.len(),
            a <= e <= n,
            t == s@.take(e as int),
            after_last_slash(t) == after_last_slash(t.take(a as int)) + t.subrange(
                a as int,
                e as int,
            ),
        decreases a,
    {
        proof {
            let u = t.take(a as int);
            assert(u.last() == s@[a - 1]);
            assert(u.drop_last() =~= t.take(a - 1));
            assert(after_last_slash(u) == after_last_slash(u.drop_last()).push(u.last()));
            assert(after_last_slash(t.take(a - 1)).push(s@[a - 1]) + t.subrange(a as int, e as int)
                =~= after_last_slash(t.take(a - 1)) + t.subrange(a - 1, e as int));
        }
        a = a - 1;
    }
    proof {
        if a == 0 {
            assert(t.take(0) =~= Seq::<char>::empty());
            assert(after_last_slash(t) =~= t.subrange(0, e as int));
        } else {
            let u = t.take(a as int);
            assert(u.last() == s@[a - 1]);
            assert(after_last_slash(u) =~= Seq::<char>::empty());
            assert(after_last_slash(t) =~= t.subrange(a as int, e as int));
        }
        assert(t.subrange(a as int, e as int) =~= s@.subrange(a as int, e as int));
    }
    let r = s.substring_char(a, e);
    String::from_str(r)
}

/// The input with every `.git` occurrence removed.
pub fn strip_git_str(s: &str) -> (r: String)
    ensures
        r@ == strip_git(s@),
{
    let n = s.unicode_len();
    let mut out = String::new();
    let mut i: usize = 0;
    proof {
        assert(s@.skip(0) =~= s@);
        assert(out@ + strip_git(s@.skip(0)) =~= strip_git(s@));
    }
    while i < n
        invariant
            n == s@.len(),
            i <= n,
            strip_git(s@) == out@ + strip_git(s@.skip(i as int)),
        decreases n - i,
    {
        let ghost rest = s@.skip(i as int);
        proof {
            assert(rest.len() == n - i);
            assert(rest[0] == s@[i as int]);
        }
        if n - i >= 4 && s.get_char(i) == '.' && s.get_char(i + 1) == 'g' && s.get_char(i + 2)
            == 'i' && s.get_char(i + 3) == 't' {
            proof {
                assert(rest[1] == s@[i + 1]);
                assert(rest[2] == s@[i + 2]);
                assert(rest[3] == s@[i + 3]);
                assert(starts_with_git(rest));
                assert(rest.skip(4) =~= s@.skip(i + 4));
            }
            i = i + 4;
        } else {
            proof {
                if rest.len() >= 4 {
                    assert(rest[1] == s@[i + 1]);
                    assert(rest[2] == s@[i + 2]);
                    assert(rest[3] == s@[i + 3]);
                }
                assert(!starts_with_git(rest));
                assert(rest.skip(1) =~= s@.skip(i + 1));
            }
            let piece = s.substring_char(i, i + 1);
            proof {
                assert(piece@ =~= seq![s@[i as int]]);
                assert(out@ + (seq![s@[i as int]] + strip_git(s@.skip(i + 1))) =~= (out@
                    + piece@) + strip_git(s@.skip(i + 1)));
            }
            out.append(piece);
            i = i + 1;
        }
    }
    proof {
        assert(s@.skip(n as int) =~= Seq::<char>::empty());
        assert(out@ + strip_git(s@.skip(n as int)) =~= out@);
    }
    out
}

/// The input without leading and trailing white space.
pub fn trim_str(s: &str) -> (r: String)
    ensures
        r@ == trim(s@),
{
    let n = s.unicode_len();
    let mut a: usize = 0;
    proof {
        assert(s@.skip(0) =~= s@);
    }
    while a < n && is_space_char(s.get_char(a))
        invariant
            n == s@.len(),
            a <= n,
            trim_start(s@) == trim_start(s@.skip(a as int)),
        decreases n - a,
    {
        proof {
            let u = s@.skip(a as int);
            assert(u[0] == s@[a as int]);
            assert(u.skip(1) =~= s@.skip(a + 1));
        }
        a = a + 1;
    }
    if a == n {
        proof {
            assert(s@.skip(n as int) =~= Seq::<char>::empty());
            assert(trim_start(s@) =~= Seq::<char>::empty());
            assert(trim(s@) =~= Seq::<char>::empty());
        }
        return String::new();
    }
    let ghost t = s@.skip(a as int);
    proof {
        assert(t[0] == s@[a as int]);
        assert(trim_start(s@) == t);
    }
    let mut b: usize = n;
    proof {
        assert(t.take(n - a) =~= t);
    }
    while b > a && is_space_char(s.get_char(b - 1))
        invariant
            n == s@.len(),
            a <= b <= n,
            a < n,
            t == s@.skip(a as int),
            !is_space(s@[a as int]),
            trim_end(t) == trim_end(t.take(b - a)),
        decreases b,
    {
        proof {
            let u = t.take(b - a);
            assert(u.last() == s@[b - 1]);
            assert(u.drop_last() =~= t.take(b - 1 - a));
        }
        b = b - 1;
    }
    proof {
        if b == a {
            let u = t.take(0);
            assert(u =~= Seq::<char>::empty());
        } else {
            let u = t.take(b - a);
            assert(u.last() == s@[b - 1]);
            assert(trim_end(u) == u);
        }
        assert(t.take(b - a) =~= s@.subrange(a as int, b as int));
    }
    let r = s.substring_char(a, b);
    String::from_str(r)
}

/// The name the archive pipeline derives from the source clone URL.
pub fn archive_repo_name(url: &str) -> (r: String)
    ensures
        r@ == archive_name(url@),
{
    let base = basename_str(url);
    let stripped = strip_git_str(base.as_str());
    trim_str(stripped.as_str())
}

/// The name the restore pipeline derives from the bucket archive URL.
pub fn restore_repo_name(url: &str) -> (r: String)
    ensures
        r@ == restore_name(url@),
{
    let base = basename_str(url);
    trim_str(base.as_str())
}

pub proof fn lemma_after_last_slash_no_slash(s: Seq<char>)
    ensures
        forall|i: int|
            0 <= i < after_last_slash(s).len() ==> #[trigger] after_last_slash(s)[i] != '/',
    decreases s.len(),
{
    if s.len() == 0 {
    } else if s.last() == '/' {
    } else {
        lemma_after_last_slash_no_slash(s.drop_last());
        let prev = after_last_slash(s.drop_last());
        assert(after_last_slash(s) == prev.push(s.last()));
        assert forall|i: int|
            0 <= i < after_last_slash(s).len() implies #[trigger] after_last_slash(s)[i]
            != '/' by {
            if i < prev.len() {
                assert(prev.push(s.last())[i] == prev[i]);
            } else {
                assert(prev.push(s.last())[i] == s.last());
            }
        }
    }
}

pub proof fn lemma_strip_git_keeps_chars(s: Seq<char>, c: char)
    requires
        forall|i: int| 0 <= i < s.len() ==> s[i] != c,
    ensures
        forall|i: int| 0 <= i < strip_git(s).len() ==> #[trigger] strip_git(s)[i] != c,
    decreases s.len(),
{
    if s.len() == 0 {
    } else if starts_with_git(s) {
        assert(forall|i: int| 0 <= i < s.skip(4).len() ==> #[trigger] s.skip(4)[i] != c);
        lemma_strip_git_keeps_chars(s.skip(4), c);
        assert(strip_git(s) == strip_git(s.skip(4)));
        assert forall|i: int|
            0 <= i < strip_git(s).len() implies #[trigger] strip_git(s)[i] != c by {
            assert(strip_git(s)[i] == strip_git(s.skip(4))[i]);
        }
    } else {
        assert(forall|i: int| 0 <= i < s.skip(1).len() ==> #[trigger] s.skip(1)[i] != c);
        lemma_strip_git_keeps_chars(s.skip(1), c);
        let x = strip_git(s.skip(1));
        assert(strip_git(s) == seq![s[0]] + x);
        assert forall|i: int|
            0 <= i < strip_git(s).len() implies #[trigger] strip_git(s)[i] != c by {
            if i == 0 {
                assert((seq![s[0]] + x)[0] == s[0]);
            } else {
                assert((seq![s[0]] + x)[i] == x[i - 1]);
            }
        }
    }
}

pub proof fn lemma_trim_start_keeps_chars(s: Seq<char>, c: char)
    requires
        forall|i: int| 0 <= i < s.len() ==> s[i] != c,
    ensures
        forall|i: int| 0 <= i < trim_start(s).len() ==> #[trigger] trim_start(s)[i] != c,
    decreases s.len(),
{
    if s.len() > 0 && is_space(s[0]) {
        assert(forall|i: int| 0 <= i < s.skip(1).len() ==> #[trigger] s.skip(1)[i] != c);
        lemma_trim_start_keeps_chars(s.skip(1), c);
        assert(trim_start(s) == trim_start(s.skip(1)));
        assert forall|i: int|
            0 <= i < trim_start(s).len() implies #[trigger] trim_start(s)[i] != c by {
            assert(trim_start(s)[i] == trim_start(s.skip(1))[i]);
        }
    } else {
        assert(trim_start(s) == s);
        assert forall|i: int|
            0 <= i < trim_start(s).len() implies #[trigger] trim_start(s)[i] != c by {
            assert(trim_start(s)[i] == s[i]);
        }
    }
}

pub proof fn lemma_trim_end_keeps_chars(s: Seq<char>, c: char)
    requires
        forall|i: int| 0 <= i < s.len() ==> s[i] != c,
    ensures
        forall|i: int| 0 <= i < trim_end(s).len() ==> #[trigger] trim_end(s)[i] != c,
    decreases s.len(),
{
    if s.len() > 0 && is_space(s.last()) {
        assert(forall|i: int| 0 <= i < s.drop_last().len() ==> #[trigger] s.drop_last()[i] != c);
        lemma_trim_end_keeps_chars(s.drop_last(), c);
        assert(trim_end(s) == trim_end(s.drop_last()));
        assert forall|i: int|
            0 <= i < trim_end(s).len() implies #[trigger] trim_end(s)[i] != c by {
            assert(trim_end(s)[i] == trim_end(s.drop_last())[i]);
        }
    } else {
        assert(trim_end(s) == s);
        assert forall|i: int|
            0 <= i < trim_end(s).len() implies #[trigger] trim_end(s)[i] != c by {
            assert(trim_end(s)[i] == s[i]);
        }
    }
}

/// The derived archive name never contains a path separator: the final
/// path segment has none, and neither `.git` removal nor trimming can
/// introduce one.
pub proof fn lemma_archive_name_no_separator(url: Seq<char>)
    ensures
        forall|i: int|
            0 <= i < archive_name(url).len() ==> #[trigger] archive_name(url)[i] != '/',
{
    lemma_after_last_slash_no_slash(drop_trailing_slashes(url));
    lemma_strip_git_keeps_chars(basename(url), '/');
    lemma_trim_start_keeps_chars(strip_git(basename(url)), '/');
    lemma_trim_end_keeps_chars(trim_start(strip_git(basename(url))), '/');
}

/// The derived restore name never contains a path separator.
pub proof fn lemma_restore_name_no_separator(url: Seq<char>)
    ensures
        forall|i: int|
            0 <= i < restore_name(url).len() ==> #[trigger] restore_name(url)[i] != '/',
{
    lemma_after_last_slash_no_slash(drop_trailing_slashes(url));
    lemma_trim_start_keeps_chars(basename(url), '/');
    lemma_trim_end_keeps_chars(trim_start(basename(url)), '/');
}

/// Removal never lengthens the input.
pub proof fn lemma_strip_git_len(s: Seq<char>)
    ensures
        strip_git(s).len() <= s.len(),
    decreases s.len(),
{
    if s.len() == 0 {
    } else if starts_with_git(s) {
        lemma_strip_git_len(s.skip(4));
    } else {
        lemma_strip_git_len(s.skip(1));
    }
}

/// The four characters the archive pipeline removes from the final path
/// segment of its source URL.
pub open spec fn git_suffix() -> Seq<char> {
    seq!['.', 'g', 'i', 't']
}

/// On a segment of the form `stem` + ".git", where `stem` itself is
/// unchanged by removal, exactly the one trailing occurrence is removed.
pub proof fn lemma_strip_git_exact(stem: Seq<char>)
    requires
        strip_git(stem) == stem,
    ensures
        strip_git(stem + git_suffix()) == stem,
    decreases stem.len(),
{
    let t = stem + git_suffix();
    if stem.len() == 0 {
        assert(t =~= git_suffix());
        assert(starts_with_git(t));
        assert(t.skip(4) =~= Seq::<char>::empty());
        assert(strip_git(t) == strip_git(t.skip(4)));
        assert(strip_git(Seq::<char>::empty()) == Seq::<char>::empty());
        assert(strip_git(t) =~= stem);
    } else {
        if starts_with_git(t) {
            if stem.len() >= 4 {
                assert(starts_with_git(stem));
                lemma_strip_git_len(stem.skip(4));
                assert(strip_git(stem).len() <= stem.len() - 4);
                assert(false);
            } else if stem.len() == 1 {
                assert(t[1] == '.');
                assert(false);
            } else if stem.len() == 2 {
                assert(t[2] == '.');
                assert(false);
            } else {
                assert(t[3] == '.');
                assert(false);
            }
        }
        if starts_with_git(stem) {
            lemma_strip_git_len(stem.skip(4));
            assert(strip_git(stem).len() <= stem.len() - 4);
            assert(false);
        }
        assert(strip_git(stem) == seq![stem[0]] + strip_git(stem.skip(1)));
        assert((seq![stem[0]] + strip_git(stem.skip(1))).skip(1) =~= strip_git(stem.skip(1)));
        assert(strip_git(stem.skip(1)) == stem.skip(1));
        lemma_strip_git_exact(stem.skip(1));
        assert(stem.skip(1) + git_suffix() =~= t.skip(1));
        assert(strip_git(t) == seq![t[0]] + strip_git(t.skip(1)));
        assert(t[0] == stem[0]);
        assert(seq![t[0]] + stem.skip(1) =~= stem);
    }
}

/// For a clone URL whose final path segment is `stem` followed by one
/// trailing ".git", where `stem` itself contains no removable ".git"
/// occurrence, the derived archive name strips exactly that one
/// occurrence: the name is the trimmed stem.
pub proof fn lemma_archive_name_strips_one_git(url: Seq<char>, stem: Seq<char>)
    requires
        basename(url) == stem + git_suffix(),
        strip_git(stem) == stem,
    ensures
        archive_name(url) == trim(stem),
{
    lemma_strip_git_exact(stem);
}

pub proof fn lemma_trim_start_no_leading_space(s: Seq<char>)
    ensures
        trim_start(s).len() > 0 ==> !is_space(trim_start(s)[0]),
    decreases s.len(),
{
    if s.len() > 0 && is_space(s[0]) {
        lemma_trim_start_no_leading_space(s.skip(1));
    }
}

pub proof fn lemma_trim_end_no_trailing_space(s: Seq<char>)
    ensures
        trim_end(s).len() > 0 ==> !is_space(trim_end(s).last()),
    decreases s.len(),
{
    if s.len() > 0 && is_space(s.last()) {
        lemma_trim_end_no_trailing_space(s.drop_last());
    }
}

/// Trimming from the end never lengthens the input.
pub proof fn lemma_trim_end_len(s: Seq<char>)
    ensures
        trim_end(s).len() <= s.len(),
    decreases s.len(),
{
    if s.len() > 0 && is_space(s.last()) {
        lemma_trim_end_len(s.drop_last());
    }
}

/// Trimming from the end keeps a prefix of the input.
pub proof fn lemma_trim_end_prefix(s: Seq<char>)
    ensures
        trim_end(s) == s.take(trim_end(s).len() as int),
    decreases s.len(),
{
    if s.len() > 0 && is_space(s.last()) {
        lemma_trim_end_prefix(s.drop_last());
        lemma_trim_end_len(s.drop_last());
        assert(s.drop_last().take(trim_end(s).len() as int) =~= s.take(
            trim_end(s).len() as int,
        ));
    } else {
        assert(s.take(s.len() as int) =~= s);
    }
}

/// A trimmed result carries no leading and no trailing white space.
pub proof fn lemma_trim_trimmed(s: Seq<char>)
    ensures
        trim(s).len() > 0 ==> !is_space(trim(s)[0]) && !is_space(trim(s).last()),
{
    let ts = trim_start(s);
    if trim(s).len() > 0 {
        lemma_trim_end_len(ts);
        lemma_trim_end_prefix(ts);
        lemma_trim_start_no_leading_space(s);
        lemma_trim_end_no_trailing_space(ts);
        assert(trim(s)[0] == ts.take(trim_end(ts).len() as int)[0]);
        assert(trim(s)[0] == ts[0]);
    }
}

/// The derived archive name carries no surrounding white space.
pub proof fn lemma_archive_name_trimmed(url: Seq<char>)
    ensures
        archive_name(url).len() > 0 ==> !is_space(archive_name(url)[0]) && !is_space(
            archive_name(url).last(),
        ),
{
    lemma_trim_trimmed(strip_git(basename(url)));
}

} // verus!
