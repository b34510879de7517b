//! Small string utilities shared by the state machines: homeserver
//! normalization and the session database path.

use vstd::prelude::*;
use vstd::string::StrSliceExecFns;
use vstd::string::StringExecFns;

verus! {

broadcast use vstd::string::group_string_axioms;

/// True when `p` is a prefix of `s`.
pub open spec fn is_prefix_of(p: Seq<char>, s: Seq<char>) -> bool {
    p.len() <= s.len() && s.subrange(0, p.len() as int) == p
}

/// Character-by-character prefix test.
pub fn starts_with_str(s: &str, p: &str) -> (r: bool)
    ensures
        r == is_prefix_of(p@, s@),
{
    let p_len = p.unicode_len();
    let s_len = s.unicode_len();
    if p_len > s_len {
        assert(!is_prefix_of(p@, s@));
        return false;
    }
    let mut i: usize = 0;
    while i < p_len
        invariant
            i <= p_len <= s_len,
            p_len == p@.len(),
            s_len == s@.len(),
            forall|k: int| 0 <= k < i ==> s@[k] == p@[k],
        decreases p_len - i,
    {
        if s.get_char(i) != p.get_char(i) {
            assert(s@.subrange(0, p@.len() as int)[i as int] != p@[i as int]);
            return false;
        }
        i += 1;
    }
    assert(s@.subrange(0, p@.len() as int) =~= p@);
    true
}

/// A homeserver string already carrying an explicit scheme.
pub open spec fn has_scheme(s: Seq<char>) -> bool {
    is_prefix_of("http://"@, s) || is_prefix_of("https://"@, s)
}

/// The homeserver as handed to the network layer: untouched when a scheme is
/// present, otherwise prefixed with "https://".
pub open spec fn normalized_homeserver(s: Seq<char>) -> Seq<char> {
    if has_scheme(s) {
        s
    } else {
        "https://"@ + s
    }
}

pub fn normalize_homeserver(hs: &str) -> (r: String)
    ensures
        r@ == normalized_homeserver(hs@),
{
    if starts_with_str(hs, "http://") || starts_with_str(hs, "https://") {
        hs.to_owned()
    } else {
        let mut out = String::from_str("https://");
        out.append(hs);
        out
    }
}

/// A character that may not appear in an on-disk session directory name.
pub open spec fn needs_escape(c: char) -> bool {
    c == '@' || c == ':' || c == '.'
}

/// The user id with every `@`, `:` and `.` replaced by `_`.
pub open spec fn sanitized_id(s: Seq<char>) -> Seq<char> {
    s.map_values(|c: char| if needs_escape(c) { '_' } else { c })
}

/// Path of an account's session store, relative to the data directory.
pub open spec fn session_db_rel_path(user_id: Seq<char>) -> Seq<char> {
    "sessions/"@ + sanitized_id(user_id)
}

/// Relies on String::push: appends exactly the one character.
#[verifier::external_body]
fn push_char(s: &mut String, c: char)
    ensures
        final(s)@ == old(s)@.push(c),
{
    s.push(c);
}

/// Relative path of the per-account session database; the caller joins it to
/// its data directory.  The homeserver does not take part in the name.
pub fn session_db_path(user_id: &str, _homeserver: &str) -> (r: String)
    ensures
        r@ == session_db_rel_path(user_id@),
{
    proof {
        reveal_strlit("_");
    }
    let mut out = String::from_str("sessions/");
    let n = user_id.unicode_len();
    let mut i: usize = 0;
    while i < n
        invariant
            i <= n,
            n == user_id@.len(),
            out@ == "sessions/"@ + sanitized_id(user_id@).subrange(0, i as int),
        decreases n - i,
    {
        let c = user_id.get_char(i);
        if c == '@' || c == ':' || c == '.' {
            proof {
                reveal_strlit("_");
            }
            out.append("_");
        } else {
            push_char(&mut out, c);
        }
        assert(out@ =~= "sessions/"@ + sanitized_id(user_id@).subrange(0, i + 1));
        i += 1;
    }
    assert(sanitized_id(user_id@).subrange(0, n as int) =~= sanitized_id(user_id@));
    out
}

/// Index of the first `c` at or after `from`, or the length when absent.
pub open spec fn find_char_from(s: Seq<char>, from: int, c: char) -> int
    decreases s.len() - from when 0 <= from <= s.len()
{
    if from >= s.len() {
        s.len() as int
    } else if s[from] == c {
        from
    } else {
        find_char_from(s, from + 1, c)
    }
}

pub proof fn lemma_find_char_from(s: Seq<char>, from: int, c: char)
    requires
        0 <= from <= s.len(),
    ensures
        from <= find_char_from(s, from, c) <= s.len(),
        find_char_from(s, from, c) < s.len() ==> s[find_char_from(s, from, c)] == c,
        forall|k: int| from <= k < find_char_from(s, from, c) ==> s[k] != c,
    decreases s.len() - from,
{
    if from < s.len() && s[from] != c {
        lemma_find_char_from(s, from + 1, c);
    }
}

/// Scan for the first occurrence of `c` at or after `from`.
pub fn find_char(s: &str, from: usize, c: char) -> (r: usize)
    requires
        from <= s@.len(),
    ensures
        r == find_char_from(s@, from as int, c),
{
    let n = s.unicode_len();
    let mut i: usize = from;
    while i < n
        invariant
            from <= i <= n,
            n == s@.len(),
            find_char_from(s@, from as int, c) == find_char_from(s@, i as int, c),
        decreases n - i,
    {
        if s.get_char(i) == c {
            return i;
        }
        i += 1;
    }
    i
}

/// Equality of two string slices, character by character.
pub fn str_eq(a: &str, b: &str) -> (r: bool)
    ensures
        r == (a@ == b@),
{
    let n = a.unicode_len();
    if n != b.unicode_len() {
        return false;
    }
    let mut i: usize = 0;
    while i < n
        invariant
            i <= n,
            n == a@.len() == b@.len(),
            forall|k: int| 0 <= k < i ==> a@[k] == b@[k],
        decreases n - i,
    {
        if a.get_char(i) != b.get_char(i) {
            assert(a@ != b@);
            return false;
        }
        i += 1;
    }
    assert(a@ =~= b@);
    true
}

/// Lexicographic order on character sequences by code point.
pub open spec fn lex_le(a: Seq<char>, b: Seq<char>) -> bool
    decreases a.len(),
{
    if a.len() == 0 {
        true
    } else if b.len() == 0 {
        false
    } else if (a[0] as u32) < (b[0] as u32) {
        true
    } else if (a[0] as u32) > (b[0] as u32) {
        false
    } else {
        lex_le(a.skip(1), b.skip(1))
    }
}

pub proof fn lemma_lex_le_total(a: Seq<char>, b: Seq<char>)
    ensures
        lex_le(a, b) || lex_le(b, a),
    decreases a.len(),
{
    if a.len() > 0 && b.len() > 0 && (a[0] as u32) == (b[0] as u32) {
        lemma_lex_le_total(a.skip(1), b.skip(1));
    }
}

pub proof fn lemma_lex_le_trans(a: Seq<char>, b: Seq<char>, c: Seq<char>)
    requires
        lex_le(a, b),
        lex_le(b, c),
    ensures
        lex_le(a, c),
    decreases a.len(),
{
    if a.len() > 0 && b.len() > 0 && c.len() > 0 && (a[0] as u32) == (b[0] as u32) && (b[0] as u32)
        == (c[0] as u32) {
        lemma_lex_le_trans(a.skip(1), b.skip(1), c.skip(1));
    }
}

/// Character-by-character lexicographic comparison.
pub fn str_lex_le(a: &str, b: &str) -> (r: bool)
    ensures
        r == lex_le(a@, b@),
{
    let an = a.unicode_len();
    let bn = b.unicode_len();
    let min: usize = if an < bn {
        an
    } else {
        bn
    };
    let mut i: usize = 0;
    proof {
        assert(a@.skip(0) =~= a@);
        assert(b@.skip(0) =~= b@);
    }
    while i < min
        invariant
            i <= min,
            an == a@.len(),
            bn == b@.len(),
            min == if an < bn { an } else { bn },
            lex_le(a@, b@) == lex_le(a@.skip(i as int), b@.skip(i as int)),
        decreases min - i,
    {
        let ca = a.get_char(i);
        let cb = b.get_char(i);
        if ca as u32 != cb as u32 {
            return (ca as u32) < (cb as u32);
        }
        proof {
            assert(a@.skip(i as int).skip(1) =~= a@.skip(i + 1));
            assert(b@.skip(i as int).skip(1) =~= b@.skip(i + 1));
        }
        i += 1;
    }
    an <= bn
}

/// What `str::to_lowercase` returns: a function of the characters alone.
pub uninterp spec fn lowercase_of(s: Seq<char>) -> Seq<char>;

/// Relies on str::to_lowercase: Unicode lowercasing, determined by the input
/// characters alone.
#[verifier::external_body]
pub(crate) fn to_lowercase(s: &str) -> (r: String)
    ensures
        r@ == lowercase_of(s@),
{
    s.to_lowercase()
}

/// True when `needle` occurs contiguously inside `hay`.
pub open spec fn contains_seq(hay: Seq<char>, needle: Seq<char>) -> bool {
    exists|i: int|
        0 <= i && i + needle.len() <= hay.len() && #[trigger] hay.subrange(i, i + needle.len())
            == needle
}

/// Substring test by scanning every starting offset.
pub fn str_contains(hay: &str, needle: &str) -> (r: bool)
    ensures
        r == contains_seq(hay@, needle@),
{
    let hn = hay.unicode_len();
    let nn = needle.unicode_len();
    if nn > hn {
        return false;
    }
    if nn == 0 {
        assert(hay@.subrange(0, 0 + needle@.len() as int) =~= needle@);
        return true;
    }
    let mut i: usize = 0;
    while i <= hn - nn
        invariant
            0 < nn <= hn,
            hn == hay@.len(),
            nn == needle@.len(),
            i <= hn - nn + 1,
            forall|j: int|
                0 <= j < i ==> #[trigger] hay@.subrange(j, j + needle@.len()) != needle@,
        decreases hn - nn + 1 - i,
    {
        let mut k: usize = 0;
        let mut all = true;
        while k < nn
            invariant
                k <= nn,
                i + nn <= hn,
                hn == hay@.len(),
                nn == needle@.len(),
                all ==> forall|m: int| 0 <= m < k ==> hay@[i + m] == needle@[m],
                !all ==> hay@.subrange(i as int, i + needle@.len()) != needle@,
            decreases nn - k,
        {
            if hay.get_char(i + k) != needle.get_char(k) {
                proof {
                    let kk = k as int;
                    assert(hay@.subrange(i as int, i + needle@.len())[kk] != needle@[kk]);
                }
                all = false;
                k = nn;
            } else {
                k += 1;
            }
        }
        if all {
            assert(hay@.subrange(i as int, i + needle@.len()) =~= needle@);
            return true;
        }
        i += 1;
    }
    false
}

/// The part of a user id between the leading `@` and the first `:`; any other
/// shape is handed back whole.
pub open spec fn localpart_of(s: Seq<char>) -> Seq<char> {
    if s.len() > 0 && s[0] == '@' {
        s.subrange(1, find_char_from(s, 1, ':'))
    } else {
        s
    }
}

pub fn localpart(user_id: &str) -> (r: String)
    ensures
        r@ == localpart_of(user_id@),
{
    let n = user_id.unicode_len();
    if n == 0 || user_id.get_char(0) != '@' {
        return user_id.to_owned();
    }
    let e = find_char(user_id, 1, ':');
    proof {
        lemma_find_char_from(user_id@, 1, ':');
    }
    user_id.substring_char(1, e).to_owned()
}

/// Character budget of a reply snippet before the ellipsis is added.
pub const SNIPPET_MAX: usize = 50;

/// A message body shortened for display inside a reply header.
pub open spec fn snippet_of(s: Seq<char>) -> Seq<char> {
    if s.len() > SNIPPET_MAX {
        s.subrange(0, SNIPPET_MAX as int) + "..."@
    } else {
        s
    }
}

pub fn snippet(body: &str) -> (r: String)
    ensures
        r@ == snippet_of(body@),
{
    if body.unicode_len() > SNIPPET_MAX {
        let mut out = body.substring_char(0, SNIPPET_MAX).to_owned();
        out.append("...");
        out
    } else {
        body.to_owned()
    }
}

/// First index past the leading run of quoted lines, each opening with `"> "`.
pub open spec fn quote_skip(s: Seq<char>, from: int) -> int
    decreases s.len() - from when 0 <= from <= s.len() via quote_skip_decreases
{
    if from + 2 <= s.len() && s[from] == '>' && s[from + 1] == ' ' {
        let e = find_char_from(s, from, '\n');
        if e < s.len() {
            quote_skip(s, e + 1)
        } else {
            s.len() as int
        }
    } else {
        from
    }
}

#[via_fn]
proof fn quote_skip_decreases(s: Seq<char>, from: int) {
    if 0 <= from <= s.len() {
        lemma_find_char_from(s, from, '\n');
    }
}

pub proof fn lemma_quote_skip_bounds(s: Seq<char>, from: int)
    requires
        0 <= from <= s.len(),
    ensures
        from <= quote_skip(s, from) <= s.len(),
    decreases s.len() - from,
{
    if from + 2 <= s.len() && s[from] == '>' && s[from + 1] == ' ' {
        lemma_find_char_from(s, from, '\n');
        let e = find_char_from(s, from, '\n');
        if e < s.len() {
            lemma_quote_skip_bounds(s, e + 1);
        }
    }
}

/// A reply body with its quoted fallback removed: the leading `"> "` lines
/// go, then one blank separator line (an empty line, whether it ends in
/// `\n` or `\r\n`), and a single trailing line ending is not kept.  When
/// nothing is left the body stands unchanged.
pub open spec fn stripped_body(s: Seq<char>) -> Seq<char> {
    let q = quote_skip(s, 0);
    let st = if q < s.len() && s[q] == '\n' {
        q + 1
    } else if q + 1 < s.len() && s[q] == '\r' && s[q + 1] == '\n' {
        q + 2
    } else {
        q
    };
    let en = if st < s.len() && s[s.len() - 1] == '\n' {
        if st < s.len() - 1 && s[s.len() - 2] == '\r' {
            s.len() - 2
        } else {
            s.len() - 1
        }
    } else {
        s.len() as int
    };
    if st < en {
        s.subrange(st, en)
    } else {
        s
    }
}

/// Strip the quoted-reply fallback that the wire format prepends to a reply
/// body: leading `"> "` lines and the blank separator line after them.
pub fn strip_reply_fallback(body: &str) -> (r: String)
    ensures
        r@ == stripped_body(body@),
{
    let n = body.unicode_len();
    let mut i: usize = 0;
    loop
        invariant_except_break
            i <= n,
            n == body@.len(),
            quote_skip(body@, 0) == quote_skip(body@, i as int),
        ensures
            i <= n,
            n == body@.len(),
            quote_skip(body@, 0) == i,
        decreases n - i,
    {
        if n >= 2 && i <= n - 2 && body.get_char(i) == '>' && body.get_char(i + 1) == ' ' {
            let e = find_char(body, i, '\n');
            proof {
                lemma_find_char_from(body@, i as int, '\n');
            }
            if e < n {
                proof {
                    lemma_quote_skip_bounds(body@, e + 1);
                }
                i = e + 1;
            } else {
                assert(quote_skip(body@, i as int) == n);
                i = n;
                break;
            }
        } else {
            assert(quote_skip(body@, i as int) == i);
            break;
        }
    }
    let mut start = i;
    if start < n && body.get_char(start) == '\n' {
        start += 1;
    } else if start < n && n >= 2 && start < n - 1 && body.get_char(start) == '\r'
        && body.get_char(start + 1) == '\n' {
        start += 2;
    }
    let end: usize = if start < n && body.get_char(n - 1) == '\n' {
        if start < n - 1 && body.get_char(n - 2) == '\r' {
            n - 2
        } else {
            n - 1
        }
    } else {
        n
    };
    if start < end {
        body.substring_char(start, end).to_owned()
    } else {
        body.to_owned()
    }
}

/// The content type announced for an uploaded file, from its extension; the
/// extension is taken case-insensitively through `lowercase_of`.
pub open spec fn mime_name_of(e: Seq<char>) -> Seq<char> {
    if e == "png"@ {
        "image/png"@
    } else if e == "jpg"@ || e == "jpeg"@ {
        "image/jpeg"@
    } else if e == "gif"@ {
        "image/gif"@
    } else if e == "webp"@ {
        "image/webp"@
    } else if e == "svg"@ {
        "image/svg+xml"@
    } else {
        "application/octet-stream"@
    }
}

/// Content-type name for a file extension; the caller parses it into its own
/// media-type value.
pub fn mime_from_extension(ext: &str) -> (r: String)
    ensures
        r@ == mime_name_of(lowercase_of(ext@)),
{
    let e = to_lowercase(ext);
    let es = e.as_str();
    if str_eq(es, "png") {
        String::from_str("image/png")
    } else if str_eq(es, "jpg") || str_eq(es, "jpeg") {
        String::from_str("image/jpeg")
    } else if str_eq(es, "gif") {
        String::from_str("image/gif")
    } else if str_eq(es, "webp") {
        String::from_str("image/webp")
    } else if str_eq(es, "svg") {
        String::from_str("image/svg+xml")
    } else {
        String::from_str("application/octet-stream")
    }
}


/// Insert one character at a character index.
pub fn insert_char_at(s: &str, i: usize, c: char) -> (r: String)
    requires
        i <= s@.len(),
    ensures
        r@ == s@.subrange(0, i as int).push(c) + s@.subrange(i as int, s@.len() as int),
{
    let n = s.unicode_len();
    let mut out = s.substring_char(0, i).to_owned();
    push_char(&mut out, c);
    out.append(s.substring_char(i, n));
    out
}

/// Remove the character at a character index.
pub fn remove_char_at(s: &str, i: usize) -> (r: String)
    requires
        i < s@.len(),
    ensures
        r@ == s@.subrange(0, i as int) + s@.subrange(i + 1, s@.len() as int),
{
    let n = s.unicode_len();
    let mut out = s.substring_char(0, i).to_owned();
    out.append(s.substring_char(i + 1, n));
    out
}

/// Remove the last character, if any.
pub fn pop_char(s: &str) -> (r: String)
    ensures
        s@.len() == 0 ==> r@ == s@,
        s@.len() > 0 ==> r@ == s@.subrange(0, s@.len() - 1),
{
    let n = s.unicode_len();
    if n == 0 {
        s.to_owned()
    } else {
        s.substring_char(0, n - 1).to_owned()
    }
}

/// Append one character.
pub fn append_char(s: &str, c: char) -> (r: String)
    ensures
        r@ == s@.push(c),
{
    let mut out = s.to_owned();
    push_char(&mut out, c);
    out
}


/// ASCII whitespace, as far as typed form input is concerned.
pub open spec fn is_space(c: char) -> bool {
    c == ' ' || c == '\t' || c == '\n' || c == '\r'
}

/// The sequence with leading and trailing whitespace removed.
pub open spec fn trimmed(s: Seq<char>) -> Seq<char>
    decreases s.len(),
{
    if s.len() > 0 && is_space(s[0]) {
        trimmed(s.skip(1))
    } else if s.len() > 0 && is_space(s.last()) {
        trimmed(s.take(s.len() - 1))
    } else {
        s
    }
}

fn is_space_char(c: char) -> (r: bool)
    ensures
        r == is_space(c),
{
    c == ' ' || c == '\t' || c == '\n' || c == '\r'
}

/// Strip leading and trailing whitespace.
pub fn trim_spaces(s: &str) -> (r: String)
    ensures
        r@ == trimmed(s@),
{
    let n = s.unicode_len();
    let mut lo: usize = 0;
    let mut hi: usize = n;
    proof {
        assert(s@.subrange(0, n as int) =~= s@);
    }
    while lo < hi && is_space_char(s.get_char(lo))
        invariant
            lo <= hi <= n,
            n == s@.len(),
            trimmed(s@) == trimmed(s@.subrange(lo as int, hi as int)),
        decreases hi - lo,
    {
        proof {
            assert(s@.subrange(lo as int, hi as int).skip(1) =~= s@.subrange(lo + 1, hi as int));
        }
        lo += 1;
    }
    while hi > lo && is_space_char(s.get_char(hi - 1))
        invariant
            lo <= hi <= n,
            n == s@.len(),
            lo < hi ==> !is_space(s@[lo as int]),
            trimmed(s@) == trimmed(s@.subrange(lo as int, hi as int)),
        decreases hi,
    {
        proof {
            let sub = s@.subrange(lo as int, hi as int);
            assert(!is_space(sub[0]));
            assert(sub.take(sub.len() - 1) =~= s@.subrange(lo as int, hi - 1));
        }
        hi -= 1;
    }
    proof {
        let sub = s@.subrange(lo as int, hi as int);
        assert(sub.len() > 0 ==> !is_space(sub[0]) && !is_space(sub.last()));
    }
    s.substring_char(lo, hi).to_owned()
}

} // verus!
