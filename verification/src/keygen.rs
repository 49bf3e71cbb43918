//! The token secret: drawing a fresh one, and writing it into the contents of `.env`.

use crate::text::{chars_of, push_char, push_chars};
use rand::Rng;
use vstd::prelude::*;

verus! {

/// The number of characters of a generated secret.
pub const SECRET_LENGTH: usize = 30;

/// The characters a generated secret is drawn from.
pub open spec fn secret_charset() -> Seq<char> {
    "ABCDEFGHIJKLMNOPQRSTUVWXYZabcdefghijklmnopqrstuvwxyz0123456789)(*%#@!~"@
}

/// rand `thread_rng().gen_range(0..bound)`: some index below `bound`.
///
/// The index is random; all that is claimed is that it lies in the range, which `gen_range`
/// documents (it panics on an empty range, which `requires` leaves out).
#[verifier::external_body]
fn random_below(bound: usize) -> (index: usize)
    requires
        bound > 0,
    ensures
        index < bound,
{
    rand::thread_rng().gen_range(0..bound)
}

/// The secret made of the charset's characters at the given positions, in order.
pub fn secret_from_indices(indices: &Vec<usize>) -> (secret: String)
    requires
        forall|k: int| 0 <= k < indices@.len() ==> #[trigger] indices@[k] < secret_charset().len(),
    ensures
        secret@.len() == indices@.len(),
        forall|k: int| 0 <= k < indices@.len() ==> #[trigger] secret@[k] == secret_charset()[indices@[k] as int],
{
    let charset = "ABCDEFGHIJKLMNOPQRSTUVWXYZabcdefghijklmnopqrstuvwxyz0123456789)(*%#@!~";
    proof {
        reveal_strlit("ABCDEFGHIJKLMNOPQRSTUVWXYZabcdefghijklmnopqrstuvwxyz0123456789)(*%#@!~");
    }
    let mut secret = String::new();
    let mut k: usize = 0;
    while k < indices.len()
        invariant
            k <= indices@.len(),
            charset@ == secret_charset(),
            forall|j: int| 0 <= j < indices@.len() ==> #[trigger] indices@[j] < secret_charset().len(),
            secret@.len() == k,
            forall|j: int| 0 <= j < k ==> #[trigger] secret@[j] == secret_charset()[indices@[j] as int],
        decreases indices.len() - k,
    {
        let c = charset.get_char(indices[k]);
        push_char(&mut secret, c);
        k += 1;
    }
    secret
}

/// A fresh secret: `SECRET_LENGTH` characters, each drawn at random from the charset.
pub fn generate_secret() -> (secret: String)
    ensures
        secret@.len() == SECRET_LENGTH,
        forall|k: int| 0 <= k < secret@.len() ==> secret_charset().contains(#[trigger] secret@[k]),
{
    proof {
        reveal_strlit("ABCDEFGHIJKLMNOPQRSTUVWXYZabcdefghijklmnopqrstuvwxyz0123456789)(*%#@!~");
    }
    let mut indices: Vec<usize> = Vec::new();
    let mut k: usize = 0;
    while k < SECRET_LENGTH
        invariant
            k <= SECRET_LENGTH,
            secret_charset().len() == 70,
            indices@.len() == k,
            forall|j: int| 0 <= j < k ==> #[trigger] indices@[j] < secret_charset().len(),
        decreases SECRET_LENGTH - k,
    {
        indices.push(random_below(70));
        k += 1;
    }
    let secret = secret_from_indices(&indices);
    proof {
        assert forall|j: int| 0 <= j < secret@.len() implies secret_charset().contains(#[trigger] secret@[j]) by {
            assert(secret@[j] == secret_charset()[indices@[j] as int]);
        }
    }
    secret
}

/// The position of the first line feed at or after `i`, or the length when there is none.
pub open spec fn find_newline(s: Seq<char>, i: int) -> int
    decreases s.len() - i,
{
    if i >= s.len() {
        s.len() as int
    } else if s[i] == '\n' {
        i
    } else {
        find_newline(s, i + 1)
    }
}

/// The first line feed at or after `i` lies between `i` and the end.
pub proof fn lemma_find_newline_bounds(s: Seq<char>, i: int)
    requires
        0 <= i,
    ensures
        i <= s.len() ==> i <= find_newline(s, i) <= s.len(),
        i > s.len() ==> find_newline(s, i) == s.len(),
    decreases s.len() - i,
{
    if i < s.len() && s[i] != '\n' {
        lemma_find_newline_bounds(s, i + 1);
    }
}

/// A line without the carriage return that ends it, if any.
pub open spec fn strip_cr(line: Seq<char>) -> Seq<char> {
    if line.len() > 0 && line.last() == '\r' { line.drop_last() } else { line }
}

/// The lines of `s` from position `i` on, as `str::lines` yields them: split at line feeds,
/// a carriage return before a line feed dropped, and no empty line after a final line feed.
pub open spec fn lines_from(s: Seq<char>, i: int) -> Seq<Seq<char>>
    decreases s.len() - i,
{
    if i < 0 || i >= s.len() {
        Seq::empty()
    } else {
        let k = find_newline(s, i);
        proof {
            lemma_find_newline_bounds(s, i);
        }
        if k >= s.len() {
            seq![s.subrange(i, s.len() as int)]
        } else {
            seq![strip_cr(s.subrange(i, k))] + lines_from(s, k + 1)
        }
    }
}

/// The lines of a text, as `str::lines` yields them.
pub open spec fn lines(s: Seq<char>) -> Seq<Seq<char>> {
    lines_from(s, 0)
}

/// A line that sets the token secret.
pub open spec fn is_secret_line(line: Seq<char>) -> bool {
    line.len() >= 11 && line.subrange(0, 11) == "JWT_SECRET="@
}

/// A line as it is written back: the secret line with the new secret, any other line as it was.
pub open spec fn rewritten_line(line: Seq<char>, secret: Seq<char>) -> Seq<char> {
    if is_secret_line(line) { "JWT_SECRET="@ + secret } else { line }
}

/// Law: every line that begins with `JWT_SECRET=`, whatever its length, is written back as
/// `JWT_SECRET=` followed by the new secret, and every other line is written back unchanged.
pub proof fn lemma_secret_lines_rewritten(line: Seq<char>, secret: Seq<char>)
    ensures
        "JWT_SECRET="@.is_prefix_of(line) ==> rewritten_line(line, secret) == "JWT_SECRET="@
            + secret,
        !"JWT_SECRET="@.is_prefix_of(line) ==> rewritten_line(line, secret) == line,
{
    reveal_strlit("JWT_SECRET=");
    if "JWT_SECRET="@.is_prefix_of(line) {
        assert(line.subrange(0, 11) =~= "JWT_SECRET="@);
    } else if line.len() >= 11 && line.subrange(0, 11) == "JWT_SECRET="@ {
        assert forall|j: int| 0 <= j < 11 implies "JWT_SECRET="@[j] == line[j] by {
            assert(line.subrange(0, 11)[j] == line[j]);
        }
    }
}

/// The lines written back, each followed by a line feed.
pub open spec fn rewrite_lines(ls: Seq<Seq<char>>, secret: Seq<char>) -> Seq<char>
    decreases ls.len(),
{
    if ls.len() == 0 {
        Seq::empty()
    } else {
        rewritten_line(ls[0], secret) + seq!['\n'] + rewrite_lines(ls.drop_first(), secret)
    }
}

/// The contents of `.env` once the secret is replaced by `secret`.
pub open spec fn env_with_secret(contents: Seq<char>, secret: Seq<char>) -> Seq<char> {
    rewrite_lines(lines(contents), secret)
}

/// Whether `chars[from..to]` starts with `JWT_SECRET=`.
fn starts_secret_line(chars: &Vec<char>, from: usize, to: usize) -> (r: bool)
    requires
        from <= to <= chars@.len(),
    ensures
        r == is_secret_line(chars@.subrange(from as int, to as int)),
{
    let prefix = "JWT_SECRET=";
    proof {
        reveal_strlit("JWT_SECRET=");
    }
    if to - from < 11 {
        return false;
    }
    let ghost line = chars@.subrange(from as int, to as int);
    let mut j: usize = 0;
    while j < 11
        invariant
            j <= 11,
            from + 11 <= to <= chars@.len(),
            prefix@ == "JWT_SECRET="@,
            prefix@.len() == 11,
            line == chars@.subrange(from as int, to as int),
            forall|m: int| 0 <= m < j ==> line[m] == prefix@[m],
        decreases 11 - j,
    {
        if chars[from + j] != prefix.get_char(j) {
            assert(line.subrange(0, 11)[j as int] != prefix@[j as int]);
            return false;
        }
        j += 1;
    }
    assert(line.subrange(0, 11) =~= prefix@);
    true
}

/// The contents of `.env` with every `JWT_SECRET=` line set to the new secret; every line
/// ends with a line feed afterwards.
pub fn replace_jwt_secret(contents: &str, secret: &str) -> (updated: String)
    ensures
        updated@ == env_with_secret(contents@, secret@),
{
    let chars = chars_of(contents);
    let n = chars.len();
    let mut out = String::new();
    let mut p: usize = 0;
    while p < n
        invariant
            p <= n,
            n == chars@.len(),
            chars@ == contents@,
            env_with_secret(contents@, secret@) == out@ + rewrite_lines(lines_from(chars@, p as int), secret@),
        decreases n - p,
    {
        let mut k = p;
        while k < n && chars[k] != '\n'
            invariant
                p <= k <= n,
                n == chars@.len(),
                find_newline(chars@, p as int) == find_newline(chars@, k as int),
            decreases n - k,
        {
            k += 1;
        }
        let ghost s = chars@;
        assert(find_newline(s, k as int) == k);
        let end = if k < n && k > p && chars[k - 1] == '\r' { k - 1 } else { k };
        let ghost line = if k < n { strip_cr(s.subrange(p as int, k as int)) } else { s.subrange(p as int, n as int) };
        assert(line =~= s.subrange(p as int, end as int));
        let ghost before = out@;
        if starts_secret_line(&chars, p, end) {
            out.append("JWT_SECRET=");
            out.append(secret);
        } else {
            push_chars(&mut out, &chars, p, end);
        }
        push_char(&mut out, '\n');
        let next = if k < n { k + 1 } else { n };
        proof {
            assert(out@ =~= before + rewritten_line(line, secret@) + seq!['\n']);
            let rest = lines_from(s, next as int);
            assert(lines_from(s, p as int) =~= seq![line] + rest);
            assert((seq![line] + rest).drop_first() =~= rest);
            assert(rewrite_lines(seq![line] + rest, secret@)
                == rewritten_line(line, secret@) + seq!['\n'] + rewrite_lines(rest, secret@));
        }
        p = next;
    }
    out
}

/// No line feed in `s`.
pub open spec fn no_line_feed(s: Seq<char>) -> bool {
    forall|j: int| 0 <= j < s.len() ==> s[j] != '\n'
}

proof fn lemma_find_newline_at(s: Seq<char>, i: int, m: int)
    requires
        0 <= i <= m < s.len(),
        s[m] == '\n',
        forall|j: int| i <= j < m ==> s[j] != '\n',
    ensures
        find_newline(s, i) == m,
    decreases m - i,
{
    if i < m {
        lemma_find_newline_at(s, i + 1, m);
    }
}

proof fn lemma_find_newline_first(s: Seq<char>, i: int)
    requires
        0 <= i,
    ensures
        forall|j: int| i <= j < find_newline(s, i) && j < s.len() ==> s[j] != '\n',
    decreases s.len() - i,
{
    if i < s.len() && s[i] != '\n' {
        lemma_find_newline_first(s, i + 1);
    }
}

proof fn lemma_find_newline_shift(p: Seq<char>, r: Seq<char>, i: int)
    requires
        0 <= i <= r.len(),
    ensures
        find_newline(p + r, p.len() + i) == p.len() + find_newline(r, i),
    decreases r.len() - i,
{
    if i < r.len() {
        assert((p + r)[p.len() + i] == r[i]);
        if r[i] != '\n' {
            lemma_find_newline_shift(p, r, i + 1);
        }
    }
}

proof fn lemma_lines_from_shift(p: Seq<char>, r: Seq<char>, i: int)
    requires
        0 <= i,
    ensures
        lines_from(p + r, p.len() + i) == lines_from(r, i),
    decreases r.len() - i,
{
    let s = p + r;
    if i < r.len() {
        lemma_find_newline_shift(p, r, i);
        lemma_find_newline_bounds(r, i);
        let k = find_newline(r, i);
        if k >= r.len() {
            assert(s.subrange(p.len() + i, s.len() as int) =~= r.subrange(i, r.len() as int));
        } else {
            assert(s.subrange(p.len() + i, p.len() + k) =~= r.subrange(i, k));
            lemma_lines_from_shift(p, r, k + 1);
        }
    }
}

/// The lines of `x` + line feed + `r`, when `x` holds no line feed: `x` without a final
/// carriage return, then the lines of `r`.
proof fn lemma_lines_first(x: Seq<char>, r: Seq<char>)
    requires
        no_line_feed(x),
    ensures
        lines(x + seq!['\n'] + r) == seq![strip_cr(x)] + lines(r),
{
    let head = x + seq!['\n'];
    let s = head + r;
    assert(s[x.len() as int] == '\n');
    assert forall|j: int| 0 <= j < x.len() implies s[j] != '\n' by {
        assert(s[j] == x[j]);
    }
    lemma_find_newline_at(s, 0, x.len() as int);
    assert(s.subrange(0, x.len() as int) =~= x);
    lemma_lines_from_shift(head, r, 0);
    assert(x + seq!['\n'] + r == s);
}

/// Every line that `lines_from` yields is free of line feeds.
proof fn lemma_lines_have_no_line_feed(s: Seq<char>, i: int)
    requires
        0 <= i,
    ensures
        forall|k: int| 0 <= k < lines_from(s, i).len() ==> no_line_feed(#[trigger] lines_from(s, i)[k]),
    decreases s.len() - i,
{
    if i < s.len() {
        lemma_find_newline_bounds(s, i);
        let k = find_newline(s, i);
        if k < s.len() {
            lemma_lines_have_no_line_feed(s, k + 1);
            let first = s.subrange(i, k);
            lemma_find_newline_first(s, i);
            assert forall|j: int| 0 <= j < first.len() implies first[j] != '\n' by {
                assert(first[j] == s[i + j]);
            }
            let rest = lines_from(s, k + 1);
            assert forall|m: int| 0 <= m < lines_from(s, i).len() implies no_line_feed(
                #[trigger] lines_from(s, i)[m],
            ) by {
                if m == 0 {
                    assert(lines_from(s, i)[0] == strip_cr(first));
                } else {
                    assert(lines_from(s, i)[m] == rest[m - 1]);
                }
            }
        } else {
            let only = s.subrange(i, s.len() as int);
            lemma_find_newline_first(s, i);
            assert forall|j: int| 0 <= j < only.len() implies only[j] != '\n' by {
                assert(only[j] == s[i + j]);
            }
        }
    }
}

/// Each written-back line, with a carriage return at its end dropped.
pub open spec fn written_lines(ls: Seq<Seq<char>>, secret: Seq<char>) -> Seq<Seq<char>> {
    ls.map_values(|l: Seq<char>| strip_cr(rewritten_line(l, secret)))
}

proof fn lemma_lines_of_rewrite(ls: Seq<Seq<char>>, secret: Seq<char>)
    requires
        no_line_feed(secret),
        forall|k: int| 0 <= k < ls.len() ==> no_line_feed(#[trigger] ls[k]),
    ensures
        lines(rewrite_lines(ls, secret)) == written_lines(ls, secret),
    decreases ls.len(),
{
    if ls.len() == 0 {
        assert(lines(Seq::<char>::empty()) =~= Seq::<Seq<char>>::empty());
        assert(written_lines(ls, secret) =~= Seq::<Seq<char>>::empty());
    } else {
        let x = rewritten_line(ls[0], secret);
        let rest = ls.drop_first();
        assert forall|k: int| 0 <= k < rest.len() implies no_line_feed(#[trigger] rest[k]) by {
            assert(rest[k] == ls[k + 1]);
        }
        lemma_lines_of_rewrite(rest, secret);
        assert(no_line_feed(ls[0]));
        assert(no_line_feed(x)) by {
            if is_secret_line(ls[0]) {
                let lit = "JWT_SECRET="@;
                assert(lit =~= ls[0].subrange(0, 11));
                assert forall|j: int| 0 <= j < x.len() implies x[j] != '\n' by {
                    if j < 11 {
                        assert(x[j] == ls[0][j]);
                    } else {
                        assert(x[j] == secret[j - 11]);
                    }
                }
            }
        }
        lemma_lines_first(x, rewrite_lines(rest, secret));
        assert(written_lines(ls, secret) =~= seq![strip_cr(x)] + written_lines(rest, secret));
    }
}

/// Law: read back line by line, the rewritten `.env` holds the lines of the old contents in
/// order, each secret line now set to the new secret and every other line as it was (a
/// carriage return left at the very end of the old contents is dropped). A secret with a
/// line feed in it is left out: it would split its line.
pub proof fn lemma_env_lines_after_replace(contents: Seq<char>, secret: Seq<char>)
    requires
        no_line_feed(secret),
    ensures
        lines(env_with_secret(contents, secret)) == written_lines(lines(contents), secret),
{
    lemma_lines_have_no_line_feed(contents, 0);
    lemma_lines_of_rewrite(lines(contents), secret);
}

} // verus!
