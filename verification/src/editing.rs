use vstd::prelude::*;
use vstd::string::StrSliceExecFns;
use vstd::string::StringExecFns;

verus! {

/// A blank character at the edges of editor input: the characters that
/// Rust's `char::is_whitespace` counts, the Unicode `White_Space` set.
pub open spec fn is_blank(c: char) -> bool {
    ||| c == '\t'
    ||| c == '\n'
    ||| c == '\u{b}'
    ||| c == '\u{c}'
    ||| c == '\r'
    ||| c == ' '
    ||| c == '\u{85}'
    ||| c == '\u{a0}'
    ||| c == '\u{1680}'
    ||| c == '\u{2000}'
    ||| c == '\u{2001}'
    ||| c == '\u{2002}'
    ||| c == '\u{2003}'
    ||| c == '\u{2004}'
    ||| c == '\u{2005}'
    ||| c == '\u{2006}'
    ||| c == '\u{2007}'
    ||| c == '\u{2008}'
    ||| c == '\u{2009}'
    ||| c == '\u{200a}'
    ||| c == '\u{2028}'
    ||| c == '\u{2029}'
    ||| c == '\u{202f}'
    ||| c == '\u{205f}'
    ||| c == '\u{3000}'
}

/// The prompt's characters with `"# "` inserted after every line break,
/// so that every one of its lines reads as a comment.
pub open spec fn commented(s: Seq<char>) -> Seq<char>
    decreases s.len(),
{
    if s.len() == 0 {
        Seq::empty()
    } else if s[0] == '\n' {
        seq!['\n', '#', ' '] + commented(s.drop_first())
    } else {
        seq![s[0]] + commented(s.drop_first())
    }
}

/// Commenting a sequence one character longer appends that character's
/// image.
proof fn lemma_commented_push(s: Seq<char>, c: char)
    ensures
        commented(s.push(c)) == commented(s) + (if c == '\n' {
            seq!['\n', '#', ' ']
        } else {
            seq![c]
        }),
    decreases s.len(),
{
    let image = if c == '\n' { seq!['\n', '#', ' '] } else { seq![c] };
    if s.len() == 0 {
        reveal_with_fuel(commented, 2);
        assert(s.push(c)[0] == c);
        assert(s.push(c).drop_first() =~= Seq::<char>::empty());
        assert(commented(s.push(c)) =~= commented(s) + image);
    } else {
        assert(s.push(c)[0] == s[0]);
        assert(s.push(c).drop_first() =~= s.drop_first().push(c));
        lemma_commented_push(s.drop_first(), c);
        let prefix = if s[0] == '\n' { seq!['\n', '#', ' '] } else { seq![s[0]] };
        assert(prefix + (commented(s.drop_first()) + image) =~= (prefix + commented(
            s.drop_first(),
        )) + image);
    }
}

/// Builds the text handed to the user's editor: the prompt as comment
/// lines, a separating empty line, and the starter text to edit.
pub fn editor_template(prompt: &str, starter: &str) -> (r: String)
    ensures
        r@ == seq!['#'] + commented(prompt@) + "\n\n"@ + starter@,
{
    proof {
        reveal_strlit("#");
        reveal_strlit("\n# ");
        reveal_strlit("\n\n");
    }
    let mut out = String::from_str("#");
    let n = prompt.unicode_len();
    proof {
        assert(prompt@.take(0) =~= Seq::<char>::empty());
        assert(out@ =~= seq!['#'] + commented(prompt@.take(0)));
    }
    let mut i: usize = 0;
    while i < n
        invariant
            i <= n,
            n == prompt@.len(),
            out@ == seq!['#'] + commented(prompt@.take(i as int)),
        decreases n - i,
    {
        let c = prompt.get_char(i);
        proof {
            lemma_commented_push(prompt@.take(i as int), c);
            assert(prompt@.take(i as int + 1) =~= prompt@.take(i as int).push(c));
        }
        if c == '\n' {
            out.append("\n# ");
            proof {
                reveal_strlit("\n# ");
                assert("\n# "@ =~= seq!['\n', '#', ' ']);
                assert(out@ =~= seq!['#'] + commented(prompt@.take(i as int + 1)));
            }
        } else {
            let piece = prompt.substring_char(i, i + 1);
            out.append(piece);
            proof {
                assert(piece@ =~= seq![c]);
                assert(out@ =~= seq!['#'] + commented(prompt@.take(i as int + 1)));
            }
        }
        i = i + 1;
    }
    proof {
        assert(prompt@.take(n as int) =~= prompt@);
    }
    out.append("\n\n");
    out.append(starter);
    proof {
        assert(out@ =~= seq!['#'] + commented(prompt@) + "\n\n"@ + starter@);
    }
    out
}

/// The index just past the line holding position `i`: past the next line
/// break, or the end.
pub open spec fn after_line(s: Seq<char>, i: int) -> int
    decreases s.len() - i,
    when 0 <= i <= s.len()
{
    if i >= s.len() {
        i
    } else if s[i] == '\n' {
        i + 1
    } else {
        after_line(s, i + 1)
    }
}

/// The next line starts after the current position, and no further than
/// the end.
proof fn lemma_after_line_bounds(s: Seq<char>, i: int)
    requires
        0 <= i <= s.len(),
    ensures
        i <= after_line(s, i) <= s.len(),
        i < s.len() ==> i < after_line(s, i),
    decreases s.len() - i,
{
    if i < s.len() && s[i] != '\n' {
        lemma_after_line_bounds(s, i + 1);
    }
}

/// The start of the first line at or after `i` that does not open with
/// `#`: where the editor's commented-out prompt ends and the user's own
/// text begins.
pub open spec fn content_start(s: Seq<char>, i: int) -> int
    decreases s.len() - i,
    when 0 <= i <= s.len()
    via content_start_decreases
{
    if i < s.len() && s[i] == '#' {
        content_start(s, after_line(s, i))
    } else {
        i
    }
}

#[via_fn]
proof fn content_start_decreases(s: Seq<char>, i: int) {
    if i < s.len() && s[i] == '#' {
        lemma_after_line_bounds(s, i);
    }
}

/// The first position at or after `i` holding a non-blank character, or
/// the end.
pub open spec fn first_solid(s: Seq<char>, i: int) -> int
    decreases s.len() - i,
    when 0 <= i <= s.len()
{
    if i < s.len() && is_blank(s[i]) {
        first_solid(s, i + 1)
    } else {
        i
    }
}

/// The position just past the last non-blank character before `i`, or
/// zero.
pub open spec fn last_solid(s: Seq<char>, i: int) -> int
    decreases i,
    when 0 <= i <= s.len()
{
    if i > 0 && is_blank(s[i - 1]) {
        last_solid(s, i - 1)
    } else {
        i
    }
}

/// The walk from `i` toward the front never goes below zero nor past
/// `i`.
proof fn lemma_last_solid_bounds(s: Seq<char>, i: int)
    requires
        0 <= i <= s.len(),
    ensures
        0 <= last_solid(s, i) <= i,
    decreases i,
{
    if i > 0 && is_blank(s[i - 1]) {
        lemma_last_solid_bounds(s, i - 1);
    }
}

/// The characters with every carriage return that stands directly
/// before a line feed removed: line endings as a line-based reading of
/// the text leaves them, a lone carriage return staying untouched.
pub open spec fn unix_lines(s: Seq<char>) -> Seq<char>
    decreases s.len(),
{
    if s.len() == 0 {
        Seq::empty()
    } else {
        let rest = unix_lines(s.drop_first());
        if s[0] == '\r' && s.len() >= 2 && s[1] == '\n' {
            rest
        } else {
            seq![s[0]] + rest
        }
    }
}

/// `t` with blanks removed from both ends.
pub open spec fn trim_blanks(t: Seq<char>) -> Seq<char> {
    let a = first_solid(t, 0);
    let b = last_solid(t, t.len() as int);
    if a <= b {
        t.subrange(a, b)
    } else {
        Seq::empty()
    }
}

/// What the engine keeps of the text an editor returned for a prompt it
/// had written out as comment lines: the leading lines opening with `#`
/// are dropped, line endings are normalized to bare line feeds, and
/// blanks are trimmed from both ends of what remains.
pub open spec fn stripped_input(s: Seq<char>) -> Seq<char> {
    trim_blanks(unix_lines(s.skip(content_start(s, 0))))
}

/// Whether a character is blank, as [`is_blank`] says.
fn blank_char(c: char) -> (r: bool)
    ensures
        r == is_blank(c),
{
    c == '\t' || c == '\n' || c == '\u{b}' || c == '\u{c}' || c == '\r' || c == ' ' || c
        == '\u{85}' || c == '\u{a0}' || c == '\u{1680}' || c == '\u{2000}' || c == '\u{2001}'
        || c == '\u{2002}' || c == '\u{2003}' || c == '\u{2004}' || c == '\u{2005}' || c
        == '\u{2006}' || c == '\u{2007}' || c == '\u{2008}' || c == '\u{2009}' || c
        == '\u{200a}' || c == '\u{2028}' || c == '\u{2029}' || c == '\u{202f}' || c
        == '\u{205f}' || c == '\u{3000}'
}

/// Drops the editor's own comment lines from the start of its output and
/// trims blanks from both ends of the rest, exactly as
/// [`stripped_input`] describes.
pub fn strip_editor_comments(input: &str) -> (r: String)
    ensures
        r@ == stripped_input(input@),
{
    let ghost s = input@;
    let n = input.unicode_len();
    // Skip the leading comment lines.
    let mut start: usize = 0;
    while start < n && input.get_char(start) == '#'
        invariant
            start <= n,
            n == s.len(),
            s == input@,
            content_start(s, 0) == content_start(s, start as int),
        decreases n - start,
    {
        let mut j: usize = start;
        while j < n && input.get_char(j) != '\n'
            invariant
                start <= j <= n,
                n == s.len(),
                s == input@,
                after_line(s, start as int) == after_line(s, j as int),
            decreases n - j,
        {
            j = j + 1;
        }
        if j < n {
            start = j + 1;
        } else {
            start = j;
        }
        proof {
            assert(start as int == after_line(s, j as int));
        }
    }
    let ghost tail = s.skip(start as int);
    proof {
        assert(content_start(s, 0) == start as int);
    }
    // Normalize the content's line endings, dropping each carriage
    // return that stands directly before a line feed.
    let mut content = String::new();
    let mut i: usize = start;
    proof {
        assert(content@ + unix_lines(s.skip(start as int)) =~= unix_lines(tail));
    }
    while i < n
        invariant
            start <= i <= n,
            n == s.len(),
            s == input@,
            tail == s.skip(start as int),
            content@ + unix_lines(s.skip(i as int)) == unix_lines(tail),
        decreases n - i,
    {
        let c = input.get_char(i);
        proof {
            let rest = s.skip(i as int);
            assert(rest[0] == s[i as int]);
            assert(rest.drop_first() =~= s.skip(i as int + 1));
            if i as int + 1 < n {
                assert(rest[1] == s[i as int + 1]);
            }
        }
        if c == '\r' && i + 1 < n && input.get_char(i + 1) == '\n' {
            proof {
                assert(unix_lines(s.skip(i as int)) == unix_lines(s.skip(i as int + 1)));
            }
        } else {
            let piece = input.substring_char(i, i + 1);
            content.append(piece);
            proof {
                assert(piece@ =~= seq![s[i as int]]);
                assert(unix_lines(s.skip(i as int)) == seq![s[i as int]] + unix_lines(
                    s.skip(i as int + 1),
                ));
                assert(content@ + unix_lines(s.skip(i as int + 1)) =~= unix_lines(tail));
            }
        }
        i = i + 1;
    }
    proof {
        assert(s.skip(n as int) =~= Seq::<char>::empty());
        assert(content@ + unix_lines(s.skip(n as int)) =~= content@);
        assert(content@ == unix_lines(tail));
    }
    // Trim blanks from both ends of the normalized content. The front's
    // first character is solid, so the walk from the back cannot pass it.
    let ghost t = content@;
    let normalized = content.as_str();
    let m = normalized.unicode_len();
    let mut a: usize = 0;
    while a < m && blank_char(normalized.get_char(a))
        invariant
            a <= m,
            m == t.len(),
            t == normalized@,
            first_solid(t, 0) == first_solid(t, a as int),
        decreases m - a,
    {
        a = a + 1;
    }
    proof {
        assert(first_solid(t, 0) == a as int);
    }
    let mut b: usize = m;
    while b > a && blank_char(normalized.get_char(b - 1))
        invariant
            a <= b <= m,
            m == t.len(),
            t == normalized@,
            a < m ==> !is_blank(t[a as int]),
            a < m ==> b > a,
            last_solid(t, m as int) == last_solid(t, b as int),
        decreases b,
    {
        b = b - 1;
    }
    let piece = normalized.substring_char(a, b);
    proof {
        if a < m {
            assert(b > a);
            assert(!is_blank(t[b as int - 1]));
            assert(last_solid(t, b as int) == b as int);
            assert(piece@ =~= stripped_input(s));
        } else {
            assert(a == m && b == m);
            assert(piece@ =~= Seq::<char>::empty());
            lemma_last_solid_bounds(t, m as int);
            if a as int <= last_solid(t, m as int) {
                assert(last_solid(t, m as int) == m as int);
                assert(stripped_input(s) =~= Seq::<char>::empty());
            }
            assert(piece@ =~= stripped_input(s));
        }
    }
    String::from_str(piece)
}

} // verus!
