use vstd::prelude::*;
use vstd::string::*;

verus! {

/// `a` and `b` joined by one path separator.
pub open spec fn join(a: Seq<char>, b: Seq<char>) -> Seq<char> {
    a + seq!['/'] + b
}

/// The views of a vector of strings.
pub open spec fn views(v: Seq<String>) -> Seq<Seq<char>> {
    v.map_values(|x: String| x@)
}

/// `s` with every hyphen turned into an underscore.
pub open spec fn underscored(s: Seq<char>) -> Seq<char> {
    s.map_values(|c: char| if c == '-' { '_' } else { c })
}

/// A line without the carriage return that ends it, if any.
pub open spec fn strip_cr(l: Seq<char>) -> Seq<char> {
    if l.len() > 0 && l.last() == '\r' {
        l.drop_last()
    } else {
        l
    }
}

/// The lines that a newline has closed so far, and the line still open.
pub open spec fn split_state(s: Seq<char>) -> (Seq<Seq<char>>, Seq<char>)
    decreases s.len(),
{
    if s.len() == 0 {
        (seq![], seq![])
    } else {
        let prev = split_state(s.drop_last());
        if s.last() == '\n' {
            (prev.0.push(strip_cr(prev.1)), seq![])
        } else {
            (prev.0, prev.1.push(s.last()))
        }
    }
}

/// The lines of `s`: split at `\n` or `\r\n`, the last line ending optional.
pub open spec fn lines(s: Seq<char>) -> Seq<Seq<char>> {
    let st = split_state(s);
    if st.1.len() == 0 {
        st.0
    } else {
        st.0.push(st.1)
    }
}

/// A line of `text` behind the comment marker: the marker alone for an empty
/// line, else the marker, a space and the line.
pub open spec fn commented_line(marker: Seq<char>, l: Seq<char>) -> Seq<char> {
    if l.len() == 0 {
        marker
    } else {
        marker + seq![' '] + l
    }
}

/// The lines of a sequence, each closed by a newline but the last.
pub open spec fn joined_lines(ls: Seq<Seq<char>>) -> Seq<char>
    decreases ls.len(),
{
    if ls.len() == 0 {
        seq![]
    } else if ls.len() == 1 {
        ls[0]
    } else {
        joined_lines(ls.drop_last()) + seq!['\n'] + ls.last()
    }
}

/// `text` turned into a comment block: every line behind the marker.
pub open spec fn commented(text: Seq<char>, marker: Seq<char>) -> Seq<char> {
    joined_lines(lines(text).map_values(|l: Seq<char>| commented_line(marker, l)))
}

/// Relies on `String::push`: appends one character.
#[verifier::external_body]
pub(crate) fn push_char(s: &mut String, c: char)
    ensures
        final(s)@ == old(s)@.push(c),
{
    s.push(c)
}

/// The characters of `s`, in order.
pub fn chars_of(s: &str) -> (r: Vec<char>)
    ensures
        r@ == s@,
{
    let mut out: Vec<char> = Vec::new();
    for c in it: s.chars()
        invariant
            out@ == it.seq().take(it.index() as int),
    {
        out.push(c);
    }
    proof {
        assert(out@ =~= s@);
    }
    out
}

/// The string made of the characters of `cs`.
pub fn string_of(cs: &Vec<char>) -> (r: String)
    ensures
        r@ == cs@,
{
    let mut out = String::new();
    let mut i: usize = 0;
    while i < cs.len()
        invariant
            i <= cs.len(),
            out@ == cs@.take(i as int),
        decreases cs.len() - i,
    {
        push_char(&mut out, cs[i]);
        i = i + 1;
        proof {
            assert(out@ =~= cs@.take(i as int));
        }
    }
    proof {
        assert(cs@.take(cs.len() as int) =~= cs@);
    }
    out
}

/// The concatenation of `a` and `b`.
pub fn text_concat(a: &str, b: &str) -> (r: String)
    ensures
        r@ == a@ + b@,
{
    let mut out = String::from_str(a);
    out.append(b);
    out
}

/// `a` and `b` joined by one path separator.
pub fn join_path(a: &str, b: &str) -> (r: String)
    ensures
        r@ == join(a@, b@),
{
    let mut out = String::from_str(a);
    push_char(&mut out, '/');
    out.append(b);
    out
}

/// Whether `c` occurs in `s`.
pub fn has_char(s: &str, c: char) -> (r: bool)
    ensures
        r == s@.contains(c),
{
    let cs = chars_of(s);
    let mut i: usize = 0;
    while i < cs.len()
        invariant
            i <= cs.len(),
            cs@ == s@,
            forall|j: int| 0 <= j < i ==> cs@[j] != c,
        decreases cs.len() - i,
    {
        if cs[i] == c {
            return true;
        }
        i = i + 1;
    }
    false
}

/// Whether two strings hold the same characters.
pub fn same_text(a: &str, b: &str) -> (r: bool)
    ensures
        r == (a@ == b@),
{
    let x = chars_of(a);
    let y = chars_of(b);
    if x.len() != y.len() {
        return false;
    }
    let mut i: usize = 0;
    while i < x.len()
        invariant
            i <= x.len(),
            x.len() == y.len(),
            x@ == a@,
            y@ == b@,
            forall|j: int| 0 <= j < i ==> x@[j] == y@[j],
        decreases x.len() - i,
    {
        if x[i] != y[i] {
            return false;
        }
        i = i + 1;
    }
    proof {
        assert(x@ =~= y@);
    }
    true
}

/// The identifier filter of the templates: every hyphen of `s` becomes an
/// underscore, so that a project name can serve as a module name.
pub fn hyphens_to_underscores(s: &str) -> (r: String)
    ensures
        r@ == underscored(s@),
{
    let cs = chars_of(s);
    let mut out = String::new();
    let mut i: usize = 0;
    while i < cs.len()
        invariant
            i <= cs.len(),
            cs@ == s@,
            out@ == underscored(s@.take(i as int)),
        decreases cs.len() - i,
    {
        let c = cs[i];
        if c == '-' {
            push_char(&mut out, '_');
        } else {
            push_char(&mut out, c);
        }
        i = i + 1;
        proof {
            assert(underscored(s@.take(i as int)) =~= underscored(s@.take(i - 1)).push(
                if c == '-' { '_' } else { c },
            ));
        }
    }
    proof {
        assert(s@.take(cs.len() as int) =~= s@);
    }
    out
}

/// The lines of `s`: split at `\n` or `\r\n`; the last line ending is
/// optional, so a text closed by a newline has no empty last line.
pub fn text_lines(s: &str) -> (r: Vec<String>)
    ensures
        views(r@) == lines(s@),
{
    let cs = chars_of(s);
    let mut done: Vec<String> = Vec::new();
    let mut cur: Vec<char> = Vec::new();
    let mut i: usize = 0;
    while i < cs.len()
        invariant
            i <= cs.len(),
            cs@ == s@,
            (views(done@), cur@) == split_state(s@.take(i as int)),
        decreases cs.len() - i,
    {
        let c = cs[i];
        proof {
            assert(s@.take(i + 1).drop_last() =~= s@.take(i as int));
        }
        if c == '\n' {
            if cur.len() > 0 && cur[cur.len() - 1] == '\r' {
                cur.pop();
            }
            let line = string_of(&cur);
            done.push(line);
            cur = Vec::new();
            proof {
                assert(views(done@) =~= split_state(s@.take(i + 1)).0);
                assert(cur@ =~= split_state(s@.take(i + 1)).1);
            }
        } else {
            cur.push(c);
            proof {
                assert(views(done@) =~= split_state(s@.take(i + 1)).0);
            }
        }
        i = i + 1;
    }
    proof {
        assert(s@.take(cs.len() as int) =~= s@);
    }
    if cur.len() > 0 {
        let line = string_of(&cur);
        done.push(line);
        proof {
            assert(views(done@) =~= lines(s@));
        }
    }
    done
}

/// The comment filter of the templates: every line of `text` behind
/// `marker` (a space between them where the line is not empty), the lines
/// joined by newlines. Used to put a license header into a source file.
pub fn comment_license(text: &str, marker: &str) -> (r: String)
    ensures
        r@ == commented(text@, marker@),
{
    let ls = text_lines(text);
    let ghost cl = lines(text@).map_values(|l: Seq<char>| commented_line(marker@, l));
    let mut out = String::new();
    let mut i: usize = 0;
    while i < ls.len()
        invariant
            i <= ls.len(),
            views(ls@) == lines(text@),
            cl == lines(text@).map_values(|l: Seq<char>| commented_line(marker@, l)),
            out@ == joined_lines(cl.take(i as int)),
        decreases ls.len() - i,
    {
        if i > 0 {
            push_char(&mut out, '\n');
        }
        out.append(marker);
        if !ls[i].as_str().is_empty() {
            push_char(&mut out, ' ');
            out.append(ls[i].as_str());
        }
        proof {
            assert(ls@[i as int]@ == lines(text@)[i as int]);
            assert(cl.take(i + 1).drop_last() =~= cl.take(i as int));
            if ls@[i as int]@.len() == 0 {
                assert(ls@[i as int]@ =~= seq![]);
            }
            if i == 0 {
                assert(out@ =~= cl[0]);
            } else {
                assert(out@ =~= joined_lines(cl.take(i as int)) + seq!['\n'] + cl[i as int]);
            }
        }
        i = i + 1;
    }
    proof {
        assert(cl.take(ls.len() as int) =~= cl);
    }
    out
}

} // verus!
