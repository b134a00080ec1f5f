//! The web address of a workspace's repository, read from the text of its
//! git configuration.

use vstd::prelude::*;
use crate::text::{concat_text, is_empty, starts_with, starts_with_spec, text_eq};

verus! {

/// Blanks around a configuration line.
pub open spec fn is_blank(c: char) -> bool {
    c == ' ' || c == '\t' || c == '\r'
}

/// `s` without its leading blanks.
pub open spec fn trim_start(s: Seq<char>) -> Seq<char>
    decreases s.len(),
{
    if s.len() > 0 && is_blank(s[0]) {
        trim_start(s.skip(1))
    } else {
        s
    }
}

/// `s` without its trailing blanks.
pub open spec fn trim_end(s: Seq<char>) -> Seq<char>
    decreases s.len(),
{
    if s.len() > 0 && is_blank(s.last()) {
        trim_end(s.drop_last())
    } else {
        s
    }
}

/// `s` without blanks at either end.
pub open spec fn trim(s: Seq<char>) -> Seq<char> {
    trim_end(trim_start(s))
}

/// The length of the first line of `t`: the index of its first newline, or
/// its length when it has none.
pub open spec fn line_end(t: Seq<char>) -> nat
    decreases t.len(),
{
    if t.len() == 0 || t[0] == '\n' {
        0
    } else {
        1 + line_end(t.skip(1))
    }
}

/// The first line of a text ends at its first newline, within the text.
pub proof fn lemma_line_end(t: Seq<char>)
    ensures
        line_end(t) <= t.len(),
        line_end(t) < t.len() ==> t[line_end(t) as int] == '\n',
        forall|j: int| 0 <= j < line_end(t) ==> t[j] != '\n',
    decreases t.len(),
{
    if t.len() > 0 && t[0] != '\n' {
        lemma_line_end(t.skip(1));
        assert forall|j: int| 0 <= j < line_end(t) implies t[j] != '\n' by {
            if j > 0 {
                assert(t[j] == t.skip(1)[j - 1]);
            }
        }
    }
}

/// The value of a `url = <value>` line.
pub open spec fn url_value(line: Seq<char>) -> Option<Seq<char>> {
    if starts_with_spec(line, "url"@) {
        let r = trim_start(line.skip(3));
        if r.len() > 0 && r[0] == '=' {
            Some(trim(r.skip(1)))
        } else {
            None
        }
    } else {
        None
    }
}

/// `s` with its first `:` turned into `/`.
pub open spec fn first_colon_to_slash(s: Seq<char>) -> Seq<char>
    decreases s.len(),
{
    if s.len() == 0 {
        s
    } else if s[0] == ':' {
        seq!['/'] + s.skip(1)
    } else {
        seq![s[0]] + first_colon_to_slash(s.skip(1))
    }
}

/// Whether `s` ends with `p`.
pub open spec fn ends_with_spec(s: Seq<char>, p: Seq<char>) -> bool {
    p.len() <= s.len() && s.skip(s.len() - p.len()) == p
}

/// The web address of a remote's URL: without a trailing `.git`, and an SSH
/// address `git@host:path` as `https://host/path`.
pub open spec fn web_url(u: Seq<char>) -> Seq<char> {
    let v = if ends_with_spec(u, ".git"@) {
        u.take(u.len() - 4)
    } else {
        u
    };
    if starts_with_spec(v, "git@"@) {
        "https://"@ + first_colon_to_slash(v.skip(4))
    } else {
        v
    }
}

/// The rest of the text after its first line.
pub open spec fn after_line(t: Seq<char>) -> Seq<char> {
    if line_end(t) < t.len() {
        t.skip(line_end(t) as int + 1)
    } else {
        Seq::<char>::empty()
    }
}

/// The web address of the first `url` line in the `origin` remote's section,
/// reading `t` line by line; `in_origin` tells whether the reading starts in
/// that section.
pub open spec fn origin_scan(t: Seq<char>, in_origin: bool) -> Option<Seq<char>>
    decreases t.len(),
{
    if t.len() == 0 {
        None
    } else {
        proof {
            lemma_line_end(t);
        }
        let line = trim(t.take(line_end(t) as int));
        if line.len() > 0 && line[0] == '[' {
            origin_scan(after_line(t), line == "[remote \"origin\"]"@)
        } else if in_origin && url_value(line) is Some {
            Some(web_url(url_value(line)->0))
        } else {
            origin_scan(after_line(t), in_origin)
        }
    }
}

/// `s` without its leading blanks.
fn trim_start_text(s: &str) -> (r: String)
    ensures
        r@ == trim_start(s@),
{
    let n = s.unicode_len();
    let mut i: usize = 0;
    assert(s@.skip(0) =~= s@);
    while i < n && is_blank_exec(s.get_char(i))
        invariant
            n == s@.len(),
            i <= n,
            trim_start(s@) == trim_start(s@.skip(i as int)),
        decreases n - i,
    {
        assert(s@.skip(i as int).skip(1) =~= s@.skip(i + 1));
        i = i + 1;
    }
    let r = s.substring_char(i, n);
    assert(r@ =~= s@.skip(i as int));
    r.to_owned()
}

/// `s` without blanks at either end.
pub fn trim_text(s: &str) -> (r: String)
    ensures
        r@ == trim(s@),
{
    let t = trim_start_text(s);
    let n = t.as_str().unicode_len();
    let mut j: usize = n;
    assert(t@.subrange(0, n as int) =~= t@);
    while j > 0 && is_blank_exec(t.as_str().get_char(j - 1))
        invariant
            n == t@.len(),
            j <= n,
            trim_end(t@) == trim_end(t@.subrange(0, j as int)),
        decreases j,
    {
        assert(t@.subrange(0, j as int).drop_last() =~= t@.subrange(0, j - 1));
        j = j - 1;
    }
    let r = t.as_str().substring_char(0, j);
    r.to_owned()
}

fn is_blank_exec(c: char) -> (r: bool)
    ensures
        r == is_blank(c),
{
    c == ' ' || c == '\t' || c == '\r'
}

/// The value of a `url = <value>` line.
fn url_value_of(line: &str) -> (r: Option<String>)
    ensures
        match url_value(line@) {
            Some(v) => r matches Some(x) && x@ == v,
            None => r is None,
        },
{
    proof {
        reveal_strlit("url");
    }
    if !starts_with(line, "url") {
        return None;
    }
    let n = line.unicode_len();
    let after = line.substring_char(3, n);
    assert(after@ =~= line@.skip(3));
    let r = trim_start_text(after);
    let m = r.as_str().unicode_len();
    if m > 0 && r.as_str().get_char(0) == '=' {
        let value = r.as_str().substring_char(1, m);
        assert(value@ =~= r@.skip(1));
        Some(trim_text(value))
    } else {
        None
    }
}

/// `s` with its first `:` turned into `/`.
fn first_colon_to_slash_of(s: &str) -> (r: String)
    ensures
        r@ == first_colon_to_slash(s@),
{
    let n = s.unicode_len();
    let mut i: usize = 0;
    assert(s@.take(0) + s@.skip(0) =~= s@);
    while i < n
        invariant
            n == s@.len(),
            i <= n,
            first_colon_to_slash(s@) == s@.take(i as int) + first_colon_to_slash(s@.skip(i as int)),
        decreases n - i,
    {
        let ghost rest = s@.skip(i as int);
        if s.get_char(i) == ':' {
            let head = s.substring_char(0, i);
            let tail = s.substring_char(i + 1, n);
            assert(rest.skip(1) =~= s@.skip(i + 1));
            let with_slash = concat_text(head, "/");
            let r = concat_text(with_slash.as_str(), tail);
            proof {
                reveal_strlit("/");
                assert(r@ =~= s@.take(i as int) + (seq!['/'] + rest.skip(1)));
            }
            return r;
        }
        assert(rest.skip(1) =~= s@.skip(i + 1));
        assert(s@.take(i as int) + seq![rest[0]] =~= s@.take(i + 1));
        assert(s@.take(i as int) + (seq![rest[0]] + first_colon_to_slash(rest.skip(1))) =~= s@.take(
            i + 1,
        ) + first_colon_to_slash(s@.skip(i + 1)));
        i = i + 1;
    }
    assert(s@.skip(n as int) =~= Seq::<char>::empty());
    assert(s@.take(n as int) =~= s@);
    s.to_owned()
}

/// The web address of a remote's URL.
fn web_url_of(u: &str) -> (r: String)
    ensures
        r@ == web_url(u@),
{
    proof {
        reveal_strlit(".git");
        reveal_strlit("git@");
    }
    let n = u.unicode_len();
    let v = if n >= 4 && text_eq(u.substring_char(n - 4, n), ".git") {
        assert(u@.subrange(n - 4, n as int) =~= u@.skip(n - 4));
        u.substring_char(0, n - 4)
    } else {
        proof {
            if n >= 4 {
                assert(u@.subrange(n - 4, n as int) =~= u@.skip(n - 4));
            }
        }
        u
    };
    assert(v@ == (if ends_with_spec(u@, ".git"@) { u@.take(u@.len() - 4) } else { u@ }));
    if starts_with(v, "git@") {
        let m = v.unicode_len();
        let rest = v.substring_char(4, m);
        assert(rest@ =~= v@.skip(4));
        let converted = first_colon_to_slash_of(rest);
        concat_text("https://", converted.as_str())
    } else {
        v.to_owned()
    }
}

/// The web address of the repository whose git configuration is `config`:
/// the first `url` of the `[remote "origin"]` section, without a trailing
/// `.git` and with an SSH address `git@host:path` as `https://host/path`.
/// Lines are read with blanks (space, tab, carriage return) trimmed; a
/// section starts at a line beginning with `[`. `None` when the section has
/// no `url = <value>` line.
pub fn origin_web_url(config: &str) -> (r: Option<String>)
    ensures
        match origin_scan(config@, false) {
            Some(v) => r matches Some(x) && x@ == v,
            None => r is None,
        },
{
    let n = config.unicode_len();
    let mut pos: usize = 0;
    let mut in_origin = false;
    assert(config@.skip(0) =~= config@);
    while pos < n
        invariant
            n == config@.len(),
            pos <= n,
            origin_scan(config@, false) == origin_scan(config@.skip(pos as int), in_origin),
        decreases n - pos,
    {
        let ghost t = config@.skip(pos as int);
        let mut e: usize = pos;
        proof {
            lemma_line_end(t);
        }
        while e < n && config.get_char(e) != '\n'
            invariant
                n == config@.len(),
                pos <= e <= n,
                t == config@.skip(pos as int),
                line_end(t) == (e - pos) + line_end(config@.skip(e as int)),
            decreases n - e,
        {
            assert(config@.skip(e as int).skip(1) =~= config@.skip(e + 1));
            e = e + 1;
        }
        proof {
            if e < n {
                assert(config@.skip(e as int)[0] == '\n');
            }
            assert(line_end(t) == e - pos);
        }
        let raw = config.substring_char(pos, e);
        assert(raw@ =~= t.take(line_end(t) as int));
        let line = trim_text(raw);
        let len = line.as_str().unicode_len();
        let ghost next = after_line(t);
        if e < n {
            assert(next =~= config@.skip(e + 1));
        } else {
            assert(next =~= config@.skip(n as int));
        }
        if len > 0 && line.as_str().get_char(0) == '[' {
            in_origin = text_eq(line.as_str(), "[remote \"origin\"]");
        } else if in_origin {
            match url_value_of(line.as_str()) {
                Some(v) => {
                    return Some(web_url_of(v.as_str()));
                },
                None => {},
            }
        }
        pos = if e < n {
            e + 1
        } else {
            n
        };
    }
    assert(config@.skip(n as int) =~= Seq::<char>::empty());
    None
}

} // verus!
