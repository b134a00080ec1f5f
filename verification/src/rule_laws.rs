//! Properties of the session's rules, stated over inputs and results directly.

use vstd::prelude::*;
use crate::assets::{AssetKind, ImageSpec};
use crate::client::{client_setup_spec, known_client};
use crate::config::{blacklisted, button_list, checked_button, InitArgs};
use crate::number::{digits_value, is_digit, parse_u64_spec};
use crate::repository::{first_colon_to_slash, is_blank, trim, trim_end, trim_start, web_url};
use crate::session::{failed, init_answer, ConnectFailure, Session};
use crate::status::Status;
use crate::text::{fill, opt_view};

verus! {

/// The known editors and their applications.
pub proof fn law_known_editors()
    ensures
        known_client("vim"@) == Some((1219918645770059796u64, "vim"@)),
        known_client("neovim"@) == Some((1219918880005165137u64, "neovim"@)),
        known_client("lunarvim"@) == Some((1220295374087000104u64, "lunarvim"@)),
        known_client("nvchad"@) == Some((1220296082861326378u64, "nvchad"@)),
        known_client("astronvim"@) == Some((1230866983977746532u64, "astronvim"@)),
{
    reveal_strlit("vim");
    reveal_strlit("neovim");
    reveal_strlit("lunarvim");
    reveal_strlit("nvchad");
    reveal_strlit("astronvim");
    assert("vim"@.len() == 3 && "neovim"@.len() == 6 && "lunarvim"@.len() == 8);
    assert("nvchad"@.len() == 6 && "astronvim"@.len() == 9);
    assert("neovim"@[1] == 'e' && "nvchad"@[1] == 'v');
}

/// The editor's image: a given image always wins; otherwise a known editor
/// shows its own asset and a custom client the neovim asset. A decimal id
/// that is no known editor's name gives a custom client with that id.
pub proof fn law_client_images(name: Seq<char>, i: Seq<char>)
    ensures
        client_setup_spec(name, Some(i)) matches Some((_, _, img)) ==> img == ImageSpec::Text(i),
        known_client(name) matches Some((_, asset)) ==> client_setup_spec(name, None) matches Some(
            (_, _, img),
        ) && img == ImageSpec::Asset(AssetKind::Editor, asset),
        known_client(name) is None && parse_u64_spec(name) is Some ==> client_setup_spec(name, None)
            == Some((parse_u64_spec(name)->0, true, ImageSpec::Asset(AssetKind::Editor, "neovim"@))),
        known_client(name) is None && parse_u64_spec(name) is None ==> client_setup_spec(name, None)
            is None,
{
}

/// What `init` answers a session that is down: `InvalidClientId` for an
/// unknown client, `WorkspaceBlacklisted` when the starting workspace is on the
/// blacklist, `Success` otherwise.
pub proof fn law_init_answers(s: Session, opts: InitArgs)
    requires
        !s.connected,
    ensures
        client_setup_spec(opts.client@, opt_view(opts.image)) is None ==> init_answer(s, opts).0
            == Status::InvalidClientId,
        client_setup_spec(opts.client@, opt_view(opts.image)) is Some && (exists|i: int|
            0 <= i < opts.workspace_blacklist@.len() && #[trigger] opts.workspace_blacklist@[i]@
                == opts.workspace@) ==> init_answer(s, opts).0 == Status::WorkspaceBlacklisted,
        client_setup_spec(opts.client@, opt_view(opts.image)) is Some && (forall|i: int|
            0 <= i < opts.workspace_blacklist@.len() ==> #[trigger] opts.workspace_blacklist@[i]@
                != opts.workspace@) ==> init_answer(s, opts).0 == Status::Success,
{
}

/// A failed handshake is recorded as `HandshakeFailed`, a failed read as
/// `ReadFailed`; failing to reach Discord records nothing.
pub proof fn law_failures_recorded(s: Session)
    ensures
        failed(s, ConnectFailure::Handshake).last_error == Some(Status::HandshakeFailed),
        failed(s, ConnectFailure::Read).last_error == Some(Status::ReadFailed),
        failed(s, ConnectFailure::Connect) == s,
        failed(s, ConnectFailure::Handshake).connected == s.connected,
        failed(s, ConnectFailure::Handshake).config == s.config,
{
}

/// A workspace name is blacklisted exactly when it is one of the blacklist's
/// names.
pub proof fn law_blacklist_membership(list: Seq<String>, name: Seq<char>, i: int)
    requires
        0 <= i < list.len(),
    ensures
        list[i]@ == name ==> blacklisted(list, name),
        list.len() == 1 ==> (blacklisted(list, name) <==> list[0]@ == name),
{
}

/// Filling a template: the text before the first placeholder is kept as it
/// is, the placeholder becomes the value, and the rest is filled in turn.
pub proof fn law_fill_splits(u: Seq<char>, w: Seq<char>, v: Seq<char>)
    requires
        forall|j: int| 0 <= j < u.len() ==> u[j] != '{',
    ensures
        fill(u + "{}"@ + w, v) == u + v + fill(w, v),
        fill(u, v) == u,
    decreases u.len(),
{
    reveal_strlit("{}");
    if u.len() == 0 {
        assert(u + "{}"@ + w =~= "{}"@ + w);
        assert(("{}"@ + w).skip(2) =~= w);
        assert(u + v =~= v);
    } else {
        let t = u + "{}"@ + w;
        law_fill_splits(u.skip(1), w, v);
        assert(t.skip(1) =~= u.skip(1) + "{}"@ + w);
        assert(seq![u[0]] + u.skip(1) =~= u);
        assert(seq![u[0]] + (u.skip(1) + v + fill(w, v)) =~= u + v + fill(w, v));
    }
}

/// Reading a number: a leading `+` changes nothing, a leading `-` is refused,
/// a text with a character that is not a digit is refused, and a single
/// digit is its own value.
pub proof fn law_parse_signs_and_digits(d: Seq<char>, c: char)
    requires
        d.len() > 0,
        d[0] != '+',
    ensures
        parse_u64_spec(seq!['+'] + d) == parse_u64_spec(d),
        parse_u64_spec(seq!['-'] + d) is None,
        (exists|j: int| 0 <= j < d.len() && !is_digit(#[trigger] d[j])) ==> parse_u64_spec(d)
            is None,
        is_digit(c) ==> parse_u64_spec(seq![c]) == Some(((c as nat) - ('0' as nat)) as u64),
{
    assert((seq!['+'] + d).skip(1) =~= d);
    let m = seq!['-'] + d;
    assert(!is_digit(m[0]));
    if is_digit(c) {
        assert(seq![c].drop_last() =~= Seq::<char>::empty());
        assert(digits_value(Seq::<char>::empty()) == 0);
        assert(digits_value(seq![c]) == (c as nat) - ('0' as nat));
        assert(crate::number::unsigned_body(seq![c]) == seq![c]);
    }
}

/// A digit appended to a number multiplies it by ten and adds the digit.
pub proof fn law_digits_append(d: Seq<char>, c: char)
    requires
        is_digit(c),
    ensures
        digits_value(d.push(c)) == digits_value(d) * 10 + ((c as nat) - ('0' as nat)),
{
    assert(d.push(c).drop_last() =~= d);
}

/// A configured button is shown with both its texts; the URL `git` stands for
/// the repository's address and the button is dropped without one; a button
/// missing a text is dropped.
pub proof fn law_button_rules(label: Seq<char>, url: Seq<char>, o: Seq<char>)
    ensures
        label.len() == 0 || url.len() == 0 ==> checked_button(label, url, Some(o)) is None,
        label.len() > 0 ==> checked_button(label, "git"@, Some(o)) == Some((label, o)),
        label.len() > 0 ==> checked_button(label, "git"@, None) is None,
        label.len() > 0 && url.len() > 0 && url != "git"@ ==> checked_button(label, url, Some(o))
            == Some((label, url)),
        button_list(None) == Seq::<(Seq<char>, Seq<char>)>::empty(),
{
    reveal_strlit("git");
}

/// A host without `:` followed by `:` and a path: the first `:` becomes `/`.
pub proof fn law_first_colon(h: Seq<char>, p: Seq<char>)
    requires
        forall|j: int| 0 <= j < h.len() ==> h[j] != ':',
    ensures
        first_colon_to_slash(h + seq![':'] + p) == h + seq!['/'] + p,
    decreases h.len(),
{
    let t = h + seq![':'] + p;
    if h.len() == 0 {
        assert(t =~= seq![':'] + p);
        assert(t.skip(1) =~= p);
        assert(h + seq!['/'] + p =~= seq!['/'] + p);
    } else {
        law_first_colon(h.skip(1), p);
        assert(t.skip(1) =~= h.skip(1) + seq![':'] + p);
        assert(seq![h[0]] + (h.skip(1) + seq!['/'] + p) =~= h + seq!['/'] + p);
    }
}

/// An SSH remote `git@host:path` is shown as `https://host/path`, and a
/// trailing `.git` is dropped.
pub proof fn law_ssh_remote(h: Seq<char>, p: Seq<char>)
    requires
        forall|j: int| 0 <= j < h.len() ==> h[j] != ':',
    ensures
        web_url("git@"@ + h + seq![':'] + p + ".git"@) == "https://"@ + h + seq!['/'] + p,
{
    reveal_strlit("git@");
    reveal_strlit(".git");
    let u = "git@"@ + h + seq![':'] + p + ".git"@;
    assert(u.skip(u.len() - 4) =~= ".git"@);
    let v = u.take(u.len() - 4);
    assert(v =~= "git@"@ + (h + seq![':'] + p));
    assert(v.take(4) =~= "git@"@);
    assert(v.skip(4) =~= h + seq![':'] + p);
    law_first_colon(h, p);
    assert("https://"@ + (h + seq!['/'] + p) =~= "https://"@ + h + seq!['/'] + p);
}

/// Trimming leaves no blank at the start.
pub proof fn law_trim_start_no_blank(s: Seq<char>)
    ensures
        trim_start(s).len() > 0 ==> !is_blank(trim_start(s)[0]),
    decreases s.len(),
{
    if s.len() > 0 && is_blank(s[0]) {
        law_trim_start_no_blank(s.skip(1));
    }
}

/// Trimming the end keeps a prefix and leaves no blank at the end.
pub proof fn law_trim_end_no_blank(s: Seq<char>)
    ensures
        trim_end(s).len() > 0 ==> !is_blank(trim_end(s).last()),
        trim_end(s).len() <= s.len(),
        forall|j: int| 0 <= j < trim_end(s).len() ==> trim_end(s)[j] == s[j],
    decreases s.len(),
{
    if s.len() > 0 && is_blank(s.last()) {
        law_trim_end_no_blank(s.drop_last());
        assert forall|j: int| 0 <= j < trim_end(s).len() implies trim_end(s)[j] == s[j] by {
            assert(s.drop_last()[j] == s[j]);
        }
    }
}

/// A trimmed line has no blank at either end.
pub proof fn law_trim_no_blank_ends(s: Seq<char>)
    ensures
        trim(s).len() > 0 ==> !is_blank(trim(s)[0]) && !is_blank(trim(s).last()),
{
    law_trim_start_no_blank(s);
    law_trim_end_no_blank(trim_start(s));
}

} // verus!
