//! The markup transpiler: converts a fetched document's line-oriented
//! markup into HTML, one physical line at a time, carrying a single render
//! mode across lines.  Link targets are rewritten so that in-protocol
//! navigation is routed back through the gateway's own query interface.

use vstd::prelude::*;
use vstd::string::StrSliceExecFns;
use vstd::string::StringExecFns;

use crate::escape::escape_text;
use crate::escape::spec_escape;
use crate::ext::parse_url_parts;
use crate::ext::url_parts;
use crate::link::decode_link_line;
use crate::link::spec_link_split;

verus! {

/// The render mode carried across lines.  At most one mode is active per
/// line; only `ListItem` (a list is open) and `PreformatToggle` (inside a
/// preformatted block) influence how the next line is handled.
#[derive(Debug, Clone, Copy, PartialEq, Eq, Structural)]
pub enum GeminiGem {
    Text,
    LinkLine,
    Heading,
    ListItem,
    QuoteLine,
    PreformatToggle,
}

/// The closing list tag owed when a list is open, and nothing otherwise.
pub open spec fn spec_close_ul(mode: GeminiGem) -> Seq<char> {
    if mode is ListItem {
        "</ul>"@
    } else {
        Seq::empty()
    }
}

/// A line that opens or closes a preformatted block: it starts with three
/// backticks.
pub open spec fn spec_fence(line: Seq<char>) -> bool {
    line.len() >= 3 && line[0] == '`' && line[1] == '`' && line[2] == '`'
}

/// The length of the run of `#` characters starting at `i`.
pub open spec fn spec_hash_run_from(s: Seq<char>, i: int) -> int
    decreases s.len() - i,
{
    if i < 0 || i >= s.len() || s[i] != '#' {
        0
    } else {
        1 + spec_hash_run_from(s, i + 1)
    }
}

/// The first position at or after `i` holding `c`, or the end of the text.
pub open spec fn spec_find_char_from(s: Seq<char>, c: char, i: int) -> int
    decreases s.len() - i,
{
    if i < 0 || i >= s.len() {
        s.len() as int
    } else if s[i] == c {
        i
    } else {
        spec_find_char_from(s, c, i + 1)
    }
}

proof fn lemma_find_char_from_bounds(s: Seq<char>, c: char, i: int)
    requires
        0 <= i <= s.len(),
    ensures
        i <= spec_find_char_from(s, c, i) <= s.len(),
    decreases s.len() - i,
{
    if i < s.len() && s[i] != c {
        lemma_find_char_from_bounds(s, c, i + 1);
    }
}

pub open spec fn spec_heading_open(level: int) -> Seq<char> {
    if level <= 1 {
        "<h1>"@
    } else if level == 2 {
        "<h2>"@
    } else if level == 3 {
        "<h3>"@
    } else if level == 4 {
        "<h4>"@
    } else if level == 5 {
        "<h5>"@
    } else {
        "<h6>"@
    }
}

pub open spec fn spec_heading_close(level: int) -> Seq<char> {
    if level <= 1 {
        "</h1>"@
    } else if level == 2 {
        "</h2>"@
    } else if level == 3 {
        "</h3>"@
    } else if level == 4 {
        "</h4>"@
    } else if level == 5 {
        "</h5>"@
    } else {
        "</h6>"@
    }
}

/// The HTML of a heading line: the run of `#` sets the level, capped at 6;
/// the first space after the run starts the heading text, which is escaped;
/// a heading line without a space produces nothing.
pub open spec fn spec_heading_html(line: Seq<char>) -> Seq<char> {
    let run = spec_hash_run_from(line, 0);
    let level = if run > 6 { 6int } else { run };
    let sp = spec_find_char_from(line, ' ', run);
    if sp == line.len() {
        Seq::empty()
    } else {
        spec_heading_open(level) + spec_escape(line.subrange(sp + 1, line.len() as int))
            + spec_heading_close(level)
    }
}

/// A target that parses as an absolute URL with scheme `http` or `https`:
/// such links leave the gateway and are emitted as they stand.
pub open spec fn spec_is_web_target(t: Seq<char>) -> bool {
    match url_parts(t) {
        Some(p) => p.0 == "http"@ || p.0 == "https"@,
        None => false,
    }
}

/// The HTML of a link line.  The text after `=>` is escaped and split into
/// target and label.  A web target is linked directly; any other target is
/// treated as a path relative to the origin host and rewritten into the
/// gateway's own query interface, with a `/` inserted unless the target
/// already starts with one.
pub open spec fn spec_link_html(line: Seq<char>, host: Seq<char>) -> Seq<char> {
    let esc = spec_escape(line.subrange(2, line.len() as int));
    let target = spec_link_split(esc).0;
    let label = spec_link_split(esc).1;
    if spec_is_web_target(target) {
        "<a href=\""@ + target + "\">"@ + label + "</a><br>"@
    } else if target.len() > 0 && target[0] == '/' {
        "<a href=\"?search="@ + host + target + "\">"@ + label + "</a><br>"@
    } else {
        "<a href=\"?search="@ + host + "/"@ + target + "\">"@ + label + "</a><br>"@
    }
}

/// One step of the transpiler: the mode after a line, and the HTML the line
/// emits.  Inside a preformatted block a fence closes the block and any
/// other line is emitted verbatim; outside one, the line's leading
/// characters pick heading, link, list, quote or plain-paragraph handling.
pub open spec fn spec_step_line(mode: GeminiGem, line: Seq<char>, host: Seq<char>) -> (GeminiGem, Seq<char>) {
    if mode is PreformatToggle {
        if spec_fence(line) {
            (GeminiGem::Text, "</pre>"@)
        } else {
            (GeminiGem::PreformatToggle, line)
        }
    } else if spec_fence(line) {
        (GeminiGem::PreformatToggle, spec_close_ul(mode) + "<pre style=\"overflow: scroll;\">"@)
    } else if line.len() > 0 && line[0] == '#' {
        (GeminiGem::Heading, spec_close_ul(mode) + spec_heading_html(line))
    } else if line.len() >= 3 && line[0] == '=' && line[1] == '>' && line[2] == ' ' {
        (GeminiGem::LinkLine, spec_close_ul(mode) + spec_link_html(line, host))
    } else if line.len() >= 2 && line[0] == '=' && line[1] == '>' {
        (GeminiGem::Text, spec_close_ul(mode) + ("<p>"@ + spec_escape(line) + "</p>"@))
    } else if line.len() > 0 && line[0] == '=' {
        (mode, Seq::empty())
    } else if line.len() > 0 && line[0] == '*' {
        if line.len() >= 2 && line[1] == ' ' {
            (GeminiGem::ListItem, (if mode is ListItem { Seq::<char>::empty() } else { "<ul>"@ })
                + ("<li>"@ + spec_escape(line.subrange(2, line.len() as int)) + "</li>"@))
        } else {
            (mode, Seq::empty())
        }
    } else if line.len() > 0 && line[0] == '>' {
        if line.len() >= 2 && line[1] == ' ' {
            (GeminiGem::QuoteLine, spec_close_ul(mode) + ("<blockquote>"@
                + spec_escape(line.subrange(2, line.len() as int)) + "</blockquote>"@))
        } else {
            (mode, Seq::empty())
        }
    } else {
        (GeminiGem::Text, spec_close_ul(mode) + ("<p>"@ + spec_escape(line) + "</p>"@))
    }
}

/// A physical line, with the trailing carriage return of a CRLF ending
/// removed.
pub open spec fn spec_strip_cr(l: Seq<char>) -> Seq<char> {
    if l.len() > 0 && l.last() == '\r' {
        l.drop_last()
    } else {
        l
    }
}

/// The physical lines of the document text from position `p` on: split at
/// every newline, each line stripped of a trailing carriage return; a final
/// line ending opens no further empty line.
pub open spec fn spec_split_lines_from(s: Seq<char>, p: int) -> Seq<Seq<char>>
    decreases s.len() - p,
    via spec_split_lines_from_decreases
{
    if p < 0 || p >= s.len() {
        Seq::empty()
    } else {
        let j = spec_find_char_from(s, '\n', p);
        if j == s.len() {
            seq![spec_strip_cr(s.subrange(p, j))]
        } else {
            seq![spec_strip_cr(s.subrange(p, j))] + spec_split_lines_from(s, j + 1)
        }
    }
}

#[via_fn]
proof fn spec_split_lines_from_decreases(s: Seq<char>, p: int) {
    if 0 <= p < s.len() {
        lemma_find_char_from_bounds(s, '\n', p);
    }
}

/// The HTML of a sequence of lines starting in `mode`, with a list still
/// open at the end of the document closed explicitly.
pub open spec fn spec_render_lines(lines: Seq<Seq<char>>, mode: GeminiGem, host: Seq<char>) -> Seq<char>
    decreases lines.len(),
{
    if lines.len() == 0 {
        spec_close_ul(mode)
    } else {
        spec_step_line(mode, lines[0], host).1
            + spec_render_lines(lines.skip(1), spec_step_line(mode, lines[0], host).0, host)
    }
}

/// The HTML of a whole document rendered for `host`.
pub open spec fn spec_render_document(doc: Seq<char>, host: Seq<char>) -> Seq<char> {
    spec_render_lines(spec_split_lines_from(doc, 0), GeminiGem::Text, host)
}

proof fn lemma_find_char_from(s: Seq<char>, c: char, i: int, e: int)
    requires
        0 <= i <= e <= s.len(),
        forall|j: int| i <= j < e ==> #[trigger] s[j] != c,
        e < s.len() ==> s[e] == c,
    ensures
        spec_find_char_from(s, c, i) == e,
    decreases e - i,
{
    if i < e {
        lemma_find_char_from(s, c, i + 1, e);
    }
}

proof fn lemma_hash_run_from(s: Seq<char>, i: int, e: int)
    requires
        0 <= i <= e <= s.len(),
        forall|j: int| i <= j < e ==> #[trigger] s[j] == '#',
        e < s.len() ==> s[e] != '#',
    ensures
        spec_hash_run_from(s, i) == e - i,
    decreases e - i,
{
    if i < e {
        lemma_hash_run_from(s, i + 1, e);
    }
}

/// Scan forward from `from` to the first occurrence of `c`.
fn find_char_from(s: &str, c: char, from: usize) -> (e: usize)
    requires
        from <= s@.len(),
    ensures
        from <= e <= s@.len(),
        e as int == spec_find_char_from(s@, c, from as int),
        e < s@.len() ==> s@[e as int] == c,
{
    let n = s.unicode_len();
    let mut k = from;
    while k < n
        invariant
            from <= k <= n,
            n == s@.len(),
            forall|j: int| from <= j < k ==> #[trigger] s@[j] != c,
        decreases n - k,
    {
        if s.get_char(k) == c {
            proof {
                lemma_find_char_from(s@, c, from as int, k as int);
            }
            return k;
        }
        k += 1;
    }
    proof {
        lemma_find_char_from(s@, c, from as int, n as int);
    }
    n
}

/// The length of the leading run of `#` characters.
fn hash_run(line: &str) -> (run: usize)
    ensures
        run as int == spec_hash_run_from(line@, 0),
        run <= line@.len(),
{
    let n = line.unicode_len();
    let mut k: usize = 0;
    while k < n
        invariant
            k <= n,
            n == line@.len(),
            forall|j: int| 0 <= j < k ==> #[trigger] line@[j] == '#',
        decreases n - k,
    {
        if line.get_char(k) != '#' {
            proof {
                lemma_hash_run_from(line@, 0, k as int);
            }
            return k;
        }
        k += 1;
    }
    proof {
        lemma_hash_run_from(line@, 0, n as int);
    }
    n
}

/// Emit the closing list tag owed in `mode`.
fn close_list(mode: GeminiGem, out: &mut String)
    ensures
        final(out)@ == old(out)@ + spec_close_ul(mode),
{
    if matches!(mode, GeminiGem::ListItem) {
        out.append("</ul>");
    } else {
        proof {
            assert(out@ + spec_close_ul(mode) =~= out@);
        }
    }
}

fn append_heading_open(level: usize, out: &mut String)
    ensures
        final(out)@ == old(out)@ + spec_heading_open(level as int),
{
    if level <= 1 {
        out.append("<h1>");
    } else if level == 2 {
        out.append("<h2>");
    } else if level == 3 {
        out.append("<h3>");
    } else if level == 4 {
        out.append("<h4>");
    } else if level == 5 {
        out.append("<h5>");
    } else {
        out.append("<h6>");
    }
}

fn append_heading_close(level: usize, out: &mut String)
    ensures
        final(out)@ == old(out)@ + spec_heading_close(level as int),
{
    if level <= 1 {
        out.append("</h1>");
    } else if level == 2 {
        out.append("</h2>");
    } else if level == 3 {
        out.append("</h3>");
    } else if level == 4 {
        out.append("</h4>");
    } else if level == 5 {
        out.append("</h5>");
    } else {
        out.append("</h6>");
    }
}

/// Whether a link target leaves the gateway, as `spec_is_web_target` states
/// it.
fn is_web_target(target: &String) -> (r: bool)
    ensures
        r == spec_is_web_target(target@),
{
    match parse_url_parts(target.as_str()) {
        Some(p) => {
            let scheme = p.0;
            scheme == String::from_str("http") || scheme == String::from_str("https")
        },
        None => false,
    }
}

/// Emit the HTML of a heading line.
fn emit_heading(line: &str, out: &mut String)
    ensures
        final(out)@ == old(out)@ + spec_heading_html(line@),
{
    let n = line.unicode_len();
    let run = hash_run(line);
    let level: usize = if run > 6 {
        6
    } else {
        run
    };
    let sp = find_char_from(line, ' ', run);
    if sp < n {
        append_heading_open(level, out);
        let text = escape_text(line.substring_char(sp + 1, n));
        out.append(text.as_str());
        append_heading_close(level, out);
        proof {
            assert(out@ =~= old(out)@ + spec_heading_html(line@));
        }
    } else {
        proof {
            assert(out@ =~= old(out)@ + spec_heading_html(line@));
        }
    }
}

/// Emit the HTML of a link line.
fn emit_link(line: &str, origin_host: &str, out: &mut String)
    requires
        line@.len() >= 3,
    ensures
        final(out)@ == old(out)@ + spec_link_html(line@, origin_host@),
{
    let n = line.unicode_len();
    let esc = escape_text(line.substring_char(2, n));
    let (target, label) = decode_link_line(esc.as_str());
    if is_web_target(&target) {
        out.append("<a href=\"");
        out.append(target.as_str());
        out.append("\">");
        out.append(label.as_str());
        out.append("</a><br>");
    } else {
        out.append("<a href=\"?search=");
        out.append(origin_host);
        let starts_slash = target.as_str().unicode_len() > 0 && target.as_str().get_char(0)
            == '/';
        if !starts_slash {
            out.append("/");
        }
        out.append(target.as_str());
        out.append("\">");
        out.append(label.as_str());
        out.append("</a><br>");
    }
    proof {
        assert(out@ =~= old(out)@ + spec_link_html(line@, origin_host@));
    }
}

/// Emit a line as an escaped paragraph.
fn emit_paragraph(line: &str, out: &mut String)
    ensures
        final(out)@ == old(out)@ + ("<p>"@ + spec_escape(line@) + "</p>"@),
{
    out.append("<p>");
    let esc = escape_text(line);
    out.append(esc.as_str());
    out.append("</p>");
    proof {
        assert(out@ =~= old(out)@ + ("<p>"@ + spec_escape(line@) + "</p>"@));
    }
}

/// Emit the item of a list line (everything after `* `, escaped).
fn emit_list_item(line: &str, out: &mut String)
    requires
        line@.len() >= 2,
    ensures
        final(out)@ == old(out)@ + ("<li>"@ + spec_escape(
            line@.subrange(2, line@.len() as int),
        ) + "</li>"@),
{
    let n = line.unicode_len();
    out.append("<li>");
    let esc = escape_text(line.substring_char(2, n));
    out.append(esc.as_str());
    out.append("</li>");
    proof {
        assert(out@ =~= old(out)@ + ("<li>"@ + spec_escape(
            line@.subrange(2, line@.len() as int),
        ) + "</li>"@));
    }
}

/// Emit the quoted text of a quote line (everything after `> `, escaped).
fn emit_quote(line: &str, out: &mut String)
    requires
        line@.len() >= 2,
    ensures
        final(out)@ == old(out)@ + ("<blockquote>"@ + spec_escape(
            line@.subrange(2, line@.len() as int),
        ) + "</blockquote>"@),
{
    let n = line.unicode_len();
    out.append("<blockquote>");
    let esc = escape_text(line.substring_char(2, n));
    out.append(esc.as_str());
    out.append("</blockquote>");
    proof {
        assert(out@ =~= old(out)@ + ("<blockquote>"@ + spec_escape(
            line@.subrange(2, line@.len() as int),
        ) + "</blockquote>"@));
    }
}

/// Transpile one line: append the HTML it emits and return the mode the next
/// line starts in.
#[verifier::rlimit(40)]
fn transpile_line(mode: GeminiGem, line: &str, origin_host: &str, out: &mut String) -> (m2: GeminiGem)
    ensures
        m2 == spec_step_line(mode, line@, origin_host@).0,
        final(out)@ == old(out)@ + spec_step_line(mode, line@, origin_host@).1,
{
    let n = line.unicode_len();
    let fence = n >= 3 && line.get_char(0) == '`' && line.get_char(1) == '`'
        && line.get_char(2) == '`';
    if matches!(mode, GeminiGem::PreformatToggle) {
        if fence {
            out.append("</pre>");
            return GeminiGem::Text;
        } else {
            out.append(line);
            return GeminiGem::PreformatToggle;
        }
    }
    if fence {
        close_list(mode, out);
        out.append("<pre style=\"overflow: scroll;\">");
        proof {
            assert(out@ =~= old(out)@ + spec_step_line(mode, line@, origin_host@).1);
        }
        return GeminiGem::PreformatToggle;
    }
    if n > 0 && line.get_char(0) == '#' {
        close_list(mode, out);
        emit_heading(line, out);
        proof {
            assert(out@ =~= old(out)@ + spec_step_line(mode, line@, origin_host@).1);
        }
        return GeminiGem::Heading;
    }
    if n >= 3 && line.get_char(0) == '=' && line.get_char(1) == '>' && line.get_char(2) == ' ' {
        close_list(mode, out);
        emit_link(line, origin_host, out);
        proof {
            assert(out@ =~= old(out)@ + spec_step_line(mode, line@, origin_host@).1);
        }
        return GeminiGem::LinkLine;
    }
    if n >= 2 && line.get_char(0) == '=' && line.get_char(1) == '>' {
        close_list(mode, out);
        emit_paragraph(line, out);
        proof {
            assert(out@ =~= old(out)@ + spec_step_line(mode, line@, origin_host@).1);
        }
        return GeminiGem::Text;
    }
    if n > 0 && line.get_char(0) == '=' {
        proof {
            assert(out@ =~= old(out)@ + spec_step_line(mode, line@, origin_host@).1);
        }
        return mode;
    }
    if n > 0 && line.get_char(0) == '*' {
        if n >= 2 && line.get_char(1) == ' ' {
            if !matches!(mode, GeminiGem::ListItem) {
                out.append("<ul>");
            }
            emit_list_item(line, out);
            proof {
                assert(out@ =~= old(out)@ + spec_step_line(mode, line@, origin_host@).1);
            }
            return GeminiGem::ListItem;
        } else {
            proof {
                assert(out@ =~= old(out)@ + spec_step_line(mode, line@, origin_host@).1);
            }
            return mode;
        }
    }
    if n > 0 && line.get_char(0) == '>' {
        if n >= 2 && line.get_char(1) == ' ' {
            close_list(mode, out);
            emit_quote(line, out);
            proof {
                assert(out@ =~= old(out)@ + spec_step_line(mode, line@, origin_host@).1);
            }
            return GeminiGem::QuoteLine;
        } else {
            proof {
                assert(out@ =~= old(out)@ + spec_step_line(mode, line@, origin_host@).1);
            }
            return mode;
        }
    }
    close_list(mode, out);
    emit_paragraph(line, out);
    proof {
        assert(out@ =~= old(out)@ + spec_step_line(mode, line@, origin_host@).1);
    }
    GeminiGem::Text
}

/// Convert a whole document of line-oriented markup into HTML, rewriting
/// in-protocol links through the gateway's query interface for
/// `origin_host`.  A list still open at the end of the document is closed.
pub fn parse_document_to_gems(document: &String, origin_host: &str) -> (r: String)
    ensures
        r@ == spec_render_document(document@, origin_host@),
{
    let doc = document.as_str();
    let n = doc.unicode_len();
    let mut out = String::new();
    let mut mode = GeminiGem::Text;
    let mut p: usize = 0;
    proof {
        assert(out@ + spec_render_lines(
            spec_split_lines_from(doc@, 0),
            GeminiGem::Text,
            origin_host@,
        ) =~= spec_render_lines(spec_split_lines_from(doc@, 0), GeminiGem::Text, origin_host@));
    }
    while p < n
        invariant
            p <= n,
            n == doc@.len(),
            spec_render_document(doc@, origin_host@) == out@ + spec_render_lines(
                spec_split_lines_from(doc@, p as int),
                mode,
                origin_host@,
            ),
        decreases n - p,
    {
        let ghost out0 = out@;
        let ghost mode0 = mode;
        let ghost p0 = p as int;
        let j = find_char_from(doc, '\n', p);
        let e = if j > p && doc.get_char(j - 1) == '\r' {
            j - 1
        } else {
            j
        };
        let line = doc.substring_char(p, e);
        proof {
            let raw = doc@.subrange(p0, j as int);
            if j > p && doc@[j as int - 1] == '\r' {
                assert(raw.last() == doc@[j as int - 1]);
                assert(doc@.subrange(p0, e as int) =~= raw.drop_last());
            }
            assert(line@ == spec_strip_cr(raw));
        }
        mode = transpile_line(mode, line, origin_host, &mut out);
        p = if j < n {
            j + 1
        } else {
            n
        };
        proof {
            let lines0 = spec_split_lines_from(doc@, p0);
            let step = spec_step_line(mode0, line@, origin_host@);
            if j == n {
                assert(lines0 =~= seq![line@]);
                assert(lines0.skip(1) =~= spec_split_lines_from(doc@, p as int));
            } else {
                assert(lines0 =~= seq![line@] + spec_split_lines_from(doc@, j + 1));
                assert(lines0.skip(1) =~= spec_split_lines_from(doc@, j + 1));
            }
            assert(lines0[0] == line@);
            assert(spec_render_lines(lines0, mode0, origin_host@) == step.1 + spec_render_lines(
                spec_split_lines_from(doc@, p as int),
                step.0,
                origin_host@,
            ));
            assert(out@ + spec_render_lines(spec_split_lines_from(doc@, p as int), mode, origin_host@)
                =~= out0 + spec_render_lines(lines0, mode0, origin_host@));
        }
    }
    close_list(mode, &mut out);
    proof {
        assert(spec_split_lines_from(doc@, n as int) =~= Seq::<Seq<char>>::empty());
        assert(out@ =~= spec_render_document(doc@, origin_host@));
    }
    out
}

/// Inside a preformatted block, every line that is not a closing fence is
/// emitted verbatim — unescaped and unchanged — and the block stays open.
pub proof fn lemma_preformat_verbatim(line: Seq<char>, host: Seq<char>)
    requires
        !spec_fence(line),
    ensures
        spec_step_line(GeminiGem::PreformatToggle, line, host)
            == (GeminiGem::PreformatToggle, line),
{
}

/// Heading levels never pass 6: however many `#` characters a heading line
/// carries, the extra ones beyond the sixth set no deeper level.
pub proof fn lemma_heading_level_capped(line: Seq<char>)
    ensures
        ({
            let run = spec_hash_run_from(line, 0);
            let level = if run > 6 { 6int } else { run };
            0 <= level <= 6
        }),
{
    lemma_hash_run_nonneg(line, 0);
}

proof fn lemma_hash_run_nonneg(s: Seq<char>, i: int)
    ensures
        spec_hash_run_from(s, i) >= 0,
    decreases s.len() - i,
{
    if !(i < 0 || i >= s.len() || s[i] != '#') {
        lemma_hash_run_nonneg(s, i + 1);
    }
}

} // verus!
