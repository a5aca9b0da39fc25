//! The unified diff of one file, as text for the user.

use vstd::prelude::*;
use vstd::string::*;
use vstd::utf8::{decode_utf8, valid_utf8};
use crate::text::{blank, is_blank, is_white_space};

verus! {

/// How one file's diff is asked for.
pub struct DiffQuery {
    pub pathspec: String,
    pub include_untracked: bool,
    pub recurse_untracked_dirs: bool,
    pub show_untracked_content: bool,
}

/// The diff of `path` alone, untracked files included inside untracked
/// directories too, and diffed against nothing: their content shows as
/// added lines.
pub fn diff_query(path: &str) -> (q: DiffQuery)
    ensures
        q.pathspec@ == path@,
        q.include_untracked,
        q.recurse_untracked_dirs,
        q.show_untracked_content,
{
    DiffQuery {
        pathspec: String::from_str(path),
        include_untracked: true,
        recurse_untracked_dirs: true,
        show_untracked_content: true,
    }
}

/// One line of a patch as git2 prints it: its origin mark and its bytes.
pub struct DiffLine {
    pub origin: char,
    pub content: Vec<u8>,
}

pub struct DiffLineView {
    pub origin: char,
    pub content: Seq<u8>,
}

impl View for DiffLine {
    type V = DiffLineView;

    open spec fn view(&self) -> DiffLineView {
        DiffLineView { origin: self.origin, content: self.content@ }
    }
}

/// What `String::from_utf8_lossy` makes of some bytes.
pub uninterp spec fn lossy_utf8(bytes: Seq<u8>) -> Seq<char>;

/// `String::from_utf8_lossy(bytes)`, owned. Its result is named; as std
/// documents, valid UTF-8 comes out decoded unchanged (invalid sequences
/// become U+FFFD, which is left unsaid here).
#[verifier::external_body]
fn utf8_lossy(bytes: &[u8]) -> (r: String)
    ensures
        r@ == lossy_utf8(bytes@),
        valid_utf8(bytes@) ==> r@ == decode_utf8(bytes@),
{
    String::from_utf8_lossy(bytes).into_owned()
}

/// The mark put before a line's text: "+" for an added line, "-" for a
/// removed one, " " for context, nothing for file and hunk headers and
/// anything else.
pub open spec fn origin_prefix(origin: char) -> Seq<char> {
    if origin == '+' {
        "+"@
    } else if origin == '-' {
        "-"@
    } else if origin == ' ' {
        " "@
    } else {
        Seq::empty()
    }
}

/// A line of the patch as shown.
pub open spec fn line_text(l: DiffLineView) -> Seq<char> {
    origin_prefix(l.origin) + lossy_utf8(l.content)
}

/// The patch as shown: its lines one after the other (each carries its
/// own line break).
pub open spec fn patch_text(lines: Seq<DiffLineView>) -> Seq<char>
    decreases lines.len(),
{
    if lines.len() == 0 {
        Seq::empty()
    } else {
        patch_text(lines.drop_last()) + line_text(lines.last())
    }
}

/// What is shown when the patch has no text.
pub open spec fn no_diff_text() -> Seq<char> {
    "(no textual diff available — binary or empty file)"@
}

/// What the user sees: the patch, or a note when it is blank.
pub open spec fn diff_report(lines: Seq<DiffLineView>) -> Seq<char> {
    if is_blank(patch_text(lines)) {
        no_diff_text()
    } else {
        patch_text(lines)
    }
}

/// Appends a line of the patch, whose bytes read as `text`, after its
/// origin mark.
pub fn append_line(out: &mut String, origin: char, text: &str)
    ensures
        final(out)@ == old(out)@ + origin_prefix(origin) + text@,
{
    if origin == '+' {
        out.append("+");
    } else if origin == '-' {
        out.append("-");
    } else if origin == ' ' {
        out.append(" ");
    }
    assert(out@ == old(out)@ + origin_prefix(origin)) by {
        assert(old(out)@ + Seq::<char>::empty() =~= old(out)@);
    }
    out.append(text);
}

pub open spec fn line_views(v: Seq<DiffLine>) -> Seq<DiffLineView> {
    v.map_values(|l: DiffLine| l@)
}

/// The shown text of a patch's lines.
pub fn render_patch(lines: &Vec<DiffLine>) -> (r: String)
    ensures
        r@ == patch_text(line_views(lines@)),
{
    let mut out = String::new();
    let n = lines.len();
    let mut i: usize = 0;
    while i < n
        invariant
            n == lines@.len(),
            i <= n,
            out@ == patch_text(line_views(lines@).take(i as int)),
        decreases n - i,
    {
        proof {
            assert(line_views(lines@).take(i + 1).drop_last() =~= line_views(lines@).take(
                i as int,
            ));
        }
        let l = &lines[i];
        let text = utf8_lossy(l.content.as_slice());
        append_line(&mut out, l.origin, text.as_str());
        i = i + 1;
    }
    proof {
        assert(line_views(lines@).take(n as int) =~= line_views(lines@));
    }
    out
}

/// The text shown for a file's diff.
pub fn diff_report_text(lines: &Vec<DiffLine>) -> (r: String)
    ensures
        r@ == diff_report(line_views(lines@)),
{
    let patch = render_patch(lines);
    if blank(patch.as_str()) {
        String::from_str("(no textual diff available — binary or empty file)")
    } else {
        patch
    }
}

/// The note shown for a blank patch is not itself blank.
pub proof fn lemma_note_not_blank()
    ensures
        !is_blank(no_diff_text()),
{
    reveal_strlit("(no textual diff available — binary or empty file)");
    assert(!is_white_space(no_diff_text()[0]));
}

/// What is shown is never blank, and (unless the patch text happens to be
/// the note itself) the note is shown exactly when the patch is blank.
pub proof fn law_note_iff_blank_patch(lines: Seq<DiffLineView>)
    ensures
        !is_blank(diff_report(lines)),
        patch_text(lines) != no_diff_text() ==> (diff_report(lines) == no_diff_text() <==> is_blank(
            patch_text(lines),
        )),
{
    lemma_note_not_blank();
}

/// The shown patch has one part for every line, in order, none left out:
/// the part of a line is its origin mark ("+" for an added line, "-" for
/// a removed one, " " for context, nothing otherwise) followed by its
/// bytes as `String::from_utf8_lossy` reads them. What is
/// shown for a file is that text, or the note when it is blank.
pub proof fn law_patch_shows_every_line(lines: Seq<DiffLineView>, l: DiffLineView)
    ensures
        patch_text(Seq::empty()) == Seq::<char>::empty(),
        patch_text(lines.push(l)) == patch_text(lines) + (if l.origin == '+' {
            "+"@
        } else if l.origin == '-' {
            "-"@
        } else if l.origin == ' ' {
            " "@
        } else {
            Seq::<char>::empty()
        }) + lossy_utf8(l.content),
        diff_report(lines) == if is_blank(patch_text(lines)) {
            "(no textual diff available — binary or empty file)"@
        } else {
            patch_text(lines)
        },
{
    assert(lines.push(l).drop_last() =~= lines);
}

} // verus!
