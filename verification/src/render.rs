//! Content preparation for display: markup stripped to plain text, and the
//! choice of which status and booster a feed entry shows. Drawing itself
//! is the runner's work.

use crate::strutil::{replace, spec_replace, spec_trim, trim};
use crate::types::{Account, Status};
use vstd::prelude::*;
use vstd::string::*;

verus! {

/// The message the feed area shows when a load returned nothing.
pub const EMPTY_TIMELINE_MESSAGE: &'static str = "No toots — home timeline is empty.";

/// Names the concatenated text content of an HTML fragment, as
/// `scraper::Html::parse_fragment` and `ElementRef::text` extract it. The
/// result depends on the characters alone.
pub uninterp spec fn html_text(s: Seq<char>) -> Seq<char>;

/// Relies on `scraper::Html::parse_fragment` and `ElementRef::text`: parses
/// an HTML fragment and concatenates its descendant text nodes in order.
#[verifier::external_body]
fn fragment_text(html: &str) -> (r: String)
    ensures
        r@ == html_text(html@),
{
    let fragment = scraper::Html::parse_fragment(html);
    fragment.root_element().text().collect::<Vec<_>>().join("")
}

/// The markup adjustments made before text extraction: a space after each
/// closing link tag (so adjacent words do not run together), and paragraph
/// and line breaks turned into newlines.
pub open spec fn spec_preprocess(s: Seq<char>) -> Seq<char> {
    spec_replace(
        spec_replace(
            spec_replace(
                spec_replace(spec_replace(s, "</a>"@, "</a> "@), "</p>"@, "\n"@),
                "<br>"@,
                "\n"@,
            ),
            "<br/>"@,
            "\n"@,
        ),
        "<br />"@,
        "\n"@,
    )
}

/// What `strip_html` returns: the text content of the adjusted markup,
/// trimmed of surrounding whitespace.
pub open spec fn spec_strip_html(s: Seq<char>) -> Seq<char> {
    spec_trim(html_text(spec_preprocess(s)))
}

/// Strip HTML tags from a status body for plain-text display. A space is
/// kept after hyperlinks and block breaks become newlines, so paragraphs
/// survive the stripping.
pub fn strip_html(html: &str) -> (r: String)
    ensures
        r@ == spec_strip_html(html@),
{
    proof {
        reveal_strlit("</a>");
        reveal_strlit("</p>");
        reveal_strlit("<br>");
        reveal_strlit("<br/>");
        reveal_strlit("<br />");
    }
    let s1 = replace(html, "</a>", "</a> ");
    let s2 = replace(s1.as_str(), "</p>", "\n");
    let s3 = replace(s2.as_str(), "<br>", "\n");
    let s4 = replace(s3.as_str(), "<br/>", "\n");
    let s5 = replace(s4.as_str(), "<br />", "\n");
    let text = fragment_text(s5.as_str());
    let trimmed = trim(text.as_str());
    String::from_str(trimmed)
}

/// The status a feed entry displays, and the boosting account when the
/// entry is a boost: a boost shows the boosted status's author and body,
/// with the booster named beside it.
pub fn display_status(status: &Status) -> (r: (&Status, Option<&Account>))
    ensures
        status.reblog is Some ==> *r.0 == status.reblog.unwrap() && r.1 == Some(&status.account),
        status.reblog is None ==> r.0 == status && r.1 is None,
{
    match &status.reblog {
        Some(inner) => (&**inner, Some(&status.account)),
        None => (status, None),
    }
}

/// The first line of a text: everything before the first newline.
pub open spec fn spec_until_newline(s: Seq<char>) -> Seq<char>
    decreases s.len(),
{
    if s.len() == 0 {
        s
    } else if s[0] == '\n' {
        Seq::<char>::empty()
    } else {
        seq![s[0]] + spec_until_newline(s.skip(1))
    }
}

/// The one-line preview a feed row shows: the first line of the text,
/// without a carriage return left by a Windows line break, cut to at most
/// `max` characters.
pub open spec fn spec_preview(s: Seq<char>, max: int) -> Seq<char> {
    let line0 = spec_until_newline(s);
    let line = if line0.len() > 0 && line0.last() == '\r' {
        line0.drop_last()
    } else {
        line0
    };
    if line.len() <= max {
        line
    } else {
        line.take(max)
    }
}

proof fn lemma_until_newline_take(s: Seq<char>, i: int)
    requires
        0 <= i <= s.len(),
        forall|j: int| 0 <= j < i ==> s[j] != '\n',
    ensures
        spec_until_newline(s) == s.take(i) + spec_until_newline(s.skip(i)),
    decreases i,
{
    if i == 0 {
        assert(s.take(0) + spec_until_newline(s.skip(0)) =~= spec_until_newline(s.skip(0)));
        assert(s.skip(0) =~= s);
    } else {
        assert(s[0] != '\n');
        lemma_until_newline_take(s.skip(1), i - 1);
        assert(s.skip(1).skip(i - 1) =~= s.skip(i));
        assert(s.skip(1).take(i - 1) =~= s.take(i).skip(1));
        assert(seq![s[0]] + (s.take(i).skip(1) + spec_until_newline(s.skip(i))) =~= s.take(i)
            + spec_until_newline(s.skip(i)));
    }
}

/// Cut a text down to the preview a feed row shows.
pub fn content_preview(s: &str, max: usize) -> (r: String)
    ensures
        r@ == spec_preview(s@, max as int),
{
    let n: usize = s.unicode_len();
    let mut cut: usize = 0;
    loop
        invariant
            0 <= cut <= n,
            n == s@.len(),
            forall|j: int| 0 <= j < cut ==> s@[j] != '\n',
        ensures
            0 <= cut <= n,
            n == s@.len(),
            forall|j: int| 0 <= j < cut ==> s@[j] != '\n',
            cut < n ==> s@[cut as int] == '\n',
        decreases n - cut,
    {
        if cut >= n {
            break;
        }
        if s.get_char(cut) == '\n' {
            break;
        }
        cut = cut + 1;
    }
    proof {
        lemma_until_newline_take(s@, cut as int);
        if cut < n {
            assert(s@.skip(cut as int)[0] == '\n');
            assert(spec_until_newline(s@.skip(cut as int)) =~= Seq::<char>::empty());
        } else {
            assert(s@.skip(cut as int) =~= Seq::<char>::empty());
        }
        assert(spec_until_newline(s@) =~= s@.take(cut as int));
    }
    let end = if cut > 0 && s.get_char(cut - 1) == '\r' {
        cut - 1
    } else {
        cut
    };
    proof {
        let line0 = spec_until_newline(s@);
        if cut > 0 && s@[cut - 1] == '\r' {
            assert(line0.drop_last() =~= s@.take(end as int));
        }
    }
    let end = if end > max {
        max
    } else {
        end
    };
    let r = s.substring_char(0, end);
    proof {
        assert(s@.subrange(0, end as int) =~= spec_preview(s@, max as int));
    }
    String::from_str(r)
}

/// The window of feed rows a draw shows: `visible` rows from `scroll`,
/// pulled back so the window never runs past the end of the feed.
pub fn visible_range(scroll: usize, visible: usize, len: usize) -> (r: (usize, usize))
    ensures
        r.0 == (if len >= visible && scroll > len - visible {
            len - visible
        } else if len < visible {
            0
        } else {
            scroll as int
        }),
        r.1 == (if r.0 + visible <= len {
            r.0 + visible
        } else {
            len as int
        }),
        r.0 <= r.1 <= len,
{
    let start = if len >= visible {
        if scroll > len - visible {
            len - visible
        } else {
            scroll
        }
    } else {
        0
    };
    let end = if len - start >= visible {
        start + visible
    } else {
        len
    };
    (start, end)
}

/// The handle a row names an account by: the qualified `acct` when the
/// service filled it, else the bare username.
pub fn display_handle(account: &Account) -> (r: &String)
    ensures
        account.acct@.len() > 0 ==> r == &account.acct,
        account.acct@.len() == 0 ==> r == &account.username,
{
    if account.acct.as_str().is_empty() {
        &account.username
    } else {
        &account.acct
    }
}

} // verus!
