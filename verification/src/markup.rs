use vstd::prelude::*;
use vstd::utf8::*;
use ammonia;
use comrak::{markdown_to_html, ComrakExtensionOptions, ComrakOptions};

verus! {

/// A run of a paragraph: plain text, or text set in emphasis or in strong
/// emphasis.
pub enum Run {
    Text(Seq<char>),
    Em(Seq<char>),
    Strong(Seq<char>),
}

/// The text a run holds.
pub open spec fn run_text(r: Run) -> Seq<char> {
    match r {
        Run::Text(t) => t,
        Run::Em(t) => t,
        Run::Strong(t) => t,
    }
}

/// A run written in Markdown: `*` around emphasis, `**` around strong emphasis.
pub open spec fn run_markdown(r: Run) -> Seq<char> {
    match r {
        Run::Text(t) => t,
        Run::Em(t) => "*"@ + t + "*"@,
        Run::Strong(t) => "**"@ + t + "**"@,
    }
}

/// A run written in HTML.
pub open spec fn run_html(r: Run) -> Seq<char> {
    match r {
        Run::Text(t) => t,
        Run::Em(t) => "<em>"@ + t + "</em>"@,
        Run::Strong(t) => "<strong>"@ + t + "</strong>"@,
    }
}

/// The runs of a paragraph written in Markdown, one after the other.
pub open spec fn runs_markdown(rs: Seq<Run>) -> Seq<char>
    decreases rs.len(),
{
    if rs.len() == 0 {
        Seq::empty()
    } else {
        runs_markdown(rs.drop_last()) + run_markdown(rs.last())
    }
}

/// The runs of a paragraph written in HTML, one after the other.
pub open spec fn runs_html(rs: Seq<Run>) -> Seq<char>
    decreases rs.len(),
{
    if rs.len() == 0 {
        Seq::empty()
    } else {
        runs_html(rs.drop_last()) + run_html(rs.last())
    }
}

/// Paragraphs written in Markdown: separated by a blank line.
pub open spec fn paragraphs_markdown(ps: Seq<Seq<Run>>) -> Seq<char>
    decreases ps.len(),
{
    if ps.len() == 0 {
        Seq::empty()
    } else if ps.len() == 1 {
        runs_markdown(ps[0])
    } else {
        paragraphs_markdown(ps.drop_last()) + "\n\n"@ + runs_markdown(ps.last())
    }
}

/// Paragraphs written in HTML: each a `<p>` element followed by a line break.
pub open spec fn paragraphs_html(ps: Seq<Seq<Run>>) -> Seq<char>
    decreases ps.len(),
{
    if ps.len() == 0 {
        Seq::empty()
    } else {
        paragraphs_html(ps.drop_last()) + "<p>"@ + runs_html(ps.last()) + "</p>\n"@
    }
}

/// An ASCII letter.
pub open spec fn is_letter(c: char) -> bool {
    ('a' <= c && c <= 'z') || ('A' <= c && c <= 'Z')
}

/// An ASCII letter or digit.
pub open spec fn is_alnum(c: char) -> bool {
    is_letter(c) || ('0' <= c && c <= '9')
}

/// Text that Markdown takes literally: letters, digits, spaces, commas and
/// full stops, at least one of them.
pub open spec fn markdown_plain(t: Seq<char>) -> bool {
    &&& t.len() > 0
    &&& forall|i: int| 0 <= i < t.len() ==> {
        let c = #[trigger] t[i];
        is_alnum(c) || c == ' ' || c == ',' || c == '.'
    }
}

/// Text that can stand between emphasis marks: letters, digits and spaces,
/// starting and ending with a letter or a digit.
pub open spec fn emphasis_plain(t: Seq<char>) -> bool {
    &&& t.len() > 0
    &&& is_alnum(t[0])
    &&& is_alnum(t.last())
    &&& forall|i: int| 0 <= i < t.len() ==> {
        let c = #[trigger] t[i];
        is_alnum(c) || c == ' '
    }
}

/// The run at `i` fits a simple paragraph: plain text, or emphasis that
/// follows text ending in a space and comes before text that starts with a
/// space, a comma or a full stop (or ends the paragraph).
pub open spec fn simple_run_at(rs: Seq<Run>, i: int) -> bool {
    match rs[i] {
        Run::Text(t) => markdown_plain(t),
        Run::Em(t) => simple_emphasis_at(rs, i, t),
        Run::Strong(t) => simple_emphasis_at(rs, i, t),
    }
}

/// The emphasis run at `i`, holding `t`, is placed as `simple_run_at` asks.
pub open spec fn simple_emphasis_at(rs: Seq<Run>, i: int, t: Seq<char>) -> bool {
    &&& emphasis_plain(t)
    &&& i > 0
    &&& rs[i - 1] matches Run::Text(before) && before.len() > 0 && before.last() == ' '
    &&& i + 1 < rs.len() ==> (rs[i + 1] matches Run::Text(after) && after.len() > 0 && (
        after[0] == ' ' || after[0] == ',' || after[0] == '.'))
}

/// A paragraph of one line that starts with a letter, does not end in a
/// space, and is made of simple runs.
pub open spec fn simple_paragraph(rs: Seq<Run>) -> bool {
    &&& rs.len() > 0
    &&& rs[0] matches Run::Text(first) && first.len() > 0 && is_letter(first[0])
    &&& rs.last() matches Run::Text(last) ==> last.last() != ' '
    &&& forall|i: int| 0 <= i < rs.len() ==> #[trigger] simple_run_at(rs, i)
}

/// Every paragraph is simple.
pub open spec fn simple_paragraphs(ps: Seq<Seq<Run>>) -> bool {
    forall|i: int| 0 <= i < ps.len() ==> #[trigger] simple_paragraph(ps[i])
}

/// A character that an HTML parser keeps as it is in text and that the HTML
/// writer does not escape.
pub open spec fn html_text_char(c: char) -> bool {
    &&& c != '<'
    &&& c != '>'
    &&& c != '&'
    &&& c != '\r'
    &&& c != '\0'
    &&& c != '\u{a0}'
    &&& c != '\u{feff}'
}

/// Text made only of such characters.
pub open spec fn html_plain(t: Seq<char>) -> bool {
    forall|i: int| 0 <= i < t.len() ==> html_text_char(#[trigger] t[i])
}

/// Every run of every paragraph holds such text.
pub open spec fn html_plain_paragraphs(ps: Seq<Seq<Run>>) -> bool {
    forall|i: int, j: int| 0 <= i < ps.len() && 0 <= j < ps[i].len() ==> html_plain(
        #[trigger] run_text(ps[i][j]),
    )
}

/// Every byte is below 128.
pub open spec fn is_ascii_bytes(bytes: Seq<u8>) -> bool {
    forall|i: int| 0 <= i < bytes.len() ==> #[trigger] bytes[i] < 128
}

/// The characters of ASCII bytes, one for each byte.
pub open spec fn ascii_chars(bytes: Seq<u8>) -> Seq<char> {
    bytes.map_values(|b: u8| b as char)
}

/// What `ammonia::clean` makes of an HTML fragment.
pub uninterp spec fn ammonia_clean(html: Seq<char>) -> Seq<char>;

/// What `comrak::markdown_to_html` renders a Markdown text to, with comrak's
/// default options and the tag filter off.
pub uninterp spec fn comrak_markdown_html(md: Seq<char>) -> Seq<char>;

/// Calls `ammonia::clean`, which parses the fragment with html5ever, drops
/// what its default allow-list does not hold and writes the rest back.
/// Claimed: the result is the name `ammonia_clean` applied to the input; text
/// with no character that the parser changes or the writer escapes (`<`, `>`,
/// `&`, carriage return, NUL, no-break space, byte-order mark) comes back as it
/// is; and so do paragraphs (`p`) of such text with emphasis (`em`) and strong
/// emphasis (`strong`), all three on the default allow-list. Nothing more is
/// said of other markup.
#[verifier::external_body]
pub(crate) fn sanitize_html(html: &str) -> (r: String)
    ensures
        r@ == ammonia_clean(html@),
        html_plain(html@) ==> r@ == html@,
        forall|ps: Seq<Seq<Run>>| #[trigger] paragraphs_html(ps) == html@ && html_plain_paragraphs(ps)
            ==> r@ == html@,
{
    ammonia::clean(html)
}

/// Calls `comrak::markdown_to_html` with the default options, the tag filter
/// set off as the form asks. Claimed: the result is the name
/// `comrak_markdown_html` applied to the input, and, as CommonMark renders it,
/// a text of simple paragraphs separated by blank lines (see
/// `simple_paragraph`) becomes one `<p>` element per paragraph, each followed
/// by a line break, with `*..*` as `<em>` and `**..**` as `<strong>`. Nothing
/// more is said of other Markdown.
#[verifier::external_body]
pub(crate) fn render_markdown(md: &str) -> (r: String)
    ensures
        r@ == comrak_markdown_html(md@),
        forall|ps: Seq<Seq<Run>>| #[trigger] paragraphs_markdown(ps) == md@ && simple_paragraphs(ps)
            ==> r@ == paragraphs_html(ps),
{
    let options = ComrakOptions {
        extension: ComrakExtensionOptions { tagfilter: false, ..ComrakExtensionOptions::default() },
        ..ComrakOptions::default()
    };
    markdown_to_html(md, &options)
}

/// Calls `std::str::from_utf8`. Claimed, as std documents: it succeeds exactly
/// on well-formed UTF-8, and then gives the characters that the bytes encode.
#[verifier::external_body]
pub(crate) fn decode_utf8_bytes(bytes: &[u8]) -> (r: Option<&str>)
    ensures
        r is Some <==> valid_utf8(bytes@),
        r matches Some(s) ==> s@ == decode_utf8(bytes@),
{
    std::str::from_utf8(bytes).ok()
}

/// ASCII bytes are well-formed UTF-8, and each byte encodes the character
/// with its value.
pub proof fn lemma_ascii_bytes_decode(bytes: Seq<u8>)
    requires
        is_ascii_bytes(bytes),
    ensures
        valid_utf8(bytes),
        decode_utf8(bytes) == ascii_chars(bytes),
    decreases bytes.len(),
{
    if bytes.len() > 0 {
        let b = bytes[0];
        assert(b < 128);
        assert(b & 0x7f == b) by (bit_vector)
            requires
                b < 128,
        ;
        let rest = bytes.subrange(1, bytes.len() as int);
        assert(is_ascii_bytes(rest));
        lemma_ascii_bytes_decode(rest);
        assert(pop_first_scalar(bytes) =~= rest);
        assert(decode_first_scalar(bytes) == b as u32);
        assert(ascii_chars(bytes) =~= seq![b as char] + ascii_chars(rest));
    } else {
        assert(ascii_chars(bytes) =~= Seq::<char>::empty());
    }
}

/// The one-character text of an ASCII byte.
fn ascii_char_str(b: u8) -> (r: &'static str)
    requires
        b < 128,
    ensures
        r@ == seq![b as char],
{
    let table = "\x00\x01\x02\x03\x04\x05\x06\x07\x08\x09\x0a\x0b\x0c\x0d\x0e\x0f\x10\x11\x12\x13\x14\x15\x16\x17\x18\x19\x1a\x1b\x1c\x1d\x1e\x1f\x20\x21\x22\x23\x24\x25\x26\x27\x28\x29\x2a\x2b\x2c\x2d\x2e\x2f\x30\x31\x32\x33\x34\x35\x36\x37\x38\x39\x3a\x3b\x3c\x3d\x3e\x3f\x40\x41\x42\x43\x44\x45\x46\x47\x48\x49\x4a\x4b\x4c\x4d\x4e\x4f\x50\x51\x52\x53\x54\x55\x56\x57\x58\x59\x5a\x5b\x5c\x5d\x5e\x5f\x60\x61\x62\x63\x64\x65\x66\x67\x68\x69\x6a\x6b\x6c\x6d\x6e\x6f\x70\x71\x72\x73\x74\x75\x76\x77\x78\x79\x7a\x7b\x7c\x7d\x7e\x7f";
    proof {
        reveal_strlit("\x00\x01\x02\x03\x04\x05\x06\x07\x08\x09\x0a\x0b\x0c\x0d\x0e\x0f\x10\x11\x12\x13\x14\x15\x16\x17\x18\x19\x1a\x1b\x1c\x1d\x1e\x1f\x20\x21\x22\x23\x24\x25\x26\x27\x28\x29\x2a\x2b\x2c\x2d\x2e\x2f\x30\x31\x32\x33\x34\x35\x36\x37\x38\x39\x3a\x3b\x3c\x3d\x3e\x3f\x40\x41\x42\x43\x44\x45\x46\x47\x48\x49\x4a\x4b\x4c\x4d\x4e\x4f\x50\x51\x52\x53\x54\x55\x56\x57\x58\x59\x5a\x5b\x5c\x5d\x5e\x5f\x60\x61\x62\x63\x64\x65\x66\x67\x68\x69\x6a\x6b\x6c\x6d\x6e\x6f\x70\x71\x72\x73\x74\x75\x76\x77\x78\x79\x7a\x7b\x7c\x7d\x7e\x7f");
    }
    assert(forall|i: int| 0 <= i < 128 ==> #[trigger] table@[i] == i as char);
    let r = table.substring_ascii(b as usize, b as usize + 1);
    assert(r@ =~= seq![b as char]);
    r
}

/// Decodes UTF-8 bytes into text: `None` exactly when the bytes are not
/// well-formed UTF-8. ASCII bytes, of any length, are decoded here, one
/// character per byte; other bytes by `std::str::from_utf8`.
pub fn decode_utf8_text(bytes: &[u8]) -> (r: Option<String>)
    ensures
        r is Some <==> valid_utf8(bytes@),
        r matches Some(s) ==> s@ == decode_utf8(bytes@),
        is_ascii_bytes(bytes@) ==> (r matches Some(s) && s@ == ascii_chars(bytes@)),
{
    let n = bytes.len();
    let mut all_ascii = true;
    for i in 0..n
        invariant
            n == bytes@.len(),
            all_ascii <==> (forall|k: int| 0 <= k < i ==> #[trigger] bytes@[k] < 128),
    {
        if bytes[i] >= 128 {
            all_ascii = false;
        }
    }
    if all_ascii {
        let mut text = String::new();
        for i in 0..n
            invariant
                n == bytes@.len(),
                is_ascii_bytes(bytes@),
                text@ == ascii_chars(bytes@.take(i as int)),
        {
            let piece = ascii_char_str(bytes[i]);
            text.append(piece);
            assert(ascii_chars(bytes@.take(i + 1)) =~= ascii_chars(bytes@.take(i as int)) + seq![bytes@[i as int] as char]);
        }
        assert(bytes@.take(n as int) =~= bytes@);
        proof {
            lemma_ascii_bytes_decode(bytes@);
        }
        Some(text)
    } else {
        match decode_utf8_bytes(bytes) {
            Some(s) => Some(s.to_owned()),
            None => None,
        }
    }
}

/// The text of simple paragraphs holds nothing that HTML would change.
pub proof fn lemma_simple_paragraphs_are_html_plain(ps: Seq<Seq<Run>>)
    requires
        simple_paragraphs(ps),
    ensures
        html_plain_paragraphs(ps),
{
    assert forall|i: int, j: int| 0 <= i < ps.len() && 0 <= j < ps[i].len() implies html_plain(
        #[trigger] run_text(ps[i][j]),
    ) by {
        assert(simple_paragraph(ps[i]));
        assert(simple_run_at(ps[i], j));
        let t = run_text(ps[i][j]);
        assert forall|k: int| 0 <= k < t.len() implies html_text_char(#[trigger] t[k]) by {
            match ps[i][j] {
                Run::Text(x) => assert(markdown_plain(x)),
                Run::Em(x) => assert(emphasis_plain(x)),
                Run::Strong(x) => assert(emphasis_plain(x)),
            }
        }
    }
}

} // verus!
