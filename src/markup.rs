//! HTML fragments: escaping, decimal numbers and the tags that the layouts emit.
use vstd::prelude::*;

verus! {

/// The characters that stand for `c` in escaped HTML text or attribute values.
pub open spec fn escaped_char(c: char) -> Seq<char> {
    if c == '&' {
        "&amp;"@
    } else if c == '<' {
        "&lt;"@
    } else if c == '>' {
        "&gt;"@
    } else if c == '"' {
        "&quot;"@
    } else {
        seq![c]
    }
}

/// `s` escaped for HTML: `&`, `<`, `>` and `"` become entities, the rest stays.
pub open spec fn html_escaped(s: Seq<char>) -> Seq<char>
    decreases s.len(),
{
    if s.len() == 0 {
        Seq::empty()
    } else {
        html_escaped(s.drop_last()) + escaped_char(s.last())
    }
}

/// Escaped text holds no `<`, `>` or `"`: whatever it was made from, it can
/// neither open a tag nor end the attribute value it stands in.
pub proof fn lemma_escaped_is_inert(s: Seq<char>)
    ensures
        forall|i: int|
            0 <= i < html_escaped(s).len() ==> #[trigger] html_escaped(s)[i] != '<'
                && html_escaped(s)[i] != '>' && html_escaped(s)[i] != '"',
    decreases s.len(),
{
    reveal_strlit("&amp;");
    reveal_strlit("&lt;");
    reveal_strlit("&gt;");
    reveal_strlit("&quot;");
    if s.len() > 0 {
        lemma_escaped_is_inert(s.drop_last());
        let front = html_escaped(s.drop_last());
        let e = escaped_char(s.last());
        assert forall|i: int| 0 <= i < e.len() implies e[i] != '<' && e[i] != '>' && e[i] != '"' by {
        }
        assert forall|i: int| 0 <= i < html_escaped(s).len() implies #[trigger] html_escaped(s)[i]
            != '<' && html_escaped(s)[i] != '>' && html_escaped(s)[i] != '"' by {
            if i < front.len() {
                assert(html_escaped(s)[i] == front[i]);
            } else {
                assert(html_escaped(s)[i] == e[i - front.len()]);
            }
        }
    }
}

/// Relies on maud's `Render` impl for `str`, which escapes `&`, `<`, `>` and `"`
/// into entities and copies every other character.
#[verifier::external_body]
pub fn escape_html(s: &str) -> (r: String)
    ensures
        r@ == html_escaped(s@),
{
    maud::Render::render(s).into_string()
}

/// The digit `d` (below ten) as a one-character sequence.
pub open spec fn digit_seq(d: nat) -> Seq<char> {
    "0123456789"@.subrange(d as int, d as int + 1)
}

/// The decimal digits of `n`, most significant first, without leading zeros.
pub open spec fn decimal(n: nat) -> Seq<char>
    decreases n,
{
    if n < 10 {
        digit_seq(n)
    } else {
        decimal(n / 10) + digit_seq(n % 10)
    }
}

/// Appends the decimal digits of `n` to `out`.
pub fn push_decimal(out: &mut String, n: u16)
    ensures
        final(out)@ == old(out)@ + decimal(n as nat),
    decreases n,
{
    let digits: &str = "0123456789";
    proof {
        reveal_strlit("0123456789");
    }
    if n >= 10 {
        push_decimal(out, n / 10);
    }
    let d: usize = (n % 10) as usize;
    let digit = digits.substring_char(d, d + 1);
    out.append(digit);
    assert(old(out)@ + decimal(n as nat) =~= final(out)@);
}

/// Whether `t` occurs in `s` starting at offset `i`.
pub open spec fn occurs_at(s: Seq<char>, t: Seq<char>, i: int) -> bool {
    0 <= i && i + t.len() <= s.len() && s.subrange(i, i + t.len()) == t
}

/// A module script loaded from `src`.
pub open spec fn module_script(src: Seq<char>) -> Seq<char> {
    "<script type=\"module\" src=\""@ + html_escaped(src) + "\"></script>"@
}

/// A module script loaded from `src`, checked against the digest `integrity`.
pub open spec fn module_script_checked(src: Seq<char>, integrity: Seq<char>) -> Seq<char> {
    "<script type=\"module\" src=\""@ + html_escaped(src) + "\" integrity=\""@ + html_escaped(
        integrity,
    ) + "\"></script>"@
}

/// A module script whose code `code` stands inline, unescaped.
pub open spec fn inline_module(code: Seq<char>) -> Seq<char> {
    "<script type=\"module\">"@ + code + "</script>"@
}

/// The element the application mounts into, carrying the page props.
pub open spec fn mount_point(props: Seq<char>) -> Seq<char> {
    "<div id=\"app\" data-page=\""@ + html_escaped(props) + "\"></div>"@
}

/// Everything of a document that comes before the asset tags.
pub open spec fn document_head(lang: Seq<char>, title: Seq<char>) -> Seq<char> {
    "<html lang=\""@ + html_escaped(lang) + "\"><head><title>"@ + html_escaped(title)
        + "</title><meta charset=\"utf-8\"><meta name=\"viewport\" content=\"width=device-width, initial-scale=1.0\">"@
}

/// The whole document: language, title, the asset tags `assets` in the head,
/// and the mount point for `props` in the body.
pub open spec fn document(
    lang: Seq<char>,
    title: Seq<char>,
    assets: Seq<char>,
    props: Seq<char>,
) -> Seq<char> {
    document_head(lang, title) + assets + "</head><body>"@ + mount_point(props) + "</body></html>"@
}

/// Builds the tag of a module script loaded from `src`.
pub fn module_script_tag(src: &str) -> (r: String)
    ensures
        r@ == module_script(src@),
{
    let mut r = String::from_str("<script type=\"module\" src=\"");
    let esc = escape_html(src);
    r.append(esc.as_str());
    r.append("\"></script>");
    r
}

/// Builds the tag of a module script loaded from `src` and checked against `integrity`.
pub fn module_script_checked_tag(src: &str, integrity: &str) -> (r: String)
    ensures
        r@ == module_script_checked(src@, integrity@),
{
    let mut r = String::from_str("<script type=\"module\" src=\"");
    let esc = escape_html(src);
    r.append(esc.as_str());
    r.append("\" integrity=\"");
    let esc_integrity = escape_html(integrity);
    r.append(esc_integrity.as_str());
    r.append("\"></script>");
    r
}

/// Builds the tag of an inline module script.
pub fn inline_module_tag(code: &str) -> (r: String)
    ensures
        r@ == inline_module(code@),
{
    let mut r = String::from_str("<script type=\"module\">");
    r.append(code);
    r.append("</script>");
    r
}

/// Builds the mount point for `props`.
pub fn mount_point_tag(props: &str) -> (r: String)
    ensures
        r@ == mount_point(props@),
{
    let mut r = String::from_str("<div id=\"app\" data-page=\"");
    let esc = escape_html(props);
    r.append(esc.as_str());
    r.append("\"></div>");
    r
}

/// Builds the whole document around the asset tags `assets`.
pub fn build_document(lang: &str, title: &str, assets: &str, props: &str) -> (r: String)
    ensures
        r@ == document(lang@, title@, assets@, props@),
{
    let mut r = String::from_str("<html lang=\"");
    let esc_lang = escape_html(lang);
    r.append(esc_lang.as_str());
    r.append("\"><head><title>");
    let esc_title = escape_html(title);
    r.append(esc_title.as_str());
    r.append(
        "</title><meta charset=\"utf-8\"><meta name=\"viewport\" content=\"width=device-width, initial-scale=1.0\">",
    );
    r.append(assets);
    r.append("</head><body>");
    let mount = mount_point_tag(props);
    r.append(mount.as_str());
    r.append("</body></html>");
    r
}

} // verus!
