//! Rendering of the counter fragment and of the page that embeds it.
use vstd::prelude::*;
use vstd::string::StringExecFns;

verus! {

/// The character of a decimal digit.
pub open spec fn digit_char(d: nat) -> char {
    if d == 0 {
        '0'
    } else if d == 1 {
        '1'
    } else if d == 2 {
        '2'
    } else if d == 3 {
        '3'
    } else if d == 4 {
        '4'
    } else if d == 5 {
        '5'
    } else if d == 6 {
        '6'
    } else if d == 7 {
        '7'
    } else if d == 8 {
        '8'
    } else {
        '9'
    }
}

/// The decimal notation of `n`: no sign, no leading zeros, "0" for zero.
pub open spec fn decimal(n: nat) -> Seq<char>
    decreases n,
{
    if n < 10 {
        seq![digit_char(n)]
    } else {
        decimal(n / 10) + seq![digit_char(n % 10)]
    }
}

fn digit_str(d: usize) -> (r: &'static str)
    requires
        d < 10,
    ensures
        r@ == seq![digit_char(d as nat)],
{
    let r = if d == 0 {
        "0"
    } else if d == 1 {
        "1"
    } else if d == 2 {
        "2"
    } else if d == 3 {
        "3"
    } else if d == 4 {
        "4"
    } else if d == 5 {
        "5"
    } else if d == 6 {
        "6"
    } else if d == 7 {
        "7"
    } else if d == 8 {
        "8"
    } else {
        "9"
    };
    proof {
        reveal_strlit("0");
        reveal_strlit("1");
        reveal_strlit("2");
        reveal_strlit("3");
        reveal_strlit("4");
        reveal_strlit("5");
        reveal_strlit("6");
        reveal_strlit("7");
        reveal_strlit("8");
        reveal_strlit("9");
    }
    assert(r@ =~= seq![digit_char(d as nat)]);
    r
}

/// Writes `n` in decimal.
pub fn decimal_string(n: usize) -> (r: String)
    ensures
        r@ == decimal(n as nat),
{
    let mut rest: usize = n / 10;
    let mut s = String::from_str(digit_str(n % 10));
    assert(s@ == seq![digit_char((n % 10) as nat)]);
    while rest > 0
        invariant
            rest > 0 ==> decimal(n as nat) == decimal(rest as nat) + s@,
            rest == 0 ==> decimal(n as nat) == s@,
        decreases rest,
    {
        let d = String::from_str(digit_str(rest % 10));
        assert(decimal(rest as nat) =~= if rest < 10 {
            seq![digit_char(rest as nat)]
        } else {
            decimal((rest / 10) as nat) + seq![digit_char((rest % 10) as nat)]
        });
        s = d.concat(s.as_str());
        rest = rest / 10;
        assert(rest > 0 ==> decimal(n as nat) =~= decimal(rest as nat) + s@);
        assert(rest == 0 ==> decimal(n as nat) =~= s@);
    }
    s
}

/// How text content is written in HTML: `&`, `<` and `>` as entities,
/// every other character as it is.
pub open spec fn escape_char(c: char) -> Seq<char> {
    if c == '&' {
        seq!['&', 'a', 'm', 'p', ';']
    } else if c == '<' {
        seq!['&', 'l', 't', ';']
    } else if c == '>' {
        seq!['&', 'g', 't', ';']
    } else {
        seq![c]
    }
}

/// Text content escaped character by character.
pub open spec fn escape_text(s: Seq<char>) -> Seq<char>
    decreases s.len(),
{
    if s.len() == 0 {
        Seq::empty()
    } else {
        escape_text(s.drop_last()) + escape_char(s.last())
    }
}

/// A character that text escaping leaves alone.
pub open spec fn is_plain(c: char) -> bool {
    c != '&' && c != '<' && c != '>'
}

/// Text made of plain characters is its own escaped form.
pub proof fn lemma_escape_plain(s: Seq<char>)
    requires
        forall|i: int| 0 <= i < s.len() ==> is_plain(#[trigger] s[i]),
    ensures
        escape_text(s) == s,
    decreases s.len(),
{
    if s.len() > 0 {
        lemma_escape_plain(s.drop_last());
        assert(s.drop_last().push(s.last()) =~= s);
    }
}

/// Every character of a decimal number is a digit, hence plain.
pub proof fn lemma_decimal_plain(n: nat)
    ensures
        forall|i: int| 0 <= i < decimal(n).len() ==> is_plain(#[trigger] decimal(n)[i]),
    decreases n,
{
    if n >= 10 {
        lemma_decimal_plain(n / 10);
        let d = decimal(n / 10);
        assert forall|i: int| 0 <= i < decimal(n).len() implies is_plain(#[trigger] decimal(n)[i]) by {
            if i < d.len() {
                assert(decimal(n)[i] == d[i]);
            }
        }
    }
}

/// The text of the counter: "Clicked: " and the count in decimal.
pub open spec fn counter_label(count: nat) -> Seq<char> {
    "Clicked: "@ + decimal(count)
}

/// The opening tag of the counter fragment, whose id the button targets.
pub open spec fn counter_open() -> Seq<char> {
    "<div class=\"text-red-500\" id=\"counter\">"@
}

/// The closing tag of the counter fragment.
pub open spec fn counter_close() -> Seq<char> {
    "</div>"@
}

/// The counter fragment for `count`.
pub open spec fn counter_html(count: nat) -> Seq<char> {
    counter_open() + counter_label(count) + counter_close()
}

/// What the page holds before the counter fragment.
pub open spec fn page_head() -> Seq<char> {
    "<!DOCTYPE html><html><head><script src=\"https://unpkg.com/htmx.org@2.0.4\"></script><link rel=\"stylesheet\" href=\"/static/stylesheet.css\"></head><body>"@
}

/// What the page holds after the counter fragment: the button that posts a
/// click and swaps the answer into the counter.
pub open spec fn page_tail() -> Seq<char> {
    "<button hx-post=\"/clicked\" hx-target=\"#counter\" class=\"border-2\">Click Me!</button></body></html>"@
}

/// The whole page for `count`.
pub open spec fn page_html(count: nat) -> Seq<char> {
    page_head() + counter_html(count) + page_tail()
}

/// Relies on hypertext's `Renderable` impl for `str` (through html_escape's
/// `encode_text`): `&`, `<` and `>` become entities, other characters stay.
#[verifier::external_body]
fn render_text(s: &str) -> (r: String)
    ensures
        r@ == escape_text(s@),
{
    <str as hypertext::Renderable>::render(s).into_inner()
}

/// Renders `s` as the text content of an element.
pub fn text(s: &str) -> (r: String)
    ensures
        r@ == escape_text(s@),
{
    render_text(s)
}

/// Renders the counter fragment for `count`, its text escaped as HTML text.
pub fn counter(count: usize) -> (r: String)
    ensures
        r@ == counter_html(count as nat),
{
    let label = String::from_str("Clicked: ").concat(decimal_string(count).as_str());
    let escaped = text(label.as_str());
    proof {
        reveal_strlit("Clicked: ");
        lemma_decimal_plain(count as nat);
        assert forall|i: int| 0 <= i < label@.len() implies is_plain(#[trigger] label@[i]) by {
            if i >= 9 {
                assert(label@[i] == decimal(count as nat)[i - 9]);
            }
        }
        lemma_escape_plain(label@);
    }
    String::from_str("<div class=\"text-red-500\" id=\"counter\">").concat(escaped.as_str()).concat(
        "</div>",
    )
}

/// Renders the whole page with the counter at `count`.
pub fn page(count: usize) -> (r: String)
    ensures
        r@ == page_html(count as nat),
{
    let fragment = counter(count);
    String::from_str(
        "<!DOCTYPE html><html><head><script src=\"https://unpkg.com/htmx.org@2.0.4\"></script><link rel=\"stylesheet\" href=\"/static/stylesheet.css\"></head><body>",
    ).concat(fragment.as_str()).concat(
        "<button hx-post=\"/clicked\" hx-target=\"#counter\" class=\"border-2\">Click Me!</button></body></html>",
    )
}

} // verus!
