use htmx_counter::html::{counter, decimal_string, page, text};

#[test]
fn decimal_of_zero() {
    assert_eq!(decimal_string(0), "0");
}

#[test]
fn decimal_of_small_and_large_numbers() {
    assert_eq!(decimal_string(7), "7");
    assert_eq!(decimal_string(10), "10");
    assert_eq!(decimal_string(12345), "12345");
    assert_eq!(decimal_string(usize::MAX), usize::MAX.to_string());
}

#[test]
fn counter_fragment_at_zero() {
    assert_eq!(
        counter(0),
        "<div class=\"text-red-500\" id=\"counter\">Clicked: 0</div>"
    );
}

#[test]
fn counter_fragment_at_forty_two() {
    assert_eq!(
        counter(42),
        "<div class=\"text-red-500\" id=\"counter\">Clicked: 42</div>"
    );
}

#[test]
fn page_embeds_fragment_and_button() {
    let expected = concat_page("<div class=\"text-red-500\" id=\"counter\">Clicked: 3</div>");
    assert_eq!(page(3), expected);
}

#[test]
fn text_escapes_markup_characters() {
    assert_eq!(text("a < b && c > d"), "a &lt; b &amp;&amp; c &gt; d");
    assert_eq!(text("\"quoted\" 'single'"), "\"quoted\" 'single'");
    assert_eq!(text(""), "");
}

fn concat_page(fragment: &str) -> String {
    format!(
        "<!DOCTYPE html><html><head><script src=\"https://unpkg.com/htmx.org@2.0.4\"></script>\
         <link rel=\"stylesheet\" href=\"/static/stylesheet.css\"></head><body>{fragment}\
         <button hx-post=\"/clicked\" hx-target=\"#counter\" class=\"border-2\">Click Me!</button>\
         </body></html>"
    )
}
