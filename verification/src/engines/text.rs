//! The engine's decisions on text: the colour scheme asked for, the selector that finds a named
//! anchor, the base address of a document, and the address shown for a view.
use vstd::prelude::*;

verus! {

broadcast use vstd::string::group_string_axioms;

/// The colour scheme a document is laid out for.
#[derive(Clone, Copy, Debug, PartialEq, Eq, Structural)]
pub enum ColorSchemeChoice {
    Light,
    Dark,
}

/// The lower-case form of a text, as `str::to_lowercase` computes it (full Unicode case
/// mapping).
pub uninterp spec fn lowercase_chars(text: Seq<char>) -> Seq<char>;

/// Calls `str::to_lowercase`.
///
/// The result is named by `lowercase_chars`; the Unicode case mapping itself is not written
/// out here.
#[verifier::external_body]
fn to_lowercase(text: &str) -> (lower: String)
    ensures
        lower@ == lowercase_chars(text@),
{
    text.to_lowercase()
}

/// Calls `String::push`: the text with one more character at its end.
#[verifier::external_body]
fn push_char(text: &mut String, c: char)
    ensures
        final(text)@ == old(text)@.push(c),
{
    text.push(c)
}

/// The word that selects the dark scheme.
pub open spec fn dark_word() -> Seq<char> {
    seq!['d', 'a', 'r', 'k']
}

/// Whether `part` occurs in `text` starting at position `i`.
pub open spec fn occurs_at(text: Seq<char>, part: Seq<char>, i: int) -> bool {
    0 <= i && i + part.len() <= text.len() && text.subrange(i, i + part.len()) == part
}

/// Whether `part` occurs in `text` as a run of consecutive characters.
pub open spec fn has_infix(text: Seq<char>, part: Seq<char>) -> bool {
    exists|i: int| #[trigger] occurs_at(text, part, i)
}

/// The colour scheme asked for, given the widget's own setting and the desktop theme's name
/// already in lower case: dark exactly when the setting is "dark", or, without a setting,
/// when the theme's name contains "dark".
pub open spec fn scheme_from_lowercase(requested: Option<Seq<char>>, gtk_theme: Option<Seq<char>>) -> ColorSchemeChoice {
    match requested {
        Some(value) => if value == dark_word() {
            ColorSchemeChoice::Dark
        } else {
            ColorSchemeChoice::Light
        },
        None => match gtk_theme {
            Some(theme) => if has_infix(theme, dark_word()) {
                ColorSchemeChoice::Dark
            } else {
                ColorSchemeChoice::Light
            },
            None => ColorSchemeChoice::Light,
        },
    }
}

/// Law: a lower-case setting of exactly "dark" asks for the dark scheme and any other setting
/// for the light one, whatever the theme; without a setting, a theme name containing "dark"
/// asks for the dark scheme, one without it, or no theme at all, for the light one.
pub proof fn law_scheme_choice(setting: Seq<char>, theme: Seq<char>, before: Seq<char>, after: Seq<char>, other: Option<Seq<char>>)
    ensures
        scheme_from_lowercase(Some(seq!['d', 'a', 'r', 'k']), other) == ColorSchemeChoice::Dark,
        setting != seq!['d', 'a', 'r', 'k'] ==> scheme_from_lowercase(Some(setting), other)
            == ColorSchemeChoice::Light,
        scheme_from_lowercase(None, Some(before + seq!['d', 'a', 'r', 'k'] + after))
            == ColorSchemeChoice::Dark,
        (forall|i: int| !#[trigger] occurs_at(theme, dark_word(), i))
            ==> scheme_from_lowercase(None, Some(theme)) == ColorSchemeChoice::Light,
        scheme_from_lowercase(None, None) == ColorSchemeChoice::Light,
{
    let t = before + seq!['d', 'a', 'r', 'k'] + after;
    assert(t.subrange(before.len() as int, before.len() + 4int) =~= seq!['d', 'a', 'r', 'k']);
    assert(occurs_at(t, seq!['d', 'a', 'r', 'k'], before.len() as int));
}

/// Law: the address shown is never empty: an empty address shows as "about:blank", any other
/// as itself.
pub proof fn law_shown_url(url: Seq<char>)
    ensures
        shown_url_spec(url).len() > 0,
        url.len() > 0 ==> shown_url_spec(url) == url,
        url.len() == 0 ==> shown_url_spec(url) == seq!['a', 'b', 'o', 'u', 't', ':', 'b', 'l', 'a', 'n', 'k'],
{
}

/// The text of an optional string.
pub open spec fn text_of(text: Option<String>) -> Option<Seq<char>> {
    match text {
        Some(t) => Some(t@),
        None => None,
    }
}

/// The lower-case form of an optional text.
pub open spec fn lowercase_of(text: Option<Seq<char>>) -> Option<Seq<char>> {
    match text {
        Some(t) => Some(lowercase_chars(t)),
        None => None,
    }
}

/// The colour scheme asked for by the widget's own setting, if it is set, and else by the
/// desktop theme's name, in any case.
pub open spec fn color_scheme_spec(requested: Option<Seq<char>>, gtk_theme: Option<Seq<char>>) -> ColorSchemeChoice {
    scheme_from_lowercase(lowercase_of(requested), lowercase_of(gtk_theme))
}

/// The characters of a text, one by one.
fn chars_of(text: &str) -> (chars: Vec<char>)
    ensures
        chars@ == text@,
{
    let mut chars: Vec<char> = Vec::new();
    for c in it: text.chars()
        invariant
            it.seq() == text@,
            chars@ == it.seq().take(it.index()),
    {
        chars.push(c);
        assert(chars@ =~= it.seq().take(it.index() + 1));
    }
    assert(chars@ =~= text@);
    chars
}

/// Whether `part` occurs in `text`.
fn contains_chars(text: &Vec<char>, part: &Vec<char>) -> (found: bool)
    ensures
        found == has_infix(text@, part@),
{
    let n = text.len();
    let m = part.len();
    if m > n {
        return false;
    }
    let mut i: usize = 0;
    while i <= n - m
        invariant
            m <= n,
            n == text@.len(),
            m == part@.len(),
            i <= n - m + 1,
            forall|k: int| 0 <= k < i ==> !#[trigger] occurs_at(text@, part@, k),
        decreases n - m + 1 - i,
    {
        let mut j: usize = 0;
        let mut same = true;
        while j < m
            invariant
                i + m <= n,
                n == text@.len(),
                m == part@.len(),
                j <= m,
                same == (forall|l: int| 0 <= l < j ==> text@[i + l] == part@[l]),
            decreases m - j,
        {
            if text[i + j] != part[j] {
                same = false;
            }
            j = j + 1;
        }
        if same {
            assert(text@.subrange(i as int, i + m) =~= part@);
            assert(occurs_at(text@, part@, i as int));
            return true;
        }
        assert(!occurs_at(text@, part@, i as int)) by {
            let l = choose|l: int| 0 <= l < m && text@[i + l] != part@[l];
            assert(text@.subrange(i as int, i + m)[l] == text@[i + l]);
        }
        i = i + 1;
    }
    assert forall|k: int| !#[trigger] occurs_at(text@, part@, k) by {
        if 0 <= k && k + part@.len() <= text@.len() {
            assert(k < i);
        }
    }
    false
}

/// The colour scheme asked for, given the widget's own setting and the desktop theme's name,
/// each where it is set and already in lower case.
pub fn choose_color_scheme(requested: Option<String>, gtk_theme: Option<String>) -> (scheme:
    ColorSchemeChoice)
    ensures
        scheme == scheme_from_lowercase(text_of(requested), text_of(gtk_theme)),
{
    if let Some(value) = requested {
        let dark = String::from_str("dark");
        proof {
            reveal_strlit("dark");
        }
        assert(dark@ =~= dark_word());
        return if value == dark {
            ColorSchemeChoice::Dark
        } else {
            ColorSchemeChoice::Light
        };
    }
    if let Some(theme) = gtk_theme {
        let theme_chars = chars_of(theme.as_str());
        let mut dark: Vec<char> = Vec::new();
        dark.push('d');
        dark.push('a');
        dark.push('r');
        dark.push('k');
        assert(dark@ =~= dark_word());
        if contains_chars(&theme_chars, &dark) {
            return ColorSchemeChoice::Dark;
        }
    }
    ColorSchemeChoice::Light
}

/// The colour scheme asked for: `requested` is the widget's own setting, `gtk_theme` the
/// desktop theme's name, each where it is set; both are brought into lower case first.
pub fn detect_color_scheme(requested: Option<String>, gtk_theme: Option<String>) -> (scheme:
    ColorSchemeChoice)
    ensures
        scheme == color_scheme_spec(text_of(requested), text_of(gtk_theme)),
{
    let requested_lower = match requested {
        Some(value) => Some(to_lowercase(value.as_str())),
        None => None,
    };
    let theme_lower = match gtk_theme {
        Some(theme) => Some(to_lowercase(theme.as_str())),
        None => None,
    };
    choose_color_scheme(requested_lower, theme_lower)
}

/// A character as it stands inside a double-quoted selector value: a backslash and a double
/// quote are escaped with a backslash.
pub open spec fn escape_char(c: char) -> Seq<char> {
    if c == '\\' {
        seq!['\\', '\\']
    } else if c == '"' {
        seq!['\\', '"']
    } else {
        seq![c]
    }
}

/// A text as it stands inside a double-quoted selector value.
pub open spec fn escape_selector_value(text: Seq<char>) -> Seq<char>
    decreases text.len(),
{
    if text.len() == 0 {
        Seq::empty()
    } else {
        escape_char(text[0]) + escape_selector_value(text.drop_first())
    }
}

/// The text that a double-quoted selector value stands for: a backslash takes the next
/// character as it is.
pub open spec fn unescape_selector_value(value: Seq<char>) -> Seq<char>
    decreases value.len(),
{
    if value.len() == 0 {
        Seq::empty()
    } else if value[0] == '\\' && value.len() >= 2 {
        seq![value[1]] + unescape_selector_value(value.subrange(2, value.len() as int))
    } else {
        seq![value[0]] + unescape_selector_value(value.drop_first())
    }
}

/// Escaping a text one character longer adds that character's escape at the end.
proof fn lemma_escape_push(text: Seq<char>, c: char)
    ensures
        escape_selector_value(text.push(c)) == escape_selector_value(text) + escape_char(c),
    decreases text.len(),
{
    if text.len() == 0 {
        assert(text.push(c).drop_first() =~= Seq::<char>::empty());
        assert(escape_selector_value(Seq::<char>::empty()) == Seq::<char>::empty());
        assert(text.push(c)[0] == c);
        assert(escape_selector_value(text.push(c)) =~= escape_char(c));
    } else {
        assert(text.push(c).drop_first() =~= text.drop_first().push(c));
        lemma_escape_push(text.drop_first(), c);
        assert(escape_selector_value(text.push(c)) =~= escape_selector_value(text) + escape_char(
            c,
        ));
    }
}

/// Reading back one escaped character yields that character.
proof fn lemma_unescape_char(c: char, rest: Seq<char>)
    ensures
        unescape_selector_value(escape_char(c) + rest) == seq![c] + unescape_selector_value(rest),
{
    let all = escape_char(c) + rest;
    if c == '\\' || c == '"' {
        assert(all.subrange(2, all.len() as int) =~= rest);
    } else {
        assert(all.drop_first() =~= rest);
    }
}

/// Law: the selector value reads back as exactly the text it was made from, so the selector
/// built for a fragment matches the elements named by that fragment and no others.
pub proof fn law_selector_value_round_trip(text: Seq<char>)
    ensures
        unescape_selector_value(escape_selector_value(text)) == text,
    decreases text.len(),
{
    if text.len() > 0 {
        law_selector_value_round_trip(text.drop_first());
        lemma_unescape_char(text[0], escape_selector_value(text.drop_first()));
        assert(seq![text[0]] + text.drop_first() =~= text);
    }
}

/// Law: the widget's own colour setting, when set, decides the scheme whatever the desktop
/// theme is called.
pub proof fn law_requested_scheme_wins(requested: Seq<char>, theme_a: Option<Seq<char>>, theme_b: Option<Seq<char>>)
    ensures
        color_scheme_spec(Some(requested), theme_a) == color_scheme_spec(Some(requested), theme_b),
{
}

/// The selector `[name="..."]` for the elements whose name attribute is `value`.
pub open spec fn name_selector_spec(value: Seq<char>) -> Seq<char> {
    seq!['[', 'n', 'a', 'm', 'e', '=', '"'] + escape_selector_value(value) + seq!['"', ']']
}

/// The selector for the elements whose name attribute is `fragment`, with the fragment's
/// backslashes and double quotes escaped.
pub fn name_selector(fragment: &str) -> (selector: String)
    ensures
        selector@ == name_selector_spec(fragment@),
{
    let mut selector = String::from_str("[name=\"");
    proof {
        reveal_strlit("[name=\"");
    }
    assert(selector@ =~= seq!['[', 'n', 'a', 'm', 'e', '=', '"']);
    let ghost head = selector@;
    for c in it: fragment.chars()
        invariant
            it.seq() == fragment@,
            head == seq!['[', 'n', 'a', 'm', 'e', '=', '"'],
            selector@ == head + escape_selector_value(it.seq().take(it.index())),
    {
        let ghost done = it.seq().take(it.index());
        if c == '\\' {
            push_char(&mut selector, '\\');
            push_char(&mut selector, '\\');
        } else if c == '"' {
            push_char(&mut selector, '\\');
            push_char(&mut selector, '"');
        } else {
            push_char(&mut selector, c);
        }
        assert(it.seq().take(it.index() + 1) =~= done.push(c));
        proof {
            lemma_escape_push(done, c);
        }
        assert(selector@ =~= head + escape_selector_value(it.seq().take(it.index() + 1)));
    }
    assert(fragment@.take(fragment@.len() as int) =~= fragment@);
    push_char(&mut selector, '"');
    push_char(&mut selector, ']');
    assert(selector@ =~= name_selector_spec(fragment@));
    selector
}

/// The base address a document is created with: none for an empty address.
pub fn document_base_url(base_url: &str) -> (base: Option<String>)
    ensures
        base matches Some(b) ==> b@ == base_url@,
        base is None <==> base_url@.len() == 0,
{
    if base_url.is_empty() {
        None
    } else {
        Some(String::from_str(base_url))
    }
}

/// The address shown for a page whose address is unknown.
pub open spec fn blank_page_address() -> Seq<char> {
    seq!['a', 'b', 'o', 'u', 't', ':', 'b', 'l', 'a', 'n', 'k']
}

/// The address shown for a view whose address is `url`: the blank page's for an empty one.
pub open spec fn shown_url_spec(url: Seq<char>) -> Seq<char> {
    if url.len() == 0 {
        blank_page_address()
    } else {
        url
    }
}

/// The address of the blank page.
pub fn blank_page_url() -> (url: String)
    ensures
        url@ == blank_page_address(),
{
    let url = String::from_str("about:blank");
    proof {
        reveal_strlit("about:blank");
    }
    assert(url@ =~= blank_page_address());
    url
}

/// The address shown for a view whose address is `url`.
pub fn shown_url(url: &String) -> (shown: String)
    ensures
        shown@ == shown_url_spec(url@),
{
    if url.as_str().is_empty() {
        blank_page_url()
    } else {
        url.clone()
    }
}

} // verus!
