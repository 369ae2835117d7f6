//! Reading the API's HTML pages: the anti-forgery token of the login form, the
//! GUIDs in a text, and the list of registered saunas.
use vstd::prelude::*;
use vstd::string::*;
use vstd::utf8::encode_utf8;
use crate::error::{KlafsError, KlafsErrorView};
use crate::models::{SaunaInfo, SaunaInfoView};
use crate::text::{has_sub, lowercase_str, str_contains, to_owned_string, trim_str, trim_text, unicode_lowercase};
use crate::validate::{guid_text, is_guid};

verus! {

/// What the logic reads of one element of a page: the values of the attributes
/// asked for (in the order asked), and the element's text nodes in document order.
pub struct HtmlElement {
    pub attrs: Vec<Option<String>>,
    pub texts: Vec<String>,
}

/// The abstract content of an [`HtmlElement`].
pub struct HtmlElementView {
    pub attrs: Seq<Option<Seq<char>>>,
    pub texts: Seq<Seq<char>>,
}

/// The abstract value of an optional string.
pub open spec fn opt_text(o: Option<String>) -> Option<Seq<char>> {
    match o {
        Some(s) => Some(s@),
        None => None,
    }
}

impl View for HtmlElement {
    type V = HtmlElementView;

    open spec fn view(&self) -> HtmlElementView {
        HtmlElementView {
            attrs: self.attrs@.map_values(|a: Option<String>| opt_text(a)),
            texts: self.texts@.map_values(|t: String| t@),
        }
    }
}

/// The abstract value of a list of elements.
pub open spec fn elements_view(v: Seq<HtmlElement>) -> Seq<HtmlElementView> {
    v.map_values(|e: HtmlElement| e@)
}

/// The abstract value of a list of names.
pub open spec fn names_view(v: Seq<&str>) -> Seq<Seq<char>> {
    v.map_values(|n: &str| n@)
}

/// What `scraper` yields for a CSS selector over a parsed document: for each
/// matching element in document order, the asked attributes and the text nodes.
/// `None` when the selector does not parse.
pub uninterp spec fn html_select_spec(html: Seq<char>, selector: Seq<char>, attr_names: Seq<Seq<char>>) -> Option<Seq<HtmlElementView>>;

/// As [`html_select_spec`], for the elements matching `inner` below the element at
/// `index` of those matching `outer`. `None` when a selector does not parse or there
/// is no such element.
pub uninterp spec fn html_select_within_spec(html: Seq<char>, outer: Seq<char>, index: nat, inner: Seq<char>, attr_names: Seq<Seq<char>>) -> Option<Seq<HtmlElementView>>;

/// `scraper::Html::parse_document`, `Selector::parse` and `Html::select`, with
/// `Element::attr` for each name and `ElementRef::text`: the result is named by
/// `html_select_spec`; each element carries one value per asked name.
#[verifier::external_body]
fn select_elements(html: &str, selector: &str, attr_names: &[&str]) -> (r: Option<Vec<HtmlElement>>)
    ensures
        r is Some <==> html_select_spec(html@, selector@, names_view(attr_names@)) is Some,
        r matches Some(v) ==> html_select_spec(html@, selector@, names_view(attr_names@)) == Some(elements_view(v@)),
        r matches Some(v) ==> forall|i: int| 0 <= i < v@.len() ==> (#[trigger] v@[i]).attrs@.len() == attr_names@.len(),
{
    let sel = scraper::Selector::parse(selector).ok()?;
    let doc = scraper::Html::parse_document(html);
    Some(doc.select(&sel).map(|e| HtmlElement {
        attrs: attr_names.iter().map(|n| e.value().attr(n).map(|s| s.to_string())).collect(),
        texts: e.text().map(|t| t.to_string()).collect(),
    }).collect())
}

/// As [`select_elements`], below the `index`-th element matching `outer`
/// (`ElementRef::select`); the result is named by `html_select_within_spec`.
#[verifier::external_body]
fn select_within(html: &str, outer: &str, index: usize, inner: &str, attr_names: &[&str]) -> (r: Option<Vec<HtmlElement>>)
    ensures
        r is Some <==> html_select_within_spec(html@, outer@, index as nat, inner@, names_view(attr_names@)) is Some,
        r matches Some(v) ==> html_select_within_spec(html@, outer@, index as nat, inner@, names_view(attr_names@)) == Some(elements_view(v@)),
        r matches Some(v) ==> forall|i: int| 0 <= i < v@.len() ==> (#[trigger] v@[i]).attrs@.len() == attr_names@.len(),
{
    let outer_sel = scraper::Selector::parse(outer).ok()?;
    let inner_sel = scraper::Selector::parse(inner).ok()?;
    let doc = scraper::Html::parse_document(html);
    let scope = doc.select(&outer_sel).nth(index)?;
    Some(scope.select(&inner_sel).map(|e| HtmlElement {
        attrs: attr_names.iter().map(|n| e.value().attr(n).map(|s| s.to_string())).collect(),
        texts: e.text().map(|t| t.to_string()).collect(),
    }).collect())
}

/// The elements a selection yields, or none when it failed.
pub open spec fn or_none(o: Option<Seq<HtmlElementView>>) -> Seq<HtmlElementView> {
    match o {
        Some(v) => v,
        None => Seq::empty(),
    }
}

/// What `regex_lite` finds first for `pattern` in `text` (leftmost-first match);
/// `None` when the pattern does not compile or nothing matches.
pub uninterp spec fn regex_find_spec(pattern: Seq<char>, text: Seq<char>) -> Option<Seq<char>>;

/// The first capture group of the first match of `pattern` in `text`; `None`
/// when the pattern does not compile, nothing matches, or the group is unset.
pub uninterp spec fn regex_capture_spec(pattern: Seq<char>, text: Seq<char>) -> Option<Seq<char>>;

/// `regex_lite::Regex::new` and `Regex::find`: the matched text, named by `regex_find_spec`.
#[verifier::external_body]
fn regex_find(pattern: &str, text: &str) -> (r: Option<String>)
    ensures
        opt_text(r) == regex_find_spec(pattern@, text@),
{
    let re = regex_lite::Regex::new(pattern).ok()?;
    re.find(text).map(|m| m.as_str().to_string())
}

/// `regex_lite::Regex::new`, `Regex::captures` and `Captures::get(1)`: the text of
/// the first group, named by `regex_capture_spec`.
#[verifier::external_body]
fn regex_capture(pattern: &str, text: &str) -> (r: Option<String>)
    ensures
        opt_text(r) == regex_capture_spec(pattern@, text@),
{
    let re = regex_lite::Regex::new(pattern).ok()?;
    re.captures(text).and_then(|c| c.get(1)).map(|m| m.as_str().to_string())
}

/// The pattern of a GUID in text.
pub open spec fn guid_pattern() -> Seq<char> {
    "[0-9a-fA-F]{8}-[0-9a-fA-F]{4}-[0-9a-fA-F]{4}-[0-9a-fA-F]{4}-[0-9a-fA-F]{12}"@
}

/// The first GUID in `text`, in lower case.
pub open spec fn extract_guid_spec(text: Seq<char>) -> Option<Seq<char>> {
    match regex_find_spec(guid_pattern(), text) {
        Some(m) => Some(unicode_lowercase(m)),
        None => None,
    }
}

/// Find the first GUID in a text, in lower case.
pub fn extract_guid(text: &str) -> (r: Option<String>)
    ensures
        opt_text(r) == extract_guid_spec(text@),
{
    let found = regex_find(
        "[0-9a-fA-F]{8}-[0-9a-fA-F]{4}-[0-9a-fA-F]{4}-[0-9a-fA-F]{4}-[0-9a-fA-F]{12}",
        text,
    );
    match found {
        Some(m) => Some(lowercase_str(m.as_str())),
        None => None,
    }
}

/// The name of a field that carries the anti-forgery token.
pub open spec fn is_token_name(name: Seq<char>) -> bool {
    has_sub(unicode_lowercase(name), "requestverificationtoken"@)
}

/// The token an element holds: the element's `name` (else `id`) names the token
/// field and it has a value (attributes asked: name, id, value).
pub open spec fn element_token(e: HtmlElementView) -> Option<Seq<char>> {
    let name_or_id = if e.attrs[0] is Some { e.attrs[0] } else { e.attrs[1] };
    match name_or_id {
        Some(name) => if is_token_name(name) && e.attrs[2] is Some { e.attrs[2] } else { None },
        None => None,
    }
}

/// The token of the first element that holds one.
pub open spec fn first_token(es: Seq<HtmlElementView>) -> Option<Seq<char>>
    decreases es.len(),
{
    if es.len() == 0 {
        None
    } else {
        match element_token(es[0]) {
            Some(t) => Some(t),
            None => first_token(es.drop_first()),
        }
    }
}

/// The patterns tried, in order, when no element holds the token.
pub open spec fn token_pattern(i: int) -> Seq<char> {
    if i == 0 {
        "(?i)name=[\"']__requestverificationtoken[\"'][^>]*value=[\"']([^\"']+)[\"']"@
    } else if i == 1 {
        "(?i)content=[\"']([^\"']+)[\"'][^>]*name=[\"']__requestverificationtoken[\"']"@
    } else {
        "(?i)__requestverificationtoken[\"']\\s*[:=]\\s*[\"']([^\"']+)[\"']"@
    }
}

/// The anti-forgery token of a page: from an `input` element's value, else from a
/// `meta` element's content, else from the first of the patterns that captures it.
pub open spec fn verification_token_spec(html: Seq<char>) -> Option<Seq<char>> {
    let inputs = or_none(html_select_spec(html, "input"@, seq!["name"@, "id"@, "value"@]));
    let metas = or_none(html_select_spec(html, "meta"@, seq!["name"@, "id"@, "content"@]));
    if first_token(inputs) is Some {
        first_token(inputs)
    } else if first_token(metas) is Some {
        first_token(metas)
    } else if regex_capture_spec(token_pattern(0), html) is Some {
        regex_capture_spec(token_pattern(0), html)
    } else if regex_capture_spec(token_pattern(1), html) is Some {
        regex_capture_spec(token_pattern(1), html)
    } else {
        regex_capture_spec(token_pattern(2), html)
    }
}

/// The token of the first of `es` that holds one.
fn first_element_token(es: &Vec<HtmlElement>) -> (r: Option<String>)
    requires
        forall|i: int| 0 <= i < es@.len() ==> (#[trigger] es@[i]).attrs@.len() == 3,
    ensures
        opt_text(r) == first_token(elements_view(es@)),
{
    let ghost all = elements_view(es@);
    let mut i: usize = 0;
    assert(all.skip(0) =~= all);
    while i < es.len()
        invariant
            i <= es@.len(),
            all == elements_view(es@),
            forall|k: int| 0 <= k < es@.len() ==> (#[trigger] es@[k]).attrs@.len() == 3,
            first_token(all) == first_token(all.skip(i as int)),
        decreases es@.len() - i,
    {
        let e = &es[i];
        assert(all.skip(i as int)[0] == e@);
        assert(all.skip(i as int).drop_first() =~= all.skip(i + 1));
        let name_or_id = if e.attrs[0].is_some() { &e.attrs[0] } else { &e.attrs[1] };
        if let Some(name) = name_or_id {
            let lower = lowercase_str(name.as_str());
            if str_contains(lower.as_str(), "requestverificationtoken") {
                if let Some(v) = &e.attrs[2] {
                    return Some(v.clone());
                }
            }
        }
        i += 1;
    }
    assert(all.skip(i as int).len() == 0);
    None
}

/// Extract the anti-forgery token from a page; `VerificationTokenNotFound` when
/// the page holds none.
pub fn extract_verification_token(html: &str) -> (r: Result<String, KlafsError>)
    ensures
        r is Ok <==> verification_token_spec(html@) is Some,
        r matches Ok(t) ==> verification_token_spec(html@) == Some(t@),
        r matches Err(e) ==> e@ == KlafsErrorView::VerificationTokenNotFound,
{
    let input_names: [&str; 3] = ["name", "id", "value"];
    let inputs = select_elements(html, "input", &input_names);
    proof {
        assert(names_view(input_names@) =~= seq!["name"@, "id"@, "value"@]);
    }
    if let Some(es) = &inputs {
        if let Some(t) = first_element_token(es) {
            return Ok(t);
        }
    }
    let meta_names: [&str; 3] = ["name", "id", "content"];
    let metas = select_elements(html, "meta", &meta_names);
    proof {
        assert(names_view(meta_names@) =~= seq!["name"@, "id"@, "content"@]);
    }
    if let Some(es) = &metas {
        if let Some(t) = first_element_token(es) {
            return Ok(t);
        }
    }
    if let Some(t) = regex_capture(
        "(?i)name=[\"']__requestverificationtoken[\"'][^>]*value=[\"']([^\"']+)[\"']",
        html,
    ) {
        return Ok(t);
    }
    if let Some(t) = regex_capture(
        "(?i)content=[\"']([^\"']+)[\"'][^>]*name=[\"']__requestverificationtoken[\"']",
        html,
    ) {
        return Ok(t);
    }
    if let Some(t) = regex_capture(
        "(?i)__requestverificationtoken[\"']\\s*[:=]\\s*[\"']([^\"']+)[\"']",
        html,
    ) {
        return Ok(t);
    }
    Err(KlafsError::VerificationTokenNotFound)
}


/// The texts of a list joined in order.
pub open spec fn join_texts(ts: Seq<Seq<char>>) -> Seq<char>
    decreases ts.len(),
{
    if ts.len() == 0 {
        Seq::empty()
    } else {
        join_texts(ts.drop_last()) + ts.last()
    }
}

/// All the text nodes of an element, joined (`text().collect::<String>()`).
fn joined_text(ts: &Vec<String>) -> (s: String)
    ensures
        s@ == join_texts(ts@.map_values(|t: String| t@)),
{
    let ghost v = ts@.map_values(|t: String| t@);
    let mut s = String::new();
    let mut i: usize = 0;
    while i < ts.len()
        invariant
            i <= ts@.len(),
            v == ts@.map_values(|t: String| t@),
            s@ == join_texts(v.take(i as int)),
        decreases ts@.len() - i,
    {
        assert(v.take(i + 1).drop_last() =~= v.take(i as int));
        s.append(ts[i].as_str());
        i += 1;
    }
    assert(v.take(ts@.len() as int) =~= v);
    s
}

/// The selector of the rows of the sauna table.
pub open spec fn row_selector() -> Seq<char> {
    "tr.iw-sauna-webgrid-row-style"@
}

/// The value of the first of `es` that has one (attribute asked: value).
pub open spec fn first_value(es: Seq<HtmlElementView>) -> Option<Seq<char>>
    decreases es.len(),
{
    if es.len() == 0 {
        None
    } else if es[0].attrs[0] is Some {
        es[0].attrs[0]
    } else {
        first_value(es.drop_first())
    }
}

/// The hidden inputs of the row at `idx`.
pub open spec fn hidden_inputs(html: Seq<char>, idx: int) -> Seq<HtmlElementView> {
    or_none(html_select_within_spec(html, row_selector(), idx as nat, "input[type='hidden']"@, seq!["value"@]))
}

/// The ID of the row at `idx`: its `data-sauna-id` or `data-id` attribute, else the
/// first GUID in its text, else the value of its first hidden input that has a
/// value, when that value is a GUID (attributes asked: data-sauna-id, data-id).
pub open spec fn row_id_spec(html: Seq<char>, idx: int, row: HtmlElementView) -> Option<Seq<char>> {
    if row.attrs[0] is Some {
        row.attrs[0]
    } else if row.attrs[1] is Some {
        row.attrs[1]
    } else if extract_guid_spec(join_texts(row.texts)) is Some {
        extract_guid_spec(join_texts(row.texts))
    } else {
        match first_value(hidden_inputs(html, idx)) {
            Some(v) => if guid_text(v) { Some(v) } else { None },
            None => None,
        }
    }
}

/// The selectors tried, in order, for the name of a sauna in its row.
pub open spec fn name_selector(i: int) -> Seq<char> {
    if i == 0 {
        "td.sauna-name"@
    } else if i == 1 {
        "td:first-child"@
    } else if i == 2 {
        ".sauna-label"@
    } else if i == 3 {
        "label"@
    } else {
        "span.name"@
    }
}

/// A trimmed text that can serve as a name: not empty and not a GUID.
pub open spec fn usable_name(t: Seq<char>) -> bool {
    t.len() > 0 && !guid_text(t)
}

/// The name the `i`-th selector gives: the trimmed text of the first matching
/// element below the row, when usable.
pub open spec fn selector_name(html: Seq<char>, idx: int, i: int) -> Option<Seq<char>> {
    let es = or_none(html_select_within_spec(html, row_selector(), idx as nat, name_selector(i), Seq::empty()));
    if es.len() > 0 && usable_name(trim_text(join_texts(es[0].texts))) {
        Some(trim_text(join_texts(es[0].texts)))
    } else {
        None
    }
}

/// The first text node whose trimmed text is usable and longer than two bytes.
pub open spec fn text_name(ts: Seq<Seq<char>>) -> Option<Seq<char>>
    decreases ts.len(),
{
    if ts.len() == 0 {
        None
    } else if usable_name(trim_text(ts[0])) && encode_utf8(trim_text(ts[0])).len() > 2 {
        Some(trim_text(ts[0]))
    } else {
        text_name(ts.drop_first())
    }
}

/// The names found by the selectors from the `i`-th on.
pub open spec fn names_from(html: Seq<char>, idx: int, i: int) -> Option<Seq<char>>
    decreases 5 - i,
{
    if i >= 5 || i < 0 {
        None
    } else if selector_name(html, idx, i) is Some {
        selector_name(html, idx, i)
    } else {
        names_from(html, idx, i + 1)
    }
}

/// The name of the sauna in the row at `idx`: the first name a selector gives,
/// else the first usable text node of the row.
pub open spec fn sauna_name_spec(html: Seq<char>, idx: int, row: HtmlElementView) -> Option<Seq<char>> {
    if names_from(html, idx, 0) is Some {
        names_from(html, idx, 0)
    } else {
        text_name(row.texts)
    }
}

/// The saunas of the first `n` rows: each row with both an ID and a name.
pub open spec fn saunas_from_rows(html: Seq<char>, rows: Seq<HtmlElementView>, n: int) -> Seq<SaunaInfoView>
    decreases n,
{
    if n <= 0 {
        Seq::empty()
    } else {
        let prev = saunas_from_rows(html, rows, n - 1);
        match (row_id_spec(html, n - 1, rows[n - 1]), sauna_name_spec(html, n - 1, rows[n - 1])) {
            (Some(id), Some(name)) => prev.push(SaunaInfoView { id, name }),
            _ => prev,
        }
    }
}

/// The sauna an element with a sauna-id attribute gives (attributes asked:
/// data-sauna-id, data-saunaid, title): its ID and its trimmed text, or its title
/// when that text is empty; nothing when a part is missing or the name is empty.
pub open spec fn alt_entry(e: HtmlElementView) -> Option<SaunaInfoView> {
    let id = if e.attrs[0] is Some { e.attrs[0] } else { e.attrs[1] };
    let t = trim_text(join_texts(e.texts));
    let name = if t.len() == 0 { e.attrs[2] } else { Some(t) };
    match (id, name) {
        (Some(i), Some(n)) => if n.len() > 0 { Some(SaunaInfoView { id: i, name: n }) } else { None },
        _ => None,
    }
}

/// The saunas of the first `n` elements with a sauna-id attribute.
pub open spec fn saunas_from_alts(es: Seq<HtmlElementView>, n: int) -> Seq<SaunaInfoView>
    decreases n,
{
    if n <= 0 {
        Seq::empty()
    } else {
        match alt_entry(es[n - 1]) {
            Some(s) => saunas_from_alts(es, n - 1).push(s),
            None => saunas_from_alts(es, n - 1),
        }
    }
}

/// The rows of the sauna table (attributes asked: data-sauna-id, data-id).
pub open spec fn sauna_rows(html: Seq<char>) -> Seq<HtmlElementView> {
    or_none(html_select_spec(html, row_selector(), seq!["data-sauna-id"@, "data-id"@]))
}

/// The elements that carry a sauna-id attribute.
pub open spec fn sauna_id_elements(html: Seq<char>) -> Seq<HtmlElementView> {
    or_none(html_select_spec(html, "[data-sauna-id], [data-saunaid]"@, seq!["data-sauna-id"@, "data-saunaid"@, "title"@]))
}

/// The saunas a settings page lists: those of the table rows, or, when the rows
/// give none, those of the elements that carry a sauna-id attribute.
pub open spec fn saunas_spec(html: Seq<char>) -> Seq<SaunaInfoView> {
    let rows = sauna_rows(html);
    let main = saunas_from_rows(html, rows, rows.len() as int);
    if main.len() == 0 {
        let alts = sauna_id_elements(html);
        saunas_from_alts(alts, alts.len() as int)
    } else {
        main
    }
}

/// The abstract value of a list of saunas.
pub open spec fn saunas_view(v: Seq<SaunaInfo>) -> Seq<SaunaInfoView> {
    v.map_values(|s: SaunaInfo| s@)
}

/// The value of the first element of `es` that has one.
fn first_value_of(es: &Vec<HtmlElement>) -> (r: Option<String>)
    requires
        forall|i: int| 0 <= i < es@.len() ==> (#[trigger] es@[i]).attrs@.len() == 1,
    ensures
        opt_text(r) == first_value(elements_view(es@)),
{
    let ghost all = elements_view(es@);
    let mut i: usize = 0;
    assert(all.skip(0) =~= all);
    while i < es.len()
        invariant
            i <= es@.len(),
            all == elements_view(es@),
            forall|k: int| 0 <= k < es@.len() ==> (#[trigger] es@[k]).attrs@.len() == 1,
            first_value(all) == first_value(all.skip(i as int)),
        decreases es@.len() - i,
    {
        assert(all.skip(i as int)[0] == es@[i as int]@);
        assert(all.skip(i as int).drop_first() =~= all.skip(i + 1));
        if let Some(v) = &es[i].attrs[0] {
            return Some(v.clone());
        }
        i += 1;
    }
    assert(all.skip(i as int).len() == 0);
    None
}

/// The ID of the row at `idx` (see [`row_id_spec`]).
fn row_id(html: &str, idx: usize, row: &HtmlElement) -> (r: Option<String>)
    requires
        row.attrs@.len() == 2,
    ensures
        opt_text(r) == row_id_spec(html@, idx as int, row@),
{
    if let Some(id) = &row.attrs[0] {
        return Some(id.clone());
    }
    if let Some(id) = &row.attrs[1] {
        return Some(id.clone());
    }
    let text = joined_text(&row.texts);
    if let Some(g) = extract_guid(text.as_str()) {
        return Some(g);
    }
    let value_names: [&str; 1] = ["value"];
    let inputs = select_within(html, "tr.iw-sauna-webgrid-row-style", idx, "input[type='hidden']", &value_names);
    proof {
        assert(names_view(value_names@) =~= seq!["value"@]);
    }
    match inputs {
        Some(es) => {
            match first_value_of(&es) {
                Some(v) => if is_guid(v.as_str()) { Some(v) } else { None },
                None => None,
            }
        },
        None => None,
    }
}

/// The first text node of `ts` whose trimmed text is usable and longer than two bytes.
fn first_text_name(ts: &Vec<String>) -> (r: Option<String>)
    ensures
        opt_text(r) == text_name(ts@.map_values(|t: String| t@)),
{
    let ghost all = ts@.map_values(|t: String| t@);
    let mut i: usize = 0;
    assert(all.skip(0) =~= all);
    while i < ts.len()
        invariant
            i <= ts@.len(),
            all == ts@.map_values(|t: String| t@),
            text_name(all) == text_name(all.skip(i as int)),
        decreases ts@.len() - i,
    {
        assert(all.skip(i as int)[0] == ts@[i as int]@);
        assert(all.skip(i as int).drop_first() =~= all.skip(i + 1));
        let t = trim_str(ts[i].as_str());
        if !t.is_empty() && !is_guid(t) && t.as_bytes().len() > 2 {
            return Some(to_owned_string(t));
        }
        i += 1;
    }
    assert(all.skip(i as int).len() == 0);
    None
}

/// The name of the sauna in the row at `idx` (see [`sauna_name_spec`]).
fn extract_sauna_name(html: &str, idx: usize, row: &HtmlElement) -> (r: Option<String>)
    ensures
        opt_text(r) == sauna_name_spec(html@, idx as int, row@),
{
    let selectors: [&str; 5] = ["td.sauna-name", "td:first-child", ".sauna-label", "label", "span.name"];
    let no_names: [&str; 0] = [];
    proof {
        assert(names_view(no_names@) =~= Seq::<Seq<char>>::empty());
    }
    let mut i: usize = 0;
    while i < 5
        invariant
            i <= 5,
            forall|k: int| 0 <= k < 5 ==> #[trigger] selectors@[k]@ == name_selector(k),
            names_view(no_names@) == Seq::<Seq<char>>::empty(),
            names_from(html@, idx as int, 0) == names_from(html@, idx as int, i as int),
        decreases 5 - i,
    {
        let found = select_within(html, "tr.iw-sauna-webgrid-row-style", idx, selectors[i], &no_names);
        if let Some(es) = found {
            if es.len() > 0 {
                let text = joined_text(&es[0].texts);
                let t = trim_str(text.as_str());
                if !t.is_empty() && !is_guid(t) {
                    return Some(to_owned_string(t));
                }
            }
        }
        i += 1;
    }
    first_text_name(&row.texts)
}

/// The sauna of an element with a sauna-id attribute (see [`alt_entry`]).
fn alt_sauna(e: &HtmlElement) -> (r: Option<SaunaInfo>)
    requires
        e.attrs@.len() == 3,
    ensures
        match r {
            Some(s) => alt_entry(e@) == Some(s@),
            None => alt_entry(e@) is None,
        },
{
    let id = if e.attrs[0].is_some() { e.attrs[0].clone() } else { e.attrs[1].clone() };
    let text = joined_text(&e.texts);
    let t = trim_str(text.as_str());
    let name = if t.is_empty() { e.attrs[2].clone() } else { Some(to_owned_string(t)) };
    match (id, name) {
        (Some(i), Some(n)) => if !n.as_str().is_empty() { Some(SaunaInfo { id: i, name: n }) } else { None },
        _ => None,
    }
}

/// Extract sauna information from the settings page that lists them.
pub fn extract_saunas_from_html(html: &str) -> (r: Result<Vec<SaunaInfo>, KlafsError>)
    ensures
        r matches Ok(v) && saunas_view(v@) == saunas_spec(html@),
{
    let row_names: [&str; 2] = ["data-sauna-id", "data-id"];
    let rows_found = select_elements(html, "tr.iw-sauna-webgrid-row-style", &row_names);
    proof {
        assert(names_view(row_names@) =~= seq!["data-sauna-id"@, "data-id"@]);
    }
    let rows = match rows_found {
        Some(v) => v,
        None => Vec::new(),
    };
    let ghost rv = elements_view(rows@);
    assert(rv == sauna_rows(html@));
    let mut saunas: Vec<SaunaInfo> = Vec::new();
    let mut idx: usize = 0;
    while idx < rows.len()
        invariant
            idx <= rows@.len(),
            rv == elements_view(rows@),
            rv == sauna_rows(html@),
            forall|i: int| 0 <= i < rows@.len() ==> (#[trigger] rows@[i]).attrs@.len() == 2,
            saunas_view(saunas@) == saunas_from_rows(html@, rv, idx as int),
        decreases rows@.len() - idx,
    {
        let row = &rows[idx];
        let id = row_id(html, idx, row);
        let name = extract_sauna_name(html, idx, row);
        assert(rv[idx as int] == row@);
        match (id, name) {
            (Some(id), Some(name)) => {
                let info = SaunaInfo { id, name };
                saunas.push(info);
                assert(saunas_view(saunas@) =~= saunas_from_rows(html@, rv, idx as int).push(info@));
            },
            _ => {},
        }
        idx += 1;
    }
    if saunas.len() == 0 {
        let alt_names: [&str; 3] = ["data-sauna-id", "data-saunaid", "title"];
        let alts_found = select_elements(html, "[data-sauna-id], [data-saunaid]", &alt_names);
        proof {
            assert(names_view(alt_names@) =~= seq!["data-sauna-id"@, "data-saunaid"@, "title"@]);
        }
        let alts = match alts_found {
            Some(v) => v,
            None => Vec::new(),
        };
        let ghost av = elements_view(alts@);
        assert(av == sauna_id_elements(html@));
        let mut k: usize = 0;
        while k < alts.len()
            invariant
                k <= alts@.len(),
                av == elements_view(alts@),
                forall|i: int| 0 <= i < alts@.len() ==> (#[trigger] alts@[i]).attrs@.len() == 3,
                saunas_view(saunas@) == saunas_from_alts(av, k as int),
            decreases alts@.len() - k,
        {
            assert(av[k as int] == alts@[k as int]@);
            match alt_sauna(&alts[k]) {
                Some(s) => {
                    saunas.push(s);
                    assert(saunas_view(saunas@) =~= saunas_from_alts(av, k as int).push(s@));
                },
                None => {},
            }
            k += 1;
        }
    }
    Ok(saunas)
}

} // verus!
