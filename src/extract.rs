use vstd::prelude::*;

verus! {

/// scraper's parsed document, carried opaque inside [`Document`].
#[verifier::external_type_specification]
#[verifier::external_body]
pub struct ExHtml(scraper::Html);

/// Whether the CSS selector text is accepted by the selector parser.
pub uninterp spec fn selector_valid(selector: Seq<char>) -> bool;

/// The inner HTML of every element of the parsed document `html` that
/// `selector` matches, in document order.
pub uninterp spec fn inner_html_of(html: Seq<char>, selector: Seq<char>) -> Seq<Seq<char>>;

/// The value of attribute `attr` on every element of the parsed document
/// `html` that `selector` matches, in document order (absent where the
/// element has no such attribute).
pub uninterp spec fn attr_values_of(html: Seq<char>, selector: Seq<char>, attr: Seq<char>) -> Seq<
    Option<Seq<char>>,
>;

/// Why a page could not be read as the report expects.
#[derive(Debug, Clone, Copy, PartialEq, Eq, Structural)]
pub enum ScrapeError {
    /// The selector text is not a valid CSS selector.
    InvalidSelector,
    /// A matched element lacks the requested attribute.
    MissingAttribute,
    /// An element the page must hold was not found.
    MissingNode,
    /// A page below the top level could not be fetched.
    Unreachable,
}

/// A parsed HTML page together with the text it was parsed from. Its only
/// constructor is [`Document::parse`], so `tree` is always the parse of
/// `source`: the selection wrappers below state their results over `source`.
pub struct Document {
    source: String,
    tree: scraper::Html,
}

/// Relies on scraper::Html::parse_document: lenient parsing that never fails.
#[verifier::external_body]
fn parse_tree(text: &str) -> scraper::Html {
    scraper::Html::parse_document(text)
}

/// Relies on scraper::Selector::parse, scraper::Html::select and
/// ElementRef::inner_html: the selector is compiled (failing exactly on
/// invalid selector text), then the inner HTML of each match is taken, in
/// document order.
#[verifier::external_body]
fn select_inner_html(doc: &Document, selector: &str) -> (r: Option<Vec<String>>)
    ensures
        r is Some <==> selector_valid(selector@),
        r matches Some(v) ==> v.deep_view() == inner_html_of(doc.source(), selector@),
{
    let compiled = scraper::Selector::parse(selector).ok()?;
    Some(doc.tree.select(&compiled).map(|e| e.inner_html()).collect())
}

/// Relies on scraper::Selector::parse, scraper::Html::select and
/// Element::attr: the selector is compiled (failing exactly on invalid
/// selector text), then attribute `attr` of each match is taken, in document
/// order.
#[verifier::external_body]
fn select_attr(doc: &Document, selector: &str, attr: &str) -> (r: Option<Vec<Option<String>>>)
    ensures
        r is Some <==> selector_valid(selector@),
        r matches Some(v) ==> v.deep_view() == attr_values_of(doc.source(), selector@, attr@),
{
    let compiled = scraper::Selector::parse(selector).ok()?;
    Some(doc.tree.select(&compiled).map(|e| e.value().attr(attr).map(|a| a.to_string())).collect())
}

impl Document {
    /// The text the page was parsed from.
    pub closed spec fn source(&self) -> Seq<char> {
        self.source@
    }

    /// Parses page text; malformed markup is parsed as far as it goes.
    pub fn parse(text: &str) -> (r: Document)
        ensures
            r.source() == text@,
    {
        Document { source: text.to_string(), tree: parse_tree(text) }
    }
}

/// The inner HTML of every element that `selector` matches, in document order.
pub fn html_nodes(doc: &Document, selector: &str) -> (r: Result<Vec<String>, ScrapeError>)
    ensures
        r is Ok <==> selector_valid(selector@),
        r matches Ok(v) ==> v.deep_view() == inner_html_of(doc.source(), selector@),
        r matches Err(e) ==> e == ScrapeError::InvalidSelector,
{
    match select_inner_html(doc, selector) {
        Some(v) => Ok(v),
        None => Err(ScrapeError::InvalidSelector),
    }
}

/// True when every matched element carries the attribute.
pub open spec fn all_present(values: Seq<Option<Seq<char>>>) -> bool {
    forall|i: int| 0 <= i < values.len() ==> (#[trigger] values[i]) is Some
}

/// The attribute values of the matched elements, all present.
pub open spec fn unwrap_all(values: Seq<Option<Seq<char>>>) -> Seq<Seq<char>> {
    values.map_values(|o: Option<Seq<char>>| o->0)
}

/// The value of attribute `attr` on every element that `selector` matches, in
/// document order; an error where some matched element lacks it.
pub fn html_nodes_attr(doc: &Document, selector: &str, attr: &str) -> (r: Result<
    Vec<String>,
    ScrapeError,
>)
    ensures
        !selector_valid(selector@) ==> r == Err::<Vec<String>, ScrapeError>(
            ScrapeError::InvalidSelector,
        ),
        selector_valid(selector@) ==> {
            let values = attr_values_of(doc.source(), selector@, attr@);
            &&& (r is Ok <==> all_present(values))
            &&& r matches Ok(v) ==> v.deep_view() == unwrap_all(values)
            &&& r matches Err(e) ==> e == ScrapeError::MissingAttribute
        },
{
    let found = match select_attr(doc, selector, attr) {
        Some(v) => v,
        None => {
            return Err(ScrapeError::InvalidSelector);
        },
    };
    let ghost values = attr_values_of(doc.source(), selector@, attr@);
    let mut out: Vec<String> = Vec::new();
    let mut i: usize = 0;
    while i < found.len()
        invariant
            found.deep_view() == values,
            values == attr_values_of(doc.source(), selector@, attr@),
            selector_valid(selector@),
            i <= found.len(),
            out.deep_view() == unwrap_all(values.take(i as int)),
            all_present(values.take(i as int)),
        decreases found.len() - i,
    {
        match &found[i] {
            Some(a) => {
                let c = a.clone();
                assert(found.deep_view()[i as int] == found@[i as int].deep_view());
                assert(c@ == values[i as int]->0);
                let ghost before = out.deep_view();
                out.push(c);
                assert(out.deep_view() =~= before.push(c@));
            },
            None => {
                assert(found.deep_view()[i as int] == found@[i as int].deep_view());
                assert(values[i as int] is None);
                assert(!all_present(values));
                return Err(ScrapeError::MissingAttribute);
            },
        }
        proof {
            assert(values.take(i as int + 1) =~= values.take(i as int).push(values[i as int]));
            assert(out.deep_view() =~= unwrap_all(values.take(i as int + 1)));
        }
        i = i + 1;
    }
    proof {
        assert(values.take(i as int) =~= values);
    }
    Ok(out)
}

} // verus!
