//! The lunch pipeline: the building registry, the menu extractor, and the
//! markdown renderer.
use vstd::prelude::*;
use vstd::string::StrSliceExecFns;
use vstd::string::StringExecFns;

use crate::Markdown;
use crate::text::eq_ignore_case;
use crate::text::eq_ignore_case_seq;
use crate::text::trim_spec;
use crate::text::trim_str;

verus! {

/// The closed set of buildings whose lunch pages this library knows.
#[derive(Clone, Copy, Debug, PartialEq, Eq, Structural)]
pub enum Building {
    Aastvej,
    Multihuset,
    Havremarken,
    KIRKBI,
    Midtown,
    Kornmarken,
    Oestergade,
}

/// The identifier under which a building is addressed by callers.
pub open spec fn building_name(b: Building) -> Seq<char> {
    match b {
        Building::Aastvej => "aastvej"@,
        Building::Multihuset => "multihuset"@,
        Building::Havremarken => "havremarken"@,
        Building::KIRKBI => "kirkbi"@,
        Building::Midtown => "midtown"@,
        Building::Kornmarken => "kornmarken"@,
        Building::Oestergade => "oestergade"@,
    }
}

/// Identifier resolution: the building whose name `s` matches up to ASCII
/// case, or `None` for an unrecognized identifier.
pub open spec fn parse_building_spec(s: Seq<char>) -> Option<Building> {
    if eq_ignore_case_seq(s, building_name(Building::Aastvej)) {
        Some(Building::Aastvej)
    } else if eq_ignore_case_seq(s, building_name(Building::Multihuset)) {
        Some(Building::Multihuset)
    } else if eq_ignore_case_seq(s, building_name(Building::Havremarken)) {
        Some(Building::Havremarken)
    } else if eq_ignore_case_seq(s, building_name(Building::KIRKBI)) {
        Some(Building::KIRKBI)
    } else if eq_ignore_case_seq(s, building_name(Building::Midtown)) {
        Some(Building::Midtown)
    } else if eq_ignore_case_seq(s, building_name(Building::Kornmarken)) {
        Some(Building::Kornmarken)
    } else if eq_ignore_case_seq(s, building_name(Building::Oestergade)) {
        Some(Building::Oestergade)
    } else {
        None
    }
}

/// The fixed path segment under which the upstream host publishes a
/// building's menu page.
pub open spec fn segment_spec(b: Building) -> Seq<char> {
    match b {
        Building::Aastvej => "aastvej"@,
        Building::Multihuset => "multihuset"@,
        Building::Havremarken => "havremarken"@,
        Building::KIRKBI => "kloeverblomsten-kirkbi"@,
        Building::Midtown => "midtown"@,
        Building::Kornmarken => "kornmarken"@,
        Building::Oestergade => "kantine-oestergade"@,
    }
}

/// The fully qualified URL of a building's menu page.
pub open spec fn url_spec(b: Building) -> Seq<char> {
    "https://lego.isscatering.dk/"@ + segment_spec(b)
}

impl Building {
    /// Parse a building identifier, case-insensitively; `None` for an
    /// unrecognized one.
    pub fn parse(s: &str) -> (r: Option<Building>)
        ensures
            r == parse_building_spec(s@),
    {
        if eq_ignore_case(s, "aastvej") {
            Some(Building::Aastvej)
        } else if eq_ignore_case(s, "multihuset") {
            Some(Building::Multihuset)
        } else if eq_ignore_case(s, "havremarken") {
            Some(Building::Havremarken)
        } else if eq_ignore_case(s, "kirkbi") {
            Some(Building::KIRKBI)
        } else if eq_ignore_case(s, "midtown") {
            Some(Building::Midtown)
        } else if eq_ignore_case(s, "kornmarken") {
            Some(Building::Kornmarken)
        } else if eq_ignore_case(s, "oestergade") {
            Some(Building::Oestergade)
        } else {
            None
        }
    }

    /// The upstream path segment for this building.
    pub fn path_segment(&self) -> (r: String)
        ensures
            r@ == segment_spec(*self),
    {
        match self {
            Building::Aastvej => "aastvej".to_owned(),
            Building::Multihuset => "multihuset".to_owned(),
            Building::Havremarken => "havremarken".to_owned(),
            Building::KIRKBI => "kloeverblomsten-kirkbi".to_owned(),
            Building::Midtown => "midtown".to_owned(),
            Building::Kornmarken => "kornmarken".to_owned(),
            Building::Oestergade => "kantine-oestergade".to_owned(),
        }
    }

    /// Resolve this building to the URL its menu page is fetched from.
    pub fn resolve(&self) -> (r: String)
        ensures
            r@ == url_spec(*self),
    {
        let mut url = "https://lego.isscatering.dk/".to_owned();
        let segment = self.path_segment();
        url.append(segment.as_str());
        url
    }
}

/// One day's menu: the three fields extracted from a building's page.
#[derive(Debug)]
pub struct Lunch {
    pub varm_ret: String,
    pub vegetar: String,
    pub salat: String,
}

/// The mathematical value of a `Lunch`: its three fields as character
/// sequences.
pub struct LunchView {
    pub varm_ret: Seq<char>,
    pub vegetar: Seq<char>,
    pub salat: Seq<char>,
}

impl View for Lunch {
    type V = LunchView;

    open spec fn view(&self) -> LunchView {
        LunchView { varm_ret: self.varm_ret@, vegetar: self.vegetar@, salat: self.salat@ }
    }
}

/// How a request can fail: the upstream fetch, or the extraction of the menu
/// fields from the fetched page.
#[derive(Clone, Copy, Debug, PartialEq, Eq, Structural)]
pub enum LunchError {
    Fetch,
    Extraction,
}

/// The selector addressing the hot dish: the 2nd cell of the 2nd menu row.
pub open spec fn varm_ret_selector() -> Seq<char> {
    "div.menu-row:nth-child(2) > div:nth-child(2)"@
}

/// The selector addressing the vegetarian dish: the 2nd cell of the 4th row.
pub open spec fn vegetar_selector() -> Seq<char> {
    "div.menu-row:nth-child(4) > div:nth-child(2)"@
}

/// The selector addressing the salad: the 2nd cell of the 6th row.
pub open spec fn salat_selector() -> Seq<char> {
    "div.menu-row:nth-child(6) > div:nth-child(2)"@
}

/// The first text run of the first node that `selector` matches in the
/// document parsed from `page`, or `None` when there is no such text.
/// HTML parsing and selector matching are deterministic, so this is a
/// function of the two strings alone; `select_first_text` below says which
/// function it computes.
pub uninterp spec fn selected_text(page: Seq<char>, selector: Seq<char>) -> Option<Seq<char>>;

/// Relies on scraper's `Html::parse_document`, `Selector::parse`,
/// `Html::select` and `ElementRef::text`: parse the page (error-tolerantly,
/// never failing), take the first element matching `selector`, and return its
/// first text run. `None` when the selector matches no element, the matched
/// element holds no text, or `selector` is not a valid CSS selector.
#[verifier::external_body]
fn select_first_text(page: &str, selector: &str) -> (r: Option<String>)
    ensures
        match r {
            Some(t) => selected_text(page@, selector@) == Some(t@),
            None => selected_text(page@, selector@) is None,
        },
{
    let sel = match scraper::Selector::parse(selector) {
        Ok(sel) => sel,
        Err(_) => return None,
    };
    let html = scraper::Html::parse_document(page);
    let element = html.select(&sel).next()?;
    let text = element.text().next()?;
    Some(text.to_owned())
}

/// One extracted menu field: the trimmed first text run under the node that
/// `selector` addresses, or `None` when the node is absent or its text is
/// empty after trimming.
pub open spec fn menu_field(page: Seq<char>, selector: Seq<char>) -> Option<Seq<char>> {
    match selected_text(page, selector) {
        Some(t) => if trim_spec(t).len() > 0 {
            Some(trim_spec(t))
        } else {
            None
        },
        None => None,
    }
}

/// What extraction yields on `page`: the three trimmed menu fields, or `None`
/// when any of the three is missing or empty.
pub open spec fn scrape_spec(page: Seq<char>) -> Option<LunchView> {
    match (
        menu_field(page, varm_ret_selector()),
        menu_field(page, vegetar_selector()),
        menu_field(page, salat_selector()),
    ) {
        (Some(varm_ret), Some(vegetar), Some(salat)) => Some(
            LunchView { varm_ret, vegetar, salat },
        ),
        _ => None,
    }
}

/// Extract one field: locate the node, take its first text run, trim it, and
/// reject an empty result.
fn extract_field(page: &str, selector: &str) -> (r: Option<String>)
    ensures
        match r {
            Some(t) => menu_field(page@, selector@) == Some(t@),
            None => menu_field(page@, selector@) is None,
        },
{
    match select_first_text(page, selector) {
        Some(t) => {
            let trimmed = trim_str(t.as_str());
            if trimmed.as_str().unicode_len() > 0 {
                Some(trimmed)
            } else {
                None
            }
        },
        None => None,
    }
}

/// Extract the day's menu from a fetched page: the three fields addressed by
/// the fixed selectors, each trimmed, each required to be non-empty.
pub fn scrape_lunch(page: &str) -> (r: Result<Lunch, LunchError>)
    ensures
        match r {
            Ok(l) => scrape_spec(page@) == Some(l@),
            Err(e) => scrape_spec(page@) is None && e == LunchError::Extraction,
        },
{
    let varm_ret = match extract_field(page, "div.menu-row:nth-child(2) > div:nth-child(2)") {
        Some(t) => t,
        None => return Err(LunchError::Extraction),
    };
    let vegetar = match extract_field(page, "div.menu-row:nth-child(4) > div:nth-child(2)") {
        Some(t) => t,
        None => return Err(LunchError::Extraction),
    };
    let salat = match extract_field(page, "div.menu-row:nth-child(6) > div:nth-child(2)") {
        Some(t) => t,
        None => return Err(LunchError::Extraction),
    };
    Ok(Lunch { varm_ret, vegetar, salat })
}

/// The fixed markdown template with the three fields substituted verbatim.
pub open spec fn render_spec(varm_ret: Seq<char>, vegetar: Seq<char>, salat: Seq<char>) -> Seq<
    char,
> {
    "##### Varm ret\n  "@ + varm_ret + "\n##### Vegetar\n  "@ + vegetar + "\n##### Salat\n  "@
        + salat
}

/// Render a menu record as the fixed markdown document. Total: every record
/// renders, empty fields included, and the fields appear verbatim.
pub fn lunch_to_markdown(lunch: &Lunch) -> (r: Markdown)
    ensures
        r.0@ == render_spec(lunch.varm_ret@, lunch.vegetar@, lunch.salat@),
{
    let mut text = "##### Varm ret\n  ".to_owned();
    text.append(lunch.varm_ret.as_str());
    text.append("\n##### Vegetar\n  ");
    text.append(lunch.vegetar.as_str());
    text.append("\n##### Salat\n  ");
    text.append(lunch.salat.as_str());
    Markdown(text)
}

/// The whole per-page pipeline: extract the menu from a fetched page and
/// render it. Succeeds exactly when extraction does.
pub fn lunch_from_page(page: &str) -> (r: Result<Markdown, LunchError>)
    ensures
        match r {
            Ok(m) => match scrape_spec(page@) {
                Some(l) => m.0@ == render_spec(l.varm_ret, l.vegetar, l.salat),
                None => false,
            },
            Err(e) => scrape_spec(page@) is None && e == LunchError::Extraction,
        },
{
    match scrape_lunch(page) {
        Ok(lunch) => Ok(lunch_to_markdown(&lunch)),
        Err(e) => Err(e),
    }
}

/// Identifier resolution is case-insensitive: two identifiers that agree up
/// to ASCII case resolve to the same building (and hence to the same URL).
pub proof fn lemma_parse_case_insensitive(a: Seq<char>, b: Seq<char>)
    requires
        eq_ignore_case_seq(a, b),
    ensures
        parse_building_spec(a) == parse_building_spec(b),
        match (parse_building_spec(a), parse_building_spec(b)) {
            (Some(x), Some(y)) => url_spec(x) == url_spec(y),
            (None, None) => true,
            _ => false,
        },
{
    assert forall|n: Seq<char>| eq_ignore_case_seq(a, n) == eq_ignore_case_seq(b, n) by {
        if eq_ignore_case_seq(a, n) {
            assert(eq_ignore_case_seq(b, n));
        }
        if eq_ignore_case_seq(b, n) {
            assert(eq_ignore_case_seq(a, n));
        }
    }
}

} // verus!
