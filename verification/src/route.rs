//! The route dispatcher: which page a request path names, and which query
//! and template make that page.

use crate::row::{SqlCell, SqlValue};
use crate::text::same_text;
use vstd::prelude::*;

verus! {

/// Path of the home page.
pub const HOME_PATH: &'static str = "/";

/// Path of the about page.
pub const ABOUT_PATH: &'static str = "/about";

/// Path of the slider page.
pub const SLIDER_PATH: &'static str = "/lacasailpaese";

/// Template of the home page.
pub const HOME_TEMPLATE: &'static str = "index.html";

/// Template of the about page.
pub const ABOUT_TEMPLATE: &'static str = "about.html";

/// Template of the slider page.
pub const SLIDER_TEMPLATE: &'static str = "slider.html";

/// The links query. Rows come in the order of their `id`.
pub const LINKS_SQL: &'static str =
    "SELECT id,codice,img,titolo,descrizione,link,attivo,height,width FROM beb_links ORDER BY id";

/// The slider query, filtered by `codice2`. Rows come in the order of their
/// `id`.
pub const SLIDER_SQL: &'static str =
    "SELECT id, codice, codice2, img, titolo, caption, link, testo FROM beb_slider WHERE codice2 = :codice ORDER BY id";

/// Name of the one parameter of the slider query.
pub const SLIDER_PARAMETER: &'static str = ":codice";

/// The key that the slider page filters by.
pub const SLIDER_KEY: &'static str = "lasala";

/// Name under which every page binds its records.
pub const RECORDS_VARIABLE: &'static str = "links";

/// A page that the site serves.
#[derive(Debug, Clone, Copy, PartialEq, Eq, Structural)]
pub enum Page {
    Home,
    About,
    Slider,
}

/// The record shape that a page lists.
#[derive(Debug, Clone, Copy, PartialEq, Eq, Structural)]
pub enum RecordShape {
    Link,
    Slider,
}

/// One named parameter of a statement.
#[derive(Debug)]
pub struct NamedParameter {
    pub name: &'static str,
    pub value: SqlValue,
}

/// What a page is made of: one statement with its parameters, the shape of
/// the records that its rows become, and the template that lists them.
#[derive(Debug)]
pub struct PagePlan {
    pub sql: &'static str,
    pub parameters: Vec<NamedParameter>,
    pub shape: RecordShape,
    pub template: &'static str,
}

/// The page that a request path names, if any.
pub open spec fn page_of_path(path: Seq<char>) -> Option<Page> {
    if path == HOME_PATH@ {
        Some(Page::Home)
    } else if path == ABOUT_PATH@ {
        Some(Page::About)
    } else if path == SLIDER_PATH@ {
        Some(Page::Slider)
    } else {
        None
    }
}

/// The path under which a page is served.
pub open spec fn path_of_page(page: Page) -> Seq<char> {
    match page {
        Page::Home => HOME_PATH@,
        Page::About => ABOUT_PATH@,
        Page::Slider => SLIDER_PATH@,
    }
}

/// The statement of a page.
pub open spec fn sql_of_page(page: Page) -> Seq<char> {
    match page {
        Page::Home | Page::About => LINKS_SQL@,
        Page::Slider => SLIDER_SQL@,
    }
}

/// The parameters of a page's statement: name and value, in order.
pub open spec fn parameters_of_page(page: Page) -> Seq<(Seq<char>, SqlCell)> {
    match page {
        Page::Home | Page::About => seq![],
        Page::Slider => seq![(SLIDER_PARAMETER@, SqlCell::Text(SLIDER_KEY@))],
    }
}

/// The shape of the records of a page.
pub open spec fn shape_of_page(page: Page) -> RecordShape {
    match page {
        Page::Home | Page::About => RecordShape::Link,
        Page::Slider => RecordShape::Slider,
    }
}

/// The template of a page.
pub open spec fn template_of_page(page: Page) -> Seq<char> {
    match page {
        Page::Home => HOME_TEMPLATE@,
        Page::About => ABOUT_TEMPLATE@,
        Page::Slider => SLIDER_TEMPLATE@,
    }
}

/// Name and value of each parameter of a plan.
pub open spec fn parameter_views(parameters: Seq<NamedParameter>) -> Seq<(Seq<char>, SqlCell)> {
    Seq::new(parameters.len(), |i: int| (parameters[i].name@, parameters[i].value@))
}

impl Page {
    /// The path under which the page is served.
    pub fn path(self) -> (p: &'static str)
        ensures
            p@ == path_of_page(self),
    {
        match self {
            Page::Home => HOME_PATH,
            Page::About => ABOUT_PATH,
            Page::Slider => SLIDER_PATH,
        }
    }

    /// The statement, record shape and template of the page.
    pub fn plan(self) -> (plan: PagePlan)
        ensures
            plan.sql@ == sql_of_page(self),
            parameter_views(plan.parameters@) == parameters_of_page(self),
            plan.shape == shape_of_page(self),
            plan.template@ == template_of_page(self),
    {
        match self {
            Page::Home => {
                let plan = PagePlan {
                    sql: LINKS_SQL,
                    parameters: Vec::new(),
                    shape: RecordShape::Link,
                    template: HOME_TEMPLATE,
                };
                assert(parameter_views(plan.parameters@) =~= parameters_of_page(self));
                plan
            },
            Page::About => {
                let plan = PagePlan {
                    sql: LINKS_SQL,
                    parameters: Vec::new(),
                    shape: RecordShape::Link,
                    template: ABOUT_TEMPLATE,
                };
                assert(parameter_views(plan.parameters@) =~= parameters_of_page(self));
                plan
            },
            Page::Slider => {
                let mut parameters: Vec<NamedParameter> = Vec::new();
                parameters.push(
                    NamedParameter {
                        name: SLIDER_PARAMETER,
                        value: SqlValue::Text(SLIDER_KEY.to_owned()),
                    },
                );
                let plan = PagePlan {
                    sql: SLIDER_SQL,
                    parameters,
                    shape: RecordShape::Slider,
                    template: SLIDER_TEMPLATE,
                };
                assert(parameter_views(plan.parameters@) =~= parameters_of_page(self));
                plan
            },
        }
    }
}

/// Maps a request path to the page it names. Every path but the three page
/// paths names none.
pub fn route(path: &str) -> (page: Option<Page>)
    ensures
        page == page_of_path(path@),
{
    if same_text(path, HOME_PATH) {
        Some(Page::Home)
    } else if same_text(path, ABOUT_PATH) {
        Some(Page::About)
    } else if same_text(path, SLIDER_PATH) {
        Some(Page::Slider)
    } else {
        None
    }
}

/// `needle` stands somewhere in `text`.
pub open spec fn occurs_in(needle: Seq<char>, text: Seq<char>) -> bool {
    exists|i: int|
        0 <= i && i + needle.len() <= text.len() && #[trigger] text.subrange(
            i,
            i + needle.len(),
        ) == needle
}

/// The name of every parameter of a page is a placeholder in the page's
/// statement.
pub proof fn lemma_parameters_are_placeholders(page: Page, k: int)
    requires
        0 <= k < parameters_of_page(page).len(),
    ensures
        occurs_in(parameters_of_page(page)[k].0, sql_of_page(page)),
{
    reveal_strlit(":codice");
    reveal_strlit(
        "SELECT id, codice, codice2, img, titolo, caption, link, testo FROM beb_slider WHERE codice2 = :codice ORDER BY id",
    );
    assert(page == Page::Slider);
    assert(k == 0);
    assert(parameters_of_page(page)[0].0 == SLIDER_PARAMETER@);
    assert(SLIDER_PARAMETER@.len() == 7);
    assert(SLIDER_SQL@.len() == 113);
    let at: int = 94;
    assert(SLIDER_SQL@.subrange(at, at + SLIDER_PARAMETER@.len()) =~= SLIDER_PARAMETER@);
}

/// Each page is the one that its own path names: no two pages share a path.
pub proof fn lemma_route_of_path(page: Page)
    ensures
        page_of_path(path_of_page(page)) == Some(page),
{
    reveal_strlit("/");
    reveal_strlit("/about");
    reveal_strlit("/lacasailpaese");
    assert(HOME_PATH@.len() == 1);
    assert(ABOUT_PATH@.len() == 6);
    assert(SLIDER_PATH@.len() == 14);
}

} // verus!
