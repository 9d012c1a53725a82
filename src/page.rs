//! Typed model of the page objects that the service returns. Every field
//! is optional: an absent or null member is `None`.

use vstd::prelude::*;

verus! {

/// `text` member of a rich-text item.
#[derive(Debug, Clone)]
pub struct TextContent {
    pub content: Option<String>,
}

/// One item of a title or rich-text array.
#[derive(Debug, Clone)]
pub struct RichText {
    pub text: Option<TextContent>,
}

/// A named option: the value of a status or select property, or one item
/// of a multi-select property.
#[derive(Debug, Clone)]
pub struct NamedOption {
    pub name: Option<String>,
}

/// Value of a date property.
#[derive(Debug, Clone)]
pub struct DateValue {
    pub start: Option<String>,
}

/// The `Name` property.
#[derive(Debug, Clone)]
pub struct TitleProperty {
    pub title: Option<Vec<RichText>>,
}

/// The `Status` property.
#[derive(Debug, Clone)]
pub struct StatusProperty {
    pub status: Option<NamedOption>,
}

/// The `Priority` property.
#[derive(Debug, Clone)]
pub struct SelectProperty {
    pub select: Option<NamedOption>,
}

/// The `Due Date` property.
#[derive(Debug, Clone)]
pub struct DateProperty {
    pub date: Option<DateValue>,
}

/// The `Tags` property.
#[derive(Debug, Clone)]
pub struct MultiSelectProperty {
    pub multi_select: Option<Vec<NamedOption>>,
}

/// The `Description` property.
#[derive(Debug, Clone)]
pub struct RichTextProperty {
    pub rich_text: Option<Vec<RichText>>,
}

/// The properties of a page that tasks use.
#[derive(Debug, Clone)]
pub struct PageProperties {
    pub name: Option<TitleProperty>,
    pub status: Option<StatusProperty>,
    pub priority: Option<SelectProperty>,
    pub due_date: Option<DateProperty>,
    pub tags: Option<MultiSelectProperty>,
    pub description: Option<RichTextProperty>,
}

/// A page object.
#[derive(Debug, Clone)]
pub struct Page {
    pub id: Option<String>,
    pub url: Option<String>,
    pub properties: Option<PageProperties>,
}

/// The answer to a database query.
#[derive(Debug, Clone)]
pub struct QueryResponse {
    pub results: Option<Vec<Page>>,
}

/// View of an optional string.
pub open spec fn opt_view(o: Option<String>) -> Option<Seq<char>> {
    match o {
        Some(s) => Some(s@),
        None => None,
    }
}

/// Text content of the first item of a rich-text array.
pub open spec fn first_text(items: Option<Vec<RichText>>) -> Option<Seq<char>> {
    match items {
        Some(v) => if v@.len() > 0 {
            match v@[0].text {
                Some(t) => opt_view(t.content),
                None => None,
            }
        } else {
            None
        },
        None => None,
    }
}

/// The names of the items that have one, in order.
pub open spec fn option_names(items: Seq<NamedOption>) -> Seq<Seq<char>>
    decreases items.len(),
{
    if items.len() == 0 {
        Seq::empty()
    } else {
        let front = option_names(items.drop_last());
        match items.last().name {
            Some(n) => front.push(n@),
            None => front,
        }
    }
}

/// The page has a non-empty identifier.
pub open spec fn has_id(p: Page) -> bool {
    p.id is Some && p.id->Some_0@.len() > 0
}

/// First text of the title property.
pub open spec fn title_text(p: Page) -> Option<Seq<char>> {
    match p.properties {
        Some(ps) => match ps.name {
            Some(t) => first_text(t.title),
            None => None,
        },
        None => None,
    }
}

/// Name in the status property.
pub open spec fn status_text(p: Page) -> Option<Seq<char>> {
    match p.properties {
        Some(ps) => match ps.status {
            Some(s) => match s.status {
                Some(o) => opt_view(o.name),
                None => None,
            },
            None => None,
        },
        None => None,
    }
}

/// Name in the priority property.
pub open spec fn priority_text(p: Page) -> Option<Seq<char>> {
    match p.properties {
        Some(ps) => match ps.priority {
            Some(s) => match s.select {
                Some(o) => opt_view(o.name),
                None => None,
            },
            None => None,
        },
        None => None,
    }
}

/// Start of the due-date property.
pub open spec fn due_date_text(p: Page) -> Option<Seq<char>> {
    match p.properties {
        Some(ps) => match ps.due_date {
            Some(d) => match d.date {
                Some(v) => opt_view(v.start),
                None => None,
            },
            None => None,
        },
        None => None,
    }
}

/// Names in the tags property, in order; none where it is absent.
pub open spec fn tag_texts(p: Page) -> Seq<Seq<char>> {
    match p.properties {
        Some(ps) => match ps.tags {
            Some(t) => match t.multi_select {
                Some(v) => option_names(v@),
                None => Seq::empty(),
            },
            None => Seq::empty(),
        },
        None => Seq::empty(),
    }
}

/// First text of the description property.
pub open spec fn description_text(p: Page) -> Option<Seq<char>> {
    match p.properties {
        Some(ps) => match ps.description {
            Some(d) => first_text(d.rich_text),
            None => None,
        },
        None => None,
    }
}

/// A copy of an optional string.
pub fn copy_opt(o: &Option<String>) -> (r: Option<String>)
    ensures
        opt_view(r) == opt_view(*o),
{
    match o {
        Some(s) => Some(s.clone()),
        None => None,
    }
}

/// Text content of the first item of a rich-text array.
fn first_text_of(items: &Option<Vec<RichText>>) -> (r: Option<String>)
    ensures
        opt_view(r) == first_text(*items),
{
    match items {
        Some(v) => if v.len() > 0 {
            match &v[0].text {
                Some(t) => copy_opt(&t.content),
                None => None,
            }
        } else {
            None
        },
        None => None,
    }
}

/// The names of the items that have one, in order.
fn names_of(items: &Vec<NamedOption>) -> (r: Vec<String>)
    ensures
        r@.map_values(|s: String| s@) == option_names(items@),
{
    let mut out: Vec<String> = Vec::new();
    let mut i: usize = 0;
    while i < items.len()
        invariant
            i <= items@.len(),
            out@.map_values(|s: String| s@) == option_names(items@.take(i as int)),
        decreases items@.len() - i,
    {
        proof {
            assert(items@.take(i + 1).drop_last() =~= items@.take(i as int));
            assert(items@.take(i + 1).last() == items@[i as int]);
        }
        match &items[i].name {
            Some(n) => {
                out.push(n.clone());
                proof {
                    assert(out@.map_values(|s: String| s@) =~= option_names(
                        items@.take(i as int),
                    ).push(n@));
                }
            },
            None => {},
        }
        i = i + 1;
    }
    proof {
        assert(items@.take(items@.len() as int) =~= items@);
    }
    out
}

impl Page {
    /// First text of the title property.
    pub fn title_text(&self) -> (r: Option<String>)
        ensures
            opt_view(r) == title_text(*self),
    {
        match &self.properties {
            Some(ps) => match &ps.name {
                Some(t) => first_text_of(&t.title),
                None => None,
            },
            None => None,
        }
    }

    /// Name in the status property.
    pub fn status_text(&self) -> (r: Option<String>)
        ensures
            opt_view(r) == status_text(*self),
    {
        match &self.properties {
            Some(ps) => match &ps.status {
                Some(s) => match &s.status {
                    Some(o) => copy_opt(&o.name),
                    None => None,
                },
                None => None,
            },
            None => None,
        }
    }

    /// Name in the priority property.
    pub fn priority_text(&self) -> (r: Option<String>)
        ensures
            opt_view(r) == priority_text(*self),
    {
        match &self.properties {
            Some(ps) => match &ps.priority {
                Some(s) => match &s.select {
                    Some(o) => copy_opt(&o.name),
                    None => None,
                },
                None => None,
            },
            None => None,
        }
    }

    /// Start of the due-date property.
    pub fn due_date_text(&self) -> (r: Option<String>)
        ensures
            opt_view(r) == due_date_text(*self),
    {
        match &self.properties {
            Some(ps) => match &ps.due_date {
                Some(d) => match &d.date {
                    Some(v) => copy_opt(&v.start),
                    None => None,
                },
                None => None,
            },
            None => None,
        }
    }

    /// Names in the tags property, in order.
    pub fn tag_texts(&self) -> (r: Vec<String>)
        ensures
            r@.map_values(|s: String| s@) == tag_texts(*self),
    {
        match &self.properties {
            Some(ps) => match &ps.tags {
                Some(t) => match &t.multi_select {
                    Some(v) => names_of(v),
                    None => Vec::new(),
                },
                None => Vec::new(),
            },
            None => Vec::new(),
        }
    }

    /// First text of the description property.
    pub fn description_text(&self) -> (r: Option<String>)
        ensures
            opt_view(r) == description_text(*self),
    {
        match &self.properties {
            Some(ps) => match &ps.description {
                Some(d) => first_text_of(&d.rich_text),
                None => None,
            },
            None => None,
        }
    }
}

} // verus!
