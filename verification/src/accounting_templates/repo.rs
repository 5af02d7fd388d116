//! Listing accounting templates page by page.
use vstd::prelude::*;

use crate::primitives::ids::AccountingTemplateId;

verus! {

/// Where a page of templates, listed by name, ends.
#[derive(Debug)]
pub struct TemplateCursor {
    pub id: AccountingTemplateId,
    pub name: String,
}

/// Which page of templates is asked for.
#[derive(Debug)]
pub struct PageQuery {
    pub first: usize,
    pub after: Option<TemplateCursor>,
}

/// A page of templates.
#[derive(Debug)]
pub struct Page<T> {
    pub entities: Vec<T>,
    pub has_next_page: bool,
    pub end_cursor: Option<TemplateCursor>,
}

/// Calls `PaginatedQueryArgs::default` of `es-entity`: the first hundred
/// entities, from the beginning.
#[verifier::external_body]
fn default_query() -> (res: PageQuery)
    ensures
        res == (PageQuery { first: 100, after: None }),
{
    let args = es_entity::PaginatedQueryArgs::<TemplateCursor>::default();
    PageQuery { first: args.first, after: args.after }
}

/// Calls `PaginatedQueryRet::into_next_query` of `es-entity`. Where there is a
/// next page, it asks for as many entities as the page holds when the call is
/// made, from the page's end on.
#[verifier::external_body]
fn into_next_query<T>(page: Page<T>) -> (res: Option<PageQuery>)
    ensures
        res == (if page.has_next_page {
            Some(PageQuery { first: page.entities.len(), after: page.end_cursor })
        } else {
            None
        }),
{
    let ret = es_entity::PaginatedQueryRet {
        entities: page.entities,
        has_next_page: page.has_next_page,
        end_cursor: page.end_cursor,
    };
    match ret.into_next_query() {
        Some(args) => Some(PageQuery { first: args.first, after: args.after }),
        None => None,
    }
}

/// A listing of all templates: those that were listed so far, and the page to
/// ask for next.
#[derive(Debug)]
pub struct ListAll<T> {
    pub templates: Vec<T>,
    pub next: Option<PageQuery>,
}

/// The value of a `ListAll`.
#[verifier::ext_equal]
pub struct ListAllView<T> {
    pub templates: Seq<T>,
    pub next: Option<PageQuery>,
}

impl<T> View for ListAll<T> {
    type V = ListAllView<T>;

    open spec fn view(&self) -> ListAllView<T> {
        ListAllView { templates: self.templates@, next: self.next }
    }
}

impl<T> ListAllView<T> {
    /// Nothing is listed yet, and the first page is asked for.
    pub open spec fn started() -> Self {
        ListAllView {
            templates: Seq::empty(),
            next: Some(PageQuery { first: 100, after: None }),
        }
    }

    /// The listing after its query was taken.
    pub open spec fn after_query(self) -> Self {
        ListAllView { next: None, ..self }
    }

    /// The listing with a page added.
    pub open spec fn after_page(self, page: Page<T>) -> Self {
        ListAllView {
            templates: self.templates + page.entities@,
            next: if page.has_next_page {
                Some(PageQuery { first: 0, after: page.end_cursor })
            } else {
                None
            },
        }
    }

    /// The listing after pages, each of them asked for and then added.
    pub open spec fn after_pages(self, pages: Seq<Page<T>>) -> Self
        decreases pages.len(),
    {
        if pages.len() == 0 {
            self
        } else {
            self.after_pages(pages.drop_last()).after_query().after_page(pages.last())
        }
    }
}

/// What the pages of a listing hold.
pub open spec fn entities_of<T>(pages: Seq<Page<T>>) -> Seq<Seq<T>> {
    pages.map_values(|page: Page<T>| page.entities@)
}

/// A listing holds the templates of all its pages, one page after the other.
/// It asks for another page exactly if the last one says that there is one,
/// and then from the end of the last one on.
pub proof fn listing_joins_its_pages<T>(pages: Seq<Page<T>>)
    ensures
        ({
            let listing = ListAllView::<T>::started().after_pages(pages);
            &&& listing.templates == entities_of(pages).flatten()
            &&& pages.len() == 0 ==> listing.next == Some(PageQuery { first: 100, after: None })
            &&& pages.len() > 0 ==> (listing.next is None <==> !pages.last().has_next_page)
            &&& pages.len() > 0 && pages.last().has_next_page ==> listing.next == Some(
                PageQuery { first: 0, after: pages.last().end_cursor },
            )
        }),
    decreases pages.len(),
{
    if pages.len() > 0 {
        let earlier = pages.drop_last();
        listing_joins_its_pages(earlier);
        entities_of(earlier).lemma_flatten_push(pages.last().entities@);
        assert(entities_of(pages) =~= entities_of(earlier).push(pages.last().entities@));
    }
}

/// A query is taken once, and taking it lists nothing.
pub proof fn query_is_taken_once<T>(listing: ListAllView<T>)
    ensures
        listing.after_query().next is None,
        listing.after_query().templates == listing.templates,
{
}

/// The stored accounting templates.
#[derive(Debug, Clone, Copy, PartialEq, Eq, Structural)]
pub struct AccountingTemplateRepo;

impl AccountingTemplateRepo {
    /// Lists all templates by name, in ascending order.
    pub fn list_all<T>(&self) -> (res: ListAll<T>)
        ensures
            res@ == ListAllView::<T>::started(),
    {
        ListAll { templates: Vec::new(), next: Some(default_query()) }
    }
}

impl<T> ListAll<T> {
    /// The page to ask for. It is asked for once.
    pub fn take_query(&mut self) -> (res: Option<PageQuery>)
        ensures
            res == old(self)@.next,
            final(self)@ == old(self)@.after_query(),
    {
        let mut taken: Option<PageQuery> = None;
        std::mem::swap(&mut self.next, &mut taken);
        taken
    }

    /// Adds the templates of a page to those that were listed. Where there is
    /// a next page, it is asked for from the page's end on. The templates have
    /// left the page by then, so the size that is asked for is that of an empty
    /// page.
    pub fn add_page(&mut self, page: Page<T>)
        ensures
            final(self)@ == old(self)@.after_page(page),
    {
        let mut page: Page<T> = page;
        self.templates.append(&mut page.entities);
        self.next = into_next_query(page);
    }
}

} // verus!
