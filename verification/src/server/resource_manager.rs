//! The resources of a server, and the templates for them.
use vstd::prelude::*;

use crate::error::McpError;
use crate::json;
use crate::json::JsonView;
use crate::server::paging;
use crate::string_map;
use crate::string_map::StringMap;
use crate::text;
use crate::types::config::DEFAULT_RESOURCES_PAGE_SIZE;
use crate::types::resources::{
    ListResourceTemplatesResult, ListResourcesResult, ResourceInfo, ResourceTemplate,
};
use crate::wire;
use crate::wire::Wire;

verus! {

/// A resource of a server. `H` is what runs when it is read.
#[derive(Clone)]
pub struct ResourceEntry<H> {
    pub info: ResourceInfo,
    pub handler: H,
}

/// The resources of a server, by where they are found, and the templates, by their
/// texts.
pub struct ResourceManager<H> {
    overwrite: bool,
    resources: StringMap<ResourceEntry<H>>,
    templates: StringMap<ResourceTemplate>,
    page_size: usize,
}

impl<H> ResourceManager<H> {
    /// The resources.
    pub closed spec fn view(&self) -> Map<Seq<char>, ResourceEntry<H>> {
        self.resources@
    }

    /// Where the resources are found, in increasing order.
    pub closed spec fn order(&self) -> Seq<Seq<char>> {
        self.resources.order()
    }

    /// The templates.
    pub closed spec fn forms(&self) -> Map<Seq<char>, ResourceTemplate> {
        self.templates@
    }

    /// The texts of the templates, in increasing order.
    pub closed spec fn form_order(&self) -> Seq<Seq<char>> {
        self.templates.order()
    }

    /// Whether an entry may take the place of another.
    pub closed spec fn may_overwrite(&self) -> bool {
        self.overwrite
    }

    /// How many resources a page holds.
    pub closed spec fn size(&self) -> usize {
        self.page_size
    }

    /// The same but for the resources.
    pub open spec fn keeps_forms(&self, other: &Self) -> bool {
        self.forms() == other.forms() && self.may_overwrite() == other.may_overwrite()
            && self.size() == other.size()
    }

    /// The same but for the templates.
    pub open spec fn keeps_resources(&self, other: &Self) -> bool {
        self@ == other@ && self.may_overwrite() == other.may_overwrite() && self.size()
            == other.size()
    }

    /// Nothing yet.
    pub fn new(overwrite: bool, page_size: usize) -> (r: Self)
        ensures
            r@ == Map::<Seq<char>, ResourceEntry<H>>::empty(),
            r.forms() == Map::<Seq<char>, ResourceTemplate>::empty(),
            r.may_overwrite() == overwrite,
            r.size() == page_size,
    {
        ResourceManager {
            overwrite,
            resources: StringMap::new(),
            templates: StringMap::new(),
            page_size,
        }
    }

    /// Sets how many resources a page holds.
    pub fn set_page_size(&mut self, page_size: usize)
        ensures
            final(self)@ == old(self)@,
            final(self).forms() == old(self).forms(),
            final(self).may_overwrite() == old(self).may_overwrite(),
            final(self).size() == page_size,
    {
        self.page_size = page_size;
    }

    /// How many resources there are.
    pub fn len(&self) -> (r: usize)
        ensures
            r == self@.dom().len(),
            self@.dom().finite(),
            r == self.order().len(),
            string_map::increasing(self.order()),
            self.order().to_set() == self@.dom(),
    {
        self.resources.len()
    }

    /// Tells whether there are no resources.
    pub fn is_empty(&self) -> (r: bool)
        ensures
            r == (self@.dom().len() == 0),
            self@.dom().finite(),
    {
        self.resources.is_empty()
    }

    /// Adds a resource, of which must be said where it is found and how it is named.
    pub fn add_resource(&mut self, resource: ResourceInfo, handler: H) -> (r: Result<(), McpError>)
        ensures
            final(self).keeps_forms(&*old(self)),
            r is Err <==> resource.uri@.len() == 0 || resource.name@.len() == 0 || (old(
                self,
            )@.dom().contains(resource.uri@) && !old(self).may_overwrite()),
            match r {
                Ok(()) => final(self)@ == old(self)@.insert(
                    resource.uri@,
                    ResourceEntry { info: resource, handler },
                ),
                Err(e) => final(self)@ == old(self)@ && if resource.uri@.len() == 0 {
                    e.faults_argument("Resource URI cannot be empty"@)
                } else if resource.name@.len() == 0 {
                    e.faults_argument("Resource name cannot be empty"@)
                } else {
                    e.faults_state("Resource '"@ + resource.uri@ + "' already exists"@)
                },
            },
    {
        if resource.uri.as_str().is_empty() {
            return Err(McpError::argument("Resource URI cannot be empty".to_owned()));
        }
        if resource.name.as_str().is_empty() {
            return Err(McpError::argument("Resource name cannot be empty".to_owned()));
        }
        if !self.overwrite && self.resources.contains_key(resource.uri.as_str()) {
            return Err(
                McpError::state(
                    text::cat3("Resource '", resource.uri.as_str(), "' already exists"),
                ),
            );
        }
        let uri = resource.uri.clone();
        let _ = self.resources.insert(uri, ResourceEntry { info: resource, handler });
        Ok(())
    }

    /// Takes out a resource.
    pub fn remove_resource(&mut self, uri: &str) -> (r: Result<(), McpError>)
        ensures
            final(self).keeps_forms(&*old(self)),
            final(self)@ == if r is Ok {
                old(self)@.remove(uri@)
            } else {
                old(self)@
            },
            match r {
                Ok(()) => uri@.len() > 0 && old(self)@.dom().contains(uri@),
                Err(e) => if uri@.len() == 0 {
                    e.faults_argument("Resource URI cannot be empty"@)
                } else {
                    !old(self)@.dom().contains(uri@) && e.faults_state(
                        "Resource '"@ + uri@ + "' not found"@,
                    )
                },
            },
    {
        if uri.is_empty() {
            return Err(McpError::argument("Resource URI cannot be empty".to_owned()));
        }
        match self.resources.remove(uri) {
            Some(_) => Ok(()),
            None => {
                assert(old(self)@.remove(uri@) =~= old(self)@);
                Err(McpError::state(text::cat3("Resource '", uri, "' not found")))
            },
        }
    }

    /// Adds a template, which must have a text and a name.
    pub fn add_resource_template(&mut self, template: ResourceTemplate) -> (r: Result<(), McpError>)
        ensures
            final(self).keeps_resources(&*old(self)),
            r is Err <==> template.uri_template@.len() == 0 || template.name@.len() == 0 || (old(
                self,
            ).forms().dom().contains(template.uri_template@) && !old(self).may_overwrite()),
            match r {
                Ok(()) => final(self).forms() == old(self).forms().insert(
                    template.uri_template@,
                    template,
                ),
                Err(e) => final(self).forms() == old(self).forms() && if template.uri_template@.len()
                    == 0 {
                    e.faults_argument("Resource template URI cannot be empty"@)
                } else if template.name@.len() == 0 {
                    e.faults_argument("Resource template name cannot be empty"@)
                } else {
                    e.faults_state(
                        "Resource template '"@ + template.uri_template@ + "' already exists"@,
                    )
                },
            },
    {
        if template.uri_template.as_str().is_empty() {
            return Err(McpError::argument("Resource template URI cannot be empty".to_owned()));
        }
        if template.name.as_str().is_empty() {
            return Err(McpError::argument("Resource template name cannot be empty".to_owned()));
        }
        if !self.overwrite && self.templates.contains_key(template.uri_template.as_str()) {
            return Err(
                McpError::state(
                    text::cat3(
                        "Resource template '",
                        template.uri_template.as_str(),
                        "' already exists",
                    ),
                ),
            );
        }
        let uri = template.uri_template.clone();
        let _ = self.templates.insert(uri, template);
        Ok(())
    }

    /// Takes out a template.
    pub fn remove_resource_template(&mut self, uri_template: &str) -> (r: Result<(), McpError>)
        ensures
            final(self).keeps_resources(&*old(self)),
            final(self).forms() == if r is Ok {
                old(self).forms().remove(uri_template@)
            } else {
                old(self).forms()
            },
            match r {
                Ok(()) => uri_template@.len() > 0 && old(self).forms().dom().contains(
                    uri_template@,
                ),
                Err(e) => if uri_template@.len() == 0 {
                    e.faults_argument("Resource template URI cannot be empty"@)
                } else {
                    !old(self).forms().dom().contains(uri_template@) && e.faults_state(
                        "Resource template '"@ + uri_template@ + "' not found"@,
                    )
                },
            },
    {
        if uri_template.is_empty() {
            return Err(McpError::argument("Resource template URI cannot be empty".to_owned()));
        }
        match self.templates.remove(uri_template) {
            Some(_) => Ok(()),
            None => {
                assert(old(self).forms().remove(uri_template@) =~= old(self).forms());
                Err(McpError::state(text::cat3("Resource template '", uri_template, "' not found")))
            },
        }
    }

    /// A result lists the page of the resources that belongs to a cursor.
    pub open spec fn shows(&self, cursor: Option<Seq<char>>, r: ListResourcesResult) -> bool {
        let len = self.order().len() as int;
        let start = paging::page_start(cursor, len);
        let end = paging::page_end(start, self.size() as int, len);
        &&& string_map::increasing(self.order())
        &&& self.order().to_set() == self@.dom()
        &&& r.resources@.len() == end - start
        &&& forall|i: int|
            0 <= i < r.resources@.len() ==> (#[trigger] r.resources@[i]).wire()
                == self@[self.order()[start + i]].info.wire()
        &&& wire::opt(r.next_cursor) == match paging::next_cursor(end, len) {
            Some(c) => Some(JsonView::String(c)),
            None => None,
        }
        &&& r.meta is None
    }

    /// One page of the resources, in the order of where they are found.
    pub fn list_resources(&self, cursor: Option<&str>) -> (r: ListResourcesResult)
        ensures
            self.shows(paging::cursor_text(cursor), r),
    {
        let len: usize = self.resources.len();
        let start: usize = paging::cursor_start(cursor, len);
        let end: usize = paging::cursor_end(start, self.page_size, len);
        let mut resources: Vec<ResourceInfo> = Vec::new();
        let mut i: usize = start;
        while i < end
            invariant
                start <= i <= end <= len,
                len == self.order().len(),
                resources@.len() == i - start,
                forall|k: int|
                    0 <= k < resources@.len() ==> (#[trigger] resources@[k]).wire()
                        == self@[self.order()[start + k]].info.wire(),
            decreases end - i,
        {
            let x = self.resources.value_at(i).info.duplicate();
            resources.push(x);
            i = i + 1;
        }
        ListResourcesResult { resources, next_cursor: paging::cursor_after(end, len), meta: None }
    }

    /// What runs when a resource is read.
    pub fn read_resource(&self, uri: &str) -> (r: Result<&H, McpError>)
        ensures
            match r {
                Ok(h) => self@.dom().contains(uri@) && *h == self@[uri@].handler,
                Err(e) => !self@.dom().contains(uri@) && e.faults_state(
                    "Resource not found:"@ + uri@,
                ),
            },
    {
        match self.resources.get(uri) {
            Some(e) => Ok(&e.handler),
            None => Err(McpError::state(text::cat2("Resource not found:", uri))),
        }
    }

    /// All templates, in the order of their texts.
    pub fn list_resource_templates(&self) -> (r: ListResourceTemplatesResult)
        ensures
            string_map::increasing(self.form_order()),
            self.form_order().to_set() == self.forms().dom(),
            r.resource_templates@.len() == self.form_order().len(),
            forall|i: int|
                0 <= i < r.resource_templates@.len() ==> (#[trigger] r.resource_templates@[i]).wire()
                    == self.forms()[self.form_order()[i]].wire(),
            r.next_cursor is None,
            r.meta is None,
    {
        let len: usize = self.templates.len();
        let mut resource_templates: Vec<ResourceTemplate> = Vec::new();
        let mut i: usize = 0;
        while i < len
            invariant
                i <= len,
                len == self.form_order().len(),
                resource_templates@.len() == i,
                forall|k: int|
                    0 <= k < i ==> (#[trigger] resource_templates@[k]).wire()
                        == self.forms()[self.form_order()[k]].wire(),
            decreases len - i,
        {
            let t = self.templates.value_at(i).duplicate();
            resource_templates.push(t);
            i = i + 1;
        }
        ListResourceTemplatesResult { resource_templates, next_cursor: None, meta: None }
    }

    /// Tells whether there is a resource of which a client wants to hear.
    pub fn subscribe_resource(&self, uri: &str) -> (r: Result<(), McpError>)
        ensures
            match r {
                Ok(()) => self@.dom().contains(uri@),
                Err(e) => !self@.dom().contains(uri@) && e.faults_state(
                    "Resource not found:"@ + uri@,
                ),
            },
    {
        match self.read_resource(uri) {
            Ok(_) => Ok(()),
            Err(e) => Err(e),
        }
    }

    /// Tells whether there is a resource of which a client wants to hear no more.
    pub fn unsubscribe_resource(&self, uri: &str) -> (r: Result<(), McpError>)
        ensures
            match r {
                Ok(()) => self@.dom().contains(uri@),
                Err(e) => !self@.dom().contains(uri@) && e.faults_state(
                    "Resource not found:"@ + uri@,
                ),
            },
    {
        self.subscribe_resource(uri)
    }
}

impl<H> Default for ResourceManager<H> {
    fn default() -> (r: Self)
        ensures
            r@ == Map::<Seq<char>, ResourceEntry<H>>::empty(),
            r.forms() == Map::<Seq<char>, ResourceTemplate>::empty(),
            r.may_overwrite(),
            r.size() == DEFAULT_RESOURCES_PAGE_SIZE,
    {
        ResourceManager::new(true, DEFAULT_RESOURCES_PAGE_SIZE)
    }
}

/// Every resource stands under its own URI.
pub open spec fn well_placed<H>(resources: Map<Seq<char>, ResourceEntry<H>>) -> bool {
    forall|k: Seq<char>| #[trigger]
        resources.dom().contains(k) ==> resources[k].info.uri@ == k
}

/// Resources stand under their own URIs from the start on, and adding one or taking one
/// out leaves it so.
pub proof fn places_stay<H>(
    resources: Map<Seq<char>, ResourceEntry<H>>,
    entry: ResourceEntry<H>,
    gone: Seq<char>,
)
    ensures
        well_placed(Map::<Seq<char>, ResourceEntry<H>>::empty()),
        well_placed(resources) ==> well_placed(resources.insert(entry.info.uri@, entry)),
        well_placed(resources) ==> well_placed(resources.remove(gone)),
{
}

/// The form of a resource tells its URI.
proof fn form_tells_uri(a: ResourceInfo, b: ResourceInfo)
    requires
        a.wire() == b.wire(),
    ensures
        a.uri@ == b.uri@,
{
    assert(a.wire()->Object_0[0] == json::member("uri"@, JsonView::String(a.uri@)));
    assert(b.wire()->Object_0[0] == json::member("uri"@, JsonView::String(b.uri@)));
}

/// The URIs on a page, and the cursor that it gives.
pub open spec fn page_of(r: ListResourcesResult) -> (Seq<Seq<char>>, Option<Seq<char>>) {
    (
        Seq::new(r.resources@.len(), |i: int| r.resources@[i].uri@),
        match r.next_cursor {
            Some(c) => Some(c@),
            None => None,
        },
    )
}

/// The URIs on each of several pages, and the cursor that it gives.
pub open spec fn pages_of(results: Seq<ListResourcesResult>) -> Seq<
    (Seq<Seq<char>>, Option<Seq<char>>),
> {
    Seq::new(results.len(), |i: int| page_of(results[i]))
}

/// Whoever lists the resources first without a cursor, and then with the cursor of each
/// page until there is none, gets every resource exactly once, in strictly increasing order
/// of the URIs. Every page but the last is full, only the last gives no cursor, and the
/// pages come to an end.
pub proof fn pages_list_every_resource<H>(m: ResourceManager<H>, results: Seq<ListResourcesResult>)
    requires
        well_placed(m@),
        m.size() > 0,
        paging::last_start(m.order().len() as int, m.size() as int) <= i64::MAX,
        results.len() > 0,
        forall|i: int|
            0 <= i < results.len() ==> m.shows(
                #[trigger] paging::cursor_for(pages_of(results), i),
                results[i],
            ),
        forall|i: int| 0 <= i < results.len() - 1 ==> (#[trigger] results[i]).next_cursor is Some,
    ensures
        forall|i: int|
            0 <= i < results.len() - 1 ==> (#[trigger] results[i]).resources@.len() == m.size(),
        results.last().resources@.len() <= m.size(),
        (results.len() - 1) * m.size() <= m.order().len(),
        forall|i: int, k: int|
            0 <= i < results.len() && 0 <= k < results[i].resources@.len() ==> m@.dom().contains(
                (#[trigger] results[i].resources@[k]).uri@,
            ) && results[i].resources@[k].wire() == m@[results[i].resources@[k].uri@].info.wire(),
        results.last().next_cursor is None ==> {
            let uris = paging::together(pages_of(results));
            &&& uris == m.order()
            &&& string_map::increasing(uris)
            &&& uris.to_set() == m@.dom()
        },
{
    let pages = pages_of(results);
    let all = m.order();
    let len = all.len() as int;
    let size = m.size() as int;
    assert forall|i: int| 0 <= i < pages.len() implies pages[i] == paging::page(
        all,
        #[trigger] paging::cursor_for(pages, i),
        size,
    ) by {
        let c = paging::cursor_for(pages, i);
        let r = results[i];
        assert(m.shows(c, r));
        let start = paging::page_start(c, len);
        let end = paging::page_end(start, size, len);
        assert forall|k: int| 0 <= k < r.resources@.len() implies (
        #[trigger] r.resources@[k]).uri@ == all[start + k] by {
            assert(all.to_set().contains(all[start + k]));
            form_tells_uri(r.resources@[k], m@[all[start + k]].info);
        }
        assert(page_of(r).0 =~= all.subrange(start, end));
    }
    assert forall|i: int| 0 <= i < pages.len() - 1 implies (#[trigger] pages[i]).1 is Some by {
        assert(results[i].next_cursor is Some);
    }
    paging::pages_in_turn(all, size, pages);
    assert forall|i: int| 0 <= i < results.len() - 1 implies (
    #[trigger] results[i]).resources@.len() == m.size() by {
        assert(pages[i].0.len() == size);
    }
    assert(pages.last().0.len() == results.last().resources@.len());
    assert(m.shows(paging::cursor_for(pages, 0), results[0]));
    assert forall|i: int, k: int|
        0 <= i < results.len() && 0 <= k < results[i].resources@.len() implies m@.dom().contains(
        (#[trigger] results[i].resources@[k]).uri@,
    ) && results[i].resources@[k].wire() == m@[results[i].resources@[k].uri@].info.wire() by {
        let c = paging::cursor_for(pages, i);
        assert(m.shows(c, results[i]));
        let start = paging::page_start(c, len);
        assert(all.to_set().contains(all[start + k]));
        form_tells_uri(results[i].resources@[k], m@[all[start + k]].info);
    }
}

} // verus!
