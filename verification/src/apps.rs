//! Apps: groups of tools that come with a resource to show their results.

use crate::platform::Platform;
use vstd::prelude::*;

verus! {

/// The MIME type of the resource of an app.
pub const APP_MIME_TYPE: &'static str = "text/html;profile=mcp-app";

/// A resource as it is listed to a client.
pub struct Resource {
    pub uri: String,
    pub name: String,
    pub title: Option<String>,
    pub description: Option<String>,
    pub mime_type: Option<String>,
}

/// An app.
pub struct App<P: Platform> {
    pub name: String,
    pub tools: Vec<P::AppTool>,
    pub resource: Resource,
    pub manifest: P::AppManifest,
}

fn same_text(text: &Option<String>) -> (r: Option<String>)
    ensures
        r == *text,
{
    match text {
        Some(text) => Some(text.clone()),
        None => None,
    }
}

impl<P: Platform> App<P> {
    /// The resource of the app.
    pub fn resource(&self) -> (r: Resource)
        ensures
            r == self.resource,
    {
        Resource {
            uri: self.resource.uri.clone(),
            name: self.resource.name.clone(),
            title: same_text(&self.resource.title),
            description: same_text(&self.resource.description),
            mime_type: same_text(&self.resource.mime_type),
        }
    }
}

/// Whether the second resource is the first one with the MIME type of apps.
pub open spec fn has_app_mime_type(plain: Resource, attached: Resource) -> bool {
    &&& attached.mime_type is Some
    &&& attached.mime_type->0@ == APP_MIME_TYPE@
    &&& attached == (Resource { mime_type: attached.mime_type, ..plain })
}

/// Gives a resource the MIME type of apps.
pub fn attach_resource_mime_type(resource: Resource) -> (r: Resource)
    ensures
        has_app_mime_type(resource, r),
{
    Resource { mime_type: Some(APP_MIME_TYPE.to_owned()), ..resource }
}

/// Whether this is the place of the first app of the given name.
pub open spec fn is_first_named<P: Platform>(
    apps: Seq<App<P>>,
    name: Seq<char>,
    index: int,
) -> bool {
    &&& 0 <= index < apps.len()
    &&& apps[index].name@ == name
    &&& forall|i: int| 0 <= i < index ==> (#[trigger] apps[i]).name@ != name
}

/// Whether there is an app of the given name.
pub open spec fn has_app<P: Platform>(apps: Seq<App<P>>, name: Seq<char>) -> bool {
    exists|i: int| 0 <= i < apps.len() && (#[trigger] apps[i]).name@ == name
}

/// Finds the first app of the given name.
pub fn find_app<P: Platform>(apps: &Vec<App<P>>, name: &str) -> (r: Option<usize>)
    ensures
        r is Some <==> has_app(apps@, name@),
        r matches Some(index) ==> is_first_named(apps@, name@, index as int),
{
    let wanted = name.to_owned();
    let mut i: usize = 0;
    while i < apps.len()
        invariant
            i <= apps@.len(),
            wanted@ == name@,
            forall|j: int| 0 <= j < i ==> (#[trigger] apps@[j]).name@ != name@,
        decreases apps@.len() - i,
    {
        if apps[i].name == wanted {
            assert(apps@[i as int].name@ == name@);
            return Some(i);
        }
        i = i + 1;
    }
    None
}

} // verus!
