//! Finding out what software an instance runs, by the nodeinfo protocol:
//! which address to ask, which answer means that the instance is dead, which
//! link to follow, and what to write down in the end.

use crate::local_state::text_view;
use vstd::prelude::*;
use vstd::string::*;

verus! {

/// What the relation of a link starts with if the link leads to a nodeinfo
/// document of version 2.
pub const NODEINFO_SCHEMA_PREFIX: &'static str = "http://nodeinfo.diaspora.software/ns/schema/2.";

/// A link of the well-known nodeinfo document.
#[derive(Clone, Debug, PartialEq, Eq)]
pub struct NodeInfoWellKnownLinks {
    pub rel: String,
    pub href: String,
}

/// What a nodeinfo document says of the software.
#[derive(Clone, Debug, PartialEq, Eq)]
pub struct NodeInfoSoftware {
    pub name: Option<String>,
    pub version: Option<String>,
}

/// What is written down of an instance.
#[derive(Clone, Debug, PartialEq, Eq)]
pub struct InstanceForm {
    pub domain: String,
    pub software: Option<String>,
    pub version: Option<String>,
    pub updated_at: Option<i64>,
}

/// The address of the well-known nodeinfo document of a domain.
pub open spec fn well_known_address(domain: Seq<char>) -> Seq<char> {
    "https://"@ + domain + "/.well-known/nodeinfo"@
}

/// The address of the well-known nodeinfo document of a domain.
pub fn well_known_url(domain: &str) -> (url: String)
    ensures
        url@ == well_known_address(domain@),
{
    "https://".to_owned().concat(domain).concat("/.well-known/nodeinfo")
}

/// An instance is alive if it answered, and not with an error of the client
/// or of the server.
pub open spec fn alive(status: Option<u16>) -> bool {
    match status {
        Some(code) => !(400 <= code <= 599),
        None => false,
    }
}

/// Whether an instance is alive, given the status of its answer to the
/// request for the well-known document, if it answered at all.
pub fn is_alive(status: Option<u16>) -> (answer: bool)
    ensures
        answer == alive(status),
{
    match status {
        Some(code) => !(400 <= code && code <= 599),
        None => false,
    }
}

/// Whether a text starts with another.
pub open spec fn starts_with(text: Seq<char>, prefix: Seq<char>) -> bool {
    prefix.len() <= text.len() && text.subrange(0, prefix.len() as int) == prefix
}

/// Whether a text starts with another.
pub fn has_prefix(text: &str, prefix: &str) -> (answer: bool)
    ensures
        answer == starts_with(text@, prefix@),
{
    let text_len: usize = text.unicode_len();
    let prefix_len: usize = prefix.unicode_len();
    if prefix_len > text_len {
        return false;
    }
    let head = text.substring_char(0, prefix_len);
    head.to_owned() == prefix.to_owned()
}

/// The first link whose relation says that it leads to a nodeinfo document
/// of version 2.
pub open spec fn first_nodeinfo_link(links: Seq<NodeInfoWellKnownLinks>) -> Option<Seq<char>>
    decreases links.len(),
{
    if links.len() == 0 {
        None
    } else if starts_with(links[0].rel@, NODEINFO_SCHEMA_PREFIX@) {
        Some(links[0].href@)
    } else {
        first_nodeinfo_link(links.drop_first())
    }
}

/// The address of the nodeinfo document, picked from the links of the
/// well-known document.
pub fn nodeinfo_link(links: &Vec<NodeInfoWellKnownLinks>) -> (href: Option<String>)
    ensures
        text_view(href) == first_nodeinfo_link(links@),
{
    let mut i: usize = 0;
    assert(links@.skip(0) =~= links@);
    while i < links.len()
        invariant
            i <= links.len(),
            first_nodeinfo_link(links@) == first_nodeinfo_link(links@.skip(i as int)),
        decreases links.len() - i,
    {
        assert(links@.skip(i as int).drop_first() =~= links@.skip(i + 1));
        if has_prefix(links[i].rel.as_str(), NODEINFO_SCHEMA_PREFIX) {
            return Some(links[i].href.clone());
        }
        i = i + 1;
    }
    None
}

/// What is written down of an instance that is alive at `now`: that it was
/// seen, and its software and version if its nodeinfo document told of them.
pub fn instance_form(domain: String, now: i64, software: Option<NodeInfoSoftware>) -> (form:
    InstanceForm)
    ensures
        form.domain == domain,
        form.updated_at == Some(now),
        match software {
            Some(found) => form.software == found.name && form.version == found.version,
            None => form.software is None && form.version is None,
        },
{
    match software {
        Some(found) => InstanceForm {
            domain,
            software: found.name,
            version: found.version,
            updated_at: Some(now),
        },
        None => InstanceForm { domain, software: None, version: None, updated_at: Some(now) },
    }
}

/// What is written down of an instance after it was asked for its
/// well-known document: nothing if it is dead; if it is alive, that it was
/// seen, with its software if that could be found out.
pub fn build_update_instance_form(
    domain: String,
    now: i64,
    status: Option<u16>,
    software: Option<NodeInfoSoftware>,
) -> (form: Option<InstanceForm>)
    ensures
        form is Some == alive(status),
        form matches Some(f) ==> {
            &&& f.domain == domain
            &&& f.updated_at == Some(now)
            &&& match software {
                Some(found) => f.software == found.name && f.version == found.version,
                None => f.software is None && f.version is None,
            }
        },
{
    if is_alive(status) {
        Some(instance_form(domain, now, software))
    } else {
        None
    }
}

} // verus!
