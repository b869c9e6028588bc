use vstd::prelude::*;

use crate::builders::copy_text;

verus! {

/// Descriptive metadata for an "about" entry; every field is optional.
pub struct AboutMetadata {
    pub name: Option<String>,
    pub version: Option<String>,
    pub copyright: Option<String>,
    pub authors: Option<Vec<String>>,
    pub website: Option<String>,
    pub website_label: Option<String>,
    pub comments: Option<String>,
}

/// The names in an optional list of authors.
pub open spec fn authors_view(o: Option<Vec<String>>) -> Option<Seq<String>> {
    match o {
        Some(v) => Some(v@),
        None => None,
    }
}

/// A copy of an optional list of authors.
fn copy_authors(o: &Option<Vec<String>>) -> (r: Option<Vec<String>>)
    ensures
        authors_view(r) == authors_view(*o),
{
    match o {
        Some(v) => {
            let mut out: Vec<String> = Vec::new();
            let mut i: usize = 0;
            while i < v.len()
                invariant
                    i <= v@.len(),
                    out@ == v@.subrange(0, i as int),
                decreases v@.len() - i,
            {
                out.push(v[i].clone());
                i += 1;
            }
            assert(out@ =~= v@);
            Some(out)
        },
        None => None,
    }
}

/// Accumulates the fields of an [`AboutMetadata`]; it cannot fail.
pub struct AboutMetadataBuilder {
    pub name: Option<String>,
    pub version: Option<String>,
    pub copyright: Option<String>,
    pub authors: Option<Vec<String>>,
    pub website: Option<String>,
    pub website_label: Option<String>,
    pub comments: Option<String>,
}

impl AboutMetadataBuilder {
    /// Whether `self` holds the same fields as `o`.
    pub open spec fn same_as(&self, o: AboutMetadataBuilder) -> bool {
        &&& self.name == o.name
        &&& self.version == o.version
        &&& self.copyright == o.copyright
        &&& authors_view(self.authors) == authors_view(o.authors)
        &&& self.website == o.website
        &&& self.website_label == o.website_label
        &&& self.comments == o.comments
    }

    /// Whether `self` and `o` agree on every field but `authors`.
    pub open spec fn same_but_authors(&self, o: AboutMetadataBuilder) -> bool {
        &&& self.name == o.name
        &&& self.version == o.version
        &&& self.copyright == o.copyright
        &&& self.website == o.website
        &&& self.website_label == o.website_label
        &&& self.comments == o.comments
    }
}

impl Clone for AboutMetadataBuilder {
    fn clone(&self) -> (r: Self)
        ensures
            r.same_as(*self),
    {
        AboutMetadataBuilder {
            name: copy_text(&self.name),
            version: copy_text(&self.version),
            copyright: copy_text(&self.copyright),
            authors: copy_authors(&self.authors),
            website: copy_text(&self.website),
            website_label: copy_text(&self.website_label),
            comments: copy_text(&self.comments),
        }
    }
}

impl AboutMetadataBuilder {
    /// A builder with every field absent.
    pub fn new() -> (r: AboutMetadataBuilder)
        ensures
            r.name is None && r.version is None && r.copyright is None && r.authors is None
                && r.website is None && r.website_label is None && r.comments is None,
    {
        AboutMetadataBuilder {
            name: None,
            version: None,
            copyright: None,
            authors: None,
            website: None,
            website_label: None,
            comments: None,
        }
    }

    pub fn with_name(&mut self, name: String) -> (r: AboutMetadataBuilder)
        ensures
            final(self).same_but_authors(AboutMetadataBuilder { name: Some(name), ..*old(self) }),
            authors_view(final(self).authors) == authors_view(old(self).authors),
            r.same_as(*final(self)),
    {
        self.name = Some(name);
        self.clone()
    }

    pub fn with_version(&mut self, version: String) -> (r: AboutMetadataBuilder)
        ensures
            final(self).same_but_authors(
                AboutMetadataBuilder { version: Some(version), ..*old(self) },
            ),
            authors_view(final(self).authors) == authors_view(old(self).authors),
            r.same_as(*final(self)),
    {
        self.version = Some(version);
        self.clone()
    }

    pub fn with_copyright(&mut self, copyright: String) -> (r: AboutMetadataBuilder)
        ensures
            final(self).same_but_authors(
                AboutMetadataBuilder { copyright: Some(copyright), ..*old(self) },
            ),
            authors_view(final(self).authors) == authors_view(old(self).authors),
            r.same_as(*final(self)),
    {
        self.copyright = Some(copyright);
        self.clone()
    }

    pub fn with_authors(&mut self, authors: Vec<String>) -> (r: AboutMetadataBuilder)
        ensures
            final(self).same_but_authors(*old(self)),
            authors_view(final(self).authors) == Some(authors@),
            r.same_as(*final(self)),
    {
        self.authors = Some(authors);
        self.clone()
    }

    pub fn with_website(&mut self, website: String) -> (r: AboutMetadataBuilder)
        ensures
            final(self).same_but_authors(
                AboutMetadataBuilder { website: Some(website), ..*old(self) },
            ),
            authors_view(final(self).authors) == authors_view(old(self).authors),
            r.same_as(*final(self)),
    {
        self.website = Some(website);
        self.clone()
    }

    pub fn with_website_label(&mut self, website_label: String) -> (r: AboutMetadataBuilder)
        ensures
            final(self).same_but_authors(
                AboutMetadataBuilder { website_label: Some(website_label), ..*old(self) },
            ),
            authors_view(final(self).authors) == authors_view(old(self).authors),
            r.same_as(*final(self)),
    {
        self.website_label = Some(website_label);
        self.clone()
    }

    pub fn with_comments(&mut self, comments: String) -> (r: AboutMetadataBuilder)
        ensures
            final(self).same_but_authors(
                AboutMetadataBuilder { comments: Some(comments), ..*old(self) },
            ),
            authors_view(final(self).authors) == authors_view(old(self).authors),
            r.same_as(*final(self)),
    {
        self.comments = Some(comments);
        self.clone()
    }

    /// The metadata with the builder's fields.
    pub fn build(&self) -> (r: AboutMetadata)
        ensures
            r.name == self.name,
            r.version == self.version,
            r.copyright == self.copyright,
            authors_view(r.authors) == authors_view(self.authors),
            r.website == self.website,
            r.website_label == self.website_label,
            r.comments == self.comments,
    {
        AboutMetadata {
            name: copy_text(&self.name),
            version: copy_text(&self.version),
            copyright: copy_text(&self.copyright),
            authors: copy_authors(&self.authors),
            website: copy_text(&self.website),
            website_label: copy_text(&self.website_label),
            comments: copy_text(&self.comments),
        }
    }
}

impl Default for AboutMetadataBuilder {
    fn default() -> (r: AboutMetadataBuilder)
        ensures
            r.name is None && r.version is None && r.copyright is None && r.authors is None
                && r.website is None && r.website_label is None && r.comments is None,
    {
        AboutMetadataBuilder::new()
    }
}

} // verus!
