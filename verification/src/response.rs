//! The resource-projection document: a versioned, status-bearing shape
//! around an envelope's payload, with annotations and relation links, and
//! the projection from an envelope into it.

use vstd::prelude::*;

use crate::ricksponse::Ricksponse;

verus! {

#[verifier::external_type_specification]
#[verifier::external_body]
pub struct ExUuid(uuid::Uuid);

/// The closed set of transport methods a relation link can name.
#[derive(Debug, Clone, Copy, PartialEq, Eq, Structural)]
pub enum HttpMethod {
    Get,
    Head,
    Post,
    Put,
    Delete,
    Connect,
    Options,
    Trace,
    Patch,
}

/// A typed hyperlink: where it points, the relation it names, and the
/// method to use on it.
#[derive(Debug, Clone, PartialEq)]
pub struct RelLink {
    pub href: String,
    pub rel: String,
    pub method: HttpMethod,
}

impl RelLink {
    /// Build a link from its parts.
    pub fn new(href: &str, rel: &str, method: HttpMethod) -> (r: Self)
        ensures
            r.href@ == href@,
            r.rel@ == rel@,
            r.method == method,
    {
        RelLink { href: href.to_owned(), rel: rel.to_owned(), method }
    }
}

/// Whether some link in the list carries the given relation name.
pub open spec fn spec_has_rel(links: Seq<RelLink>, rel: Seq<char>) -> bool {
    exists|i: int| 0 <= i < links.len() && #[trigger] links[i].rel@ == rel
}

/// Whether position `i` holds the first link with the given relation name.
pub open spec fn rel_first_at(links: Seq<RelLink>, rel: Seq<char>, i: int) -> bool {
    &&& 0 <= i < links.len()
    &&& links[i].rel@ == rel
    &&& forall|j: int| 0 <= j < i ==> #[trigger] links[j].rel@ != rel
}

/// An ordered collection of relation links with upsert-by-relation
/// semantics: at most one link per relation name once built through
/// [`RelLinkCollection::add`], an overwrite keeping the link's position.
#[derive(Debug, Clone, PartialEq)]
pub struct RelLinkCollection(Vec<RelLink>);

impl View for RelLinkCollection {
    type V = Seq<RelLink>;

    closed spec fn view(&self) -> Seq<RelLink> {
        self.0@
    }
}

/// The position of the first link with the given relation name, if any.
fn find_rel_index(links: &Vec<RelLink>, rel: &String) -> (r: Option<usize>)
    ensures
        r matches Some(i) ==> rel_first_at(links@, rel@, i as int),
        r is None ==> !spec_has_rel(links@, rel@),
{
    let mut i: usize = 0;
    while i < links.len()
        invariant
            0 <= i <= links.len(),
            forall|j: int| 0 <= j < i ==> #[trigger] links@[j].rel@ != rel@,
        decreases links.len() - i,
    {
        if links[i].rel == *rel {
            return Some(i);
        }
        i = i + 1;
    }
    None
}

impl RelLinkCollection {
    /// Wrap an existing list of links, in its order.
    pub fn new(v_rel: Vec<RelLink>) -> (r: Self)
        ensures
            r@ == v_rel@,
    {
        RelLinkCollection(v_rel)
    }

    /// The first link under the given relation name, if any.
    pub fn get(&self, rel: &str) -> (r: Option<&RelLink>)
        ensures
            r is Some <==> spec_has_rel(self@, rel@),
            r matches Some(l) ==> exists|i: int| rel_first_at(self@, rel@, i) && *l == self@[i],
    {
        let rel_key: String = rel.to_owned();
        match find_rel_index(&self.0, &rel_key) {
            Some(i) => Some(&self.0[i]),
            None => None,
        }
    }

    /// Whether any link carries the given relation name.
    pub fn has(&self, rel: &str) -> (r: bool)
        ensures
            r == spec_has_rel(self@, rel@),
    {
        self.get(rel).is_some()
    }

    /// The first link under the given relation name, for updating in place.
    pub fn get_mut(&mut self, rel: &str) -> (r: Option<&mut RelLink>)
        ensures
            spec_has_rel(old(self)@, rel@) ==> (r matches Some(l) && exists|i: int|
                rel_first_at(old(self)@, rel@, i) && *l == old(self)@[i] && final(self)@ == old(self)@.update(i, *final(l))),
            !spec_has_rel(old(self)@, rel@) ==> r is None && final(self)@ == old(self)@,
    {
        let rel_key: String = rel.to_owned();
        match find_rel_index(&self.0, &rel_key) {
            Some(i) => Some(&mut self.0[i]),
            None => None,
        }
    }

    /// Insert a link under a relation name: the name overrides the one the
    /// link carries. If the name is already present, the first link under it
    /// is overwritten in place and handed back; otherwise the link is
    /// appended.
    pub fn add(&mut self, rel: &str, link: RelLink) -> (r: Option<RelLink>)
        ensures
            !spec_has_rel(old(self)@, rel@) ==> r is None && final(self)@.len() == old(self)@.len() + 1 && final(self)@.drop_last() == old(self)@ && final(self)@.last().href
                == link.href && final(self)@.last().rel@ == rel@ && final(self)@.last().method
                == link.method,
            spec_has_rel(old(self)@, rel@) ==> (exists|i: int|
                {
                    &&& rel_first_at(old(self)@, rel@, i)
                    &&& r == Some(old(self)@[i])
                    &&& final(self)@.len() == old(self)@.len()
                    &&& final(self)@[i].href == link.href
                    &&& final(self)@[i].rel@ == rel@
                    &&& final(self)@[i].method == link.method
                    &&& forall|j: int|
                        0 <= j < old(self)@.len() && j != i ==> final(self)@[j] == old(self)@[j]
                }),
    {
        let mut new_link = link;
        new_link.rel = rel.to_owned();
        let ghost orig = self@;
        let found = find_rel_index(&self.0, &new_link.rel);
        match found {
            Some(idx) => {
                let old_link = self.0.remove(idx);
                self.0.insert(idx, new_link);
                proof {
                    assert(self.0@ =~= orig.update(idx as int, self.0@[idx as int]));
                }
                Some(old_link)
            },
            None => {
                self.0.push(new_link);
                proof {
                    assert(self.0@.drop_last() =~= orig);
                }
                None
            },
        }
    }
}

impl RelLinkCollection {
    /// The links, in order.
    pub fn links(&self) -> (r: &Vec<RelLink>)
        ensures
            r@ == self@,
    {
        &self.0
    }
}

impl Default for RelLinkCollection {
    /// An empty collection.
    fn default() -> (r: Self)
        ensures
            r@ == Seq::<RelLink>::empty(),
    {
        RelLinkCollection(Vec::new())
    }
}

/// Alternative information travelling with a resource document: a mapping
/// from annotation key to value, keys unique, insertion order irrelevant.
#[derive(Debug, PartialEq)]
pub struct Metadata {
    annotations: Vec<(String, String)>,
}

/// The position of the first pair with the given key, if any.
fn find_key_index(pairs: &Vec<(String, String)>, key: &String) -> (r: Option<usize>)
    ensures
        r matches Some(i) ==> 0 <= i < pairs@.len() && pairs@[i as int].0@ == key@ && (forall|
            j: int,
        |
            0 <= j < i ==> #[trigger] pairs@[j].0@ != key@),
        r is None ==> forall|j: int| 0 <= j < pairs@.len() ==> #[trigger] pairs@[j].0@ != key@,
{
    let mut i: usize = 0;
    while i < pairs.len()
        invariant
            0 <= i <= pairs.len(),
            forall|j: int| 0 <= j < i ==> #[trigger] pairs@[j].0@ != key@,
        decreases pairs.len() - i,
    {
        if pairs[i].0 == *key {
            return Some(i);
        }
        i = i + 1;
    }
    None
}

/// Whether some pair carries the given key.
pub open spec fn spec_has_key(pairs: Seq<(Seq<char>, Seq<char>)>, key: Seq<char>) -> bool {
    exists|i: int| 0 <= i < pairs.len() && #[trigger] pairs[i].0 == key
}

/// Whether position `i` holds the first pair with the given key.
pub open spec fn key_first_at(pairs: Seq<(Seq<char>, Seq<char>)>, key: Seq<char>, i: int) -> bool {
    &&& 0 <= i < pairs.len()
    &&& pairs[i].0 == key
    &&& forall|j: int| 0 <= j < i ==> #[trigger] pairs[j].0 != key
}

impl Metadata {
    /// The annotations, as key/value pairs in insertion order.
    pub closed spec fn spec_pairs(self) -> Seq<(Seq<char>, Seq<char>)> {
        self.annotations@.map_values(|p: (String, String)| (p.0@, p.1@))
    }

    /// Record an annotation: an existing key has its value overwritten in
    /// place; a new key is appended.
    pub fn add_annotation(&mut self, key: &str, value: &str)
        ensures
            !spec_has_key(old(self).spec_pairs(), key@) ==> final(self).spec_pairs() == old(self).spec_pairs().push((key@, value@)),
            spec_has_key(old(self).spec_pairs(), key@) ==> (exists|i: int|
                key_first_at(old(self).spec_pairs(), key@, i) && final(self).spec_pairs() == old(self).spec_pairs().update(i, (key@, value@))),
    {
        let key_string: String = key.to_owned();
        let value_string: String = value.to_owned();
        let ghost orig = self.spec_pairs();
        let found = find_key_index(&self.annotations, &key_string);
        proof {
            assert(forall|j: int|
                0 <= j < orig.len() ==> #[trigger] orig[j] == (
                self.annotations@[j].0@,
                self.annotations@[j].1@,
                ));
            match found {
                Some(i) => {
                    assert(key_first_at(orig, key@, i as int));
                },
                None => {
                    assert(!spec_has_key(orig, key@));
                },
            }
        }
        match found {
            Some(idx) => {
                self.annotations.set(idx, (key_string, value_string));
                proof {
                    assert(self.spec_pairs() =~= orig.update(idx as int, (key@, value@)));
                }
            },
            None => {
                self.annotations.push((key_string, value_string));
                proof {
                    assert(self.spec_pairs() =~= orig.push((key@, value@)));
                }
            },
        }
    }
}

impl Metadata {
    /// The annotations, as key/value pairs in insertion order.
    pub fn annotations(&self) -> (r: &Vec<(String, String)>)
        ensures
            r@.map_values(|p: (String, String)| (p.0@, p.1@)) == self.spec_pairs(),
    {
        &self.annotations
    }
}

impl Default for Metadata {
    /// No annotations.
    fn default() -> (r: Self)
        ensures
            r.spec_pairs() == Seq::<(Seq<char>, Seq<char>)>::empty(),
    {
        let r = Metadata { annotations: Vec::new() };
        proof {
            assert(r.spec_pairs() =~= Seq::<(Seq<char>, Seq<char>)>::empty());
        }
        r
    }
}

/// The status block of a resource document: a human message, an application
/// code, the transport code, and a session identifier.
#[derive(Debug, PartialEq)]
pub struct Status {
    pub message: Option<String>,
    pub code: Option<u32>,
    pub http_status_code: Option<u16>,
    pub session: Option<uuid::Uuid>,
}

impl Status {
    /// Build a status block from its parts.
    pub fn new(
        message: Option<String>,
        code: Option<u32>,
        http_status_code: Option<u16>,
        session: Option<uuid::Uuid>,
    ) -> (r: Self)
        ensures
            r == (Status { message, code, http_status_code, session }),
    {
        Status { message, code, http_status_code, session }
    }

    /// Set the message.
    pub fn message(&mut self, message: &str)
        ensures
            final(self).message matches Some(m) && m@ == message@,
            final(self).code == old(self).code,
            final(self).http_status_code == old(self).http_status_code,
            final(self).session == old(self).session,
    {
        self.message = Some(message.to_owned());
    }

    /// Set the application code.
    pub fn code(&mut self, code: &u32)
        ensures
            *final(self) == (Status { code: Some(*code), ..*old(self) }),
    {
        self.code = Some(*code);
    }

    /// Set the transport status code.
    pub fn http_status_code(&mut self, http_status_code: &u16)
        ensures
            *final(self) == (Status { http_status_code: Some(*http_status_code), ..*old(self) }),
    {
        self.http_status_code = Some(*http_status_code);
    }

    /// Set the session identifier.
    pub fn session(&mut self, session: &uuid::Uuid)
        ensures
            *final(self) == (Status { session: Some(*session), ..*old(self) }),
    {
        self.session = Some(*session);
    }
}

impl Default for Status {
    /// A status block with nothing set.
    fn default() -> (r: Self)
        ensures
            r == (Status { message: None, code: None, http_status_code: None, session: None }),
    {
        Status { message: None, code: None, http_status_code: None, session: None }
    }
}

/// The payload section of a resource document: an optional payload and an
/// optional relation-link collection.
#[derive(Debug, PartialEq)]
pub struct Content<T> {
    content: Option<T>,
    rel: Option<RelLinkCollection>,
}

impl<T> Content<T> {
    /// The payload, if set.
    pub closed spec fn spec_content(self) -> Option<T> {
        self.content
    }

    /// The relation links, if set.
    pub closed spec fn spec_rel(self) -> Option<RelLinkCollection> {
        self.rel
    }

    /// Set the payload.
    pub fn content(&mut self, content: T)
        ensures
            final(self).spec_content() == Some(content),
            final(self).spec_rel() == old(self).spec_rel(),
    {
        self.content = Some(content);
    }

    /// Whether a payload is set.
    pub fn has_content(&self) -> (r: bool)
        ensures
            r == (self.spec_content() is Some),
    {
        self.content.is_some()
    }

    /// The payload, for updating in place.
    pub fn get_mut_content(&mut self) -> (r: Option<&mut T>)
        ensures
            old(self).spec_content() matches Some(c) ==> (r matches Some(p) && *p == c && final(self).spec_content() == Some(*final(p)) && final(self).spec_rel() == old(self).spec_rel()),
            old(self).spec_content() is None ==> r is None && *final(self) == *old(self),
    {
        self.content.as_mut()
    }

    /// The payload, if set.
    pub fn get_content(&self) -> (r: &Option<T>)
        ensures
            *r == self.spec_content(),
    {
        &self.content
    }

    /// The relation links, if set.
    pub fn get_rel(&self) -> (r: &Option<RelLinkCollection>)
        ensures
            *r == self.spec_rel(),
    {
        &self.rel
    }

    /// Split the section into its payload and its links.
    pub fn into_parts(self) -> (r: (Option<T>, Option<RelLinkCollection>))
        ensures
            r.0 == self.spec_content(),
            r.1 == self.spec_rel(),
    {
        (self.content, self.rel)
    }

    /// The relation links, initialized to an empty collection on first use.
    pub fn rel(&mut self) -> (r: &mut RelLinkCollection)
        ensures
            old(self).spec_rel() matches Some(c) ==> *r == c,
            old(self).spec_rel() is None ==> r@ == Seq::<RelLink>::empty(),
            final(self).spec_rel() == Some(*final(r)),
            final(self).spec_content() == old(self).spec_content(),
    {
        self.rel.get_or_insert(RelLinkCollection::default())
    }
}

impl<T> Default for Content<T> {
    /// A section with neither payload nor links.
    fn default() -> (r: Self)
        ensures
            r.spec_content() is None,
            r.spec_rel() is None,
    {
        Content { content: None, rel: None }
    }
}

/// A resource document: versioned kind, annotations, payload section, and
/// status block.
#[derive(Debug, PartialEq)]
pub struct HateoasResponse<T> {
    pub api_version: String,
    pub kind: String,
    pub metadata: Option<Metadata>,
    pub spec: Option<Content<T>>,
    pub status: Option<Status>,
}

impl<T> HateoasResponse<T> {
    /// The document's metadata, initialized to an empty mapping on first
    /// use.
    pub fn metadata(&mut self) -> (r: &mut Metadata)
        ensures
            old(self).metadata matches Some(m) ==> *r == m,
            old(self).metadata is None ==> r.spec_pairs() == Seq::<(Seq<char>, Seq<char>)>::empty(),
            *final(self) == (HateoasResponse {
                api_version: old(self).api_version,
                kind: old(self).kind,
                metadata: Some(*final(r)),
                spec: old(self).spec,
                status: old(self).status,
            }),
    {
        self.metadata.get_or_insert(Metadata::default())
    }

    /// The document's status block, initialized empty on first use.
    pub fn status(&mut self) -> (r: &mut Status)
        ensures
            old(self).status matches Some(s) ==> *r == s,
            old(self).status is None ==> *r == (Status {
                message: None,
                code: None,
                http_status_code: None,
                session: None,
            }),
            *final(self) == (HateoasResponse {
                api_version: old(self).api_version,
                kind: old(self).kind,
                metadata: old(self).metadata,
                spec: old(self).spec,
                status: Some(*final(r)),
            }),
    {
        self.status.get_or_insert(Status::default())
    }

    /// The document's payload section, initialized empty on first use.
    pub fn spec(&mut self) -> (r: &mut Content<T>)
        ensures
            old(self).spec matches Some(c) ==> *r == c,
            old(self).spec is None ==> r.spec_content() is None && r.spec_rel() is None,
            *final(self) == (HateoasResponse {
                api_version: old(self).api_version,
                kind: old(self).kind,
                metadata: old(self).metadata,
                spec: Some(*final(r)),
                status: old(self).status,
            }),
    {
        self.spec.get_or_insert(Content::default())
    }
}

impl<T> Ricksponse<T> {
    /// Re-shape the envelope into a resource document, under a placeholder
    /// version: the envelope's status code and message populate the
    /// document's status block, and a payload populates the document's
    /// payload section, which a failed envelope leaves empty. A failed
    /// envelope keeps its code and message on the resulting envelope, so
    /// that materialization still reports the failure.
    pub fn to_hateoas_response(self) -> (r: Ricksponse<HateoasResponse<T>>)
        ensures
            self matches Ricksponse::Data { data: d, http_code: h, message: m } ==> (r matches
                Ricksponse::Data { data: doc, http_code: h2, message: m2 } && h2 is None
                && m2 is None && doc.api_version@ == "Unknown.invalid/0.0.0"@ && doc.kind@
                == Seq::<char>::empty() && doc.metadata is None && (doc.spec matches Some(c)
                && c.spec_content() == Some(d) && c.spec_rel() is None) && doc.status == Some(
                Status { message: m, code: None, http_status_code: h, session: None },
            )),
            self matches Ricksponse::Error { http_code: h, message: m, .. } ==> (r matches
                Ricksponse::Data { data: doc, http_code: h2, message: m2 } && h2 == h && m2 == m
                && doc.api_version@ == "Unknown.invalid/0.0.0"@ && doc.kind@
                == Seq::<char>::empty() && doc.metadata is None && doc.spec is None && doc.status
                == Some(Status { message: m, code: None, http_status_code: h, session: None })),
    {
        match self {
            Ricksponse::Data { data, http_code, message } => {
                Ricksponse::new(
                    HateoasResponse {
                        api_version: "Unknown.invalid/0.0.0".to_owned(),
                        kind: String::new(),
                        metadata: None,
                        spec: Some(Content { content: Some(data), rel: None }),
                        status: Some(
                            Status {
                                message,
                                code: None,
                                http_status_code: http_code,
                                session: None,
                            },
                        ),
                    },
                )
            },
            Ricksponse::Error { http_code, message, .. } => {
                let status_message = message.clone();
                Ricksponse::Data {
                    data: HateoasResponse {
                        api_version: "Unknown.invalid/0.0.0".to_owned(),
                        kind: String::new(),
                        metadata: None,
                        spec: None,
                        status: Some(
                            Status {
                                message: status_message,
                                code: None,
                                http_status_code: http_code,
                                session: None,
                            },
                        ),
                    },
                    http_code,
                    message,
                }
            },
        }
    }
}

impl<T> Ricksponse<HateoasResponse<T>> {
    /// The document inside the envelope, for updating in place: a failed
    /// envelope is first promoted, keeping its code and message, to `Data`
    /// holding an empty default document.
    pub fn as_response(&mut self) -> (r: &mut HateoasResponse<T>)
        ensures
            *old(self) matches Ricksponse::Data { data: d0, http_code: h, message: m } ==> (*r == d0
                && *final(self) == (Ricksponse::Data {
                data: *final(r),
                http_code: h,
                message: m,
            })),
            *old(self) matches Ricksponse::Error { http_code: h, message: m, .. } ==> ((
            r.api_version@ == Seq::<char>::empty() && r.kind@ == Seq::<char>::empty()
                && r.metadata is None && r.spec is None && r.status is None) && *final(self) == (
            Ricksponse::Data { data: *final(r), http_code: h, message: m })),
    {
        self.get_or_with_data(HateoasResponse::default())
    }
}

impl<T> Default for HateoasResponse<T> {
    /// A document with empty version and kind and nothing else set.
    fn default() -> (r: Self)
        ensures
            r.api_version@ == Seq::<char>::empty(),
            r.kind@ == Seq::<char>::empty(),
            r.metadata is None,
            r.spec is None,
            r.status is None,
    {
        HateoasResponse {
            api_version: String::new(),
            kind: String::new(),
            metadata: None,
            spec: None,
            status: None,
        }
    }
}

} // verus!
