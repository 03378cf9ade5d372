//! Catalog documents and their flattening into datasets and services.
//!
//! A catalog document is a tree of nodes. Each node says what it is by its
//! type tags: a node tagged as a catalog holds services and further nodes, a
//! node tagged as a dataset is a leaf of the flattening, and a node with
//! neither tag is passed through.
use vstd::prelude::*;

use crate::types::policy::{Policy, copy_opt_string};
use crate::types::properties::str_eq;
use crate::types::query::{Protocol, Query};

verus! {

#[verifier::external_type_specification]
#[verifier::external_body]
pub struct ExVersion(semver::Version);

/// Relies on `Clone` for `semver::Version`, which semver derives: the copy
/// holds the same numbers, pre-release and build metadata as the original.
pub assume_specification[ <semver::Version as Clone>::clone ](v: &semver::Version) -> (r:
    semver::Version)
    ensures
        r == *v,
;

/// The type tag that marks a catalog node.
pub const CATALOG_TYPE: &'static str = "dcat:Catalog";

/// The type tag that marks a dataset node.
pub const DATASET_TYPE: &'static str = "dcat:Dataset";

/// A small image, by its address.
#[derive(Debug, PartialEq)]
pub struct Thumbnail {
    pub resource: String,
}

impl Thumbnail {
    pub fn resource(&self) -> (r: &str)
        ensures
            r@ == self.resource@,
    {
        self.resource.as_str()
    }
}

impl Clone for Thumbnail {
    fn clone(&self) -> (r: Self)
        ensures
            r == *self,
    {
        Thumbnail { resource: self.resource.clone() }
    }
}

fn copy_strings(v: &Vec<String>) -> (r: Vec<String>)
    ensures
        r@ == v@,
{
    let r = v.clone();
    assert(r@ =~= v@);
    r
}

/// Who made a resource.
#[derive(Debug, PartialEq)]
pub struct Creator {
    pub name: Option<String>,
    pub thumbnail: Option<Thumbnail>,
}

impl Creator {
    pub fn name(&self) -> (r: &Option<String>)
        ensures
            *r == self.name,
    {
        &self.name
    }

    pub fn thumbnail(&self) -> (r: &Option<Thumbnail>)
        ensures
            *r == self.thumbnail,
    {
        &self.thumbnail
    }
}

impl Clone for Creator {
    fn clone(&self) -> (r: Self)
        ensures
            r == *self,
    {
        let thumbnail = match &self.thumbnail {
            Some(t) => Some(t.clone()),
            None => None,
        };
        Creator { name: copy_opt_string(&self.name), thumbnail }
    }
}

/// Descriptive properties shared by catalogs, datasets and services.
#[derive(Debug, PartialEq)]
pub struct CommonProperties {
    pub title: Option<String>,
    pub comment: Option<String>,
    pub keywords: Vec<String>,
    pub thumbnail: Option<Thumbnail>,
    pub creator: Option<Creator>,
    pub version: Option<semver::Version>,
}

impl CommonProperties {
    /// `self` and `other` hold the same properties.
    pub open spec fn same_as(&self, other: &CommonProperties) -> bool {
        &&& self.title == other.title
        &&& self.comment == other.comment
        &&& self.keywords@ == other.keywords@
        &&& self.thumbnail == other.thumbnail
        &&& self.creator == other.creator
        &&& self.version == other.version
    }
}

impl Clone for CommonProperties {
    fn clone(&self) -> (r: Self)
        ensures
            r.same_as(self),
    {
        let thumbnail = match &self.thumbnail {
            Some(t) => Some(t.clone()),
            None => None,
        };
        let creator = match &self.creator {
            Some(c) => Some(c.clone()),
            None => None,
        };
        let version = match &self.version {
            Some(v) => Some(v.clone()),
            None => None,
        };
        CommonProperties {
            title: copy_opt_string(&self.title),
            comment: copy_opt_string(&self.comment),
            keywords: copy_strings(&self.keywords),
            thumbnail,
            creator,
            version,
        }
    }
}

/// A service that a catalog offers, such as a query endpoint.
#[derive(Debug, PartialEq)]
pub struct Service {
    pub id: String,
    pub types: Vec<String>,
    pub common_properties: CommonProperties,
    pub endpoint_url: Option<String>,
    pub endpoint_description: Option<String>,
}

impl Service {
    /// `self` and `other` describe the same service.
    pub open spec fn same_as(&self, other: &Service) -> bool {
        &&& self.id == other.id
        &&& self.types@ == other.types@
        &&& self.common_properties.same_as(&other.common_properties)
        &&& self.endpoint_url == other.endpoint_url
        &&& self.endpoint_description == other.endpoint_description
    }

    /// The service has a title.
    pub open spec fn is_titled(&self) -> bool {
        self.common_properties.title is Some
    }

    pub fn id(&self) -> (r: &str)
        ensures
            r@ == self.id@,
    {
        self.id.as_str()
    }

    pub fn types(&self) -> (r: &[String])
        ensures
            r@ == self.types@,
    {
        self.types.as_slice()
    }

    pub fn common_properties(&self) -> (r: &CommonProperties)
        ensures
            *r == self.common_properties,
    {
        &self.common_properties
    }

    pub fn endpoint_url(&self) -> (r: Option<&str>)
        ensures
            match self.endpoint_url {
                Some(u) => r is Some && r->Some_0@ == u@,
                None => r is None,
            },
    {
        match &self.endpoint_url {
            Some(u) => Some(u.as_str()),
            None => None,
        }
    }

    pub fn endpoint_description(&self) -> (r: Option<&str>)
        ensures
            match self.endpoint_description {
                Some(d) => r is Some && r->Some_0@ == d@,
                None => r is None,
            },
    {
        match &self.endpoint_description {
            Some(d) => Some(d.as_str()),
            None => None,
        }
    }
}

impl Clone for Service {
    fn clone(&self) -> (r: Self)
        ensures
            r.same_as(self),
    {
        Service {
            id: self.id.clone(),
            types: copy_strings(&self.types),
            common_properties: self.common_properties.clone(),
            endpoint_url: copy_opt_string(&self.endpoint_url),
            endpoint_description: copy_opt_string(&self.endpoint_description),
        }
    }
}

/// `r` holds a copy of each policy of `p`, in order.
pub open spec fn copies_policies(r: Seq<Policy>, p: Seq<Policy>) -> bool {
    &&& r.len() == p.len()
    &&& forall|i: int| 0 <= i < p.len() ==> #[trigger] r[i].same_as(&p[i])
}

fn copy_policies(v: &Vec<Policy>) -> (r: Vec<Policy>)
    ensures
        copies_policies(r@, v@),
{
    let mut out: Vec<Policy> = Vec::new();
    let mut i: usize = 0;
    while i < v.len()
        invariant
            i <= v@.len(),
            out@.len() == i,
            forall|k: int| 0 <= k < i ==> #[trigger] out@[k].same_as(&v@[k]),
        decreases v@.len() - i,
    {
        out.push(v[i].clone());
        i = i + 1;
    }
    out
}

/// A dataset, as a leaf of a flattened catalog.
#[derive(Debug, PartialEq)]
pub struct Dataset {
    pub id: String,
    pub types: Vec<String>,
    pub dcterms_types: Vec<String>,
    pub policies: Vec<Policy>,
    pub common_properties: CommonProperties,
}

impl Dataset {
    /// `self` is the record of the dataset node `n`: its identifier, type
    /// tags, usage policies and descriptive properties.
    pub open spec fn describes(&self, n: &DatasetOrCatalog) -> bool {
        &&& self.id == n.id
        &&& self.types@ == n.types@
        &&& self.dcterms_types@ == n.dcterms_types@
        &&& copies_policies(self.policies@, n.offers@)
        &&& self.common_properties.same_as(&n.common_properties)
    }

    pub fn new(
        id: String,
        types: Vec<String>,
        dcterms_types: Vec<String>,
        policies: Vec<Policy>,
        common_properties: CommonProperties,
    ) -> (r: Self)
        ensures
            r.id == id,
            r.types == types,
            r.dcterms_types == dcterms_types,
            r.policies == policies,
            r.common_properties == common_properties,
    {
        Self { id, types, dcterms_types, policies, common_properties }
    }

    pub fn id(&self) -> (r: &str)
        ensures
            r@ == self.id@,
    {
        self.id.as_str()
    }

    pub fn types(&self) -> (r: &Vec<String>)
        ensures
            *r == self.types,
    {
        &self.types
    }

    pub fn dcterms_types(&self) -> (r: &Vec<String>)
        ensures
            *r == self.dcterms_types,
    {
        &self.dcterms_types
    }

    pub fn policies(&self) -> (r: &Vec<Policy>)
        ensures
            *r == self.policies,
    {
        &self.policies
    }

    pub fn common_properties(&self) -> (r: &CommonProperties)
        ensures
            *r == self.common_properties,
    {
        &self.common_properties
    }
}


impl Clone for Dataset {
    fn clone(&self) -> (r: Self)
        ensures
            r.id == self.id,
            r.types@ == self.types@,
            r.dcterms_types@ == self.dcterms_types@,
            copies_policies(r.policies@, self.policies@),
            r.common_properties.same_as(&self.common_properties),
    {
        Dataset {
            id: self.id.clone(),
            types: copy_strings(&self.types),
            dcterms_types: copy_strings(&self.dcterms_types),
            policies: copy_policies(&self.policies),
            common_properties: self.common_properties.clone(),
        }
    }
}

/// One entry of the combined flattening: a dataset or a service.
#[derive(Debug, PartialEq)]
pub enum DatasetOrService {
    Dataset(Dataset),
    Service(Service),
}

impl Dataset {
    /// `self` is a copy of `other`.
    pub open spec fn copy_of(&self, other: &Dataset) -> bool {
        &&& self.id == other.id
        &&& self.types@ == other.types@
        &&& self.dcterms_types@ == other.dcterms_types@
        &&& copies_policies(self.policies@, other.policies@)
        &&& self.common_properties.same_as(&other.common_properties)
    }
}

impl Clone for DatasetOrService {
    fn clone(&self) -> (r: Self)
        ensures
            match (*self, r) {
                (DatasetOrService::Dataset(a), DatasetOrService::Dataset(b)) => b.copy_of(&a),
                (DatasetOrService::Service(a), DatasetOrService::Service(b)) => b.same_as(&a),
                _ => false,
            },
    {
        match self {
            DatasetOrService::Dataset(d) => DatasetOrService::Dataset(d.clone()),
            DatasetOrService::Service(s) => DatasetOrService::Service(s.clone()),
        }
    }
}

/// What an entry of the combined flattening stands for: a dataset node, or a
/// service of a node.
pub ghost enum FlatSource {
    DatasetNode(DatasetOrCatalog),
    ServiceOf(Service),
}

impl DatasetOrService {
    /// `self` is the entry for `src`.
    pub open spec fn stands_for(&self, src: FlatSource) -> bool {
        match (*self, src) {
            (DatasetOrService::Dataset(d), FlatSource::DatasetNode(n)) => d.describes(&n),
            (DatasetOrService::Service(s), FlatSource::ServiceOf(t)) => s.same_as(&t),
            _ => false,
        }
    }
}

/// A node of a catalog document: a catalog, a dataset, or neither, as its
/// type tags say.
#[derive(Debug)]
pub struct DatasetOrCatalog {
    pub id: String,
    pub types: Vec<String>,
    pub offers: Vec<Policy>,
    pub datasets_or_catalogs: Vec<DatasetOrCatalog>,
    pub services: Vec<Service>,
    pub dcterms_types: Vec<String>,
    pub common_properties: CommonProperties,
}

impl DatasetOrCatalog {
    /// `self` is a copy of the tree `other`: the same node, with copies of
    /// its policies, services and, below it, of each child tree.
    pub open spec fn same_tree(&self, other: &DatasetOrCatalog) -> bool
        decreases self, 1nat,
    {
        &&& self.id == other.id
        &&& self.types@ == other.types@
        &&& copies_policies(self.offers@, other.offers@)
        &&& trees_same(self.datasets_or_catalogs@, other.datasets_or_catalogs@)
        &&& copies_services(self.services@, other.services@)
        &&& self.dcterms_types@ == other.dcterms_types@
        &&& self.common_properties.same_as(&other.common_properties)
    }
}

/// `s` and `t` hold copies of the same trees, in the same order.
pub open spec fn trees_same(s: Seq<DatasetOrCatalog>, t: Seq<DatasetOrCatalog>) -> bool
    decreases s, 0nat,
{
    if s.len() == 0 {
        t.len() == 0
    } else {
        &&& t.len() == s.len()
        &&& trees_same(s.subrange(0, s.len() - 1), t.subrange(0, t.len() - 1))
        &&& s[s.len() - 1].same_tree(&t[t.len() - 1])
    }
}

fn copy_node(n: &DatasetOrCatalog) -> (r: DatasetOrCatalog)
    ensures
        r.same_tree(n),
    decreases n,
{
    let mut children: Vec<DatasetOrCatalog> = Vec::new();
    let mut i: usize = 0;
    let ghost src = n.datasets_or_catalogs@;
    proof {
        assert(src.subrange(0, 0) =~= Seq::<DatasetOrCatalog>::empty());
    }
    while i < n.datasets_or_catalogs.len()
        invariant
            src == n.datasets_or_catalogs@,
            i <= src.len(),
            trees_same(children@, src.subrange(0, i as int)),
        decreases src.len() - i,
    {
        proof {
            vstd::std_specs::vec::axiom_vec_index_decreases(n.datasets_or_catalogs, i as int);
            assert(decreases_to!(*n => n.datasets_or_catalogs));
        }
        let c = copy_node(&n.datasets_or_catalogs[i]);
        let ghost before = children@;
        children.push(c);
        proof {
            let t = src.subrange(0, i + 1);
            if before.len() == 0 {
                assert(src.subrange(0, i as int).len() == 0);
            }
            assert(children@.subrange(0, i as int) =~= before);
            assert(t.subrange(0, i as int) =~= src.subrange(0, i as int));
            assert(t[i as int] == src[i as int]);
        }
        i = i + 1;
    }
    proof {
        assert(src.subrange(0, i as int) =~= src);
    }
    let services = n.services.clone();
    assert(copies_services(services@, n.services@));
    DatasetOrCatalog {
        id: n.id.clone(),
        types: copy_strings(&n.types),
        offers: copy_policies(&n.offers),
        datasets_or_catalogs: children,
        services,
        dcterms_types: copy_strings(&n.dcterms_types),
        common_properties: n.common_properties.clone(),
    }
}

impl Clone for DatasetOrCatalog {
    /// A copy of the node and, below it, of the whole tree.
    fn clone(&self) -> (r: Self)
        ensures
            r.same_tree(self),
    {
        copy_node(self)
    }
}

/// `tags` holds the tag `tag`.
pub open spec fn has_tag(tags: Seq<String>, tag: Seq<char>) -> bool {
    exists|i: int| 0 <= i < tags.len() && tags[i]@ == tag
}

fn contains_tag(tags: &Vec<String>, tag: &str) -> (r: bool)
    ensures
        r == has_tag(tags@, tag@),
{
    let mut i: usize = 0;
    while i < tags.len()
        invariant
            i <= tags@.len(),
            forall|j: int| 0 <= j < i ==> tags@[j]@ != tag@,
        decreases tags@.len() - i,
    {
        if str_eq(tags[i].as_str(), tag) {
            return true;
        }
        i = i + 1;
    }
    false
}

/// The services of `s` that have a title, in order.
pub open spec fn titled(s: Seq<Service>) -> Seq<Service> {
    s.filter(|x: Service| x.is_titled())
}

/// The dataset nodes of the tree under `n`, depth-first in document order: a
/// dataset node stands for itself alone, any other node for the dataset nodes
/// under its children.
pub open spec fn dataset_nodes(n: DatasetOrCatalog) -> Seq<DatasetOrCatalog>
    decreases n, 1nat,
{
    if n.is_dataset_spec() {
        seq![n]
    } else {
        dataset_nodes_of(n.datasets_or_catalogs@)
    }
}

/// The dataset nodes under each of `s`, one node after the other.
pub open spec fn dataset_nodes_of(s: Seq<DatasetOrCatalog>) -> Seq<DatasetOrCatalog>
    decreases s, 0nat,
{
    if s.len() == 0 {
        Seq::empty()
    } else {
        dataset_nodes_of(s.subrange(0, s.len() - 1)) + dataset_nodes(s[s.len() - 1])
    }
}

/// The services that the tree under `n` yields: a catalog node yields its own
/// services, all of them; any other node yields the titled ones among what its
/// children yield.
pub open spec fn services_of_node(n: DatasetOrCatalog) -> Seq<Service>
    decreases n, 1nat,
{
    if n.is_catalog_spec() {
        n.services@
    } else {
        titled(services_of_nodes(n.datasets_or_catalogs@))
    }
}

/// What each of `s` yields as services, one node after the other.
pub open spec fn services_of_nodes(s: Seq<DatasetOrCatalog>) -> Seq<Service>
    decreases s, 0nat,
{
    if s.len() == 0 {
        Seq::empty()
    } else {
        services_of_nodes(s.subrange(0, s.len() - 1)) + services_of_node(s[s.len() - 1])
    }
}

/// The entries of the combined flattening of the tree under `n`: a dataset
/// node yields itself alone; any other node yields its titled services, then
/// what its children yield.
pub open spec fn entries_of_node(n: DatasetOrCatalog) -> Seq<FlatSource>
    decreases n, 1nat,
{
    if n.is_dataset_spec() {
        seq![FlatSource::DatasetNode(n)]
    } else {
        titled(n.services@).map_values(|s: Service| FlatSource::ServiceOf(s)) + entries_of_nodes(
            n.datasets_or_catalogs@,
        )
    }
}

/// What each of `s` yields in the combined flattening, one after the other.
pub open spec fn entries_of_nodes(s: Seq<DatasetOrCatalog>) -> Seq<FlatSource>
    decreases s, 0nat,
{
    if s.len() == 0 {
        Seq::empty()
    } else {
        entries_of_nodes(s.subrange(0, s.len() - 1)) + entries_of_node(s[s.len() - 1])
    }
}

/// `r` holds one record for each dataset node of `ns`, in order.
pub open spec fn records_of(r: Seq<Dataset>, ns: Seq<DatasetOrCatalog>) -> bool {
    &&& r.len() == ns.len()
    &&& forall|i: int| 0 <= i < ns.len() ==> #[trigger] r[i].describes(&ns[i])
}

/// `r` holds a copy of each of `s`, in order.
pub open spec fn copies_services(r: Seq<Service>, s: Seq<Service>) -> bool {
    &&& r.len() == s.len()
    &&& forall|i: int| 0 <= i < s.len() ==> #[trigger] r[i].same_as(&s[i])
}

/// `r` holds one entry for each of `s`, in order.
pub open spec fn entries_for(r: Seq<DatasetOrService>, s: Seq<FlatSource>) -> bool {
    &&& r.len() == s.len()
    &&& forall|i: int| 0 <= i < s.len() ==> #[trigger] r[i].stands_for(s[i])
}

impl DatasetOrCatalog {
    pub open spec fn is_catalog_spec(&self) -> bool {
        has_tag(self.types@, CATALOG_TYPE@)
    }

    pub open spec fn is_dataset_spec(&self) -> bool {
        has_tag(self.types@, DATASET_TYPE@)
    }

    pub fn id(&self) -> (r: &str)
        ensures
            r@ == self.id@,
    {
        self.id.as_str()
    }

    pub fn types(&self) -> (r: &Vec<String>)
        ensures
            *r == self.types,
    {
        &self.types
    }

    pub fn dcterms_types(&self) -> (r: &Vec<String>)
        ensures
            *r == self.dcterms_types,
    {
        &self.dcterms_types
    }

    /// The node's type tags include the catalog tag.
    pub fn is_catalog(&self) -> (r: bool)
        ensures
            r == self.is_catalog_spec(),
    {
        contains_tag(&self.types, CATALOG_TYPE)
    }

    /// The node's type tags include the dataset tag.
    pub fn is_dataset(&self) -> (r: bool)
        ensures
            r == self.is_dataset_spec(),
    {
        contains_tag(&self.types, DATASET_TYPE)
    }

    pub fn common_properties(&self) -> (r: &CommonProperties)
        ensures
            *r == self.common_properties,
    {
        &self.common_properties
    }

    pub fn offers(&self) -> (r: &[Policy])
        ensures
            r@ == self.offers@,
    {
        self.offers.as_slice()
    }

    pub fn datasets_or_catalogs(&self) -> (r: &[DatasetOrCatalog])
        ensures
            r@ == self.datasets_or_catalogs@,
    {
        self.datasets_or_catalogs.as_slice()
    }

    /// The record of this node as a dataset.
    fn to_dataset(&self) -> (r: Dataset)
        ensures
            r.describes(self),
    {
        Dataset::new(
            self.id.clone(),
            copy_strings(&self.types),
            copy_strings(&self.dcterms_types),
            copy_policies(&self.offers),
            self.common_properties.clone(),
        )
    }

    /// The datasets of the tree under this node, depth-first in document order.
    pub fn flatten_datasets(&self) -> (r: Vec<Dataset>)
        ensures
            records_of(r@, dataset_nodes(*self)),
        decreases self, 1nat,
    {
        if self.is_dataset() {
            let mut r: Vec<Dataset> = Vec::new();
            r.push(self.to_dataset());
            r
        } else {
            proof {
                assert(decreases_to!(*self => self.datasets_or_catalogs));
            }
            flatten_datasets_of(&self.datasets_or_catalogs)
        }
    }

    /// The services of the tree under this node: all services of a catalog
    /// node; below any other node, the titled ones.
    pub fn flatten_services(&self) -> (r: Vec<Service>)
        ensures
            copies_services(r@, services_of_node(*self)),
        decreases self, 1nat,
    {
        if self.is_catalog() {
            let r = self.services.clone();
            assert(copies_services(r@, self.services@));
            r
        } else {
            proof {
                assert(decreases_to!(*self => self.datasets_or_catalogs));
            }
            let all = flatten_services_of(&self.datasets_or_catalogs);
            keep_titled(&all, Ghost(services_of_nodes(self.datasets_or_catalogs@)))
        }
    }

    /// The datasets and services of the tree under this node: a dataset node
    /// alone; for any other node its titled services, then what its children
    /// yield.
    pub fn flatten_datasets_and_services(&self) -> (r: Vec<DatasetOrService>)
        ensures
            entries_for(r@, entries_of_node(*self)),
        decreases self, 1nat,
    {
        if self.is_dataset() {
            let mut r: Vec<DatasetOrService> = Vec::new();
            r.push(DatasetOrService::Dataset(self.to_dataset()));
            proof {
                assert(r@[0].stands_for(entries_of_node(*self)[0]));
            }
            r
        } else {
            proof {
                assert(copies_services(self.services@, self.services@));
            }
            let titled_services = keep_titled(&self.services, Ghost(self.services@));
            let mut r: Vec<DatasetOrService> = Vec::new();
            let ghost srcs = titled(self.services@).map_values(|s: Service| FlatSource::ServiceOf(s));
            let mut i: usize = 0;
            while i < titled_services.len()
                invariant
                    i <= titled_services@.len(),
                    copies_services(titled_services@, titled(self.services@)),
                    srcs == titled(self.services@).map_values(|s: Service| FlatSource::ServiceOf(s)),
                    entries_for(r@, srcs.subrange(0, i as int)),
                decreases titled_services@.len() - i,
            {
                let s = titled_services[i].clone();
                let ghost before = r@;
                r.push(DatasetOrService::Service(s));
                proof {
                    let q = srcs.subrange(0, i + 1);
                    assert(q =~= srcs.subrange(0, i as int).push(srcs[i as int]));
                    assert(srcs[i as int] == FlatSource::ServiceOf(titled(self.services@)[i as int]));
                    assert(titled_services@[i as int].same_as(&titled(self.services@)[i as int]));
                    assert forall|k: int| 0 <= k < q.len() implies #[trigger] r@[k].stands_for(q[k]) by {
                        if k < before.len() {
                            assert(r@[k] == before[k]);
                        }
                    }
                }
                i = i + 1;
            }
            proof {
                assert(srcs.subrange(0, i as int) =~= srcs);
                assert(decreases_to!(*self => self.datasets_or_catalogs));
            }
            let mut rest = flatten_entries_of(&self.datasets_or_catalogs);
            let ghost before = r@;
            let ghost added = rest@;
            r.append(&mut rest);
            proof {
                let all = srcs + entries_of_nodes(self.datasets_or_catalogs@);
                assert(entries_of_node(*self) == all);
                assert forall|k: int| 0 <= k < all.len() implies #[trigger] r@[k].stands_for(all[k]) by {
                    if k < srcs.len() {
                        assert(r@[k] == before[k]);
                    } else {
                        assert(r@[k] == added[k - srcs.len()]);
                    }
                }
            }
            r
        }
    }
}

/// Copies of the titled services of `s`, in order, where `s` holds copies of
/// `orig`.
fn keep_titled(s: &Vec<Service>, Ghost(orig): Ghost<Seq<Service>>) -> (r: Vec<Service>)
    requires
        copies_services(s@, orig),
    ensures
        copies_services(r@, titled(orig)),
{
    let mut r: Vec<Service> = Vec::new();
    let mut i: usize = 0;
    while i < s.len()
        invariant
            i <= s@.len(),
            copies_services(s@, orig),
            copies_services(r@, titled(orig.subrange(0, i as int))),
        decreases s@.len() - i,
    {
        let ghost p = orig.subrange(0, i as int);
        let ghost q = orig.subrange(0, i + 1);
        proof {
            assert(q.drop_last() =~= p);
            assert(q.last() == orig[i as int]);
            reveal(Seq::filter);
            assert(s@[i as int].same_as(&orig[i as int]));
        }
        if s[i].common_properties.title.is_some() {
            let ghost before = r@;
            r.push(s[i].clone());
            proof {
                assert(titled(q) == titled(p).push(orig[i as int]));
                assert forall|k: int| 0 <= k < titled(q).len() implies #[trigger] r@[k].same_as(
                    &titled(q)[k],
                ) by {
                    if k < before.len() {
                        assert(r@[k] == before[k]);
                    }
                }
            }
        } else {
            proof {
                assert(titled(q) == titled(p));
            }
        }
        i = i + 1;
    }
    proof {
        assert(orig.subrange(0, i as int) =~= orig);
    }
    r
}

/// The datasets of the trees under each of `nodes`, one after the other.
fn flatten_datasets_of(nodes: &Vec<DatasetOrCatalog>) -> (r: Vec<Dataset>)
    ensures
        records_of(r@, dataset_nodes_of(nodes@)),
    decreases nodes, 0nat,
{
    let mut r: Vec<Dataset> = Vec::new();
    let mut i: usize = 0;
    while i < nodes.len()
        invariant
            i <= nodes@.len(),
            records_of(r@, dataset_nodes_of(nodes@.subrange(0, i as int))),
        decreases nodes@.len() - i,
    {
        proof {
            vstd::std_specs::vec::axiom_vec_index_decreases(*nodes, i as int);
        }
        let mut part = nodes[i].flatten_datasets();
        let ghost before = r@;
        let ghost added = part@;
        r.append(&mut part);
        proof {
            let s = nodes@.subrange(0, i + 1);
            assert(s.subrange(0, s.len() - 1) =~= nodes@.subrange(0, i as int));
            assert(s[s.len() - 1] == nodes@[i as int]);
            let ns = dataset_nodes_of(s);
            assert(ns == dataset_nodes_of(nodes@.subrange(0, i as int)) + dataset_nodes(nodes@[i as int]));
            assert forall|k: int| 0 <= k < ns.len() implies #[trigger] r@[k].describes(&ns[k]) by {
                assert(r@ == before + added);
            }
        }
        i = i + 1;
    }
    proof {
        assert(nodes@.subrange(0, i as int) =~= nodes@);
    }
    r
}

/// What the trees under each of `nodes` yield as services, one after the other.
fn flatten_services_of(nodes: &Vec<DatasetOrCatalog>) -> (r: Vec<Service>)
    ensures
        copies_services(r@, services_of_nodes(nodes@)),
    decreases nodes, 0nat,
{
    let mut r: Vec<Service> = Vec::new();
    let mut i: usize = 0;
    while i < nodes.len()
        invariant
            i <= nodes@.len(),
            copies_services(r@, services_of_nodes(nodes@.subrange(0, i as int))),
        decreases nodes@.len() - i,
    {
        proof {
            vstd::std_specs::vec::axiom_vec_index_decreases(*nodes, i as int);
        }
        let mut part = nodes[i].flatten_services();
        let ghost before = r@;
        let ghost added = part@;
        r.append(&mut part);
        proof {
            let s = nodes@.subrange(0, i + 1);
            assert(s.subrange(0, s.len() - 1) =~= nodes@.subrange(0, i as int));
            assert(s[s.len() - 1] == nodes@[i as int]);
            let ns = services_of_nodes(s);
            assert(ns == services_of_nodes(nodes@.subrange(0, i as int)) + services_of_node(nodes@[i as int]));
            assert forall|k: int| 0 <= k < ns.len() implies #[trigger] r@[k].same_as(&ns[k]) by {
                assert(r@ == before + added);
            }
        }
        i = i + 1;
    }
    proof {
        assert(nodes@.subrange(0, i as int) =~= nodes@);
    }
    r
}

/// What the trees under each of `nodes` yield in the combined flattening, one
/// after the other.
fn flatten_entries_of(nodes: &Vec<DatasetOrCatalog>) -> (r: Vec<DatasetOrService>)
    ensures
        entries_for(r@, entries_of_nodes(nodes@)),
    decreases nodes, 0nat,
{
    let mut r: Vec<DatasetOrService> = Vec::new();
    let mut i: usize = 0;
    while i < nodes.len()
        invariant
            i <= nodes@.len(),
            entries_for(r@, entries_of_nodes(nodes@.subrange(0, i as int))),
        decreases nodes@.len() - i,
    {
        proof {
            vstd::std_specs::vec::axiom_vec_index_decreases(*nodes, i as int);
        }
        let mut part = nodes[i].flatten_datasets_and_services();
        let ghost before = r@;
        let ghost added = part@;
        r.append(&mut part);
        proof {
            let s = nodes@.subrange(0, i + 1);
            assert(s.subrange(0, s.len() - 1) =~= nodes@.subrange(0, i as int));
            assert(s[s.len() - 1] == nodes@[i as int]);
            let ns = entries_of_nodes(s);
            assert(ns == entries_of_nodes(nodes@.subrange(0, i as int)) + entries_of_node(nodes@[i as int]));
            assert forall|k: int| 0 <= k < ns.len() implies #[trigger] r@[k].stands_for(ns[k]) by {
                assert(r@ == before + added);
            }
        }
        i = i + 1;
    }
    proof {
        assert(nodes@.subrange(0, i as int) =~= nodes@);
    }
    r
}

/// The dataset nodes that the entries `s` stand for, in order.
pub open spec fn dataset_sources(s: Seq<FlatSource>) -> Seq<DatasetOrCatalog>
    decreases s.len(),
{
    if s.len() == 0 {
        Seq::empty()
    } else {
        let front = dataset_sources(s.drop_last());
        match s.last() {
            FlatSource::DatasetNode(n) => front.push(n),
            FlatSource::ServiceOf(_) => front,
        }
    }
}

proof fn lemma_dataset_sources_add(a: Seq<FlatSource>, b: Seq<FlatSource>)
    ensures
        dataset_sources(a + b) == dataset_sources(a) + dataset_sources(b),
    decreases b.len(),
{
    if b.len() == 0 {
        assert(a + b =~= a);
        assert(dataset_sources(a) + dataset_sources(b) =~= dataset_sources(a));
    } else {
        lemma_dataset_sources_add(a, b.drop_last());
        assert((a + b).drop_last() =~= a + b.drop_last());
        assert((a + b).last() == b.last());
        match b.last() {
            FlatSource::DatasetNode(n) => {
                assert(dataset_sources(a) + dataset_sources(b.drop_last()).push(n) =~= (
                dataset_sources(a) + dataset_sources(b.drop_last())).push(n));
            },
            FlatSource::ServiceOf(_) => {},
        }
    }
}

proof fn lemma_dataset_sources_of_services(s: Seq<Service>)
    ensures
        dataset_sources(s.map_values(|x: Service| FlatSource::ServiceOf(x))) == Seq::<
            DatasetOrCatalog,
        >::empty(),
    decreases s.len(),
{
    let m = s.map_values(|x: Service| FlatSource::ServiceOf(x));
    if s.len() > 0 {
        lemma_dataset_sources_of_services(s.drop_last());
        assert(m.drop_last() =~= s.drop_last().map_values(|x: Service| FlatSource::ServiceOf(x)));
    }
}

/// The datasets among the entries of the combined flattening of a tree are
/// exactly the datasets of its dataset flattening, in the same order, however
/// deep they lie.
pub proof fn law_combined_datasets_match(n: DatasetOrCatalog)
    ensures
        dataset_sources(entries_of_node(n)) == dataset_nodes(n),
    decreases n, 1nat,
{
    if n.is_dataset_spec() {
        let e = entries_of_node(n);
        assert(e == seq![FlatSource::DatasetNode(n)]);
        assert(e.drop_last() =~= Seq::<FlatSource>::empty());
        assert(dataset_sources(e.drop_last()) == Seq::<DatasetOrCatalog>::empty());
        assert(e.last() == FlatSource::DatasetNode(n));
        assert(dataset_sources(e) == Seq::<DatasetOrCatalog>::empty().push(n));
        assert(Seq::<DatasetOrCatalog>::empty().push(n) =~= seq![n]);
    } else {
        let services = titled(n.services@).map_values(|s: Service| FlatSource::ServiceOf(s));
        assert(entries_of_node(n) == services + entries_of_nodes(n.datasets_or_catalogs@));
        assert(decreases_to!(n => n.datasets_or_catalogs@));
        lemma_dataset_sources_add(services, entries_of_nodes(n.datasets_or_catalogs@));
        lemma_dataset_sources_of_services(titled(n.services@));
        law_combined_datasets_match_all(n.datasets_or_catalogs@);
        assert(Seq::<DatasetOrCatalog>::empty() + dataset_nodes_of(n.datasets_or_catalogs@)
            =~= dataset_nodes_of(n.datasets_or_catalogs@));
    }
}

/// The same, for a list of trees flattened one after the other.
pub proof fn law_combined_datasets_match_all(s: Seq<DatasetOrCatalog>)
    ensures
        dataset_sources(entries_of_nodes(s)) == dataset_nodes_of(s),
    decreases s, 0nat,
{
    if s.len() == 0 {
    } else {
        let front = s.subrange(0, s.len() - 1);
        law_combined_datasets_match_all(front);
        law_combined_datasets_match(s[s.len() - 1]);
        lemma_dataset_sources_add(entries_of_nodes(front), entries_of_node(s[s.len() - 1]));
    }
}

/// The datasets among the entries `r`, in order.
pub open spec fn dataset_entries(r: Seq<DatasetOrService>) -> Seq<Dataset>
    decreases r.len(),
{
    if r.len() == 0 {
        Seq::empty()
    } else {
        let front = dataset_entries(r.drop_last());
        match r.last() {
            DatasetOrService::Dataset(d) => front.push(d),
            DatasetOrService::Service(_) => front,
        }
    }
}

proof fn lemma_entries_records(r: Seq<DatasetOrService>, e: Seq<FlatSource>)
    requires
        entries_for(r, e),
    ensures
        records_of(dataset_entries(r), dataset_sources(e)),
    decreases r.len(),
{
    if r.len() > 0 {
        let rf = r.drop_last();
        let ef = e.drop_last();
        assert(entries_for(rf, ef)) by {
            assert forall|i: int| 0 <= i < ef.len() implies #[trigger] rf[i].stands_for(ef[i]) by {
                assert(r[i].stands_for(e[i]));
            }
        }
        lemma_entries_records(rf, ef);
        assert(r[r.len() - 1].stands_for(e[e.len() - 1]));
        match e.last() {
            FlatSource::DatasetNode(m) => {
                let d = r.last()->Dataset_0;
                let a = dataset_entries(rf);
                let b = dataset_sources(ef);
                assert(dataset_entries(r) == a.push(d));
                assert(dataset_sources(e) == b.push(m));
                assert forall|i: int| 0 <= i < b.len() + 1 implies #[trigger] a.push(d)[i].describes(
                    &b.push(m)[i],
                ) by {
                    if i < b.len() {
                        assert(a[i].describes(&b[i]));
                    }
                }
            },
            FlatSource::ServiceOf(_) => {},
        }
    }
}

/// The dataset entries of the combined flattening of a tree are records of
/// the same nodes, in the same order, as the records of its dataset
/// flattening: each gives the node's identifier, type tags, usage policies and
/// descriptive properties.
pub proof fn law_combined_records_match(r: Seq<DatasetOrService>, n: DatasetOrCatalog)
    requires
        entries_for(r, entries_of_node(n)),
    ensures
        records_of(dataset_entries(r), dataset_nodes(n)),
{
    lemma_entries_records(r, entries_of_node(n));
    law_combined_datasets_match(n);
}

/// A node that is not a dataset, has no titled services and has exactly one
/// child is passed through: every flattening of it is that of its child.
/// Down a chain of such nodes a dataset node yields its one record, however
/// long the chain.
pub proof fn law_single_child_passes_through(n: DatasetOrCatalog)
    requires
        !n.is_dataset_spec(),
        titled(n.services@).len() == 0,
        n.datasets_or_catalogs@.len() == 1,
    ensures
        entries_of_node(n) == entries_of_node(n.datasets_or_catalogs@[0]),
        dataset_nodes(n) == dataset_nodes(n.datasets_or_catalogs@[0]),
{
    let s = n.datasets_or_catalogs@;
    assert(s.subrange(0, 0) =~= Seq::<DatasetOrCatalog>::empty());
    assert(entries_of_nodes(s.subrange(0, 0)) == Seq::<FlatSource>::empty());
    assert(dataset_nodes_of(s.subrange(0, 0)) == Seq::<DatasetOrCatalog>::empty());
    assert(Seq::<FlatSource>::empty() + entries_of_node(s[0]) =~= entries_of_node(s[0]));
    assert(Seq::<DatasetOrCatalog>::empty() + dataset_nodes(s[0]) =~= dataset_nodes(s[0]));
    let services = titled(n.services@).map_values(|x: Service| FlatSource::ServiceOf(x));
    assert(services =~= Seq::<FlatSource>::empty());
    assert(services + entries_of_nodes(s) =~= entries_of_nodes(s));
}

/// A dataset node yields exactly its own record in the combined flattening.
pub proof fn law_dataset_node_yields_itself(n: DatasetOrCatalog)
    requires
        n.is_dataset_spec(),
    ensures
        entries_of_node(n) == seq![FlatSource::DatasetNode(n)],
        dataset_nodes(n) == seq![n],
{
}

/// Every dataset that the dataset flattening of a tree yields stands for a
/// node tagged as a dataset.
pub proof fn law_datasets_are_tagged(n: DatasetOrCatalog)
    ensures
        forall|i: int|
            0 <= i < dataset_nodes(n).len() ==> (#[trigger] dataset_nodes(n)[i]).is_dataset_spec(),
    decreases n, 1nat,
{
    if n.is_dataset_spec() {
        assert(dataset_nodes(n) =~= seq![n]);
    } else {
        assert(decreases_to!(n => n.datasets_or_catalogs@));
        law_datasets_are_tagged_all(n.datasets_or_catalogs@);
        assert(dataset_nodes(n) == dataset_nodes_of(n.datasets_or_catalogs@));
    }
}

/// The same, for a list of trees flattened one after the other.
pub proof fn law_datasets_are_tagged_all(s: Seq<DatasetOrCatalog>)
    ensures
        forall|i: int|
            0 <= i < dataset_nodes_of(s).len() ==> (#[trigger] dataset_nodes_of(s)[i]).is_dataset_spec(),
    decreases s, 0nat,
{
    if s.len() > 0 {
        let front = s.subrange(0, s.len() - 1);
        law_datasets_are_tagged_all(front);
        law_datasets_are_tagged(s[s.len() - 1]);
        let a = dataset_nodes_of(front);
        let b = dataset_nodes(s[s.len() - 1]);
        assert forall|i: int| 0 <= i < (a + b).len() implies (#[trigger] (a + b)[i]).is_dataset_spec() by {
            if i < a.len() {
                assert((a + b)[i] == a[i]);
            } else {
                assert((a + b)[i] == b[i - a.len()]);
            }
        }
    }
}

/// A catalog document as a connector returns it.
#[derive(Debug)]
pub struct Catalog {
    pub id: String,
    pub datasets_or_catalogs: Vec<DatasetOrCatalog>,
    pub participant_id: Option<String>,
}

impl Catalog {
    pub fn id(&self) -> (r: &str)
        ensures
            r@ == self.id@,
    {
        self.id.as_str()
    }

    pub fn datasets_or_catalogs(&self) -> (r: &[DatasetOrCatalog])
        ensures
            r@ == self.datasets_or_catalogs@,
    {
        self.datasets_or_catalogs.as_slice()
    }

    pub fn participant_id(&self) -> (r: &Option<String>)
        ensures
            *r == self.participant_id,
    {
        &self.participant_id
    }

    /// The datasets of the document, depth-first in document order.
    pub fn datasets(&self) -> (r: Vec<Dataset>)
        ensures
            records_of(r@, dataset_nodes_of(self.datasets_or_catalogs@)),
    {
        flatten_datasets_of(&self.datasets_or_catalogs)
    }

    /// The services of the document, node after node.
    pub fn services(&self) -> (r: Vec<Service>)
        ensures
            copies_services(r@, services_of_nodes(self.datasets_or_catalogs@)),
    {
        flatten_services_of(&self.datasets_or_catalogs)
    }

    /// The datasets and services of the document, node after node.
    pub fn datasets_and_services(&self) -> (r: Vec<DatasetOrService>)
        ensures
            entries_for(r@, entries_of_nodes(self.datasets_or_catalogs@)),
    {
        flatten_entries_of(&self.datasets_or_catalogs)
    }
}


/// A request for the catalog of the connector at `counter_party_address`.
#[derive(Debug)]
pub struct CatalogRequest {
    pub counter_party_address: String,
    pub protocol: Protocol,
    pub counter_party_id: Option<String>,
    pub query_spec: Query,
}

/// Builds a `CatalogRequest`.
pub struct CatalogRequestBuilder {
    pub counter_party_address: String,
    pub protocol: Protocol,
    pub counter_party_id: Option<String>,
    pub query_spec: Query,
}

impl CatalogRequest {
    /// A builder for a request to `counter_party_address` over the default
    /// protocol, for the first page of the catalog.
    pub fn builder(counter_party_address: &str) -> (r: CatalogRequestBuilder)
        ensures
            r.counter_party_address@ == counter_party_address@,
            r.protocol.0@ == crate::types::query::DATASPACE_PROTOCOL@,
            r.counter_party_id is None,
            r.query_spec.offset == 0,
            r.query_spec.limit == crate::types::query::DEFAULT_LIMIT,
            r.query_spec.filter_expression@.len() == 0,
    {
        CatalogRequestBuilder {
            counter_party_address: counter_party_address.to_owned(),
            protocol: Protocol::default(),
            counter_party_id: None,
            query_spec: Query::new(),
        }
    }
}

impl CatalogRequestBuilder {
    pub fn protocol(self, protocol: Protocol) -> (r: Self)
        ensures
            r.protocol == protocol,
            r.counter_party_address == self.counter_party_address,
            r.counter_party_id == self.counter_party_id,
            r.query_spec == self.query_spec,
    {
        let mut b = self;
        b.protocol = protocol;
        b
    }

    pub fn counter_party_id(self, counter_party_id: &str) -> (r: Self)
        ensures
            r.counter_party_id is Some && r.counter_party_id->Some_0@ == counter_party_id@,
            r.counter_party_address == self.counter_party_address,
            r.protocol == self.protocol,
            r.query_spec == self.query_spec,
    {
        let mut b = self;
        b.counter_party_id = Some(counter_party_id.to_owned());
        b
    }

    pub fn query_spec(self, query_spec: Query) -> (r: Self)
        ensures
            r.query_spec == query_spec,
            r.counter_party_address == self.counter_party_address,
            r.protocol == self.protocol,
            r.counter_party_id == self.counter_party_id,
    {
        let mut b = self;
        b.query_spec = query_spec;
        b
    }

    pub fn build(self) -> (r: CatalogRequest)
        ensures
            r.counter_party_address == self.counter_party_address,
            r.protocol == self.protocol,
            r.counter_party_id == self.counter_party_id,
            r.query_spec == self.query_spec,
    {
        CatalogRequest {
            counter_party_address: self.counter_party_address,
            protocol: self.protocol,
            counter_party_id: self.counter_party_id,
            query_spec: self.query_spec,
        }
    }
}

/// A request for dataset `id` of the connector at `counter_party_address`.
#[derive(Debug)]
pub struct DatasetRequest {
    pub id: String,
    pub counter_party_address: String,
    pub protocol: Protocol,
}

impl DatasetRequest {
    /// A request over the default protocol.
    pub fn new(id: &str, counter_party_address: &str) -> (r: DatasetRequest)
        ensures
            r.id@ == id@,
            r.counter_party_address@ == counter_party_address@,
            r.protocol.0@ == crate::types::query::DATASPACE_PROTOCOL@,
    {
        DatasetRequest {
            id: id.to_owned(),
            counter_party_address: counter_party_address.to_owned(),
            protocol: Protocol::default(),
        }
    }

    pub fn with_protocol(self, protocol: Protocol) -> (r: DatasetRequest)
        ensures
            r.protocol == protocol,
            r.id == self.id,
            r.counter_party_address == self.counter_party_address,
    {
        DatasetRequest { id: self.id, counter_party_address: self.counter_party_address, protocol }
    }
}

} // verus!
