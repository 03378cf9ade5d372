use edc_connector_client::types::catalog::{
    Catalog, CommonProperties, Creator, DatasetOrCatalog, DatasetOrService, Service, Thumbnail,
    CATALOG_TYPE, DATASET_TYPE,
};
use edc_connector_client::types::policy::{AtomicConstraint, Constraint, Permission, Policy};

fn props(title: Option<&str>) -> CommonProperties {
    CommonProperties {
        title: title.map(|t| t.to_string()),
        comment: None,
        keywords: vec![],
        thumbnail: None,
        creator: None,
        version: None,
    }
}

fn node(id: &str, tags: &[&str], children: Vec<DatasetOrCatalog>, services: Vec<Service>) -> DatasetOrCatalog {
    DatasetOrCatalog {
        id: id.to_string(),
        types: tags.iter().map(|t| t.to_string()).collect(),
        offers: vec![],
        datasets_or_catalogs: children,
        services,
        dcterms_types: vec![],
        common_properties: props(None),
    }
}

fn service(id: &str, title: Option<&str>) -> Service {
    Service {
        id: id.to_string(),
        types: vec!["dcat:DataService".to_string()],
        common_properties: props(title),
        endpoint_url: Some(format!("http://example.com/{}", id)),
        endpoint_description: None,
    }
}

fn ids_of_datasets(node: &DatasetOrCatalog) -> Vec<String> {
    node.flatten_datasets().iter().map(|d| d.id().to_string()).collect()
}

#[test]
fn catalog_with_two_datasets_flattens_in_order() {
    let root = node(
        "root",
        &[CATALOG_TYPE],
        vec![node("ds-1", &[DATASET_TYPE], vec![], vec![]), node("ds-2", &[DATASET_TYPE], vec![], vec![])],
        vec![],
    );
    assert_eq!(ids_of_datasets(&root), vec!["ds-1".to_string(), "ds-2".to_string()]);
}

#[test]
fn services_filter_depends_on_catalog_boundary() {
    let catalog = node(
        "cat",
        &[CATALOG_TYPE],
        vec![],
        vec![service("search", Some("Search")), service("untitled", None)],
    );
    let direct: Vec<String> = catalog.flatten_services().iter().map(|s| s.id().to_string()).collect();
    assert_eq!(direct, vec!["search".to_string(), "untitled".to_string()]);

    let wrapper = node("wrapper", &["dcat:Resource"], vec![catalog], vec![]);
    let below = wrapper.flatten_services();
    assert_eq!(below.len(), 1);
    assert_eq!(below[0].id(), "search");
    assert_eq!(below[0].common_properties().title.as_deref(), Some("Search"));
}

#[test]
fn nested_dataset_yields_one_record_and_no_services() {
    let inner = node("inner", &[CATALOG_TYPE], vec![node("deep", &[DATASET_TYPE], vec![], vec![])], vec![]);
    let outer = node("outer", &[CATALOG_TYPE], vec![inner], vec![]);
    let entries = outer.flatten_datasets_and_services();
    assert_eq!(entries.len(), 1);
    match &entries[0] {
        DatasetOrService::Dataset(d) => assert_eq!(d.id(), "deep"),
        DatasetOrService::Service(_) => panic!("expected a dataset"),
    }
}

#[test]
fn unclassified_node_passes_datasets_through() {
    let n = node("plain", &["dcat:Resource"], vec![node("leaf", &[DATASET_TYPE], vec![], vec![])], vec![]);
    assert_eq!(ids_of_datasets(&n), vec!["leaf".to_string()]);
}

#[test]
fn leaf_without_tags_yields_nothing() {
    let n = node("nothing", &[], vec![], vec![service("s", Some("S"))]);
    assert!(n.flatten_datasets().is_empty());
    assert!(n.flatten_services().is_empty());
    let entries = n.flatten_datasets_and_services();
    assert_eq!(entries.len(), 1);
    assert!(matches!(&entries[0], DatasetOrService::Service(s) if s.id() == "s"));
}

#[test]
fn dataset_node_children_are_not_walked() {
    let n = node("ds", &[DATASET_TYPE], vec![node("hidden", &[DATASET_TYPE], vec![], vec![])], vec![]);
    assert_eq!(ids_of_datasets(&n), vec!["ds".to_string()]);
}

#[test]
fn combined_flattening_puts_services_before_children() {
    let n = node(
        "root",
        &["dcat:Resource"],
        vec![node("ds-a", &[DATASET_TYPE], vec![], vec![])],
        vec![service("titled", Some("T")), service("untitled", None)],
    );
    let entries = n.flatten_datasets_and_services();
    assert_eq!(entries.len(), 2);
    assert!(matches!(&entries[0], DatasetOrService::Service(s) if s.id() == "titled"));
    assert!(matches!(&entries[1], DatasetOrService::Dataset(d) if d.id() == "ds-a"));
}

#[test]
fn dataset_record_copies_node_fields() {
    let mut n = node("ds", &[DATASET_TYPE, "extra"], vec![], vec![]);
    n.dcterms_types = vec!["dct:Text".to_string()];
    n.offers = vec![Policy::builder().id("offer-1").build()];
    n.common_properties = CommonProperties {
        title: Some("Title".to_string()),
        comment: Some("Comment".to_string()),
        keywords: vec!["k1".to_string(), "k2".to_string()],
        thumbnail: Some(Thumbnail { resource: "http://img".to_string() }),
        creator: Some(Creator { name: Some("Me".to_string()), thumbnail: None }),
        version: Some(semver::Version::new(1, 2, 3)),
    };
    let records = n.flatten_datasets();
    assert_eq!(records.len(), 1);
    let d = &records[0];
    assert_eq!(d.id(), "ds");
    assert_eq!(d.types(), &vec![DATASET_TYPE.to_string(), "extra".to_string()]);
    assert_eq!(d.dcterms_types(), &vec!["dct:Text".to_string()]);
    assert_eq!(d.policies().len(), 1);
    assert_eq!(d.policies()[0].id().map(|s| s.as_str()), Some("offer-1"));
    assert_eq!(d.common_properties(), n.common_properties());
    assert_eq!(d.common_properties().version, Some(semver::Version::new(1, 2, 3)));
    assert_eq!(d.common_properties().thumbnail.as_ref().map(|t| t.resource()), Some("http://img"));
}

#[test]
fn catalog_document_flattens_each_top_node() {
    let catalog = Catalog {
        id: "doc".to_string(),
        datasets_or_catalogs: vec![
            node("ds-1", &[DATASET_TYPE], vec![], vec![]),
            node("sub", &[CATALOG_TYPE], vec![node("ds-2", &[DATASET_TYPE], vec![], vec![])], vec![service("svc", None)]),
        ],
        participant_id: Some("provider".to_string()),
    };
    let ids: Vec<String> = catalog.datasets().iter().map(|d| d.id().to_string()).collect();
    assert_eq!(ids, vec!["ds-1".to_string(), "ds-2".to_string()]);
    let services = catalog.services();
    assert_eq!(services.len(), 1);
    assert_eq!(services[0].id(), "svc");
    let entries = catalog.datasets_and_services();
    assert_eq!(entries.len(), 2);
    assert_eq!(catalog.id(), "doc");
    assert_eq!(catalog.participant_id().as_deref(), Some("provider"));
    assert_eq!(catalog.datasets_or_catalogs().len(), 2);
}

#[test]
fn classification_by_tags() {
    let both = node("x", &[CATALOG_TYPE, DATASET_TYPE], vec![], vec![]);
    assert!(both.is_catalog());
    assert!(both.is_dataset());
    let neither = node("y", &["dcat:Catalogue"], vec![], vec![]);
    assert!(!neither.is_catalog());
    assert!(!neither.is_dataset());
}

#[test]
fn combined_datasets_match_dataset_flattening() {
    let tree = node(
        "root",
        &[CATALOG_TYPE],
        vec![
            node("a", &[DATASET_TYPE], vec![], vec![]),
            node("mid", &["dcat:Resource"], vec![node("b", &[DATASET_TYPE], vec![], vec![])], vec![service("s1", Some("S1"))]),
            node("sub", &[CATALOG_TYPE], vec![node("c", &[DATASET_TYPE, CATALOG_TYPE], vec![], vec![])], vec![service("s2", None)]),
        ],
        vec![service("s0", Some("S0"))],
    );
    let from_combined: Vec<String> = tree
        .flatten_datasets_and_services()
        .iter()
        .filter_map(|e| match e {
            DatasetOrService::Dataset(d) => Some(d.id().to_string()),
            DatasetOrService::Service(_) => None,
        })
        .collect();
    assert_eq!(from_combined, ids_of_datasets(&tree));
    assert_eq!(from_combined, vec!["a".to_string(), "b".to_string(), "c".to_string()]);
    for d in tree.flatten_datasets() {
        assert!(d.types().iter().any(|t| t == DATASET_TYPE));
    }
}

#[test]
fn clones_copy_whole_trees() {
    let tree = node("root", &[CATALOG_TYPE], vec![node("a", &[DATASET_TYPE], vec![], vec![])], vec![service("s", None)]);
    let copy = tree.clone();
    assert_eq!(copy.id(), "root");
    assert_eq!(ids_of_datasets(&copy), vec!["a".to_string()]);
    assert_eq!(copy.flatten_services(), tree.flatten_services());
    let entries = tree.flatten_datasets_and_services();
    assert_eq!(entries.clone(), entries);
}

#[test]
fn dataset_record_policies_equal_node_offers() {
    let offer = Policy::builder()
        .id("offer-7")
        .permission(
            Permission::builder()
                .constraint(Constraint::or(vec![Constraint::atomic(AtomicConstraint::new("a", "eq", 1i64))]))
                .build(),
        )
        .build();
    let mut n = node("ds", &[DATASET_TYPE], vec![], vec![]);
    n.offers = vec![offer.clone(), Policy::builder().build()];
    let from_flat = n.flatten_datasets();
    assert_eq!(from_flat[0].policies(), &n.offers);
    let entries = n.flatten_datasets_and_services();
    match &entries[0] {
        DatasetOrService::Dataset(d) => assert_eq!(d, &from_flat[0]),
        DatasetOrService::Service(_) => panic!("expected a dataset"),
    }
}

#[test]
fn dataset_under_a_chain_of_catalogs_yields_one_record() {
    let mut tree = node("d", &[DATASET_TYPE], vec![], vec![]);
    for k in 0..3 {
        tree = node(&format!("c{}", k), &[CATALOG_TYPE], vec![tree], vec![service("untitled", None)]);
        let entries = tree.flatten_datasets_and_services();
        assert_eq!(entries.len(), 1);
        assert!(matches!(&entries[0], DatasetOrService::Dataset(d) if d.id() == "d"));
    }
}
