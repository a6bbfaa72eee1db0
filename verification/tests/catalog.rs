use cxl_fm::catalog::Catalog;
use cxl_fm::catalog::CatalogError;
use cxl_fm::catalog::CommandDescriptor;

#[test]
fn new_catalog_is_empty() {
    let catalog: Catalog<u32> = Catalog::new();
    assert_eq!(catalog.len(), 0);
    assert_eq!(catalog.lookup("GET_FM_INFO"), None);
    assert_eq!(catalog.label("GET_FM_INFO"), None);
    assert!(catalog.descriptors().is_empty());
}

#[test]
fn registered_command_is_found() {
    let mut catalog: Catalog<u32> = Catalog::new();
    assert_eq!(catalog.register("GET_FM_INFO", "Get info", 7), Ok(()));
    assert_eq!(catalog.len(), 1);
    assert_eq!(catalog.lookup("GET_FM_INFO"), Some(&7));
    assert_eq!(catalog.label("GET_FM_INFO"), Some("Get info"));
    assert_eq!(catalog.lookup("GET_FM_INF"), None);
    assert_eq!(catalog.lookup("GET_FM_INFO "), None);
    assert_eq!(catalog.lookup("get_fm_info"), None);
    assert_eq!(catalog.lookup(""), None);
}

#[test]
fn duplicate_id_is_refused() {
    let mut catalog: Catalog<u32> = Catalog::new();
    assert_eq!(catalog.register("START_FM", "Start", 1), Ok(()));
    assert_eq!(catalog.register("START_FM", "Start again", 2), Err(CatalogError::DuplicateId));
    assert_eq!(catalog.len(), 1);
    assert_eq!(catalog.lookup("START_FM"), Some(&1));
    assert_eq!(catalog.label("START_FM"), Some("Start"));
}

#[test]
fn invalid_id_is_refused() {
    let mut catalog: Catalog<u32> = Catalog::new();
    assert_eq!(catalog.register("", "Empty", 1), Err(CatalogError::InvalidId));
    assert_eq!(catalog.register("A\nB", "Two lines", 2), Err(CatalogError::InvalidId));
    assert_eq!(catalog.register("A\n", "Terminated", 3), Err(CatalogError::InvalidId));
    assert_eq!(catalog.register("A\r", "Carriage return", 4), Err(CatalogError::InvalidId));
    assert_eq!(catalog.len(), 0);
    assert_eq!(catalog.lookup(""), None);
    assert_eq!(catalog.lookup("A"), None);
}

#[test]
fn invalid_id_is_reported_before_duplicate() {
    let mut catalog: Catalog<u32> = Catalog::new();
    assert_eq!(catalog.register("A", "a", 1), Ok(()));
    assert_eq!(catalog.register("A\n", "a", 1), Err(CatalogError::InvalidId));
    assert_eq!(catalog.register("A", "a", 1), Err(CatalogError::DuplicateId));
}

#[test]
fn registration_order_is_irrelevant() {
    let mut one: Catalog<u32> = Catalog::new();
    assert_eq!(one.register("START_FM", "Start", 1), Ok(()));
    assert_eq!(one.register("STOP_FM", "Stop", 2), Ok(()));
    let mut other: Catalog<u32> = Catalog::new();
    assert_eq!(other.register("STOP_FM", "Stop", 2), Ok(()));
    assert_eq!(other.register("START_FM", "Start", 1), Ok(()));
    for id in ["START_FM", "STOP_FM", "RESTART_FM", ""] {
        assert_eq!(one.lookup(id), other.lookup(id));
        assert_eq!(one.label(id), other.label(id));
    }
    assert_eq!(one.len(), other.len());
}

#[test]
fn descriptors_come_in_registration_order() {
    let mut catalog: Catalog<()> = Catalog::new();
    assert_eq!(catalog.register("STOP_FM", "Stop", ()), Ok(()));
    assert_eq!(catalog.register("START_FM", "Start", ()), Ok(()));
    assert_eq!(catalog.register("STOP_FM", "Stop", ()), Err(CatalogError::DuplicateId));
    assert_eq!(catalog.register("RESTART_FM", "Restart", ()), Ok(()));
    let descriptors = catalog.descriptors();
    assert_eq!(catalog.len(), 3);
    assert_eq!(
        descriptors,
        vec![
            CommandDescriptor { id: String::from("STOP_FM"), label: String::from("Stop") },
            CommandDescriptor { id: String::from("START_FM"), label: String::from("Start") },
            CommandDescriptor { id: String::from("RESTART_FM"), label: String::from("Restart") },
        ]
    );
}

#[test]
fn requester_side_catalog_needs_no_handler() {
    let mut catalog: Catalog<()> = Catalog::new();
    assert_eq!(catalog.register("GET_FM_INFO", "Get info", ()), Ok(()));
    assert_eq!(catalog.lookup("GET_FM_INFO"), Some(&()));
    assert_eq!(catalog.lookup("BOGUS_COMMAND"), None);
}
