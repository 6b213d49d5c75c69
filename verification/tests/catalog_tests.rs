use toshi_server::flush;
use toshi_server::index_summary;
use toshi_server::FlushStatus;
use toshi_server::IndexCatalog;
use toshi_server::LocalIndex;
use toshi_server::QueryOptions;
use toshi_server::Settings;
use toshi_server::SummaryStatus;

fn ram_index() -> (tantivy::Index, tantivy::schema::Field) {
    let mut builder = tantivy::schema::Schema::builder();
    let body = builder.add_text_field("body", tantivy::schema::TEXT);
    (tantivy::Index::create_in_ram(builder.build()), body)
}

fn attached(name: &str) -> LocalIndex {
    let (index, _body) = ram_index();
    LocalIndex::new(index, Settings::default(), name).unwrap()
}

fn catalog_with(name: &str) -> IndexCatalog {
    let mut catalog = IndexCatalog::new();
    catalog.add_index(attached(name));
    catalog
}

#[test]
fn empty_catalog_holds_nothing() {
    let catalog = IndexCatalog::new();
    assert!(!catalog.has_index(&"missing".to_string()));
    assert!(catalog.get_index(&"missing".to_string()).is_none());
}

#[test]
fn attached_index_is_resident_under_its_name() {
    let catalog = catalog_with("test_index");
    assert!(catalog.has_index(&"test_index".to_string()));
    let handle = catalog.get_index(&"test_index".to_string()).unwrap();
    assert_eq!(handle.get_name(), "test_index");
    assert!(!catalog.has_index(&"other".to_string()));
}

#[test]
fn handle_reports_committed_metadata() {
    let handle = attached("test_index");
    let opstamp = handle.commit().unwrap();
    let metas = handle.load_metas().unwrap();
    assert_eq!(metas.opstamp, opstamp);
}

#[test]
fn commit_makes_buffered_documents_durable() {
    let (index, body) = ram_index();
    let handle = LocalIndex::new(index, Settings::default(), "test_index").unwrap();
    {
        let (writer, guard) = handle.get_writer().acquire_write();
        let mut doc = tantivy::Document::new();
        doc.add_text(body, "hello world");
        writer.add_document(doc).unwrap();
        guard.release_write(writer);
    }
    let before = handle.load_metas().unwrap();
    let docs_before: u32 = before.segments.iter().map(|s| s.num_docs()).sum();
    assert_eq!(docs_before, 0);

    let mut catalog = IndexCatalog::new();
    catalog.add_index(handle);
    assert!(matches!(flush(&catalog, &"test_index".to_string()), FlushStatus::Committed));

    let after = catalog
        .get_index(&"test_index".to_string())
        .unwrap()
        .load_metas()
        .unwrap();
    let docs_after: u32 = after.segments.iter().map(|s| s.num_docs()).sum();
    assert_eq!(docs_after, 1);
}

#[test]
fn flush_of_missing_index_is_not_found_and_changes_nothing() {
    let catalog = catalog_with("test_index");
    assert!(matches!(flush(&catalog, &"missing".to_string()), FlushStatus::NotFound));
    assert!(catalog.has_index(&"test_index".to_string()));
    assert!(matches!(flush(&catalog, &"test_index".to_string()), FlushStatus::Committed));
}

#[test]
fn flushes_of_two_indices_use_independent_writer_locks() {
    let mut catalog = IndexCatalog::new();
    catalog.add_index(attached("left"));
    catalog.add_index(attached("right"));
    let left = catalog.get_index(&"left".to_string()).unwrap();
    let right = catalog.get_index(&"right".to_string()).unwrap();
    // Holding one index's writer lock does not block the other's flush.
    let (writer, guard) = left.get_writer().acquire_write();
    assert!(matches!(flush(&catalog, &"right".to_string()), FlushStatus::Committed));
    guard.release_write(writer);
    assert!(matches!(flush(&catalog, &"left".to_string()), FlushStatus::Committed));
    assert_eq!(right.get_name(), "right");
}

fn found(status: SummaryStatus) -> toshi_server::SummaryResponse {
    match status {
        SummaryStatus::Found(s) => s,
        SummaryStatus::NotFound(e) => panic!("unexpected not-found: {}", e.message()),
        SummaryStatus::Failed(e) => panic!("unexpected failure: {}", e.message()),
    }
}

#[test]
fn summary_includes_size_exactly_when_asked() {
    let catalog = catalog_with("test_index");
    let name = "test_index".to_string();
    let with_sizes = QueryOptions { include_sizes: Some(true) };
    assert!(found(index_summary(&catalog, &name, &with_sizes)).size.is_some());

    let without = QueryOptions { include_sizes: Some(false) };
    assert!(found(index_summary(&catalog, &name, &without)).size.is_none());

    let absent = QueryOptions { include_sizes: None };
    assert!(found(index_summary(&catalog, &name, &absent)).size.is_none());
}

#[test]
fn summary_of_missing_index_names_it() {
    let catalog = catalog_with("test_index");
    let options = QueryOptions { include_sizes: None };
    match index_summary(&catalog, &"missing_index".to_string(), &options) {
        SummaryStatus::NotFound(e) => {
            assert_eq!(e.message().as_str(), "Index missing_index does not exist");
        }
        _ => panic!("summary of a missing index must report not-found"),
    }
}

#[test]
fn get_summary_data() {
    let catalog = catalog_with("test_index");
    let options = QueryOptions { include_sizes: Some(true) };
    let summary = found(index_summary(&catalog, &"test_index".to_string(), &options));
    assert!(summary.size.is_some());
    assert_eq!(summary.metas.opstamp, 0);
}

#[test]
fn resolved_handle_outlives_the_catalog_lookup() {
    let catalog = catalog_with("test_index");
    let handle = catalog.get_index(&"test_index".to_string()).unwrap();
    drop(catalog);
    assert_eq!(handle.get_name(), "test_index");
    assert!(handle.commit().is_ok());
}
