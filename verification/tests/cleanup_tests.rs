use blog::cleanup::{db_batches, purge_after_scan, PurgeStep, DB_BATCH_SIZE, FS_BATCH_SIZE};
use blog::resource::ResourcePath;

fn paths(n: usize) -> Vec<ResourcePath> {
    (0..n).map(|i| ResourcePath::from_relative("up", &format!("f{i}.txt"))).collect()
}

#[test]
fn purge_stops_after_a_short_scan() {
    assert_eq!(purge_after_scan(0), PurgeStep::Stop);
    assert_eq!(purge_after_scan(FS_BATCH_SIZE - 1), PurgeStep::Stop);
    assert_eq!(purge_after_scan(FS_BATCH_SIZE), PurgeStep::Continue);
    assert_eq!(FS_BATCH_SIZE, 1000);
}

#[test]
fn db_batches_cut_in_order() {
    let files = paths(450);
    let names: Vec<String> = files.iter().map(|p| p.relative().to_owned()).collect();
    let batches = db_batches(files);
    assert_eq!(DB_BATCH_SIZE, 200);
    assert_eq!(batches.iter().map(|b| b.len()).collect::<Vec<_>>(), vec![200, 200, 50]);
    let flat: Vec<String> = batches.iter().flatten().map(|p| p.relative().to_owned()).collect();
    assert_eq!(flat, names);
}

#[test]
fn db_batches_of_exact_multiples_and_empty() {
    assert_eq!(db_batches(paths(400)).iter().map(|b| b.len()).collect::<Vec<_>>(), vec![200, 200]);
    assert!(db_batches(Vec::new()).is_empty());
    assert_eq!(db_batches(paths(1)).len(), 1);
}
