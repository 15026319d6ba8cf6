use momentum::error::StoreError;
use momentum::location::{same_backing_file, unchanged, StoreLocation};
use momentum::relocation::{Movement, Progress, Relocated, Relocation, RelocationStep};

fn at(directory: &str) -> StoreLocation {
    StoreLocation { directory: directory.to_string() }
}

fn failed(reason: &str) -> Result<(), String> {
    Err(reason.to_string())
}

/// Feeds the answers to a relocation and returns the steps it asked for and
/// how it ended.
fn run(
    current: &str,
    target: &str,
    answers: Vec<Result<(), String>>,
) -> (Vec<RelocationStep>, Result<Relocated, StoreError>) {
    let mut relocation = Relocation::begin(at(current), at(target));
    let mut steps = vec![relocation.step];
    for answer in answers {
        match relocation.advance(answer) {
            Progress::Next(next) => {
                steps.push(next.step);
                relocation = next;
            }
            Progress::Finished(end) => return (steps, end),
        }
    }
    panic!("the relocation did not end; steps so far: {:?}", steps);
}

#[test]
fn relocation_begins_by_creating_the_target_directory() {
    let relocation = Relocation::begin(at("/data/old"), at("/data/new"));
    assert_eq!(relocation.step, RelocationStep::CreateDirectory);
    assert_eq!(relocation.current, at("/data/old"));
    assert_eq!(relocation.target, at("/data/new"));
    assert!(!relocation.unchanged);
    assert_eq!(relocation.movement, Movement::Unchanged);
    assert!(!relocation.leftover);
}

#[test]
fn relocation_to_the_same_directory_touches_nothing() {
    let (steps, end) = run("/data/store", "/data/store", vec![Ok(())]);
    assert_eq!(steps, vec![RelocationStep::CreateDirectory]);
    assert_eq!(end.unwrap(), Relocated { movement: Movement::Unchanged, leftover: false });
}

#[test]
fn relocation_to_the_same_place_written_otherwise_touches_nothing() {
    let (steps, end) = run("/data/store", "/data/store/", vec![Ok(())]);
    assert_eq!(steps, vec![RelocationStep::CreateDirectory]);
    assert_eq!(end.unwrap(), Relocated { movement: Movement::Unchanged, leftover: false });
}

#[test]
fn rename_moves_the_file_and_the_preference_is_recorded() {
    let (steps, end) = run("/data/old", "/data/new", vec![Ok(()), Ok(()), Ok(()), Ok(())]);
    assert_eq!(
        steps,
        vec![
            RelocationStep::CreateDirectory,
            RelocationStep::ProbeSource,
            RelocationStep::Rename,
            RelocationStep::SavePreference,
        ]
    );
    assert_eq!(end.unwrap(), Relocated { movement: Movement::Renamed, leftover: false });
}

#[test]
fn failed_rename_falls_back_to_copy_and_remove() {
    let (steps, end) = run(
        "/data/old",
        "/mnt/other/new",
        vec![Ok(()), Ok(()), failed("cross-device link"), Ok(()), Ok(()), Ok(())],
    );
    assert_eq!(
        steps,
        vec![
            RelocationStep::CreateDirectory,
            RelocationStep::ProbeSource,
            RelocationStep::Rename,
            RelocationStep::Copy,
            RelocationStep::RemoveSource,
            RelocationStep::SavePreference,
        ]
    );
    assert_eq!(end.unwrap(), Relocated { movement: Movement::Copied, leftover: false });
}

#[test]
fn failed_copy_ends_the_relocation_before_anything_is_removed() {
    let (steps, end) = run(
        "/data/old",
        "/mnt/other/new",
        vec![Ok(()), Ok(()), failed("cross-device link"), failed("disk full")],
    );
    assert_eq!(
        steps,
        vec![
            RelocationStep::CreateDirectory,
            RelocationStep::ProbeSource,
            RelocationStep::Rename,
            RelocationStep::Copy,
        ]
    );
    match end {
        Err(StoreError::RelocationIo { step, reason }) => {
            assert_eq!(step, RelocationStep::Copy);
            assert_eq!(reason, "disk full");
        }
        other => panic!("unexpected end: {:?}", other),
    }
}

#[test]
fn failed_removal_leaves_a_duplicate_and_does_not_stop_the_relocation() {
    let (steps, end) = run(
        "/data/old",
        "/mnt/other/new",
        vec![Ok(()), Ok(()), failed("cross-device link"), Ok(()), failed("busy"), Ok(())],
    );
    assert_eq!(steps.last(), Some(&RelocationStep::SavePreference));
    assert_eq!(steps.len(), 6);
    assert_eq!(end.unwrap(), Relocated { movement: Movement::Copied, leftover: true });
}

#[test]
fn missing_source_only_records_the_preference() {
    let (steps, end) = run("/data/old", "/data/new", vec![Ok(()), failed(""), Ok(())]);
    assert_eq!(
        steps,
        vec![
            RelocationStep::CreateDirectory,
            RelocationStep::ProbeSource,
            RelocationStep::SavePreference,
        ]
    );
    assert_eq!(end.unwrap(), Relocated { movement: Movement::NothingToMove, leftover: false });
}

#[test]
fn directory_that_cannot_be_created_ends_the_relocation() {
    let (steps, end) = run("/data/old", "/data/new", vec![failed("permission denied")]);
    assert_eq!(steps, vec![RelocationStep::CreateDirectory]);
    match end {
        Err(StoreError::RelocationIo { step, reason }) => {
            assert_eq!(step, RelocationStep::CreateDirectory);
            assert_eq!(reason, "permission denied");
        }
        other => panic!("unexpected end: {:?}", other),
    }
}

#[test]
fn directory_that_cannot_be_created_ends_a_relocation_to_the_same_place_too() {
    let (_, end) = run("/data/store", "/data/store", vec![failed("read-only")]);
    assert!(matches!(
        end,
        Err(StoreError::RelocationIo { step: RelocationStep::CreateDirectory, .. })
    ));
}

#[test]
fn preference_that_cannot_be_recorded_fails_the_relocation() {
    let (_, end) = run("/data/old", "/data/new", vec![Ok(()), Ok(()), Ok(()), failed("no space")]);
    match end {
        Err(StoreError::RelocationIo { step, reason }) => {
            assert_eq!(step, RelocationStep::SavePreference);
            assert_eq!(reason, "no space");
        }
        other => panic!("unexpected end: {:?}", other),
    }
}

#[test]
fn locations_written_the_same_hold_the_same_file() {
    assert!(same_backing_file(&at("/data/store"), &at("/data/store")));
    assert!(same_backing_file(&at(""), &at("")));
    assert!(!same_backing_file(&at("/data/old"), &at("/data/new")));
}

#[test]
fn unchanged_goes_by_the_text_or_by_the_platform() {
    assert!(unchanged("/a", "/a", false));
    assert!(unchanged("/a", "/a/", true));
    assert!(unchanged("/a", "/a", true));
    assert!(!unchanged("/a", "/b", false));
}

#[test]
fn backing_file_lies_in_the_directory() {
    let path = at("/data/store").backing_file();
    assert_eq!(path, std::path::Path::new("/data/store").join("momentum.db"));
    assert_eq!(StoreLocation::file_name(), "momentum.db");
    assert_eq!(StoreLocation::preference_key(), "databasePath");
}

#[test]
fn preference_wins_over_the_default_directory() {
    let chosen = StoreLocation::resolve(Some("/custom".to_string()), "/default".to_string());
    assert_eq!(chosen, at("/custom"));
    let fallback = StoreLocation::resolve(None, "/default".to_string());
    assert_eq!(fallback, at("/default"));
}
