use shamrock_it::backup::{
    append_destination_paths, append_source_paths, copy_step, folder_name, get_destination_path,
    get_source_path, init_destination_paths, init_source_paths, source_path, zip_path, zip_step,
    CopyStep, EntryKind, PathError, ZipStep, FOLDER_COUNT,
};
use shamrock_it::db::{db_dir, status_action, ticket_row, Status, StatusAction, StatusObject, TicketData};

fn segs(v: &[&str]) -> Vec<String> {
    v.iter().map(|s| s.to_string()).collect()
}

#[test]
fn destination_and_source_paths() {
    assert_eq!(get_destination_path("bob"), segs(&["C:\\", "tmp", "bob"]));
    assert_eq!(source_path("bob"), segs(&["C:\\", "Users", "bob"]));
    assert_eq!(get_source_path("bob", true), Ok(segs(&["C:\\", "Users", "bob"])));
    assert_eq!(get_source_path("bob", false), Err(PathError::NotFound));
    assert_eq!(PathError::NotFound.message(), "Source path does not exist.");
}

#[test]
fn backup_pairs_each_folder_with_its_destination() {
    let mut sources = Vec::new();
    let mut destinations = Vec::new();
    init_source_paths(&mut sources, "bob", true);
    init_destination_paths(&mut destinations, "bob");
    append_source_paths(&mut sources);
    append_destination_paths(&mut destinations);
    assert_eq!(sources.len(), FOLDER_COUNT);
    assert_eq!(destinations.len(), FOLDER_COUNT);
    let names = ["Desktop", "Documents", "Downloads", "Favorites", "Pictures", "Videos"];
    for n in 0..FOLDER_COUNT {
        assert_eq!(folder_name(n), names[n]);
        assert_eq!(sources[n], Ok(segs(&["C:\\", "Users", "bob", names[n]])));
        assert_eq!(destinations[n], segs(&["C:\\", "tmp", "bob", names[n]]));
    }
}

#[test]
fn missing_profile_stays_an_error() {
    let mut sources = Vec::new();
    init_source_paths(&mut sources, "bob", false);
    append_source_paths(&mut sources);
    assert_eq!(sources.len(), 6);
    assert!(sources.iter().all(|s| *s == Err(PathError::NotFound)));
}

#[test]
fn paths_beyond_the_folders_are_unchanged() {
    let mut destinations = vec![segs(&["a"]); 7];
    append_destination_paths(&mut destinations);
    assert_eq!(destinations[5], segs(&["a", "Videos"]));
    assert_eq!(destinations[6], segs(&["a"]));
}

#[test]
fn copy_step_skips_desktop_ini() {
    let dst = segs(&["C:\\", "tmp", "bob", "Desktop"]);
    let rel = segs(&["desktop.ini"]);
    assert!(matches!(copy_step(&dst, &rel, &Some("desktop.ini".to_string()), EntryKind::File), CopyStep::Skip));
}

#[test]
fn copy_step_maps_relative_paths() {
    let dst = segs(&["C:\\", "tmp", "bob", "Desktop"]);
    let rel = segs(&["notes", "a.txt"]);
    match copy_step(&dst, &rel, &Some("a.txt".to_string()), EntryKind::File) {
        CopyStep::CopyFile(to) => assert_eq!(to, segs(&["C:\\", "tmp", "bob", "Desktop", "notes", "a.txt"])),
        _ => panic!("expected a file copy"),
    }
    match copy_step(&dst, &segs(&["notes"]), &Some("notes".to_string()), EntryKind::Directory) {
        CopyStep::MakeDirectory(to) => assert_eq!(to, segs(&["C:\\", "tmp", "bob", "Desktop", "notes"])),
        _ => panic!("expected a folder"),
    }
    assert!(matches!(copy_step(&dst, &rel, &None, EntryKind::Other), CopyStep::Nothing));
}

#[test]
fn zip_path_appends_zip_to_the_folder_name() {
    assert_eq!(zip_path(&segs(&["C:\\", "tmp", "bob"])), segs(&["C:\\", "tmp", "bob.zip"]));
    assert_eq!(zip_path(&segs(&["C:\\", "tmp", "john.doe"])), segs(&["C:\\", "tmp", "john.doe.zip"]));
    assert_eq!(zip_path(&segs(&["C:\\", "tmp", "john.smith"])), segs(&["C:\\", "tmp", "john.smith.zip"]));
    assert_eq!(zip_path(&segs(&["C:\\", "tmp", ".hidden"])), segs(&["C:\\", "tmp", ".hidden.zip"]));
    assert_eq!(zip_path(&segs(&["bob"])), segs(&["bob.zip"]));
}

#[test]
fn zip_step_by_entry() {
    assert_eq!(zip_step(true, &segs(&["Desktop", "a.txt"])), ZipStep::AddFile);
    assert_eq!(zip_step(false, &segs(&["Desktop"])), ZipStep::AddDirectory);
    assert_eq!(zip_step(false, &Vec::new()), ZipStep::Skip);
}

fn stored(no: &str, status: &str) -> StatusObject {
    StatusObject { ticket_no: no.to_string(), status: status.to_string() }
}

#[test]
fn status_action_updates_changed_status() {
    match status_action(&stored("17", "OPEN"), &stored("17", "IN PROGRESS")) {
        StatusAction::Update { status, ticket_no } => {
            assert_eq!(status, "IN PROGRESS");
            assert_eq!(ticket_no, "17");
        }
        other => panic!("unexpected {:?}", other),
    }
    match status_action(&stored("17", "OPEN"), &stored("17", "CLOSED")) {
        StatusAction::Update { status, .. } => assert_eq!(status, "CLOSED"),
        other => panic!("unexpected {:?}", other),
    }
}

#[test]
fn status_action_deletes_closed_and_keeps_the_rest() {
    match status_action(&stored("18", "CLOSED"), &stored("18", "CLOSED")) {
        StatusAction::Delete { ticket_no } => assert_eq!(ticket_no, "18"),
        other => panic!("unexpected {:?}", other),
    }
    assert!(matches!(status_action(&stored("19", "OPEN"), &stored("19", "OPEN")), StatusAction::Keep));
}

#[test]
fn ticket_row_writes_the_id_in_decimal() {
    let data = TicketData { id: 4021, status: Status { name: "Open".to_string() } };
    assert_eq!(ticket_row(&data), ("4021".to_string(), "Open".to_string()));
}

#[test]
fn db_dir_for_user() {
    assert_eq!(db_dir("bob"), "C:/Users/bob/AppData/Local/ShamRock-it-db/");
}
