use album_sorter::plan::{
    check_roots, cleanup_action, cleanup_target, destination_folder, identifier_of, placement, Cleanup, PathState,
    Placement, RootError, Setup,
};
use album_sorter::resolver::Resolver;

const FOLDER: PathState = PathState { exists: true, is_dir: true };
const FILE: PathState = PathState { exists: true, is_dir: false };
const NOTHING: PathState = PathState { exists: false, is_dir: false };

fn example_resolver() -> Resolver {
    Resolver::new(Some(r#"{"AAAAAAAAAAAAAAAAAAAAAAAAAAAAAAAA": "Example Game"}"#))
}

#[test]
fn roots_in_place() {
    assert_eq!(check_roots(FOLDER, FOLDER), Ok(Setup::Ready));
}

#[test]
fn missing_output_folder_is_created() {
    assert_eq!(check_roots(FOLDER, NOTHING), Ok(Setup::CreateSorted));
}

#[test]
fn album_that_is_no_folder_is_refused() {
    assert_eq!(check_roots(FILE, FOLDER), Err(RootError::AlbumNotFolder));
    assert_eq!(check_roots(FILE, NOTHING), Err(RootError::AlbumNotFolder));
    assert_eq!(check_roots(FILE, FILE), Err(RootError::AlbumNotFolder));
}

#[test]
fn output_that_is_no_folder_is_refused() {
    assert_eq!(check_roots(FOLDER, FILE), Err(RootError::SortedNotFolder));
    assert_eq!(check_roots(NOTHING, FILE), Err(RootError::SortedNotFolder));
}

#[test]
fn missing_album_is_refused() {
    assert_eq!(check_roots(NOTHING, FOLDER), Err(RootError::AlbumMissing));
    assert_eq!(check_roots(NOTHING, NOTHING), Err(RootError::AlbumMissing));
}

#[test]
fn roots_are_checked_for_every_state() {
    let states = [false, true];
    for album_exists in states {
        for album_is_dir in states {
            for sorted_exists in states {
                for sorted_is_dir in states {
                    let album = PathState { exists: album_exists, is_dir: album_is_dir };
                    let sorted = PathState { exists: sorted_exists, is_dir: sorted_is_dir };
                    let expected = if album_exists && !album_is_dir {
                        Err(RootError::AlbumNotFolder)
                    } else if sorted_exists && !sorted_is_dir {
                        Err(RootError::SortedNotFolder)
                    } else if !album_exists {
                        Err(RootError::AlbumMissing)
                    } else if !sorted_exists {
                        Ok(Setup::CreateSorted)
                    } else {
                        Ok(Setup::Ready)
                    };
                    assert_eq!(check_roots(album, sorted), expected);
                }
            }
        }
    }
}

#[test]
fn identifier_follows_the_first_dash() {
    assert_eq!(
        identifier_of("IMG-AAAAAAAAAAAAAAAAAAAAAAAAAAAAAAAA"),
        Some("AAAAAAAAAAAAAAAAAAAAAAAAAAAAAAAA".to_string())
    );
    assert_eq!(
        identifier_of("2023081520300400-57B4628D2267231D57E0FC1078C0596D"),
        Some("57B4628D2267231D57E0FC1078C0596D".to_string())
    );
}

#[test]
fn identifier_keeps_later_dashes() {
    assert_eq!(identifier_of("a-b-c"), Some("b-c".to_string()));
    assert_eq!(identifier_of("a--b"), Some("-b".to_string()));
    assert_eq!(identifier_of("--"), Some("-".to_string()));
}

#[test]
fn identifier_may_be_empty() {
    assert_eq!(identifier_of("IMG-"), Some(String::new()));
    assert_eq!(identifier_of("-"), Some(String::new()));
}

#[test]
fn identifier_after_an_empty_prefix() {
    assert_eq!(identifier_of("-ABC"), Some("ABC".to_string()));
}

#[test]
fn stem_without_dash_has_no_identifier() {
    assert_eq!(identifier_of("IMG"), None);
    assert_eq!(identifier_of(""), None);
    assert_eq!(identifier_of("IMG_0001 copy"), None);
    assert_eq!(identifier_of("IMG\u{2010}ABC"), None);
}

#[test]
fn identifier_of_a_stem_with_wide_characters() {
    assert_eq!(identifier_of("\u{e9}t\u{e9}-\u{fc}ber-\u{1f3ae}"), Some("\u{fc}ber-\u{1f3ae}".to_string()));
    assert_eq!(identifier_of("\u{1f3ae}\u{1f3ae}-x"), Some("x".to_string()));
}

#[test]
fn file_of_a_known_game_goes_to_the_folder_of_its_name() {
    let mut resolver = example_resolver();
    assert_eq!(
        destination_folder(&mut resolver, "IMG-AAAAAAAAAAAAAAAAAAAAAAAAAAAAAAAA"),
        Some("Example Game".to_string())
    );
    assert_eq!(
        destination_folder(&mut resolver, "2023081520300400-16851BE00BC6068871FE49D98876D6C5"),
        Some("Mario Kart 8 Deluxe".to_string())
    );
}

#[test]
fn file_of_an_unknown_game_goes_to_the_folder_of_its_identifier() {
    let mut resolver = Resolver::new(None);
    assert_eq!(
        destination_folder(&mut resolver, "IMG-AAAAAAAAAAAAAAAAAAAAAAAAAAAAAAAA"),
        Some("AAAAAAAAAAAAAAAAAAAAAAAAAAAAAAAA".to_string())
    );
    assert_eq!(destination_folder(&mut resolver, "IMG-"), Some(String::new()));
}

#[test]
fn file_without_identifier_is_left_alone() {
    let mut resolver = example_resolver();
    assert_eq!(destination_folder(&mut resolver, "AAAAAAAAAAAAAAAAAAAAAAAAAAAAAAAA"), None);
    assert_eq!(destination_folder(&mut resolver, ""), None);
}

#[test]
fn only_what_follows_the_first_dash_is_resolved() {
    let mut resolver = example_resolver();
    assert_eq!(
        destination_folder(&mut resolver, "AAAAAAAAAAAAAAAAAAAAAAAAAAAAAAAA-IMG"),
        Some("IMG".to_string())
    );
    assert_eq!(
        destination_folder(&mut resolver, "IMG-0-AAAAAAAAAAAAAAAAAAAAAAAAAAAAAAAA"),
        Some("0-AAAAAAAAAAAAAAAAAAAAAAAAAAAAAAAA".to_string())
    );
}

#[test]
fn sorting_a_file_copies_it_into_a_new_folder() {
    let mut resolver = example_resolver();
    let folder = destination_folder(&mut resolver, "IMG-AAAAAAAAAAAAAAAAAAAAAAAAAAAAAAAA");
    assert_eq!(folder, Some("Example Game".to_string()));
    assert_eq!(placement(NOTHING, false), Placement { create_folder: true, copy_file: true });
}

#[test]
fn file_is_copied_into_a_folder_that_is_there() {
    assert_eq!(placement(FOLDER, false), Placement { create_folder: false, copy_file: true });
}

#[test]
fn file_whose_name_is_taken_is_not_copied() {
    assert_eq!(placement(FOLDER, true), Placement { create_folder: false, copy_file: false });
}

#[test]
fn folder_is_created_where_a_file_bears_its_name() {
    assert_eq!(placement(FILE, false), Placement { create_folder: true, copy_file: true });
}

#[test]
fn placement_for_every_state() {
    let states = [false, true];
    for exists in states {
        for is_dir in states {
            for file_exists in states {
                let placed = placement(PathState { exists, is_dir }, file_exists);
                assert_eq!(placed.create_folder, !(exists && is_dir));
                assert_eq!(placed.copy_file, !file_exists);
            }
        }
    }
    assert_eq!(placement(NOTHING, true), Placement { create_folder: true, copy_file: false });
}

#[test]
fn folder_named_by_an_identifier_belongs_beside_itself_under_the_name() {
    let mut resolver = example_resolver();
    assert_eq!(
        cleanup_target(&mut resolver, "AAAAAAAAAAAAAAAAAAAAAAAAAAAAAAAA"),
        Some("../Example Game".to_string())
    );
    assert_eq!(
        cleanup_target(&mut resolver, "0C015090E6C5E3F06D97FEDE95458758"),
        Some("../Luigi's Mansion 3".to_string())
    );
}

#[test]
fn folder_with_another_name_stays() {
    let mut resolver = example_resolver();
    assert_eq!(cleanup_target(&mut resolver, "Example Game"), None);
    assert_eq!(cleanup_target(&mut resolver, "BBBBBBBBBBBBBBBBBBBBBBBBBBBBBBBB"), None);
    assert_eq!(cleanup_target(&mut resolver, ""), None);
}

#[test]
fn folder_is_renamed_where_its_target_is_free() {
    let mut resolver = example_resolver();
    assert_eq!(
        cleanup_target(&mut resolver, "AAAAAAAAAAAAAAAAAAAAAAAAAAAAAAAA"),
        Some("../Example Game".to_string())
    );
    assert_eq!(cleanup_action(NOTHING), Cleanup::Rename);
}

#[test]
fn folder_is_removed_where_its_target_exists() {
    let mut resolver = example_resolver();
    assert_eq!(
        cleanup_target(&mut resolver, "AAAAAAAAAAAAAAAAAAAAAAAAAAAAAAAA"),
        Some("../Example Game".to_string())
    );
    assert_eq!(cleanup_action(FOLDER), Cleanup::Remove);
}

#[test]
fn folder_is_not_removed_where_a_file_bears_the_name_of_its_target() {
    let mut resolver = Resolver::new(None);
    assert_eq!(
        cleanup_target(&mut resolver, "75A32021BE3512D7AA96B2D72F764411"),
        Some("../Celeste".to_string())
    );
    assert_eq!(cleanup_action(FILE), Cleanup::Rename);
}

#[test]
fn cleanup_for_every_state_of_the_target() {
    assert_eq!(cleanup_action(PathState { exists: false, is_dir: false }), Cleanup::Rename);
    assert_eq!(cleanup_action(PathState { exists: false, is_dir: true }), Cleanup::Rename);
    assert_eq!(cleanup_action(PathState { exists: true, is_dir: false }), Cleanup::Rename);
    assert_eq!(cleanup_action(PathState { exists: true, is_dir: true }), Cleanup::Remove);
}
