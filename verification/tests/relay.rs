use super_copy::copy_list::CopyList;
use super_copy::relay::Action;
use super_copy::relay::check_copy_request;
use super_copy::relay::dispatch;
use super_copy::relay::handle_forwarded_args;
use super_copy::relay::handle_startup_args;
use super_copy::relay::parse_command;
use super_copy::relay::settle_paste;
use super_copy::relay::RelayCommand;
use super_copy::relay::tray_response;
use super_copy::relay::TrayResponse;

fn strings(items: &[&str]) -> Vec<String> {
    items.iter().map(|s| s.to_string()).collect()
}

#[test]
fn accumulation() {
    let mut list = CopyList::new();
    list.append("a".to_string());
    list.append("b".to_string());
    assert_eq!(list.snapshot(), strings(&["a", "b"]));
}

#[test]
fn duplicates_are_kept() {
    let mut list = CopyList::new();
    list.append("a".to_string());
    list.append("a".to_string());
    assert_eq!(list.snapshot(), strings(&["a", "a"]));
}

#[test]
fn paste_clears_on_success() {
    let mut list = CopyList::new();
    list.append("a".to_string());
    list.append("b".to_string());
    let args = strings(&["exe", "--paste", "D"]);
    let act = dispatch(&mut list, &args);
    match act {
        Action::BulkCopy { sources, destination } => {
            assert_eq!(sources, strings(&["a", "b"]));
            assert_eq!(destination, "D".to_string());
        }
        _ => panic!("a paste over a non-empty list must start a bulk copy"),
    }
    settle_paste(&mut list, true);
    assert_eq!(list.snapshot(), strings(&[]));
}

#[test]
fn paste_preserves_on_failure() {
    let mut list = CopyList::new();
    list.append("a".to_string());
    list.append("b".to_string());
    let args = strings(&["exe", "--paste", "D"]);
    let act = dispatch(&mut list, &args);
    assert!(matches!(act, Action::BulkCopy { .. }));
    settle_paste(&mut list, false);
    assert_eq!(list.snapshot(), strings(&["a", "b"]));
}

#[test]
fn empty_paste_is_no_op() {
    let mut list = CopyList::new();
    let args = strings(&["exe", "--paste", "D"]);
    let act = dispatch(&mut list, &args);
    assert!(matches!(act, Action::Nothing));
    assert_eq!(list.snapshot(), strings(&[]));
}

#[test]
fn entry_points_are_identical() {
    let args = strings(&["exe", "--copy", "/x/file.txt"]);

    let mut at_startup = CopyList::new();
    let startup_act = handle_startup_args(&mut at_startup, &args);

    let mut forwarded = CopyList::new();
    let forwarded_act = handle_forwarded_args(&mut forwarded, &args);

    assert_eq!(at_startup.snapshot(), strings(&["/x/file.txt"]));
    assert_eq!(at_startup.snapshot(), forwarded.snapshot());
    assert!(matches!(startup_act, Action::ShowWindow));
    assert!(matches!(forwarded_act, Action::ShowWindow));
}

#[test]
fn removal_removes_every_match() {
    let mut list = CopyList::new();
    list.append("a".to_string());
    list.append("b".to_string());
    list.append("a".to_string());
    list.remove(&"a".to_string());
    assert_eq!(list.snapshot(), strings(&["b"]));
}

#[test]
fn removal_of_absent_path_is_no_error() {
    let mut list = CopyList::new();
    list.append("a".to_string());
    list.remove(&"zzz".to_string());
    assert_eq!(list.snapshot(), strings(&["a"]));
}

#[test]
fn unrecognized_command_is_inert() {
    let mut list = CopyList::new();
    list.append("a".to_string());
    let args = strings(&["exe", "--frobnicate", "x"]);
    let act = dispatch(&mut list, &args);
    assert!(matches!(act, Action::Nothing));
    assert_eq!(list.snapshot(), strings(&["a"]));
}

#[test]
fn plain_launch_is_inert() {
    let mut list = CopyList::new();
    let act = dispatch(&mut list, &strings(&["exe"]));
    assert!(matches!(act, Action::Nothing));
    assert_eq!(list.snapshot(), strings(&[]));
}

#[test]
fn copy_without_operand_is_inert() {
    let mut list = CopyList::new();
    let act = dispatch(&mut list, &strings(&["exe", "--copy"]));
    assert!(matches!(act, Action::Nothing));
    assert_eq!(list.snapshot(), strings(&[]));
}

#[test]
fn copy_appends_and_shows_window() {
    let mut list = CopyList::new();
    list.append("a".to_string());
    let act = dispatch(&mut list, &strings(&["exe", "--copy", "b"]));
    assert!(matches!(act, Action::ShowWindow));
    assert_eq!(list.snapshot(), strings(&["a", "b"]));
}

#[test]
fn clear_empties_the_list() {
    let mut list = CopyList::new();
    list.append("a".to_string());
    list.append("b".to_string());
    list.clear();
    assert_eq!(list.len(), 0);
    assert_eq!(list.snapshot(), strings(&[]));
}

#[test]
fn parse_recognizes_each_command() {
    match parse_command(&strings(&["exe", "--copy", "/p"])) {
        RelayCommand::Copy(p) => assert_eq!(p, "/p".to_string()),
        _ => panic!("--copy with an operand must parse as a copy"),
    }
    match parse_command(&strings(&["exe", "--paste", "/d"])) {
        RelayCommand::Paste(d) => assert_eq!(d, "/d".to_string()),
        _ => panic!("--paste with an operand must parse as a paste"),
    }
    assert!(matches!(parse_command(&strings(&["exe", "--copy"])), RelayCommand::Unrecognized));
    assert!(matches!(parse_command(&strings(&["exe"])), RelayCommand::Unrecognized));
    assert!(matches!(parse_command(&strings(&["exe", "--other", "x"])), RelayCommand::Unrecognized));
}

#[test]
fn empty_copy_request_is_refused() {
    let r = check_copy_request(&strings(&[]));
    assert_eq!(r, Err("The copy list is empty.".to_string()));
}

#[test]
fn non_empty_copy_request_is_accepted() {
    let r = check_copy_request(&strings(&["a"]));
    assert_eq!(r, Ok(()));
}

#[test]
fn tray_selections_map_to_their_responses() {
    assert!(matches!(tray_response(&"show".to_string()), TrayResponse::ShowAndFocus));
    assert!(matches!(tray_response(&"hide".to_string()), TrayResponse::HideWindow));
    assert!(matches!(tray_response(&"quit".to_string()), TrayResponse::QuitAndUnregister));
    assert!(matches!(tray_response(&"other".to_string()), TrayResponse::Ignore));
}
