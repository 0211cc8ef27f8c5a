use super_copy::registry::copy_menu_command;
use super_copy::registry::menu_icon_value;
use super_copy::registry::paste_menu_command;

#[test]
fn copy_entry_binds_the_copy_flag() {
    assert_eq!(
        copy_menu_command("C:\\app\\super.exe"),
        "\"C:\\app\\super.exe\" \"--copy\" \"%1\"".to_string()
    );
}

#[test]
fn paste_entry_binds_the_paste_flag() {
    assert_eq!(
        paste_menu_command("C:\\app\\super.exe"),
        "\"C:\\app\\super.exe\" \"--paste\" \"%V\"".to_string()
    );
}

#[test]
fn icon_value_names_the_first_icon() {
    assert_eq!(menu_icon_value("C:\\app\\super.exe"), "C:\\app\\super.exe,0".to_string());
}
