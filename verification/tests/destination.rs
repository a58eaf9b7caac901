use desktop_shortcut::destination::{is_superuser_home, system_destination, user_destination};

#[test]
fn system_destination_is_below_usr_share() {
    assert_eq!(system_destination("MyApp"), "/usr/share/applications/MyApp.desktop");
}

#[test]
fn user_destination_is_below_the_home_directory() {
    assert_eq!(
        user_destination("/home/ada", "MyApp"),
        "/home/ada/.local/share/applications/MyApp.desktop"
    );
}

#[test]
fn destinations_take_the_name_as_it_is() {
    assert_eq!(system_destination(""), "/usr/share/applications/.desktop");
    assert_eq!(system_destination("My App ☕"), "/usr/share/applications/My App ☕.desktop");
    assert_eq!(user_destination("", "a/b"), "/.local/share/applications/a/b.desktop");
}

#[test]
fn only_root_is_the_superuser_home() {
    assert!(is_superuser_home("/root"));
    assert!(!is_superuser_home("/root/"));
    assert!(!is_superuser_home("/home/root"));
    assert!(!is_superuser_home("/roo"));
    assert!(!is_superuser_home(""));
    assert!(!is_superuser_home("/home/ada"));
}
