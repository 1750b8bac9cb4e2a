use the_honkers_railway_launcher::version::{AppMsg, ComponentVersion, ComponentsListVersion, VersionState};

fn entry(recommended: bool) -> ComponentsListVersion {
    ComponentsListVersion {
        name: String::from("wine-ge-8-26"),
        title: String::from("Wine-GE 8-26"),
        uri: String::from("https://example.org/wine-ge-8-26.tar.xz"),
        recommended,
    }
}

#[test]
fn init_takes_the_entry_and_starts_filtered() {
    let row = ComponentVersion::init(entry(true), String::from("/data/runners"), false);
    assert_eq!(row.name, "wine-ge-8-26");
    assert_eq!(row.title, "Wine-GE 8-26");
    assert_eq!(row.download_uri, "https://example.org/wine-ge-8-26.tar.xz");
    assert_eq!(row.download_folder, "/data/runners");
    assert!(row.recommended);
    assert!(row.show_recommended_only);
    assert!(matches!(row.state, VersionState::NotDownloaded));
}

#[test]
fn init_of_an_installed_version_is_downloaded() {
    let row = ComponentVersion::init(entry(false), String::from("/data/runners"), true);
    assert!(matches!(row.state, VersionState::Downloaded));
}

#[test]
fn button_icon_follows_the_state() {
    let mut row = ComponentVersion::init(entry(true), String::from("/data"), false);
    assert_eq!(row.button_icon(), "document-save-symbolic");
    row.state = VersionState::Downloaded;
    assert_eq!(row.button_icon(), "user-trash-symbolic");
    row.state = VersionState::Downloading(10, 100);
    assert_eq!(row.button_icon(), "user-trash-symbolic");
    row.state = VersionState::Unpacking(10, 100);
    assert_eq!(row.button_icon(), "user-trash-symbolic");
}

#[test]
fn recommended_only_switch_filters_rows() {
    let mut plain = ComponentVersion::init(entry(false), String::from("/data"), false);
    let mut recommended = ComponentVersion::init(entry(true), String::from("/data"), false);
    assert!(!plain.is_visible());
    assert!(recommended.is_visible());

    plain.update(AppMsg::ShowRecommendedOnly(false));
    recommended.update(AppMsg::ShowRecommendedOnly(false));
    assert!(!plain.show_recommended_only);
    assert!(plain.is_visible());
    assert!(recommended.is_visible());

    plain.update(AppMsg::ShowRecommendedOnly(true));
    assert!(!plain.is_visible());
    assert_eq!(plain.name, "wine-ge-8-26");
}
