use infiltrator::platform::{
    apply_data_dir, apply_data_dir_override, DataDirProvider, DesktopDataDirProvider,
    HomeDirOverride,
};

struct MockProvider {
    path: String,
}

impl DataDirProvider for MockProvider {
    fn prescribed_dir(&self) -> Option<String> {
        Some(self.path.clone())
    }

    fn data_dir(&self) -> Option<String> {
        Some(self.path.clone())
    }
}

struct NoneProvider;

impl DataDirProvider for NoneProvider {
    fn prescribed_dir(&self) -> Option<String> {
        None
    }

    fn data_dir(&self) -> Option<String> {
        None
    }
}

#[test]
fn test_apply_data_dir_override() {
    let path = String::from("/test/path");
    let provider = MockProvider { path: path.clone() };
    let mut paths = HomeDirOverride::new();
    apply_data_dir_override(&provider, &mut paths);
    assert_eq!(paths.get_home_dir(Err("no home".to_string())).unwrap(), path);
    paths.clear_home_dir_override();
}

#[test]
fn test_apply_data_dir_override_none() {
    let provider = NoneProvider;
    let mut paths = HomeDirOverride::new();
    paths.clear_home_dir_override();
    apply_data_dir_override(&provider, &mut paths);
    // Should not change anything
    assert!(paths.dir.is_none());
}

#[test]
fn test_apply_default_data_dir_override() {
    let provider = DesktopDataDirProvider::default();
    let mut paths = HomeDirOverride::new();
    apply_data_dir_override(&provider, &mut paths);
    assert!(paths.dir.is_none());
}

#[test]
fn home_dir_falls_back_to_the_platform_default() {
    let mut paths = HomeDirOverride::new();
    assert_eq!(paths.get_home_dir(Ok("/home/me/.config".to_string())).unwrap(), "/home/me/.config");
    assert!(paths.get_home_dir(Err("none".to_string())).is_err());
    paths.set_home_dir_override("/data".to_string());
    assert_eq!(paths.get_home_dir(Ok("/home/me/.config".to_string())).unwrap(), "/data");
}

#[test]
fn a_platform_without_a_directory_keeps_an_existing_override() {
    let mut paths = HomeDirOverride::new();
    paths.set_home_dir_override("/kept".to_string());
    apply_data_dir(None, &mut paths);
    assert_eq!(paths.dir.as_deref(), Some("/kept"));
    apply_data_dir(Some("/new".to_string()), &mut paths);
    assert_eq!(paths.dir.as_deref(), Some("/new"));
}
