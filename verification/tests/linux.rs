use pathos::linux::{system, user};
use pathos::path::native::NativePath;
use pathos::xdg;
use pathos::xdg::{DirectoryMetadata, Environment, RuntimeDirError};
use pathos::AppDirs;
use pathos::Error;
use pathos::UserDirs;

fn posix(text: &str) -> Option<NativePath> {
    Some(NativePath::posix(text))
}

fn home_only() -> Environment {
    Environment {
        home: posix("/home/ada"),
        data_home: None,
        config_home: None,
        cache_home: None,
        runtime_dir: None,
        data_dirs: None,
        config_dirs: None,
    }
}

fn bytes_of(paths: Vec<NativePath>) -> Vec<Vec<u8>> {
    paths.into_iter().map(|p| p.bytes).collect()
}

fn text_of(iri: &pathos::iri::ResourceIdentifier) -> String {
    String::from_utf8(iri.to_bytes()).unwrap()
}

#[test]
fn linux_system_directories() {
    assert_eq!(system::app_data_dir(b"app").bytes, b"/usr/share/app".to_vec());
    assert_eq!(system::app_config_dir(b"app").bytes, b"/etc/app".to_vec());
    assert_eq!(system::app_cache_dir(b"app").bytes, b"/var/cache/app".to_vec());
    assert_eq!(system::app_temporary_dir(b"app").bytes, b"/var/tmp/app".to_vec());
    assert_eq!(system::app_log_dir(b"app").bytes, b"/var/log/app".to_vec());
    let app = system::AppDirs::new(b"vendor/app");
    assert_eq!(app.data_dir().bytes, b"/usr/share/vendor/app".to_vec());
    assert_eq!(app.config_dir().bytes, b"/usr/share/vendor/app/config".to_vec());
    assert_eq!(app.cache_dir().bytes, b"/var/cache/vendor/app".to_vec());
    assert_eq!(app.temporary_dir().bytes, b"/var/cache/vendor/app/tmp".to_vec());
    assert_eq!(app.log_dir().bytes, b"/var/log/vendor/app".to_vec());
}

#[test]
fn absolute_prefix_replaces_the_base() {
    assert_eq!(system::app_data_dir(b"/opt/app").bytes, b"/opt/app".to_vec());
    assert_eq!(system::app_data_dir(b"").bytes, b"/usr/share/".to_vec());
    assert_eq!(system::app_data_dir(b"../x").bytes, b"/usr/share/../x".to_vec());
}

#[test]
fn xdg_defaults_below_home() {
    let env = home_only();
    assert_eq!(xdg::home_dir(&env).unwrap().bytes, b"/home/ada".to_vec());
    assert_eq!(xdg::data_home(&env).unwrap().bytes, b"/home/ada/.local/share".to_vec());
    assert_eq!(xdg::config_home(&env).unwrap().bytes, b"/home/ada/.config".to_vec());
    assert_eq!(xdg::cache_home(&env).unwrap().bytes, b"/home/ada/.cache".to_vec());
    assert_eq!(
        bytes_of(xdg::data_dirs(&env)),
        vec![b"/usr/local/share/".to_vec(), b"/usr/share/".to_vec()]
    );
    assert_eq!(bytes_of(xdg::config_dirs(&env)), vec![b"/etc/xdg/".to_vec()]);
}

#[test]
fn xdg_variables_count_only_when_absolute() {
    let env = Environment {
        data_home: posix("/srv/data"),
        config_home: posix("relative/config"),
        cache_home: posix(""),
        data_dirs: Some(vec![
            NativePath::posix("/a"),
            NativePath::posix("b"),
            NativePath::posix("/c"),
            NativePath::posix(""),
        ]),
        config_dirs: Some(vec![NativePath::posix("x")]),
        ..home_only()
    };
    assert_eq!(xdg::data_home(&env).unwrap().bytes, b"/srv/data".to_vec());
    assert_eq!(xdg::config_home(&env).unwrap().bytes, b"/home/ada/.config".to_vec());
    assert_eq!(xdg::cache_home(&env).unwrap().bytes, b"/home/ada/.cache".to_vec());
    assert_eq!(bytes_of(xdg::data_dirs(&env)), vec![b"/a".to_vec(), b"/c".to_vec()]);
    assert!(xdg::config_dirs(&env).is_empty());
}

#[test]
fn xdg_without_home() {
    let env = Environment { home: None, data_home: posix("/srv/data"), ..home_only() };
    assert!(matches!(xdg::home_dir(&env), Err(Error::NoHomeDirectory)));
    assert_eq!(xdg::data_home(&env).unwrap().bytes, b"/srv/data".to_vec());
    assert!(matches!(xdg::config_home(&env), Err(Error::NoHomeDirectory)));
    assert!(matches!(xdg::cache_home(&env), Err(Error::NoHomeDirectory)));
    assert_eq!(xdg::user::app_data_dir(&env, b"app").unwrap().bytes, b"/srv/data/app".to_vec());
    assert_eq!(
        xdg::user::app_log_dir(&env, b"app").unwrap().bytes,
        b"/srv/data/app/log".to_vec()
    );
    assert!(matches!(xdg::user::app_config_dir(&env, b"app"), Err(Error::NoHomeDirectory)));
    assert!(matches!(xdg::user::app_cache_dir(&env, b"app"), Err(Error::NoHomeDirectory)));
    assert!(matches!(xdg::user::app_temporary_dir(&env, b"app"), Err(Error::NoHomeDirectory)));
    assert!(matches!(user::Dirs::new(&env), Err(Error::NoHomeDirectory)));
    assert!(matches!(user::AppDirs::new(&env, b"app"), Err(Error::NoHomeDirectory)));
    assert!(matches!(user::data_dir(&env), Err(Error::NoHomeDirectory)));
    assert!(matches!(user::cache_dir(&env), Err(Error::NoHomeDirectory)));
    assert!(matches!(user::app_data_dir(&env, b"app"), Err(Error::NoHomeDirectory)));
    assert!(matches!(user::iri::app_cache_dir(&env, b"app"), Err(Error::NoHomeDirectory)));
}

#[test]
fn xdg_user_application_directories() {
    let env = home_only();
    let data = xdg::user::app_data_dir(&env, b"app").unwrap();
    assert_eq!(data.bytes, b"/home/ada/.local/share/app".to_vec());
    let config = xdg::user::app_config_dir(&env, b"app").unwrap();
    assert_eq!(config.bytes, b"/home/ada/.config/app".to_vec());
    let log = xdg::user::app_log_dir(&env, b"app").unwrap();
    assert_eq!(log.bytes, b"/home/ada/.local/share/app/log".to_vec());
    let cache = xdg::user::app_cache_dir(&env, b"app").unwrap();
    assert_eq!(cache.bytes, b"/home/ada/.cache/app".to_vec());
    let temporary = xdg::user::app_temporary_dir(&env, b"app").unwrap();
    assert_eq!(temporary.bytes, b"/home/ada/.cache/app/tmp".to_vec());
}

#[test]
fn linux_user_directories() {
    let env = Environment { cache_home: posix("/fast/cache"), ..home_only() };
    let dirs = user::Dirs::new(&env).unwrap();
    assert_eq!(dirs.home_dir().bytes, b"/home/ada".to_vec());
    assert_eq!(dirs.data_dir().bytes, b"/home/ada/.local/share".to_vec());
    assert_eq!(dirs.cache_dir().bytes, b"/fast/cache".to_vec());
    assert_eq!(user::data_dir(&env).unwrap().bytes, b"/home/ada/.local/share".to_vec());
    assert_eq!(user::cache_dir(&env).unwrap().bytes, b"/fast/cache".to_vec());

    let app = user::AppDirs::new(&env, b"vendor/app").unwrap();
    assert_eq!(app.data_dir().bytes, b"/home/ada/.local/share/vendor/app".to_vec());
    assert_eq!(app.config_dir().bytes, b"/home/ada/.config/vendor/app".to_vec());
    assert_eq!(app.cache_dir().bytes, b"/fast/cache/vendor/app".to_vec());
    assert_eq!(app.log_dir().bytes, b"/home/ada/.local/share/vendor/app/log".to_vec());
    assert_eq!(app.temporary_dir().bytes, b"/fast/cache/vendor/app/tmp".to_vec());

    let data = user::app_data_dir(&env, b"a").unwrap();
    assert_eq!(data.bytes, b"/home/ada/.local/share/a".to_vec());
    let config = user::app_config_dir(&env, b"a").unwrap();
    assert_eq!(config.bytes, b"/home/ada/.config/a".to_vec());
    let log = user::app_log_dir(&env, b"a").unwrap();
    assert_eq!(log.bytes, b"/home/ada/.local/share/a/log".to_vec());
    let cache = user::app_cache_dir(&env, b"a").unwrap();
    assert_eq!(cache.bytes, b"/fast/cache/a".to_vec());
    let temporary = user::app_temporary_dir(&env, b"a").unwrap();
    assert_eq!(temporary.bytes, b"/fast/cache/a/tmp".to_vec());
}

#[test]
fn linux_user_directories_as_identifiers() {
    let env = Environment { cache_home: posix("/fast/cache"), ..home_only() };
    let cache = user::iri::app_cache_dir(&env, b"my app").unwrap();
    assert_eq!(text_of(&cache), "file:///fast/cache/my%20app");
    let temporary = user::iri::app_temporary_dir(&env, b"a").unwrap();
    assert_eq!(text_of(&temporary), "file:///fast/cache/a/tmp");
    let path = user::iri::resolve(&cache).unwrap();
    assert_eq!(path.bytes, b"/fast/cache/my app".to_vec());
    assert!(matches!(
        user::iri::app_cache_dir(&env, b"../escape"),
        Err(Error::IriConversionFailed(pathos::IriError::InvalidComponent))
    ));
    assert!(matches!(
        user::iri::app_cache_dir(&env, b"./app"),
        Err(Error::IriConversionFailed(pathos::IriError::InvalidComponent))
    ));
    let relative = Environment { home: posix("home/ada"), ..home_only() };
    assert!(matches!(
        user::iri::app_cache_dir(&relative, b"app"),
        Err(Error::IriConversionFailed(pathos::IriError::NotAbsolute))
    ));
}

#[test]
fn runtime_directory_checks() {
    let good = DirectoryMetadata { uid: 1000, mode: 0o700 };
    let env = Environment { runtime_dir: posix("/run/user/1000"), ..home_only() };
    assert_eq!(xdg::runtime_dir(&env, Some(good), 1000).unwrap().bytes, b"/run/user/1000".to_vec());
    assert_eq!(xdg::defined_runtime_dir(&env).unwrap().bytes, b"/run/user/1000".to_vec());
    assert_eq!(xdg::runtime_dir(&env, None, 1000).unwrap_err(), RuntimeDirError::Metadata);

    let foreign = DirectoryMetadata { uid: 0, mode: 0o700 };
    assert_eq!(
        xdg::runtime_dir(&env, Some(foreign), 1000).unwrap_err(),
        RuntimeDirError::InvalidOwnership(1000, 0)
    );
    let open = DirectoryMetadata { uid: 1000, mode: 0o755 };
    assert_eq!(
        xdg::runtime_dir(&env, Some(open), 1000).unwrap_err(),
        RuntimeDirError::InvalidAccessMode(0o755)
    );
    let foreign_and_open = DirectoryMetadata { uid: 0, mode: 0o755 };
    assert_eq!(
        xdg::runtime_dir(&env, Some(foreign_and_open), 1000).unwrap_err(),
        RuntimeDirError::InvalidOwnership(1000, 0)
    );
    let directory = DirectoryMetadata { uid: 1000, mode: 0o40700 };
    assert_eq!(
        xdg::runtime_dir(&env, Some(directory), 1000).unwrap().bytes,
        b"/run/user/1000".to_vec()
    );
    let open_directory = DirectoryMetadata { uid: 1000, mode: 0o40755 };
    assert_eq!(
        xdg::runtime_dir(&env, Some(open_directory), 1000).unwrap_err(),
        RuntimeDirError::InvalidAccessMode(0o755)
    );
    let sticky = DirectoryMetadata { uid: 1000, mode: 0o41700 };
    assert_eq!(
        xdg::runtime_dir(&env, Some(sticky), 1000).unwrap_err(),
        RuntimeDirError::InvalidAccessMode(0o1700)
    );
    let closed = DirectoryMetadata { uid: 1000, mode: 0o40000 };
    assert_eq!(
        xdg::runtime_dir(&env, Some(closed), 1000).unwrap_err(),
        RuntimeDirError::InvalidAccessMode(0)
    );

    let unset = home_only();
    assert_eq!(xdg::runtime_dir(&unset, Some(good), 1000).unwrap_err(), RuntimeDirError::Undefined);
    let relative = Environment { runtime_dir: posix("run"), ..home_only() };
    assert_eq!(xdg::runtime_dir(&relative, None, 1000).unwrap_err(), RuntimeDirError::Undefined);
    assert_eq!(xdg::defined_runtime_dir(&relative).unwrap_err(), RuntimeDirError::Undefined);
}

#[test]
fn creation_order_and_result() {
    let app = system::AppDirs::new(b"app");
    let order = pathos::creation_order(&app);
    let bytes: Vec<Vec<u8>> = order.iter().map(|p| p.bytes.clone()).collect();
    assert_eq!(
        bytes,
        vec![
            b"/usr/share/app".to_vec(),
            b"/usr/share/app/config".to_vec(),
            b"/var/cache/app".to_vec(),
            b"/var/cache/app/tmp".to_vec(),
            b"/var/log/app".to_vec(),
        ]
    );
    assert!(pathos::creation_result(&order, None).is_ok());
    assert!(pathos::creation_result(&order, Some(7)).is_ok());
    match pathos::creation_result(&order, Some(2)) {
        Err(Error::CreateDirectoryFailed(dir)) => assert_eq!(dir.bytes, b"/var/cache/app".to_vec()),
        other => panic!("{:?}", other),
    }
}

#[test]
fn directory_identifier_of_any_path() {
    let iri = pathos::directory_iri(NativePath::posix("/var/log/app")).unwrap();
    assert_eq!(text_of(&iri), "file:///var/log/app");
    assert!(matches!(
        pathos::directory_iri(NativePath::posix("var/log")),
        Err(Error::IriConversionFailed(pathos::IriError::NotAbsolute))
    ));
    assert!(matches!(
        pathos::directory_iri(NativePath::posix("/var/../log")),
        Err(Error::IriConversionFailed(pathos::IriError::InvalidComponent))
    ));
    assert!(matches!(
        pathos::directory_iri(NativePath::posix("/var/./log")),
        Err(Error::IriConversionFailed(pathos::IriError::InvalidComponent))
    ));
}
