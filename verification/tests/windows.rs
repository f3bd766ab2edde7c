use pathos::path::native::NativePath;
use pathos::path::syntax::PathStyle;
use pathos::windows::{system, user};
use pathos::AppDirs;
use pathos::Error;
use pathos::UserDirs;

fn windows(text: &str) -> NativePath {
    NativePath::from_str(PathStyle::Windows, text)
}

fn text_of(iri: &pathos::iri::ResourceIdentifier) -> String {
    String::from_utf8(iri.to_bytes()).unwrap()
}

#[test]
fn system_basic_app() {
    let program_data = Some(windows(r"C:\ProgramData"));
    assert_eq!(
        system::app_temporary_dir(&program_data, b"Special Company/Bad App").unwrap(),
        windows(r"C:\ProgramData\Special Company\Bad App\cache\tmp\")
    )
}

#[test]
fn user_basic_app() {
    let user = "ada";
    let expected = windows(&format!(r"C:\Users\{}\", &user));
    let profile = Some(windows(r"C:\Users\ada"));

    assert_eq!(
        user::app_temporary_dir(&profile, b"Special Company/Bad App").unwrap(),
        expected.join(b"AppData/Local/Special Company/Bad App/cache/tmp")
    )
}

#[test]
fn basic_app2() {
    let user = "ada";
    let expected = windows(&format!(r"C:\Users\{}\", &user));
    let profile = Some(windows(r"C:\Users\ada"));

    assert_eq!(
        user::app_data_dir(&profile, b"Special Company/Bad App").unwrap(),
        expected.join(b"AppData/Roaming/Special Company/Bad App/")
    )
}

#[test]
fn windows_user_directories() {
    let profile = Some(windows(r"C:\Users\ada"));
    let dirs = user::Dirs::new(&profile).unwrap();
    assert_eq!(dirs.home_dir().bytes, br"C:\Users\ada".to_vec());
    assert_eq!(dirs.data_dir().bytes, br"C:\Users\ada\AppData\Roaming".to_vec());
    assert_eq!(dirs.cache_dir().bytes, br"C:\Users\ada\AppData\Local".to_vec());
    let roaming = user::roaming_dir(&profile).unwrap();
    assert_eq!(roaming.bytes, br"C:\Users\ada\AppData\Roaming".to_vec());
    let local = user::local_dir(&profile).unwrap();
    assert_eq!(local.bytes, br"C:\Users\ada\AppData\Local".to_vec());
    assert_eq!(user::data_dir(&profile).unwrap().bytes, roaming.bytes);
    assert_eq!(user::cache_dir(&profile).unwrap().bytes, local.bytes);
    assert_eq!(user::home_dir(&profile).unwrap().bytes, br"C:\Users\ada".to_vec());
}

#[test]
fn windows_user_application_directories() {
    let profile = Some(windows(r"C:\Users\ada"));
    let app = user::AppDirs::new(&profile, b"App").unwrap();
    assert_eq!(app.data_dir().bytes, br"C:\Users\ada\AppData\Roaming\App".to_vec());
    assert_eq!(app.config_dir().bytes, br"C:\Users\ada\AppData\Roaming\App\config".to_vec());
    assert_eq!(app.log_dir().bytes, br"C:\Users\ada\AppData\Roaming\App\log".to_vec());
    assert_eq!(app.cache_dir().bytes, br"C:\Users\ada\AppData\Local\App\cache".to_vec());
    assert_eq!(app.temporary_dir().bytes, br"C:\Users\ada\AppData\Local\App\cache\tmp".to_vec());
    let data = user::app_data_dir(&profile, b"App").unwrap();
    assert_eq!(data.bytes, br"C:\Users\ada\AppData\Roaming\App".to_vec());
    let config = user::app_config_dir(&profile, b"App").unwrap();
    assert_eq!(config.bytes, br"C:\Users\ada\AppData\Roaming\App\config".to_vec());
    let log = user::app_log_dir(&profile, b"App").unwrap();
    assert_eq!(log.bytes, br"C:\Users\ada\AppData\Roaming\App\log".to_vec());
    let cache = user::app_cache_dir(&profile, b"App").unwrap();
    assert_eq!(cache.bytes, br"C:\Users\ada\AppData\Local\App\cache".to_vec());
    let temporary = user::app_temporary_dir(&profile, b"App").unwrap();
    assert_eq!(temporary.bytes, br"C:\Users\ada\AppData\Local\App\cache\tmp".to_vec());
}

#[test]
fn windows_without_known_folders() {
    assert!(matches!(user::home_dir(&None), Err(Error::NotFound("Home"))));
    assert!(matches!(user::Dirs::new(&None), Err(Error::NotFound("Home"))));
    assert!(matches!(user::AppDirs::new(&None, b"App"), Err(Error::NotFound("Home"))));
    assert!(matches!(user::roaming_dir(&None), Err(Error::NotFound("Home"))));
    assert!(matches!(user::local_dir(&None), Err(Error::NotFound("Home"))));
    assert!(matches!(user::app_data_dir(&None, b"App"), Err(Error::NotFound("Home"))));
    assert!(matches!(user::iri::app_cache_dir(&None, b"App"), Err(Error::NotFound("Home"))));
    assert!(matches!(system::app_data_dir(&None, b"App"), Err(Error::NotFound("ProgramData"))));
    assert!(matches!(system::app_log_dir(&None, b"App"), Err(Error::NotFound("ProgramData"))));
    assert!(matches!(system::AppDirs::new(&None, b"App"), Err(Error::NotFound("ProgramData"))));
    assert!(matches!(
        system::iri::app_temporary_dir(&None, b"App"),
        Err(Error::NotFound("ProgramData"))
    ));
}

#[test]
fn windows_system_directories() {
    let program_data = Some(windows(r"C:\ProgramData"));
    let app = system::AppDirs::new(&program_data, b"Vendor\\App").unwrap();
    assert_eq!(app.data_dir().bytes, br"C:\ProgramData\Vendor\App".to_vec());
    assert_eq!(app.config_dir().bytes, br"C:\ProgramData\Vendor\App\config".to_vec());
    assert_eq!(app.cache_dir().bytes, br"C:\ProgramData\Vendor\App\cache".to_vec());
    assert_eq!(app.log_dir().bytes, br"C:\ProgramData\Vendor\App\log".to_vec());
    assert_eq!(app.temporary_dir().bytes, br"C:\ProgramData\Vendor\App\cache\tmp".to_vec());
    let data = system::app_data_dir(&program_data, b"App").unwrap();
    assert_eq!(data.bytes, br"C:\ProgramData\App".to_vec());
    let config = system::app_config_dir(&program_data, b"App").unwrap();
    assert_eq!(config.bytes, br"C:\ProgramData\App\config".to_vec());
    let cache = system::app_cache_dir(&program_data, b"App").unwrap();
    assert_eq!(cache.bytes, br"C:\ProgramData\App\cache".to_vec());
    let log = system::app_log_dir(&program_data, b"App").unwrap();
    assert_eq!(log.bytes, br"C:\ProgramData\App\log".to_vec());
}

#[test]
fn windows_directories_as_identifiers() {
    let program_data = Some(windows(r"C:\ProgramData"));
    let iri = system::iri::app_cache_dir(&program_data, b"Bad App").unwrap();
    assert_eq!(text_of(&iri), "file:/C:/ProgramData/Bad%20App/cache");
    let iri = system::iri::app_temporary_dir(&program_data, b"App").unwrap();
    assert_eq!(text_of(&iri), "file:/C:/ProgramData/App/cache/tmp");
    let profile = Some(windows(r"C:\Users\ada"));
    let iri = user::iri::app_cache_dir(&profile, b"App").unwrap();
    assert_eq!(text_of(&iri), "file:/C:/Users/ada/AppData/Local/App/cache");
    let iri = user::iri::app_temporary_dir(&profile, b"App").unwrap();
    assert_eq!(text_of(&iri), "file:/C:/Users/ada/AppData/Local/App/cache/tmp");
}

#[test]
fn windows_directories_without_identifier() {
    let relative = Some(windows(r"ProgramData"));
    assert!(matches!(
        system::iri::app_cache_dir(&relative, b"App"),
        Err(Error::IriConversionFailed(pathos::IriError::NotAbsolute))
    ));
    let program_data = Some(windows(r"C:\ProgramData"));
    assert!(matches!(
        system::iri::app_cache_dir(&program_data, b"..\\App"),
        Err(Error::IriConversionFailed(pathos::IriError::InvalidComponent))
    ));
    let device = Some(windows(r"\\.\COM1"));
    assert!(matches!(
        system::iri::app_cache_dir(&device, b"App"),
        Err(Error::IriConversionFailed(pathos::IriError::UnsupportedPrefix))
    ));
}
