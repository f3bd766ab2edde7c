use pathos::android::user;
use pathos::container::ContainerRegistry;
use pathos::path::absolute::AbsolutePathBuf;
use pathos::path::native::NativePath;
use pathos::Error;

fn text_of(iri: &pathos::iri::ResourceIdentifier) -> String {
    String::from_utf8(iri.to_bytes()).unwrap()
}

#[test]
fn android_cache_directory_lies_below_the_container_root() {
    let mut registry = ContainerRegistry::new();
    assert_eq!(
        user::app_cache_dir(&registry, b"app").unwrap_err(),
        pathos::IriError::UnresolvableContainer
    );
    registry.set(AbsolutePathBuf::try_from(NativePath::posix("/data/user/0/app")).unwrap());
    let cache = user::app_cache_dir(&registry, b"vendor/app").unwrap();
    assert_eq!(cache.bytes, b"/data/user/0/app/cache/vendor/app".to_vec());
}

#[test]
fn android_temporary_directory_lies_below_the_system_one() {
    let temp = NativePath::posix("/data/local/tmp");
    assert_eq!(user::app_temporary_dir(&temp, b"app").bytes, b"/data/local/tmp/app".to_vec());
    let iri = user::iri::app_temporary_dir(&temp, b"app").unwrap();
    assert_eq!(text_of(&iri), "file:///data/local/tmp/app");
}

#[test]
fn android_cache_identifier() {
    let iri = user::iri::app_cache_dir(b"vendor/app").unwrap();
    assert_eq!(text_of(&iri), "container:/cache/vendor/app/");
    assert_eq!(iri.scheme, b"container".to_vec());
    assert_eq!(iri.segments, vec![b"cache".to_vec(), b"vendor".to_vec(), b"app".to_vec()]);
    assert!(matches!(
        user::iri::app_cache_dir(b"a b"),
        Err(Error::IriConversionFailed(pathos::IriError::InvalidIri))
    ));
    assert!(matches!(
        user::iri::app_cache_dir(b"vendor?app"),
        Err(Error::IriConversionFailed(pathos::IriError::InvalidIri))
    ));
    assert!(matches!(
        user::iri::app_cache_dir(b"vendor#app"),
        Err(Error::IriConversionFailed(pathos::IriError::InvalidIri))
    ));
}
