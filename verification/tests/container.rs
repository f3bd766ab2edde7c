use pathos::android::user::{set_container_path, set_container_path_bytes, SetOutcome};
use pathos::container::ContainerRegistry;
use pathos::iri::error::{Error, SupportedSchemes};
use pathos::iri::ext::{container_path, resolve, IriBufExt};
use pathos::iri::ResourceIdentifier;
use pathos::path::absolute::{AbsolutePathBuf, TryFromError};
use pathos::path::native::NativePath;
use pathos::path::syntax::PathStyle;
use pathos::ResolveError;

fn absolute(text: &str) -> AbsolutePathBuf {
    AbsolutePathBuf::try_from(NativePath::posix(text)).unwrap()
}

fn parse(text: &str) -> ResourceIdentifier {
    ResourceIdentifier::parse(text.as_bytes()).unwrap()
}

#[test]
fn container_identifier_without_root_is_unresolvable() {
    let registry = ContainerRegistry::new();
    let iri = parse("container:/AppData/Local/App/log");
    assert_eq!(
        resolve(&iri, PathStyle::Posix, Some(&registry)).unwrap_err(),
        Error::UnresolvableContainer
    );
    assert_eq!(container_path(&registry).unwrap_err(), Error::UnresolvableContainer);
    assert!(registry.get().is_none());
}

#[test]
fn container_identifier_resolves_below_the_root() {
    let mut registry = ContainerRegistry::new();
    assert!(registry.set(absolute("/data/user/0/app")));
    let iri = parse("container:/AppData/Local/App/log");
    let path = iri.to_path_buf(PathStyle::Posix, Some(&registry)).unwrap();
    assert_eq!(path.bytes, b"/data/user/0/app/AppData/Local/App/log".to_vec());
    let encoded = parse("container:/Special%20Company/Bad%20App/");
    let path = encoded.to_path_buf(PathStyle::Posix, Some(&registry)).unwrap();
    assert_eq!(path.bytes, b"/data/user/0/app/Special Company/Bad App".to_vec());
    let file = parse("file:///etc/hosts");
    let path = file.to_path_buf(PathStyle::Posix, Some(&registry)).unwrap();
    assert_eq!(path.bytes, b"/etc/hosts".to_vec());
}

#[test]
fn container_scheme_is_refused_where_only_file_is_supported() {
    let iri = parse("container:/AppData/Local/App/log");
    assert_eq!(
        resolve(&iri, PathStyle::Windows, None).unwrap_err(),
        Error::InvalidScheme(b"container".to_vec(), SupportedSchemes::File)
    );
    let failure = pathos::linux::user::iri::resolve(&iri).unwrap_err();
    assert!(matches!(
        failure,
        ResolveError::InvalidScheme(ref got, SupportedSchemes::File) if got == b"container"
    ));
}

#[test]
fn first_root_stays() {
    let mut registry = ContainerRegistry::new();
    assert!(registry.set(absolute("/data/a")));
    assert!(!registry.set(absolute("/data/b")));
    assert_eq!(registry.get().unwrap().to_path().bytes, b"/data/a".to_vec());
    assert!(!registry.set(absolute("/data/a")));
    assert_eq!(container_path(&registry).unwrap().to_path().bytes, b"/data/a".to_vec());
}

#[test]
fn setting_the_container_path_reports_what_happened() {
    let mut registry = ContainerRegistry::new();
    assert_eq!(
        set_container_path(&mut registry, NativePath::posix("relative/path")),
        SetOutcome::Invalid(TryFromError::NotAbsolute)
    );
    assert_eq!(
        set_container_path(&mut registry, NativePath::posix("/data/../etc")),
        SetOutcome::Invalid(TryFromError::ContainsRelComponents)
    );
    assert_eq!(
        set_container_path(&mut registry, NativePath::posix("/data/./app")),
        SetOutcome::Invalid(TryFromError::ContainsRelComponents)
    );
    assert_eq!(
        set_container_path_bytes(&mut registry, Some(b"/data/app/.")),
        SetOutcome::Invalid(TryFromError::ContainsRelComponents)
    );
    assert!(registry.get().is_none());
    assert_eq!(
        set_container_path(&mut registry, NativePath::posix("/data/user/0/app")),
        SetOutcome::Stored
    );
    assert_eq!(
        set_container_path(&mut registry, NativePath::posix("/data/user/1/app")),
        SetOutcome::AlreadySet
    );
    assert_eq!(registry.get().unwrap().to_path().bytes, b"/data/user/0/app".to_vec());
}

#[test]
fn missing_or_empty_raw_path_changes_nothing() {
    let mut registry = ContainerRegistry::new();
    assert_eq!(set_container_path_bytes(&mut registry, None), SetOutcome::Missing);
    assert_eq!(set_container_path_bytes(&mut registry, Some(b"")), SetOutcome::Missing);
    assert_eq!(
        set_container_path_bytes(&mut registry, Some(&[0xff, 0xfe])),
        SetOutcome::Invalid(TryFromError::NotAbsolute)
    );
    assert!(registry.get().is_none());
    assert_eq!(
        set_container_path_bytes(&mut registry, Some(b"/data/user/0/app")),
        SetOutcome::Stored
    );
    assert_eq!(set_container_path_bytes(&mut registry, None), SetOutcome::Missing);
    assert_eq!(registry.get().unwrap().to_path().bytes, b"/data/user/0/app".to_vec());
}

#[test]
fn ios_resolves_container_and_file() {
    let mut registry = ContainerRegistry::new();
    registry.set(absolute("/var/mobile/Containers/Data/Application/X"));
    let iri = parse("container:/Library/Caches/meow/tmp/");
    let path = pathos::ios::resolve(&iri, &registry).unwrap();
    assert_eq!(
        path.bytes,
        b"/var/mobile/Containers/Data/Application/X/Library/Caches/meow/tmp".to_vec()
    );
    let other = parse("https://example.org/");
    assert!(matches!(
        pathos::ios::resolve(&other, &registry).unwrap_err(),
        ResolveError::InvalidScheme(ref got, SupportedSchemes::FileAndContainer) if got == b"https"
    ));
    let empty = parse("file:///");
    assert!(matches!(pathos::ios::resolve(&empty, &registry).unwrap_err(), ResolveError::EmptyIri));
    let relative = parse("file:///a/%2E%2E");
    assert!(matches!(
        pathos::ios::resolve(&relative, &registry).unwrap_err(),
        ResolveError::ConversionFailed(Error::InvalidComponent)
    ));
}
