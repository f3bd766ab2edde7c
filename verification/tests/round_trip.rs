use pathos::file_path;
use pathos::iri::resolve::resolve_file_iri;
use pathos::path::absolute::validate;
use pathos::path::native::{Component, NativePath, Prefix};
use pathos::path::syntax::PathStyle;

fn texts(alphabet: &[u8], longest: usize) -> Vec<Vec<u8>> {
    let mut all: Vec<Vec<u8>> = vec![Vec::new()];
    let mut last: Vec<Vec<u8>> = vec![Vec::new()];
    for _ in 0..longest {
        let mut next = Vec::new();
        for text in &last {
            for byte in alphabet {
                let mut longer = text.clone();
                longer.push(*byte);
                next.push(longer);
            }
        }
        all.extend(next.iter().cloned());
        last = next;
    }
    all
}

fn comes_back(path: &NativePath) -> bool {
    let components = path.components();
    let plain_prefix = match components.first() {
        Some(Component::Prefix(Prefix::Disk(_))) => true,
        Some(Component::Prefix(_)) => false,
        _ => true,
    };
    let ends_in_name = matches!(components.last(), Some(Component::Normal(_)));
    validate(path).is_ok() && plain_prefix && ends_in_name
}

fn written_out(path: &NativePath) -> Vec<u8> {
    let mut out = Vec::new();
    for component in path.components() {
        match component {
            Component::Prefix(Prefix::Disk(d)) => out.extend_from_slice(&[d, b':']),
            Component::Normal(name) => {
                out.push(path.style.separator());
                out.extend_from_slice(&name);
            }
            _ => {}
        }
    }
    out
}

fn check_all(style: PathStyle, alphabet: &[u8], longest: usize) -> usize {
    let mut seen = 0;
    for bytes in texts(alphabet, longest) {
        let path = NativePath::new(style, bytes);
        if !comes_back(&path) {
            continue;
        }
        seen += 1;
        let iri = file_path(&path).unwrap();
        let back = resolve_file_iri(&iri, style).unwrap();
        assert_eq!(back.to_path_buf(), path, "{:?}", path);
        assert_eq!(back.to_path().bytes, written_out(&path), "{:?}", path);
    }
    seen
}

#[test]
fn every_short_posix_path_comes_back() {
    let seen = check_all(PathStyle::Posix, b"/a.% \\", 5);
    assert!(seen > 1000);
}

#[test]
fn every_short_drive_path_comes_back() {
    let seen = check_all(PathStyle::Windows, b"\\/c:a.", 6);
    assert!(seen > 100);
}

#[test]
fn paths_that_do_not_come_back() {
    let root = NativePath::posix("/");
    assert!(resolve_file_iri(&file_path(&root).unwrap(), PathStyle::Posix).is_err());
    let drive = NativePath::from_str(PathStyle::Windows, r"C:\");
    assert!(resolve_file_iri(&file_path(&drive).unwrap(), PathStyle::Windows).is_err());
    let share = NativePath::from_str(PathStyle::Windows, r"\\server\share\x");
    assert!(resolve_file_iri(&file_path(&share).unwrap(), PathStyle::Windows).is_err());
    let verbatim = NativePath::from_str(PathStyle::Windows, r"\\?\C:\x");
    let back = resolve_file_iri(&file_path(&verbatim).unwrap(), PathStyle::Windows).unwrap();
    assert_ne!(back.to_path_buf(), verbatim);
    assert_eq!(back.to_path().bytes, br"C:\x".to_vec());
}

#[test]
fn joining_a_relative_path_stays_below_the_base() {
    let base = NativePath::posix("/usr/share");
    let mut prefix = base.components();
    for other in texts(b"/a.", 5) {
        let joined = base.join(&other);
        let relative = NativePath::new(PathStyle::Posix, other.clone());
        if relative.has_root() {
            assert_eq!(joined.bytes, other);
            continue;
        }
        let components = joined.components();
        assert_eq!(components[..prefix.len()], prefix[..], "{:?}", joined);
        let added: Vec<Component> = relative
            .components()
            .into_iter()
            .filter(|c| !matches!(c, Component::CurDir))
            .collect();
        assert_eq!(components[prefix.len()..], added[..], "{:?}", joined);
    }
    prefix.clear();
}
