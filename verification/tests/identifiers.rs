use pathos::file_path;
use pathos::iri::error::{Error, SupportedSchemes};
use pathos::iri::ext::{resolve, IriBufExt};
use pathos::iri::resolve::{resolve_container_iri, resolve_file_iri};
use pathos::iri::text::same_identifier;
use pathos::iri::ResourceIdentifier;
use pathos::path::absolute::{AbsolutePathBuf, AbsolutePathBufExt};
use pathos::path::native::NativePath;
use pathos::path::syntax::PathStyle;

fn windows(text: &str) -> NativePath {
    NativePath::from_str(PathStyle::Windows, text)
}

fn parse(text: &str) -> ResourceIdentifier {
    ResourceIdentifier::parse(text.as_bytes()).unwrap()
}

fn text_of(iri: &ResourceIdentifier) -> String {
    String::from_utf8(iri.to_bytes()).unwrap()
}

#[test]
fn mod_file_iri() {
    let iri = parse("file:///Library/Caches/Pahkat");
    let value = iri.to_path_buf(PathStyle::Posix, None).unwrap();
    println!("{:?}", value);
    assert_eq!(value, NativePath::posix("/Library/Caches/Pahkat"));

    let iri = parse("file:///C:/ProgramData/Pahkat/cache");
    let value = iri.to_path_buf(PathStyle::Windows, None).unwrap();
    println!("{:?}", value);
    assert_eq!(value, windows(r"C:\ProgramData\Pahkat\cache"));
}

#[test]
fn lib_file_iri() {
    let iri = parse("file:///Library/Caches/Pahkat");
    let value = resolve_file_iri(&iri, PathStyle::Posix).unwrap();
    println!("{:?}", value);
    assert_eq!(value.to_path().bytes, b"/Library/Caches/Pahkat".to_vec());
}

#[test]
fn lib_iri_from_path() {
    let path = file_path(&windows("////Library/Caches/Pahkat"));
    assert!(path.is_err());
    let path = file_path(&NativePath::posix("////Library/Caches/Pahkat"));
    assert!(path.is_ok());
    println!("{:?}", path);

    let path = file_path(&windows(r"C:\ProgramData\Pahkat\logs"));
    assert!(path.is_ok());
    let path = file_path(&NativePath::posix(r"C:\ProgramData\Pahkat\logs"));
    assert!(path.is_err());

    println!("{:?}", path);
}

#[test]
fn iri_file() {
    let expected = windows(r"C:\Program Files\Bad Idea");
    let iri = expected.to_absolute_path_buf().unwrap().to_file_iri().unwrap();
    assert_eq!(expected, iri.to_path_buf(PathStyle::Windows, None).unwrap());
}

#[test]
fn iri_unc_path() {
    let expected = windows(r"\\?\C:\Program Files\Bad Idea");
    let iri = expected.to_absolute_path_buf().unwrap().to_file_iri().unwrap();
    assert_eq!(
        windows(r"C:\Program Files\Bad Idea"),
        iri.to_path_buf(PathStyle::Windows, None).unwrap()
    );
}

#[test]
fn iri_container() {
    let expected = Error::InvalidScheme("container".into(), SupportedSchemes::File);
    let iri = parse("container:/AppData/Local/Special%20Company/Bad%20App/log");

    assert_eq!(
        std::mem::discriminant(&expected),
        std::mem::discriminant(&iri.to_path_buf(PathStyle::Windows, None).unwrap_err())
    );
    assert_eq!(expected, iri.to_path_buf(PathStyle::Windows, None).unwrap_err());
    assert_eq!(SupportedSchemes::File.names(), vec!["file"]);
}

#[test]
fn posix_path_becomes_identifier_and_comes_back() {
    let path = NativePath::posix("/Library/Caches/Pahkat");
    let iri = file_path(&path).unwrap();
    assert_eq!(text_of(&iri), "file:///Library/Caches/Pahkat");
    assert_eq!(iri.scheme, b"file".to_vec());
    assert_eq!(iri.authority, Some(Vec::new()));
    assert_eq!(iri.segments, vec![b"Library".to_vec(), b"Caches".to_vec(), b"Pahkat".to_vec()]);
    let back = resolve_file_iri(&iri, PathStyle::Posix).unwrap();
    assert_eq!(back.to_path().bytes, b"/Library/Caches/Pahkat".to_vec());
}

#[test]
fn drive_path_becomes_identifier_and_comes_back() {
    let path = windows(r"C:\ProgramData\Pahkat\cache");
    let iri = file_path(&path).unwrap();
    assert_eq!(text_of(&iri), "file:/C:/ProgramData/Pahkat/cache");
    let back = resolve_file_iri(&iri, PathStyle::Windows).unwrap();
    assert_eq!(back.to_path().bytes, br"C:\ProgramData\Pahkat\cache".to_vec());
    let reparsed = parse("file:/C:/ProgramData/Pahkat/cache");
    assert_eq!(reparsed.segments, iri.segments);
    assert_eq!(reparsed.authority, None);
}

#[test]
fn built_identifiers_read_back_as_they_are() {
    for path in [
        NativePath::posix("/Library/Caches/Pahkat"),
        NativePath::posix("/My Files/x"),
        NativePath::posix("/"),
        windows(r"C:\ProgramData\Pahkat\cache"),
        windows(r"\\server\share\dir"),
    ] {
        let iri = file_path(&path).unwrap();
        assert_eq!(iri.checked().unwrap(), iri);
        assert_eq!(parse(&text_of(&iri)), iri);
    }
}

#[test]
fn lower_case_drive_comes_back_in_upper_case() {
    let path = windows(r"c:\data");
    let iri = file_path(&path).unwrap();
    assert_eq!(text_of(&iri), "file:/C:/data");
    let back = resolve_file_iri(&iri, PathStyle::Windows).unwrap();
    assert_eq!(back.to_path().bytes, br"C:\data".to_vec());
    assert_eq!(back.to_path_buf(), path);
}

#[test]
fn verbatim_drive_resolves_like_plain_drive() {
    let verbatim = file_path(&windows(r"\\?\C:\Program Files\Bad Idea")).unwrap();
    let plain = file_path(&windows(r"C:\Program Files\Bad Idea")).unwrap();
    assert_eq!(verbatim, plain);
    assert_eq!(text_of(&plain), "file:/C:/Program%20Files/Bad%20Idea");
}

#[test]
fn share_becomes_two_segments_in_both_forms() {
    let plain = file_path(&windows(r"\\server\share\dir")).unwrap();
    let verbatim = file_path(&windows(r"\\?\UNC\server\share\dir")).unwrap();
    assert_eq!(plain, verbatim);
    assert_eq!(plain.segments, vec![b"server".to_vec(), b"share".to_vec(), b"dir".to_vec()]);
    assert_eq!(text_of(&plain), "file:/server/share/dir");
    assert_eq!(resolve_file_iri(&plain, PathStyle::Windows).unwrap_err(), Error::NotAbsolute);
}

#[test]
fn verbatim_name_is_encoded() {
    let iri = file_path(&windows(r"\\?\pic tures\a")).unwrap();
    assert_eq!(iri.segments, vec![b"pic%20tures".to_vec(), b"a".to_vec()]);
}

#[test]
fn device_namespace_has_no_identifier() {
    assert_eq!(file_path(&windows(r"\\.\COM1\x")).unwrap_err(), Error::UnsupportedPrefix);
    assert_eq!(file_path(&windows(r"\\.\COM1\..\x")).unwrap_err(), Error::UnsupportedPrefix);
    let path = AbsolutePathBuf::try_from(windows(r"\\.\COM1\x")).unwrap();
    assert_eq!(path.to_file_iri().unwrap_err(), Error::UnsupportedPrefix);
}

#[test]
fn relative_path_has_no_identifier() {
    assert_eq!(file_path(&NativePath::posix("a/b")).unwrap_err(), Error::NotAbsolute);
    assert_eq!(file_path(&NativePath::posix("a/../b")).unwrap_err(), Error::NotAbsolute);
    assert_eq!(file_path(&windows(r"C:a\b")).unwrap_err(), Error::NotAbsolute);
    assert_eq!(file_path(&windows(r"\a\b")).unwrap_err(), Error::NotAbsolute);
}

#[test]
fn current_directory_has_no_identifier() {
    for text in ["/a/.", "/a/./b", "/.", "/./a"] {
        let path = NativePath::posix(text);
        assert_eq!(file_path(&path).unwrap_err(), Error::InvalidComponent, "{}", text);
    }
    assert_eq!(file_path(&windows(r"C:\a\.\b")).unwrap_err(), Error::InvalidComponent);
    assert_eq!(file_path(&windows(r"C:/.")).unwrap_err(), Error::InvalidComponent);
    assert_eq!(file_path(&NativePath::posix("a/.")).unwrap_err(), Error::NotAbsolute);
    assert_eq!(file_path(&windows(r"\\.\COM1\.")).unwrap_err(), Error::UnsupportedPrefix);
}

#[test]
fn segments_with_current_directory_are_refused() {
    for text in ["file:///a/%2E", "file:///a/%2e/b", "file:///%2E", "file:///a/."] {
        let iri = parse(text);
        assert_eq!(
            resolve_file_iri(&iri, PathStyle::Posix).unwrap_err(),
            Error::InvalidComponent,
            "{}",
            text
        );
    }
    let drive = parse("file:/C:/a/%2E/b");
    assert_eq!(resolve_file_iri(&drive, PathStyle::Windows).unwrap_err(), Error::InvalidComponent);
    let root = AbsolutePathBuf::try_from(NativePath::posix("/data/user/0/app")).unwrap();
    let dot = parse("container:/cache/%2E/x");
    assert_eq!(resolve_container_iri(&root, &dot).unwrap_err(), Error::InvalidComponent);
    let slash = parse("container:/cache/a%2F%2E%2Fb");
    assert_eq!(resolve_container_iri(&root, &slash).unwrap_err(), Error::InvalidComponent);
    let accepted = parse("file:///a/%2Eb/c%2E");
    let path = resolve_file_iri(&accepted, PathStyle::Posix).unwrap();
    assert_eq!(path.to_path().bytes, b"/a/.b/c.".to_vec());
}

#[test]
fn container_path_lies_below_the_root() {
    let root = AbsolutePathBuf::try_from(NativePath::posix("/data//user/0/app/")).unwrap();
    let before = root.to_path().components();
    for text in ["container:/", "container:/a", "container:/a%2Fb/c/", "container:/%2F%2Fx"] {
        let path = resolve_container_iri(&root, &parse(text)).unwrap();
        let components = path.to_path().components();
        assert_eq!(components[..before.len()], before[..], "{}", text);
    }
    let nested = resolve_container_iri(&root, &parse("container:/a%2Fb/c/")).unwrap();
    assert_eq!(nested.to_path().bytes, b"/data//user/0/app//a/b/c".to_vec());
}

#[test]
fn parent_component_has_no_identifier() {
    assert_eq!(file_path(&NativePath::posix("/a/../b")).unwrap_err(), Error::InvalidComponent);
    assert_eq!(file_path(&windows(r"C:\a\..\b")).unwrap_err(), Error::InvalidComponent);
    assert_eq!(file_path(&windows(r"\\?\C:\a\.\b")).unwrap_err(), Error::InvalidComponent);
}

#[test]
fn space_and_high_bytes_are_escaped_and_come_back() {
    let mut bytes = b"/My Files/caf".to_vec();
    bytes.extend_from_slice(&[0xc3, 0xa9, 0xff]);
    let path = NativePath::new(PathStyle::Posix, bytes.clone());
    let iri = file_path(&path).unwrap();
    assert_eq!(text_of(&iri), "file:///My%20Files/caf%C3%A9%FF");
    for segment in &iri.segments {
        assert!(segment.iter().all(|b| b.is_ascii_alphanumeric() || *b == b'%'));
    }
    let back = resolve_file_iri(&iri, PathStyle::Posix).unwrap();
    assert_eq!(back.to_path().bytes, bytes);
}

#[test]
fn other_scheme_is_refused_with_the_supported_schemes() {
    let iri = parse("ftp://example.org/pub/file");
    assert_eq!(
        resolve(&iri, PathStyle::Posix, None).unwrap_err(),
        Error::InvalidScheme(b"ftp".to_vec(), SupportedSchemes::File)
    );
    let registry = pathos::container::ContainerRegistry::new();
    assert_eq!(
        resolve(&iri, PathStyle::Posix, Some(&registry)).unwrap_err(),
        Error::InvalidScheme(b"ftp".to_vec(), SupportedSchemes::FileAndContainer)
    );
    assert_eq!(SupportedSchemes::FileAndContainer.names(), vec!["file", "container"]);
    assert_eq!(
        resolve_file_iri(&parse("container:/a"), PathStyle::Posix).unwrap_err(),
        Error::InvalidScheme(b"container".to_vec(), SupportedSchemes::File)
    );
}

#[test]
fn identifier_without_segments_is_empty() {
    let iri = parse("file:///");
    assert!(iri.segments.is_empty());
    assert_eq!(iri.authority, Some(Vec::new()));
    assert_eq!(resolve_file_iri(&iri, PathStyle::Posix).unwrap_err(), Error::EmptyIri);
    let root = file_path(&NativePath::posix("/")).unwrap();
    assert_eq!(text_of(&root), "file:///");
    assert_eq!(resolve_file_iri(&root, PathStyle::Posix).unwrap_err(), Error::EmptyIri);
}

#[test]
fn segments_that_spell_a_relative_path_are_refused() {
    let iri = parse("file:/ProgramData/App");
    assert_eq!(resolve_file_iri(&iri, PathStyle::Windows).unwrap_err(), Error::NotAbsolute);
    let drive_only = parse("file:/C:");
    assert_eq!(resolve_file_iri(&drive_only, PathStyle::Windows).unwrap_err(), Error::NotAbsolute);
}

#[test]
fn segments_with_parent_directory_are_refused() {
    let iri = parse("file:///a/%2E%2E/b");
    assert_eq!(resolve_file_iri(&iri, PathStyle::Posix).unwrap_err(), Error::InvalidComponent);
    let root = AbsolutePathBuf::try_from(NativePath::posix("/data/user/0/app")).unwrap();
    let escaping = parse("container:/%2E%2E/%2E%2E/etc");
    assert_eq!(resolve_container_iri(&root, &escaping).unwrap_err(), Error::InvalidComponent);
}

#[test]
fn decoding_accepts_lower_case_digits_and_keeps_stray_percent() {
    let iri = parse("file:///a%2fb/c%2Fd");
    let path = resolve_file_iri(&iri, PathStyle::Posix).unwrap();
    assert_eq!(path.to_path().bytes, b"/a/b/c/d".to_vec());
    let stray = ResourceIdentifier {
        scheme: b"file".to_vec(),
        authority: None,
        segments: vec![b"100%".to_vec(), b"%zz".to_vec()],
        open: false,
    };
    let path = resolve_file_iri(&stray, PathStyle::Posix).unwrap();
    assert_eq!(path.to_path().bytes, b"/100%/%zz".to_vec());
}

#[test]
fn text_that_is_no_identifier_is_refused() {
    assert_eq!(ResourceIdentifier::parse(b"no scheme here").unwrap_err(), Error::InvalidIri);
    assert_eq!(ResourceIdentifier::parse(b"/only/a/path").unwrap_err(), Error::InvalidIri);
    assert_eq!(ResourceIdentifier::parse(&[0x66, 0x3a, 0xff]).unwrap_err(), Error::InvalidIri);
}

#[test]
fn parsing_gives_scheme_authority_segments_and_openness() {
    let iri = parse("file://host/share/dir/");
    assert_eq!(iri.scheme, b"file".to_vec());
    assert_eq!(iri.authority, Some(b"host".to_vec()));
    assert_eq!(iri.segments, vec![b"share".to_vec(), b"dir".to_vec()]);
    assert!(iri.open);
    assert_eq!(text_of(&iri), "file://host/share/dir/");
    let plain = parse("container:/AppData/Local/App/log");
    assert_eq!(plain.authority, None);
    assert!(!plain.open);
    assert_eq!(text_of(&plain), "container:/AppData/Local/App/log");
    assert_eq!(plain.checked().unwrap(), plain);
    assert_eq!(plain.clone(), plain);
}

#[test]
fn identifier_with_a_space_is_not_accepted_by_the_parser() {
    let iri = ResourceIdentifier {
        scheme: b"container".to_vec(),
        authority: None,
        segments: vec![b"Special Company".to_vec()],
        open: true,
    };
    assert_eq!(iri.to_bytes(), b"container:/Special Company/".to_vec());
    assert_eq!(iri.checked().unwrap_err(), Error::InvalidIri);
}

#[test]
fn text_with_a_bracket_is_refused() {
    for text in [
        &b"a://[1.2.3.4]"[..],
        b"a://[1.2.3.4]/x",
        b"file://[::1]/x",
        b"file://[v1.a]/x",
        b"file:///a[b",
        b"[",
        b"file:///x?q=[",
    ] {
        assert_eq!(ResourceIdentifier::parse(text).unwrap_err(), Error::InvalidIri, "{:?}", text);
    }
    let host = parse("file://1.2.3.4/x");
    assert_eq!(host.authority, Some(b"1.2.3.4".to_vec()));
}

#[test]
fn identifier_that_reads_back_as_another_is_refused() {
    let query = ResourceIdentifier {
        scheme: b"container".to_vec(),
        authority: None,
        segments: vec![b"Library".to_vec(), b"a?b".to_vec()],
        open: true,
    };
    assert_eq!(query.to_bytes(), b"container:/Library/a?b/".to_vec());
    let read = parse("container:/Library/a?b/");
    assert_eq!(read.segments, vec![b"Library".to_vec(), b"a".to_vec()]);
    assert_eq!(query.checked().unwrap_err(), Error::InvalidIri);
    let slash = ResourceIdentifier { segments: vec![b"a/b".to_vec()], ..query.clone() };
    assert_eq!(slash.checked().unwrap_err(), Error::InvalidIri);
    let bracket = ResourceIdentifier { segments: vec![b"a[b".to_vec()], ..query.clone() };
    assert_eq!(bracket.checked().unwrap_err(), Error::InvalidIri);
    let fine = ResourceIdentifier { segments: vec![b"a".to_vec(), b"b".to_vec()], ..query };
    assert_eq!(fine.checked().unwrap(), fine);
}

#[test]
fn identifiers_are_compared_by_all_their_parts() {
    let base = parse("file://host/a/b/");
    assert!(same_identifier(&base, &base.clone()));
    assert!(!same_identifier(&base, &parse("file://host/a/b")));
    assert!(!same_identifier(&base, &parse("file:/a/b/")));
    assert!(!same_identifier(&base, &parse("file://other/a/b/")));
    assert!(!same_identifier(&base, &parse("file://host/a/c/")));
    assert!(!same_identifier(&base, &parse("file://host/a/")));
    assert!(!same_identifier(&base, &parse("files://host/a/b/")));
}

#[test]
fn errors_are_said_in_words() {
    assert_eq!(Error::EmptyIri.to_string(), "IRI is empty");
    assert_eq!(Error::UnsupportedPrefix.to_string(), "Unsupported prefix.");
    assert_eq!(
        Error::NotAbsolute.to_string(),
        "Relative paths cannot be converted into file:// IRIs."
    );
    assert_eq!(Error::InvalidIri.to_string(), "Failed to parse input as an IRI.");
    assert_eq!(
        Error::InvalidUtf8.to_string(),
        "Could not convert path component to UTF-8 representation."
    );
}

fn short_texts(alphabet: &[u8], longest: usize) -> Vec<Vec<u8>> {
    let mut all: Vec<Vec<u8>> = vec![Vec::new()];
    let mut last: Vec<Vec<u8>> = vec![Vec::new()];
    for _ in 0..longest {
        let mut next = Vec::new();
        for text in &last {
            for byte in alphabet {
                let mut longer = text.clone();
                longer.push(*byte);
                next.push(longer);
            }
        }
        all.extend(next.iter().cloned());
        last = next;
    }
    all
}

#[test]
fn every_short_text_is_read_or_refused() {
    let alphabet = [b'a', b'1', b':', b'/', b'.', b'%', b'?', b'#', b'@', b'[', b']', 0xc3, 0xff];
    let mut read = 0;
    for tail in short_texts(&alphabet, 4) {
        for head in [&b""[..], b"a:", b"a://", b"a://1.2.3.", b"a://[", b"a:/a/"] {
            let mut text = head.to_vec();
            text.extend_from_slice(&tail);
            match ResourceIdentifier::parse(&text) {
                Ok(iri) => {
                    assert!(!text.contains(&b'['));
                    assert!(!iri.scheme.is_empty());
                    read += 1;
                }
                Err(e) => assert_eq!(e, Error::InvalidIri),
            }
        }
    }
    assert!(read > 1000);
}
