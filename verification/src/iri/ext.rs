//! Resolving an identifier of any scheme.

use crate::bytes::equal;
use crate::container::ContainerRegistry;
use crate::iri::error::{Error, ErrorView, SupportedSchemes};
use crate::iri::resolve::{
    resolve_container_iri, resolve_file_iri, resolved_container, resolved_file,
};
use crate::iri::{
    container_scheme, container_scheme_bytes, file_scheme, file_scheme_bytes, IdentifierView,
    ResourceIdentifier,
};
use crate::path::absolute::AbsolutePathBuf;
use crate::path::native::{NativePath, PathView};
use crate::path::syntax::PathStyle;
use vstd::prelude::*;

verus! {

/// The path that `iri` names, or why it names none.
///
/// `container` is `None` where the caller supports the scheme `file` only,
/// and else the container root, which may not be set. A `file` identifier
/// names a path of `style`; a `container` identifier names a path below the
/// root; any other scheme is refused, with the schemes that are supported.
pub open spec fn resolved(
    style: PathStyle,
    container: Option<Option<PathView>>,
    iri: IdentifierView,
) -> Result<Seq<u8>, ErrorView> {
    match container {
        None => resolved_file(style, iri),
        Some(root) => if iri.scheme == file_scheme() {
            resolved_file(style, iri)
        } else if iri.scheme == container_scheme() {
            match root {
                Some(r) => resolved_container(r.style, r.bytes, iri),
                None => Err(ErrorView::UnresolvableContainer),
            }
        } else {
            Err(ErrorView::InvalidScheme(iri.scheme, SupportedSchemes::FileAndContainer))
        },
    }
}

/// The style of the path that `iri` names: that of the container root for
/// a `container` identifier, and else `style`.
pub open spec fn resolved_style(
    style: PathStyle,
    container: Option<Option<PathView>>,
    iri: IdentifierView,
) -> PathStyle {
    match container {
        Some(Some(root)) => if iri.scheme != file_scheme() && iri.scheme == container_scheme() {
            root.style
        } else {
            style
        },
        _ => style,
    }
}

/// The path that `iri` names, with its style, or why it names none.
pub open spec fn resolved_path(
    style: PathStyle,
    container: Option<Option<PathView>>,
    iri: IdentifierView,
) -> Result<PathView, ErrorView> {
    match resolved(style, container, iri) {
        Ok(bytes) => Ok(PathView { style: resolved_style(style, container, iri), bytes }),
        Err(e) => Err(e),
    }
}

/// The schemes that a caller with `container` supports.
pub open spec fn supported_schemes(container: Option<Option<PathView>>) -> SupportedSchemes {
    match container {
        None => SupportedSchemes::File,
        Some(_) => SupportedSchemes::FileAndContainer,
    }
}

/// Whether `scheme` is one of `schemes`.
pub open spec fn is_supported(schemes: SupportedSchemes, scheme: Seq<u8>) -> bool {
    scheme == file_scheme() || (schemes == SupportedSchemes::FileAndContainer && scheme
        == container_scheme())
}

/// The roots of the registries that a caller hands over.
pub open spec fn registry_view(container: Option<&ContainerRegistry>) -> Option<Option<PathView>> {
    match container {
        Some(registry) => Some(registry.root()),
        None => None,
    }
}

/// The container root, or `UnresolvableContainer` where none is set.
pub fn container_path(registry: &ContainerRegistry) -> (res: Result<AbsolutePathBuf, Error>)
    ensures
        match res {
            Ok(path) => registry.root() == Some(path@) && path.wf(),
            Err(e) => registry.root() is None && e@ == ErrorView::UnresolvableContainer,
        },
{
    match registry.get() {
        Some(path) => Ok(path),
        None => Err(Error::UnresolvableContainer),
    }
}

/// The absolute path that `iri` names.
///
/// `container` is `None` where only the scheme `file` is supported.
pub fn resolve(
    iri: &ResourceIdentifier,
    style: PathStyle,
    container: Option<&ContainerRegistry>,
) -> (res: Result<AbsolutePathBuf, Error>)
    ensures
        match res {
            Ok(path) => resolved_path(style, registry_view(container), iri@) == Ok::<
                PathView,
                ErrorView,
            >(path@) && path.wf(),
            Err(e) => resolved_path(style, registry_view(container), iri@) == Err::<
                PathView,
                ErrorView,
            >(e@),
        },
        !is_supported(supported_schemes(registry_view(container)), iri@.scheme) ==> res is Err
            && res->Err_0@ == ErrorView::InvalidScheme(
            iri@.scheme,
            supported_schemes(registry_view(container)),
        ),
{
    match container {
        None => resolve_file_iri(iri, style),
        Some(registry) => {
            let file = file_scheme_bytes();
            let container_name = container_scheme_bytes();
            if equal(iri.scheme.as_slice(), file.as_slice()) {
                resolve_file_iri(iri, style)
            } else if equal(iri.scheme.as_slice(), container_name.as_slice()) {
                match container_path(registry) {
                    Ok(root) => resolve_container_iri(&root, iri),
                    Err(e) => Err(e),
                }
            } else {
                Err(Error::InvalidScheme(iri.scheme.clone(), SupportedSchemes::FileAndContainer))
            }
        },
    }
}

/// Identifiers that resolve to native paths.
pub trait IriBufExt {
    /// What this value is as an identifier.
    spec fn identifier(&self) -> IdentifierView;

    /// The native path that this identifier names.
    fn to_path_buf(&self, style: PathStyle, container: Option<&ContainerRegistry>) -> (res: Result<
        NativePath,
        Error,
    >)
        ensures
            match res {
                Ok(path) => resolved_path(style, registry_view(container), self.identifier())
                    == Ok::<PathView, ErrorView>(path@),
                Err(e) => resolved_path(style, registry_view(container), self.identifier())
                    == Err::<PathView, ErrorView>(e@),
            },
    ;
}

impl IriBufExt for ResourceIdentifier {
    open spec fn identifier(&self) -> IdentifierView {
        self@
    }

    fn to_path_buf(&self, style: PathStyle, container: Option<&ContainerRegistry>) -> (res: Result<
        NativePath,
        Error,
    >) {
        match resolve(self, style, container) {
            Ok(path) => Ok(path.to_path_buf()),
            Err(e) => Err(e),
        }
    }
}

/// A scheme that is not supported is refused, whatever else the identifier
/// holds, and the refusal names the scheme and those that are supported.
pub proof fn lemma_unsupported_scheme_is_refused(
    style: PathStyle,
    container: Option<Option<PathView>>,
    iri: IdentifierView,
)
    requires
        !is_supported(supported_schemes(container), iri.scheme),
    ensures
        resolved(style, container, iri) == Err::<Seq<u8>, ErrorView>(
            ErrorView::InvalidScheme(iri.scheme, supported_schemes(container)),
        ),
{
}

} // verus!
