//! Which namespace a request addresses, and what it may do there.

use vstd::prelude::*;

use crate::auth::Authenticated;
use crate::error::{Error, ErrorKind};
use crate::headers::{header_text, read_header};
use crate::namespace::{reads_name, NamespaceName};

verus! {

/// What makes connections to the namespace that a request names in its header.
pub struct MakeConnectionExtractor<M>(pub M);

/// What makes connections to the namespace that a request names in its path.
pub struct MakeConnectionExtractorPath<M>(pub M);

/// The namespace of a request whose `x-namespace` header names `candidate`. With namespaces
/// disabled it is always the default; without a candidate it is the default, unless that is
/// disabled.
pub open spec fn resolved_namespace(
    candidate: Option<NamespaceName>,
    default: NamespaceName,
    disable_default_namespace: bool,
    disable_namespaces: bool,
) -> Option<NamespaceName> {
    if disable_namespaces {
        Some(default)
    } else {
        match candidate {
            Some(ns) => Some(ns),
            None => if disable_default_namespace {
                None
            } else {
                Some(default)
            },
        }
    }
}

/// A namespace, or the error that the header which names it is missing.
pub open spec fn is_resolution(outcome: Option<NamespaceName>, r: Result<NamespaceName, Error>) -> bool {
    match outcome {
        Some(ns) => r == Ok::<NamespaceName, Error>(ns),
        None => r matches Err(e) && e@ == (ErrorKind::InvalidHost, "missing x-namespace header"@),
    }
}

/// Picks the namespace of a request from what its header named.
pub fn resolve_namespace(
    candidate: Option<NamespaceName>,
    default: NamespaceName,
    disable_default_namespace: bool,
    disable_namespaces: bool,
) -> (r: Result<NamespaceName, Error>)
    ensures
        is_resolution(
            resolved_namespace(candidate, default, disable_default_namespace, disable_namespaces),
            r,
        ),
{
    if disable_namespaces {
        return Ok(default);
    }
    match candidate {
        Some(ns) => Ok(ns),
        None => if !disable_default_namespace {
            Ok(default)
        } else {
            Err(Error::new(ErrorKind::InvalidHost, "missing x-namespace header"))
        },
    }
}

/// Whether `r` is the namespace of a request with the header value `header`. The value is
/// read by `parse`; one that it does not accept counts as absent.
pub open spec fn addresses<F: Fn(&str) -> Option<NamespaceName>>(
    header: Option<Seq<char>>,
    default: NamespaceName,
    disable_default_namespace: bool,
    disable_namespaces: bool,
    parse: F,
    r: Result<NamespaceName, Error>,
) -> bool {
    exists|candidate: Option<NamespaceName>|
        {
            &&& match header {
                Some(text) if !disable_namespaces => reads_name(parse, text, candidate),
                _ => candidate is None,
            }
            &&& is_resolution(
                #[trigger] resolved_namespace(
                    candidate,
                    default,
                    disable_default_namespace,
                    disable_namespaces,
                ),
                r,
            )
        }
}

/// Picks the namespace of a request from its `x-namespace` header. `parse` reads a name, and
/// is asked only when the header counts.
pub fn namespace_from_headers<F: Fn(&str) -> Option<NamespaceName>>(
    headers: &hyper::HeaderMap<hyper::header::HeaderValue>,
    default: NamespaceName,
    disable_default_namespace: bool,
    disable_namespaces: bool,
    parse: F,
) -> (r: Result<NamespaceName, Error>)
    requires
        forall|text: &str| call_requires(parse, (text,)),
    ensures
        addresses(
            header_text(*headers, "x-namespace"@),
            default,
            disable_default_namespace,
            disable_namespaces,
            parse,
            r,
        ),
{
    let mut candidate: Option<NamespaceName> = None;
    if !disable_namespaces {
        if let Some(text) = read_header(headers, "x-namespace") {
            candidate = parse(text);
            assert(reads_name(parse, text@, candidate));
        }
    }
    let ghost outcome = resolved_namespace(
        candidate,
        default,
        disable_default_namespace,
        disable_namespaces,
    );
    resolve_namespace(candidate, default, disable_default_namespace, disable_namespaces)
}

/// Whether `r` pairs full access with the namespace that `ns` is.
pub open spec fn grants(
    ns: Result<NamespaceName, Error>,
    r: Result<(Authenticated, NamespaceName), Error>,
) -> bool {
    match ns {
        Ok(n) => r == Ok::<(Authenticated, NamespaceName), Error>((Authenticated::FullAccess, n)),
        Err(e) => r == Err::<(Authenticated, NamespaceName), Error>(e),
    }
}

/// The access and the namespace of a request. Requests run with full access: the ports are
/// private, and whoever can reach them is responsible for authentication.
pub fn authenticate_request<F: Fn(&str) -> Option<NamespaceName>>(
    headers: &hyper::HeaderMap<hyper::header::HeaderValue>,
    default: NamespaceName,
    disable_default_namespace: bool,
    disable_namespaces: bool,
    parse: F,
) -> (r: Result<(Authenticated, NamespaceName), Error>)
    requires
        forall|text: &str| call_requires(parse, (text,)),
    ensures
        exists|ns: Result<NamespaceName, Error>|
            addresses(
                header_text(*headers, "x-namespace"@),
                default,
                disable_default_namespace,
                disable_namespaces,
                parse,
                ns,
            ) && #[trigger] grants(ns, r),
{
    let namespace = namespace_from_headers(
        headers,
        default,
        disable_default_namespace,
        disable_namespaces,
        parse,
    );
    let ghost ns = namespace;
    let r = match namespace {
        Ok(name) => Ok((Authenticated::FullAccess, name)),
        Err(e) => Err(e),
    };
    assert(grants(ns, r));
    r
}

/// The target of a request that names its namespace in the path. The access is settled first
/// and may fail by itself; a path that does not parse is an invalid path.
pub fn path_target(
    access: Result<(Authenticated, NamespaceName), Error>,
    path: Result<NamespaceName, String>,
) -> (r: Result<(Authenticated, NamespaceName), Error>)
    ensures
        match access {
            Err(e) => r == Err::<(Authenticated, NamespaceName), Error>(e),
            Ok((auth, _)) => match path {
                Ok(ns) => r == Ok::<(Authenticated, NamespaceName), Error>((auth, ns)),
                Err(message) => r matches Err(e) && e@ == (ErrorKind::InvalidPath, message@),
            },
        },
{
    match access {
        Err(e) => Err(e),
        Ok((auth, _)) => match path {
            Ok(ns) => Ok((auth, ns)),
            Err(message) => Err(Error::new(ErrorKind::InvalidPath, message.as_str())),
        },
    }
}

/// A request is refused only where the default namespace is disabled, namespaces are not, and no
/// header names one.
pub proof fn lemma_refused_only_without_a_name<F: Fn(&str) -> Option<NamespaceName>>(
    header: Option<Seq<char>>,
    default: NamespaceName,
    disable_default_namespace: bool,
    disable_namespaces: bool,
    parse: F,
    e: Error,
)
    requires
        addresses(
            header,
            default,
            disable_default_namespace,
            disable_namespaces,
            parse,
            Err(e),
        ),
    ensures
        disable_default_namespace,
        !disable_namespaces,
        header matches Some(text) ==> reads_name(parse, text, None),
{
}


/// Whether a text is read as one name only, or refused as one.
pub open spec fn reads_only<F: Fn(&str) -> Option<NamespaceName>>(
    parse: F,
    text: Seq<char>,
    outcome: Option<NamespaceName>,
) -> bool {
    forall|o: Option<NamespaceName>| #[trigger] reads_name(parse, text, o) ==> o == outcome
}

/// Where namespaces are disabled every request goes to the default one. Otherwise a request goes
/// to the namespace that its header names; without a name it goes to the default one, or is
/// refused where that is disabled.
pub proof fn lemma_namespace_of_request<F: Fn(&str) -> Option<NamespaceName>>(
    headers: &hyper::HeaderMap<hyper::header::HeaderValue>,
    default: NamespaceName,
    disable_default_namespace: bool,
    disable_namespaces: bool,
    parse: F,
    named: NamespaceName,
    r: Result<NamespaceName, Error>,
)
    requires
        call_ensures(
            namespace_from_headers::<F>,
            (headers, default, disable_default_namespace, disable_namespaces, parse),
            r,
        ),
    ensures
        disable_namespaces ==> r == Ok::<NamespaceName, Error>(default),
        !disable_namespaces && (header_text(*headers, "x-namespace"@) matches Some(text)
            && reads_only(parse, text, Some(named))) ==> r == Ok::<NamespaceName, Error>(named),
        !disable_namespaces && (header_text(*headers, "x-namespace"@) matches Some(text)
            ==> reads_only(parse, text, None)) ==> if disable_default_namespace {
            r matches Err(e) && e.kind == ErrorKind::InvalidHost && e.message@
                == "missing x-namespace header"@
        } else {
            r == Ok::<NamespaceName, Error>(default)
        },
{
}

/// The same of what a header named.
pub proof fn lemma_resolve_namespace(
    candidate: Option<NamespaceName>,
    default: NamespaceName,
    disable_default_namespace: bool,
    disable_namespaces: bool,
    r: Result<NamespaceName, Error>,
)
    requires
        call_ensures(
            resolve_namespace,
            (candidate, default, disable_default_namespace, disable_namespaces),
            r,
        ),
    ensures
        r is Err <==> candidate is None && disable_default_namespace && !disable_namespaces,
        r matches Ok(ns) ==> ns == default || candidate == Some(ns),
        disable_namespaces && r is Ok ==> r->Ok_0 == default,
        !disable_namespaces && candidate is Some ==> r == Ok::<NamespaceName, Error>(candidate->0),
{
}

/// A request has full access to the namespace that its headers name, and is refused only where
/// that namespace cannot be told.
pub proof fn lemma_authenticate_request<F: Fn(&str) -> Option<NamespaceName>>(
    headers: &hyper::HeaderMap<hyper::header::HeaderValue>,
    default: NamespaceName,
    disable_default_namespace: bool,
    disable_namespaces: bool,
    parse: F,
    named: NamespaceName,
    r: Result<(Authenticated, NamespaceName), Error>,
)
    requires
        call_ensures(
            authenticate_request::<F>,
            (headers, default, disable_default_namespace, disable_namespaces, parse),
            r,
        ),
    ensures
        r matches Ok(access) ==> access.0 == Authenticated::FullAccess,
        disable_namespaces ==> (r matches Ok(access) && access.1 == default),
        !disable_namespaces && (header_text(*headers, "x-namespace"@) matches Some(text)
            && reads_only(parse, text, Some(named))) ==> (r matches Ok(access) && access.1 == named),
        !disable_namespaces && header_text(*headers, "x-namespace"@) is None ==> (r is Err
            <==> disable_default_namespace),
        r is Err ==> disable_default_namespace && !disable_namespaces,
{
}

/// A namespace in the path wins over the one in the header, with the access that the request has
/// anyway. The access is settled before the path.
pub proof fn lemma_path_target(
    access: Result<(Authenticated, NamespaceName), Error>,
    path: Result<NamespaceName, String>,
    r: Result<(Authenticated, NamespaceName), Error>,
)
    requires
        call_ensures(path_target, (access, path), r),
    ensures
        r is Ok <==> access is Ok && path is Ok,
        r matches Ok(target) ==> target.1 == path->Ok_0 && target.0 == access->Ok_0.0,
        access matches Err(e) ==> r == Err::<(Authenticated, NamespaceName), Error>(e),
        access is Ok && path is Err ==> (r matches Err(e) && e@ == (
            ErrorKind::InvalidPath,
            path->Err_0@,
        )),
{
}

} // verus!
