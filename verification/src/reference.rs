//! The external image-addressing scheme and its translation into the tool's
//! own reference model.
//!
//! An external reference pairs a signature-verification mode with a
//! transport-qualified image name, written
//! `<scheme>:<...>` with the schemes `ostree-image-signed`,
//! `ostree-unverified-image`, `ostree-unverified-registry`,
//! `ostree-remote-registry` and `ostree-remote-image`. Translating to the
//! tool's model canonicalizes the registry transport to the bare token
//! `registry` and collapses "allow insecure" into an absent signature.

use vstd::prelude::*;

use crate::host::{ImageReference, ImageSignature, StatusError};
use crate::strutil::{char_len, find_char, spec_find_char, str_eq, substr_of, substring};

verus! {

/// The transport vocabulary of the external scheme.
#[derive(Clone, Copy, Debug, PartialEq, Eq, Structural)]
pub enum Transport {
    /// A remote registry (`registry` or `docker`).
    Registry,
    /// A local OCI directory (`oci`).
    OciDir,
    /// A local OCI archive tarball (`oci-archive`).
    OciArchive,
    /// A local Docker archive tarball (`docker-archive`).
    DockerArchive,
    /// Local container storage (`containers-storage`).
    ContainerStorage,
    /// A local directory (`dir`).
    Dir,
}

/// The external signature-verification mode.
#[derive(Clone, Debug, PartialEq, Eq)]
pub enum SignatureSource {
    /// Fetched via ostree with a remote's GPG configuration.
    OstreeRemote(String),
    /// Verified by the container-policy machinery.
    ContainerPolicy,
    /// Explicitly unverified.
    ContainerPolicyAllowInsecure,
}

/// A transport-qualified image name on the external side.
#[derive(Clone, Debug, PartialEq, Eq)]
pub struct ExternalImageReference {
    pub transport: Transport,
    pub name: String,
}

/// A full external reference: verification mode plus image reference.
#[derive(Clone, Debug, PartialEq, Eq)]
pub struct OstreeImageReference {
    pub sigverify: SignatureSource,
    pub imgref: ExternalImageReference,
}

/// Mathematical value of a `SignatureSource`.
pub ghost enum SigSourceV {
    OstreeRemote(Seq<char>),
    ContainerPolicy,
    ContainerPolicyAllowInsecure,
}

/// Mathematical value of an `ExternalImageReference`.
pub ghost struct ExtRefV {
    pub transport: Transport,
    pub name: Seq<char>,
}

/// Mathematical value of an `OstreeImageReference`.
pub ghost struct OstreeRefV {
    pub sigverify: SigSourceV,
    pub imgref: ExtRefV,
}

impl View for SignatureSource {
    type V = SigSourceV;

    open spec fn view(&self) -> SigSourceV {
        match self {
            SignatureSource::OstreeRemote(n) => SigSourceV::OstreeRemote(n@),
            SignatureSource::ContainerPolicy => SigSourceV::ContainerPolicy,
            SignatureSource::ContainerPolicyAllowInsecure => SigSourceV::ContainerPolicyAllowInsecure,
        }
    }
}

impl View for ExternalImageReference {
    type V = ExtRefV;

    open spec fn view(&self) -> ExtRefV {
        ExtRefV { transport: self.transport, name: self.name@ }
    }
}

impl View for OstreeImageReference {
    type V = OstreeRefV;

    open spec fn view(&self) -> OstreeRefV {
        OstreeRefV { sigverify: self.sigverify@, imgref: self.imgref@ }
    }
}

/// The canonical token of each transport. The registry transport is the bare
/// literal `registry`; every other transport is its own tag with the external
/// encoding's trailing delimiter segment stripped.
pub open spec fn transport_tag(t: Transport) -> Seq<char> {
    match t {
        Transport::Registry => "registry"@,
        Transport::OciDir => "oci"@,
        Transport::OciArchive => "oci-archive"@,
        Transport::DockerArchive => "docker-archive"@,
        Transport::ContainerStorage => "containers-storage"@,
        Transport::Dir => "dir"@,
    }
}

/// Which transport a token denotes. `docker` is an accepted alias for the
/// registry transport.
pub open spec fn spec_parse_transport(s: Seq<char>) -> Result<Transport, StatusError> {
    if s == "registry"@ || s == "docker"@ {
        Ok(Transport::Registry)
    } else if s == "oci"@ {
        Ok(Transport::OciDir)
    } else if s == "oci-archive"@ {
        Ok(Transport::OciArchive)
    } else if s == "docker-archive"@ {
        Ok(Transport::DockerArchive)
    } else if s == "containers-storage"@ {
        Ok(Transport::ContainerStorage)
    } else if s == "dir"@ {
        Ok(Transport::Dir)
    } else {
        Err(StatusError::UnknownTransport)
    }
}

/// Parse of `transport:name`, with the `docker://` special case.
pub open spec fn spec_parse_imgref(s: Seq<char>) -> Result<ExtRefV, StatusError> {
    match spec_find_char(s, ':') {
        None => Err(StatusError::MissingColon),
        Some(i) => {
            let tname = s.subrange(0, i);
            let name = s.subrange(i + 1, s.len() as int);
            match spec_parse_transport(tname) {
                Err(e) => Err(e),
                Ok(t) => if name.len() == 0 {
                    Err(StatusError::EmptyImageName)
                } else if tname == "docker"@ {
                    if name.len() >= 2 && name.subrange(0, 2) == "//"@ {
                        Ok(ExtRefV { transport: t, name: name.subrange(2, name.len() as int) })
                    } else {
                        Err(StatusError::MissingDockerSlashes)
                    }
                } else {
                    Ok(ExtRefV { transport: t, name })
                },
            }
        },
    }
}

/// Parse of a full external reference, `scheme:rest`. The two `-registry`
/// schemes are shorthands that force the registry transport.
pub open spec fn spec_parse_ostree_ref(s: Seq<char>) -> Result<OstreeRefV, StatusError> {
    match spec_find_char(s, ':') {
        None => Err(StatusError::MissingColon),
        Some(i) => {
            let first = s.subrange(0, i);
            let second = s.subrange(i + 1, s.len() as int);
            if first == "ostree-image-signed"@ {
                match spec_parse_imgref(second) {
                    Ok(r) => Ok(OstreeRefV { sigverify: SigSourceV::ContainerPolicy, imgref: r }),
                    Err(e) => Err(e),
                }
            } else if first == "ostree-unverified-image"@ {
                match spec_parse_imgref(second) {
                    Ok(r) => Ok(
                        OstreeRefV { sigverify: SigSourceV::ContainerPolicyAllowInsecure, imgref: r },
                    ),
                    Err(e) => Err(e),
                }
            } else if first == "ostree-unverified-registry"@ {
                if second.len() == 0 {
                    Err(StatusError::EmptyImageName)
                } else {
                    Ok(
                        OstreeRefV {
                            sigverify: SigSourceV::ContainerPolicyAllowInsecure,
                            imgref: ExtRefV { transport: Transport::Registry, name: second },
                        },
                    )
                }
            } else if first == "ostree-remote-registry"@ {
                match spec_find_char(second, ':') {
                    None => Err(StatusError::MissingRemoteColon),
                    Some(j) => {
                        let remote = second.subrange(0, j);
                        let rest = second.subrange(j + 1, second.len() as int);
                        if rest.len() == 0 {
                            Err(StatusError::EmptyImageName)
                        } else {
                            Ok(
                                OstreeRefV {
                                    sigverify: SigSourceV::OstreeRemote(remote),
                                    imgref: ExtRefV { transport: Transport::Registry, name: rest },
                                },
                            )
                        }
                    },
                }
            } else if first == "ostree-remote-image"@ {
                match spec_find_char(second, ':') {
                    None => Err(StatusError::MissingRemoteColon),
                    Some(j) => {
                        let remote = second.subrange(0, j);
                        let rest = second.subrange(j + 1, second.len() as int);
                        match spec_parse_imgref(rest) {
                            Ok(r) => Ok(
                                OstreeRefV { sigverify: SigSourceV::OstreeRemote(remote), imgref: r },
                            ),
                            Err(e) => Err(e),
                        }
                    },
                }
            } else {
                Err(StatusError::UnknownScheme)
            }
        },
    }
}

/// Parses a transport token.
pub fn parse_transport(s: &str) -> (r: Result<Transport, StatusError>)
    ensures
        r == spec_parse_transport(s@),
{
    if str_eq(s, "registry") || str_eq(s, "docker") {
        Ok(Transport::Registry)
    } else if str_eq(s, "oci") {
        Ok(Transport::OciDir)
    } else if str_eq(s, "oci-archive") {
        Ok(Transport::OciArchive)
    } else if str_eq(s, "docker-archive") {
        Ok(Transport::DockerArchive)
    } else if str_eq(s, "containers-storage") {
        Ok(Transport::ContainerStorage)
    } else if str_eq(s, "dir") {
        Ok(Transport::Dir)
    } else {
        Err(StatusError::UnknownTransport)
    }
}

/// The canonical token of a transport, as an owned string.
pub fn transport_to_string(transport: Transport) -> (r: String)
    ensures
        r@ == transport_tag(transport),
{
    match transport {
        Transport::Registry => "registry".to_owned(),
        Transport::OciDir => "oci".to_owned(),
        Transport::OciArchive => "oci-archive".to_owned(),
        Transport::DockerArchive => "docker-archive".to_owned(),
        Transport::ContainerStorage => "containers-storage".to_owned(),
        Transport::Dir => "dir".to_owned(),
    }
}

impl ExternalImageReference {
    /// Parses `transport:name`.
    pub fn parse(s: &str) -> (r: Result<ExternalImageReference, StatusError>)
        ensures
            r matches Ok(e) ==> spec_parse_imgref(s@) == Ok::<ExtRefV, StatusError>(e@),
            r matches Err(er) ==> spec_parse_imgref(s@) == Err::<ExtRefV, StatusError>(er),
    {
        let len = char_len(s);
        let i = match find_char(s, ':') {
            Some(i) => i,
            None => {
                return Err(StatusError::MissingColon);
            },
        };
        let tname = substr_of(s, 0, i);
        let name = substr_of(s, i + 1, len);
        let t = match parse_transport(tname) {
            Ok(t) => t,
            Err(e) => {
                return Err(e);
            },
        };
        let name_len = char_len(name);
        if name_len == 0 {
            return Err(StatusError::EmptyImageName);
        }
        if str_eq(tname, "docker") {
            if name_len >= 2 && str_eq(substr_of(name, 0, 2), "//") {
                Ok(ExternalImageReference { transport: t, name: substring(name, 2, name_len) })
            } else {
                Err(StatusError::MissingDockerSlashes)
            }
        } else {
            Ok(ExternalImageReference { transport: t, name: name.to_owned() })
        }
    }
}

impl OstreeImageReference {
    /// Parses a full external reference string.
    pub fn parse(s: &str) -> (r: Result<OstreeImageReference, StatusError>)
        ensures
            r matches Ok(o) ==> spec_parse_ostree_ref(s@) == Ok::<OstreeRefV, StatusError>(o@),
            r matches Err(er) ==> spec_parse_ostree_ref(s@) == Err::<OstreeRefV, StatusError>(er),
    {
        let len = char_len(s);
        let i = match find_char(s, ':') {
            Some(i) => i,
            None => {
                return Err(StatusError::MissingColon);
            },
        };
        let first = substr_of(s, 0, i);
        let second = substr_of(s, i + 1, len);
        let second_len = char_len(second);
        if str_eq(first, "ostree-image-signed") {
            match ExternalImageReference::parse(second) {
                Ok(r) => Ok(
                    OstreeImageReference { sigverify: SignatureSource::ContainerPolicy, imgref: r },
                ),
                Err(e) => Err(e),
            }
        } else if str_eq(first, "ostree-unverified-image") {
            match ExternalImageReference::parse(second) {
                Ok(r) => Ok(
                    OstreeImageReference {
                        sigverify: SignatureSource::ContainerPolicyAllowInsecure,
                        imgref: r,
                    },
                ),
                Err(e) => Err(e),
            }
        } else if str_eq(first, "ostree-unverified-registry") {
            if second_len == 0 {
                Err(StatusError::EmptyImageName)
            } else {
                Ok(
                    OstreeImageReference {
                        sigverify: SignatureSource::ContainerPolicyAllowInsecure,
                        imgref: ExternalImageReference {
                            transport: Transport::Registry,
                            name: second.to_owned(),
                        },
                    },
                )
            }
        } else if str_eq(first, "ostree-remote-registry") {
            match find_char(second, ':') {
                None => Err(StatusError::MissingRemoteColon),
                Some(j) => {
                    let remote = substr_of(second, 0, j);
                    let rest = substr_of(second, j + 1, second_len);
                    if char_len(rest) == 0 {
                        Err(StatusError::EmptyImageName)
                    } else {
                        Ok(
                            OstreeImageReference {
                                sigverify: SignatureSource::OstreeRemote(remote.to_owned()),
                                imgref: ExternalImageReference {
                                    transport: Transport::Registry,
                                    name: rest.to_owned(),
                                },
                            },
                        )
                    }
                },
            }
        } else if str_eq(first, "ostree-remote-image") {
            match find_char(second, ':') {
                None => Err(StatusError::MissingRemoteColon),
                Some(j) => {
                    let remote = substr_of(second, 0, j);
                    let rest = substr_of(second, j + 1, second_len);
                    match ExternalImageReference::parse(rest) {
                        Ok(r) => Ok(
                            OstreeImageReference {
                                sigverify: SignatureSource::OstreeRemote(remote.to_owned()),
                                imgref: r,
                            },
                        ),
                        Err(e) => Err(e),
                    }
                },
            }
        } else {
            Err(StatusError::UnknownScheme)
        }
    }
}

impl core::str::FromStr for OstreeImageReference {
    type Err = StatusError;

    fn from_str(s: &str) -> Result<Self, StatusError> {
        Self::parse(s)
    }
}

/// How the external verification mode maps into the tool's model when
/// reading: "allow insecure" collapses to no declared signature.
pub open spec fn spec_collapse_signature(sig: SignatureSource) -> Option<ImageSignature> {
    match sig {
        SignatureSource::ContainerPolicyAllowInsecure => None,
        SignatureSource::OstreeRemote(n) => Some(ImageSignature::OstreeRemote(n)),
        SignatureSource::ContainerPolicy => Some(ImageSignature::ContainerPolicy),
    }
}

/// How the tool's signature maps out when writing: an absent signature
/// expands to "allow insecure".
pub open spec fn spec_expand_signature(sig: Option<ImageSignature>) -> SignatureSource {
    match sig {
        None => SignatureSource::ContainerPolicyAllowInsecure,
        Some(ImageSignature::OstreeRemote(n)) => SignatureSource::OstreeRemote(n),
        Some(ImageSignature::ContainerPolicy) => SignatureSource::ContainerPolicy,
        Some(ImageSignature::Insecure) => SignatureSource::ContainerPolicyAllowInsecure,
    }
}

/// The variant-for-variant signature translation, external to internal.
pub open spec fn spec_signature_from_external(sig: SignatureSource) -> ImageSignature {
    match sig {
        SignatureSource::OstreeRemote(n) => ImageSignature::OstreeRemote(n),
        SignatureSource::ContainerPolicy => ImageSignature::ContainerPolicy,
        SignatureSource::ContainerPolicyAllowInsecure => ImageSignature::Insecure,
    }
}

impl ImageSignature {
    /// Maps the external verification mode, variant for variant.
    pub fn from_external(sig: SignatureSource) -> (r: Self)
        ensures
            r == spec_signature_from_external(sig),
    {
        match sig {
            SignatureSource::OstreeRemote(n) => ImageSignature::OstreeRemote(n),
            SignatureSource::ContainerPolicy => ImageSignature::ContainerPolicy,
            SignatureSource::ContainerPolicyAllowInsecure => ImageSignature::Insecure,
        }
    }
}

impl SignatureSource {
    /// Maps the tool's signature out, variant for variant.
    pub fn from_signature(sig: ImageSignature) -> (r: Self)
        ensures
            r == spec_expand_signature(Some(sig)),
    {
        match sig {
            ImageSignature::OstreeRemote(n) => SignatureSource::OstreeRemote(n),
            ImageSignature::ContainerPolicy => SignatureSource::ContainerPolicy,
            ImageSignature::Insecure => SignatureSource::ContainerPolicyAllowInsecure,
        }
    }
}

impl ImageReference {
    /// Translates an external reference into the tool's model: the name is
    /// kept, the transport is canonicalized to its token, and "allow
    /// insecure" collapses to an absent signature.
    pub fn from_external(r: OstreeImageReference) -> (res: ImageReference)
        ensures
            res.image == r.imgref.name,
            res.transport@ == transport_tag(r.imgref.transport),
            res.signature == spec_collapse_signature(r.sigverify),
    {
        let OstreeImageReference { sigverify, imgref } = r;
        let signature = match sigverify {
            SignatureSource::ContainerPolicyAllowInsecure => None,
            v => Some(ImageSignature::from_external(v)),
        };
        ImageReference {
            image: imgref.name,
            transport: transport_to_string(imgref.transport),
            signature,
        }
    }

    /// Translates the tool's reference out to the external scheme. The
    /// transport token is parsed back; a token outside the vocabulary is the
    /// one failure, reported as is.
    pub fn to_external(self) -> (res: Result<OstreeImageReference, StatusError>)
        ensures
            res matches Ok(o) ==> spec_parse_transport(self.transport@) == Ok::<
                Transport,
                StatusError,
            >(o.imgref.transport) && o.imgref.name == self.image && o.sigverify
                == spec_expand_signature(self.signature),
            res matches Err(e) ==> spec_parse_transport(self.transport@) == Err::<
                Transport,
                StatusError,
            >(e),
    {
        let ImageReference { image, transport, signature } = self;
        let t = match parse_transport(transport.as_str()) {
            Ok(t) => t,
            Err(e) => {
                return Err(e);
            },
        };
        let sigverify = match signature {
            Some(v) => SignatureSource::from_signature(v),
            None => SignatureSource::ContainerPolicyAllowInsecure,
        };
        Ok(
            OstreeImageReference {
                sigverify,
                imgref: ExternalImageReference { transport: t, name: image },
            },
        )
    }
}

/// Law: for a reference whose transport token parses to anything but the
/// registry transport, translating out and back returns the original, as long
/// as the signature is not the explicitly insecure one (whose loss is the
/// documented collapse). The hypotheses are exactly the contracts of
/// `ImageReference::to_external` and `ImageReference::from_external`.
pub proof fn lemma_reference_round_trip(r: ImageReference, e: OstreeImageReference, r2: ImageReference)
    requires
        spec_parse_transport(r.transport@) matches Ok(t) && t != Transport::Registry,
        !(r.signature matches Some(ImageSignature::Insecure)),
        spec_parse_transport(r.transport@) == Ok::<Transport, StatusError>(e.imgref.transport),
        e.imgref.name == r.image,
        e.sigverify == spec_expand_signature(r.signature),
        r2.image == e.imgref.name,
        r2.transport@ == transport_tag(e.imgref.transport),
        r2.signature == spec_collapse_signature(e.sigverify),
    ensures
        r2.image == r.image,
        r2.transport@ == r.transport@,
        r2.signature == r.signature,
{
}

/// Law: a reference on the registry transport canonicalizes to the literal
/// `registry` token in one round trip, and the canonical form is a fixed
/// point of further round trips.
pub proof fn lemma_registry_canonical_stable(r: ImageReference, e: OstreeImageReference, r2: ImageReference)
    requires
        spec_parse_transport(r.transport@) == Ok::<Transport, StatusError>(Transport::Registry),
        spec_parse_transport(r.transport@) == Ok::<Transport, StatusError>(e.imgref.transport),
        e.imgref.name == r.image,
        e.sigverify == spec_expand_signature(r.signature),
        r2.image == e.imgref.name,
        r2.transport@ == transport_tag(e.imgref.transport),
        r2.signature == spec_collapse_signature(e.sigverify),
    ensures
        r2.transport@ == "registry"@,
        spec_parse_transport(r2.transport@) == Ok::<Transport, StatusError>(Transport::Registry),
        r2.image == r.image,
        spec_collapse_signature(spec_expand_signature(r2.signature)) == r2.signature,
{
}

/// Law: the signature collapse/expand pair. Reading an "allow insecure"
/// reference yields no signature; writing no signature yields "allow
/// insecure"; every signature other than the explicit `Insecure` round-trips
/// unchanged, while `Insecure` comes back as `None` — the documented loss.
pub proof fn lemma_signature_collapse_expand(sig: Option<ImageSignature>)
    ensures
        spec_collapse_signature(SignatureSource::ContainerPolicyAllowInsecure) is None,
        spec_expand_signature(None) == SignatureSource::ContainerPolicyAllowInsecure,
        !(sig matches Some(ImageSignature::Insecure)) ==> spec_collapse_signature(
            spec_expand_signature(sig),
        ) == sig,
        sig matches Some(ImageSignature::Insecure) ==> spec_collapse_signature(
            spec_expand_signature(sig),
        ) is None,
{
}

} // verus!
