//! The host-status data model: image references, boot entries, and the
//! assembled `Host` snapshot reported to callers.

use vstd::prelude::*;

verus! {

/// Boot-order intent inferred from the bootloader's deployment ordering.
#[derive(Clone, Copy, Debug, PartialEq, Eq, Structural)]
pub enum BootOrder {
    /// The booted deployment stays first for the next boot.
    Default,
    /// The rollback deployment will be chosen on the next boot.
    Rollback,
}

impl Default for BootOrder {
    fn default() -> (r: Self)
        ensures
            r == BootOrder::Default,
    {
        BootOrder::Default
    }
}

/// Type tag of a host that is managed by image-based deployment.
#[derive(Clone, Copy, Debug, PartialEq, Eq, Structural)]
pub enum HostType {
    BootcHost,
}

/// The backing store used for a deployment's container image.
#[derive(Clone, Copy, Debug, PartialEq, Eq, Structural)]
pub enum Store {
    OstreeContainer,
}

/// Everything that can go wrong while computing a status snapshot.
#[derive(Clone, Copy, Debug, PartialEq, Eq, Structural)]
pub enum StatusError {
    /// A reference string has no `:` separating its scheme or transport.
    MissingColon,
    /// The transport token of a reference is not in the known vocabulary.
    UnknownTransport,
    /// The leading scheme of an ostree container reference is unknown.
    UnknownScheme,
    /// A remote-signed reference scheme is missing its second `:`.
    MissingRemoteColon,
    /// The image name of a reference is empty.
    EmptyImageName,
    /// A `docker:` reference does not continue with `//`.
    MissingDockerSlashes,
    /// The requested status format version is not supported.
    UnsupportedFormatVersion,
    /// A booted deployment was required but none was given.
    NotBooted,
}

/// How an image's signature is verified.
#[derive(Clone, Debug, PartialEq, Eq)]
pub enum ImageSignature {
    /// Fetched via ostree with a remote's GPG configuration.
    OstreeRemote(String),
    /// Verified by the container-policy machinery.
    ContainerPolicy,
    /// Explicitly unverified.
    Insecure,
}

/// The tool's own reference to a container image: an opaque address, a
/// canonical transport tag, and an optional signature-verification mode.
/// A missing signature means "allow insecure" on the external side.
#[derive(Clone, Debug, PartialEq, Eq)]
pub struct ImageReference {
    pub image: String,
    pub transport: String,
    pub signature: Option<ImageSignature>,
}

/// Cached facts about one container image, as supplied by the external
/// image-status provider.
#[derive(Clone, Debug, PartialEq, Eq)]
pub struct ImageStatus {
    pub image: ImageReference,
    pub version: Option<String>,
    pub image_digest: String,
}

/// The provider's answer for a deployment: the current image status and a
/// cached update, each optional.
#[derive(Clone, Debug, PartialEq, Eq)]
pub struct CachedImageStatus {
    pub image: Option<ImageStatus>,
    pub cached_update: Option<ImageStatus>,
}

impl Default for CachedImageStatus {
    fn default() -> (r: Self)
        ensures
            r.image is None,
            r.cached_update is None,
    {
        CachedImageStatus { image: None, cached_update: None }
    }
}

/// Identity of the low-level ostree deployment behind a boot entry.
#[derive(Clone, Debug, PartialEq, Eq)]
pub struct BootEntryOstree {
    pub checksum: String,
    pub deploy_serial: u64,
}

/// One classified deployment, with its image metadata extracted.
#[derive(Clone, Debug, PartialEq, Eq)]
pub struct BootEntry {
    pub image: Option<ImageStatus>,
    pub cached_update: Option<ImageStatus>,
    /// The deployment carries local modifications that cannot be represented
    /// as a declaratively managed image.
    pub incompatible: bool,
    pub store: Option<Store>,
    pub pinned: bool,
    pub ostree: Option<BootEntryOstree>,
}

/// The declared intent: which image the host should run, and in which order
/// the bootloader should pick deployments.
#[derive(Clone, Debug, PartialEq, Eq)]
pub struct HostSpec {
    pub image: Option<ImageReference>,
    pub boot_order: BootOrder,
}

impl Default for HostSpec {
    fn default() -> (r: Self)
        ensures
            r.image is None,
            r.boot_order == BootOrder::Default,
    {
        HostSpec { image: None, boot_order: BootOrder::Default }
    }
}

/// The observed state: one entry per role plus the boot-order verdict.
#[derive(Clone, Debug, PartialEq, Eq)]
pub struct HostStatus {
    pub staged: Option<BootEntry>,
    pub booted: Option<BootEntry>,
    pub rollback: Option<BootEntry>,
    /// True exactly when the rollback deployment precedes the booted one in
    /// the bootloader's order.
    pub rollback_queued: bool,
    pub ty: Option<HostType>,
}

impl Default for HostStatus {
    fn default() -> (r: Self)
        ensures
            r.staged is None,
            r.booted is None,
            r.rollback is None,
            r.rollback_queued == false,
            r.ty is None,
    {
        HostStatus { staged: None, booted: None, rollback: None, rollback_queued: false, ty: None }
    }
}

/// The full snapshot handed to reporting: declared spec plus observed status.
#[derive(Clone, Debug, PartialEq, Eq)]
pub struct Host {
    pub spec: HostSpec,
    pub status: HostStatus,
}

impl Host {
    /// A snapshot with the given spec and an empty status.
    pub fn new(spec: HostSpec) -> (r: Self)
        ensures
            r.spec == spec,
            r.status.staged is None,
            r.status.booted is None,
            r.status.rollback is None,
            r.status.rollback_queued == false,
            r.status.ty is None,
    {
        Host {
            spec,
            status: HostStatus {
                staged: None,
                booted: None,
                rollback: None,
                rollback_queued: false,
                ty: None,
            },
        }
    }
}

impl Default for Host {
    fn default() -> (r: Self)
        ensures
            r.spec.image is None,
            r.spec.boot_order == BootOrder::Default,
            r.status.staged is None,
            r.status.booted is None,
            r.status.rollback is None,
            r.status.rollback_queued == false,
            r.status.ty is None,
    {
        Host::new(HostSpec { image: None, boot_order: BootOrder::Default })
    }
}

impl ImageSignature {
    /// An equal copy; written out so that verified callers keep full
    /// knowledge of the result, which a derived `Clone` would not give.
    pub fn duplicate(&self) -> (r: Self)
        ensures
            r == *self,
    {
        match self {
            ImageSignature::OstreeRemote(n) => ImageSignature::OstreeRemote(n.clone()),
            ImageSignature::ContainerPolicy => ImageSignature::ContainerPolicy,
            ImageSignature::Insecure => ImageSignature::Insecure,
        }
    }
}

impl ImageReference {
    /// An equal copy (see `ImageSignature::duplicate`).
    pub fn duplicate(&self) -> (r: Self)
        ensures
            r == *self,
    {
        ImageReference {
            image: self.image.clone(),
            transport: self.transport.clone(),
            signature: match &self.signature {
                Some(s) => Some(s.duplicate()),
                None => None,
            },
        }
    }
}

} // verus!
