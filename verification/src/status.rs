//! Deployment classification and host-status assembly.
//!
//! Given the bootloader's ordered deployment list and (optionally) the booted
//! deployment, the classifier partitions the list into staged / rollback /
//! other roles and computes the boot-order verdict; the boot-entry builder
//! extracts per-deployment metadata; the assembler combines both into a
//! `Host` snapshot.

use vstd::prelude::*;

use crate::host::{
    BootEntry, BootEntryOstree, BootOrder, CachedImageStatus, Host, HostSpec, HostStatus, HostType,
    ImageReference, StatusError, Store,
};
use crate::reference::{spec_parse_ostree_ref, OstreeImageReference};

verus! {

/// Origin metadata attached to a deployment: how it was produced.
pub struct Origin {
    /// The origin shows out-of-band local modifications that cannot be
    /// represented as a declaratively managed image.
    pub local_modifications: bool,
    /// The container-image reference string recorded in the origin, if the
    /// deployment is image-managed.
    pub container_image: Option<String>,
}

/// One bootable deployment as reported by the bootloader store.
pub struct Deployment {
    /// Name of the state root (OS installation identity) this belongs to.
    pub osname: String,
    /// Position in the bootloader menu; lower boots first.
    pub index: u64,
    /// Prepared to become active on the next boot.
    pub staged: bool,
    /// Protected from garbage collection.
    pub pinned: bool,
    /// Checksum of the deployed tree.
    pub checksum: String,
    /// Distinguishes deployments of the same checksum; never negative.
    pub deploy_serial: u64,
    /// Origin metadata, if any was recorded.
    pub origin: Option<Origin>,
    /// The image store this deployment declares, if any.
    pub store: Option<Store>,
}

/// Identity of a deployment, as the bootloader store compares them: same
/// state root, same checksum, same deploy serial.
pub open spec fn deployment_eq(a: Deployment, b: Deployment) -> bool {
    a.osname@ == b.osname@ && a.checksum@ == b.checksum@ && a.deploy_serial == b.deploy_serial
}

/// No two entries of `s` are the same deployment.
pub open spec fn pairwise_distinct(s: Seq<Deployment>) -> bool {
    forall|i: int, j: int|
        0 <= i < s.len() && 0 <= j < s.len() && i != j ==> !#[trigger] deployment_eq(s[i], s[j])
}

impl Origin {
    /// An equal copy, with every field's knowledge kept.
    pub fn duplicate(&self) -> (r: Self)
        ensures
            r.local_modifications == self.local_modifications,
            r.container_image == self.container_image,
    {
        Origin {
            local_modifications: self.local_modifications,
            container_image: match &self.container_image {
                Some(s) => Some(s.clone()),
                None => None,
            },
        }
    }
}

impl Deployment {
    /// Identity comparison, as the bootloader store does it.
    pub fn equal(&self, other: &Deployment) -> (r: bool)
        ensures
            r == deployment_eq(*self, *other),
    {
        self.osname == other.osname && self.checksum == other.checksum && self.deploy_serial
            == other.deploy_serial
    }

    /// An equal copy, with every field's knowledge kept.
    pub fn duplicate(&self) -> (r: Self)
        ensures
            r == *self,
    {
        Deployment {
            osname: self.osname.clone(),
            index: self.index,
            staged: self.staged,
            pinned: self.pinned,
            checksum: self.checksum.clone(),
            deploy_serial: self.deploy_serial,
            origin: match &self.origin {
                Some(o) => Some(o.duplicate()),
                None => None,
            },
            store: self.store,
        }
    }
}

/// The classifier's working set: the staged and rollback deployments, if
/// any, and every other deployment in order.
pub struct Deployments {
    pub staged: Option<Deployment>,
    pub rollback: Option<Deployment>,
    pub other: Vec<Deployment>,
}

/// Whether `d` belongs to the target state root: with no booted deployment
/// every deployment is related.
pub open spec fn spec_is_related(d: Deployment, booted: Option<Deployment>) -> bool {
    match booted {
        None => true,
        Some(b) => d.osname@ == b.osname@,
    }
}

/// Whether `d` belongs to a different state root than the booted one.
pub open spec fn spec_is_foreign(d: Deployment, booted: Option<Deployment>) -> bool {
    match booted {
        None => false,
        Some(b) => d.osname@ != b.osname@,
    }
}

/// Whether `d` survives the removal of the booted deployment.
pub open spec fn spec_keeps(d: Deployment, booted: Option<Deployment>) -> bool {
    match booted {
        None => true,
        Some(b) => !deployment_eq(d, b),
    }
}

/// The related deployments of `s`, in order.
pub open spec fn filter_related(s: Seq<Deployment>, booted: Option<Deployment>) -> Seq<Deployment>
    decreases s.len(),
{
    if s.len() == 0 {
        Seq::empty()
    } else {
        let prefix = filter_related(s.drop_last(), booted);
        if spec_is_related(s.last(), booted) {
            prefix.push(s.last())
        } else {
            prefix
        }
    }
}

/// The other-root deployments of `s`, in order.
pub open spec fn filter_foreign(s: Seq<Deployment>, booted: Option<Deployment>) -> Seq<Deployment>
    decreases s.len(),
{
    if s.len() == 0 {
        Seq::empty()
    } else {
        let prefix = filter_foreign(s.drop_last(), booted);
        if spec_is_foreign(s.last(), booted) {
            prefix.push(s.last())
        } else {
            prefix
        }
    }
}

/// `s` with every deployment equal to the booted one removed.
pub open spec fn filter_not_booted(s: Seq<Deployment>, booted: Option<Deployment>) -> Seq<
    Deployment,
>
    decreases s.len(),
{
    if s.len() == 0 {
        Seq::empty()
    } else {
        let prefix = filter_not_booted(s.drop_last(), booted);
        if spec_keeps(s.last(), booted) {
            prefix.push(s.last())
        } else {
            prefix
        }
    }
}

/// The first index at or after `i` whose deployment has the staged flag.
pub open spec fn first_staged_at(s: Seq<Deployment>, i: int) -> Option<int>
    decreases s.len() - i,
    when 0 <= i <= s.len()
{
    if i >= s.len() {
        None
    } else if s[i].staged {
        Some(i)
    } else {
        first_staged_at(s, i + 1)
    }
}

/// The first index whose deployment has the staged flag.
pub open spec fn first_staged_index(s: Seq<Deployment>) -> Option<int> {
    first_staged_at(s, 0)
}

/// The complete classification verdict.
pub ghost struct Classification {
    pub staged: Option<Deployment>,
    pub rollback: Option<Deployment>,
    pub other: Seq<Deployment>,
    pub rollback_queued: bool,
    pub boot_order: BootOrder,
}

/// What classifying `all` against `booted` yields: related deployments are
/// those of the booted state root (all of them when nothing is booted); the
/// first staged one is extracted; the booted one is removed; the front of
/// the remainder is the rollback; the rest, followed by the other-root
/// deployments, are `other`. A rollback is queued exactly when both a booted
/// and a rollback deployment exist and the rollback sits earlier in the
/// bootloader menu.
pub open spec fn classification(all: Seq<Deployment>, booted: Option<Deployment>) -> Classification {
    let rel = filter_related(all, booted);
    let staged_i = first_staged_index(rel);
    let staged = match staged_i {
        Some(i) => Some(rel[i]),
        None => None,
    };
    let rel1 = match staged_i {
        Some(i) => rel.remove(i),
        None => rel,
    };
    let rel2 = filter_not_booted(rel1, booted);
    let rollback = if rel2.len() > 0 {
        Some(rel2[0])
    } else {
        None
    };
    let rest = if rel2.len() > 0 {
        rel2.drop_first()
    } else {
        rel2
    };
    let rollback_queued = match booted {
        Some(b) => match rollback {
            Some(r) => r.index < b.index,
            None => false,
        },
        None => false,
    };
    Classification {
        staged,
        rollback,
        other: rest + filter_foreign(all, booted),
        rollback_queued,
        boot_order: if rollback_queued {
            BootOrder::Rollback
        } else {
            BootOrder::Default
        },
    }
}

/// The booted argument as a value.
pub open spec fn opt_deref(booted: Option<&Deployment>) -> Option<Deployment> {
    match booted {
        Some(d) => Some(*d),
        None => None,
    }
}

/// Finds the first staged deployment of `v`.
fn find_staged(v: &Vec<Deployment>) -> (r: Option<usize>)
    ensures
        match r {
            Some(i) => first_staged_index(v@) == Some(i as int) && i < v@.len(),
            None => first_staged_index(v@) is None,
        },
{
    let mut i: usize = 0;
    let len = v.len();
    while i < len
        invariant
            0 <= i <= len,
            len == v@.len(),
            first_staged_index(v@) == first_staged_at(v@, i as int),
        decreases len - i,
    {
        if v[i].staged {
            return Some(i);
        }
        i = i + 1;
    }
    None
}

/// Partitions `all` into the staged, rollback and other roles and computes
/// the boot-order verdict, exactly as `classification` describes.
pub fn classify(all: Vec<Deployment>, booted: Option<&Deployment>) -> (r: (
    Deployments,
    bool,
    BootOrder,
))
    ensures
        ({
            let c = classification(all@, opt_deref(booted));
            &&& r.0.staged == c.staged
            &&& r.0.rollback == c.rollback
            &&& r.0.other@ == c.other
            &&& r.1 == c.rollback_queued
            &&& r.2 == c.boot_order
        }),
{
    let ghost all0 = all@;
    let ghost bopt = opt_deref(booted);
    let mut rest = all;
    let mut related: Vec<Deployment> = Vec::new();
    let mut foreign: Vec<Deployment> = Vec::new();
    let ghost mut processed: Seq<Deployment> = Seq::empty();
    while rest.len() > 0
        invariant
            all0 == processed + rest@,
            related@ == filter_related(processed, bopt),
            foreign@ == filter_foreign(processed, bopt),
            bopt == opt_deref(booted),
        decreases rest.len(),
    {
        let d = rest.remove(0);
        let ghost dg = d;
        let keep = match booted {
            Some(b) => d.osname == b.osname,
            None => true,
        };
        if keep {
            related.push(d);
        } else {
            foreign.push(d);
        }
        proof {
            assert(processed.push(dg).drop_last() =~= processed);
            assert(all0 =~= processed.push(dg) + rest@);
            processed = processed.push(dg);
        }
    }
    proof {
        assert(processed =~= all0);
    }
    let staged = match find_staged(&related) {
        Some(i) => Some(related.remove(i)),
        None => None,
    };
    let ghost rel1 = related@;
    let mut retained: Vec<Deployment> = Vec::new();
    let ghost mut processed2: Seq<Deployment> = Seq::empty();
    while related.len() > 0
        invariant
            rel1 == processed2 + related@,
            retained@ == filter_not_booted(processed2, bopt),
            bopt == opt_deref(booted),
        decreases related.len(),
    {
        let d = related.remove(0);
        let ghost dg = d;
        let keep = match booted {
            Some(b) => !d.equal(b),
            None => true,
        };
        if keep {
            retained.push(d);
        }
        proof {
            assert(processed2.push(dg).drop_last() =~= processed2);
            assert(rel1 =~= processed2.push(dg) + related@);
            processed2 = processed2.push(dg);
        }
    }
    proof {
        assert(processed2 =~= rel1);
    }
    let ghost rel2 = retained@;
    let rollback = if retained.len() > 0 {
        Some(retained.remove(0))
    } else {
        None
    };
    proof {
        if rel2.len() > 0 {
            assert(rel2.remove(0) =~= rel2.drop_first());
        }
    }
    let rollback_queued = match (booted, &rollback) {
        (Some(b), Some(r)) => r.index < b.index,
        _ => false,
    };
    let boot_order = if rollback_queued {
        BootOrder::Rollback
    } else {
        BootOrder::Default
    };
    let mut other = retained;
    other.append(&mut foreign);
    (Deployments { staged, rollback, other }, rollback_queued, boot_order)
}

/// What the boot-entry builder produces for one deployment. A deployment
/// without origin, with local modifications, or without a container-image
/// key yields an entry without image data; the incompatibility flag wins
/// over any image key present. Otherwise the origin's reference must parse,
/// the provider's cached status is taken over, and the deployment's own
/// store (or the given default) is recorded. Pin state and ostree identity
/// are always carried over.
pub open spec fn spec_boot_entry(
    d: Deployment,
    default_store: Store,
    status: CachedImageStatus,
) -> Result<BootEntry, StatusError> {
    let entry_ostree = Some(
        BootEntryOstree { checksum: d.checksum, deploy_serial: d.deploy_serial },
    );
    match d.origin {
        None => Ok(
            BootEntry {
                image: None,
                cached_update: None,
                incompatible: false,
                store: None,
                pinned: d.pinned,
                ostree: entry_ostree,
            },
        ),
        Some(o) => if o.local_modifications {
            Ok(
                BootEntry {
                    image: None,
                    cached_update: None,
                    incompatible: true,
                    store: None,
                    pinned: d.pinned,
                    ostree: entry_ostree,
                },
            )
        } else {
            match o.container_image {
                None => Ok(
                    BootEntry {
                        image: None,
                        cached_update: None,
                        incompatible: false,
                        store: None,
                        pinned: d.pinned,
                        ostree: entry_ostree,
                    },
                ),
                Some(refstr) => match spec_parse_ostree_ref(refstr@) {
                    Ok(_) => Ok(
                        BootEntry {
                            image: status.image,
                            cached_update: status.cached_update,
                            incompatible: false,
                            store: Some(
                                match d.store {
                                    Some(s) => s,
                                    None => default_store,
                                },
                            ),
                            pinned: d.pinned,
                            ostree: entry_ostree,
                        },
                    ),
                    Err(e) => Err(e),
                },
            }
        },
    }
}

/// Extracts one deployment's metadata into a boot entry. `status` is the
/// external image-status provider's answer for this deployment; it is used
/// only when the deployment is image-managed and compatible.
pub fn boot_entry_from_deployment(
    d: &Deployment,
    default_store: Store,
    status: CachedImageStatus,
) -> (r: Result<BootEntry, StatusError>)
    ensures
        r == spec_boot_entry(*d, default_store, status),
{
    let entry_ostree = Some(
        BootEntryOstree { checksum: d.checksum.clone(), deploy_serial: d.deploy_serial },
    );
    match &d.origin {
        None => Ok(
            BootEntry {
                image: None,
                cached_update: None,
                incompatible: false,
                store: None,
                pinned: d.pinned,
                ostree: entry_ostree,
            },
        ),
        Some(o) => {
            if o.local_modifications {
                Ok(
                    BootEntry {
                        image: None,
                        cached_update: None,
                        incompatible: true,
                        store: None,
                        pinned: d.pinned,
                        ostree: entry_ostree,
                    },
                )
            } else {
                match get_image_origin(o) {
                    Ok(None) => Ok(
                        // The deployment is not using a container image.
                        BootEntry {
                            image: None,
                            cached_update: None,
                            incompatible: false,
                            store: None,
                            pinned: d.pinned,
                            ostree: entry_ostree,
                        },
                    ),
                    Ok(Some(_)) => {
                        let store = match d.store {
                            Some(s) => Some(s),
                            None => Some(default_store),
                        };
                        Ok(
                            BootEntry {
                                image: status.image,
                                cached_update: status.cached_update,
                                incompatible: false,
                                store,
                                pinned: d.pinned,
                                ostree: entry_ostree,
                            },
                        )
                    },
                    Err(e) => Err(e),
                }
            }
        },
    }
}

/// Reads the origin's targeted container-image reference. An origin without
/// the container-image key is not an error; a malformed reference is.
pub fn get_image_origin(origin: &Origin) -> (r: Result<Option<OstreeImageReference>, StatusError>)
    ensures
        match origin.container_image {
            None => r == Ok::<Option<OstreeImageReference>, StatusError>(None),
            Some(s) => match spec_parse_ostree_ref(s@) {
                Ok(v) => r matches Ok(o) && o matches Some(oref) && oref@ == v,
                Err(e) => r == Err::<Option<OstreeImageReference>, StatusError>(e),
            },
        },
{
    match &origin.container_image {
        None => Ok(None),
        Some(s) => match OstreeImageReference::parse(s.as_str()) {
            Ok(o) => Ok(Some(o)),
            Err(e) => Err(e),
        },
    }
}

/// The boot entry of an optional role.
pub open spec fn spec_role_entry(
    d: Option<Deployment>,
    default_store: Store,
    status: CachedImageStatus,
) -> Result<Option<BootEntry>, StatusError> {
    match d {
        None => Ok(None),
        Some(dep) => match spec_boot_entry(dep, default_store, status) {
            Ok(e) => Ok(Some(e)),
            Err(er) => Err(er),
        },
    }
}

/// The booted entry's image address, if it has one.
pub open spec fn spec_booted_image(be: Option<BootEntry>) -> Option<ImageReference> {
    match be {
        Some(e) => match e.image {
            Some(st) => Some(st.image),
            None => None,
        },
        None => None,
    }
}

/// The host's preferred image: the staged entry's image when it has one,
/// else the booted entry's — staging is the operator's next desired state.
pub open spec fn spec_host_image(se: Option<BootEntry>, be: Option<BootEntry>) -> Option<
    ImageReference,
> {
    match se {
        Some(e) => match e.image {
            Some(st) => Some(st.image),
            None => spec_booted_image(be),
        },
        None => spec_booted_image(be),
    }
}

/// The assembled snapshot: boot entries for the staged, booted and rollback
/// roles (the first failure, in that order, aborts the query), the derived
/// spec, and the `BootcHost` tag exactly when the booted entry has an image.
pub open spec fn spec_host_result(
    all: Seq<Deployment>,
    booted: Option<Deployment>,
    default_store: Store,
    staged_status: CachedImageStatus,
    booted_status: CachedImageStatus,
    rollback_status: CachedImageStatus,
) -> Result<Host, StatusError> {
    let c = classification(all, booted);
    match spec_role_entry(c.staged, default_store, staged_status) {
        Err(e) => Err(e),
        Ok(staged_e) => match spec_role_entry(booted, default_store, booted_status) {
            Err(e) => Err(e),
            Ok(booted_e) => match spec_role_entry(c.rollback, default_store, rollback_status) {
                Err(e) => Err(e),
                Ok(rollback_e) => {
                    let ty = if spec_booted_image(booted_e) is Some {
                        Some(HostType::BootcHost)
                    } else {
                        None
                    };
                    Ok(
                        Host {
                            spec: HostSpec {
                                image: spec_host_image(staged_e, booted_e),
                                boot_order: c.boot_order,
                            },
                            status: HostStatus {
                                staged: staged_e,
                                booted: booted_e,
                                rollback: rollback_e,
                                rollback_queued: c.rollback_queued,
                                ty,
                            },
                        },
                    )
                },
            },
        },
    }
}

/// The image address the host spec prefers, from the staged and booted
/// entries.
fn host_image_of(se: &Option<BootEntry>, be: &Option<BootEntry>) -> (r: Option<ImageReference>)
    ensures
        r == spec_host_image(*se, *be),
{
    match se {
        Some(e) => match &e.image {
            Some(st) => {
                return Some(st.image.duplicate());
            },
            None => {},
        },
        None => {},
    }
    match be {
        Some(e) => match &e.image {
            Some(st) => {
                return Some(st.image.duplicate());
            },
            None => {},
        },
        None => {},
    }
    None
}

/// Classifies the deployment list and assembles the full `Host` snapshot.
/// The three `CachedImageStatus` arguments are the external provider's
/// answers for the staged, booted and rollback deployments.
pub fn get_status(
    all: Vec<Deployment>,
    booted: Option<Deployment>,
    default_store: Store,
    staged_status: CachedImageStatus,
    booted_status: CachedImageStatus,
    rollback_status: CachedImageStatus,
) -> (r: Result<(Deployments, Host), StatusError>)
    ensures
        ({
            let c = classification(all@, booted);
            match r {
                Ok(p) => p.0.staged == c.staged && p.0.rollback == c.rollback && p.0.other@
                    == c.other && Ok::<Host, StatusError>(p.1) == spec_host_result(
                    all@,
                    booted,
                    default_store,
                    staged_status,
                    booted_status,
                    rollback_status,
                ),
                Err(e) => spec_host_result(
                    all@,
                    booted,
                    default_store,
                    staged_status,
                    booted_status,
                    rollback_status,
                ) == Err::<Host, StatusError>(e),
            }
        }),
{
    let (deployments, rollback_queued, boot_order) = classify(all, booted.as_ref());
    let staged_entry = match &deployments.staged {
        Some(d) => match boot_entry_from_deployment(d, default_store, staged_status) {
            Ok(e) => Some(e),
            Err(e) => {
                return Err(e);
            },
        },
        None => None,
    };
    let booted_entry = match &booted {
        Some(d) => match boot_entry_from_deployment(d, default_store, booted_status) {
            Ok(e) => Some(e),
            Err(e) => {
                return Err(e);
            },
        },
        None => None,
    };
    let rollback_entry = match &deployments.rollback {
        Some(d) => match boot_entry_from_deployment(d, default_store, rollback_status) {
            Ok(e) => Some(e),
            Err(e) => {
                return Err(e);
            },
        },
        None => None,
    };
    let image = host_image_of(&staged_entry, &booted_entry);
    let ty = match &booted_entry {
        Some(e) => if e.image.is_some() {
            Some(HostType::BootcHost)
        } else {
            None
        },
        None => None,
    };
    let host = Host {
        spec: HostSpec { image, boot_order },
        status: HostStatus {
            staged: staged_entry,
            booted: booted_entry,
            rollback: rollback_entry,
            rollback_queued,
            ty,
        },
    };
    Ok((deployments, host))
}

/// A variant of `get_status` that requires a booted deployment and hands it
/// back alongside the snapshot.
pub fn get_status_require_booted(
    all: Vec<Deployment>,
    booted: Option<Deployment>,
    default_store: Store,
    staged_status: CachedImageStatus,
    booted_status: CachedImageStatus,
    rollback_status: CachedImageStatus,
) -> (r: Result<(Deployment, Deployments, Host), StatusError>)
    ensures
        booted is None ==> r == Err::<(Deployment, Deployments, Host), StatusError>(
            StatusError::NotBooted,
        ),
        booted matches Some(b) ==> ({
            let c = classification(all@, booted);
            match r {
                Ok(t) => t.0 == b && t.1.staged == c.staged && t.1.rollback == c.rollback
                    && t.1.other@ == c.other && Ok::<Host, StatusError>(t.2) == spec_host_result(
                    all@,
                    booted,
                    default_store,
                    staged_status,
                    booted_status,
                    rollback_status,
                ),
                Err(e) => spec_host_result(
                    all@,
                    booted,
                    default_store,
                    staged_status,
                    booted_status,
                    rollback_status,
                ) == Err::<Host, StatusError>(e),
            }
        }),
{
    match booted {
        None => Err(StatusError::NotBooted),
        Some(b) => {
            let dup = b.duplicate();
            match get_status(all, Some(b), default_store, staged_status, booted_status, rollback_status) {
                Ok(p) => {
                    let (deployments, host) = p;
                    Ok((dup, deployments, host))
                },
                Err(e) => Err(e),
            }
        },
    }
}

/// Every element kept by `filter_not_booted` survives the booted-removal
/// predicate and stems from the input.
proof fn lemma_filter_not_booted_elems(s: Seq<Deployment>, booted: Option<Deployment>)
    ensures
        forall|k: int|
            0 <= k < filter_not_booted(s, booted).len() ==> spec_keeps(
                #[trigger] filter_not_booted(s, booted)[k],
                booted,
            ) && exists|j: int| 0 <= j < s.len() && filter_not_booted(s, booted)[k] == s[j],
    decreases s.len(),
{
    if s.len() > 0 {
        lemma_filter_not_booted_elems(s.drop_last(), booted);
        assert forall|k: int| 0 <= k < filter_not_booted(s, booted).len() implies spec_keeps(
            #[trigger] filter_not_booted(s, booted)[k],
            booted,
        ) && exists|j: int| 0 <= j < s.len() && filter_not_booted(s, booted)[k] == s[j] by {
            let prefix = filter_not_booted(s.drop_last(), booted);
            if k < prefix.len() {
                let j = choose|j: int| 0 <= j < s.drop_last().len() && prefix[k] == s.drop_last()[j];
                assert(filter_not_booted(s, booted)[k] == s[j]);
            } else {
                assert(filter_not_booted(s, booted)[k] == s[s.len() - 1]);
            }
        }
    }
}

/// Every element kept by `filter_foreign` lies on another state root and
/// stems from the input.
proof fn lemma_filter_foreign_elems(s: Seq<Deployment>, booted: Option<Deployment>)
    ensures
        forall|k: int|
            0 <= k < filter_foreign(s, booted).len() ==> spec_is_foreign(
                #[trigger] filter_foreign(s, booted)[k],
                booted,
            ) && exists|j: int| 0 <= j < s.len() && filter_foreign(s, booted)[k] == s[j],
    decreases s.len(),
{
    if s.len() > 0 {
        lemma_filter_foreign_elems(s.drop_last(), booted);
        assert forall|k: int| 0 <= k < filter_foreign(s, booted).len() implies spec_is_foreign(
            #[trigger] filter_foreign(s, booted)[k],
            booted,
        ) && exists|j: int| 0 <= j < s.len() && filter_foreign(s, booted)[k] == s[j] by {
            let prefix = filter_foreign(s.drop_last(), booted);
            if k < prefix.len() {
                let j = choose|j: int| 0 <= j < s.drop_last().len() && prefix[k] == s.drop_last()[j];
                assert(filter_foreign(s, booted)[k] == s[j]);
            } else {
                assert(filter_foreign(s, booted)[k] == s[s.len() - 1]);
            }
        }
    }
}

/// Every element kept by `filter_related` is related and stems from the
/// input.
proof fn lemma_filter_related_elems(s: Seq<Deployment>, booted: Option<Deployment>)
    ensures
        forall|k: int|
            0 <= k < filter_related(s, booted).len() ==> spec_is_related(
                #[trigger] filter_related(s, booted)[k],
                booted,
            ) && exists|j: int| 0 <= j < s.len() && filter_related(s, booted)[k] == s[j],
    decreases s.len(),
{
    if s.len() > 0 {
        lemma_filter_related_elems(s.drop_last(), booted);
        let rel = filter_related(s, booted);
        let prefix = filter_related(s.drop_last(), booted);
        assert forall|k: int| 0 <= k < rel.len() implies spec_is_related(
            #[trigger] rel[k],
            booted,
        ) && exists|j: int| 0 <= j < s.len() && rel[k] == s[j] by {
            if k < prefix.len() {
                let j = choose|j: int| 0 <= j < s.drop_last().len() && prefix[k] == s.drop_last()[j];
                assert(rel[k] == s[j]);
            } else {
                assert(rel[k] == s[s.len() - 1]);
            }
        }
    }
}

/// Two distinct positions of a filtered pairwise-distinct list hold
/// non-equal deployments.
proof fn lemma_filter_related_distinct_prefix(
    s: Seq<Deployment>,
    booted: Option<Deployment>,
    i: int,
    j: int,
)
    requires
        pairwise_distinct(s),
        0 <= i < filter_related(s, booted).len(),
        0 <= j < filter_related(s, booted).len(),
        i != j,
    ensures
        !deployment_eq(filter_related(s, booted)[i], filter_related(s, booted)[j]),
    decreases s.len(),
{
    assert(s.len() > 0);
    let rel = filter_related(s, booted);
    let prefix = filter_related(s.drop_last(), booted);
    assert(forall|a: int, b: int|
        0 <= a < s.drop_last().len() && 0 <= b < s.drop_last().len() ==> s.drop_last()[a] == s[a]
            && s.drop_last()[b] == s[b]);
    assert(pairwise_distinct(s.drop_last()));
    lemma_filter_related_elems(s.drop_last(), booted);
    if i < prefix.len() && j < prefix.len() {
        lemma_filter_related_distinct_prefix(s.drop_last(), booted, i, j);
    } else {
        // One of the two is the appended last element; the other stems from
        // the strict prefix, and distinctness of the source separates them.
        let a = if i < prefix.len() {
            i
        } else {
            j
        };
        assert(rel[a] == prefix[a]);
        let w = choose|w: int| 0 <= w < s.drop_last().len() && prefix[a] == s.drop_last()[w];
        assert(!deployment_eq(s[w], s[s.len() - 1]));
    }
}

/// What a found staged index means: it is the first one.
proof fn lemma_first_staged_props(s: Seq<Deployment>, i: int)
    requires
        0 <= i <= s.len(),
    ensures
        match first_staged_at(s, i) {
            Some(j) => i <= j < s.len() && s[j].staged && forall|k: int|
                i <= k < j ==> !s[k].staged,
            None => forall|k: int| i <= k < s.len() ==> !s[k].staged,
        },
    decreases s.len() - i,
{
    if i < s.len() && !s[i].staged {
        lemma_first_staged_props(s, i + 1);
    }
}

/// Law: classification is a pure function of the deployment list and the
/// booted deployment — classifying the same inputs twice yields identical
/// staged, rollback and other sets and the same boot-order verdict. Together
/// with `classify`'s contract, two calls on equal inputs return equal
/// results.
pub proof fn lemma_classification_idempotent(
    all: Seq<Deployment>,
    booted: Option<Deployment>,
    c1: Classification,
    c2: Classification,
)
    requires
        c1 == classification(all, booted),
        c2 == classification(all, booted),
    ensures
        c1 == c2,
{
}

/// Law: when some related deployment is staged, the classifier's staged
/// output is exactly the first such deployment in input order, and — for a
/// list without duplicate identities — it reappears neither as the rollback
/// nor among the other deployments.
pub proof fn lemma_staged_priority(all: Seq<Deployment>, booted: Option<Deployment>)
    requires
        pairwise_distinct(all),
        first_staged_index(filter_related(all, booted)) is Some,
    ensures
        ({
            let rel = filter_related(all, booted);
            let i0 = first_staged_index(rel)->Some_0;
            let c = classification(all, booted);
            &&& c.staged == Some(rel[i0])
            &&& rel[i0].staged
            &&& forall|k: int| 0 <= k < i0 ==> !rel[k].staged
            &&& c.rollback matches Some(rb) ==> !deployment_eq(rb, rel[i0])
            &&& forall|k: int|
                0 <= k < c.other.len() ==> !deployment_eq(#[trigger] c.other[k], rel[i0])
        }),
{
    let rel = filter_related(all, booted);
    let i0 = first_staged_index(rel)->Some_0;
    let st = rel[i0];
    let c = classification(all, booted);
    lemma_first_staged_props(rel, 0);
    lemma_filter_related_elems(all, booted);
    let rel1 = rel.remove(i0);
    assert(rel1 =~= rel.subrange(0, i0) + rel.subrange(i0 + 1, rel.len() as int));
    assert forall|k: int| 0 <= k < rel1.len() implies !deployment_eq(#[trigger] rel1[k], st) by {
        if k < i0 {
            assert(rel1[k] == rel[k]);
            lemma_filter_related_distinct_prefix(all, booted, k, i0);
        } else {
            assert(rel1[k] == rel[k + 1]);
            lemma_filter_related_distinct_prefix(all, booted, k + 1, i0);
        }
    }
    let rel2 = filter_not_booted(rel1, booted);
    lemma_filter_not_booted_elems(rel1, booted);
    assert forall|k: int| 0 <= k < rel2.len() implies !deployment_eq(#[trigger] rel2[k], st) by {
        let j = choose|j: int| 0 <= j < rel1.len() && rel2[k] == rel1[j];
        assert(!deployment_eq(rel1[j], st));
    }
    let rest = if rel2.len() > 0 {
        rel2.drop_first()
    } else {
        rel2
    };
    let foreign = filter_foreign(all, booted);
    lemma_filter_foreign_elems(all, booted);
    assert(spec_is_related(st, booted));
    assert forall|k: int| 0 <= k < c.other.len() implies !deployment_eq(
        #[trigger] c.other[k],
        st,
    ) by {
        if k < rest.len() {
            assert(c.other[k] == rest[k]);
            assert(rest[k] == rel2[k + 1]);
        } else {
            assert(c.other[k] == foreign[k - rest.len()]);
            assert(spec_is_foreign(foreign[k - rest.len()], booted));
        }
    }
}

/// Law: the booted deployment never reappears as the rollback or among the
/// other deployments of its own state root; other-root deployments differ
/// from it by state root already.
pub proof fn lemma_rollback_exclusivity(all: Seq<Deployment>, b: Deployment)
    ensures
        ({
            let c = classification(all, Some(b));
            &&& c.rollback matches Some(rb) ==> !deployment_eq(rb, b)
            &&& forall|k: int|
                0 <= k < c.other.len() ==> !deployment_eq(#[trigger] c.other[k], b)
        }),
{
    let booted = Some(b);
    let c = classification(all, booted);
    let rel = filter_related(all, booted);
    let rel1 = match first_staged_index(rel) {
        Some(i) => rel.remove(i),
        None => rel,
    };
    let rel2 = filter_not_booted(rel1, booted);
    lemma_filter_not_booted_elems(rel1, booted);
    let rest = if rel2.len() > 0 {
        rel2.drop_first()
    } else {
        rel2
    };
    let foreign = filter_foreign(all, booted);
    lemma_filter_foreign_elems(all, booted);
    assert forall|k: int| 0 <= k < c.other.len() implies !deployment_eq(
        #[trigger] c.other[k],
        b,
    ) by {
        if k < rest.len() {
            assert(c.other[k] == rest[k]);
            assert(rest[k] == rel2[k + 1]);
            assert(spec_keeps(rel2[k + 1], booted));
        } else {
            assert(c.other[k] == foreign[k - rest.len()]);
            assert(spec_is_foreign(foreign[k - rest.len()], booted));
        }
    }
}

/// Law: a rollback is queued exactly when a booted and a rollback deployment
/// both exist and the rollback's boot index is numerically smaller; in every
/// other combination the verdict is false, and the boot order says
/// `Rollback` exactly when a rollback is queued. Without a booted
/// deployment, `rollback_queued` is false unconditionally.
pub proof fn lemma_boot_order(all: Seq<Deployment>, booted: Option<Deployment>)
    ensures
        ({
            let c = classification(all, booted);
            &&& c.rollback_queued <==> (booted matches Some(b) && c.rollback matches Some(r)
                && r.index < b.index)
            &&& (c.boot_order == BootOrder::Rollback <==> c.rollback_queued)
            &&& booted is None ==> !c.rollback_queued
        }),
{
}

impl BootEntry {
    /// The ostree commit checksum that an image lookup for this entry should
    /// query: present exactly when the entry has both an image and an ostree
    /// identity.
    pub fn query_image(&self) -> (r: Option<&String>)
        ensures
            match r {
                Some(c) => self.image is Some && self.ostree is Some && c@
                    == self.ostree->Some_0.checksum@,
                None => self.image is None || self.ostree is None,
            },
    {
        if self.image.is_none() {
            return None;
        }
        match &self.ostree {
            Some(o) => Some(&o.checksum),
            None => None,
        }
    }
}

} // verus!
