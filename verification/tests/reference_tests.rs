use std::str::FromStr;

use bootc_status::host::{ImageReference, ImageSignature, StatusError};
use bootc_status::reference::{
    transport_to_string, ExternalImageReference, OstreeImageReference, SignatureSource, Transport,
};
use bootc_status::timestamp::try_deserialize_timestamp;

fn plain_ref(image: &str, transport: &str, signature: Option<ImageSignature>) -> ImageReference {
    ImageReference {
        image: image.to_string(),
        transport: transport.to_string(),
        signature,
    }
}

#[test]
fn test_convert_signatures() {
    let ir_unverified = &OstreeImageReference::from_str(
        "ostree-unverified-registry:quay.io/someexample/foo:latest",
    )
    .unwrap();
    let ir_ostree = &OstreeImageReference::from_str(
        "ostree-remote-registry:fedora:quay.io/fedora/fedora-coreos:stable",
    )
    .unwrap();

    let ir = ImageReference::from_external(ir_unverified.clone());
    assert_eq!(ir.image, "quay.io/someexample/foo:latest");
    assert_eq!(ir.signature, None);

    let ir = ImageReference::from_external(ir_ostree.clone());
    assert_eq!(ir.image, "quay.io/fedora/fedora-coreos:stable");
    assert_eq!(
        ir.signature,
        Some(ImageSignature::OstreeRemote("fedora".into()))
    );
}

#[test]
fn parse_ostree_ref_schemes() {
    let r = OstreeImageReference::parse("ostree-image-signed:registry:quay.io/e/i:latest").unwrap();
    assert_eq!(r.sigverify, SignatureSource::ContainerPolicy);
    assert_eq!(r.imgref.transport, Transport::Registry);
    assert_eq!(r.imgref.name, "quay.io/e/i:latest");

    let r = OstreeImageReference::parse("ostree-unverified-image:oci:/some/dir").unwrap();
    assert_eq!(r.sigverify, SignatureSource::ContainerPolicyAllowInsecure);
    assert_eq!(r.imgref.transport, Transport::OciDir);
    assert_eq!(r.imgref.name, "/some/dir");

    let r = OstreeImageReference::parse("ostree-remote-image:prod:oci-archive:/tmp/foo.tar")
        .unwrap();
    assert_eq!(r.sigverify, SignatureSource::OstreeRemote("prod".into()));
    assert_eq!(r.imgref.transport, Transport::OciArchive);
    assert_eq!(r.imgref.name, "/tmp/foo.tar");

    let r = OstreeImageReference::parse("ostree-unverified-image:docker://quay.io/e/i").unwrap();
    assert_eq!(r.imgref.transport, Transport::Registry);
    assert_eq!(r.imgref.name, "quay.io/e/i");
}

#[test]
fn parse_ostree_ref_errors() {
    assert_eq!(
        OstreeImageReference::parse("nocolon"),
        Err(StatusError::MissingColon)
    );
    assert_eq!(
        OstreeImageReference::parse("whatever:rest"),
        Err(StatusError::UnknownScheme)
    );
    assert_eq!(
        OstreeImageReference::parse("ostree-remote-image:fedora"),
        Err(StatusError::MissingRemoteColon)
    );
    assert_eq!(
        OstreeImageReference::parse("ostree-unverified-registry:"),
        Err(StatusError::EmptyImageName)
    );
    assert_eq!(
        OstreeImageReference::parse("ostree-unverified-image:bogus:name"),
        Err(StatusError::UnknownTransport)
    );
}

#[test]
fn parse_imgref_cases() {
    let r = ExternalImageReference::parse("containers-storage:localhost/i").unwrap();
    assert_eq!(r.transport, Transport::ContainerStorage);
    assert_eq!(r.name, "localhost/i");

    assert_eq!(
        ExternalImageReference::parse("oci:"),
        Err(StatusError::EmptyImageName)
    );
    assert_eq!(
        ExternalImageReference::parse("docker:quay.io/e/i"),
        Err(StatusError::MissingDockerSlashes)
    );
    let r = ExternalImageReference::parse("docker://quay.io/e/i").unwrap();
    assert_eq!(r.transport, Transport::Registry);
    assert_eq!(r.name, "quay.io/e/i");
}

#[test]
fn transport_tokens() {
    assert_eq!(transport_to_string(Transport::Registry), "registry");
    assert_eq!(transport_to_string(Transport::OciDir), "oci");
    assert_eq!(transport_to_string(Transport::OciArchive), "oci-archive");
    assert_eq!(transport_to_string(Transport::DockerArchive), "docker-archive");
    assert_eq!(
        transport_to_string(Transport::ContainerStorage),
        "containers-storage"
    );
    assert_eq!(transport_to_string(Transport::Dir), "dir");
}

#[test]
fn reference_round_trip_non_registry() {
    for tag in ["oci", "oci-archive", "docker-archive", "containers-storage", "dir"] {
        for sig in [
            None,
            Some(ImageSignature::ContainerPolicy),
            Some(ImageSignature::OstreeRemote("prod".to_string())),
        ] {
            let r = plain_ref("/some/path", tag, sig);
            let e = r.clone().to_external().unwrap();
            let r2 = ImageReference::from_external(e);
            assert_eq!(r2, r);
        }
    }
}

#[test]
fn reference_round_trip_registry_canonicalizes() {
    let r = plain_ref("quay.io/e/i", "docker", None);
    let e = r.clone().to_external().unwrap();
    assert_eq!(e.imgref.transport, Transport::Registry);
    let r2 = ImageReference::from_external(e);
    assert_eq!(r2.transport, "registry");
    assert_eq!(r2.image, r.image);
    // The canonical form is a fixed point of further round trips.
    let e2 = r2.clone().to_external().unwrap();
    let r3 = ImageReference::from_external(e2);
    assert_eq!(r3, r2);
}

#[test]
fn reference_unknown_transport_fails() {
    let r = plain_ref("x", "carrier-pigeon", None);
    assert_eq!(r.to_external(), Err(StatusError::UnknownTransport));
}

#[test]
fn signature_collapse_and_expand() {
    // Reading "allow insecure" yields no signature.
    let e = OstreeImageReference {
        sigverify: SignatureSource::ContainerPolicyAllowInsecure,
        imgref: ExternalImageReference {
            transport: Transport::Registry,
            name: "quay.io/e/i".to_string(),
        },
    };
    let r = ImageReference::from_external(e);
    assert_eq!(r.signature, None);

    // Writing no signature yields "allow insecure".
    let r = plain_ref("quay.io/e/i", "registry", None);
    let e = r.to_external().unwrap();
    assert_eq!(e.sigverify, SignatureSource::ContainerPolicyAllowInsecure);

    // An explicit Insecure signature is lost on the way out and back.
    let r = plain_ref("quay.io/e/i", "registry", Some(ImageSignature::Insecure));
    let e = r.to_external().unwrap();
    assert_eq!(e.sigverify, SignatureSource::ContainerPolicyAllowInsecure);
    let r2 = ImageReference::from_external(e);
    assert_eq!(r2.signature, None);
}

#[test]
fn signature_variant_translation() {
    assert_eq!(
        ImageSignature::from_external(SignatureSource::ContainerPolicyAllowInsecure),
        ImageSignature::Insecure
    );
    assert_eq!(
        ImageSignature::from_external(SignatureSource::OstreeRemote("r1".into())),
        ImageSignature::OstreeRemote("r1".into())
    );
    assert_eq!(
        SignatureSource::from_signature(ImageSignature::ContainerPolicy),
        SignatureSource::ContainerPolicy
    );
    assert_eq!(
        SignatureSource::from_signature(ImageSignature::Insecure),
        SignatureSource::ContainerPolicyAllowInsecure
    );
}

#[test]
fn timestamp_parsing() {
    assert_eq!(try_deserialize_timestamp("1970-01-01T00:00:00Z"), Some(0));
    // Offsets are reduced to UTC.
    assert_eq!(try_deserialize_timestamp("1970-01-01T01:00:00+01:00"), Some(0));
    assert_eq!(try_deserialize_timestamp("2000-01-01T00:00:00Z"), Some(946684800));
    assert_eq!(try_deserialize_timestamp("not a timestamp"), None);
    assert_eq!(try_deserialize_timestamp(""), None);
}
