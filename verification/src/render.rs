//! Rendering a `Host` snapshot as human-readable text, and the status
//! command's format decisions.

use vstd::prelude::*;
use vstd::string::StringExecFns;

use crate::host::{BootEntry, Host, ImageSignature, StatusError};

verus! {

/// The output formats a status request can ask for.
#[derive(Clone, Copy, Debug, PartialEq, Eq, Structural)]
pub enum OutputFormat {
    HumanReadable,
    Json,
    Yaml,
}

/// Which format a request resolves to: an explicit choice wins; otherwise
/// the legacy json flag, then an interactive terminal, decide.
pub open spec fn spec_select_format(
    format: Option<OutputFormat>,
    json: bool,
    is_terminal: bool,
) -> OutputFormat {
    match format {
        Some(f) => f,
        None => if json {
            OutputFormat::Json
        } else if is_terminal {
            OutputFormat::HumanReadable
        } else {
            OutputFormat::Yaml
        },
    }
}

/// Resolves the requested output format.
pub fn select_format(format: Option<OutputFormat>, json: bool, is_terminal: bool) -> (r:
    OutputFormat)
    ensures
        r == spec_select_format(format, json, is_terminal),
{
    match format {
        Some(f) => f,
        None => if json {
            OutputFormat::Json
        } else if is_terminal {
            OutputFormat::HumanReadable
        } else {
            OutputFormat::Yaml
        },
    }
}

/// Only format version zero is supported; an absent version means zero.
/// Anything else is a hard failure.
pub fn validate_format_version(version: Option<u32>) -> (r: Result<(), StatusError>)
    ensures
        r is Ok <==> (version is None || version == Some(0u32)),
        r is Err ==> r == Err::<(), StatusError>(StatusError::UnsupportedFormatVersion),
{
    match version {
        None => Ok(()),
        Some(v) => if v == 0 {
            Ok(())
        } else {
            Err(StatusError::UnsupportedFormatVersion)
        },
    }
}

/// One brief line per role: the image address, or why there is none.
pub open spec fn spec_render_entry(role: Seq<char>, e: Option<BootEntry>) -> Seq<char> {
    match e {
        Some(entry) => match entry.image {
            Some(st) => "Current "@ + role + " image: "@ + st.image.image@,
            None => "No image defined"@,
        },
        None => "No "@ + role + " image present"@,
    }
}

/// The brief rendering: the staged, booted and rollback roles in order.
pub open spec fn spec_render_host(h: Host) -> Seq<char> {
    spec_render_entry("staged"@, h.status.staged) + spec_render_entry("booted"@, h.status.booted)
        + spec_render_entry("rollback"@, h.status.rollback)
}

/// A short text for a signature mode.
pub open spec fn spec_signature_text(sig: ImageSignature) -> Seq<char> {
    match sig {
        ImageSignature::OstreeRemote(n) => "ostree-remote:"@ + n@,
        ImageSignature::ContainerPolicy => "container-policy"@,
        ImageSignature::Insecure => "insecure"@,
    }
}

/// One verbose block per role: address, version, transport, signature and
/// digest when all are present, else the most specific missing-data line.
pub open spec fn spec_render_entry_verbose(role: Seq<char>, e: Option<BootEntry>) -> Seq<char> {
    match e {
        None => "No "@ + role + " image present\n"@,
        Some(entry) => match entry.image {
            None => "No image defined\n"@,
            Some(st) => match st.version {
                None => "No image version defined\n"@,
                Some(v) => match st.image.signature {
                    None => "No image signature defined\n"@,
                    Some(sig) => "Current "@ + role + " image: "@ + st.image.image@ + "\n"@
                        + "Image version: "@ + v@ + "\n"@ + "Image transport: "@
                        + st.image.transport@ + "\n"@ + "Image signature: "@
                        + spec_signature_text(sig) + "\n"@ + "Image digest: "@ + st.image_digest@
                        + "\n"@,
                },
            },
        },
    }
}

/// The verbose rendering: the staged, booted and rollback roles in order.
pub open spec fn spec_render_host_verbose(h: Host) -> Seq<char> {
    spec_render_entry_verbose("staged"@, h.status.staged) + spec_render_entry_verbose(
        "booted"@,
        h.status.booted,
    ) + spec_render_entry_verbose("rollback"@, h.status.rollback)
}

/// The short text of a signature mode.
pub fn signature_text(sig: &ImageSignature) -> (r: String)
    ensures
        r@ == spec_signature_text(*sig),
{
    match sig {
        ImageSignature::OstreeRemote(n) => {
            let mut out = String::new();
            out.append("ostree-remote:");
            out.append(n.as_str());
            proof {
                assert(out@ =~= spec_signature_text(*sig));
            }
            out
        },
        ImageSignature::ContainerPolicy => "container-policy".to_owned(),
        ImageSignature::Insecure => "insecure".to_owned(),
    }
}

/// The brief line for one role.
fn render_entry(role: &str, e: &Option<BootEntry>) -> (r: String)
    ensures
        r@ == spec_render_entry(role@, *e),
{
    let mut out = String::new();
    match e {
        Some(entry) => match &entry.image {
            Some(st) => {
                out.append("Current ");
                out.append(role);
                out.append(" image: ");
                out.append(st.image.image.as_str());
            },
            None => {
                out.append("No image defined");
            },
        },
        None => {
            out.append("No ");
            out.append(role);
            out.append(" image present");
        },
    }
    proof {
        assert(out@ =~= spec_render_entry(role@, *e));
    }
    out
}

/// The verbose block for one role.
fn render_entry_verbose(role: &str, e: &Option<BootEntry>) -> (r: String)
    ensures
        r@ == spec_render_entry_verbose(role@, *e),
{
    let mut out = String::new();
    match e {
        None => {
            out.append("No ");
            out.append(role);
            out.append(" image present\n");
        },
        Some(entry) => match &entry.image {
            None => {
                out.append("No image defined\n");
            },
            Some(st) => match &st.version {
                None => {
                    out.append("No image version defined\n");
                },
                Some(v) => match &st.image.signature {
                    None => {
                        out.append("No image signature defined\n");
                    },
                    Some(sig) => {
                        out.append("Current ");
                        out.append(role);
                        out.append(" image: ");
                        out.append(st.image.image.as_str());
                        out.append("\n");
                        out.append("Image version: ");
                        out.append(v.as_str());
                        out.append("\n");
                        out.append("Image transport: ");
                        out.append(st.image.transport.as_str());
                        out.append("\n");
                        out.append("Image signature: ");
                        let sig_text = signature_text(sig);
                        out.append(sig_text.as_str());
                        out.append("\n");
                        out.append("Image digest: ");
                        out.append(st.image_digest.as_str());
                        out.append("\n");
                    },
                },
            },
        },
    }
    proof {
        assert(out@ =~= spec_render_entry_verbose(role@, *e));
    }
    out
}

/// Renders a snapshot as brief human-readable text, one line per role.
pub fn human_readable_output(host: &Host) -> (r: String)
    ensures
        r@ == spec_render_host(*host),
{
    let mut out = render_entry("staged", &host.status.staged);
    let booted = render_entry("booted", &host.status.booted);
    out.append(booted.as_str());
    let rollback = render_entry("rollback", &host.status.rollback);
    out.append(rollback.as_str());
    proof {
        assert(out@ =~= spec_render_host(*host));
    }
    out
}

/// Renders a snapshot as verbose human-readable text: per role the image
/// address, version, transport, signature and digest, or what is missing.
pub fn human_readable_output_beta(host: &Host) -> (r: String)
    ensures
        r@ == spec_render_host_verbose(*host),
{
    let mut out = render_entry_verbose("staged", &host.status.staged);
    let booted = render_entry_verbose("booted", &host.status.booted);
    out.append(booted.as_str());
    let rollback = render_entry_verbose("rollback", &host.status.rollback);
    out.append(rollback.as_str());
    proof {
        assert(out@ =~= spec_render_host_verbose(*host));
    }
    out
}

} // verus!
