//! The fio-spdk component of the test-cluster deployer: whether it is deployed,
//! and the container it runs in.
use vstd::prelude::*;

verus! {

/// Options of a deployment, as far as the fio-spdk component reads them.
#[derive(Debug, Clone, Copy, PartialEq, Eq, Structural)]
pub struct StartOptions {
    /// Whether to deploy a fio-spdk container.
    pub fio_spdk: bool,
}

/// Specification of a container to run.
#[derive(Debug)]
pub struct ContainerSpec {
    /// Name of the container.
    pub name: String,
    /// Image of the container.
    pub image: String,
    /// Entry point of the container.
    pub entrypoint: String,
    /// Whether the default mounts are left out.
    pub bypass_default_mounts: bool,
    /// Bind mounts: host path and container path (with options).
    pub binds: Vec<(String, String)>,
    /// Whether the container is privileged, if set.
    pub privileged: Option<bool>,
    /// Arguments of the entry point.
    pub args: Vec<String>,
}

/// The bind mounts of the fio-spdk container.
pub open spec fn fio_spdk_binds() -> Seq<(Seq<char>, Seq<char>)> {
    seq![
        ("/var/run/dpdk"@, "/var/run/dpdk"@),
        ("/var/tmp/"@, "/var/tmp/:shared"@),
        ("/dev"@, "/dev:ro"@),
    ]
}

/// Whether `spec` is the fio-spdk container of the given image: named
/// "fio-spdk", sleeping forever with the host's DPDK runtime, temporary files
/// and devices bound in, without default mounts, and privileged.
pub open spec fn is_fio_spdk_container(spec: ContainerSpec, image: Seq<char>) -> bool {
    &&& spec.name@ == "fio-spdk"@
    &&& spec.image@ == image
    &&& spec.entrypoint@ == "sleep"@
    &&& spec.bypass_default_mounts
    &&& spec.binds@.map_values(|b: (String, String)| (b.0@, b.1@)) == fio_spdk_binds()
    &&& spec.privileged == Some(true)
    &&& spec.args.deep_view() == seq!["infinity"@]
}

/// A bind mount of `host` at `container`.
fn bind(host: &str, container: &str) -> (r: (String, String))
    ensures
        r.0@ == host@,
        r.1@ == container@,
{
    (String::from_str(host), String::from_str(container))
}

/// The container to add to the deployment for fio-spdk: one where the options
/// ask for it, none otherwise.
pub fn configure(options: &StartOptions, image: &str) -> (r: Option<ContainerSpec>)
    ensures
        r is Some <==> options.fio_spdk,
        r matches Some(spec) ==> is_fio_spdk_container(spec, image@),
{
    if options.fio_spdk {
        let mut binds: Vec<(String, String)> = Vec::new();
        binds.push(bind("/var/run/dpdk", "/var/run/dpdk"));
        binds.push(bind("/var/tmp/", "/var/tmp/:shared"));
        binds.push(bind("/dev", "/dev:ro"));
        let mut args: Vec<String> = Vec::new();
        args.push(String::from_str("infinity"));
        let spec = ContainerSpec {
            name: String::from_str("fio-spdk"),
            image: String::from_str(image),
            entrypoint: String::from_str("sleep"),
            bypass_default_mounts: true,
            binds,
            privileged: Some(true),
            args,
        };
        assert(spec.binds@.map_values(|b: (String, String)| (b.0@, b.1@)) =~= fio_spdk_binds());
        assert(spec.args.deep_view() =~= seq!["infinity"@]);
        Some(spec)
    } else {
        None
    }
}

/// Whether the fio-spdk container is to be started.
pub fn start(options: &StartOptions) -> (r: bool)
    ensures
        r == options.fio_spdk,
{
    options.fio_spdk
}

/// The fio-spdk container is named "fio-spdk", runs the given image with entry
/// point "sleep" and argument "infinity", leaves out the default mounts, is
/// privileged, and binds the host's /var/run/dpdk, /var/tmp/ (shared) and /dev
/// (read-only).
pub proof fn law_fio_spdk_container(spec: ContainerSpec, image: Seq<char>)
    requires
        is_fio_spdk_container(spec, image),
    ensures
        spec.name@ == "fio-spdk"@,
        spec.image@ == image,
        spec.entrypoint@ == "sleep"@,
        spec.bypass_default_mounts,
        spec.privileged == Some(true),
        spec.args@.len() == 1 && spec.args@[0]@ == "infinity"@,
        spec.binds@.len() == 3,
        spec.binds@[0].0@ == "/var/run/dpdk"@ && spec.binds@[0].1@ == "/var/run/dpdk"@,
        spec.binds@[1].0@ == "/var/tmp/"@ && spec.binds@[1].1@ == "/var/tmp/:shared"@,
        spec.binds@[2].0@ == "/dev"@ && spec.binds@[2].1@ == "/dev:ro"@,
{
    let m = spec.binds@.map_values(|b: (String, String)| (b.0@, b.1@));
    assert(m.len() == spec.binds@.len());
    assert(m.len() == 3);
    assert(m[0] == (spec.binds@[0].0@, spec.binds@[0].1@));
    assert(m[1] == (spec.binds@[1].0@, spec.binds@[1].1@));
    assert(m[2] == (spec.binds@[2].0@, spec.binds@[2].1@));
    assert(m[0] == fio_spdk_binds()[0]);
    assert(m[1] == fio_spdk_binds()[1]);
    assert(m[2] == fio_spdk_binds()[2]);
    assert(spec.args.deep_view().len() == spec.args@.len());
    assert(spec.args.deep_view()[0] == spec.args@[0]@);
}

} // verus!
