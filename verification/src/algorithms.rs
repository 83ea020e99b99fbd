//! The algorithms that can drive the datapath, and the interface of an algorithm runner.
use vstd::prelude::*;

use crate::datapath::DatapathEvent;
use crate::runner::RunnerError;

verus! {

/// A congestion-window update to send back to the datapath.
#[derive(Debug, Clone, Copy, PartialEq, Eq, Structural)]
pub struct CwndUpdate {
    pub flow_id: u64,
    pub cwnd_bytes: u32,
    pub pacing_rate: Option<u64>,
}

/// Drives one congestion-control algorithm from datapath events.
pub trait AlgorithmRunner: Send {
    fn name(&self) -> &str;

    fn ebpf_path(&self) -> &str;

    fn struct_ops_name(&self) -> &str;

    fn handle_event(&mut self, event: DatapathEvent) -> Result<Option<CwndUpdate>, RunnerError>;

    fn cleanup(&mut self) {
    }
}

/// The congestion-control algorithm behind a registry entry.
#[derive(Debug, Clone, Copy, PartialEq, Eq, Structural)]
pub enum AlgorithmKind {
    Cubic,
    Reno,
    Bbr,
}

/// What the registry knows of an algorithm: which algorithm runs, which eBPF object
/// holds the datapath and which struct_ops it registers.
#[derive(Debug, Clone, Copy)]
pub struct AlgorithmEntry {
    pub kind: AlgorithmKind,
    pub ebpf_path: &'static str,
    pub struct_ops_name: &'static str,
}

/// A name that the registry does not know.
#[derive(Debug, Clone)]
pub enum RegistryError {
    UnknownAlgorithm(String),
}

/// The registry of the available algorithms.
pub struct AlgorithmRegistry;

/// The registered names, in the order in which they are listed.
pub open spec fn registered_names() -> Seq<Seq<char>> {
    seq![
        "cubic"@,
        "reno"@,
        "generic-cubic"@,
        "generic-reno"@,
        "generic-bbr"@,
    ]
}

/// The entry registered under `name`: the algorithm, the eBPF object path and the
/// struct_ops name; none for an unknown name.
pub open spec fn registry_entry(name: Seq<char>) -> Option<(AlgorithmKind, Seq<char>, Seq<char>)> {
    if name == "cubic"@ {
        Some((AlgorithmKind::Cubic, "ebpf/.output/datapath-cubic.bpf.o"@, "ebpf_ccp_cubic"@))
    } else if name == "reno"@ {
        Some((AlgorithmKind::Reno, "ebpf/.output/datapath-reno.bpf.o"@, "ebpf_ccp_reno"@))
    } else if name == "generic-cubic"@ {
        Some((AlgorithmKind::Cubic, "ebpf/.output/generic.bpf.o"@, "ebpf_ccp_gen"@))
    } else if name == "generic-reno"@ {
        Some((AlgorithmKind::Reno, "ebpf/.output/generic.bpf.o"@, "ebpf_ccp_gen"@))
    } else if name == "generic-bbr"@ {
        Some((AlgorithmKind::Bbr, "ebpf/.output/generic.bpf.o"@, "ebpf_ccp_gen"@))
    } else {
        None
    }
}

/// Whether two strings hold the same characters.
fn same_str(a: &str, b: &str) -> (same: bool)
    ensures
        same == (a@ == b@),
{
    a.to_owned() == b.to_owned()
}

fn entry(
    kind: AlgorithmKind,
    ebpf_path: &'static str,
    struct_ops_name: &'static str,
) -> (e: AlgorithmEntry)
    ensures
        e.kind == kind,
        e.ebpf_path@ == ebpf_path@,
        e.struct_ops_name@ == struct_ops_name@,
{
    AlgorithmEntry { kind, ebpf_path, struct_ops_name }
}

impl AlgorithmRegistry {
    /// Looks an algorithm up by name.
    pub fn get(name: &str) -> (r: Result<AlgorithmEntry, RegistryError>)
        ensures
            match registry_entry(name@) {
                Some((kind, path, ops)) => r matches Ok(e) && e.kind == kind && e.ebpf_path@ == path
                    && e.struct_ops_name@ == ops,
                None => r matches Err(RegistryError::UnknownAlgorithm(n)) && n@ == name@,
            },
    {
        if same_str(name, "cubic") {
            Ok(entry(AlgorithmKind::Cubic, "ebpf/.output/datapath-cubic.bpf.o", "ebpf_ccp_cubic"))
        } else if same_str(name, "reno") {
            Ok(entry(AlgorithmKind::Reno, "ebpf/.output/datapath-reno.bpf.o", "ebpf_ccp_reno"))
        } else if same_str(name, "generic-cubic") {
            Ok(entry(AlgorithmKind::Cubic, "ebpf/.output/generic.bpf.o", "ebpf_ccp_gen"))
        } else if same_str(name, "generic-reno") {
            Ok(entry(AlgorithmKind::Reno, "ebpf/.output/generic.bpf.o", "ebpf_ccp_gen"))
        } else if same_str(name, "generic-bbr") {
            Ok(entry(AlgorithmKind::Bbr, "ebpf/.output/generic.bpf.o", "ebpf_ccp_gen"))
        } else {
            Err(RegistryError::UnknownAlgorithm(name.to_owned()))
        }
    }

    /// The names of all registered algorithms.
    pub fn list() -> (names: Vec<&'static str>)
        ensures
            names@.len() == registered_names().len(),
            forall|i: int| 0 <= i < names@.len() ==> #[trigger] names@[i]@ == registered_names()[i],
    {
        let names = vec!["cubic", "reno", "generic-cubic", "generic-reno", "generic-bbr"];
        assert(names@[0]@ == registered_names()[0]);
        names
    }
}

/// Law: the registry accepts exactly the names that it lists.
pub proof fn law_registry_accepts_listed_names(name: Seq<char>)
    ensures
        registry_entry(name) is Some <==> registered_names().contains(name),
{
    if registry_entry(name) is Some {
        if name == "cubic"@ {
            assert(registered_names()[0] == name);
        } else if name == "reno"@ {
            assert(registered_names()[1] == name);
        } else if name == "generic-cubic"@ {
            assert(registered_names()[2] == name);
        } else if name == "generic-reno"@ {
            assert(registered_names()[3] == name);
        } else {
            assert(registered_names()[4] == name);
        }
    }
}

/// Law: the registry's entries follow one scheme. A plain name `n` runs its own datapath
/// object `ebpf/.output/datapath-n.bpf.o` under the struct_ops `ebpf_ccp_n`; a name
/// `generic-n` runs the same algorithm as `n` on the generic datapath
/// `ebpf/.output/generic.bpf.o` under `ebpf_ccp_gen`; BBR runs only on the generic
/// datapath.
pub proof fn law_registry_scheme()
    ensures
        forall|n: Seq<char>|
            #![trigger registry_entry(n)]
            (n == "cubic"@ || n == "reno"@) ==> registry_entry(n) == Some(
                (
                    registry_entry(n).unwrap().0,
                    "ebpf/.output/datapath-"@ + n + ".bpf.o"@,
                    "ebpf_ccp_"@ + n,
                ),
            ),
        forall|n: Seq<char>|
            #![trigger registry_entry("generic-"@ + n)]
            (n == "cubic"@ || n == "reno"@) ==> registry_entry("generic-"@ + n) == Some(
                (registry_entry(n).unwrap().0, "ebpf/.output/generic.bpf.o"@, "ebpf_ccp_gen"@),
            ),
        registry_entry("generic-bbr"@) == Some(
            (AlgorithmKind::Bbr, "ebpf/.output/generic.bpf.o"@, "ebpf_ccp_gen"@),
        ),
        registry_entry("cubic"@) is Some && registry_entry("cubic"@).unwrap().0
            == AlgorithmKind::Cubic,
        registry_entry("reno"@) is Some && registry_entry("reno"@).unwrap().0
            == AlgorithmKind::Reno,
{
    reveal_strlit("cubic");
    reveal_strlit("reno");
    reveal_strlit("generic-");
    reveal_strlit("generic-cubic");
    reveal_strlit("generic-reno");
    reveal_strlit("generic-bbr");
    reveal_strlit("ebpf/.output/datapath-");
    reveal_strlit(".bpf.o");
    reveal_strlit("ebpf_ccp_");
    reveal_strlit("ebpf/.output/datapath-cubic.bpf.o");
    reveal_strlit("ebpf/.output/datapath-reno.bpf.o");
    reveal_strlit("ebpf_ccp_cubic");
    reveal_strlit("ebpf_ccp_reno");
    assert("ebpf/.output/datapath-"@ + "cubic"@ + ".bpf.o"@ =~= "ebpf/.output/datapath-cubic.bpf.o"@);
    assert("ebpf/.output/datapath-"@ + "reno"@ + ".bpf.o"@ =~= "ebpf/.output/datapath-reno.bpf.o"@);
    assert("ebpf_ccp_"@ + "cubic"@ =~= "ebpf_ccp_cubic"@);
    assert("ebpf_ccp_"@ + "reno"@ =~= "ebpf_ccp_reno"@);
    assert("generic-"@ + "cubic"@ =~= "generic-cubic"@);
    assert("generic-"@ + "reno"@ =~= "generic-reno"@);
}

} // verus!
