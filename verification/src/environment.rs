//! Handles to Windows Sandbox environments, the builder that starts new
//! ones, and the results that `wsb` reports about them.
use vstd::prelude::*;

use crate::cli::{args_view, start_args, start_args_spec};
use crate::config::{config_xml, SandboxConfig};
use crate::types::{opt_id, SandboxId};
use crate::wide::opt_units;
use crate::xml::compact;

verus! {

/// A builder for starting a new Windows Sandbox environment, with an
/// optional sandbox ID and an optional configuration.
#[derive(Debug, Clone)]
pub struct SandboxEnvironmentBuilder {
    id: Option<SandboxId>,
    config: Option<Vec<u16>>,
}

/// What a [`SandboxEnvironmentBuilder`] holds: the ID and the configuration
/// XML to start with.
pub struct SandboxEnvironmentBuilderView {
    pub id: Option<u128>,
    pub config: Option<Seq<u16>>,
}

impl View for SandboxEnvironmentBuilder {
    type V = SandboxEnvironmentBuilderView;

    closed spec fn view(&self) -> SandboxEnvironmentBuilderView {
        SandboxEnvironmentBuilderView { id: opt_id(self.id), config: opt_units(self.config) }
    }
}

impl Default for SandboxEnvironmentBuilder {
    fn default() -> (res: Self)
        ensures
            res@ == (SandboxEnvironmentBuilderView { id: None, config: None }),
    {
        SandboxEnvironmentBuilder { id: None, config: None }
    }
}

impl SandboxEnvironmentBuilder {
    /// A builder with no ID and no configuration.
    pub fn new() -> (res: Self)
        ensures
            res@ == (SandboxEnvironmentBuilderView { id: None, config: None }),
    {
        Self::default()
    }

    /// Sets the sandbox ID to start with; without one, `wsb` chooses it.
    pub fn id(self, id: SandboxId) -> (res: Self)
        ensures
            res@ == (SandboxEnvironmentBuilderView { id: Some(id@), ..self@ }),
    {
        SandboxEnvironmentBuilder { id: Some(id), ..self }
    }

    /// Sets the configuration, as the compact XML of `config`.
    pub fn config(self, config: SandboxConfig) -> (res: Self)
        ensures
            res@ == (SandboxEnvironmentBuilderView {
                config: Some(compact(config_xml(config@))),
                ..self@
            }),
    {
        SandboxEnvironmentBuilder { config: Some(config.to_os_string()), ..self }
    }

    /// Sets the configuration as raw XML text, passed to `wsb start --config`
    /// as it is.
    pub fn raw_config(self, config: Vec<u16>) -> (res: Self)
        ensures
            res@ == (SandboxEnvironmentBuilderView { config: Some(config@), ..self@ }),
    {
        SandboxEnvironmentBuilder { config: Some(config), ..self }
    }

    /// The `wsb start` command line that starts the environment.
    pub fn start_args(self) -> (res: Vec<Vec<u16>>)
        ensures
            args_view(res@) == start_args_spec(self@.id, self@.config),
    {
        start_args(self.id, self.config)
    }
}

/// A handle to a Windows Sandbox environment, known by its ID.
#[derive(Debug, Clone)]
pub struct SandboxEnvironment {
    id: SandboxId,
}

impl View for SandboxEnvironment {
    type V = u128;

    closed spec fn view(&self) -> u128 {
        self.id@
    }
}

/// The handle of the environment `id`.
pub closed spec fn environment_of(id: SandboxId) -> SandboxEnvironment {
    SandboxEnvironment { id }
}

/// The ID of the environment `e`.
pub closed spec fn environment_id(e: SandboxEnvironment) -> SandboxId {
    e.id
}

/// A handle made for an ID reports that ID, and a handle is the one made
/// for its own ID.
pub proof fn law_from_id_id(id: SandboxId, e: SandboxEnvironment)
    ensures
        SandboxEnvironment::from_id(id).id() == id,
        SandboxEnvironment::from_id(e.id()) == e,
{
}

impl SandboxEnvironment {
    /// A builder for starting a new sandbox environment.
    pub fn builder() -> (res: SandboxEnvironmentBuilder)
        ensures
            res@ == (SandboxEnvironmentBuilderView { id: None, config: None }),
    {
        SandboxEnvironmentBuilder::new()
    }

    /// A handle for the existing environment `id`; nothing is started.
    #[verifier::allow_in_spec]
    pub fn from_id(id: SandboxId) -> (res: Self)
        ensures
            res@ == id@,
        returns
            environment_of(id),
    {
        SandboxEnvironment { id }
    }

    /// The ID of this environment.
    #[verifier::allow_in_spec]
    pub fn id(&self) -> (res: SandboxId)
        ensures
            res@ == self@,
        returns
            environment_id(*self),
    {
        self.id
    }

    /// Handles for the environments `ids`, in the same order.
    pub fn from_ids(ids: Vec<SandboxId>) -> (res: Vec<SandboxEnvironment>)
        ensures
            res@.len() == ids@.len(),
            forall|i: int| 0 <= i < ids@.len() ==> #[trigger] res@[i]@ == ids@[i]@,
    {
        let mut res: Vec<SandboxEnvironment> = Vec::new();
        let n = ids.len();
        let mut i: usize = 0;
        while i < n
            invariant
                n == ids@.len(),
                i <= n,
                res@.len() == i,
                forall|j: int| 0 <= j < i ==> #[trigger] res@[j]@ == ids@[j]@,
            decreases n - i,
        {
            res.push(SandboxEnvironment { id: ids[i] });
            i = i + 1;
        }
        res
    }
}

/// The result of executing a command in a sandbox.
#[derive(Debug)]
pub struct ExecResult {
    exit_code: i32,
}

impl View for ExecResult {
    type V = i32;

    closed spec fn view(&self) -> i32 {
        self.exit_code
    }
}

/// The result of a command that exited with `exit_code`.
pub closed spec fn exec_result_of(exit_code: i32) -> ExecResult {
    ExecResult { exit_code }
}

/// A result reports the exit code it was made with.
pub proof fn law_exec_result_exit_code(exit_code: i32)
    ensures
        ExecResult::new(exit_code).exit_code() == exit_code,
{
}

impl ExecResult {
    /// The result of a command that exited with `exit_code`.
    #[verifier::allow_in_spec]
    pub fn new(exit_code: i32) -> (res: Self)
        ensures
            res@ == exit_code,
        returns
            exec_result_of(exit_code),
    {
        ExecResult { exit_code }
    }

    /// The exit code of the process, as `wsb exec` reports it.
    #[verifier::allow_in_spec]
    pub fn exit_code(&self) -> (res: i32)
        returns
            self@,
    {
        self.exit_code
    }
}

/// A network of a sandbox, known by its IPv4 address.
#[derive(Debug)]
pub struct IpNetwork {
    ipv4_address: u32,
}

impl View for IpNetwork {
    type V = u32;

    closed spec fn view(&self) -> u32 {
        self.ipv4_address
    }
}

impl IpNetwork {
    /// The IPv4 address of this network, most significant octet first.
    pub fn ipv4_address(&self) -> (res: u32)
        ensures
            res == self@,
    {
        self.ipv4_address
    }
}

/// The networks reported by `wsb ip`.
#[derive(Debug)]
pub struct IpResult {
    networks: Vec<IpNetwork>,
}

impl View for IpResult {
    type V = Seq<u32>;

    closed spec fn view(&self) -> Seq<u32> {
        self.networks@.map_values(|n: IpNetwork| n@)
    }
}

impl IpResult {
    /// The result that lists one network for each address of `addresses`,
    /// in the same order.
    pub fn from_addresses(addresses: Vec<u32>) -> (res: Self)
        ensures
            res@ == addresses@,
    {
        let mut networks: Vec<IpNetwork> = Vec::new();
        let n = addresses.len();
        let mut i: usize = 0;
        while i < n
            invariant
                n == addresses@.len(),
                i <= n,
                networks@.len() == i,
                forall|j: int| 0 <= j < i ==> #[trigger] networks@[j]@ == addresses@[j],
            decreases n - i,
        {
            networks.push(IpNetwork { ipv4_address: addresses[i] });
            i = i + 1;
        }
        let res = IpResult { networks };
        assert(res@ =~= addresses@);
        res
    }

    /// The networks reported for the sandbox.
    pub fn networks(&self) -> (res: &[IpNetwork])
        ensures
            res@.map_values(|n: IpNetwork| n@) == self@,
    {
        self.networks.as_slice()
    }
}

} // verus!
