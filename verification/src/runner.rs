//! The controller itself: it owns the current and the target state, turns
//! operator commands into target changes, plans the operation sequence that
//! converges the two, and tracks the effect of every applied operation.
//!
//! The asynchronous runtime client is owned by the surrounding process; it
//! hands observations in and carries planned operations out, and reports
//! each success back through [`Runner::apply_operation`].

use vstd::prelude::*;
use crate::config::{feature_requested, ArunConfig, ArunDeviceMapping, PortBindingInfo};
use crate::errors::ArunError;
use crate::ctl::ArunCtrlCmd;
use crate::state::RunnerState;
use crate::text::{host_port_spec, parse_host_port, split_spaces_spec};
use crate::transition::{
    lemma_ops_result_push, lemma_transition_complete, op_effect, ops_result, transition,
    transition_seq, Operation,
};

verus! {

/// One host address a container port is bound to.
#[derive(Debug)]
pub struct HostAddress {
    pub ip: String,
    pub port: String,
}

/// One container port with its parsed host bindings.
#[derive(Debug)]
pub struct ResolvedPortBinding {
    pub port: String,
    pub hosts: Vec<HostAddress>,
}

/// The host-side settings of a container about to be created: mounts,
/// privileges, device mappings, cgroup rules, network mode and port
/// bindings, all as plain values.
#[derive(Debug)]
pub struct HostSettings {
    pub binds: Vec<String>,
    pub privileged: bool,
    pub devices: Vec<ArunDeviceMapping>,
    pub cgroup_rules: Vec<String>,
    pub network_mode: String,
    pub port_bindings: Vec<ResolvedPortBinding>,
}

/// Whether every host binding string of every configured port has the
/// `address:port` shape.
pub open spec fn all_hosts_parse(pbs: Option<Vec<PortBindingInfo>>) -> bool {
    match pbs {
        Option::None => true,
        Option::Some(v) => forall|i: int, k: int|
            0 <= i < v@.len() && 0 <= k < v@[i].host@.len() ==> (#[trigger] host_port_spec(
                v@[i].host@[k]@,
            )) is Some,
    }
}

/// Whether a resolved binding captures exactly the configured one: the same
/// port key and, for every host string, the address and port its first
/// `address:port` occurrence captures.
pub open spec fn binding_resolved(pb: PortBindingInfo, rb: ResolvedPortBinding) -> bool {
    &&& rb.port == pb.port
    &&& rb.hosts@.len() == pb.host@.len()
    &&& forall|k: int|
        0 <= k < pb.host@.len() ==> #[trigger] host_port_spec(pb.host@[k]@) == Some(
            (rb.hosts@[k].ip@, rb.hosts@[k].port@),
        )
}

/// Whether host settings describe exactly what the configuration asks for:
/// the configured mounts with the wayland socket appended on demand, the
/// privilege flag, the two graphics card devices and their cgroup rule for
/// an unprivileged graphical workload, the network mode, and the parsed
/// port bindings.
pub open spec fn host_settings_match(c: ArunConfig, h: HostSettings) -> bool {
    &&& h.privileged == c.privilege
    &&& h.network_mode@ == c.network@
    &&& h.binds@.len() == c.binds@.len() + (if feature_requested(c.features@, "wayland"@) {
        1int
    } else {
        0int
    })
    &&& forall|i: int| 0 <= i < c.binds@.len() ==> #[trigger] h.binds@[i] == c.binds@[i]
    &&& (feature_requested(c.features@, "wayland"@) ==> h.binds@.last()@
        == "/run/user/0:/run/user/0:rw"@)
    &&& if !c.privilege && feature_requested(c.features@, "gui"@) {
        &&& h.devices@.len() == 2
        &&& h.devices@[0].path_on_host@ == "/dev/dri/card0"@
        &&& h.devices@[0].path_in_container@ == "/dev/dri/card0"@
        &&& h.devices@[0].cgroup_permissions@ == "rwm"@
        &&& h.devices@[1].path_on_host@ == "/dev/dri/card1"@
        &&& h.devices@[1].path_in_container@ == "/dev/dri/card1"@
        &&& h.devices@[1].cgroup_permissions@ == "rwm"@
        &&& h.cgroup_rules@.len() == 1
        &&& h.cgroup_rules@[0]@ == "c 226:* rmw"@
    } else {
        h.devices@.len() == 0 && h.cgroup_rules@.len() == 0
    }
    &&& match c.port_bindings {
        Option::None => h.port_bindings@.len() == 0,
        Option::Some(pbs) => h.port_bindings@.len() == pbs@.len() && forall|i: int|
            0 <= i < pbs@.len() ==> #[trigger] binding_resolved(pbs@[i], h.port_bindings@[i]),
    }
}

/// Everything the runtime needs to create the container, as plain values:
/// the identity as the container name, the full image reference, the split
/// command line, the environment with the controller's own entries
/// appended, the host settings, whether networking is disabled, the fixed
/// address of a colocated redis server, and the private network to attach
/// to.
#[derive(Debug)]
pub struct CreateRequest {
    pub name: String,
    pub image: String,
    pub cmd: Vec<String>,
    pub env: Vec<String>,
    pub host: HostSettings,
    pub network_disabled: bool,
    pub static_ipv4: Option<String>,
    pub network_id: String,
    pub network_name: String,
}

/// What the scheduling loop does with a control command: enqueue a
/// reconciliation request, shut down, or nothing.
#[derive(Clone, Copy, Debug, PartialEq, Eq, Structural)]
pub enum LoopAction {
    Reconcile,
    Quit,
    Ignore,
}

/// Whether the observed state has drifted away from the target.
pub open spec fn drift_detected(r: Runner) -> bool {
    r.state != r.target_state
}

/// The controller instance: the last observed state, the operator-declared
/// target, and the immutable workload description.
#[derive(Debug)]
pub struct Runner {
    pub state: RunnerState,
    pub target_state: RunnerState,
    pub config: ArunConfig,
}

impl Runner {
    /// A fresh controller for a workload: nothing observed yet, nothing
    /// asked for yet.
    pub fn new(config: ArunConfig) -> (r: Runner)
        ensures
            r.state is NonExist,
            r.target_state is NonExist,
            r.config == config,
    {
        Runner { state: RunnerState::NonExist, target_state: RunnerState::NonExist, config }
    }

    /// The last observed state.
    pub fn state(&self) -> (r: RunnerState)
        ensures
            r == self.state,
    {
        self.state
    }

    /// The state the controller is converging toward.
    pub fn target_state(&self) -> (r: RunnerState)
        ensures
            r == self.target_state,
    {
        self.target_state
    }

    /// Adopts a freshly derived observation as the current state.
    pub fn set_observed_state(&mut self, observed: RunnerState)
        ensures
            final(self).state == observed,
            final(self).target_state == old(self).target_state,
            final(self).config == old(self).config,
    {
        self.state = observed;
    }

    /// Turns an operator command into its target-state change and tells the
    /// loop what to do next: every state-changing command updates the
    /// target and asks for a reconciliation request to be enqueued, `Quit`
    /// asks for shutdown without enqueuing work, and an invalid command
    /// changes nothing.
    pub fn handle_command(&mut self, cmd: ArunCtrlCmd) -> (r: LoopAction)
        ensures
            final(self).state == old(self).state,
            final(self).config == old(self).config,
            cmd is Start ==> final(self).target_state is Running && r is Reconcile,
            cmd is Stop ==> final(self).target_state is Exited && r is Reconcile,
            cmd is Remove ==> final(self).target_state is NonExist && r is Reconcile,
            cmd is Quit ==> final(self).target_state == old(self).target_state && r is Quit,
            cmd is Invalid ==> final(self).target_state == old(self).target_state && r is Ignore,
    {
        match cmd {
            ArunCtrlCmd::Start => {
                self.target_state = RunnerState::Running;
                LoopAction::Reconcile
            }
            ArunCtrlCmd::Stop => {
                self.target_state = RunnerState::Exited;
                LoopAction::Reconcile
            }
            ArunCtrlCmd::Remove => {
                self.target_state = RunnerState::NonExist;
                LoopAction::Reconcile
            }
            ArunCtrlCmd::Quit => LoopAction::Quit,
            ArunCtrlCmd::Invalid => LoopAction::Ignore,
        }
    }

    /// Adopts the state the drift-check timer observed and says whether a
    /// reconciliation request must be enqueued: exactly when the
    /// observation differs from the target.
    pub fn on_timer_observation(&mut self, observed: RunnerState) -> (enqueue: bool)
        ensures
            final(self).state == observed,
            final(self).target_state == old(self).target_state,
            final(self).config == old(self).config,
            enqueue == drift_detected(*final(self)),
    {
        self.state = observed;
        self.state != self.target_state
    }

    /// The operation sequence that converges the current state toward the
    /// current target.
    pub fn plan(&self) -> (r: Vec<Operation>)
        ensures
            r@ == transition_seq(self.state, self.target_state),
    {
        transition(self.state, self.target_state)
    }

    /// Records one successfully applied operation: the current state
    /// becomes the operation's direct effect, so a partially applied
    /// sequence leaves the state consistent with reality even if a later
    /// operation fails.
    pub fn apply_operation(&mut self, op: Operation)
        ensures
            final(self).state == op_effect(op),
            final(self).target_state == old(self).target_state,
            final(self).config == old(self).config,
    {
        self.state = match op {
            Operation::Create => RunnerState::Created,
            Operation::Start => RunnerState::Running,
            Operation::Stop => RunnerState::Exited,
            Operation::Pause => RunnerState::Paused,
            Operation::Unpause => RunnerState::Running,
            Operation::Remove => RunnerState::NonExist,
        };
    }

    /// Walks the decision table's sequence for the given target and records
    /// every operation in order, as a reconciliation in which each runtime
    /// call succeeds would: the state ends where the sequence's effects
    /// lead it.
    pub fn state_transition(&mut self, target: RunnerState)
        ensures
            final(self).state == ops_result(
                old(self).state,
                transition_seq(old(self).state, target),
            ),
            final(self).target_state == old(self).target_state,
            final(self).config == old(self).config,
    {
        let ghost orig = self.state;
        let ops = transition(self.state, target);
        let mut i: usize = 0;
        proof {
            assert(ops@.take(0) =~= Seq::<Operation>::empty());
        }
        while i < ops.len()
            invariant
                i <= ops@.len(),
                ops@ == transition_seq(orig, target),
                self.state == ops_result(orig, ops@.take(i as int)),
                self.target_state == old(self).target_state,
                self.config == old(self).config,
            decreases ops@.len() - i,
        {
            self.apply_operation(ops[i]);
            i += 1;
            proof {
                assert(ops@.take(i as int) =~= ops@.take(i - 1).push(ops@[i - 1]));
                lemma_ops_result_push(orig, ops@.take(i - 1), ops@[i - 1]);
            }
        }
        proof {
            assert(ops@.take(i as int) =~= ops@);
        }
    }

    /// Assembles the host-side settings the configuration asks for, or
    /// rejects the configuration exactly when one of its host port bindings
    /// does not have the `address:port` shape.
    pub fn host_config(arun_config: &ArunConfig) -> (r: Result<HostSettings, ArunError>)
        ensures
            r is Ok <==> all_hosts_parse(arun_config.port_bindings),
            r matches Err(e) ==> e == ArunError::InvalidValue,
            r matches Ok(h) ==> host_settings_match(*arun_config, h),
    {
        let mut binds: Vec<String> = arun_config.binds.clone();
        proof {
            assert forall|i: int| 0 <= i < binds@.len() implies binds@[i]
                == arun_config.binds@[i] by {
                assert(cloned::<String>(arun_config.binds@[i], binds@[i]));
            }
            assert(binds@ =~= arun_config.binds@);
        }
        let mut devices: Vec<ArunDeviceMapping> = Vec::new();
        let mut cgroup_rules: Vec<String> = Vec::new();

        if !arun_config.privilege() && arun_config.gui() {
            devices.push(
                ArunDeviceMapping {
                    path_on_host: String::from_str("/dev/dri/card0"),
                    path_in_container: String::from_str("/dev/dri/card0"),
                    cgroup_permissions: String::from_str("rwm"),
                },
            );
            devices.push(
                ArunDeviceMapping {
                    path_on_host: String::from_str("/dev/dri/card1"),
                    path_in_container: String::from_str("/dev/dri/card1"),
                    cgroup_permissions: String::from_str("rwm"),
                },
            );
            cgroup_rules.push(String::from_str("c 226:* rmw"));
        }
        if arun_config.wayland() {
            binds.push(String::from_str("/run/user/0:/run/user/0:rw"));
        }

        let mut resolved: Vec<ResolvedPortBinding> = Vec::new();
        match arun_config.port_bindings() {
            Option::None => {}
            Option::Some(pbs) => {
                let mut i: usize = 0;
                while i < pbs.len()
                    invariant
                        i <= pbs@.len(),
                        arun_config.port_bindings matches Some(own) && own == *pbs,
                        resolved@.len() == i,
                        forall|a: int|
                            0 <= a < i ==> #[trigger] binding_resolved(pbs@[a], resolved@[a]),
                    decreases pbs@.len() - i,
                {
                    let pb = &pbs[i];
                    proof {
                        assert(*pb == pbs@[i as int]);
                    }
                    let mut hosts: Vec<HostAddress> = Vec::new();
                    let mut k: usize = 0;
                    while k < pb.host.len()
                        invariant
                            k <= pb.host@.len(),
                            *pb == pbs@[i as int],
                            i < pbs@.len(),
                            arun_config.port_bindings matches Some(own) && own == *pbs,
                            hosts@.len() == k,
                            forall|b: int|
                                0 <= b < k ==> #[trigger] host_port_spec(pb.host@[b]@) == Some(
                                    (hosts@[b].ip@, hosts@[b].port@),
                                ),
                        decreases pb.host@.len() - k,
                    {
                        match parse_host_port(pb.host[k].as_str()) {
                            Option::None => {
                                proof {
                                    assert(host_port_spec(pbs@[i as int].host@[k as int]@) is None);
                                    assert(!all_hosts_parse(arun_config.port_bindings));
                                }
                                return Err(ArunError::InvalidValue);
                            }
                            Option::Some(pair) => {
                                let (ip, port) = pair;
                                hosts.push(HostAddress { ip, port });
                            }
                        }
                        k += 1;
                    }
                    let key = pb.port.clone();
                    proof {
                        assert(cloned::<String>(pb.port, key));
                    }
                    resolved.push(ResolvedPortBinding { port: key, hosts });
                    i += 1;
                }
            }
        }

        proof {
            match &arun_config.port_bindings {
                Option::Some(v) => {
                    assert forall|i: int, k: int|
                        0 <= i < v@.len() && 0 <= k < v@[i].host@.len() implies (
                    #[trigger] host_port_spec(v@[i].host@[k]@)) is Some by {
                        assert(binding_resolved(v@[i], resolved@[i]));
                    }
                },
                Option::None => {},
            }
        }
        let r = HostSettings {
            binds,
            privileged: arun_config.privilege(),
            devices,
            cgroup_rules,
            network_mode: arun_config.network(),
            port_bindings: resolved,
        };
        Ok(r)
    }

    /// Assembles everything the runtime needs to create the container, on
    /// top of already assembled host settings: identity, image, split
    /// command line, the environment with the redis address always appended
    /// and the wayland runtime directory appended on demand, whether
    /// networking is disabled, the fixed address of a colocated redis
    /// server, and the private network to attach to.
    pub fn create_request(&self, host: HostSettings, network_id: &String) -> (r: CreateRequest)
        ensures
            r.name@ == crate::config::appid_spec(self.config),
            r.image@ == crate::config::image_spec(self.config),
            r.cmd@.map_values(|p: String| p@) == split_spaces_spec(self.config.cmd@),
            r.env@.len() == self.config.environments@.len() + 1 + (if feature_requested(
                self.config.features@,
                "wayland"@,
            ) {
                1int
            } else {
                0int
            }),
            forall|i: int|
                0 <= i < self.config.environments@.len() ==> #[trigger] r.env@[i]
                    == self.config.environments@[i],
            r.env@[self.config.environments@.len() as int]@
                == "SYSTEM_REDIS_SERVER_IP=192.168.10.10"@,
            feature_requested(self.config.features@, "wayland"@) ==> r.env@.last()@
                == "XDG_RUNTIME_DIR=/run/user/0"@,
            r.host == host,
            r.network_disabled == (self.config.network@ == "none"@),
            feature_requested(self.config.features@, "redis-server"@) ==> (r.static_ipv4 matches Some(
                ip,
            ) && ip@ == "192.168.10.10"@),
            !feature_requested(self.config.features@, "redis-server"@) ==> r.static_ipv4 is None,
            r.network_id@ == network_id@,
            r.network_name@ == "virt-network0"@,
    {
        let mut env = self.config.environment();
        env.push(String::from_str("SYSTEM_REDIS_SERVER_IP=192.168.10.10"));
        if self.config.wayland() {
            env.push(String::from_str("XDG_RUNTIME_DIR=/run/user/0"));
        }
        let static_ipv4 = if self.config.redis_server() {
            Some(String::from_str("192.168.10.10"))
        } else {
            None
        };
        let network_disabled = self.config.network() == String::from_str("none");
        CreateRequest {
            name: self.config.appid(),
            image: self.config.image(),
            cmd: self.config.cmd(),
            env,
            host,
            network_disabled,
            static_ipv4,
            network_id: network_id.clone(),
            network_name: crate::observe::default_network_name(),
        }
    }
}

/// Drift convergence: once the current state is seen to differ from the
/// target, the decision table plans at least one operation, and recording
/// their effects in order ends exactly at the target.  The observed state
/// `Restarting` converges on its own, and the two table cells that steer
/// toward `Created` from `Running` and from `Dead` deliberately deviate;
/// those pairings are left out.
pub proof fn lemma_drift_convergence(r: Runner)
    requires
        drift_detected(r),
        r.target_state is NonExist || r.target_state is Created || r.target_state is Running
            || r.target_state is Exited || r.target_state is Paused,
        !(r.state is Restarting),
        !(r.state is Running && r.target_state is Created),
        !(r.state is Dead && r.target_state is Created),
    ensures
        transition_seq(r.state, r.target_state).len() > 0,
        ops_result(r.state, transition_seq(r.state, r.target_state)) == r.target_state,
{
    lemma_transition_complete(r.state, r.target_state);
}

} // verus!
