//! The immutable description of the desired workload: identity, image,
//! privileges, network mode, mounts, environment, feature flags and the
//! drift-check interval.

use vstd::prelude::*;
use crate::text::{split_spaces, split_spaces_spec};

verus! {

/// The namespace half of a workload's identity.
#[derive(Clone, Copy, Debug, PartialEq, Eq, Structural)]
pub enum AppType {
    Sys,
    User,
}

impl AppType {
    /// The name the identity string uses for the namespace.
    pub fn name(&self) -> (r: String)
        ensures
            *self is Sys ==> r@ == "sys"@,
            *self is User ==> r@ == "user"@,
    {
        match self {
            AppType::Sys => String::from_str("sys"),
            AppType::User => String::from_str("user"),
        }
    }
}

/// The network modes a workload can ask for.
#[allow(non_camel_case_types)]
#[derive(Clone, Copy, Debug, PartialEq, Eq, Structural)]
pub enum NetworkType {
    none,
    host,
    container,
}

/// The network mode named by a configuration string, or `None` for a string
/// that names no mode.
pub open spec fn network_of_name(s: Seq<char>) -> Option<NetworkType> {
    if s == "none"@ {
        Some(NetworkType::none)
    } else if s == "host"@ {
        Some(NetworkType::host)
    } else if s == "container"@ {
        Some(NetworkType::container)
    } else {
        None
    }
}

impl NetworkType {
    /// The configuration string that names this mode.
    pub fn name(&self) -> (r: String)
        ensures
            *self is none ==> r@ == "none"@,
            *self is host ==> r@ == "host"@,
            *self is container ==> r@ == "container"@,
    {
        match self {
            NetworkType::none => String::from_str("none"),
            NetworkType::host => String::from_str("host"),
            NetworkType::container => String::from_str("container"),
        }
    }

    /// The total mapping from configuration strings to network modes.
    pub fn from_name(s: &str) -> (r: Option<NetworkType>)
        ensures
            r == network_of_name(s@),
    {
        let owned = s.to_owned();
        if owned == String::from_str("none") {
            Some(NetworkType::none)
        } else if owned == String::from_str("host") {
            Some(NetworkType::host)
        } else if owned == String::from_str("container") {
            Some(NetworkType::container)
        } else {
            None
        }
    }
}

/// Whether a feature list asks for a feature of the given name.
pub open spec fn feature_requested(features: Seq<String>, name: Seq<char>) -> bool {
    exists|i: int| 0 <= i < features.len() && #[trigger] features[i]@ == name
}

/// A single device handed through to the workload.
#[derive(Debug)]
pub struct ArunDeviceMapping {
    pub path_on_host: String,
    pub path_in_container: String,
    pub cgroup_permissions: String,
}

/// One exposed container port together with the host addresses bound to it.
#[derive(Debug)]
pub struct PortBindingInfo {
    pub port: String,
    pub host: Vec<String>,
}

/// The validated workload description.  The identity derived from
/// `app_type` and `name` is the runtime's container name and must be unique
/// per host.
#[derive(Debug)]
pub struct ArunConfig {
    pub name: String,
    pub app_type: AppType,
    pub image: String,
    pub version: String,
    pub privilege: bool,
    pub network: String,
    pub port_bindings: Option<Vec<PortBindingInfo>>,
    pub cmd: String,
    pub binds: Vec<String>,
    pub features: Vec<String>,
    pub environments: Vec<String>,
    pub monitor_interval: u32,
}

/// The full image reference a configuration describes.
pub open spec fn image_spec(c: ArunConfig) -> Seq<char> {
    c.image@ + ":"@ + c.version@
}

/// The identity string a configuration describes.
pub open spec fn appid_spec(c: ArunConfig) -> Seq<char> {
    (match c.app_type {
        AppType::Sys => "sys"@,
        AppType::User => "user"@,
    }) + "."@ + c.name@
}

/// The drift-check interval that a configured value and a command-line
/// override resolve to: the override wins, then the configured value, then
/// one time unit.
pub open spec fn resolved_interval(configured: Option<u32>, overriding: Option<u32>) -> u32 {
    match overriding {
        Some(m) => m,
        None => match configured {
            Some(m) => m,
            None => 1u32,
        },
    }
}

impl ArunConfig {
    /// Assembles a configuration from its parsed fields; the drift-check
    /// interval may be left unset or overridden and defaults to one time
    /// unit.
    #[allow(clippy::too_many_arguments)]
    pub fn new(
        name: String,
        app_type: AppType,
        image: String,
        version: String,
        privilege: bool,
        network: String,
        port_bindings: Option<Vec<PortBindingInfo>>,
        cmd: String,
        binds: Vec<String>,
        features: Vec<String>,
        environments: Vec<String>,
        monitor_interval: Option<u32>,
        override_interval: Option<u32>,
    ) -> (r: ArunConfig)
        ensures
            r.name == name,
            r.app_type == app_type,
            r.image == image,
            r.version == version,
            r.privilege == privilege,
            r.network == network,
            r.port_bindings == port_bindings,
            r.cmd == cmd,
            r.binds == binds,
            r.features == features,
            r.environments == environments,
            r.monitor_interval == resolved_interval(monitor_interval, override_interval),
    {
        let interval: u32 = match override_interval {
            Some(m) => m,
            None => match monitor_interval {
                Some(m) => m,
                None => 1,
            },
        };
        ArunConfig {
            name,
            app_type,
            image,
            version,
            privilege,
            network,
            port_bindings,
            cmd,
            binds,
            features,
            environments,
            monitor_interval: interval,
        }
    }

    /// The full image reference: name and version joined by a colon.
    pub fn image(&self) -> (r: String)
        ensures
            r@ == image_spec(*self),
    {
        self.image.clone().concat(":").concat(self.version.as_str())
    }

    /// The image name without its version.
    pub fn image_name(&self) -> (r: &str)
        ensures
            r@ == self.image@,
    {
        self.image.as_str()
    }

    /// The image version without its name.
    pub fn image_version(&self) -> (r: &str)
        ensures
            r@ == self.version@,
    {
        self.version.as_str()
    }

    /// The workload's identity: namespace and name joined by a dot.  It is
    /// used as the runtime's container name.
    pub fn appid(&self) -> (r: String)
        ensures
            r@ == appid_spec(*self),
    {
        self.app_type.name().concat(".").concat(self.name.as_str())
    }

    /// The configured network mode string.
    pub fn network(&self) -> (r: String)
        ensures
            r@ == self.network@,
    {
        self.network.clone()
    }

    /// The command line split into its space-separated words.
    pub fn cmd(&self) -> (r: Vec<String>)
        ensures
            r@.map_values(|p: String| p@) == split_spaces_spec(self.cmd@),
    {
        split_spaces(self.cmd.as_str())
    }

    /// The configured environment entries.
    pub fn environment(&self) -> (r: Vec<String>)
        ensures
            r@ == self.environments@,
    {
        let r = self.environments.clone();
        proof {
            assert forall|i: int| 0 <= i < r@.len() implies r@[i] == self.environments@[i] by {
                assert(cloned::<String>(self.environments@[i], r@[i]));
            }
            assert(r@ =~= self.environments@);
        }
        r
    }

    /// Whether the workload runs privileged.
    pub fn privilege(&self) -> (r: bool)
        ensures
            r == self.privilege,
    {
        self.privilege
    }

    /// The configured bind mounts, in order.
    pub fn binds(&self) -> (r: Vec<&str>)
        ensures
            r@.len() == self.binds@.len(),
            forall|i: int| 0 <= i < r@.len() ==> #[trigger] r@[i]@ == self.binds@[i]@,
    {
        let mut r: Vec<&str> = Vec::new();
        let mut i: usize = 0;
        while i < self.binds.len()
            invariant
                i <= self.binds@.len(),
                r@.len() == i,
                forall|j: int| 0 <= j < i ==> #[trigger] r@[j]@ == self.binds@[j]@,
            decreases self.binds@.len() - i,
        {
            r.push(self.binds[i].as_str());
            i += 1;
        }
        r
    }

    /// Whether a feature of the given name was asked for.
    fn has_feature(&self, name: &str) -> (r: bool)
        ensures
            r == feature_requested(self.features@, name@),
    {
        let needle = name.to_owned();
        let mut i: usize = 0;
        while i < self.features.len()
            invariant
                i <= self.features@.len(),
                needle@ == name@,
                forall|j: int| 0 <= j < i ==> #[trigger] self.features@[j]@ != name@,
            decreases self.features@.len() - i,
        {
            if self.features[i] == needle {
                return true;
            }
            i += 1;
        }
        false
    }

    /// Whether the workload wants access to the graphical devices.
    pub fn gui(&self) -> (r: bool)
        ensures
            r == feature_requested(self.features@, "gui"@),
    {
        self.has_feature("gui")
    }

    /// Whether the workload colocates the redis server and therefore needs
    /// its fixed address.
    pub fn redis_server(&self) -> (r: bool)
        ensures
            r == feature_requested(self.features@, "redis-server"@),
    {
        self.has_feature("redis-server")
    }

    /// Whether the workload wants the wayland socket handed through.
    pub fn wayland(&self) -> (r: bool)
        ensures
            r == feature_requested(self.features@, "wayland"@),
    {
        self.has_feature("wayland")
    }

    /// The configured port bindings, if any.
    pub fn port_bindings(&self) -> (r: Option<&Vec<PortBindingInfo>>)
        ensures
            match r {
                Some(v) => self.port_bindings matches Some(own) && v == &own,
                None => self.port_bindings is None,
            },
    {
        match &self.port_bindings {
            Some(v) => Some(v),
            None => None,
        }
    }

    /// The resolved drift-check interval.
    pub fn monitor_interval(&self) -> (r: u32)
        ensures
            r == self.monitor_interval,
    {
        self.monitor_interval
    }
}

impl Default for ArunConfig {
    /// A placeholder configuration: invalid identity, image and command, no
    /// privileges, no network, nothing mounted and a drift-check interval of
    /// one time unit.
    fn default() -> (r: ArunConfig)
        ensures
            r.name@ == "Invalid"@,
            r.app_type is User,
            r.image@ == "Invalid"@,
            r.version@ == "latest"@,
            !r.privilege,
            r.network@ == "none"@,
            r.port_bindings is None,
            r.cmd@ == "Invalid"@,
            r.binds@ =~= Seq::<String>::empty(),
            r.features@ =~= Seq::<String>::empty(),
            r.environments@ =~= Seq::<String>::empty(),
            r.monitor_interval == 1u32,
    {
        ArunConfig {
            name: String::from_str("Invalid"),
            app_type: AppType::User,
            image: String::from_str("Invalid"),
            version: String::from_str("latest"),
            privilege: false,
            network: String::from_str("none"),
            port_bindings: None,
            cmd: String::from_str("Invalid"),
            binds: Vec::new(),
            features: Vec::new(),
            environments: Vec::new(),
            monitor_interval: 1,
        }
    }
}

} // verus!
