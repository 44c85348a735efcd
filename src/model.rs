//! Service definitions, the runtime state table and the lifecycle decisions of
//! the supervisor.
//!
//! Every actor (a one-shot command, the control server, an observation task)
//! reads the whole configuration, changes it through the functions here, and
//! writes it back whole. Each function states its effect as a transition of
//! [`ConfigurationView`], so that sequences of them can be reasoned about.
use vstd::prelude::*;
use crate::table::{
    keys_unique, has_key, table_view, table_get, table_put, table_remove, lemma_view_push,
};

verus! {

/// The port the control server listens on unless configured otherwise.
pub const DEFAULT_PORT: u16 = 6374;

/// The runtime state table: service name to state and process identifier.
pub type ServiceStates = Vec<(String, (ServiceState, u32))>;

/// A single executable service.
#[derive(Clone, Debug, PartialEq, Eq)]
pub struct Service {
    /// What command is run to start the service.
    pub command: String,
    /// Where the `command` is run.
    pub working_directory: String,
    /// Environment variables set on top of the inherited environment.
    pub environment: Option<Vec<(String, String)>>,
    /// Whether the service is started again when it exits.
    pub restart: bool,
}

/// The state of a [`Service`].
#[derive(Clone, Copy, Debug, PartialEq, Eq, Structural)]
pub enum ServiceState {
    Running,
    Stopped,
}

impl Default for ServiceState {
    fn default() -> (r: Self)
        ensures
            r == ServiceState::Stopped,
    {
        ServiceState::Stopped
    }
}

/// Settings of the control server.
#[derive(Clone, Debug, PartialEq, Eq)]
pub struct ServerConfiguration {
    /// The port the control server listens on.
    pub port: u16,
    /// The secret every control request must carry.
    pub key: String,
}

impl Default for ServerConfiguration {
    fn default() -> (r: Self)
        ensures
            r.port == DEFAULT_PORT,
            r.key@ == Seq::<char>::empty(),
    {
        ServerConfiguration { port: DEFAULT_PORT, key: String::new() }
    }
}

/// Why a lifecycle operation was refused.
#[derive(Clone, Copy, Debug, PartialEq, Eq, Structural)]
pub enum SupervisorError {
    /// No service of that name is defined.
    NotFound,
    /// The service already has a running record.
    AlreadyRunning,
    /// The service has no running record.
    NotRunning,
    /// The operating system refused to spawn the process.
    SpawnFailed,
    /// The recorded process identifier no longer resolves to a process.
    ProcessLookupFailed,
    /// The configuration could not be read or written.
    ConfigIO,
    /// The stored configuration is malformed.
    ConfigParse,
    /// The request carried the wrong secret.
    Unauthorized,
}

/// The whole persisted configuration: definitions, server settings and the
/// runtime state table.
#[derive(Clone, Debug, PartialEq, Eq)]
pub struct ServicesConfiguration {
    /// Further definition files, overlaid in order.
    pub inherit: Option<Vec<String>>,
    /// Service definitions by name.
    pub services: Vec<(String, Service)>,
    /// Control server settings.
    pub server: ServerConfiguration,
    /// Runtime records by name.
    pub service_states: ServiceStates,
}

/// What a configuration stands for: definitions and runtime records as maps
/// from service name, beside the settings carried through unchanged.
pub struct ConfigurationView {
    pub inherit: Option<Vec<String>>,
    pub services: Map<Seq<char>, Service>,
    pub server: ServerConfiguration,
    pub states: Map<Seq<char>, (ServiceState, u32)>,
}

impl View for ServicesConfiguration {
    type V = ConfigurationView;

    open spec fn view(&self) -> ConfigurationView {
        ConfigurationView {
            inherit: self.inherit,
            services: table_view(self.services@),
            server: self.server,
            states: table_view(self.service_states@),
        }
    }
}

/// The definition with its restart flag set to `flag`.
pub open spec fn with_flag(s: Service, flag: bool) -> Service {
    Service { restart: flag, ..s }
}

impl ConfigurationView {
    /// A service of this name is defined.
    pub open spec fn is_defined(self, n: Seq<char>) -> bool {
        self.services.contains_key(n)
    }

    /// A record shows this service running.
    pub open spec fn is_running(self, n: Seq<char>) -> bool {
        self.states.contains_key(n) && self.states[n].0 == ServiceState::Running
    }

    /// Whether a start may go ahead: the service must be defined and not running.
    pub open spec fn start_check(self, n: Seq<char>) -> Result<(), SupervisorError> {
        if !self.is_defined(n) {
            Err(SupervisorError::NotFound)
        } else if self.is_running(n) {
            Err(SupervisorError::AlreadyRunning)
        } else {
            Ok(())
        }
    }

    /// The recorded process of a defined, running service.
    pub open spec fn running_pid(self, n: Seq<char>) -> Result<u32, SupervisorError> {
        if !self.is_defined(n) {
            Err(SupervisorError::NotFound)
        } else if !self.is_running(n) {
            Err(SupervisorError::NotRunning)
        } else {
            Ok(self.states[n].1)
        }
    }

    /// The process an observation task waits on: `NotFound` without a
    /// record, `NotRunning` if the record is not a running one.
    pub open spec fn observed_pid(self, n: Seq<char>) -> Result<u32, SupervisorError> {
        if !self.states.contains_key(n) {
            Err(SupervisorError::NotFound)
        } else if self.states[n].0 != ServiceState::Running {
            Err(SupervisorError::NotRunning)
        } else {
            Ok(self.states[n].1)
        }
    }

    /// A running record for `n` with process `pid`.
    pub open spec fn with_started(self, n: Seq<char>, pid: u32) -> ConfigurationView {
        ConfigurationView { states: self.states.insert(n, (ServiceState::Running, pid)), ..self }
    }

    /// The restart flag of `n` set to `flag`, if `n` is defined.
    pub open spec fn with_restart(self, n: Seq<char>, flag: bool) -> ConfigurationView {
        if self.is_defined(n) {
            ConfigurationView {
                services: self.services.insert(n, with_flag(self.services[n], flag)),
                ..self
            }
        } else {
            self
        }
    }

    /// No record for `n`.
    pub open spec fn without_record(self, n: Seq<char>) -> ConfigurationView {
        ConfigurationView { states: self.states.remove(n), ..self }
    }

    /// Whether the service is spawned again once its process has exited.
    pub open spec fn restarts(self, n: Seq<char>) -> bool {
        self.is_defined(n) && self.services[n].restart
    }
}

impl ServicesConfiguration {
    /// Names are unique among definitions and among runtime records.
    pub open spec fn wf(&self) -> bool {
        keys_unique(self.services@) && keys_unique(self.service_states@)
    }

    /// The empty configuration.
    pub fn new() -> (r: Self)
        ensures
            r.wf(),
            r@.inherit is None,
            r@.services == Map::<Seq<char>, Service>::empty(),
            r@.states == Map::<Seq<char>, (ServiceState, u32)>::empty(),
            r@.server.port == DEFAULT_PORT,
            r@.server.key@ == Seq::<char>::empty(),
    {
        let r = ServicesConfiguration {
            inherit: None,
            services: Vec::new(),
            server: ServerConfiguration::default(),
            service_states: Vec::new(),
        };
        assert(table_view(r.services@) =~= Map::<Seq<char>, Service>::empty());
        assert(table_view(r.service_states@) =~= Map::<Seq<char>, (ServiceState, u32)>::empty());
        r
    }

    /// Define `name` as `service`, replacing any definition of that name.
    pub fn define(&mut self, name: String, service: Service)
        requires
            old(self).wf(),
        ensures
            final(self).wf(),
            final(self)@ == (ConfigurationView {
                services: old(self)@.services.insert(name@, service),
                ..old(self)@
            }),
    {
        table_put(&mut self.services, name, service);
    }

    /// Whether a service of this name is defined.
    pub fn is_defined(&self, name: &String) -> (r: bool)
        requires
            self.wf(),
        ensures
            r == self@.is_defined(name@),
    {
        match table_get(&self.services, name) {
            Some(_) => true,
            None => false,
        }
    }

    /// The runtime record of `name`, if any.
    pub fn get_state(&self, name: &String) -> (r: Option<(ServiceState, u32)>)
        requires
            self.wf(),
        ensures
            r == self@.states.get(name@),
    {
        match table_get(&self.service_states, name) {
            Some(rec) => Some(*rec),
            None => None,
        }
    }

    /// Replace the runtime record of `name`.
    pub fn put_state(&mut self, name: String, record: (ServiceState, u32))
        requires
            old(self).wf(),
        ensures
            final(self).wf(),
            final(self)@ == (ConfigurationView {
                states: old(self)@.states.insert(name@, record),
                ..old(self)@
            }),
    {
        table_put(&mut self.service_states, name, record);
    }

    /// Drop the runtime record of `name`, if any.
    pub fn remove_state(&mut self, name: &String)
        requires
            old(self).wf(),
        ensures
            final(self).wf(),
            final(self)@ == old(self)@.without_record(name@),
    {
        table_remove(&mut self.service_states, name);
    }

    /// Overlay the definitions of an inherited configuration: a name defined
    /// in both takes the inherited definition.
    pub fn merge_inherited(&mut self, other: ServicesConfiguration)
        requires
            old(self).wf(),
            other.wf(),
        ensures
            final(self).wf(),
            final(self)@ == (ConfigurationView {
                services: old(self)@.services.union_prefer_right(other@.services),
                ..old(self)@
            }),
    {
        let ghost orig = other.services@;
        let ghost start = self@;
        let mut rest = other.services;
        let total: usize = rest.len();
        let mut j: usize = 0;
        assert(table_view(orig.subrange(0, 0)) =~= Map::<Seq<char>, Service>::empty());
        assert(start.services.union_prefer_right(table_view(orig.subrange(0, 0)))
            =~= start.services);
        while rest.len() > 0
            invariant
                keys_unique(orig),
                total == orig.len(),
                j + rest@.len() == orig.len(),
                rest@ == orig.subrange(j as int, orig.len() as int),
                self.wf(),
                self@ == (ConfigurationView {
                    services: start.services.union_prefer_right(
                        table_view(orig.subrange(0, j as int)),
                    ),
                    ..start
                }),
            decreases rest@.len(),
        {
            let ghost done = orig.subrange(0, j as int);
            let (name, service) = rest.remove(0);
            assert(orig[j as int] == (name, service));
            assert(!has_key(done, name@)) by {
                if has_key(done, name@) {
                    let x = choose|x: int| 0 <= x < done.len() && #[trigger] done[x].0@ == name@;
                    assert(orig[x].0@ == orig[j as int].0@);
                }
            }
            assert(keys_unique(done));
            proof {
                lemma_view_push(done, name, service);
            }
            assert(orig.subrange(0, j + 1) =~= done.push((name, service)));
            table_put(&mut self.services, name, service);
            j += 1;
            assert(self@.services =~= start.services.union_prefer_right(
                table_view(orig.subrange(0, j as int)),
            ));
        }
        assert(orig.subrange(0, j as int) =~= orig);
    }
}

impl Default for ServicesConfiguration {
    fn default() -> (r: Self)
        ensures
            r.wf(),
            r@.inherit is None,
            r@.services == Map::<Seq<char>, Service>::empty(),
            r@.states == Map::<Seq<char>, (ServiceState, u32)>::empty(),
            r@.server.port == DEFAULT_PORT,
            r@.server.key@ == Seq::<char>::empty(),
    {
        ServicesConfiguration::new()
    }
}

} // verus!
