//! Connection tasks: a builder that validates a target and a backend choice,
//! the immutable task it freezes them into, and credential resolution.

use crate::endpoint::{AuthType, Authentication, Endpoint, HostName, PointName, Port};
use vstd::prelude::*;

verus! {

/// Connectivity through the standard client library; the only backend
/// currently wired to a (placeholder) successful connection.
#[derive(Debug)]
pub struct StdBackend {}

/// Connectivity through an external `sqlplus` process; not implemented yet.
#[derive(Debug)]
pub struct SqlPlusBackend {}

/// Connectivity over JDBC; not implemented yet.
#[derive(Debug)]
pub struct JdbcBackend {}

/// The closed set of connectivity implementations a task can dispatch to.
#[derive(Debug)]
pub enum Backend {
    Std(StdBackend),
    SqlPlus(SqlPlusBackend),
    Jdbc(JdbcBackend),
}

/// The error of [`TaskBuilder::build`]: one of the two required inputs was
/// never set. Not retryable; it indicates a configuration defect upstream.
#[derive(Debug, Clone, Copy, PartialEq, Eq)]
pub enum ConfigurationError {
    /// No target was set before building.
    TargetAbsent,
    /// No backend was chosen before building.
    BackendNotDefined,
}

impl ConfigurationError {
    /// A human-readable description of the missing input.
    pub fn message(&self) -> (r: String)
        ensures
            *self is TargetAbsent ==> r@ == "Target is absent"@,
            *self is BackendNotDefined ==> r@ == "Backend not defined"@,
    {
        match self {
            ConfigurationError::TargetAbsent => String::from_str("Target is absent"),
            ConfigurationError::BackendNotDefined => String::from_str("Backend not defined"),
        }
    }
}

/// The error of [`Task::connect`] for backends that deliberately fail fast
/// instead of attempting any I/O, so callers can tell "not yet supported"
/// apart from a genuine connectivity failure.
#[derive(Debug, Clone, Copy, PartialEq, Eq)]
pub struct UnimplementedBackendError {}

impl UnimplementedBackendError {
    /// A human-readable description of the failure.
    pub fn message(&self) -> (r: String)
        ensures
            r@ == "backend is not implemented yet"@,
    {
        String::from_str("backend is not implemented yet")
    }
}

/// The task-owned, immutable copy of an endpoint's connection coordinates
/// and authentication.
#[derive(Debug)]
pub struct Target {
    pub host: HostName,
    pub point: PointName,
    pub port: Port,
    pub auth: Authentication,
}

impl Target {
    /// The target that copying `e`'s coordinates and authentication yields.
    pub open spec fn of_endpoint(e: Endpoint) -> Target {
        Target { host: e.hostname, point: e.point, port: e.port, auth: e.auth }
    }
}

/// Accumulates the three optional inputs of a task — target, backend,
/// database — through chained setters, and validates them on [`Self::build`].
/// A builder is consumed by `build` and cannot be reused.
#[derive(Debug)]
pub struct TaskBuilder {
    target: Option<Target>,
    backend: Option<Backend>,
    database: Option<String>,
}

impl Default for TaskBuilder {
    /// A builder with nothing set yet; the same as [`TaskBuilder::new`].
    fn default() -> (r: Self)
        ensures
            r.spec_target() is None,
            r.spec_backend() is None,
            r.spec_database() is None,
    {
        TaskBuilder { target: None, backend: None, database: None }
    }
}

impl TaskBuilder {
    /// The pending target, if one was set.
    pub closed spec fn spec_target(&self) -> Option<Target> {
        self.target
    }

    /// The chosen backend, if one was set.
    pub closed spec fn spec_backend(&self) -> Option<Backend> {
        self.backend
    }

    /// The recorded database name, if one was given.
    pub closed spec fn spec_database(&self) -> Option<String> {
        self.database
    }

    /// A builder with nothing set yet.
    pub fn new() -> (r: TaskBuilder)
        ensures
            r.spec_target() is None,
            r.spec_backend() is None,
            r.spec_database() is None,
    {
        TaskBuilder::default()
    }

    /// Records an optional database/service name; absence is valid.
    pub fn database(self, database: Option<String>) -> (r: Self)
        ensures
            r.spec_database() == database,
            r.spec_target() == self.spec_target(),
            r.spec_backend() == self.spec_backend(),
    {
        TaskBuilder { database, ..self }
    }

    /// Copies host, connection point, port and authentication out of
    /// `endpoint` into a new [`Target`] and sets it as the pending target.
    /// Pure copy; no I/O.
    pub fn target(self, endpoint: &Endpoint) -> (r: Self)
        ensures
            r.spec_target() == Some(Target::of_endpoint(*endpoint)),
            r.spec_backend() == self.spec_backend(),
            r.spec_database() == self.spec_database(),
    {
        TaskBuilder {
            target: Some(
                Target {
                    host: endpoint.hostname.clone(),
                    point: endpoint.point.clone(),
                    port: endpoint.port,
                    auth: endpoint.auth.clone(),
                },
            ),
            ..self
        }
    }

    /// Records the chosen backend variant. Any variant is accepted
    /// unconditionally; which one to pick is the caller's decision.
    pub fn backend(self, backend: Backend) -> (r: Self)
        ensures
            r.spec_backend() == Some(backend),
            r.spec_target() == self.spec_target(),
            r.spec_database() == self.spec_database(),
    {
        TaskBuilder { backend: Some(backend), ..self }
    }

    /// Validates that both a target and a backend were set and freezes them,
    /// together with the optional database name, into an immutable [`Task`].
    /// The contents themselves are not validated further: an endpoint is
    /// assumed already checked by the configuration layer.
    pub fn build(self) -> (r: Result<Task, ConfigurationError>)
        ensures
            self.spec_backend() is None ==> r == Err::<Task, ConfigurationError>(
                ConfigurationError::BackendNotDefined,
            ),
            self.spec_backend() is Some && self.spec_target() is None ==> r == Err::<
                Task,
                ConfigurationError,
            >(ConfigurationError::TargetAbsent),
            self.spec_target() is Some && self.spec_backend() is Some ==> (r matches Ok(task)
                && task.spec_target() == self.spec_target()->Some_0 && task.spec_backend()
                == self.spec_backend()->Some_0 && task.spec_database() == self.spec_database()),
    {
        match (self.backend, self.target) {
            (None, _) => Err(ConfigurationError::BackendNotDefined),
            (Some(_), None) => Err(ConfigurationError::TargetAbsent),
            (Some(backend), Some(target)) => Ok(
                Task { target, backend, database: self.database },
            ),
        }
    }
}

/// A fully validated, immutable unit of monitoring work: exactly one target
/// and exactly one backend, frozen at build time. No partially-built task is
/// observable outside the builder.
#[derive(Debug)]
pub struct Task {
    target: Target,
    backend: Backend,
    database: Option<String>,
}

impl Task {
    /// The task's target, frozen at build time.
    pub closed spec fn spec_target(&self) -> Target {
        self.target
    }

    /// The task's backend, frozen at build time.
    pub closed spec fn spec_backend(&self) -> Backend {
        self.backend
    }

    /// The task's database name, if any, frozen at build time.
    pub closed spec fn spec_database(&self) -> Option<String> {
        self.database
    }

    /// Dispatches on the backend variant. `Std` succeeds immediately (a
    /// placeholder for real session establishment); the unimplemented
    /// variants fail fast, deterministically, without attempting any I/O.
    pub fn connect(&self) -> (r: Result<(), UnimplementedBackendError>)
        ensures
            r is Ok <==> self.spec_backend() is Std,
            !(self.spec_backend() is Std) ==> r == Err::<(), UnimplementedBackendError>(
                UnimplementedBackendError {},
            ),
    {
        match &self.backend {
            Backend::Std(_) => Ok(()),
            Backend::SqlPlus(_) => Err(UnimplementedBackendError {}),
            Backend::Jdbc(_) => Err(UnimplementedBackendError {}),
        }
    }

    /// The task's target; the same value on every call, as the task is never
    /// mutated after build.
    pub fn target(&self) -> (r: &Target)
        ensures
            *r == self.spec_target(),
    {
        &self.target
    }

    /// The task's backend; the same value on every call.
    pub fn backend(&self) -> (r: &Backend)
        ensures
            *r == self.spec_backend(),
    {
        &self.backend
    }

    /// The task's database name, if any; the same value on every call.
    pub fn database(&self) -> (r: Option<&String>)
        ensures
            r is Some <==> self.spec_database() is Some,
            r matches Some(d) ==> self.spec_database() matches Some(n) && *d == n,
    {
        self.database.as_ref()
    }
}

/// An ephemeral username/password pair, produced on demand just before a
/// connection is opened; never stored on a [`Task`].
#[derive(Debug, PartialEq, Eq)]
pub struct Credentials {
    pub user: String,
    pub password: String,
}

/// Builds a [`Task`] from `endpoint` with the default backend choice,
/// currently [`Backend::SqlPlus`], and no database name.
pub fn make_task(endpoint: &Endpoint) -> (r: Result<Task, ConfigurationError>)
    ensures
        r matches Ok(task) && task.spec_target() == Target::of_endpoint(*endpoint)
            && task.spec_backend() is SqlPlus && task.spec_database() is None,
{
    TaskBuilder::new().target(endpoint).backend(Backend::SqlPlus(SqlPlusBackend {})).build()
}

/// Builds a [`Task`] as [`make_task`] does, then overrides the target's
/// point identifier with `point_name`, leaving host, port and authentication
/// untouched. Used when one physical endpoint is monitored under several
/// logical point names.
pub fn make_custom_task(endpoint: &Endpoint, point_name: &PointName) -> (r: Result<
    Task,
    ConfigurationError,
>)
    ensures
        r matches Ok(task) && task.spec_target().host == endpoint.hostname
            && task.spec_target().point == *point_name && task.spec_target().port == endpoint.port
            && task.spec_target().auth == endpoint.auth && task.spec_backend() is SqlPlus
            && task.spec_database() is None,
{
    match make_task(endpoint) {
        Ok(mut task) => {
            task.target.point = point_name.clone();
            Ok(task)
        },
        Err(e) => Err(e),
    }
}

/// The decision table from authentication mode to credential material:
/// `Standard` and `Kerberos` yield the configured user with the password, or
/// the empty string where none is set; OS-native authentication yields
/// nothing, meaning "use ambient OS credentials", not "empty credentials".
/// Pure; no side effects, no I/O.
pub fn obtain_config_credentials(auth: &Authentication) -> (r: Option<Credentials>)
    ensures
        r is Some <==> !(auth.auth_type is Os),
        r matches Some(c) ==> c.user == auth.username && (auth.password matches Some(p) ==> c.password
            == p) && (auth.password is None ==> c.password@ == Seq::<char>::empty()),
{
    match auth.auth_type {
        AuthType::Standard | AuthType::Kerberos => Some(
            Credentials {
                user: auth.username.clone(),
                password: match &auth.password {
                    Some(p) => p.clone(),
                    None => String::new(),
                },
            },
        ),
        AuthType::Os => None,
    }
}

/// Law: one input alone is not enough. Whatever [`TaskBuilder::build`]
/// returns for a builder that still misses its target or its backend is a
/// [`ConfigurationError`]; in particular a fresh builder, or one where only
/// one of the two was set, never yields a task.
pub proof fn lemma_one_input_is_not_enough(
    builder: TaskBuilder,
    built: Result<Task, ConfigurationError>,
)
    requires
        builder.spec_target() is None || builder.spec_backend() is None,
        call_ensures(TaskBuilder::build, (builder,), built),
    ensures
        built is Err,
{
}

/// Law: the accessors are idempotent. Two calls of [`Task::target`],
/// [`Task::backend`] or [`Task::database`] on the same task return the same
/// values: a task is never mutated after build.
pub proof fn lemma_task_accessors_idempotent(
    task: &Task,
    target_a: &Target,
    target_b: &Target,
    backend_a: &Backend,
    backend_b: &Backend,
    database_a: Option<&String>,
    database_b: Option<&String>,
)
    requires
        call_ensures(Task::target, (task,), target_a),
        call_ensures(Task::target, (task,), target_b),
        call_ensures(Task::backend, (task,), backend_a),
        call_ensures(Task::backend, (task,), backend_b),
        call_ensures(Task::database, (task,), database_a),
        call_ensures(Task::database, (task,), database_b),
    ensures
        *target_a == *target_b,
        *backend_a == *backend_b,
        database_a == database_b,
{
}

/// Law: overriding the point keeps every other coordinate. Whatever
/// [`make_task`] and [`make_custom_task`] return for the same endpoint, both
/// succeed, the custom task's target carries the supplied point name, and the
/// two targets agree on host, port and authentication.
pub proof fn lemma_custom_task_keeps_coordinates(
    endpoint: &Endpoint,
    point_name: &PointName,
    plain: Result<Task, ConfigurationError>,
    custom: Result<Task, ConfigurationError>,
)
    requires
        call_ensures(make_task, (endpoint,), plain),
        call_ensures(make_custom_task, (endpoint, point_name), custom),
    ensures
        plain is Ok,
        custom is Ok,
        custom->Ok_0.spec_target().point == *point_name,
        custom->Ok_0.spec_target().host == plain->Ok_0.spec_target().host,
        custom->Ok_0.spec_target().port == plain->Ok_0.spec_target().port,
        custom->Ok_0.spec_target().auth == plain->Ok_0.spec_target().auth,
        custom->Ok_0.spec_backend() == plain->Ok_0.spec_backend(),
{
}

} // verus!
