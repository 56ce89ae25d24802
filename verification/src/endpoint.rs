//! The configuration-supplied description of one monitored database: its
//! connection coordinates and the authentication mode to present.
//!
//! Values of these types are produced by a configuration layer outside this
//! crate and are read-only here; the task core only copies them into a
//! [`crate::backend::Target`].

use vstd::prelude::*;

verus! {

/// Name of the database host, as configuration supplies it.
#[derive(Debug, PartialEq, Eq)]
pub struct HostName {
    pub value: String,
}

impl View for HostName {
    type V = Seq<char>;

    open spec fn view(&self) -> Seq<char> {
        self.value@
    }
}

impl Clone for HostName {
    fn clone(&self) -> (r: Self)
        ensures
            r == *self,
    {
        HostName { value: self.value.clone() }
    }
}

/// Name of the logical monitoring point under which the database is checked.
#[derive(Debug, PartialEq, Eq)]
pub struct PointName {
    pub value: String,
}

impl View for PointName {
    type V = Seq<char>;

    open spec fn view(&self) -> Seq<char> {
        self.value@
    }
}

impl Clone for PointName {
    fn clone(&self) -> (r: Self)
        ensures
            r == *self,
    {
        PointName { value: self.value.clone() }
    }
}

/// TCP port of the database listener.
#[derive(Debug, Clone, Copy, PartialEq, Eq)]
pub struct Port {
    pub value: u16,
}

/// The authentication mode chosen in the configuration.
#[derive(Debug, Clone, Copy, PartialEq, Eq)]
pub enum AuthType {
    /// Database-managed user and password.
    Standard,
    /// Kerberos, still presenting the configured user and password.
    Kerberos,
    /// Ambient OS credentials; no explicit credential material exists.
    Os,
}

/// The credential material and mode attached to an endpoint.
#[derive(Debug, PartialEq, Eq)]
pub struct Authentication {
    pub username: String,
    pub password: Option<String>,
    pub auth_type: AuthType,
}

impl Clone for Authentication {
    fn clone(&self) -> (r: Self)
        ensures
            r == *self,
    {
        Authentication {
            username: self.username.clone(),
            password: match &self.password {
                Some(p) => Some(p.clone()),
                None => None,
            },
            auth_type: self.auth_type,
        }
    }
}

/// One validated configuration unit: where the database is reachable and how
/// to authenticate against it.
#[derive(Debug, PartialEq, Eq)]
pub struct Endpoint {
    pub hostname: HostName,
    pub point: PointName,
    pub port: Port,
    pub auth: Authentication,
}

} // verus!
