//! Requests of the virtual machine API: which method, which path and which
//! namespace each client operation sends.
use vstd::prelude::*;
use vstd::string::StringExecFns;

verus! {

#[derive(PartialEq, Eq, Structural, Clone, Copy, Debug)]
pub enum HttpMethod {
    Get,
    Post,
    Patch,
    Delete,
}

/// One request to the daemon: the body, if any, is added by the sender.
pub struct VmRequest {
    pub method: HttpMethod,
    pub path: String,
    pub namespace: Option<String>,
}

impl VmRequest {
    /// Path and query of the request: the namespace, when given, goes in the query.
    pub open spec fn target_spec(&self) -> Seq<char> {
        match self.namespace {
            Some(n) => self.path@ + "?namespace="@ + n@,
            None => self.path@,
        }
    }

    pub fn target(&self) -> (r: String)
        ensures
            r@ == self.target_spec(),
    {
        let mut t = self.path.clone();
        match &self.namespace {
            Some(n) => {
                t.append("?namespace=");
                t.append(n.as_str());
            },
            None => {},
        }
        t
    }
}

/// `/<version>/vms`
pub open spec fn vms_path(version: Seq<char>) -> Seq<char> {
    "/"@ + version + "/vms"@
}

/// `/<version>/vms/<name>`
pub open spec fn vm_path(version: Seq<char>, name: Seq<char>) -> Seq<char> {
    vms_path(version) + "/"@ + name
}

/// `/<version>/vms/<name>/<action>`
pub open spec fn vm_action_path(version: Seq<char>, name: Seq<char>, action: Seq<char>) -> Seq<char> {
    vm_path(version, name) + "/"@ + action
}

/// The client side of the daemon API, as far as requests are shaped.
pub struct NanocldClient {
    /// API version that prefixes every path.
    pub version: String,
}

impl NanocldClient {
    pub fn new(version: String) -> (r: NanocldClient)
        ensures
            r.version == version,
    {
        NanocldClient { version }
    }

    fn collection_path(&self) -> (r: String)
        ensures
            r@ == vms_path(self.version@),
    {
        let mut p = String::from_str("/");
        p.append(self.version.as_str());
        p.append("/vms");
        p
    }

    fn item_path(&self, name: &str) -> (r: String)
        ensures
            r@ == vm_path(self.version@, name@),
    {
        let mut p = self.collection_path();
        p.append("/");
        p.append(name);
        p
    }

    fn action_path(&self, name: &str, action: &str) -> (r: String)
        ensures
            r@ == vm_action_path(self.version@, name@, action@),
    {
        let mut p = self.item_path(name);
        p.append("/");
        p.append(action);
        p
    }

    /// Creates a virtual machine in `namespace`; the body is its configuration.
    pub fn create_vm(&self, namespace: Option<String>) -> (r: VmRequest)
        ensures
            r.method == HttpMethod::Post,
            r.path@ == vms_path(self.version@),
            r.namespace == namespace,
    {
        VmRequest { method: HttpMethod::Post, path: self.collection_path(), namespace }
    }

    /// Lists the virtual machines of `namespace`.
    pub fn list_vm(&self, namespace: Option<String>) -> (r: VmRequest)
        ensures
            r.method == HttpMethod::Get,
            r.path@ == vms_path(self.version@),
            r.namespace == namespace,
    {
        VmRequest { method: HttpMethod::Get, path: self.collection_path(), namespace }
    }

    /// Deletes the virtual machine `name`.
    pub fn delete_vm(&self, name: &str, namespace: Option<String>) -> (r: VmRequest)
        ensures
            r.method == HttpMethod::Delete,
            r.path@ == vm_path(self.version@, name@),
            r.namespace == namespace,
    {
        VmRequest { method: HttpMethod::Delete, path: self.item_path(name), namespace }
    }

    /// Inspects the virtual machine `name`.
    pub fn inspect_vm(&self, name: &str, namespace: Option<String>) -> (r: VmRequest)
        ensures
            r.method == HttpMethod::Get,
            r.path@ == vm_action_path(self.version@, name@, "inspect"@),
            r.namespace == namespace,
    {
        VmRequest { method: HttpMethod::Get, path: self.action_path(name, "inspect"), namespace }
    }

    /// Starts the virtual machine `name`.
    pub fn start_vm(&self, name: &str, namespace: Option<String>) -> (r: VmRequest)
        ensures
            r.method == HttpMethod::Post,
            r.path@ == vm_action_path(self.version@, name@, "start"@),
            r.namespace == namespace,
    {
        VmRequest { method: HttpMethod::Post, path: self.action_path(name, "start"), namespace }
    }

    /// Stops the virtual machine `name`.
    pub fn stop_vm(&self, name: &str, namespace: Option<String>) -> (r: VmRequest)
        ensures
            r.method == HttpMethod::Post,
            r.path@ == vm_action_path(self.version@, name@, "stop"@),
            r.namespace == namespace,
    {
        VmRequest { method: HttpMethod::Post, path: self.action_path(name, "stop"), namespace }
    }

    /// Attaches to the console of the virtual machine `name`; the body is a stream.
    pub fn attach_vm(&self, name: &str, namespace: Option<String>) -> (r: VmRequest)
        ensures
            r.method == HttpMethod::Post,
            r.path@ == vm_action_path(self.version@, name@, "attach"@),
            r.namespace == namespace,
    {
        VmRequest { method: HttpMethod::Post, path: self.action_path(name, "attach"), namespace }
    }

    /// Updates the virtual machine `name`; the body is the update.
    pub fn patch_vm(&self, name: &str, namespace: Option<String>) -> (r: VmRequest)
        ensures
            r.method == HttpMethod::Patch,
            r.path@ == vm_path(self.version@, name@),
            r.namespace == namespace,
    {
        VmRequest { method: HttpMethod::Patch, path: self.item_path(name), namespace }
    }
}

} // verus!
