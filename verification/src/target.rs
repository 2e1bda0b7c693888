//! The deployment descriptor that an upload reads.

use vstd::prelude::*;

verus! {

/// A key-value namespace bound to the script under the name `binding`.
#[derive(Debug)]
pub struct KvNamespace {
    pub id: String,
    pub binding: String,
}

/// The site served by the script: the local directory that holds its assets.
#[derive(Debug)]
pub struct Site {
    pub bucket: String,
}

/// What is to be deployed: the account, the script's name, and the optional
/// namespace bindings and site.
#[derive(Debug)]
pub struct Target {
    pub account_id: String,
    pub name: String,
    pub kv_namespaces: Option<Vec<KvNamespace>>,
    pub site: Option<Site>,
}

impl Target {
    /// A copy of this target that declares no key-value namespaces. The
    /// target itself is left as it is.
    pub fn without_kv_namespaces(&self) -> (r: Target)
        ensures
            r.account_id == self.account_id,
            r.name == self.name,
            r.kv_namespaces is None,
            r.site == self.site,
    {
        let site = match &self.site {
            Some(s) => Some(Site { bucket: s.bucket.clone() }),
            None => None,
        };
        Target {
            account_id: self.account_id.clone(),
            name: self.name.clone(),
            kv_namespaces: None,
            site,
        }
    }
}

} // verus!
