//! The shapes of the remote service's answers, and their conversion into
//! the console's own model types.
//!
//! The field names follow the wire schema of the service, which is why they
//! are not snake case. Decoding the wire bytes into these values is the I/O
//! boundary's job; the conversions below, from a decoded answer to the
//! model the screens render, are verified.

use vstd::prelude::*;

use crate::model::{ConfigItem, ConfigItemView, NamespaceItem, NamespaceItemView};

verus! {

/// Answer to a login request.
#[allow(non_snake_case)]
#[derive(Debug, Clone, PartialEq, Eq)]
pub struct AuthLoginResp {
    pub accessToken: String,
    pub tokenTtl: i64,
    pub globalAdmin: bool,
    pub username: String,
}

/// Answer to a configuration listing request.
#[derive(Debug, Clone, PartialEq, Eq)]
pub struct ConfigListResp {
    pub code: i32,
    pub message: Option<String>,
    pub data: Vec<Config>,
}

/// One configuration entry as the remote service reports it.
#[allow(non_snake_case)]
#[derive(Debug, Clone, PartialEq, Eq)]
pub struct Config {
    pub id: String,
    pub dataId: String,
    pub group: String,
    pub content: Option<String>,
    pub md5: Option<String>,
    pub encryptedDataKey: Option<String>,
    pub tenant: String,
    pub appName: String,
    pub type_: String,
    pub lastModified: i64,
}

/// Answer to a namespace listing request.
#[derive(Debug, Clone, PartialEq, Eq)]
pub struct NamespaceListResp {
    pub code: i32,
    pub message: Option<String>,
    pub data: Vec<Namespace>,
}

/// One namespace as the remote service reports it.
#[allow(non_snake_case)]
#[derive(Debug, Clone, PartialEq, Eq)]
pub struct Namespace {
    pub namespace: String,
    pub namespaceShowName: String,
    pub namespaceDesc: Option<String>,
    pub quota: i32,
    pub configCount: i32,
    pub type_: i32,
}

/// The model entry a reported namespace stands for: names and counters
/// carried over field by field.
pub open spec fn namespace_item_of(n: Namespace) -> NamespaceItemView {
    NamespaceItemView {
        ns_name: n.namespaceShowName@,
        ns_id: n.namespace@,
        ns_desc: match n.namespaceDesc {
            Some(d) => Some(d@),
            None => None,
        },
        quota: n.quota as int,
        config_count: n.configCount as int,
        ns_typs: n.type_ as int,
    }
}

/// The model entry a reported configuration stands for; an absent content
/// collapses to the empty string.
pub open spec fn config_item_of(c: Config) -> ConfigItemView {
    ConfigItemView {
        data_id: c.dataId@,
        group: c.group@,
        format: c.type_@,
        content: match c.content {
            Some(t) => t@,
            None => Seq::empty(),
        },
    }
}

impl Namespace {
    /// The model entry this reported namespace stands for.
    pub fn to_item(&self) -> (r: NamespaceItem)
        ensures
            r@ == namespace_item_of(*self),
    {
        let r = NamespaceItem {
            ns_name: self.namespaceShowName.clone(),
            ns_id: self.namespace.clone(),
            ns_desc: match &self.namespaceDesc {
                Some(d) => Some(d.clone()),
                None => None,
            },
            quota: self.quota,
            config_count: self.configCount,
            ns_typs: self.type_,
        };
        proof {
            assert(r@ =~= namespace_item_of(*self));
        }
        r
    }
}

impl Config {
    /// The model entry this reported configuration stands for. An absent
    /// content collapses to the empty string.
    pub fn to_item(&self) -> (r: ConfigItem)
        ensures
            r@ == config_item_of(*self),
    {
        let r = ConfigItem {
            data_id: self.dataId.clone(),
            group: self.group.clone(),
            format: self.type_.clone(),
            content: match &self.content {
                Some(c) => c.clone(),
                None => String::new(),
            },
        };
        proof {
            assert(r@ =~= config_item_of(*self));
        }
        r
    }
}

impl NamespaceListResp {
    /// The namespace cache this listing populates, in the order the service
    /// reported.
    pub fn to_items(&self) -> (r: Vec<NamespaceItem>)
        ensures
            r@.len() == self.data@.len(),
            forall|i: int|
                0 <= i < r@.len() ==> (#[trigger] r@[i])@ == namespace_item_of(self.data@[i]),
    {
        let mut r: Vec<NamespaceItem> = Vec::new();
        let mut i: usize = 0;
        while i < self.data.len()
            invariant
                i <= self.data@.len(),
                r@.len() == i,
                forall|j: int|
                    0 <= j < i ==> (#[trigger] r@[j])@ == namespace_item_of(self.data@[j]),
            decreases self.data@.len() - i,
        {
            r.push(self.data[i].to_item());
            i += 1;
        }
        r
    }
}

impl ConfigListResp {
    /// The configuration cache this listing populates, in the order the
    /// service reported.
    pub fn to_items(&self) -> (r: Vec<ConfigItem>)
        ensures
            r@.len() == self.data@.len(),
            forall|i: int|
                0 <= i < r@.len() ==> (#[trigger] r@[i])@ == config_item_of(self.data@[i]),
    {
        let mut r: Vec<ConfigItem> = Vec::new();
        let mut i: usize = 0;
        while i < self.data.len()
            invariant
                i <= self.data@.len(),
                r@.len() == i,
                forall|j: int|
                    0 <= j < i ==> (#[trigger] r@[j])@ == config_item_of(self.data@[j]),
            decreases self.data@.len() - i,
        {
            r.push(self.data[i].to_item());
            i += 1;
        }
        r
    }
}

} // verus!
