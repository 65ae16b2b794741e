//! The data the console manages: namespaces and configuration entries.

use vstd::prelude::*;

verus! {

/// Namespace kind reported by the remote service for the built-in default
/// namespace.
pub const NS_TYPE_DEFAULT: i32 = 0;

/// Namespace kind reported by the remote service for namespaces a user
/// created.
pub const NS_TYPE_USER_CREATED: i32 = 2;

/// Quota the remote service assigns a namespace when none was chosen.
pub const DEFAULT_QUOTA: i32 = 200;

/// One configuration entry of a namespace.
#[derive(Debug, Clone, PartialEq, Eq)]
pub struct ConfigItem {
    pub data_id: String,
    pub group: String,
    pub format: String,
    pub content: String,
}

/// The abstract value of a [`ConfigItem`].
#[verifier::ext_equal]
pub struct ConfigItemView {
    pub data_id: Seq<char>,
    pub group: Seq<char>,
    pub format: Seq<char>,
    pub content: Seq<char>,
}

impl View for ConfigItem {
    type V = ConfigItemView;

    open spec fn view(&self) -> ConfigItemView {
        ConfigItemView {
            data_id: self.data_id@,
            group: self.group@,
            format: self.format@,
            content: self.content@,
        }
    }
}

/// One logical namespace of the remote service. An empty `ns_id` names the
/// default (public) namespace.
#[derive(Debug, Clone, PartialEq, Eq)]
pub struct NamespaceItem {
    pub ns_name: String,
    pub ns_id: String,
    pub ns_desc: Option<String>,
    pub quota: i32,
    pub config_count: i32,
    /// [`NS_TYPE_DEFAULT`] for the built-in namespace,
    /// [`NS_TYPE_USER_CREATED`] for user-created ones.
    pub ns_typs: i32,
}

/// The abstract value of a [`NamespaceItem`].
#[verifier::ext_equal]
pub struct NamespaceItemView {
    pub ns_name: Seq<char>,
    pub ns_id: Seq<char>,
    pub ns_desc: Option<Seq<char>>,
    pub quota: int,
    pub config_count: int,
    pub ns_typs: int,
}

impl View for NamespaceItem {
    type V = NamespaceItemView;

    open spec fn view(&self) -> NamespaceItemView {
        NamespaceItemView {
            ns_name: self.ns_name@,
            ns_id: self.ns_id@,
            ns_desc: match self.ns_desc {
                Some(d) => Some(d@),
                None => None,
            },
            quota: self.quota as int,
            config_count: self.config_count as int,
            ns_typs: self.ns_typs as int,
        }
    }
}

} // verus!
