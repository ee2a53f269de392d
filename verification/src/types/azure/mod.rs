//! Shapes of the Azure surfaces, and the identifiers of Azure resources.

pub mod common;
pub mod log_analytics;
pub mod resource_manager;
pub mod sentinel;

use crate::azure::log_analytics::byte_len;
use crate::text::{
    all_alphanumeric_or, copy_chars, count_char, count_of, lemma_run_len_is, only_alphanumeric_or,
    run_len,
};
use vstd::prelude::*;
use vstd::string::*;

verus! {

/// The identifier of a resource, in the form that its scope gives it.
#[derive(Debug)]
pub enum ResourceId {
    /// `/subscriptions/{subscriptionId}/resourceGroups/{resourceGroupName}/providers/{resourceProviderNamespace}/{resourceType}/{resourceName}`
    ResourceGroup {
        subscription_id: u128,
        resource_group_name: ResourceGroup,
        provider_namespace: ProviderNamespace,
        resource_type: String,
        resource_name: String,
    },
    /// `/subscriptions/{subscriptionId}/providers/{resourceProviderNamespace}/{resourceType}/{resourceName}`
    Subscription {
        subscription_id: u128,
        provider_namespace: ProviderNamespace,
        resource_type: String,
        resource_name: String,
    },
    /// `/providers/{resourceProviderNamespace}/{resourceType}/{resourceName}`
    ManagementGroupOrTenant {
        provider_namespace: ProviderNamespace,
        resource_type: String,
        resource_name: String,
    },
}

/// Why a text is no name of its kind.
#[derive(Debug, Clone, Copy, PartialEq, Eq, Structural)]
pub enum NameError {
    /// A provider namespace is not of the form `prefix.suffix`.
    NamespaceForm,
    /// A part of a provider namespace is empty or holds a character that is
    /// neither alphabetic nor numeric.
    NamespaceCharacters,
    /// The name of a resource group is empty or longer than 90 bytes.
    GroupLength,
    /// The name of a resource group ends with a period.
    GroupEndsWithPeriod,
    /// The name of a resource group holds a character that it may not hold.
    GroupCharacters,
}

impl NameError {
    /// What the error says.
    pub open spec fn text(self) -> Seq<char> {
        match self {
            NameError::NamespaceForm => "Provider Namespace must be in the format 'prefix.suffix'"@,
            NameError::NamespaceCharacters => "Provider Namespace parts must be alphanumerics only"@,
            NameError::GroupLength => "Resource Group name must be between 1 and 90 characters"@,
            NameError::GroupEndsWithPeriod => "Resource Group name cannot end with a period"@,
            NameError::GroupCharacters => "Resource Group name contains invalid characters"@,
        }
    }

    /// What the error says.
    pub fn message(&self) -> (text: String)
        ensures
            text@ == self.text(),
    {
        match self {
            NameError::NamespaceForm => String::from_str(
                "Provider Namespace must be in the format 'prefix.suffix'",
            ),
            NameError::NamespaceCharacters => String::from_str(
                "Provider Namespace parts must be alphanumerics only",
            ),
            NameError::GroupLength => String::from_str(
                "Resource Group name must be between 1 and 90 characters",
            ),
            NameError::GroupEndsWithPeriod => String::from_str(
                "Resource Group name cannot end with a period",
            ),
            NameError::GroupCharacters => String::from_str(
                "Resource Group name contains invalid characters",
            ),
        }
    }
}

/// The namespace of a resource provider: a prefix and a suffix, as in
/// `Microsoft.Compute`.
#[derive(Debug)]
pub struct ProviderNamespace(String, String);

/// A part of a provider namespace: not empty, alphabetic and numeric
/// characters only.
pub open spec fn namespace_part(part: Seq<char>) -> bool {
    part.len() > 0 && all_alphanumeric_or(part, Seq::empty())
}

/// What a text names as a provider namespace: its two parts, where it holds
/// one period and both parts are well formed.
pub open spec fn namespace_named(text: Seq<char>) -> Result<(Seq<char>, Seq<char>), NameError> {
    if count_of(text, '.') != 1 {
        Err(NameError::NamespaceForm)
    } else {
        let at = run_len(text, '.') as int;
        let prefix = text.take(at);
        let suffix = text.skip(at + 1);
        if namespace_part(prefix) && namespace_part(suffix) {
            Ok((prefix, suffix))
        } else {
            Err(NameError::NamespaceCharacters)
        }
    }
}

impl ProviderNamespace {
    /// The part before the period.
    pub closed spec fn prefix(&self) -> Seq<char> {
        self.0@
    }

    /// The part after the period.
    pub closed spec fn suffix(&self) -> Seq<char> {
        self.1@
    }

    /// Reads a provider namespace.
    pub fn try_from(value: &str) -> (r: Result<ProviderNamespace, NameError>)
        ensures
            match namespace_named(value@) {
                Ok(parts) => r matches Ok(namespace) && namespace.prefix() == parts.0
                    && namespace.suffix() == parts.1,
                Err(e) => r matches Err(told) && told == e,
            },
    {
        if count_char(value, '.') != 1 {
            return Err(NameError::NamespaceForm);
        }
        let v = copy_chars(value);
        let n = v.len();
        let mut at: usize = 0;
        while at < n && v[at] != '.'
            invariant
                n == v.len(),
                v@ == value@,
                at <= n,
                forall|k: int| 0 <= k < at ==> value@[k] != '.',
            decreases n - at,
        {
            at = at + 1;
        }
        proof {
            lemma_run_len_is(value@, '.', at as int);
            lemma_counted(value@, '.');
        }
        let prefix = value.substring_char(0, at);
        let suffix = value.substring_char(at + 1, n);
        let prefix_ok = prefix.unicode_len() > 0 && only_alphanumeric_or(prefix, "");
        let suffix_ok = suffix.unicode_len() > 0 && only_alphanumeric_or(suffix, "");
        proof {
            reveal_strlit("");
        }
        if !prefix_ok || !suffix_ok {
            return Err(NameError::NamespaceCharacters);
        }
        Ok(ProviderNamespace(String::from_str(prefix), String::from_str(suffix)))
    }
}

/// A sequence in which `c` occurs holds it before its end.
pub proof fn lemma_counted(s: Seq<char>, c: char)
    requires
        count_of(s, c) > 0,
    ensures
        run_len(s, c) < s.len(),
    decreases s.len(),
{
    if s.len() > 0 && s[0] != c {
        lemma_count_split(s, c);
        lemma_counted(s.drop_first(), c);
    }
}

/// Counting from the front: the count of a sequence is that of its first
/// element and that of the rest.
pub proof fn lemma_count_split(s: Seq<char>, c: char)
    requires
        s.len() > 0,
    ensures
        count_of(s, c) == count_of(s.drop_first(), c) + if s[0] == c {
            1nat
        } else {
            0nat
        },
    decreases s.len(),
{
    if s.len() == 1 {
        assert(s.drop_last() =~= Seq::<char>::empty());
        assert(s.drop_first() =~= Seq::<char>::empty());
    } else {
        let front = s.drop_last();
        lemma_count_split(front, c);
        assert(front.drop_first() =~= s.drop_first().drop_last());
    }
}

/// The name of a resource group.
#[derive(Debug)]
pub struct ResourceGroup {
    name: String,
}

pub open spec fn group_punctuation() -> Seq<char> {
    "_().-"@
}

/// What a text names as a resource group: itself, where it is 1 to 90 bytes
/// long, does not end with a period, and holds alphabetic and numeric
/// characters, underscores, parentheses, hyphens and periods only.
pub open spec fn group_named(text: Seq<char>) -> Result<Seq<char>, NameError> {
    if byte_len(text) < 1 || byte_len(text) > 90 {
        Err(NameError::GroupLength)
    } else if text.len() > 0 && text.last() == '.' {
        Err(NameError::GroupEndsWithPeriod)
    } else if !all_alphanumeric_or(text, group_punctuation()) {
        Err(NameError::GroupCharacters)
    } else {
        Ok(text)
    }
}

impl View for ResourceGroup {
    type V = Seq<char>;

    closed spec fn view(&self) -> Seq<char> {
        self.name@
    }
}

impl ResourceGroup {
    /// Reads the name of a resource group.
    pub fn try_from(value: &str) -> (r: Result<ResourceGroup, NameError>)
        ensures
            match group_named(value@) {
                Ok(name) => r matches Ok(group) && group@ == name,
                Err(e) => r matches Err(told) && told == e,
            },
    {
        let len = value.as_bytes().len();
        if len < 1 || len > 90 {
            return Err(NameError::GroupLength);
        }
        let v = copy_chars(value);
        if v.len() > 0 && v[v.len() - 1] == '.' {
            return Err(NameError::GroupEndsWithPeriod);
        }
        if !only_alphanumeric_or(value, "_().-") {
            return Err(NameError::GroupCharacters);
        }
        Ok(ResourceGroup { name: String::from_str(value) })
    }

    pub fn name(&self) -> (name: &str)
        ensures
            name@ == self@,
    {
        self.name.as_str()
    }
}

} // verus!
