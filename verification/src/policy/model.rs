//! Policy rules as written in a mortar file's `[policy]` table, with their
//! abstract values over character sequences.

use vstd::prelude::*;

verus! {

/// The texts of a list of strings.
pub open spec fn names_view(v: Seq<String>) -> Seq<Seq<char>> {
    v.map_values(|s: String| s@)
}

/// The texts of an optional list of strings.
pub open spec fn opt_names_view(v: Option<Vec<String>>) -> Option<Seq<Seq<char>>> {
    match v {
        Some(l) => Some(names_view(l@)),
        None => None,
    }
}

/// The text of an optional string.
pub open spec fn opt_text(v: Option<String>) -> Option<Seq<char>> {
    match v {
        Some(s) => Some(s@),
        None => None,
    }
}

/// Copies a list of strings entry by entry.
pub fn clone_names(v: &Vec<String>) -> (r: Vec<String>)
    ensures
        r@ == v@,
        names_view(r@) == names_view(v@),
{
    let mut out: Vec<String> = Vec::new();
    let mut i: usize = 0;
    while i < v.len()
        invariant
            i <= v.len(),
            out@ == v@.take(i as int),
        decreases v.len() - i,
    {
        out.push(v[i].clone());
        assert(out@ =~= v@.take(i + 1));
        i = i + 1;
    }
    assert(v@.take(v.len() as int) =~= v@);
    out
}

/// Copies an optional list of strings.
pub fn clone_opt_names(v: &Option<Vec<String>>) -> (r: Option<Vec<String>>)
    ensures
        opt_names_view(r) == opt_names_view(*v),
{
    match v {
        Some(l) => Some(clone_names(l)),
        None => None,
    }
}

/// Copies an optional string.
pub fn clone_opt_string(v: &Option<String>) -> (r: Option<String>)
    ensures
        r == *v,
        opt_text(r) == opt_text(*v),
{
    match v {
        Some(s) => Some(s.clone()),
        None => None,
    }
}

/// A rule that denies connections.
#[derive(Debug)]
pub struct DenyRule {
    /// Sources the rule applies to; none means every source.
    pub from: Option<Vec<String>>,
    /// Targets the rule applies to; none means every target.
    pub to: Option<Vec<String>>,
    /// Sources or targets exempt from the rule.
    pub except: Option<Vec<String>>,
    /// Reason given when the rule denies a connection.
    pub reason: Option<String>,
}

/// Abstract value of a [`DenyRule`].
pub struct DenyRuleView {
    pub from: Option<Seq<Seq<char>>>,
    pub to: Option<Seq<Seq<char>>>,
    pub except: Option<Seq<Seq<char>>>,
    pub reason: Option<Seq<char>>,
}

impl View for DenyRule {
    type V = DenyRuleView;

    open spec fn view(&self) -> DenyRuleView {
        DenyRuleView {
            from: opt_names_view(self.from),
            to: opt_names_view(self.to),
            except: opt_names_view(self.except),
            reason: opt_text(self.reason),
        }
    }
}

/// A rule that states requirements on connections.
#[derive(Debug)]
pub struct RequireRule {
    /// Networks the requirement concerns.
    pub networks: Option<Vec<String>>,
    /// Source services the requirement applies to; none means every service.
    pub services: Option<Vec<String>>,
    /// Whether TLS is required.
    pub tls: Option<bool>,
    /// Whether auditing is required.
    pub audit: Option<bool>,
    /// Whether encryption is required.
    pub encryption: Option<bool>,
}

/// Abstract value of a [`RequireRule`].
pub struct RequireRuleView {
    pub networks: Option<Seq<Seq<char>>>,
    pub services: Option<Seq<Seq<char>>>,
    pub tls: Option<bool>,
    pub audit: Option<bool>,
    pub encryption: Option<bool>,
}

impl View for RequireRule {
    type V = RequireRuleView;

    open spec fn view(&self) -> RequireRuleView {
        RequireRuleView {
            networks: opt_names_view(self.networks),
            services: opt_names_view(self.services),
            tls: self.tls,
            audit: self.audit,
            encryption: self.encryption,
        }
    }
}

/// A rule that lets connections through with a warning.
#[derive(Debug)]
pub struct WarnRule {
    /// Warn on connections that leave the mortar project.
    pub cross_network: Option<bool>,
    /// Targets exempt from the warning.
    pub except: Option<Vec<String>>,
}

/// Abstract value of a [`WarnRule`].
pub struct WarnRuleView {
    pub cross_network: Option<bool>,
    pub except: Option<Seq<Seq<char>>>,
}

impl View for WarnRule {
    type V = WarnRuleView;

    open spec fn view(&self) -> WarnRuleView {
        WarnRuleView { cross_network: self.cross_network, except: opt_names_view(self.except) }
    }
}

/// The policy of a mortar project.
#[derive(Debug)]
pub struct Policy {
    /// Policy description.
    pub description: Option<String>,
    /// Deny rules, checked first.
    pub deny: Option<Vec<DenyRule>>,
    /// Require rules, checked second.
    pub require: Option<Vec<RequireRule>>,
    /// Warn rules, checked last.
    pub warn: Option<Vec<WarnRule>>,
}

/// Abstract value of a [`Policy`].
pub struct PolicyView {
    pub description: Option<Seq<char>>,
    pub deny: Option<Seq<DenyRuleView>>,
    pub require: Option<Seq<RequireRuleView>>,
    pub warn: Option<Seq<WarnRuleView>>,
}

impl View for Policy {
    type V = PolicyView;

    open spec fn view(&self) -> PolicyView {
        PolicyView {
            description: opt_text(self.description),
            deny: match self.deny {
                Some(v) => Some(deny_views(v@)),
                None => None,
            },
            require: match self.require {
                Some(v) => Some(require_views(v@)),
                None => None,
            },
            warn: match self.warn {
                Some(v) => Some(warn_views(v@)),
                None => None,
            },
        }
    }
}

/// Abstract values of a list of deny rules.
pub open spec fn deny_views(s: Seq<DenyRule>) -> Seq<DenyRuleView> {
    s.map_values(|r: DenyRule| r@)
}

/// Abstract values of a list of require rules.
pub open spec fn require_views(s: Seq<RequireRule>) -> Seq<RequireRuleView> {
    s.map_values(|r: RequireRule| r@)
}

/// Abstract values of a list of warn rules.
pub open spec fn warn_views(s: Seq<WarnRule>) -> Seq<WarnRuleView> {
    s.map_values(|r: WarnRule| r@)
}

/// Number of rules in an optional rule list.
pub open spec fn rule_count<T>(v: Option<Seq<T>>) -> nat {
    match v {
        Some(s) => s.len(),
        None => 0,
    }
}

impl DenyRule {
    /// A copy with the same abstract value.
    pub fn duplicate(&self) -> (r: Self)
        ensures
            r@ == self@,
    {
        DenyRule {
            from: clone_opt_names(&self.from),
            to: clone_opt_names(&self.to),
            except: clone_opt_names(&self.except),
            reason: clone_opt_string(&self.reason),
        }
    }
}

impl RequireRule {
    /// A copy with the same abstract value.
    pub fn duplicate(&self) -> (r: Self)
        ensures
            r@ == self@,
    {
        RequireRule {
            networks: clone_opt_names(&self.networks),
            services: clone_opt_names(&self.services),
            tls: self.tls,
            audit: self.audit,
            encryption: self.encryption,
        }
    }
}

impl WarnRule {
    /// A copy with the same abstract value.
    pub fn duplicate(&self) -> (r: Self)
        ensures
            r@ == self@,
    {
        WarnRule { cross_network: self.cross_network, except: clone_opt_names(&self.except) }
    }
}

impl Policy {
    /// A copy with the same abstract value.
    pub fn duplicate(&self) -> (r: Self)
        ensures
            r@ == self@,
    {
        let deny = match &self.deny {
            Some(v) => {
                let mut out: Vec<DenyRule> = Vec::new();
                let mut i: usize = 0;
                while i < v.len()
                    invariant
                        i <= v.len(),
                        out@.len() == i,
                        forall|j: int| 0 <= j < i ==> #[trigger] out@[j]@ == v@[j]@,
                    decreases v.len() - i,
                {
                    let d = v[i].duplicate();
                    out.push(d);
                    i = i + 1;
                }
                assert(deny_views(out@) =~= deny_views(v@));
                Some(out)
            }
            None => None,
        };
        let require = match &self.require {
            Some(v) => {
                let mut out: Vec<RequireRule> = Vec::new();
                let mut i: usize = 0;
                while i < v.len()
                    invariant
                        i <= v.len(),
                        out@.len() == i,
                        forall|j: int| 0 <= j < i ==> #[trigger] out@[j]@ == v@[j]@,
                    decreases v.len() - i,
                {
                    let d = v[i].duplicate();
                    out.push(d);
                    i = i + 1;
                }
                assert(require_views(out@) =~= require_views(v@));
                Some(out)
            }
            None => None,
        };
        let warn = match &self.warn {
            Some(v) => {
                let mut out: Vec<WarnRule> = Vec::new();
                let mut i: usize = 0;
                while i < v.len()
                    invariant
                        i <= v.len(),
                        out@.len() == i,
                        forall|j: int| 0 <= j < i ==> #[trigger] out@[j]@ == v@[j]@,
                    decreases v.len() - i,
                {
                    let d = v[i].duplicate();
                    out.push(d);
                    i = i + 1;
                }
                assert(warn_views(out@) =~= warn_views(v@));
                Some(out)
            }
            None => None,
        };
        Policy { description: clone_opt_string(&self.description), deny, require, warn }
    }
}

} // verus!
