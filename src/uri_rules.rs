//! Patterns for the URI grammar: the loose and the strict form of each rule.
//!
//! A URI is a sequence of components separated by `.`. Loosely a component
//! may hold any characters but whitespace, `.` and `#`; strictly only
//! lower-case letters, digits and `_`.
use vstd::prelude::*;

verus! {

/// The loose and the strict pattern of a rule, as regular expressions.
#[derive(Clone, Copy, Debug, PartialEq, Eq)]
pub struct WampUriRule {
    pub loose: &'static str,
    pub strict: &'static str,
}

/// A grammar rule that has a pair of patterns.
pub trait Rule {
    /// The loose pattern of this rule.
    spec fn loose_pattern(&self) -> Seq<char>;

    /// The strict pattern of this rule.
    spec fn strict_pattern(&self) -> Seq<char>;

    /// The patterns of this rule.
    fn rule(&self) -> (r: WampUriRule)
        ensures
            r.loose@ == self.loose_pattern(),
            r.strict@ == self.strict_pattern(),
    ;
}

/// Rules that differ only in whether empty components are allowed.
#[derive(Clone, Copy, Debug, PartialEq, Eq, Structural)]
pub enum EasyRule {
    WithEmpty,
    NoEmpty,
}

impl Rule for EasyRule {
    open spec fn loose_pattern(&self) -> Seq<char> {
        match self {
            EasyRule::WithEmpty => r"^(([^\s\.#]+\.)|\.)*([^\s\.#]+)?$"@,
            EasyRule::NoEmpty => r"^([^\s\.#]+\.)*([^\s\.#]+)$"@,
        }
    }

    open spec fn strict_pattern(&self) -> Seq<char> {
        match self {
            EasyRule::WithEmpty => r"^(([0-9a-z_]+\.)|\.)*([0-9a-z_]+)?$"@,
            EasyRule::NoEmpty => r"^([0-9a-z_]+\.)*([0-9a-z_]+)$"@,
        }
    }

    fn rule(&self) -> (r: WampUriRule) {
        match self {
            EasyRule::WithEmpty => WampUriRule {
                loose: r"^(([^\s\.#]+\.)|\.)*([^\s\.#]+)?$",
                strict: r"^(([0-9a-z_]+\.)|\.)*([0-9a-z_]+)?$",
            },
            EasyRule::NoEmpty => WampUriRule {
                strict: r"^([0-9a-z_]+\.)*([0-9a-z_]+)$",
                loose: r"^([^\s\.#]+\.)*([^\s\.#]+)$",
            },
        }
    }
}

/// The rules of the URI grammar.
#[derive(Clone, Copy, Debug, PartialEq, Eq, Structural)]
pub enum WampRules {
    /// A single component.
    Name,
    /// One or more non-empty components.
    URI,
    /// Components of which the last may be empty.
    Prefix,
    /// Components any of which may be empty.
    PrefixOrWildcard,
}

impl Rule for WampRules {
    open spec fn loose_pattern(&self) -> Seq<char> {
        match self {
            WampRules::Name => r"^[^\s\.#]+$"@,
            WampRules::URI => r"^([^\s\.#]+\.)*([^\s\.#]+)$"@,
            WampRules::PrefixOrWildcard => r"^(([^\s\.#]+\.)|\.)*([^\s\.#]+)?$"@,
            WampRules::Prefix => r"^([^\s\.#]+\.)*([^\s\.#]*)$"@,
        }
    }

    open spec fn strict_pattern(&self) -> Seq<char> {
        match self {
            WampRules::Name => r"^[\da-z_]+$"@,
            WampRules::URI => r"^([\da-z_]+\.)*([\da-z_]+)$"@,
            WampRules::PrefixOrWildcard => r"^(([\da-z_]+\.)|\.)*([\da-z_]+)?$"@,
            WampRules::Prefix => r"^([\da-z_]+\.)*([\da-z_]*)$"@,
        }
    }

    fn rule(&self) -> (r: WampUriRule) {
        match self {
            WampRules::Name => WampUriRule { loose: r"^[^\s\.#]+$", strict: r"^[\da-z_]+$" },
            WampRules::URI => WampUriRule {
                loose: r"^([^\s\.#]+\.)*([^\s\.#]+)$",
                strict: r"^([\da-z_]+\.)*([\da-z_]+)$",
            },
            WampRules::PrefixOrWildcard => WampUriRule {
                loose: r"^(([^\s\.#]+\.)|\.)*([^\s\.#]+)?$",
                strict: r"^(([\da-z_]+\.)|\.)*([\da-z_]+)?$",
            },
            WampRules::Prefix => WampUriRule {
                loose: r"^([^\s\.#]+\.)*([^\s\.#]*)$",
                strict: r"^([\da-z_]+\.)*([\da-z_]*)$",
            },
        }
    }
}

} // verus!
